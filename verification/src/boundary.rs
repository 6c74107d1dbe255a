//! The trusted boundary: the few outside calls the renderer leans on.
//!
//! The hex-dump shape of a byte slice, the display text of a tag number and
//! the debug text of an object identifier are owned by the `rusticata-macros`
//! and `asn1-rs` crates; this module wraps those calls and states what they
//! return.  Two small pieces of `std` that vstd gives no specification to,
//! `char::from_u32` and `String::push`, are wrapped here as well.

use crate::text;
use vstd::prelude::*;

verus! {

/// What `asn1_rs::Tag`'s `Display` impl prints for a tag number: the
/// standard name of a known universal tag, a numeric form otherwise.  The
/// text depends on the number alone.
pub uninterp spec fn tag_display(t: u32) -> Seq<char>;

/// What `asn1_rs::Oid`'s `Debug` impl prints for an object identifier with
/// the given DER-encoded arc bytes: `OID(..)` around the dotted-decimal
/// arcs, with a `rel. ` marker for a relative identifier.  The text depends
/// on the bytes and the relative marker alone.
pub uninterp spec fn oid_debug(bytes: Seq<u8>, relative: bool) -> Seq<char>;

/// Relies on `rusticata_macros::debug::HexSlice`'s `Debug` impl: each byte
/// becomes two lowercase hexadecimal digits, the pairs are space-separated
/// and the whole is bracketed.
#[verifier::external_body]
pub(crate) fn hex_slice_text(bytes: &[u8]) -> (r: String)
    ensures
        r@ == text::hex_dump(bytes@),
{
    format!("{:?}", rusticata_macros::debug::HexSlice(bytes))
}

/// Relies on `asn1_rs::Tag`'s `Display` impl (written by
/// `rusticata_macros::newtype_enum`): it prints a tag name or a numeric
/// form, both free of line breaks.
#[verifier::external_body]
pub(crate) fn tag_text(t: u32) -> (r: String)
    ensures
        r@ == tag_display(t),
        forall|i: int| 0 <= i < r@.len() ==> r@[i] != '\n',
{
    format!("{}", asn1_rs::Tag(t))
}

/// Relies on `asn1_rs::Oid::new` and `Oid`'s `Debug` impl: the printed text
/// is made of digits, dots, hexadecimal pairs and spaces inside `OID(..)`,
/// free of line breaks.
#[verifier::external_body]
pub(crate) fn oid_text(bytes: &Vec<u8>) -> (r: String)
    ensures
        r@ == oid_debug(bytes@, false),
        forall|i: int| 0 <= i < r@.len() ==> r@[i] != '\n',
{
    let oid = asn1_rs::Oid::new(std::borrow::Cow::Borrowed(bytes.as_slice()));
    format!("{:?}", oid)
}

/// Relies on `asn1_rs::Oid::new_relative` and `Oid`'s `Debug` impl, as
/// [`oid_text`] does.
#[verifier::external_body]
pub(crate) fn rel_oid_text(bytes: &Vec<u8>) -> (r: String)
    ensures
        r@ == oid_debug(bytes@, true),
        forall|i: int| 0 <= i < r@.len() ==> r@[i] != '\n',
{
    let oid = asn1_rs::Oid::new_relative(std::borrow::Cow::Borrowed(bytes.as_slice()));
    format!("{:?}", oid)
}

/// Relies on `core::char::from_u32`: `Some` exactly when the value is a
/// Unicode scalar value, returning the character with that code.
pub assume_specification[ char::from_u32 ](v: u32) -> (r: Option<char>)
    ensures
        match r {
            Some(c) => vstd::utf8::is_scalar(v) && c as u32 == v,
            None => !vstd::utf8::is_scalar(v),
        },
;

/// Relies on `alloc::string::String::push`: appends exactly one character.
pub assume_specification[ String::push ](s: &mut String, c: char)
    ensures
        final(s)@ == old(s)@.push(c),
;

} // verus!
