//! The pretty-printer: an indented, multi-line textual rendering of an
//! object tree.
//!
//! [`render_node`] is the specification: it says, character for character,
//! what rendering a node at a given indentation depth produces.  The
//! executable renderer [`PrettyBer::to_text`] is proved to return exactly
//! that text.

use crate::boundary::{hex_slice_text, oid_debug, oid_text, rel_oid_text, tag_display, tag_text};
use crate::model::{BerObject, BerObjectContent, Header, TAG_SEQUENCE};
use crate::text::{
    append_slice_dbg, append_spaces, bool_text, class_debug, class_debug_str, class_display,
    class_display_str, dec_string, dec_text, hex_dump, slice_dbg, spaces,
};
use vstd::prelude::*;

verus! {

broadcast use vstd::std_specs::vec::group_vec_axioms;

/// A display flag altering the rendered output.
#[derive(Clone, Copy, Debug, PartialEq, Eq, Structural)]
pub enum PrettyPrinterFlag {
    /// Prefix every node's own line with its header fields.
    ShowHeader,
}

/// A renderer: a borrowed node of the object tree together with the
/// rendering configuration (current indentation depth, indentation
/// increment, display flags).
pub struct PrettyBer<'a> {
    pub obj: &'a BerObject,
    pub indent: usize,
    pub inc: usize,
    pub flags: Vec<PrettyPrinterFlag>,
}

/// The label of a set-or-sequence node, chosen from the header tag alone,
/// independent of which content kind actually holds the members:
/// `Sequence` exactly for the reserved sequence tag, `Set` otherwise.
pub open spec fn seq_label(tag: u32) -> Seq<char> {
    if tag == TAG_SEQUENCE {
        "Sequence"@
    } else {
        "Set"@
    }
}

/// The header prefix a shown header contributes to a node's line.
pub open spec fn header_text(h: Header) -> Seq<char> {
    "[c:"@ + class_debug(h.class) + ", s:"@ + bool_text(h.constructed) + ", t:"@ + tag_display(
        h.tag,
    ) + "] "@
}

/// The big-endian 32-bit value of the `k`-th complete 4-byte group.
pub open spec fn group_val(s: Seq<u8>, k: int) -> u32 {
    (s[4 * k] * 0x100_0000 + s[4 * k + 1] * 0x1_0000 + s[4 * k + 2] * 0x100 + s[4 * k
        + 3]) as u32
}

/// Whether every complete 4-byte group holds a Unicode scalar value.
pub open spec fn utf32_valid(s: Seq<u8>) -> bool {
    forall|j: int| 0 <= j < s.len() / 4 ==> vstd::utf8::is_scalar(#[trigger] group_val(s, j))
}

/// The characters decoded from the first `k` complete 4-byte groups.
pub open spec fn utf32_chars(s: Seq<u8>, k: int) -> Seq<char>
    decreases k,
{
    if k <= 0 {
        Seq::<char>::empty()
    } else {
        utf32_chars(s, k - 1).push(group_val(s, k - 1) as char)
    }
}

/// The rendering of a UTF-32-BE string: the decoded text when every
/// complete group decodes, a raw-bytes form with an inline error marker
/// otherwise.  A trailing incomplete group is dropped either way.
pub open spec fn universal_text(s: Seq<u8>) -> Seq<char> {
    if utf32_valid(s) {
        "UniversalString(\""@ + utf32_chars(s, s.len() as int / 4) + "\")\n"@
    } else {
        "UniversalString("@ + slice_dbg(s) + ") <error decoding utf32 string>\n"@
    }
}

/// Whether every indentation depth reached while rendering `obj` at depth
/// `indent` with increment `inc` fits in a machine word.
pub open spec fn depth_fits(obj: BerObject, indent: int, inc: int) -> bool
    decreases obj, 1int,
{
    match obj.content {
        BerObjectContent::Tagged(_, _, inner) => indent + inc <= usize::MAX && depth_fits(
            *inner,
            indent + inc,
            inc,
        ),
        BerObjectContent::SetOf(v) => indent + inc <= usize::MAX && members_fit(
            v,
            v.len() as int,
            indent + inc,
            inc,
        ),
        BerObjectContent::Sequence(v) => indent + inc <= usize::MAX && members_fit(
            v,
            v.len() as int,
            indent + inc,
            inc,
        ),
        BerObjectContent::Optional(o) => match o {
            Some(inner) => depth_fits(*inner, 0, 0),
            None => true,
        },
        _ => true,
    }
}

/// Whether the first `i` members of a set or sequence all fit at depth
/// `indent`.
pub open spec fn members_fit(v: Vec<BerObject>, i: int, indent: int, inc: int) -> bool
    decreases v, i,
    when 0 <= i <= v.len()
{
    if i <= 0 {
        true
    } else {
        members_fit(v, i - 1, indent, inc) && depth_fits(v[i - 1], indent, inc)
    }
}

/// The rendering of the first `i` members of a set or sequence, each at
/// depth `indent`.
pub open spec fn render_first(
    v: Vec<BerObject>,
    i: int,
    indent: nat,
    inc: nat,
    show: bool,
) -> Seq<char>
    decreases v, i,
    when 0 <= i <= v.len()
{
    if i <= 0 {
        Seq::<char>::empty()
    } else {
        render_first(v, i - 1, indent, inc, show) + render_node(v[i - 1], indent, inc, show)
    }
}

/// The text a node's content contributes after indentation and header:
/// one token line for the primitive kinds, a bracketed block of
/// recursively rendered members for the structured kinds.
///
/// A present optional value is shown after `OPTION ` in the node's flat
/// default form — rendered at depth zero with increment zero and no header
/// prefix — so it never receives this renderer's indentation or flags.
pub open spec fn content_text(obj: BerObject, indent: nat, inc: nat, show: bool) -> Seq<char>
    decreases obj, 1int,
{
    match obj.content {
        BerObjectContent::EndOfContent => "EndOfContent\n"@,
        BerObjectContent::Boolean(b) => "Boolean("@ + bool_text(b) + ")\n"@,
        BerObjectContent::Integer(i) => "Integer("@ + hex_dump(i@) + ")\n"@,
        BerObjectContent::Enum(i) => "Enum("@ + dec_text(i as nat) + ")\n"@,
        BerObjectContent::OID(b) => "OID("@ + oid_debug(b@, false) + ")\n"@,
        BerObjectContent::RelativeOID(b) => "RelativeOID("@ + oid_debug(b@, true) + ")\n"@,
        BerObjectContent::Null => "Null\n"@,
        BerObjectContent::OctetString(v) => "OctetString("@ + hex_dump(v@) + ")\n"@,
        BerObjectContent::BitString(u, bits) => "BitString("@ + dec_text(u as nat) + ","@
            + hex_dump(bits.data@) + ")\n"@,
        BerObjectContent::GeneralizedTime(t) => "GeneralizedTime(\""@ + t@ + "\")\n"@,
        BerObjectContent::UTCTime(t) => "UTCTime(\""@ + t@ + "\")\n"@,
        BerObjectContent::VisibleString(s) => "VisibleString(\""@ + s@ + "\")\n"@,
        BerObjectContent::GeneralString(s) => "GeneralString(\""@ + s@ + "\")\n"@,
        BerObjectContent::GraphicString(s) => "GraphicString(\""@ + s@ + "\")\n"@,
        BerObjectContent::PrintableString(s) => "PrintableString(\""@ + s@ + "\")\n"@,
        BerObjectContent::NumericString(s) => "NumericString(\""@ + s@ + "\")\n"@,
        BerObjectContent::UTF8String(s) => "UTF8String(\""@ + s@ + "\")\n"@,
        BerObjectContent::IA5String(s) => "IA5String(\""@ + s@ + "\")\n"@,
        BerObjectContent::T61String(s) => "T61String("@ + s@ + ")\n"@,
        BerObjectContent::VideotexString(s) => "VideotexString("@ + s@ + ")\n"@,
        BerObjectContent::ObjectDescriptor(s) => "ObjectDescriptor(\""@ + s@ + "\")\n"@,
        BerObjectContent::BmpString(s) => "BmpString(\""@ + s@ + "\")\n"@,
        BerObjectContent::UniversalString(s) => universal_text(s@),
        BerObjectContent::Optional(o) => match o {
            Some(inner) => "OPTION "@ + render_node(*inner, 0, 0, false),
            None => "NONE\n"@,
        },
        BerObjectContent::Tagged(class, tag, inner) => "ContextSpecific ["@ + class_display(class)
            + " "@ + dec_text(tag as nat) + "] {\n"@ + render_node(
            *inner,
            indent + inc,
            inc,
            show,
        ) + spaces(indent) + "}\n"@,
        BerObjectContent::SetOf(v) | BerObjectContent::Sequence(v) => seq_label(obj.header.tag)
            + "[\n"@ + render_first(v, v.len() as int, indent + inc, inc, show) + spaces(indent)
            + "]\n"@,
        BerObjectContent::Unknown(class, tag, data) => "Unknown(["@ + class_display(class) + " "@
            + dec_text(tag as nat) + "] "@ + hex_dump(data@) + ")\n"@,
    }
}

/// The full rendering of a node: indentation, an optional header prefix,
/// then the content.
pub open spec fn render_node(obj: BerObject, indent: nat, inc: nat, show: bool) -> Seq<char>
    decreases obj, 2int,
{
    spaces(indent) + (if show {
        header_text(obj.header)
    } else {
        Seq::<char>::empty()
    }) + content_text(obj, indent, inc, show)
}

/// Whether a flag collection contains a given flag.
fn contains_flag(v: &Vec<PrettyPrinterFlag>, f: PrettyPrinterFlag) -> (r: bool)
    ensures
        r == v@.contains(f),
{
    let mut i: usize = 0;
    while i < v.len()
        invariant
            i <= v@.len(),
            forall|j: int| 0 <= j < i ==> v@[j] != f,
        decreases v@.len() - i,
    {
        if v[i] == f {
            proof {
                assert(v@.contains(f)) by {
                    assert(v@[i as int] == f);
                }
            }
            return true;
        }
        i = i + 1;
    }
    proof {
        assert(!v@.contains(f));
    }
    false
}

/// A copy of a flag collection.
fn clone_flags(v: &Vec<PrettyPrinterFlag>) -> (r: Vec<PrettyPrinterFlag>)
    ensures
        r@ == v@,
{
    let mut r: Vec<PrettyPrinterFlag> = Vec::new();
    let mut i: usize = 0;
    while i < v.len()
        invariant
            i <= v@.len(),
            r@ == v@.subrange(0, i as int),
        decreases v@.len() - i,
    {
        r.push(v[i]);
        proof {
            assert(r@ =~= v@.subrange(0, i + 1));
        }
        i = i + 1;
    }
    proof {
        assert(r@ =~= v@);
    }
    r
}

/// The big-endian value of the `k`-th 4-byte group of `s`.
fn group_at(s: &Vec<u8>, k: usize) -> (v: u32)
    requires
        4 * k + 3 < s@.len(),
    ensures
        v == group_val(s@, k as int),
{
    let total = s.len();
    proof {
        assert(4 * k + 3 < total);
    }
    let i = 4 * k;
    let a = s[i];
    let b = s[i + 1];
    let c = s[i + 2];
    let d = s[i + 3];
    (a as u32) * 0x100_0000 + (b as u32) * 0x1_0000 + (c as u32) * 0x100 + (d as u32)
}

/// Appends the rendering of a UTF-32-BE string's bytes.
fn append_universal(out: &mut String, s: &Vec<u8>)
    ensures
        final(out)@ == old(out)@ + universal_text(s@),
{
    let n: usize = s.len() / 4;
    proof {
        assert(4 * (s@.len() / 4) <= s@.len()) by (nonlinear_arith);
    }
    let mut ok = true;
    let mut k: usize = 0;
    while k < n
        invariant
            k <= n,
            n == s@.len() / 4,
            4 * n <= s@.len(),
            ok <==> (forall|j: int|
                0 <= j < k ==> vstd::utf8::is_scalar(#[trigger] group_val(s@, j))),
        decreases n - k,
    {
        let v = group_at(s, k);
        if char::from_u32(v).is_none() {
            ok = false;
        }
        k = k + 1;
    }
    if ok {
        proof {
            assert(utf32_valid(s@));
        }
        out.append("UniversalString(\"");
        let ghost base: Seq<char> = out@;
        let mut k: usize = 0;
        while k < n
            invariant
                k <= n,
                n == s@.len() / 4,
                4 * n <= s@.len(),
                utf32_valid(s@),
                out@ == base + utf32_chars(s@, k as int),
            decreases n - k,
        {
            let v = group_at(s, k);
            proof {
                assert(vstd::utf8::is_scalar(group_val(s@, k as int)));
            }
            match char::from_u32(v) {
                Some(c) => {
                    out.push(c);
                    proof {
                        vstd::utf8::char_u32_cast(c, v);
                        assert(out@ =~= base + utf32_chars(s@, k + 1));
                    }
                },
                None => {
                    proof {
                        assert(false);
                    }
                },
            }
            k = k + 1;
        }
        out.append("\")\n");
        proof {
            assert(out@ =~= old(out)@ + universal_text(s@));
        }
    } else {
        proof {
            assert(!utf32_valid(s@));
        }
        out.append("UniversalString(");
        append_slice_dbg(out, s);
        out.append(") <error decoding utf32 string>\n");
        proof {
            assert(out@ =~= old(out)@ + universal_text(s@));
        }
    }
}

/// Each of the first `i` members of a fitting collection fits.
proof fn lemma_members_fit_index(v: Vec<BerObject>, i: int, q: int, indent: int, inc: int)
    requires
        0 <= q < i <= v.len(),
        members_fit(v, i, indent, inc),
    ensures
        depth_fits(v[q], indent, inc),
    decreases i,
{
    if q < i - 1 {
        lemma_members_fit_index(v, i - 1, q, indent, inc);
    }
}

/// Appends the bracketed block of a set-or-sequence node: the label chosen
/// from the header tag, each member rendered one step deeper, and the
/// closing bracket at this node's own depth.
fn append_struct_block(
    out: &mut String,
    tag: u32,
    v: &Vec<BerObject>,
    indent: usize,
    inc: usize,
    show: bool,
)
    requires
        indent + inc <= usize::MAX,
        members_fit(*v, v.len() as int, indent + inc, inc as int),
    ensures
        final(out)@ == old(out)@ + seq_label(tag) + "[\n"@ + render_first(
            *v,
            v.len() as int,
            (indent + inc) as nat,
            inc as nat,
            show,
        ) + spaces(indent as nat) + "]\n"@,
    decreases *v, 1int,
{
    out.append(if tag == TAG_SEQUENCE {
        "Sequence"
    } else {
        "Set"
    });
    out.append("[\n");
    let ghost mid: Seq<char> = out@;
    proof {
        assert(mid =~= old(out)@ + seq_label(tag) + "[\n"@);
    }
    let mut j: usize = 0;
    while j < v.len()
        invariant
            j <= v@.len(),
            indent + inc <= usize::MAX,
            members_fit(*v, v.len() as int, indent + inc, inc as int),
            out@ == mid + render_first(*v, j as int, (indent + inc) as nat, inc as nat, show),
        decreases v@.len() - j,
    {
        proof {
            lemma_members_fit_index(*v, v.len() as int, j as int, indent + inc, inc as int);
            assert(decreases_to!(*v => v[j as int]));
        }
        let t = render_obj(&v[j], indent + inc, inc, show);
        out.append(t.as_str());
        proof {
            assert(out@ =~= mid + render_first(
                *v,
                j + 1,
                (indent + inc) as nat,
                inc as nat,
                show,
            ));
        }
        j = j + 1;
    }
    append_spaces(out, indent);
    out.append("]\n");
    proof {
        assert(out@ =~= old(out)@ + seq_label(tag) + "[\n"@ + render_first(
            *v,
            v.len() as int,
            (indent + inc) as nat,
            inc as nat,
            show,
        ) + spaces(indent as nat) + "]\n"@);
    }
}

/// Appends the one-line content of a primitive node.
#[verifier::rlimit(60)]
fn append_leaf(out: &mut String, obj: &BerObject, indent: usize, inc: usize, show: bool)
    requires
        !(obj.content is UniversalString),
        !(obj.content is Optional),
        !(obj.content is Tagged),
        !(obj.content is SetOf),
        !(obj.content is Sequence),
    ensures
        final(out)@ == old(out)@ + content_text(*obj, indent as nat, inc as nat, show),
{
    match &obj.content {
        BerObjectContent::EndOfContent => {
            out.append("EndOfContent\n");
            proof {
                assert(out@ =~= old(out)@ + content_text(*obj, indent as nat, inc as nat, show));
            }
        },
        BerObjectContent::Boolean(b) => {
            out.append("Boolean(");
            out.append(if *b {
                "true"
            } else {
                "false"
            });
            out.append(")\n");
            proof {
                assert(out@ =~= old(out)@ + content_text(*obj, indent as nat, inc as nat, show));
            }
        },
        BerObjectContent::Integer(i) => {
            out.append("Integer(");
            let h = hex_slice_text(i.as_slice());
            out.append(h.as_str());
            out.append(")\n");
            proof {
                assert(out@ =~= old(out)@ + content_text(*obj, indent as nat, inc as nat, show));
            }
        },
        BerObjectContent::Enum(i) => {
            out.append("Enum(");
            let d = dec_string(*i);
            out.append(d.as_str());
            out.append(")\n");
            proof {
                assert(out@ =~= old(out)@ + content_text(*obj, indent as nat, inc as nat, show));
            }
        },
        BerObjectContent::OID(b) => {
            out.append("OID(");
            let o = oid_text(b);
            out.append(o.as_str());
            out.append(")\n");
            proof {
                assert(out@ =~= old(out)@ + content_text(*obj, indent as nat, inc as nat, show));
            }
        },
        BerObjectContent::RelativeOID(b) => {
            out.append("RelativeOID(");
            let o = rel_oid_text(b);
            out.append(o.as_str());
            out.append(")\n");
            proof {
                assert(out@ =~= old(out)@ + content_text(*obj, indent as nat, inc as nat, show));
            }
        },
        BerObjectContent::Null => {
            out.append("Null\n");
            proof {
                assert(out@ =~= old(out)@ + content_text(*obj, indent as nat, inc as nat, show));
            }
        },
        BerObjectContent::OctetString(v) => {
            out.append("OctetString(");
            let h = hex_slice_text(v.as_slice());
            out.append(h.as_str());
            out.append(")\n");
            proof {
                assert(out@ =~= old(out)@ + content_text(*obj, indent as nat, inc as nat, show));
            }
        },
        BerObjectContent::BitString(u, bits) => {
            out.append("BitString(");
            let d = dec_string(*u as u64);
            out.append(d.as_str());
            out.append(",");
            let h = hex_slice_text(bits.data.as_slice());
            out.append(h.as_str());
            out.append(")\n");
            proof {
                assert(out@ =~= old(out)@ + content_text(*obj, indent as nat, inc as nat, show));
            }
        },
        BerObjectContent::GeneralizedTime(t) => {
            out.append("GeneralizedTime(\"");
            out.append(t.as_str());
            out.append("\")\n");
            proof {
                assert(out@ =~= old(out)@ + content_text(*obj, indent as nat, inc as nat, show));
            }
        },
        BerObjectContent::UTCTime(t) => {
            out.append("UTCTime(\"");
            out.append(t.as_str());
            out.append("\")\n");
            proof {
                assert(out@ =~= old(out)@ + content_text(*obj, indent as nat, inc as nat, show));
            }
        },
        BerObjectContent::VisibleString(s) => {
            out.append("VisibleString(\"");
            out.append(s.as_str());
            out.append("\")\n");
            proof {
                assert(out@ =~= old(out)@ + content_text(*obj, indent as nat, inc as nat, show));
            }
        },
        BerObjectContent::GeneralString(s) => {
            out.append("GeneralString(\"");
            out.append(s.as_str());
            out.append("\")\n");
            proof {
                assert(out@ =~= old(out)@ + content_text(*obj, indent as nat, inc as nat, show));
            }
        },
        BerObjectContent::GraphicString(s) => {
            out.append("GraphicString(\"");
            out.append(s.as_str());
            out.append("\")\n");
            proof {
                assert(out@ =~= old(out)@ + content_text(*obj, indent as nat, inc as nat, show));
            }
        },
        BerObjectContent::PrintableString(s) => {
            out.append("PrintableString(\"");
            out.append(s.as_str());
            out.append("\")\n");
            proof {
                assert(out@ =~= old(out)@ + content_text(*obj, indent as nat, inc as nat, show));
            }
        },
        BerObjectContent::NumericString(s) => {
            out.append("NumericString(\"");
            out.append(s.as_str());
            out.append("\")\n");
            proof {
                assert(out@ =~= old(out)@ + content_text(*obj, indent as nat, inc as nat, show));
            }
        },
        BerObjectContent::UTF8String(s) => {
            out.append("UTF8String(\"");
            out.append(s.as_str());
            out.append("\")\n");
            proof {
                assert(out@ =~= old(out)@ + content_text(*obj, indent as nat, inc as nat, show));
            }
        },
        BerObjectContent::IA5String(s) => {
            out.append("IA5String(\"");
            out.append(s.as_str());
            out.append("\")\n");
            proof {
                assert(out@ =~= old(out)@ + content_text(*obj, indent as nat, inc as nat, show));
            }
        },
        BerObjectContent::T61String(s) => {
            out.append("T61String(");
            out.append(s.as_str());
            out.append(")\n");
            proof {
                assert(out@ =~= old(out)@ + content_text(*obj, indent as nat, inc as nat, show));
            }
        },
        BerObjectContent::VideotexString(s) => {
            out.append("VideotexString(");
            out.append(s.as_str());
            out.append(")\n");
            proof {
                assert(out@ =~= old(out)@ + content_text(*obj, indent as nat, inc as nat, show));
            }
        },
        BerObjectContent::ObjectDescriptor(s) => {
            out.append("ObjectDescriptor(\"");
            out.append(s.as_str());
            out.append("\")\n");
            proof {
                assert(out@ =~= old(out)@ + content_text(*obj, indent as nat, inc as nat, show));
            }
        },
        BerObjectContent::BmpString(s) => {
            out.append("BmpString(\"");
            out.append(s.as_str());
            out.append("\")\n");
            proof {
                assert(out@ =~= old(out)@ + content_text(*obj, indent as nat, inc as nat, show));
            }
        },
        BerObjectContent::Unknown(class, tag, data) => {
            out.append("Unknown([");
            out.append(class_display_str(*class));
            out.append(" ");
            let d = dec_string(*tag as u64);
            out.append(d.as_str());
            out.append("] ");
            let h = hex_slice_text(data.as_slice());
            out.append(h.as_str());
            out.append(")\n");
            proof {
                assert(out@ =~= old(out)@ + content_text(*obj, indent as nat, inc as nat, show));
            }
        },
        _ => {
            proof {
                assert(false);
            }
        },
    }
}

/// Appends the content part of a node's rendering: everything after the
/// indentation and the optional header prefix.
#[verifier::rlimit(60)]
fn append_content(out: &mut String, obj: &BerObject, indent: usize, inc: usize, show: bool)
    requires
        depth_fits(*obj, indent as int, inc as int),
    ensures
        final(out)@ == old(out)@ + content_text(*obj, indent as nat, inc as nat, show),
    decreases *obj, 0int,
{
    match &obj.content {
        BerObjectContent::UniversalString(s) => {
            append_universal(out, s);
            proof {
                assert(out@ =~= old(out)@ + content_text(*obj, indent as nat, inc as nat, show));
            }
        },
        BerObjectContent::Optional(o) => match o {
            Some(inner) => {
                out.append("OPTION ");
                let t = render_obj(inner, 0, 0, false);
                out.append(t.as_str());
                proof {
                    assert(out@ =~= old(out)@ + content_text(*obj, indent as nat, inc as nat, show));
                }
            },
            None => {
                out.append("NONE\n");
                proof {
                    assert(out@ =~= old(out)@ + content_text(*obj, indent as nat, inc as nat, show));
                }
            },
        },
        BerObjectContent::Tagged(class, tag, inner) => {
            out.append("ContextSpecific [");
            out.append(class_display_str(*class));
            out.append(" ");
            let d = dec_string(*tag as u64);
            out.append(d.as_str());
            out.append("] {\n");
            let t = render_obj(inner, indent + inc, inc, show);
            out.append(t.as_str());
            append_spaces(out, indent);
            out.append("}\n");
            proof {
                assert(out@ =~= old(out)@ + content_text(*obj, indent as nat, inc as nat, show));
            }
        },
        BerObjectContent::SetOf(v) => {
            proof {
                assert(decreases_to!(*obj => *v));
            }
            append_struct_block(out, obj.header.tag, v, indent, inc, show);
            proof {
                assert(out@ =~= old(out)@ + content_text(*obj, indent as nat, inc as nat, show));
            }
        },
        BerObjectContent::Sequence(v) => {
            proof {
                assert(decreases_to!(*obj => *v));
            }
            append_struct_block(out, obj.header.tag, v, indent, inc, show);
            proof {
                assert(out@ =~= old(out)@ + content_text(*obj, indent as nat, inc as nat, show));
            }
        },
        _ => {
            append_leaf(out, obj, indent, inc, show);
        },
    }
}

/// Renders one node and its descendants: `indent` spaces, the header when
/// asked for, then the content with members one indentation step deeper.
pub(crate) fn render_obj(obj: &BerObject, indent: usize, inc: usize, show: bool) -> (r: String)
    requires
        depth_fits(*obj, indent as int, inc as int),
    ensures
        r@ == render_node(*obj, indent as nat, inc as nat, show),
    decreases *obj, 2int,
{
    let mut out = String::new();
    append_spaces(&mut out, indent);
    if show {
        out.append("[c:");
        out.append(class_debug_str(obj.header.class));
        out.append(", s:");
        out.append(if obj.header.constructed {
            "true"
        } else {
            "false"
        });
        out.append(", t:");
        let t = tag_text(obj.header.tag);
        out.append(t.as_str());
        out.append("] ");
        proof {
            assert(out@ =~= spaces(indent as nat) + header_text(obj.header));
        }
    }
    proof {
        assert(out@ =~= spaces(indent as nat) + (if show {
            header_text(obj.header)
        } else {
            Seq::<char>::empty()
        }));
    }
    append_content(&mut out, obj, indent, inc, show);
    proof {
        assert(out@ =~= render_node(*obj, indent as nat, inc as nat, show));
    }
    out
}
impl BerObject {
    /// Wraps this node in a renderer starting at the given indentation
    /// depth, with the given per-level increment and no display flags.
    pub fn as_pretty<'a>(&'a self, indent: usize, increment: usize) -> (r: PrettyBer<'a>)
        ensures
            r.obj == self,
            r.indent == indent,
            r.inc == increment,
            r.flags@ == Seq::<PrettyPrinterFlag>::empty(),
    {
        PrettyBer { obj: self, indent, inc: increment, flags: Vec::new() }
    }
}

impl<'a> PrettyBer<'a> {
    /// Whether the rendered output carries header prefixes.
    pub open spec fn shows_header(&self) -> bool {
        self.flags@.contains(PrettyPrinterFlag::ShowHeader)
    }

    /// Adds a display flag; adding a flag that is already present changes
    /// nothing.  Flags are never removed.
    pub fn set_flag(&mut self, flag: PrettyPrinterFlag)
        ensures
            final(self).obj == old(self).obj,
            final(self).indent == old(self).indent,
            final(self).inc == old(self).inc,
            old(self).flags@.contains(flag) ==> final(self).flags@ == old(self).flags@,
            !old(self).flags@.contains(flag) ==> final(self).flags@ == old(self).flags@.push(flag),
            final(self).flags@.contains(flag),
    {
        if !contains_flag(&self.flags, flag) {
            self.flags.push(flag);
            proof {
                assert(self.flags@.contains(flag)) by {
                    assert(self.flags@[self.flags@.len() - 1] == flag);
                }
            }
        }
    }

    /// Derives the renderer for a nested node: one indentation step deeper,
    /// the same increment, and a copy of the flags as they are now.
    pub fn next_indent<'b>(&self, obj: &'b BerObject) -> (r: PrettyBer<'b>)
        requires
            self.indent + self.inc <= usize::MAX,
        ensures
            r.obj == obj,
            r.indent == self.indent + self.inc,
            r.inc == self.inc,
            r.flags@ == self.flags@,
    {
        PrettyBer { obj, indent: self.indent + self.inc, inc: self.inc, flags: clone_flags(
            &self.flags,
        ) }
    }

    /// Renders the wrapped node and its descendants; the result is exactly
    /// [`render_node`] of the node at this renderer's depth and flags.
    pub fn to_text(&self) -> (r: String)
        requires
            depth_fits(*self.obj, self.indent as int, self.inc as int),
        ensures
            r@ == render_node(*self.obj, self.indent as nat, self.inc as nat, self.shows_header()),
    {
        let show = contains_flag(&self.flags, PrettyPrinterFlag::ShowHeader);
        render_obj(self.obj, self.indent, self.inc, show)
    }
}

} // verus!
