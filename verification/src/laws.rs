//! Rendering laws: properties of [`crate::render::render_node`] that hold
//! for every object tree, stated and proved once and for all.

use crate::model::{BerObject, BerObjectContent};
use crate::render::{
    content_text, group_val, header_text, render_first, render_node, seq_label, universal_text,
    utf32_chars, utf32_valid,
};
use crate::text::{dec_text, digit_seq, slice_dbg, spaces};
use vstd::prelude::*;

verus! {

/// Every character of a decimal number's text is a digit: never a line
/// break, never a space.
proof fn lemma_dec_text_chars(n: nat)
    ensures
        dec_text(n).len() >= 1,
        forall|i: int|
            0 <= i < dec_text(n).len() ==> dec_text(n)[i] != '\n' && dec_text(n)[i] != ' ',
    decreases n,
{
    reveal_strlit("0");
    reveal_strlit("1");
    reveal_strlit("2");
    reveal_strlit("3");
    reveal_strlit("4");
    reveal_strlit("5");
    reveal_strlit("6");
    reveal_strlit("7");
    reveal_strlit("8");
    reveal_strlit("9");
    if n >= 10 {
        lemma_dec_text_chars(n / 10);
        assert(dec_text(n) == dec_text(n / 10) + digit_seq(n % 10));
    }
}

/// The content part of a rendering is never empty and never begins with a
/// space: after the indentation (and the header prefix, when shown) a
/// content token follows at once.
pub proof fn lemma_content_starts(obj: BerObject, indent: nat, inc: nat, show: bool)
    ensures
        content_text(obj, indent, inc, show).len() > 0,
        content_text(obj, indent, inc, show)[0] != ' ',
{
    reveal_strlit("EndOfContent\n");
    reveal_strlit("Boolean(");
    reveal_strlit("Integer(");
    reveal_strlit("Enum(");
    reveal_strlit("OID(");
    reveal_strlit("RelativeOID(");
    reveal_strlit("Null\n");
    reveal_strlit("OctetString(");
    reveal_strlit("BitString(");
    reveal_strlit("GeneralizedTime(\"");
    reveal_strlit("UTCTime(\"");
    reveal_strlit("VisibleString(\"");
    reveal_strlit("GeneralString(\"");
    reveal_strlit("GraphicString(\"");
    reveal_strlit("PrintableString(\"");
    reveal_strlit("NumericString(\"");
    reveal_strlit("UTF8String(\"");
    reveal_strlit("IA5String(\"");
    reveal_strlit("T61String(");
    reveal_strlit("VideotexString(");
    reveal_strlit("ObjectDescriptor(\"");
    reveal_strlit("BmpString(\"");
    reveal_strlit("UniversalString(\"");
    reveal_strlit("UniversalString(");
    reveal_strlit("OPTION ");
    reveal_strlit("NONE\n");
    reveal_strlit("ContextSpecific [");
    reveal_strlit("Sequence");
    reveal_strlit("Set");
    reveal_strlit("Unknown([");
}

/// Rendering at a positive depth `d` begins with exactly `d` spaces: the
/// first `d` characters are spaces and the next one is not.
pub proof fn lemma_indentation_prefix(obj: BerObject, d: nat, inc: nat, show: bool)
    requires
        d > 0,
    ensures
        render_node(obj, d, inc, show).len() > d,
        forall|i: int| 0 <= i < d ==> render_node(obj, d, inc, show)[i] == ' ',
        render_node(obj, d, inc, show)[d as int] != ' ',
{
    reveal_strlit("[c:");
    lemma_content_starts(obj, d, inc, show);
}

/// A leaf whose content is an end-of-content marker, a null, a boolean or
/// an enumerated value renders at depth zero, without the header flag, as
/// exactly one line with no leading space.
pub proof fn lemma_leaf_single_line(obj: BerObject, inc: nat)
    requires
        obj.content is EndOfContent || obj.content is Null || obj.content is Boolean
            || obj.content is Enum,
    ensures
        render_node(obj, 0, inc, false).len() > 0,
        render_node(obj, 0, inc, false)[0] != ' ',
        render_node(obj, 0, inc, false).last() == '\n',
        forall|i: int|
            0 <= i < render_node(obj, 0, inc, false).len() - 1 ==> render_node(
                obj,
                0,
                inc,
                false,
            )[i] != '\n',
{
    reveal_strlit("EndOfContent\n");
    reveal_strlit("Null\n");
    reveal_strlit("Boolean(");
    reveal_strlit("Enum(");
    reveal_strlit("true");
    reveal_strlit("false");
    reveal_strlit(")\n");
    let r = render_node(obj, 0, inc, false);
    assert(r =~= content_text(obj, 0, inc, false));
    match obj.content {
        BerObjectContent::Enum(n) => {
            lemma_dec_text_chars(n as nat);
        },
        _ => {},
    }
}

/// The printed identifier text inside an object-identifier leaf: the
/// boundary guarantees of every call that it keeps to one line.
pub open spec fn oid_body(obj: BerObject) -> Seq<char> {
    if obj.content is OID {
        crate::boundary::oid_debug(obj.content->OID_0@, false)
    } else {
        crate::boundary::oid_debug(obj.content->RelativeOID_0@, true)
    }
}

/// An object-identifier leaf whose printed identifier text keeps to one
/// line renders at depth zero, without the header flag, as exactly one
/// line with no leading space.
pub proof fn lemma_oid_single_line(obj: BerObject, inc: nat)
    requires
        obj.content is OID || obj.content is RelativeOID,
        forall|i: int| 0 <= i < oid_body(obj).len() ==> oid_body(obj)[i] != '\n',
    ensures
        render_node(obj, 0, inc, false).len() > 0,
        render_node(obj, 0, inc, false)[0] != ' ',
        render_node(obj, 0, inc, false).last() == '\n',
        forall|i: int|
            0 <= i < render_node(obj, 0, inc, false).len() - 1 ==> render_node(
                obj,
                0,
                inc,
                false,
            )[i] != '\n',
{
    reveal_strlit("OID(");
    reveal_strlit("RelativeOID(");
    reveal_strlit(")\n");
    let r = render_node(obj, 0, inc, false);
    assert(r =~= content_text(obj, 0, inc, false));
    let p = if obj.content is OID {
        "OID("@
    } else {
        "RelativeOID("@
    };
    let b = oid_body(obj);
    assert(r =~= p + b + ")\n"@);
    assert forall|i: int| 0 <= i < r.len() - 1 implies r[i] != '\n' by {
        if i < p.len() {
            assert(r[i] == p[i]);
        } else if i < p.len() + b.len() {
            assert(r[i] == b[i - p.len()]);
            assert(b[i - p.len()] != '\n');
        } else {
            assert(r[i] == ')');
        }
    }
}

/// The characters decoded from a UTF-32-BE byte string correspond one to
/// one to its complete 4-byte groups.
proof fn lemma_utf32_chars_index(s: Seq<u8>, m: int)
    ensures
        utf32_chars(s, m).len() == if m <= 0 {
            0int
        } else {
            m
        },
        forall|k: int| 0 <= k < m ==> utf32_chars(s, m)[k] == group_val(s, k) as char,
    decreases m,
{
    if m > 0 {
        lemma_utf32_chars_index(s, m - 1);
    }
}

/// Two byte strings whose complete groups agree decode to the same text.
proof fn lemma_utf32_chars_congruent(s: Seq<u8>, t: Seq<u8>, m: int)
    requires
        forall|k: int| 0 <= k < m ==> group_val(s, k) == group_val(t, k),
    ensures
        utf32_chars(s, m) == utf32_chars(t, m),
    decreases m,
{
    if m > 0 {
        lemma_utf32_chars_congruent(s, t, m - 1);
    }
}

/// When every complete 4-byte big-endian group of a UTF-32-BE string is a
/// Unicode scalar value, the rendering is the quoted decoded text: one
/// character per group, each the scalar that group holds.  A trailing
/// incomplete group changes nothing: the text equals that of the byte
/// string truncated to its complete groups.
pub proof fn lemma_universal_decodes(s: Seq<u8>)
    requires
        utf32_valid(s),
    ensures
        universal_text(s) == "UniversalString(\""@ + utf32_chars(s, s.len() as int / 4)
            + "\")\n"@,
        utf32_chars(s, s.len() as int / 4).len() == s.len() as int / 4,
        forall|k: int|
            0 <= k < s.len() as int / 4 ==> utf32_chars(s, s.len() as int / 4)[k] == group_val(
                s,
                k,
            ) as char,
        universal_text(s) == universal_text(s.take(4 * (s.len() as int / 4))),
{
    let m = s.len() as int / 4;
    lemma_utf32_chars_index(s, m);
    assert(4 * (s.len() as int / 4) <= s.len()) by (nonlinear_arith);
    let t = s.take(4 * m);
    assert(t.len() == 4 * m);
    assert((4 * (s.len() as int / 4)) / 4 == s.len() as int / 4) by (nonlinear_arith);
    assert(t.len() as int / 4 == m);
    assert forall|k: int| 0 <= k < m implies group_val(s, k) == group_val(t, k) by {
        assert(0 <= 4 * k && 4 * k + 3 < 4 * m);
        assert(t[4 * k] == s[4 * k]);
        assert(t[4 * k + 1] == s[4 * k + 1]);
        assert(t[4 * k + 2] == s[4 * k + 2]);
        assert(t[4 * k + 3] == s[4 * k + 3]);
    }
    lemma_utf32_chars_congruent(s, t, m);
    assert forall|j: int| 0 <= j < t.len() as int / 4 implies vstd::utf8::is_scalar(
        group_val(t, j),
    ) by {
        assert(group_val(s, j) == group_val(t, j));
        assert(vstd::utf8::is_scalar(group_val(s, j)));
    }
    assert(utf32_valid(t));
}

/// When some complete 4-byte group of a UTF-32-BE string is not a Unicode
/// scalar value, the node still renders — as the raw bytes in debug form
/// followed by an inline error marker — instead of failing.
pub proof fn lemma_universal_fallback(obj: BerObject, indent: nat, inc: nat, show: bool)
    requires
        obj.content is UniversalString,
        !utf32_valid(obj.content->UniversalString_0@),
    ensures
        render_node(obj, indent, inc, show) == spaces(indent) + (if show {
            header_text(obj.header)
        } else {
            Seq::<char>::empty()
        }) + "UniversalString("@ + slice_dbg(obj.content->UniversalString_0@)
            + ") <error decoding utf32 string>\n"@,
{
    let b = obj.content->UniversalString_0@;
    assert(content_text(obj, indent, inc, show) == universal_text(b));
    assert(render_node(obj, indent, inc, show) =~= spaces(indent) + (if show {
        header_text(obj.header)
    } else {
        Seq::<char>::empty()
    }) + "UniversalString("@ + slice_dbg(b) + ") <error decoding utf32 string>\n"@);
}

/// A tagged node wraps the inner node's full rendering, one step deeper, in
/// a `ContextSpecific [..] { .. }` block whose closing brace is indented to
/// the tagged node's own depth.
pub proof fn lemma_tagged_block(obj: BerObject, indent: nat, inc: nat, show: bool)
    requires
        obj.content is Tagged,
    ensures
        render_node(obj, indent, inc, show) == spaces(indent) + (if show {
            header_text(obj.header)
        } else {
            Seq::<char>::empty()
        }) + "ContextSpecific ["@ + crate::text::class_display(obj.content->Tagged_0) + " "@
            + dec_text(obj.content->Tagged_1 as nat) + "] {\n"@ + render_node(
            *obj.content->Tagged_2,
            indent + inc,
            inc,
            show,
        ) + spaces(indent) + "}\n"@,
{
    assert(render_node(obj, indent, inc, show) =~= spaces(indent) + (if show {
        header_text(obj.header)
    } else {
        Seq::<char>::empty()
    }) + "ContextSpecific ["@ + crate::text::class_display(obj.content->Tagged_0) + " "@
        + dec_text(obj.content->Tagged_1 as nat) + "] {\n"@ + render_node(
        *obj.content->Tagged_2,
        indent + inc,
        inc,
        show,
    ) + spaces(indent) + "}\n"@);
}

/// With the header flag shown, a node's own line carries, right after its
/// indentation, the literal header prefix; the content follows it, and
/// nested members are rendered with the same flag.
pub proof fn lemma_show_header_marks_node(obj: BerObject, indent: nat, inc: nat)
    ensures
        render_node(obj, indent, inc, true) == spaces(indent) + header_text(obj.header)
            + content_text(obj, indent, inc, true),
        render_node(obj, indent, inc, true).subrange(indent as int, indent as int + 3) == "[c:"@,
{
    reveal_strlit("[c:");
    assert(render_node(obj, indent, inc, true).subrange(indent as int, indent as int + 3)
        =~= "[c:"@);
}

/// Prepending one more member to a rendered member list appends exactly
/// that member's own full rendering, with the same depth, increment and
/// flags as its siblings.
pub proof fn lemma_render_first_unfold(
    v: Vec<BerObject>,
    i: int,
    indent: nat,
    inc: nat,
    show: bool,
)
    requires
        0 < i <= v.len(),
    ensures
        render_first(v, i, indent, inc, show) == render_first(v, i - 1, indent, inc, show)
            + render_node(v[i - 1], indent, inc, show),
{
}

/// With the header flag shown, a set-or-sequence node renders every member
/// with the flag still shown, one indentation step deeper: the flag
/// reaches each child rendering unchanged.
pub proof fn lemma_header_flag_reaches_members(obj: BerObject, indent: nat, inc: nat)
    ensures
        obj.content is SetOf ==> content_text(obj, indent, inc, true) == seq_label(
            obj.header.tag,
        ) + "[\n"@ + render_first(
            obj.content->SetOf_0,
            obj.content->SetOf_0.len() as int,
            indent + inc,
            inc,
            true,
        ) + spaces(indent) + "]\n"@,
        obj.content is Sequence ==> content_text(obj, indent, inc, true) == seq_label(
            obj.header.tag,
        ) + "[\n"@ + render_first(
            obj.content->Sequence_0,
            obj.content->Sequence_0.len() as int,
            indent + inc,
            inc,
            true,
        ) + spaces(indent) + "]\n"@,
{
}

/// Rendering is a function of the node and the configuration alone: two
/// renderings of the same node at the same depth, increment and flags are
/// identical, character for character.
pub proof fn lemma_render_deterministic(
    obj: BerObject,
    indent: nat,
    inc: nat,
    show: bool,
    r1: Seq<char>,
    r2: Seq<char>,
)
    requires
        r1 == render_node(obj, indent, inc, show),
        r2 == render_node(obj, indent, inc, show),
    ensures
        r1 == r2,
{
}

} // verus!
