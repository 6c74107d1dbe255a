//! Elementary textual forms used by the renderer: runs of spaces, decimal
//! numbers, the hexadecimal dump shape, the debug shape of a byte slice,
//! and the names of the tag classes.

use crate::model::Class;
use vstd::prelude::*;

verus! {

/// A run of `n` space characters.
pub open spec fn spaces(n: nat) -> Seq<char> {
    Seq::new(n, |i: int| ' ')
}

/// The text of a boolean.
pub open spec fn bool_text(b: bool) -> Seq<char> {
    if b {
        "true"@
    } else {
        "false"@
    }
}

/// The single decimal digit for `d < 10`.
pub open spec fn digit_seq(d: nat) -> Seq<char> {
    if d == 0 {
        "0"@
    } else if d == 1 {
        "1"@
    } else if d == 2 {
        "2"@
    } else if d == 3 {
        "3"@
    } else if d == 4 {
        "4"@
    } else if d == 5 {
        "5"@
    } else if d == 6 {
        "6"@
    } else if d == 7 {
        "7"@
    } else if d == 8 {
        "8"@
    } else {
        "9"@
    }
}

/// The decimal text of a non-negative number, without sign or padding.
pub open spec fn dec_text(n: nat) -> Seq<char>
    decreases n,
{
    if n < 10 {
        digit_seq(n)
    } else {
        dec_text(n / 10) + digit_seq(n % 10)
    }
}

/// The lowercase hexadecimal digit for `d < 16`.
pub open spec fn hex_digit(d: nat) -> char {
    if d == 0 {
        '0'
    } else if d == 1 {
        '1'
    } else if d == 2 {
        '2'
    } else if d == 3 {
        '3'
    } else if d == 4 {
        '4'
    } else if d == 5 {
        '5'
    } else if d == 6 {
        '6'
    } else if d == 7 {
        '7'
    } else if d == 8 {
        '8'
    } else if d == 9 {
        '9'
    } else if d == 10 {
        'a'
    } else if d == 11 {
        'b'
    } else if d == 12 {
        'c'
    } else if d == 13 {
        'd'
    } else if d == 14 {
        'e'
    } else {
        'f'
    }
}

/// A byte as two lowercase hexadecimal digits.
pub open spec fn hex_byte(b: nat) -> Seq<char> {
    seq![hex_digit(b / 16), hex_digit(b % 16)]
}

/// The bytes of a slice as space-separated hexadecimal pairs.
pub open spec fn hex_body(s: Seq<u8>) -> Seq<char>
    decreases s.len(),
{
    if s.len() == 0 {
        Seq::<char>::empty()
    } else if s.len() == 1 {
        hex_byte(s[0] as nat)
    } else {
        hex_byte(s[0] as nat) + " "@ + hex_body(s.skip(1))
    }
}

/// A byte slice as a bracketed hexadecimal dump, `[0f 10 11]`-style.
pub open spec fn hex_dump(s: Seq<u8>) -> Seq<char> {
    "["@ + hex_body(s) + "]"@
}

/// The first `i` bytes of a slice as comma-separated decimal numbers.
pub open spec fn dbg_first(s: Seq<u8>, i: int) -> Seq<char>
    decreases i,
{
    if i <= 0 {
        Seq::<char>::empty()
    } else if i == 1 {
        dec_text(s[0] as nat)
    } else {
        dbg_first(s, i - 1) + ", "@ + dec_text(s[i - 1] as nat)
    }
}

/// A byte slice as bracketed decimal numbers, `[1, 0, 1]`-style.
pub open spec fn slice_dbg(s: Seq<u8>) -> Seq<char> {
    "["@ + dbg_first(s, s.len() as int) + "]"@
}

/// The name of a tag class, as a debug form spells it.
pub open spec fn class_debug(c: Class) -> Seq<char> {
    match c {
        Class::Universal => "Universal"@,
        Class::Application => "Application"@,
        Class::ContextSpecific => "ContextSpecific"@,
        Class::Private => "Private"@,
    }
}

/// The name of a tag class, as a display form spells it.
pub open spec fn class_display(c: Class) -> Seq<char> {
    match c {
        Class::Universal => "UNIVERSAL"@,
        Class::Application => "APPLICATION"@,
        Class::ContextSpecific => "CONTEXT-SPECIFIC"@,
        Class::Private => "PRIVATE"@,
    }
}

/// Appends `n` space characters.
pub fn append_spaces(out: &mut String, n: usize)
    ensures
        final(out)@ == old(out)@ + spaces(n as nat),
{
    let mut i: usize = 0;
    proof {
        assert(out@ =~= old(out)@ + spaces(0));
    }
    while i < n
        invariant
            i <= n,
            out@ == old(out)@ + spaces(i as nat),
        decreases n - i,
    {
        out.append(" ");
        proof {
            reveal_strlit(" ");
            assert(out@ =~= old(out)@ + spaces((i + 1) as nat));
        }
        i = i + 1;
    }
}

/// The single-digit text for `d < 10`.
fn digit_str(d: u64) -> (r: &'static str)
    requires
        d < 10,
    ensures
        r@ == digit_seq(d as nat),
{
    if d == 0 {
        "0"
    } else if d == 1 {
        "1"
    } else if d == 2 {
        "2"
    } else if d == 3 {
        "3"
    } else if d == 4 {
        "4"
    } else if d == 5 {
        "5"
    } else if d == 6 {
        "6"
    } else if d == 7 {
        "7"
    } else if d == 8 {
        "8"
    } else {
        "9"
    }
}

/// The decimal text of a number.
pub fn dec_string(n: u64) -> (r: String)
    ensures
        r@ == dec_text(n as nat),
    decreases n,
{
    if n < 10 {
        let mut s = String::new();
        s.append(digit_str(n));
        proof {
            assert(s@ =~= digit_seq(n as nat));
        }
        s
    } else {
        let mut s = dec_string(n / 10);
        s.append(digit_str(n % 10));
        proof {
            assert(s@ =~= dec_text(n as nat));
        }
        s
    }
}

/// The name a debug form uses for a tag class.
pub fn class_debug_str(c: Class) -> (r: &'static str)
    ensures
        r@ == class_debug(c),
{
    match c {
        Class::Universal => "Universal",
        Class::Application => "Application",
        Class::ContextSpecific => "ContextSpecific",
        Class::Private => "Private",
    }
}

/// The name a display form uses for a tag class.
pub fn class_display_str(c: Class) -> (r: &'static str)
    ensures
        r@ == class_display(c),
{
    match c {
        Class::Universal => "UNIVERSAL",
        Class::Application => "APPLICATION",
        Class::ContextSpecific => "CONTEXT-SPECIFIC",
        Class::Private => "PRIVATE",
    }
}

/// Appends the bytes of `s` as bracketed comma-separated decimal numbers.
pub fn append_slice_dbg(out: &mut String, s: &Vec<u8>)
    ensures
        final(out)@ == old(out)@ + slice_dbg(s@),
{
    out.append("[");
    let mut i: usize = 0;
    while i < s.len()
        invariant
            i <= s@.len(),
            out@ == old(out)@ + "["@ + dbg_first(s@, i as int),
        decreases s@.len() - i,
    {
        if i > 0 {
            out.append(", ");
        }
        let d = dec_string(s[i] as u64);
        out.append(d.as_str());
        proof {
            assert(out@ =~= old(out)@ + "["@ + dbg_first(s@, i + 1));
        }
        i = i + 1;
    }
    out.append("]");
    proof {
        assert(out@ =~= old(out)@ + slice_dbg(s@));
    }
}

} // verus!
