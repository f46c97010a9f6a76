// Text for people: hexadecimal numbers and padded columns, as the debugger prints them.
use vstd::prelude::*;
use vstd::string::StrSliceExecFns;

verus! {

/// The upper-case hexadecimal digit of `d` (0-15).
pub open spec fn hex_char(d: int) -> char {
    if d < 10 { (48 + d) as char } else { (55 + d) as char }
}

/// A byte as two hexadecimal digits (`{:02X}`).
pub open spec fn hex2(b: u8) -> Seq<char> {
    seq![hex_char((b / 16) as int), hex_char((b % 16) as int)]
}

/// A word as four hexadecimal digits (`{:04X}`).
pub open spec fn hex4(w: u16) -> Seq<char> {
    seq![hex_char((w / 4096) as int), hex_char(((w / 256) % 16) as int), hex_char(((w / 16) % 16) as int), hex_char((w % 16) as int)]
}

/// A byte in as few hexadecimal digits as it needs (`{:X}`).
pub open spec fn hex_min(b: u8) -> Seq<char> {
    if b < 16 { seq![hex_char(b as int)] } else { hex2(b) }
}

/// `k` spaces.
pub open spec fn spaces(k: nat) -> Seq<char>
    decreases k,
{
    if k == 0 { Seq::empty() } else { spaces((k - 1) as nat) + " "@ }
}

/// `s` padded with spaces on the right to `n` characters (`{:<n}`).
pub open spec fn pad_right(s: Seq<char>, n: nat) -> Seq<char> {
    if s.len() < n { s + spaces((n - s.len()) as nat) } else { s }
}

pub fn hex_digit(d: u8) -> (r: &'static str)
    requires
        d < 16,
    ensures
        r@ == seq![hex_char(d as int)],
{
    match d {
        0 => {
            proof { reveal_strlit("0"); }
            "0"
        },
        1 => {
            proof { reveal_strlit("1"); }
            "1"
        },
        2 => {
            proof { reveal_strlit("2"); }
            "2"
        },
        3 => {
            proof { reveal_strlit("3"); }
            "3"
        },
        4 => {
            proof { reveal_strlit("4"); }
            "4"
        },
        5 => {
            proof { reveal_strlit("5"); }
            "5"
        },
        6 => {
            proof { reveal_strlit("6"); }
            "6"
        },
        7 => {
            proof { reveal_strlit("7"); }
            "7"
        },
        8 => {
            proof { reveal_strlit("8"); }
            "8"
        },
        9 => {
            proof { reveal_strlit("9"); }
            "9"
        },
        10 => {
            proof { reveal_strlit("A"); }
            "A"
        },
        11 => {
            proof { reveal_strlit("B"); }
            "B"
        },
        12 => {
            proof { reveal_strlit("C"); }
            "C"
        },
        13 => {
            proof { reveal_strlit("D"); }
            "D"
        },
        14 => {
            proof { reveal_strlit("E"); }
            "E"
        },
        _ => {
            proof { reveal_strlit("F"); }
            "F"
        },
    }
}

pub fn append_hex2(s: &mut String, b: u8)
    ensures
        final(s)@ == old(s)@ + hex2(b),
{
    s.append(hex_digit(b / 16));
    s.append(hex_digit(b % 16));
    assert(final(s)@ =~= old(s)@ + hex2(b));
}

pub fn append_hex4(s: &mut String, w: u16)
    ensures
        final(s)@ == old(s)@ + hex4(w),
{
    s.append(hex_digit((w / 4096) as u8));
    s.append(hex_digit(((w / 256) % 16) as u8));
    s.append(hex_digit(((w / 16) % 16) as u8));
    s.append(hex_digit((w % 16) as u8));
    assert(final(s)@ =~= old(s)@ + hex4(w));
}

pub fn append_hex_min(s: &mut String, b: u8)
    ensures
        final(s)@ == old(s)@ + hex_min(b),
{
    if b < 16 {
        s.append(hex_digit(b));
        assert(final(s)@ =~= old(s)@ + hex_min(b));
    } else {
        append_hex2(s, b);
    }
}

/// Appends `t` padded with spaces on the right to `n` characters.
pub fn append_padded(s: &mut String, t: &str, n: usize)
    ensures
        final(s)@ == old(s)@ + pad_right(t@, n as nat),
{
    s.append(t);
    let mut len = t.unicode_len();
    proof { reveal_strlit(" "); }
    while len < n
        invariant
            t@.len() <= len <= (if t@.len() < n { n as int } else { t@.len() as int }),
            s@ == old(s)@ + t@ + spaces((len - t@.len()) as nat),
            " "@ == seq![' '],
        decreases n - len,
    {
        s.append(" ");
        len += 1;
        proof {
            assert(spaces((len - t@.len()) as nat) == spaces((len - 1 - t@.len()) as nat) + " "@);
        }
    }
    proof {
        assert(s@ =~= old(s)@ + pad_right(t@, n as nat));
    }
}

/// `n` in decimal (`{}`).
pub open spec fn decimal(n: nat) -> Seq<char>
    decreases n,
{
    if n < 10 { seq![hex_char(n as int)] } else { decimal(n / 10) + seq![hex_char((n % 10) as int)] }
}

/// A signed number in decimal.
pub open spec fn signed_decimal(n: int) -> Seq<char> {
    if n < 0 { "-"@ + decimal((-n) as nat) } else { decimal(n as nat) }
}

/// `n` in binary (`{:b}`).
pub open spec fn binary(n: nat) -> Seq<char>
    decreases n,
{
    if n < 2 { seq![hex_char(n as int)] } else { binary(n / 2) + seq![hex_char((n % 2) as int)] }
}

/// `true` or `false`.
pub open spec fn bool_text(b: bool) -> Seq<char> {
    if b { "true"@ } else { "false"@ }
}

pub fn append_decimal(s: &mut String, n: u64)
    ensures
        final(s)@ == old(s)@ + decimal(n as nat),
    decreases n,
{
    if n >= 10 {
        append_decimal(s, n / 10);
    }
    s.append(hex_digit((n % 10) as u8));
    assert(final(s)@ =~= old(s)@ + decimal(n as nat));
}

pub fn append_signed_decimal(s: &mut String, n: i64)
    ensures
        final(s)@ == old(s)@ + signed_decimal(n as int),
{
    if n < 0 {
        s.append("-");
        let m: u64 = (-(n as i128)) as u64;
        append_decimal(s, m);
        assert(final(s)@ =~= old(s)@ + signed_decimal(n as int));
    } else {
        append_decimal(s, n as u64);
    }
}

pub fn append_binary(s: &mut String, n: u8)
    ensures
        final(s)@ == old(s)@ + binary(n as nat),
    decreases n,
{
    if n >= 2 {
        append_binary(s, n / 2);
    }
    s.append(hex_digit(n % 2));
    assert(final(s)@ =~= old(s)@ + binary(n as nat));
}

pub fn append_bool(s: &mut String, b: bool)
    ensures
        final(s)@ == old(s)@ + bool_text(b),
{
    if b { s.append("true"); } else { s.append("false"); }
}

} // verus!
