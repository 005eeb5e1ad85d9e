//! Percent-encoding of query values: the unreserved characters of URIs
//! stay as they are, every other character becomes `%XX` for each byte of
//! its UTF-8 encoding.
use vstd::prelude::*;
use vstd::string::{StrSliceExecFns, StringExecFns};
use crate::decimal::digit_char;

verus! {

/// An uppercase hexadecimal digit (`F` for anything above fifteen).
pub open spec fn hex_upper(d: nat) -> char {
    if d < 10 {
        digit_char(d)
    } else if d == 10 {
        'A'
    } else if d == 11 {
        'B'
    } else if d == 12 {
        'C'
    } else if d == 13 {
        'D'
    } else if d == 14 {
        'E'
    } else {
        'F'
    }
}

/// Letters, digits, `-`, `.`, `_` and `~`, by code point.
pub open spec fn unreserved_code(n: nat) -> bool {
    (65 <= n <= 90) || (97 <= n <= 122) || (48 <= n <= 57) || n == 45 || n == 46 || n == 95
        || n == 126
}

/// The UTF-8 encoding of the code point `n`.
pub open spec fn utf8_bytes(n: nat) -> Seq<nat> {
    if n < 0x80 {
        seq![n]
    } else if n < 0x800 {
        seq![0xC0 + n / 64, 0x80 + n % 64]
    } else if n < 0x10000 {
        seq![0xE0 + n / 4096, 0x80 + (n / 64) % 64, 0x80 + n % 64]
    } else {
        seq![0xF0 + n / 262144, 0x80 + (n / 4096) % 64, 0x80 + (n / 64) % 64, 0x80 + n % 64]
    }
}

/// `%XX` for each byte.
pub open spec fn pct_bytes(bs: Seq<nat>) -> Seq<char>
    decreases bs.len(),
{
    if bs.len() == 0 {
        seq![]
    } else {
        pct_bytes(bs.drop_last()) + seq!['%', hex_upper(bs.last() / 16), hex_upper(
            bs.last() % 16,
        )]
    }
}

/// One character, encoded.
pub open spec fn encoded_char(c: char) -> Seq<char> {
    if unreserved_code(c as u32 as nat) {
        seq![c]
    } else {
        pct_bytes(utf8_bytes(c as u32 as nat))
    }
}

/// The characters of `s`, each encoded.
pub open spec fn percent_encoded(s: Seq<char>) -> Seq<char>
    decreases s.len(),
{
    if s.len() == 0 {
        seq![]
    } else {
        percent_encoded(s.drop_last()) + encoded_char(s.last())
    }
}

fn hex_str(d: u32) -> (r: &'static str)
    ensures
        r@ == seq![hex_upper(d as nat)],
{
    proof {
        reveal_strlit("0");
        reveal_strlit("1");
        reveal_strlit("2");
        reveal_strlit("3");
        reveal_strlit("4");
        reveal_strlit("5");
        reveal_strlit("6");
        reveal_strlit("7");
        reveal_strlit("8");
        reveal_strlit("9");
        reveal_strlit("A");
        reveal_strlit("B");
        reveal_strlit("C");
        reveal_strlit("D");
        reveal_strlit("E");
        reveal_strlit("F");
    }
    match d {
        0 => "0",
        1 => "1",
        2 => "2",
        3 => "3",
        4 => "4",
        5 => "5",
        6 => "6",
        7 => "7",
        8 => "8",
        9 => "9",
        10 => "A",
        11 => "B",
        12 => "C",
        13 => "D",
        14 => "E",
        _ => "F",
    }
}

fn append_pct(s: &mut String, b: u32)
    ensures
        final(s)@ == old(s)@ + seq!['%', hex_upper(b as nat / 16), hex_upper(b as nat % 16)],
{
    proof {
        reveal_strlit("%");
    }
    let ghost start = s@;
    s.append("%");
    s.append(hex_str(b / 16));
    s.append(hex_str(b % 16));
    assert(s@ =~= start + seq!['%', hex_upper(b as nat / 16), hex_upper(b as nat % 16)]);
}

fn append_encoded_char(s: &mut String, v: &str, i: usize, len: usize)
    requires
        i < len,
        len == v@.len(),
    ensures
        final(s)@ == old(s)@ + encoded_char(v@[i as int]),
{
    let ghost start = s@;
    let c = v.get_char(i);
    let n = c as u32;
    let ghost bs = utf8_bytes(n as nat);
    proof {
        reveal_with_fuel(pct_bytes, 5);
    }
    if (65 <= n && n <= 90) || (97 <= n && n <= 122) || (48 <= n && n <= 57) || n == 45 || n == 46
        || n == 95 || n == 126 {
        s.append(v.substring_char(i, i + 1));
        assert(v@.subrange(i as int, i + 1) =~= seq![c]);
    } else if n < 0x80 {
        append_pct(s, n);
        assert(bs.drop_last() =~= Seq::<nat>::empty());
        assert(s@ =~= start + pct_bytes(bs));
    } else if n < 0x800 {
        append_pct(s, 0xC0 + n / 64);
        append_pct(s, 0x80 + n % 64);
        assert(bs.drop_last() =~= seq![bs[0]]);
        assert(bs.drop_last().drop_last() =~= Seq::<nat>::empty());
        assert(s@ =~= start + pct_bytes(bs));
    } else if n < 0x10000 {
        append_pct(s, 0xE0 + n / 4096);
        append_pct(s, 0x80 + (n / 64) % 64);
        append_pct(s, 0x80 + n % 64);
        assert(bs.drop_last() =~= seq![bs[0], bs[1]]);
        assert(bs.drop_last().drop_last() =~= seq![bs[0]]);
        assert(bs.drop_last().drop_last().drop_last() =~= Seq::<nat>::empty());
        assert(s@ =~= start + pct_bytes(bs));
    } else {
        append_pct(s, 0xF0 + n / 262144);
        append_pct(s, 0x80 + (n / 4096) % 64);
        append_pct(s, 0x80 + (n / 64) % 64);
        append_pct(s, 0x80 + n % 64);
        assert(bs.drop_last() =~= seq![bs[0], bs[1], bs[2]]);
        assert(bs.drop_last().drop_last() =~= seq![bs[0], bs[1]]);
        assert(bs.drop_last().drop_last().drop_last() =~= seq![bs[0]]);
        assert(bs.drop_last().drop_last().drop_last().drop_last() =~= Seq::<nat>::empty());
        assert(s@ =~= start + pct_bytes(bs));
    }
}

/// Appends `v`, percent-encoded, to `s`.
pub fn append_encoded(s: &mut String, v: &str)
    ensures
        final(s)@ == old(s)@ + percent_encoded(v@),
{
    let ghost start = s@;
    let n = v.unicode_len();
    let mut i: usize = 0;
    while i < n
        invariant
            n == v@.len(),
            i <= n,
            s@ == start + percent_encoded(v@.take(i as int)),
        decreases n - i,
    {
        append_encoded_char(s, v, i, n);
        assert(v@.take(i + 1).drop_last() =~= v@.take(i as int));
        i = i + 1;
    }
    assert(v@.take(n as int) =~= v@);
}

} // verus!
