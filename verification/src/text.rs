//! Verified text helpers: ASCII lowering, substring search, and the
//! rendering of numbers, used for interface-name matching and address
//! formatting.

use vstd::prelude::*;
use vstd::string::{StrSliceExecFns, StringExecFns};

verus! {

/// ASCII lowering of one character: 'A'..='Z' shift to 'a'..='z', every
/// other character stays as it is.
pub open spec fn spec_lower_char(c: char) -> char {
    if 65 <= c as int && c as int <= 90 {
        ((c as int) + 32) as char
    } else {
        c
    }
}

/// ASCII lowering of a character sequence.
pub open spec fn spec_lower(s: Seq<char>) -> Seq<char> {
    s.map_values(|c: char| spec_lower_char(c))
}

/// Whether `needle` occurs contiguously inside `hay`.
pub open spec fn spec_contains_seq(hay: Seq<char>, needle: Seq<char>) -> bool {
    exists|i: int|
        0 <= i && i + needle.len() <= hay.len() && #[trigger] hay.subrange(
            i,
            i + needle.len() as int,
        ) == needle
}

/// The characters of a string, as a vector.
pub fn chars_of(s: &str) -> (r: Vec<char>)
    ensures
        r@ == s@,
{
    let n = s.unicode_len();
    let mut v: Vec<char> = Vec::new();
    let mut i: usize = 0;
    while i < n
        invariant
            0 <= i <= n,
            n == s@.len(),
            v@ =~= s@.take(i as int),
        decreases n - i,
    {
        v.push(s.get_char(i));
        proof {
            assert(v@ =~= s@.take(i + 1));
        }
        i = i + 1;
    }
    proof {
        assert(s@.take(n as int) =~= s@);
    }
    v
}

/// The characters of a string, ASCII-lowered.
pub fn lower_chars_of(s: &str) -> (r: Vec<char>)
    ensures
        r@ == spec_lower(s@),
{
    let n = s.unicode_len();
    let mut v: Vec<char> = Vec::new();
    let mut i: usize = 0;
    while i < n
        invariant
            0 <= i <= n,
            n == s@.len(),
            v@.len() == i,
            forall|j: int| 0 <= j < i ==> v@[j] == spec_lower_char(s@[j]),
        decreases n - i,
    {
        let c = s.get_char(i);
        let u = c as u32;
        let lowered: char = if u >= 65 && u <= 90 {
            ((u as u8) + 32) as char
        } else {
            c
        };
        v.push(lowered);
        i = i + 1;
    }
    proof {
        assert(v@ =~= spec_lower(s@));
    }
    v
}

/// Searches `hay` for a contiguous occurrence of `needle`.
pub fn contains_chars(hay: &Vec<char>, needle: &Vec<char>) -> (r: bool)
    ensures
        r == spec_contains_seq(hay@, needle@),
{
    let nl = needle.len();
    let hl = hay.len();
    if nl > hl {
        return false;
    }
    let mut i: usize = 0;
    while i <= hl - nl
        invariant
            nl == needle@.len(),
            hl == hay@.len(),
            nl <= hl,
            0 <= i,
            i <= hl - nl + 1,
            forall|k: int|
                0 <= k < i ==> #[trigger] hay@.subrange(k, k + needle@.len() as int) != needle@,
        decreases hl - nl - i + 1,
    {
        let mut j: usize = 0;
        while j < nl && hay[i + j] == needle[j]
            invariant
                0 <= j <= nl,
                nl == needle@.len(),
                hl == hay@.len(),
                i + nl <= hl,
                forall|l: int| 0 <= l < j ==> hay@[i + l] == needle@[l],
            decreases nl - j,
        {
            j = j + 1;
        }
        if j == nl {
            proof {
                assert(hay@.subrange(i as int, i + needle@.len() as int) =~= needle@);
            }
            return true;
        }
        proof {
            let sub = hay@.subrange(i as int, i + needle@.len() as int);
            assert(sub[j as int] == hay@[i + j]);
            assert(sub != needle@);
        }
        i = i + 1;
    }
    proof {
        assert forall|k: int| 0 <= k && k + needle@.len() <= hay@.len() implies #[trigger] hay@.subrange(
            k,
            k + needle@.len() as int,
        ) != needle@ by {
            assert(k < i);
        }
    }
    false
}

/// The decimal digit character for a value below ten.
pub open spec fn spec_digit(d: int) -> char {
    if d == 0 {
        '0'
    } else if d == 1 {
        '1'
    } else if d == 2 {
        '2'
    } else if d == 3 {
        '3'
    } else if d == 4 {
        '4'
    } else if d == 5 {
        '5'
    } else if d == 6 {
        '6'
    } else if d == 7 {
        '7'
    } else if d == 8 {
        '8'
    } else {
        '9'
    }
}

/// The decimal rendering of a number, most significant digit first, with
/// no leading zeros.
pub open spec fn spec_decimal(n: int) -> Seq<char>
    decreases n,
{
    if n < 10 {
        seq![spec_digit(n)]
    } else {
        spec_decimal(n / 10) + seq![spec_digit(n % 10)]
    }
}

/// Appends one decimal digit character.
fn push_digit(s: &mut String, d: u64)
    requires
        d < 10,
    ensures
        final(s)@ == old(s)@ + seq![spec_digit(d as int)],
{
    if d == 0 {
        proof {
            reveal_strlit("0");
        }
        s.append("0");
    } else if d == 1 {
        proof {
            reveal_strlit("1");
        }
        s.append("1");
    } else if d == 2 {
        proof {
            reveal_strlit("2");
        }
        s.append("2");
    } else if d == 3 {
        proof {
            reveal_strlit("3");
        }
        s.append("3");
    } else if d == 4 {
        proof {
            reveal_strlit("4");
        }
        s.append("4");
    } else if d == 5 {
        proof {
            reveal_strlit("5");
        }
        s.append("5");
    } else if d == 6 {
        proof {
            reveal_strlit("6");
        }
        s.append("6");
    } else if d == 7 {
        proof {
            reveal_strlit("7");
        }
        s.append("7");
    } else if d == 8 {
        proof {
            reveal_strlit("8");
        }
        s.append("8");
    } else {
        proof {
            reveal_strlit("9");
        }
        s.append("9");
    }
    proof {
        assert(final(s)@ =~= old(s)@ + seq![spec_digit(d as int)]);
    }
}

/// Appends the decimal rendering of a number.
pub fn push_decimal(s: &mut String, n: u64)
    ensures
        final(s)@ == old(s)@ + spec_decimal(n as int),
    decreases n,
{
    if n >= 10 {
        push_decimal(s, n / 10);
        push_digit(s, n % 10);
        proof {
            assert(final(s)@ =~= old(s)@ + spec_decimal(n as int));
        }
    } else {
        push_digit(s, n);
    }
}

/// The hexadecimal digit character for a value below sixteen, lower
/// case.
pub open spec fn spec_hex_digit(d: int) -> char {
    if d < 10 {
        spec_digit(d)
    } else if d == 10 {
        'a'
    } else if d == 11 {
        'b'
    } else if d == 12 {
        'c'
    } else if d == 13 {
        'd'
    } else if d == 14 {
        'e'
    } else {
        'f'
    }
}

/// One 16-bit group as four zero-padded hexadecimal digits.
pub open spec fn spec_hex_group(g: int) -> Seq<char> {
    seq![
        spec_hex_digit(g / 4096 % 16),
        spec_hex_digit(g / 256 % 16),
        spec_hex_digit(g / 16 % 16),
        spec_hex_digit(g % 16),
    ]
}

/// Appends one hexadecimal digit character.
fn push_hex_digit(s: &mut String, d: u64)
    requires
        d < 16,
    ensures
        final(s)@ == old(s)@ + seq![spec_hex_digit(d as int)],
{
    if d < 10 {
        push_digit(s, d);
    } else if d == 10 {
        proof {
            reveal_strlit("a");
        }
        s.append("a");
    } else if d == 11 {
        proof {
            reveal_strlit("b");
        }
        s.append("b");
    } else if d == 12 {
        proof {
            reveal_strlit("c");
        }
        s.append("c");
    } else if d == 13 {
        proof {
            reveal_strlit("d");
        }
        s.append("d");
    } else if d == 14 {
        proof {
            reveal_strlit("e");
        }
        s.append("e");
    } else {
        proof {
            reveal_strlit("f");
        }
        s.append("f");
    }
    proof {
        assert(final(s)@ =~= old(s)@ + seq![spec_hex_digit(d as int)]);
    }
}

/// Appends one 16-bit group as four zero-padded hexadecimal digits.
pub fn push_hex_group(s: &mut String, g: u64)
    requires
        g < 65536,
    ensures
        final(s)@ == old(s)@ + spec_hex_group(g as int),
{
    push_hex_digit(s, g / 4096 % 16);
    push_hex_digit(s, g / 256 % 16);
    push_hex_digit(s, g / 16 % 16);
    push_hex_digit(s, g % 16);
    proof {
        assert(final(s)@ =~= old(s)@ + spec_hex_group(g as int));
    }
}

} // verus!
