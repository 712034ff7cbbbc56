//! Canonical hexadecimal rendering of a 64-bit value: exactly 16 lowercase
//! digits, left-zero-padded, independent of platform byte order.

use vstd::prelude::*;
use vstd::arithmetic::div_mod::lemma_div_denominator;
use vstd::arithmetic::power::{lemma_pow0, lemma_pow1, lemma_pow_adds, lemma_pow_positive, pow};
use vstd::string::StringExecFns;

verus! {

/// The lowercase hexadecimal digit character for a value below 16.
pub open spec fn hex_digit_char(d: int) -> char {
    if d == 0 {
        '0'
    } else if d == 1 {
        '1'
    } else if d == 2 {
        '2'
    } else if d == 3 {
        '3'
    } else if d == 4 {
        '4'
    } else if d == 5 {
        '5'
    } else if d == 6 {
        '6'
    } else if d == 7 {
        '7'
    } else if d == 8 {
        '8'
    } else if d == 9 {
        '9'
    } else if d == 10 {
        'a'
    } else if d == 11 {
        'b'
    } else if d == 12 {
        'c'
    } else if d == 13 {
        'd'
    } else if d == 14 {
        'e'
    } else {
        'f'
    }
}

/// The base-16 digit of `v` at position `i`, counting from the most
/// significant of the 16 digit positions of a 64-bit value.
pub open spec fn nibble(v: u64, i: int) -> int {
    ((v as int) / pow(16, (15 - i) as nat)) % 16
}

/// The canonical rendering of `v`: for each of the 16 positions, the
/// lowercase digit character of the base-16 digit standing there.
pub open spec fn spec_hex64(v: u64) -> Seq<char> {
    Seq::new(16, |i: int| hex_digit_char(nibble(v, i)))
}

/// A character is one of the sixteen lowercase hexadecimal digits.
pub open spec fn is_lower_hex_digit(c: char) -> bool {
    ||| c == '0'
    ||| c == '1'
    ||| c == '2'
    ||| c == '3'
    ||| c == '4'
    ||| c == '5'
    ||| c == '6'
    ||| c == '7'
    ||| c == '8'
    ||| c == '9'
    ||| c == 'a'
    ||| c == 'b'
    ||| c == 'c'
    ||| c == 'd'
    ||| c == 'e'
    ||| c == 'f'
}

/// The hexadecimal rendering of any 64-bit value is exactly 16 characters
/// long, and every character is a lowercase hexadecimal digit: no sign
/// extension, no omitted leading zeros.
pub proof fn lemma_hex_well_formed(v: u64)
    ensures
        spec_hex64(v).len() == 16,
        forall|i: int| 0 <= i < 16 ==> is_lower_hex_digit(#[trigger] spec_hex64(v)[i]),
{
    assert forall|i: int| 0 <= i < 16 implies is_lower_hex_digit(#[trigger] spec_hex64(v)[i]) by {
        lemma_pow_positive(16, (15 - i) as nat);
        let d = nibble(v, i);
        assert(0 <= d < 16);
    }
}

/// The one-character string of the lowercase digit for a value below 16.
fn hex_digit_str(d: u64) -> (r: &'static str)
    requires
        d < 16,
    ensures
        r@.len() == 1,
        r@[0] == hex_digit_char(d as int),
{
    proof {
        reveal_strlit("0");
        reveal_strlit("1");
        reveal_strlit("2");
        reveal_strlit("3");
        reveal_strlit("4");
        reveal_strlit("5");
        reveal_strlit("6");
        reveal_strlit("7");
        reveal_strlit("8");
        reveal_strlit("9");
        reveal_strlit("a");
        reveal_strlit("b");
        reveal_strlit("c");
        reveal_strlit("d");
        reveal_strlit("e");
        reveal_strlit("f");
    }
    match d {
        0 => "0",
        1 => "1",
        2 => "2",
        3 => "3",
        4 => "4",
        5 => "5",
        6 => "6",
        7 => "7",
        8 => "8",
        9 => "9",
        10 => "a",
        11 => "b",
        12 => "c",
        13 => "d",
        14 => "e",
        _ => "f",
    }
}

/// Renders `v` as its canonical 16-digit lowercase hexadecimal string.
pub fn to_hex64(v: u64) -> (r: String)
    ensures
        r@ == spec_hex64(v),
{
    let mut digits: Vec<u64> = Vec::new();
    let mut x = v;
    let mut k: usize = 0;
    proof {
        lemma_pow0(16);
    }
    while k < 16
        invariant
            k <= 16,
            digits@.len() == k,
            x as int == (v as int) / pow(16, k as nat),
            forall|j: int| 0 <= j < k ==> #[trigger] digits@[j] == nibble(v, 15 - j),
        decreases 16 - k,
    {
        proof {
            lemma_pow_positive(16, k as nat);
            assert(x % 16 == ((v as int) / pow(16, k as nat)) % 16);
            assert(nibble(v, 15 - k) == ((v as int) / pow(16, (15 - (15 - k)) as nat)) % 16);
            lemma_div_denominator(v as int, pow(16, k as nat), 16);
            lemma_pow1(16);
            lemma_pow_adds(16, k as nat, 1);
            assert(pow(16, (k + 1) as nat) == 16 * pow(16, k as nat));
        }
        digits.push(x % 16);
        x = x / 16;
        k += 1;
    }
    let mut s = String::new();
    let mut i: usize = 0;
    while i < 16
        invariant
            i <= 16,
            digits@.len() == 16,
            forall|j: int| 0 <= j < 16 ==> #[trigger] digits@[j] == nibble(v, 15 - j),
            s@.len() == i,
            forall|j: int| 0 <= j < i ==> #[trigger] s@[j] == hex_digit_char(nibble(v, j)),
        decreases 16 - i,
    {
        let d = digits[15 - i];
        proof {
            lemma_pow_positive(16, (15 - i as int) as nat);
            assert(d < 16);
        }
        let c = hex_digit_str(d);
        s.append(c);
        i += 1;
    }
    proof {
        assert(s@ =~= spec_hex64(v));
    }
    s
}

} // verus!
