//! Rendering of numbers as text: lower-case hexadecimal, optionally
//! zero-padded to a fixed width, and decimal.

use vstd::prelude::*;
use vstd::string::*;

verus! {

/// The sixteen digit characters, lower case.
pub open spec fn digit_chars() -> Seq<char> {
    seq!['0', '1', '2', '3', '4', '5', '6', '7', '8', '9', 'a', 'b', 'c', 'd', 'e', 'f']
}

/// The character of digit `d` (below sixteen).
pub open spec fn digit_char(d: nat) -> char {
    digit_chars()[d as int]
}

/// The hexadecimal digits of `v`, most significant first, without leading
/// zeros (zero is the single digit `0`).
pub open spec fn hex_of(v: nat) -> Seq<char>
    decreases v,
{
    if v < 16 {
        seq![digit_char(v)]
    } else {
        hex_of(v / 16).push(digit_char(v % 16))
    }
}

/// The decimal digits of `v`, most significant first, without leading zeros.
pub open spec fn decimal_of(v: nat) -> Seq<char>
    decreases v,
{
    if v < 10 {
        seq![digit_char(v)]
    } else {
        decimal_of(v / 10).push(digit_char(v % 10))
    }
}

/// `n` zero characters.
pub open spec fn zeros(n: nat) -> Seq<char> {
    Seq::new(n, |i: int| '0')
}

/// `s` with zeros put in front until it is at least `width` long.
pub open spec fn zero_padded(s: Seq<char>, width: nat) -> Seq<char> {
    if s.len() < width {
        zeros((width - s.len()) as nat) + s
    } else {
        s
    }
}

/// The text of one digit.
fn digit_text(d: u64) -> (r: &'static str)
    requires
        d < 16,
    ensures
        r@ == seq![digit_char(d as nat)],
{
    match d {
        0 => {
            proof {
                reveal_strlit("0");
            }
            "0"
        },
        1 => {
            proof {
                reveal_strlit("1");
            }
            "1"
        },
        2 => {
            proof {
                reveal_strlit("2");
            }
            "2"
        },
        3 => {
            proof {
                reveal_strlit("3");
            }
            "3"
        },
        4 => {
            proof {
                reveal_strlit("4");
            }
            "4"
        },
        5 => {
            proof {
                reveal_strlit("5");
            }
            "5"
        },
        6 => {
            proof {
                reveal_strlit("6");
            }
            "6"
        },
        7 => {
            proof {
                reveal_strlit("7");
            }
            "7"
        },
        8 => {
            proof {
                reveal_strlit("8");
            }
            "8"
        },
        9 => {
            proof {
                reveal_strlit("9");
            }
            "9"
        },
        10 => {
            proof {
                reveal_strlit("a");
            }
            "a"
        },
        11 => {
            proof {
                reveal_strlit("b");
            }
            "b"
        },
        12 => {
            proof {
                reveal_strlit("c");
            }
            "c"
        },
        13 => {
            proof {
                reveal_strlit("d");
            }
            "d"
        },
        14 => {
            proof {
                reveal_strlit("e");
            }
            "e"
        },
        15 => {
            proof {
                reveal_strlit("f");
            }
            "f"
        },
        _ => {
            proof {
                reveal_strlit("f");
            }
            "f"
        },
    }
}

/// Appends the hexadecimal digits of `v`.
pub fn push_hex(out: &mut String, v: u64)
    ensures
        final(out)@ == old(out)@ + hex_of(v as nat),
    decreases v,
{
    if v >= 16 {
        push_hex(out, v / 16);
    }
    out.append(digit_text(v % 16));
    assert(final(out)@ =~= old(out)@ + hex_of(v as nat));
}

/// The number of hexadecimal digits of `v`.
pub fn hex_len(v: u64) -> (r: usize)
    ensures
        r == hex_of(v as nat).len(),
        1 <= r <= 16,
    decreases v,
{
    proof {
        lemma_hex_len_u64(v);
    }
    if v < 16 {
        1
    } else {
        hex_len(v / 16) + 1
    }
}

/// A 64-bit value has at most sixteen hexadecimal digits.
proof fn lemma_hex_len_u64(v: u64)
    ensures
        hex_of(v as nat).len() <= 16,
{
    reveal_with_fuel(vstd::arithmetic::power::pow, 17);
    assert(vstd::arithmetic::power::pow(16, 16) == 0x1_0000_0000_0000_0000);
    lemma_hex_len_pow(v as nat, 16);
}

/// The number of hexadecimal digits of a number below `16^k` is at most `k`.
proof fn lemma_hex_len_pow(v: nat, k: nat)
    requires
        k >= 1,
        v < vstd::arithmetic::power::pow(16, k),
    ensures
        hex_of(v).len() <= k,
    decreases k,
{
    vstd::arithmetic::power::lemma_pow_positive(16, k);
    if v >= 16 {
        if k == 1 {
            vstd::arithmetic::power::lemma_pow1(16);
        } else {
            vstd::arithmetic::power::lemma_pow_adds(16, 1, (k - 1) as nat);
            vstd::arithmetic::power::lemma_pow1(16);
            let p = vstd::arithmetic::power::pow(16, (k - 1) as nat);
            assert(v / 16 < p) by (nonlinear_arith)
                requires
                    v < 16 * p,
            ;
            lemma_hex_len_pow(v / 16, (k - 1) as nat);
        }
    }
}

/// Appends `n` zero characters.
pub fn push_zeros(out: &mut String, n: usize)
    ensures
        final(out)@ == old(out)@ + zeros(n as nat),
{
    let mut i: usize = 0;
    while i < n
        invariant
            i <= n,
            out@ == old(out)@ + zeros(i as nat),
        decreases n - i,
    {
        proof {
            reveal_strlit("0");
        }
        out.append("0");
        i = i + 1;
        assert(out@ =~= old(out)@ + zeros(i as nat));
    }
}

/// Appends the hexadecimal digits of `v`, zero-padded to at least `width`
/// digits.
pub fn push_hex_padded(out: &mut String, v: u64, width: usize)
    ensures
        final(out)@ == old(out)@ + zero_padded(hex_of(v as nat), width as nat),
{
    let n = hex_len(v);
    if n < width {
        push_zeros(out, width - n);
    }
    push_hex(out, v);
    assert(final(out)@ =~= old(out)@ + zero_padded(hex_of(v as nat), width as nat));
}

/// Appends the decimal digits of `v`.
pub fn push_decimal(out: &mut String, v: u64)
    ensures
        final(out)@ == old(out)@ + decimal_of(v as nat),
    decreases v,
{
    if v >= 10 {
        push_decimal(out, v / 10);
    }
    out.append(digit_text(v % 10));
    assert(final(out)@ =~= old(out)@ + decimal_of(v as nat));
}

} // verus!
