//! Rendering an address as uppercase hexadecimal, the shape diagnostics and
//! the presentation layer print it in.

use vstd::prelude::*;
use vstd::string::StringExecFns;

verus! {

/// The uppercase hexadecimal character for one digit value.
pub open spec fn hex_digit(d: int) -> char
    recommends
        0 <= d < 16,
{
    if d == 0 {
        '0'
    } else if d == 1 {
        '1'
    } else if d == 2 {
        '2'
    } else if d == 3 {
        '3'
    } else if d == 4 {
        '4'
    } else if d == 5 {
        '5'
    } else if d == 6 {
        '6'
    } else if d == 7 {
        '7'
    } else if d == 8 {
        '8'
    } else if d == 9 {
        '9'
    } else if d == 10 {
        'A'
    } else if d == 11 {
        'B'
    } else if d == 12 {
        'C'
    } else if d == 13 {
        'D'
    } else if d == 14 {
        'E'
    } else {
        'F'
    }
}

/// The uppercase hexadecimal rendering of a nonnegative number, without
/// leading zeros (zero itself renders as one digit).
pub open spec fn hex_rep(n: int) -> Seq<char>
    recommends
        n >= 0,
    decreases n,
{
    if n < 16 {
        seq![hex_digit(n)]
    } else {
        hex_rep(n / 16).push(hex_digit(n % 16))
    }
}

/// One hexadecimal digit as text.
fn hex_digit_str(d: u8) -> (r: &'static str)
    requires
        d < 16,
    ensures
        r@ == seq![hex_digit(d as int)],
{
    proof {
        reveal_strlit("0");
        reveal_strlit("1");
        reveal_strlit("2");
        reveal_strlit("3");
        reveal_strlit("4");
        reveal_strlit("5");
        reveal_strlit("6");
        reveal_strlit("7");
        reveal_strlit("8");
        reveal_strlit("9");
        reveal_strlit("A");
        reveal_strlit("B");
        reveal_strlit("C");
        reveal_strlit("D");
        reveal_strlit("E");
        reveal_strlit("F");
    }
    let r: &'static str = match d {
        0 => "0",
        1 => "1",
        2 => "2",
        3 => "3",
        4 => "4",
        5 => "5",
        6 => "6",
        7 => "7",
        8 => "8",
        9 => "9",
        10 => "A",
        11 => "B",
        12 => "C",
        13 => "D",
        14 => "E",
        _ => "F",
    };
    proof {
        assert(r@ =~= seq![hex_digit(d as int)]);
    }
    r
}

/// Render an address in uppercase hexadecimal.
pub fn address_hex(address: u64) -> (r: String)
    ensures
        r@ == hex_rep(address as int),
{
    // Digit values, least significant first.
    let mut digits: Vec<u8> = Vec::new();
    let mut n: u64 = address;
    digits.push((n % 16) as u8);
    n = n / 16;
    proof {
        assert(digits@ =~= Seq::<u8>::empty().push((address as int % 16) as u8));
        lemma_digit_chars_push(Seq::<u8>::empty(), (address as int % 16) as u8);
        assert(digit_chars(digits@) =~= seq![hex_digit(address as int % 16)]);
        if n == 0 {
            assert(address < 16);
            assert(address as int % 16 == address as int);
            assert(hex_rep(address as int) =~= digit_chars(digits@));
        } else {
            assert(hex_rep(address as int) == hex_rep(address as int / 16).push(
                hex_digit(address as int % 16),
            ));
            assert(hex_rep(n as int) + digit_chars(digits@) =~= hex_rep(address as int));
        }
    }
    while n > 0
        invariant
            digits@.len() >= 1,
            forall|j: int| 0 <= j < digits@.len() ==> digits@[j] < 16,
            hex_rep(address as int) == (if n > 0 {
                hex_rep(n as int) + digit_chars(digits@)
            } else {
                digit_chars(digits@)
            }),
        decreases n,
    {
        let ghost pre = digits@;
        let ghost m = n as int;
        digits.push((n % 16) as u8);
        n = n / 16;
        proof {
            assert(digits@ =~= pre.push((m % 16) as u8));
            lemma_digit_chars_push(pre, (m % 16) as u8);
            if m < 16 {
                assert(m / 16 == 0);
                assert(hex_rep(m) == seq![hex_digit(m)]);
                assert(seq![hex_digit(m)] + digit_chars(pre) =~= digit_chars(digits@));
            } else {
                assert(hex_rep(m) == hex_rep(m / 16).push(hex_digit(m % 16)));
                assert(hex_rep(m / 16) + (seq![hex_digit(m % 16)] + digit_chars(pre))
                    =~= hex_rep(m) + digit_chars(pre));
            }
        }
    }
    // Emit most significant first.
    let mut out: String = String::new();
    let mut i: usize = digits.len();
    proof {
        assert(out@ =~= hex_rep(address as int).take(0));
    }
    while i > 0
        invariant
            i <= digits@.len(),
            forall|j: int| 0 <= j < digits@.len() ==> digits@[j] < 16,
            hex_rep(address as int) == digit_chars(digits@),
            out@ == hex_rep(address as int).take(digits@.len() - i),
        decreases i,
    {
        i = i - 1;
        out.append(hex_digit_str(digits[i]));
        proof {
            let full = hex_rep(address as int);
            let k = digits@.len() - i - 1;
            lemma_digit_chars_index(digits@, k);
            assert(full[k] == hex_digit(digits@[i as int] as int));
            assert(out@ =~= full.take(k + 1));
        }
    }
    proof {
        lemma_digit_chars_len(digits@);
        assert(hex_rep(address as int).take(digits@.len() as int) =~= hex_rep(address as int));
    }
    out
}

/// The characters of a least-significant-first digit sequence, most
/// significant first.
pub open spec fn digit_chars(ds: Seq<u8>) -> Seq<char>
    decreases ds.len(),
{
    if ds.len() == 0 {
        Seq::empty()
    } else {
        seq![hex_digit(ds.last() as int)] + digit_chars(ds.drop_last())
    }
}

proof fn lemma_digit_chars_push(ds: Seq<u8>, d: u8)
    ensures
        digit_chars(ds.push(d)) == seq![hex_digit(d as int)] + digit_chars(ds),
{
    assert(ds.push(d).drop_last() =~= ds);
    assert(ds.push(d).last() == d);
}

proof fn lemma_digit_chars_len(ds: Seq<u8>)
    ensures
        digit_chars(ds).len() == ds.len(),
    decreases ds.len(),
{
    if ds.len() > 0 {
        lemma_digit_chars_len(ds.drop_last());
    }
}

proof fn lemma_digit_chars_index(ds: Seq<u8>, k: int)
    requires
        0 <= k < ds.len(),
    ensures
        digit_chars(ds).len() == ds.len(),
        digit_chars(ds)[k] == hex_digit(ds[ds.len() - 1 - k] as int),
    decreases ds.len(),
{
    lemma_digit_chars_len(ds);
    if k == 0 {
        lemma_digit_chars_len(ds.drop_last());
    } else {
        lemma_digit_chars_index(ds.drop_last(), k - 1);
        assert(ds.drop_last()[ds.len() - 1 - k] == ds[ds.len() - 1 - k]);
    }
}

} // verus!
