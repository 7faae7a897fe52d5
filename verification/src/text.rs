//! Plain-text building blocks of the renderer: runs of spaces, decimal
//! numbers and lowercase hexadecimal, each as a spec-level sequence of
//! characters together with a verified writer that appends exactly that
//! sequence to a `String` buffer.

use vstd::prelude::*;

verus! {

/// `n` spaces.
pub open spec fn spaces(n: nat) -> Seq<char> {
    Seq::new(n, |i: int| ' ')
}

/// Append `n` spaces to `f`.
pub fn push_spaces(f: &mut String, n: usize)
    ensures
        final(f)@ == old(f)@ + spaces(n as nat),
{
    proof {
        reveal_strlit(" ");
        assert(old(f)@ + spaces(0) =~= old(f)@);
    }
    let mut i: usize = 0;
    while i < n
        invariant
            i <= n,
            f@ == old(f)@ + spaces(i as nat),
        decreases n - i,
    {
        f.append(" ");
        proof {
            reveal_strlit(" ");
            assert(spaces(i as nat) + " "@ =~= spaces((i + 1) as nat));
            assert(old(f)@ + spaces(i as nat) + " "@ =~= old(f)@ + (spaces(i as nat) + " "@));
        }
        i = i + 1;
    }
}

/// The character of a single decimal digit.
pub open spec fn dec_digit(d: nat) -> char {
    if d == 0 {
        '0'
    } else if d == 1 {
        '1'
    } else if d == 2 {
        '2'
    } else if d == 3 {
        '3'
    } else if d == 4 {
        '4'
    } else if d == 5 {
        '5'
    } else if d == 6 {
        '6'
    } else if d == 7 {
        '7'
    } else if d == 8 {
        '8'
    } else {
        '9'
    }
}

/// The decimal notation of `n`, most significant digit first, without
/// leading zeros (`0` itself is the single digit `0`).
pub open spec fn dec_of(n: nat) -> Seq<char>
    decreases n,
{
    if n < 10 {
        seq![dec_digit(n)]
    } else {
        dec_of(n / 10) + seq![dec_digit(n % 10)]
    }
}

/// Append the single decimal digit `d` to `f`.
fn push_dec_digit(f: &mut String, d: u32)
    requires
        d < 10,
    ensures
        final(f)@ == old(f)@ + seq![dec_digit(d as nat)],
{
    proof {
        reveal_strlit("0");
        reveal_strlit("1");
        reveal_strlit("2");
        reveal_strlit("3");
        reveal_strlit("4");
        reveal_strlit("5");
        reveal_strlit("6");
        reveal_strlit("7");
        reveal_strlit("8");
        reveal_strlit("9");
    }
    if d == 0 {
        f.append("0");
    } else if d == 1 {
        f.append("1");
    } else if d == 2 {
        f.append("2");
    } else if d == 3 {
        f.append("3");
    } else if d == 4 {
        f.append("4");
    } else if d == 5 {
        f.append("5");
    } else if d == 6 {
        f.append("6");
    } else if d == 7 {
        f.append("7");
    } else if d == 8 {
        f.append("8");
    } else {
        f.append("9");
    }
    assert(final(f)@ =~= old(f)@ + seq![dec_digit(d as nat)]);
}

/// Append the decimal notation of `n` to `f`.
pub fn push_dec(f: &mut String, n: u32)
    ensures
        final(f)@ == old(f)@ + dec_of(n as nat),
    decreases n,
{
    if n < 10 {
        push_dec_digit(f, n);
    } else {
        push_dec(f, n / 10);
        push_dec_digit(f, n % 10);
        proof {
            assert(old(f)@ + dec_of((n / 10) as nat) + seq![dec_digit((n % 10) as nat)] =~= old(
                f,
            )@ + (dec_of((n / 10) as nat) + seq![dec_digit((n % 10) as nat)]));
        }
    }
}

/// The character of a single hexadecimal digit, lowercase.
pub open spec fn hex_digit(d: nat) -> char {
    if d < 10 {
        dec_digit(d)
    } else if d == 10 {
        'a'
    } else if d == 11 {
        'b'
    } else if d == 12 {
        'c'
    } else if d == 13 {
        'd'
    } else if d == 14 {
        'e'
    } else {
        'f'
    }
}

/// The two lowercase hexadecimal digits of one byte, high nibble first.
pub open spec fn hex_of_byte(b: u8) -> Seq<char> {
    seq![hex_digit(b as nat / 16), hex_digit(b as nat % 16)]
}

/// The lowercase hexadecimal notation of a byte string: two digits per
/// byte, in byte order.
pub open spec fn hex_of(bytes: Seq<u8>) -> Seq<char>
    decreases bytes.len(),
{
    if bytes.len() == 0 {
        Seq::empty()
    } else {
        hex_of(bytes.drop_last()) + hex_of_byte(bytes.last())
    }
}

/// Append the single hexadecimal digit `d` to `f`.
fn push_hex_digit(f: &mut String, d: u8)
    requires
        d < 16,
    ensures
        final(f)@ == old(f)@ + seq![hex_digit(d as nat)],
{
    if d < 10 {
        push_dec_digit(f, d as u32);
    } else {
        proof {
            reveal_strlit("a");
            reveal_strlit("b");
            reveal_strlit("c");
            reveal_strlit("d");
            reveal_strlit("e");
            reveal_strlit("f");
        }
        if d == 10 {
            f.append("a");
        } else if d == 11 {
            f.append("b");
        } else if d == 12 {
            f.append("c");
        } else if d == 13 {
            f.append("d");
        } else if d == 14 {
            f.append("e");
        } else {
            f.append("f");
        }
        assert(final(f)@ =~= old(f)@ + seq![hex_digit(d as nat)]);
    }
}

/// Append the lowercase hexadecimal notation of `bytes` to `f`.
pub fn push_hex(f: &mut String, bytes: &Vec<u8>)
    ensures
        final(f)@ == old(f)@ + hex_of(bytes@),
{
    proof {
        assert(old(f)@ + hex_of(bytes@.take(0)) =~= old(f)@);
    }
    let mut i: usize = 0;
    while i < bytes.len()
        invariant
            i <= bytes@.len(),
            f@ == old(f)@ + hex_of(bytes@.take(i as int)),
        decreases bytes@.len() - i,
    {
        let b = bytes[i];
        push_hex_digit(f, b / 16);
        push_hex_digit(f, b % 16);
        proof {
            assert(bytes@.take(i + 1).drop_last() =~= bytes@.take(i as int));
            assert(old(f)@ + hex_of(bytes@.take(i as int)) + seq![hex_digit(b as nat / 16)] + seq![
                hex_digit(b as nat % 16),
            ] =~= old(f)@ + hex_of(bytes@.take(i + 1)));
        }
        i = i + 1;
    }
    proof {
        assert(bytes@.take(bytes@.len() as int) =~= bytes@);
    }
}

} // verus!
