//! Decimal and hexadecimal rendering of integers and byte strings, used to
//! build the text a block is hashed over and to print digests.

use vstd::prelude::*;

verus! {

/// The character for a single decimal digit.
pub open spec fn dec_digit(d: nat) -> char {
    if d == 0 {
        '0'
    } else if d == 1 {
        '1'
    } else if d == 2 {
        '2'
    } else if d == 3 {
        '3'
    } else if d == 4 {
        '4'
    } else if d == 5 {
        '5'
    } else if d == 6 {
        '6'
    } else if d == 7 {
        '7'
    } else if d == 8 {
        '8'
    } else {
        '9'
    }
}

/// The decimal rendering of a natural number, most significant digit first,
/// without leading zeros (except that zero itself is "0").
pub open spec fn dec_of(n: nat) -> Seq<char>
    decreases n,
{
    if n < 10 {
        seq![dec_digit(n)]
    } else {
        dec_of(n / 10).push(dec_digit(n % 10))
    }
}

fn dec_digit_str(d: u64) -> (r: &'static str)
    requires
        d < 10,
    ensures
        r@ == seq![dec_digit(d as nat)],
{
    proof {
        reveal_strlit("0");
        reveal_strlit("1");
        reveal_strlit("2");
        reveal_strlit("3");
        reveal_strlit("4");
        reveal_strlit("5");
        reveal_strlit("6");
        reveal_strlit("7");
        reveal_strlit("8");
        reveal_strlit("9");
    }
    if d == 0 {
        proof { assert("0"@ =~= seq![dec_digit(d as nat)]); }
        "0"
    } else if d == 1 {
        proof { assert("1"@ =~= seq![dec_digit(d as nat)]); }
        "1"
    } else if d == 2 {
        proof { assert("2"@ =~= seq![dec_digit(d as nat)]); }
        "2"
    } else if d == 3 {
        proof { assert("3"@ =~= seq![dec_digit(d as nat)]); }
        "3"
    } else if d == 4 {
        proof { assert("4"@ =~= seq![dec_digit(d as nat)]); }
        "4"
    } else if d == 5 {
        proof { assert("5"@ =~= seq![dec_digit(d as nat)]); }
        "5"
    } else if d == 6 {
        proof { assert("6"@ =~= seq![dec_digit(d as nat)]); }
        "6"
    } else if d == 7 {
        proof { assert("7"@ =~= seq![dec_digit(d as nat)]); }
        "7"
    } else if d == 8 {
        proof { assert("8"@ =~= seq![dec_digit(d as nat)]); }
        "8"
    } else {
        proof { assert("9"@ =~= seq![dec_digit(d as nat)]); }
        "9"
    }
}

/// The character for a single hexadecimal digit, lower case.
pub open spec fn hex_digit(d: nat) -> char {
    if d == 0 {
        '0'
    } else if d == 1 {
        '1'
    } else if d == 2 {
        '2'
    } else if d == 3 {
        '3'
    } else if d == 4 {
        '4'
    } else if d == 5 {
        '5'
    } else if d == 6 {
        '6'
    } else if d == 7 {
        '7'
    } else if d == 8 {
        '8'
    } else if d == 9 {
        '9'
    } else if d == 10 {
        'a'
    } else if d == 11 {
        'b'
    } else if d == 12 {
        'c'
    } else if d == 13 {
        'd'
    } else if d == 14 {
        'e'
    } else {
        'f'
    }
}

/// The lower-case hexadecimal rendering of a byte string: two digits per
/// byte, high nibble first.
pub open spec fn hex_of(bytes: Seq<u8>) -> Seq<char>
    decreases bytes.len(),
{
    if bytes.len() == 0 {
        Seq::empty()
    } else {
        hex_of(bytes.drop_last()) + seq![
            hex_digit((bytes.last() / 16) as nat),
            hex_digit((bytes.last() % 16) as nat),
        ]
    }
}

pub proof fn lemma_hex_of_len(bytes: Seq<u8>)
    ensures
        hex_of(bytes).len() == 2 * bytes.len(),
    decreases bytes.len(),
{
    if bytes.len() > 0 {
        lemma_hex_of_len(bytes.drop_last());
    }
}

/// Character `2*i` of the hexadecimal rendering is the high nibble of byte
/// `i`, and character `2*i + 1` its low nibble.
pub proof fn lemma_hex_of_index(bytes: Seq<u8>, i: int)
    requires
        0 <= i < bytes.len(),
    ensures
        hex_of(bytes)[2 * i] == hex_digit((bytes[i] / 16) as nat),
        hex_of(bytes)[2 * i + 1] == hex_digit((bytes[i] % 16) as nat),
    decreases bytes.len(),
{
    lemma_hex_of_len(bytes.drop_last());
    if i < bytes.len() - 1 {
        lemma_hex_of_index(bytes.drop_last(), i);
    }
}

/// Only the digit zero renders as the character `'0'`.
pub proof fn lemma_hex_digit_zero(d: nat)
    requires
        d < 16,
    ensures
        (hex_digit(d) == '0') <==> (d == 0),
{
}

fn hex_digit_str(d: u8) -> (r: &'static str)
    requires
        d < 16,
    ensures
        r@ == seq![hex_digit(d as nat)],
{
    if d < 10 {
        dec_digit_str(d as u64)
    } else {
        proof {
            reveal_strlit("a");
            reveal_strlit("b");
            reveal_strlit("c");
            reveal_strlit("d");
            reveal_strlit("e");
            reveal_strlit("f");
        }
        if d == 10 {
            proof { assert("a"@ =~= seq![hex_digit(d as nat)]); }
            "a"
        } else if d == 11 {
            proof { assert("b"@ =~= seq![hex_digit(d as nat)]); }
            "b"
        } else if d == 12 {
            proof { assert("c"@ =~= seq![hex_digit(d as nat)]); }
            "c"
        } else if d == 13 {
            proof { assert("d"@ =~= seq![hex_digit(d as nat)]); }
            "d"
        } else if d == 14 {
            proof { assert("e"@ =~= seq![hex_digit(d as nat)]); }
            "e"
        } else {
            proof { assert("f"@ =~= seq![hex_digit(d as nat)]); }
            "f"
        }
    }
}

/// Renders a byte string in lower-case hexadecimal, two digits per byte.
pub fn to_hex(bytes: &Vec<u8>) -> (s: String)
    ensures
        s@ == hex_of(bytes@),
{
    let mut s = String::new();
    let mut i: usize = 0;
    while i < bytes.len()
        invariant
            i <= bytes@.len(),
            s@ == hex_of(bytes@.take(i as int)),
        decreases bytes@.len() - i,
    {
        let b = bytes[i];
        s.append(hex_digit_str(b / 16));
        s.append(hex_digit_str(b % 16));
        proof {
            assert(bytes@.take(i + 1 as int).drop_last() =~= bytes@.take(i as int));
            assert(s@ =~= hex_of(bytes@.take(i + 1 as int)));
        }
        i = i + 1;
    }
    proof {
        assert(bytes@.take(bytes@.len() as int) =~= bytes@);
    }
    s
}

/// Renders `n` in decimal, exactly as the decimal formatting of an unsigned
/// integer prints it.
pub fn u64_to_string(n: u64) -> (s: String)
    ensures
        s@ == dec_of(n as nat),
    decreases n,
{
    if n < 10 {
        String::from_str(dec_digit_str(n))
    } else {
        let mut s = u64_to_string(n / 10);
        s.append(dec_digit_str(n % 10));
        proof {
            assert(s@ =~= dec_of(n as nat));
        }
        s
    }
}

} // verus!
