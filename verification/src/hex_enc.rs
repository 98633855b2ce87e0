//! Lowercase hexadecimal encoding of byte strings.
//!
//! The authorized identity travels to the proxy as the hex encoding of the
//! raw bytes found in the certificate, so the encoding is part of the
//! library's contract surface.

use vstd::prelude::*;
use vstd::string::StringExecFns;

verus! {

/// The sixteen lowercase hexadecimal digits, in value order.
pub open spec fn hex_digits() -> Seq<char> {
    seq!['0', '1', '2', '3', '4', '5', '6', '7', '8', '9', 'a', 'b', 'c', 'd', 'e', 'f']
}

/// The lowercase hexadecimal digit standing for a value below sixteen.
pub open spec fn hex_char_of(n: int) -> char
    recommends
        0 <= n < 16,
{
    hex_digits()[n]
}

/// Lowercase hexadecimal encoding of a byte string: two digits per byte,
/// high nibble first.
pub open spec fn spec_hex_encode(bytes: Seq<u8>) -> Seq<char>
    decreases bytes.len(),
{
    if bytes.len() == 0 {
        Seq::empty()
    } else {
        seq![hex_char_of((bytes[0] / 16) as int), hex_char_of((bytes[0] % 16) as int)]
            + spec_hex_encode(bytes.drop_first())
    }
}

/// Appending a byte to the input appends its two digits to the encoding.
pub proof fn lemma_hex_encode_push(bytes: Seq<u8>, b: u8)
    ensures
        spec_hex_encode(bytes.push(b)) =~= spec_hex_encode(bytes) + seq![
            hex_char_of((b / 16) as int),
            hex_char_of((b % 16) as int),
        ],
    decreases bytes.len(),
{
    let bpair = seq![hex_char_of((b / 16) as int), hex_char_of((b % 16) as int)];
    if bytes.len() == 0 {
        assert(bytes.push(b)[0] == b);
        assert(bytes.push(b).drop_first() =~= Seq::<u8>::empty());
        assert(spec_hex_encode(bytes.push(b).drop_first()) == Seq::<char>::empty());
        assert(spec_hex_encode(bytes.push(b)) =~= spec_hex_encode(bytes) + bpair);
    } else {
        let pair = seq![hex_char_of((bytes[0] / 16) as int), hex_char_of((bytes[0] % 16) as int)];
        assert(bytes.push(b)[0] == bytes[0]);
        assert(bytes.push(b).drop_first() =~= bytes.drop_first().push(b));
        lemma_hex_encode_push(bytes.drop_first(), b);
        assert(spec_hex_encode(bytes.push(b)) =~= pair + spec_hex_encode(
            bytes.drop_first().push(b),
        ));
        assert(spec_hex_encode(bytes.push(b)) =~= pair + (spec_hex_encode(bytes.drop_first())
            + bpair));
        assert(spec_hex_encode(bytes) =~= pair + spec_hex_encode(bytes.drop_first()));
        assert(pair + (spec_hex_encode(bytes.drop_first()) + bpair) =~= (pair + spec_hex_encode(
            bytes.drop_first(),
        )) + bpair);
    }
}

/// The lowercase digit for one value below sixteen, as a one-character
/// string slice.
fn hex_digit(n: u8) -> (r: &'static str)
    requires
        n < 16,
    ensures
        r@ =~= seq![hex_char_of(n as int)],
{
    proof {
        reveal_strlit("0");
        reveal_strlit("1");
        reveal_strlit("2");
        reveal_strlit("3");
        reveal_strlit("4");
        reveal_strlit("5");
        reveal_strlit("6");
        reveal_strlit("7");
        reveal_strlit("8");
        reveal_strlit("9");
        reveal_strlit("a");
        reveal_strlit("b");
        reveal_strlit("c");
        reveal_strlit("d");
        reveal_strlit("e");
        reveal_strlit("f");
    }
    match n {
        0 => "0",
        1 => "1",
        2 => "2",
        3 => "3",
        4 => "4",
        5 => "5",
        6 => "6",
        7 => "7",
        8 => "8",
        9 => "9",
        10 => "a",
        11 => "b",
        12 => "c",
        13 => "d",
        14 => "e",
        _ => "f",
    }
}

/// Encode bytes as lowercase hexadecimal, two digits per byte, high nibble
/// first.
pub fn hex_encode(bytes: &[u8]) -> (r: String)
    ensures
        r@ =~= spec_hex_encode(bytes@),
{
    let n = bytes.len();
    let mut out = String::new();
    proof {
        assert(bytes@.take(0) =~= Seq::<u8>::empty());
    }
    for i in 0..n
        invariant
            n == bytes@.len(),
            out@ =~= spec_hex_encode(bytes@.take(i as int)),
    {
        let b = bytes[i];
        assert(b / 16 < 16);
        out.append(hex_digit(b / 16));
        out.append(hex_digit(b % 16));
        proof {
            lemma_hex_encode_push(bytes@.take(i as int), b);
            assert(bytes@.take(i as int).push(b) =~= bytes@.take(i as int + 1));
        }
    }
    proof {
        assert(bytes@.take(n as int) =~= bytes@);
    }
    out
}

} // verus!
