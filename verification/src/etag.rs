//! Content fingerprints: the MD5 digest of a file's bytes, hex-encoded.
//! The digest itself comes from the outside hasher; the encoding, and
//! everything the engine concludes from a fingerprint, is verified.

use vstd::prelude::*;

verus! {

/// The 16-byte MD5 digest of a byte string, a function of the input
/// bytes alone.
pub uninterp spec fn md5_of(bytes: Seq<u8>) -> Seq<u8>;

/// The lower-case hexadecimal digit for a value below sixteen.
pub open spec fn hex_digit(n: u8) -> char {
    if n == 0 {
        '0'
    } else if n == 1 {
        '1'
    } else if n == 2 {
        '2'
    } else if n == 3 {
        '3'
    } else if n == 4 {
        '4'
    } else if n == 5 {
        '5'
    } else if n == 6 {
        '6'
    } else if n == 7 {
        '7'
    } else if n == 8 {
        '8'
    } else if n == 9 {
        '9'
    } else if n == 10 {
        'a'
    } else if n == 11 {
        'b'
    } else if n == 12 {
        'c'
    } else if n == 13 {
        'd'
    } else if n == 14 {
        'e'
    } else {
        'f'
    }
}

/// The lower-case hexadecimal encoding of a byte string: two digits per
/// byte, high nibble first.
pub open spec fn hex_encode(s: Seq<u8>) -> Seq<char> {
    Seq::new(
        s.len() * 2,
        |i: int|
            if i % 2 == 0 {
                hex_digit(s[i / 2] / 16)
            } else {
                hex_digit(s[i / 2] % 16)
            },
    )
}

/// Relies on md5::Md5 through the md5::Digest trait: `digest` returns the
/// 16-byte MD5 digest of the input, a function of the input bytes alone.
#[verifier::external_body]
fn md5_digest(bytes: &[u8]) -> (r: Vec<u8>)
    ensures
        r@ == md5_of(bytes@),
        r@.len() == 16,
{
    <md5::Md5 as md5::Digest>::digest(bytes).to_vec()
}

/// The one-character string for a hexadecimal digit.
fn nibble_str(n: u8) -> (r: &'static str)
    requires
        n < 16,
    ensures
        r@ =~= seq![hex_digit(n)],
{
    proof {
        reveal_strlit("0");
        reveal_strlit("1");
        reveal_strlit("2");
        reveal_strlit("3");
        reveal_strlit("4");
        reveal_strlit("5");
        reveal_strlit("6");
        reveal_strlit("7");
        reveal_strlit("8");
        reveal_strlit("9");
        reveal_strlit("a");
        reveal_strlit("b");
        reveal_strlit("c");
        reveal_strlit("d");
        reveal_strlit("e");
        reveal_strlit("f");
    }
    if n == 0 {
        "0"
    } else if n == 1 {
        "1"
    } else if n == 2 {
        "2"
    } else if n == 3 {
        "3"
    } else if n == 4 {
        "4"
    } else if n == 5 {
        "5"
    } else if n == 6 {
        "6"
    } else if n == 7 {
        "7"
    } else if n == 8 {
        "8"
    } else if n == 9 {
        "9"
    } else if n == 10 {
        "a"
    } else if n == 11 {
        "b"
    } else if n == 12 {
        "c"
    } else if n == 13 {
        "d"
    } else if n == 14 {
        "e"
    } else {
        "f"
    }
}

/// The content fingerprint of a file's bytes: the MD5 digest of the full
/// byte stream, written as 32 lower-case hexadecimal characters.
pub fn calculate_etag(bytes: &[u8]) -> (r: String)
    ensures
        r@ == hex_encode(md5_of(bytes@)),
        r@.len() == 32,
{
    let digest = md5_digest(bytes);
    let n = digest.len();
    let mut r = String::new();
    let mut i: usize = 0;
    while i < n
        invariant
            n == digest@.len(),
            n == 16,
            i <= n,
            r@ =~= hex_encode(digest@).subrange(0, 2 * i as int),
        decreases n - i,
    {
        let b = digest[i];
        r.append(nibble_str(b / 16));
        r.append(nibble_str(b % 16));
        proof {
            assert(r@ =~= hex_encode(digest@).subrange(0, 2 * (i + 1) as int));
        }
        i = i + 1;
    }
    proof {
        assert(hex_encode(digest@).subrange(0, 2 * n as int) =~= hex_encode(digest@));
    }
    r
}

} // verus!
