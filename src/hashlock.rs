use sha2::Digest;
use vstd::prelude::*;

verus! {

/// What SHA-256 gives for the UTF-8 encoding of a string.
pub uninterp spec fn sha256_of(s: Seq<char>) -> Seq<u8>;

/// Relies on sha2::Sha256::digest: the SHA-256 digest of the string's UTF-8
/// bytes, which depends on those bytes alone.
#[verifier::external_body]
fn sha256_digest(s: &str) -> (r: Vec<u8>)
    ensures
        r@ == sha256_of(s@),
{
    sha2::Sha256::digest(s.as_bytes()).to_vec()
}

/// The lowercase hexadecimal digit of a value below sixteen.
pub open spec fn hex_digit(n: u8) -> char {
    seq!['0', '1', '2', '3', '4', '5', '6', '7', '8', '9', 'a', 'b', 'c', 'd', 'e', 'f'][n as int]
}

/// Bytes written as lowercase hexadecimal, two digits per byte, high nibble first.
pub open spec fn hex_lower(b: Seq<u8>) -> Seq<char> {
    Seq::new(
        2 * b.len(),
        |i: int|
            if i % 2 == 0 {
                hex_digit(b[i / 2] / 16)
            } else {
                hex_digit(b[i / 2] % 16)
            },
    )
}

/// Whether a secret opens a lock: its digest, in lowercase hexadecimal, is the
/// stored hash, character for character.
pub open spec fn opens(secret: Seq<char>, secret_hash: Seq<char>) -> bool {
    hex_lower(sha256_of(secret)) == secret_hash
}

fn hex_digit_char(n: u8) -> (c: char)
    requires
        n < 16,
    ensures
        c == hex_digit(n),
{
    match n {
        0 => '0',
        1 => '1',
        2 => '2',
        3 => '3',
        4 => '4',
        5 => '5',
        6 => '6',
        7 => '7',
        8 => '8',
        9 => '9',
        10 => 'a',
        11 => 'b',
        12 => 'c',
        13 => 'd',
        14 => 'e',
        _ => 'f',
    }
}

/// Compares a digest, rendered as lowercase hexadecimal, with a stored hash.
pub fn digest_matches_hash(digest: &Vec<u8>, secret_hash: &str) -> (r: bool)
    ensures
        r == (hex_lower(digest@) == secret_hash@),
{
    let n = secret_hash.unicode_len();
    if n % 2 != 0 || n / 2 != digest.len() {
        proof {
            assert(hex_lower(digest@).len() != secret_hash@.len());
        }
        return false;
    }
    let mut i: usize = 0;
    while i < digest.len()
        invariant
            0 <= i <= digest@.len(),
            secret_hash@.len() == 2 * digest@.len(),
            n as int == secret_hash@.len(),
            forall|j: int| 0 <= j < 2 * i ==> hex_lower(digest@)[j] == secret_hash@[j],
        decreases digest@.len() - i,
    {
        let b = digest[i];
        let hi = secret_hash.get_char(2 * i);
        let lo = secret_hash.get_char(2 * i + 1);
        let want_hi = hex_digit_char(b / 16);
        let want_lo = hex_digit_char(b % 16);
        proof {
            assert(hex_lower(digest@)[2 * i as int] == want_hi);
            assert(hex_lower(digest@)[2 * i as int + 1] == want_lo);
        }
        if hi != want_hi || lo != want_lo {
            return false;
        }
        i = i + 1;
    }
    proof {
        assert(hex_lower(digest@) =~= secret_hash@);
    }
    true
}

/// Whether `secret` opens a lock whose stored hash is `secret_hash`.
pub fn secret_matches(secret: &str, secret_hash: &str) -> (r: bool)
    ensures
        r == opens(secret@, secret_hash@),
{
    let digest = sha256_digest(secret);
    digest_matches_hash(&digest, secret_hash)
}

} // verus!
