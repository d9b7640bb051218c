use vstd::prelude::*;
use vstd::string::*;
use crate::text::{char_utf8_width, lemma_utf8_offset_grows, utf8_offset};

verus! {

/// Whether `password` is the password that the bcrypt hash `hash` was made from, as
/// `pwhash::bcrypt::verify` decides it.
pub uninterp spec fn bcrypt_verifies(password: Seq<char>, hash: Seq<char>) -> bool;

/// A character of the alphabet in which bcrypt writes salts and checksums.
pub open spec fn is_bcrypt64_char(c: char) -> bool {
    ||| c == '.'
    ||| c == '/'
    ||| ('A' <= c && c <= 'Z')
    ||| ('a' <= c && c <= 'z')
    ||| ('0' <= c && c <= '9')
}

/// The shape of a hash made with variant 2b and cost 10: "$2b$10$" followed by 53 characters
/// of the bcrypt alphabet (22 of salt, 31 of checksum).
pub open spec fn bcrypt_hash_shape(h: Seq<char>) -> bool {
    &&& h.len() == 60
    &&& h[0] == '$' && h[1] == '2' && h[2] == 'b' && h[3] == '$'
    &&& h[4] == '1' && h[5] == '0' && h[6] == '$'
    &&& forall|i: int| 7 <= i < 60 ==> is_bcrypt64_char(#[trigger] h[i])
}

/// The value of a decimal digit.
pub open spec fn digit_value(c: char) -> int {
    c as int - '0' as int
}

/// A character on which the decoding of a bcrypt salt fails hard: one below U+0020 (an
/// overflow, where overflow checks are on), or U+0080 (an index past the decoding table).
pub open spec fn breaks_salt_decoding(c: char) -> bool {
    (c as int) < 0x20 || (c as int) == 0x80
}

/// The hashes on which `pwhash::bcrypt::verify` panics: those whose salt it decodes, and in
/// whose salt the first character outside the bcrypt alphabet is one that breaks the
/// decoding.
pub open spec fn bcrypt_verify_panics(h: Seq<char>) -> bool {
    &&& bcrypt_salt_is_decoded(h)
    &&& exists|j: int|
        7 <= j < 29 && j < h.len() && (forall|i: int| 7 <= i < j ==> is_bcrypt64_char(h[i]))
            && breaks_salt_decoding(#[trigger] h[j])
}

/// The hashes whose salt `pwhash::bcrypt::verify` goes on to decode: those that read as
/// "$2a$", "$2b$" or "$2y$", a two-digit cost from 04 to 31 and "$", and whose next 22 bytes
/// end on a character boundary.
pub open spec fn bcrypt_salt_is_decoded(h: Seq<char>) -> bool {
    &&& h.len() >= 7
    &&& h[0] == '$' && h[1] == '2' && (h[2] == 'a' || h[2] == 'b' || h[2] == 'y') && h[3] == '$'
    &&& '0' <= h[4] && h[4] <= '9' && '0' <= h[5] && h[5] <= '9'
    &&& 4 <= 10 * digit_value(h[4]) + digit_value(h[5]) <= 31
    &&& h[6] == '$'
    &&& exists|k: int| 7 <= k <= h.len() && #[trigger] utf8_offset(h, k) == 29
}

/// `pwhash::bcrypt::hash`: a bcrypt hash of the password (variant 2b, cost 10) with a fresh
/// random salt. It is stated that the password checks against it, as the crate's own
/// documentation shows `verify` accepting a password against its hash, and that it has the
/// shape "$2b$10$" plus 22 salt and 31 checksum characters of the bcrypt alphabet, as the
/// source formats it. The salt is random. The outside function returns `Ok` on every path of
/// its source.
#[verifier::external_body]
fn bcrypt_hash(password: &str) -> (hash: String)
    ensures
        bcrypt_verifies(password@, hash@),
        bcrypt_hash_shape(hash@),
{
    pwhash::bcrypt::hash(password).unwrap()
}

/// `pwhash::bcrypt::verify`: recomputes the hash of `password` with the salt and cost read
/// from `hash` and compares; named by `bcrypt_verifies`. It panics while decoding the salt of
/// the hashes that `bcrypt_verify_panics` describes, which are left out.
#[verifier::external_body]
fn bcrypt_verify(password: &str, hash: &str) -> (ok: bool)
    requires
        !bcrypt_verify_panics(hash@),
    ensures
        ok == bcrypt_verifies(password@, hash@),
{
    pwhash::bcrypt::verify(password, hash)
}

/// A bcrypt hash of the password with a fresh salt, to be stored in place of the password.
pub fn hash_password(password: &str) -> (hash: String)
    ensures
        bcrypt_verifies(password@, hash@),
        bcrypt_hash_shape(hash@),
{
    bcrypt_hash(password)
}

/// Whether the password checks against the stored hash.
pub fn check_password(password: &str, hash: &str) -> (ok: bool)
    requires
        !bcrypt_verify_panics(hash@),
    ensures
        ok == bcrypt_verifies(password@, hash@),
{
    bcrypt_verify(password, hash)
}

fn is_bcrypt64(c: char) -> (r: bool)
    ensures
        r == is_bcrypt64_char(c),
{
    c == '.' || c == '/' || ('A' <= c && c <= 'Z') || ('a' <= c && c <= 'z') || ('0' <= c
        && c <= '9')
}

/// Whether checking a password against `hash` would panic.
pub fn bcrypt_verify_would_panic(hash: &str) -> (r: bool)
    ensures
        r == bcrypt_verify_panics(hash@),
{
    let n = hash.unicode_len();
    if n < 7 {
        return false;
    }
    let c0 = hash.get_char(0);
    let c1 = hash.get_char(1);
    let c2 = hash.get_char(2);
    let c3 = hash.get_char(3);
    let c4 = hash.get_char(4);
    let c5 = hash.get_char(5);
    let c6 = hash.get_char(6);
    if !(c0 == '$' && c1 == '2' && (c2 == 'a' || c2 == 'b' || c2 == 'y') && c3 == '$') {
        return false;
    }
    if !('0' <= c4 && c4 <= '9' && '0' <= c5 && c5 <= '9') {
        return false;
    }
    let cost = 10 * (c4 as u32 - '0' as u32) + (c5 as u32 - '0' as u32);
    if cost < 4 || cost > 31 || c6 != '$' {
        return false;
    }
    // Where the first 29 bytes end.
    let mut k: usize = 0;
    let mut off: usize = 0;
    while k < n && off < 29
        invariant
            k <= n,
            n == hash@.len(),
            off == utf8_offset(hash@, k as int),
            off < 33,
            k > 0 ==> utf8_offset(hash@, k - 1) < 29,
        decreases n - k,
    {
        off = off + char_utf8_width(hash.get_char(k));
        k = k + 1;
    }
    if off != 29 {
        assert forall|k2: int| 7 <= k2 <= hash@.len() implies #[trigger] utf8_offset(hash@, k2)
            != 29 by {
            if off < 29 {
                lemma_utf8_offset_grows(hash@, k2, k as int);
            } else if k2 < k {
                lemma_utf8_offset_grows(hash@, k2, (k - 1) as int);
            } else if k2 > k {
                lemma_utf8_offset_grows(hash@, k as int, k2);
            }
        }
        return false;
    }
    assert(utf8_offset(hash@, k as int) == 29);
    assert(7 <= k) by {
        if k < 7 {
            lemma_utf8_offset_grows(hash@, 0, k as int);
            assert(utf8_offset(hash@, k as int) == k) by {
                lemma_ascii_prefix_offset(hash@, k as int);
            }
        }
    }
    assert(bcrypt_salt_is_decoded(hash@));
    // The salt's first character outside the alphabet.
    let mut j: usize = 7;
    while j < 29 && j < n
        invariant
            7 <= j <= 29,
            n == hash@.len(),
            bcrypt_salt_is_decoded(hash@),
            forall|i: int| 7 <= i < j ==> is_bcrypt64_char(#[trigger] hash@[i]),
        decreases 29 - j,
    {
        let c = hash.get_char(j);
        if !is_bcrypt64(c) {
            let breaks = (c as u32) < 0x20 || (c as u32) == 0x80;
            proof {
                if !breaks {
                    assert forall|j2: int|
                        7 <= j2 < 29 && j2 < hash@.len() && (forall|i: int|
                            7 <= i < j2 ==> is_bcrypt64_char(hash@[i])) implies !breaks_salt_decoding(
                        #[trigger] hash@[j2],
                    ) by {
                        if j2 > j {
                            assert(is_bcrypt64_char(hash@[j as int]));
                        }
                    }
                }
            }
            return breaks;
        }
        j = j + 1;
    }
    false
}

/// The first seven characters of a hash that reads "$2?$dd$" take one byte each.
proof fn lemma_ascii_prefix_offset(s: Seq<char>, k: int)
    requires
        0 <= k <= 7,
        s.len() >= 7,
        forall|i: int| 0 <= i < 7 ==> (s[i] as int) < 0x80,
    ensures
        utf8_offset(s, k) == k,
    decreases k,
{
    if k > 0 {
        lemma_ascii_prefix_offset(s, k - 1);
    }
}

} // verus!
