use vstd::prelude::*;
use mongodb::bson::oid::ObjectId;

verus! {

/// The twelve bytes of a MongoDB ObjectId, as the library handles them.
#[derive(Clone, Copy)]
pub struct Oid {
    pub bytes: [u8; 12],
}

/// The value of a hexadecimal digit, either case; -1 for any other character.
pub open spec fn hex_value(c: char) -> int {
    if '0' <= c && c <= '9' {
        c as int - '0' as int
    } else if 'a' <= c && c <= 'f' {
        c as int - 'a' as int + 10
    } else if 'A' <= c && c <= 'F' {
        c as int - 'A' as int + 10
    } else {
        -1
    }
}

/// The text of an ObjectId: exactly 24 hexadecimal digits.
pub open spec fn is_oid_text(s: Seq<char>) -> bool {
    &&& s.len() == 24
    &&& forall|i: int| 0 <= i < 24 ==> hex_value(#[trigger] s[i]) >= 0
}

/// The bytes that the 24 hexadecimal digits of `s` stand for, two digits to a byte.
pub open spec fn oid_bytes_of_text(s: Seq<char>) -> Seq<u8> {
    Seq::new(12, |i: int| (16 * hex_value(s[2 * i]) + hex_value(s[2 * i + 1])) as u8)
}

/// The lower-case hexadecimal digit for `n` in 0..16.
pub open spec fn lower_hex_digit(n: int) -> char {
    if n < 10 {
        ('0' as int + n) as char
    } else {
        ('a' as int + n - 10) as char
    }
}

/// Lower-case hexadecimal text of a byte sequence, high nibble first.
pub open spec fn lower_hex(b: Seq<u8>) -> Seq<char> {
    Seq::new(
        2 * b.len(),
        |i: int| lower_hex_digit(if i % 2 == 0 { b[i / 2] / 16 } else { b[i / 2] % 16 } as int),
    )
}

/// `ObjectId::parse_str`: hex-decodes the text (either case) and accepts it only where it
/// decodes to exactly twelve bytes, that is, where it is 24 hexadecimal digits.
#[verifier::external_body]
fn parse_object_id(s: &str) -> (r: Option<Oid>)
    ensures
        r is Some <==> is_oid_text(s@),
        r matches Some(id) ==> id.bytes@ == oid_bytes_of_text(s@),
{
    match ObjectId::parse_str(s) {
        Ok(id) => Some(Oid { bytes: id.bytes() }),
        Err(_) => None,
    }
}

/// `ObjectId::to_hex`: the lower-case hexadecimal text of the twelve bytes.
#[verifier::external_body]
fn object_id_to_hex(id: Oid) -> (r: String)
    ensures
        r@ == lower_hex(id.bytes@),
{
    ObjectId::from_bytes(id.bytes).to_hex()
}

/// `ObjectId::new`: a fresh id made of the clock, a per-process random value and a counter.
/// Nothing is stated of its bytes. The outside function panics where the system clock reads
/// before 1970 or after 2106.
#[verifier::external_body]
fn fresh_object_id() -> (r: Oid) {
    Oid { bytes: ObjectId::new().bytes() }
}

impl Oid {
    /// Whether two ids hold the same bytes.
    pub fn same_as(&self, other: &Oid) -> (r: bool)
        ensures
            r == (*self == *other),
    {
        let mut i: usize = 0;
        while i < 12
            invariant
                i <= 12,
                forall|j: int| 0 <= j < i ==> self.bytes@[j] == other.bytes@[j],
            decreases 12 - i,
        {
            if self.bytes[i] != other.bytes[i] {
                return false;
            }
            i = i + 1;
        }
        assert(self.bytes =~= other.bytes);
        true
    }

    /// Reads an id from its 24-digit hexadecimal text; `None` for any other text.
    pub fn parse(s: &str) -> (r: Option<Oid>)
        ensures
            r is Some <==> is_oid_text(s@),
            r matches Some(id) ==> id.bytes@ == oid_bytes_of_text(s@),
    {
        parse_object_id(s)
    }

    /// The id's text: 24 lower-case hexadecimal digits.
    pub fn to_hex(&self) -> (r: String)
        ensures
            r@ == lower_hex(self.bytes@),
            r@.len() == 24,
    {
        object_id_to_hex(*self)
    }

    /// A newly generated id.
    pub fn generate() -> Oid {
        fresh_object_id()
    }
}

/// Whether `id` occurs in `ids`.
pub fn contains_oid(ids: &Vec<Oid>, id: &Oid) -> (r: bool)
    ensures
        r == ids@.contains(*id),
{
    let mut i: usize = 0;
    while i < ids.len()
        invariant
            i <= ids.len(),
            forall|j: int| 0 <= j < i ==> ids@[j] != *id,
        decreases ids.len() - i,
    {
        if ids[i].same_as(id) {
            assert(ids@[i as int] == *id);
            return true;
        }
        i = i + 1;
    }
    false
}

proof fn lemma_hex_digit_value(n: int)
    requires
        0 <= n < 16,
    ensures
        hex_value(lower_hex_digit(n)) == n,
{
}

/// Reading back the text of an id gives the same id: the text is 24 hexadecimal digits,
/// and they decode to the id's bytes.
pub proof fn lemma_hex_round_trip(id: Oid)
    ensures
        is_oid_text(lower_hex(id.bytes@)),
        oid_bytes_of_text(lower_hex(id.bytes@)) == id.bytes@,
{
    let b = id.bytes@;
    let t = lower_hex(b);
    assert forall|i: int| 0 <= i < 24 implies hex_value(#[trigger] t[i]) >= 0 by {
        let v: int = if i % 2 == 0 { b[i / 2] / 16 } else { b[i / 2] % 16 } as int;
        lemma_hex_digit_value(v);
    }
    assert forall|k: int| 0 <= k < 12 implies #[trigger] oid_bytes_of_text(t)[k] == b[k] by {
        lemma_hex_digit_value((b[k] / 16) as int);
        lemma_hex_digit_value((b[k] % 16) as int);
        assert(t[2 * k] == lower_hex_digit((b[k] / 16) as int));
        assert(t[2 * k + 1] == lower_hex_digit((b[k] % 16) as int));
    }
    assert(oid_bytes_of_text(t) =~= b);
}

} // verus!
