//! The 128-bit UUIDs that name partitions and services, held as their 16 bytes.
use vstd::prelude::*;

verus! {

/// A UUID, held as its 16 bytes in the order of its canonical text form (most significant first).
#[derive(Debug, Eq, PartialEq, Clone, Copy, Hash, PartialOrd, Ord)]
pub struct Uuid(pub [u8; 16]);

impl View for Uuid {
    type V = Seq<u8>;

    open spec fn view(&self) -> Seq<u8> {
        self.0@
    }
}

/// The 8 bytes of `x`, most significant first.
pub open spec fn be_bytes(x: u64) -> Seq<u8> {
    seq![
        (x >> 56u64) as u8,
        (x >> 48u64) as u8,
        (x >> 40u64) as u8,
        (x >> 32u64) as u8,
        (x >> 24u64) as u8,
        (x >> 16u64) as u8,
        (x >> 8u64) as u8,
        x as u8,
    ]
}

/// Calls `uuid::Uuid::from_u64_pair` and hands back the bytes of the UUID it builds. The uuid
/// crate builds the UUID from the 128-bit value `high * 2^64 + low` in big-endian order, so the
/// bytes are those of `high`, then those of `low`, each most significant first.
#[verifier::external_body]
fn uuid_bytes_from_u64_pair(high: u64, low: u64) -> (b: [u8; 16])
    ensures
        b@ == be_bytes(high) + be_bytes(low),
{
    uuid::Uuid::from_u64_pair(high, low).into_bytes()
}

/// Calls `uuid::Uuid::as_u64_pair` on the UUID with the given bytes. The uuid crate reads the
/// bytes as one big-endian 128-bit value and splits it into its high and low 64 bits, so the
/// bytes are those of the first half, then those of the second, each most significant first.
#[verifier::external_body]
fn uuid_u64_pair_of_bytes(b: [u8; 16]) -> (p: (u64, u64))
    ensures
        be_bytes(p.0) + be_bytes(p.1) == b@,
{
    uuid::Uuid::from_bytes(b).as_u64_pair()
}

/// The 4 bytes of `w`, least significant first.
pub open spec fn le_bytes_u32(w: u32) -> Seq<u8> {
    seq![w as u8, (w >> 8u32) as u8, (w >> 16u32) as u8, (w >> 24u32) as u8]
}

/// The 32-bit value whose bytes, least significant first, are `b0`, `b1`, `b2`, `b3`.
pub open spec fn le_word(b0: u8, b1: u8, b2: u8, b3: u8) -> u32 {
    (b0 as u32) | ((b1 as u32) << 8u32) | ((b2 as u32) << 16u32) | ((b3 as u32) << 24u32)
}

/// The 64-bit value whose bytes, most significant first, are `b[0]`..`b[7]`.
pub open spec fn be_u64(b: Seq<u8>) -> u64 {
    ((b[0] as u64) << 56u64) | ((b[1] as u64) << 48u64) | ((b[2] as u64) << 40u64) | ((
    b[3] as u64) << 32u64) | ((b[4] as u64) << 24u64) | ((b[5] as u64) << 16u64) | ((
    b[6] as u64) << 8u64) | (b[7] as u64)
}

impl Uuid {
    /// The UUID whose bytes are those of `high`, then those of `low`, most significant first.
    pub open spec fn spec_from_u64_pair(high: u64, low: u64) -> Uuid {
        Uuid(
            [
                (high >> 56u64) as u8,
                (high >> 48u64) as u8,
                (high >> 40u64) as u8,
                (high >> 32u64) as u8,
                (high >> 24u64) as u8,
                (high >> 16u64) as u8,
                (high >> 8u64) as u8,
                high as u8,
                (low >> 56u64) as u8,
                (low >> 48u64) as u8,
                (low >> 40u64) as u8,
                (low >> 32u64) as u8,
                (low >> 24u64) as u8,
                (low >> 16u64) as u8,
                (low >> 8u64) as u8,
                low as u8,
            ],
        )
    }

    /// The UUID whose bytes are those of the four words, each least significant first.
    pub open spec fn spec_from_le_words(w0: u32, w1: u32, w2: u32, w3: u32) -> Uuid {
        Uuid(
            [
                w0 as u8,
                (w0 >> 8u32) as u8,
                (w0 >> 16u32) as u8,
                (w0 >> 24u32) as u8,
                w1 as u8,
                (w1 >> 8u32) as u8,
                (w1 >> 16u32) as u8,
                (w1 >> 24u32) as u8,
                w2 as u8,
                (w2 >> 8u32) as u8,
                (w2 >> 16u32) as u8,
                (w2 >> 24u32) as u8,
                w3 as u8,
                (w3 >> 8u32) as u8,
                (w3 >> 16u32) as u8,
                (w3 >> 24u32) as u8,
            ],
        )
    }

    /// The `k`-th 32-bit word of the UUID, read least significant byte first.
    pub open spec fn le_word_at(self, k: int) -> u32 {
        le_word(self.0[4 * k], self.0[4 * k + 1], self.0[4 * k + 2], self.0[4 * k + 3])
    }

    /// Creates a UUID from its 16 bytes.
    pub fn from_bytes(bytes: [u8; 16]) -> (u: Uuid)
        ensures
            u@ == bytes@,
    {
        Uuid(bytes)
    }

    /// The 16 bytes of the UUID.
    pub fn into_bytes(self) -> (b: [u8; 16])
        ensures
            b@ == self@,
    {
        self.0
    }

    /// Creates a UUID from two 64-bit values, the most significant half first.
    pub fn from_u64_pair(high_bits: u64, low_bits: u64) -> (u: Uuid)
        ensures
            u@ == be_bytes(high_bits) + be_bytes(low_bits),
            u == Uuid::spec_from_u64_pair(high_bits, low_bits),
    {
        let u = Uuid(uuid_bytes_from_u64_pair(high_bits, low_bits));
        proof {
            assert(Uuid::spec_from_u64_pair(high_bits, low_bits)@ =~= be_bytes(high_bits)
                + be_bytes(low_bits));
            lemma_uuid_view_injective(u, Uuid::spec_from_u64_pair(high_bits, low_bits));
        }
        u
    }

    /// The UUID as two 64-bit values, the most significant half first.
    pub fn as_u64_pair(&self) -> (p: (u64, u64))
        ensures
            be_bytes(p.0) + be_bytes(p.1) == self@,
            p == (be_u64(self@.subrange(0, 8)), be_u64(self@.subrange(8, 16))),
    {
        let p = uuid_u64_pair_of_bytes(self.0);
        proof {
            assert(self@.subrange(0, 8) =~= be_bytes(p.0));
            assert(self@.subrange(8, 16) =~= be_bytes(p.1));
            lemma_be_u64_of_be_bytes(p.0);
            lemma_be_u64_of_be_bytes(p.1);
        }
        p
    }

    /// The `k`-th 32-bit word of the UUID (`k` below 4), read least significant byte first.
    pub fn le_word(&self, k: usize) -> (w: u32)
        requires
            k < 4,
        ensures
            w == self.le_word_at(k as int),
    {
        (self.0[4 * k] as u32) | ((self.0[4 * k + 1] as u32) << 8u32) | ((self.0[4 * k + 2] as u32)
            << 16u32) | ((self.0[4 * k + 3] as u32) << 24u32)
    }
}

/// A 64-bit value is the value of its 8 bytes.
pub proof fn lemma_be_u64_of_be_bytes(x: u64)
    ensures
        be_u64(be_bytes(x)) == x,
{
    crate::bits::lemma_u64_from_bytes(x);
}

/// Two UUIDs with the same bytes are the same UUID.
pub proof fn lemma_uuid_view_injective(a: Uuid, b: Uuid)
    requires
        a@ == b@,
    ensures
        a == b,
{
    assert(a.0@ =~= b.0@);
    vstd::array::axiom_array_ext_equal(a.0, b.0);
}

/// A 64-bit value is determined by its 8 bytes.
pub proof fn lemma_be_bytes_injective(x: u64, y: u64)
    requires
        be_bytes(x) == be_bytes(y),
    ensures
        x == y,
{
    assert(be_bytes(x)[0] == be_bytes(y)[0]);
    assert(be_bytes(x)[1] == be_bytes(y)[1]);
    assert(be_bytes(x)[2] == be_bytes(y)[2]);
    assert(be_bytes(x)[3] == be_bytes(y)[3]);
    assert(be_bytes(x)[4] == be_bytes(y)[4]);
    assert(be_bytes(x)[5] == be_bytes(y)[5]);
    assert(be_bytes(x)[6] == be_bytes(y)[6]);
    assert(be_bytes(x)[7] == be_bytes(y)[7]);
    crate::bits::lemma_u64_bytes_determine(x, y);
}

/// Splitting two 64-bit values into UUID bytes and joining them again gives them back.
pub proof fn lemma_u64_pair_roundtrip(high: u64, low: u64, p: (u64, u64))
    requires
        be_bytes(p.0) + be_bytes(p.1) == be_bytes(high) + be_bytes(low),
    ensures
        p == (high, low),
{
    let s = be_bytes(p.0) + be_bytes(p.1);
    let t = be_bytes(high) + be_bytes(low);
    assert(s.subrange(0, 8) =~= be_bytes(p.0));
    assert(t.subrange(0, 8) =~= be_bytes(high));
    assert(s.subrange(8, 16) =~= be_bytes(p.1));
    assert(t.subrange(8, 16) =~= be_bytes(low));
    lemma_be_bytes_injective(p.0, high);
    lemma_be_bytes_injective(p.1, low);
}

} // verus!
