use vstd::prelude::*;

verus! {

broadcast use vstd::array::group_array_axioms;

/// Byte `k` (0 = most significant) of the big-endian encoding of a 64-bit word.
pub open spec fn u64_be_byte(n: u64, k: int) -> u8 {
    (n >> (((7 - k) * 8) as u64)) as u8
}

/// The 32-byte big-endian encoding of a 64-bit word: 24 zero bytes of
/// padding followed by the word's own 8 bytes.
pub open spec fn u64_to_be_bytes_32(n: u64) -> Seq<u8> {
    Seq::new(32, |i: int| if i < 24 { 0u8 } else { u64_be_byte(n, i - 24) })
}

/// A 256-bit unsigned integer, stored as 32 bytes in big-endian order.
///
/// Wide integer literals and 32-byte digests share this representation.
/// The view of a value is its byte sequence, most significant byte first;
/// two values are the same number exactly when their views are equal.
#[derive(Clone, Copy, Debug, Hash)]
pub struct U256 {
    bytes: [u8; 32],
}

impl View for U256 {
    type V = Seq<u8>;

    closed spec fn view(&self) -> Seq<u8> {
        self.bytes@
    }
}

impl U256 {
    /// Widens a 64-bit word: the low 8 bytes carry the word, the rest are zero.
    pub fn from_u64(n: u64) -> (r: U256)
        ensures
            r@ == u64_to_be_bytes_32(n),
    {
        let mut bytes: [u8; 32] = [0u8; 32];
        bytes[24] = (n >> 56u64) as u8;
        bytes[25] = (n >> 48u64) as u8;
        bytes[26] = (n >> 40u64) as u8;
        bytes[27] = (n >> 32u64) as u8;
        bytes[28] = (n >> 24u64) as u8;
        bytes[29] = (n >> 16u64) as u8;
        bytes[30] = (n >> 8u64) as u8;
        bytes[31] = n as u8;
        let r = U256 { bytes };
        proof {
            assert(n >> 0u64 == n) by (bit_vector);
            assert(r@ =~= u64_to_be_bytes_32(n));
        }
        r
    }

    /// Reads 32 bytes in big-endian order; the byte order is preserved exactly.
    pub fn from_be_bytes(bytes: &[u8; 32]) -> (r: U256)
        ensures
            r@ == bytes@,
    {
        U256 { bytes: *bytes }
    }

    /// Writes the value back out as 32 bytes, most significant first;
    /// the exact inverse of `from_be_bytes`.
    pub fn to_be_bytes(&self) -> (r: [u8; 32])
        ensures
            r@ == self@,
    {
        self.bytes
    }
}

impl PartialEq for U256 {
    fn eq(&self, other: &U256) -> (r: bool) {
        let mut i: usize = 0;
        while i < 32
            invariant
                i <= 32,
                forall|j: int| 0 <= j < i ==> self@[j] == other@[j],
            decreases 32 - i,
        {
            if self.bytes[i] != other.bytes[i] {
                proof {
                    assert(self@[i as int] != other@[i as int]);
                }
                return false;
            }
            i += 1;
        }
        proof {
            assert(self@ =~= other@);
        }
        true
    }
}

impl Eq for U256 {
}

impl vstd::std_specs::cmp::PartialEqSpecImpl for U256 {
    open spec fn obeys_eq_spec() -> bool {
        true
    }

    open spec fn eq_spec(&self, other: &U256) -> bool {
        self@ == other@
    }
}

} // verus!
