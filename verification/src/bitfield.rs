//! Bitfield storage as laid out by C compilers for packed bitfields.
//!
//! Bits are numbered from the least significant bit of the first byte
//! (little-endian bit order, the layout of the Flipper Zero's Cortex-M4).
use vstd::arithmetic::power2::pow2;
use vstd::prelude::*;

verus! {

/// Bit `i` (0 = least significant) of a byte.
pub open spec fn byte_bit(b: u8, i: u8) -> bool {
    (b >> i) & 1u8 == 1u8
}

/// Bit `j` (0 = least significant) of a 64-bit word.
pub open spec fn word_bit(v: u64, j: u64) -> bool {
    (v >> j) & 1u64 == 1u64
}

/// Bit number `index` of a byte sequence: bit `index % 8` of byte `index / 8`.
pub open spec fn storage_bit(bytes: Seq<u8>, index: int) -> bool {
    byte_bit(bytes[index / 8], (index % 8) as u8)
}

/// `after` is `before` with bit `index` set to `val` and every other bit kept.
pub open spec fn bit_written(before: Seq<u8>, after: Seq<u8>, index: int, val: bool) -> bool {
    &&& after.len() == before.len()
    &&& forall|k: int|
        0 <= k < 8 * before.len() ==> #[trigger] storage_bit(after, k) == if k == index {
            val
        } else {
            storage_bit(before, k)
        }
}

/// `after` is `before` with the `width` bits starting at `offset` replaced by
/// the low `width` bits of `val` (least significant first), every other bit kept.
pub open spec fn field_written(
    before: Seq<u8>,
    after: Seq<u8>,
    offset: int,
    width: int,
    val: u64,
) -> bool {
    &&& after.len() == before.len()
    &&& forall|k: int|
        0 <= k < 8 * before.len() ==> #[trigger] storage_bit(after, k) == if offset <= k < offset
            + width {
            word_bit(val, (k - offset) as u64)
        } else {
            storage_bit(before, k)
        }
}

/// `r` holds, in its low `width` bits, the `width` bits of `bytes` starting at
/// `offset` (least significant first), and zero above them.
pub open spec fn field_read(bytes: Seq<u8>, offset: int, width: int, r: u64) -> bool {
    forall|j: u64|
        j < 64 ==> #[trigger] word_bit(r, j) == (j < width && storage_bit(bytes, offset + j))
}

proof fn lemma_extract_bit(b: u8, s: u8)
    requires
        s < 8,
    ensures
        (b & (1u8 << s) == (1u8 << s)) == byte_bit(b, s),
{
    assert((b & (1u8 << s) == (1u8 << s)) == ((b >> s) & 1u8 == 1u8)) by (bit_vector)
        requires
            s < 8,
    ;
}

proof fn lemma_change_bit(b: u8, s: u8)
    requires
        s < 8,
    ensures
        forall|t: u8|
            t < 8 ==> #[trigger] byte_bit(b | (1u8 << s), t) == (t == s || byte_bit(b, t)),
        forall|t: u8|
            t < 8 ==> #[trigger] byte_bit(b & !(1u8 << s), t) == (t != s && byte_bit(b, t)),
{
    assert forall|t: u8| t < 8 implies #[trigger] byte_bit(b | (1u8 << s), t) == (t == s
        || byte_bit(b, t)) by {
        assert(((b | (1u8 << s)) >> t) & 1u8 == 1u8 <==> (t == s || (b >> t) & 1u8 == 1u8))
            by (bit_vector)
            requires
                s < 8,
                t < 8,
        ;
    }
    assert forall|t: u8| t < 8 implies #[trigger] byte_bit(b & !(1u8 << s), t) == (t != s
        && byte_bit(b, t)) by {
        assert(((b & !(1u8 << s)) >> t) & 1u8 == 1u8 <==> (t != s && (b >> t) & 1u8 == 1u8))
            by (bit_vector)
            requires
                s < 8,
                t < 8,
        ;
    }
}

proof fn lemma_word_or_bit(v: u64, i: u64)
    requires
        i < 64,
    ensures
        forall|j: u64| j < 64 ==> #[trigger] word_bit(v | (1u64 << i), j) == (j == i || word_bit(v, j)),
{
    assert forall|j: u64| j < 64 implies #[trigger] word_bit(v | (1u64 << i), j) == (j == i
        || word_bit(v, j)) by {
        assert(((v | (1u64 << i)) >> j) & 1u64 == 1u64 <==> (j == i || (v >> j) & 1u64 == 1u64))
            by (bit_vector)
            requires
                i < 64,
                j < 64,
        ;
    }
}

proof fn lemma_word_zero()
    ensures
        forall|j: u64| j < 64 ==> !#[trigger] word_bit(0u64, j),
{
    assert forall|j: u64| j < 64 implies !#[trigger] word_bit(0u64, j) by {
        assert((0u64 >> j) & 1u64 != 1u64) by (bit_vector)
            requires
                j < 64,
        ;
    }
}

proof fn lemma_word_mask(v: u64, i: u64)
    requires
        i < 64,
    ensures
        (v & (1u64 << i) == (1u64 << i)) == word_bit(v, i),
{
    assert((v & (1u64 << i) == (1u64 << i)) == ((v >> i) & 1u64 == 1u64)) by (bit_vector)
        requires
            i < 64,
    ;
}

/// Two words with the same 64 bits are equal.
pub proof fn lemma_word_ext(a: u64, b: u64)
    requires
        forall|j: u64| j < 64 ==> #[trigger] word_bit(a, j) == word_bit(b, j),
    ensures
        a == b,
{
    assert(word_bit(a, 0u64) == word_bit(b, 0u64));
    assert(word_bit(a, 1u64) == word_bit(b, 1u64));
    assert(word_bit(a, 2u64) == word_bit(b, 2u64));
    assert(word_bit(a, 3u64) == word_bit(b, 3u64));
    assert(word_bit(a, 4u64) == word_bit(b, 4u64));
    assert(word_bit(a, 5u64) == word_bit(b, 5u64));
    assert(word_bit(a, 6u64) == word_bit(b, 6u64));
    assert(word_bit(a, 7u64) == word_bit(b, 7u64));
    assert(word_bit(a, 8u64) == word_bit(b, 8u64));
    assert(word_bit(a, 9u64) == word_bit(b, 9u64));
    assert(word_bit(a, 10u64) == word_bit(b, 10u64));
    assert(word_bit(a, 11u64) == word_bit(b, 11u64));
    assert(word_bit(a, 12u64) == word_bit(b, 12u64));
    assert(word_bit(a, 13u64) == word_bit(b, 13u64));
    assert(word_bit(a, 14u64) == word_bit(b, 14u64));
    assert(word_bit(a, 15u64) == word_bit(b, 15u64));
    assert(word_bit(a, 16u64) == word_bit(b, 16u64));
    assert(word_bit(a, 17u64) == word_bit(b, 17u64));
    assert(word_bit(a, 18u64) == word_bit(b, 18u64));
    assert(word_bit(a, 19u64) == word_bit(b, 19u64));
    assert(word_bit(a, 20u64) == word_bit(b, 20u64));
    assert(word_bit(a, 21u64) == word_bit(b, 21u64));
    assert(word_bit(a, 22u64) == word_bit(b, 22u64));
    assert(word_bit(a, 23u64) == word_bit(b, 23u64));
    assert(word_bit(a, 24u64) == word_bit(b, 24u64));
    assert(word_bit(a, 25u64) == word_bit(b, 25u64));
    assert(word_bit(a, 26u64) == word_bit(b, 26u64));
    assert(word_bit(a, 27u64) == word_bit(b, 27u64));
    assert(word_bit(a, 28u64) == word_bit(b, 28u64));
    assert(word_bit(a, 29u64) == word_bit(b, 29u64));
    assert(word_bit(a, 30u64) == word_bit(b, 30u64));
    assert(word_bit(a, 31u64) == word_bit(b, 31u64));
    assert(word_bit(a, 32u64) == word_bit(b, 32u64));
    assert(word_bit(a, 33u64) == word_bit(b, 33u64));
    assert(word_bit(a, 34u64) == word_bit(b, 34u64));
    assert(word_bit(a, 35u64) == word_bit(b, 35u64));
    assert(word_bit(a, 36u64) == word_bit(b, 36u64));
    assert(word_bit(a, 37u64) == word_bit(b, 37u64));
    assert(word_bit(a, 38u64) == word_bit(b, 38u64));
    assert(word_bit(a, 39u64) == word_bit(b, 39u64));
    assert(word_bit(a, 40u64) == word_bit(b, 40u64));
    assert(word_bit(a, 41u64) == word_bit(b, 41u64));
    assert(word_bit(a, 42u64) == word_bit(b, 42u64));
    assert(word_bit(a, 43u64) == word_bit(b, 43u64));
    assert(word_bit(a, 44u64) == word_bit(b, 44u64));
    assert(word_bit(a, 45u64) == word_bit(b, 45u64));
    assert(word_bit(a, 46u64) == word_bit(b, 46u64));
    assert(word_bit(a, 47u64) == word_bit(b, 47u64));
    assert(word_bit(a, 48u64) == word_bit(b, 48u64));
    assert(word_bit(a, 49u64) == word_bit(b, 49u64));
    assert(word_bit(a, 50u64) == word_bit(b, 50u64));
    assert(word_bit(a, 51u64) == word_bit(b, 51u64));
    assert(word_bit(a, 52u64) == word_bit(b, 52u64));
    assert(word_bit(a, 53u64) == word_bit(b, 53u64));
    assert(word_bit(a, 54u64) == word_bit(b, 54u64));
    assert(word_bit(a, 55u64) == word_bit(b, 55u64));
    assert(word_bit(a, 56u64) == word_bit(b, 56u64));
    assert(word_bit(a, 57u64) == word_bit(b, 57u64));
    assert(word_bit(a, 58u64) == word_bit(b, 58u64));
    assert(word_bit(a, 59u64) == word_bit(b, 59u64));
    assert(word_bit(a, 60u64) == word_bit(b, 60u64));
    assert(word_bit(a, 61u64) == word_bit(b, 61u64));
    assert(word_bit(a, 62u64) == word_bit(b, 62u64));
    assert(word_bit(a, 63u64) == word_bit(b, 63u64));
    assert(a == b) by (bit_vector)
        requires
            ((a >> 0u64) & 1u64 == 1u64) == ((b >> 0u64) & 1u64 == 1u64),
            ((a >> 1u64) & 1u64 == 1u64) == ((b >> 1u64) & 1u64 == 1u64),
            ((a >> 2u64) & 1u64 == 1u64) == ((b >> 2u64) & 1u64 == 1u64),
            ((a >> 3u64) & 1u64 == 1u64) == ((b >> 3u64) & 1u64 == 1u64),
            ((a >> 4u64) & 1u64 == 1u64) == ((b >> 4u64) & 1u64 == 1u64),
            ((a >> 5u64) & 1u64 == 1u64) == ((b >> 5u64) & 1u64 == 1u64),
            ((a >> 6u64) & 1u64 == 1u64) == ((b >> 6u64) & 1u64 == 1u64),
            ((a >> 7u64) & 1u64 == 1u64) == ((b >> 7u64) & 1u64 == 1u64),
            ((a >> 8u64) & 1u64 == 1u64) == ((b >> 8u64) & 1u64 == 1u64),
            ((a >> 9u64) & 1u64 == 1u64) == ((b >> 9u64) & 1u64 == 1u64),
            ((a >> 10u64) & 1u64 == 1u64) == ((b >> 10u64) & 1u64 == 1u64),
            ((a >> 11u64) & 1u64 == 1u64) == ((b >> 11u64) & 1u64 == 1u64),
            ((a >> 12u64) & 1u64 == 1u64) == ((b >> 12u64) & 1u64 == 1u64),
            ((a >> 13u64) & 1u64 == 1u64) == ((b >> 13u64) & 1u64 == 1u64),
            ((a >> 14u64) & 1u64 == 1u64) == ((b >> 14u64) & 1u64 == 1u64),
            ((a >> 15u64) & 1u64 == 1u64) == ((b >> 15u64) & 1u64 == 1u64),
            ((a >> 16u64) & 1u64 == 1u64) == ((b >> 16u64) & 1u64 == 1u64),
            ((a >> 17u64) & 1u64 == 1u64) == ((b >> 17u64) & 1u64 == 1u64),
            ((a >> 18u64) & 1u64 == 1u64) == ((b >> 18u64) & 1u64 == 1u64),
            ((a >> 19u64) & 1u64 == 1u64) == ((b >> 19u64) & 1u64 == 1u64),
            ((a >> 20u64) & 1u64 == 1u64) == ((b >> 20u64) & 1u64 == 1u64),
            ((a >> 21u64) & 1u64 == 1u64) == ((b >> 21u64) & 1u64 == 1u64),
            ((a >> 22u64) & 1u64 == 1u64) == ((b >> 22u64) & 1u64 == 1u64),
            ((a >> 23u64) & 1u64 == 1u64) == ((b >> 23u64) & 1u64 == 1u64),
            ((a >> 24u64) & 1u64 == 1u64) == ((b >> 24u64) & 1u64 == 1u64),
            ((a >> 25u64) & 1u64 == 1u64) == ((b >> 25u64) & 1u64 == 1u64),
            ((a >> 26u64) & 1u64 == 1u64) == ((b >> 26u64) & 1u64 == 1u64),
            ((a >> 27u64) & 1u64 == 1u64) == ((b >> 27u64) & 1u64 == 1u64),
            ((a >> 28u64) & 1u64 == 1u64) == ((b >> 28u64) & 1u64 == 1u64),
            ((a >> 29u64) & 1u64 == 1u64) == ((b >> 29u64) & 1u64 == 1u64),
            ((a >> 30u64) & 1u64 == 1u64) == ((b >> 30u64) & 1u64 == 1u64),
            ((a >> 31u64) & 1u64 == 1u64) == ((b >> 31u64) & 1u64 == 1u64),
            ((a >> 32u64) & 1u64 == 1u64) == ((b >> 32u64) & 1u64 == 1u64),
            ((a >> 33u64) & 1u64 == 1u64) == ((b >> 33u64) & 1u64 == 1u64),
            ((a >> 34u64) & 1u64 == 1u64) == ((b >> 34u64) & 1u64 == 1u64),
            ((a >> 35u64) & 1u64 == 1u64) == ((b >> 35u64) & 1u64 == 1u64),
            ((a >> 36u64) & 1u64 == 1u64) == ((b >> 36u64) & 1u64 == 1u64),
            ((a >> 37u64) & 1u64 == 1u64) == ((b >> 37u64) & 1u64 == 1u64),
            ((a >> 38u64) & 1u64 == 1u64) == ((b >> 38u64) & 1u64 == 1u64),
            ((a >> 39u64) & 1u64 == 1u64) == ((b >> 39u64) & 1u64 == 1u64),
            ((a >> 40u64) & 1u64 == 1u64) == ((b >> 40u64) & 1u64 == 1u64),
            ((a >> 41u64) & 1u64 == 1u64) == ((b >> 41u64) & 1u64 == 1u64),
            ((a >> 42u64) & 1u64 == 1u64) == ((b >> 42u64) & 1u64 == 1u64),
            ((a >> 43u64) & 1u64 == 1u64) == ((b >> 43u64) & 1u64 == 1u64),
            ((a >> 44u64) & 1u64 == 1u64) == ((b >> 44u64) & 1u64 == 1u64),
            ((a >> 45u64) & 1u64 == 1u64) == ((b >> 45u64) & 1u64 == 1u64),
            ((a >> 46u64) & 1u64 == 1u64) == ((b >> 46u64) & 1u64 == 1u64),
            ((a >> 47u64) & 1u64 == 1u64) == ((b >> 47u64) & 1u64 == 1u64),
            ((a >> 48u64) & 1u64 == 1u64) == ((b >> 48u64) & 1u64 == 1u64),
            ((a >> 49u64) & 1u64 == 1u64) == ((b >> 49u64) & 1u64 == 1u64),
            ((a >> 50u64) & 1u64 == 1u64) == ((b >> 50u64) & 1u64 == 1u64),
            ((a >> 51u64) & 1u64 == 1u64) == ((b >> 51u64) & 1u64 == 1u64),
            ((a >> 52u64) & 1u64 == 1u64) == ((b >> 52u64) & 1u64 == 1u64),
            ((a >> 53u64) & 1u64 == 1u64) == ((b >> 53u64) & 1u64 == 1u64),
            ((a >> 54u64) & 1u64 == 1u64) == ((b >> 54u64) & 1u64 == 1u64),
            ((a >> 55u64) & 1u64 == 1u64) == ((b >> 55u64) & 1u64 == 1u64),
            ((a >> 56u64) & 1u64 == 1u64) == ((b >> 56u64) & 1u64 == 1u64),
            ((a >> 57u64) & 1u64 == 1u64) == ((b >> 57u64) & 1u64 == 1u64),
            ((a >> 58u64) & 1u64 == 1u64) == ((b >> 58u64) & 1u64 == 1u64),
            ((a >> 59u64) & 1u64 == 1u64) == ((b >> 59u64) & 1u64 == 1u64),
            ((a >> 60u64) & 1u64 == 1u64) == ((b >> 60u64) & 1u64 == 1u64),
            ((a >> 61u64) & 1u64 == 1u64) == ((b >> 61u64) & 1u64 == 1u64),
            ((a >> 62u64) & 1u64 == 1u64) == ((b >> 62u64) & 1u64 == 1u64),
            ((a >> 63u64) & 1u64 == 1u64) == ((b >> 63u64) & 1u64 == 1u64),
    ;
}

/// The number the `width` bits from bit `offset` of `bytes` stand for: bit
/// `offset + i` counts `2^i`.
pub open spec fn field_value(bytes: Seq<u8>, offset: int, width: nat) -> nat
    decreases width,
{
    if width == 0 {
        0
    } else {
        field_value(bytes, offset, (width - 1) as nat) + if storage_bit(bytes, offset + width - 1) {
            pow2((width - 1) as nat)
        } else {
            0
        }
    }
}

/// Setting bit `shift` of a word below `2^shift` adds `2^shift`.
proof fn lemma_or_high_bit(v: u64, shift: u64)
    requires
        shift < 64,
        v < pow2(shift as nat),
    ensures
        (v | (1u64 << shift)) == v + pow2(shift as nat),
        (1u64 << shift) == pow2(shift as nat),
{
    vstd::bits::lemma_u64_pow2_no_overflow(shift as nat);
    vstd::bits::lemma_u64_shl_is_mul(1u64, shift);
    assert(v < (1u64 << shift) ==> (v | (1u64 << shift)) == v + (1u64 << shift)) by (bit_vector)
        requires
            shift < 64,
    ;
}

/// The mask of the low `width` bits of a word.
pub open spec fn low_mask(width: u64) -> u64 {
    if width >= 64 {
        0xffff_ffff_ffff_ffffu64
    } else {
        ((1u64 << width) - 1) as u64
    }
}

proof fn lemma_low_mask_bits(v: u64, w: u64)
    requires
        w <= 64,
    ensures
        forall|j: u64| j < 64 ==> #[trigger] word_bit(v & low_mask(w), j) == (j < w && word_bit(v, j)),
        w < 64 ==> v & low_mask(w) < (1u64 << w),
{
    if w < 64 {
        assert forall|j: u64| j < 64 implies #[trigger] word_bit(v & low_mask(w), j) == (j < w
            && word_bit(v, j)) by {
            assert((((v & (((1u64 << w) - 1u64) as u64)) >> j) & 1u64 == 1u64) <==> (j < w && (v >> j) & 1u64
                == 1u64)) by (bit_vector)
                requires
                    w < 64,
                    j < 64,
            ;
        }
        assert(v & (((1u64 << w) - 1u64) as u64) < (1u64 << w)) by (bit_vector)
            requires
                w < 64,
        ;
    } else {
        assert forall|j: u64| j < 64 implies #[trigger] word_bit(v & low_mask(w), j) == (j < w
            && word_bit(v, j)) by {
            assert(v & 0xffff_ffff_ffff_ffffu64 == v) by (bit_vector);
        }
    }
}

/// A field read of `width` bits is the read value's low `width` bits, so it is
/// below `2^width`.
pub proof fn lemma_field_read_value(bytes: Seq<u8>, offset: int, width: u64, r: u64)
    requires
        width <= 64,
        field_read(bytes, offset, width as int, r),
    ensures
        r == r & low_mask(width),
        width < 64 ==> r < (1u64 << width),
{
    lemma_low_mask_bits(r, width);
    lemma_word_ext(r, r & low_mask(width));
}

/// A unit of bitfield storage.
#[derive(Clone, Copy, Debug, PartialEq, Eq, Hash, PartialOrd, Ord)]
pub struct __BindgenBitfieldUnit<Storage> {
    storage: Storage,
}

impl<Storage> __BindgenBitfieldUnit<Storage> {
    /// The storage this unit holds.
    pub closed spec fn storage(self) -> Storage {
        self.storage
    }

    /// Wraps `storage` as a bitfield unit.
    pub fn new(storage: Storage) -> (unit: Self)
        ensures
            unit.storage() == storage,
    {
        Self { storage }
    }
}

impl<const N: usize> View for __BindgenBitfieldUnit<[u8; N]> {
    type V = Seq<u8>;

    open spec fn view(&self) -> Seq<u8> {
        self.storage()@
    }
}

impl<const N: usize> __BindgenBitfieldUnit<[u8; N]> {
    fn extract_bit(byte: u8, index: usize) -> (bit: bool)
        ensures
            bit == byte_bit(byte, (index % 8) as u8),
    {
        let bit_index = (index % 8) as u8;
        let mask: u8 = 1u8 << bit_index;
        proof {
            lemma_extract_bit(byte, bit_index);
        }
        byte & mask == mask
    }

    /// Reads bit number `index`.
    pub fn get_bit(&self, index: usize) -> (bit: bool)
        requires
            index / 8 < N,
        ensures
            bit == storage_bit(self@, index as int),
    {
        let byte_index = index / 8;
        let byte = self.storage[byte_index];
        Self::extract_bit(byte, index)
    }

    fn change_bit(byte: u8, index: usize, val: bool) -> (changed: u8)
        ensures
            forall|t: u8|
                t < 8 ==> #[trigger] byte_bit(changed, t) == if t == (index % 8) as u8 {
                    val
                } else {
                    byte_bit(byte, t)
                },
    {
        let bit_index = (index % 8) as u8;
        let mask: u8 = 1u8 << bit_index;
        proof {
            lemma_change_bit(byte, bit_index);
        }
        if val {
            byte | mask
        } else {
            byte & !mask
        }
    }

    /// Writes `val` to bit number `index`, keeping every other bit.
    pub fn set_bit(&mut self, index: usize, val: bool)
        requires
            index / 8 < N,
        ensures
            bit_written(old(self)@, final(self)@, index as int, val),
    {
        let byte_index = index / 8;
        let byte = self.storage[byte_index];
        let changed = Self::change_bit(byte, index, val);
        self.storage[byte_index] = changed;
        proof {
            let before = old(self)@;
            let after = self@;
            assert(after =~= before.update(byte_index as int, changed));
            assert forall|k: int| 0 <= k < 8 * before.len() implies #[trigger] storage_bit(
                after,
                k,
            ) == if k == index {
                val
            } else {
                storage_bit(before, k)
            } by {
                if k / 8 == byte_index as int {
                    assert(byte_bit(changed, (k % 8) as u8) == if (k % 8) as u8 == (index
                        % 8) as u8 {
                        val
                    } else {
                        byte_bit(byte, (k % 8) as u8)
                    });
                }
            }
        }
    }

    /// Reads the `bit_width` bits starting at bit `bit_offset` as an integer
    /// whose least significant bit is the field's first bit.
    pub fn get(&self, bit_offset: usize, bit_width: u8) -> (val: u64)
        requires
            bit_width <= 64,
            bit_offset / 8 < N,
            bit_offset + bit_width <= 8 * N,
            bit_offset + bit_width <= usize::MAX,
        ensures
            field_read(self@, bit_offset as int, bit_width as int, val),
            val as nat == field_value(self@, bit_offset as int, bit_width as nat),
            val < pow2(bit_width as nat),
    {
        let mut val: u64 = 0;
        let width = bit_width as usize;
        proof {
            lemma_word_zero();
            vstd::arithmetic::power2::lemma_pow2_pos(0);
        }
        for i in 0..width
            invariant
                width == bit_width,
                bit_width <= 64,
                bit_offset + width <= 8 * N,
                bit_offset + width <= usize::MAX,
                val as nat == field_value(self@, bit_offset as int, i as nat),
                val < pow2(i as nat),
                forall|j: u64|
                    j < 64 ==> #[trigger] word_bit(val, j) == (j < i && storage_bit(
                        self@,
                        bit_offset + j,
                    )),
        {
            let bit = self.get_bit(i + bit_offset);
            proof {
                vstd::arithmetic::power2::lemma_pow2_unfold((i + 1) as nat);
                vstd::arithmetic::power2::lemma_pow2_pos(i as nat);
            }
            if bit {
                let shift = i as u64;
                proof {
                    lemma_word_or_bit(val, shift);
                    lemma_or_high_bit(val, shift);
                }
                val = val | (1u64 << shift);
            }
        }
        val
    }

    /// Writes the low `bit_width` bits of `val` to the `bit_width` bits
    /// starting at bit `bit_offset`, keeping every other bit.
    pub fn set(&mut self, bit_offset: usize, bit_width: u8, val: u64)
        requires
            bit_width <= 64,
            bit_offset / 8 < N,
            bit_offset + bit_width <= 8 * N,
            bit_offset + bit_width <= usize::MAX,
        ensures
            field_written(old(self)@, final(self)@, bit_offset as int, bit_width as int, val),
    {
        let width = bit_width as usize;
        for i in 0..width
            invariant
                width == bit_width,
                bit_width <= 64,
                bit_offset + width <= 8 * N,
                bit_offset + width <= usize::MAX,
                self@.len() == old(self)@.len(),
                forall|k: int|
                    0 <= k < 8 * old(self)@.len() ==> #[trigger] storage_bit(self@, k)
                        == if bit_offset <= k < bit_offset + i {
                        word_bit(val, (k - bit_offset) as u64)
                    } else {
                        storage_bit(old(self)@, k)
                    },
        {
            let shift = i as u64;
            let mask: u64 = 1u64 << shift;
            proof {
                lemma_word_mask(val, shift);
            }
            let val_bit_is_set = val & mask == mask;
            let ghost before = self@;
            self.set_bit(i + bit_offset, val_bit_is_set);
            proof {
                assert forall|k: int| 0 <= k < 8 * old(self)@.len() implies #[trigger] storage_bit(
                    self@,
                    k,
                ) == if bit_offset <= k < bit_offset + i + 1 {
                    word_bit(val, (k - bit_offset) as u64)
                } else {
                    storage_bit(old(self)@, k)
                } by {
                    assert(storage_bit(self@, k) == if k == i + bit_offset {
                        val_bit_is_set
                    } else {
                        storage_bit(before, k)
                    });
                }
            }
        }
    }
}

/// Writing a bit and reading it back gives the written value; every other bit
/// reads as before.
pub proof fn law_set_bit_then_get_bit(
    before: Seq<u8>,
    after: Seq<u8>,
    index: int,
    val: bool,
    other: int,
)
    requires
        0 <= index < 8 * before.len(),
        0 <= other < 8 * before.len(),
        bit_written(before, after, index, val),
    ensures
        storage_bit(after, index) == val,
        other != index ==> storage_bit(after, other) == storage_bit(before, other),
{
    assert(storage_bit(after, index) == val);
    assert(storage_bit(after, other) == if other == index {
        val
    } else {
        storage_bit(before, other)
    });
}

/// Writing a field and reading the same field back gives the low `width` bits
/// of the written value, with zeros above them.
pub proof fn law_set_then_get(
    before: Seq<u8>,
    after: Seq<u8>,
    offset: int,
    width: int,
    val: u64,
    read: u64,
)
    requires
        0 <= width <= 64,
        0 <= offset,
        offset + width <= 8 * before.len(),
        field_written(before, after, offset, width, val),
        field_read(after, offset, width, read),
    ensures
        forall|j: u64| j < 64 ==> #[trigger] word_bit(read, j) == (j < width && word_bit(val, j)),
        read == val & low_mask(width as u64),
{
    assert forall|j: u64| j < 64 implies #[trigger] word_bit(read, j) == (j < width && word_bit(
        val,
        j,
    )) by {
        if j < width {
            assert(storage_bit(after, offset + j) == word_bit(val, ((offset + j) - offset) as u64));
        }
    }
    lemma_low_mask_bits(val, width as u64);
    lemma_word_ext(read, val & low_mask(width as u64));
}

/// Writing a field leaves every bit outside it unchanged.
pub proof fn law_set_keeps_other_bits(
    before: Seq<u8>,
    after: Seq<u8>,
    offset: int,
    width: int,
    val: u64,
    k: int,
)
    requires
        field_written(before, after, offset, width, val),
        0 <= k < 8 * before.len(),
        !(offset <= k < offset + width),
    ensures
        storage_bit(after, k) == storage_bit(before, k),
{
}

} // verus!
