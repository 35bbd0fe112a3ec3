//! Conversions at the word boundary: contract bytecode words from their
//! big-endian byte form, 160-bit addresses packed into and out of 256-bit
//! words, and the low-limb accessors.

use vstd::prelude::*;

use crate::word::U256;

verus! {

/// The value of a byte string read big-endian: the first byte is the most
/// significant.
pub open spec fn be_bytes_val(s: Seq<u8>) -> nat
    decreases s.len(),
{
    if s.len() == 0 {
        0
    } else {
        (be_bytes_val(s.drop_last()) * 256 + s.last()) as nat
    }
}

/// `256^k`: the weight of the byte `k` positions above the least significant.
pub open spec fn pow256(k: int) -> nat
    decreases k,
{
    if k <= 0 {
        1nat
    } else {
        256 * pow256(k - 1)
    }
}

/// Byte weights grow with the position.
pub proof fn lemma_pow256_increases(a: int, b: int)
    requires
        a <= b,
    ensures
        pow256(a) <= pow256(b),
    decreases b - a,
{
    if a < b {
        lemma_pow256_increases(a, b - 1);
    }
}

/// Read bytes `start..end` of a byte array as one big-endian limb.
fn be_limb_from_bytes<const N: usize>(bytes: &[u8; N], start: usize, end: usize) -> (r: u128)
    requires
        start <= end <= N,
        end - start <= 16,
    ensures
        r == be_bytes_val(bytes@.subrange(start as int, end as int)),
{
    proof {
        assert(pow256(16) == 0x1_0000_0000_0000_0000_0000_0000_0000_0000) by {
            reveal_with_fuel(pow256, 17);
        }
    }
    let mut acc: u128 = 0;
    let mut j = start;
    while j < end
        invariant
            start <= j <= end <= N,
            end - start <= 16,
            acc == be_bytes_val(bytes@.subrange(start as int, j as int)),
            acc < pow256(j - start),
            pow256(16) == 0x1_0000_0000_0000_0000_0000_0000_0000_0000,
        decreases end - j,
    {
        proof {
            lemma_pow256_increases(j - start, 15);
            assert(bytes@.subrange(start as int, j + 1).drop_last() =~= bytes@.subrange(
                start as int,
                j as int,
            ));
            assert(bytes@.subrange(start as int, j + 1).last() == bytes@[j as int]);
        }
        acc = acc * 256 + bytes[j] as u128;
        j += 1;
    }
    proof {
        assert(bytes@.subrange(start as int, start as int) =~= Seq::<u8>::empty());
    }
    acc
}

/// The byte of `v` that sits `k` positions above the least significant one.
pub open spec fn be_byte_of(v: u128, k: int) -> u8 {
    (((v as nat) / pow256(k)) % 256) as u8
}

/// Turn contract bytecode, a sequence of 32-byte big-endian words, into the
/// 256-bit machine words the interpreter consumes.
pub fn contract_bytecode_to_words(code: &Vec<[u8; 32]>) -> (r: Vec<U256>)
    ensures
        r@.len() == code@.len(),
        forall|i: int|
            0 <= i < code@.len() ==> {
                &&& (#[trigger] r@[i]).high == be_bytes_val(code@[i]@.subrange(0, 16))
                &&& r@[i].low == be_bytes_val(code@[i]@.subrange(16, 32))
            },
{
    let mut result: Vec<U256> = Vec::new();
    let mut i: usize = 0;
    while i < code.len()
        invariant
            i <= code@.len(),
            result@.len() == i,
            forall|k: int|
                0 <= k < i ==> {
                    &&& (#[trigger] result@[k]).high == be_bytes_val(code@[k]@.subrange(0, 16))
                    &&& result@[k].low == be_bytes_val(code@[k]@.subrange(16, 32))
                },
        decreases code@.len() - i,
    {
        let word = &code[i];
        let high = be_limb_from_bytes(word, 0, 16);
        let low = be_limb_from_bytes(word, 16, 32);
        result.push(U256 { low, high });
        i += 1;
    }
    result
}

/// A 160-bit account address: twenty bytes, most significant first.
#[derive(Clone, Copy, Debug, PartialEq, Eq)]
pub struct Address {
    pub bytes: [u8; 20],
}

/// Pack an address into a 256-bit word: the twenty bytes are the low 160
/// bits, read big-endian; the high 96 bits are zero.
pub fn address_to_u256(address: &Address) -> (r: U256)
    ensures
        r.high == be_bytes_val(address.bytes@.subrange(0, 4)),
        r.low == be_bytes_val(address.bytes@.subrange(4, 20)),
        r.high < 0x1_0000_0000,
{
    let high = be_limb_from_bytes(&address.bytes, 0, 4);
    let low = be_limb_from_bytes(&address.bytes, 4, 20);
    proof {
        lemma_be_bytes_val_bound(address.bytes@.subrange(0, 4));
        assert(pow256(4) == 0x1_0000_0000) by {
            reveal_with_fuel(pow256, 5);
        }
    }
    U256 { low, high }
}

/// A big-endian byte string's value is bounded by the weight one past its
/// length.
pub proof fn lemma_be_bytes_val_bound(s: Seq<u8>)
    ensures
        be_bytes_val(s) < pow256(s.len() as int),
    decreases s.len(),
{
    if s.len() > 0 {
        lemma_be_bytes_val_bound(s.drop_last());
    }
}

/// Unpack the low 160 bits of a word into an address, most significant byte
/// first; the high 96 bits of the word are ignored.
#[verifier::rlimit(100)]
pub fn u256_to_address_unchecked(integer: &U256) -> (r: Address)
    ensures
        forall|i: int| 0 <= i < 4 ==> r.bytes@[i] == be_byte_of(integer.high, 3 - i),
        forall|i: int| 4 <= i < 20 ==> #[trigger] r.bytes@[i] == be_byte_of(integer.low, 19 - i),
{
    proof {
        reveal_with_fuel(pow256, 17);
    }
    let h = integer.high;
    let l = integer.low;
    let bytes: [u8; 20] = [
        ((h / 0x100_0000) % 256) as u8,
        ((h / 0x1_0000) % 256) as u8,
        ((h / 0x100) % 256) as u8,
        (h % 256) as u8,
        ((l / 0x1_0000_0000_0000_0000_0000_0000_0000_00) % 256) as u8,
        ((l / 0x1_0000_0000_0000_0000_0000_0000_0000) % 256) as u8,
        ((l / 0x1_0000_0000_0000_0000_0000_0000_00) % 256) as u8,
        ((l / 0x1_0000_0000_0000_0000_0000_0000) % 256) as u8,
        ((l / 0x1_0000_0000_0000_0000_0000_00) % 256) as u8,
        ((l / 0x1_0000_0000_0000_0000_0000) % 256) as u8,
        ((l / 0x1_0000_0000_0000_0000_00) % 256) as u8,
        ((l / 0x1_0000_0000_0000_0000) % 256) as u8,
        ((l / 0x1_0000_0000_0000_00) % 256) as u8,
        ((l / 0x1_0000_0000_0000) % 256) as u8,
        ((l / 0x1_0000_0000_00) % 256) as u8,
        ((l / 0x1_0000_0000) % 256) as u8,
        ((l / 0x1_0000_00) % 256) as u8,
        ((l / 0x1_0000) % 256) as u8,
        ((l / 0x100) % 256) as u8,
        (l % 256) as u8,
    ];
    Address { bytes }
}

/// The low 128 bits of a word.
pub fn low_u128_of_u256(value: &U256) -> (r: u128)
    ensures
        r == value.low,
{
    value.low
}

/// The low 32 bits of a word.
pub fn low_u32_of_u256(value: &U256) -> (r: u32)
    ensures
        r == value.low % 0x1_0000_0000,
{
    (value.low % 0x1_0000_0000) as u32
}

/// The low 64 bits of a word.
pub fn low_u64_of_u256(value: &U256) -> (r: u64)
    ensures
        r == value.low % 0x1_0000_0000_0000_0000,
{
    (value.low % 0x1_0000_0000_0000_0000) as u64
}

} // verus!
