//! Little-endian words: how four bytes make a 32-bit word and back, for one
//! word and for whole buffers.

use vstd::prelude::*;

verus! {

/// The word whose little-endian encoding is the four bytes of `b`.
pub open spec fn le_word(b: Seq<u8>) -> u32 {
    (b[0] + 0x100 * b[1] + 0x1_0000 * b[2] + 0x100_0000 * b[3]) as u32
}

/// The four bytes of `w`, least significant first.
pub open spec fn le_bytes(w: u32) -> Seq<u8> {
    seq![
        (w % 0x100) as u8,
        (w / 0x100 % 0x100) as u8,
        (w / 0x1_0000 % 0x100) as u8,
        (w / 0x100_0000) as u8,
    ]
}

/// The words that `bytes` holds, four bytes to a word; bytes beyond the last
/// multiple of four are left out.
pub open spec fn le_words(bytes: Seq<u8>) -> Seq<u32> {
    Seq::new((bytes.len() / 4) as nat, |i: int| le_word(bytes.subrange(4 * i, 4 * i + 4)))
}

/// The bytes of all of `words`, each word least significant byte first.
pub open spec fn le_bytes_of_words(words: Seq<u32>) -> Seq<u8> {
    Seq::new(4 * words.len(), |k: int| le_bytes(words[k / 4])[k % 4])
}

/// Decoding undoes encoding.
pub proof fn lemma_le_word_of_bytes(w: u32)
    ensures
        le_word(le_bytes(w)) == w,
{
    assert((w % 0x100) + 0x100 * (w / 0x100 % 0x100) + 0x1_0000 * (w / 0x1_0000 % 0x100)
        + 0x100_0000 * (w / 0x100_0000) == w) by (bit_vector);
    assert(w / 0x100_0000 < 0x100) by (bit_vector);
}

/// The words of a buffer that holds the bytes of `words` are `words` again.
pub proof fn lemma_words_of_their_bytes(words: Seq<u32>)
    ensures
        le_words(le_bytes_of_words(words)) == words,
{
    let bytes = le_bytes_of_words(words);
    assert(bytes.len() / 4 == words.len());
    assert forall|i: int| 0 <= i < words.len() implies le_words(bytes)[i] == words[i] by {
        lemma_le_word_of_bytes(words[i]);
        assert(bytes.subrange(4 * i, 4 * i + 4) =~= le_bytes(words[i])) by {
            assert forall|k: int| 0 <= k < 4 implies bytes[4 * i + k] == le_bytes(words[i])[k] by {
                assert((4 * i + k) / 4 == i);
                assert((4 * i + k) % 4 == k);
            }
        }
    }
    assert(le_words(bytes) =~= words);
}

/// Assembles a word from four bytes, least significant first.
pub fn word_from_le(b: &[u8; 4]) -> (w: u32)
    ensures
        w == le_word(b@),
{
    let b0: u32 = b[0] as u32;
    let b1: u32 = b[1] as u32;
    let b2: u32 = b[2] as u32;
    let b3: u32 = b[3] as u32;
    assert((b3 << 24) | (b2 << 16) | (b1 << 8) | b0 == b0 + 0x100 * b1 + 0x1_0000 * b2 + 0x100_0000
        * b3) by (bit_vector)
        requires
            b0 < 0x100,
            b1 < 0x100,
            b2 < 0x100,
            b3 < 0x100,
    ;
    (b3 << 24) | (b2 << 16) | (b1 << 8) | b0
}

/// Splits a word into its four bytes, least significant first.
pub fn word_to_le(w: u32) -> (b: [u8; 4])
    ensures
        b@ == le_bytes(w),
{
    assert(w & 0xff == w % 0x100) by (bit_vector);
    assert((w >> 8) & 0xff == w / 0x100 % 0x100) by (bit_vector);
    assert((w >> 16) & 0xff == w / 0x1_0000 % 0x100) by (bit_vector);
    assert(w >> 24 == w / 0x100_0000) by (bit_vector);
    assert(w / 0x100_0000 < 0x100) by (bit_vector);
    let b: [u8; 4] = [
        (w & 0xff) as u8,
        ((w >> 8) & 0xff) as u8,
        ((w >> 16) & 0xff) as u8,
        (w >> 24) as u8,
    ];
    assert(b@ =~= le_bytes(w));
    b
}

/// Views a byte buffer as groups of four bytes, by `bytemuck::cast_slice`
/// from `u8` to `[u8; 4]`. Both types have alignment 1, so the cast fails
/// only where the length is no multiple of four, which `requires` leaves
/// out. The result is the same memory: group `i` holds bytes `4 * i` to
/// `4 * i + 3`, in order.
#[verifier::external_body]
fn byte_groups(bytes: &[u8]) -> (groups: &[[u8; 4]])
    requires
        bytes@.len() % 4 == 0,
    ensures
        groups@.len() * 4 == bytes@.len(),
        forall|i: int, k: int|
            0 <= i < groups@.len() && 0 <= k < 4 ==> #[trigger] groups@[i]@[k] == bytes@[4 * i
                + k],
{
    bytemuck::cast_slice::<u8, [u8; 4]>(bytes)
}

/// Views groups of four bytes as one byte buffer, by `bytemuck::cast_slice`
/// from `[u8; 4]` to `u8`, which cannot fail: the alignment does not grow
/// and every length is a multiple of one. The result is the same memory:
/// byte `4 * i + k` is byte `k` of group `i`.
#[verifier::external_body]
fn group_bytes(groups: &[[u8; 4]]) -> (bytes: &[u8])
    ensures
        bytes@.len() == 4 * groups@.len(),
        forall|i: int, k: int|
            0 <= i < groups@.len() && 0 <= k < 4 ==> bytes@[4 * i + k] == #[trigger] groups@[i]@[k],
{
    bytemuck::cast_slice::<[u8; 4], u8>(groups)
}

/// The sixteen words of a 64-byte block.
pub fn block_words(block: &[u8; 64]) -> (words: [u32; 16])
    ensures
        words@ == le_words(block@),
{
    let groups = byte_groups(block);
    let mut words: [u32; 16] = [0u32; 16];
    let mut i: usize = 0;
    while i < 16
        invariant
            i <= 16,
            groups@.len() == 16,
            forall|j: int, k: int|
                0 <= j < 16 && 0 <= k < 4 ==> #[trigger] groups@[j]@[k] == block@[4 * j + k],
            forall|j: int| 0 <= j < i ==> words@[j] == le_words(block@)[j],
        decreases 16 - i,
    {
        let w = word_from_le(&groups[i]);
        proof {
            let g = groups@[i as int]@;
            assert(g =~= block@.subrange(4 * i, 4 * i + 4)) by {
                assert forall|k: int| 0 <= k < 4 implies g[k] == block@[4 * i + k] by {
                    assert(groups@[i as int]@[k] == block@[4 * i + k]);
                }
            }
        }
        words[i] = w;
        i += 1;
    }
    assert(words@ =~= le_words(block@));
    words
}

/// The sixteen bytes of a digest of four words.
pub fn digest_bytes(words: &[u32; 4]) -> (bytes: [u8; 16])
    ensures
        bytes@ == le_bytes_of_words(words@),
{
    let groups: [[u8; 4]; 4] = [
        word_to_le(words[0]),
        word_to_le(words[1]),
        word_to_le(words[2]),
        word_to_le(words[3]),
    ];
    let flat = group_bytes(&groups);
    let mut bytes: [u8; 16] = [0u8; 16];
    let mut k: usize = 0;
    while k < 16
        invariant
            k <= 16,
            flat@.len() == 16,
            forall|j: int| 0 <= j < k ==> bytes@[j] == flat@[j],
        decreases 16 - k,
    {
        bytes[k] = flat[k];
        k += 1;
    }
    assert(bytes@ =~= le_bytes_of_words(words@)) by {
        assert forall|j: int| 0 <= j < 16 implies bytes@[j] == le_bytes(words@[j / 4])[j % 4] by {
            let i = j / 4;
            let r = j % 4;
            assert(flat@[4 * i + r] == groups@[i]@[r]);
        }
    }
    bytes
}

} // verus!
