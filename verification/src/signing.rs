//! Signing a container: the digest of its payload, and the container with
//! that digest written into its reserved slot.
//!
//! A container is a byte buffer. Bytes 0 to 3 are a format tag, bytes 4 to 19
//! are the slot that holds the digest, and the payload runs from byte 20 to
//! the end. Only the payload is hashed.

use crate::bytes::{
    block_words, digest_bytes, le_bytes, le_bytes_of_words, le_words,
    lemma_words_of_their_bytes, word_to_le,
};
use crate::context::{
    absorb, fill_offset, initial_words, lemma_absorb_concat, lemma_absorb_within_block,
    Absorbed, Context,
};
use crate::transform::{lemma_transformed_len, transform, transformed};
use vstd::prelude::*;

verus! {

/// Where the digest slot begins.
pub const DIGEST_OFFSET: usize = 4;

/// Where the payload begins.
pub const PAYLOAD_OFFSET: usize = 20;

/// A full block of padding; shorter paddings are its prefixes.
pub const PADDING: [u8; 64] = [
    0x80, 0, 0, 0, 0, 0, 0, 0, 0, 0, 0, 0, 0, 0, 0, 0,
    0, 0, 0, 0, 0, 0, 0, 0, 0, 0, 0, 0, 0, 0, 0, 0,
    0, 0, 0, 0, 0, 0, 0, 0, 0, 0, 0, 0, 0, 0, 0, 0,
    0, 0, 0, 0, 0, 0, 0, 0, 0, 0, 0, 0, 0, 0, 0, 0,
];

/// The state words after all whole 64-byte blocks of `data`, taken in order.
pub open spec fn compress(words: Seq<u32>, data: Seq<u8>) -> Seq<u32>
    decreases data.len(),
{
    if data.len() < 64 {
        words
    } else {
        transformed(
            compress(words, data.take(data.len() - 64)),
            le_words(data.skip(data.len() - 64)),
        )
    }
}

/// The number of bits in `len` bytes, modulo 2^32.
pub open spec fn bit_count(len: nat) -> u32 {
    ((8 * len) % 0x1_0000_0000) as u32
}

/// The marker that closes the last block: the bit count shifted right by
/// two, with the lowest bit set.
pub open spec fn length_marker(bits: u32) -> u32 {
    (bits >> 2) | 1
}

/// `len` bytes of padding: `0x80`, then zeros.
pub open spec fn padding(len: nat) -> Seq<u8> {
    Seq::new(
        len,
        |i: int|
            if i == 0 {
                0x80u8
            } else {
                0u8
            },
    )
}

/// The block of sixteen words that follows a long tail: the bit count, then
/// fourteen zeros, then the marker.
pub open spec fn length_block(bits: u32) -> Seq<u32> {
    Seq::new(
        16,
        |i: int|
            if i == 0 {
                bits
            } else if i == 15 {
                length_marker(bits)
            } else {
                0u32
            },
    )
}

/// The digest of a payload, as four words.
///
/// The whole blocks of the payload are transformed in order. What is left,
/// the tail, has fewer than 64 bytes. A tail of 56 bytes or more is padded
/// to a full block, which is transformed, and the length block is
/// transformed after it. A shorter tail goes into one last block: the bit
/// count, the tail, padding up to byte 60, and the marker.
pub open spec fn digest(payload: Seq<u8>) -> Seq<u32> {
    let tail_len = payload.len() % 64;
    let body = payload.take(payload.len() - tail_len);
    let tail = payload.skip(payload.len() - tail_len);
    let bits = bit_count(payload.len());
    let words = compress(initial_words(), body);
    if tail_len >= 56 {
        let last = tail + padding((64 - tail_len) as nat);
        transformed(transformed(words, le_words(last)), length_block(bits))
    } else {
        let last = le_bytes(bits) + tail + padding((56 - tail_len) as nat) + le_bytes(
            length_marker(bits),
        );
        transformed(words, le_words(last))
    }
}

/// The digest of a container: that of its payload.
pub open spec fn container_digest(container: Seq<u8>) -> Seq<u32> {
    digest(container.skip(PAYLOAD_OFFSET as int))
}

/// The container with its digest in the slot, and nothing else changed.
pub open spec fn signed(container: Seq<u8>) -> Seq<u8> {
    container.take(DIGEST_OFFSET as int) + le_bytes_of_words(container_digest(container))
        + container.skip(PAYLOAD_OFFSET as int)
}

/// Bytes that complete the pending block are stored in it, the block is
/// transformed into the state words, and the fill offset is 0 again.
pub proof fn lemma_absorb_completes_block(s: Absorbed, data: Seq<u8>)
    requires
        0 <= s.fill,
        data.len() > 0,
        s.fill + data.len() == 64,
        s.pending.len() == 64,
    ensures
        absorb(s, data).fill == 0,
        absorb(s, data).pending == Seq::new(
            64,
            |i: int|
                if s.fill <= i {
                    data[i - s.fill]
                } else {
                    s.pending[i]
                },
        ),
        absorb(s, data).words == transformed(s.words, le_words(absorb(s, data).pending)),
{
    let filled = Seq::new(
        64,
        |i: int|
            if s.fill <= i {
                data[i - s.fill]
            } else {
                s.pending[i]
            },
    );
    lemma_absorb_within_block(s, data.drop_last());
    assert(absorb(s, data).pending =~= filled);
}

/// From a fill offset of 0, whole blocks leave the state words that
/// `compress` gives, and a fill offset of 0.
pub proof fn lemma_absorb_whole_blocks(s: Absorbed, data: Seq<u8>)
    requires
        s.fill == 0,
        s.pending.len() == 64,
        data.len() % 64 == 0,
    ensures
        absorb(s, data).words == compress(s.words, data),
        absorb(s, data).fill == 0,
        absorb(s, data).pending.len() == 64,
    decreases data.len(),
{
    if data.len() >= 64 {
        let front = data.take(data.len() - 64);
        let last = data.skip(data.len() - 64);
        lemma_absorb_whole_blocks(s, front);
        assert(front + last =~= data);
        lemma_absorb_concat(s, front, last);
        let before = absorb(s, front);
        lemma_absorb_completes_block(before, last);
        assert(absorb(before, last).pending =~= last);
    }
}

/// A digest has four words.
pub proof fn lemma_digest_len(payload: Seq<u8>)
    ensures
        digest(payload).len() == 4,
{
    let tail_len = payload.len() % 64;
    let body = payload.take(payload.len() - tail_len);
    let tail = payload.skip(payload.len() - tail_len);
    let bits = bit_count(payload.len());
    let words = compress(initial_words(), body);
    if tail_len >= 56 {
        let last = tail + padding((64 - tail_len) as nat);
        lemma_transformed_len(transformed(words, le_words(last)), length_block(bits));
    } else {
        let last = le_bytes(bits) + tail + padding((56 - tail_len) as nat) + le_bytes(
            length_marker(bits),
        );
        lemma_transformed_len(words, le_words(last));
    }
}

/// The digest of a container depends on its payload alone: two containers
/// with the same payload have the same digest, whatever their tags and slots
/// hold. So the digest of one container is the same however often it is
/// computed.
pub proof fn lemma_digest_of_same_payload(a: Seq<u8>, b: Seq<u8>)
    requires
        a.len() >= 20,
        b.len() >= 20,
        a.skip(20) == b.skip(20),
    ensures
        container_digest(a) == container_digest(b),
{
}

/// Signing in place agrees with the digest: the signed container is as long
/// as the unsigned one, its slot holds the sixteen bytes of the unsigned
/// container's digest, and every byte outside the slot is unchanged.
pub proof fn lemma_signed_holds_digest(container: Seq<u8>)
    requires
        container.len() >= 20,
    ensures
        signed(container).len() == container.len(),
        signed(container).subrange(4, 20) == le_bytes_of_words(container_digest(container)),
        forall|i: int|
            0 <= i < 4 || 20 <= i < container.len() ==> signed(container)[i] == container[i],
{
    lemma_digest_len(container.skip(20));
    assert(signed(container).subrange(4, 20) =~= le_bytes_of_words(container_digest(container)));
}

/// A signed container reproduces its own slot: its digest is that of the
/// unsigned container, the slot holds the bytes of that digest and reads
/// back as its four words, and signing it again changes nothing.
pub proof fn lemma_signed_is_stable(container: Seq<u8>)
    requires
        container.len() >= 20,
    ensures
        container_digest(signed(container)) == container_digest(container),
        le_bytes_of_words(container_digest(signed(container))) == signed(container).subrange(
            4,
            20,
        ),
        le_words(signed(container).subrange(4, 20)) == container_digest(container),
        signed(signed(container)) == signed(container),
{
    lemma_signed_holds_digest(container);
    lemma_words_of_their_bytes(container_digest(container));
    assert(signed(container).skip(20) =~= container.skip(20));
    assert(signed(container).take(4) =~= container.take(4));
}

/// Closes a digest whose tail has 56 bytes or more: the tail and its
/// padding complete one block, and the length block follows.
fn finish_long_tail(context: &mut Context, tail: &[u8], bits: u32)
    requires
        fill_offset(old(context).bit_count[0]) == 0,
        56 <= tail@.len() < 64,
    ensures
        final(context).words@ == transformed(
            transformed(
                old(context).words@,
                le_words(tail@ + padding((64 - tail@.len()) as nat)),
            ),
            length_block(bits),
        ),
{
    let ghost start = Absorbed {
        words: context.words@,
        pending: context.pending@,
        fill: 0,
    };
    context.update(tail);
    let pad_len: usize = 64 - tail.len();
    let pad = &PADDING[0..pad_len];
    context.update(pad);
    proof {
        assert(pad@ =~= padding(pad_len as nat));
        lemma_absorb_within_block(start, tail@);
        lemma_absorb_completes_block(absorb(start, tail@), pad@);
        assert(context.pending@ =~= tail@ + padding(pad_len as nat));
    }
    let mut input: [u32; 16] = [0u32; 16];
    input[0] = bits;
    input[15] = (bits >> 2) | 1;
    assert(input@ =~= length_block(bits));
    transform(&mut context.words, &input);
}

/// Closes a digest whose tail has fewer than 56 bytes: the bit count, the
/// tail, the padding and the marker make up the one last block.
fn finish_short_tail(context: &mut Context, tail: &[u8], bits: u32)
    requires
        fill_offset(old(context).bit_count[0]) == 0,
        tail@.len() < 56,
    ensures
        final(context).words@ == transformed(
            old(context).words@,
            le_words(
                le_bytes(bits) + tail@ + padding((56 - tail@.len()) as nat) + le_bytes(
                    length_marker(bits),
                ),
            ),
        ),
{
    let ghost start = Absorbed {
        words: context.words@,
        pending: context.pending@,
        fill: 0,
    };
    let count = word_to_le(bits);
    context.update(&count);
    proof {
        lemma_absorb_within_block(start, count@);
    }
    let ghost with_count = absorb(start, count@);
    if tail.len() != 0 {
        context.update(tail);
    }
    proof {
        lemma_absorb_within_block(with_count, tail@);
    }
    let first: usize = tail.len() + 4;
    let mut i: usize = first;
    while i < 60
        invariant
            first == tail@.len() + 4,
            first <= i <= 60,
            context.words@ == start.words,
            forall|j: int| 0 <= j < 4 ==> context.pending@[j] == le_bytes(bits)[j],
            forall|j: int| 4 <= j < first ==> context.pending@[j] == tail@[j - 4],
            forall|j: int| first <= j < i ==> context.pending@[j] == padding((60 - first) as nat)[j - first],
        decreases 60 - i,
    {
        context.pending[i] = PADDING[i - first];
        i += 1;
    }
    let marker = word_to_le((bits >> 2) | 1);
    let mut k: usize = 0;
    while k < 4
        invariant
            k <= 4,
            first == tail@.len() + 4,
            first <= 60,
            marker@ == le_bytes(length_marker(bits)),
            context.words@ == start.words,
            forall|j: int| 0 <= j < 4 ==> context.pending@[j] == le_bytes(bits)[j],
            forall|j: int| 4 <= j < first ==> context.pending@[j] == tail@[j - 4],
            forall|j: int| first <= j < 60 ==> context.pending@[j] == padding((60 - first) as nat)[j - first],
            forall|j: int| 60 <= j < 60 + k ==> context.pending@[j] == marker@[j - 60],
        decreases 4 - k,
    {
        context.pending[60 + k] = marker[k];
        k += 1;
    }
    assert(context.pending@ =~= le_bytes(bits) + tail@ + padding((56 - tail@.len()) as nat)
        + le_bytes(length_marker(bits)));
    let input = block_words(&context.pending);
    transform(&mut context.words, &input);
}

/// Computes the digest of the container `blob` into `out`. The container is
/// only read.
pub fn sign(blob: &[u8], out: &mut [u32; 4])
    requires
        blob@.len() >= 20,
    ensures
        final(out)@ == container_digest(blob@),
{
    let mut context = Context::new();
    let payload = &blob[PAYLOAD_OFFSET..blob.len()];
    let len: usize = payload.len();
    let bits: u32 = (#[verifier::truncate]
    (len as u32)).wrapping_mul(8);
    let tail_len: usize = len % 64;
    let body_len: usize = len - tail_len;
    let body = &payload[0..body_len];
    let tail = &payload[body_len..len];
    proof {
        assert(payload@ =~= blob@.skip(20));
        assert(body@ =~= payload@.take(len - tail_len));
        assert(tail@ =~= payload@.skip(len - tail_len));
        let wide = len as u64;
        assert((wide as u32) == wide % 0x1_0000_0000) by (bit_vector);
        assert(bits == bit_count(len as nat));
        assert(fill_offset(0u32) == 0) by {
            assert((0u32 >> 3) & 0x3f == 0) by (bit_vector);
        }
        lemma_absorb_whole_blocks(
            Absorbed { words: context.words@, pending: context.pending@, fill: 0 },
            body@,
        );
    }
    context.update(body);
    if tail_len >= 56 {
        finish_long_tail(&mut context, tail, bits);
    } else {
        finish_short_tail(&mut context, tail, bits);
    }
    *out = context.words;
}

/// Writes the digest of the container `blob` into its slot, bytes 4 to 19.
/// No other byte changes.
pub fn sign_in_place(blob: &mut [u8])
    requires
        old(blob)@.len() >= 20,
    ensures
        final(blob)@ == signed(old(blob)@),
{
    let mut signature: [u32; 4] = [0u32; 4];
    sign(blob, &mut signature);
    let bytes = digest_bytes(&signature);
    let mut k: usize = 0;
    while k < 16
        invariant
            k <= 16,
            blob@.len() == old(blob)@.len(),
            blob@.len() >= 20,
            forall|j: int| 0 <= j < 4 ==> blob@[j] == old(blob)@[j],
            forall|j: int| 4 <= j < 4 + k ==> blob@[j] == bytes@[j - 4],
            forall|j: int| 4 + k <= j < blob@.len() ==> blob@[j] == old(blob)@[j],
        decreases 16 - k,
    {
        blob[DIGEST_OFFSET + k] = bytes[k];
        k += 1;
    }
    assert(blob@ =~= signed(old(blob)@));
}

} // verus!
