//! The streaming accumulator: four state words, a pending block of 64 bytes
//! and a count of the bits taken in.

use crate::bytes::{block_words, le_words};
use crate::transform::{transform, transformed};
use vstd::prelude::*;

verus! {

/// The running state of one digest computation.
#[derive(Clone)]
pub struct Context {
    /// The four state words.
    pub words: [u32; 4],
    /// The block being filled. Only the bytes below the fill offset belong
    /// to the block under way; the others are left from earlier blocks.
    pub pending: [u8; 64],
    /// The number of bits taken in, as a low and a high half.
    pub bit_count: [u32; 2],
}

/// The state words of a fresh accumulator.
pub open spec fn initial_words() -> Seq<u32> {
    seq![0x67452301u32, 0xefcdab89u32, 0x98badcfeu32, 0x10325476u32]
}

/// Where in the pending block the next byte goes: the number of whole bytes
/// counted so far, modulo 64.
pub open spec fn fill_offset(low: u32) -> int {
    ((low >> 3) & 0x3f) as int
}

/// The bit count after `len` more bytes. The low half grows by `8 * len`
/// modulo 2^32. The high half grows by the top three bits of `len`, and by
/// one more where the sum of the old low half and `len`, shifted left by
/// three, has come out below the old low half.
pub open spec fn counted(count: Seq<u32>, len: usize) -> Seq<u32> {
    let n = len as u32;
    let carry = if (count[0].wrapping_add(n) << 3) < count[0] {
        1u32
    } else {
        0u32
    };
    seq![count[0].wrapping_add(n << 3), count[1].wrapping_add(carry).wrapping_add(n >> 29)]
}

/// The fill offset is below 64, and counting `len` more bytes moves it on by
/// `len`, modulo 64.
pub proof fn lemma_fill_offset_advances(low: u32, len: usize)
    ensures
        0 <= fill_offset(low) < 64,
        fill_offset(low.wrapping_add((len as u32) << 3)) == (fill_offset(low) + len) % 64,
{
    let n = len as u32;
    let shifted = n << 3;
    let sum = low.wrapping_add(shifted);
    assert(sum == (low + shifted) % 0x1_0000_0000);
    assert((low >> 3) & 0x3f < 64) by (bit_vector);
    assert((sum >> 3) & 0x3f == (((low >> 3) & 0x3f) + (n & 0x3f)) % 64) by (bit_vector)
        requires
            shifted == n << 3,
            sum == (low + shifted) % 0x1_0000_0000,
    ;
    assert((len as u32) & 0x3f == len % 64) by (bit_vector);
}

/// What taking bytes in changes: the state words, the pending block and the
/// fill offset.
pub struct Absorbed {
    pub words: Seq<u32>,
    pub pending: Seq<u8>,
    pub fill: int,
}

/// Takes in one byte: it is stored at the fill offset; where that completes
/// the block, the block is transformed into the state words and the fill
/// offset goes back to 0.
pub open spec fn absorb_byte(s: Absorbed, byte: u8) -> Absorbed {
    let pending = s.pending.update(s.fill, byte);
    if s.fill + 1 == 64 {
        Absorbed { words: transformed(s.words, le_words(pending)), pending, fill: 0 }
    } else {
        Absorbed { words: s.words, pending, fill: s.fill + 1 }
    }
}

/// Takes in the bytes of `data`, first to last.
pub open spec fn absorb(s: Absorbed, data: Seq<u8>) -> Absorbed
    decreases data.len(),
{
    if data.len() == 0 {
        s
    } else {
        absorb_byte(absorb(s, data.drop_last()), data.last())
    }
}

/// Taking in `data` moves the fill offset on by its length, modulo 64, and
/// keeps the pending block 64 bytes long.
pub proof fn lemma_absorb_fill(s: Absorbed, data: Seq<u8>)
    requires
        0 <= s.fill < 64,
        s.pending.len() == 64,
    ensures
        absorb(s, data).fill == (s.fill + data.len()) % 64,
        absorb(s, data).pending.len() == 64,
    decreases data.len(),
{
    if data.len() > 0 {
        lemma_absorb_fill(s, data.drop_last());
    }
}

/// Streaming: taking in `a` and then `b` is taking in `a + b`.
pub proof fn lemma_absorb_concat(s: Absorbed, a: Seq<u8>, b: Seq<u8>)
    ensures
        absorb(s, a + b) == absorb(absorb(s, a), b),
    decreases b.len(),
{
    if b.len() == 0 {
        assert(a + b =~= a);
    } else {
        lemma_absorb_concat(s, a, b.drop_last());
        assert((a + b).drop_last() =~= a + b.drop_last());
    }
}

/// Bytes that do not complete the block are stored in it and change
/// nothing else.
pub proof fn lemma_absorb_within_block(s: Absorbed, data: Seq<u8>)
    requires
        0 <= s.fill,
        s.fill + data.len() < 64,
        s.pending.len() == 64,
    ensures
        absorb(s, data).words == s.words,
        absorb(s, data).fill == s.fill + data.len(),
        absorb(s, data).pending == Seq::new(
            64,
            |i: int|
                if s.fill <= i < s.fill + data.len() {
                    data[i - s.fill]
                } else {
                    s.pending[i]
                },
        ),
    decreases data.len(),
{
    let stored = Seq::new(
        64,
        |i: int|
            if s.fill <= i < s.fill + data.len() {
                data[i - s.fill]
            } else {
                s.pending[i]
            },
    );
    if data.len() == 0 {
        assert(s.pending =~= stored);
    } else {
        lemma_absorb_within_block(s, data.drop_last());
        assert(absorb(s, data).pending =~= stored);
    }
}

impl Context {
    /// A fresh accumulator: the initial state words, an all-zero pending
    /// block and a bit count of zero.
    pub fn new() -> (context: Context)
        ensures
            context.words@ == initial_words(),
            context.pending@ == Seq::new(64, |i: int| 0u8),
            context.bit_count@ == seq![0u32, 0u32],
    {
        let context = Context {
            words: [0x67452301, 0xefcdab89, 0x98badcfe, 0x10325476],
            pending: [0u8; 64],
            bit_count: [0, 0],
        };
        assert(context.words@ =~= initial_words());
        assert(context.pending@ =~= Seq::new(64, |i: int| 0u8));
        assert(context.bit_count@ =~= seq![0u32, 0u32]);
        context
    }

    /// Takes in `buf`: counts its bits, then stores its bytes in the pending
    /// block one by one, transforming the block each time it fills.
    pub fn update(&mut self, buf: &[u8])
        ensures
            final(self).bit_count@ == counted(old(self).bit_count@, buf.len()),
            ({
                let s = absorb(
                    Absorbed {
                        words: old(self).words@,
                        pending: old(self).pending@,
                        fill: fill_offset(old(self).bit_count[0]),
                    },
                    buf@,
                );
                &&& final(self).words@ == s.words
                &&& final(self).pending@ == s.pending
                &&& fill_offset(final(self).bit_count[0]) == s.fill
            }),
    {
        let low: u32 = self.bit_count[0];
        let high: u32 = self.bit_count[1];
        let length: u32 = #[verifier::truncate]
        (buf.len() as u32);
        let mut fill: usize = ((low >> 3) & 0x3f) as usize;
        let ghost start = Absorbed {
            words: self.words@,
            pending: self.pending@,
            fill: fill_offset(low),
        };
        let carry: u32 = if (low.wrapping_add(length) << 3) < low {
            1
        } else {
            0
        };
        self.bit_count[0] = low.wrapping_add(length << 3);
        self.bit_count[1] = high.wrapping_add(carry).wrapping_add(length >> 29);
        proof {
            assert(self.bit_count@ =~= counted(old(self).bit_count@, buf.len()));
            lemma_fill_offset_advances(low, buf.len());
            lemma_absorb_fill(start, buf@);
        }

        let ghost count = self.bit_count@;
        let mut k: usize = 0;
        while k < buf.len()
            invariant
                k <= buf.len(),
                fill < 64,
                self.bit_count@ == count,
                (Absorbed { words: self.words@, pending: self.pending@, fill: fill as int })
                    == absorb(start, buf@.take(k as int)),
            decreases buf.len() - k,
        {
            self.pending[fill] = buf[k];
            fill += 1;
            if fill == 64 {
                let input = block_words(&self.pending);
                transform(&mut self.words, &input);
                fill = 0;
            }
            proof {
                assert(buf@.take(k + 1).drop_last() =~= buf@.take(k as int));
            }
            k += 1;
        }
        assert(buf@.take(buf.len() as int) =~= buf@);
    }
}

} // verus!
