//! The block transform: sixty-four mixing steps, in four rounds of sixteen,
//! that fold one block of sixteen words into a state of four words.

use vstd::prelude::*;

verus! {

/// The additive constant of each step.
pub const STEP_CONSTANTS: [u32; 64] = [
    0xd76aa478, 0xe8c7b756, 0x242070db, 0xc1bdceee,
    0xf57c0faf, 0x4787c62a, 0xa8304613, 0xfd469501,
    0x698098d8, 0x8b44f7af, 0xffff5bb1, 0x895cd7be,
    0x6b901122, 0xfd987193, 0xa679438e, 0x49b40821,
    0xf61e2562, 0xc040b340, 0x265e5a51, 0xe9b6c7aa,
    0xd62f105d, 0x02441453, 0xd8a1e681, 0xe7d3fbc8,
    0x21e1cde6, 0xc33707d6, 0xf4d50d87, 0x455a14ed,
    0xa9e3e905, 0xfcefa3f8, 0x676f02d9, 0x8d2a4c8a,
    0xfffa3942, 0x8771f681, 0x6d9d6122, 0xfde5380c,
    0xa4beea44, 0x4bdecfa9, 0xf6bb4b60, 0xbebfbc70,
    0x289b7ec6, 0xeaa127fa, 0xd4ef3085, 0x04881d05,
    0xd9d4d039, 0xe6db99e5, 0x1fa27cf8, 0xc4ac5665,
    0xf4292244, 0x432aff97, 0xab9423a7, 0xfc93a039,
    0x655b59c3, 0x8f0ccc92, 0xffeff47d, 0x85845dd1,
    0x6fa87e4f, 0xfe2ce6e0, 0xa3014314, 0x4e0811a1,
    0xf7537e82, 0xbd3af235, 0x2ad7d2bb, 0xeb86d391,
];

/// The left-rotation amounts: four for each round, used in turn.
pub const ROTATIONS: [u32; 16] = [
    7, 12, 17, 22,
    5, 9, 14, 20,
    4, 11, 16, 23,
    6, 10, 15, 21,
];

/// The index of the message word that each step reads.
pub const MESSAGE_ORDER: [usize; 64] = [
    0, 1, 2, 3, 4, 5, 6, 7, 8, 9, 10, 11, 12, 13, 14, 15,
    1, 6, 11, 0, 5, 10, 15, 4, 9, 14, 3, 8, 13, 2, 7, 12,
    5, 8, 11, 14, 1, 4, 7, 10, 13, 0, 3, 6, 9, 12, 15, 2,
    0, 7, 14, 5, 12, 3, 10, 1, 8, 15, 6, 13, 4, 11, 2, 9,
];

/// The four working registers of the transform.
pub struct Registers {
    pub a: u32,
    pub b: u32,
    pub c: u32,
    pub d: u32,
}

/// `x` rotated left by `n` bits, for `0 < n < 32`.
pub open spec fn rotate_left(x: u32, n: u32) -> u32 {
    (x << n) | (x >> ((32 - n) as u32))
}

/// The bitwise function of a round, rounds being counted from 0.
pub open spec fn round_function(round: int, x: u32, y: u32, z: u32) -> u32 {
    if round == 0 {
        (x & y) | (!x & z)
    } else if round == 1 {
        (x & z) | (y & !z)
    } else if round == 2 {
        x ^ y ^ z
    } else {
        y ^ (x | !z)
    }
}

/// The rotation amount of step `i`.
pub open spec fn rotation(i: int) -> u32 {
    ROTATIONS[(i / 16) * 4 + i % 4]
}

/// One step: the first register is mixed with the other three, a message
/// word and the step's constant, rotated, and added to the second; then the
/// four registers move round by one place.
pub open spec fn step(r: Registers, block: Seq<u32>, i: int) -> Registers {
    let mixed = r.a
        .wrapping_add(round_function(i / 16, r.b, r.c, r.d))
        .wrapping_add(block[MESSAGE_ORDER[i] as int])
        .wrapping_add(STEP_CONSTANTS[i]);
    Registers { a: r.d, b: rotate_left(mixed, rotation(i)).wrapping_add(r.b), c: r.b, d: r.c }
}

/// The registers after the first `n` steps.
pub open spec fn run_steps(r: Registers, block: Seq<u32>, n: nat) -> Registers
    decreases n,
{
    if n == 0 {
        r
    } else {
        step(run_steps(r, block, (n - 1) as nat), block, n - 1)
    }
}

/// The state that the transform makes of `state` and one block of sixteen
/// words: all sixty-four steps run on registers seeded from the state, and
/// each register is then added to its state word, modulo 2^32.
#[verifier::opaque]
pub open spec fn transformed(state: Seq<u32>, block: Seq<u32>) -> Seq<u32> {
    let r = run_steps(
        Registers { a: state[0], b: state[1], c: state[2], d: state[3] },
        block,
        64,
    );
    seq![
        state[0].wrapping_add(r.a),
        state[1].wrapping_add(r.b),
        state[2].wrapping_add(r.c),
        state[3].wrapping_add(r.d),
    ]
}

/// The transform gives a state of four words.
pub proof fn lemma_transformed_len(state: Seq<u32>, block: Seq<u32>)
    ensures
        transformed(state, block).len() == 4,
{
    reveal(transformed);
}

/// Mixes one block into the state.
pub fn transform(state: &mut [u32; 4], input: &[u32; 16])
    ensures
        final(state)@ == transformed(old(state)@, input@),
{
    let mut a: u32 = state[0];
    let mut b: u32 = state[1];
    let mut c: u32 = state[2];
    let mut d: u32 = state[3];
    let ghost seed = Registers { a, b, c, d };
    let mut i: usize = 0;
    while i < 64
        invariant
            i <= 64,
            (Registers { a, b, c, d }) == run_steps(seed, input@, i as nat),
        decreases 64 - i,
    {
        let round: usize = i / 16;
        let mix: u32 = if round == 0 {
            (b & c) | (!b & d)
        } else if round == 1 {
            (b & d) | (c & !d)
        } else if round == 2 {
            b ^ c ^ d
        } else {
            c ^ (b | !d)
        };
        let amount: u32 = ROTATIONS[round * 4 + i % 4];
        let mixed: u32 = a.wrapping_add(mix).wrapping_add(input[MESSAGE_ORDER[i]]).wrapping_add(
            STEP_CONSTANTS[i],
        );
        let rotated: u32 = (mixed << amount) | (mixed >> (32 - amount));
        let next: u32 = rotated.wrapping_add(b);
        a = d;
        d = c;
        c = b;
        b = next;
        i += 1;
    }
    state[0] = state[0].wrapping_add(a);
    state[1] = state[1].wrapping_add(b);
    state[2] = state[2].wrapping_add(c);
    state[3] = state[3].wrapping_add(d);
    proof {
        reveal(transformed);
        assert(state@ =~= transformed(old(state)@, input@));
    }
}

} // verus!
