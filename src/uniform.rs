//! The per-frame parameters handed to the shader, and their byte layout.
//!
//! On the GPU side the block is `{ resolution: vec2<f32>, time: f32, pad: f32 }`:
//! four 32-bit floats, 16 bytes, which fills exactly one 16-byte alignment
//! unit. Each field here holds the bit pattern of its float, so that the
//! bytes uploaded are fixed by integer arithmetic alone.
//!
//! `time` is seconds as a binary32 value. Its spacing grows with its size:
//! above about 2^17 s (some 36 hours) neighbouring values are more than
//! 1/60 s apart and the animation visibly stutters. No wraparound is applied.
use crate::float_bits::{f32_bits_from_u32, f32_bits_of_nat, ZERO_BITS};
use vstd::prelude::*;

verus! {

/// Size in bytes of the uniform block.
pub const UNIFORM_SIZE: u64 = 16;

/// Shader parameters, each field the bit pattern of a binary32 value.
#[derive(Clone, Copy, Debug)]
pub struct GlobalsUniform {
    /// Width and height of the render area, in pixels.
    pub resolution: [u32; 2],
    /// Seconds since the render context was created.
    pub time: u32,
    /// Fills the block to 16 bytes; always `0.0`.
    pub _pad: [u32; 1],
}

/// Little-endian bytes of a 32-bit word.
pub open spec fn le_bytes(x: u32) -> Seq<u8> {
    seq![
        (x % 256) as u8,
        ((x / 256) % 256) as u8,
        ((x / 65536) % 256) as u8,
        (x / 16777216) as u8,
    ]
}

/// The four words of a uniform block, in the shader's field order.
pub open spec fn uniform_words(width: u32, height: u32, time: u32) -> Seq<u32> {
    seq![
        f32_bits_of_nat(width as nat) as u32,
        f32_bits_of_nat(height as nat) as u32,
        time,
        ZERO_BITS,
    ]
}

/// The bytes of a sequence of words, each little-endian, in order.
pub open spec fn words_bytes(ws: Seq<u32>) -> Seq<u8>
    decreases ws.len(),
{
    if ws.len() == 0 {
        seq![]
    } else {
        le_bytes(ws[0]) + words_bytes(ws.drop_first())
    }
}

impl GlobalsUniform {
    /// The words of this block, in the shader's field order.
    pub open spec fn words(&self) -> Seq<u32> {
        seq![self.resolution[0], self.resolution[1], self.time, self._pad[0]]
    }

    /// The bytes this block uploads.
    pub open spec fn spec_bytes(&self) -> Seq<u8> {
        words_bytes(self.words())
    }

    /// Parameters for a `width` x `height` area at `time` (bit pattern of
    /// the seconds elapsed).
    pub fn new(width: u32, height: u32, time: u32) -> (r: GlobalsUniform)
        ensures
            r.words() == uniform_words(width, height, time),
    {
        GlobalsUniform {
            resolution: [f32_bits_from_u32(width), f32_bits_from_u32(height)],
            time,
            _pad: [ZERO_BITS],
        }
    }

    /// The 16 bytes to upload, ready for GPU memory without further change.
    pub fn to_bytes(&self) -> (r: [u8; 16])
        ensures
            r@ == self.spec_bytes(),
            r@.len() == UNIFORM_SIZE,
    {
        let a = word_le_bytes(self.resolution[0]);
        let b = word_le_bytes(self.resolution[1]);
        let c = word_le_bytes(self.time);
        let d = word_le_bytes(self._pad[0]);
        let r: [u8; 16] = [
            a[0], a[1], a[2], a[3],
            b[0], b[1], b[2], b[3],
            c[0], c[1], c[2], c[3],
            d[0], d[1], d[2], d[3],
        ];
        proof {
            let ws = self.words();
            reveal_with_fuel(words_bytes, 5);
            assert(ws.drop_first().drop_first().drop_first().drop_first() =~= Seq::<u32>::empty());
            assert(ws.drop_first()[0] == ws[1]);
            assert(ws.drop_first().drop_first()[0] == ws[2]);
            assert(ws.drop_first().drop_first().drop_first()[0] == ws[3]);
            assert(r@ =~= le_bytes(ws[0]) + (le_bytes(ws[1]) + (le_bytes(ws[2]) + (le_bytes(ws[3]) + Seq::<u8>::empty()))));
        }
        r
    }
}

/// A block for a `width` x `height` area at `time` is exactly 16 bytes: the
/// width as a float, the height as a float, the time, then `0.0`, each
/// little-endian.
pub proof fn lemma_uniform_layout(width: u32, height: u32, time: u32)
    requires
        width > 0,
        height > 0,
    ensures
        words_bytes(uniform_words(width, height, time)) == le_bytes(
            f32_bits_of_nat(width as nat) as u32,
        ) + le_bytes(f32_bits_of_nat(height as nat) as u32) + le_bytes(time) + le_bytes(ZERO_BITS),
        words_bytes(uniform_words(width, height, time)).len() == UNIFORM_SIZE,
{
    let ws = uniform_words(width, height, time);
    reveal_with_fuel(words_bytes, 5);
    assert(ws.drop_first().drop_first().drop_first().drop_first() =~= Seq::<u32>::empty());
    assert(ws.drop_first()[0] == ws[1]);
    assert(ws.drop_first().drop_first()[0] == ws[2]);
    assert(ws.drop_first().drop_first().drop_first()[0] == ws[3]);
    assert(words_bytes(ws) =~= le_bytes(ws[0]) + le_bytes(ws[1]) + le_bytes(ws[2]) + le_bytes(ws[3]));
}

/// Two blocks holding the same values serialize to the same bytes.
pub proof fn lemma_bytes_deterministic(a: GlobalsUniform, b: GlobalsUniform)
    requires
        a.words() == b.words(),
    ensures
        a.spec_bytes() == b.spec_bytes(),
{
}

/// Little-endian bytes of `x`.
fn word_le_bytes(x: u32) -> (r: [u8; 4])
    ensures
        r@ == le_bytes(x),
{
    let r: [u8; 4] = [
        (x % 256) as u8,
        ((x / 256) % 256) as u8,
        ((x / 65536) % 256) as u8,
        (x / 16777216) as u8,
    ];
    assert(r@ =~= le_bytes(x));
    r
}

} // verus!
