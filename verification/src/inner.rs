//! The sizes of an off-screen render target, and the way back from the
//! padded rows that the device hands out to the image they hold.

use vstd::prelude::*;

verus! {

/// The bytes of one pixel.
pub const BYTES_PER_PIXEL: u32 = 4;

/// The alignment of a row in a buffer that a texture is copied to.
pub const COPY_BYTES_PER_ROW_ALIGNMENT: u32 = 256;

/// The bytes that the pixels of one row take.
pub open spec fn unpadded_row(width: int) -> int {
    width * 4
}

/// The bytes of one row in the copy buffer: the least multiple of the
/// alignment that holds the row's pixels.
pub open spec fn padded_row(width: int) -> int {
    (unpadded_row(width) + 255) / 256 * 256
}

/// Whether a row size meets the copy alignment.
pub open spec fn aligned(bytes: int) -> bool {
    bytes % 256 == 0
}

/// The bytes of the copy buffer for an image.
pub open spec fn buffer_size(width: int, height: int) -> int {
    padded_row(width) * height
}

/// A padded row is aligned, holds the pixels, and wastes less than one
/// alignment unit; no smaller aligned row holds the pixels.
pub proof fn law_padded_row(width: int)
    requires
        0 <= width,
    ensures
        aligned(padded_row(width)),
        unpadded_row(width) <= padded_row(width) < unpadded_row(width) + 256,
        forall|m: int| #[trigger] aligned(m) && unpadded_row(width) <= m ==> padded_row(width) <= m,
{
    let u = unpadded_row(width);
    let p = padded_row(width);
    assert(p % 256 == 0 && u <= p < u + 256) by (nonlinear_arith)
        requires
            0 <= u,
            p == (u + 255) / 256 * 256,
    ;
    assert forall|m: int| #[trigger] aligned(m) && u <= m implies p <= m by {
        assert(p <= m) by (nonlinear_arith)
            requires
                0 <= u <= m,
                m % 256 == 0,
                p % 256 == 0,
                p < u + 256,
        ;
    }
}

/// The sizes that depend on the size of the render target; made anew when
/// the target is resized.
#[derive(Debug, Clone, Copy, PartialEq, Eq, Structural)]
pub struct InnerState {
    pub width: u32,
    pub height: u32,
    pub unpadded_bytes_per_row: u64,
    pub padded_bytes_per_row: u64,
    pub output_buffer_size: u64,
}

impl InnerState {
    /// The sizes are those of the target's width and height.
    pub open spec fn wf(self) -> bool {
        &&& self.unpadded_bytes_per_row == unpadded_row(self.width as int)
        &&& self.padded_bytes_per_row == padded_row(self.width as int)
        &&& self.output_buffer_size == buffer_size(self.width as int, self.height as int)
        &&& self.output_buffer_size <= u32::MAX
    }

    /// The sizes for a target of the given width and height, where its copy
    /// buffer can be addressed with 32 bits; `None` where it cannot.
    pub fn new(width: u32, height: u32) -> (r: Option<InnerState>)
        ensures
            r is Some <==> buffer_size(width as int, height as int) <= u32::MAX,
            r matches Some(inner) ==> inner.wf() && inner.width == width && inner.height == height,
    {
        proof {
            law_padded_row(width as int);
        }
        let unpadded: u64 = width as u64 * BYTES_PER_PIXEL as u64;
        let align: u64 = COPY_BYTES_PER_ROW_ALIGNMENT as u64;
        let padding: u64 = (align - unpadded % align) % align;
        let padded: u64 = unpadded + padding;
        assert(padded == padded_row(width as int)) by (nonlinear_arith)
            requires
                unpadded == width * 4,
                padding == (256 - unpadded % 256) % 256,
                padded == unpadded + padding,
        ;
        assert(padded * height <= 0xffff_ffff_ffff_ffff_ffff_ffff) by (nonlinear_arith)
            requires
                0 <= padded <= 0xffff_ffff_ffff_ffff,
                0 <= height <= 0xffff_ffff,
        ;
        let size: u128 = padded as u128 * height as u128;
        if size > u32::MAX as u128 {
            return None;
        }
        Some(
            InnerState {
                width,
                height,
                unpadded_bytes_per_row: unpadded,
                padded_bytes_per_row: padded,
                output_buffer_size: size as u64,
            },
        )
    }
}

/// A rendered image, row after row without padding.
#[derive(Debug)]
pub struct RenderResult {
    pub width: u32,
    pub height: u32,
    pub content: Vec<u8>,
}

/// The byte at place `i` of the image that a copy buffer holds: the row's
/// bytes without its padding, each row turned right by one byte.
pub open spec fn readback_byte(data: Seq<u8>, unpadded: int, padded: int, i: int) -> u8 {
    let row = i / unpadded;
    let col = i % unpadded;
    data[row * padded + (col + unpadded - 1) % unpadded]
}

/// The image that a copy buffer holds.
pub open spec fn readback(data: Seq<u8>, unpadded: int, padded: int, height: int) -> Seq<u8> {
    Seq::new((unpadded * height) as nat, |i: int| readback_byte(data, unpadded, padded, i))
}

impl InnerState {
    /// Takes the image out of a mapped copy buffer. The buffer must have the
    /// size that these sizes give; any other is refused.
    pub fn read_back(&self, data: &Vec<u8>) -> (r: Option<RenderResult>)
        requires
            self.wf(),
        ensures
            r is Some <==> data.len() == self.output_buffer_size,
            r matches Some(res) ==> {
                &&& res.width == self.width
                &&& res.height == self.height
                &&& res.content@ == readback(
                    data@,
                    self.unpadded_bytes_per_row as int,
                    self.padded_bytes_per_row as int,
                    self.height as int,
                )
            },
    {
        if data.len() as u64 != self.output_buffer_size {
            return None;
        }
        let ghost u = self.unpadded_bytes_per_row as int;
        let ghost p = self.padded_bytes_per_row as int;
        let ghost h = self.height as int;
        proof {
            law_padded_row(self.width as int);
        }
        let mut content: Vec<u8> = Vec::new();
        if self.height == 0 || self.unpadded_bytes_per_row == 0 {
            assert(u * h == 0) by (nonlinear_arith)
                requires
                    u == 0 || h == 0,
            ;
            assert(content@ =~= readback(data@, u, p, h));
            return Some(RenderResult { width: self.width, height: self.height, content });
        }
        assert(p <= p * h && u <= p) by (nonlinear_arith)
            requires
                h >= 1,
                0 <= u <= p,
        ;
        let unpadded: usize = self.unpadded_bytes_per_row as usize;
        let padded: usize = self.padded_bytes_per_row as usize;
        let height: usize = self.height as usize;
        let mut row: usize = 0;
        while row < height
            invariant
                row <= height,
                height == h,
                unpadded == u,
                padded == p,
                0 < u <= p,
                data.len() == p * h,
                content.len() == row * u,
                forall|i: int|
                    0 <= i < content.len() ==> content[i] == readback_byte(data@, u, p, i),
            decreases height - row,
        {
            assert(row * p + p <= p * h && row * u + u <= p * h) by (nonlinear_arith)
                requires
                    0 <= row < h,
                    0 < u <= p,
            ;
            let base: usize = row * padded;
            let mut col: usize = 0;
            while col < unpadded
                invariant
                    col <= unpadded,
                    row < height,
                    unpadded == u,
                    padded == p,
                    0 < u <= p,
                    base == row * p,
                    base + p <= data.len(),
                    content.len() == row * u + col,
                    row * u + u <= data.len(),
                    forall|i: int|
                        0 <= i < content.len() ==> content[i] == readback_byte(data@, u, p, i),
                decreases unpadded - col,
            {
                let from: usize = if col == 0 {
                    unpadded - 1
                } else {
                    col - 1
                };
                assert(from == (col + u - 1) % u) by (nonlinear_arith)
                    requires
                        0 <= col < u,
                        from == if col == 0 {
                            u - 1
                        } else {
                            col - 1
                        },
                ;
                let byte = data[base + from];
                proof {
                    let i = row * u + col;
                    vstd::arithmetic::div_mod::lemma_fundamental_div_mod_converse(
                        i,
                        u,
                        row as int,
                        col as int,
                    );
                    assert(byte == readback_byte(data@, u, p, i));
                }
                content.push(byte);
                col = col + 1;
            }
            assert((row + 1) * u == row * u + u) by (nonlinear_arith);
            row = row + 1;
        }
        assert(content.len() == u * h) by (nonlinear_arith)
            requires
                content.len() == row * u,
                row == h,
        ;
        assert(content@ =~= readback(data@, u, p, h));
        Some(RenderResult { width: self.width, height: self.height, content })
    }
}

} // verus!
