//! Textures decoded from PNG images, stored as rows of RGBA texels with the
//! origin in the upper left corner. Sampling and filtering happen in the
//! surrounding application; this module owns the texel storage and indexing.

use vstd::prelude::*;

verus! {

/// The width and height, in pixels, of the image that a PNG byte stream
/// decodes to.
pub uninterp spec fn spec_png_dims(data: Seq<u8>) -> (nat, nat);

/// The row-major RGBA bytes (four per pixel) that a PNG byte stream decodes
/// to.
pub uninterp spec fn spec_png_rgba(data: Seq<u8>) -> Seq<u8>;

/// Relies on png's Decoder::read_info and Reader::next_frame: decoding is a
/// pure function of the byte stream, the output is row-major with
/// `Reader::output_buffer_size` bytes, and for an 8-bit RGBA image that is
/// four bytes per pixel (`OutputInfo::buffer_size`, line size `width * 4`).
/// Byte streams that fail to decode, and images that are not 8-bit RGBA, are
/// reported as `None`.
#[verifier::external_body]
fn decode_rgba8(data: &Vec<u8>) -> (r: Option<(usize, usize, Vec<u8>)>)
    ensures
        r matches Some(t) ==> {
            &&& (t.0 as nat, t.1 as nat) == spec_png_dims(data@)
            &&& t.2@ == spec_png_rgba(data@)
            &&& t.2@.len() == t.0 * t.1 * 4
            &&& t.2@.len() <= usize::MAX
        },
{
    let decoder = png::Decoder::new(std::io::Cursor::new(data.as_slice()));
    let mut reader = decoder.read_info().ok()?;
    let size = reader.output_buffer_size()?;
    let mut buf = vec![0u8; size];
    let info = reader.next_frame(&mut buf).ok()?;
    if info.color_type != png::ColorType::Rgba || info.bit_depth != png::BitDepth::Eight {
        return None;
    }
    buf.truncate(info.buffer_size());
    Some((info.width as usize, info.height as usize, buf))
}

/// An image kept in memory as rows of texels, `texel_width` bytes each;
/// `(0, 0)` is the upper left corner.
#[derive(Clone, Debug)]
pub struct Texture {
    pub buf: Vec<u8>,
    pub width: usize,
    pub height: usize,
    pub texel_width: usize,
}

impl Texture {
    /// Texels are RGB or RGBA byte triples or quadruples and the buffer holds
    /// exactly one texel per pixel.
    pub open spec fn wf(self) -> bool {
        &&& (self.texel_width == 3 || self.texel_width == 4)
        &&& self.buf@.len() == self.width * self.height * self.texel_width
        &&& self.buf@.len() <= usize::MAX
    }

    /// Where the texel of pixel `(x, y)` starts in the byte buffer.
    pub open spec fn spec_texel_start(self, x: int, y: int) -> int {
        x * self.texel_width + y * self.texel_width * self.width
    }

    /// Decodes an in-memory PNG byte stream into a texture. `None` exactly
    /// when the decoder rejects the bytes or the image is not 8-bit RGBA.
    pub fn from_png_bytes(data: &Vec<u8>) -> (r: Option<Texture>)
        ensures
            r matches Some(t) ==> {
                &&& t.wf()
                &&& t.texel_width == 4
                &&& (t.width as nat, t.height as nat) == spec_png_dims(data@)
                &&& t.buf@ == spec_png_rgba(data@)
            },
    {
        match decode_rgba8(data) {
            Some((width, height, buf)) => Some(
                Texture { buf, width, height, texel_width: 4 },
            ),
            None => None,
        }
    }

    /// Reads the RGBA bytes of the texel at `(x, y)`; a texture without an
    /// alpha channel reads as fully opaque.
    pub fn read_texel(&self, x: usize, y: usize) -> (r: [u8; 4])
        requires
            self.wf(),
            x < self.width,
            y < self.height,
        ensures
            r@[0] == self.buf@[self.spec_texel_start(x as int, y as int)],
            r@[1] == self.buf@[self.spec_texel_start(x as int, y as int) + 1],
            r@[2] == self.buf@[self.spec_texel_start(x as int, y as int) + 2],
            r@[3] == if self.texel_width == 4 {
                self.buf@[self.spec_texel_start(x as int, y as int) + 3]
            } else {
                255u8
            },
    {
        proof {
            assert(x * self.texel_width <= self.width * self.height * self.texel_width && y
                * self.texel_width <= self.width * self.height * self.texel_width && y
                * self.texel_width * self.width <= self.width * self.height * self.texel_width && x
                * self.texel_width + y * self.texel_width * self.width + self.texel_width
                <= self.width * self.height * self.texel_width) by (nonlinear_arith)
                requires
                    x < self.width,
                    y < self.height,
                    1 <= self.texel_width,
            ;
        }
        let texel_start = x * self.texel_width + y * self.texel_width * self.width;
        let mut rgba: [u8; 4] = [
            self.buf[texel_start],
            self.buf[texel_start + 1],
            self.buf[texel_start + 2],
            255,
        ];
        if self.texel_width == 4 {
            rgba[3] = self.buf[texel_start + 3];
        }
        rgba
    }
}

} // verus!
