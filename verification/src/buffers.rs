//! Multi-sampled color buffer with box-filter resolve, and the dirty-tile
//! bookkeeping used to clear only the regions a frame touched.
//!
//! The depth buffer of the pipeline holds floating-point values and lives in
//! the surrounding application; everything here is integer state.

use crate::bounding_box::PixelBoundingBox;
use crate::coverage::{CoverageMask, N_MSAA_SAMPLES};
use vstd::arithmetic::div_mod::{lemma_mod_bound, lemma_multiply_divide_lt};
use vstd::prelude::*;

verus! {

/// Packed ARGB dark grey, the color every sample is reset to between frames.
pub const CLEAR_COLOR: u32 = 0xFF191919;

/// Width and height, in pixels, of one buffer tile.
pub const TILE_SIZE: usize = 64;

/// How many tiles are needed to span `len` pixels: one per full tile plus one
/// for a partial tile at the edge.
pub open spec fn spec_tiles_across(len: usize) -> int {
    len as int / TILE_SIZE as int + if len as int % TILE_SIZE as int == 0 {
        0int
    } else {
        1int
    }
}

/// The tile with flat index `k` in a `width` by `height` buffer, in row-major
/// order: a `TILE_SIZE` square clamped to the buffer's edges.
pub open spec fn spec_tile(width: usize, height: usize, k: int) -> PixelBoundingBox {
    let n_h = spec_tiles_across(width);
    let i = k % n_h;
    let j = k / n_h;
    PixelBoundingBox {
        min_x: (i * TILE_SIZE) as usize,
        max_x: (if (i + 1) * TILE_SIZE < width {
            (i + 1) * TILE_SIZE
        } else {
            width as int
        }) as usize,
        min_y: (j * TILE_SIZE) as usize,
        max_y: (if (j + 1) * TILE_SIZE < height {
            (j + 1) * TILE_SIZE
        } else {
            height as int
        }) as usize,
    }
}

/// The tiles whose mark bit is set, in tile order.
pub open spec fn spec_marked_tiles(
    tiles: Seq<PixelBoundingBox>,
    mask: Seq<bool>,
    k: int,
) -> Seq<PixelBoundingBox>
    decreases tiles.len() - k,
{
    if k < 0 || k >= tiles.len() || mask.len() != tiles.len() {
        Seq::empty()
    } else {
        (if mask[k] {
            seq![tiles[k]]
        } else {
            Seq::empty()
        }) + spec_marked_tiles(tiles, mask, k + 1)
    }
}

/// Splits a buffer into `TILE_SIZE` square tiles and keeps, for the frame
/// being written and for the one before it, a mark per tile saying whether
/// anything was rasterized into it.
pub struct BufferTiles {
    pub tiles: Vec<PixelBoundingBox>,
    pub masks: [Vec<bool>; 2],
    pub mask_idx: usize,
    pub n_horizontal: usize,
}

impl BufferTiles {
    /// The mark bits of mask `which`.
    pub open spec fn mask_seq(self, which: int) -> Seq<bool> {
        self.masks@[which]@
    }

    /// The active mask selector is a valid index and both masks have one bit
    /// per tile.
    pub open spec fn wf(self) -> bool {
        &&& self.mask_idx < 2
        &&& self.tiles@.len() <= usize::MAX
        &&& self.mask_seq(0).len() == self.tiles@.len()
        &&& self.mask_seq(1).len() == self.tiles@.len()
    }

    /// The flat tile index that pixel row `row`, column `col` falls into.
    pub open spec fn spec_tile_idx(self, row: usize, col: usize) -> int {
        (row as int / TILE_SIZE as int) * self.n_horizontal + col as int / TILE_SIZE as int
    }

    /// Builds the row-major tile grid covering a `width` by `height` buffer,
    /// with all marks clear and the first mask active.
    pub fn new(width: usize, height: usize) -> (r: BufferTiles)
        requires
            width + TILE_SIZE <= usize::MAX,
            height + TILE_SIZE <= usize::MAX,
            spec_tiles_across(width) * spec_tiles_across(height) <= usize::MAX,
        ensures
            r.wf(),
            r.mask_idx == 0,
            r.n_horizontal == spec_tiles_across(width),
            r.tiles@.len() == spec_tiles_across(width) * spec_tiles_across(height),
            forall|k: int|
                0 <= k < r.tiles@.len() ==> #[trigger] r.tiles@[k] == spec_tile(width, height, k),
            forall|k: int| 0 <= k < r.tiles@.len() ==> !r.mask_seq(0)[k] && !r.mask_seq(1)[k],
    {
        let is_width_exact = width % TILE_SIZE == 0;
        let is_height_exact = height % TILE_SIZE == 0;
        let n_horizontal = width / TILE_SIZE + if is_width_exact {
            0
        } else {
            1
        };
        let n_vertical = height / TILE_SIZE + if is_height_exact {
            0
        } else {
            1
        };

        let n_tiles = n_horizontal * n_vertical;

        let mut tiles: Vec<PixelBoundingBox> = Vec::with_capacity(n_tiles);

        for k in 0..n_tiles
            invariant
                n_horizontal == spec_tiles_across(width),
                n_vertical == spec_tiles_across(height),
                n_tiles == n_horizontal * n_vertical,
                width + TILE_SIZE <= usize::MAX,
                height + TILE_SIZE <= usize::MAX,
                tiles@.len() == k,
                forall|m: int|
                    0 <= m < tiles@.len() ==> #[trigger] tiles@[m] == spec_tile(width, height, m),
        {
            proof {
                assert(n_horizontal > 0 && n_vertical > 0) by (nonlinear_arith)
                    requires
                        k < n_tiles,
                        n_tiles == n_horizontal * n_vertical,
                        n_horizontal >= 0,
                        n_vertical >= 0,
                ;
                lemma_mod_bound(k as int, n_horizontal as int);
                lemma_multiply_divide_lt(k as int, n_horizontal as int, n_vertical as int);
            }
            let i = k % n_horizontal;
            let j = k / n_horizontal;
            let min_x = i * TILE_SIZE;
            let max_x_full = (i + 1) * TILE_SIZE;
            let max_x = if max_x_full < width {
                max_x_full
            } else {
                width
            };
            let min_y = j * TILE_SIZE;
            let max_y_full = (j + 1) * TILE_SIZE;
            let max_y = if max_y_full < height {
                max_y_full
            } else {
                height
            };
            let bb = PixelBoundingBox { min_x, max_x, min_y, max_y };
            tiles.push(bb);
        }
        let masks = [vec_of_false(n_tiles), vec_of_false(n_tiles)];

        BufferTiles { tiles, masks, n_horizontal, mask_idx: 0 }
    }

    /// The flat index of the tile that pixel `(row, col)` falls into.
    pub fn tile_idx(&self, row: usize, col: usize) -> (r: usize)
        requires
            self.spec_tile_idx(row, col) <= usize::MAX,
        ensures
            r == self.spec_tile_idx(row, col),
    {
        (row / TILE_SIZE) * self.n_horizontal + (col / TILE_SIZE)
    }

    /// Marks the tile holding pixel `(row, col)` in the active mask.
    pub fn mark(&mut self, row: usize, col: usize)
        requires
            old(self).wf(),
            old(self).spec_tile_idx(row, col) < old(self).tiles@.len(),
        ensures
            final(self).wf(),
            final(self).tiles == old(self).tiles,
            final(self).mask_idx == old(self).mask_idx,
            final(self).n_horizontal == old(self).n_horizontal,
            final(self).mask_seq(old(self).mask_idx as int) == old(self).mask_seq(
                old(self).mask_idx as int,
            ).update(old(self).spec_tile_idx(row, col), true),
            final(self).mask_seq(1 - old(self).mask_idx as int) == old(self).mask_seq(
                1 - old(self).mask_idx as int,
            ),
    {
        let idx = self.tile_idx(row, col);
        let which = self.mask_idx;
        self.masks[which][idx] = true;
    }

    /// Switches the active mask to the other one and clears it; the previous
    /// frame's marks stay readable through `prev_marked`.
    pub fn next(&mut self)
        requires
            old(self).wf(),
        ensures
            final(self).wf(),
            final(self).tiles == old(self).tiles,
            final(self).n_horizontal == old(self).n_horizontal,
            final(self).mask_idx == (old(self).mask_idx + 1) % 2,
            final(self).mask_seq(final(self).mask_idx as int).len() == old(self).tiles@.len(),
            forall|k: int|
                0 <= k < final(self).tiles@.len() ==> !final(self).mask_seq(
                    final(self).mask_idx as int,
                )[k],
            final(self).mask_seq(1 - final(self).mask_idx as int) == old(self).mask_seq(
                1 - final(self).mask_idx as int,
            ),
    {
        self.mask_idx = (self.mask_idx + 1) % 2;
        let which = self.mask_idx;
        let n = self.masks[which].len();
        for k in 0..n
            invariant
                which == self.mask_idx,
                which < 2,
                n == self.mask_seq(which as int).len(),
                self.tiles == old(self).tiles,
                self.n_horizontal == old(self).n_horizontal,
                self.mask_seq(1 - which as int) == old(self).mask_seq(1 - which as int),
                self.mask_seq(which as int).len() == old(self).mask_seq(which as int).len(),
                forall|m: int| 0 <= m < k ==> !self.mask_seq(which as int)[m],
        {
            self.masks[which][k] = false;
        }
    }

    /// The tiles marked in the previous frame's mask, in tile order.
    pub fn prev_marked(&self) -> (r: Vec<PixelBoundingBox>)
        requires
            self.wf(),
        ensures
            r@ == spec_marked_tiles(
                self.tiles@,
                self.mask_seq(1 - self.mask_idx as int),
                0,
            ),
    {
        let which = (self.mask_idx + 1) % 2;
        self.collect_marked(which)
    }

    /// The tiles marked in the active mask, in tile order.
    pub fn marked(&self) -> (r: Vec<PixelBoundingBox>)
        requires
            self.wf(),
        ensures
            r@ == spec_marked_tiles(self.tiles@, self.mask_seq(self.mask_idx as int), 0),
    {
        self.collect_marked(self.mask_idx)
    }

    /// Gathers the tiles whose bit is set in mask `which`.
    fn collect_marked(&self, which: usize) -> (r: Vec<PixelBoundingBox>)
        requires
            self.wf(),
            which < 2,
        ensures
            r@ == spec_marked_tiles(self.tiles@, self.mask_seq(which as int), 0),
    {
        let ghost tiles = self.tiles@;
        let ghost mask = self.mask_seq(which as int);
        let mut out: Vec<PixelBoundingBox> = Vec::new();
        let n = self.tiles.len();
        for k in 0..n
            invariant
                n == tiles.len(),
                tiles == self.tiles@,
                mask == self.mask_seq(which as int),
                mask.len() == tiles.len(),
                which < 2,
                spec_marked_tiles(tiles, mask, 0) == out@ + spec_marked_tiles(tiles, mask, k as int),
        {
            let ghost prev_out = out@;
            if self.masks[which][k] {
                out.push(self.tiles[k]);
            }
            proof {
                if mask[k as int] {
                    assert(out@ =~= prev_out + seq![tiles[k as int]]);
                    assert(prev_out + spec_marked_tiles(tiles, mask, k as int) =~= out@
                        + spec_marked_tiles(tiles, mask, k as int + 1));
                } else {
                    assert(prev_out + spec_marked_tiles(tiles, mask, k as int) =~= out@
                        + spec_marked_tiles(tiles, mask, k as int + 1));
                }
            }
        }
        proof {
            assert(spec_marked_tiles(tiles, mask, n as int) =~= Seq::empty());
            assert(out@ + Seq::<PixelBoundingBox>::empty() =~= out@);
        }
        out
    }
}

/// The red channel of a packed ARGB color.
pub open spec fn spec_red(c: u32) -> int {
    ((c >> 16u32) & 0xffu32) as int
}

/// The green channel of a packed ARGB color.
pub open spec fn spec_green(c: u32) -> int {
    ((c >> 8u32) & 0xffu32) as int
}

/// The blue channel of a packed ARGB color.
pub open spec fn spec_blue(c: u32) -> int {
    (c & 0xffu32) as int
}

/// The unweighted box filter of one pixel's samples: each color channel is
/// averaged over the samples (rounding down) and the alpha channel is fully
/// opaque.
pub open spec fn spec_box_filter(s: Seq<u32>) -> int {
    0xFF000000 + ((spec_red(s[0]) + spec_red(s[1]) + spec_red(s[2]) + spec_red(s[3]))
        / N_MSAA_SAMPLES as int) * 0x10000 + ((spec_green(s[0]) + spec_green(s[1]) + spec_green(
        s[2],
    ) + spec_green(s[3])) / N_MSAA_SAMPLES as int) * 0x100 + (spec_blue(s[0]) + spec_blue(s[1])
        + spec_blue(s[2]) + spec_blue(s[3])) / N_MSAA_SAMPLES as int
}

/// Multi-sampled color storage for one buffer set: `N_MSAA_SAMPLES` packed
/// ARGB slots per pixel, a clear template, and the single-sample buffer the
/// box-filter resolve writes into.
pub struct ColorBuffer {
    pub clear_buffer: Vec<[u32; N_MSAA_SAMPLES]>,
    pub buffer: Vec<[u32; N_MSAA_SAMPLES]>,
    pub resolve_buffer: Vec<u32>,
}

impl ColorBuffer {
    /// The three buffers cover the same pixels.
    pub open spec fn wf(self) -> bool {
        &&& self.buffer@.len() == self.resolve_buffer@.len()
        &&& self.clear_buffer@.len() == self.resolve_buffer@.len()
    }

    /// Allocates the sample, template and resolve storage for a `width` by
    /// `height` buffer, with every slot set to the clear color.
    pub fn new(width: usize, height: usize) -> (r: ColorBuffer)
        requires
            width * height <= usize::MAX,
        ensures
            r.wf(),
            r.buffer@.len() == width * height,
            forall|p: int, s: int|
                0 <= p < r.buffer@.len() && 0 <= s < N_MSAA_SAMPLES ==> #[trigger] r.buffer@[p]@[s]
                    == CLEAR_COLOR,
            forall|p: int, s: int|
                0 <= p < r.clear_buffer@.len() && 0 <= s < N_MSAA_SAMPLES
                    ==> #[trigger] r.clear_buffer@[p]@[s] == CLEAR_COLOR,
            forall|p: int| 0 <= p < r.resolve_buffer@.len() ==> r.resolve_buffer@[p] == CLEAR_COLOR,
    {
        let n = width * height;
        let mut buffer: Vec<[u32; N_MSAA_SAMPLES]> = Vec::with_capacity(n);
        let mut clear_buffer: Vec<[u32; N_MSAA_SAMPLES]> = Vec::with_capacity(n);
        let mut resolve_buffer: Vec<u32> = Vec::with_capacity(n);
        for idx in 0..n
            invariant
                buffer@.len() == idx,
                clear_buffer@.len() == idx,
                resolve_buffer@.len() == idx,
                forall|p: int, s: int|
                    0 <= p < idx && 0 <= s < N_MSAA_SAMPLES ==> #[trigger] buffer@[p]@[s]
                        == CLEAR_COLOR,
                forall|p: int, s: int|
                    0 <= p < idx && 0 <= s < N_MSAA_SAMPLES ==> #[trigger] clear_buffer@[p]@[s]
                        == CLEAR_COLOR,
                forall|p: int| 0 <= p < idx ==> resolve_buffer@[p] == CLEAR_COLOR,
        {
            buffer.push([CLEAR_COLOR; N_MSAA_SAMPLES]);
            clear_buffer.push([CLEAR_COLOR; N_MSAA_SAMPLES]);
            resolve_buffer.push(CLEAR_COLOR);
        }
        ColorBuffer { clear_buffer, buffer, resolve_buffer }
    }

    /// The resolved single-sample pixels, packed ARGB, ready to present.
    pub fn get_raw(&self) -> (r: &Vec<u32>)
        ensures
            r@ == self.resolve_buffer@,
    {
        &self.resolve_buffer
    }

    /// Writes `color` into sample slot `mask_idx` of pixel `pixel_idx`,
    /// leaving every other slot as it was.
    pub fn set_pixel(&mut self, pixel_idx: usize, mask_idx: u8, color: u32)
        requires
            pixel_idx < old(self).buffer@.len(),
            mask_idx < N_MSAA_SAMPLES,
        ensures
            final(self).buffer@.len() == old(self).buffer@.len(),
            final(self).buffer@[pixel_idx as int]@ == old(self).buffer@[pixel_idx as int]@.update(
                mask_idx as int,
                color,
            ),
            forall|p: int|
                0 <= p < old(self).buffer@.len() && p != pixel_idx ==> final(self).buffer@[p]
                    == old(self).buffer@[p],
            final(self).clear_buffer == old(self).clear_buffer,
            final(self).resolve_buffer == old(self).resolve_buffer,
    {
        self.buffer[pixel_idx][mask_idx as usize] = color;
    }

    /// Writes `color` into every sample of pixel `pixel_idx` that `cov` marks
    /// covered. An empty coverage mask writes nothing at all: the buffer is
    /// left exactly as it was.
    pub fn write_pixel(&mut self, pixel_idx: usize, cov: CoverageMask, color: u32)
        requires
            pixel_idx < old(self).buffer@.len(),
        ensures
            final(self).buffer@.len() == old(self).buffer@.len(),
            forall|s: int|
                0 <= s < N_MSAA_SAMPLES ==> #[trigger] final(self).buffer@[pixel_idx as int]@[s]
                    == if cov.spec_get(s) {
                    color
                } else {
                    old(self).buffer@[pixel_idx as int]@[s]
                },
            forall|p: int|
                0 <= p < old(self).buffer@.len() && p != pixel_idx ==> final(self).buffer@[p]
                    == old(self).buffer@[p],
            (forall|s: int| 0 <= s < N_MSAA_SAMPLES ==> !cov.spec_get(s)) ==> final(self).buffer@
                == old(self).buffer@,
            final(self).clear_buffer == old(self).clear_buffer,
            final(self).resolve_buffer == old(self).resolve_buffer,
    {
        let n_samples = N_MSAA_SAMPLES as u8;
        let mut s: u8 = 0;
        while s < n_samples
            invariant
                n_samples == N_MSAA_SAMPLES,
                s <= n_samples,
                pixel_idx < self.buffer@.len(),
                self.buffer@.len() == old(self).buffer@.len(),
                forall|t: int|
                    0 <= t < s ==> #[trigger] self.buffer@[pixel_idx as int]@[t] == if cov.spec_get(
                        t,
                    ) {
                        color
                    } else {
                        old(self).buffer@[pixel_idx as int]@[t]
                    },
                forall|t: int|
                    s <= t < N_MSAA_SAMPLES ==> #[trigger] self.buffer@[pixel_idx as int]@[t]
                        == old(self).buffer@[pixel_idx as int]@[t],
                forall|p: int|
                    0 <= p < old(self).buffer@.len() && p != pixel_idx ==> self.buffer@[p] == old(
                        self,
                    ).buffer@[p],
                self.clear_buffer == old(self).clear_buffer,
                self.resolve_buffer == old(self).resolve_buffer,
            decreases n_samples - s,
        {
            if cov.get(s) {
                self.buffer[pixel_idx][s as usize] = color;
            }
            s = s + 1;
        }
        proof {
            if forall|t: int| 0 <= t < N_MSAA_SAMPLES ==> !cov.spec_get(t) {
                assert forall|p: int| 0 <= p < old(self).buffer@.len() implies self.buffer@[p]
                    == old(self).buffer@[p] by {
                    if p == pixel_idx {
                        assert(self.buffer@[p]@ =~= old(self).buffer@[p]@);
                    }
                }
                assert(self.buffer@ =~= old(self).buffer@);
            }
        }
    }

    /// Averages the samples of one pixel with an unweighted box filter,
    /// channel by channel, into one opaque packed color.
    pub fn box_filter_color(colors: &[u32; N_MSAA_SAMPLES]) -> (r: u32)
        ensures
            r == spec_box_filter(colors@),
    {
        let mut red_sum: u32 = 0;
        let mut green_sum: u32 = 0;
        let mut blue_sum: u32 = 0;
        let mut s: usize = 0;
        while s < N_MSAA_SAMPLES
            invariant
                s <= N_MSAA_SAMPLES,
                red_sum == spec_red_sum(colors@, s as int),
                green_sum == spec_green_sum(colors@, s as int),
                blue_sum == spec_blue_sum(colors@, s as int),
                red_sum <= 255 * s,
                green_sum <= 255 * s,
                blue_sum <= 255 * s,
            decreases N_MSAA_SAMPLES - s,
        {
            let c = colors[s];
            proof {
                assert(((c & 0x00FF0000u32) >> 16u32) == ((c >> 16u32) & 0xffu32) && ((c
                    & 0x0000FF00u32) >> 8u32) == ((c >> 8u32) & 0xffu32) && ((c >> 16u32)
                    & 0xffu32) <= 255 && ((c >> 8u32) & 0xffu32) <= 255 && (c & 0xffu32)
                    <= 255) by (bit_vector);
            }
            red_sum = red_sum + ((c & 0x00FF0000) >> 16);
            green_sum = green_sum + ((c & 0x0000FF00) >> 8);
            blue_sum = blue_sum + (c & 0x000000FF);
            s = s + 1;
        }
        let n = N_MSAA_SAMPLES as u32;
        let x = red_sum / n;
        let y = green_sum / n;
        let z = blue_sum / n;
        let r = (0xFFu32 << 24) | (x << 16) | (y << 8) | z;
        proof {
            reveal_with_fuel(spec_red_sum, 5);
            reveal_with_fuel(spec_green_sum, 5);
            reveal_with_fuel(spec_blue_sum, 5);
            assert(spec_red_sum(colors@, 4) == spec_red(colors@[0]) + spec_red(colors@[1])
                + spec_red(colors@[2]) + spec_red(colors@[3]));
            assert(spec_green_sum(colors@, 4) == spec_green(colors@[0]) + spec_green(colors@[1])
                + spec_green(colors@[2]) + spec_green(colors@[3]));
            assert(spec_blue_sum(colors@, 4) == spec_blue(colors@[0]) + spec_blue(colors@[1])
                + spec_blue(colors@[2]) + spec_blue(colors@[3]));
            assert((0xFFu32 << 24u32) | (x << 16u32) | (y << 8u32) | z == 0xFF000000 + x * 0x10000
                + y * 0x100 + z) by (bit_vector)
                requires
                    x < 256u32,
                    y < 256u32,
                    z < 256u32,
            ;
        }
        r
    }

    /// Resolves every pixel of the sample buffer into the resolve buffer with
    /// the box filter, then resets all samples to the clear color.
    pub fn resolve_and_clear(&mut self)
        requires
            old(self).wf(),
        ensures
            final(self).wf(),
            final(self).buffer@.len() == old(self).buffer@.len(),
            final(self).resolve_buffer@.len() == old(self).resolve_buffer@.len(),
            forall|p: int|
                0 <= p < old(self).resolve_buffer@.len() ==> final(self).resolve_buffer@[p]
                    == spec_box_filter(old(self).buffer@[p]@),
            forall|p: int, s: int|
                0 <= p < old(self).buffer@.len() && 0 <= s < N_MSAA_SAMPLES
                    ==> #[trigger] final(self).buffer@[p]@[s] == CLEAR_COLOR,
            final(self).clear_buffer == old(self).clear_buffer,
    {
        let n = self.resolve_buffer.len();
        for p in 0..n
            invariant
                n == self.resolve_buffer@.len(),
                self.wf(),
                self.buffer@.len() == old(self).buffer@.len(),
                self.resolve_buffer@.len() == old(self).resolve_buffer@.len(),
                forall|q: int| p <= q < n ==> self.buffer@[q] == old(self).buffer@[q],
                forall|q: int|
                    0 <= q < p ==> self.resolve_buffer@[q] == spec_box_filter(
                        old(self).buffer@[q]@,
                    ),
                forall|q: int, s: int|
                    0 <= q < p && 0 <= s < N_MSAA_SAMPLES ==> #[trigger] self.buffer@[q]@[s]
                        == CLEAR_COLOR,
                self.clear_buffer == old(self).clear_buffer,
        {
            let avg = ColorBuffer::box_filter_color(&self.buffer[p]);
            self.resolve_buffer[p] = avg;
            self.buffer[p] = [CLEAR_COLOR; N_MSAA_SAMPLES];
        }
    }
}

/// The red channels of the first `n` samples, summed.
pub open spec fn spec_red_sum(s: Seq<u32>, n: int) -> int
    decreases n,
{
    if n <= 0 {
        0
    } else {
        spec_red_sum(s, n - 1) + spec_red(s[n - 1])
    }
}

/// The green channels of the first `n` samples, summed.
pub open spec fn spec_green_sum(s: Seq<u32>, n: int) -> int
    decreases n,
{
    if n <= 0 {
        0
    } else {
        spec_green_sum(s, n - 1) + spec_green(s[n - 1])
    }
}

/// The blue channels of the first `n` samples, summed.
pub open spec fn spec_blue_sum(s: Seq<u32>, n: int) -> int
    decreases n,
{
    if n <= 0 {
        0
    } else {
        spec_blue_sum(s, n - 1) + spec_blue(s[n - 1])
    }
}

/// A vector of `n` clear mark bits.
fn vec_of_false(n: usize) -> (r: Vec<bool>)
    ensures
        r@.len() == n,
        forall|k: int| 0 <= k < n ==> !r@[k],
{
    let mut r: Vec<bool> = Vec::new();
    for k in 0..n
        invariant
            r@.len() == k,
            forall|m: int| 0 <= m < k ==> !r@[m],
    {
        r.push(false);
    }
    r
}

} // verus!
