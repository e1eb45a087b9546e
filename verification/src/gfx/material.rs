//! Material parameters and the preparation of texture pixels for upload.

use vstd::prelude::*;

use crate::bytes::{machine_image, words_as_bytes};

verus! {

/// Shading parameters of a material, as the shader reads them.
#[derive(Clone, Copy)]
pub struct MaterialProperties {
    pub lit: u32,
}

impl MaterialProperties {
    /// The bytes of the material's storage buffer.
    pub fn bytes(&self) -> (b: Vec<u8>)
        ensures
            b@ == machine_image(seq![self.lit]),
    {
        let words: [u32; 1] = [self.lit];
        assert(words@ =~= seq![self.lit]);
        words_as_bytes(&words)
    }
}

/// The default material: lit.
pub fn default_prop() -> (p: MaterialProperties)
    ensures
        p.lit == 1,
{
    MaterialProperties { lit: 1 }
}

/// The rows of an image, each `row` bytes long, in reverse order: byte `i`
/// of the result is byte `i % row` of row `height - 1 - i / row`.
pub open spec fn flipped_rows(pixels: Seq<u8>, row: int, height: int) -> Seq<u8> {
    Seq::new(pixels.len(), |i: int| pixels[(height - 1 - i / row) * row + i % row])
}

/// Calls `image::imageops::flip_vertical` on the RGBA8 image of `width` by
/// `height` pixels stored in `pixels`, and returns the flipped pixels.
/// The function puts pixel `(x, y)` of the source at `(x, height - 1 - y)`
/// of a new image of the same size; the contract states exactly that over
/// the raw bytes, four per pixel, row after row.
#[verifier::external_body]
fn flip_vertical_rgba8(width: u32, height: u32, pixels: Vec<u8>) -> (flipped: Vec<u8>)
    requires
        pixels@.len() == 4 * width * height,
    ensures
        flipped@ == flipped_rows(pixels@, 4 * width, height as int),
{
    let image = image::RgbaImage::from_raw(width, height, pixels).unwrap();
    image::imageops::flip_vertical(&image).into_raw()
}

/// A texture ready for upload: its extent, the copy layout, and the pixels
/// in the order the GPU expects them.
pub struct TextureUpload {
    pub width: u32,
    pub height: u32,
    pub depth_or_array_layers: u32,
    pub bytes_per_row: u32,
    pub rows_per_image: u32,
    pub pixels: Vec<u8>,
}

/// Prepares a decoded RGBA8 image for upload: the rows are flipped so that
/// the first row in memory is the bottom of the picture, the extent is the
/// image's with one layer, and each row takes four bytes per pixel.
pub fn texture_upload(width: u32, height: u32, pixels: Vec<u8>) -> (t: TextureUpload)
    requires
        pixels@.len() == 4 * width * height,
        4 * width <= u32::MAX,
    ensures
        t.width == width,
        t.height == height,
        t.depth_or_array_layers == 1,
        t.bytes_per_row == 4 * width,
        t.rows_per_image == height,
        t.pixels@ == flipped_rows(pixels@, 4 * width, height as int),
{
    let pixels = flip_vertical_rgba8(width, height, pixels);
    TextureUpload {
        width,
        height,
        depth_or_array_layers: 1,
        bytes_per_row: 4 * width,
        rows_per_image: height,
        pixels,
    }
}

/// Flipping the rows of an image twice gives back the image.
pub proof fn lemma_flip_twice(pixels: Seq<u8>, row: int, height: int)
    requires
        row > 0,
        height >= 0,
        pixels.len() == row * height,
    ensures
        flipped_rows(flipped_rows(pixels, row, height), row, height) == pixels,
{
    let once = flipped_rows(pixels, row, height);
    let twice = flipped_rows(once, row, height);
    assert forall|i: int| 0 <= i < pixels.len() implies twice[i] == pixels[i] by {
        let y = i / row;
        let x = i % row;
        vstd::arithmetic::div_mod::lemma_fundamental_div_mod(i, row);
        vstd::arithmetic::div_mod::lemma_mod_bound(i, row);
        assert(0 <= y < height) by (nonlinear_arith)
            requires
                0 <= i < row * height,
                row > 0,
                y == i / row,
        {
            vstd::arithmetic::div_mod::lemma_div_pos_is_pos(i, row);
            vstd::arithmetic::div_mod::lemma_div_by_multiple_is_strongly_ordered(i, row * height, height, row);
        }
        let j = (height - 1 - y) * row + x;
        vstd::arithmetic::div_mod::lemma_fundamental_div_mod_converse(j, row, height - 1 - y, x);
        assert(0 <= j < pixels.len()) by (nonlinear_arith)
            requires
                j == (height - 1 - y) * row + x,
                0 <= y < height,
                0 <= x < row,
                pixels.len() == row * height,
        ;
        assert(once[j] == pixels[(height - 1 - (height - 1 - y)) * row + x]);
        assert(y * row + x == i) by (nonlinear_arith)
            requires
                i == row * y + x,
        ;
        assert(height - 1 - (height - 1 - y) == y);
    }
    assert(twice =~= pixels);
}

} // verus!
