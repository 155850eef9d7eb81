//! The image composer: several encoded images become one JPEG, tiled two to a row.

use vstd::prelude::*;
use crate::raster::{
    blank_canvas, canvas_raster, clear, color_of, covers, decoded_image, decoded_of, encode_jpeg,
    height_of, image_color, image_raster, integer_samples, jpeg_encoded, laid_over, load,
    overlaid, overlay, width_of, Canvas, ColorKind, Decoded, Raster,
};

verus! {

/// The quality at which the composite is written.
pub const JPEG_QUALITY: u8 = 100;

/// Why no composite came out.
#[derive(Debug, Clone, Copy, PartialEq, Eq, Structural)]
pub enum ComposeError {
    /// There was no image to place.
    Empty,
    /// One of the inputs is no image that the decoder reads.
    Undecodable,
    /// One of the images stores samples that are no integers of 8 or 16 bits, such
    /// as floating-point numbers, which cannot always be read as 8-bit pixels.
    Unsupported,
    /// A canvas twice as wide and twice as high as the first image cannot be made.
    TooLarge,
    /// The encoder refused the canvas.
    Unencodable,
}

/// The column at which tile `i` starts, for an image `width` wide.
pub open spec fn tile_x(i: nat, width: nat) -> nat {
    (i % 2) * width
}

/// The row at which tile `i` starts, for an image `height` high.
pub open spec fn tile_y(i: nat, height: nat) -> nat {
    (i / 2) * height
}

/// `canvas` after the first `n` of `images` were laid over it, each at the tile
/// that its index and its own size give.
pub open spec fn tiled(canvas: Raster, images: Seq<Raster>, n: nat) -> Raster
    decreases n,
{
    if n == 0 {
        canvas
    } else {
        let i = (n - 1) as nat;
        overlaid(
            tiled(canvas, images, i),
            images[i as int],
            tile_x(i, images[i as int].width) as int,
            tile_y(i, images[i as int].height) as int,
        )
    }
}

/// The canvas that the composer encodes: twice the width and height of the first
/// image, clear, with every image laid over its tile in turn.
pub open spec fn composite(images: Seq<Raster>) -> Raster {
    tiled(Raster::blank(2 * images[0].width, 2 * images[0].height), images, images.len())
}

/// Whether a canvas for a first image of this size can be made: its sides fit in
/// 32 bits, and the bytes of one row and of all rows, four a pixel, in `usize`.
pub open spec fn canvas_fits(width: nat, height: nat) -> bool {
    &&& 2 * width <= u32::MAX
    &&& 2 * height <= u32::MAX
    &&& 8 * width <= usize::MAX
    &&& 16 * width * height <= usize::MAX
}

/// Whether the decoder reads every one of `sources`.
pub open spec fn all_decode(sources: Seq<Seq<u8>>) -> bool {
    forall|i: int| 0 <= i < sources.len() ==> (#[trigger] decoded_image(sources[i])) is Some
}

/// What the decoder reads from each of `sources`.
pub open spec fn decoded_all(sources: Seq<Seq<u8>>) -> Seq<Decoded> {
    Seq::new(sources.len(), |i: int| decoded_image(sources[i]).unwrap())
}

/// Whether every one of the decoded images stores integer samples.
pub open spec fn all_integer(decoded: Seq<Decoded>) -> bool {
    forall|i: int| 0 <= i < decoded.len() ==> integer_samples((#[trigger] decoded[i]).color)
}

/// What each of the decoded images shows.
pub open spec fn shown(decoded: Seq<Decoded>) -> Seq<Raster> {
    Seq::new(decoded.len(), |i: int| decoded[i].raster)
}

/// What the composer returns for encoded images `sources`.
pub open spec fn compose_outcome(sources: Seq<Seq<u8>>) -> Result<Seq<u8>, ComposeError> {
    if sources.len() == 0 {
        Err(ComposeError::Empty)
    } else if !all_decode(sources) {
        Err(ComposeError::Undecodable)
    } else if !all_integer(decoded_all(sources)) {
        Err(ComposeError::Unsupported)
    } else {
        let images = shown(decoded_all(sources));
        if !canvas_fits(images[0].width, images[0].height) {
            Err(ComposeError::TooLarge)
        } else {
            match jpeg_encoded(composite(images), JPEG_QUALITY) {
                Some(bytes) => Ok(bytes),
                None => Err(ComposeError::Unencodable),
            }
        }
    }
}

/// A result with the bytes of its value in place of the vector that holds them.
pub open spec fn bytes_result<E>(r: Result<Vec<u8>, E>) -> Result<Seq<u8>, E> {
    match r {
        Ok(bytes) => Ok(bytes@),
        Err(error) => Err(error),
    }
}

/// The byte sequences that a vector of byte vectors holds.
pub open spec fn byte_seqs(sources: Seq<Vec<u8>>) -> Seq<Seq<u8>> {
    Seq::new(sources.len(), |i: int| sources[i]@)
}

/// The grids that a sequence of decoded images shows.
pub open spec fn rasters_of(images: Seq<image::DynamicImage>) -> Seq<Raster> {
    Seq::new(images.len(), |i: int| image_raster(images[i]))
}

/// A sequence of decoded images as the decoder's results.
pub open spec fn decoded_of_all(images: Seq<image::DynamicImage>) -> Seq<Decoded> {
    Seq::new(images.len(), |i: int| decoded_of(images[i]))
}

/// Whether every one of `images` stores integer samples.
pub open spec fn all_supported(images: Seq<image::DynamicImage>) -> bool {
    forall|i: int| 0 <= i < images.len() ==> integer_samples(image_color(#[trigger] images[i]))
}

/// Laying images over a canvas keeps its size and its shape.
pub proof fn lemma_tiled_shape(canvas: Raster, images: Seq<Raster>, n: nat)
    requires
        canvas.wf(),
    ensures
        tiled(canvas, images, n).wf(),
        tiled(canvas, images, n).width == canvas.width,
        tiled(canvas, images, n).height == canvas.height,
    decreases n,
{
    if n > 0 {
        lemma_tiled_shape(canvas, images, (n - 1) as nat);
    }
}

/// An image put at or below the bottom edge of a canvas leaves it as it was.
pub proof fn lemma_overlaid_below(below: Raster, above: Raster, x: int, y: int)
    requires
        below.wf(),
        y >= below.height,
    ensures
        overlaid(below, above, x, y) == below,
{
    let after = overlaid(below, above, x, y);
    assert forall|py: int| 0 <= py < below.height implies after.rows[py] =~= below.rows[py] by {
        assert(below.rows[py].len() == below.width);
    }
    assert(after.rows =~= below.rows);
    assert(after =~= below);
}

/// Every one of `images` is `width` wide and `height` high.
pub open spec fn uniform(images: Seq<Raster>, width: nat, height: nat) -> bool {
    forall|j: int|
        0 <= j < images.len() ==> {
            &&& (#[trigger] images[j]).width == width
            &&& images[j].height == height
        }
}

/// Where the four tiles of equal images start: at (0, 0), (`width`, 0), (0, `height`)
/// and (`width`, `height`). From the fifth image on a tile starts at or below the
/// bottom edge of a canvas `2 * height` high.
pub proof fn lemma_tile_origin(i: nat, width: nat, height: nat)
    ensures
        tile_x(i, width) == if i % 2 == 0 {
            0
        } else {
            width
        },
        i < 2 ==> tile_y(i, height) == 0,
        2 <= i < 4 ==> tile_y(i, height) == height,
        i >= 4 ==> tile_y(i, height) >= 2 * height,
{
    let column = i % 2;
    let row = i / 2;
    assert(column * width == if column == 0 {
        0
    } else {
        width
    }) by (nonlinear_arith)
        requires
            column == 0 || column == 1,
    ;
    assert(row == 0 ==> row * height == 0) by (nonlinear_arith);
    assert(row == 1 ==> row * height == height) by (nonlinear_arith);
    assert(row >= 2 ==> row * height >= 2 * height) by (nonlinear_arith);
}

/// On a clear canvas made for equal images, after the first `n` of them were placed,
/// the pixel at (`dx`, `dy`) of tile `i` is clear while image `i` is not yet placed,
/// and from then on it is that image's pixel laid over a clear one.
pub proof fn lemma_tiled_pixel(
    images: Seq<Raster>,
    width: nat,
    height: nat,
    n: nat,
    i: nat,
    dx: int,
    dy: int,
)
    requires
        uniform(images, width, height),
        n <= images.len(),
        i < 4,
        0 <= dx < width,
        0 <= dy < height,
    ensures
        tiled(Raster::blank(2 * width, 2 * height), images, n).rows[tile_y(i, height)
            + dy][tile_x(i, width) + dx] == (if i < n {
            laid_over(clear(), images[i as int].rows[dy][dx])
        } else {
            clear()
        }),
    decreases n,
{
    let canvas = Raster::blank(2 * width, 2 * height);
    let px = tile_x(i, width) + dx;
    let py = tile_y(i, height) + dy;
    lemma_tile_origin(i, width, height);
    assert(0 <= px < 2 * width && 0 <= py < 2 * height);
    if n > 0 {
        let j = (n - 1) as nat;
        let before = tiled(canvas, images, j);
        lemma_tiled_pixel(images, width, height, j, i, dx, dy);
        lemma_tiled_shape(canvas, images, j);
        lemma_tile_origin(j, width, height);
        assert(images[j as int].width == width);
        let after = overlaid(
            before,
            images[j as int],
            tile_x(j, width) as int,
            tile_y(j, height) as int,
        );
        assert(tiled(canvas, images, n) == after);
        assert(after.rows[py][px] == (if covers(
            tile_x(j, width) as int,
            tile_y(j, height) as int,
            width,
            height,
            px,
            py,
        ) {
            laid_over(
                before.rows[py][px],
                images[j as int].rows[py - tile_y(j, height)][px - tile_x(j, width)],
            )
        } else {
            before.rows[py][px]
        }));
    }
}

/// Tile geometry. For images that are all `width` wide and `height` high, the canvas
/// is `2 * width` wide and `2 * height` high, and each of the first four images fills
/// the rectangle from (`(i mod 2) * width`, `(i div 2) * height`) to
/// (`(i mod 2 + 1) * width`, `(i div 2 + 1) * height`), the far edges left out: each
/// of its pixels lies there, laid over a clear one, so that an opaque pixel is found
/// there as it is.
pub proof fn lemma_tile_geometry(
    images: Seq<Raster>,
    width: nat,
    height: nat,
    i: nat,
    dx: int,
    dy: int,
)
    requires
        uniform(images, width, height),
        i < images.len(),
        i < 4,
        0 <= dx < width,
        0 <= dy < height,
    ensures
        composite(images).wf(),
        composite(images).width == 2 * width,
        composite(images).height == 2 * height,
        (i % 2) * width <= tile_x(i, width) + dx < (i % 2 + 1) * width,
        (i / 2) * height <= tile_y(i, height) + dy < (i / 2 + 1) * height,
        composite(images).holds(tile_x(i, width) + dx, tile_y(i, height) + dy),
        composite(images).rows[tile_y(i, height) + dy][tile_x(i, width) + dx] == laid_over(
            clear(),
            images[i as int].rows[dy][dx],
        ),
        images[i as int].rows[dy][dx].alpha == 255 ==> composite(images).rows[tile_y(i, height)
            + dy][tile_x(i, width) + dx] == images[i as int].rows[dy][dx],
{
    assert(images[0].width == width);
    lemma_tiled_shape(Raster::blank(2 * width, 2 * height), images, images.len());
    lemma_tiled_pixel(images, width, height, images.len(), i, dx, dy);
    lemma_tile_origin(i, width, height);
    assert((i % 2 + 1) * width == (i % 2) * width + width) by (nonlinear_arith);
    assert((i / 2 + 1) * height == (i / 2) * height + height) by (nonlinear_arith);
}

/// A quadrant for which there is no image stays clear.
pub proof fn lemma_unused_tile_clear(
    images: Seq<Raster>,
    width: nat,
    height: nat,
    i: nat,
    dx: int,
    dy: int,
)
    requires
        uniform(images, width, height),
        0 < images.len() <= i < 4,
        0 <= dx < width,
        0 <= dy < height,
    ensures
        composite(images).rows[tile_y(i, height) + dy][tile_x(i, width) + dx] == clear(),
{
    assert(images[0].width == width);
    lemma_tiled_pixel(images, width, height, images.len(), i, dx, dy);
}

/// Decodes every one of `sources`, in order.
fn decode_all(sources: &Vec<Vec<u8>>) -> (r: Option<Vec<image::DynamicImage>>)
    ensures
        match r {
            Some(images) => all_decode(byte_seqs(sources@)) && decoded_of_all(images@)
                == decoded_all(byte_seqs(sources@)),
            None => !all_decode(byte_seqs(sources@)),
        },
{
    let mut images: Vec<image::DynamicImage> = Vec::new();
    let mut i: usize = 0;
    while i < sources.len()
        invariant
            i <= sources.len(),
            images.len() == i,
            forall|j: int|
                0 <= j < i ==> decoded_image(#[trigger] byte_seqs(sources@)[j]) == Some(
                    decoded_of(images@[j]),
                ),
        decreases sources.len() - i,
    {
        match load(sources[i].as_slice()) {
            Ok(image) => {
                images.push(image);
            },
            Err(_) => {
                assert(decoded_image(byte_seqs(sources@)[i as int]) is None);
                return None;
            },
        }
        i += 1;
    }
    assert(decoded_of_all(images@) =~= decoded_all(byte_seqs(sources@)));
    Some(images)
}

/// Tells whether every one of `images` stores integer samples.
fn supported(images: &Vec<image::DynamicImage>) -> (r: bool)
    ensures
        r == all_supported(images@),
{
    let mut i: usize = 0;
    while i < images.len()
        invariant
            i <= images.len(),
            forall|j: int| 0 <= j < i ==> integer_samples(image_color(#[trigger] images@[j])),
        decreases images.len() - i,
    {
        match color_of(&images[i]) {
            ColorKind::RgbFloat | ColorKind::RgbaFloat | ColorKind::Other => {
                return false;
            },
            _ => {},
        }
        i += 1;
    }
    true
}

/// Lays every image over its tile of the canvas, in order.
fn place_all(canvas: &mut Canvas, images: &Vec<image::DynamicImage>)
    requires
        all_supported(images@),
        canvas_raster(*old(canvas)).wf(),
        canvas_raster(*old(canvas)).height <= u32::MAX,
    ensures
        canvas_raster(*final(canvas)) == tiled(
            canvas_raster(*old(canvas)),
            rasters_of(images@),
            images.len() as nat,
        ),
{
    let ghost start = canvas_raster(*canvas);
    let ghost rasters = rasters_of(images@);
    let mut i: usize = 0;
    while i < images.len()
        invariant
            i <= images.len(),
            all_supported(images@),
            start.wf(),
            start.height <= u32::MAX,
            rasters == rasters_of(images@),
            canvas_raster(*canvas) == tiled(start, rasters, i as nat),
        decreases images.len() - i,
    {
        let width = width_of(&images[i]);
        let height = height_of(&images[i]);
        let column: u64 = (i % 2) as u64;
        let row: u128 = (i / 2) as u128;
        assert(column * width <= u32::MAX) by (nonlinear_arith)
            requires
                column <= 1,
                width <= u32::MAX,
        ;
        assert(row * height <= 0x1_0000_0000_0000_0000 * 0x1_0000_0000) by (nonlinear_arith)
            requires
                0 <= row < 0x1_0000_0000_0000_0000,
                0 <= height < 0x1_0000_0000,
        ;
        let x: u64 = column * (width as u64);
        let y: u128 = row * (height as u128);
        proof {
            lemma_tiled_shape(start, rasters, i as nat);
            assert(rasters[i as int] == image_raster(images@[i as int]));
            assert(x == tile_x(i as nat, rasters[i as int].width)) by (nonlinear_arith)
                requires
                    x == (i % 2) * width,
                    width == rasters[i as int].width,
            ;
            assert(y == tile_y(i as nat, rasters[i as int].height)) by (nonlinear_arith)
                requires
                    y == (i / 2) * height,
                    height == rasters[i as int].height,
            ;
        }
        if y <= u32::MAX as u128 {
            overlay(canvas, &images[i], x as i64, y as i64);
        } else {
            // No canvas has that many rows: a tile that starts so far down covers nothing.
            proof {
                lemma_overlaid_below(
                    tiled(start, rasters, i as nat),
                    rasters[i as int],
                    x as int,
                    y as int,
                );
            }
        }
        i += 1;
    }
}

/// Tiles the images encoded in `imgs` two to a row on a canvas twice as wide and
/// twice as high as the first of them, and encodes the canvas as a JPEG.
pub fn img_build(imgs: &Vec<Vec<u8>>) -> (r: Result<Vec<u8>, ComposeError>)
    ensures
        bytes_result(r) == compose_outcome(byte_seqs(imgs@)),
{
    if imgs.len() == 0 {
        return Err(ComposeError::Empty);
    }
    let images = match decode_all(imgs) {
        Some(images) => images,
        None => {
            return Err(ComposeError::Undecodable);
        },
    };
    proof {
        let decoded = decoded_all(byte_seqs(imgs@));
        assert(decoded == decoded_of_all(images@));
        assert(rasters_of(images@) =~= shown(decoded));
        assert(all_supported(images@) == all_integer(decoded)) by {
            if all_supported(images@) {
                assert forall|i: int| 0 <= i < decoded.len() implies integer_samples(
                    (#[trigger] decoded[i]).color,
                ) by {
                    assert(integer_samples(image_color(images@[i])));
                }
            }
            if all_integer(decoded) {
                assert forall|i: int| 0 <= i < images@.len() implies integer_samples(
                    image_color(#[trigger] images@[i]),
                ) by {
                    assert(integer_samples(decoded[i].color));
                }
            }
        }
    }
    if !supported(&images) {
        return Err(ComposeError::Unsupported);
    }
    let ghost rasters = rasters_of(images@);
    let width = width_of(&images[0]);
    let height = height_of(&images[0]);
    assert(rasters[0] == image_raster(images@[0]));
    if width > u32::MAX / 2 || height > u32::MAX / 2 {
        return Err(ComposeError::TooLarge);
    }
    if 8 * (width as u128) > usize::MAX as u128 {
        return Err(ComposeError::TooLarge);
    }
    assert(width * height <= 0x1_0000_0000 * 0x1_0000_0000) by (nonlinear_arith)
        requires
            0 <= width < 0x1_0000_0000,
            0 <= height < 0x1_0000_0000,
    ;
    let area: u128 = (width as u128) * (height as u128);
    if 16 * area > usize::MAX as u128 {
        assert(16 * (rasters[0].width * rasters[0].height) == 16 * rasters[0].width
            * rasters[0].height) by (nonlinear_arith);
        return Err(ComposeError::TooLarge);
    }
    assert(16 * (rasters[0].width * rasters[0].height) == 16 * rasters[0].width
        * rasters[0].height) by (nonlinear_arith);
    assert(4 * (2 * width) * (2 * height) == 16 * (width * height)) by (nonlinear_arith);
    let mut canvas = blank_canvas(2 * width, 2 * height);
    place_all(&mut canvas, &images);
    match encode_jpeg(canvas, JPEG_QUALITY) {
        Ok(bytes) => Ok(bytes),
        Err(_) => Err(ComposeError::Unencodable),
    }
}

} // verus!
