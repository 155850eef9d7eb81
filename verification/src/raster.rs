//! Pixel grids, and the `image` crate's operations on them.

use vstd::prelude::*;

verus! {

/// One pixel as four 8-bit channels.
pub struct Pixel {
    pub red: u8,
    pub green: u8,
    pub blue: u8,
    pub alpha: u8,
}

/// A grid of pixels: `rows[y][x]` is the pixel in column `x` of row `y`.
#[verifier::ext_equal]
pub struct Raster {
    pub width: nat,
    pub height: nat,
    pub rows: Seq<Seq<Pixel>>,
}

/// The pixel of a fresh canvas: every channel zero.
pub open spec fn clear() -> Pixel {
    Pixel { red: 0, green: 0, blue: 0, alpha: 0 }
}

impl Raster {
    /// There are `height` rows of `width` pixels each.
    pub open spec fn wf(self) -> bool {
        &&& self.rows.len() == self.height
        &&& forall|y: int| 0 <= y < self.height ==> (#[trigger] self.rows[y]).len() == self.width
    }

    /// A grid of the given size in which every pixel is [`clear`].
    pub open spec fn blank(width: nat, height: nat) -> Raster {
        Raster {
            width,
            height,
            rows: Seq::new(height, |y: int| Seq::new(width, |x: int| clear())),
        }
    }

    /// Whether column `x` of row `y` lies in the grid.
    pub open spec fn holds(self, x: int, y: int) -> bool {
        0 <= x < self.width && 0 <= y < self.height
    }
}

/// Whether the pixel at (`px`, `py`) lies under a `width` by `height` rectangle whose
/// top left corner is at (`x`, `y`).
pub open spec fn covers(x: int, y: int, width: nat, height: nat, px: int, py: int) -> bool {
    x <= px < x + width && y <= py < y + height
}

/// The pixel that `Blend::blend` of `image` computes where a pixel `above` that is
/// neither clear nor opaque is laid over `below`.
pub uninterp spec fn blended(below: Pixel, above: Pixel) -> Pixel;

/// The pixel that is seen where `above` is laid over `below`: `below` through a pixel
/// without alpha, `above` where it is opaque, and a blend of the two between.
pub open spec fn laid_over(below: Pixel, above: Pixel) -> Pixel {
    if above.alpha == 0 {
        below
    } else if above.alpha == 255 {
        above
    } else {
        blended(below, above)
    }
}

/// `below` with `above` laid over it, the top left corner of `above` at (`x`, `y`):
/// under `above` each pixel is blended with the one over it, elsewhere it stays, and
/// what of `above` falls outside `below` is cut off.
pub open spec fn overlaid(below: Raster, above: Raster, x: int, y: int) -> Raster {
    Raster {
        width: below.width,
        height: below.height,
        rows: Seq::new(
            below.height,
            |py: int|
                Seq::new(
                    below.width,
                    |px: int|
                        if covers(x, y, above.width, above.height, px, py) {
                            laid_over(below.rows[py][px], above.rows[py - y][px - x])
                        } else {
                            below.rows[py][px]
                        },
                ),
        ),
    }
}

#[verifier::external_type_specification]
#[verifier::external_body]
pub struct ExDynamicImage(image::DynamicImage);

#[verifier::external_type_specification]
#[verifier::external_body]
pub struct ExImageError(image::ImageError);

/// An image under construction: an `image::RgbaImage`.
#[verifier::external_body]
pub struct Canvas {
    pixels: image::RgbaImage,
}

/// How a decoded image stores its samples.
#[derive(Debug, Clone, Copy, PartialEq, Eq, Structural)]
pub enum ColorKind {
    /// 8-bit luminance.
    L8,
    /// 8-bit luminance with alpha.
    La8,
    /// 8-bit red, green and blue.
    Rgb8,
    /// 8-bit red, green and blue with alpha.
    Rgba8,
    /// 16-bit luminance.
    L16,
    /// 16-bit luminance with alpha.
    La16,
    /// 16-bit red, green and blue.
    Rgb16,
    /// 16-bit red, green and blue with alpha.
    Rgba16,
    /// Red, green and blue as 32-bit floating-point numbers.
    RgbFloat,
    /// Red, green and blue with alpha as 32-bit floating-point numbers.
    RgbaFloat,
    /// A kind that is not known here.
    Other,
}

/// Whether the samples are integers of 8 or 16 bits. Only such samples can always be
/// read as 8-bit pixels.
pub open spec fn integer_samples(kind: ColorKind) -> bool {
    !(kind is RgbFloat) && !(kind is RgbaFloat) && !(kind is Other)
}

/// What the decoder reads from a file: how the samples are stored, and what the
/// image shows.
pub struct Decoded {
    pub color: ColorKind,
    pub raster: Raster,
}

/// What a decoded image shows: its width and height, and in `rows[y][x]` the pixel
/// that `get_pixel(x, y)` gives, which is the image's own pixel turned into 8-bit RGBA.
pub uninterp spec fn image_raster(image: image::DynamicImage) -> Raster;

/// How a decoded image stores its samples: what `DynamicImage::color` returns.
pub uninterp spec fn image_color(image: image::DynamicImage) -> ColorKind;

/// A decoded image as the decoder's result.
pub open spec fn decoded_of(image: image::DynamicImage) -> Decoded {
    Decoded { color: image_color(image), raster: image_raster(image) }
}

/// What a canvas holds: its width and height, and in `rows[y][x]` its pixel in
/// column `x` of row `y`. There are as many rows as the height and as many pixels in
/// each as the width.
pub uninterp spec fn canvas_raster(canvas: Canvas) -> Raster;

/// The image that `image::load_from_memory` reads from `bytes`, `None` where it refuses them.
pub uninterp spec fn decoded_image(bytes: Seq<u8>) -> Option<Decoded>;

/// The JPEG file that `image` writes for a canvas that holds `raster`, at a quality;
/// `None` where it refuses the canvas.
pub uninterp spec fn jpeg_encoded(raster: Raster, quality: u8) -> Option<Seq<u8>>;

/// `image::load_from_memory`: the image read shows what [`decoded_image`] names, and the
/// call fails exactly where that is `None`.
#[verifier::external_body]
pub(crate) fn load(bytes: &[u8]) -> (r: Result<image::DynamicImage, image::ImageError>)
    ensures
        match r {
            Ok(image) => decoded_image(bytes@) == Some(decoded_of(image)),
            Err(_) => decoded_image(bytes@) is None,
        },
{
    image::load_from_memory(bytes)
}

/// `DynamicImage::color`, each colour type of `image` under the name it has here.
#[verifier::external_body]
pub(crate) fn color_of(image: &image::DynamicImage) -> (kind: ColorKind)
    ensures
        kind == image_color(*image),
{
    match image.color() {
        image::ColorType::L8 => ColorKind::L8,
        image::ColorType::La8 => ColorKind::La8,
        image::ColorType::Rgb8 => ColorKind::Rgb8,
        image::ColorType::Rgba8 => ColorKind::Rgba8,
        image::ColorType::L16 => ColorKind::L16,
        image::ColorType::La16 => ColorKind::La16,
        image::ColorType::Rgb16 => ColorKind::Rgb16,
        image::ColorType::Rgba16 => ColorKind::Rgba16,
        image::ColorType::Rgb32F => ColorKind::RgbFloat,
        image::ColorType::Rgba32F => ColorKind::RgbaFloat,
        _ => ColorKind::Other,
    }
}

/// `DynamicImage::width`.
#[verifier::external_body]
pub(crate) fn width_of(image: &image::DynamicImage) -> (width: u32)
    ensures
        width == image_raster(*image).width,
{
    image.width()
}

/// `DynamicImage::height`.
#[verifier::external_body]
pub(crate) fn height_of(image: &image::DynamicImage) -> (height: u32)
    ensures
        height == image_raster(*image).height,
{
    image.height()
}

/// `ImageBuffer::new`: a canvas of the given size with every channel zero. It panics
/// where the bytes of a row, four a pixel, or those of all rows overflow `usize`,
/// which `requires` leaves out.
#[verifier::external_body]
pub(crate) fn blank_canvas(width: u32, height: u32) -> (canvas: Canvas)
    requires
        4 * width <= usize::MAX,
        4 * width * height <= usize::MAX,
    ensures
        canvas_raster(canvas) == Raster::blank(width as nat, height as nat),
{
    Canvas { pixels: image::ImageBuffer::new(width, height) }
}

/// `image::imageops::overlay`: the canvas keeps its size; each of its pixels that lies
/// under `image`, whose top left corner is put at (`x`, `y`), is blended with the pixel
/// of `image` over it, and every other pixel stays as it was. Blending leaves the
/// canvas's pixel under one without alpha, takes an opaque one as it is, and computes
/// [`blended`] for any other. Reading a floating-point sample that is no number as an
/// 8-bit pixel panics, so `requires` leaves images with such samples out.
#[verifier::external_body]
pub(crate) fn overlay_raw(canvas: &mut Canvas, image: &image::DynamicImage, x: i64, y: i64)
    requires
        integer_samples(image_color(*image)),
        0 <= x,
        0 <= y,
    ensures
        canvas_raster(*final(canvas)).wf(),
        canvas_raster(*final(canvas)).width == canvas_raster(*old(canvas)).width,
        canvas_raster(*final(canvas)).height == canvas_raster(*old(canvas)).height,
        forall|px: int, py: int|
            canvas_raster(*old(canvas)).holds(px, py) ==> #[trigger] canvas_raster(
                *final(canvas),
            ).rows[py][px] == (if covers(
                x as int,
                y as int,
                image_raster(*image).width,
                image_raster(*image).height,
                px,
                py,
            ) {
                if image_raster(*image).rows[py - y][px - x].alpha == 0 {
                    canvas_raster(*old(canvas)).rows[py][px]
                } else if image_raster(*image).rows[py - y][px - x].alpha == 255 {
                    image_raster(*image).rows[py - y][px - x]
                } else {
                    blended(
                        canvas_raster(*old(canvas)).rows[py][px],
                        image_raster(*image).rows[py - y][px - x],
                    )
                }
            } else {
                canvas_raster(*old(canvas)).rows[py][px]
            }),
{
    image::imageops::overlay(&mut canvas.pixels, image, x, y)
}

/// Lays `image` over the canvas, its top left corner at (`x`, `y`).
pub(crate) fn overlay(canvas: &mut Canvas, image: &image::DynamicImage, x: i64, y: i64)
    requires
        integer_samples(image_color(*image)),
        0 <= x,
        0 <= y,
    ensures
        canvas_raster(*final(canvas)) == overlaid(
            canvas_raster(*old(canvas)),
            image_raster(*image),
            x as int,
            y as int,
        ),
{
    overlay_raw(canvas, image, x, y);
    proof {
        let after = canvas_raster(*canvas);
        let expected = overlaid(
            canvas_raster(*old(canvas)),
            image_raster(*image),
            x as int,
            y as int,
        );
        assert(after.rows.len() == expected.rows.len());
        assert forall|py: int| 0 <= py < after.height implies after.rows[py]
            =~= expected.rows[py] by {
            assert(after.rows[py].len() == after.width);
            assert forall|px: int| 0 <= px < after.width implies after.rows[py][px]
                == expected.rows[py][px] by {
                assert(canvas_raster(*old(canvas)).holds(px, py));
            }
        }
        assert(after.rows =~= expected.rows);
        assert(after =~= expected);
    }
}

/// `DynamicImage::write_to` with `ImageOutputFormat::Jpeg`: the bytes written are the
/// file that [`jpeg_encoded`] names, and the call fails exactly where that is `None`.
#[verifier::external_body]
pub(crate) fn encode_jpeg(canvas: Canvas, quality: u8) -> (r: Result<Vec<u8>, image::ImageError>)
    ensures
        match r {
            Ok(bytes) => jpeg_encoded(canvas_raster(canvas), quality) == Some(bytes@),
            Err(_) => jpeg_encoded(canvas_raster(canvas), quality) is None,
        },
{
    let mut bytes: Vec<u8> = Vec::new();
    let written = image::DynamicImage::ImageRgba8(canvas.pixels).write_to(
        &mut std::io::Cursor::new(&mut bytes),
        image::ImageOutputFormat::Jpeg(quality),
    );
    written.map(|_| bytes)
}

} // verus!
