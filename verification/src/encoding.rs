use vstd::prelude::*;
use base64::Engine;
use image::{DynamicImage, ImageBuffer, ImageFormat, ImageOutputFormat};
use image::DynamicImage::{ImageLuma8, ImageLumaA8, ImageRgb8, ImageRgba8, ImageLuma16, ImageLumaA16, ImageRgb16, ImageRgba16};
use std::io::Cursor;
use crate::base64_text::{base64_standard, base64_decode, lemma_base64_round_trip};

verus! {

/// The channels of a pixel: luminance, luminance with alpha, RGB, or RGBA.
#[derive(Clone, Copy, Debug, PartialEq, Eq)]
pub enum Channels {
    Luma,
    LumaAlpha,
    Rgb,
    Rgba,
}

/// The number of samples of one pixel.
pub open spec fn channel_count(c: Channels) -> int {
    match c {
        Channels::Luma => 1,
        Channels::LumaAlpha => 2,
        Channels::Rgb => 3,
        Channels::Rgba => 4,
    }
}

/// The number of samples of one pixel.
pub fn samples_per_pixel(c: Channels) -> (n: u8)
    ensures
        n as int == channel_count(c),
{
    match c {
        Channels::Luma => 1,
        Channels::LumaAlpha => 2,
        Channels::Rgb => 3,
        Channels::Rgba => 4,
    }
}

/// The samples of an image, row by row and pixel by pixel: 8-bit or 16-bit.
#[derive(Debug, PartialEq, Eq)]
pub enum Samples {
    Eight(Vec<u8>),
    Sixteen(Vec<u16>),
}

/// The samples of an image, as values.
pub enum SamplesView {
    Eight(Seq<u8>),
    Sixteen(Seq<u16>),
}

pub open spec fn samples_view(s: Samples) -> SamplesView {
    match s {
        Samples::Eight(v) => SamplesView::Eight(v@),
        Samples::Sixteen(v) => SamplesView::Sixteen(v@),
    }
}

pub open spec fn sample_count(s: SamplesView) -> int {
    match s {
        SamplesView::Eight(v) => v.len() as int,
        SamplesView::Sixteen(v) => v.len() as int,
    }
}

/// The number of bytes the samples take in memory.
pub open spec fn sample_bytes(s: SamplesView) -> int {
    match s {
        SamplesView::Eight(v) => v.len() as int,
        SamplesView::Sixteen(v) => 2 * (v.len() as int),
    }
}

/// An image: its dimensions, the channels of its pixels, and its samples, one
/// per channel of each pixel, row by row.  These are the images a PNG file can
/// hold with 8 or 16 bits per sample.
pub struct Bitmap {
    width: u32,
    height: u32,
    channels: Channels,
    samples: Samples,
}

/// What a `Bitmap` holds.
pub struct BitmapView {
    pub width: u32,
    pub height: u32,
    pub channels: Channels,
    pub samples: SamplesView,
}

/// Whether a bitmap's samples are those of its dimensions and channels.
pub open spec fn well_sized(v: BitmapView) -> bool {
    sample_count(v.samples) == v.width * v.height * channel_count(v.channels)
}

impl View for Bitmap {
    type V = BitmapView;

    closed spec fn view(&self) -> BitmapView {
        BitmapView { width: self.width, height: self.height, channels: self.channels, samples: samples_view(self.samples) }
    }
}

fn sample_total(width: u32, height: u32, channels: Channels) -> (n: u128)
    ensures
        n == width * height * channel_count(channels),
{
    let w: u128 = width as u128;
    let h: u128 = height as u128;
    let c: u128 = samples_per_pixel(channels) as u128;
    assert(w * h <= 0xffff_ffff_u128 * 0xffff_ffff_u128) by (nonlinear_arith)
        requires
            w <= 0xffff_ffff_u128,
            h <= 0xffff_ffff_u128,
    ;
    assert(w * h * c <= 0xffff_ffff_u128 * 0xffff_ffff_u128 * 4) by (nonlinear_arith)
        requires
            w * h <= 0xffff_ffff_u128 * 0xffff_ffff_u128,
            c <= 4,
    ;
    w * h * c
}

impl Bitmap {
    #[verifier::type_invariant]
    spec fn well_formed(self) -> bool {
        well_sized(self@)
    }

    /// A bitmap from its dimensions, its channels and its samples; `None` when
    /// the number of samples is not that of the dimensions and channels.
    pub fn from_samples(width: u32, height: u32, channels: Channels, samples: Samples) -> (b: Option<Bitmap>)
        ensures
            b is Some <==> well_sized(BitmapView { width, height, channels, samples: samples_view(samples) }),
            b matches Some(b) ==> b@ == (BitmapView { width, height, channels, samples: samples_view(samples) }),
    {
        let total = sample_total(width, height, channels);
        let count = match &samples {
            Samples::Eight(v) => v.len(),
            Samples::Sixteen(v) => v.len(),
        };
        if (count as u128) == total {
            Some(Bitmap { width, height, channels, samples })
        } else {
            None
        }
    }

    pub fn width(&self) -> (w: u32)
        ensures
            w == self@.width,
    {
        self.width
    }

    pub fn height(&self) -> (h: u32)
        ensures
            h == self@.height,
    {
        self.height
    }

    pub fn channels(&self) -> (c: Channels)
        ensures
            c == self@.channels,
    {
        self.channels
    }

    pub fn samples(&self) -> (s: &Samples)
        ensures
            samples_view(*s) == self@.samples,
            well_sized(self@),
    {
        proof {
            use_type_invariant(self);
        }
        &self.samples
    }
}

/// The formats an image file is read in.
#[derive(Clone, Copy, Debug, PartialEq, Eq)]
pub enum ImageFileFormat {
    Png,
}

/// The most bytes of samples the `image` crate decodes (its default limit).
pub open spec fn decode_limit() -> int {
    536870912
}

/// The image that the `image` crate decodes from a file's bytes in a format,
/// or `None` where it cannot (or where the image has 32-bit float samples).
pub uninterp spec fn decoded_image(bytes: Seq<u8>, format: ImageFileFormat) -> Option<BitmapView>;

/// The PNG file that the `image` crate writes for an image of 8-bit samples.
pub uninterp spec fn png_encoding_8(width: u32, height: u32, channels: Channels, samples: Seq<u8>) -> Option<Seq<u8>>;

/// The PNG file that the `image` crate writes for an image of 16-bit samples.
pub uninterp spec fn png_encoding_16(width: u32, height: u32, channels: Channels, samples: Seq<u16>) -> Option<Seq<u8>>;

/// The PNG file of an image.
pub open spec fn png_encoding(v: BitmapView) -> Option<Seq<u8>> {
    match v.samples {
        SamplesView::Eight(s) => png_encoding_8(v.width, v.height, v.channels, s),
        SamplesView::Sixteen(s) => png_encoding_16(v.width, v.height, v.channels, s),
    }
}

/// Whether an image has pixels.
pub open spec fn has_pixels(v: BitmapView) -> bool {
    v.width > 0 && v.height > 0
}

/// The samples of a decoded image, one variant for each kind of image the
/// decoder gives back with 8- or 16-bit samples.
pub enum DecodedPixels {
    Luma8(Vec<u8>),
    LumaA8(Vec<u8>),
    Rgb8(Vec<u8>),
    Rgba8(Vec<u8>),
    Luma16(Vec<u16>),
    LumaA16(Vec<u16>),
    Rgb16(Vec<u16>),
    Rgba16(Vec<u16>),
}

/// The channels and samples of decoded pixels.
pub open spec fn decoded_parts(p: DecodedPixels) -> (Channels, SamplesView) {
    match p {
        DecodedPixels::Luma8(v) => (Channels::Luma, SamplesView::Eight(v@)),
        DecodedPixels::LumaA8(v) => (Channels::LumaAlpha, SamplesView::Eight(v@)),
        DecodedPixels::Rgb8(v) => (Channels::Rgb, SamplesView::Eight(v@)),
        DecodedPixels::Rgba8(v) => (Channels::Rgba, SamplesView::Eight(v@)),
        DecodedPixels::Luma16(v) => (Channels::Luma, SamplesView::Sixteen(v@)),
        DecodedPixels::LumaA16(v) => (Channels::LumaAlpha, SamplesView::Sixteen(v@)),
        DecodedPixels::Rgb16(v) => (Channels::Rgb, SamplesView::Sixteen(v@)),
        DecodedPixels::Rgba16(v) => (Channels::Rgba, SamplesView::Sixteen(v@)),
    }
}

/// A decoded image, as a bitmap view.
pub open spec fn decoded_view(d: (u32, u32, DecodedPixels)) -> BitmapView {
    BitmapView { width: d.0, height: d.1, channels: decoded_parts(d.2).0, samples: decoded_parts(d.2).1 }
}

/// image: `load_from_memory_with_format`, then the decoded `DynamicImage` told
/// apart by variant into its dimensions and samples.  Claimed: the result is
/// `decoded_image` of the bytes and format.  Images with 32-bit float samples
/// give `None`.
#[verifier::external_body]
fn decode_image(bytes: &[u8], format: ImageFileFormat) -> (img: Option<(u32, u32, DecodedPixels)>)
    ensures
        img is Some <==> decoded_image(bytes@, format) is Some,
        img matches Some(d) ==> decoded_image(bytes@, format) == Some(decoded_view(d)),
{
    let img = image::load_from_memory_with_format(bytes, match format { ImageFileFormat::Png => ImageFormat::Png }).ok()?;
    let size = (img.width(), img.height());
    let pixels = match img {
        ImageLuma8(b) => DecodedPixels::Luma8(b.into_raw()),
        ImageLumaA8(b) => DecodedPixels::LumaA8(b.into_raw()),
        ImageRgb8(b) => DecodedPixels::Rgb8(b.into_raw()),
        ImageRgba8(b) => DecodedPixels::Rgba8(b.into_raw()),
        ImageLuma16(b) => DecodedPixels::Luma16(b.into_raw()),
        ImageLumaA16(b) => DecodedPixels::LumaA16(b.into_raw()),
        ImageRgb16(b) => DecodedPixels::Rgb16(b.into_raw()),
        ImageRgba16(b) => DecodedPixels::Rgba16(b.into_raw()),
        _ => return None,
    };
    Some((size.0, size.1, pixels))
}

/// The image decoded from a file's bytes in a format; `None` where the file
/// does not decode, or decodes to samples that do not fit its size.
pub fn decode_bitmap(file: &[u8], format: ImageFileFormat) -> (img: Option<Bitmap>)
    ensures
        img is Some <==> (decoded_image(file@, format) matches Some(v) && well_sized(v)),
        img matches Some(b) ==> decoded_image(file@, format) == Some(b@),
{
    match decode_image(file, format) {
        None => None,
        Some((width, height, pixels)) => {
            let (channels, samples) = match pixels {
                DecodedPixels::Luma8(v) => (Channels::Luma, Samples::Eight(v)),
                DecodedPixels::LumaA8(v) => (Channels::LumaAlpha, Samples::Eight(v)),
                DecodedPixels::Rgb8(v) => (Channels::Rgb, Samples::Eight(v)),
                DecodedPixels::Rgba8(v) => (Channels::Rgba, Samples::Eight(v)),
                DecodedPixels::Luma16(v) => (Channels::Luma, Samples::Sixteen(v)),
                DecodedPixels::LumaA16(v) => (Channels::LumaAlpha, Samples::Sixteen(v)),
                DecodedPixels::Rgb16(v) => (Channels::Rgb, Samples::Sixteen(v)),
                DecodedPixels::Rgba16(v) => (Channels::Rgba, Samples::Sixteen(v)),
            };
            Bitmap::from_samples(width, height, channels, samples)
        },
    }
}

/// image: the 8-bit `ImageBuffer` of the channels (`ImageBuffer::from_raw`) in
/// its `DynamicImage` variant, then `DynamicImage::write_to` with
/// `ImageOutputFormat::Png` into a byte buffer.  Claimed: the bytes are
/// `png_encoding_8` of the image; the encoder refuses exactly the images with
/// no columns or no rows (the PNG writer's `ZeroWidth` / `ZeroHeight`; every
/// other step writes into a `Vec` and cannot fail for these colour types); as
/// a `Vec`, the output holds at most `isize::MAX` bytes; and, within the
/// decoder's default allocation limit, decoding the PNG gives the image back.
#[verifier::external_body]
fn encode_png_8(width: u32, height: u32, channels: Channels, samples: &[u8]) -> (png: Option<Vec<u8>>)
    requires
        samples@.len() == width * height * channel_count(channels),
    ensures
        png is Some <==> png_encoding_8(width, height, channels, samples@) is Some,
        png matches Some(p) ==> png_encoding_8(width, height, channels, samples@) == Some(p@),
        png is None <==> (width == 0 || height == 0),
        png matches Some(p) ==> p@.len() <= isize::MAX,
        png matches Some(p) ==> (samples@.len() <= decode_limit() ==> decoded_image(p@, ImageFileFormat::Png)
            == Some(BitmapView { width, height, channels, samples: SamplesView::Eight(samples@) })),
{
    let v = samples.to_vec();
    let img = match channels {
        Channels::Luma => DynamicImage::ImageLuma8(ImageBuffer::from_raw(width, height, v)?),
        Channels::LumaAlpha => DynamicImage::ImageLumaA8(ImageBuffer::from_raw(width, height, v)?),
        Channels::Rgb => DynamicImage::ImageRgb8(ImageBuffer::from_raw(width, height, v)?),
        Channels::Rgba => DynamicImage::ImageRgba8(ImageBuffer::from_raw(width, height, v)?),
    };
    let mut out: Vec<u8> = Vec::new();
    img.write_to(&mut Cursor::new(&mut out), ImageOutputFormat::Png).ok()?;
    Some(out)
}

/// image: the 16-bit `ImageBuffer` of the channels (`ImageBuffer::from_raw`) in
/// its `DynamicImage` variant, then `DynamicImage::write_to` with
/// `ImageOutputFormat::Png` into a byte buffer.  The samples are values, so the
/// file does not depend on the machine's byte order (PNG stores them
/// big-endian).  Claimed: as for `encode_png_8`, with `png_encoding_16`; the
/// decoder's limit counts two bytes a sample.
#[verifier::external_body]
fn encode_png_16(width: u32, height: u32, channels: Channels, samples: &[u16]) -> (png: Option<Vec<u8>>)
    requires
        samples@.len() == width * height * channel_count(channels),
    ensures
        png is Some <==> png_encoding_16(width, height, channels, samples@) is Some,
        png matches Some(p) ==> png_encoding_16(width, height, channels, samples@) == Some(p@),
        png is None <==> (width == 0 || height == 0),
        png matches Some(p) ==> p@.len() <= isize::MAX,
        png matches Some(p) ==> (2 * samples@.len() <= decode_limit() ==> decoded_image(p@, ImageFileFormat::Png)
            == Some(BitmapView { width, height, channels, samples: SamplesView::Sixteen(samples@) })),
{
    let v = samples.to_vec();
    let img = match channels {
        Channels::Luma => DynamicImage::ImageLuma16(ImageBuffer::from_raw(width, height, v)?),
        Channels::LumaAlpha => DynamicImage::ImageLumaA16(ImageBuffer::from_raw(width, height, v)?),
        Channels::Rgb => DynamicImage::ImageRgb16(ImageBuffer::from_raw(width, height, v)?),
        Channels::Rgba => DynamicImage::ImageRgba16(ImageBuffer::from_raw(width, height, v)?),
    };
    let mut out: Vec<u8> = Vec::new();
    img.write_to(&mut Cursor::new(&mut out), ImageOutputFormat::Png).ok()?;
    Some(out)
}

/// The PNG file of an image; `None` exactly when it has no columns or no rows
/// (the PNG writer refuses those).
pub fn png_file(img: &Bitmap) -> (png: Option<Vec<u8>>)
    ensures
        png is Some <==> has_pixels(img@),
        png is Some <==> png_encoding(img@) is Some,
        png matches Some(p) ==> png_encoding(img@) == Some(p@) && p@.len() <= isize::MAX,
        png matches Some(p) ==> (sample_bytes(img@.samples) <= decode_limit()
            ==> decoded_image(p@, ImageFileFormat::Png) == Some(img@)),
{
    let w = img.width();
    let h = img.height();
    let c = img.channels();
    match img.samples() {
        Samples::Eight(v) => encode_png_8(w, h, c, v.as_slice()),
        Samples::Sixteen(v) => encode_png_16(w, h, c, v.as_slice()),
    }
}

/// base64: `general_purpose::STANDARD.encode`.  Claimed: the text is the
/// standard, padded Base64 of the bytes (`base64_standard`).  The encoder panics when the length of the
/// text overflows `usize`; `requires` leaves those inputs out.
#[verifier::external_body]
fn encode_base64(bytes: &[u8]) -> (text: String)
    requires
        (bytes@.len() + 2) / 3 * 4 <= usize::MAX,
    ensures
        text@ == base64_standard(bytes@),
{
    base64::engine::general_purpose::STANDARD.encode(bytes)
}

/// The prefix of a PNG data URL.
pub open spec fn png_data_url_prefix() -> Seq<char> {
    "data:image/png;base64,"@
}

/// The data URL of a PNG file.
pub open spec fn png_data_url_text(png: Seq<u8>) -> Seq<char> {
    png_data_url_prefix() + base64_standard(png)
}

/// The data URL of a PNG file given in Base64: the prefix
/// `data:image/png;base64,` and then the Base64 text.
pub fn data_url_of_base64(encoded: &str) -> (url: String)
    ensures
        url@ == png_data_url_prefix() + encoded@,
{
    let url = "data:image/png;base64,".to_owned();
    url.concat(encoded)
}

/// The data URL of the PNG file `png`: `data:image/png;base64,` followed by the
/// file in standard Base64.
pub fn png_data_url(png: &[u8]) -> (url: String)
    requires
        png@.len() <= isize::MAX,
    ensures
        url@ == png_data_url_text(png@),
{
    assert((png@.len() + 2) / 3 * 4 <= usize::MAX) by (nonlinear_arith)
        requires
            png@.len() <= isize::MAX,
            isize::MAX < 0x8000_0000_0000_0000,
            usize::MAX == 2 * isize::MAX + 1,
            isize::MAX >= 3,
    ;
    let encoded = encode_base64(png);
    data_url_of_base64(encoded.as_str())
}

/// The PNG data URL of an image, as sent to the vision model.  The image has
/// pixels (the PNG writer refuses an image without, and the call fails).
pub fn image_to_base64(img: &Bitmap) -> (url: String)
    requires
        has_pixels(img@),
    ensures
        png_encoding(img@) is Some,
        url@ == png_data_url_text(png_encoding(img@)->0),
        url@.subrange(0, 22) == png_data_url_prefix(),
        base64_decode(url@.subrange(22, url@.len() as int)) == png_encoding(img@)->0,
        sample_bytes(img@.samples) <= decode_limit() ==> decoded_image(
            base64_decode(url@.subrange(22, url@.len() as int)),
            ImageFileFormat::Png,
        ) == Some(img@),
{
    match png_file(img) {
        Some(png) => {
            proof {
                lemma_data_url_decodes_to_png(png@);
            }
            png_data_url(png.as_slice())
        },
        None => String::new(),
    }
}

/// Why a screenshot file gives no data URL.
#[derive(Debug, PartialEq, Eq)]
pub enum DataUrlError {
    /// The file does not decode as an image of 8- or 16-bit samples (of its size).
    Undecodable,
    /// The image has no columns or no rows.
    NoPixels,
}

/// The PNG data URL of the image in a screenshot file: the file is decoded in
/// the given format and its image written as PNG in Base64.
pub fn screenshot_data_url(file: &[u8], format: ImageFileFormat) -> (url: Result<String, DataUrlError>)
    ensures
        !(decoded_image(file@, format) matches Some(v) && well_sized(v))
            ==> url == Err::<String, DataUrlError>(DataUrlError::Undecodable),
        decoded_image(file@, format) matches Some(v) ==> (well_sized(v) && !has_pixels(v)
            ==> url == Err::<String, DataUrlError>(DataUrlError::NoPixels)),
        decoded_image(file@, format) matches Some(v) ==> (well_sized(v) && has_pixels(v) ==> (url matches Ok(u)
            && png_encoding(v) is Some && u@ == png_data_url_text(png_encoding(v)->0))),
{
    match decode_bitmap(file, format) {
        None => Err(DataUrlError::Undecodable),
        Some(img) => {
            if img.width() > 0 && img.height() > 0 {
                Ok(image_to_base64(&img))
            } else {
                Err(DataUrlError::NoPixels)
            }
        },
    }
}

/// The text after the prefix of a PNG data URL decodes back to the PNG file.
pub proof fn lemma_data_url_decodes_to_png(png: Seq<u8>)
    ensures
        png_data_url_text(png).subrange(0, 22) == png_data_url_prefix(),
        base64_decode(png_data_url_text(png).subrange(22, png_data_url_text(png).len() as int)) == png,
{
    reveal_strlit("data:image/png;base64,");
    let t = png_data_url_text(png);
    assert(t.subrange(0, 22) =~= png_data_url_prefix());
    assert(t.subrange(22, t.len() as int) =~= base64_standard(png));
    lemma_base64_round_trip(png);
}

} // verus!
