//! Decoding of the images embedded in a media (such as a cover) into the layout the
//! drawing surfaces need: 4 bytes per pixel, blue, green, red, then one unused byte.
use vstd::prelude::*;

verus! {

/// What decoding `input` with the `image` crate gives: the error's description, or
/// the image when it holds 8-bit RGB pixels (width, height, then the red, green and
/// blue bytes of each pixel, row after row), or nothing when it holds another kind
/// of pixels.
pub uninterp spec fn rgb8_decoding(input: Seq<u8>) -> Result<Option<(u32, u32, Seq<u8>)>, Seq<char>>;

/// Decodes `input` with `image::load_from_memory`, then keeps the pixels when
/// `DynamicImage::as_rgb8` finds 8-bit RGB ones.
///
/// The contract ties the result to `rgb8_decoding` of the input and says nothing
/// more: the decoding itself is the `image` crate's.
#[verifier::external_body]
fn decode_rgb8(input: &[u8]) -> (r: Result<Option<(u32, u32, Vec<u8>)>, String>)
    ensures
        rgb8_decoding(input@) == match r {
            Ok(Some((width, height, pixels))) => Ok(Some((width, height, pixels@))),
            Ok(None) => Ok(None),
            Err(error) => Err(error@),
        },
{
    match image::load_from_memory(input) {
        Ok(image) => match image.as_rgb8() {
            Some(rgb) => Ok(Some((rgb.width(), rgb.height(), rgb.as_raw().clone()))),
            None => Ok(None),
        },
        Err(err) => Err(format!("{:?}", err)),
    }
}

/// An image laid out for a drawing surface.
#[derive(Debug)]
pub struct AlignedImage {
    pub width: i32,
    pub height: i32,
    /// The number of bytes of a row.
    pub stride: i32,
    /// Blue, green, red and an unused byte for each pixel, row after row.
    pub data: Vec<u8>,
}

/// The RGB pixels `rgb` laid out as blue, green, red, then a zero byte.
pub open spec fn bgrx(rgb: Seq<u8>) -> Seq<u8> {
    Seq::new(
        (rgb.len() / 3 * 4) as nat,
        |i: int|
            {
                let pixel = i / 4;
                let channel = i % 4;
                if channel == 0 {
                    rgb[3 * pixel + 2]
                } else if channel == 1 {
                    rgb[3 * pixel + 1]
                } else if channel == 2 {
                    rgb[3 * pixel]
                } else {
                    0u8
                }
            },
    )
}

/// Each RGB pixel of `rgb` becomes four bytes, in the same order: its blue, green and
/// red bytes, then a zero byte.
pub proof fn lemma_bgrx_pixel_layout(rgb: Seq<u8>)
    requires
        rgb.len() % 3 == 0,
    ensures
        bgrx(rgb).len() == rgb.len() / 3 * 4,
        forall|p: int|
            0 <= p < rgb.len() / 3 ==> {
                &&& #[trigger] bgrx(rgb)[4 * p] == rgb[3 * p + 2]
                &&& bgrx(rgb)[4 * p + 1] == rgb[3 * p + 1]
                &&& bgrx(rgb)[4 * p + 2] == rgb[3 * p]
                &&& bgrx(rgb)[4 * p + 3] == 0
            },
{
    assert forall|p: int| 0 <= p < rgb.len() / 3 implies {
        &&& #[trigger] bgrx(rgb)[4 * p] == rgb[3 * p + 2]
        &&& bgrx(rgb)[4 * p + 1] == rgb[3 * p + 1]
        &&& bgrx(rgb)[4 * p + 2] == rgb[3 * p]
        &&& bgrx(rgb)[4 * p + 3] == 0
    } by {
        assert((4 * p) / 4 == p && (4 * p) % 4 == 0);
        assert((4 * p + 1) / 4 == p && (4 * p + 1) % 4 == 1);
        assert((4 * p + 2) / 4 == p && (4 * p + 2) % 4 == 2);
        assert((4 * p + 3) / 4 == p && (4 * p + 3) % 4 == 3);
        assert(4 * p + 3 < rgb.len() / 3 * 4);
    }
}

/// The dimensions of an image of `width` x `height` RGB pixels held in `pixels`
/// bytes fit a drawing surface.
pub open spec fn fits_surface(width: u32, height: u32, pixels: nat) -> bool {
    &&& pixels == width * height * 3
    &&& width * 4 <= i32::MAX
    &&& height <= i32::MAX
    &&& height * (width * 4) <= i32::MAX
}

/// The message when the image holds no 8-bit RGB pixels.
pub open spec fn conversion_error() -> Seq<char> {
    "Error converting image to raw RGB"@
}

/// Lays the RGB pixels `rgb` out as blue, green, red, then a zero byte.
pub fn rgb_to_bgrx(rgb: &[u8]) -> (r: Vec<u8>)
    requires
        rgb@.len() % 3 == 0,
        rgb@.len() / 3 * 4 <= usize::MAX,
    ensures
        r@ == bgrx(rgb@),
{
    let pixels = rgb.len() / 3;
    let mut aligned: Vec<u8> = Vec::with_capacity(pixels * 4);
    let mut p: usize = 0;
    while p < pixels
        invariant
            pixels == rgb@.len() / 3,
            rgb@.len() % 3 == 0,
            pixels * 4 <= usize::MAX,
            p <= pixels,
            aligned@.len() == 4 * p,
            forall|i: int| 0 <= i < 4 * p ==> aligned@[i] == bgrx(rgb@)[i],
        decreases pixels - p,
    {
        assert(3 * p + 2 < rgb@.len());
        aligned.push(rgb[3 * p + 2]);
        aligned.push(rgb[3 * p + 1]);
        aligned.push(rgb[3 * p]);
        aligned.push(0);
        proof {
            assert forall|i: int| 4 * p <= i < 4 * p + 4 implies aligned@[i] == bgrx(rgb@)[i] by {
                assert(i / 4 == p);
            }
        }
        p = p + 1;
    }
    assert(aligned@ =~= bgrx(rgb@));
    aligned
}

/// The image which the `decoded` result of `rgb8_decoding` describes, laid out for a
/// drawing surface, or why there is none.
pub fn surface_data_from_decoding(decoded: Result<Option<(u32, u32, Vec<u8>)>, String>) -> (r: Result<
    AlignedImage,
    String,
>)
    ensures
        match decoded {
            Err(error) => r matches Err(msg) && msg@ == "Error loading image: "@ + error@,
            Ok(None) => r matches Err(msg) && msg@ == conversion_error(),
            Ok(Some((width, height, pixels))) => if fits_surface(width, height, pixels@.len()) {
                r matches Ok(image) && image.width == width && image.height == height
                    && image.stride == width * 4 && image.data@ == bgrx(pixels@)
            } else {
                r matches Err(msg) && msg@ == conversion_error()
            },
        },
{
    match decoded {
        Err(error) => {
            let msg = "Error loading image: ".to_owned().concat(error.as_str());
            Err(msg)
        },
        Ok(None) => Err("Error converting image to raw RGB".to_owned()),
        Ok(Some((width, height, pixels))) => {
            let w = width as u64;
            let h = height as u64;
            let fits = if w * 4 <= 0x7fff_ffff && h <= 0x7fff_ffff {
                assert(h * (w * 4) <= 0x7fff_ffff * 0x7fff_ffff) by (nonlinear_arith)
                    requires
                        w * 4 <= 0x7fff_ffff,
                        h <= 0x7fff_ffff,
                ;
                if h * (w * 4) <= 0x7fff_ffff {
                    assert(w * h * 3 <= h * (w * 4)) by (nonlinear_arith);
                    (pixels.len() as u64) == w * h * 3
                } else {
                    false
                }
            } else {
                false
            };
            if fits {
                let data = rgb_to_bgrx(pixels.as_slice());
                Ok(
                    AlignedImage {
                        width: width as i32,
                        height: height as i32,
                        stride: (width * 4) as i32,
                        data,
                    },
                )
            } else {
                Err("Error converting image to raw RGB".to_owned())
            }
        },
    }
}

/// Decodes the image in `input` and lays it out for a drawing surface.
pub struct ImageSurface {}

impl ImageSurface {
    /// Decodes the image in `input`, whatever its format, and lays it out for a
    /// drawing surface; or tells why it could not.
    pub fn create_from_uknown(input: &[u8]) -> (r: Result<AlignedImage, String>)
        ensures
            match rgb8_decoding(input@) {
                Err(error) => r matches Err(msg) && msg@ == "Error loading image: "@ + error,
                Ok(None) => r matches Err(msg) && msg@ == conversion_error(),
                Ok(Some((width, height, pixels))) => if fits_surface(width, height, pixels.len()) {
                    r matches Ok(image) && image.width == width && image.height == height
                        && image.stride == width * 4 && image.data@ == bgrx(pixels)
                } else {
                    r matches Err(msg) && msg@ == conversion_error()
                },
            },
    {
        let decoded = decode_rgb8(input);
        surface_data_from_decoding(decoded)
    }
}

} // verus!
