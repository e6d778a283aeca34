use vstd::prelude::*;

verus! {

/// The image that the `image` crate decodes from the bytes of a file named
/// `name`, as its width, its height and its pixels converted to 8-bit RGBA;
/// `None` when the crate cannot decode it.
pub uninterp spec fn decoded_rgba8(name: Seq<char>, bytes: Seq<u8>) -> Option<(u32, u32, Seq<u8>)>;

/// Decodes the bytes of an image file with the `image` crate: the format
/// comes from the extension of `name` (`ImageFormat::from_path`), the bytes
/// are decoded in that format (`load_from_memory_with_format`), and the
/// image is converted to 8-bit RGBA (`into_rgba8`, `dimensions`, `into_raw`).
/// What is claimed: the result is `decoded_rgba8` of the name and the bytes,
/// a function of those alone, and the RGBA buffer holds exactly four bytes
/// per pixel (the crate sizes it from the dimensions). On failure the
/// crate's error message is handed back; nothing is claimed of its text.
#[verifier::external_body]
fn decode_rgba8(name: &str, bytes: &[u8]) -> (r: Result<(u32, u32, Vec<u8>), String>)
    ensures
        match r {
            Ok((w, h, px)) => {
                &&& decoded_rgba8(name@, bytes@) == Some((w, h, px@))
                &&& px.len() == 4 * (w as int) * (h as int)
            },
            Err(_) => decoded_rgba8(name@, bytes@) is None,
        },
{
    let format = match image::ImageFormat::from_path(name) {
        Ok(f) => f,
        Err(e) => return Err(e.to_string()),
    };
    match image::load_from_memory_with_format(bytes, format) {
        Ok(img) => {
            let rgba = img.into_rgba8();
            let (w, h) = rgba.dimensions();
            Ok((w, h, rgba.into_raw()))
        },
        Err(e) => Err(e.to_string()),
    }
}

/// Why an image file gives no texture.
#[derive(Clone, Debug, PartialEq, Eq)]
pub enum TextureLoadError {
    /// The `image` crate could not decode the file (an unknown extension, or
    /// bytes that are not an image of that format); its message.
    Undecodable(String),
    /// The image has no pixels, and an empty texture cannot be uploaded.
    EmptyImage,
}

/// The pixels of a 2D texture to upload to the GPU: rows of RGBA pixels,
/// four bytes each, `width * height` of them.
pub struct TextureData {
    width: u32,
    height: u32,
    rgba: Vec<u8>,
}

impl TextureData {
    #[verifier::type_invariant]
    spec fn well_formed(self) -> bool {
        &&& self.width > 0
        &&& self.height > 0
        &&& self.rgba.len() == 4 * (self.width as int) * (self.height as int)
    }

    pub closed spec fn spec_width(self) -> u32 {
        self.width
    }

    pub closed spec fn spec_height(self) -> u32 {
        self.height
    }

    pub closed spec fn spec_rgba(self) -> Seq<u8> {
        self.rgba@
    }

    /// The texture of decoded RGBA pixels. An empty image, or bytes that do
    /// not make up exactly `width * height` pixels, cannot be uploaded.
    pub fn from_rgba8(width: u32, height: u32, rgba: Vec<u8>) -> (t: TextureData)
        requires
            width > 0,
            height > 0,
            rgba.len() == 4 * (width as int) * (height as int),
        ensures
            t.spec_width() == width,
            t.spec_height() == height,
            t.spec_rgba() == rgba@,
    {
        TextureData { width, height, rgba }
    }

    /// The texture for objects without one of their own: a single opaque
    /// white pixel, which leaves the vertex colours as they are.
    pub fn white_fallback() -> (t: TextureData)
        ensures
            t.spec_width() == 1,
            t.spec_height() == 1,
            t.spec_rgba() == seq![255u8, 255u8, 255u8, 255u8],
    {
        let rgba: Vec<u8> = vec![255, 255, 255, 255];
        assert(rgba@ == seq![255u8, 255u8, 255u8, 255u8]);
        TextureData { width: 1, height: 1, rgba }
    }

    /// The texture in an image file: `name` is the file's path (its
    /// extension tells the format, as for `image::open`) and `bytes` its
    /// contents. Every image that the `image` crate decodes to a non-empty
    /// RGBA image gives its texture; the others give the reason why not.
    pub fn from_file_bytes(name: &str, bytes: &[u8]) -> (r: Result<TextureData, TextureLoadError>)
        ensures
            decoded_rgba8(name@, bytes@) matches Some((w, h, px)) ==> px.len() == 4 * (w as int)
                * (h as int),
            r is Ok <==> (decoded_rgba8(name@, bytes@) matches Some((w, h, px)) && w > 0 && h > 0),
            r matches Ok(t) ==> decoded_rgba8(name@, bytes@) == Some(
                (t.spec_width(), t.spec_height(), t.spec_rgba()),
            ),
            r matches Err(TextureLoadError::Undecodable(_)) <==> decoded_rgba8(name@, bytes@) is None,
            r matches Err(TextureLoadError::EmptyImage) <==> (decoded_rgba8(name@, bytes@) matches Some(
                (w, h, px),
            ) && (w == 0 || h == 0)),
    {
        match decode_rgba8(name, bytes) {
            Ok((w, h, px)) => {
                if w == 0 || h == 0 {
                    Err(TextureLoadError::EmptyImage)
                } else {
                    Ok(TextureData::from_rgba8(w, h, px))
                }
            },
            Err(message) => Err(TextureLoadError::Undecodable(message)),
        }
    }

    pub fn width(&self) -> (w: u32)
        ensures
            w == self.spec_width(),
            w > 0,
    {
        proof {
            use_type_invariant(self);
        }
        self.width
    }

    pub fn height(&self) -> (h: u32)
        ensures
            h == self.spec_height(),
            h > 0,
    {
        proof {
            use_type_invariant(self);
        }
        self.height
    }

    /// The pixel bytes, handed over for the upload.
    pub fn into_rgba(self) -> (rgba: Vec<u8>)
        ensures
            rgba@ == self.spec_rgba(),
            rgba.len() == 4 * (self.spec_width() as int) * (self.spec_height() as int),
    {
        proof {
            use_type_invariant(&self);
        }
        self.rgba
    }
}

} // verus!
