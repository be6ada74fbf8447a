//! What a clipboard holds once read: text or a PNG image, the spool file each
//! kind is kept in, and the choice between the kinds a clipboard offers.
use vstd::prelude::*;
use vstd::utf8::encode_utf8;

use crate::text::owned;

verus! {

/// The content of a clipboard, as sent or served.
#[derive(Debug)]
pub enum Payload {
    Text(String),
    Png(Vec<u8>),
}

impl Payload {
    /// The bytes that travel: the UTF-8 encoding of text, or the PNG file.
    pub open spec fn spec_content(&self) -> Seq<u8> {
        match self {
            Payload::Text(s) => encode_utf8(s@),
            Payload::Png(b) => b@,
        }
    }

    pub open spec fn spec_kind(&self) -> Seq<char> {
        match self {
            Payload::Text(_) => "text"@,
            Payload::Png(_) => "image"@,
        }
    }

    /// The spool file this kind is stored in.
    pub open spec fn spec_keep_file(&self) -> Seq<char> {
        match self {
            Payload::Text(_) => "clip.txt"@,
            Payload::Png(_) => "clip.png"@,
        }
    }

    /// The spool file of the other kind, removed when this kind is stored.
    pub open spec fn spec_drop_file(&self) -> Seq<char> {
        match self {
            Payload::Text(_) => "clip.png"@,
            Payload::Png(_) => "clip.txt"@,
        }
    }

    pub open spec fn spec_kind_mime(&self) -> Seq<char> {
        match self {
            Payload::Text(_) => "text/plain"@,
            Payload::Png(_) => "image/png"@,
        }
    }

    /// The bytes that travel.
    pub fn bytes(&self) -> (b: &[u8])
        ensures
            b@ == self.spec_content(),
    {
        match self {
            Payload::Text(s) => s.as_str().as_bytes(),
            Payload::Png(b) => b.as_slice(),
        }
    }

    /// `"text"` or `"image"`.
    pub fn kind(&self) -> (s: &'static str)
        ensures
            s@ == self.spec_kind(),
    {
        match self {
            Payload::Text(_) => "text",
            Payload::Png(_) => "image",
        }
    }

    /// The spool file that holds this kind.
    pub fn keep_file(&self) -> (s: &'static str)
        ensures
            s@ == self.spec_keep_file(),
    {
        match self {
            Payload::Text(_) => "clip.txt",
            Payload::Png(_) => "clip.png",
        }
    }

    /// The spool file of the other kind.
    pub fn drop_file(&self) -> (s: &'static str)
        ensures
            s@ == self.spec_drop_file(),
    {
        match self {
            Payload::Text(_) => "clip.png",
            Payload::Png(_) => "clip.txt",
        }
    }

    /// The MIME type of this kind.
    pub fn kind_mime(&self) -> (s: &'static str)
        ensures
            s@ == self.spec_kind_mime(),
    {
        match self {
            Payload::Text(_) => "text/plain",
            Payload::Png(_) => "image/png",
        }
    }
}

/// Law: the spool keeps one file per kind.  Each kind is kept in a file of its
/// own, and what a send of one kind removes is exactly the file the other
/// kind is kept in, never the file it writes itself.
pub proof fn lemma_spool_files_partition(p: Payload, q: Payload)
    ensures
        p.spec_keep_file() != p.spec_drop_file(),
        (p is Text) == (q is Text) ==> p.spec_keep_file() == q.spec_keep_file(),
        (p is Text) != (q is Text) ==> p.spec_drop_file() == q.spec_keep_file(),
{
    reveal_strlit("clip.txt");
    reveal_strlit("clip.png");
    assert("clip.txt"@[5] != "clip.png"@[5]);
}

// ---------------------------------------------------------------------------
// PNG encoding
// ---------------------------------------------------------------------------
#[verifier::external_type_specification]
#[verifier::external_body]
pub struct ExImageError(image::ImageError);

/// Whether `len` bytes hold a `width` x `height` RGBA image (4 bytes a pixel).
pub open spec fn rgba_fits(width: u32, height: u32, len: nat) -> bool {
    4 * width * height <= len
}

/// The PNG file that `image` writes for the `width` x `height` RGBA pixels at
/// the start of `rgba`, or `None` where its encoder refuses them.
pub uninterp spec fn png_encoding(width: u32, height: u32, rgba: Seq<u8>) -> Option<Seq<u8>>;

/// Calls `image::ImageBuffer::<Rgba<u8>, Vec<u8>>::from_raw` and then
/// `ImageBuffer::write_to` with `ImageFormat::Png` into a byte vector.
/// Claims: `from_raw` refuses the buffer (`None`) exactly when it is shorter
/// than `4 * width * height` bytes (its `check_image_fits`, with checked
/// multiplication); otherwise the outcome of `write_to` is the named
/// `png_encoding` of the arguments.
#[verifier::external_body]
fn write_png(width: u32, height: u32, rgba: &[u8]) -> (r: Option<Result<Vec<u8>, image::ImageError>>)
    ensures
        r is None <==> !rgba_fits(width, height, rgba@.len()),
        r matches Some(Ok(png)) ==> png_encoding(width, height, rgba@) == Some(png@),
        r matches Some(Err(_)) ==> png_encoding(width, height, rgba@) is None,
{
    let img = image::ImageBuffer::<image::Rgba<u8>, Vec<u8>>::from_raw(width, height, rgba.to_vec())?;
    let mut out = Vec::new();
    Some(img.write_to(&mut std::io::Cursor::new(&mut out), image::ImageFormat::Png).map(|()| out))
}

/// Why a clipboard could not be turned into a payload.
#[derive(Debug)]
pub enum ClipboardError {
    /// The image data is shorter than its dimensions say.
    ImageSizeMismatch,
    /// The PNG encoder refused the image.
    Encode(image::ImageError),
    /// Neither an image nor non-empty text.
    Empty,
}

pub const SIZE_MISMATCH: &'static str = "clipboard image dimensions do not match data";

pub const EMPTY: &'static str =
    "clipboard is empty or holds unsupported content (ssh-paste sends text and images)";

impl ClipboardError {
    /// The text a user is shown; an encoder error is described by `image`.
    pub fn message(&self) -> (s: Option<String>)
        ensures
            self is ImageSizeMismatch ==> (s matches Some(m) && m@ == SIZE_MISMATCH@),
            self is Empty ==> (s matches Some(m) && m@ == EMPTY@),
            self is Encode ==> s is None,
    {
        match self {
            ClipboardError::ImageSizeMismatch => Some(owned(SIZE_MISMATCH)),
            ClipboardError::Encode(_) => None,
            ClipboardError::Empty => Some(owned(EMPTY)),
        }
    }
}

/// Encodes `width` x `height` RGBA pixels as a PNG file.
pub fn encode_png(width: u32, height: u32, rgba: &[u8]) -> (r: Result<Vec<u8>, ClipboardError>)
    ensures
        (r matches Err(ClipboardError::ImageSizeMismatch)) <==> !rgba_fits(width, height, rgba@.len()),
        r matches Ok(png) ==> png_encoding(width, height, rgba@) == Some(png@),
        r matches Err(ClipboardError::Encode(_)) ==> rgba_fits(width, height, rgba@.len())
            && png_encoding(width, height, rgba@) is None,
        !(r matches Err(ClipboardError::Empty)),
{
    match write_png(width, height, rgba) {
        None => Err(ClipboardError::ImageSizeMismatch),
        Some(Ok(png)) => Ok(png),
        Some(Err(e)) => Err(ClipboardError::Encode(e)),
    }
}

// ---------------------------------------------------------------------------
// Choosing what to take from a clipboard
// ---------------------------------------------------------------------------
/// An image as a clipboard hands it out: RGBA pixels, 4 bytes each.
pub struct ClipboardImage {
    pub width: usize,
    pub height: usize,
    pub bytes: Vec<u8>,
}

/// Turns what a clipboard offers into a payload: an image wins over text,
/// empty text counts as nothing.
pub fn payload_from(image: Option<ClipboardImage>, text: Option<String>) -> (r: Result<
    Payload,
    ClipboardError,
>)
    ensures
        match image {
            Some(img) => {
                let w = img.width as u32;
                let h = img.height as u32;
                &&& (r matches Err(ClipboardError::ImageSizeMismatch)) <==> !rgba_fits(
                    w,
                    h,
                    img.bytes@.len(),
                )
                &&& r matches Ok(p) ==> (p matches Payload::Png(png) && png_encoding(w, h, img.bytes@)
                    == Some(png@))
                &&& r matches Err(ClipboardError::Encode(_)) ==> png_encoding(
                    w,
                    h,
                    img.bytes@,
                ) is None
                &&& !(r matches Err(ClipboardError::Empty))
            },
            None => match text {
                Some(t) if t@.len() > 0 => r matches Ok(Payload::Text(s)) && s@ == t@,
                _ => r matches Err(ClipboardError::Empty),
            },
        },
{
    match image {
        Some(img) => {
            #[verifier::truncate]
            let w = img.width as u32;
            #[verifier::truncate]
            let h = img.height as u32;
            let png = encode_png(w, h, img.bytes.as_slice())?;
            Ok(Payload::Png(png))
        },
        None => match text {
            Some(t) => {
                if t.as_str().is_empty() {
                    Err(ClipboardError::Empty)
                } else {
                    Ok(Payload::Text(t))
                }
            },
            None => Err(ClipboardError::Empty),
        },
    }
}

/// The MIME type a clipboard would be served as, without reading its data:
/// `"image/png"` if it holds an image, else `"text/plain"` if its text is
/// non-empty.
pub fn kind_from(has_image: bool, text: Option<&str>) -> (r: Result<&'static str, ClipboardError>)
    ensures
        has_image ==> (r matches Ok(k) && k@ == "image/png"@),
        !has_image ==> match text {
            Some(t) if t@.len() > 0 => r matches Ok(k) && k@ == "text/plain"@,
            _ => r matches Err(ClipboardError::Empty),
        },
{
    if has_image {
        return Ok("image/png");
    }
    match text {
        Some(t) => {
            if t.is_empty() {
                Err(ClipboardError::Empty)
            } else {
                Ok("text/plain")
            }
        },
        None => Err(ClipboardError::Empty),
    }
}

} // verus!
