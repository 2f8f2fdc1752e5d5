//! Pictures and sounds as bytes: decoding, encoding, and data addresses.
use vstd::prelude::*;
use base64::Engine;
use crate::text::{cat, copy, dec, dec_u64};

verus! {

/// A picture: its width, its height, and four bytes for each pixel.
#[derive(Debug)]
pub struct Picture {
    pub width: u32,
    pub height: u32,
    pub rgba: Vec<u8>,
}

/// The model of a [`Picture`].
pub struct PictureV {
    pub width: u32,
    pub height: u32,
    pub rgba: Seq<u8>,
}

impl View for Picture {
    type V = PictureV;

    open spec fn view(&self) -> PictureV {
        PictureV { width: self.width, height: self.height, rgba: self.rgba@ }
    }
}

/// What `image::load_from_memory` reads from a file's bytes, as RGBA pixels, or what it
/// has against them.
pub uninterp spec fn decoded(bytes: Seq<u8>) -> Result<PictureV, Seq<char>>;

/// Reads a picture with `image::load_from_memory` and turns it into RGBA pixels. What
/// comes back depends on the bytes alone.
#[verifier::external_body]
fn decode_image(bytes: &[u8]) -> (r: Result<Picture, String>)
    ensures
        outcome_v(r) == decoded(bytes@),
{
    match image::load_from_memory(bytes) {
        Ok(img) => {
            let rgba = img.to_rgba8();
            Ok(Picture { width: rgba.width(), height: rgba.height(), rgba: rgba.into_raw() })
        }
        Err(e) => Err(e.to_string()),
    }
}

/// What `image::RgbaImage::write_to` makes of a picture in the PNG format, or what it
/// has against it.
pub uninterp spec fn png(p: PictureV) -> Result<Seq<u8>, Seq<char>>;

/// Writes a picture as PNG with `image::RgbaImage::from_raw` and `write_to`. The pixels
/// fill the picture, so there is one to write; what comes back depends on it alone.
#[verifier::external_body]
fn encode_png(p: &Picture) -> (r: Result<Vec<u8>, String>)
    requires
        4 * p@.width as int * p@.height as int <= p@.rgba.len(),
    ensures
        match r {
            Ok(b) => png(p@) == Ok::<Seq<u8>, Seq<char>>(b@),
            Err(e) => png(p@) == Err::<Seq<u8>, Seq<char>>(e@),
        },
{
    let mut out = std::io::Cursor::new(Vec::new());
    match image::RgbaImage::from_raw(p.width, p.height, p.rgba.clone()) {
        Some(img) => match img.write_to(&mut out, image::ImageFormat::Png) {
            Ok(()) => Ok(out.into_inner()),
            Err(e) => Err(e.to_string()),
        },
        None => Err(String::new()),
    }
}

/// Whether a request went well.
pub open spec fn is_success(code: u16) -> bool {
    200 <= code <= 299
}

/// The model of a picture, or of what a decoder has against the bytes.
pub open spec fn outcome_v(r: Result<Picture, String>) -> Result<PictureV, Seq<char>> {
    match r {
        Ok(p) => Ok(p@),
        Err(e) => Err(e@),
    }
}

/// The preview of a job, with what the decoder made of its content: its picture, or why
/// there is none.
pub open spec fn shown_v(code: u16, d: Result<PictureV, Seq<char>>) -> Result<
    PictureV,
    Seq<char>,
> {
    if !is_success(code) {
        Err("content HTTP "@ + dec(code as nat))
    } else {
        match d {
            Ok(p) => Ok(p),
            Err(e) => Err("decode failed: "@ + e),
        }
    }
}

/// The preview of a job, with what the decoder made of its content.
pub fn preview_from(code: u16, d: Result<Picture, String>) -> (r: Result<Picture, String>)
    ensures
        outcome_v(r) == shown_v(code, outcome_v(d)),
{
    if code < 200 || code > 299 {
        return Err(cat("content HTTP ", dec_u64(code as u64).as_str()));
    }
    match d {
        Ok(p) => Ok(p),
        Err(e) => Err(cat("decode failed: ", e.as_str())),
    }
}

/// The preview of a job from the answer to a request for its content.
pub fn preview_of(code: u16, bytes: &[u8]) -> (r: Result<Picture, String>)
    ensures
        outcome_v(r) == shown_v(code, decoded(bytes@)),
{
    preview_from(code, decode_image(bytes))
}

/// The poster of a job from the answer to a request for it, where there is one.
pub fn thumb_of(code: u16, bytes: &[u8]) -> (r: Option<Picture>)
    ensures
        r is Some <==> is_success(code) && decoded(bytes@) is Ok,
        r is Some ==> decoded(bytes@) == Ok::<PictureV, Seq<char>>(r->0@),
{
    if code < 200 || code > 299 {
        return None;
    }
    match decode_image(bytes) {
        Ok(p) => Some(p),
        Err(_) => None,
    }
}

/// The screen as PNG, or why it cannot be had.
pub open spec fn snapshot_v(p: PictureV) -> Result<Seq<u8>, Seq<char>> {
    if 4 * p.width as int * p.height as int > p.rgba.len() {
        Err("pixel buffer size mismatch"@)
    } else {
        match png(p) {
            Ok(b) => Ok(b),
            Err(e) => Err("png encode: "@ + e),
        }
    }
}

/// Writes the screen as PNG.
pub fn snapshot_png(p: &Picture) -> (r: Result<Vec<u8>, String>)
    ensures
        match r {
            Ok(b) => snapshot_v(p@) == Ok::<Seq<u8>, Seq<char>>(b@),
            Err(e) => snapshot_v(p@) == Err::<Seq<u8>, Seq<char>>(e@),
        },
{
    assert(4 * p.width as int * p.height as int <= 4 * 0xffff_ffff * 0xffff_ffff)
        by (nonlinear_arith)
        requires
            0 <= p.width <= 0xffff_ffff,
            0 <= p.height <= 0xffff_ffff,
    ;
    assert(p.width as int * 4 <= 4 * 0xffff_ffff);
    let need: u128 = 4 * p.width as u128 * p.height as u128;
    if need > p.rgba.len() as u128 {
        return Err(copy("pixel buffer size mismatch"));
    }
    match encode_png(p) {
        Ok(b) => Ok(b),
        Err(e) => Err(cat("png encode: ", e.as_str())),
    }
}

// ── Base64 ──────────────────────────────────────────────────────────────────

/// The character of six bits.
pub open spec fn sextet(n: int) -> char {
    if n < 26 {
        (('A' as u32 + n) as u32) as char
    } else if n < 52 {
        (('a' as u32 + n - 26) as u32) as char
    } else if n < 62 {
        (('0' as u32 + n - 52) as u32) as char
    } else if n == 62 {
        '+'
    } else {
        '/'
    }
}

/// The four characters of up to three bytes; a missing byte counts as zero, and a
/// character that stands for none of the bytes is an equals sign.
pub open spec fn quartet(b: Seq<u8>) -> Seq<char> {
    let b1 = if b.len() > 1 {
        b[1] as int
    } else {
        0
    };
    let b2 = if b.len() > 2 {
        b[2] as int
    } else {
        0
    };
    let n = b[0] as int * 0x10000 + b1 * 0x100 + b2;
    seq![
        sextet(n / 0x40000),
        sextet((n / 0x1000) % 64),
        if b.len() > 1 {
            sextet((n / 64) % 64)
        } else {
            '='
        },
        if b.len() > 2 {
            sextet(n % 64)
        } else {
            '='
        },
    ]
}

/// Bytes in base64: the standard alphabet, with padding.
pub open spec fn base64_v(b: Seq<u8>) -> Seq<char>
    decreases b.len(),
{
    if b.len() == 0 {
        Seq::empty()
    } else if b.len() <= 3 {
        quartet(b)
    } else {
        quartet(b.take(3)) + base64_v(b.skip(3))
    }
}

/// Encodes bytes with `base64::engine::general_purpose::STANDARD`: the standard
/// alphabet, with padding. The length of what comes out has to fit in a `usize`.
#[verifier::external_body]
fn encode_base64(bytes: &[u8]) -> (r: String)
    requires
        bytes@.len() <= usize::MAX / 2,
    ensures
        r@ == base64_v(bytes@),
{
    base64::engine::general_purpose::STANDARD.encode(bytes)
}

/// How many bytes a track may have to be imported.
pub const IMPORT_BYTES: usize = 39845888;

/// The data address of a sound.
pub open spec fn data_url(mime: Seq<char>, bytes: Seq<u8>) -> Seq<char> {
    "data:"@ + mime + ";base64,"@ + base64_v(bytes)
}

/// The data address of a sound that is not too long to be imported.
pub fn import_data(mime: &str, bytes: &[u8]) -> (r: Result<String, String>)
    ensures
        match r {
            Ok(s) => bytes@.len() <= IMPORT_BYTES && s@ == data_url(mime@, bytes@),
            Err(e) => bytes@.len() > IMPORT_BYTES && e@
                == "track is over the 38 MB import ceiling — trim it in Audio first"@,
        },
{
    if bytes.len() > IMPORT_BYTES {
        return Err(copy("track is over the 38 MB import ceiling — trim it in Audio first"));
    }
    let mut out = cat("data:", mime);
    out.append(";base64,");
    out.append(encode_base64(bytes).as_str());
    Ok(out)
}

} // verus!
