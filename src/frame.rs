//! Frame decoding: payload text to a validated RGBA raster.
use vstd::prelude::*;
use vstd::slice::slice_subrange;
use vstd::utf8::encode_utf8;
use base64::Engine;

verus! {

/// Number of bytes in the leading scheme marker `data:image/`.
pub const MARKER_LEN: usize = 11;

/// The byte that ends a scheme marker (`,`).
pub const SEPARATOR: u8 = 44;

/// The scheme marker `data:image/` as bytes.
pub open spec fn data_marker() -> Seq<u8> {
    seq![100u8, 97u8, 116u8, 97u8, 58u8, 105u8, 109u8, 97u8, 103u8, 101u8, 47u8]
}

pub open spec fn starts_with_marker(b: Seq<u8>) -> bool {
    b.len() >= MARKER_LEN && b.subrange(0, MARKER_LEN as int) == data_marker()
}

pub open spec fn has_separator(b: Seq<u8>) -> bool {
    exists|i: int| 0 <= i < b.len() && b[i] == SEPARATOR
}

/// `i` is the position of the first separator in `b`.
pub open spec fn is_first_separator(b: Seq<u8>, i: int) -> bool {
    &&& 0 <= i < b.len()
    &&& b[i] == SEPARATOR
    &&& forall|j: int| 0 <= j < i ==> b[j] != SEPARATOR
}

/// Where the encoded bytes start: after the first separator when the payload
/// carries a terminated scheme marker, else at the very beginning.
pub open spec fn encoded_start(b: Seq<u8>) -> int {
    if starts_with_marker(b) && has_separator(b) {
        (choose|i: int| is_first_separator(b, i)) + 1
    } else {
        0
    }
}

/// The part of a payload that holds the base64 text.
pub open spec fn encoded_part(b: Seq<u8>) -> Seq<u8> {
    b.subrange(encoded_start(b), b.len() as int)
}

/// What base64 decoding (standard alphabet, padded) gives for a text, or
/// `None` where the text is not valid base64.
pub uninterp spec fn base64_standard_decoding(text: Seq<u8>) -> Option<Seq<u8>>;

/// Width, height and 8-bit RGBA samples of the raster image encoded in a
/// byte sequence, or `None` where no supported image format decodes it.
pub uninterp spec fn rgba8_raster(bytes: Seq<u8>) -> Option<(u32, u32, Seq<u8>)>;

/// Why a payload gave no frame.
#[derive(PartialEq, Eq, Structural, Clone, Copy, Debug)]
pub enum DecodeError {
    /// The encoded part is not valid base64.
    InvalidBase64,
    /// The decoded bytes are not an image of a supported format.
    UnrecognizedImage,
    /// The image has no pixels.
    EmptyImage,
    /// The sample buffer does not hold exactly four bytes per pixel.
    MalformedRaster,
}

/// Result of looking for a scheme marker at the start of a payload.
#[derive(PartialEq, Eq, Structural, Clone, Copy, Debug)]
pub enum MarkerParse {
    /// A terminated marker: the encoded bytes start at `rest_start`.
    WithMarker { rest_start: usize },
    /// No marker, or one without a separator: the whole payload is encoded bytes.
    NoMarker,
}

impl MarkerParse {
    pub open spec fn start(self) -> int {
        match self {
            MarkerParse::WithMarker { rest_start } => rest_start as int,
            MarkerParse::NoMarker => 0,
        }
    }
}

/// Mathematical view of a decoded frame.
pub struct FrameView {
    pub width: u32,
    pub height: u32,
    pub pixels: Seq<u8>,
}

pub open spec fn frame_size(width: u32, height: u32) -> int {
    width as int * height as int * 4
}

/// A raster of `width` by `height` pixels, four bytes (R, G, B, A) each.
pub struct DecodedFrame {
    width: u32,
    height: u32,
    pixels: Vec<u8>,
}

impl View for DecodedFrame {
    type V = FrameView;

    closed spec fn view(&self) -> FrameView {
        FrameView { width: self.width, height: self.height, pixels: self.pixels@ }
    }
}

/// What turning a width, a height and samples into a frame gives.
pub open spec fn raster_result(width: u32, height: u32, pixels: Seq<u8>) -> Result<FrameView, DecodeError> {
    if width == 0 || height == 0 {
        Err(DecodeError::EmptyImage)
    } else if pixels.len() != frame_size(width, height) {
        Err(DecodeError::MalformedRaster)
    } else {
        Ok(FrameView { width, height, pixels })
    }
}

/// What decoding raw image bytes gives.
pub open spec fn image_result(bytes: Seq<u8>) -> Result<FrameView, DecodeError> {
    match rgba8_raster(bytes) {
        None => Err(DecodeError::UnrecognizedImage),
        Some(r) => raster_result(r.0, r.1, r.2),
    }
}

/// What decoding a whole payload gives.
pub open spec fn decode_result(payload: Seq<u8>) -> Result<FrameView, DecodeError> {
    match base64_standard_decoding(encoded_part(payload)) {
        None => Err(DecodeError::InvalidBase64),
        Some(bytes) => image_result(bytes),
    }
}

pub open spec fn frame_matches(r: Result<DecodedFrame, DecodeError>, s: Result<FrameView, DecodeError>) -> bool {
    match r {
        Ok(f) => s == Ok::<FrameView, DecodeError>(f@),
        Err(e) => s == Err::<FrameView, DecodeError>(e),
    }
}

/// Relies on `base64::engine::general_purpose::STANDARD.decode`: a decoding
/// that depends on the text alone, and an error on text that is not base64.
#[verifier::external_body]
fn decode_base64(text: &[u8]) -> (r: Option<Vec<u8>>)
    ensures
        match r {
            Some(v) => base64_standard_decoding(text@) == Some(v@),
            None => base64_standard_decoding(text@) is None,
        },
{
    base64::engine::general_purpose::STANDARD.decode(text).ok()
}

/// Relies on `image::guess_format`, which reads the format from the built-in
/// table of leading signatures, then `image::load_from_memory_with_format`
/// with that built-in format, then `DynamicImage::to_rgba8`, which expands the
/// pixels to RGBA. Neither call consults the crate's registered hooks, so the
/// result depends on the bytes alone.
#[verifier::external_body]
fn load_rgba8(bytes: &[u8]) -> (r: Option<(u32, u32, Vec<u8>)>)
    ensures
        match r {
            Some(t) => rgba8_raster(bytes@) == Some((t.0, t.1, t.2@)),
            None => rgba8_raster(bytes@) is None,
        },
{
    let format = image::guess_format(bytes).ok()?;
    match image::load_from_memory_with_format(bytes, format) {
        Ok(img) => {
            let rgba = img.to_rgba8();
            Some((rgba.width(), rgba.height(), rgba.into_raw()))
        },
        Err(_) => None,
    }
}

/// Whether `b` begins with the scheme marker `data:image/`.
pub fn has_data_marker(b: &[u8]) -> (r: bool)
    ensures
        r == starts_with_marker(b@),
{
    if b.len() < MARKER_LEN {
        return false;
    }
    let r = b[0] == 100u8 && b[1] == 97u8 && b[2] == 116u8 && b[3] == 97u8 && b[4] == 58u8
        && b[5] == 105u8 && b[6] == 109u8 && b[7] == 97u8 && b[8] == 103u8 && b[9] == 101u8
        && b[10] == 47u8;
    proof {
        let prefix = b@.subrange(0, MARKER_LEN as int);
        if r {
            assert(prefix =~= data_marker());
        } else if prefix == data_marker() {
            assert forall|i: int| 0 <= i < MARKER_LEN as int implies b@[i] == data_marker()[i] by {
                assert(prefix[i] == b@[i]);
            }
        }
    }
    r
}

/// The first separator of `b`, if any.
pub fn find_separator(b: &[u8]) -> (r: Option<usize>)
    ensures
        match r {
            Some(i) => is_first_separator(b@, i as int),
            None => !has_separator(b@),
        },
{
    let mut i: usize = 0;
    while i < b.len()
        invariant
            i <= b@.len(),
            forall|j: int| 0 <= j < i ==> b@[j] != SEPARATOR,
        decreases b@.len() - i,
    {
        if b[i] == SEPARATOR {
            return Some(i);
        }
        i = i + 1;
    }
    None
}

/// The first separator is unique.
pub proof fn lemma_first_separator_unique(b: Seq<u8>, i: int, k: int)
    requires
        is_first_separator(b, i),
        is_first_separator(b, k),
    ensures
        i == k,
{
    if i < k {
        assert(b[i] != SEPARATOR);
    } else if k < i {
        assert(b[k] != SEPARATOR);
    }
}

/// Looks for a scheme marker ending in a separator at the start of a payload.
/// A marker without a separator is no marker: the whole payload then counts
/// as encoded bytes.
pub fn parse_marker(payload: &[u8]) -> (r: MarkerParse)
    ensures
        r.start() == encoded_start(payload@),
        r is WithMarker <==> (starts_with_marker(payload@) && has_separator(payload@)),
        0 <= r.start() <= payload@.len(),
{
    if has_data_marker(payload) {
        match find_separator(payload) {
            Some(i) => {
                let n = payload.len();
                assert(i < n);
                proof {
                    lemma_first_separator_unique(payload@, i as int, choose|k: int| is_first_separator(payload@, k));
                }
                MarkerParse::WithMarker { rest_start: i + 1 }
            },
            None => MarkerParse::NoMarker,
        }
    } else {
        MarkerParse::NoMarker
    }
}

impl DecodedFrame {
    #[verifier::type_invariant]
    spec fn well_formed(self) -> bool {
        &&& self.width > 0
        &&& self.height > 0
        &&& self.pixels@.len() == frame_size(self.width, self.height)
    }

    pub fn width(&self) -> (r: u32)
        ensures
            r == self@.width,
    {
        self.width
    }

    pub fn height(&self) -> (r: u32)
        ensures
            r == self@.height,
    {
        self.height
    }

    /// The RGBA samples, row by row.
    /// Every frame has pixels, and exactly four bytes for each.
    pub fn pixels(&self) -> (r: &[u8])
        ensures
            r@ == self@.pixels,
            self@.width > 0,
            self@.height > 0,
            r@.len() == frame_size(self@.width, self@.height),
    {
        proof {
            use_type_invariant(self);
        }
        self.pixels.as_slice()
    }
}

/// Checks a width, a height and a sample buffer and makes a frame of them.
pub fn frame_from_raster(width: u32, height: u32, pixels: Vec<u8>) -> (r: Result<DecodedFrame, DecodeError>)
    ensures
        frame_matches(r, raster_result(width, height, pixels@)),
{
    if width == 0 || height == 0 {
        return Err(DecodeError::EmptyImage);
    }
    proof {
        assert(width as int * height as int <= u32::MAX as int * u32::MAX as int) by (nonlinear_arith)
            requires width <= u32::MAX, height <= u32::MAX;
    }
    let area: u64 = width as u64 * height as u64;
    let n = pixels.len();
    if area > u64::MAX / 4 {
        assert(n as int <= u64::MAX as int);
        return Err(DecodeError::MalformedRaster);
    }
    if n as u64 != area * 4 {
        return Err(DecodeError::MalformedRaster);
    }
    Ok(DecodedFrame { width, height, pixels })
}

/// Decodes raw image bytes (PNG, JPEG) into an RGBA frame.
pub fn decode_image_bytes(bytes: &[u8]) -> (r: Result<DecodedFrame, DecodeError>)
    ensures
        frame_matches(r, image_result(bytes@)),
{
    match load_rgba8(bytes) {
        None => Err(DecodeError::UnrecognizedImage),
        Some(t) => frame_from_raster(t.0, t.1, t.2),
    }
}

/// Decodes a payload: an optional scheme marker ended by a separator, then
/// base64 text of a PNG or JPEG image. The pixels come out as RGBA.
pub fn decode_bytes(payload: &[u8]) -> (r: Result<DecodedFrame, DecodeError>)
    ensures
        frame_matches(r, decode_result(payload@)),
{
    let start = parse_marker(payload);
    let text = match start {
        MarkerParse::WithMarker { rest_start } => slice_subrange(payload, rest_start, payload.len()),
        MarkerParse::NoMarker => payload,
    };
    proof {
        if start is NoMarker {
            assert(text@ =~= encoded_part(payload@));
        }
    }
    match decode_base64(text) {
        None => Err(DecodeError::InvalidBase64),
        Some(bytes) => decode_image_bytes(bytes.as_slice()),
    }
}

/// Decodes payload text; see [`decode_bytes`].
pub fn decode(payload: &str) -> (r: Result<DecodedFrame, DecodeError>)
    ensures
        frame_matches(r, decode_result(encode_utf8(payload@))),
{
    decode_bytes(payload.as_bytes())
}

/// Every payload that decodes gives width times height times four samples,
/// on a frame with at least one pixel.
pub proof fn lemma_decoded_size(payload: Seq<u8>)
    ensures
        decode_result(payload) matches Ok(f) ==> f.width > 0 && f.height > 0
            && f.pixels.len() == frame_size(f.width, f.height),
{
}

/// A scheme marker without a separator is kept: the whole payload is taken
/// as encoded text.
pub proof fn lemma_unterminated_marker(payload: Seq<u8>)
    requires
        !has_separator(payload),
    ensures
        encoded_part(payload) == payload,
        decode_result(payload) == match base64_standard_decoding(payload) {
            None => Err(DecodeError::InvalidBase64),
            Some(bytes) => image_result(bytes),
        },
{
    assert(payload.subrange(0, payload.len() as int) =~= payload);
}

/// Text that is not base64 gives `InvalidBase64`, whatever the marker.
pub proof fn lemma_invalid_base64(payload: Seq<u8>)
    requires
        base64_standard_decoding(encoded_part(payload)) is None,
    ensures
        decode_result(payload) == Err::<FrameView, DecodeError>(DecodeError::InvalidBase64),
{
}

/// A payload made of a scheme marker, a separator and base64 text decodes as
/// the bare text does.
pub proof fn lemma_marker_stripped(marker: Seq<u8>, text: Seq<u8>)
    requires
        starts_with_marker(marker),
        !has_separator(marker),
        !starts_with_marker(text),
    ensures
        encoded_part(marker + seq![SEPARATOR] + text) == text,
        decode_result(marker + seq![SEPARATOR] + text) == decode_result(text),
{
    let p = marker + seq![SEPARATOR] + text;
    let m = marker.len() as int;
    assert(p.subrange(0, MARKER_LEN as int) =~= marker.subrange(0, MARKER_LEN as int));
    assert(p[m] == SEPARATOR);
    assert(is_first_separator(p, m));
    lemma_first_separator_unique(p, m, choose|k: int| is_first_separator(p, k));
    assert(p.subrange(m + 1, p.len() as int) =~= text);
    assert(text.subrange(0, text.len() as int) =~= text);
}

} // verus!
