use ndi_bridge::frame::{
    decode, decode_bytes, decode_image_bytes, frame_from_raster, parse_marker, DecodeError,
    MarkerParse,
};

const RGB_PNG: &str = "iVBORw0KGgoAAAANSUhEUgAAAAIAAAADCAIAAAA2iEnWAAAAG0lEQVR4nGP4z8DAAMIM/7lE5BgYmZhPpBgBADRcBJ5nftqAAAAAAElFTkSuQmCC";
const GRAY_PNG: &str = "iVBORw0KGgoAAAANSUhEUgAAAAEAAAABCAAAAAA6fptVAAAACklEQVR4nGPwBQAATwBOaYsBbAAAAABJRU5ErkJggg==";

const RGB_PIXELS: [u8; 24] = [
    255, 0, 0, 255, 0, 255, 0, 255, //
    0, 0, 255, 255, 10, 20, 30, 255, //
    1, 2, 3, 255, 200, 100, 50, 255,
];

#[test]
fn bare_png_decodes_to_rgba() {
    let frame = decode(RGB_PNG).unwrap();
    assert_eq!(frame.width(), 2);
    assert_eq!(frame.height(), 3);
    assert_eq!(frame.pixels(), &RGB_PIXELS[..]);
}

#[test]
fn buffer_length_is_width_times_height_times_four() {
    for payload in [RGB_PNG, GRAY_PNG] {
        let frame = decode(payload).unwrap();
        let expected = frame.width() as usize * frame.height() as usize * 4;
        assert_eq!(frame.pixels().len(), expected);
    }
}

#[test]
fn grayscale_is_expanded_to_four_channels() {
    let frame = decode(GRAY_PNG).unwrap();
    assert_eq!((frame.width(), frame.height()), (1, 1));
    assert_eq!(frame.pixels(), &[77u8, 77, 77, 255][..]);
}

#[test]
fn data_marker_decodes_as_bare_text() {
    let with_marker = format!("data:image/png;base64,{}", RGB_PNG);
    let a = decode(&with_marker).unwrap();
    let b = decode(RGB_PNG).unwrap();
    assert_eq!((a.width(), a.height()), (b.width(), b.height()));
    assert_eq!(a.pixels(), b.pixels());
}

#[test]
fn marker_with_separator_is_stripped() {
    let payload = b"data:image/png;base64,QUJD";
    assert_eq!(parse_marker(payload), MarkerParse::WithMarker { rest_start: 22 });
}

#[test]
fn unterminated_marker_keeps_whole_payload() {
    let payload = "data:image/png;base64";
    assert_eq!(parse_marker(payload.as_bytes()), MarkerParse::NoMarker);
    // The whole text goes to the base64 decoder, which refuses the `:`.
    assert_eq!(decode(payload).err(), Some(DecodeError::InvalidBase64));
}

#[test]
fn separator_without_marker_is_not_stripped() {
    assert_eq!(parse_marker(b"abc,def"), MarkerParse::NoMarker);
    assert_eq!(parse_marker(b"data:text/plain,abc"), MarkerParse::NoMarker);
    assert_eq!(parse_marker(b""), MarkerParse::NoMarker);
}

#[test]
fn invalid_base64_is_reported() {
    assert_eq!(decode("!!!not base64!!!").err(), Some(DecodeError::InvalidBase64));
    assert_eq!(decode("data:image/png;base64,@@@@").err(), Some(DecodeError::InvalidBase64));
}

#[test]
fn bytes_that_are_no_image_are_reported() {
    assert_eq!(decode("aGVsbG8gd29ybGQ=").err(), Some(DecodeError::UnrecognizedImage));
    assert_eq!(decode("").err(), Some(DecodeError::UnrecognizedImage));
    assert_eq!(decode_image_bytes(b"hello world").err(), Some(DecodeError::UnrecognizedImage));
}

#[test]
fn decode_bytes_agrees_with_decode() {
    let frame = decode_bytes(RGB_PNG.as_bytes()).unwrap();
    assert_eq!(frame.pixels(), &RGB_PIXELS[..]);
}

#[test]
fn raster_checks() {
    assert_eq!(frame_from_raster(0, 3, vec![]).err(), Some(DecodeError::EmptyImage));
    assert_eq!(frame_from_raster(2, 0, vec![]).err(), Some(DecodeError::EmptyImage));
    assert_eq!(frame_from_raster(2, 2, vec![0; 15]).err(), Some(DecodeError::MalformedRaster));
    assert_eq!(frame_from_raster(2, 2, vec![0; 17]).err(), Some(DecodeError::MalformedRaster));
    assert_eq!(
        frame_from_raster(u32::MAX, u32::MAX, vec![0; 4]).err(),
        Some(DecodeError::MalformedRaster)
    );
    let f = frame_from_raster(2, 2, vec![9; 16]).unwrap();
    assert_eq!((f.width(), f.height(), f.pixels().len()), (2, 2, 16));
}
