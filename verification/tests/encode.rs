use timeline_thumbnails::encode::{can_encode, data_uri, image_from_read, inline_data, mime_type_of};
use timeline_thumbnails::error::ErrorKind;

fn decode(payload: &str) -> Vec<u8> {
    base64::Engine::decode(&base64::engine::general_purpose::STANDARD, payload).unwrap()
}

#[test]
fn mime_type_follows_the_table() {
    assert_eq!(mime_type_of("/pictures/a.png"), "image/png");
    assert_eq!(mime_type_of("/pictures/a.gif"), "image/gif");
    assert_eq!(mime_type_of("/pictures/a.bmp"), "image/bmp");
    assert_eq!(mime_type_of("/pictures/a.webp"), "image/webp");
    assert_eq!(mime_type_of("/pictures/a.jpg"), "image/jpeg");
    assert_eq!(mime_type_of("/pictures/a.jpeg"), "image/jpeg");
    assert_eq!(mime_type_of("/pictures/a.tiff"), "image/jpeg");
}

#[test]
fn mime_type_disregards_case_and_takes_the_last_extension() {
    assert_eq!(mime_type_of("A.PNG"), "image/png");
    assert_eq!(mime_type_of("a.WebP"), "image/webp");
    assert_eq!(mime_type_of("archive.tar.gif"), "image/gif");
    assert_eq!(mime_type_of("a.png.bak"), "image/jpeg");
    assert_eq!(mime_type_of("a.pngx"), "image/jpeg");
    assert_eq!(mime_type_of("a.pn"), "image/jpeg");
    assert_eq!(mime_type_of("a."), "image/jpeg");
    assert_eq!(mime_type_of(""), "image/jpeg");
    assert_eq!(mime_type_of("été.BMP"), "image/bmp");
    assert_eq!(mime_type_of("a.g\u{130}f"), "image/jpeg");
}

#[test]
fn mime_type_of_a_path_without_an_extension_is_jpeg() {
    for path in ["png", "gif", "GIF", "bmp", "webp", "WebP", "picture", "/a/b/README", "/a/b/png"] {
        assert_eq!(mime_type_of(path), "image/jpeg");
    }
    assert_eq!(mime_type_of(".png"), "image/png");
    assert_eq!(mime_type_of("/a.b/gif"), "image/jpeg");
}

#[test]
fn image_without_an_extension_is_inline_jpeg() {
    for path in ["/a/b/README", "gif"] {
        let uri = image_from_read(path, Ok(vec![1, 2, 3])).unwrap();
        assert_eq!(uri, "data:image/jpeg;base64,AQID");
    }
}

#[test]
fn data_uri_payload_has_the_length_and_alphabet_of_base64() {
    let mut bytes: Vec<u8> = Vec::new();
    for i in 0..=255u8 {
        bytes.push(i);
    }
    for len in 0..bytes.len() {
        let uri = data_uri("image/jpeg", &bytes[..len]).unwrap();
        let payload = &uri["data:image/jpeg;base64,".len()..];
        assert_eq!(payload.chars().count(), 4 * ((len + 2) / 3));
        assert!(payload
            .chars()
            .all(|c| c.is_ascii_alphanumeric() || c == '+' || c == '/' || c == '='));
    }
}

#[test]
fn inline_data_wraps_a_payload() {
    assert_eq!(inline_data("image/png", "Zm9v"), "data:image/png;base64,Zm9v");
    assert_eq!(inline_data("image/jpeg", ""), "data:image/jpeg;base64,");
}

#[test]
fn data_uri_encodes_with_the_standard_alphabet_and_padding() {
    assert_eq!(data_uri("image/jpeg", b"foo").unwrap(), "data:image/jpeg;base64,Zm9v");
    assert_eq!(data_uri("image/jpeg", b"fo").unwrap(), "data:image/jpeg;base64,Zm8=");
    assert_eq!(data_uri("image/jpeg", b"f").unwrap(), "data:image/jpeg;base64,Zg==");
    assert_eq!(data_uri("image/jpeg", b"").unwrap(), "data:image/jpeg;base64,");
    assert_eq!(data_uri("image/png", &[0xff, 0xd8, 0xff]).unwrap(), "data:image/png;base64,/9j/");
    assert_eq!(data_uri("image/png", &[0xfb, 0xef, 0xbe]).unwrap(), "data:image/png;base64,++++");
}

#[test]
fn data_uri_round_trip_recovers_the_bytes() {
    let mut bytes: Vec<u8> = Vec::new();
    for i in 0..1000u32 {
        bytes.push((i * 7 + 3) as u8);
    }
    for len in [0usize, 1, 2, 3, 4, 5, 255, 256, 257, 1000] {
        let uri = data_uri("image/jpeg", &bytes[..len]).unwrap();
        let prefix = "data:image/jpeg;base64,";
        assert!(uri.starts_with(prefix));
        assert_eq!(decode(&uri[prefix.len()..]), &bytes[..len]);
    }
}

#[test]
fn image_round_trip_carries_the_mime_type_of_the_path() {
    let png = vec![0x89, b'P', b'N', b'G', 0x0d, 0x0a, 0x1a, 0x0a, 0, 1, 2, 3];
    let uri = image_from_read("/pictures/logo.PNG", Ok(png.clone())).unwrap();
    let prefix = "data:image/png;base64,";
    assert!(uri.starts_with(prefix));
    assert_eq!(decode(&uri[prefix.len()..]), png);
    let other = image_from_read("/pictures/logo", Ok(png.clone())).unwrap();
    assert!(other.starts_with("data:image/jpeg;base64,"));
    assert_eq!(decode(&other["data:image/jpeg;base64,".len()..]), png);
}

#[test]
fn image_that_cannot_be_read_is_a_filesystem_failure() {
    let e = image_from_read("/pictures/a.png", Err("permission denied".to_string())).unwrap_err();
    assert_eq!(e.kind, ErrorKind::FilesystemFailure);
    assert_eq!(e.message, "Failed to read image: permission denied");
}

#[test]
fn can_encode_what_fits_in_memory() {
    assert!(can_encode(b""));
    assert!(can_encode(b"abc"));
    assert!(can_encode(&vec![0u8; 100_000]));
}
