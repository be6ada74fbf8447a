use ssh_paste::clipboard::{encode_png, kind_from, payload_from, ClipboardError, ClipboardImage, Payload};

#[test]
fn payload_accessors() {
    let t = Payload::Text("hi".into());
    assert_eq!(t.kind(), "text");
    assert_eq!(t.keep_file(), "clip.txt");
    assert_eq!(t.drop_file(), "clip.png");
    assert_eq!(t.bytes(), b"hi");

    let p = Payload::Png(vec![1, 2]);
    assert_eq!(p.kind(), "image");
    assert_eq!(p.keep_file(), "clip.png");
    assert_eq!(p.drop_file(), "clip.txt");
}

#[test]
fn encodes_rgba_to_decodable_png() {
    let png = encode_png(2, 1, &[255, 0, 0, 255, 0, 255, 0, 255]).unwrap();
    let img = image::load_from_memory(&png).unwrap().to_rgba8();
    assert_eq!(img.dimensions(), (2, 1));
    assert_eq!(img.get_pixel(0, 0).0, [255, 0, 0, 255]);
}

#[test]
fn payload_mime_and_utf8_bytes() {
    assert_eq!(Payload::Text("x".into()).kind_mime(), "text/plain");
    assert_eq!(Payload::Png(vec![]).kind_mime(), "image/png");
    assert_eq!(Payload::Text("hé".into()).bytes(), "hé".as_bytes());
    assert_eq!(Payload::Png(vec![7, 8, 9]).bytes(), &[7, 8, 9]);
}

#[test]
fn short_image_data_is_refused() {
    assert!(matches!(
        encode_png(2, 2, &[0; 15]),
        Err(ClipboardError::ImageSizeMismatch)
    ));
    let e = encode_png(1, 1, &[1, 2, 3]).unwrap_err();
    assert_eq!(
        e.message().unwrap(),
        "clipboard image dimensions do not match data"
    );
}

#[test]
fn encoded_png_is_not_the_raw_pixels() {
    let raw = [9u8, 9, 9, 255];
    let png = encode_png(1, 1, &raw).unwrap();
    assert_ne!(png, raw.to_vec());
    assert_eq!(&png[1..4], b"PNG");
}

#[test]
fn image_wins_over_text_and_empty_text_is_nothing() {
    let img = ClipboardImage { width: 1, height: 1, bytes: vec![1, 2, 3, 4] };
    let p = payload_from(Some(img), Some("text".into())).unwrap();
    assert!(matches!(p, Payload::Png(_)));

    let p = payload_from(None, Some("text".into())).unwrap();
    assert!(matches!(p, Payload::Text(ref s) if s == "text"));

    let e = payload_from(None, Some(String::new())).unwrap_err();
    assert!(matches!(e, ClipboardError::Empty));
    assert_eq!(
        e.message().unwrap(),
        "clipboard is empty or holds unsupported content (ssh-paste sends text and images)"
    );
    assert!(matches!(payload_from(None, None), Err(ClipboardError::Empty)));

    let bad = ClipboardImage { width: 2, height: 2, bytes: vec![0; 4] };
    assert!(matches!(
        payload_from(Some(bad), Some("text".into())),
        Err(ClipboardError::ImageSizeMismatch)
    ));
}

#[test]
fn kind_is_read_without_data() {
    assert_eq!(kind_from(true, None).unwrap(), "image/png");
    assert_eq!(kind_from(true, Some("x")).unwrap(), "image/png");
    assert_eq!(kind_from(false, Some("x")).unwrap(), "text/plain");
    assert!(matches!(kind_from(false, Some("")), Err(ClipboardError::Empty)));
    assert!(matches!(kind_from(false, None), Err(ClipboardError::Empty)));
}
