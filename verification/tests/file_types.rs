use memebot::bot::types::FileType;

#[test]
fn extensions_of_each_kind() {
    assert_eq!(FileType::Heic.get_extension(), "heic");
    assert_eq!(FileType::Png.get_extension(), "png");
    assert_eq!(FileType::Jpeg.get_extension(), "jpg");
}

#[test]
fn heic_and_heif_media_types_are_heic() {
    assert_eq!(FileType::from("image/heic"), FileType::Heic);
    assert_eq!(FileType::from("image/heif"), FileType::Heic);
}

#[test]
fn png_media_type_is_png() {
    assert_eq!(FileType::from("image/png"), FileType::Png);
}

#[test]
fn media_type_is_read_case_insensitively_by_the_parser() {
    // the mime parser lower-cases the subtype, so this is PNG; a text passed
    // through unread would not match "png"
    assert_eq!(FileType::from("IMAGE/PNG"), FileType::Png);
    assert_eq!(FileType::from("image/png; charset=utf-8"), FileType::Png);
}

#[test]
fn other_media_types_are_jpeg() {
    assert_eq!(FileType::from("image/jpeg"), FileType::Jpeg);
    assert_eq!(FileType::from("image/webp"), FileType::Jpeg);
    assert_eq!(FileType::from("image/svg+xml"), FileType::Jpeg);
}

#[test]
fn unreadable_media_types_are_jpeg() {
    assert_eq!(FileType::from("png"), FileType::Jpeg);
    assert_eq!(FileType::from(""), FileType::Jpeg);
    assert_eq!(FileType::from("/png"), FileType::Jpeg);
}

#[test]
fn from_owned_and_optional_texts() {
    assert_eq!(FileType::from(String::from("image/heif")), FileType::Heic);
    assert_eq!(FileType::from(Some(String::from("image/png"))), FileType::Png);
    assert_eq!(FileType::from(None::<String>), FileType::Jpeg);
    let given = Some(String::from("image/heic"));
    assert_eq!(FileType::from(&given), FileType::Heic);
    assert_eq!(FileType::from(&None::<String>), FileType::Jpeg);
}

#[test]
fn from_subtype_decides_by_the_subtype_alone() {
    assert_eq!(FileType::from_subtype(Some("heic")), FileType::Heic);
    assert_eq!(FileType::from_subtype(Some("heif")), FileType::Heic);
    assert_eq!(FileType::from_subtype(Some("png")), FileType::Png);
    assert_eq!(FileType::from_subtype(Some("PNG")), FileType::Jpeg);
    assert_eq!(FileType::from_subtype(Some("gif")), FileType::Jpeg);
    assert_eq!(FileType::from_subtype(None), FileType::Jpeg);
}
