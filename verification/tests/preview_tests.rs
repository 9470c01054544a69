use telegram_drive::models::MediaInfo;
use telegram_drive::preview::{
    cache_file_name, cache_name_ext, image_data_url, image_mime_for_ext, is_image_ext,
    is_thumb_cache_hit, preview_ext, thumb_mime_for_ext, thumb_plan, ThumbPlan,
};

#[test]
fn preview_extension_prefers_the_name() {
    let doc = MediaInfo::Document {
        name: "holiday.PNG".to_string(),
        size: 1,
        mime: Some("image/jpeg".to_string()),
    };
    assert_eq!(preview_ext(&doc), "PNG");
}

#[test]
fn preview_extension_falls_back_to_the_mime_type() {
    let jpeg = MediaInfo::Document {
        name: "noext".to_string(),
        size: 1,
        mime: Some("image/jpeg".to_string()),
    };
    assert_eq!(preview_ext(&jpeg), "jpg");
    let png = MediaInfo::Document {
        name: "noext".to_string(),
        size: 1,
        mime: Some("image/png".to_string()),
    };
    assert_eq!(preview_ext(&png), "png");
    let mp4 = MediaInfo::Document {
        name: "noext".to_string(),
        size: 1,
        mime: Some("video/mp4".to_string()),
    };
    assert_eq!(preview_ext(&mp4), "mp4");
    let odd = MediaInfo::Document {
        name: "noext".to_string(),
        size: 1,
        mime: Some("application/zip".to_string()),
    };
    assert_eq!(preview_ext(&odd), "bin");
    let none = MediaInfo::Document { name: "trailing.".to_string(), size: 1, mime: None };
    assert_eq!(preview_ext(&none), "bin");
}

#[test]
fn preview_extension_for_photos_and_the_rest() {
    assert_eq!(preview_ext(&MediaInfo::Photo), "jpg");
    assert_eq!(preview_ext(&MediaInfo::Other), "bin");
}

#[test]
fn cache_names_join_identifier_and_extension() {
    assert_eq!(cache_file_name(42, "jpg"), "42.jpg");
    assert_eq!(cache_file_name(-7, "bin"), "-7.bin");
}

#[test]
fn image_extensions_are_recognized_in_any_case() {
    assert!(is_image_ext("jpg"));
    assert!(is_image_ext("JPG"));
    assert!(is_image_ext("JpEg"));
    assert!(is_image_ext("svg"));
    assert!(!is_image_ext("pdf"));
    assert!(!is_image_ext("mp4"));
}

#[test]
fn preview_mime_follows_the_extension() {
    assert_eq!(image_mime_for_ext("png"), "image/png");
    assert_eq!(image_mime_for_ext("GIF"), "image/gif");
    assert_eq!(image_mime_for_ext("webp"), "image/webp");
    assert_eq!(image_mime_for_ext("bmp"), "image/bmp");
    assert_eq!(image_mime_for_ext("svg"), "image/svg+xml");
    assert_eq!(image_mime_for_ext("jpeg"), "image/jpeg");
    assert_eq!(image_mime_for_ext("anything"), "image/jpeg");
}

#[test]
fn data_url_embeds_the_base64_payload() {
    let bytes: Vec<u8> = b"hello".to_vec();
    assert_eq!(image_data_url("image/png", &bytes), "data:image/png;base64,aGVsbG8=");
    let empty: Vec<u8> = Vec::new();
    assert_eq!(image_data_url("image/jpeg", &empty), "data:image/jpeg;base64,");
}

#[test]
fn thumbnails_only_for_images() {
    assert_eq!(thumb_plan(&MediaInfo::Photo), ThumbPlan::Image("jpg".to_string()));
    let webp = MediaInfo::Document {
        name: "pic".to_string(),
        size: 1,
        mime: Some("image/webp".to_string()),
    };
    assert_eq!(thumb_plan(&webp), ThumbPlan::Image("webp".to_string()));
    let exotic = MediaInfo::Document {
        name: "pic".to_string(),
        size: 1,
        mime: Some("image/tiff".to_string()),
    };
    assert_eq!(thumb_plan(&exotic), ThumbPlan::Image("jpg".to_string()));
    let video = MediaInfo::Document {
        name: "clip".to_string(),
        size: 1,
        mime: Some("video/mp4".to_string()),
    };
    assert_eq!(thumb_plan(&video), ThumbPlan::NotImage);
    let unknown = MediaInfo::Document { name: "blob".to_string(), size: 1, mime: None };
    assert_eq!(thumb_plan(&unknown), ThumbPlan::NotImage);
    assert_eq!(thumb_plan(&MediaInfo::Other), ThumbPlan::NotImage);
}

#[test]
fn thumbnail_cache_is_keyed_by_message_identifier() {
    assert!(is_thumb_cache_hit("42.jpg", 42));
    assert!(is_thumb_cache_hit("42.png", 42));
    assert!(!is_thumb_cache_hit("421.jpg", 42));
    assert!(!is_thumb_cache_hit("42", 42));
    assert!(!is_thumb_cache_hit("7.jpg", 42));
}

#[test]
fn cached_name_extension_read_back() {
    assert_eq!(cache_name_ext("42.jpg"), "jpg");
    assert_eq!(cache_name_ext("42.tar.gz"), "gz");
    assert_eq!(cache_name_ext("noext"), "noext");
}

#[test]
fn thumbnail_mime_follows_the_extension_exactly() {
    assert_eq!(thumb_mime_for_ext("png"), "image/png");
    assert_eq!(thumb_mime_for_ext("gif"), "image/gif");
    assert_eq!(thumb_mime_for_ext("webp"), "image/webp");
    assert_eq!(thumb_mime_for_ext("jpg"), "image/jpeg");
    assert_eq!(thumb_mime_for_ext("PNG"), "image/jpeg");
}
