use image_store::error::{AppError, AppImageError};
use image_store::images::{
    avatar_delete_target, derive_path, finish_cleanup, is_uuid_str, load_image_response,
    post_delete_target, process_images, validate_images, ImageKind,
};
use image_store::model::{AvatarImagePath, CreateBlogPostParams, PostImagePath};

/// A small valid PNG buffer with recognizable pixel content.
fn tiny_png() -> Vec<u8> {
    let img = image::DynamicImage::ImageRgba8(image::RgbaImage::from_fn(2, 2, |x, y| {
        image::Rgba([(10 + x) as u8, (20 + y) as u8, 30, 255])
    }));
    let mut buf = std::io::Cursor::new(Vec::new());
    img.write_to(&mut buf, image::ImageFormat::Png).unwrap();
    buf.into_inner()
}

/// A second valid PNG with different pixel content.
fn other_png() -> Vec<u8> {
    let img = image::DynamicImage::ImageRgba8(image::RgbaImage::from_pixel(
        3,
        1,
        image::Rgba([200, 100, 50, 255]),
    ));
    let mut buf = std::io::Cursor::new(Vec::new());
    img.write_to(&mut buf, image::ImageFormat::Png).unwrap();
    buf.into_inner()
}

fn decode_pixels(bytes: &[u8]) -> (u32, u32, Vec<u8>) {
    let img = image::ImageReader::with_format(std::io::Cursor::new(bytes), image::ImageFormat::Png)
        .decode()
        .unwrap();
    let rgba = img.to_rgba8();
    (rgba.width(), rgba.height(), rgba.into_raw())
}

fn looks_like_uuid(s: &str) -> bool {
    s.len() == 36
        && s.char_indices().all(|(i, c)| {
            if i == 8 || i == 13 || i == 18 || i == 23 {
                c == '-'
            } else {
                c.is_ascii_hexdigit() && !c.is_ascii_uppercase()
            }
        })
}

#[test]
fn derive_path_shards_by_identifier() {
    let id = "123e4567-e89b-12d3-a456-426614174000";
    assert_eq!(
        derive_path(ImageKind::Post, id),
        "./images/posts/12/3e/123e4567-e89b-12d3-a456-426614174000.png"
    );
    assert_eq!(
        derive_path(ImageKind::Avatar, id),
        "./images/avatars/12/3e/123e4567-e89b-12d3-a456-426614174000.png"
    );
}

#[test]
fn derive_path_is_deterministic_and_kind_changes_prefix_only() {
    let id = "00112233-4455-6677-8899-aabbccddeeff";
    let p1 = derive_path(ImageKind::Post, id);
    let p2 = derive_path(ImageKind::Post, id);
    assert_eq!(p1, p2);
    let a = derive_path(ImageKind::Avatar, id);
    assert_ne!(p1, a);
    let file = format!("/{}.png", id);
    assert!(p1.ends_with(&file));
    assert!(a.ends_with(&file));
    assert!(p1.starts_with("./images/posts/"));
    assert!(a.starts_with("./images/avatars/"));
}

#[test]
fn newtype_paths_match_derive_path() {
    let post = PostImagePath::new("123e4567-e89b-12d3-a456-426614174000".to_string());
    assert_eq!(
        post.path(),
        "./images/posts/12/3e/123e4567-e89b-12d3-a456-426614174000.png"
    );
    let avatar = AvatarImagePath::new("123e4567-e89b-12d3-a456-426614174000".to_string());
    assert_eq!(
        avatar.path(),
        "./images/avatars/12/3e/123e4567-e89b-12d3-a456-426614174000.png"
    );
}

#[test]
fn validate_rejects_empty_text() {
    let params = CreateBlogPostParams {
        text: String::new(),
        username: "ada".to_string(),
        image: None,
        avatar_url: None,
    };
    assert_eq!(params.validate(), Err("The blog post text cannot be empty"));
}

#[test]
fn validate_rejects_empty_username() {
    let params = CreateBlogPostParams {
        text: "hello".to_string(),
        username: String::new(),
        image: None,
        avatar_url: None,
    };
    assert_eq!(params.validate(), Err("The username cannot be empty"));
}

#[test]
fn validate_accepts_filled_request() {
    let params = CreateBlogPostParams {
        text: "hello".to_string(),
        username: "ada".to_string(),
        image: None,
        avatar_url: None,
    };
    assert_eq!(params.validate(), Ok(()));
}

#[test]
fn process_nothing_is_a_noop() {
    let out = process_images(None, None).unwrap();
    assert!(out.post.is_none());
    assert!(out.avatar.is_none());
}

#[test]
fn process_post_image_only() {
    let out = process_images(Some(tiny_png()), None).unwrap();
    assert!(out.avatar.is_none());
    let (id, prepared) = out.post.unwrap();
    assert!(looks_like_uuid(&id.0));
    assert_eq!(
        prepared.path,
        format!("./images/posts/{}/{}/{}.png", &id.0[0..2], &id.0[2..4], id.0)
    );
    assert_eq!(decode_pixels(&prepared.png), decode_pixels(&tiny_png()));
}

#[test]
fn process_rejects_invalid_upload() {
    let out = process_images(Some(b"not a png".to_vec()), None);
    assert!(matches!(out, Err(AppImageError::Decode(_))));
}

#[test]
fn process_rejects_non_png_avatar() {
    let out = process_images(None, Some(Ok(b"<html>hello</html>".to_vec())));
    assert!(matches!(out, Err(AppImageError::Decode(_))));
}

#[test]
fn process_reports_failed_fetch() {
    let out = process_images(None, Some(Err("connection refused".to_string())));
    assert!(matches!(out, Err(AppImageError::Download(_))));
}

#[test]
fn process_rejects_invalid_upload_before_any_save() {
    let out = process_images(Some(b"junk".to_vec()), Some(Ok(tiny_png())));
    assert!(matches!(out, Err(AppImageError::Decode(_))));
}

#[test]
fn process_both_yields_distinct_identifiers() {
    let out = process_images(Some(tiny_png()), Some(Ok(other_png()))).unwrap();
    let (post_id, post_file) = out.post.unwrap();
    let (avatar_id, avatar_file) = out.avatar.unwrap();
    assert!(looks_like_uuid(&post_id.0));
    assert!(looks_like_uuid(&avatar_id.0));
    assert_ne!(post_id.0, avatar_id.0);
    assert_ne!(post_file.path, avatar_file.path);
    assert!(post_file.path.starts_with("./images/posts/"));
    assert!(avatar_file.path.starts_with("./images/avatars/"));
}

#[test]
fn processed_bytes_round_trip_to_the_same_pixels() {
    let input = tiny_png();
    let out = process_images(Some(input.clone()), None).unwrap();
    let (_, prepared) = out.post.unwrap();
    // Re-encoding need not be byte-identical, but the pixel content must match.
    assert_eq!(decode_pixels(&prepared.png), decode_pixels(&input));
}

#[test]
fn reencoding_is_a_function_of_the_bytes() {
    let input = tiny_png();
    let first = process_images(Some(input.clone()), None).unwrap();
    let second = process_images(Some(input), None).unwrap();
    let (_, first_file) = first.post.unwrap();
    let (_, second_file) = second.post.unwrap();
    assert_eq!(first_file.png, second_file.png);
}

#[test]
fn validate_images_checks_each_present_input() {
    let ok = validate_images(Some(tiny_png()), Some(Ok(other_png()))).unwrap();
    assert!(ok.post.is_some());
    assert!(ok.avatar.is_some());
    let none = validate_images(None, None).unwrap();
    assert!(none.post.is_none());
    assert!(none.avatar.is_none());
    assert!(matches!(
        validate_images(Some(b"nope".to_vec()), None),
        Err(AppImageError::Decode(_))
    ));
    assert!(matches!(
        validate_images(None, Some(Err("timeout".to_string()))),
        Err(AppImageError::Download(_))
    ));
}

#[test]
fn uuid_text_form_is_checked_exactly() {
    assert!(is_uuid_str("123e4567-e89b-12d3-a456-426614174000"));
    assert!(is_uuid_str("00000000-0000-0000-0000-000000000000"));
    // wrong length
    assert!(!is_uuid_str(""));
    assert!(!is_uuid_str("123e4567-e89b-12d3-a456-42661417400"));
    assert!(!is_uuid_str("123e4567-e89b-12d3-a456-4266141740000"));
    // hyphen out of place
    assert!(!is_uuid_str("123e45674e89b-12d3-a456-426614174000"));
    // upper case or non-hex characters
    assert!(!is_uuid_str("123E4567-e89b-12d3-a456-426614174000"));
    assert!(!is_uuid_str("123g4567-e89b-12d3-a456-426614174000"));
}

#[test]
fn generated_identifiers_have_uuid_text_form() {
    let out = process_images(Some(tiny_png()), Some(Ok(other_png()))).unwrap();
    let (post_id, _) = out.post.unwrap();
    let (avatar_id, _) = out.avatar.unwrap();
    assert!(is_uuid_str(&post_id.0));
    assert!(is_uuid_str(&avatar_id.0));
}

#[test]
fn deleting_nothing_names_no_path() {
    assert!(post_delete_target(None).is_none());
    assert!(avatar_delete_target(None).is_none());
}

#[test]
fn delete_targets_are_the_derived_paths() {
    let post = PostImagePath::new("123e4567-e89b-12d3-a456-426614174000".to_string());
    assert_eq!(
        post_delete_target(Some(&post)).as_deref(),
        Some("./images/posts/12/3e/123e4567-e89b-12d3-a456-426614174000.png")
    );
    let avatar = AvatarImagePath::new("123e4567-e89b-12d3-a456-426614174000".to_string());
    assert_eq!(
        avatar_delete_target(Some(&avatar)).as_deref(),
        Some("./images/avatars/12/3e/123e4567-e89b-12d3-a456-426614174000.png")
    );
}

#[test]
fn cleanup_swallows_removal_failures() {
    // A failed removal (for example of a file that was never saved) must not
    // fail the combined post-deletion cleanup.
    let r = finish_cleanup(
        Err(AppImageError::Io("no such file".to_string())),
        Err(AppImageError::Io("no such file".to_string())),
    );
    assert!(r.is_ok());
    assert!(finish_cleanup(Ok(()), Ok(())).is_ok());
}

#[test]
fn app_error_hides_database_details() {
    let (status, message) = AppError::DatabaseError("table is locked".to_string()).into_response();
    assert_eq!(status, 500);
    assert_eq!(message, "Something went wrong on our end. Sorry about that!");
}

#[test]
fn app_error_reports_image_problems_to_the_client() {
    let (status, message) = AppError::ImageError("bad image".to_string()).into_response();
    assert_eq!(status, 400);
    assert_eq!(message, "bad image");
}

#[test]
fn load_response_is_unpadded_base64() {
    let r = load_image_response(Ok(b"hello world".to_vec())).unwrap();
    assert_eq!(r, "aGVsbG8gd29ybGQ");
    let empty = load_image_response(Ok(Vec::new())).unwrap();
    assert_eq!(empty, "");
}

#[test]
fn load_response_surfaces_read_failures() {
    let r = load_image_response(Err("no such file".to_string()));
    match r {
        Err(AppImageError::Io(m)) => assert_eq!(m, "no such file"),
        _ => panic!("expected an I/O error"),
    }
}
