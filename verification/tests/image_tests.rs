use telegram_notify::images::get_images;

const PNG_PATH: &str = ".com/1234567/abc123def-45ab67cd-ab12-cd34-ef56-0123456789ab.png";
const JPEG_PATH: &str = ".com/7654321/xyz987wvu-98zy76xw-zy98-xw76-vu54-ba9876543210.jpeg";
const JPG_PATH: &str = ".com/1111111/aaaaaaaaa-bbbbbbbb-cccc-dddd-eeee-ffffffffffff.jpg";
const HOST: &str = "https://user-images.githubusercontent";

#[test]
fn no_asset_link_gives_empty_list() {
    assert!(get_images("").is_empty());
    assert!(get_images("plain body with no links at all").is_empty());
    assert!(get_images("https://example.com/image.png").is_empty());
}

#[test]
fn six_digit_id_is_not_a_match() {
    let body = format!(
        "{}{}",
        HOST, ".com/123456/abc123def-45ab67cd-ab12-cd34-ef56-0123456789ab.png"
    );
    assert!(get_images(&body).is_empty());
}

#[test]
fn wrong_extension_is_not_a_match() {
    let body = format!(
        "{}{}",
        HOST, ".com/1234567/abc123def-45ab67cd-ab12-cd34-ef56-0123456789ab.gif"
    );
    assert!(get_images(&body).is_empty());
}

#[test]
fn single_png_link_is_extracted() {
    let body = format!("before {}{} after", HOST, PNG_PATH);
    assert_eq!(get_images(&body), vec![format!("{}{}", HOST, PNG_PATH)]);
}

#[test]
fn jpg_and_jpeg_links_are_extracted() {
    let body = format!("a {}{} b", HOST, JPG_PATH);
    assert_eq!(get_images(&body), vec![format!("{}{}", HOST, JPG_PATH)]);
    let body = format!("a {}{} b", HOST, JPEG_PATH);
    assert_eq!(get_images(&body), vec![format!("{}{}", HOST, JPEG_PATH)]);
}

#[test]
fn two_links_come_out_in_textual_order() {
    let body = format!("first {}{}\nthen {}{} end", HOST, JPEG_PATH, HOST, PNG_PATH);
    assert_eq!(
        get_images(&body),
        vec![
            format!("{}{}", HOST, JPEG_PATH),
            format!("{}{}", HOST, PNG_PATH),
        ]
    );
}

#[test]
fn duplicate_links_are_kept() {
    let body = format!("{}{} and {}{}", HOST, PNG_PATH, HOST, PNG_PATH);
    assert_eq!(
        get_images(&body),
        vec![
            format!("{}{}", HOST, PNG_PATH),
            format!("{}{}", HOST, PNG_PATH),
        ]
    );
}

#[test]
fn bare_path_without_host_still_matches() {
    let body = format!("see {} here", PNG_PATH);
    assert_eq!(get_images(&body), vec![format!("{}{}", HOST, PNG_PATH)]);
}
