use std::io::Cursor;
use viewlume::decoder::{decode_full_image, thumbnail_from_full};
use viewlume::natural::sort_names_naturally;
use viewlume::navigation::{FolderNavigator, ListedFile};

fn make_test_image(w: u32, h: u32) -> image::RgbaImage {
    image::RgbaImage::from_fn(w, h, |x, y| {
        image::Rgba([(x % 256) as u8, (y % 256) as u8, ((x + y) % 256) as u8, 255])
    })
}

fn png_bytes(img: image::RgbaImage) -> Vec<u8> {
    let mut bytes: Vec<u8> = Vec::new();
    image::DynamicImage::ImageRgba8(img)
        .write_to(&mut Cursor::new(&mut bytes), image::ImageFormat::Png)
        .expect("encode test image");
    bytes
}

#[test]
fn test_image_decode_and_resize() {
    let file_bytes = png_bytes(make_test_image(1920, 1080));
    let decoded = decode_full_image(&file_bytes).expect("decode image");
    assert_eq!(decoded.width, 1920);
    assert_eq!(decoded.height, 1080);

    let thumb = thumbnail_from_full(&decoded, 128, 72).expect("resize image");
    assert_eq!(thumb.width, 128);
    assert_eq!(thumb.height, 72);
}

#[test]
fn test_natural_sorting() {
    let files: Vec<String> = vec!["img10.png", "img1.png", "img2.png", "img20.png"]
        .into_iter()
        .map(String::from)
        .collect();
    let sorted = sort_names_naturally(&files);
    assert_eq!(
        sorted,
        vec!["img1.png", "img2.png", "img10.png", "img20.png"]
    );
}

#[test]
fn test_navigation_with_generated_files() {
    let dir = "/tmp/viewlume_test_nav".to_string();
    let listing: Vec<ListedFile> = ["c.png", "a.png", "notes.txt", "b.png"]
        .iter()
        .map(|name| {
            let path = format!("{}/{}", dir, name);
            ListedFile { path: path.clone(), canonical: path }
        })
        .collect();

    let mut nav = FolderNavigator::new();
    nav.apply_listing(dir.clone(), listing, None);

    assert_eq!(nav.files.len(), 3);
    assert!(nav.files[0].ends_with("a.png"));
    assert!(nav.files[2].ends_with("c.png"));
}
