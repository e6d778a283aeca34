use vulkmini::mesh_plan::{plan_mesh_draws, DrawCall, TextureSource};
use vulkmini::texture::{TextureData, TextureLoadError};

#[test]
fn one_draw_per_object_with_its_texture() {
    let calls = plan_mesh_draws(&vec![true, true, false], &vec![36, 36, 36]);
    assert_eq!(
        calls,
        vec![
            DrawCall { object: 0, vertex_count: 36, texture: TextureSource::Own },
            DrawCall { object: 1, vertex_count: 36, texture: TextureSource::Own },
            DrawCall { object: 2, vertex_count: 36, texture: TextureSource::Fallback },
        ]
    );
}

#[test]
fn draws_stop_at_the_shorter_list() {
    assert_eq!(plan_mesh_draws(&vec![false, true], &vec![3]).len(), 1);
    assert_eq!(plan_mesh_draws(&vec![false], &vec![3, 6, 9]).len(), 1);
    assert!(plan_mesh_draws(&vec![], &vec![3]).is_empty());
}

#[test]
fn vertex_count_is_taken_as_u32() {
    let big: usize = (u32::MAX as usize) + 5;
    let calls = plan_mesh_draws(&vec![false], &vec![big]);
    assert_eq!(calls[0].vertex_count, 4);
}

#[test]
fn white_fallback_is_one_white_pixel() {
    let t = TextureData::white_fallback();
    assert_eq!(t.width(), 1);
    assert_eq!(t.height(), 1);
    assert_eq!(t.into_rgba(), vec![255u8, 255, 255, 255]);
}

#[test]
fn decoded_texture_keeps_its_pixels() {
    let pixels: Vec<u8> = (0..16u8).collect();
    let t = TextureData::from_rgba8(2, 2, pixels.clone());
    assert_eq!(t.width(), 2);
    assert_eq!(t.height(), 2);
    assert_eq!(t.into_rgba(), pixels);
}

fn png_bytes(img: image::DynamicImage) -> Vec<u8> {
    let mut buf: Vec<u8> = Vec::new();
    img.write_to(&mut std::io::Cursor::new(&mut buf), image::ImageOutputFormat::Png)
        .unwrap();
    buf
}

#[test]
fn png_file_decodes_to_its_pixels() {
    let pixels: Vec<u8> = vec![1, 2, 3, 4, 250, 251, 252, 253];
    let img = image::RgbaImage::from_raw(2, 1, pixels.clone()).unwrap();
    let bytes = png_bytes(image::DynamicImage::ImageRgba8(img));
    let t = TextureData::from_file_bytes("textures/two.png", &bytes).unwrap();
    assert_eq!(t.width(), 2);
    assert_eq!(t.height(), 1);
    assert_eq!(t.into_rgba(), pixels);
}

#[test]
fn rgb_image_gets_opaque_alpha() {
    let img = image::RgbImage::from_raw(1, 2, vec![10, 20, 30, 40, 50, 60]).unwrap();
    let bytes = png_bytes(image::DynamicImage::ImageRgb8(img));
    let t = TextureData::from_file_bytes("a.PNG", &bytes).unwrap();
    assert_eq!(t.width(), 1);
    assert_eq!(t.height(), 2);
    assert_eq!(t.into_rgba(), vec![10, 20, 30, 255, 40, 50, 60, 255]);
}

fn undecodable(r: Result<TextureData, TextureLoadError>) -> bool {
    matches!(r, Err(TextureLoadError::Undecodable(_)))
}

#[test]
fn undecodable_files_give_no_texture() {
    let img = image::RgbaImage::from_raw(1, 1, vec![9, 9, 9, 9]).unwrap();
    let bytes = png_bytes(image::DynamicImage::ImageRgba8(img));
    // the extension decides the format
    assert!(undecodable(TextureData::from_file_bytes("a.jpg", &bytes)));
    assert!(undecodable(TextureData::from_file_bytes("no_extension", &bytes)));
    assert!(undecodable(TextureData::from_file_bytes("a.unknown", &bytes)));
    // bytes that are no image
    assert!(undecodable(TextureData::from_file_bytes("a.png", b"not an image")));
    assert!(undecodable(TextureData::from_file_bytes("a.png", &[])));
}

#[test]
fn decoder_message_is_handed_back() {
    match TextureData::from_file_bytes("a.png", b"not an image") {
        Err(TextureLoadError::Undecodable(message)) => assert!(!message.is_empty()),
        _ => panic!("expected a decoding error"),
    }
}

#[test]
fn grey_image_decodes_to_rgba() {
    let img = image::GrayImage::from_raw(3, 1, vec![0, 128, 255]).unwrap();
    let bytes = png_bytes(image::DynamicImage::ImageLuma8(img));
    let t = TextureData::from_file_bytes("g.png", &bytes).unwrap();
    assert_eq!(t.width(), 3);
    assert_eq!(t.height(), 1);
    assert_eq!(t.into_rgba(), vec![0, 0, 0, 255, 128, 128, 128, 255, 255, 255, 255, 255]);
}
