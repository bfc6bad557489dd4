use dynlock::config::{
    settings, sources, Background, Cli, Config, TextureFormat, TextureLayout, _true,
};

const PNG_RGBA_2X2: [u8; 80] = [
    137, 80, 78, 71, 13, 10, 26, 10, 0, 0, 0, 13, 73, 72, 68, 82, 0, 0, 0, 2, 0, 0, 0, 2, 8, 6, 0,
    0, 0, 114, 182, 13, 36, 0, 0, 0, 23, 73, 68, 65, 84, 120, 156, 99, 248, 207, 192, 240, 31, 8,
    27, 24, 128, 180, 3, 151, 136, 156, 6, 0, 55, 233, 5, 33, 128, 183, 18, 74, 0, 0, 0, 0, 73, 69,
    78, 68, 174, 66, 96, 130,
];

const PNG_RGB_1X2: [u8; 73] = [
    137, 80, 78, 71, 13, 10, 26, 10, 0, 0, 0, 13, 73, 72, 68, 82, 0, 0, 0, 1, 0, 0, 0, 2, 8, 2, 0,
    0, 0, 22, 227, 33, 112, 0, 0, 0, 16, 73, 68, 65, 84, 120, 156, 99, 96, 100, 98, 102, 96, 97,
    101, 3, 0, 0, 70, 0, 22, 119, 245, 200, 127, 0, 0, 0, 0, 73, 69, 78, 68, 174, 66, 96, 130,
];

fn cli() -> Cli {
    Cli {
        config: None,
        shader: None,
        background: None,
        screensave: None,
        daemonize: false,
        logfile: None,
    }
}

fn background() -> Background {
    Background { width: 1, height: 1, pixels: vec![1, 2, 3, 4] }
}

#[test]
fn the_default_of_lock_is_true() {
    assert!(_true());
}

#[test]
fn the_default_configuration_locks_and_names_nothing() {
    let config = Config::default();
    assert!(config.lock);
    assert_eq!(config.shader, None);
    assert_eq!(config.background, None);
}

#[test]
fn the_command_line_comes_before_the_configuration() {
    let config = Config {
        lock: true,
        shader: Some("config.glsl".to_string()),
        background: Some("config.png".to_string()),
    };
    let with_both = Cli {
        shader: Some("cli.glsl".to_string()),
        background: Some("cli.png".to_string()),
        ..cli()
    };
    let s = sources(with_both, config.clone());
    assert_eq!(s.shader, Some("cli.glsl".to_string()));
    assert_eq!(s.background, Some("cli.png".to_string()));

    let s = sources(cli(), config);
    assert_eq!(s.shader, Some("config.glsl".to_string()));
    assert_eq!(s.background, Some("config.png".to_string()));

    let s = sources(cli(), Config::default());
    assert_eq!(s.shader, None);
    assert_eq!(s.background, None);
}

#[test]
fn screensave_on_the_command_line_decides_the_mode() {
    let locking = Config::default();
    let saving = Config { lock: false, shader: None, background: None };
    assert!(sources(cli(), locking.clone()).lock_mode);
    assert!(!sources(cli(), saving.clone()).lock_mode);
    assert!(!sources(Cli { screensave: Some(true), ..cli() }, locking.clone()).lock_mode);
    assert!(sources(Cli { screensave: Some(false), ..cli() }, locking).lock_mode);
    assert!(!sources(Cli { screensave: Some(true), ..cli() }, saving.clone()).lock_mode);
    assert!(sources(Cli { screensave: Some(false), ..cli() }, saving).lock_mode);
}

#[test]
fn settings_hold_mode_shader_and_background() {
    let s = sources(Cli { screensave: Some(true), ..cli() }, Config::default());
    let made = settings(&s, "void main() {}".to_string(), background());
    assert!(!made.lock_mode);
    assert_eq!(made.shader_source, "void main() {}");
    assert_eq!(made.background.width, 1);
    assert_eq!(made.background.height, 1);
    assert_eq!(made.background.pixels, vec![1, 2, 3, 4]);
}

#[test]
fn an_rgba_image_decodes_to_its_pixels() {
    let b = Background::decode(&PNG_RGBA_2X2.to_vec()).expect("a background");
    assert_eq!(b.width, 2);
    assert_eq!(b.height, 2);
    assert_eq!(
        b.pixels,
        vec![255, 0, 0, 255, 0, 255, 0, 128, 0, 0, 255, 64, 10, 20, 30, 40]
    );
}

#[test]
fn an_rgb_image_decodes_to_opaque_pixels() {
    let b = Background::decode(&PNG_RGB_1X2.to_vec()).expect("a background");
    assert_eq!(b.width, 1);
    assert_eq!(b.height, 2);
    assert_eq!(b.pixels, vec![1, 2, 3, 255, 4, 5, 6, 255]);
}

#[test]
fn bytes_that_are_no_image_give_no_background() {
    assert!(Background::decode(&Vec::new()).is_none());
    assert!(Background::decode(&vec![1, 2, 3, 4, 5, 6, 7, 8]).is_none());
    let mut cut = PNG_RGBA_2X2.to_vec();
    cut.truncate(40);
    assert!(Background::decode(&cut).is_none());
}

#[test]
fn a_decoded_image_must_have_four_bytes_for_each_pixel() {
    let b = Background::from_decoded(Some((2, 1, vec![1, 2, 3, 4, 5, 6, 7, 8]))).expect("a background");
    assert_eq!((b.width, b.height), (2, 1));
    assert_eq!(b.pixels, vec![1, 2, 3, 4, 5, 6, 7, 8]);
    assert!(Background::from_decoded(Some((2, 1, vec![1, 2, 3, 4]))).is_none());
    assert!(Background::from_decoded(Some((1, 1, vec![1, 2, 3, 4, 5]))).is_none());
    assert!(Background::from_decoded(Some((0, 7, Vec::new()))).is_some());
    assert!(Background::from_decoded(Some((u32::MAX, u32::MAX, Vec::new()))).is_none());
    assert!(Background::from_decoded(None).is_none());
}

#[test]
fn the_background_texture_has_the_backgrounds_size() {
    let b = Background { width: 3, height: 2, pixels: vec![0; 24] };
    assert_eq!(
        b.texture(),
        TextureLayout {
            width: 3,
            height: 2,
            format: TextureFormat::Rgba8UnormSrgb,
            texture_binding: true,
            copy_dst: true,
            mip_level_count: 1,
            sample_count: 1,
        }
    );
}

#[test]
fn a_jpeg_decodes_to_four_bytes_for_each_pixel() {
    // an image of one colour, encoded here; what a JPEG decodes to is close
    // to what went in, and how close depends on the decoder
    let (width, height) = (16u32, 8u32);
    let mut rgb = Vec::new();
    for _ in 0..width * height {
        rgb.extend_from_slice(&[200u8, 100, 50]);
    }
    let mut encoded = Vec::new();
    image::codecs::jpeg::JpegEncoder::new_with_quality(&mut encoded, 95)
        .encode(&rgb, width, height, image::ColorType::Rgb8)
        .expect("a JPEG");
    let b = Background::decode(&encoded).expect("a background");
    assert_eq!(b.width, width);
    assert_eq!(b.height, height);
    assert_eq!(b.pixels.len(), 16 * 8 * 4);
    for pixel in b.pixels.chunks(4) {
        assert!((pixel[0] as i32 - 200).abs() <= 16);
        assert!((pixel[1] as i32 - 100).abs() <= 16);
        assert!((pixel[2] as i32 - 50).abs() <= 16);
        assert_eq!(pixel[3], 255);
    }
}
