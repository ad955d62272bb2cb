use rusterizer::texture::Texture;

fn encode_rgba_png(width: u32, height: u32, pixels: &[u8]) -> Vec<u8> {
    let mut data: Vec<u8> = Vec::new();
    {
        let mut encoder = png::Encoder::new(&mut data, width, height);
        encoder.set_color(png::ColorType::Rgba);
        encoder.set_depth(png::BitDepth::Eight);
        let mut writer = encoder.write_header().unwrap();
        writer.write_image_data(pixels).unwrap();
    }
    data
}

#[test]
fn png_round_trip() {
    let pixels: [u8; 16] = [
        255, 0, 0, 255, // upper left: red
        0, 255, 0, 128, // upper right: half-transparent green
        0, 0, 255, 255, // lower left: blue
        10, 20, 30, 40, // lower right: arbitrary
    ];
    let data = encode_rgba_png(2, 2, &pixels);

    let tex = Texture::from_png_bytes(&data).expect("decoding a fresh RGBA png must work");
    assert_eq!(tex.width, 2);
    assert_eq!(tex.height, 2);
    assert_eq!(tex.texel_width, 4);
    assert_eq!(tex.buf, pixels.to_vec());

    assert_eq!(tex.read_texel(0, 0), [255, 0, 0, 255]);
    assert_eq!(tex.read_texel(1, 0), [0, 255, 0, 128]);
    assert_eq!(tex.read_texel(0, 1), [0, 0, 255, 255]);
    assert_eq!(tex.read_texel(1, 1), [10, 20, 30, 40]);
}

#[test]
fn png_garbage_is_rejected() {
    let data = vec![1u8, 2, 3, 4, 5, 6, 7, 8];
    assert!(Texture::from_png_bytes(&data).is_none());
}

#[test]
fn png_non_rgba_is_rejected() {
    let mut data: Vec<u8> = Vec::new();
    {
        let mut encoder = png::Encoder::new(&mut data, 1, 1);
        encoder.set_color(png::ColorType::Grayscale);
        encoder.set_depth(png::BitDepth::Eight);
        let mut writer = encoder.write_header().unwrap();
        writer.write_image_data(&[128u8]).unwrap();
    }
    assert!(Texture::from_png_bytes(&data).is_none());
}
