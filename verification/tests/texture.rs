use quad_engine::surface::{InitError, SurfaceConfig, SurfaceFormat};
use quad_engine::texture::{
    color_format, color_texture_desc, cube_texture_desc, depth_sampler_desc, depth_texture_desc,
    standard_sampler_desc, FilterChoice, PixelFormat, TextureImage,
};

/// A 3x2 RGBA image encoded as PNG, standing in for the bundled asset.
fn asset_png() -> Vec<u8> {
    let mut img = image::RgbaImage::new(3, 2);
    img.put_pixel(0, 0, image::Rgba([255, 0, 0, 255]));
    img.put_pixel(1, 0, image::Rgba([0, 255, 0, 255]));
    img.put_pixel(2, 0, image::Rgba([0, 0, 255, 255]));
    img.put_pixel(0, 1, image::Rgba([10, 20, 30, 40]));
    img.put_pixel(1, 1, image::Rgba([50, 60, 70, 80]));
    img.put_pixel(2, 1, image::Rgba([90, 100, 110, 120]));
    let mut bytes: Vec<u8> = Vec::new();
    let mut cursor = std::io::Cursor::new(&mut bytes);
    img.write_to(&mut cursor, image::ImageOutputFormat::Png).unwrap();
    bytes
}

#[test]
fn decoding_twice_is_identical() {
    let png = asset_png();
    let a = TextureImage::from_bytes(&png).unwrap();
    let b = TextureImage::from_bytes(&png).unwrap();
    assert_eq!(a.width, b.width);
    assert_eq!(a.height, b.height);
    assert_eq!(a.rgba.len(), b.rgba.len());
    assert_eq!(a.rgba, b.rgba);
}

#[test]
fn decode_reports_pixels_and_dimensions() {
    let t = TextureImage::from_bytes(&asset_png()).unwrap();
    assert_eq!(t.width, 3);
    assert_eq!(t.height, 2);
    assert_eq!(t.rgba.len(), 4 * 3 * 2);
    assert_eq!(&t.rgba[0..4], &[255, 0, 0, 255]);
    assert_eq!(&t.rgba[20..24], &[90, 100, 110, 120]);
}

#[test]
fn malformed_asset_is_a_decode_error() {
    let r = TextureImage::from_bytes(&[0, 1, 2, 3]);
    assert_eq!(r.unwrap_err(), InitError::TextureDecode);
}

#[test]
fn upload_rows_stride_four_bytes_per_pixel() {
    let t = TextureImage::from_bytes(&asset_png()).unwrap();
    let l = t.upload_layout().unwrap();
    assert_eq!(l.offset, 0);
    assert_eq!(l.bytes_per_row, 4 * 3);
    assert_eq!(l.rows_per_image, 2);
    assert_eq!(t.rgba.len(), (l.bytes_per_row * l.rows_per_image) as usize);
}

#[test]
fn oversized_row_has_no_upload_layout() {
    let t = TextureImage {
        width: u32::MAX,
        height: 0,
        rgba: Vec::new(),
    };
    assert_eq!(t.upload_layout(), None);
}

#[test]
fn color_format_follows_normal_map_flag() {
    assert_eq!(color_format(false), PixelFormat::Rgba8UnormSrgb);
    assert_eq!(color_format(true), PixelFormat::Rgba8Unorm);
}

#[test]
fn color_texture_matches_image() {
    let d = color_texture_desc(3, 2, false);
    assert_eq!((d.extent.width, d.extent.height, d.extent.layers), (3, 2, 1));
    assert_eq!(d.mip_level_count, 1);
    assert_eq!(d.sample_count, 1);
    assert_eq!(d.format, PixelFormat::Rgba8UnormSrgb);
    assert!(d.texture_binding && d.copy_dst);
    assert!(!d.render_attachment && !d.cube_view);
}

#[test]
fn depth_texture_matches_surface() {
    let config = SurfaceConfig {
        width: 640,
        height: 480,
        format: SurfaceFormat { code: 0, srgb: true },
        present_mode: 0,
        alpha_mode: 0,
        frame_latency: 2,
    };
    let d = depth_texture_desc(&config);
    assert_eq!((d.extent.width, d.extent.height, d.extent.layers), (640, 480, 1));
    assert_eq!(d.format, PixelFormat::Depth32Float);
    assert!(d.render_attachment && d.texture_binding);
    assert!(!d.copy_dst && !d.cube_view);
}

#[test]
fn cube_texture_has_six_layers() {
    let d = cube_texture_desc(16, 16, PixelFormat::Rgba8UnormSrgb, 4, false, true, true);
    assert_eq!(d.extent.layers, 6);
    assert_eq!(d.mip_level_count, 4);
    assert_eq!(d.sample_count, 1);
    assert!(d.cube_view);
}

#[test]
fn samplers_clamp_and_filter_as_configured() {
    let s = standard_sampler_desc(FilterChoice::Nearest);
    assert!(s.clamp_to_edge);
    assert_eq!(s.mag_filter, FilterChoice::Nearest);
    assert_eq!(s.min_filter, FilterChoice::Nearest);
    assert_eq!(s.mipmap_filter, FilterChoice::Nearest);
    assert!(!s.compare_less_equal);

    let comp = depth_sampler_desc(true);
    assert_eq!(comp.mag_filter, FilterChoice::Linear);
    assert_eq!(comp.min_filter, FilterChoice::Linear);
    assert!(comp.compare_less_equal);

    let plain = depth_sampler_desc(false);
    assert_eq!(plain.mag_filter, FilterChoice::Nearest);
    assert!(!plain.compare_less_equal);
}
