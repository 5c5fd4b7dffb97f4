use pokedex::pixel::{Pixel, PixelGrid};

#[test]
fn grid_needs_one_pixel_per_position() {
    let p = Pixel { r: 1, g: 2, b: 3, a: 4 };
    assert!(PixelGrid::new(2, 3, vec![p; 6]).is_some());
    assert!(PixelGrid::new(2, 3, vec![p; 5]).is_none());
    assert!(PixelGrid::new(2, 3, vec![p; 7]).is_none());
    assert!(PixelGrid::new(0, 3, vec![]).is_some());
    assert!(PixelGrid::new(0, 3, vec![p]).is_none());
    assert!(PixelGrid::new(u32::MAX, u32::MAX, vec![p]).is_none());
}

#[test]
fn pixels_are_found_row_by_row() {
    let mut pixels = Vec::new();
    for y in 0..3u8 {
        for x in 0..4u8 {
            pixels.push(Pixel { r: x, g: y, b: 0, a: 255 });
        }
    }
    let grid = PixelGrid::new(4, 3, pixels).unwrap();
    assert_eq!(grid.width(), 4);
    assert_eq!(grid.height(), 3);
    for y in 0..3u32 {
        for x in 0..4u32 {
            assert_eq!(grid.get_pixel(x, y), Pixel { r: x as u8, g: y as u8, b: 0, a: 255 });
        }
    }
}

#[test]
fn outside_the_grid_is_transparent() {
    let p = Pixel { r: 9, g: 9, b: 9, a: 9 };
    let grid = PixelGrid::new(2, 2, vec![p; 4]).unwrap();
    assert_eq!(grid.pixel_or_clear(1, 1), p);
    assert_eq!(grid.pixel_or_clear(2, 0), Pixel { r: 0, g: 0, b: 0, a: 0 });
    assert_eq!(grid.pixel_or_clear(0, 2), Pixel { r: 0, g: 0, b: 0, a: 0 });
    assert!(grid.pixel_or_clear(5, 5).is_transparent());
    assert!(!p.is_transparent());
}

#[test]
fn rgba_bytes_become_pixels() {
    let data = [1u8, 2, 3, 4, 5, 6, 7, 8];
    let grid = PixelGrid::from_rgba(2, 1, &data).unwrap();
    assert_eq!(grid.get_pixel(0, 0), Pixel { r: 1, g: 2, b: 3, a: 4 });
    assert_eq!(grid.get_pixel(1, 0), Pixel { r: 5, g: 6, b: 7, a: 8 });
    let tall = PixelGrid::from_rgba(1, 2, &data).unwrap();
    assert_eq!(tall.get_pixel(0, 1), Pixel { r: 5, g: 6, b: 7, a: 8 });
}

#[test]
fn rgba_bytes_must_fit_the_extent() {
    let data = [0u8; 8];
    assert!(PixelGrid::from_rgba(2, 2, &data).is_none());
    assert!(PixelGrid::from_rgba(1, 1, &data).is_none());
    assert!(PixelGrid::from_rgba(2, 1, &data[..7]).is_none());
    assert!(PixelGrid::from_rgba(0, 0, &data[..0]).is_some());
    assert!(PixelGrid::from_rgba(0, 0, &data[..3]).is_none());
}
