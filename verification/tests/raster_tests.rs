use zpl::raster::{bit_encode, bytes_per_row, dither, Raster};

fn raster(width: u32, height: u32, pixels: Vec<u8>) -> Raster {
    Raster::new(width, height, pixels).unwrap()
}

fn uniform(width: u32, height: u32, luma: u8) -> Raster {
    raster(width, height, vec![luma; (width * height) as usize])
}

fn from_fn(width: u32, height: u32, f: impl Fn(u32, u32) -> u8) -> Raster {
    let mut pixels = Vec::new();
    for y in 0..height {
        for x in 0..width {
            pixels.push(f(x, y));
        }
    }
    raster(width, height, pixels)
}

#[test]
fn convert_luma_to_bits() {
    assert_eq!(bit_encode(&uniform(0, 0, 0)).len(), 0);
    assert_eq!(bit_encode(&uniform(4, 4, 0)).len(), 4);
    assert_eq!(bit_encode(&uniform(8, 1, 0)).len(), 1);
    assert_eq!(bit_encode(&uniform(7, 1, 0)).len(), 1);
    assert_eq!(bit_encode(&uniform(7, 2, 0)).len(), 2);

    assert_eq!(bit_encode(&uniform(224, 64, 0)).len(), 28 * 64);

    // A luma at the threshold is bright; a dark bit needs a luma below 127.
    assert_eq!(bit_encode(&uniform(1, 1, 127)), vec![0]);
    assert_eq!(bit_encode(&uniform(1, 1, 128)), vec![0]);
    assert_eq!(bit_encode(&uniform(1, 1, 126)), vec![0x80]);

    assert_eq!(
        bit_encode(&from_fn(8, 2, |_, y| 128 >> y)),
        vec![0x00, 0xff]
    );

    assert_eq!(
        bit_encode(&from_fn(8, 2, |x, y| ((x + y) as u8) * 31)),
        vec![0xf8, 0xf0]
    );
}

#[test]
fn bit_encode_all_dark_row() {
    // An 8-by-1 all-dark image packs to a single full byte.
    assert_eq!(bit_encode(&uniform(8, 1, 0)), vec![0xff]);
}

#[test]
fn bit_encode_pads_rows() {
    // 7 pixels round up to one byte per row; the padding bit stays clear.
    assert_eq!(bit_encode(&uniform(7, 1, 0)), vec![0xfe]);
}

#[test]
fn bit_encode_checkerboard() {
    let img = from_fn(8, 2, |x, y| if (x + y) % 2 == 0 { 0 } else { 255 });
    assert_eq!(bit_encode(&img), vec![0xaa, 0x55]);
}

#[test]
fn bytes_per_row_rounds_up() {
    assert_eq!(bytes_per_row(0), 0);
    assert_eq!(bytes_per_row(1), 1);
    assert_eq!(bytes_per_row(8), 1);
    assert_eq!(bytes_per_row(9), 2);
    assert_eq!(bytes_per_row(224), 28);
}

#[test]
fn raster_rejects_wrong_buffer() {
    assert!(Raster::new(2, 2, vec![0; 3]).is_none());
    assert!(Raster::new(2, 2, vec![0; 4]).is_some());
}

#[test]
fn dither_keeps_extremes() {
    let black = dither(&uniform(8, 8, 0));
    assert!(black.pixels.iter().all(|&p| p == 0));
    let white = dither(&uniform(8, 8, 255));
    assert!(white.pixels.iter().all(|&p| p == 255));
}

#[test]
fn dither_patterns_midtones() {
    // A mid-gray field dithers to a half-and-half pixel pattern, not to a
    // solid region.
    let mid = dither(&uniform(8, 8, 127));
    let dark = mid.pixels.iter().filter(|&&p| p == 0).count();
    assert_eq!(dark, 32);
    assert!(mid.pixels.iter().all(|&p| p == 0 || p == 255));
}
