use zpl::crc::checksum;
use zpl::image::{Compression, SerializedImage};
use zpl::raster::Raster;

fn flat_raster(width: u32, height: u32, luma: u8) -> Raster {
    Raster::new(width, height, vec![luma; (width * height) as usize]).unwrap()
}

#[test]
fn crc16_check_value() {
    // The catalogued check value of CRC-16/XMODEM.
    assert_eq!(checksum(b"123456789"), 0x31c3);
    assert_eq!(checksum(b""), 0x0000);
}

#[test]
fn ascii_encoding_of_single_dark_pixel() {
    let img = flat_raster(1, 1, 0);
    match SerializedImage::from_image(&img).unwrap() {
        SerializedImage::AsciiHex {
            byte_count,
            total_field_count,
            bytes_per_row,
            data,
        } => {
            assert_eq!(byte_count, 2);
            assert_eq!(total_field_count, 1);
            assert_eq!(bytes_per_row, 1);
            assert_eq!(data, "80");
        }
        _ => panic!("expected the hexadecimal encoding"),
    }
}

#[test]
fn ascii_encoding_of_empty_raster() {
    let img = flat_raster(0, 0, 0);
    match SerializedImage::new_ascii(&img).unwrap() {
        SerializedImage::AsciiHex {
            byte_count,
            total_field_count,
            bytes_per_row,
            data,
        } => {
            assert_eq!(byte_count, 0);
            assert_eq!(total_field_count, 0);
            assert_eq!(bytes_per_row, 0);
            assert_eq!(data, "");
        }
        _ => panic!("expected the hexadecimal encoding"),
    }
}

#[test]
fn ascii_encoding_of_dark_row() {
    let img = flat_raster(8, 1, 0);
    match SerializedImage::new_ascii(&img).unwrap() {
        SerializedImage::AsciiHex {
            byte_count,
            total_field_count,
            bytes_per_row,
            data,
        } => {
            assert_eq!(byte_count, 2);
            assert_eq!(total_field_count, 1);
            assert_eq!(bytes_per_row, 1);
            assert_eq!(data, "ff");
        }
        _ => panic!("expected the hexadecimal encoding"),
    }
}

#[test]
fn z64_encoding_is_compressed_and_checksummed() {
    let img = flat_raster(16, 4, 0);
    match SerializedImage::new_z64(&img).unwrap() {
        SerializedImage::Compressed {
            byte_count,
            total_field_count,
            bytes_per_row,
            data,
            id,
            crc,
        } => {
            assert_eq!(id, Compression::Z64);
            assert_eq!(bytes_per_row, 2);
            assert_eq!(total_field_count, 8);
            // The zlib stream header makes the base64 text start with "eJ",
            // so the packed bytes did not pass through unchanged.
            assert!(data.starts_with("eJ"));
            assert_eq!(byte_count as usize, data.len() + 10);
            assert_eq!(crc, checksum(data.as_bytes()));
        }
        _ => panic!("expected the compressed encoding"),
    }
}

#[test]
fn b64_encoding_of_dark_row() {
    let img = flat_raster(8, 1, 0);
    match SerializedImage::new_b64(&img).unwrap() {
        SerializedImage::Compressed {
            byte_count,
            total_field_count,
            bytes_per_row,
            data,
            id,
            crc,
        } => {
            assert_eq!(id, Compression::B64);
            assert_eq!(bytes_per_row, 1);
            assert_eq!(total_field_count, 1);
            assert_eq!(data, "/w==");
            assert_eq!(byte_count, 14);
            assert_eq!(crc, checksum(b"/w=="));
        }
        _ => panic!("expected the compressed encoding"),
    }
}

#[test]
fn counts_satisfy_wire_invariant() {
    // bytes_per_row * height == total_field_count, for both encodings.
    let img = flat_raster(20, 3, 90);
    match SerializedImage::new_ascii(&img).unwrap() {
        SerializedImage::AsciiHex {
            byte_count,
            total_field_count,
            bytes_per_row,
            data,
        } => {
            assert_eq!(bytes_per_row, 3);
            assert_eq!(total_field_count, 9);
            assert_eq!(byte_count, 18);
            assert_eq!(data.len(), 18);
        }
        _ => panic!("expected the hexadecimal encoding"),
    }
    match SerializedImage::new_z64(&img).unwrap() {
        SerializedImage::Compressed {
            total_field_count,
            bytes_per_row,
            ..
        } => {
            assert_eq!(bytes_per_row, 3);
            assert_eq!(total_field_count, 9);
        }
        _ => panic!("expected the compressed encoding"),
    }
}
