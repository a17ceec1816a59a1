//! Serialized form of a monochrome raster for the protocol's
//! embedded-graphics field: either a direct hexadecimal rendering of the
//! packed bytes, or a deflate-compressed, base64-encoded rendering with a
//! 16-bit checksum for device-side integrity verification.

use std::io::Write;

use base64::Engine;

use vstd::prelude::*;

use crate::raster::{
    bit_encode, bytes_per_row, dither, lemma_mul_u32_fits, spec_bit_encode, spec_bytes_per_row,
    spec_dither_seq, Raster,
};
use crate::text::{hex_digit, push_char, spec_hex_digit_char};

verus! {

/// Encoding scheme tag of a compressed serialized image.
#[derive(Clone, PartialEq, Eq, Structural, Debug)]
pub enum Compression {
    /// Base64-encoded packed bytes, not compressed.
    B64,
    /// Zlib-compressed, base64-encoded packed bytes.
    Z64,
}

impl Compression {
    /// The scheme's tag as it appears on the wire.
    pub open spec fn spec_tag(self) -> Seq<char> {
        match self {
            Compression::B64 => "B64"@,
            Compression::Z64 => "Z64"@,
        }
    }

    /// The scheme's tag as it appears on the wire.
    pub fn tag(&self) -> (r: &'static str)
        ensures
            r@ == self.spec_tag(),
    {
        match self {
            Compression::B64 => "B64",
            Compression::Z64 => "Z64",
        }
    }
}

/// A 1-bit-per-pixel raster serialized for the embedded-graphics command,
/// together with the byte counts the wire format declares.
#[derive(Clone)]
pub enum SerializedImage {
    /// Two hexadecimal digits per packed byte.
    AsciiHex {
        /// Declared payload size: twice the number of packed bytes.
        byte_count: u32,
        /// Number of packed bytes: `bytes_per_row * height`.
        total_field_count: u32,
        /// Packed bytes per raster row.
        bytes_per_row: u32,
        /// The hexadecimal text.
        data: String,
    },
    /// Base64 text of the (optionally compressed) packed bytes, protected by
    /// a CRC-16/XMODEM checksum over the base64 text.
    Compressed {
        /// Declared payload size: base64 length plus ten bytes of framing.
        byte_count: u32,
        /// Number of packed bytes: `bytes_per_row * height`.
        total_field_count: u32,
        /// Packed bytes per raster row.
        bytes_per_row: u32,
        /// The base64 text.
        data: String,
        /// Which scheme produced `data`.
        id: Compression,
        /// CRC-16/XMODEM of the base64 text.
        crc: u16,
    },
}

/// Why an image could not be serialized.
#[derive(Clone, PartialEq, Eq, Structural, Debug)]
pub enum EncodeError {
    /// The declared byte counts would not fit the wire format's 32-bit
    /// fields.
    ImageTooLarge,
}

/// Lowercase hexadecimal text of a byte sequence: two digits per byte, high
/// nibble first.
pub open spec fn spec_hex_bytes(b: Seq<u8>) -> Seq<char> {
    Seq::new(
        2 * b.len(),
        |i: int|
            if i % 2 == 0 {
                spec_hex_digit_char((b[i / 2] / 16) as nat)
            } else {
                spec_hex_digit_char((b[i / 2] % 16) as nat)
            },
    )
}

/// The zlib-compressed form of a byte sequence, at the default compression
/// level.
pub uninterp spec fn spec_zlib_deflate(data: Seq<u8>) -> Seq<u8>;

/// The standard (RFC 4648, padded) base64 text of a byte sequence.
pub uninterp spec fn spec_base64_standard(data: Seq<u8>) -> Seq<char>;

/// The bytes of an ASCII character sequence, one byte per character.
pub open spec fn spec_ascii_bytes(s: Seq<char>) -> Seq<u8> {
    Seq::new(s.len(), |i: int| s[i] as u8)
}

/// Renders bytes as lowercase hexadecimal text, two digits per byte, high
/// nibble first.
fn hex_encode(data: &Vec<u8>) -> (r: String)
    ensures
        r@ == spec_hex_bytes(data@),
{
    let mut s = String::new();
    let mut i: usize = 0;
    proof {
        assert(s@ =~= spec_hex_bytes(data@.take(0int)));
    }
    while i < data.len()
        invariant
            0 <= i <= data@.len(),
            s@ == spec_hex_bytes(data@.take(i as int)),
        decreases data@.len() - i,
    {
        let b = data[i];
        push_char(&mut s, hex_digit(b / 16));
        push_char(&mut s, hex_digit(b % 16));
        proof {
            assert(s@ =~= spec_hex_bytes(data@.take(i as int + 1)));
        }
        i = i + 1;
    }
    proof {
        assert(data@.take(data@.len() as int) =~= data@);
    }
    s
}

/// Relies on flate2's ZlibEncoder at the default compression level with the
/// default pure-Rust backend, writing into a Vec: compressing a whole buffer
/// this way cannot fail (the writer is infallible and the encoder only
/// reports a corrupt stream state, which whole-input compression never
/// enters), and the stream is a deterministic function of the input bytes.
#[verifier::external_body]
fn zlib_compress(data: &Vec<u8>) -> (r: Vec<u8>)
    ensures
        r@ == spec_zlib_deflate(data@),
{
    let mut encoder = flate2::write::ZlibEncoder::new(Vec::new(), flate2::Compression::default());
    encoder
        .write_all(data.as_slice())
        .expect("writing into a Vec cannot fail");
    encoder.finish().expect("writing into a Vec cannot fail")
}

/// Relies on base64's STANDARD engine: RFC 4648 alphabet with `=` padding,
/// so the output is ASCII and four characters long per three-byte group,
/// rounded up.
#[verifier::external_body]
pub(crate) fn base64_encode(data: &Vec<u8>) -> (r: String)
    ensures
        r@ == spec_base64_standard(data@),
        r@.len() == 4 * ((data@.len() + 2) / 3),
        vstd::utf8::is_ascii_chars(r@),
{
    base64::engine::general_purpose::STANDARD.encode(data.as_slice())
}

/// The packed bytes of a raster after dithering: the payload every
/// serialized encoding carries.
pub open spec fn spec_packed_dithered(img: Raster) -> Seq<u8> {
    spec_bit_encode(
        img.width as nat,
        img.height as nat,
        spec_dither_seq(img.width as nat, img.pixels@),
    )
}

/// The base64 text carried by the compressed (`Z64`) encoding of a raster.
pub open spec fn spec_z64_text(img: Raster) -> Seq<char> {
    spec_base64_standard(spec_zlib_deflate(spec_packed_dithered(img)))
}

/// The base64 text carried by the uncompressed (`B64`) encoding of a raster.
pub open spec fn spec_b64_text(img: Raster) -> Seq<char> {
    spec_base64_standard(spec_packed_dithered(img))
}

/// What a successful direct hexadecimal serialization of `img` holds.
pub open spec fn spec_ascii_ok(img: Raster, s: SerializedImage) -> bool {
    match s {
        SerializedImage::AsciiHex { byte_count, total_field_count, bytes_per_row, data } => {
            &&& data@ == spec_hex_bytes(spec_packed_dithered(img))
            &&& bytes_per_row == spec_bytes_per_row(img.width as nat)
            &&& total_field_count == spec_bytes_per_row(img.width as nat) * img.height as nat
            &&& byte_count == 2 * total_field_count
        },
        _ => false,
    }
}

/// What a successful compressed (`Z64`) serialization of `img` holds.
pub open spec fn spec_z64_ok(img: Raster, s: SerializedImage) -> bool {
    match s {
        SerializedImage::Compressed { byte_count, total_field_count, bytes_per_row, data, id, crc } => {
            &&& data@ == spec_z64_text(img)
            &&& byte_count == spec_z64_text(img).len() + 10
            &&& bytes_per_row == spec_bytes_per_row(img.width as nat)
            &&& total_field_count == spec_bytes_per_row(img.width as nat) * img.height as nat
            &&& id == Compression::Z64
            &&& crc == crate::crc::spec_crc16_xmodem(spec_ascii_bytes(spec_z64_text(img)))
        },
        _ => false,
    }
}

/// What a successful uncompressed base64 (`B64`) serialization of `img`
/// holds.
pub open spec fn spec_b64_ok(img: Raster, s: SerializedImage) -> bool {
    match s {
        SerializedImage::Compressed { byte_count, total_field_count, bytes_per_row, data, id, crc } => {
            &&& data@ == spec_b64_text(img)
            &&& byte_count == spec_b64_text(img).len() + 10
            &&& bytes_per_row == spec_bytes_per_row(img.width as nat)
            &&& total_field_count == spec_bytes_per_row(img.width as nat) * img.height as nat
            &&& id == Compression::B64
            &&& crc == crate::crc::spec_crc16_xmodem(spec_ascii_bytes(spec_b64_text(img)))
        },
        _ => false,
    }
}

/// A raster too large for the compressed encoding's declared byte counts.
pub open spec fn spec_z64_too_large(img: Raster) -> bool {
    spec_bytes_per_row(img.width as nat) * img.height as nat > u32::MAX || spec_z64_text(img).len()
        + 10 > u32::MAX
}

impl SerializedImage {
    /// The direct hexadecimal encoding of a raster: dither, pack, then two
    /// hexadecimal digits per packed byte. Fails only when the declared byte
    /// count would not fit the wire format's 32-bit field.
    pub fn new_ascii(img: &Raster) -> (r: Result<SerializedImage, EncodeError>)
        requires
            img.wf(),
        ensures
            match r {
                Ok(s) => spec_ascii_ok(*img, s),
                Err(e) => e == EncodeError::ImageTooLarge,
            },
            r is Err <==> 2 * (spec_bytes_per_row(img.width as nat) * img.height as nat)
                > u32::MAX,
    {
        let dithered = dither(img);
        let packed = bit_encode(&dithered);
        let bpr = bytes_per_row(img.width);
        proof {
            lemma_mul_u32_fits(bpr as int, img.height as int);
        }
        let total: u64 = bpr as u64 * img.height as u64;
        if total > 0x7FFF_FFFFu64 {
            return Err(EncodeError::ImageTooLarge);
        }
        let data = hex_encode(&packed);
        Ok(
            SerializedImage::AsciiHex {
                byte_count: (2 * total) as u32,
                total_field_count: total as u32,
                bytes_per_row: bpr,
                data,
            },
        )
    }

    /// The direct hexadecimal encoding of a raster; see `new_ascii`.
    pub fn from_image(img: &Raster) -> (r: Result<SerializedImage, EncodeError>)
        requires
            img.wf(),
        ensures
            match r {
                Ok(s) => spec_ascii_ok(*img, s),
                Err(e) => e == EncodeError::ImageTooLarge,
            },
            r is Err <==> 2 * (spec_bytes_per_row(img.width as nat) * img.height as nat)
                > u32::MAX,
    {
        Self::new_ascii(img)
    }

    /// The compressed encoding of a raster: dither, pack, deflate, base64,
    /// with a checksum over the base64 text and a byte count of the base64
    /// length plus ten bytes of framing.
    pub fn new_z64(img: &Raster) -> (r: Result<SerializedImage, EncodeError>)
        requires
            img.wf(),
        ensures
            match r {
                Ok(s) => spec_z64_ok(*img, s),
                Err(e) => e == EncodeError::ImageTooLarge,
            },
            r is Err <==> spec_z64_too_large(*img),
    {
        let dithered = dither(img);
        let packed = bit_encode(&dithered);
        let bpr = bytes_per_row(img.width);
        proof {
            lemma_mul_u32_fits(bpr as int, img.height as int);
        }
        let total: u64 = bpr as u64 * img.height as u64;
        if total > 0xFFFF_FFFFu64 {
            return Err(EncodeError::ImageTooLarge);
        }
        let compressed = zlib_compress(&packed);
        let data = base64_encode(&compressed);
        let b64_len: usize = data.as_str().unicode_len();
        if b64_len as u64 > 0xFFFF_FFF5u64 {
            return Err(EncodeError::ImageTooLarge);
        }
        let crc = crate::crc::checksum(data.as_str().as_bytes());
        proof {
            vstd::utf8::is_ascii_chars_encode_utf8(data@);
            assert(spec_ascii_bytes(data@) =~= vstd::utf8::encode_utf8(data@));
        }
        Ok(
            SerializedImage::Compressed {
                byte_count: (b64_len as u64 + 10) as u32,
                total_field_count: total as u32,
                bytes_per_row: bpr,
                data,
                id: Compression::Z64,
                crc,
            },
        )
    }

    /// The uncompressed base64 encoding of a raster: dither, pack, base64,
    /// with a checksum over the base64 text and a byte count of the base64
    /// length plus ten bytes of framing.
    pub fn new_b64(img: &Raster) -> (r: Result<SerializedImage, EncodeError>)
        requires
            img.wf(),
        ensures
            match r {
                Ok(s) => spec_b64_ok(*img, s),
                Err(e) => e == EncodeError::ImageTooLarge,
            },
            r is Err <==> (spec_bytes_per_row(img.width as nat) * img.height as nat > u32::MAX
                || spec_b64_text(*img).len() + 10 > u32::MAX),
    {
        let dithered = dither(img);
        let packed = bit_encode(&dithered);
        let bpr = bytes_per_row(img.width);
        proof {
            lemma_mul_u32_fits(bpr as int, img.height as int);
        }
        let total: u64 = bpr as u64 * img.height as u64;
        if total > 0xFFFF_FFFFu64 {
            return Err(EncodeError::ImageTooLarge);
        }
        let data = base64_encode(&packed);
        let b64_len: usize = data.as_str().unicode_len();
        if b64_len as u64 > 0xFFFF_FFF5u64 {
            return Err(EncodeError::ImageTooLarge);
        }
        let crc = crate::crc::checksum(data.as_str().as_bytes());
        proof {
            vstd::utf8::is_ascii_chars_encode_utf8(data@);
            assert(spec_ascii_bytes(data@) =~= vstd::utf8::encode_utf8(data@));
        }
        Ok(
            SerializedImage::Compressed {
                byte_count: (b64_len as u64 + 10) as u32,
                total_field_count: total as u32,
                bytes_per_row: bpr,
                data,
                id: Compression::B64,
                crc,
            },
        )
    }
}

} // verus!
