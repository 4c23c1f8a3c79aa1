use sharp::bytes::{read_u16_le, read_u32_be, read_u32_le};
use sharp::icon::{decode, encode, is_png, write_icon_entry, write_icon_entry_bmp, write_icon_entry_png};
use sharp::pipeline::Pipeline;

/// The start of a 16 by 32 RGBA PNG stream: signature and IHDR chunk.
fn png_16x32() -> Vec<u8> {
    vec![
        0x89, 0x50, 0x4E, 0x47, 0x0D, 0x0A, 0x1A, 0x0A, 0, 0, 0, 13, 73, 72, 68, 82, 0, 0, 0, 16, 0,
        0, 0, 32, 8, 6, 0, 0, 0, 0, 0, 0, 0,
    ]
}

fn png_with_size(width: u32, height: u32) -> Vec<u8> {
    let mut d = png_16x32();
    d[16..20].copy_from_slice(&width.to_be_bytes());
    d[20..24].copy_from_slice(&height.to_be_bytes());
    d
}

/// A BMP file: 14-byte file header, 40-byte info header, no pixels.
fn bmp(width: u32, height: u32, planes: u16, bpp: u16, colours: u32) -> Vec<u8> {
    let mut d = vec![0u8; 54];
    d[0] = 0x42;
    d[1] = 0x4D;
    d[14..18].copy_from_slice(&40u32.to_le_bytes());
    d[18..22].copy_from_slice(&width.to_le_bytes());
    d[22..26].copy_from_slice(&height.to_le_bytes());
    d[26..28].copy_from_slice(&planes.to_le_bytes());
    d[28..30].copy_from_slice(&bpp.to_le_bytes());
    d[46..50].copy_from_slice(&colours.to_le_bytes());
    d
}

#[test]
fn reads_little_and_big_endian_numbers() {
    let d = [0x01u8, 0x02, 0x03, 0x04, 0x05];
    assert_eq!(read_u16_le(&d, 0), 0x0201);
    assert_eq!(read_u16_le(&d, 3), 0x0504);
    assert_eq!(read_u32_le(&d, 0), 0x04030201);
    assert_eq!(read_u32_be(&d, 1), 0x02030405);
}

#[test]
fn recognises_png_signature() {
    assert!(is_png(&png_16x32()));
    assert!(!is_png(&[0x42, 0x4D, 0, 0]));
    assert!(!is_png(&[0x00]));
}

#[test]
fn png_entry_of_small_image() {
    let e = write_icon_entry_png(&png_16x32()).unwrap();
    assert_eq!(e, vec![16, 32, 0, 0, 1, 0, 8, 0, 33, 0, 0, 0, 0, 0, 0, 0]);
    // 256 pixels is written as 0
    let e = write_icon_entry_png(&png_with_size(256, 256)).unwrap();
    assert_eq!(&e[0..2], &[0, 0]);
}

#[test]
fn png_entry_refusals() {
    assert_eq!(write_icon_entry_png(&png_with_size(257, 16)).unwrap_err(), "PNG width must not exceed 256");
    assert_eq!(write_icon_entry_png(&png_with_size(16, 300)).unwrap_err(), "PNG height must not exceed 256");
    let mut indexed = png_16x32();
    indexed[25] = 3;
    assert_eq!(write_icon_entry_png(&indexed).unwrap_err(), "PNG's second chunk must be a PLTE if indexed");
    let mut no_ihdr = png_16x32();
    no_ihdr[12..16].copy_from_slice(b"abcd");
    assert_eq!(write_icon_entry_png(&no_ihdr).unwrap_err(), "PNG's first chunk must be an IHDR");
}

#[test]
fn bmp_entry_of_small_image() {
    // 8 bits per pixel with no stored palette size: 256 entries, written as 255
    let e = write_icon_entry_bmp(&bmp(16, 32, 1, 8, 0)).unwrap();
    assert_eq!(&e[0..4], &[16, 32, 255, 0]);
    assert_eq!(read_u16_le(&e, 4), 1);
    assert_eq!(read_u16_le(&e, 6), 8);
    assert_eq!(read_u32_le(&e, 8), 40);
    let e = write_icon_entry(&bmp(32, 64, 1, 32, 0)).unwrap();
    assert_eq!(&e[0..3], &[32, 64, 0]);
}

#[test]
fn bmp_entry_refusals() {
    assert_eq!(write_icon_entry_bmp(&bmp(300, 16, 1, 32, 0)).unwrap_err(), "BMP width must not exceed 256");
    assert_eq!(write_icon_entry_bmp(&bmp(16, 600, 1, 32, 0)).unwrap_err(), "BMP height must not exceed 256");
    assert_eq!(write_icon_entry_bmp(&bmp(16, 16, 2, 32, 0)).unwrap_err(), "BMP color planes must be 1");
}

#[test]
fn encodes_one_png() {
    let ico = encode(vec![png_16x32()]).unwrap();
    assert_eq!(ico.len(), 6 + 16 + 33);
    assert_eq!(&ico[0..6], &[0, 0, 1, 0, 1, 0]);
    assert_eq!(&ico[6..22], &[16, 32, 0, 0, 1, 0, 8, 0, 33, 0, 0, 0, 22, 0, 0, 0]);
    assert_eq!(&ico[22..], &png_16x32()[..]);
}

#[test]
fn encodes_nothing_as_empty_directory() {
    assert_eq!(encode(vec![]).unwrap(), vec![0, 0, 1, 0, 0, 0]);
}

#[test]
fn encode_then_decode_gives_back_pngs() {
    let a = png_16x32();
    let b = png_with_size(256, 48);
    let ico = encode(vec![a.clone(), b.clone()]).unwrap();
    let entries = decode(ico).unwrap();
    assert_eq!(entries.len(), 2);
    assert_eq!(entries[0].image_type, "png");
    assert_eq!(entries[0].image_data, a);
    assert_eq!(entries[0].width, 16);
    assert_eq!(entries[0].height, 32);
    assert_eq!(entries[0].bits_per_pixel, 8);
    assert_eq!(entries[0].color_planes, 1);
    assert_eq!(entries[0].image_offset, 6 + 32);
    assert_eq!(entries[1].image_data, b);
    assert_eq!(entries[1].width, 256);
    assert_eq!(entries[1].height, 48);
    assert_eq!(entries[1].image_offset, 6 + 32 + 33);
}

#[test]
fn encode_refuses_an_oversized_image() {
    assert_eq!(encode(vec![png_16x32(), png_with_size(512, 16)]).unwrap_err(), "PNG width must not exceed 256");
}

#[test]
fn decode_refusals() {
    assert_eq!(decode(vec![1, 0, 1, 0, 0, 0]).unwrap_err(), "Reserved must be 0");
    assert_eq!(decode(vec![0, 0, 3, 0, 0, 0]).unwrap_err(), "image type must be ICO or CUR");
    assert_eq!(decode(vec![0, 0, 1, 0, 0, 0]).unwrap().len(), 0);
}

#[test]
fn pipeline_from_icon_reads_first_png() {
    let ico = encode(vec![png_16x32()]).unwrap();
    let p = Pipeline::from_icon_buffer(ico).unwrap();
    assert_eq!(p.input.buffer, png_16x32());
    assert!(p.input.is_buffer);
    assert_eq!(p.input.raw_channels, 0);
    assert_eq!(p.join.len(), 0);
}

#[test]
fn pipeline_from_empty_icon_is_refused() {
    let err = Pipeline::from_icon_buffer(vec![0, 0, 1, 0, 0, 0]).err().unwrap();
    assert_eq!(err, "Not icon data found");
}

#[test]
fn encode_then_decode_rebuilds_bmp_file() {
    let d = bmp(16, 32, 1, 32, 0);
    let ico = encode(vec![d.clone()]).unwrap();
    let entries = decode(ico).unwrap();
    assert_eq!(entries.len(), 1);
    assert_eq!(entries[0].image_type, "bmp");
    assert_eq!((entries[0].width, entries[0].height, entries[0].bits_per_pixel), (16, 32, 32));
    let mut expected = vec![0x42u8, 0x4D];
    expected.extend_from_slice(&54u32.to_le_bytes());
    expected.extend_from_slice(&54u32.to_le_bytes());
    expected.extend_from_slice(&d[14..]);
    expected.extend_from_slice(&16u32.to_le_bytes());
    expected.extend_from_slice(&32u32.to_le_bytes());
    assert_eq!(entries[0].image_data, expected);
}
