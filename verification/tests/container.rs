use pannotia::chips::Family;
use pannotia::container::{bitstream_crc, Bitstream, BitstreamContainerError, ConfigWord, HeaderWord};

fn be(x: u32) -> [u8; 4] {
    x.to_be_bytes()
}

fn with_crc(mut data: Vec<u8>) -> Vec<u8> {
    let crc = bitstream_crc(&data);
    data.extend_from_slice(&be(crc));
    data
}

#[test]
fn crc_check_value() {
    // the check value of CRC-32/BZIP2
    assert_eq!(bitstream_crc(b"123456789"), 0xfc89_1918);
}

#[test]
fn save_then_read_gives_the_same_bitstream() {
    let mut b = Bitstream::new(Family::AGRV2K);
    b.set_user_id(0x1234_5678);
    let data = b.save();
    assert_eq!(&data[0..8], &[0x40, 0x20, 0x00, 0x01, 0x12, 0x34, 0x56, 0x78]);
    let c = Bitstream::read(&data).unwrap();
    assert_eq!(c.user_id, 0x1234_5678);
    assert!(c.is_complete());
    assert_eq!(c.save(), data);
}

#[test]
fn read_short_input() {
    let data = Bitstream::new(Family::AGRV2K).save();
    assert_eq!(Bitstream::read(&data[..5]).err(), Some(BitstreamContainerError::UnexpectedEof));
    assert_eq!(
        Bitstream::read(&data[..data.len() - 1]).err(),
        Some(BitstreamContainerError::UnexpectedEof)
    );
}

#[test]
fn read_wrong_device() {
    let mut data = Bitstream::new(Family::AGRV2K).save();
    data[0] = 0x41;
    assert_eq!(
        Bitstream::read(&data).err(),
        Some(BitstreamContainerError::InvalidDeviceID(0x4120_0001))
    );
}

#[test]
fn read_bad_header_word() {
    let mut data = Bitstream::new(Family::AGRV2K).save();
    data[8..12].copy_from_slice(&be(0xe000_0000));
    assert_eq!(
        Bitstream::read(&data).err(),
        Some(BitstreamContainerError::InvalidHeaderWord(0xe000_0000))
    );
}

#[test]
fn read_unknown_array() {
    let mut data = Bitstream::new(Family::AGRV2K).save();
    data[8..12].copy_from_slice(&be(HeaderWord::make_config_hdr(false, 3, 0).0));
    assert_eq!(
        Bitstream::read(&data).err(),
        Some(BitstreamContainerError::UnexpectedConfigData { group: 3, chain: 0 })
    );
}

#[test]
fn read_wrong_array_size() {
    let mut data = Bitstream::new(Family::AGRV2K).save();
    data[12..16].copy_from_slice(&be(ConfigWord::make_config_word(100).0));
    assert_eq!(
        Bitstream::read(&data).err(),
        Some(BitstreamContainerError::UnexpectedConfigSize {
            group: 1,
            chain: 0,
            expected_bits: 834,
            have_bits: 100
        })
    );
}

#[test]
fn read_bad_crc() {
    let mut data = Bitstream::new(Family::AGRV2K).save();
    data[20] ^= 0x01;
    let n = data.len();
    let expected = u32::from_be_bytes([data[n - 4], data[n - 3], data[n - 2], data[n - 1]]);
    let calculated = bitstream_crc(&data[..n - 4]);
    assert_ne!(expected, calculated);
    assert_eq!(
        Bitstream::read(&data).err(),
        Some(BitstreamContainerError::InvalidCRC { expected, calculated })
    );
}

#[test]
fn read_partial_bitstream() {
    // only the first array (group 1 chain 0, 834 bits in 108 bytes), marked as the last frame
    let data = Bitstream::new(Family::AGRV2K).save();
    let mut part = data[..16 + 108].to_vec();
    part[8..12].copy_from_slice(&be(HeaderWord::make_config_hdr(true, 1, 0).0));
    let b = Bitstream::read(&with_crc(part)).unwrap();
    assert!(!b.is_complete());
}
