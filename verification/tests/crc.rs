use tmag5170::crc::{crc4, INIT, MASK, POLY, REFLECT, WIDTH, XOROUT};

#[test]
fn parameters_are_those_of_the_sensor() {
    assert_eq!(POLY, 0x03);
    assert_eq!(WIDTH, 4);
    assert_eq!(INIT, 0x0F);
    assert_eq!(XOROUT, 0x00);
    assert!(!REFLECT);
    assert_eq!(MASK, 0x0F);
}

#[test]
fn checksum_of_four_zero_bytes() {
    assert_eq!(crc4(&[0x00, 0x00, 0x00, 0x00]), 0x09);
}

#[test]
fn checksum_of_nothing_is_the_initial_value() {
    assert_eq!(crc4(&[]), 0x0F);
}

#[test]
fn checksum_of_the_check_string() {
    assert_eq!(crc4(b"123456789"), 0x04);
}

#[test]
fn checksum_of_sample_frames() {
    assert_eq!(crc4(&[0x80, 0x00, 0x00, 0x00]), 0x0F);
    assert_eq!(crc4(&[0x80, 0x00, 0x00, 0x10]), 0x0A);
    assert_eq!(crc4(&[0x89, 0x12, 0x34, 0x00]), 0x09);
    assert_eq!(crc4(&[0xAB, 0xCD, 0xE2, 0x70]), 0x02);
    assert_eq!(crc4(&[0x00, 0x51, 0x2D, 0x00]), 0x08);
}

#[test]
fn checksum_is_the_same_every_time() {
    let mut byte: u8 = 0;
    loop {
        let data = [byte, byte.wrapping_mul(7), !byte, byte & 0xF0];
        let first = crc4(&data);
        let second = crc4(&data);
        assert_eq!(first, second);
        if byte == 0xFF {
            break;
        }
        byte += 1;
    }
}

#[test]
fn checksum_has_four_bits() {
    let mut byte: u8 = 0;
    loop {
        assert!(crc4(&[byte]) <= 0x0F);
        assert!(crc4(&[0xA5, byte, 0x5A]) <= 0x0F);
        if byte == 0xFF {
            break;
        }
        byte += 1;
    }
}

#[test]
fn checksum_depends_on_the_bytes() {
    assert_ne!(crc4(&[0x00, 0x00, 0x00, 0x00]), crc4(&[0x80, 0x00, 0x00, 0x00]));
    assert_ne!(crc4(&[0x89, 0x12, 0x34, 0x00]), crc4(&[0x89, 0x12, 0x34, 0x10]));
}
