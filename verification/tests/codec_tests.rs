use mag3110::Register;
use mag3110::DataRate;
use mag3110::Oversampling;
use mag3110::decode_axis;
use mag3110::decode_temperature;
use mag3110::encode;
use mag3110::ADDRESS;

#[test]
fn device_address_is_fixed() {
    assert_eq!(ADDRESS, 0x0E);
}

#[test]
fn register_addresses_match_the_map() {
    assert_eq!(Register::DR_STATUS.addr(), 0x00);
    assert_eq!(Register::OUT_X_MSB.addr(), 0x01);
    assert_eq!(Register::OUT_X_LSB.addr(), 0x02);
    assert_eq!(Register::OUT_Y_MSB.addr(), 0x03);
    assert_eq!(Register::OUT_Y_LSB.addr(), 0x04);
    assert_eq!(Register::OUT_Z_MSB.addr(), 0x05);
    assert_eq!(Register::OUT_Z_LSB.addr(), 0x06);
    assert_eq!(Register::WHO_AM_I.addr(), 0x07);
    assert_eq!(Register::SYSMOD.addr(), 0x08);
    assert_eq!(Register::OFF_X_MSB.addr(), 0x09);
    assert_eq!(Register::OFF_X_LSB.addr(), 0x0A);
    assert_eq!(Register::OFF_Y_MSB.addr(), 0x0B);
    assert_eq!(Register::OFF_Y_LSB.addr(), 0x0C);
    assert_eq!(Register::OFF_Z_MSB.addr(), 0x0D);
    assert_eq!(Register::OFF_Z_LSB.addr(), 0x0E);
    assert_eq!(Register::DIE_TEMP.addr(), 0x0F);
    assert_eq!(Register::CTRL_REG1.addr(), 0x10);
    assert_eq!(Register::CTRL_REG2.addr(), 0x11);
}

#[test]
fn rate_bit_patterns_match_the_map() {
    assert_eq!(DataRate::HZ80.bits(), 0x00);
    assert_eq!(DataRate::HZ40.bits(), 0x20);
    assert_eq!(DataRate::HZ20.bits(), 0x40);
    assert_eq!(DataRate::HZ10.bits(), 0x60);
    assert_eq!(DataRate::HZ5.bits(), 0x80);
    assert_eq!(DataRate::HZ2_5.bits(), 0xA0);
    assert_eq!(DataRate::HZ1_25.bits(), 0xC0);
    assert_eq!(DataRate::HZ0_63.bits(), 0xE0);
}

#[test]
fn oversampling_bit_patterns_match_the_map() {
    assert_eq!(Oversampling::OV16.bits(), 0x00);
    assert_eq!(Oversampling::OV32.bits(), 0x08);
    assert_eq!(Oversampling::OV64.bits(), 0x10);
    assert_eq!(Oversampling::OV128.bits(), 0x18);
}

#[test]
fn encode_is_the_bitwise_union_for_every_pair() {
    let rates = vec![
        DataRate::HZ80,
        DataRate::HZ40,
        DataRate::HZ20,
        DataRate::HZ10,
        DataRate::HZ5,
        DataRate::HZ2_5,
        DataRate::HZ1_25,
        DataRate::HZ0_63,
    ];
    let ratios = vec![
        Oversampling::OV16,
        Oversampling::OV32,
        Oversampling::OV64,
        Oversampling::OV128,
    ];
    for rate in &rates {
        for ratio in &ratios {
            assert_eq!(encode(*rate, *ratio, true), rate.bits() | ratio.bits() | 1);
            assert_eq!(encode(*rate, *ratio, false), rate.bits() | ratio.bits());
            // the three bit groups never overlap
            assert_eq!(rate.bits() & ratio.bits(), 0);
            assert_eq!(rate.bits() & 1, 0);
            assert_eq!(ratio.bits() & 1, 0);
        }
    }
}

#[test]
fn encode_masks_are_disjoint() {
    assert_eq!(0xE0 & 0x18, 0);
    assert_eq!(0xE0 & 0x01, 0);
    assert_eq!(0x18 & 0x01, 0);
}

#[test]
fn encode_default_mode_is_one() {
    assert_eq!(encode(DataRate::HZ80, Oversampling::OV16, true), 0x01);
}

#[test]
fn decode_axis_reconstructs_msb_first() {
    assert_eq!(decode_axis(0x12, 0x34), 0x1234);
    assert_eq!(decode_axis(0x56, 0x78), 0x5678);
    // negative wraparound: 0x9ABC as a 16-bit two's-complement value
    assert_eq!(decode_axis(0x9A, 0xBC), -25924);
    assert_eq!(decode_axis(0x00, 0x00), 0);
    assert_eq!(decode_axis(0x7F, 0xFF), 32767);
    assert_eq!(decode_axis(0x80, 0x00), -32768);
    assert_eq!(decode_axis(0xFF, 0xFF), -1);
}

#[test]
fn decode_temperature_is_signed() {
    assert_eq!(decode_temperature(0xFF), -1);
    assert_eq!(decode_temperature(0x7F), 127);
    assert_eq!(decode_temperature(0x80), -128);
    assert_eq!(decode_temperature(0x00), 0);
    assert_eq!(decode_temperature(0x19), 25);
}
