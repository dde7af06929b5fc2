use lib::fp::fx2x64;
use lib::fp::F128;
use lib::fp::F16;

#[test]
fn bits_round_trip() {
    assert_eq!(F16::from_bits(0x3c00).to_bits(), 0x3c00);
    assert_eq!(F128::from_bits(1 << 127).to_bits(), 1 << 127);
    assert_eq!(fx2x64::from_bits(0x1234).to_bits(), 0x1234);
}

#[test]
fn byte_order() {
    let x: u16 = 0x1234;
    assert_eq!(F16::from_bits(x).to_be().to_bits(), x.to_be());
    assert_eq!(F16::from_bits(x).to_le().to_bits(), x.to_le());
    let be = F16::from_bits(x).to_be().to_bits();
    assert!(be == x || be == 0x3412);
    let y: u128 = 0x0102_0304_0506_0708_090a_0b0c_0d0e_0f10;
    assert_eq!(F128::from_bits(y).to_be().to_bits(), y.to_be());
    assert_eq!(F128::from_bits(y).to_le().to_bits(), y.to_le());
    assert_eq!(fx2x64::from_bits(y).to_be().to_bits(), y.to_be());
    assert_eq!(fx2x64::from_bits(y).to_le().to_bits(), y.to_le());
    let be = F128::from_bits(y).to_be().to_bits();
    assert!(be == y || be == y.swap_bytes());
}
