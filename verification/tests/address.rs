use hts221::address::I2cAddress;

#[test]
fn address_wraps_a_byte() {
    let address = I2cAddress::new(0x5F);
    assert_eq!(address, I2cAddress(0x5F));
    let raw: u8 = address.into();
    assert_eq!(raw, 0x5F);
    let back: I2cAddress = 0x5Fu8.into();
    assert_eq!(back, address);
    assert_ne!(I2cAddress::new(0x5E), address);
}

#[test]
fn address_formats_in_lower_hex() {
    assert_eq!(I2cAddress::new(0x5F).lower_hex(), "5f");
    assert_eq!(I2cAddress::new(0x0A).lower_hex(), "a");
    assert_eq!(I2cAddress::new(0).lower_hex(), "0");
    assert_eq!(I2cAddress::new(0xFF).lower_hex(), "ff");
    assert_eq!(I2cAddress::new(0x10).lower_hex(), "10");
}

#[test]
fn address_formats_in_upper_hex() {
    assert_eq!(I2cAddress::new(0x5F).upper_hex(), "5F");
    assert_eq!(I2cAddress::new(0x0A).upper_hex(), "A");
    assert_eq!(I2cAddress::new(9).upper_hex(), "9");
    assert_eq!(I2cAddress::new(0xBC).upper_hex(), "BC");
}

#[test]
fn address_hex_agrees_with_the_digits_of_every_byte() {
    let lower = ['0', '1', '2', '3', '4', '5', '6', '7', '8', '9', 'a', 'b', 'c', 'd', 'e', 'f'];
    for value in 0u8..=255 {
        let mut expected = String::new();
        if value >= 16 {
            expected.push(lower[(value / 16) as usize]);
        }
        expected.push(lower[(value % 16) as usize]);
        assert_eq!(I2cAddress::new(value).lower_hex(), expected);
        assert_eq!(I2cAddress::new(value).upper_hex(), expected.to_uppercase());
    }
}
