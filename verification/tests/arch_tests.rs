use bepinex_installer::arch::Arch;
use bepinex_installer::arch::ElfHeaderError;

fn header(encoding: u8, b18: u8, b19: u8) -> Vec<u8> {
    let mut h = vec![
        0x7f, 0x45, 0x4c, 0x46, encoding, 0x01, 0x01, 0x00, 0x00, 0x00, 0x00, 0x00, 0x00, 0x00,
        0x00, 0x00, 0x00, 0x00, 0x00, 0x00,
    ];
    h[18] = b18;
    h[19] = b19;
    h
}

#[test]
fn little_endian_x86_header_is_x86() {
    let h = header(0x01, 0x03, 0x00);
    assert_eq!(Arch::from_header(&h), Ok(Some(Arch::X86)));
}

#[test]
fn little_endian_x86_64_header_is_x86_64() {
    let h = header(0x01, 0x3e, 0x00);
    assert_eq!(Arch::from_header(&h), Ok(Some(Arch::X86_64)));
}

#[test]
fn big_endian_machine_field_is_swapped() {
    assert_eq!(Arch::from_header(&header(0x02, 0x00, 0x03)), Ok(Some(Arch::X86)));
    assert_eq!(Arch::from_header(&header(0x02, 0x00, 0x3e)), Ok(Some(Arch::X86_64)));
}

#[test]
fn wrong_magic_is_unknown() {
    let mut h = header(0x01, 0x03, 0x00);
    h[0] = 0x7e;
    assert_eq!(Arch::from_header(&h), Ok(None));
}

#[test]
fn short_header_is_unknown() {
    let h = vec![0x7f, 0x45, 0x4c, 0x46, 0x01];
    assert_eq!(Arch::from_header(&h), Ok(None));
    assert_eq!(Arch::from_header(&Vec::new()), Ok(None));
}

#[test]
fn unsupported_machine_value_is_unknown() {
    let h = header(0x01, 0x28, 0x00);
    assert_eq!(Arch::from_header(&h), Ok(None));
}

#[test]
fn invalid_data_encoding_is_a_malformed_header() {
    let h = header(0x00, 0x03, 0x00);
    assert_eq!(Arch::from_header(&h), Err(ElfHeaderError::InvalidDataEncoding));
    let h = header(0x03, 0x03, 0x00);
    assert_eq!(Arch::from_header(&h), Err(ElfHeaderError::InvalidDataEncoding));
}
