use mem_ap_registers::{
    AddressIncrement, BaseAddrFormat, DataSize, DebugEntryState, InvalidDataSizeError,
};

#[test]
fn data_size_codes_are_classified() {
    let expected = [
        Ok(DataSize::U8),
        Ok(DataSize::U16),
        Ok(DataSize::U32),
        Ok(DataSize::U64),
        Ok(DataSize::U128),
        Ok(DataSize::U256),
        Err(InvalidDataSizeError),
        Err(InvalidDataSizeError),
    ];
    for code in 0u8..8 {
        assert_eq!(DataSize::try_from(code), expected[code as usize]);
    }
    assert_eq!(DataSize::try_from(0xFFu8), Err(InvalidDataSizeError));
}

#[test]
fn data_size_code_names_its_size() {
    for size in [
        DataSize::U8,
        DataSize::U16,
        DataSize::U32,
        DataSize::U64,
        DataSize::U128,
        DataSize::U256,
    ] {
        assert_eq!(DataSize::try_from(size.code()), Ok(size));
    }
    assert_eq!(DataSize::U64.code(), 0b011);
}

#[test]
fn byte_counts() {
    assert_eq!(DataSize::U8.to_byte_count(), 1);
    assert_eq!(DataSize::U16.to_byte_count(), 2);
    assert_eq!(DataSize::U32.to_byte_count(), 4);
    assert_eq!(DataSize::U64.to_byte_count(), 8);
    assert_eq!(DataSize::U128.to_byte_count(), 16);
    assert_eq!(DataSize::U256.to_byte_count(), 32);
}

#[test]
fn address_increment_codes_are_classified() {
    assert_eq!(AddressIncrement::from_u8(0b00), Some(AddressIncrement::Off));
    assert_eq!(AddressIncrement::from_u8(0b01), Some(AddressIncrement::Single));
    assert_eq!(AddressIncrement::from_u8(0b10), Some(AddressIncrement::Packed));
    assert_eq!(AddressIncrement::from_u8(0b11), None);
    assert_eq!(AddressIncrement::from_u8(0x40), None);
    for inc in [AddressIncrement::Off, AddressIncrement::Single, AddressIncrement::Packed] {
        assert_eq!(AddressIncrement::from_u8(inc.code()), Some(inc));
    }
}

#[test]
fn base_addr_format_codes_are_total() {
    assert_eq!(BaseAddrFormat::from_bit(false), BaseAddrFormat::Legacy);
    assert_eq!(BaseAddrFormat::from_bit(true), BaseAddrFormat::ADIv5);
    assert_eq!(BaseAddrFormat::Legacy.code(), 0);
    assert_eq!(BaseAddrFormat::ADIv5.code(), 1);
}

#[test]
fn defaults() {
    assert_eq!(DataSize::default(), DataSize::U32);
    assert_eq!(AddressIncrement::default(), AddressIncrement::Single);
    assert_eq!(BaseAddrFormat::default(), BaseAddrFormat::Legacy);
    assert_eq!(DebugEntryState::default(), DebugEntryState::NotPresent);
}
