use mem_ap_registers::{
    AddressIncrement, BaseAddrFormat, DataSize, Register, RegisterParseError, BASE, BASE2, BD0,
    BD1, BD2, BD3, CFG, CSW, DRW, IDR, MBT, TAR, TAR2,
};

fn csw_with(addr_inc: AddressIncrement, size: DataSize) -> CSW {
    CSW {
        DbgSwEnable: false,
        Prot: 0,
        SDeviceEn: false,
        RMEEN: 0,
        _RES0: 0,
        ERRSTOP: false,
        ERRNPASS: false,
        MTE: false,
        Type: 0,
        Mode: 0,
        TrInProg: false,
        DeviceEn: false,
        AddrInc: addr_inc,
        _RES1: 0,
        SIZE: size,
    }
}

#[test]
fn csw_decode_example() {
    let csw = CSW::decode(0x0000_0002).unwrap();
    assert_eq!(csw, csw_with(AddressIncrement::Off, DataSize::U32));
}

#[test]
fn csw_decode_every_field() {
    let csw = CSW::decode(0xAB_A5_F7_AD).unwrap();
    assert!(csw.DbgSwEnable);
    assert_eq!(csw.Prot, 0x2B);
    assert!(csw.SDeviceEn);
    assert_eq!(csw.RMEEN, 0b01);
    assert_eq!(csw._RES0, 0b001);
    assert!(!csw.ERRSTOP);
    assert!(csw.ERRNPASS);
    assert!(csw.MTE);
    assert_eq!(csw.Type, 0b111);
    assert_eq!(csw.Mode, 0x7);
    assert!(csw.TrInProg);
    assert!(!csw.DeviceEn);
    assert_eq!(csw.AddrInc, AddressIncrement::Packed);
    assert_eq!(csw._RES1, 1);
    assert_eq!(csw.SIZE, DataSize::U256);
    assert_eq!(csw.encode(), 0xAB_A5_F7_AD);
}

#[test]
fn csw_invalid_size() {
    assert_eq!(
        CSW::decode(0x0000_0006),
        Err(RegisterParseError { register_name: "CSW", raw_value: 0x0000_0006 })
    );
    assert_eq!(
        CSW::decode(0xFFFF_FFEF),
        Err(RegisterParseError { register_name: "CSW", raw_value: 0xFFFF_FFEF })
    );
}

#[test]
fn csw_invalid_address_increment() {
    assert_eq!(
        CSW::decode(0x0000_0032),
        Err(RegisterParseError { register_name: "CSW", raw_value: 0x0000_0032 })
    );
}

#[test]
fn csw_reserved_bit_three_round_trips() {
    let csw = CSW::decode(0x0000_0008).unwrap();
    assert_eq!(csw._RES1, 1);
    assert_eq!(csw.encode(), 0x0000_0008);
}

#[test]
fn csw_encode_places_fields() {
    let mut csw = csw_with(AddressIncrement::Single, DataSize::U8);
    csw.DbgSwEnable = true;
    csw.DeviceEn = true;
    csw.Mode = 0x3;
    assert_eq!(csw.encode(), 0x8000_0350);
    assert_eq!(CSW::decode(csw.encode()), Ok(csw));
}

#[test]
fn csw_encode_merges_wide_integer_fields() {
    let mut csw = csw_with(AddressIncrement::Off, DataSize::U8);
    csw.Prot = 0xFF;
    assert_eq!(csw.encode(), 0xFF00_0000);
    assert!(CSW::decode(csw.encode()).unwrap().DbgSwEnable);
}

#[test]
fn base_decode_example() {
    let base = BASE::decode(0xE000_0003).unwrap();
    assert_eq!(base.BASEADDR, 0xE0000);
    assert_eq!(base.Format, BaseAddrFormat::ADIv5);
    assert!(base.present);
    assert_eq!(base._RES0, 0);
    assert_eq!(base.encode(), 0xE000_0003);
}

#[test]
fn base_reserved_bits_encode_as_zero() {
    let base = BASE::decode(0x1234_5FFC).unwrap();
    assert_eq!(base.BASEADDR, 0x12345);
    assert_eq!(base.Format, BaseAddrFormat::Legacy);
    assert!(!base.present);
    assert_eq!(base.encode(), 0x1234_5000);
}

#[test]
fn idr_decode_example() {
    let raw: u32 = 0x2477_0011;
    let idr = IDR::decode(raw).unwrap();
    assert_eq!(idr.REVISION, 0x2);
    assert_eq!(idr.DESIGNER, 0x23B);
    assert_eq!(idr.CLASS, 0x8);
    assert_eq!(idr.VARIANT, 0x1);
    assert_eq!(idr.TYPE, 0x1);
    assert_eq!(idr.REVISION as u32, (raw >> 28) & 0xF);
    assert_eq!(idr.DESIGNER as u32, (raw >> 17) & 0x7FF);
    assert_eq!(idr.CLASS as u32, (raw >> 13) & 0xF);
    assert_eq!(idr.VARIANT as u32, (raw >> 4) & 0xF);
    assert_eq!(idr.TYPE as u32, raw & 0xF);
    assert_eq!(idr.encode(), raw);
}

#[test]
fn idr_unread_bits_do_not_round_trip() {
    let idr = IDR::decode(0x0000_1F00).unwrap();
    assert_eq!(idr, IDR { REVISION: 0, DESIGNER: 0, CLASS: 0, VARIANT: 0, TYPE: 0 });
    assert_eq!(idr.encode(), 0);
}

#[test]
fn cfg_round_trip() {
    let cfg = CFG::decode(0xFFFF_FFF5).unwrap();
    assert_eq!(cfg, CFG { LD: true, LA: false, BE: true });
    assert_eq!(cfg.encode(), 0x5);
    assert_eq!(CFG::decode(0x2).unwrap(), CFG { LD: false, LA: true, BE: false });
}

#[test]
fn whole_word_registers_round_trip() {
    let raw: u32 = 0xDEAD_BEEF;
    assert_eq!(TAR::decode(raw).unwrap(), TAR { address: raw });
    assert_eq!(TAR2::decode(raw).unwrap().encode(), raw);
    assert_eq!(DRW::decode(raw).unwrap(), DRW { data: raw });
    assert_eq!(BD0::decode(raw).unwrap().encode(), raw);
    assert_eq!(BD1::decode(raw).unwrap().encode(), raw);
    assert_eq!(BD2::decode(raw).unwrap().encode(), raw);
    assert_eq!(BD3::decode(raw).unwrap().encode(), raw);
    assert_eq!(MBT::decode(raw).unwrap().data, raw);
    assert_eq!(BASE2::decode(raw).unwrap(), BASE2 { BASEADDR: raw });
    assert_eq!(TAR { address: 0x2000_0000 }.encode(), 0x2000_0000);
}

#[test]
fn register_addresses() {
    assert_eq!(CSW::address(), 0xD00);
    assert_eq!(TAR::address(), 0xD04);
    assert_eq!(TAR2::address(), 0xD08);
    assert_eq!(DRW::address(), 0xD0C);
    assert_eq!(BD0::address(), 0xD10);
    assert_eq!(BD1::address(), 0xD14);
    assert_eq!(BD2::address(), 0xD18);
    assert_eq!(BD3::address(), 0xD1C);
    assert_eq!(MBT::address(), 0xD20);
    assert_eq!(BASE2::address(), 0xDF0);
    assert_eq!(CFG::address(), 0xDF4);
    assert_eq!(BASE::address(), 0xDF8);
    assert_eq!(IDR::address(), 0xDFC);
    assert_eq!(CSW::ADDRESS, CSW::address());
    assert_eq!(IDR::ADDRESS, 0xDFC);
}

#[test]
fn register_names() {
    assert_eq!(CSW::name(), "CSW");
    assert_eq!(TAR2::name(), "TAR2");
    assert_eq!(BD3::name(), "BD3");
    assert_eq!(BASE2::name(), "BASE2");
    assert_eq!(IDR::name(), "IDR");
    assert_eq!(CFG::NAME, "CFG");
}

#[test]
fn parse_error_new() {
    assert_eq!(
        RegisterParseError::new("CSW", 7),
        RegisterParseError { register_name: "CSW", raw_value: 7 }
    );
}
