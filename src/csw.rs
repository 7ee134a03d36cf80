//! The Control and Status Word register.
use crate::fields::{lemma_address_increment_codes, lemma_data_size_codes, AddressIncrement, DataSize};
use crate::register::{flag_code, spec_flag_code, Register, RegisterParseError};
use vstd::prelude::*;

verus! {

/// Control and Status Word register.
///
/// The control and status word register (CSW) configures memory access
/// through the memory access port.
#[allow(non_snake_case)]
#[derive(Debug, Clone, Copy, PartialEq, Eq, Structural)]
pub struct CSW {
    /// Debug software access is enabled. Bit 31.
    pub DbgSwEnable: bool,
    /// Bus access protection protocol, used with `Type`. Bits 30 to 24.
    pub Prot: u8,
    /// Secure debug is enabled. Bit 23.
    pub SDeviceEn: bool,
    /// Realm and root access status. Bits 22 and 21.
    pub RMEEN: u8,
    /// Reserved. Bits 20 to 18.
    pub _RES0: u8,
    /// Memory access errors prevent future memory accesses. Bit 17.
    pub ERRSTOP: bool,
    /// Errors are not passed upstream. Bit 16.
    pub ERRNPASS: bool,
    /// Memory tagging access is enabled. Bit 15.
    pub MTE: bool,
    /// Memory tagging type. Bits 14 to 12.
    pub Type: u8,
    /// Mode of operation, normally `0b0000`. Bits 11 to 8.
    pub Mode: u8,
    /// A transfer is in progress. Bit 7.
    pub TrInProg: bool,
    /// Transactions can be issued through this access port. Bit 6.
    pub DeviceEn: bool,
    /// The address increment on DRW access. Bits 5 and 4.
    pub AddrInc: AddressIncrement,
    /// Reserved. Bit 3.
    pub _RES1: u8,
    /// The access size. Bits 2 to 0.
    pub SIZE: DataSize,
}

impl CSW {
    /// The byte offset of the CSW register.
    pub const ADDRESS: u16 = 0xD00;

    /// The name of the CSW register.
    pub const NAME: &'static str = "CSW";
}

/// The raw CSW value with the given field values, each shifted into place.
pub open spec fn csw_word(
    dbg_sw_enable: bool,
    prot: u8,
    s_device_en: bool,
    rmeen: u8,
    res0: u8,
    errstop: bool,
    errnpass: bool,
    mte: bool,
    mem_type: u8,
    mode: u8,
    tr_in_prog: bool,
    device_en: bool,
    addr_inc: u8,
    res1: u8,
    size: u8,
) -> u32 {
    (spec_flag_code(dbg_sw_enable) << 31u32) | ((prot as u32) << 24u32) | (spec_flag_code(
        s_device_en,
    ) << 23u32) | ((rmeen as u32) << 21u32) | ((res0 as u32) << 18u32) | (spec_flag_code(errstop)
        << 17u32) | (spec_flag_code(errnpass) << 16u32) | (spec_flag_code(mte) << 15u32) | ((
    mem_type as u32) << 12u32) | ((mode as u32) << 8u32) | (spec_flag_code(tr_in_prog) << 7u32)
        | (spec_flag_code(device_en) << 6u32) | ((addr_inc as u32) << 4u32) | ((res1 as u32)
        << 3u32) | (size as u32)
}

/// Every field of a decoded CSW value is encoded back to its bits.
proof fn lemma_csw_word_of_fields(
    raw: u32,
    dbg_sw_enable: bool,
    prot: u8,
    s_device_en: bool,
    rmeen: u8,
    res0: u8,
    errstop: bool,
    errnpass: bool,
    mte: bool,
    mem_type: u8,
    mode: u8,
    tr_in_prog: bool,
    device_en: bool,
    addr_inc: u8,
    res1: u8,
    size: u8,
)
    by (bit_vector)
    requires
        dbg_sw_enable == ((raw >> 31u32) & 1u32 != 0u32),
        prot == ((raw >> 24u32) & 0x7Fu32) as u8,
        s_device_en == ((raw >> 23u32) & 1u32 != 0u32),
        rmeen == ((raw >> 21u32) & 0x3u32) as u8,
        res0 == ((raw >> 18u32) & 0x7u32) as u8,
        errstop == ((raw >> 17u32) & 1u32 != 0u32),
        errnpass == ((raw >> 16u32) & 1u32 != 0u32),
        mte == ((raw >> 15u32) & 1u32 != 0u32),
        mem_type == ((raw >> 12u32) & 0x7u32) as u8,
        mode == ((raw >> 8u32) & 0xFu32) as u8,
        tr_in_prog == ((raw >> 7u32) & 1u32 != 0u32),
        device_en == ((raw >> 6u32) & 1u32 != 0u32),
        addr_inc == ((raw >> 4u32) & 0x3u32) as u8,
        res1 == ((raw >> 3u32) & 1u32) as u8,
        size == (raw & 0x7u32) as u8,
    ensures
        csw_word(
            dbg_sw_enable,
            prot,
            s_device_en,
            rmeen,
            res0,
            errstop,
            errnpass,
            mte,
            mem_type,
            mode,
            tr_in_prog,
            device_en,
            addr_inc,
            res1,
            size,
        ) == raw,
{
}

/// Every field that fits its width is read back from the encoded CSW value.
proof fn lemma_fields_of_csw_word(
    raw: u32,
    dbg_sw_enable: bool,
    prot: u8,
    s_device_en: bool,
    rmeen: u8,
    res0: u8,
    errstop: bool,
    errnpass: bool,
    mte: bool,
    mem_type: u8,
    mode: u8,
    tr_in_prog: bool,
    device_en: bool,
    addr_inc: u8,
    res1: u8,
    size: u8,
)
    by (bit_vector)
    requires
        prot < 0x80u8,
        rmeen < 0x4u8,
        res0 < 0x8u8,
        mem_type < 0x8u8,
        mode < 0x10u8,
        addr_inc < 0x4u8,
        res1 < 0x2u8,
        size < 0x8u8,
        raw == csw_word(
            dbg_sw_enable,
            prot,
            s_device_en,
            rmeen,
            res0,
            errstop,
            errnpass,
            mte,
            mem_type,
            mode,
            tr_in_prog,
            device_en,
            addr_inc,
            res1,
            size,
        ),
    ensures
        dbg_sw_enable == ((raw >> 31u32) & 1u32 != 0u32),
        prot == ((raw >> 24u32) & 0x7Fu32) as u8,
        s_device_en == ((raw >> 23u32) & 1u32 != 0u32),
        rmeen == ((raw >> 21u32) & 0x3u32) as u8,
        res0 == ((raw >> 18u32) & 0x7u32) as u8,
        errstop == ((raw >> 17u32) & 1u32 != 0u32),
        errnpass == ((raw >> 16u32) & 1u32 != 0u32),
        mte == ((raw >> 15u32) & 1u32 != 0u32),
        mem_type == ((raw >> 12u32) & 0x7u32) as u8,
        mode == ((raw >> 8u32) & 0xFu32) as u8,
        tr_in_prog == ((raw >> 7u32) & 1u32 != 0u32),
        device_en == ((raw >> 6u32) & 1u32 != 0u32),
        addr_inc == ((raw >> 4u32) & 0x3u32) as u8,
        res1 == ((raw >> 3u32) & 1u32) as u8,
        size == (raw & 0x7u32) as u8,
{
}

impl Register for CSW {
    open spec fn spec_address() -> u16 {
        0xD00
    }

    open spec fn spec_name() -> &'static str {
        "CSW"
    }

    /// Every field is read from its bits; the whole decode fails where the
    /// increment or the size bits name no value.
    open spec fn spec_decode(raw: u32) -> Result<CSW, RegisterParseError> {
        match (
            AddressIncrement::spec_from_code(((raw >> 4u32) & 0x3u32) as u8),
            DataSize::spec_from_code((raw & 0x7u32) as u8),
        ) {
            (Some(addr_inc), Some(size)) => Ok(
                CSW {
                    DbgSwEnable: (raw >> 31u32) & 1u32 != 0,
                    Prot: ((raw >> 24u32) & 0x7Fu32) as u8,
                    SDeviceEn: (raw >> 23u32) & 1u32 != 0,
                    RMEEN: ((raw >> 21u32) & 0x3u32) as u8,
                    _RES0: ((raw >> 18u32) & 0x7u32) as u8,
                    ERRSTOP: (raw >> 17u32) & 1u32 != 0,
                    ERRNPASS: (raw >> 16u32) & 1u32 != 0,
                    MTE: (raw >> 15u32) & 1u32 != 0,
                    Type: ((raw >> 12u32) & 0x7u32) as u8,
                    Mode: ((raw >> 8u32) & 0xFu32) as u8,
                    TrInProg: (raw >> 7u32) & 1u32 != 0,
                    DeviceEn: (raw >> 6u32) & 1u32 != 0,
                    AddrInc: addr_inc,
                    _RES1: ((raw >> 3u32) & 1u32) as u8,
                    SIZE: size,
                },
            ),
            _ => Err(RegisterParseError { register_name: "CSW", raw_value: raw }),
        }
    }

    /// Every field is shifted into place; bits of an integer field beyond its
    /// width are merged into the neighbouring fields.
    open spec fn spec_encode(self) -> u32 {
        csw_word(
            self.DbgSwEnable,
            self.Prot,
            self.SDeviceEn,
            self.RMEEN,
            self._RES0,
            self.ERRSTOP,
            self.ERRNPASS,
            self.MTE,
            self.Type,
            self.Mode,
            self.TrInProg,
            self.DeviceEn,
            self.AddrInc.spec_code(),
            self._RES1,
            self.SIZE.spec_code(),
        )
    }

    open spec fn spec_field_mask() -> u32 {
        0xFFFF_FFFF
    }

    open spec fn spec_fields_fit(self) -> bool {
        &&& self.Prot < 0x80
        &&& self.RMEEN < 0x4
        &&& self._RES0 < 0x8
        &&& self.Type < 0x8
        &&& self.Mode < 0x10
        &&& self._RES1 < 0x2
    }

    fn address() -> (r: u16) {
        CSW::ADDRESS
    }

    fn name() -> (r: &'static str) {
        CSW::NAME
    }

    fn decode(raw: u32) -> (r: Result<CSW, RegisterParseError>) {
        let addr_inc = match AddressIncrement::from_u8(((raw >> 4) & 0x3) as u8) {
            Some(addr_inc) => addr_inc,
            None => return Err(RegisterParseError::new(CSW::NAME, raw)),
        };
        let size = match DataSize::try_from((raw & 0x7) as u8) {
            Ok(size) => size,
            Err(_) => return Err(RegisterParseError::new(CSW::NAME, raw)),
        };
        Ok(
            CSW {
                DbgSwEnable: (raw >> 31) & 1 != 0,
                Prot: ((raw >> 24) & 0x7F) as u8,
                SDeviceEn: (raw >> 23) & 1 != 0,
                RMEEN: ((raw >> 21) & 0x3) as u8,
                _RES0: ((raw >> 18) & 0x7) as u8,
                ERRSTOP: (raw >> 17) & 1 != 0,
                ERRNPASS: (raw >> 16) & 1 != 0,
                MTE: (raw >> 15) & 1 != 0,
                Type: ((raw >> 12) & 0x7) as u8,
                Mode: ((raw >> 8) & 0xF) as u8,
                TrInProg: (raw >> 7) & 1 != 0,
                DeviceEn: (raw >> 6) & 1 != 0,
                AddrInc: addr_inc,
                _RES1: ((raw >> 3) & 1) as u8,
                SIZE: size,
            },
        )
    }

    fn encode(self) -> (r: u32) {
        (flag_code(self.DbgSwEnable) << 31) | ((self.Prot as u32) << 24) | (flag_code(
            self.SDeviceEn,
        ) << 23) | ((self.RMEEN as u32) << 21) | ((self._RES0 as u32) << 18) | (flag_code(
            self.ERRSTOP,
        ) << 17) | (flag_code(self.ERRNPASS) << 16) | (flag_code(self.MTE) << 15) | ((
        self.Type as u32) << 12) | ((self.Mode as u32) << 8) | (flag_code(self.TrInProg) << 7)
            | (flag_code(self.DeviceEn) << 6) | ((self.AddrInc.code() as u32) << 4) | ((
        self._RES1 as u32) << 3) | (self.SIZE.code() as u32)
    }

    proof fn lemma_decode_encode(raw: u32) {
        lemma_address_increment_codes();
        lemma_data_size_codes();
        if let Ok(csw) = CSW::spec_decode(raw) {
            lemma_csw_word_of_fields(
                raw,
                csw.DbgSwEnable,
                csw.Prot,
                csw.SDeviceEn,
                csw.RMEEN,
                csw._RES0,
                csw.ERRSTOP,
                csw.ERRNPASS,
                csw.MTE,
                csw.Type,
                csw.Mode,
                csw.TrInProg,
                csw.DeviceEn,
                csw.AddrInc.spec_code(),
                csw._RES1,
                csw.SIZE.spec_code(),
            );
        }
    }

    proof fn lemma_encode_decode(self) {
        lemma_address_increment_codes();
        lemma_data_size_codes();
        lemma_fields_of_csw_word(
            self.spec_encode(),
            self.DbgSwEnable,
            self.Prot,
            self.SDeviceEn,
            self.RMEEN,
            self._RES0,
            self.ERRSTOP,
            self.ERRNPASS,
            self.MTE,
            self.Type,
            self.Mode,
            self.TrInProg,
            self.DeviceEn,
            self.AddrInc.spec_code(),
            self._RES1,
            self.SIZE.spec_code(),
        );
    }

    proof fn lemma_decode_error(raw: u32) {
    }
}

} // verus!
