//! The registers that describe the access port: CFG, BASE and IDR.
use crate::fields::{lemma_base_addr_format_codes, BaseAddrFormat};
use crate::register::{flag_code, spec_flag_code, Register, RegisterParseError};
use vstd::prelude::*;

verus! {

/// Configuration register.
///
/// The configuration register (CFG) tells which extensions the memory access
/// port includes.
#[allow(non_snake_case)]
#[derive(Debug, Clone, Copy, PartialEq, Eq, Structural)]
pub struct CFG {
    /// The large data extension (accesses wider than 32 bits) is included. Bit 2.
    pub LD: bool,
    /// The large address extension (64-bit addressing) is included. Bit 1.
    pub LA: bool,
    /// The memory system is big endian. Bit 0.
    pub BE: bool,
}

impl CFG {
    /// The byte offset of the CFG register.
    pub const ADDRESS: u16 = 0xDF4;

    /// The name of the CFG register.
    pub const NAME: &'static str = "CFG";
}

impl Register for CFG {
    open spec fn spec_address() -> u16 {
        0xDF4
    }

    open spec fn spec_name() -> &'static str {
        "CFG"
    }

    open spec fn spec_decode(raw: u32) -> Result<CFG, RegisterParseError> {
        Ok(
            CFG {
                LD: (raw >> 2u32) & 1u32 != 0,
                LA: (raw >> 1u32) & 1u32 != 0,
                BE: raw & 1u32 != 0,
            },
        )
    }

    open spec fn spec_encode(self) -> u32 {
        (spec_flag_code(self.LD) << 2u32) | (spec_flag_code(self.LA) << 1u32) | spec_flag_code(
            self.BE,
        )
    }

    open spec fn spec_field_mask() -> u32 {
        0x7
    }

    open spec fn spec_fields_fit(self) -> bool {
        true
    }

    fn address() -> (r: u16) {
        CFG::ADDRESS
    }

    fn name() -> (r: &'static str) {
        CFG::NAME
    }

    fn decode(raw: u32) -> (r: Result<CFG, RegisterParseError>) {
        Ok(CFG { LD: (raw >> 2) & 1 != 0, LA: (raw >> 1) & 1 != 0, BE: raw & 1 != 0 })
    }

    fn encode(self) -> (r: u32) {
        (flag_code(self.LD) << 2) | (flag_code(self.LA) << 1) | flag_code(self.BE)
    }

    proof fn lemma_decode_encode(raw: u32) {
        let ld = (raw >> 2u32) & 1u32 != 0;
        let la = (raw >> 1u32) & 1u32 != 0;
        let be = raw & 1u32 != 0;
        assert(((spec_flag_code(ld) << 2u32) | (spec_flag_code(la) << 1u32) | spec_flag_code(be))
            & 0x7u32 == raw & 0x7u32) by (bit_vector)
            requires
                ld == ((raw >> 2u32) & 1u32 != 0),
                la == ((raw >> 1u32) & 1u32 != 0),
                be == (raw & 1u32 != 0),
        ;
    }

    proof fn lemma_encode_decode(self) {
        let (ld, la, be) = (self.LD, self.LA, self.BE);
        let raw = self.spec_encode();
        assert({
            &&& ld == ((raw >> 2u32) & 1u32 != 0)
            &&& la == ((raw >> 1u32) & 1u32 != 0)
            &&& be == (raw & 1u32 != 0)
        }) by (bit_vector)
            requires
                raw == (spec_flag_code(ld) << 2u32) | (spec_flag_code(la) << 1u32)
                    | spec_flag_code(be),
        ;
    }

    proof fn lemma_decode_error(raw: u32) {
    }
}

/// Base register.
///
/// The base register (BASE) gives where the access port's debug components
/// start, and whether the access port is present at all.
#[allow(non_snake_case)]
#[derive(Debug, Clone, Copy, PartialEq, Eq, Structural)]
pub struct BASE {
    /// The base address, in units of 4 KiB. Bits 31 to 12.
    pub BASEADDR: u32,
    /// Reserved: read as zero and not written. Bits 11 to 2.
    pub _RES0: u8,
    /// The format of the base address. Bit 1.
    pub Format: BaseAddrFormat,
    /// The access port exists. Scanning access ports in turn ends at the
    /// first that is not present. Bit 0.
    pub present: bool,
}

impl BASE {
    /// The byte offset of the BASE register.
    pub const ADDRESS: u16 = 0xDF8;

    /// The name of the BASE register.
    pub const NAME: &'static str = "BASE";
}

impl Register for BASE {
    open spec fn spec_address() -> u16 {
        0xDF8
    }

    open spec fn spec_name() -> &'static str {
        "BASE"
    }

    open spec fn spec_decode(raw: u32) -> Result<BASE, RegisterParseError> {
        Ok(
            BASE {
                BASEADDR: (raw & 0xFFFF_F000u32) >> 12u32,
                _RES0: 0,
                Format: BaseAddrFormat::spec_from_bit((raw >> 1u32) & 1u32 != 0),
                present: raw & 1u32 != 0,
            },
        )
    }

    /// The reserved field is not written: its bits encode as zero.
    open spec fn spec_encode(self) -> u32 {
        (self.BASEADDR << 12u32) | ((self.Format.spec_code() as u32) << 1u32) | spec_flag_code(
            self.present,
        )
    }

    open spec fn spec_field_mask() -> u32 {
        0xFFFF_F003
    }

    open spec fn spec_fields_fit(self) -> bool {
        &&& self.BASEADDR < 0x10_0000
        &&& self._RES0 == 0
    }

    fn address() -> (r: u16) {
        BASE::ADDRESS
    }

    fn name() -> (r: &'static str) {
        BASE::NAME
    }

    fn decode(raw: u32) -> (r: Result<BASE, RegisterParseError>) {
        Ok(
            BASE {
                BASEADDR: (raw & 0xFFFF_F000) >> 12,
                _RES0: 0,
                Format: BaseAddrFormat::from_bit((raw >> 1) & 1 != 0),
                present: raw & 1 != 0,
            },
        )
    }

    fn encode(self) -> (r: u32) {
        (self.BASEADDR << 12) | ((self.Format.code() as u32) << 1) | flag_code(self.present)
    }

    proof fn lemma_decode_encode(raw: u32) {
        lemma_base_addr_format_codes();
        let base = BASE::spec_decode(raw)->Ok_0;
        let addr = base.BASEADDR;
        let format = base.Format.spec_code();
        let present = base.present;
        assert(((addr << 12u32) | ((format as u32) << 1u32) | spec_flag_code(present))
            & 0xFFFF_F003u32 == raw & 0xFFFF_F003u32) by (bit_vector)
            requires
                addr == (raw & 0xFFFF_F000u32) >> 12u32,
                format == (if (raw >> 1u32) & 1u32 != 0 { 1u8 } else { 0u8 }),
                present == (raw & 1u32 != 0),
        ;
    }

    proof fn lemma_encode_decode(self) {
        lemma_base_addr_format_codes();
        let addr = self.BASEADDR;
        let format = self.Format.spec_code();
        let present = self.present;
        let raw = self.spec_encode();
        assert({
            &&& addr == (raw & 0xFFFF_F000u32) >> 12u32
            &&& ((raw >> 1u32) & 1u32 != 0) == (format == 1u8)
            &&& present == (raw & 1u32 != 0)
        }) by (bit_vector)
            requires
                addr < 0x10_0000u32,
                format < 2u8,
                raw == (addr << 12u32) | ((format as u32) << 1u32) | spec_flag_code(present),
        ;
    }

    proof fn lemma_decode_error(raw: u32) {
    }
}

/// Identification register.
///
/// The identification register (IDR) identifies the access port. Bits 12 to 8
/// are not read.
#[allow(non_snake_case)]
#[derive(Debug, Clone, Copy, PartialEq, Eq, Structural)]
pub struct IDR {
    /// The revision of this component. Bits 31 to 28.
    pub REVISION: u8,
    /// The designer of this component. Bits 27 to 17.
    pub DESIGNER: u16,
    /// The class of this component. Bits 16 to 13.
    pub CLASS: u8,
    /// The variant of this component. Bits 7 to 4.
    pub VARIANT: u8,
    /// The type of this component. Bits 3 to 0.
    pub TYPE: u8,
}

impl IDR {
    /// The byte offset of the IDR register.
    pub const ADDRESS: u16 = 0xDFC;

    /// The name of the IDR register.
    pub const NAME: &'static str = "IDR";
}

impl Register for IDR {
    open spec fn spec_address() -> u16 {
        0xDFC
    }

    open spec fn spec_name() -> &'static str {
        "IDR"
    }

    open spec fn spec_decode(raw: u32) -> Result<IDR, RegisterParseError> {
        Ok(
            IDR {
                REVISION: ((raw >> 28u32) as u8) & 0xFu8,
                DESIGNER: ((raw >> 17u32) as u16) & 0x7FFu16,
                CLASS: ((raw >> 13u32) as u8) & 0xFu8,
                VARIANT: ((raw >> 4u32) as u8) & 0xFu8,
                TYPE: (raw as u8) & 0xFu8,
            },
        )
    }

    open spec fn spec_encode(self) -> u32 {
        ((self.REVISION as u32) << 28u32) | ((self.DESIGNER as u32) << 17u32) | ((
        self.CLASS as u32) << 13u32) | ((self.VARIANT as u32) << 4u32) | (self.TYPE as u32)
    }

    open spec fn spec_field_mask() -> u32 {
        0xFFFF_E0FF
    }

    open spec fn spec_fields_fit(self) -> bool {
        &&& self.REVISION < 0x10
        &&& self.DESIGNER < 0x800
        &&& self.CLASS < 0x10
        &&& self.VARIANT < 0x10
        &&& self.TYPE < 0x10
    }

    fn address() -> (r: u16) {
        IDR::ADDRESS
    }

    fn name() -> (r: &'static str) {
        IDR::NAME
    }

    fn decode(raw: u32) -> (r: Result<IDR, RegisterParseError>) {
        Ok(
            IDR {
                REVISION: ((raw >> 28) as u8) & 0xF,
                DESIGNER: ((raw >> 17) as u16) & 0x7FF,
                CLASS: ((raw >> 13) as u8) & 0xF,
                VARIANT: ((raw >> 4) as u8) & 0xF,
                TYPE: (raw as u8) & 0xF,
            },
        )
    }

    fn encode(self) -> (r: u32) {
        ((self.REVISION as u32) << 28) | ((self.DESIGNER as u32) << 17) | ((self.CLASS as u32)
            << 13) | ((self.VARIANT as u32) << 4) | (self.TYPE as u32)
    }

    proof fn lemma_decode_encode(raw: u32) {
        let idr = IDR::spec_decode(raw)->Ok_0;
        let (revision, designer, class, variant, id_type) = (
            idr.REVISION,
            idr.DESIGNER,
            idr.CLASS,
            idr.VARIANT,
            idr.TYPE,
        );
        assert((((revision as u32) << 28u32) | ((designer as u32) << 17u32) | ((class as u32)
            << 13u32) | ((variant as u32) << 4u32) | (id_type as u32)) & 0xFFFF_E0FFu32 == raw
            & 0xFFFF_E0FFu32) by (bit_vector)
            requires
                revision == ((raw >> 28u32) as u8) & 0xFu8,
                designer == ((raw >> 17u32) as u16) & 0x7FFu16,
                class == ((raw >> 13u32) as u8) & 0xFu8,
                variant == ((raw >> 4u32) as u8) & 0xFu8,
                id_type == (raw as u8) & 0xFu8,
        ;
    }

    proof fn lemma_encode_decode(self) {
        let (revision, designer, class, variant, id_type) = (
            self.REVISION,
            self.DESIGNER,
            self.CLASS,
            self.VARIANT,
            self.TYPE,
        );
        let raw = self.spec_encode();
        assert({
            &&& revision == ((raw >> 28u32) as u8) & 0xFu8
            &&& designer == ((raw >> 17u32) as u16) & 0x7FFu16
            &&& class == ((raw >> 13u32) as u8) & 0xFu8
            &&& variant == ((raw >> 4u32) as u8) & 0xFu8
            &&& id_type == (raw as u8) & 0xFu8
        }) by (bit_vector)
            requires
                revision < 0x10u8,
                designer < 0x800u16,
                class < 0x10u8,
                variant < 0x10u8,
                id_type < 0x10u8,
                raw == ((revision as u32) << 28u32) | ((designer as u32) << 17u32) | ((
                class as u32) << 13u32) | ((variant as u32) << 4u32) | (id_type as u32),
        ;
    }

    proof fn lemma_decode_error(raw: u32) {
    }
}

} // verus!
