//! The registers whose one field is the whole 32-bit word.
use crate::register::{Register, RegisterParseError};
use vstd::prelude::*;

verus! {

/// Transfer Address Register.
///
/// The transfer address register (TAR) holds the memory address that the next
/// read or write of the DRW register accesses.
#[derive(Debug, Clone, Copy, PartialEq, Eq, Structural)]
pub struct TAR {
    /// The memory address of the next DRW access.
    pub address: u32,
}

impl TAR {
    /// The byte offset of the TAR register.
    pub const ADDRESS: u16 = 0xD04;

    /// The name of the TAR register.
    pub const NAME: &'static str = "TAR";
}

impl Register for TAR {
    open spec fn spec_address() -> u16 {
        0xD04
    }

    open spec fn spec_name() -> &'static str {
        "TAR"
    }

    open spec fn spec_decode(raw: u32) -> Result<TAR, RegisterParseError> {
        Ok(TAR { address: raw })
    }

    open spec fn spec_encode(self) -> u32 {
        self.address
    }

    open spec fn spec_field_mask() -> u32 {
        0xFFFF_FFFF
    }

    open spec fn spec_fields_fit(self) -> bool {
        true
    }

    fn address() -> (r: u16) {
        TAR::ADDRESS
    }

    fn name() -> (r: &'static str) {
        TAR::NAME
    }

    fn decode(raw: u32) -> (r: Result<TAR, RegisterParseError>) {
        Ok(TAR { address: raw })
    }

    fn encode(self) -> (r: u32) {
        self.address
    }

    proof fn lemma_decode_encode(raw: u32) {
    }

    proof fn lemma_encode_decode(self) {
    }

    proof fn lemma_decode_error(raw: u32) {
    }
}

/// Transfer Address Register, upper word.
///
/// With the large address extension, TAR2 holds the upper 32 bits of the
/// memory address that the next DRW access reaches.
#[derive(Debug, Clone, Copy, PartialEq, Eq, Structural)]
pub struct TAR2 {
    /// The upper 32 bits of the memory address of the next DRW access.
    pub address: u32,
}

impl TAR2 {
    /// The byte offset of the TAR2 register.
    pub const ADDRESS: u16 = 0xD08;

    /// The name of the TAR2 register.
    pub const NAME: &'static str = "TAR2";
}

impl Register for TAR2 {
    open spec fn spec_address() -> u16 {
        0xD08
    }

    open spec fn spec_name() -> &'static str {
        "TAR2"
    }

    open spec fn spec_decode(raw: u32) -> Result<TAR2, RegisterParseError> {
        Ok(TAR2 { address: raw })
    }

    open spec fn spec_encode(self) -> u32 {
        self.address
    }

    open spec fn spec_field_mask() -> u32 {
        0xFFFF_FFFF
    }

    open spec fn spec_fields_fit(self) -> bool {
        true
    }

    fn address() -> (r: u16) {
        TAR2::ADDRESS
    }

    fn name() -> (r: &'static str) {
        TAR2::NAME
    }

    fn decode(raw: u32) -> (r: Result<TAR2, RegisterParseError>) {
        Ok(TAR2 { address: raw })
    }

    fn encode(self) -> (r: u32) {
        self.address
    }

    proof fn lemma_decode_encode(raw: u32) {
    }

    proof fn lemma_encode_decode(self) {
    }

    proof fn lemma_decode_error(raw: u32) {
    }
}

/// Data Read/Write register.
///
/// A write to the data read/write register (DRW) becomes a memory write to the
/// address in TAR, and a read becomes a memory read from it.
#[derive(Debug, Clone, Copy, PartialEq, Eq, Structural)]
pub struct DRW {
    /// The data at the address held in TAR.
    pub data: u32,
}

impl DRW {
    /// The byte offset of the DRW register.
    pub const ADDRESS: u16 = 0xD0C;

    /// The name of the DRW register.
    pub const NAME: &'static str = "DRW";
}

impl Register for DRW {
    open spec fn spec_address() -> u16 {
        0xD0C
    }

    open spec fn spec_name() -> &'static str {
        "DRW"
    }

    open spec fn spec_decode(raw: u32) -> Result<DRW, RegisterParseError> {
        Ok(DRW { data: raw })
    }

    open spec fn spec_encode(self) -> u32 {
        self.data
    }

    open spec fn spec_field_mask() -> u32 {
        0xFFFF_FFFF
    }

    open spec fn spec_fields_fit(self) -> bool {
        true
    }

    fn address() -> (r: u16) {
        DRW::ADDRESS
    }

    fn name() -> (r: &'static str) {
        DRW::NAME
    }

    fn decode(raw: u32) -> (r: Result<DRW, RegisterParseError>) {
        Ok(DRW { data: raw })
    }

    fn encode(self) -> (r: u32) {
        self.data
    }

    proof fn lemma_decode_encode(raw: u32) {
    }

    proof fn lemma_encode_decode(self) {
    }

    proof fn lemma_decode_error(raw: u32) {
    }
}

/// Banked Data 0 register.
#[derive(Debug, Clone, Copy, PartialEq, Eq, Structural)]
pub struct BD0 {
    /// The data held in this bank.
    pub data: u32,
}

impl BD0 {
    /// The byte offset of the BD0 register.
    pub const ADDRESS: u16 = 0xD10;

    /// The name of the BD0 register.
    pub const NAME: &'static str = "BD0";
}

impl Register for BD0 {
    open spec fn spec_address() -> u16 {
        0xD10
    }

    open spec fn spec_name() -> &'static str {
        "BD0"
    }

    open spec fn spec_decode(raw: u32) -> Result<BD0, RegisterParseError> {
        Ok(BD0 { data: raw })
    }

    open spec fn spec_encode(self) -> u32 {
        self.data
    }

    open spec fn spec_field_mask() -> u32 {
        0xFFFF_FFFF
    }

    open spec fn spec_fields_fit(self) -> bool {
        true
    }

    fn address() -> (r: u16) {
        BD0::ADDRESS
    }

    fn name() -> (r: &'static str) {
        BD0::NAME
    }

    fn decode(raw: u32) -> (r: Result<BD0, RegisterParseError>) {
        Ok(BD0 { data: raw })
    }

    fn encode(self) -> (r: u32) {
        self.data
    }

    proof fn lemma_decode_encode(raw: u32) {
    }

    proof fn lemma_encode_decode(self) {
    }

    proof fn lemma_decode_error(raw: u32) {
    }
}

/// Banked Data 1 register.
#[derive(Debug, Clone, Copy, PartialEq, Eq, Structural)]
pub struct BD1 {
    /// The data held in this bank.
    pub data: u32,
}

impl BD1 {
    /// The byte offset of the BD1 register.
    pub const ADDRESS: u16 = 0xD14;

    /// The name of the BD1 register.
    pub const NAME: &'static str = "BD1";
}

impl Register for BD1 {
    open spec fn spec_address() -> u16 {
        0xD14
    }

    open spec fn spec_name() -> &'static str {
        "BD1"
    }

    open spec fn spec_decode(raw: u32) -> Result<BD1, RegisterParseError> {
        Ok(BD1 { data: raw })
    }

    open spec fn spec_encode(self) -> u32 {
        self.data
    }

    open spec fn spec_field_mask() -> u32 {
        0xFFFF_FFFF
    }

    open spec fn spec_fields_fit(self) -> bool {
        true
    }

    fn address() -> (r: u16) {
        BD1::ADDRESS
    }

    fn name() -> (r: &'static str) {
        BD1::NAME
    }

    fn decode(raw: u32) -> (r: Result<BD1, RegisterParseError>) {
        Ok(BD1 { data: raw })
    }

    fn encode(self) -> (r: u32) {
        self.data
    }

    proof fn lemma_decode_encode(raw: u32) {
    }

    proof fn lemma_encode_decode(self) {
    }

    proof fn lemma_decode_error(raw: u32) {
    }
}

/// Banked Data 2 register.
#[derive(Debug, Clone, Copy, PartialEq, Eq, Structural)]
pub struct BD2 {
    /// The data held in this bank.
    pub data: u32,
}

impl BD2 {
    /// The byte offset of the BD2 register.
    pub const ADDRESS: u16 = 0xD18;

    /// The name of the BD2 register.
    pub const NAME: &'static str = "BD2";
}

impl Register for BD2 {
    open spec fn spec_address() -> u16 {
        0xD18
    }

    open spec fn spec_name() -> &'static str {
        "BD2"
    }

    open spec fn spec_decode(raw: u32) -> Result<BD2, RegisterParseError> {
        Ok(BD2 { data: raw })
    }

    open spec fn spec_encode(self) -> u32 {
        self.data
    }

    open spec fn spec_field_mask() -> u32 {
        0xFFFF_FFFF
    }

    open spec fn spec_fields_fit(self) -> bool {
        true
    }

    fn address() -> (r: u16) {
        BD2::ADDRESS
    }

    fn name() -> (r: &'static str) {
        BD2::NAME
    }

    fn decode(raw: u32) -> (r: Result<BD2, RegisterParseError>) {
        Ok(BD2 { data: raw })
    }

    fn encode(self) -> (r: u32) {
        self.data
    }

    proof fn lemma_decode_encode(raw: u32) {
    }

    proof fn lemma_encode_decode(self) {
    }

    proof fn lemma_decode_error(raw: u32) {
    }
}

/// Banked Data 3 register.
#[derive(Debug, Clone, Copy, PartialEq, Eq, Structural)]
pub struct BD3 {
    /// The data held in this bank.
    pub data: u32,
}

impl BD3 {
    /// The byte offset of the BD3 register.
    pub const ADDRESS: u16 = 0xD1C;

    /// The name of the BD3 register.
    pub const NAME: &'static str = "BD3";
}

impl Register for BD3 {
    open spec fn spec_address() -> u16 {
        0xD1C
    }

    open spec fn spec_name() -> &'static str {
        "BD3"
    }

    open spec fn spec_decode(raw: u32) -> Result<BD3, RegisterParseError> {
        Ok(BD3 { data: raw })
    }

    open spec fn spec_encode(self) -> u32 {
        self.data
    }

    open spec fn spec_field_mask() -> u32 {
        0xFFFF_FFFF
    }

    open spec fn spec_fields_fit(self) -> bool {
        true
    }

    fn address() -> (r: u16) {
        BD3::ADDRESS
    }

    fn name() -> (r: &'static str) {
        BD3::NAME
    }

    fn decode(raw: u32) -> (r: Result<BD3, RegisterParseError>) {
        Ok(BD3 { data: raw })
    }

    fn encode(self) -> (r: u32) {
        self.data
    }

    proof fn lemma_decode_encode(raw: u32) {
    }

    proof fn lemma_encode_decode(self) {
    }

    proof fn lemma_decode_error(raw: u32) {
    }
}

/// Memory Barrier Transfer register.
///
/// A write to the memory barrier transfer register (MBT) issues a barrier
/// operation on the bus behind the access port. It has an effect only where
/// the Barrier Operations Extension is implemented.
#[derive(Debug, Clone, Copy, PartialEq, Eq, Structural)]
pub struct MBT {
    /// Implementation defined.
    pub data: u32,
}

impl MBT {
    /// The byte offset of the MBT register.
    pub const ADDRESS: u16 = 0xD20;

    /// The name of the MBT register.
    pub const NAME: &'static str = "MBT";
}

impl Register for MBT {
    open spec fn spec_address() -> u16 {
        0xD20
    }

    open spec fn spec_name() -> &'static str {
        "MBT"
    }

    open spec fn spec_decode(raw: u32) -> Result<MBT, RegisterParseError> {
        Ok(MBT { data: raw })
    }

    open spec fn spec_encode(self) -> u32 {
        self.data
    }

    open spec fn spec_field_mask() -> u32 {
        0xFFFF_FFFF
    }

    open spec fn spec_fields_fit(self) -> bool {
        true
    }

    fn address() -> (r: u16) {
        MBT::ADDRESS
    }

    fn name() -> (r: &'static str) {
        MBT::NAME
    }

    fn decode(raw: u32) -> (r: Result<MBT, RegisterParseError>) {
        Ok(MBT { data: raw })
    }

    fn encode(self) -> (r: u32) {
        self.data
    }

    proof fn lemma_decode_encode(raw: u32) {
    }

    proof fn lemma_encode_decode(self) {
    }

    proof fn lemma_decode_error(raw: u32) {
    }
}

/// Base register, second part.
///
/// Holds the upper part of the base address where one is needed.
#[allow(non_snake_case)]
#[derive(Debug, Clone, Copy, PartialEq, Eq, Structural)]
pub struct BASE2 {
    /// The upper part of the base address of this access port.
    pub BASEADDR: u32,
}

impl BASE2 {
    /// The byte offset of the BASE2 register.
    pub const ADDRESS: u16 = 0xDF0;

    /// The name of the BASE2 register.
    pub const NAME: &'static str = "BASE2";
}

impl Register for BASE2 {
    open spec fn spec_address() -> u16 {
        0xDF0
    }

    open spec fn spec_name() -> &'static str {
        "BASE2"
    }

    open spec fn spec_decode(raw: u32) -> Result<BASE2, RegisterParseError> {
        Ok(BASE2 { BASEADDR: raw })
    }

    open spec fn spec_encode(self) -> u32 {
        self.BASEADDR
    }

    open spec fn spec_field_mask() -> u32 {
        0xFFFF_FFFF
    }

    open spec fn spec_fields_fit(self) -> bool {
        true
    }

    fn address() -> (r: u16) {
        BASE2::ADDRESS
    }

    fn name() -> (r: &'static str) {
        BASE2::NAME
    }

    fn decode(raw: u32) -> (r: Result<BASE2, RegisterParseError>) {
        Ok(BASE2 { BASEADDR: raw })
    }

    fn encode(self) -> (r: u32) {
        self.BASEADDR
    }

    proof fn lemma_decode_encode(raw: u32) {
    }

    proof fn lemma_encode_decode(self) {
    }

    proof fn lemma_decode_error(raw: u32) {
    }
}

} // verus!
