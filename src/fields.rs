//! Enumerations for the multi-bit fields of the access port registers.
//!
//! Each enumeration has a fixed-width numeric code. Encoding to the code is
//! total; decoding from a code fails for the bit patterns that name no value.
use vstd::arithmetic::power2::{lemma2_to64, pow2};
use vstd::prelude::*;

verus! {

/// The unit of data that is transferred in one transfer via the DRW register.
///
/// This is configured in the CSW register. Every access port supports `U32`;
/// the other transfer sizes are optional.
#[derive(Debug, Clone, Copy, PartialEq, Eq, Structural)]
pub enum DataSize {
    /// 1 byte transfers.
    U8,
    /// 2 byte transfers.
    U16,
    /// 4 byte transfers.
    U32,
    /// 8 byte transfers.
    U64,
    /// 16 byte transfers.
    U128,
    /// 32 byte transfers.
    U256,
}

impl DataSize {
    /// The three-bit code of the transfer size.
    pub open spec fn spec_code(self) -> u8 {
        match self {
            DataSize::U8 => 0b000,
            DataSize::U16 => 0b001,
            DataSize::U32 => 0b010,
            DataSize::U64 => 0b011,
            DataSize::U128 => 0b100,
            DataSize::U256 => 0b101,
        }
    }

    /// The transfer size that a code names, if any.
    pub open spec fn spec_from_code(code: u8) -> Option<DataSize> {
        match code {
            0b000 => Some(DataSize::U8),
            0b001 => Some(DataSize::U16),
            0b010 => Some(DataSize::U32),
            0b011 => Some(DataSize::U64),
            0b100 => Some(DataSize::U128),
            0b101 => Some(DataSize::U256),
            _ => None,
        }
    }

    /// The number of bytes moved by one transfer of this size.
    pub open spec fn spec_byte_count(self) -> nat {
        match self {
            DataSize::U8 => 1,
            DataSize::U16 => 2,
            DataSize::U32 => 4,
            DataSize::U64 => 8,
            DataSize::U128 => 16,
            DataSize::U256 => 32,
        }
    }

    /// The three-bit code of the transfer size.
    pub fn code(self) -> (r: u8)
        ensures
            r == self.spec_code(),
    {
        match self {
            DataSize::U8 => 0b000,
            DataSize::U16 => 0b001,
            DataSize::U32 => 0b010,
            DataSize::U64 => 0b011,
            DataSize::U128 => 0b100,
            DataSize::U256 => 0b101,
        }
    }

    /// The number of bytes moved by one transfer of this size.
    pub fn to_byte_count(self) -> (r: usize)
        ensures
            r == self.spec_byte_count(),
    {
        match self {
            DataSize::U8 => 1,
            DataSize::U16 => 2,
            DataSize::U32 => 4,
            DataSize::U64 => 8,
            DataSize::U128 => 16,
            DataSize::U256 => 32,
        }
    }
}

impl Default for DataSize {
    fn default() -> (r: DataSize)
        ensures
            r == DataSize::U32,
    {
        DataSize::U32
    }
}

/// Invalid data size.
#[derive(Debug, Clone, Copy, PartialEq, Eq, Structural)]
pub struct InvalidDataSizeError;

impl TryFrom<u8> for DataSize {
    type Error = InvalidDataSizeError;

    fn try_from(value: u8) -> (r: Result<DataSize, InvalidDataSizeError>) {
        match value {
            0b000 => Ok(DataSize::U8),
            0b001 => Ok(DataSize::U16),
            0b010 => Ok(DataSize::U32),
            0b011 => Ok(DataSize::U64),
            0b100 => Ok(DataSize::U128),
            0b101 => Ok(DataSize::U256),
            _ => Err(InvalidDataSizeError),
        }
    }
}

impl vstd::std_specs::convert::TryFromSpecImpl<u8> for DataSize {
    open spec fn obeys_try_from_spec() -> bool {
        true
    }

    open spec fn try_from_spec(value: u8) -> Result<DataSize, InvalidDataSizeError> {
        match DataSize::spec_from_code(value) {
            Some(size) => Ok(size),
            None => Err(InvalidDataSizeError),
        }
    }
}

/// The increment applied to the TAR after each DRW read or write.
///
/// Incrementing saves a TAR write for every access to consecutive addresses.
/// This is configured in the CSW register.
#[derive(Debug, Clone, Copy, PartialEq, Eq, Structural)]
pub enum AddressIncrement {
    /// No increment: TAR stays the same. Always supported.
    Off,
    /// TAR is incremented by the size of the access. Always supported.
    Single,
    /// Packed access to the DRW. Only available where sub-word access is.
    Packed,
}

impl AddressIncrement {
    /// The two-bit code of the increment mode.
    pub open spec fn spec_code(self) -> u8 {
        match self {
            AddressIncrement::Off => 0b00,
            AddressIncrement::Single => 0b01,
            AddressIncrement::Packed => 0b10,
        }
    }

    /// The increment mode that a code names, if any.
    pub open spec fn spec_from_code(code: u8) -> Option<AddressIncrement> {
        match code {
            0b00 => Some(AddressIncrement::Off),
            0b01 => Some(AddressIncrement::Single),
            0b10 => Some(AddressIncrement::Packed),
            _ => None,
        }
    }

    /// The two-bit code of the increment mode.
    pub fn code(self) -> (r: u8)
        ensures
            r == self.spec_code(),
    {
        match self {
            AddressIncrement::Off => 0b00,
            AddressIncrement::Single => 0b01,
            AddressIncrement::Packed => 0b10,
        }
    }

    /// Create a new `AddressIncrement` from its code.
    pub fn from_u8(value: u8) -> (r: Option<AddressIncrement>)
        ensures
            r == AddressIncrement::spec_from_code(value),
    {
        match value {
            0b00 => Some(AddressIncrement::Off),
            0b01 => Some(AddressIncrement::Single),
            0b10 => Some(AddressIncrement::Packed),
            _ => None,
        }
    }
}

impl Default for AddressIncrement {
    fn default() -> (r: AddressIncrement)
        ensures
            r == AddressIncrement::Single,
    {
        AddressIncrement::Single
    }
}

/// The format of the BASE register.
#[derive(Debug, Clone, Copy, PartialEq, Eq, Structural)]
pub enum BaseAddrFormat {
    /// The legacy format of very old cores.
    Legacy,
    /// The format that all newer cores use.
    ADIv5,
}

impl BaseAddrFormat {
    /// The one-bit code of the format.
    pub open spec fn spec_code(self) -> u8 {
        match self {
            BaseAddrFormat::Legacy => 0,
            BaseAddrFormat::ADIv5 => 1,
        }
    }

    /// The format that the one-bit code `bit` names: every code names one.
    pub open spec fn spec_from_bit(bit: bool) -> BaseAddrFormat {
        if bit {
            BaseAddrFormat::ADIv5
        } else {
            BaseAddrFormat::Legacy
        }
    }

    /// The one-bit code of the format.
    pub fn code(self) -> (r: u8)
        ensures
            r == self.spec_code(),
    {
        match self {
            BaseAddrFormat::Legacy => 0,
            BaseAddrFormat::ADIv5 => 1,
        }
    }

    /// The format that the one-bit code `bit` names.
    pub fn from_bit(bit: bool) -> (r: BaseAddrFormat)
        ensures
            r == BaseAddrFormat::spec_from_bit(bit),
    {
        if bit {
            BaseAddrFormat::ADIv5
        } else {
            BaseAddrFormat::Legacy
        }
    }
}

impl Default for BaseAddrFormat {
    fn default() -> (r: BaseAddrFormat)
        ensures
            r == BaseAddrFormat::Legacy,
    {
        BaseAddrFormat::Legacy
    }
}

/// Whether debug entry is present.
#[derive(Debug, Clone, Copy, PartialEq, Eq, Structural)]
pub enum DebugEntryState {
    NotPresent,
    Present,
}

impl Default for DebugEntryState {
    fn default() -> (r: DebugEntryState)
        ensures
            r == DebugEntryState::NotPresent,
    {
        DebugEntryState::NotPresent
    }
}

/// Every three-bit code is classified: the codes up to `0b101` name a transfer
/// size, `0b110` and `0b111` name none, and a size's code names that size.
pub proof fn lemma_data_size_codes()
    ensures
        forall|code: u8| #![auto] code < 8 ==> (DataSize::spec_from_code(code) is Some <==> code <= 0b101),
        forall|code: u8| #![auto] DataSize::spec_from_code(code) is Some ==> DataSize::spec_from_code(code)->Some_0.spec_code() == code,
        forall|size: DataSize| #![auto] DataSize::spec_from_code(size.spec_code()) == Some(size),
        forall|size: DataSize| #![auto] size.spec_code() < 8,
{
}

/// Every two-bit code is classified: `0b00`, `0b01` and `0b10` name an
/// increment mode, `0b11` names none, and a mode's code names that mode.
pub proof fn lemma_address_increment_codes()
    ensures
        forall|code: u8| #![auto] code < 4 ==> (AddressIncrement::spec_from_code(code) is Some <==> code <= 0b10),
        forall|code: u8| #![auto] AddressIncrement::spec_from_code(code) is Some ==> AddressIncrement::spec_from_code(code)->Some_0.spec_code() == code,
        forall|inc: AddressIncrement| #![auto] AddressIncrement::spec_from_code(inc.spec_code()) == Some(inc),
        forall|inc: AddressIncrement| #![auto] inc.spec_code() < 4,
{
}

/// Both one-bit codes name a base address format, and a format's code names
/// that format.
pub proof fn lemma_base_addr_format_codes()
    ensures
        forall|bit: bool| #![auto] BaseAddrFormat::spec_from_bit(bit).spec_code() == (if bit { 1u8 } else { 0u8 }),
        forall|format: BaseAddrFormat| #![auto] BaseAddrFormat::spec_from_bit(format.spec_code() == 1) == format,
        forall|format: BaseAddrFormat| #![auto] format.spec_code() < 2,
{
}

/// A transfer moves two to the power of its size code bytes.
pub proof fn lemma_byte_count_doubles(size: DataSize)
    ensures
        size.spec_byte_count() == pow2(size.spec_code() as nat),
{
    lemma2_to64();
}

} // verus!
