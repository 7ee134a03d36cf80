//! The contract that every access port register type meets.
use vstd::prelude::*;

verus! {

/// A raw register value that does not decode: one of its enumeration fields
/// holds a code that names no value.
#[derive(Debug, Clone, Copy, PartialEq, Eq)]
pub struct RegisterParseError {
    /// The name of the register that was decoded.
    pub register_name: &'static str,
    /// The full raw value that was read.
    pub raw_value: u32,
}

impl RegisterParseError {
    /// An error for the register named `register_name` and the raw value `raw_value`.
    pub fn new(register_name: &'static str, raw_value: u32) -> (r: RegisterParseError)
        ensures
            r == (RegisterParseError { register_name, raw_value }),
    {
        RegisterParseError { register_name, raw_value }
    }
}

/// The one-bit code of a flag: `1` when it is set.
pub open spec fn spec_flag_code(flag: bool) -> u32 {
    if flag {
        1
    } else {
        0
    }
}

/// The one-bit code of a flag: `1` when it is set.
pub fn flag_code(flag: bool) -> (r: u32)
    ensures
        r == spec_flag_code(flag),
{
    if flag {
        1
    } else {
        0
    }
}

/// A register of an access port, with typed access to its fields.
///
/// A register lives at a fixed byte offset from the access port's base
/// address and is transferred as one raw 32-bit value.
pub trait Register: Sized + Copy {
    /// The byte offset of the register from the access port's base address.
    spec fn spec_address() -> u16;

    /// The display name of the register.
    spec fn spec_name() -> &'static str;

    /// The register value that a raw value decodes to, or the error it gives.
    spec fn spec_decode(raw: u32) -> Result<Self, RegisterParseError>;

    /// The raw value that the register value encodes to.
    spec fn spec_encode(self) -> u32;

    /// The bits of the raw value that the register's fields cover.
    spec fn spec_field_mask() -> u32;

    /// Every field holds a value that fits its width in the raw value.
    spec fn spec_fields_fit(self) -> bool;

    /// The byte offset of the register from the access port's base address.
    fn address() -> (r: u16)
        ensures
            r == Self::spec_address(),
    ;

    /// The display name of the register.
    fn name() -> (r: &'static str)
        ensures
            r == Self::spec_name(),
    ;

    /// Decodes a raw value read from the register.
    fn decode(raw: u32) -> (r: Result<Self, RegisterParseError>)
        ensures
            r == Self::spec_decode(raw),
    ;

    /// Encodes the register value as the raw value to write.
    fn encode(self) -> (r: u32)
        ensures
            r == self.spec_encode(),
    ;

    /// A raw value that decodes encodes back to itself in every bit that a
    /// field covers.
    proof fn lemma_decode_encode(raw: u32)
        ensures
            Self::spec_decode(raw) is Ok ==> Self::spec_decode(raw)->Ok_0.spec_encode()
                & Self::spec_field_mask() == raw & Self::spec_field_mask(),
    ;

    /// A value whose fields fit their widths decodes back from its encoding.
    proof fn lemma_encode_decode(self)
        requires
            self.spec_fields_fit(),
        ensures
            Self::spec_decode(self.spec_encode()) == Ok::<Self, RegisterParseError>(self),
    ;

    /// A failed decode names the register and carries the raw value.
    proof fn lemma_decode_error(raw: u32)
        ensures
            Self::spec_decode(raw) is Err ==> Self::spec_decode(raw)->Err_0 == (
            RegisterParseError { register_name: Self::spec_name(), raw_value: raw }),
    ;
}

} // verus!
