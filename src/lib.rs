//! Typed registers of an ARM CoreSight memory access port (MEM-AP).
//!
//! Every register has a fixed byte offset in the access port's register space
//! and converts to and from the raw 32-bit value that goes over the wire.
use vstd::prelude::*;

pub mod csw;
pub mod data;
pub mod fields;
pub mod identification;
pub mod register;

pub use csw::CSW;
pub use data::{BASE2, BD0, BD1, BD2, BD3, DRW, MBT, TAR, TAR2};
pub use fields::{
    AddressIncrement, BaseAddrFormat, DataSize, DebugEntryState, InvalidDataSizeError,
};
pub use identification::{BASE, CFG, IDR};
pub use register::{Register, RegisterParseError};

verus! {

/// Every register type has one fixed byte offset, the same for all of its
/// values: CSW at `0xD00`, TAR at `0xD04`, TAR2 at `0xD08`, DRW at `0xD0C`,
/// BD0 to BD3 at `0xD10` to `0xD1C`, MBT at `0xD20`, BASE2 at `0xDF0`, CFG at
/// `0xDF4`, BASE at `0xDF8` and IDR at `0xDFC`.
pub proof fn lemma_register_addresses()
    ensures
        <CSW as Register>::spec_address() == 0xD00 && CSW::ADDRESS == 0xD00,
        <TAR as Register>::spec_address() == 0xD04 && TAR::ADDRESS == 0xD04,
        <TAR2 as Register>::spec_address() == 0xD08 && TAR2::ADDRESS == 0xD08,
        <DRW as Register>::spec_address() == 0xD0C && DRW::ADDRESS == 0xD0C,
        <BD0 as Register>::spec_address() == 0xD10 && BD0::ADDRESS == 0xD10,
        <BD1 as Register>::spec_address() == 0xD14 && BD1::ADDRESS == 0xD14,
        <BD2 as Register>::spec_address() == 0xD18 && BD2::ADDRESS == 0xD18,
        <BD3 as Register>::spec_address() == 0xD1C && BD3::ADDRESS == 0xD1C,
        <MBT as Register>::spec_address() == 0xD20 && MBT::ADDRESS == 0xD20,
        <BASE2 as Register>::spec_address() == 0xDF0 && BASE2::ADDRESS == 0xDF0,
        <CFG as Register>::spec_address() == 0xDF4 && CFG::ADDRESS == 0xDF4,
        <BASE as Register>::spec_address() == 0xDF8 && BASE::ADDRESS == 0xDF8,
        <IDR as Register>::spec_address() == 0xDFC && IDR::ADDRESS == 0xDFC,
{
}

} // verus!
