//! Processor identification and feature detection: the identification query, the
//! decoders of its leaves, and a snapshot that queries only the leaves the
//! processor reports as supported.
pub mod bits;
pub mod brand;
pub mod leaves;
pub mod master;
pub mod query;

pub use brand::BrandString;
pub use leaves::{
    CacheLine, CacheLineAssociativity, ExtendedProcessorSignature, PhysicalAddressSize,
    StructuredExtendedInformation, ThermalPowerManagementInformation, TimeStampCounter,
    VersionInformation,
};
pub use master::{master, Master};
pub use query::{CpuidSource, HardwareCpu, Registers, ScriptedCpu};
