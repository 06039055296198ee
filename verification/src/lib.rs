//! Host-side bridge model for a foreign, object-oriented document runtime
//! that is reachable only through opaque, address-sized handles.
//!
//! The modules cover the bridge's core obligations: giving foreign handles
//! well-defined ownership so each is disposed exactly once (`handle`),
//! marshalling strings across the boundary (`marshal`), draining foreign
//! list and map collections through stateful iterator handles (`drain`),
//! resolving a foreign enum value's name and ordinal (`enum_info`), the
//! conversion seam every bridgeable type implements (`convert`), and the
//! conformance-harness accounting that judges the bridge's output
//! (`harness`).

pub mod convert;
pub mod drain;
pub mod enum_info;
pub mod handle;
pub mod harness;
pub mod marshal;

pub use convert::FromForeign;
pub use convert::ToForeign;
pub use drain::ListDrain;
pub use drain::MapDrain;
pub use drain::MapPhase;
pub use enum_info::EnumDescription;
pub use enum_info::EnumQuery;
pub use enum_info::QueryPhase;
pub use handle::RawHandle;
pub use handle::SharedHandle;
pub use handle::TypeDescriptor;
pub use handle::UniqueOwner;
pub use harness::Category;
pub use harness::ConversionOutcome;
pub use harness::FixtureKind;
pub use harness::TestResults;
pub use marshal::EncodingError;
