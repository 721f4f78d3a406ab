//! Verified core of a cross-platform memory-mapping library.
//!
//! The crate decides everything that lies between a declarative mapping
//! request and the operating-system call that establishes the mapping:
//! which requests are valid, which protection and flag words they
//! translate to, how offset and length are aligned, in which order the
//! system calls are issued, and what has to be released when one of them
//! fails. The system calls themselves are performed by the embedding
//! program, which is handed each call as plain data and hands the outcome
//! back.
//!
//! A request is put together with a [`MmapBuilder`] and finalized for a
//! [`Platform`]. Finalizing yields a [`Session`]; the embedding program
//! makes the call the session names, hands the reply to
//! [`Session::advance`], and repeats until the session ends in an [`Mmap`]
//! or in an [`MmapError`].

pub mod access;
pub mod advice;
pub mod alignment;
pub mod bits;
pub mod common_builder;
pub mod common_huge_page;
pub mod descriptor;
pub mod durability;
pub mod error;
pub mod granularity;
pub mod laws;
pub mod mapping;
pub mod platform;
pub mod privilege;
pub mod request;
pub mod session;
pub mod syscall;
pub mod unix;
pub mod windows;

pub use alignment::Geometry;
pub use common_builder::{CommonMmapBuilder, MmapBuilder, MmapBuilderWindowsExt};
pub use descriptor::{MmapRawDescriptor, RawDescriptor, NO_DESCRIPTOR};
pub use durability::{CommonMmapMut, FlushProgress, FlushSession};
pub use error::MmapError;
pub use granularity::GranularityCache;
pub use mapping::{Layout, Mmap, MmapMut, Region, Teardown};
pub use platform::{Platform, PosixPlatform, WindowsPlatform};
pub use request::MappingRequest;
pub use session::{Progress, Session, WindowsStage};
pub use syscall::SysCall;
