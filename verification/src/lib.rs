//! Structures of the Linux/x86 boot protocol that a boot loader needs to hand
//! control to a kernel image: the real-mode setup header found inside the
//! image, and the "zero page" of boot parameters built for the kernel.
//!
//! Both structures are defined by their byte layout. Every type here comes
//! with a specification of its byte image, and the executable code is proved
//! to read and produce exactly those bytes.

pub mod e820;
pub mod endian;
pub mod error;
pub mod header;
pub mod page;
pub mod params;

pub use e820::E820Entry;
pub use error::BootError;
pub use header::SetupHeader;
pub use page::BootParamsView;
pub use params::BootParams;
