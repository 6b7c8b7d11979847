//! DMA reads and writes against a remote PCI Express device over NetTLP,
//! a protocol that carries Transaction Layer Packets in UDP datagrams.
//!
//! The crate holds the wire codec of the TLP headers, the alignment and
//! chunking arithmetic, and the request/completion engine as a state machine
//! that a transport drives.

pub use crate::error::Error;
pub use crate::nettlp::DmaDirection;

pub mod completion;
pub mod error;
pub mod nettlp;
pub mod packet;
pub mod pci;
pub mod read;
pub mod text;
pub mod tlp;
pub mod wire;
pub mod write;
