//! Chain-loading transfer protocol: a host-side sender streams a boot image
//! over a byte-duplex serial link to a firmware-side receiver, in fixed-size
//! chunks with per-chunk acknowledgement and checksum confirmation.

pub mod checksum;
pub mod chunks;
pub mod receiver;
pub mod scanner;
pub mod sender;
pub mod size_field;
pub mod token;

pub use checksum::checksum;
pub use chunks::CHUNK_SIZE;
