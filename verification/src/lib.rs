//! Verified core of a disk-image flashing tool.
//!
//! The library covers the logic of writing a disk image to a block device and
//! confirming the write afterwards: chunked streaming with a running digest,
//! the flash session state machine, the verifier that re-reads the written
//! region and compares digests, and the small decision routines that drive the
//! surrounding terminal front-end. All device and file I/O stays outside; the
//! library works on plain bytes and an in-memory simulated device, and exposes
//! step functions that an unverified shell drives against real hardware.

pub mod device;
pub mod digest;
pub mod drives;
pub mod flasher;
pub mod orchestrator;
pub mod pipeline;
pub mod retry;
pub mod session;
pub mod ui;

pub use digest::digest_of;
pub use digest::Digest;
pub use digest::DigestState;
pub use flasher::FlashStats;
pub use pipeline::flash;
pub use pipeline::verify;
pub use pipeline::VerificationResult;
pub use session::FlashError;
pub use session::FlashSession;
pub use session::FlashStatus;
pub use session::VerifyError;
