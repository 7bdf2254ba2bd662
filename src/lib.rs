//! Recovery of browser cookies that the operating system protects: the
//! versioned decryption of stored cookie values, the key envelopes that guard
//! the master key, the restart-manager protocol that frees a locked store,
//! and the NTFS directory walk that reads a locked store straight from its
//! volume.

pub mod browser;
pub mod cipher;
pub mod cookie;
pub mod envelope;
pub mod error;
pub mod extract;
pub mod navigator;
pub mod primitives;
pub mod record;
pub mod restart;
pub mod sector;
