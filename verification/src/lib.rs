//! Threshold-capable BLS signcryption: validation and decryption of sealed
//! ciphertexts, generic over the pairing suite that supplies the primitives.
//!
//! A ciphertext is bound to one of three BLS signature schemes. Every
//! operation resolves the domain-separation tag of that scheme and hands it
//! to the suite, so that sealing and opening stay bound to the same scheme.
//! Validity travels as a constant-time `Choice`, plaintext as a constant-time
//! `CtOption`; no operation on a ciphertext or a key branches on either.
//!
//! - [`scheme`]: the schemes and the registry of their tags.
//! - [`suite`]: the primitives a pairing suite supplies, with their contracts.
//! - [`ciphertext`], [`decryption_key`], [`keys`]: the values and what is
//!   done with them.
//! - [`record`]: the serialized layout of a ciphertext.
//! - [`text`]: the display form.
//! - [`constant_time`]: what the contracts say of `Choice` and `CtOption`.
//! - [`laws`]: what holds of all of it.

pub mod ciphertext;
pub mod constant_time;
pub mod decryption_key;
pub mod keys;
pub mod laws;
pub mod record;
pub mod scheme;
pub mod suite;
pub mod text;

pub use ciphertext::{CiphertextModel, SignCryptCiphertext};
pub use decryption_key::SignCryptDecryptionKey;
pub use keys::{SecretKey, SignDecryptionShare};
pub use record::{CiphertextRecord, RecordModel};
pub use scheme::{dst_for, SignatureSchemes};
pub use suite::{CombinationError, SignCryptSuite};
