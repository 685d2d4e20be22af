//! Key management and sealing: the data-encryption key vault and
//! passphrase-derived archive keys.
pub mod crypto;
pub mod key_vault;
pub mod passphrase;
