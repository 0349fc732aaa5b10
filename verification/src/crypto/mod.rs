//! Post-quantum key encapsulation, signatures and the key store.
pub mod kyber;
pub mod dilithium;
pub mod key_manager;
