//! Encrypts a secret text to an OpenPGP certificate and tracks what a page
//! shows for each attempt.
pub mod armor;
pub mod error;
pub mod flow;
pub mod pgp;
