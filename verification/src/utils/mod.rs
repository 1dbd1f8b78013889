pub mod ed25519_verify;
