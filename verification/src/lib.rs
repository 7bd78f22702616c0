//! Cryptographic core for reading electronic machine-readable travel
//! documents: modular-ring arithmetic over big integers, mod-p and
//! short-Weierstrass elliptic-curve groups, ECDH/ECKA key agreement,
//! ECDSA and RSASSA-PSS signature verification, and the BSI TR-03111
//! and ICAO 9303-11 wire encodings.

pub mod uint;
pub mod modmath;
pub mod error;
pub mod ring;
pub mod element;
pub mod curve;
pub mod ecdsa;
pub mod rng;
pub mod modp;
pub mod hash;
pub mod codec;
pub mod sigalg;
pub mod rsa;
pub mod iso7816;
pub mod secure;
pub mod pace;
pub mod mulgroup;
pub mod named;
pub mod ecka;
pub mod icao;
pub mod der;
pub mod groups;
pub mod chipauth;
