//! Named group and curve parameters: the RFC 5114 MODP groups, the NIST
//! prime curves, and the Brainpool curves of RFC 5639 whose constants are
//! carried here. Each constructor states exactly which parameters it
//! instantiates and succeeds precisely when the validation accepts them.

use vstd::prelude::*;
use crate::uint::{Wide, be_val, uval, u_from_be_slice, u_from_u64};
use crate::modp::{ModPGroup, valid_modp_params};
use crate::curve::{EllipticCurve, valid_curve_params};
use crate::error::Error;

verus! {

pub const MODP_160_P: [u8; 128] = [
    0xb1, 0x0b, 0x8f, 0x96, 0xa0, 0x80, 0xe0, 0x1d, 0xde, 0x92, 0xde, 0x5e,
    0xae, 0x5d, 0x54, 0xec, 0x52, 0xc9, 0x9f, 0xbc, 0xfb, 0x06, 0xa3, 0xc6,
    0x9a, 0x6a, 0x9d, 0xca, 0x52, 0xd2, 0x3b, 0x61, 0x60, 0x73, 0xe2, 0x86,
    0x75, 0xa2, 0x3d, 0x18, 0x98, 0x38, 0xef, 0x1e, 0x2e, 0xe6, 0x52, 0xc0,
    0x13, 0xec, 0xb4, 0xae, 0xa9, 0x06, 0x11, 0x23, 0x24, 0x97, 0x5c, 0x3c,
    0xd4, 0x9b, 0x83, 0xbf, 0xac, 0xcb, 0xdd, 0x7d, 0x90, 0xc4, 0xbd, 0x70,
    0x98, 0x48, 0x8e, 0x9c, 0x21, 0x9a, 0x73, 0x72, 0x4e, 0xff, 0xd6, 0xfa,
    0xe5, 0x64, 0x47, 0x38, 0xfa, 0xa3, 0x1a, 0x4f, 0xf5, 0x5b, 0xcc, 0xc0,
    0xa1, 0x51, 0xaf, 0x5f, 0x0d, 0xc8, 0xb4, 0xbd, 0x45, 0xbf, 0x37, 0xdf,
    0x36, 0x5c, 0x1a, 0x65, 0xe6, 0x8c, 0xfd, 0xa7, 0x6d, 0x4d, 0xa7, 0x08,
    0xdf, 0x1f, 0xb2, 0xbc, 0x2e, 0x4a, 0x43, 0x71,
];

pub const MODP_160_G: [u8; 128] = [
    0xa4, 0xd1, 0xcb, 0xd5, 0xc3, 0xfd, 0x34, 0x12, 0x67, 0x65, 0xa4, 0x42,
    0xef, 0xb9, 0x99, 0x05, 0xf8, 0x10, 0x4d, 0xd2, 0x58, 0xac, 0x50, 0x7f,
    0xd6, 0x40, 0x6c, 0xff, 0x14, 0x26, 0x6d, 0x31, 0x26, 0x6f, 0xea, 0x1e,
    0x5c, 0x41, 0x56, 0x4b, 0x77, 0x7e, 0x69, 0x0f, 0x55, 0x04, 0xf2, 0x13,
    0x16, 0x02, 0x17, 0xb4, 0xb0, 0x1b, 0x88, 0x6a, 0x5e, 0x91, 0x54, 0x7f,
    0x9e, 0x27, 0x49, 0xf4, 0xd7, 0xfb, 0xd7, 0xd3, 0xb9, 0xa9, 0x2e, 0xe1,
    0x90, 0x9d, 0x0d, 0x22, 0x63, 0xf8, 0x0a, 0x76, 0xa6, 0xa2, 0x4c, 0x08,
    0x7a, 0x09, 0x1f, 0x53, 0x1d, 0xbf, 0x0a, 0x01, 0x69, 0xb6, 0xa2, 0x8a,
    0xd6, 0x62, 0xa4, 0xd1, 0x8e, 0x73, 0xaf, 0xa3, 0x2d, 0x77, 0x9d, 0x59,
    0x18, 0xd0, 0x8b, 0xc8, 0x85, 0x8f, 0x4d, 0xce, 0xf9, 0x7c, 0x2a, 0x24,
    0x85, 0x5e, 0x6e, 0xeb, 0x22, 0xb3, 0xb2, 0xe5,
];

pub const MODP_160_N: [u8; 20] = [
    0xf5, 0x18, 0xaa, 0x87, 0x81, 0xa8, 0xdf, 0x27, 0x8a, 0xba, 0x4e, 0x7d,
    0x64, 0xb7, 0xcb, 0x9d, 0x49, 0x46, 0x23, 0x53,
];

/// RFC 5114 1024-bit MODP group with 160-bit prime-order subgroup.
pub fn modp_160() -> (r: Result<ModPGroup, Error>)
    ensures
        r is Ok <==> valid_modp_params(be_val(MODP_160_P@), be_val(MODP_160_G@), be_val(MODP_160_N@)),
        r is Ok ==> {
            let g = r.unwrap();
            &&& g.wf()
            &&& g.pv() == be_val(MODP_160_P@)
            &&& g.gv() == be_val(MODP_160_G@)
            &&& g.nv() == be_val(MODP_160_N@)
        },
{
    let modulus = u_from_be_slice(MODP_160_P.as_slice());
    let generator = u_from_be_slice(MODP_160_G.as_slice());
    let order = u_from_be_slice(MODP_160_N.as_slice());
    let params = Group { modulus, generator, order };
    params.build()
}

pub const MODP_224_P: [u8; 256] = [
    0xad, 0x10, 0x7e, 0x1e, 0x91, 0x23, 0xa9, 0xd0, 0xd6, 0x60, 0xfa, 0xa7,
    0x95, 0x59, 0xc5, 0x1f, 0xa2, 0x0d, 0x64, 0xe5, 0x68, 0x3b, 0x9f, 0xd1,
    0xb5, 0x4b, 0x15, 0x97, 0xb6, 0x1d, 0x0a, 0x75, 0xe6, 0xfa, 0x14, 0x1d,
    0xf9, 0x5a, 0x56, 0xdb, 0xaf, 0x9a, 0x3c, 0x40, 0x7b, 0xa1, 0xdf, 0x15,
    0xeb, 0x3d, 0x68, 0x8a, 0x30, 0x9c, 0x18, 0x0e, 0x1d, 0xe6, 0xb8, 0x5a,
    0x12, 0x74, 0xa0, 0xa6, 0x6d, 0x3f, 0x81, 0x52, 0xad, 0x6a, 0xc2, 0x12,
    0x90, 0x37, 0xc9, 0xed, 0xef, 0xda, 0x4d, 0xf8, 0xd9, 0x1e, 0x8f, 0xef,
    0x55, 0xb7, 0x39, 0x4b, 0x7a, 0xd5, 0xb7, 0xd0, 0xb6, 0xc1, 0x22, 0x07,
    0xc9, 0xf9, 0x8d, 0x11, 0xed, 0x34, 0xdb, 0xf6, 0xc6, 0xba, 0x0b, 0x2c,
    0x8b, 0xbc, 0x27, 0xbe, 0x6a, 0x00, 0xe0, 0xa0, 0xb9, 0xc4, 0x97, 0x08,
    0xb3, 0xbf, 0x8a, 0x31, 0x70, 0x91, 0x88, 0x36, 0x81, 0x28, 0x61, 0x30,
    0xbc, 0x89, 0x85, 0xdb, 0x16, 0x02, 0xe7, 0x14, 0x41, 0x5d, 0x93, 0x30,
    0x27, 0x82, 0x73, 0xc7, 0xde, 0x31, 0xef, 0xdc, 0x73, 0x10, 0xf7, 0x12,
    0x1f, 0xd5, 0xa0, 0x74, 0x15, 0x98, 0x7d, 0x9a, 0xdc, 0x0a, 0x48, 0x6d,
    0xcd, 0xf9, 0x3a, 0xcc, 0x44, 0x32, 0x83, 0x87, 0x31, 0x5d, 0x75, 0xe1,
    0x98, 0xc6, 0x41, 0xa4, 0x80, 0xcd, 0x86, 0xa1, 0xb9, 0xe5, 0x87, 0xe8,
    0xbe, 0x60, 0xe6, 0x9c, 0xc9, 0x28, 0xb2, 0xb9, 0xc5, 0x21, 0x72, 0xe4,
    0x13, 0x04, 0x2e, 0x9b, 0x23, 0xf1, 0x0b, 0x0e, 0x16, 0xe7, 0x97, 0x63,
    0xc9, 0xb5, 0x3d, 0xcf, 0x4b, 0xa8, 0x0a, 0x29, 0xe3, 0xfb, 0x73, 0xc1,
    0x6b, 0x8e, 0x75, 0xb9, 0x7e, 0xf3, 0x63, 0xe2, 0xff, 0xa3, 0x1f, 0x71,
    0xcf, 0x9d, 0xe5, 0x38, 0x4e, 0x71, 0xb8, 0x1c, 0x0a, 0xc4, 0xdf, 0xfe,
    0x0c, 0x10, 0xe6, 0x4f,
];

pub const MODP_224_G: [u8; 256] = [
    0xac, 0x40, 0x32, 0xef, 0x4f, 0x2d, 0x9a, 0xe3, 0x9d, 0xf3, 0x0b, 0x5c,
    0x8f, 0xfd, 0xac, 0x50, 0x6c, 0xde, 0xbe, 0x7b, 0x89, 0x99, 0x8c, 0xaf,
    0x74, 0x86, 0x6a, 0x08, 0xcf, 0xe4, 0xff, 0xe3, 0xa6, 0x82, 0x4a, 0x4e,
    0x10, 0xb9, 0xa6, 0xf0, 0xdd, 0x92, 0x1f, 0x01, 0xa7, 0x0c, 0x4a, 0xfa,
    0xab, 0x73, 0x9d, 0x77, 0x00, 0xc2, 0x9f, 0x52, 0xc5, 0x7d, 0xb1, 0x7c,
    0x62, 0x0a, 0x86, 0x52, 0xbe, 0x5e, 0x90, 0x01, 0xa8, 0xd6, 0x6a, 0xd7,
    0xc1, 0x76, 0x69, 0x10, 0x19, 0x99, 0x02, 0x4a, 0xf4, 0xd0, 0x27, 0x27,
    0x5a, 0xc1, 0x34, 0x8b, 0xb8, 0xa7, 0x62, 0xd0, 0x52, 0x1b, 0xc9, 0x8a,
    0xe2, 0x47, 0x15, 0x04, 0x22, 0xea, 0x1e, 0xd4, 0x09, 0x93, 0x9d, 0x54,
    0xda, 0x74, 0x60, 0xcd, 0xb5, 0xf6, 0xc6, 0xb2, 0x50, 0x71, 0x7c, 0xbe,
    0xf1, 0x80, 0xeb, 0x34, 0x11, 0x8e, 0x98, 0xd1, 0x19, 0x52, 0x9a, 0x45,
    0xd6, 0xf8, 0x34, 0x56, 0x6e, 0x30, 0x25, 0xe3, 0x16, 0xa3, 0x30, 0xef,
    0xbb, 0x77, 0xa8, 0x6f, 0x0c, 0x1a, 0xb1, 0x5b, 0x05, 0x1a, 0xe3, 0xd4,
    0x28, 0xc8, 0xf8, 0xac, 0xb7, 0x0a, 0x81, 0x37, 0x15, 0x0b, 0x8e, 0xeb,
    0x10, 0xe1, 0x83, 0xed, 0xd1, 0x99, 0x63, 0xdd, 0xd9, 0xe2, 0x63, 0xe4,
    0x77, 0x05, 0x89, 0xef, 0x6a, 0xa2, 0x1e, 0x7f, 0x5f, 0x2f, 0xf3, 0x81,
    0xb5, 0x39, 0xcc, 0xe3, 0x40, 0x9d, 0x13, 0xcd, 0x56, 0x6a, 0xfb, 0xb4,
    0x8d, 0x6c, 0x01, 0x91, 0x81, 0xe1, 0xbc, 0xfe, 0x94, 0xb3, 0x02, 0x69,
    0xed, 0xfe, 0x72, 0xfe, 0x9b, 0x6a, 0xa4, 0xbd, 0x7b, 0x5a, 0x0f, 0x1c,
    0x71, 0xcf, 0xff, 0x4c, 0x19, 0xc4, 0x18, 0xe1, 0xf6, 0xec, 0x01, 0x79,
    0x81, 0xbc, 0x08, 0x7f, 0x2a, 0x70, 0x65, 0xb3, 0x84, 0xb8, 0x90, 0xd3,
    0x19, 0x1f, 0x2b, 0xfa,
];

pub const MODP_224_N: [u8; 28] = [
    0x80, 0x1c, 0x0d, 0x34, 0xc5, 0x8d, 0x93, 0xfe, 0x99, 0x71, 0x77, 0x10,
    0x1f, 0x80, 0x53, 0x5a, 0x47, 0x38, 0xce, 0xbc, 0xbf, 0x38, 0x9a, 0x99,
    0xb3, 0x63, 0x71, 0xeb,
];

/// RFC 5114 2048-bit MODP group with 224-bit prime-order subgroup.
pub fn modp_224() -> (r: Result<ModPGroup, Error>)
    ensures
        r is Ok <==> valid_modp_params(be_val(MODP_224_P@), be_val(MODP_224_G@), be_val(MODP_224_N@)),
        r is Ok ==> {
            let g = r.unwrap();
            &&& g.wf()
            &&& g.pv() == be_val(MODP_224_P@)
            &&& g.gv() == be_val(MODP_224_G@)
            &&& g.nv() == be_val(MODP_224_N@)
        },
{
    let modulus = u_from_be_slice(MODP_224_P.as_slice());
    let generator = u_from_be_slice(MODP_224_G.as_slice());
    let order = u_from_be_slice(MODP_224_N.as_slice());
    let params = Group { modulus, generator, order };
    params.build()
}

pub const MODP_256_P: [u8; 256] = [
    0x87, 0xa8, 0xe6, 0x1d, 0xb4, 0xb6, 0x66, 0x3c, 0xff, 0xbb, 0xd1, 0x9c,
    0x65, 0x19, 0x59, 0x99, 0x8c, 0xee, 0xf6, 0x08, 0x66, 0x0d, 0xd0, 0xf2,
    0x5d, 0x2c, 0xee, 0xd4, 0x43, 0x5e, 0x3b, 0x00, 0xe0, 0x0d, 0xf8, 0xf1,
    0xd6, 0x19, 0x57, 0xd4, 0xfa, 0xf7, 0xdf, 0x45, 0x61, 0xb2, 0xaa, 0x30,
    0x16, 0xc3, 0xd9, 0x11, 0x34, 0x09, 0x6f, 0xaa, 0x3b, 0xf4, 0x29, 0x6d,
    0x83, 0x0e, 0x9a, 0x7c, 0x20, 0x9e, 0x0c, 0x64, 0x97, 0x51, 0x7a, 0xbd,
    0x5a, 0x8a, 0x9d, 0x30, 0x6b, 0xcf, 0x67, 0xed, 0x91, 0xf9, 0xe6, 0x72,
    0x5b, 0x47, 0x58, 0xc0, 0x22, 0xe0, 0xb1, 0xef, 0x42, 0x75, 0xbf, 0x7b,
    0x6c, 0x5b, 0xfc, 0x11, 0xd4, 0x5f, 0x90, 0x88, 0xb9, 0x41, 0xf5, 0x4e,
    0xb1, 0xe5, 0x9b, 0xb8, 0xbc, 0x39, 0xa0, 0xbf, 0x12, 0x30, 0x7f, 0x5c,
    0x4f, 0xdb, 0x70, 0xc5, 0x81, 0xb2, 0x3f, 0x76, 0xb6, 0x3a, 0xca, 0xe1,
    0xca, 0xa6, 0xb7, 0x90, 0x2d, 0x52, 0x52, 0x67, 0x35, 0x48, 0x8a, 0x0e,
    0xf1, 0x3c, 0x6d, 0x9a, 0x51, 0xbf, 0xa4, 0xab, 0x3a, 0xd8, 0x34, 0x77,
    0x96, 0x52, 0x4d, 0x8e, 0xf6, 0xa1, 0x67, 0xb5, 0xa4, 0x18, 0x25, 0xd9,
    0x67, 0xe1, 0x44, 0xe5, 0x14, 0x05, 0x64, 0x25, 0x1c, 0xca, 0xcb, 0x83,
    0xe6, 0xb4, 0x86, 0xf6, 0xb3, 0xca, 0x3f, 0x79, 0x71, 0x50, 0x60, 0x26,
    0xc0, 0xb8, 0x57, 0xf6, 0x89, 0x96, 0x28, 0x56, 0xde, 0xd4, 0x01, 0x0a,
    0xbd, 0x0b, 0xe6, 0x21, 0xc3, 0xa3, 0x96, 0x0a, 0x54, 0xe7, 0x10, 0xc3,
    0x75, 0xf2, 0x63, 0x75, 0xd7, 0x01, 0x41, 0x03, 0xa4, 0xb5, 0x43, 0x30,
    0xc1, 0x98, 0xaf, 0x12, 0x61, 0x16, 0xd2, 0x27, 0x6e, 0x11, 0x71, 0x5f,
    0x69, 0x38, 0x77, 0xfa, 0xd7, 0xef, 0x09, 0xca, 0xdb, 0x09, 0x4a, 0xe9,
    0x1e, 0x1a, 0x15, 0x97,
];

pub const MODP_256_G: [u8; 256] = [
    0x3f, 0xb3, 0x2c, 0x9b, 0x73, 0x13, 0x4d, 0x0b, 0x2e, 0x77, 0x50, 0x66,
    0x60, 0xed, 0xbd, 0x48, 0x4c, 0xa7, 0xb1, 0x8f, 0x21, 0xef, 0x20, 0x54,
    0x07, 0xf4, 0x79, 0x3a, 0x1a, 0x0b, 0xa1, 0x25, 0x10, 0xdb, 0xc1, 0x50,
    0x77, 0xbe, 0x46, 0x3f, 0xff, 0x4f, 0xed, 0x4a, 0xac, 0x0b, 0xb5, 0x55,
    0xbe, 0x3a, 0x6c, 0x1b, 0x0c, 0x6b, 0x47, 0xb1, 0xbc, 0x37, 0x73, 0xbf,
    0x7e, 0x8c, 0x6f, 0x62, 0x90, 0x12, 0x28, 0xf8, 0xc2, 0x8c, 0xbb, 0x18,
    0xa5, 0x5a, 0xe3, 0x13, 0x41, 0x00, 0x0a, 0x65, 0x01, 0x96, 0xf9, 0x31,
    0xc7, 0x7a, 0x57, 0xf2, 0xdd, 0xf4, 0x63, 0xe5, 0xe9, 0xec, 0x14, 0x4b,
    0x77, 0x7d, 0xe6, 0x2a, 0xaa, 0xb8, 0xa8, 0x62, 0x8a, 0xc3, 0x76, 0xd2,
    0x82, 0xd6, 0xed, 0x38, 0x64, 0xe6, 0x79, 0x82, 0x42, 0x8e, 0xbc, 0x83,
    0x1d, 0x14, 0x34, 0x8f, 0x6f, 0x2f, 0x91, 0x93, 0xb5, 0x04, 0x5a, 0xf2,
    0x76, 0x71, 0x64, 0xe1, 0xdf, 0xc9, 0x67, 0xc1, 0xfb, 0x3f, 0x2e, 0x55,
    0xa4, 0xbd, 0x1b, 0xff, 0xe8, 0x3b, 0x9c, 0x80, 0xd0, 0x52, 0xb9, 0x85,
    0xd1, 0x82, 0xea, 0x0a, 0xdb, 0x2a, 0x3b, 0x73, 0x13, 0xd3, 0xfe, 0x14,
    0xc8, 0x48, 0x4b, 0x1e, 0x05, 0x25, 0x88, 0xb9, 0xb7, 0xd2, 0xbb, 0xd2,
    0xdf, 0x01, 0x61, 0x99, 0xec, 0xd0, 0x6e, 0x15, 0x57, 0xcd, 0x09, 0x15,
    0xb3, 0x35, 0x3b, 0xbb, 0x64, 0xe0, 0xec, 0x37, 0x7f, 0xd0, 0x28, 0x37,
    0x0d, 0xf9, 0x2b, 0x52, 0xc7, 0x89, 0x14, 0x28, 0xcd, 0xc6, 0x7e, 0xb6,
    0x18, 0x4b, 0x52, 0x3d, 0x1d, 0xb2, 0x46, 0xc3, 0x2f, 0x63, 0x07, 0x84,
    0x90, 0xf0, 0x0e, 0xf8, 0xd6, 0x47, 0xd1, 0x48, 0xd4, 0x79, 0x54, 0x51,
    0x5e, 0x23, 0x27, 0xcf, 0xef, 0x98, 0xc5, 0x82, 0x66, 0x4b, 0x4c, 0x0f,
    0x6c, 0xc4, 0x16, 0x59,
];

pub const MODP_256_N: [u8; 32] = [
    0x8c, 0xf8, 0x36, 0x42, 0xa7, 0x09, 0xa0, 0x97, 0xb4, 0x47, 0x99, 0x76,
    0x40, 0x12, 0x9d, 0xa2, 0x99, 0xb1, 0xa4, 0x7d, 0x1e, 0xb3, 0x75, 0x0b,
    0xa3, 0x08, 0xb0, 0xfe, 0x64, 0xf5, 0xfb, 0xd3,
];

/// RFC 5114 2048-bit MODP group with 256-bit prime-order subgroup.
pub fn modp_256() -> (r: Result<ModPGroup, Error>)
    ensures
        r is Ok <==> valid_modp_params(be_val(MODP_256_P@), be_val(MODP_256_G@), be_val(MODP_256_N@)),
        r is Ok ==> {
            let g = r.unwrap();
            &&& g.wf()
            &&& g.pv() == be_val(MODP_256_P@)
            &&& g.gv() == be_val(MODP_256_G@)
            &&& g.nv() == be_val(MODP_256_N@)
        },
{
    let modulus = u_from_be_slice(MODP_256_P.as_slice());
    let generator = u_from_be_slice(MODP_256_G.as_slice());
    let order = u_from_be_slice(MODP_256_N.as_slice());
    let params = Group { modulus, generator, order };
    params.build()
}

pub const SECP192R1_P: [u8; 24] = [
    0xff, 0xff, 0xff, 0xff, 0xff, 0xff, 0xff, 0xff, 0xff, 0xff, 0xff, 0xff,
    0xff, 0xff, 0xff, 0xfe, 0xff, 0xff, 0xff, 0xff, 0xff, 0xff, 0xff, 0xff,
];

pub const SECP192R1_A: [u8; 24] = [
    0xff, 0xff, 0xff, 0xff, 0xff, 0xff, 0xff, 0xff, 0xff, 0xff, 0xff, 0xff,
    0xff, 0xff, 0xff, 0xfe, 0xff, 0xff, 0xff, 0xff, 0xff, 0xff, 0xff, 0xfc,
];

pub const SECP192R1_B: [u8; 24] = [
    0x64, 0x21, 0x05, 0x19, 0xe5, 0x9c, 0x80, 0xe7, 0x0f, 0xa7, 0xe9, 0xab,
    0x72, 0x24, 0x30, 0x49, 0xfe, 0xb8, 0xde, 0xec, 0xc1, 0x46, 0xb9, 0xb1,
];

pub const SECP192R1_GX: [u8; 24] = [
    0x18, 0x8d, 0xa8, 0x0e, 0xb0, 0x30, 0x90, 0xf6, 0x7c, 0xbf, 0x20, 0xeb,
    0x43, 0xa1, 0x88, 0x00, 0xf4, 0xff, 0x0a, 0xfd, 0x82, 0xff, 0x10, 0x12,
];

pub const SECP192R1_GY: [u8; 24] = [
    0x07, 0x19, 0x2b, 0x95, 0xff, 0xc8, 0xda, 0x78, 0x63, 0x10, 0x11, 0xed,
    0x6b, 0x24, 0xcd, 0xd5, 0x73, 0xf9, 0x77, 0xa1, 0x1e, 0x79, 0x48, 0x11,
];

pub const SECP192R1_N: [u8; 24] = [
    0xff, 0xff, 0xff, 0xff, 0xff, 0xff, 0xff, 0xff, 0xff, 0xff, 0xff, 0xff,
    0x99, 0xde, 0xf8, 0x36, 0x14, 0x6b, 0xc9, 0xb1, 0xb4, 0xd2, 0x28, 0x31,
];

/// NIST P-192.
pub fn secp192r1() -> (r: Result<EllipticCurve, Error>)
    ensures
        r is Ok <==> valid_curve_params(be_val(SECP192R1_P@), be_val(SECP192R1_A@), be_val(SECP192R1_B@), be_val(
            SECP192R1_GX@), be_val(SECP192R1_GY@), be_val(SECP192R1_N@)),
        r is Ok ==> {
            let c = r.unwrap();
            &&& c.wf()
            &&& c.pv() == be_val(SECP192R1_P@)
            &&& c.av() == be_val(SECP192R1_A@)
            &&& c.bv() == be_val(SECP192R1_B@)
            &&& c.gv() == (be_val(SECP192R1_GX@), be_val(SECP192R1_GY@))
            &&& c.nv() == be_val(SECP192R1_N@)
            &&& c.hv() == 1
        },
{
    let modulus = u_from_be_slice(SECP192R1_P.as_slice());
    let param_a = u_from_be_slice(SECP192R1_A.as_slice());
    let param_b = u_from_be_slice(SECP192R1_B.as_slice());
    let gx = u_from_be_slice(SECP192R1_GX.as_slice());
    let gy = u_from_be_slice(SECP192R1_GY.as_slice());
    let order = u_from_be_slice(SECP192R1_N.as_slice());
    let params = Curve { modulus, param_a, param_b, generator: (gx, gy), order };
    params.build()
}

pub const SECP224R1_P: [u8; 28] = [
    0xff, 0xff, 0xff, 0xff, 0xff, 0xff, 0xff, 0xff, 0xff, 0xff, 0xff, 0xff,
    0xff, 0xff, 0xff, 0xff, 0x00, 0x00, 0x00, 0x00, 0x00, 0x00, 0x00, 0x00,
    0x00, 0x00, 0x00, 0x01,
];

pub const SECP224R1_A: [u8; 28] = [
    0xff, 0xff, 0xff, 0xff, 0xff, 0xff, 0xff, 0xff, 0xff, 0xff, 0xff, 0xff,
    0xff, 0xff, 0xff, 0xfe, 0xff, 0xff, 0xff, 0xff, 0xff, 0xff, 0xff, 0xff,
    0xff, 0xff, 0xff, 0xfe,
];

pub const SECP224R1_B: [u8; 28] = [
    0xb4, 0x05, 0x0a, 0x85, 0x0c, 0x04, 0xb3, 0xab, 0xf5, 0x41, 0x32, 0x56,
    0x50, 0x44, 0xb0, 0xb7, 0xd7, 0xbf, 0xd8, 0xba, 0x27, 0x0b, 0x39, 0x43,
    0x23, 0x55, 0xff, 0xb4,
];

pub const SECP224R1_GX: [u8; 28] = [
    0xb7, 0x0e, 0x0c, 0xbd, 0x6b, 0xb4, 0xbf, 0x7f, 0x32, 0x13, 0x90, 0xb9,
    0x4a, 0x03, 0xc1, 0xd3, 0x56, 0xc2, 0x11, 0x22, 0x34, 0x32, 0x80, 0xd6,
    0x11, 0x5c, 0x1d, 0x21,
];

pub const SECP224R1_GY: [u8; 28] = [
    0xbd, 0x37, 0x63, 0x88, 0xb5, 0xf7, 0x23, 0xfb, 0x4c, 0x22, 0xdf, 0xe6,
    0xcd, 0x43, 0x75, 0xa0, 0x5a, 0x07, 0x47, 0x64, 0x44, 0xd5, 0x81, 0x99,
    0x85, 0x00, 0x7e, 0x34,
];

pub const SECP224R1_N: [u8; 28] = [
    0xff, 0xff, 0xff, 0xff, 0xff, 0xff, 0xff, 0xff, 0xff, 0xff, 0xff, 0xff,
    0xff, 0xff, 0x16, 0xa2, 0xe0, 0xb8, 0xf0, 0x3e, 0x13, 0xdd, 0x29, 0x45,
    0x5c, 0x5c, 0x2a, 0x3d,
];

/// NIST P-224.
pub fn secp224r1() -> (r: Result<EllipticCurve, Error>)
    ensures
        r is Ok <==> valid_curve_params(be_val(SECP224R1_P@), be_val(SECP224R1_A@), be_val(SECP224R1_B@), be_val(
            SECP224R1_GX@), be_val(SECP224R1_GY@), be_val(SECP224R1_N@)),
        r is Ok ==> {
            let c = r.unwrap();
            &&& c.wf()
            &&& c.pv() == be_val(SECP224R1_P@)
            &&& c.av() == be_val(SECP224R1_A@)
            &&& c.bv() == be_val(SECP224R1_B@)
            &&& c.gv() == (be_val(SECP224R1_GX@), be_val(SECP224R1_GY@))
            &&& c.nv() == be_val(SECP224R1_N@)
            &&& c.hv() == 1
        },
{
    let modulus = u_from_be_slice(SECP224R1_P.as_slice());
    let param_a = u_from_be_slice(SECP224R1_A.as_slice());
    let param_b = u_from_be_slice(SECP224R1_B.as_slice());
    let gx = u_from_be_slice(SECP224R1_GX.as_slice());
    let gy = u_from_be_slice(SECP224R1_GY.as_slice());
    let order = u_from_be_slice(SECP224R1_N.as_slice());
    let params = Curve { modulus, param_a, param_b, generator: (gx, gy), order };
    params.build()
}

pub const SECP256R1_P: [u8; 32] = [
    0xff, 0xff, 0xff, 0xff, 0x00, 0x00, 0x00, 0x01, 0x00, 0x00, 0x00, 0x00,
    0x00, 0x00, 0x00, 0x00, 0x00, 0x00, 0x00, 0x00, 0xff, 0xff, 0xff, 0xff,
    0xff, 0xff, 0xff, 0xff, 0xff, 0xff, 0xff, 0xff,
];

pub const SECP256R1_A: [u8; 32] = [
    0xff, 0xff, 0xff, 0xff, 0x00, 0x00, 0x00, 0x01, 0x00, 0x00, 0x00, 0x00,
    0x00, 0x00, 0x00, 0x00, 0x00, 0x00, 0x00, 0x00, 0xff, 0xff, 0xff, 0xff,
    0xff, 0xff, 0xff, 0xff, 0xff, 0xff, 0xff, 0xfc,
];

pub const SECP256R1_B: [u8; 32] = [
    0x5a, 0xc6, 0x35, 0xd8, 0xaa, 0x3a, 0x93, 0xe7, 0xb3, 0xeb, 0xbd, 0x55,
    0x76, 0x98, 0x86, 0xbc, 0x65, 0x1d, 0x06, 0xb0, 0xcc, 0x53, 0xb0, 0xf6,
    0x3b, 0xce, 0x3c, 0x3e, 0x27, 0xd2, 0x60, 0x4b,
];

pub const SECP256R1_GX: [u8; 32] = [
    0x6b, 0x17, 0xd1, 0xf2, 0xe1, 0x2c, 0x42, 0x47, 0xf8, 0xbc, 0xe6, 0xe5,
    0x63, 0xa4, 0x40, 0xf2, 0x77, 0x03, 0x7d, 0x81, 0x2d, 0xeb, 0x33, 0xa0,
    0xf4, 0xa1, 0x39, 0x45, 0xd8, 0x98, 0xc2, 0x96,
];

pub const SECP256R1_GY: [u8; 32] = [
    0x4f, 0xe3, 0x42, 0xe2, 0xfe, 0x1a, 0x7f, 0x9b, 0x8e, 0xe7, 0xeb, 0x4a,
    0x7c, 0x0f, 0x9e, 0x16, 0x2b, 0xce, 0x33, 0x57, 0x6b, 0x31, 0x5e, 0xce,
    0xcb, 0xb6, 0x40, 0x68, 0x37, 0xbf, 0x51, 0xf5,
];

pub const SECP256R1_N: [u8; 32] = [
    0xff, 0xff, 0xff, 0xff, 0x00, 0x00, 0x00, 0x00, 0xff, 0xff, 0xff, 0xff,
    0xff, 0xff, 0xff, 0xff, 0xbc, 0xe6, 0xfa, 0xad, 0xa7, 0x17, 0x9e, 0x84,
    0xf3, 0xb9, 0xca, 0xc2, 0xfc, 0x63, 0x25, 0x51,
];

/// NIST P-256.
pub fn secp256r1() -> (r: Result<EllipticCurve, Error>)
    ensures
        r is Ok <==> valid_curve_params(be_val(SECP256R1_P@), be_val(SECP256R1_A@), be_val(SECP256R1_B@), be_val(
            SECP256R1_GX@), be_val(SECP256R1_GY@), be_val(SECP256R1_N@)),
        r is Ok ==> {
            let c = r.unwrap();
            &&& c.wf()
            &&& c.pv() == be_val(SECP256R1_P@)
            &&& c.av() == be_val(SECP256R1_A@)
            &&& c.bv() == be_val(SECP256R1_B@)
            &&& c.gv() == (be_val(SECP256R1_GX@), be_val(SECP256R1_GY@))
            &&& c.nv() == be_val(SECP256R1_N@)
            &&& c.hv() == 1
        },
{
    let modulus = u_from_be_slice(SECP256R1_P.as_slice());
    let param_a = u_from_be_slice(SECP256R1_A.as_slice());
    let param_b = u_from_be_slice(SECP256R1_B.as_slice());
    let gx = u_from_be_slice(SECP256R1_GX.as_slice());
    let gy = u_from_be_slice(SECP256R1_GY.as_slice());
    let order = u_from_be_slice(SECP256R1_N.as_slice());
    let params = Curve { modulus, param_a, param_b, generator: (gx, gy), order };
    params.build()
}

pub const SECP384R1_P: [u8; 48] = [
    0xff, 0xff, 0xff, 0xff, 0xff, 0xff, 0xff, 0xff, 0xff, 0xff, 0xff, 0xff,
    0xff, 0xff, 0xff, 0xff, 0xff, 0xff, 0xff, 0xff, 0xff, 0xff, 0xff, 0xff,
    0xff, 0xff, 0xff, 0xff, 0xff, 0xff, 0xff, 0xfe, 0xff, 0xff, 0xff, 0xff,
    0x00, 0x00, 0x00, 0x00, 0x00, 0x00, 0x00, 0x00, 0xff, 0xff, 0xff, 0xff,
];

pub const SECP384R1_A: [u8; 48] = [
    0xff, 0xff, 0xff, 0xff, 0xff, 0xff, 0xff, 0xff, 0xff, 0xff, 0xff, 0xff,
    0xff, 0xff, 0xff, 0xff, 0xff, 0xff, 0xff, 0xff, 0xff, 0xff, 0xff, 0xff,
    0xff, 0xff, 0xff, 0xff, 0xff, 0xff, 0xff, 0xfe, 0xff, 0xff, 0xff, 0xff,
    0x00, 0x00, 0x00, 0x00, 0x00, 0x00, 0x00, 0x00, 0xff, 0xff, 0xff, 0xfc,
];

pub const SECP384R1_B: [u8; 48] = [
    0xb3, 0x31, 0x2f, 0xa7, 0xe2, 0x3e, 0xe7, 0xe4, 0x98, 0x8e, 0x05, 0x6b,
    0xe3, 0xf8, 0x2d, 0x19, 0x18, 0x1d, 0x9c, 0x6e, 0xfe, 0x81, 0x41, 0x12,
    0x03, 0x14, 0x08, 0x8f, 0x50, 0x13, 0x87, 0x5a, 0xc6, 0x56, 0x39, 0x8d,
    0x8a, 0x2e, 0xd1, 0x9d, 0x2a, 0x85, 0xc8, 0xed, 0xd3, 0xec, 0x2a, 0xef,
];

pub const SECP384R1_GX: [u8; 48] = [
    0xaa, 0x87, 0xca, 0x22, 0xbe, 0x8b, 0x05, 0x37, 0x8e, 0xb1, 0xc7, 0x1e,
    0xf3, 0x20, 0xad, 0x74, 0x6e, 0x1d, 0x3b, 0x62, 0x8b, 0xa7, 0x9b, 0x98,
    0x59, 0xf7, 0x41, 0xe0, 0x82, 0x54, 0x2a, 0x38, 0x55, 0x02, 0xf2, 0x5d,
    0xbf, 0x55, 0x29, 0x6c, 0x3a, 0x54, 0x5e, 0x38, 0x72, 0x76, 0x0a, 0xb7,
];

pub const SECP384R1_GY: [u8; 48] = [
    0x36, 0x17, 0xde, 0x4a, 0x96, 0x26, 0x2c, 0x6f, 0x5d, 0x9e, 0x98, 0xbf,
    0x92, 0x92, 0xdc, 0x29, 0xf8, 0xf4, 0x1d, 0xbd, 0x28, 0x9a, 0x14, 0x7c,
    0xe9, 0xda, 0x31, 0x13, 0xb5, 0xf0, 0xb8, 0xc0, 0x0a, 0x60, 0xb1, 0xce,
    0x1d, 0x7e, 0x81, 0x9d, 0x7a, 0x43, 0x1d, 0x7c, 0x90, 0xea, 0x0e, 0x5f,
];

pub const SECP384R1_N: [u8; 48] = [
    0xff, 0xff, 0xff, 0xff, 0xff, 0xff, 0xff, 0xff, 0xff, 0xff, 0xff, 0xff,
    0xff, 0xff, 0xff, 0xff, 0xff, 0xff, 0xff, 0xff, 0xff, 0xff, 0xff, 0xff,
    0xc7, 0x63, 0x4d, 0x81, 0xf4, 0x37, 0x2d, 0xdf, 0x58, 0x1a, 0x0d, 0xb2,
    0x48, 0xb0, 0xa7, 0x7a, 0xec, 0xec, 0x19, 0x6a, 0xcc, 0xc5, 0x29, 0x73,
];

/// NIST P-384.
pub fn secp384r1() -> (r: Result<EllipticCurve, Error>)
    ensures
        r is Ok <==> valid_curve_params(be_val(SECP384R1_P@), be_val(SECP384R1_A@), be_val(SECP384R1_B@), be_val(
            SECP384R1_GX@), be_val(SECP384R1_GY@), be_val(SECP384R1_N@)),
        r is Ok ==> {
            let c = r.unwrap();
            &&& c.wf()
            &&& c.pv() == be_val(SECP384R1_P@)
            &&& c.av() == be_val(SECP384R1_A@)
            &&& c.bv() == be_val(SECP384R1_B@)
            &&& c.gv() == (be_val(SECP384R1_GX@), be_val(SECP384R1_GY@))
            &&& c.nv() == be_val(SECP384R1_N@)
            &&& c.hv() == 1
        },
{
    let modulus = u_from_be_slice(SECP384R1_P.as_slice());
    let param_a = u_from_be_slice(SECP384R1_A.as_slice());
    let param_b = u_from_be_slice(SECP384R1_B.as_slice());
    let gx = u_from_be_slice(SECP384R1_GX.as_slice());
    let gy = u_from_be_slice(SECP384R1_GY.as_slice());
    let order = u_from_be_slice(SECP384R1_N.as_slice());
    let params = Curve { modulus, param_a, param_b, generator: (gx, gy), order };
    params.build()
}

pub const SECP521R1_P: [u8; 66] = [
    0x01, 0xff, 0xff, 0xff, 0xff, 0xff, 0xff, 0xff, 0xff, 0xff, 0xff, 0xff,
    0xff, 0xff, 0xff, 0xff, 0xff, 0xff, 0xff, 0xff, 0xff, 0xff, 0xff, 0xff,
    0xff, 0xff, 0xff, 0xff, 0xff, 0xff, 0xff, 0xff, 0xff, 0xff, 0xff, 0xff,
    0xff, 0xff, 0xff, 0xff, 0xff, 0xff, 0xff, 0xff, 0xff, 0xff, 0xff, 0xff,
    0xff, 0xff, 0xff, 0xff, 0xff, 0xff, 0xff, 0xff, 0xff, 0xff, 0xff, 0xff,
    0xff, 0xff, 0xff, 0xff, 0xff, 0xff,
];

pub const SECP521R1_A: [u8; 66] = [
    0x01, 0xff, 0xff, 0xff, 0xff, 0xff, 0xff, 0xff, 0xff, 0xff, 0xff, 0xff,
    0xff, 0xff, 0xff, 0xff, 0xff, 0xff, 0xff, 0xff, 0xff, 0xff, 0xff, 0xff,
    0xff, 0xff, 0xff, 0xff, 0xff, 0xff, 0xff, 0xff, 0xff, 0xff, 0xff, 0xff,
    0xff, 0xff, 0xff, 0xff, 0xff, 0xff, 0xff, 0xff, 0xff, 0xff, 0xff, 0xff,
    0xff, 0xff, 0xff, 0xff, 0xff, 0xff, 0xff, 0xff, 0xff, 0xff, 0xff, 0xff,
    0xff, 0xff, 0xff, 0xff, 0xff, 0xfc,
];

pub const SECP521R1_B: [u8; 66] = [
    0x00, 0x51, 0x95, 0x3e, 0xb9, 0x61, 0x8e, 0x1c, 0x9a, 0x1f, 0x92, 0x9a,
    0x21, 0xa0, 0xb6, 0x85, 0x40, 0xee, 0xa2, 0xda, 0x72, 0x5b, 0x99, 0xb3,
    0x15, 0xf3, 0xb8, 0xb4, 0x89, 0x91, 0x8e, 0xf1, 0x09, 0xe1, 0x56, 0x19,
    0x39, 0x51, 0xec, 0x7e, 0x93, 0x7b, 0x16, 0x52, 0xc0, 0xbd, 0x3b, 0xb1,
    0xbf, 0x07, 0x35, 0x73, 0xdf, 0x88, 0x3d, 0x2c, 0x34, 0xf1, 0xef, 0x45,
    0x1f, 0xd4, 0x6b, 0x50, 0x3f, 0x00,
];

pub const SECP521R1_GX: [u8; 66] = [
    0x00, 0xc6, 0x85, 0x8e, 0x06, 0xb7, 0x04, 0x04, 0xe9, 0xcd, 0x9e, 0x3e,
    0xcb, 0x66, 0x23, 0x95, 0xb4, 0x42, 0x9c, 0x64, 0x81, 0x39, 0x05, 0x3f,
    0xb5, 0x21, 0xf8, 0x28, 0xaf, 0x60, 0x6b, 0x4d, 0x3d, 0xba, 0xa1, 0x4b,
    0x5e, 0x77, 0xef, 0xe7, 0x59, 0x28, 0xfe, 0x1d, 0xc1, 0x27, 0xa2, 0xff,
    0xa8, 0xde, 0x33, 0x48, 0xb3, 0xc1, 0x85, 0x6a, 0x42, 0x9b, 0xf9, 0x7e,
    0x7e, 0x31, 0xc2, 0xe5, 0xbd, 0x66,
];

pub const SECP521R1_GY: [u8; 66] = [
    0x01, 0x18, 0x39, 0x29, 0x6a, 0x78, 0x9a, 0x3b, 0xc0, 0x04, 0x5c, 0x8a,
    0x5f, 0xb4, 0x2c, 0x7d, 0x1b, 0xd9, 0x98, 0xf5, 0x44, 0x49, 0x57, 0x9b,
    0x44, 0x68, 0x17, 0xaf, 0xbd, 0x17, 0x27, 0x3e, 0x66, 0x2c, 0x97, 0xee,
    0x72, 0x99, 0x5e, 0xf4, 0x26, 0x40, 0xc5, 0x50, 0xb9, 0x01, 0x3f, 0xad,
    0x07, 0x61, 0x35, 0x3c, 0x70, 0x86, 0xa2, 0x72, 0xc2, 0x40, 0x88, 0xbe,
    0x94, 0x76, 0x9f, 0xd1, 0x66, 0x50,
];

pub const SECP521R1_N: [u8; 66] = [
    0x01, 0xff, 0xff, 0xff, 0xff, 0xff, 0xff, 0xff, 0xff, 0xff, 0xff, 0xff,
    0xff, 0xff, 0xff, 0xff, 0xff, 0xff, 0xff, 0xff, 0xff, 0xff, 0xff, 0xff,
    0xff, 0xff, 0xff, 0xff, 0xff, 0xff, 0xff, 0xff, 0xff, 0xfa, 0x51, 0x86,
    0x87, 0x83, 0xbf, 0x2f, 0x96, 0x6b, 0x7f, 0xcc, 0x01, 0x48, 0xf7, 0x09,
    0xa5, 0xd0, 0x3b, 0xb5, 0xc9, 0xb8, 0x89, 0x9c, 0x47, 0xae, 0xbb, 0x6f,
    0xb7, 0x1e, 0x91, 0x38, 0x64, 0x09,
];

/// NIST P-521.
pub fn secp521r1() -> (r: Result<EllipticCurve, Error>)
    ensures
        r is Ok <==> valid_curve_params(be_val(SECP521R1_P@), be_val(SECP521R1_A@), be_val(SECP521R1_B@), be_val(
            SECP521R1_GX@), be_val(SECP521R1_GY@), be_val(SECP521R1_N@)),
        r is Ok ==> {
            let c = r.unwrap();
            &&& c.wf()
            &&& c.pv() == be_val(SECP521R1_P@)
            &&& c.av() == be_val(SECP521R1_A@)
            &&& c.bv() == be_val(SECP521R1_B@)
            &&& c.gv() == (be_val(SECP521R1_GX@), be_val(SECP521R1_GY@))
            &&& c.nv() == be_val(SECP521R1_N@)
            &&& c.hv() == 1
        },
{
    let modulus = u_from_be_slice(SECP521R1_P.as_slice());
    let param_a = u_from_be_slice(SECP521R1_A.as_slice());
    let param_b = u_from_be_slice(SECP521R1_B.as_slice());
    let gx = u_from_be_slice(SECP521R1_GX.as_slice());
    let gy = u_from_be_slice(SECP521R1_GY.as_slice());
    let order = u_from_be_slice(SECP521R1_N.as_slice());
    let params = Curve { modulus, param_a, param_b, generator: (gx, gy), order };
    params.build()
}

pub const BRAINPOOL_P160R1_P: [u8; 20] = [
    0xe9, 0x5e, 0x4a, 0x5f, 0x73, 0x70, 0x59, 0xdc, 0x60, 0xdf, 0xc7, 0xad,
    0x95, 0xb3, 0xd8, 0x13, 0x95, 0x15, 0x62, 0x0f,
];

pub const BRAINPOOL_P160R1_A: [u8; 20] = [
    0x34, 0x0e, 0x7b, 0xe2, 0xa2, 0x80, 0xeb, 0x74, 0xe2, 0xbe, 0x61, 0xba,
    0xda, 0x74, 0x5d, 0x97, 0xe8, 0xf7, 0xc3, 0x00,
];

pub const BRAINPOOL_P160R1_B: [u8; 20] = [
    0x1e, 0x58, 0x9a, 0x85, 0x95, 0x42, 0x34, 0x12, 0x13, 0x4f, 0xaa, 0x2d,
    0xbd, 0xec, 0x95, 0xc8, 0xd8, 0x67, 0x5e, 0x58,
];

pub const BRAINPOOL_P160R1_GX: [u8; 20] = [
    0xbe, 0xd5, 0xaf, 0x16, 0xea, 0x3f, 0x6a, 0x4f, 0x62, 0x93, 0x8c, 0x46,
    0x31, 0xeb, 0x5a, 0xf7, 0xbd, 0xbc, 0xdb, 0xc3,
];

pub const BRAINPOOL_P160R1_GY: [u8; 20] = [
    0x16, 0x67, 0xcb, 0x47, 0x7a, 0x1a, 0x8e, 0xc3, 0x38, 0xf9, 0x47, 0x41,
    0x66, 0x9c, 0x97, 0x63, 0x16, 0xda, 0x63, 0x21,
];

pub const BRAINPOOL_P160R1_N: [u8; 20] = [
    0xe9, 0x5e, 0x4a, 0x5f, 0x73, 0x70, 0x59, 0xdc, 0x60, 0xdf, 0x59, 0x91,
    0xd4, 0x50, 0x29, 0x40, 0x9e, 0x60, 0xfc, 0x09,
];

/// Brainpool P-160r1 (RFC 5639).
pub fn brainpool_p160r1() -> (r: Result<EllipticCurve, Error>)
    ensures
        r is Ok <==> valid_curve_params(be_val(BRAINPOOL_P160R1_P@), be_val(BRAINPOOL_P160R1_A@), be_val(BRAINPOOL_P160R1_B@), be_val(
            BRAINPOOL_P160R1_GX@), be_val(BRAINPOOL_P160R1_GY@), be_val(BRAINPOOL_P160R1_N@)),
        r is Ok ==> {
            let c = r.unwrap();
            &&& c.wf()
            &&& c.pv() == be_val(BRAINPOOL_P160R1_P@)
            &&& c.av() == be_val(BRAINPOOL_P160R1_A@)
            &&& c.bv() == be_val(BRAINPOOL_P160R1_B@)
            &&& c.gv() == (be_val(BRAINPOOL_P160R1_GX@), be_val(BRAINPOOL_P160R1_GY@))
            &&& c.nv() == be_val(BRAINPOOL_P160R1_N@)
            &&& c.hv() == 1
        },
{
    let modulus = u_from_be_slice(BRAINPOOL_P160R1_P.as_slice());
    let param_a = u_from_be_slice(BRAINPOOL_P160R1_A.as_slice());
    let param_b = u_from_be_slice(BRAINPOOL_P160R1_B.as_slice());
    let gx = u_from_be_slice(BRAINPOOL_P160R1_GX.as_slice());
    let gy = u_from_be_slice(BRAINPOOL_P160R1_GY.as_slice());
    let order = u_from_be_slice(BRAINPOOL_P160R1_N.as_slice());
    let params = Curve { modulus, param_a, param_b, generator: (gx, gy), order };
    params.build()
}

pub const BRAINPOOL_P256R1_P: [u8; 32] = [
    0xa9, 0xfb, 0x57, 0xdb, 0xa1, 0xee, 0xa9, 0xbc, 0x3e, 0x66, 0x0a, 0x90,
    0x9d, 0x83, 0x8d, 0x72, 0x6e, 0x3b, 0xf6, 0x23, 0xd5, 0x26, 0x20, 0x28,
    0x20, 0x13, 0x48, 0x1d, 0x1f, 0x6e, 0x53, 0x77,
];

pub const BRAINPOOL_P256R1_A: [u8; 32] = [
    0x7d, 0x5a, 0x09, 0x75, 0xfc, 0x2c, 0x30, 0x57, 0xee, 0xf6, 0x75, 0x30,
    0x41, 0x7a, 0xff, 0xe7, 0xfb, 0x80, 0x55, 0xc1, 0x26, 0xdc, 0x5c, 0x6c,
    0xe9, 0x4a, 0x4b, 0x44, 0xf3, 0x30, 0xb5, 0xd9,
];

pub const BRAINPOOL_P256R1_B: [u8; 32] = [
    0x26, 0xdc, 0x5c, 0x6c, 0xe9, 0x4a, 0x4b, 0x44, 0xf3, 0x30, 0xb5, 0xd9,
    0xbb, 0xd7, 0x7c, 0xbf, 0x95, 0x84, 0x16, 0x29, 0x5c, 0xf7, 0xe1, 0xce,
    0x6b, 0xcc, 0xdc, 0x18, 0xff, 0x8c, 0x07, 0xb6,
];

pub const BRAINPOOL_P256R1_GX: [u8; 32] = [
    0x8b, 0xd2, 0xae, 0xb9, 0xcb, 0x7e, 0x57, 0xcb, 0x2c, 0x4b, 0x48, 0x2f,
    0xfc, 0x81, 0xb7, 0xaf, 0xb9, 0xde, 0x27, 0xe1, 0xe3, 0xbd, 0x23, 0xc2,
    0x3a, 0x44, 0x53, 0xbd, 0x9a, 0xce, 0x32, 0x62,
];

pub const BRAINPOOL_P256R1_GY: [u8; 32] = [
    0x54, 0x7e, 0xf8, 0x35, 0xc3, 0xda, 0xc4, 0xfd, 0x97, 0xf8, 0x46, 0x1a,
    0x14, 0x61, 0x1d, 0xc9, 0xc2, 0x77, 0x45, 0x13, 0x2d, 0xed, 0x8e, 0x54,
    0x5c, 0x1d, 0x54, 0xc7, 0x2f, 0x04, 0x69, 0x97,
];

pub const BRAINPOOL_P256R1_N: [u8; 32] = [
    0xa9, 0xfb, 0x57, 0xdb, 0xa1, 0xee, 0xa9, 0xbc, 0x3e, 0x66, 0x0a, 0x90,
    0x9d, 0x83, 0x8d, 0x71, 0x8c, 0x39, 0x7a, 0xa3, 0xb5, 0x61, 0xa6, 0xf7,
    0x90, 0x1e, 0x0e, 0x82, 0x97, 0x48, 0x56, 0xa7,
];

/// Brainpool P-256r1 (RFC 5639).
pub fn brainpool_p256r1() -> (r: Result<EllipticCurve, Error>)
    ensures
        r is Ok <==> valid_curve_params(be_val(BRAINPOOL_P256R1_P@), be_val(BRAINPOOL_P256R1_A@), be_val(BRAINPOOL_P256R1_B@), be_val(
            BRAINPOOL_P256R1_GX@), be_val(BRAINPOOL_P256R1_GY@), be_val(BRAINPOOL_P256R1_N@)),
        r is Ok ==> {
            let c = r.unwrap();
            &&& c.wf()
            &&& c.pv() == be_val(BRAINPOOL_P256R1_P@)
            &&& c.av() == be_val(BRAINPOOL_P256R1_A@)
            &&& c.bv() == be_val(BRAINPOOL_P256R1_B@)
            &&& c.gv() == (be_val(BRAINPOOL_P256R1_GX@), be_val(BRAINPOOL_P256R1_GY@))
            &&& c.nv() == be_val(BRAINPOOL_P256R1_N@)
            &&& c.hv() == 1
        },
{
    let modulus = u_from_be_slice(BRAINPOOL_P256R1_P.as_slice());
    let param_a = u_from_be_slice(BRAINPOOL_P256R1_A.as_slice());
    let param_b = u_from_be_slice(BRAINPOOL_P256R1_B.as_slice());
    let gx = u_from_be_slice(BRAINPOOL_P256R1_GX.as_slice());
    let gy = u_from_be_slice(BRAINPOOL_P256R1_GY.as_slice());
    let order = u_from_be_slice(BRAINPOOL_P256R1_N.as_slice());
    let params = Curve { modulus, param_a, param_b, generator: (gx, gy), order };
    params.build()
}

pub const BRAINPOOL_P192R1_P: [u8; 24] = [
    0xc3, 0x02, 0xf4, 0x1d, 0x93, 0x2a, 0x36, 0xcd, 0xa7, 0xa3, 0x46, 0x30,
    0x93, 0xd1, 0x8d, 0xb7, 0x8f, 0xce, 0x47, 0x6d, 0xe1, 0xa8, 0x62, 0x97,
];

pub const BRAINPOOL_P192R1_A: [u8; 24] = [
    0x6a, 0x91, 0x17, 0x40, 0x76, 0xb1, 0xe0, 0xe1, 0x9c, 0x39, 0xc0, 0x31,
    0xfe, 0x86, 0x85, 0xc1, 0xca, 0xe0, 0x40, 0xe5, 0xc6, 0x9a, 0x28, 0xef,
];

pub const BRAINPOOL_P192R1_B: [u8; 24] = [
    0x46, 0x9a, 0x28, 0xef, 0x7c, 0x28, 0xcc, 0xa3, 0xdc, 0x72, 0x1d, 0x04,
    0x4f, 0x44, 0x96, 0xbc, 0xca, 0x7e, 0xf4, 0x14, 0x6f, 0xbf, 0x25, 0xc9,
];

pub const BRAINPOOL_P192R1_GX: [u8; 24] = [
    0xc0, 0xa0, 0x64, 0x7e, 0xaa, 0xb6, 0xa4, 0x87, 0x53, 0xb0, 0x33, 0xc5,
    0x6c, 0xb0, 0xf0, 0x90, 0x0a, 0x2f, 0x5c, 0x48, 0x53, 0x37, 0x5f, 0xd6,
];

pub const BRAINPOOL_P192R1_GY: [u8; 24] = [
    0x14, 0xb6, 0x90, 0x86, 0x6a, 0xbd, 0x5b, 0xb8, 0x8b, 0x5f, 0x48, 0x28,
    0xc1, 0x49, 0x00, 0x02, 0xe6, 0x77, 0x3f, 0xa2, 0xfa, 0x29, 0x9b, 0x8f,
];

pub const BRAINPOOL_P192R1_N: [u8; 24] = [
    0xc3, 0x02, 0xf4, 0x1d, 0x93, 0x2a, 0x36, 0xcd, 0xa7, 0xa3, 0x46, 0x2f,
    0x9e, 0x9e, 0x91, 0x6b, 0x5b, 0xe8, 0xf1, 0x02, 0x9a, 0xc4, 0xac, 0xc1,
];

/// Brainpool P-192r1 (RFC 5639).
pub fn brainpool_p192r1() -> (r: Result<EllipticCurve, Error>)
    ensures
        r is Ok <==> valid_curve_params(be_val(BRAINPOOL_P192R1_P@), be_val(BRAINPOOL_P192R1_A@), be_val(BRAINPOOL_P192R1_B@), be_val(
            BRAINPOOL_P192R1_GX@), be_val(BRAINPOOL_P192R1_GY@), be_val(BRAINPOOL_P192R1_N@)),
        r is Ok ==> {
            let c = r.unwrap();
            &&& c.wf()
            &&& c.pv() == be_val(BRAINPOOL_P192R1_P@)
            &&& c.av() == be_val(BRAINPOOL_P192R1_A@)
            &&& c.bv() == be_val(BRAINPOOL_P192R1_B@)
            &&& c.gv() == (be_val(BRAINPOOL_P192R1_GX@), be_val(BRAINPOOL_P192R1_GY@))
            &&& c.nv() == be_val(BRAINPOOL_P192R1_N@)
            &&& c.hv() == 1
        },
{
    let modulus = u_from_be_slice(BRAINPOOL_P192R1_P.as_slice());
    let param_a = u_from_be_slice(BRAINPOOL_P192R1_A.as_slice());
    let param_b = u_from_be_slice(BRAINPOOL_P192R1_B.as_slice());
    let gx = u_from_be_slice(BRAINPOOL_P192R1_GX.as_slice());
    let gy = u_from_be_slice(BRAINPOOL_P192R1_GY.as_slice());
    let order = u_from_be_slice(BRAINPOOL_P192R1_N.as_slice());
    let params = Curve { modulus, param_a, param_b, generator: (gx, gy), order };
    params.build()
}

pub const BRAINPOOL_P224R1_P: [u8; 28] = [
    0xd7, 0xc1, 0x34, 0xaa, 0x26, 0x43, 0x66, 0x86, 0x2a, 0x18, 0x30, 0x25,
    0x75, 0xd1, 0xd7, 0x87, 0xb0, 0x9f, 0x07, 0x57, 0x97, 0xda, 0x89, 0xf5,
    0x7e, 0xc8, 0xc0, 0xff,
];

pub const BRAINPOOL_P224R1_A: [u8; 28] = [
    0x68, 0xa5, 0xe6, 0x2c, 0xa9, 0xce, 0x6c, 0x1c, 0x29, 0x98, 0x03, 0xa6,
    0xc1, 0x53, 0x0b, 0x51, 0x4e, 0x18, 0x2a, 0xd8, 0xb0, 0x04, 0x2a, 0x59,
    0xca, 0xd2, 0x9f, 0x43,
];

pub const BRAINPOOL_P224R1_B: [u8; 28] = [
    0x25, 0x80, 0xf6, 0x3c, 0xcf, 0xe4, 0x41, 0x38, 0x87, 0x07, 0x13, 0xb1,
    0xa9, 0x23, 0x69, 0xe3, 0x3e, 0x21, 0x35, 0xd2, 0x66, 0xdb, 0xb3, 0x72,
    0x38, 0x6c, 0x40, 0x0b,
];

pub const BRAINPOOL_P224R1_GX: [u8; 28] = [
    0x0d, 0x90, 0x29, 0xad, 0x2c, 0x7e, 0x5c, 0xf4, 0x34, 0x08, 0x23, 0xb2,
    0xa8, 0x7d, 0xc6, 0x8c, 0x9e, 0x4c, 0xe3, 0x17, 0x4c, 0x1e, 0x6e, 0xfd,
    0xee, 0x12, 0xc0, 0x7d,
];

pub const BRAINPOOL_P224R1_GY: [u8; 28] = [
    0x58, 0xaa, 0x56, 0xf7, 0x72, 0xc0, 0x72, 0x6f, 0x24, 0xc6, 0xb8, 0x9e,
    0x4e, 0xcd, 0xac, 0x24, 0x35, 0x4b, 0x9e, 0x99, 0xca, 0xa3, 0xf6, 0xd3,
    0x76, 0x14, 0x02, 0xcd,
];

pub const BRAINPOOL_P224R1_N: [u8; 28] = [
    0xd7, 0xc1, 0x34, 0xaa, 0x26, 0x43, 0x66, 0x86, 0x2a, 0x18, 0x30, 0x25,
    0x75, 0xd0, 0xfb, 0x98, 0xd1, 0x16, 0xbc, 0x4b, 0x6d, 0xde, 0xbc, 0xa3,
    0xa5, 0xa7, 0x93, 0x9f,
];

/// Brainpool P-224r1 (RFC 5639).
pub fn brainpool_p224r1() -> (r: Result<EllipticCurve, Error>)
    ensures
        r is Ok <==> valid_curve_params(be_val(BRAINPOOL_P224R1_P@), be_val(BRAINPOOL_P224R1_A@), be_val(BRAINPOOL_P224R1_B@), be_val(
            BRAINPOOL_P224R1_GX@), be_val(BRAINPOOL_P224R1_GY@), be_val(BRAINPOOL_P224R1_N@)),
        r is Ok ==> {
            let c = r.unwrap();
            &&& c.wf()
            &&& c.pv() == be_val(BRAINPOOL_P224R1_P@)
            &&& c.av() == be_val(BRAINPOOL_P224R1_A@)
            &&& c.bv() == be_val(BRAINPOOL_P224R1_B@)
            &&& c.gv() == (be_val(BRAINPOOL_P224R1_GX@), be_val(BRAINPOOL_P224R1_GY@))
            &&& c.nv() == be_val(BRAINPOOL_P224R1_N@)
            &&& c.hv() == 1
        },
{
    let modulus = u_from_be_slice(BRAINPOOL_P224R1_P.as_slice());
    let param_a = u_from_be_slice(BRAINPOOL_P224R1_A.as_slice());
    let param_b = u_from_be_slice(BRAINPOOL_P224R1_B.as_slice());
    let gx = u_from_be_slice(BRAINPOOL_P224R1_GX.as_slice());
    let gy = u_from_be_slice(BRAINPOOL_P224R1_GY.as_slice());
    let order = u_from_be_slice(BRAINPOOL_P224R1_N.as_slice());
    let params = Curve { modulus, param_a, param_b, generator: (gx, gy), order };
    params.build()
}

pub const BRAINPOOL_P320R1_P: [u8; 40] = [
    0xd3, 0x5e, 0x47, 0x20, 0x36, 0xbc, 0x4f, 0xb7, 0xe1, 0x3c, 0x78, 0x5e,
    0xd2, 0x01, 0xe0, 0x65, 0xf9, 0x8f, 0xcf, 0xa6, 0xf6, 0xf4, 0x0d, 0xef,
    0x4f, 0x92, 0xb9, 0xec, 0x78, 0x93, 0xec, 0x28, 0xfc, 0xd4, 0x12, 0xb1,
    0xf1, 0xb3, 0x2e, 0x27,
];

pub const BRAINPOOL_P320R1_A: [u8; 40] = [
    0x3e, 0xe3, 0x0b, 0x56, 0x8f, 0xba, 0xb0, 0xf8, 0x83, 0xcc, 0xeb, 0xd4,
    0x6d, 0x3f, 0x3b, 0xb8, 0xa2, 0xa7, 0x35, 0x13, 0xf5, 0xeb, 0x79, 0xda,
    0x66, 0x19, 0x0e, 0xb0, 0x85, 0xff, 0xa9, 0xf4, 0x92, 0xf3, 0x75, 0xa9,
    0x7d, 0x86, 0x0e, 0xb4,
];

pub const BRAINPOOL_P320R1_B: [u8; 40] = [
    0x52, 0x08, 0x83, 0x94, 0x9d, 0xfd, 0xbc, 0x42, 0xd3, 0xad, 0x19, 0x86,
    0x40, 0x68, 0x8a, 0x6f, 0xe1, 0x3f, 0x41, 0x34, 0x95, 0x54, 0xb4, 0x9a,
    0xcc, 0x31, 0xdc, 0xcd, 0x88, 0x45, 0x39, 0x81, 0x6f, 0x5e, 0xb4, 0xac,
    0x8f, 0xb1, 0xf1, 0xa6,
];

pub const BRAINPOOL_P320R1_GX: [u8; 40] = [
    0x43, 0xbd, 0x7e, 0x9a, 0xfb, 0x53, 0xd8, 0xb8, 0x52, 0x89, 0xbc, 0xc4,
    0x8e, 0xe5, 0xbf, 0xe6, 0xf2, 0x01, 0x37, 0xd1, 0x0a, 0x08, 0x7e, 0xb6,
    0xe7, 0x87, 0x1e, 0x2a, 0x10, 0xa5, 0x99, 0xc7, 0x10, 0xaf, 0x8d, 0x0d,
    0x39, 0xe2, 0x06, 0x11,
];

pub const BRAINPOOL_P320R1_GY: [u8; 40] = [
    0x14, 0xfd, 0xd0, 0x55, 0x45, 0xec, 0x1c, 0xc8, 0xab, 0x40, 0x93, 0x24,
    0x7f, 0x77, 0x27, 0x5e, 0x07, 0x43, 0xff, 0xed, 0x11, 0x71, 0x82, 0xea,
    0xa9, 0xc7, 0x78, 0x77, 0xaa, 0xac, 0x6a, 0xc7, 0xd3, 0x52, 0x45, 0xd1,
    0x69, 0x2e, 0x8e, 0xe1,
];

pub const BRAINPOOL_P320R1_N: [u8; 40] = [
    0xd3, 0x5e, 0x47, 0x20, 0x36, 0xbc, 0x4f, 0xb7, 0xe1, 0x3c, 0x78, 0x5e,
    0xd2, 0x01, 0xe0, 0x65, 0xf9, 0x8f, 0xcf, 0xa5, 0xb6, 0x8f, 0x12, 0xa3,
    0x2d, 0x48, 0x2e, 0xc7, 0xee, 0x86, 0x58, 0xe9, 0x86, 0x91, 0x55, 0x5b,
    0x44, 0xc5, 0x93, 0x11,
];

/// Brainpool P-320r1 (RFC 5639).
pub fn brainpool_p320r1() -> (r: Result<EllipticCurve, Error>)
    ensures
        r is Ok <==> valid_curve_params(be_val(BRAINPOOL_P320R1_P@), be_val(BRAINPOOL_P320R1_A@), be_val(BRAINPOOL_P320R1_B@), be_val(
            BRAINPOOL_P320R1_GX@), be_val(BRAINPOOL_P320R1_GY@), be_val(BRAINPOOL_P320R1_N@)),
        r is Ok ==> {
            let c = r.unwrap();
            &&& c.wf()
            &&& c.pv() == be_val(BRAINPOOL_P320R1_P@)
            &&& c.av() == be_val(BRAINPOOL_P320R1_A@)
            &&& c.bv() == be_val(BRAINPOOL_P320R1_B@)
            &&& c.gv() == (be_val(BRAINPOOL_P320R1_GX@), be_val(BRAINPOOL_P320R1_GY@))
            &&& c.nv() == be_val(BRAINPOOL_P320R1_N@)
            &&& c.hv() == 1
        },
{
    let modulus = u_from_be_slice(BRAINPOOL_P320R1_P.as_slice());
    let param_a = u_from_be_slice(BRAINPOOL_P320R1_A.as_slice());
    let param_b = u_from_be_slice(BRAINPOOL_P320R1_B.as_slice());
    let gx = u_from_be_slice(BRAINPOOL_P320R1_GX.as_slice());
    let gy = u_from_be_slice(BRAINPOOL_P320R1_GY.as_slice());
    let order = u_from_be_slice(BRAINPOOL_P320R1_N.as_slice());
    let params = Curve { modulus, param_a, param_b, generator: (gx, gy), order };
    params.build()
}

pub const BRAINPOOL_P384R1_P: [u8; 48] = [
    0x8c, 0xb9, 0x1e, 0x82, 0xa3, 0x38, 0x6d, 0x28, 0x0f, 0x5d, 0x6f, 0x7e,
    0x50, 0xe6, 0x41, 0xdf, 0x15, 0x2f, 0x71, 0x09, 0xed, 0x54, 0x56, 0xb4,
    0x12, 0xb1, 0xda, 0x19, 0x7f, 0xb7, 0x11, 0x23, 0xac, 0xd3, 0xa7, 0x29,
    0x90, 0x1d, 0x1a, 0x71, 0x87, 0x47, 0x00, 0x13, 0x31, 0x07, 0xec, 0x53,
];

pub const BRAINPOOL_P384R1_A: [u8; 48] = [
    0x7b, 0xc3, 0x82, 0xc6, 0x3d, 0x8c, 0x15, 0x0c, 0x3c, 0x72, 0x08, 0x0a,
    0xce, 0x05, 0xaf, 0xa0, 0xc2, 0xbe, 0xa2, 0x8e, 0x4f, 0xb2, 0x27, 0x87,
    0x13, 0x91, 0x65, 0xef, 0xba, 0x91, 0xf9, 0x0f, 0x8a, 0xa5, 0x81, 0x4a,
    0x50, 0x3a, 0xd4, 0xeb, 0x04, 0xa8, 0xc7, 0xdd, 0x22, 0xce, 0x28, 0x26,
];

pub const BRAINPOOL_P384R1_B: [u8; 48] = [
    0x04, 0xa8, 0xc7, 0xdd, 0x22, 0xce, 0x28, 0x26, 0x8b, 0x39, 0xb5, 0x54,
    0x16, 0xf0, 0x44, 0x7c, 0x2f, 0xb7, 0x7d, 0xe1, 0x07, 0xdc, 0xd2, 0xa6,
    0x2e, 0x88, 0x0e, 0xa5, 0x3e, 0xeb, 0x62, 0xd5, 0x7c, 0xb4, 0x39, 0x02,
    0x95, 0xdb, 0xc9, 0x94, 0x3a, 0xb7, 0x86, 0x96, 0xfa, 0x50, 0x4c, 0x11,
];

pub const BRAINPOOL_P384R1_GX: [u8; 48] = [
    0x1d, 0x1c, 0x64, 0xf0, 0x68, 0xcf, 0x45, 0xff, 0xa2, 0xa6, 0x3a, 0x81,
    0xb7, 0xc1, 0x3f, 0x6b, 0x88, 0x47, 0xa3, 0xe7, 0x7e, 0xf1, 0x4f, 0xe3,
    0xdb, 0x7f, 0xca, 0xfe, 0x0c, 0xbd, 0x10, 0xe8, 0xe8, 0x26, 0xe0, 0x34,
    0x36, 0xd6, 0x46, 0xaa, 0xef, 0x87, 0xb2, 0xe2, 0x47, 0xd4, 0xaf, 0x1e,
];

pub const BRAINPOOL_P384R1_GY: [u8; 48] = [
    0x8a, 0xbe, 0x1d, 0x75, 0x20, 0xf9, 0xc2, 0xa4, 0x5c, 0xb1, 0xeb, 0x8e,
    0x95, 0xcf, 0xd5, 0x52, 0x62, 0xb7, 0x0b, 0x29, 0xfe, 0xec, 0x58, 0x64,
    0xe1, 0x9c, 0x05, 0x4f, 0xf9, 0x91, 0x29, 0x28, 0x0e, 0x46, 0x46, 0x21,
    0x77, 0x91, 0x81, 0x11, 0x42, 0x82, 0x03, 0x41, 0x26, 0x3c, 0x53, 0x15,
];

pub const BRAINPOOL_P384R1_N: [u8; 48] = [
    0x8c, 0xb9, 0x1e, 0x82, 0xa3, 0x38, 0x6d, 0x28, 0x0f, 0x5d, 0x6f, 0x7e,
    0x50, 0xe6, 0x41, 0xdf, 0x15, 0x2f, 0x71, 0x09, 0xed, 0x54, 0x56, 0xb3,
    0x1f, 0x16, 0x6e, 0x6c, 0xac, 0x04, 0x25, 0xa7, 0xcf, 0x3a, 0xb6, 0xaf,
    0x6b, 0x7f, 0xc3, 0x10, 0x3b, 0x88, 0x32, 0x02, 0xe9, 0x04, 0x65, 0x65,
];

/// Brainpool P-384r1 (RFC 5639).
pub fn brainpool_p384r1() -> (r: Result<EllipticCurve, Error>)
    ensures
        r is Ok <==> valid_curve_params(be_val(BRAINPOOL_P384R1_P@), be_val(BRAINPOOL_P384R1_A@), be_val(BRAINPOOL_P384R1_B@), be_val(
            BRAINPOOL_P384R1_GX@), be_val(BRAINPOOL_P384R1_GY@), be_val(BRAINPOOL_P384R1_N@)),
        r is Ok ==> {
            let c = r.unwrap();
            &&& c.wf()
            &&& c.pv() == be_val(BRAINPOOL_P384R1_P@)
            &&& c.av() == be_val(BRAINPOOL_P384R1_A@)
            &&& c.bv() == be_val(BRAINPOOL_P384R1_B@)
            &&& c.gv() == (be_val(BRAINPOOL_P384R1_GX@), be_val(BRAINPOOL_P384R1_GY@))
            &&& c.nv() == be_val(BRAINPOOL_P384R1_N@)
            &&& c.hv() == 1
        },
{
    let modulus = u_from_be_slice(BRAINPOOL_P384R1_P.as_slice());
    let param_a = u_from_be_slice(BRAINPOOL_P384R1_A.as_slice());
    let param_b = u_from_be_slice(BRAINPOOL_P384R1_B.as_slice());
    let gx = u_from_be_slice(BRAINPOOL_P384R1_GX.as_slice());
    let gy = u_from_be_slice(BRAINPOOL_P384R1_GY.as_slice());
    let order = u_from_be_slice(BRAINPOOL_P384R1_N.as_slice());
    let params = Curve { modulus, param_a, param_b, generator: (gx, gy), order };
    params.build()
}

pub const BRAINPOOL_P512R1_P: [u8; 64] = [
    0xaa, 0xdd, 0x9d, 0xb8, 0xdb, 0xe9, 0xc4, 0x8b, 0x3f, 0xd4, 0xe6, 0xae,
    0x33, 0xc9, 0xfc, 0x07, 0xcb, 0x30, 0x8d, 0xb3, 0xb3, 0xc9, 0xd2, 0x0e,
    0xd6, 0x63, 0x9c, 0xca, 0x70, 0x33, 0x08, 0x71, 0x7d, 0x4d, 0x9b, 0x00,
    0x9b, 0xc6, 0x68, 0x42, 0xae, 0xcd, 0xa1, 0x2a, 0xe6, 0xa3, 0x80, 0xe6,
    0x28, 0x81, 0xff, 0x2f, 0x2d, 0x82, 0xc6, 0x85, 0x28, 0xaa, 0x60, 0x56,
    0x58, 0x3a, 0x48, 0xf3,
];

pub const BRAINPOOL_P512R1_A: [u8; 64] = [
    0x78, 0x30, 0xa3, 0x31, 0x8b, 0x60, 0x3b, 0x89, 0xe2, 0x32, 0x71, 0x45,
    0xac, 0x23, 0x4c, 0xc5, 0x94, 0xcb, 0xdd, 0x8d, 0x3d, 0xf9, 0x16, 0x10,
    0xa8, 0x34, 0x41, 0xca, 0xea, 0x98, 0x63, 0xbc, 0x2d, 0xed, 0x5d, 0x5a,
    0xa8, 0x25, 0x3a, 0xa1, 0x0a, 0x2e, 0xf1, 0xc9, 0x8b, 0x9a, 0xc8, 0xb5,
    0x7f, 0x11, 0x17, 0xa7, 0x2b, 0xf2, 0xc7, 0xb9, 0xe7, 0xc1, 0xac, 0x4d,
    0x77, 0xfc, 0x94, 0xca,
];

pub const BRAINPOOL_P512R1_B: [u8; 64] = [
    0x3d, 0xf9, 0x16, 0x10, 0xa8, 0x34, 0x41, 0xca, 0xea, 0x98, 0x63, 0xbc,
    0x2d, 0xed, 0x5d, 0x5a, 0xa8, 0x25, 0x3a, 0xa1, 0x0a, 0x2e, 0xf1, 0xc9,
    0x8b, 0x9a, 0xc8, 0xb5, 0x7f, 0x11, 0x17, 0xa7, 0x2b, 0xf2, 0xc7, 0xb9,
    0xe7, 0xc1, 0xac, 0x4d, 0x77, 0xfc, 0x94, 0xca, 0xdc, 0x08, 0x3e, 0x67,
    0x98, 0x40, 0x50, 0xb7, 0x5e, 0xba, 0xe5, 0xdd, 0x28, 0x09, 0xbd, 0x63,
    0x80, 0x16, 0xf7, 0x23,
];

pub const BRAINPOOL_P512R1_GX: [u8; 64] = [
    0x81, 0xae, 0xe4, 0xbd, 0xd8, 0x2e, 0xd9, 0x64, 0x5a, 0x21, 0x32, 0x2e,
    0x9c, 0x4c, 0x6a, 0x93, 0x85, 0xed, 0x9f, 0x70, 0xb5, 0xd9, 0x16, 0xc1,
    0xb4, 0x3b, 0x62, 0xee, 0xf4, 0xd0, 0x09, 0x8e, 0xff, 0x3b, 0x1f, 0x78,
    0xe2, 0xd0, 0xd4, 0x8d, 0x50, 0xd1, 0x68, 0x7b, 0x93, 0xb9, 0x7d, 0x5f,
    0x7c, 0x6d, 0x50, 0x47, 0x40, 0x6a, 0x5e, 0x68, 0x8b, 0x35, 0x22, 0x09,
    0xbc, 0xb9, 0xf8, 0x22,
];

pub const BRAINPOOL_P512R1_GY: [u8; 64] = [
    0x7d, 0xde, 0x38, 0x5d, 0x56, 0x63, 0x32, 0xec, 0xc0, 0xea, 0xbf, 0xa9,
    0xcf, 0x78, 0x22, 0xfd, 0xf2, 0x09, 0xf7, 0x00, 0x24, 0xa5, 0x7b, 0x1a,
    0xa0, 0x00, 0xc5, 0x5b, 0x88, 0x1f, 0x81, 0x11, 0xb2, 0xdc, 0xde, 0x49,
    0x4a, 0x5f, 0x48, 0x5e, 0x5b, 0xca, 0x4b, 0xd8, 0x8a, 0x27, 0x63, 0xae,
    0xd1, 0xca, 0x2b, 0x2f, 0xa8, 0xf0, 0x54, 0x06, 0x78, 0xcd, 0x1e, 0x0f,
    0x3a, 0xd8, 0x08, 0x92,
];

pub const BRAINPOOL_P512R1_N: [u8; 64] = [
    0xaa, 0xdd, 0x9d, 0xb8, 0xdb, 0xe9, 0xc4, 0x8b, 0x3f, 0xd4, 0xe6, 0xae,
    0x33, 0xc9, 0xfc, 0x07, 0xcb, 0x30, 0x8d, 0xb3, 0xb3, 0xc9, 0xd2, 0x0e,
    0xd6, 0x63, 0x9c, 0xca, 0x70, 0x33, 0x08, 0x70, 0x55, 0x3e, 0x5c, 0x41,
    0x4c, 0xa9, 0x26, 0x19, 0x41, 0x86, 0x61, 0x19, 0x7f, 0xac, 0x10, 0x47,
    0x1d, 0xb1, 0xd3, 0x81, 0x08, 0x5d, 0xda, 0xdd, 0xb5, 0x87, 0x96, 0x82,
    0x9c, 0xa9, 0x00, 0x69,
];

/// Brainpool P-512r1 (RFC 5639).
pub fn brainpool_p512r1() -> (r: Result<EllipticCurve, Error>)
    ensures
        r is Ok <==> valid_curve_params(be_val(BRAINPOOL_P512R1_P@), be_val(BRAINPOOL_P512R1_A@), be_val(BRAINPOOL_P512R1_B@), be_val(
            BRAINPOOL_P512R1_GX@), be_val(BRAINPOOL_P512R1_GY@), be_val(BRAINPOOL_P512R1_N@)),
        r is Ok ==> {
            let c = r.unwrap();
            &&& c.wf()
            &&& c.pv() == be_val(BRAINPOOL_P512R1_P@)
            &&& c.av() == be_val(BRAINPOOL_P512R1_A@)
            &&& c.bv() == be_val(BRAINPOOL_P512R1_B@)
            &&& c.gv() == (be_val(BRAINPOOL_P512R1_GX@), be_val(BRAINPOOL_P512R1_GY@))
            &&& c.nv() == be_val(BRAINPOOL_P512R1_N@)
            &&& c.hv() == 1
        },
{
    let modulus = u_from_be_slice(BRAINPOOL_P512R1_P.as_slice());
    let param_a = u_from_be_slice(BRAINPOOL_P512R1_A.as_slice());
    let param_b = u_from_be_slice(BRAINPOOL_P512R1_B.as_slice());
    let gx = u_from_be_slice(BRAINPOOL_P512R1_GX.as_slice());
    let gy = u_from_be_slice(BRAINPOOL_P512R1_GY.as_slice());
    let order = u_from_be_slice(BRAINPOOL_P512R1_N.as_slice());
    let params = Curve { modulus, param_a, param_b, generator: (gx, gy), order };
    params.build()
}
/// Mod-p group parameters: modulus, generator, and subgroup order.
pub struct Group {
    pub modulus: Wide,
    pub generator: Wide,
    pub order: Wide,
}

/// Elliptic-curve parameters over a prime field.
pub struct Curve {
    pub modulus: Wide,
    pub param_a: Wide,
    pub param_b: Wide,
    pub generator: (Wide, Wide),
    pub order: Wide,
}

impl Group {
    /// Validates and instantiates the group, accepting exactly the
    /// parameter sets `valid_modp_params` describes.
    pub fn build(&self) -> (r: Result<ModPGroup, Error>)
        ensures
            r is Ok <==> valid_modp_params(uval(self.modulus), uval(self.generator), uval(
                self.order)),
            r is Ok ==> {
                let g = r.unwrap();
                &&& g.wf()
                &&& g.pv() == uval(self.modulus)
                &&& g.gv() == uval(self.generator)
                &&& g.nv() == uval(self.order)
            },
    {
        ModPGroup::new(self.modulus, self.generator, self.order)
    }
}

impl Curve {
    /// Validates and instantiates the curve with cofactor one, accepting
    /// exactly the parameter sets `valid_curve_params` describes.
    pub fn build(&self) -> (r: Result<EllipticCurve, Error>)
        ensures
            r is Ok <==> valid_curve_params(uval(self.modulus), uval(self.param_a), uval(
                self.param_b), uval(self.generator.0), uval(self.generator.1), uval(
                self.order)),
            r is Ok ==> {
                let c = r.unwrap();
                &&& c.wf()
                &&& c.pv() == uval(self.modulus)
                &&& c.av() == uval(self.param_a)
                &&& c.bv() == uval(self.param_b)
                &&& c.gv() == (uval(self.generator.0), uval(self.generator.1))
                &&& c.nv() == uval(self.order)
                &&& c.hv() == 1
            },
    {
        let one = u_from_u64(1);
        EllipticCurve::new(self.modulus, self.param_a, self.param_b, self.generator.0,
            self.generator.1, self.order, one)
    }
}

} // verus!
