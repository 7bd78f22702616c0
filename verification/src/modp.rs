//! Diffie-Hellman groups: prime-order subgroups of the multiplicative
//! group of integers modulo p.

use vstd::prelude::*;
use crate::uint::{Wide, uval, u_from_u64, u_lt, u_bit};
use crate::ring::ModRing;
use crate::element::ModRingElement;
use crate::rng::CryptoCoreRng;
use crate::modmath::{pow_mod, byte_len_spec, spec_encode_uint};
use crate::uint::be_val;
use crate::error::Error;

verus! {

/// What mod-p group construction accepts: odd moduli above one, a
/// generator strictly between one and the modulus, and a generator whose
/// order divides the stated subgroup order.
pub open spec fn valid_modp_params(pv: nat, gv: nat, nv: nat) -> bool {
    &&& pv % 2 == 1
    &&& pv > 1
    &&& nv % 2 == 1
    &&& nv > 1
    &&& 1 < gv < pv
    &&& pow_mod(gv, nv, pv) == 1
}

/// A prime-order subgroup of F_p* with a fixed generator.
#[derive(Clone, Copy)]
pub struct ModPGroup {
    pub base_field: ModRing,
    pub scalar_field: ModRing,
    pub generator: ModRingElement,
}

impl ModPGroup {
    /// Base field modulus.
    pub open spec fn pv(self) -> nat {
        self.base_field.p()
    }

    /// Subgroup order.
    pub open spec fn nv(self) -> nat {
        self.scalar_field.p()
    }

    /// Generator value.
    pub open spec fn gv(self) -> nat {
        self.generator.v()
    }

    /// Consistent fields, and a generator of the stated order.
    pub open spec fn wf(self) -> bool {
        &&& self.base_field.wf()
        &&& self.scalar_field.wf()
        &&& self.generator.wf()
        &&& self.generator.p() == self.pv()
        &&& pow_mod(self.gv(), self.nv(), self.pv()) == 1
    }

    /// Constructs a group, accepting exactly the parameter sets that
    /// `valid_modp_params` describes.
    pub fn new(modulus: Wide, generator: Wide, order: Wide) -> (r: Result<ModPGroup, Error>)
        ensures
            match r {
                Ok(g) => {
                    &&& g.wf()
                    &&& g.pv() == uval(modulus)
                    &&& g.nv() == uval(order)
                    &&& g.gv() == uval(generator)
                },
                Err(e) => e == Error::ParameterInvalid,
            },
            r is Ok <==> valid_modp_params(uval(modulus), uval(generator), uval(order)),
    {
        let ghost pv = uval(modulus);
        let ghost nv = uval(order);
        proof {
            vstd::arithmetic::power2::lemma2_to64();
            vstd::arithmetic::div_mod::lemma_div_basics_1(pv as int);
            vstd::arithmetic::div_mod::lemma_div_basics_1(nv as int);
        }
        let one = u_from_u64(1);
        if !u_bit(&modulus, 0) || !u_lt(&one, &modulus) {
            return Err(Error::ParameterInvalid);
        }
        if !u_bit(&order, 0) || !u_lt(&one, &order) {
            return Err(Error::ParameterInvalid);
        }
        if !u_lt(&one, &generator) || !u_lt(&generator, &modulus) {
            return Err(Error::ParameterInvalid);
        }
        let base_field = ModRing::from_modulus(modulus);
        let scalar_field = ModRing::from_modulus(order);
        let g = base_field.from(generator);
        // the generator's order divides the stated subgroup order
        let power = g.pow_ct(&order);
        if !power.is_one() {
            return Err(Error::ParameterInvalid);
        }
        Ok(ModPGroup { base_field, scalar_field, generator: g })
    }

    /// The base field.
    pub fn base_field(&self) -> (r: &ModRing)
        ensures
            *r == self.base_field,
    {
        &self.base_field
    }

    /// The scalar field.
    pub fn scalar_field(&self) -> (r: &ModRing)
        ensures
            *r == self.scalar_field,
    {
        &self.scalar_field
    }

    /// The generator as a base-field element.
    pub fn generator(&self) -> (r: ModRingElement)
        requires
            self.wf(),
        ensures
            r.wf(),
            r.p() == self.pv(),
            r.v() == self.gv(),
    {
        self.generator
    }

    /// A random scalar for key generation.
    pub fn random_scalar<R: CryptoCoreRng>(&self, rng: &mut R) -> (r: ModRingElement)
        requires
            self.wf(),
        ensures
            r.wf(),
            r.p() == self.nv(),
    {
        self.scalar_field.random(rng)
    }
}

impl ModPGroup {
    /// Draws a private key: a random scalar in its fixed-length encoding.
    pub fn generate_private_key<R: CryptoCoreRng>(&self, rng: &mut R) -> (r: Vec<u8>)
        requires
            self.wf(),
        ensures
            r@.len() == byte_len_spec(self.nv()),
    {
        let s = self.scalar_field.random(rng);
        s.encode_field_element()
    }

    /// Derives the public key `g^sk mod p` of an encoded private key.
    pub fn private_to_public(&self, private: &[u8]) -> (r: Result<Vec<u8>, Error>)
        requires
            self.wf(),
        ensures
            r is Ok <==> private@.len() == byte_len_spec(self.nv()),
            r is Ok ==> r.unwrap()@ == spec_encode_uint(pow_mod(self.gv(), be_val(private@)
                % self.nv(), self.pv()), byte_len_spec(self.pv())),
    {
        let sk = match self.scalar_field.decode_field_element(private) {
            Ok(sk) => sk,
            Err(e) => {
                return Err(e);
            },
        };
        let g = self.generator();
        let y = g.pow_ct(&sk.to_uint());
        Ok(y.encode_field_element())
    }

    /// Computes the shared secret `public^sk mod p` of an encoded private
    /// key and an encoded peer public key.
    pub fn shared_secret(&self, private: &[u8], public: &[u8]) -> (r: Result<Vec<u8>, Error>)
        requires
            self.wf(),
        ensures
            r is Ok <==> (private@.len() == byte_len_spec(self.nv()) && public@.len()
                == byte_len_spec(self.pv())),
            r is Ok ==> r.unwrap()@ == spec_encode_uint(pow_mod(be_val(public@) % self.pv(),
                be_val(private@) % self.nv(), self.pv()), byte_len_spec(self.pv())),
    {
        let sk = match self.scalar_field.decode_field_element(private) {
            Ok(sk) => sk,
            Err(e) => {
                return Err(e);
            },
        };
        let y = match self.base_field.decode_field_element(public) {
            Ok(y) => y,
            Err(e) => {
                return Err(e);
            },
        };
        let z = y.pow_ct(&sk.to_uint());
        Ok(z.encode_field_element())
    }
}

} // verus!
