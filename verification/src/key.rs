//! Keys in COSE form: making them, and reading the secret or the public
//! part out of them.

use coset::CoseKey;
use vstd::prelude::*;

use crate::cose::{
    cose_encoding, cose_key_bytes, cose_key_copy, cose_key_from, cose_key_id, cose_kty,
    cose_params, ed25519_public, ed25519_public_of, is_cose_key, key_id_of, kty_of, okp_key,
    param_at, param_count, random_secret, symmetric_key,
};

verus! {

/// Why a key could not be made or read.
#[derive(Clone, Copy, Debug, PartialEq, Eq)]
pub enum KeyError {
    /// The key is of a type that holds no such part.
    UnsupportedKeyType,
    /// The key holds no parameter for the part.
    MissingKey,
    /// The parameter for the part is no byte string.
    InvalidKeyType,
    /// The part is not 32 bytes long.
    InvalidKeyLength,
    /// The bytes are no COSE key, or the key has no encoding.
    Encoding,
    /// The operating system gave no random bytes, or gave only zeros.
    Entropy,
}

/// The number of the octet key pair type.
pub const KTY_OKP: i64 = 1;

/// The number of the symmetric key type.
pub const KTY_SYMMETRIC: i64 = 4;

/// The label of a symmetric key's secret.
pub const PARAM_K: i64 = -1;

/// The label of an octet key pair's public part.
pub const PARAM_X: i64 = -2;

/// The label of an octet key pair's secret part.
pub const PARAM_D: i64 = -4;

/// A key in COSE form.
pub struct Key(pub CoseKey);

/// The place of the first parameter, from `from` on, that has the label.
pub open spec fn find_param(
    params: Seq<(Option<int>, Option<Seq<u8>>)>,
    label: int,
    from: int,
) -> Option<int>
    decreases params.len() - from,
{
    if from < 0 || from >= params.len() {
        None
    } else if params[from].0 == Some(label) {
        Some(from)
    } else {
        find_param(params, label, from + 1)
    }
}

/// The 32 bytes under a label: those of the first parameter that has the
/// label, if it is a byte string of that length.
pub open spec fn part_under(params: Seq<(Option<int>, Option<Seq<u8>>)>, label: int) -> Result<
    Seq<u8>,
    KeyError,
> {
    match find_param(params, label, 0) {
        None => Err(KeyError::MissingKey),
        Some(i) => match params[i].1 {
            None => Err(KeyError::InvalidKeyType),
            Some(b) => if b.len() != 32 {
                Err(KeyError::InvalidKeyLength)
            } else {
                Ok(b)
            },
        },
    }
}

fn read_part(key: &CoseKey, label: i64) -> (r: Result<[u8; 32], KeyError>)
    ensures
        match part_under(cose_params(*key), label as int) {
            Ok(b) => r is Ok && r->Ok_0@ == b,
            Err(e) => r == Err::<[u8; 32], KeyError>(e),
        },
{
    let ghost params = cose_params(*key);
    let n: usize = param_count(key);
    let mut i: usize = 0;
    while i < n
        invariant
            i <= n,
            n == params.len(),
            params == cose_params(*key),
            find_param(params, label as int, 0) == find_param(params, label as int, i as int),
        decreases n - i,
    {
        let pair: (Option<i64>, Option<Vec<u8>>) = param_at(key, i);
        let hit: bool = match pair.0 {
            Some(l) => l == label,
            None => false,
        };
        assert(hit == (params[i as int].0 == Some(label as int)));
        if hit {
            return match pair.1 {
                None => Err(KeyError::InvalidKeyType),
                Some(b) => {
                    assert(params[i as int].1 == Some(b@));
                    if b.len() != 32 {
                        Err(KeyError::InvalidKeyLength)
                    } else {
                        let mut out: [u8; 32] = [0u8; 32];
                        let mut j: usize = 0;
                        while j < 32
                            invariant
                                j <= 32,
                                b@.len() == 32,
                                forall|k: int| 0 <= k < j ==> out[k] == b@[k],
                            decreases 32 - j,
                        {
                            out[j] = b[j];
                            j += 1;
                        }
                        assert(out@ =~= b@);
                        Ok(out)
                    }
                },
            };
        }
        i += 1;
    }
    Err(KeyError::MissingKey)
}

fn all_zero(secret: &[u8; 32]) -> (r: bool)
    ensures
        r == (forall|i: int| 0 <= i < 32 ==> secret[i] == 0),
{
    let mut i: usize = 0;
    while i < 32
        invariant
            i <= 32,
            forall|j: int| 0 <= j < i ==> secret[j] == 0,
        decreases 32 - i,
    {
        if secret[i] != 0 {
            return false;
        }
        i += 1;
    }
    true
}

impl Key {
    /// The registered number of the key's type, if it has one.
    pub open spec fn kty(&self) -> Option<int> {
        cose_kty(self.0)
    }

    /// The key's parameters, as pairs of label and bytes.
    pub open spec fn params(&self) -> Seq<(Option<int>, Option<Seq<u8>>)> {
        cose_params(self.0)
    }

    /// The secret of the key: what a symmetric key holds under K, what an
    /// octet key pair holds under D.
    pub open spec fn spec_private(&self) -> Result<Seq<u8>, KeyError> {
        if self.kty() == Some(KTY_SYMMETRIC as int) {
            part_under(self.params(), PARAM_K as int)
        } else if self.kty() == Some(KTY_OKP as int) {
            part_under(self.params(), PARAM_D as int)
        } else {
            Err(KeyError::UnsupportedKeyType)
        }
    }

    /// The public part of the key: what an octet key pair holds under X.
    pub open spec fn spec_public(&self) -> Result<Seq<u8>, KeyError> {
        if self.kty() == Some(KTY_OKP as int) {
            part_under(self.params(), PARAM_X as int)
        } else {
            Err(KeyError::UnsupportedKeyType)
        }
    }

    /// A symmetric key around the given secret.
    pub fn sym_from(secret: &[u8; 32], alg: coset::iana::Algorithm, kid: &[u8]) -> (r: Key)
        ensures
            r.spec_private() == Ok::<Seq<u8>, KeyError>(secret@),
            cose_key_id(r.0) == kid@,
    {
        let r = Key(symmetric_key(secret, alg, kid));
        assert(find_param(r.params(), PARAM_K as int, 0) == Some(0int));
        r
    }

    /// An Ed25519 key pair around the given secret.
    pub fn ed25519_from(secret: &[u8; 32], kid: &[u8]) -> (r: Key)
        ensures
            r.spec_private() == Ok::<Seq<u8>, KeyError>(secret@),
            cose_key_id(r.0) == kid@,
    {
        let r = Key(okp_key(PARAM_D, secret, kid));
        reveal_with_fuel(find_param, 3);
        assert(find_param(r.params(), PARAM_D as int, 0) == Some(1int));
        r
    }

    /// A new symmetric key around a random secret. A secret of zeros is
    /// not taken.
    pub fn new_sym(alg: coset::iana::Algorithm, kid: &[u8]) -> (r: Result<Key, KeyError>)
        ensures
            match r {
                Ok(key) => key.spec_private() is Ok && cose_key_id(key.0) == kid@,
                Err(e) => e == KeyError::Entropy,
            },
    {
        match random_secret() {
            Some(secret) => {
                if all_zero(&secret) {
                    Err(KeyError::Entropy)
                } else {
                    Ok(Key::sym_from(&secret, alg, kid))
                }
            },
            None => Err(KeyError::Entropy),
        }
    }

    /// A new Ed25519 key pair around a random secret. A secret of zeros
    /// is not taken.
    pub fn new_ed25519(kid: &[u8]) -> (r: Result<Key, KeyError>)
        ensures
            match r {
                Ok(key) => key.spec_private() is Ok && cose_key_id(key.0) == kid@,
                Err(e) => e == KeyError::Entropy,
            },
    {
        match random_secret() {
            Some(secret) => {
                if all_zero(&secret) {
                    Err(KeyError::Entropy)
                } else {
                    Ok(Key::ed25519_from(&secret, kid))
                }
            },
            None => Err(KeyError::Entropy),
        }
    }

    /// The 32-byte secret of the key.
    pub fn get_private(&self) -> (r: Result<[u8; 32], KeyError>)
        ensures
            match self.spec_private() {
                Ok(b) => r is Ok && r->Ok_0@ == b,
                Err(e) => r == Err::<[u8; 32], KeyError>(e),
            },
    {
        let label: i64 = match kty_of(&self.0) {
            Some(t) => {
                if t == KTY_SYMMETRIC {
                    PARAM_K
                } else if t == KTY_OKP {
                    PARAM_D
                } else {
                    return Err(KeyError::UnsupportedKeyType);
                }
            },
            None => {
                return Err(KeyError::UnsupportedKeyType);
            },
        };
        read_part(&self.0, label)
    }

    /// The 32-byte public part of the key.
    pub fn get_public(&self) -> (r: Result<[u8; 32], KeyError>)
        ensures
            match self.spec_public() {
                Ok(b) => r is Ok && r->Ok_0@ == b,
                Err(e) => r == Err::<[u8; 32], KeyError>(e),
            },
    {
        match kty_of(&self.0) {
            Some(t) => {
                if t != KTY_OKP {
                    return Err(KeyError::UnsupportedKeyType);
                }
            },
            None => {
                return Err(KeyError::UnsupportedKeyType);
            },
        }
        read_part(&self.0, PARAM_X)
    }

    /// The public key of an Ed25519 key pair, with the pair's identifier.
    pub fn ed25519_public(&self) -> (r: Result<Key, KeyError>)
        ensures
            match r {
                Ok(key) => {
                    &&& self.kty() == Some(KTY_OKP as int)
                    &&& self.spec_private() is Ok
                    &&& key.spec_public() == Ok::<Seq<u8>, KeyError>(
                        ed25519_public(self.spec_private()->Ok_0),
                    )
                    &&& cose_key_id(key.0) == cose_key_id(self.0)
                },
                Err(e) => if self.kty() != Some(KTY_OKP as int) {
                    e == KeyError::UnsupportedKeyType
                } else {
                    self.spec_private() == Err::<Seq<u8>, KeyError>(e)
                },
            },
    {
        match kty_of(&self.0) {
            Some(t) => {
                if t != KTY_OKP {
                    return Err(KeyError::UnsupportedKeyType);
                }
            },
            None => {
                return Err(KeyError::UnsupportedKeyType);
            },
        }
        let secret: [u8; 32] = match self.get_private() {
            Ok(s) => s,
            Err(e) => {
                return Err(e);
            },
        };
        let public: [u8; 32] = ed25519_public_of(&secret);
        let kid: Vec<u8> = key_id_of(&self.0);
        let key = Key(okp_key(PARAM_X, &public, kid.as_slice()));
        proof {
            reveal_with_fuel(find_param, 3);
            assert(find_param(key.params(), PARAM_X as int, 0) == Some(1int));
        }
        Ok(key)
    }

    /// A copy of the key's identifier.
    pub fn key_id(&self) -> (r: Vec<u8>)
        ensures
            r@ == cose_key_id(self.0),
    {
        key_id_of(&self.0)
    }

    /// The CBOR encoding of the key.
    pub fn to_vec(self) -> (r: Result<Vec<u8>, KeyError>)
        ensures
            match cose_encoding(self.0) {
                Some(b) => r is Ok && r->Ok_0@ == b,
                None => r is Err && r->Err_0 == KeyError::Encoding,
            },
    {
        match cose_key_bytes(self.0) {
            Some(bytes) => Ok(bytes),
            None => Err(KeyError::Encoding),
        }
    }

    /// The key that some bytes encode.
    pub fn from_slice(data: &[u8]) -> (r: Result<Key, KeyError>)
        ensures
            r is Ok <==> is_cose_key(data@),
            r is Err ==> r->Err_0 == KeyError::Encoding,
    {
        match cose_key_from(data) {
            Some(key) => Ok(Key(key)),
            None => Err(KeyError::Encoding),
        }
    }

    /// A copy of the key.
    pub fn duplicate(&self) -> (r: Key)
        ensures
            r.kty() == self.kty(),
            r.params() == self.params(),
            cose_key_id(r.0) == cose_key_id(self.0),
    {
        Key(cose_key_copy(&self.0))
    }
}

} // verus!
