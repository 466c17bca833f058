//! The identity that is registered and the identity that pays: two sr25519
//! key pairs, each given as a secret URI.
//!
//! The key pairs are those of the `sp_core` crate, which derives them from
//! the secret URIs. The engine reads one thing of a key pair, its public
//! key; the pair itself is kept unopened, for the caller to sign with.

use sp_core::Pair;
use vstd::prelude::*;

verus! {

/// `sp_core::sr25519::Pair`, an sr25519 key pair. The library carries key
/// pairs through and does not look inside.
#[verifier::external_type_specification]
#[verifier::external_body]
pub struct ExPair(sp_core::sr25519::Pair);

/// The public key of the sr25519 key pair that `sp_core` derives from a
/// secret URI, as 32 bytes; `None` where `sp_core` refuses the URI.
pub uninterp spec fn sr25519_public_key(secret_uri: Seq<char>) -> Option<Seq<u8>>;

/// Calls `sp_core::sr25519::Pair::from_string` on the secret URI, with no
/// password override, and `public` on the pair it returns; hands back the
/// pair with the bytes of its public key.
///
/// Not proved: that the bytes are the public key of the pair that `sp_core`
/// derives from this URI, which is a function of the URI alone
/// (`sr25519_public_key`); that nothing is returned exactly where `sp_core`
/// refuses the URI; and that a public key has 32 bytes, which is the length
/// of `sp_core::sr25519::Public`.
#[verifier::external_body]
fn derive_pair(secret_uri: &str) -> (r: Option<(sp_core::sr25519::Pair, Vec<u8>)>)
    ensures
        match r {
            Some((_, key)) => sr25519_public_key(secret_uri@) == Some(key@) && key@.len() == 32,
            None => sr25519_public_key(secret_uri@) is None,
        },
{
    match sp_core::sr25519::Pair::from_string(secret_uri, None) {
        Ok(pair) => {
            let key = pair.public().0.to_vec();
            Some((pair, key))
        },
        Err(_) => None,
    }
}

/// Which of the two keys could not be read.
#[derive(Clone, Copy, Debug, PartialEq, Eq, Structural)]
pub enum KeyParseError {
    /// The coldkey's secret URI was refused.
    InvalidColdkey,
    /// The hotkey's secret URI was refused.
    InvalidHotkey,
}

/// One key pair, with its public key laid open.
pub struct KeyMaterial {
    pair: sp_core::sr25519::Pair,
    public_key: Vec<u8>,
}

impl KeyMaterial {
    #[verifier::type_invariant]
    spec fn valid(self) -> bool {
        self.public_key@.len() == 32
    }

    /// The key pair.
    pub closed spec fn spec_pair(&self) -> &sp_core::sr25519::Pair {
        &self.pair
    }

    /// The bytes of the public key.
    pub closed spec fn spec_public_key(&self) -> &Vec<u8> {
        &self.public_key
    }

    /// Derives the key pair from its secret URI; `None` where `sp_core`
    /// refuses the URI.
    pub fn from_secret_uri(secret_uri: &str) -> (r: Option<KeyMaterial>)
        ensures
            match r {
                Some(key) => sr25519_public_key(secret_uri@) == Some(key.public_key()@),
                None => sr25519_public_key(secret_uri@) is None,
            },
    {
        match derive_pair(secret_uri) {
            Some((pair, public_key)) => Some(KeyMaterial { pair, public_key }),
            None => None,
        }
    }

    /// The bytes of the public key, 32 of them.
    #[verifier::when_used_as_spec(spec_public_key)]
    pub fn public_key(&self) -> (r: &Vec<u8>)
        ensures
            r == self.public_key(),
            r@.len() == 32,
    {
        proof {
            use_type_invariant(self);
        }
        &self.public_key
    }

    /// The key pair, to sign with.
    #[verifier::when_used_as_spec(spec_pair)]
    pub fn pair(&self) -> (r: &sp_core::sr25519::Pair)
        ensures
            r == self.pair(),
    {
        &self.pair
    }
}

/// The two key pairs of a registration: the hotkey is the identity being
/// registered, the coldkey authorizes and pays.
pub struct SignedIdentity {
    /// The key that authorizes and pays.
    pub coldkey: KeyMaterial,
    /// The key that is registered.
    pub hotkey: KeyMaterial,
}

/// The error that two derived public keys give, the coldkey's first; `None`
/// where both were derived.
pub open spec fn identity_error(
    coldkey_public: Option<Seq<u8>>,
    hotkey_public: Option<Seq<u8>>,
) -> Option<KeyParseError> {
    if coldkey_public is None {
        Some(KeyParseError::InvalidColdkey)
    } else if hotkey_public is None {
        Some(KeyParseError::InvalidHotkey)
    } else {
        None
    }
}

/// Puts an identity together from what reading the two keys gave. A key that
/// could not be read is an error, the coldkey before the hotkey.
pub fn assemble_identity(coldkey: Option<KeyMaterial>, hotkey: Option<KeyMaterial>) -> (r: Result<
    SignedIdentity,
    KeyParseError,
>)
    ensures
        match r {
            Ok(identity) => coldkey == Some(identity.coldkey) && hotkey == Some(identity.hotkey),
            Err(error) => error == if coldkey is None {
                KeyParseError::InvalidColdkey
            } else {
                KeyParseError::InvalidHotkey
            } && (coldkey is None || hotkey is None),
        },
{
    let coldkey = match coldkey {
        Some(key) => key,
        None => {
            return Err(KeyParseError::InvalidColdkey);
        },
    };
    let hotkey = match hotkey {
        Some(key) => key,
        None => {
            return Err(KeyParseError::InvalidHotkey);
        },
    };
    Ok(SignedIdentity { coldkey, hotkey })
}

/// Reads the two keys of a registration from their secret URIs. A URI that
/// `sp_core` refuses is an error, the coldkey's before the hotkey's.
pub fn load_identity(coldkey: &str, hotkey: &str) -> (r: Result<SignedIdentity, KeyParseError>)
    ensures
        match r {
            Ok(identity) => {
                &&& Some(identity.coldkey.public_key()@) == sr25519_public_key(coldkey@)
                &&& Some(identity.hotkey.public_key()@) == sr25519_public_key(hotkey@)
            },
            Err(error) => Some(error) == identity_error(
                sr25519_public_key(coldkey@),
                sr25519_public_key(hotkey@),
            ),
        },
{
    let coldkey = KeyMaterial::from_secret_uri(coldkey);
    let hotkey = KeyMaterial::from_secret_uri(hotkey);
    assemble_identity(coldkey, hotkey)
}

} // verus!
