//! The keychain: sole holder of the enclave's secrets.
//!
//! Sealing, random generation and key derivation are done by collaborators;
//! their outcomes are handed to the keychain, which decides what is kept.
//! A key counts as set once its sealed form was written: a setter that is
//! told that sealing failed keeps the keychain as it was.

use vstd::prelude::*;
use crate::errors::CryptoError;
use crate::errors::EnclaveError;
use crate::keys::KeyPair;
use crate::keys::MasterKeys;
use crate::keys::Seed;

verus! {

/// What a keychain holds.
pub ghost struct KeychainView {
    pub consensus_seed: Option<Seed>,
    pub consensus_state_ikm: Option<Seed>,
    pub consensus_seed_exchange_keypair: Option<KeyPair>,
    pub consensus_io_exchange_keypair: Option<KeyPair>,
    pub registration_key: Option<KeyPair>,
}

impl KeychainView {
    /// The keychain after the master keys `derived` were handed to it. With
    /// no seed nothing is taken. The keypairs are taken in order, and the
    /// first that failed to derive stops the rest from being taken.
    pub open spec fn with_master_keys(self, derived: MasterKeys) -> KeychainView {
        if self.consensus_seed is None {
            self
        } else {
            match (derived.seed_exchange_keypair, derived.io_exchange_keypair) {
                (Err(_), _) => self,
                (Ok(seed_exchange), Err(_)) => KeychainView {
                    consensus_seed_exchange_keypair: Some(seed_exchange),
                    ..self
                },
                (Ok(seed_exchange), Ok(io_exchange)) => KeychainView {
                    consensus_seed_exchange_keypair: Some(seed_exchange),
                    consensus_io_exchange_keypair: Some(io_exchange),
                    consensus_state_ikm: Some(derived.state_ikm),
                    ..self
                },
            }
        }
    }

    /// The keychain after `seed` became its root seed: the keys derived from
    /// the seed before it are gone.
    pub open spec fn with_seed(self, seed: Seed) -> KeychainView {
        KeychainView {
            consensus_seed: Some(seed),
            consensus_state_ikm: None,
            consensus_seed_exchange_keypair: None,
            consensus_io_exchange_keypair: None,
            registration_key: self.registration_key,
        }
    }

    /// Whether handing `derived` to this keychain succeeds: there is no seed
    /// to derive from, or both keypairs were derived.
    pub open spec fn accepts_master_keys(self, derived: MasterKeys) -> bool {
        self.consensus_seed is None || (derived.seed_exchange_keypair is Ok
            && derived.io_exchange_keypair is Ok)
    }

    /// Whether the keychain holds what it takes to hand the seed to another
    /// node: the seed and the seed-exchange keypair.
    pub open spec fn can_hand_out_seed(self) -> bool {
        self.consensus_seed is Some && self.consensus_seed_exchange_keypair is Some
    }

    /// Whether every key of the keychain is set.
    pub open spec fn complete(self) -> bool {
        &&& self.consensus_seed is Some
        &&& self.consensus_state_ikm is Some
        &&& self.consensus_seed_exchange_keypair is Some
        &&& self.consensus_io_exchange_keypair is Some
        &&& self.registration_key is Some
    }
}

/// The enclave's secrets: the root seed, the three keys derived from it, and
/// the node's own registration keypair.
pub struct Keychain {
    consensus_seed: Option<Seed>,
    consensus_state_ikm: Option<Seed>,
    consensus_seed_exchange_keypair: Option<KeyPair>,
    consensus_io_exchange_keypair: Option<KeyPair>,
    registration_key: Option<KeyPair>,
}

impl View for Keychain {
    type V = KeychainView;

    closed spec fn view(&self) -> KeychainView {
        KeychainView {
            consensus_seed: self.consensus_seed,
            consensus_state_ikm: self.consensus_state_ikm,
            consensus_seed_exchange_keypair: self.consensus_seed_exchange_keypair,
            consensus_io_exchange_keypair: self.consensus_io_exchange_keypair,
            registration_key: self.registration_key,
        }
    }
}

/// The value of an unseal attempt: a sealed file that is missing or damaged
/// leaves the key unset.
pub open spec fn unsealed<T>(attempt: Result<T, EnclaveError>) -> Option<T> {
    match attempt {
        Ok(key) => Some(key),
        Err(_) => None,
    }
}

impl Keychain {
    /// Builds the keychain from the two unseal attempts made at start-up. An
    /// unsealed seed comes with the master keys derived from it, which are
    /// taken as `generate_consensus_master_keys` takes them; a keypair that
    /// failed to derive stays unset and is no error here. A sealed file that
    /// is missing or damaged leaves its key unset.
    pub fn new(
        unsealed_seed: Result<(Seed, MasterKeys), EnclaveError>,
        unsealed_registration_key: Result<KeyPair, EnclaveError>,
    ) -> (r: Keychain)
        ensures
            r@ == match unsealed_seed {
                Ok((seed, derived)) => (KeychainView {
                    consensus_seed: Some(seed),
                    registration_key: unsealed(unsealed_registration_key),
                    consensus_state_ikm: None,
                    consensus_seed_exchange_keypair: None,
                    consensus_io_exchange_keypair: None,
                }).with_master_keys(derived),
                Err(_) => (KeychainView {
                    consensus_seed: None,
                    registration_key: unsealed(unsealed_registration_key),
                    consensus_state_ikm: None,
                    consensus_seed_exchange_keypair: None,
                    consensus_io_exchange_keypair: None,
                }),
            },
    {
        let registration_key = match unsealed_registration_key {
            Ok(k) => Some(k),
            Err(_) => None,
        };
        let mut x = Keychain {
            consensus_seed: None,
            registration_key,
            consensus_state_ikm: None,
            consensus_seed_exchange_keypair: None,
            consensus_io_exchange_keypair: None,
        };
        match unsealed_seed {
            Ok((seed, derived)) => {
                x.consensus_seed = Some(seed);
                let _ = x.generate_consensus_master_keys(derived);
            },
            Err(_) => {},
        }
        x
    }

    /// Takes a freshly generated seed as the root seed. `generated` is the
    /// outcome of random generation and `sealed` the outcome of sealing the
    /// generated seed; `sealed` is looked at only when a seed was generated.
    /// A failed generation is passed on; a failed seal is a key error. The
    /// keychain changes only when both succeeded, and then as
    /// `set_consensus_seed` changes it.
    pub fn create_consensus_seed(
        &mut self,
        generated: Result<Seed, CryptoError>,
        sealed: Result<(), EnclaveError>,
    ) -> (r: Result<(), CryptoError>)
        ensures
            r == match (generated, sealed) {
                (Err(e), _) => Err::<(), CryptoError>(e),
                (Ok(_), Err(_)) => Err(CryptoError::KeyError),
                (Ok(_), Ok(_)) => Ok(()),
            },
            final(self)@ == match (generated, sealed) {
                (Ok(seed), Ok(_)) => old(self)@.with_seed(seed),
                _ => old(self)@,
            },
    {
        match generated {
            Ok(seed) => match self.set_consensus_seed(seed, sealed) {
                Ok(()) => Ok(()),
                Err(_) => Err(CryptoError::KeyError),
            },
            Err(err) => Err(err),
        }
    }

    /// Takes a freshly generated keypair as the registration key, under the
    /// same rules as `create_consensus_seed`.
    pub fn create_registration_key(
        &mut self,
        generated: Result<KeyPair, CryptoError>,
        sealed: Result<(), EnclaveError>,
    ) -> (r: Result<(), CryptoError>)
        ensures
            r == match (generated, sealed) {
                (Err(e), _) => Err::<(), CryptoError>(e),
                (Ok(_), Err(_)) => Err(CryptoError::KeyError),
                (Ok(_), Ok(_)) => Ok(()),
            },
            final(self)@ == match (generated, sealed) {
                (Ok(key), Ok(_)) => (KeychainView { registration_key: Some(key), ..old(self)@ }),
                _ => old(self)@,
            },
    {
        match generated {
            Ok(key) => match self.set_registration_key(key, sealed) {
                Ok(()) => Ok(()),
                Err(_) => Err(CryptoError::KeyError),
            },
            Err(err) => Err(err),
        }
    }

    /// Whether the registration key is set.
    pub fn is_registration_key_set(&self) -> (r: bool)
        ensures
            r == self@.registration_key is Some,
    {
        self.registration_key.is_some()
    }

    /// Whether the state input-keying-material is set.
    pub fn is_consensus_state_ikm_set(&self) -> (r: bool)
        ensures
            r == self@.consensus_state_ikm is Some,
    {
        self.consensus_state_ikm.is_some()
    }

    /// Whether the seed-exchange keypair is set.
    pub fn is_consensus_seed_exchange_keypair_set(&self) -> (r: bool)
        ensures
            r == self@.consensus_seed_exchange_keypair is Some,
    {
        self.consensus_seed_exchange_keypair.is_some()
    }

    /// Whether the I/O exchange keypair is set.
    pub fn is_consensus_io_exchange_keypair_set(&self) -> (r: bool)
        ensures
            r == self@.consensus_io_exchange_keypair is Some,
    {
        self.consensus_io_exchange_keypair.is_some()
    }

    /// Whether the root seed is set.
    pub fn is_consensus_seed_set(&self) -> (r: bool)
        ensures
            r == self@.consensus_seed is Some,
    {
        self.consensus_seed.is_some()
    }

    /// The state input-keying-material, or a parsing error when it is not set.
    pub fn get_consensus_state_ikm(&self) -> (r: Result<Seed, CryptoError>)
        ensures
            r == match self@.consensus_state_ikm {
                Some(k) => Ok::<Seed, CryptoError>(k),
                None => Err(CryptoError::ParsingError),
            },
    {
        match self.consensus_state_ikm {
            Some(k) => Ok(k),
            None => Err(CryptoError::ParsingError),
        }
    }

    /// The root seed, or a parsing error when it is not set.
    pub fn get_consensus_seed(&self) -> (r: Result<Seed, CryptoError>)
        ensures
            r == match self@.consensus_seed {
                Some(k) => Ok::<Seed, CryptoError>(k),
                None => Err(CryptoError::ParsingError),
            },
    {
        match self.consensus_seed {
            Some(k) => Ok(k),
            None => Err(CryptoError::ParsingError),
        }
    }

    /// The seed-exchange keypair, or a parsing error when it is not set.
    pub fn seed_exchange_key(&self) -> (r: Result<KeyPair, CryptoError>)
        ensures
            r == match self@.consensus_seed_exchange_keypair {
                Some(k) => Ok::<KeyPair, CryptoError>(k),
                None => Err(CryptoError::ParsingError),
            },
    {
        match self.consensus_seed_exchange_keypair {
            Some(k) => Ok(k),
            None => Err(CryptoError::ParsingError),
        }
    }

    /// The I/O exchange keypair, or a parsing error when it is not set.
    pub fn get_consensus_io_exchange_keypair(&self) -> (r: Result<KeyPair, CryptoError>)
        ensures
            r == match self@.consensus_io_exchange_keypair {
                Some(k) => Ok::<KeyPair, CryptoError>(k),
                None => Err(CryptoError::ParsingError),
            },
    {
        match self.consensus_io_exchange_keypair {
            Some(k) => Ok(k),
            None => Err(CryptoError::ParsingError),
        }
    }

    /// The registration keypair, or a parsing error when it is not set.
    pub fn get_registration_key(&self) -> (r: Result<KeyPair, CryptoError>)
        ensures
            r == match self@.registration_key {
                Some(k) => Ok::<KeyPair, CryptoError>(k),
                None => Err(CryptoError::ParsingError),
            },
    {
        match self.registration_key {
            Some(k) => Ok(k),
            None => Err(CryptoError::ParsingError),
        }
    }

    /// Commits `kp` as the registration key if it was sealed; `sealed` is the
    /// outcome of sealing `kp`. A failed seal is passed on and nothing
    /// changes.
    pub fn set_registration_key(&mut self, kp: KeyPair, sealed: Result<(), EnclaveError>) -> (r:
        Result<(), EnclaveError>)
        ensures
            r == match sealed {
                Ok(_) => Ok::<(), EnclaveError>(()),
                Err(e) => Err(e),
            },
            final(self)@ == match sealed {
                Ok(_) => (KeychainView { registration_key: Some(kp), ..old(self)@ }),
                Err(_) => old(self)@,
            },
    {
        match sealed {
            Err(e) => Err(e),
            Ok(()) => {
                self.registration_key = Some(kp);
                Ok(())
            },
        }
    }

    /// Sets the seed-exchange keypair, which is held in memory only, and nothing else.
    pub fn set_consensus_seed_exchange_keypair(&mut self, kp: KeyPair)
        ensures
            final(self)@ == (KeychainView {
                consensus_seed_exchange_keypair: Some(kp),
                ..old(self)@
            }),
    {
        self.consensus_seed_exchange_keypair = Some(kp);
    }

    /// Sets the I/O exchange keypair, which is held in memory only, and nothing else.
    pub fn set_consensus_io_exchange_keypair(&mut self, kp: KeyPair)
        ensures
            final(self)@ == (KeychainView {
                consensus_io_exchange_keypair: Some(kp),
                ..old(self)@
            }),
    {
        self.consensus_io_exchange_keypair = Some(kp);
    }

    /// Sets the state input-keying-material, which is held in memory only, and nothing else.
    pub fn set_consensus_state_ikm(&mut self, consensus_state_ikm: Seed)
        ensures
            final(self)@ == (KeychainView {
                consensus_state_ikm: Some(consensus_state_ikm),
                ..old(self)@
            }),
    {
        self.consensus_state_ikm = Some(consensus_state_ikm);
    }

    /// Commits `consensus_seed` as the root seed if it was sealed; `sealed`
    /// is the outcome of sealing it. A failed seal is passed on and nothing
    /// changes. With the new seed the keys derived from the seed before it
    /// are dropped: they stay unset until the master keys of the new seed are
    /// handed in.
    pub fn set_consensus_seed(&mut self, consensus_seed: Seed, sealed: Result<(), EnclaveError>) -> (r:
        Result<(), EnclaveError>)
        ensures
            r == match sealed {
                Ok(_) => Ok::<(), EnclaveError>(()),
                Err(e) => Err(e),
            },
            final(self)@ == match sealed {
                Ok(_) => old(self)@.with_seed(consensus_seed),
                Err(_) => old(self)@,
            },
    {
        match sealed {
            Err(e) => Err(e),
            Ok(()) => {
                self.consensus_seed = Some(consensus_seed);
                self.consensus_state_ikm = None;
                self.consensus_seed_exchange_keypair = None;
                self.consensus_io_exchange_keypair = None;
                Ok(())
            },
        }
    }

    /// Takes the master keys derived from the root seed. Without a seed this
    /// does nothing and succeeds. A keypair that failed to derive is a failed
    /// key derivation; the keys taken before it stay, and the seed is never
    /// touched.
    pub fn generate_consensus_master_keys(&mut self, derived: MasterKeys) -> (r: Result<
        (),
        EnclaveError,
    >)
        ensures
            final(self)@ == old(self)@.with_master_keys(derived),
            r == if old(self)@.accepts_master_keys(derived) {
                Ok::<(), EnclaveError>(())
            } else {
                Err(EnclaveError::FailedKeyDerivation)
            },
    {
        if !self.is_consensus_seed_set() {
            return Ok(());
        }
        let consensus_seed_exchange_keypair = match derived.seed_exchange_keypair {
            Ok(kp) => kp,
            Err(_) => {
                return Err(EnclaveError::FailedKeyDerivation);
            },
        };
        self.set_consensus_seed_exchange_keypair(consensus_seed_exchange_keypair);
        let consensus_io_exchange_keypair = match derived.io_exchange_keypair {
            Ok(kp) => kp,
            Err(_) => {
                return Err(EnclaveError::FailedKeyDerivation);
            },
        };
        self.set_consensus_io_exchange_keypair(consensus_io_exchange_keypair);
        self.set_consensus_state_ikm(derived.state_ikm);
        Ok(())
    }
}

/// Handing the same master keys to a keychain twice leaves it as the first
/// time left it: derivation from one seed is repeatable.
pub proof fn lemma_master_keys_idempotent(keychain: KeychainView, derived: MasterKeys)
    ensures
        keychain.with_master_keys(derived).with_master_keys(derived) == keychain.with_master_keys(
            derived,
        ),
{
}

/// A keychain that holds a seed and a registration key holds every key once
/// it has accepted the master keys.
pub proof fn lemma_bootstrap_completes(keychain: KeychainView, derived: MasterKeys)
    requires
        keychain.consensus_seed is Some,
        keychain.registration_key is Some,
        keychain.accepts_master_keys(derived),
    ensures
        keychain.with_master_keys(derived).complete(),
{
}

/// Once a seed was set and its master keys were accepted, every derived key
/// the keychain holds is one of those master keys: none of an earlier seed
/// is left.
pub proof fn lemma_new_seed_new_keys(keychain: KeychainView, seed: Seed, derived: MasterKeys)
    requires
        keychain.with_seed(seed).accepts_master_keys(derived),
    ensures
        keychain.with_seed(seed).with_master_keys(derived) == (KeychainView {
            consensus_seed: Some(seed),
            consensus_state_ikm: Some(derived.state_ikm),
            consensus_seed_exchange_keypair: Some(derived.seed_exchange_keypair.unwrap()),
            consensus_io_exchange_keypair: Some(derived.io_exchange_keypair.unwrap()),
            registration_key: keychain.registration_key,
        }),
{
}

/// Taking master keys never touches the root seed or the registration key.
pub proof fn lemma_master_keys_keep_roots(keychain: KeychainView, derived: MasterKeys)
    ensures
        keychain.with_master_keys(derived).consensus_seed == keychain.consensus_seed,
        keychain.with_master_keys(derived).registration_key == keychain.registration_key,
{
}

} // verus!
