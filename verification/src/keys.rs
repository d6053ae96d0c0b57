//! Key material as plain values: the root seed, key-exchange keypairs, and
//! the labels under which the master keys are derived from the seed.

use vstd::prelude::*;
use crate::errors::CryptoError;

verus! {

/// Bytes of a seed and of every symmetric key.
pub const SEED_KEY_SIZE: usize = 32;

/// Bytes of a private key.
pub const SECRET_KEY_SIZE: usize = 32;

/// Bytes of a public key in uncompressed form.
pub const PUBLIC_KEY_SIZE: usize = 65;

/// Bytes that authenticated encryption adds to its plaintext.
pub const SIV_OVERHEAD: usize = 16;

/// Bytes of an encrypted seed on the wire: a seed plus the cipher's overhead.
pub const ENCRYPTED_SEED_SIZE: usize = SEED_KEY_SIZE + SIV_OVERHEAD;

/// Derivation label of the seed-exchange keypair.
pub const CONSENSUS_SEED_EXCHANGE_KEYPAIR_DERIVE_ORDER: u32 = 1;

/// Derivation label of the I/O exchange keypair.
pub const CONSENSUS_IO_EXCHANGE_KEYPAIR_DERIVE_ORDER: u32 = 2;

/// Derivation label of the state input-keying-material.
pub const CONSENSUS_STATE_IKM_DERIVE_ORDER: u32 = 3;

/// A 32-byte symmetric secret. It has no printed form, so that it cannot end
/// up in a log.
#[derive(Clone, Copy)]
pub struct Seed {
    bytes: [u8; 32],
}

impl Seed {
    /// The bytes of the secret.
    pub closed spec fn bytes(&self) -> [u8; 32] {
        self.bytes
    }

    /// The seed made of `bytes`.
    pub fn new_from_slice(bytes: &[u8; 32]) -> (r: Seed)
        ensures
            r.bytes() == *bytes,
    {
        Seed { bytes: *bytes }
    }

    /// The bytes of the secret.
    pub fn get(&self) -> (r: &[u8; 32])
        ensures
            *r == self.bytes(),
    {
        &self.bytes
    }

    /// Seeds of the same bytes are the same seed.
    pub proof fn lemma_same_bytes(a: Seed, b: Seed)
        requires
            a.bytes() == b.bytes(),
        ensures
            a == b,
    {
    }
}

/// A key-exchange keypair: the private key and the public key that belongs
/// to it. The library carries both and never computes one from the other.
#[derive(Clone, Copy)]
pub struct KeyPair {
    secret_key: [u8; 32],
    public_key: [u8; 65],
}

impl KeyPair {
    /// The private key.
    pub closed spec fn secret(&self) -> [u8; 32] {
        self.secret_key
    }

    /// The public key.
    pub closed spec fn public(&self) -> [u8; 65] {
        self.public_key
    }

    /// The keypair of `secret_key` and `public_key`.
    pub fn new_from_parts(secret_key: &[u8; 32], public_key: &[u8; 65]) -> (r: KeyPair)
        ensures
            r.secret() == *secret_key,
            r.public() == *public_key,
    {
        KeyPair { secret_key: *secret_key, public_key: *public_key }
    }

    /// The private key.
    pub fn get_privkey(&self) -> (r: &[u8; 32])
        ensures
            *r == self.secret(),
    {
        &self.secret_key
    }

    /// The public key.
    pub fn get_pubkey(&self) -> (r: [u8; 65])
        ensures
            r == self.public(),
    {
        self.public_key
    }
}

/// The keys that are derived from the root seed.
#[derive(Clone, Copy, Debug, PartialEq, Eq, Structural)]
pub enum MasterKey {
    SeedExchangeKeypair,
    IoExchangeKeypair,
    StateIkm,
}

/// The label under which `key` is derived from the seed.
pub open spec fn derive_order_of(key: MasterKey) -> u32 {
    match key {
        MasterKey::SeedExchangeKeypair => CONSENSUS_SEED_EXCHANGE_KEYPAIR_DERIVE_ORDER,
        MasterKey::IoExchangeKeypair => CONSENSUS_IO_EXCHANGE_KEYPAIR_DERIVE_ORDER,
        MasterKey::StateIkm => CONSENSUS_STATE_IKM_DERIVE_ORDER,
    }
}

/// The label under which `key` is derived from the seed.
pub fn derive_order(key: MasterKey) -> (r: u32)
    ensures
        r == derive_order_of(key),
{
    match key {
        MasterKey::SeedExchangeKeypair => CONSENSUS_SEED_EXCHANGE_KEYPAIR_DERIVE_ORDER,
        MasterKey::IoExchangeKeypair => CONSENSUS_IO_EXCHANGE_KEYPAIR_DERIVE_ORDER,
        MasterKey::StateIkm => CONSENSUS_STATE_IKM_DERIVE_ORDER,
    }
}

/// Bytes of a signature made with a key.
pub const HMAC_SIGNATURE_SIZE: usize = 32;

/// The label of `key` as the bytes that are handed to the derivation: the
/// label's four bytes, most significant first.
pub open spec fn derive_label_of(key: MasterKey) -> Seq<u8> {
    seq![0u8, 0u8, 0u8, derive_order_of(key) as u8]
}

/// The label of `key` as the bytes that are handed to the derivation.
pub fn derive_label(key: MasterKey) -> (r: [u8; 4])
    ensures
        r@ == derive_label_of(key),
{
    let r: [u8; 4] = [0, 0, 0, derive_order(key) as u8];
    assert(r@ =~= derive_label_of(key));
    r
}

/// A key from which further keys are derived.
///
/// An implementation that is verified says what it derives: it gives
/// `derived` and lets `obeys_derived` hold. Derivation is then a function of
/// the key and the data alone, so the same key and data give the same key
/// again. Of an implementation that says nothing, nothing is claimed.
pub trait Kdf: Sized {
    /// Whether `derived` says what `derive_key_from_this` returns.
    open spec fn obeys_derived() -> bool {
        false
    }

    /// The key that is derived from this one under `data`.
    open spec fn derived(&self, data: Seq<u8>) -> Self {
        *self
    }

    /// Derives a key from this one under `data`.
    fn derive_key_from_this(&self, data: &[u8]) -> (r: Self)
        ensures
            Self::obeys_derived() ==> r == self.derived(data@),
    ;
}

/// A key that signs.
pub trait Hmac {
    /// The signature of `to_sign` under this key.
    fn sign_sha_256(&self, to_sign: &[u8]) -> [u8; HMAC_SIGNATURE_SIZE];
}

/// The three keys derived from a root seed, before two of them are made
/// into keypairs.
pub struct MasterSeeds<K> {
    pub seed_exchange_keypair: K,
    pub io_exchange_keypair: K,
    pub state_ikm: K,
}

/// Derives the three master keys from `seed`, each under its own label.
pub fn derive_master_seeds<K: Kdf>(seed: &K) -> (r: MasterSeeds<K>)
    ensures
        K::obeys_derived() ==> r.seed_exchange_keypair == seed.derived(
            derive_label_of(MasterKey::SeedExchangeKeypair),
        ),
        K::obeys_derived() ==> r.io_exchange_keypair == seed.derived(
            derive_label_of(MasterKey::IoExchangeKeypair),
        ),
        K::obeys_derived() ==> r.state_ikm == seed.derived(derive_label_of(MasterKey::StateIkm)),
{
    let seed_exchange_label = derive_label(MasterKey::SeedExchangeKeypair);
    let io_exchange_label = derive_label(MasterKey::IoExchangeKeypair);
    let state_ikm_label = derive_label(MasterKey::StateIkm);
    MasterSeeds {
        seed_exchange_keypair: seed.derive_key_from_this(seed_exchange_label.as_slice()),
        io_exchange_keypair: seed.derive_key_from_this(io_exchange_label.as_slice()),
        state_ikm: seed.derive_key_from_this(state_ikm_label.as_slice()),
    }
}

/// Different master keys are handed to the derivation under different bytes.
pub proof fn lemma_derive_labels_distinct(a: MasterKey, b: MasterKey)
    requires
        a != b,
    ensures
        derive_label_of(a) != derive_label_of(b),
{
    assert(derive_label_of(a)[3] != derive_label_of(b)[3]);
}

/// Different master keys are derived under different labels.
pub proof fn lemma_derive_orders_distinct(a: MasterKey, b: MasterKey)
    requires
        a != b,
    ensures
        derive_order_of(a) != derive_order_of(b),
{
}

/// What the derivation collaborator made of the root seed: for each master
/// key, the outcome of deriving it under its own label.
#[derive(Clone, Copy)]
pub struct MasterKeys {
    pub seed_exchange_keypair: Result<KeyPair, CryptoError>,
    pub io_exchange_keypair: Result<KeyPair, CryptoError>,
    pub state_ikm: Seed,
}

} // verus!
