//! The seed-exchange protocol: how a node that holds the root seed hands it
//! to a node that does not, encrypted under a key both sides agree on.
//!
//! The key agreement and the authenticated cipher are collaborators. Each
//! side of the protocol is a function from what has happened so far to what
//! is to be done next: it says which agreement to run and what to put
//! through the cipher, and it judges what the cipher returned.

use vstd::prelude::*;
use vstd::slice::slice_to_vec;
use crate::errors::CryptoError;
use crate::errors::ExchangeError;
use crate::key_manager::Keychain;
use crate::key_manager::KeychainView;
use crate::keys::ENCRYPTED_SEED_SIZE;
use crate::keys::SEED_KEY_SIZE;

verus! {

/// A key agreement to run: the local private key and the peer's public key.
#[derive(Clone, Copy)]
pub struct KeyAgreement {
    pub secret_key: [u8; 32],
    pub public_key: [u8; 65],
}

/// One run of the authenticated cipher: the key, the text to encrypt or
/// decrypt, and the data that is authenticated with it.
pub struct SivInput {
    pub key: [u8; 32],
    pub text: Vec<u8>,
    pub authenticated_data: Vec<Vec<u8>>,
}

/// A cipher run as sequences.
pub ghost struct SivInputView {
    pub key: Seq<u8>,
    pub text: Seq<u8>,
    pub authenticated_data: Seq<Seq<u8>>,
}

impl View for SivInput {
    type V = SivInputView;

    open spec fn view(&self) -> SivInputView {
        SivInputView {
            key: self.key@,
            text: self.text@,
            authenticated_data: Seq::new(
                self.authenticated_data@.len(),
                |i: int| self.authenticated_data@[i]@,
            ),
        }
    }
}

/// What has happened so far in an exchange.
pub enum ExchangeEvent {
    /// Nothing yet.
    Start,
    /// The key agreement was run and gave this.
    SharedKey(Result<[u8; 32], CryptoError>),
    /// The cipher was run and gave this.
    Ciphered(Result<Vec<u8>, CryptoError>),
}

/// What is to be done next in an exchange.
pub enum ExchangeStep {
    /// Run this key agreement and come back with the shared key.
    Agree(KeyAgreement),
    /// Run the cipher on this and come back with its output.
    Cipher(SivInput),
    /// The exchange is over.
    Done(Result<Vec<u8>, ExchangeError>),
}

/// The cipher run by which the holder encrypts its seed for the requester
/// whose public key is `new_node_pk`: the seed is the text, and the
/// requester's public key alone is the authenticated data.
pub open spec fn encryption_of(keychain: KeychainView, new_node_pk: [u8; 65], shared: [u8; 32])
    -> SivInputView {
    SivInputView {
        key: shared@,
        text: keychain.consensus_seed.unwrap().bytes()@,
        authenticated_data: seq![new_node_pk@],
    }
}

/// The cipher run by which the requester decrypts `encrypted_seed`: the
/// requester's own public key alone is the authenticated data.
pub open spec fn decryption_of(keychain: KeychainView, encrypted_seed: [u8; 48], shared: [u8; 32])
    -> SivInputView {
    SivInputView {
        key: shared@,
        text: encrypted_seed@,
        authenticated_data: seq![keychain.registration_key.unwrap().public()@],
    }
}

/// The end of an exchange whose cipher returned `ciphered`: the output is
/// passed on only if the cipher succeeded and gave exactly `expected` bytes.
pub open spec fn judged(ciphered: Result<Vec<u8>, CryptoError>, expected: nat) -> ExchangeStep {
    match ciphered {
        Ok(bytes) => if bytes@.len() == expected {
            ExchangeStep::Done(Ok(bytes))
        } else {
            ExchangeStep::Done(Err(ExchangeError::Unexpected))
        },
        Err(_) => ExchangeStep::Done(Err(ExchangeError::Unexpected)),
    }
}

/// A copy of `bytes` on the heap.
fn vec_of(bytes: &[u8]) -> (r: Vec<u8>)
    ensures
        r@ == bytes@,
{
    slice_to_vec(bytes)
}

/// Judges what the cipher returned against the length that is expected.
pub fn judge(ciphered: Result<Vec<u8>, CryptoError>, expected: usize) -> (r: ExchangeStep)
    ensures
        r == judged(ciphered, expected as nat),
{
    match ciphered {
        Ok(bytes) => {
            if bytes.len() == expected {
                ExchangeStep::Done(Ok(bytes))
            } else {
                ExchangeStep::Done(Err(ExchangeError::Unexpected))
            }
        },
        Err(_) => ExchangeStep::Done(Err(ExchangeError::Unexpected)),
    }
}

/// The holder's side: encrypts the root seed for the node whose public key is
/// `new_node_pk`.
///
/// At the start, the agreement between the holder's seed-exchange private key
/// and `new_node_pk` is asked for. Given the shared key, the cipher is asked
/// to encrypt the seed with `new_node_pk` as the authenticated data. Given
/// the ciphertext, it is returned if it has the length of an encrypted seed.
/// Every failure ends the exchange as unexpected, without saying which step
/// failed. A keychain that lacks the seed or the seed-exchange keypair hands
/// nothing out, whatever it is told has happened.
pub fn encrypt_seed(key_manager: &Keychain, new_node_pk: [u8; 65], event: ExchangeEvent) -> (r:
    ExchangeStep)
    ensures
        !key_manager@.can_hand_out_seed() ==> r == ExchangeStep::Done(
            Err(ExchangeError::Unexpected),
        ),
        key_manager@.can_hand_out_seed() ==> match event {
            ExchangeEvent::Start => r matches ExchangeStep::Agree(a) && a.secret_key
                == key_manager@.consensus_seed_exchange_keypair.unwrap().secret() && a.public_key
                == new_node_pk,
            ExchangeEvent::SharedKey(Ok(shared)) => r matches ExchangeStep::Cipher(c) && c@
                == encryption_of(key_manager@, new_node_pk, shared),
            ExchangeEvent::SharedKey(Err(_)) => r == ExchangeStep::Done(
                Err(ExchangeError::Unexpected),
            ),
            ExchangeEvent::Ciphered(ciphered) => r == judged(ciphered, ENCRYPTED_SEED_SIZE as nat),
        },
{
    let keypair = match key_manager.seed_exchange_key() {
        Ok(k) => k,
        Err(_) => {
            return ExchangeStep::Done(Err(ExchangeError::Unexpected));
        },
    };
    let seed = match key_manager.get_consensus_seed() {
        Ok(s) => s,
        Err(_) => {
            return ExchangeStep::Done(Err(ExchangeError::Unexpected));
        },
    };
    match event {
        ExchangeEvent::Start => ExchangeStep::Agree(
            KeyAgreement { secret_key: *keypair.get_privkey(), public_key: new_node_pk },
        ),
        ExchangeEvent::SharedKey(Err(_)) => ExchangeStep::Done(Err(ExchangeError::Unexpected)),
        ExchangeEvent::SharedKey(Ok(shared)) => {
            let mut authenticated_data: Vec<Vec<u8>> = Vec::new();
            authenticated_data.push(vec_of(new_node_pk.as_slice()));
            let input = SivInput {
                key: shared,
                text: vec_of(seed.get().as_slice()),
                authenticated_data,
            };
            assert(input@.authenticated_data =~= seq![new_node_pk@]);
            ExchangeStep::Cipher(input)
        },
        ExchangeEvent::Ciphered(ciphered) => judge(ciphered, ENCRYPTED_SEED_SIZE),
    }
}

/// The requester's side: decrypts the seed that the holder whose public key
/// is `master_pk` encrypted for this node.
///
/// At the start, the agreement between this node's registration private key
/// and `master_pk` is asked for. Given the shared key, the cipher is asked to
/// decrypt `encrypted_seed` with this node's own public key as the
/// authenticated data. Given the plaintext, it is returned if it has the
/// length of a seed. Every failure ends the exchange as unexpected. A
/// keychain without a registration key hands nothing out, whatever it is
/// told has happened.
pub fn decrypt_seed(
    key_manager: &Keychain,
    master_pk: [u8; 65],
    encrypted_seed: [u8; 48],
    event: ExchangeEvent,
) -> (r: ExchangeStep)
    ensures
        key_manager@.registration_key is None ==> r == ExchangeStep::Done(
            Err(ExchangeError::Unexpected),
        ),
        key_manager@.registration_key is Some ==> match event {
            ExchangeEvent::Start => r matches ExchangeStep::Agree(a) && a.secret_key
                == key_manager@.registration_key.unwrap().secret() && a.public_key == master_pk,
            ExchangeEvent::SharedKey(Ok(shared)) => r matches ExchangeStep::Cipher(c) && c@
                == decryption_of(key_manager@, encrypted_seed, shared),
            ExchangeEvent::SharedKey(Err(_)) => r == ExchangeStep::Done(
                Err(ExchangeError::Unexpected),
            ),
            ExchangeEvent::Ciphered(ciphered) => r == judged(ciphered, SEED_KEY_SIZE as nat),
        },
{
    let keypair = match key_manager.get_registration_key() {
        Ok(k) => k,
        Err(_) => {
            return ExchangeStep::Done(Err(ExchangeError::Unexpected));
        },
    };
    match event {
        ExchangeEvent::Start => ExchangeStep::Agree(
            KeyAgreement { secret_key: *keypair.get_privkey(), public_key: master_pk },
        ),
        ExchangeEvent::SharedKey(Err(_)) => ExchangeStep::Done(Err(ExchangeError::Unexpected)),
        ExchangeEvent::SharedKey(Ok(shared)) => {
            let my_public_key = keypair.get_pubkey();
            let mut authenticated_data: Vec<Vec<u8>> = Vec::new();
            authenticated_data.push(vec_of(my_public_key.as_slice()));
            let input = SivInput {
                key: shared,
                text: vec_of(encrypted_seed.as_slice()),
                authenticated_data,
            };
            assert(input@.authenticated_data =~= seq![my_public_key@]);
            ExchangeStep::Cipher(input)
        },
        ExchangeEvent::Ciphered(ciphered) => judge(ciphered, SEED_KEY_SIZE),
    }
}

/// When the holder encrypts for the public key that the requester holds and
/// both agreements give the same key, the requester decrypts under the very
/// key and authenticated data that the holder encrypted under.
pub proof fn lemma_matched_pair_agrees(
    holder: KeychainView,
    requester: KeychainView,
    new_node_pk: [u8; 65],
    encrypted_seed: [u8; 48],
    shared: [u8; 32],
)
    requires
        holder.consensus_seed is Some,
        requester.registration_key is Some,
        requester.registration_key.unwrap().public() == new_node_pk,
    ensures
        decryption_of(requester, encrypted_seed, shared).key == encryption_of(
            holder,
            new_node_pk,
            shared,
        ).key,
        decryption_of(requester, encrypted_seed, shared).authenticated_data == encryption_of(
            holder,
            new_node_pk,
            shared,
        ).authenticated_data,
{
}

/// When the holder encrypted for another public key than the requester's
/// own, the requester decrypts under other authenticated data than the
/// holder encrypted under.
pub proof fn lemma_other_requester_differs(
    holder: KeychainView,
    requester: KeychainView,
    new_node_pk: [u8; 65],
    encrypted_seed: [u8; 48],
    shared: [u8; 32],
)
    requires
        holder.consensus_seed is Some,
        requester.registration_key is Some,
        requester.registration_key.unwrap().public() != new_node_pk,
    ensures
        decryption_of(requester, encrypted_seed, shared).authenticated_data != encryption_of(
            holder,
            new_node_pk,
            shared,
        ).authenticated_data,
{
    let mine = requester.registration_key.unwrap().public();
    if mine@ == new_node_pk@ {
        assert(mine =~= new_node_pk);
    }
    assert(seq![mine@][0] == mine@);
    assert(seq![new_node_pk@][0] == new_node_pk@);
}

/// With a cipher whose decryption undoes its encryption under the same key
/// and authenticated data, the seed round-trips: what the holder encrypted
/// for the requester's own public key, the requester decrypts to the holder's
/// seed.
pub proof fn lemma_seed_round_trips(
    holder: KeychainView,
    requester: KeychainView,
    encrypted_seed: [u8; 48],
    shared: [u8; 32],
    encrypt: spec_fn(SivInputView) -> Result<Seq<u8>, CryptoError>,
    decrypt: spec_fn(SivInputView) -> Result<Seq<u8>, CryptoError>,
)
    requires
        holder.consensus_seed is Some,
        requester.registration_key is Some,
        forall|key: Seq<u8>, text: Seq<u8>, ad: Seq<Seq<u8>>|
            #![trigger encrypt(SivInputView { key, text, authenticated_data: ad })]
            encrypt(SivInputView { key, text, authenticated_data: ad }) matches Ok(c) ==> decrypt(
                SivInputView { key, text: c, authenticated_data: ad },
            ) == Ok::<Seq<u8>, CryptoError>(text),
        encrypt(
            encryption_of(holder, requester.registration_key.unwrap().public(), shared),
        ) == Ok::<Seq<u8>, CryptoError>(encrypted_seed@),
    ensures
        decrypt(decryption_of(requester, encrypted_seed, shared)) == Ok::<Seq<u8>, CryptoError>(
            holder.consensus_seed.unwrap().bytes()@,
        ),
{
    let sent = encryption_of(holder, requester.registration_key.unwrap().public(), shared);
    let received = decryption_of(requester, encrypted_seed, shared);
    assert(received == SivInputView {
        key: sent.key,
        text: encrypted_seed@,
        authenticated_data: sent.authenticated_data,
    });
}

/// With a cipher whose decryption refuses other authenticated data than
/// encryption was given, a seed encrypted for another public key than the
/// requester's own is refused.
pub proof fn lemma_seed_for_other_refused(
    holder: KeychainView,
    requester: KeychainView,
    new_node_pk: [u8; 65],
    encrypted_seed: [u8; 48],
    shared: [u8; 32],
    encrypt: spec_fn(SivInputView) -> Result<Seq<u8>, CryptoError>,
    decrypt: spec_fn(SivInputView) -> Result<Seq<u8>, CryptoError>,
)
    requires
        holder.consensus_seed is Some,
        requester.registration_key is Some,
        requester.registration_key.unwrap().public() != new_node_pk,
        forall|key: Seq<u8>, text: Seq<u8>, ad: Seq<Seq<u8>>, other: Seq<Seq<u8>>|
            #![trigger encrypt(SivInputView { key, text, authenticated_data: ad }), decrypt(SivInputView { key, text: encrypted_seed@, authenticated_data: other })]
            encrypt(SivInputView { key, text, authenticated_data: ad }) == Ok::<
                Seq<u8>,
                CryptoError,
            >(encrypted_seed@) && other != ad ==> decrypt(
                SivInputView { key, text: encrypted_seed@, authenticated_data: other },
            ) is Err,
        encrypt(encryption_of(holder, new_node_pk, shared)) == Ok::<Seq<u8>, CryptoError>(
            encrypted_seed@,
        ),
    ensures
        decrypt(decryption_of(requester, encrypted_seed, shared)) is Err,
{
    lemma_other_requester_differs(holder, requester, new_node_pk, encrypted_seed, shared);
    let sent = encryption_of(holder, new_node_pk, shared);
    let received = decryption_of(requester, encrypted_seed, shared);
    assert(sent == SivInputView {
        key: shared@,
        text: sent.text,
        authenticated_data: sent.authenticated_data,
    });
    assert(received == SivInputView {
        key: shared@,
        text: encrypted_seed@,
        authenticated_data: received.authenticated_data,
    });
}

/// An exchange never ends with bytes of another length than the one asked
/// for.
pub proof fn lemma_judged_length(ciphered: Result<Vec<u8>, CryptoError>, expected: nat)
    ensures
        judged(ciphered, expected) matches ExchangeStep::Done(end),
        judged(ciphered, expected) matches ExchangeStep::Done(Ok(bytes)) ==> bytes@.len()
            == expected,
{
}

} // verus!
