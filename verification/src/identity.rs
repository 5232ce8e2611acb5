use vstd::prelude::*;
use crate::errors::BridgeError;

verus! {

/// Number of bytes in a persisted secret key.
pub const KEY_LEN: usize = 32;

/// The public identifier that the transport derives from 32 secret-key bytes.
/// The derivation is deterministic — the same bytes always give the same
/// identifier — but its definition belongs to the transport's key library.
pub uninterp spec fn public_id_of(key: Seq<u8>) -> Seq<char>;

/// Relies on `iroh_base::SecretKey::public` (reached through
/// `SecretKey::from_bytes`, which is infallible): the public key, printed as
/// lowercase hex, is a function of the 32 secret bytes alone.
#[verifier::external_body]
fn derive_public_id(key: &Vec<u8>) -> (r: String)
    requires
        key@.len() == 32,
    ensures
        r@ == public_id_of(key@),
{
    let bytes: [u8; 32] = key.as_slice().try_into().unwrap();
    let secret = iroh_base::SecretKey::from_bytes(&bytes);
    secret.public().to_string()
}

/// Relies on `rand::random`: draws 32 bytes from the thread-local
/// cryptographic generator. Nothing can be promised of the bytes themselves;
/// only the length is fixed.
#[verifier::external_body]
fn fresh_key_bytes() -> (r: Vec<u8>)
    ensures
        r@.len() == 32,
{
    let bytes: [u8; 32] = rand::random();
    bytes.to_vec()
}

/// A loaded (or freshly created) identity: the secret-key bytes, the public
/// identifier they derive, and whether the caller still has to persist them.
#[derive(Debug)]
pub struct LoadedIdentity {
    /// The 32 secret-key bytes, exactly what the key file holds or must hold.
    pub key: Vec<u8>,
    /// The public identifier derived from `key`.
    pub node_id: String,
    /// True exactly when the key is new: the caller must then create the data
    /// directory and write `key` to the key file before using the identity.
    pub persist: bool,
}

impl LoadedIdentity {
    /// Well-formedness: the key has its fixed length and the identifier is
    /// the one the key derives.
    pub open spec fn wf(&self) -> bool {
        &&& self.key@.len() == 32
        &&& self.node_id@ == public_id_of(self.key@)
    }
}

/// Identity Store: decide what identity the bridge runs with.
///
/// `existing` is `Some` of the key file's contents when the file is present,
/// `None` when it is absent. A present file must hold exactly 32 bytes; any
/// other length fails with `CorruptIdentity` and asks for no write, so
/// material a peer may have pinned is never overwritten. An absent file
/// yields a fresh random key that the caller must persist.
pub fn load_or_create(existing: Option<Vec<u8>>) -> (r: Result<LoadedIdentity, BridgeError>)
    ensures
        r is Ok ==> r->Ok_0.wf(),
        match existing {
            Some(contents) => {
                &&& (r is Ok <==> contents@.len() == 32)
                &&& (r is Ok ==> r->Ok_0.key@ == contents@ && !r->Ok_0.persist)
                &&& (r is Err ==> r->Err_0 == BridgeError::CorruptIdentity)
            },
            None => r is Ok && r->Ok_0.persist,
        },
{
    match existing {
        Some(contents) => {
            if contents.len() == KEY_LEN {
                let node_id = derive_public_id(&contents);
                Ok(LoadedIdentity { key: contents, node_id, persist: false })
            } else {
                Err(BridgeError::CorruptIdentity)
            }
        }
        None => {
            let key = fresh_key_bytes();
            let node_id = derive_public_id(&key);
            Ok(LoadedIdentity { key, node_id, persist: true })
        }
    }
}

/// Law: loading the same valid key file twice derives the same public
/// identifier. `load_or_create` pins each loaded key to the file's contents,
/// so two keys loaded from one file are equal, and the identifier is a
/// function of the key bytes alone.
pub proof fn lemma_load_idempotent(contents: Seq<u8>, key1: Seq<u8>, key2: Seq<u8>)
    requires
        contents.len() == 32,
        key1 == contents,
        key2 == contents,
    ensures
        public_id_of(key1) == public_id_of(key2),
{
}

} // verus!
