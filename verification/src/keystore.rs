//! The keystore's identifier bookkeeping.
//!
//! A keystore maps string identifiers to secrets: root seeds, seeds derived
//! from them, and keypairs.  The cryptography itself — random seed material,
//! the key-derivation function, signing — is the external DPKI oracle's
//! work; what is verified here is the ledger around it: which identifiers
//! exist, which secret kind each names, and exactly when each operation is
//! refused.

use vstd::prelude::*;

use crate::error::{HcResult, HolochainError};

verus! {

/// Root seed material, as handed in by the seed oracle.
#[derive(Debug)]
pub struct Seed {
    pub bytes: Vec<u8>,
}

/// The mathematical content of a [`Seed`].
pub struct SeedModel {
    pub bytes: Seq<u8>,
}

impl View for Seed {
    type V = SeedModel;

    open spec fn view(&self) -> SeedModel {
        SeedModel { bytes: self.bytes@ }
    }
}

/// The derivation path of a seed derived from a root seed: the
/// application context and the index handed to the key-derivation oracle.
#[derive(Debug)]
pub struct IndexedSeed {
    pub context: SeedContext,
    pub index: u64,
}

/// The mathematical content of an [`IndexedSeed`].
pub struct IndexedSeedModel {
    pub context: Seq<u8>,
    pub index: u64,
}

impl View for IndexedSeed {
    type V = IndexedSeedModel;

    open spec fn view(&self) -> IndexedSeedModel {
        IndexedSeedModel { context: self.context@, index: self.index }
    }
}

/// An eight-byte derivation context.
#[derive(Debug)]
pub struct SeedContext {
    pub data: [u8; 8],
}

impl View for SeedContext {
    type V = Seq<u8>;

    open spec fn view(&self) -> Seq<u8> {
        self.data@
    }
}

impl SeedContext {
    /// Wraps eight context bytes.
    pub fn new(data: [u8; 8]) -> (r: SeedContext)
        ensures
            r@ == data@,
    {
        SeedContext { data }
    }
}

/// A keypair, of which the ledger records the public half; the private
/// half lives with the signing oracle.
#[derive(Debug)]
pub struct KeyBundle {
    pub public_key: String,
}

/// The mathematical content of a [`KeyBundle`].
pub struct KeyBundleModel {
    pub public_key: Seq<char>,
}

impl View for KeyBundle {
    type V = KeyBundleModel;

    open spec fn view(&self) -> KeyBundleModel {
        KeyBundleModel { public_key: self.public_key@ }
    }
}

impl Clone for KeyBundle {
    fn clone(&self) -> (r: Self)
        ensures
            r == *self,
    {
        KeyBundle { public_key: self.public_key.clone() }
    }
}

/// One secret of the keystore.
#[derive(Debug)]
pub enum Secret {
    /// A keypair that can sign.
    Key(KeyBundle),
    /// A root seed that other secrets derive from.
    RootSeed(Seed),
    /// A seed derived from a root seed, recorded by its derivation path.
    IndexedSeed(IndexedSeed),
}

/// The mathematical content of a [`Secret`].
pub enum SecretModel {
    Key(KeyBundleModel),
    RootSeed(SeedModel),
    IndexedSeed(IndexedSeedModel),
}

impl View for Secret {
    type V = SecretModel;

    open spec fn view(&self) -> SecretModel {
        match self {
            Secret::Key(bundle) => SecretModel::Key(bundle@),
            Secret::RootSeed(seed) => SecretModel::RootSeed(seed@),
            Secret::IndexedSeed(seed) => SecretModel::IndexedSeed(seed@),
        }
    }
}

/// The mathematical content of a [`Keystore`]: the identifier ledger, in
/// insertion order.
pub type KeystoreModel = Seq<(Seq<char>, SecretModel)>;

/// Whether the ledger holds the identifier.
pub open spec fn keystore_has(m: KeystoreModel, id: Seq<char>) -> bool {
    exists|i: int| 0 <= i < m.len() && m[i].0 == id
}

/// The first secret recorded under the identifier.
pub open spec fn keystore_lookup(m: KeystoreModel, id: Seq<char>) -> SecretModel
    decreases m.len(),
{
    if m.len() == 0 {
        SecretModel::RootSeed(SeedModel { bytes: Seq::empty() })
    } else if m[0].0 == id {
        m[0].1
    } else {
        keystore_lookup(m.subrange(1, m.len() as int), id)
    }
}

/// A keystore: secrets by identifier, in insertion order.  Every adding
/// operation refuses an identifier that already exists, so each identifier
/// occurs once.
#[derive(Debug)]
pub struct Keystore {
    keys: Vec<(String, Secret)>,
}

impl View for Keystore {
    type V = KeystoreModel;

    closed spec fn view(&self) -> KeystoreModel {
        Seq::new(self.keys@.len(), |i: int| (self.keys@[i].0@, self.keys@[i].1@))
    }
}

impl Keystore {
    /// An empty keystore.
    pub fn new() -> (r: Keystore)
        ensures
            r@ == Seq::<(Seq<char>, SecretModel)>::empty(),
    {
        let r = Keystore { keys: Vec::new() };
        proof {
            assert(r@ =~= Seq::<(Seq<char>, SecretModel)>::empty());
        }
        r
    }

    /// The identifiers stored in the keystore, in insertion order.
    pub fn list(&self) -> (r: Vec<String>)
        ensures
            r.deep_view() == Seq::new(self@.len(), |i: int| self@[i].0),
    {
        let mut out: Vec<String> = Vec::new();
        let n = self.keys.len();
        let mut i: usize = 0;
        while i < n
            invariant
                n == self.keys.len(),
                self@.len() == n,
                i <= n,
                out@.len() == i,
                forall|j: int| 0 <= j < i ==> (#[trigger] out@[j])@ == self@[j].0,
            decreases n - i,
        {
            out.push(self.keys[i].0.clone());
            proof {
                assert(self@[i as int].0 == self.keys@[i as int].0@);
            }
            i = i + 1;
        }
        proof {
            assert(out.deep_view() =~= Seq::new(self@.len(), |i: int| self@[i].0));
        }
        out
    }

    /// Whether the keystore holds the identifier.
    fn contains_id(&self, id: &String) -> (r: bool)
        ensures
            r == keystore_has(self@, id@),
    {
        let n = self.keys.len();
        let mut i: usize = 0;
        while i < n
            invariant
                n == self.keys.len(),
                self@.len() == n,
                i <= n,
                forall|j: int| 0 <= j < i ==> #[trigger] self@[j].0 != id@,
            decreases n - i,
        {
            proof {
                assert(self@[i as int].0 == self.keys@[i as int].0@);
            }
            if self.keys[i].0 == *id {
                return true;
            }
            i = i + 1;
        }
        false
    }

    /// Checks that a destination identifier is free; an occupied one is the
    /// "identifier already exists" error.
    fn check_dst_identifier(&self, dst_id_str: &str) -> (r: HcResult<String>)
        ensures
            match r {
                Ok(id) => !keystore_has(self@, dst_id_str@) && id@ == dst_id_str@,
                Err(e) => keystore_has(self@, dst_id_str@) && (e
                    matches HolochainError::ErrorGeneric(msg) && msg@
                    == "identifier already exists"@),
            },
    {
        let dst_id = String::from_str(dst_id_str);
        if self.contains_id(&dst_id) {
            return Err(HolochainError::ErrorGeneric(String::from_str(
                "identifier already exists",
            )));
        }
        Ok(dst_id)
    }

    /// Looks a source identifier up; a missing one is the "unknown source
    /// identifier" error.
    fn check_src_identifier(&self, src_id_str: &str) -> (r: HcResult<&Secret>)
        ensures
            match r {
                Ok(secret) => keystore_has(self@, src_id_str@) && secret@ == keystore_lookup(
                    self@,
                    src_id_str@,
                ),
                Err(e) => !keystore_has(self@, src_id_str@) && (e
                    matches HolochainError::ErrorGeneric(msg) && msg@
                    == "unknown source identifier"@),
            },
    {
        let src_id = String::from_str(src_id_str);
        let n = self.keys.len();
        let mut i: usize = 0;
        proof {
            assert(self@.subrange(0, n as int) =~= self@);
        }
        while i < n
            invariant
                n == self.keys.len(),
                self@.len() == n,
                i <= n,
                src_id@ == src_id_str@,
                forall|j: int| 0 <= j < i ==> #[trigger] self@[j].0 != src_id_str@,
                keystore_lookup(self@, src_id_str@) == keystore_lookup(
                    self@.subrange(i as int, n as int),
                    src_id_str@,
                ),
            decreases n - i,
        {
            proof {
                assert(self@[i as int] == (self.keys@[i as int].0@, self.keys@[i as int].1@));
            }
            if self.keys[i].0 == src_id {
                proof {
                    assert(self@.subrange(i as int, n as int)[0].0 == src_id_str@);
                }
                return Ok(&self.keys[i].1);
            }
            proof {
                assert(self@.subrange(i as int, n as int).subrange(1, (n - i) as int)
                    =~= self@.subrange(i + 1, n as int));
            }
            i = i + 1;
        }
        Err(HolochainError::ErrorGeneric(String::from_str("unknown source identifier")))
    }

    /// Adds a root seed under a fresh identifier.  The seed bytes come from
    /// the caller: generating random material is the seed oracle's work.
    pub fn add_root_seed(&mut self, id_str: &str, seed: Seed) -> (r: HcResult<()>)
        ensures
            match r {
                Ok(()) => !keystore_has(old(self)@, id_str@) && final(self)@ == old(self)@.push(
                    (id_str@, SecretModel::RootSeed(seed@)),
                ),
                Err(e) => keystore_has(old(self)@, id_str@) && final(self)@ == old(self)@ && (e
                    matches HolochainError::ErrorGeneric(msg) && msg@
                    == "identifier already exists"@),
            },
    {
        let id = match self.check_dst_identifier(id_str) {
            Ok(id) => id,
            Err(e) => {
                return Err(e);
            },
        };
        self.keys.push((id, Secret::RootSeed(seed)));
        proof {
            assert(self@ =~= old(self)@.push((id_str@, SecretModel::RootSeed(seed@))));
        }
        Ok(())
    }

    /// Adds a derived seed under a fresh identifier: the destination must be
    /// free, the source must exist and be a root seed.  The ledger records
    /// the derivation path; deriving the bytes is the key-derivation
    /// oracle's work.
    pub fn add_seed_from_seed(
        &mut self,
        src_id_str: &str,
        dst_id_str: &str,
        context: &SeedContext,
        index: u64,
    ) -> (r: HcResult<()>)
        ensures
            match r {
                Ok(()) => !keystore_has(old(self)@, dst_id_str@) && keystore_has(
                    old(self)@,
                    src_id_str@,
                ) && keystore_lookup(old(self)@, src_id_str@) is RootSeed && final(self)@ == old(
                    self,
                )@.push(
                    (
                        dst_id_str@,
                        SecretModel::IndexedSeed(IndexedSeedModel { context: context@, index }),
                    ),
                ),
                Err(e) => final(self)@ == old(self)@ && (e matches HolochainError::ErrorGeneric(
                    msg,
                ) && (if keystore_has(old(self)@, dst_id_str@) {
                    msg@ == "identifier already exists"@
                } else if !keystore_has(old(self)@, src_id_str@) {
                    msg@ == "unknown source identifier"@
                } else {
                    !(keystore_lookup(old(self)@, src_id_str@) is RootSeed) && msg@
                        == "source secret is not a root seed"@
                })),
            },
    {
        let dst_id = match self.check_dst_identifier(dst_id_str) {
            Ok(id) => id,
            Err(e) => {
                return Err(e);
            },
        };
        let is_root = match self.check_src_identifier(src_id_str) {
            Ok(secret) => match secret {
                Secret::RootSeed(_) => true,
                _ => false,
            },
            Err(e) => {
                return Err(e);
            },
        };
        if !is_root {
            return Err(HolochainError::ErrorGeneric(String::from_str(
                "source secret is not a root seed",
            )));
        }
        self.keys.push(
            (dst_id, Secret::IndexedSeed(IndexedSeed { context: SeedContext::new(context.data), index })),
        );
        proof {
            assert(self@ =~= old(self)@.push(
                (
                    dst_id_str@,
                    SecretModel::IndexedSeed(IndexedSeedModel { context: context@, index }),
                ),
            ));
        }
        Ok(())
    }

    /// Adds a keypair under a fresh identifier, derived from a seed already
    /// in the keystore: the destination must be free, the source must exist
    /// and be a seed of either kind.  The bundle's key material comes from
    /// the key-derivation oracle; the ledger records its public key, which
    /// is returned as on success.
    pub fn add_key_bundle(
        &mut self,
        src_id_str: &str,
        dst_id_str: &str,
        bundle: KeyBundle,
    ) -> (r: HcResult<String>)
        ensures
            match r {
                Ok(public_key) => !keystore_has(old(self)@, dst_id_str@) && keystore_has(
                    old(self)@,
                    src_id_str@,
                ) && !(keystore_lookup(old(self)@, src_id_str@) is Key) && public_key@
                    == bundle@.public_key && final(self)@ == old(self)@.push(
                    (dst_id_str@, SecretModel::Key(bundle@)),
                ),
                Err(e) => final(self)@ == old(self)@ && (e matches HolochainError::ErrorGeneric(
                    msg,
                ) && (if keystore_has(old(self)@, dst_id_str@) {
                    msg@ == "identifier already exists"@
                } else if !keystore_has(old(self)@, src_id_str@) {
                    msg@ == "unknown source identifier"@
                } else {
                    keystore_lookup(old(self)@, src_id_str@) is Key && msg@
                        == "source secret is not a seed"@
                })),
            },
    {
        let dst_id = match self.check_dst_identifier(dst_id_str) {
            Ok(id) => id,
            Err(e) => {
                return Err(e);
            },
        };
        let is_seed = match self.check_src_identifier(src_id_str) {
            Ok(secret) => match secret {
                Secret::RootSeed(_) => true,
                Secret::IndexedSeed(_) => true,
                Secret::Key(_) => false,
            },
            Err(e) => {
                return Err(e);
            },
        };
        if !is_seed {
            return Err(HolochainError::ErrorGeneric(String::from_str(
                "source secret is not a seed",
            )));
        }
        let public_key = bundle.public_key.clone();
        self.keys.push((dst_id, Secret::Key(bundle)));
        proof {
            assert(self@ =~= old(self)@.push((dst_id_str@, SecretModel::Key(bundle@))));
        }
        Ok(public_key)
    }

    /// Resolves the keypair an identifier names, for the signing oracle:
    /// a missing identifier is the "unknown source identifier" error, a
    /// secret of another kind the "source secret is not a key" error.
    pub fn signing_key_bundle(&self, src_id_str: &str) -> (r: HcResult<KeyBundle>)
        ensures
            match r {
                Ok(bundle) => keystore_has(self@, src_id_str@) && keystore_lookup(
                    self@,
                    src_id_str@,
                ) == SecretModel::Key(bundle@),
                Err(e) => (e matches HolochainError::ErrorGeneric(msg) && (if !keystore_has(
                    self@,
                    src_id_str@,
                ) {
                    msg@ == "unknown source identifier"@
                } else {
                    !(keystore_lookup(self@, src_id_str@) is Key) && msg@
                        == "source secret is not a key"@
                })),
            },
    {
        let secret = match self.check_src_identifier(src_id_str) {
            Ok(secret) => secret,
            Err(e) => {
                return Err(e);
            },
        };
        match secret {
            Secret::Key(bundle) => Ok(bundle.clone()),
            _ => Err(HolochainError::ErrorGeneric(String::from_str(
                "source secret is not a key",
            ))),
        }
    }
}

} // verus!
