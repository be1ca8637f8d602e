//! The DNA: the versioned definition of the zomes and functions an instance
//! executes.
//!
//! The model records what call validation and publishability checks read:
//! zome names, their function names, their wasm code, and which app entry
//! types are shared publicly.

use vstd::prelude::*;

verus! {

/// A zome's wasm module.
#[derive(Debug, PartialEq, Eq)]
pub struct DnaWasm {
    pub code: Vec<u8>,
}

impl View for DnaWasm {
    type V = Seq<u8>;

    open spec fn view(&self) -> Seq<u8> {
        self.code@
    }
}

impl DeepView for DnaWasm {
    type V = Seq<u8>;

    open spec fn deep_view(&self) -> Seq<u8> {
        self@
    }
}

impl Clone for DnaWasm {
    fn clone(&self) -> (r: Self)
        ensures
            r@ == self@,
    {
        let mut code: Vec<u8> = Vec::new();
        let n = self.code.len();
        let mut i: usize = 0;
        while i < n
            invariant
                n == self.code.len(),
                i <= n,
                code@ == self.code@.take(i as int),
            decreases n - i,
        {
            code.push(self.code[i]);
            proof {
                assert(code@ =~= self.code@.take(i + 1));
            }
            i = i + 1;
        }
        proof {
            assert(self.code@.take(n as int) =~= self.code@);
        }
        DnaWasm { code }
    }
}

/// The mathematical content of a [`Zome`].
pub struct ZomeModel {
    pub name: Seq<char>,
    pub code: Seq<u8>,
    pub functions: Seq<Seq<char>>,
}

/// A named unit of sandboxed application logic within a DNA.
#[derive(Debug)]
pub struct Zome {
    pub name: String,
    pub code: DnaWasm,
    pub functions: Vec<String>,
}

impl View for Zome {
    type V = ZomeModel;

    open spec fn view(&self) -> ZomeModel {
        ZomeModel { name: self.name@, code: self.code@, functions: self.functions.deep_view() }
    }
}

impl DeepView for Zome {
    type V = ZomeModel;

    open spec fn deep_view(&self) -> ZomeModel {
        self@
    }
}

/// Whether a zome defines the named function.
pub open spec fn zome_has_function(z: ZomeModel, fn_name: Seq<char>) -> bool {
    exists|i: int| 0 <= i < z.functions.len() && z.functions[i] == fn_name
}

impl Zome {
    /// Whether the zome defines the named function.
    pub fn has_function(&self, fn_name: &String) -> (r: bool)
        ensures
            r == zome_has_function(self@, fn_name@),
    {
        let n = self.functions.len();
        let mut i: usize = 0;
        while i < n
            invariant
                n == self.functions.len(),
                i <= n,
                forall|j: int| 0 <= j < i ==> self@.functions[j] != fn_name@,
            decreases n - i,
        {
            if self.functions[i] == *fn_name {
                assert(self@.functions[i as int] == fn_name@);
                return true;
            }
            i = i + 1;
        }
        false
    }
}

/// Whether the zome list holds a zome of the given name.
pub open spec fn zome_seq_has(zs: Seq<ZomeModel>, zome_name: Seq<char>) -> bool {
    exists|i: int| 0 <= i < zs.len() && zs[i].name == zome_name
}

/// The first zome of the given name in the list.
pub open spec fn zome_seq_lookup(zs: Seq<ZomeModel>, zome_name: Seq<char>) -> ZomeModel
    decreases zs.len(),
{
    if zs.len() == 0 {
        ZomeModel { name: zome_name, code: Seq::empty(), functions: Seq::empty() }
    } else if zs[0].name == zome_name {
        zs[0]
    } else {
        zome_seq_lookup(zs.subrange(1, zs.len() as int), zome_name)
    }
}

/// The mathematical content of a [`Dna`].
pub struct DnaModel {
    pub name: Seq<char>,
    pub zomes: Seq<ZomeModel>,
    pub public_app_entry_types: Seq<Seq<char>>,
}

/// The definition an instance executes: named zomes and, for the
/// publishability check, the app entry types whose sharing is public.
#[derive(Debug)]
pub struct Dna {
    pub name: String,
    pub zomes: Vec<Zome>,
    pub public_app_entry_types: Vec<String>,
}

impl View for Dna {
    type V = DnaModel;

    open spec fn view(&self) -> DnaModel {
        DnaModel {
            name: self.name@,
            zomes: self.zomes.deep_view(),
            public_app_entry_types: self.public_app_entry_types.deep_view(),
        }
    }
}

/// Whether the DNA defines a zome of the given name.
pub open spec fn dna_has_zome(d: DnaModel, zome_name: Seq<char>) -> bool {
    zome_seq_has(d.zomes, zome_name)
}

/// The first zome of the given name.
pub open spec fn dna_zome(d: DnaModel, zome_name: Seq<char>) -> ZomeModel {
    zome_seq_lookup(d.zomes, zome_name)
}

/// Whether an app entry type is shared publicly.
pub open spec fn dna_app_entry_type_is_public(d: DnaModel, app_type: Seq<char>) -> bool {
    exists|i: int| 0 <= i < d.public_app_entry_types.len() && d.public_app_entry_types[i]
        == app_type
}

impl Dna {
    /// The first zome of the given name, if the DNA defines one.
    pub fn get_zome(&self, zome_name: &String) -> (r: Option<&Zome>)
        ensures
            match r {
                Some(zome) => dna_has_zome(self@, zome_name@) && zome@ == dna_zome(
                    self@,
                    zome_name@,
                ),
                None => !dna_has_zome(self@, zome_name@),
            },
    {
        let n = self.zomes.len();
        let mut i: usize = 0;
        proof {
            assert(self@.zomes.subrange(0, n as int) =~= self@.zomes);
        }
        while i < n
            invariant
                n == self.zomes.len(),
                i <= n,
                self@.zomes.len() == n,
                forall|j: int| 0 <= j < i ==> #[trigger] self@.zomes[j].name != zome_name@,
                zome_seq_lookup(self@.zomes, zome_name@) == zome_seq_lookup(
                    self@.zomes.subrange(i as int, n as int),
                    zome_name@,
                ),
            decreases n - i,
        {
            proof {
                assert(self@.zomes[i as int] == self.zomes@[i as int]@);
            }
            if self.zomes[i].name == *zome_name {
                proof {
                    assert(self@.zomes.subrange(i as int, n as int)[0].name == zome_name@);
                }
                return Some(&self.zomes[i]);
            }
            proof {
                assert(self@.zomes.subrange(i as int, n as int).subrange(
                    1,
                    (n - i) as int,
                ) =~= self@.zomes.subrange(i + 1, n as int));
            }
            i = i + 1;
        }
        None
    }

    /// Whether an app entry type is shared publicly.
    pub fn app_entry_type_is_public(&self, app_type: &String) -> (r: bool)
        ensures
            r == dna_app_entry_type_is_public(self@, app_type@),
    {
        let n = self.public_app_entry_types.len();
        let mut i: usize = 0;
        while i < n
            invariant
                n == self.public_app_entry_types.len(),
                i <= n,
                forall|j: int| 0 <= j < i ==> self@.public_app_entry_types[j] != app_type@,
            decreases n - i,
        {
            if self.public_app_entry_types[i] == *app_type {
                assert(self@.public_app_entry_types[i as int] == app_type@);
                return true;
            }
            i = i + 1;
        }
        false
    }
}

} // verus!
