//! The vaults that a session knows by name.

use vstd::prelude::*;

verus! {

/// A vault's name and the path of its file.
#[derive(Debug)]
pub struct RegisteredVault {
    pub name: String,
    pub path: String,
}

/// A vault's name and path as the contracts speak of them.
pub struct VaultEntry {
    pub name: Seq<char>,
    pub path: Seq<char>,
}

impl View for RegisteredVault {
    type V = VaultEntry;

    open spec fn view(&self) -> VaultEntry {
        VaultEntry { name: self.name@, path: self.path@ }
    }
}

#[derive(Debug)]
pub struct VaultRegistry {
    vaults: Vec<RegisteredVault>,
}

impl View for VaultRegistry {
    type V = Seq<VaultEntry>;

    closed spec fn view(&self) -> Seq<VaultEntry> {
        self.vaults@.map_values(|v: RegisteredVault| v@)
    }
}

/// The entry at `i` is the first one of that name.
pub open spec fn is_first_named(entries: Seq<VaultEntry>, name: Seq<char>, i: int) -> bool {
    &&& 0 <= i < entries.len()
    &&& entries[i].name == name
    &&& forall|j: int| 0 <= j < i ==> (#[trigger] entries[j]).name != name
}

/// Some entry has that name.
pub open spec fn is_registered(entries: Seq<VaultEntry>, name: Seq<char>) -> bool {
    exists|i: int| is_first_named(entries, name, i)
}

/// The path that is registered under a name.
pub open spec fn registered_path(entries: Seq<VaultEntry>, name: Seq<char>) -> Seq<char>
    recommends
        is_registered(entries, name),
{
    entries[choose|i: int| is_first_named(entries, name, i)].path
}

/// At most one entry is the first of a name.
proof fn lemma_first_named_unique(entries: Seq<VaultEntry>, name: Seq<char>, i: int, k: int)
    requires
        is_first_named(entries, name, i),
        is_first_named(entries, name, k),
    ensures
        i == k,
{
    if i < k {
        assert(entries[i].name != name);
    } else if k < i {
        assert(entries[k].name != name);
    }
}

impl VaultRegistry {
    pub fn new(vaults: Vec<RegisteredVault>) -> (registry: VaultRegistry)
        ensures
            registry@ == vaults@.map_values(|v: RegisteredVault| v@),
    {
        VaultRegistry { vaults }
    }

    /// The first vault of that name, if there is one.
    pub fn get(&self, name: &str) -> (found: Option<&RegisteredVault>)
        ensures
            found is Some <==> is_registered(self@, name@),
            found is None <==> forall|j: int| 0 <= j < self@.len() ==> (#[trigger] self@[j]).name != name@,
            found matches Some(vault) ==> vault.name@ == name@ && vault.path@ == registered_path(
                self@,
                name@,
            ),
    {
        let wanted: String = name.to_owned();
        let mut i: usize = 0;
        while i < self.vaults.len()
            invariant
                i <= self.vaults.len(),
                self@.len() == self.vaults.len(),
                wanted@ == name@,
                forall|j: int| 0 <= j < i ==> (#[trigger] self@[j]).name != name@,
            decreases self.vaults.len() - i,
        {
            assert(self@[i as int] == self.vaults[i as int]@);
            if self.vaults[i].name.eq(&wanted) {
                proof {
                    assert(is_first_named(self@, name@, i as int));
                    let k = choose|k: int| is_first_named(self@, name@, k);
                    lemma_first_named_unique(self@, name@, i as int, k);
                }
                return Some(&self.vaults[i]);
            }
            i = i + 1;
        }
        None
    }
}

} // verus!
