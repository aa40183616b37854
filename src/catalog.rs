//! The registry of named profiles, in the order they were registered.

use vstd::prelude::*;
use crate::profile::Profile;

verus! {

/// Why a catalog operation failed.
#[derive(Clone, Copy, Debug, PartialEq, Eq, Structural)]
pub enum CatalogError {
    /// No profile has the requested name.
    NotFound,
    /// A profile is not structurally consistent.
    InvalidProfile,
    /// Two profiles share a name.
    DuplicateName,
}

/// Profiles keyed by unique name; enumeration follows insertion order.
pub struct Catalog {
    profiles: Vec<Profile>,
}

impl View for Catalog {
    type V = Seq<Profile>;

    closed spec fn view(&self) -> Seq<Profile> {
        self.profiles@
    }
}

/// The names of `ps`, in order.
pub open spec fn names_of(ps: Seq<Profile>) -> Seq<Seq<char>> {
    ps.map_values(|p: Profile| p.name@)
}

/// Every profile is valid.
pub open spec fn all_valid(ps: Seq<Profile>) -> bool {
    forall|i: int| 0 <= i < ps.len() ==> (#[trigger] ps[i]).valid()
}

/// No two profiles share a name.
pub open spec fn names_unique(ps: Seq<Profile>) -> bool {
    forall|i: int, j: int|
        0 <= i < ps.len() && 0 <= j < ps.len() && i != j ==> (#[trigger] ps[i]).name@
            != (#[trigger] ps[j]).name@
}

impl Catalog {
    /// The profile names in enumeration order.
    pub open spec fn names(&self) -> Seq<Seq<char>> {
        names_of(self@)
    }

    /// Names are unique and every profile is valid.
    pub open spec fn wf(&self) -> bool {
        all_valid(self@) && names_unique(self@)
    }

    /// The profile registered under `name`, if any.
    pub open spec fn lookup(&self, name: Seq<char>) -> Option<Profile> {
        if exists|i: int| 0 <= i < self@.len() && (#[trigger] self@[i]).name@ == name {
            let i = choose|i: int| 0 <= i < self@.len() && (#[trigger] self@[i]).name@ == name;
            Some(self@[i])
        } else {
            None
        }
    }

    /// Builds a catalog from `profiles`, kept in the given order. Fails with
    /// `InvalidProfile` when a profile is not valid and with `DuplicateName`
    /// when two profiles share a name.
    pub fn from_profiles(profiles: Vec<Profile>) -> (r: Result<Catalog, CatalogError>)
        ensures
            r is Ok <==> all_valid(profiles@) && names_unique(profiles@),
            r matches Ok(c) ==> c@ == profiles@,
            !all_valid(profiles@) ==> r == Err::<Catalog, CatalogError>(
                CatalogError::InvalidProfile,
            ),
            all_valid(profiles@) && !names_unique(profiles@) ==> r == Err::<Catalog, CatalogError>(
                CatalogError::DuplicateName,
            ),
    {
        let n = profiles.len();
        let mut i: usize = 0;
        while i < n
            invariant
                n == profiles@.len(),
                i <= n,
                forall|k: int| 0 <= k < i ==> (#[trigger] profiles@[k]).valid(),
            decreases n - i,
        {
            if !profiles[i].check() {
                return Err(CatalogError::InvalidProfile);
            }
            i += 1;
        }
        let mut a: usize = 0;
        while a < n
            invariant
                n == profiles@.len(),
                all_valid(profiles@),
                a <= n,
                forall|x: int, y: int|
                    0 <= x < a && 0 <= y < n && x != y ==> (#[trigger] profiles@[x]).name@
                        != (#[trigger] profiles@[y]).name@,
            decreases n - a,
        {
            let mut b: usize = 0;
            while b < n
                invariant
                    n == profiles@.len(),
                    all_valid(profiles@),
                    a < n,
                    b <= n,
                    forall|x: int, y: int|
                        0 <= x < a && 0 <= y < n && x != y ==> (#[trigger] profiles@[x]).name@
                            != (#[trigger] profiles@[y]).name@,
                    forall|y: int|
                        0 <= y < b && a != y ==> profiles@[a as int].name@
                            != (#[trigger] profiles@[y]).name@,
                decreases n - b,
            {
                if a != b && profiles[a].name == profiles[b].name {
                    return Err(CatalogError::DuplicateName);
                }
                b += 1;
            }
            a += 1;
        }
        Ok(Catalog { profiles })
    }

    /// A catalog with no profiles.
    pub fn empty() -> (r: Catalog)
        ensures
            r@ == Seq::<Profile>::empty(),
            r.wf(),
    {
        Catalog { profiles: Vec::new() }
    }

    /// Number of registered profiles.
    pub fn len(&self) -> (r: usize)
        ensures
            r == self@.len(),
    {
        self.profiles.len()
    }

    /// The profile names in enumeration order.
    pub fn list(&self) -> (r: Vec<String>)
        ensures
            r@.map_values(|s: String| s@) == self.names(),
    {
        let mut out: Vec<String> = Vec::new();
        let mut i: usize = 0;
        while i < self.profiles.len()
            invariant
                i <= self@.len(),
                out@.len() == i,
                forall|k: int| 0 <= k < i ==> (#[trigger] out@[k])@ == self@[k].name@,
            decreases self@.len() - i,
        {
            out.push(self.profiles[i].name.clone());
            i += 1;
        }
        assert(out@.map_values(|s: String| s@) =~= self.names());
        out
    }

    /// The profile registered under `name`; `NotFound` when there is none.
    pub fn get(&self, name: &str) -> (r: Result<&Profile, CatalogError>)
        requires
            self.wf(),
        ensures
            r is Err <==> self.lookup(name@) is None,
            r is Err ==> r == Err::<&Profile, CatalogError>(CatalogError::NotFound),
            r matches Ok(p) ==> self.lookup(name@) == Some(*p) && p.name@ == name@,
    {
        let key = String::from_str(name);
        let mut i: usize = 0;
        while i < self.profiles.len()
            invariant
                self.wf(),
                i <= self@.len(),
                key@ == name@,
                forall|k: int| 0 <= k < i ==> (#[trigger] self@[k]).name@ != name@,
            decreases self@.len() - i,
        {
            if self.profiles[i].name == key {
                proof {
                    assert(self@[i as int].name@ == name@);
                    let j = choose|j: int|
                        0 <= j < self@.len() && (#[trigger] self@[j]).name@ == name@;
                    assert(names_unique(self@));
                    if j != i {
                        assert(self@[j].name@ != self@[i as int].name@);
                    }
                }
                return Ok(&self.profiles[i]);
            }
            i += 1;
        }
        Err(CatalogError::NotFound)
    }
}

/// Every name that `list` reports leads `get` to a profile of that name
/// whose cipher and extension lists are non-empty and whose extensions ask
/// for no TLS version the profile leaves out.
pub proof fn lemma_listed_profiles_are_consistent(c: &Catalog, name: Seq<char>)
    requires
        c.wf(),
        c.names().contains(name),
    ensures
        c.lookup(name) matches Some(p) && p.name@ == name && p.cipher_suites@.len() > 0
            && p.extensions@.len() > 0 && p.versions_consistent(),
{
    let i = choose|i: int| 0 <= i < c.names().len() && c.names()[i] == name;
    assert(c@[i].name@ == name);
    let j = choose|j: int| 0 <= j < c@.len() && (#[trigger] c@[j]).name@ == name;
    assert(c@[j].valid());
}

/// Two enumerations of the same catalog give the same names in the same
/// order.
pub proof fn lemma_list_is_stable(c: &Catalog, first: Seq<String>, second: Seq<String>)
    requires
        first.map_values(|s: String| s@) == c.names(),
        second.map_values(|s: String| s@) == c.names(),
    ensures
        first.map_values(|s: String| s@) == second.map_values(|s: String| s@),
{
}

/// A name that no profile carries finds nothing, never a stand-in profile.
pub proof fn lemma_unknown_name_not_found(c: &Catalog, name: Seq<char>)
    requires
        !c.names().contains(name),
    ensures
        c.lookup(name) is None,
{
    if exists|i: int| 0 <= i < c@.len() && (#[trigger] c@[i]).name@ == name {
        let i = choose|i: int| 0 <= i < c@.len() && (#[trigger] c@[i]).name@ == name;
        assert(c.names()[i] == name);
    }
}

} // verus!
