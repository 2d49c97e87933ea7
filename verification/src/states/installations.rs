//! The catalog of installations and the one place that changes it.

use crate::datatypes::installation::{Installation, InstallationAction, InstallationKind};
use crate::datatypes::server::GameVersion;
use crate::states::catalog::{catalog_after, catalog_after_all, catalog_valid};
use vstd::hash_map::StringHashMap;
use vstd::prelude::*;

verus! {

/// Every version that is known, with what has become of it. At most one
/// record is kept for a version.
pub struct InstallationsState {
    items: StringHashMap<Installation>,
    /// The versions on record, in the order in which they came.
    order: Vec<GameVersion>,
}

impl View for InstallationsState {
    type V = Map<Seq<char>, InstallationKind>;

    /// What has become of each version, by its name.
    closed spec fn view(&self) -> Map<Seq<char>, InstallationKind> {
        self.items@.map_values(|record: Installation| record.kind)
    }
}

/// There are finitely many records, each filed under the name of its own
/// version, and no download holds more than its total; `order` lists the
/// versions on record, each once.
spec fn filed(items: Map<Seq<char>, Installation>, order: Seq<GameVersion>) -> bool {
    &&& items.dom().finite()
    &&& forall|name: Seq<char>| #[trigger]
        items.contains_key(name) ==> items[name].version@ == name && items[name].kind.valid()
    &&& forall|i: int| 0 <= i < order.len() ==> items.contains_key(#[trigger] order[i]@)
    &&& forall|i: int, j: int|
        0 <= i < j < order.len() ==> #[trigger] order[i]@ != #[trigger] order[j]@
    &&& forall|name: Seq<char>| #[trigger]
        items.contains_key(name) ==> listed(order, name)
}

/// `name` is the name of one of the versions.
spec fn listed(order: Seq<GameVersion>, name: Seq<char>) -> bool {
    exists|i: int| 0 <= i < order.len() && #[trigger] order[i]@ == name
}

/// As many versions are listed as there are records.
proof fn lemma_listed_once(items: Map<Seq<char>, Installation>, order: Seq<GameVersion>)
    requires
        filed(items, order),
    ensures
        order.len() == items.dom().len(),
{
    let names = order.map_values(|version: GameVersion| version@);
    assert(names.no_duplicates()) by {
        assert forall|i: int, j: int|
            0 <= i < names.len() && 0 <= j < names.len() && i != j implies names[i]
            != names[j] by {
            if i < j {
                assert(order[i]@ != order[j]@);
            } else {
                assert(order[j]@ != order[i]@);
            }
        }
    }
    assert(names.to_set() =~= items.dom()) by {
        assert forall|name: Seq<char>| names.to_set().contains(name) implies items.dom().contains(
            name,
        ) by {
            let i = choose|i: int| 0 <= i < names.len() && names[i] == name;
            assert(items.contains_key(order[i]@));
        }
        assert forall|name: Seq<char>| items.dom().contains(name) implies names.to_set().contains(
            name,
        ) by {
            assert(items.contains_key(name));
            assert(listed(order, name));
            let i = choose|i: int| 0 <= i < order.len() && #[trigger] order[i]@ == name;
            assert(names[i] == name);
        }
    }
    names.unique_seq_to_set();
}

/// Files `version` with `kind`, in place of whatever record it had.
fn file(
    items: &mut StringHashMap<Installation>,
    order: &mut Vec<GameVersion>,
    version: GameVersion,
    kind: InstallationKind,
)
    requires
        filed(old(items)@, old(order)@),
        kind.valid(),
    ensures
        filed(final(items)@, final(order)@),
        final(items)@ == old(items)@.insert(version@, (Installation { version, kind })),
{
    if !items.contains_key(version.name()) {
        order.push(version.clone());
    }
    let name = version.name().to_owned();
    items.insert(name, Installation { version, kind });
    proof {
        let last = order@.len() - 1;
        assert forall|name: Seq<char>| #[trigger] items@.contains_key(name) implies listed(
            order@,
            name,
        ) by {
            if old(items)@.contains_key(name) {
                assert(listed(old(order)@, name));
                let i = choose|i: int|
                    0 <= i < old(order)@.len() && #[trigger] old(order)@[i]@ == name;
                assert(order@[i]@ == name);
            } else {
                assert(order@[last]@ == name);
            }
        }
    }
}

/// Takes the record of `version` out.
fn unfile(
    items: &mut StringHashMap<Installation>,
    order: &mut Vec<GameVersion>,
    version: &GameVersion,
)
    requires
        filed(old(items)@, old(order)@),
        old(items)@.contains_key(version@),
    ensures
        filed(final(items)@, final(order)@),
        final(items)@ == old(items)@.remove(version@),
{
    proof {
        assert(listed(order@, version@));
    }
    let mut at: usize = 0;
    while !order[at].same_as(version)
        invariant
            order@ == old(order)@,
            at < order.len(),
            exists|i: int| at <= i < order@.len() && #[trigger] order@[i]@ == version@,
        decreases order@.len() - at,
    {
        at += 1;
    }
    order.remove(at);
    items.remove(version.name());
    proof {
        let before = old(order)@;
        assert forall|i: int| 0 <= i < order@.len() implies items@.contains_key(
            #[trigger] order@[i]@,
        ) by {
            if i < at {
                assert(order@[i] == before[i]);
                assert(before[i]@ != before[at as int]@);
            } else {
                assert(order@[i] == before[i + 1]);
                assert(before[at as int]@ != before[i + 1]@);
            }
            assert(old(items)@.contains_key(order@[i]@));
        }
        assert forall|i: int, j: int| 0 <= i < j < order@.len() implies #[trigger] order@[i]@
            != #[trigger] order@[j]@ by {
            let a = if i < at { i } else { i + 1 };
            let b = if j < at { j } else { j + 1 };
            assert(order@[i] == before[a] && order@[j] == before[b]);
            assert(before[a]@ != before[b]@);
        }
        assert forall|name: Seq<char>| #[trigger] items@.contains_key(name) implies listed(
            order@,
            name,
        ) by {
            assert(old(items)@.contains_key(name));
            assert(listed(before, name));
            let i = choose|i: int| 0 <= i < before.len() && #[trigger] before[i]@ == name;
            if i < at {
                assert(order@[i]@ == name);
            } else {
                assert(order@[i - 1]@ == name);
            }
        }
    }
}

impl InstallationsState {
    #[verifier::type_invariant]
    spec fn well_formed(self) -> bool {
        filed(self.items@, self.order@)
    }

    /// The catalog with no record in it.
    pub fn new() -> (state: Self)
        ensures
            state@ == Map::<Seq<char>, InstallationKind>::empty(),
            catalog_valid(state@),
    {
        let state = Self { items: StringHashMap::new(), order: Vec::new() };
        assert(state@ =~= Map::<Seq<char>, InstallationKind>::empty());
        state
    }

    /// The number of versions in the catalog.
    pub fn count(&self) -> (count: usize)
        ensures
            count == self@.len(),
            self@.dom().finite(),
    {
        proof {
            use_type_invariant(self);
            assert(self@.dom() =~= self.items@.dom());
        }
        self.items.len()
    }

    /// The record of `version`, if the catalog has one.
    pub fn get(&self, version: &GameVersion) -> (found: Option<&Installation>)
        ensures
            match found {
                Some(record) => self@.contains_key(version@) && record.kind == self@[version@]
                    && record.version@ == version@ && record.kind.valid(),
                None => !self@.contains_key(version@),
            },
    {
        proof {
            use_type_invariant(self);
        }
        self.items.get(version.name())
    }

    /// All the records, each version once, in the order in which the
    /// versions came on record.
    pub fn records(&self) -> (all: Vec<Installation>)
        ensures
            all@.len() == self@.len(),
            forall|i: int|
                0 <= i < all@.len() ==> self@.contains_key(#[trigger] all@[i].version@)
                    && self@[all@[i].version@] == all@[i].kind,
            forall|i: int, j: int|
                0 <= i < j < all@.len() ==> #[trigger] all@[i].version@ != #[trigger] all@[j].version@,
            forall|name: Seq<char>| #[trigger]
                self@.contains_key(name) ==> exists|i: int|
                    0 <= i < all@.len() && #[trigger] all@[i].version@ == name,
    {
        proof {
            use_type_invariant(self);
            lemma_listed_once(self.items@, self.order@);
            assert(self@.dom() =~= self.items@.dom());
        }
        let mut all: Vec<Installation> = Vec::new();
        let mut at: usize = 0;
        while at < self.order.len()
            invariant
                filed(self.items@, self.order@),
                at <= self.order@.len(),
                all@.len() == at,
                forall|i: int|
                    0 <= i < at ==> #[trigger] all@[i].version@ == self.order@[i]@ && all@[i].kind
                        == self.items@[self.order@[i]@].kind,
            decreases self.order@.len() - at,
        {
            let version = &self.order[at];
            proof {
                assert(self.items@.contains_key(self.order@[at as int]@));
            }
            let kind = self.items.get(version.name()).unwrap().kind;
            all.push(Installation { version: version.clone(), kind });
            at += 1;
        }
        proof {
            assert forall|name: Seq<char>| #[trigger] self@.contains_key(name) implies exists|
                i: int,
            |
                0 <= i < all@.len() && #[trigger] all@[i].version@ == name by {
                assert(self.items@.contains_key(name));
                assert(listed(self.order@, name));
                let i = choose|i: int|
                    0 <= i < self.order@.len() && #[trigger] self.order@[i]@ == name;
                assert(all@[i].version@ == name);
            }
        }
        all
    }

    /// Changes the catalog as `action` asks.
    pub fn apply(&mut self, action: InstallationAction)
        ensures
            final(self)@ == catalog_after(old(self)@, action),
            catalog_valid(final(self)@),
    {
        // The records are taken out while they change and put back after.
        let mut taken = InstallationsState::new();
        std::mem::swap(self, &mut taken);
        proof {
            use_type_invariant(&taken);
        }
        let InstallationsState { mut items, mut order } = taken;
        match action {
            InstallationAction::VersionDiscovered { new, old } => {
                match old {
                    None => file(&mut items, &mut order, new, InstallationKind::Discovered),
                    Some(old) => {
                        let superseded = match items.get(old.name()) {
                            Some(existing) => Some(existing.kind),
                            None => None,
                        };
                        match superseded {
                            None => {},
                            Some(InstallationKind::Discovered) => {
                                unfile(&mut items, &mut order, &old);
                                file(&mut items, &mut order, new, InstallationKind::Discovered);
                            },
                            Some(_) => {
                                file(&mut items, &mut order, new, InstallationKind::Discovered);
                            },
                        }
                    },
                }
            },
            InstallationAction::Install(version) => {
                file(
                    &mut items,
                    &mut order,
                    version,
                    InstallationKind::Downloading { progress: 1, total: 100 },
                );
            },
            InstallationAction::Uninstall(_) => {},
        }
        *self = InstallationsState { items, order };
        proof {
            assert(self@ =~= catalog_after(old(self)@, action));
        }
    }

    /// Works through the queue: applies the actions one at a time, in the
    /// order in which they stand.
    pub fn installation_handler_task(&mut self, actions: Vec<InstallationAction>)
        ensures
            final(self)@ == catalog_after_all(old(self)@, actions@),
            catalog_valid(final(self)@),
    {
        proof {
            use_type_invariant(&*self);
        }
        let ghost before = self@;
        let ghost queue = actions@;
        for action in it: actions
            invariant
                it.seq() == queue,
                self@ == catalog_after_all(before, queue.take(it.index() as int)),
                catalog_valid(self@),
        {
            proof {
                let done = queue.take(it.index() + 1);
                assert(done.drop_last() =~= queue.take(it.index() as int));
                assert(done.last() == action);
            }
            self.apply(action);
        }
        assert(queue.take(queue.len() as int) =~= queue);
    }
}

} // verus!
