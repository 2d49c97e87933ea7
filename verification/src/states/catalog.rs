//! How actions change the catalog of installations: the rules, and what
//! follows from them.

use crate::datatypes::installation::{InstallationAction, InstallationKind};
use crate::datatypes::server::GameVersion;
use vstd::prelude::*;

verus! {

/// The record with which every download starts.
pub open spec fn fresh_download() -> InstallationKind {
    InstallationKind::Downloading { progress: 1, total: 100 }
}

/// The catalog, by the names of the versions, after one action.
///
/// A discovery that names no older version records the new one as
/// discovered. One that names an older version of which the catalog has no
/// record changes nothing. One that names an older version on record drops
/// that record if the version has only been discovered, leaves it alone
/// otherwise, and records the new version as discovered in both cases. A
/// request to install records the version as a download that has just begun,
/// whatever was known of it. Nothing else changes the catalog.
pub open spec fn catalog_after(
    catalog: Map<Seq<char>, InstallationKind>,
    action: InstallationAction,
) -> Map<Seq<char>, InstallationKind> {
    match action {
        InstallationAction::VersionDiscovered { new, old: None } => catalog.insert(
            new@,
            InstallationKind::Discovered,
        ),
        InstallationAction::VersionDiscovered { new, old: Some(old) } => {
            if !catalog.contains_key(old@) {
                catalog
            } else if catalog[old@] is Discovered {
                catalog.remove(old@).insert(new@, InstallationKind::Discovered)
            } else {
                catalog.insert(new@, InstallationKind::Discovered)
            }
        },
        InstallationAction::Install(version) => catalog.insert(version@, fresh_download()),
        InstallationAction::Uninstall(_) => catalog,
    }
}

/// The catalog after the actions, taken in order.
pub open spec fn catalog_after_all(
    catalog: Map<Seq<char>, InstallationKind>,
    actions: Seq<InstallationAction>,
) -> Map<Seq<char>, InstallationKind>
    decreases actions.len(),
{
    if actions.len() == 0 {
        catalog
    } else {
        catalog_after(catalog_after_all(catalog, actions.drop_last()), actions.last())
    }
}

/// No download in the catalog holds more than its total.
pub open spec fn catalog_valid(catalog: Map<Seq<char>, InstallationKind>) -> bool {
    forall|name: Seq<char>| #[trigger] catalog.contains_key(name) ==> catalog[name].valid()
}

/// The discovery of `version`, with the version it supersedes, if any.
pub open spec fn discovery(version: GameVersion, old: Option<GameVersion>) -> InstallationAction {
    InstallationAction::VersionDiscovered { new: version, old }
}

/// The catalog after two actions is the catalog after the second, taken
/// from the catalog after the first.
pub proof fn lemma_catalog_after_two(
    catalog: Map<Seq<char>, InstallationKind>,
    first: InstallationAction,
    second: InstallationAction,
)
    ensures
        catalog_after_all(catalog, seq![first, second]) == catalog_after(
            catalog_after(catalog, first),
            second,
        ),
{
    let both = seq![first, second];
    let head = both.drop_last();
    assert(both.last() == second);
    assert(head.len() == 1 && head.last() == first);
    assert(head.drop_last().len() == 0);
    assert(catalog_after_all(catalog, head.drop_last()) == catalog);
    assert(catalog_after_all(catalog, head) == catalog_after(catalog, first));
}

/// No action takes a valid catalog to one that is not.
pub proof fn lemma_catalog_stays_valid(
    catalog: Map<Seq<char>, InstallationKind>,
    actions: Seq<InstallationAction>,
)
    requires
        catalog_valid(catalog),
    ensures
        catalog_valid(catalog_after_all(catalog, actions)),
    decreases actions.len(),
{
    if actions.len() > 0 {
        lemma_catalog_stays_valid(catalog, actions.drop_last());
    }
}

/// A version that is discovered and then superseded while it is still only
/// discovered leaves the catalog: of the two, only the newer one is in it,
/// as discovered. Taken from the empty catalog, it is all there is.
pub proof fn lemma_discovery_replaces_discovered(
    catalog: Map<Seq<char>, InstallationKind>,
    a: GameVersion,
    b: GameVersion,
)
    ensures
        catalog_after_all(catalog, seq![discovery(a, None), discovery(b, Some(a))])
            == catalog.remove(a@).insert(b@, InstallationKind::Discovered),
        catalog_after_all(Map::empty(), seq![discovery(a, None), discovery(b, Some(a))])
            == Map::<Seq<char>, InstallationKind>::empty().insert(
            b@,
            InstallationKind::Discovered,
        ),
{
    let empty = Map::<Seq<char>, InstallationKind>::empty();
    lemma_catalog_after_two(catalog, discovery(a, None), discovery(b, Some(a)));
    lemma_catalog_after_two(empty, discovery(a, None), discovery(b, Some(a)));
    assert(catalog.insert(a@, InstallationKind::Discovered).remove(a@) =~= catalog.remove(a@));
    assert(empty.insert(a@, InstallationKind::Discovered).remove(a@) =~= empty);
}

/// A discovery that is to supersede a version of which the catalog has no
/// record is passed over: the catalog stays as it was, and the new version
/// is not recorded.
pub proof fn lemma_missing_target_changes_nothing(
    catalog: Map<Seq<char>, InstallationKind>,
    new: GameVersion,
    old: GameVersion,
)
    requires
        !catalog.contains_key(old@),
    ensures
        catalog_after(catalog, discovery(new, Some(old))) == catalog,
{
}

/// A version whose installation was asked for stays in the catalog as a
/// download when another version is discovered to supersede it, and the
/// other version is recorded as discovered beside it.
pub proof fn lemma_download_survives_discovery(
    catalog: Map<Seq<char>, InstallationKind>,
    a: GameVersion,
    b: GameVersion,
)
    requires
        a@ != b@,
    ensures
        ({
            let after = catalog_after_all(
                catalog,
                seq![InstallationAction::Install(a), discovery(b, Some(a))],
            );
            &&& after == catalog.insert(a@, fresh_download()).insert(
                b@,
                InstallationKind::Discovered,
            )
            &&& after.contains_key(a@) && after[a@] == fresh_download()
            &&& after.contains_key(b@) && after[b@] is Discovered
        }),
{
    lemma_catalog_after_two(catalog, InstallationAction::Install(a), discovery(b, Some(a)));
}

/// A record that is more than discovered is never dropped: whatever the
/// action, its version is in the catalog afterwards.
pub proof fn lemma_started_record_stays(
    catalog: Map<Seq<char>, InstallationKind>,
    action: InstallationAction,
    name: Seq<char>,
)
    requires
        catalog.contains_key(name),
        !(catalog[name] is Discovered),
    ensures
        catalog_after(catalog, action).contains_key(name),
{
}

/// A request to install leaves the version as a download that has just
/// begun, whatever the catalog held, and touches no other record.
pub proof fn lemma_install_starts_download(
    catalog: Map<Seq<char>, InstallationKind>,
    version: GameVersion,
)
    ensures
        ({
            let after = catalog_after(catalog, InstallationAction::Install(version));
            &&& after.contains_key(version@)
            &&& after[version@] == InstallationKind::Downloading { progress: 1, total: 100 }
            &&& after.remove(version@) == catalog.remove(version@)
        }),
{
    let after = catalog_after(catalog, InstallationAction::Install(version));
    assert(after.remove(version@) =~= catalog.remove(version@));
}

/// Requests to install two different versions both take effect, in
/// whichever order they arrive: the catalog is the same either way and holds
/// both as downloads that have just begun, so at least two records.
pub proof fn lemma_installs_both_apply(
    catalog: Map<Seq<char>, InstallationKind>,
    a: GameVersion,
    b: GameVersion,
)
    requires
        a@ != b@,
        catalog.dom().finite(),
    ensures
        ({
            let a_first = catalog_after_all(
                catalog,
                seq![InstallationAction::Install(a), InstallationAction::Install(b)],
            );
            let b_first = catalog_after_all(
                catalog,
                seq![InstallationAction::Install(b), InstallationAction::Install(a)],
            );
            &&& a_first == b_first
            &&& a_first.contains_key(a@) && a_first[a@] == fresh_download()
            &&& a_first.contains_key(b@) && a_first[b@] == fresh_download()
            &&& a_first.dom().finite()
            &&& a_first.len() >= 2
        }),
{
    let install_a = InstallationAction::Install(a);
    let install_b = InstallationAction::Install(b);
    lemma_catalog_after_two(catalog, install_a, install_b);
    lemma_catalog_after_two(catalog, install_b, install_a);
    let a_first = catalog_after_all(catalog, seq![install_a, install_b]);
    let b_first = catalog_after_all(catalog, seq![install_b, install_a]);
    assert(a_first =~= b_first);
    let pair = Set::<Seq<char>>::empty().insert(a@).insert(b@);
    assert(pair.len() == 2);
    assert(pair.subset_of(a_first.dom()));
    vstd::set_lib::lemma_len_subset(pair, a_first.dom());
}

} // verus!
