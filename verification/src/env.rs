//! The extra environment of a command.
//!
//! The caller hands the variables over in a hash map. A command takes them
//! one after another, and a later setting of a name replaces an earlier one.

use vstd::prelude::*;
use rustc_hash::{FxBuildHasher, FxHashMap};

verus! {

/// `rustc_hash::FxBuildHasher`, the hasher of the caller's map. Nothing is
/// said of it.
#[verifier::external_type_specification]
#[verifier::external_body]
pub struct ExFxBuildHasher(FxBuildHasher);

/// What a map of environment variables holds: each name with the value set
/// for it. What `HashMap::iter` hands out is what ties it to the map.
pub uninterp spec fn env_contents(env: FxHashMap<String, String>) -> Map<Seq<char>, Seq<char>>;

/// `entries` lists `contents`: each entry is a name of `contents` with its
/// value, each name of `contents` has an entry, and no name has two.
pub open spec fn is_listing(
    entries: Seq<(Seq<char>, Seq<char>)>,
    contents: Map<Seq<char>, Seq<char>>,
) -> bool {
    &&& forall|i: int|
        0 <= i < entries.len() ==> contents.contains_pair(
            (#[trigger] entries[i]).0,
            entries[i].1,
        )
    &&& forall|name: Seq<char>| #[trigger]
        contents.contains_key(name) ==> exists|i: int|
            0 <= i < entries.len() && (#[trigger] entries[i]).0 == name
    &&& forall|i: int, j: int|
        0 <= i < j < entries.len() ==> (#[trigger] entries[i]).0 != (#[trigger] entries[j]).0
}

/// The environment that setting `entries` one after another leaves behind:
/// a later entry replaces an earlier one of the same name.
pub open spec fn env_of(entries: Seq<(Seq<char>, Seq<char>)>) -> Map<Seq<char>, Seq<char>>
    decreases entries.len(),
{
    if entries.len() == 0 {
        Map::empty()
    } else {
        env_of(entries.drop_last()).insert(entries.last().0, entries.last().1)
    }
}

/// The entries of a map, as `HashMap::iter` hands them out.
///
/// Not proved: that the iterator visits each entry of the map once, so that
/// what it hands out lists what the map holds. The order in which the
/// entries come is left open.
#[verifier::external_body]
fn env_entries<'a>(env: &'a FxHashMap<String, String>) -> (entries: Vec<(&'a String, &'a String)>)
    ensures
        is_listing(entries.deep_view(), env_contents(*env)),
{
    env.iter().collect()
}

/// The settings that hand a map of variables to a command: one for each
/// entry of the map, in the order in which the map gives them.
pub fn env_settings(env: &FxHashMap<String, String>) -> (settings: Vec<(String, String)>)
    ensures
        is_listing(settings.deep_view(), env_contents(*env)),
{
    let entries = env_entries(env);
    let mut settings: Vec<(String, String)> = Vec::new();
    let mut i: usize = 0;
    while i < entries.len()
        invariant
            0 <= i <= entries.len(),
            settings.len() == i,
            forall|j: int| 0 <= j < i ==> settings.deep_view()[j] == entries.deep_view()[j],
        decreases entries.len() - i,
    {
        let (name, value) = entries[i];
        settings.push((name.clone(), value.clone()));
        i = i + 1;
    }
    assert(settings.deep_view() =~= entries.deep_view());
    settings
}

/// Setting entries one after another defines the names of the entries, and
/// no others.
pub proof fn lemma_env_of_names(entries: Seq<(Seq<char>, Seq<char>)>, name: Seq<char>)
    ensures
        env_of(entries).contains_key(name) <==> exists|i: int|
            0 <= i < entries.len() && (#[trigger] entries[i]).0 == name,
    decreases entries.len(),
{
    if entries.len() > 0 {
        let init = entries.drop_last();
        lemma_env_of_names(init, name);
        if env_of(entries).contains_key(name) {
            if entries.last().0 == name {
                assert(entries[entries.len() - 1].0 == name);
            } else {
                let i = choose|i: int| 0 <= i < init.len() && (#[trigger] init[i]).0 == name;
                assert(entries[i].0 == name);
            }
        }
        if exists|i: int| 0 <= i < entries.len() && (#[trigger] entries[i]).0 == name {
            let i = choose|i: int| 0 <= i < entries.len() && (#[trigger] entries[i]).0 == name;
            if i < init.len() {
                assert(init[i].0 == name);
            }
        }
    }
}

/// The last entry of a name decides its value.
pub proof fn lemma_env_of_last_wins(entries: Seq<(Seq<char>, Seq<char>)>, i: int)
    requires
        0 <= i < entries.len(),
        forall|j: int| i < j < entries.len() ==> (#[trigger] entries[j]).0 != entries[i].0,
    ensures
        env_of(entries).contains_pair(entries[i].0, entries[i].1),
    decreases entries.len(),
{
    let init = entries.drop_last();
    if i < entries.len() - 1 {
        assert(entries[entries.len() - 1].0 != entries[i].0);
        assert forall|j: int| i < j < init.len() implies (#[trigger] init[j]).0 != init[i].0 by {
            assert(entries[j].0 != entries[i].0);
        }
        lemma_env_of_last_wins(init, i);
    }
}

/// Setting the entries of a listing, in whatever order they come, leaves
/// behind what the listing lists.
pub proof fn lemma_listing_env(
    entries: Seq<(Seq<char>, Seq<char>)>,
    contents: Map<Seq<char>, Seq<char>>,
)
    requires
        is_listing(entries, contents),
    ensures
        env_of(entries) == contents,
{
    assert forall|name: Seq<char>| env_of(entries).contains_key(name) implies contents.contains_key(
        name,
    ) by {
        lemma_env_of_names(entries, name);
        let i = choose|i: int| 0 <= i < entries.len() && (#[trigger] entries[i]).0 == name;
        assert(contents.contains_pair(entries[i].0, entries[i].1));
    }
    assert forall|name: Seq<char>| contents.contains_key(name) implies env_of(
        entries,
    ).contains_pair(name, contents[name]) by {
        let i = choose|i: int| 0 <= i < entries.len() && (#[trigger] entries[i]).0 == name;
        assert(contents.contains_pair(entries[i].0, entries[i].1));
        assert forall|j: int| i < j < entries.len() implies (#[trigger] entries[j]).0
            != entries[i].0 by {}
        lemma_env_of_last_wins(entries, i);
    }
    assert(env_of(entries) =~= contents);
}

} // verus!
