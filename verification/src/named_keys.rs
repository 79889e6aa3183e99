//! Values that are kept under names of their own choosing.  Unlike an entry
//! of a dictionary, a named key can be removed.

use vstd::prelude::*;

use crate::dictionary::Dictionary;
use crate::views::option_view;

verus! {

/// The texts that are kept under names.
pub struct NamedKeys {
    entries: Dictionary<String, String>,
}

impl View for NamedKeys {
    type V = Map<Seq<char>, Seq<char>>;

    closed spec fn view(&self) -> Map<Seq<char>, Seq<char>> {
        Map::new(
            |name: Seq<char>| self.entries@.contains_key(name),
            |name: Seq<char>| self.entries@[name]@,
        )
    }
}

impl NamedKeys {
    /// No name is kept twice.
    pub closed spec fn wf(&self) -> bool {
        self.entries.wf()
    }

    /// No names.
    pub fn new() -> (keys: NamedKeys)
        ensures
            keys.wf(),
            keys@ == Map::<Seq<char>, Seq<char>>::empty(),
    {
        let keys = NamedKeys { entries: Dictionary::new() };
        proof {
            assert(keys@ =~= Map::<Seq<char>, Seq<char>>::empty());
        }
        keys
    }
}

/// What is kept under a name, if anything is.
pub open spec fn named(keys: Map<Seq<char>, Seq<char>>, name: Seq<char>) -> Option<Seq<char>> {
    if keys.contains_key(name) {
        Some(keys[name])
    } else {
        None
    }
}

/// What is kept under `name`, if anything is.
pub fn get_key(keys: &NamedKeys, name: &str) -> (value: Option<String>)
    requires
        keys.wf(),
    ensures
        option_view(value) == named(keys@, name@),
{
    match keys.entries.get(&name.to_owned()) {
        Some(stored) => Some(stored.clone()),
        None => None,
    }
}

/// Keeps `value` under `name`, in place of what was kept there.
pub fn set_key(keys: &mut NamedKeys, name: &str, value: &str)
    requires
        old(keys).wf(),
    ensures
        final(keys).wf(),
        final(keys)@ == old(keys)@.insert(name@, value@),
{
    let ghost before = keys@;
    keys.entries.put(name.to_owned(), value.to_owned());
    proof {
        assert(keys@ =~= before.insert(name@, value@));
    }
}

/// Removes `name` and what is kept under it.  Nothing happens where the name
/// is not kept.
pub fn del_key(keys: &mut NamedKeys, name: &str)
    requires
        old(keys).wf(),
    ensures
        final(keys).wf(),
        final(keys)@ == old(keys)@.remove(name@),
{
    let ghost before = keys@;
    keys.entries.remove(&name.to_owned());
    proof {
        assert(keys@ =~= before.remove(name@));
    }
}

} // verus!
