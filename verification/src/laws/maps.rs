//! Laws of the maps: what was put in is found, and nothing else changes.

use crate::sandbox_daemon::config::{ImageCaps, PerImageCap};
use crate::sandbox_daemon::errors::SandboxError;
use crate::sandbox_daemon::registry::{SandboxRegistry, SandboxState};
use crate::str_map::{before, lemma_before_irreflexive, StrMap};
use crate::text::pair_texts;
use vstd::prelude::*;

verus! {

/// A variable that was set is found with its value, and every other is as it
/// was.
pub proof fn set_variables_are_found(
    call: (&mut StrMap, String, String),
    before: &StrMap,
    after: &StrMap,
    key: &str,
    was: Option<&String>,
    r: Option<&String>,
)
    requires
        call_ensures(StrMap::insert, call, ()),
        before@ == old(call.0)@,
        after@ == final(call.0)@,
        call_ensures(StrMap::get, (before, key), was),
        call_ensures(StrMap::get, (after, key), r),
    ensures
        key@ == call.1@ ==> r is Some && r->0@ == call.2@,
        key@ != call.1@ ==> (r is Some <==> was is Some),
        key@ != call.1@ && was is Some ==> r->0@ == was->0@,
{
}

/// There is no variable in a new map.
pub proof fn new_map_is_empty(m: StrMap, n: usize, key: &str, r: Option<&String>)
    requires
        call_ensures(StrMap::new, (), m),
        call_ensures(StrMap::len, (&m,), n),
        call_ensures(StrMap::get, (&m, key), r),
    ensures
        n == 0,
        r is None,
{
}

/// The entries of a map are what is found in it: each key once, with its value,
/// and every key.
pub proof fn entries_are_what_is_found(
    m: &StrMap,
    all: &Vec<(String, String)>,
    key: &str,
    r: Option<&String>,
)
    requires
        call_ensures(StrMap::entries, (m,), all),
        call_ensures(StrMap::get, (m, key), r),
    ensures
        r is Some ==> exists|i: int|
            0 <= i < all@.len() && (#[trigger] all@[i]).0@ == key@ && all@[i].1@ == r->0@,
        r is None ==> forall|i: int| 0 <= i < all@.len() ==> (#[trigger] all@[i]).0@ != key@,
        forall|i: int, j: int|
            0 <= i < j < all@.len() ==> (#[trigger] all@[i]).0@ != (#[trigger] all@[j]).0@,
{
    let pairs = pair_texts(all@);
    assert(pairs.len() == all@.len());
    assert forall|i: int| 0 <= i < all@.len() implies (#[trigger] all@[i]).0@ == pairs[i].0
        && all@[i].1@ == pairs[i].1 && m@.contains_pair(pairs[i].0, pairs[i].1) by {}
    if r is Some {
        assert(m@.contains_key(key@));
        let i = choose|i: int| 0 <= i < pairs.len() && (#[trigger] pairs[i]).0 == key@;
        assert(all@[i].0@ == key@);
    }
    assert forall|i: int, j: int| 0 <= i < j < all@.len() implies (#[trigger] all@[i]).0@ != (
    #[trigger] all@[j]).0@ by {
        lemma_before_irreflexive(pairs[i].0);
        assert(pairs[i].0 != pairs[j].0);
    }
}

proof fn lemma_before_at(a: Seq<char>, b: Seq<char>) -> (d: int)
    requires
        before(a, b),
    ensures
        0 <= d <= a.len(),
        d < b.len(),
        forall|k: int| 0 <= k < d ==> #[trigger] a[k] == b[k],
        d < a.len() ==> a[d] < b[d],
    decreases a.len(),
{
    if a.len() == 0 || a[0] != b[0] {
        0
    } else {
        let d = lemma_before_at(a.skip(1), b.skip(1));
        assert forall|k: int| 0 <= k < d + 1 implies #[trigger] a[k] == b[k] by {
            if k > 0 {
                assert(a.skip(1)[k - 1] == b.skip(1)[k - 1]);
            }
        }
        d + 1
    }
}

/// The entries of a map come as in a dictionary: of two keys the one comes first
/// that ends first, or that has the lesser character, where they part.
pub proof fn entries_come_as_in_a_dictionary(
    m: &StrMap,
    all: &Vec<(String, String)>,
    i: int,
    j: int,
)
    requires
        call_ensures(StrMap::entries, (m,), all),
        0 <= i < j < all@.len(),
    ensures
        exists|d: int|
            {
                &&& 0 <= d <= all@[i].0@.len()
                &&& d < all@[j].0@.len()
                &&& #[trigger] all@[i].0@.take(d) == all@[j].0@.take(d)
                &&& d < all@[i].0@.len() ==> all@[i].0@[d] < all@[j].0@[d]
            },
{
    let pairs = pair_texts(all@);
    assert(pairs[i].0 == all@[i].0@ && pairs[j].0 == all@[j].0@);
    let d = lemma_before_at(pairs[i].0, pairs[j].0);
    assert(all@[i].0@.take(d) =~= all@[j].0@.take(d));
}

/// An image's limits are those that it was given last, and those of other
/// images stay.
pub proof fn given_limits_are_found(
    call: (&mut ImageCaps, String, PerImageCap),
    before: &ImageCaps,
    after: &ImageCaps,
    image: &str,
    was: Option<PerImageCap>,
    r: Option<PerImageCap>,
)
    requires
        call_ensures(ImageCaps::insert, call, ()),
        before@ == old(call.0)@,
        after@ == final(call.0)@,
        call_ensures(ImageCaps::get, (before, image), was),
        call_ensures(ImageCaps::get, (after, image), r),
    ensures
        image@ == call.1@ ==> r == Some(call.2),
        image@ != call.1@ ==> r == was,
{
}

/// Without a configuration no image has limits.
pub proof fn no_limits_at_first(caps: ImageCaps, image: &str, r: Option<PerImageCap>)
    requires
        call_ensures(ImageCaps::new, (), caps),
        call_ensures(ImageCaps::get, (&caps, image), r),
    ensures
        r is None,
{
}

/// A sandbox that was entered is found as it was entered, and every other as it
/// was before.
pub proof fn entered_sandboxes_are_found(
    call: (&mut SandboxRegistry, SandboxState),
    before: &SandboxRegistry,
    after: &SandboxRegistry,
    id: u128,
    was: Result<SandboxState, SandboxError>,
    r: Result<SandboxState, SandboxError>,
)
    requires
        call_ensures(SandboxRegistry::insert, call, ()),
        before@ == old(call.0)@,
        after@ == final(call.0)@,
        call_ensures(SandboxRegistry::get, (before, id), was),
        call_ensures(SandboxRegistry::get, (after, id), r),
    ensures
        id == call.1.id ==> r == Ok::<SandboxState, SandboxError>(call.1),
        id != call.1.id ==> (r is Ok <==> was is Ok),
        id != call.1.id && was is Ok ==> r->Ok_0 == was->Ok_0,
{
}

/// A sandbox that was forgotten is not found, and every other is.
pub proof fn forgotten_sandboxes_are_not_found(
    call: (&mut SandboxRegistry, u128),
    before: &SandboxRegistry,
    after: &SandboxRegistry,
    id: u128,
    was: Result<SandboxState, SandboxError>,
    r: Result<SandboxState, SandboxError>,
)
    requires
        call_ensures(SandboxRegistry::remove, call, ()),
        before@ == old(call.0)@,
        after@ == final(call.0)@,
        call_ensures(SandboxRegistry::get, (before, id), was),
        call_ensures(SandboxRegistry::get, (after, id), r),
    ensures
        id == call.1 ==> r is Err && r->Err_0 is NotFound,
        id != call.1 ==> (r is Ok <==> was is Ok),
        id != call.1 && was is Ok ==> r->Ok_0 == was->Ok_0,
{
}

/// No sandbox is known at first.
pub proof fn no_sandbox_at_first(
    known: SandboxRegistry,
    n: usize,
    all: Vec<SandboxState>,
    id: u128,
    r: Result<SandboxState, SandboxError>,
)
    requires
        call_ensures(SandboxRegistry::new, (), known),
        call_ensures(SandboxRegistry::count, (&known,), n),
        call_ensures(SandboxRegistry::list, (&known,), all),
        call_ensures(SandboxRegistry::get, (&known, id), r),
    ensures
        n == 0,
        all@.len() == 0,
        r is Err,
{
}

/// The list of sandboxes is what is found: each once, and all of them.
pub proof fn listed_sandboxes_are_those_found(
    known: &SandboxRegistry,
    all: Vec<SandboxState>,
    n: usize,
    id: u128,
    r: Result<SandboxState, SandboxError>,
)
    requires
        call_ensures(SandboxRegistry::list, (known,), all),
        call_ensures(SandboxRegistry::count, (known,), n),
        call_ensures(SandboxRegistry::get, (known, id), r),
    ensures
        all@.len() == n,
        r is Ok ==> exists|i: int| 0 <= i < all@.len() && #[trigger] all@[i] == r->Ok_0,
        r is Err ==> forall|i: int| 0 <= i < all@.len() ==> (#[trigger] all@[i]).id != id,
        forall|i: int, j: int|
            0 <= i < j < all@.len() ==> (#[trigger] all@[i]).id != (#[trigger] all@[j]).id,
{
    if r is Ok {
        assert(known@.contains_key(id));
        let i = choose|i: int| 0 <= i < all@.len() && (#[trigger] all@[i]).id == id;
        assert(known@.contains_pair(all@[i].id, all@[i]));
        assert(all@[i] == r->Ok_0);
    }
}

/// A copy of what is known of a sandbox says the same.
pub proof fn copied_sandboxes_are_the_same(s: SandboxState, r: SandboxState)
    requires
        call_ensures(SandboxState::clone, (&s,), r),
    ensures
        r.id == s.id,
        r.vm_pid == s.vm_pid,
        r.shell_sock == s.shell_sock,
        r == s,
{
}

} // verus!
