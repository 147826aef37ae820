//! Laws of the variables that callers give.

use crate::cli::worker_manager::boot_args::glued;
use crate::sandbox_daemon::errors::SandboxError;
use crate::sandbox_daemon::exec::{bad_names, is_valid_env_name, valid_env_name, EnvShape};
use crate::str_map::{listing, listing_is_complete, StrMap};
use crate::text::texts;
use vstd::prelude::*;

verus! {

/// `entries` are the variables that a caller gave, each as one `KEY=VALUE` text:
/// a list entry by entry as it stands; of a map every key with its value, and
/// nothing else.
pub open spec fn are_the_variables(entries: Seq<String>, env: EnvShape) -> bool {
    match env {
        EnvShape::Vec(v) => {
            &&& entries.len() == v@.len()
            &&& forall|i: int| 0 <= i < v@.len() ==> (#[trigger] entries[i])@ == v@[i]@
        },
        EnvShape::Keyed(m) => {
            &&& entries.len() == m@.len()
            &&& forall|k: Seq<char>| #[trigger]
                m@.contains_key(k) ==> exists|i: int|
                    0 <= i < entries.len() && (#[trigger] entries[i])@ == k + "="@ + m@[k]
            &&& forall|i: int|
                0 <= i < entries.len() ==> exists|k: Seq<char>| #[trigger]
                    m@.contains_key(k) && (#[trigger] entries[i])@ == k + "="@ + m@[k]
        },
    }
}

pub(crate) proof fn lemma_bad_names(pairs: Seq<(Seq<char>, Seq<char>)>)
    ensures
        bad_names(pairs).len() == 0 <==> forall|i: int|
            0 <= i < pairs.len() ==> valid_env_name((#[trigger] pairs[i]).0),
    decreases pairs.len(),
{
    if pairs.len() > 0 {
        let init = pairs.drop_last();
        lemma_bad_names(init);
        if bad_names(pairs).len() == 0 {
            assert forall|i: int| 0 <= i < pairs.len() implies valid_env_name(
                (#[trigger] pairs[i]).0,
            ) by {
                if i < init.len() {
                    assert(valid_env_name(init[i].0));
                }
            }
        }
        if forall|i: int| 0 <= i < pairs.len() ==> valid_env_name((#[trigger] pairs[i]).0) {
            assert forall|i: int| 0 <= i < init.len() implies valid_env_name(
                (#[trigger] init[i]).0,
            ) by {
                assert(valid_env_name(pairs[i].0));
            }
            assert(valid_env_name(pairs[pairs.len() - 1].0));
        }
    }
}

pub(crate) proof fn lemma_variables(entries: Seq<String>, env: EnvShape)
    requires
        env.kv_spec() == Ok::<Seq<Seq<char>>, Seq<char>>(texts(entries)),
    ensures
        are_the_variables(entries, env),
{
    let told = texts(entries);
    assert(told.len() == entries.len());
    match env {
        EnvShape::Vec(v) => {
            assert(texts(v@).len() == v@.len());
            assert forall|i: int| 0 <= i < v@.len() implies (#[trigger] entries[i])@ == v@[i]@ by {
                assert(told[i] == texts(v@)[i]);
            }
        },
        EnvShape::Keyed(m) => {
            listing_is_complete(m);
            let pairs = listing(m@);
            assert(told == glued(pairs, "="@));
            assert forall|k: Seq<char>| #[trigger] m@.contains_key(k) implies exists|i: int|
                0 <= i < entries.len() && (#[trigger] entries[i])@ == k + "="@ + m@[k] by {
                let i = choose|i: int| 0 <= i < pairs.len() && (#[trigger] pairs[i]).0 == k;
                assert(m@.contains_pair(pairs[i].0, pairs[i].1));
                assert(told[i] == k + "="@ + m@[k]);
                assert(entries[i]@ == told[i]);
            }
            assert forall|i: int| 0 <= i < entries.len() implies exists|k: Seq<char>| #[trigger]
                m@.contains_key(k) && (#[trigger] entries[i])@ == k + "="@ + m@[k] by {
                assert(m@.contains_pair(pairs[i].0, pairs[i].1));
                assert(m@.contains_key(pairs[i].0));
                assert(told[i] == pairs[i].0 + "="@ + pairs[i].1);
                assert(entries[i]@ == told[i]);
            }
        },
    }
}

/// A name is a variable's if and only if it is not empty, does not begin with a
/// digit, and holds only ASCII letters, digits and underscores.
pub proof fn variable_names_are_identifiers(name: &str, r: bool)
    requires
        call_ensures(is_valid_env_name, (name,), r),
    ensures
        r <==> {
            &&& name@.len() > 0
            &&& !('0' <= name@[0] <= '9')
            &&& forall|i: int|
                0 <= i < name@.len() ==> {
                    let c = #[trigger] name@[i];
                    ('a' <= c <= 'z') || ('A' <= c <= 'Z') || ('0' <= c <= '9') || c == '_'
                }
        },
{
    if r {
        assert forall|i: int| 0 <= i < name@.len() implies {
            let c = #[trigger] name@[i];
            ('a' <= c <= 'z') || ('A' <= c <= 'Z') || ('0' <= c <= '9') || c == '_'
        } by {
            assert(crate::sandbox_daemon::exec::env_name_char(name@[i]));
        }
    } else if name@.len() > 0 && !('0' <= name@[0] <= '9') {
        let i = choose|i: int|
            0 <= i < name@.len() && !crate::sandbox_daemon::exec::env_name_char(
                #[trigger] name@[i],
            );
        let c = name@[i];
    }
}

/// The variables come out as they went in, none lost, none added and none
/// changed; they come out at all if and only if every key of a map may name a
/// variable, and otherwise the request is at fault.
pub proof fn variables_are_kept(env: EnvShape, r: Result<Vec<String>, SandboxError>)
    requires
        call_ensures(EnvShape::into_kv_vec, (env,), r),
    ensures
        r matches Ok(entries) ==> are_the_variables(entries@, env),
        r matches Err(e) ==> e is InvalidRequest,
        env is Vec ==> r is Ok,
        env matches EnvShape::Keyed(m) ==> (r is Ok <==> forall|k: Seq<char>| #[trigger]
            m@.contains_key(k) ==> valid_env_name(k)),
{
    match r {
        Ok(entries) => lemma_variables(entries@, env),
        Err(_) => {},
    }
    match env {
        EnvShape::Vec(_) => {},
        EnvShape::Keyed(m) => {
            listing_is_complete(m);
            let pairs = listing(m@);
            lemma_bad_names(pairs);
            if r is Ok {
                assert forall|k: Seq<char>| #[trigger] m@.contains_key(k) implies valid_env_name(
                    k,
                ) by {
                    let i = choose|i: int| 0 <= i < pairs.len() && (#[trigger] pairs[i]).0 == k;
                    assert(valid_env_name(pairs[i].0));
                }
            } else {
                let i = choose|i: int|
                    0 <= i < pairs.len() && !valid_env_name((#[trigger] pairs[i]).0);
                assert(m@.contains_pair(pairs[i].0, pairs[i].1));
                assert(m@.contains_key(pairs[i].0));
            }
        },
    }
}

/// Two maps that differ in a key or in a value give different variables.
pub proof fn variables_tell_maps_apart(
    a: StrMap,
    b: StrMap,
    from_a: Vec<String>,
    from_b: Vec<String>,
    k: Seq<char>,
)
    requires
        call_ensures(EnvShape::into_kv_vec, (EnvShape::Keyed(a),), Ok(from_a)),
        call_ensures(EnvShape::into_kv_vec, (EnvShape::Keyed(b),), Ok(from_b)),
        a@.contains_key(k),
        forall|q: Seq<char>| #[trigger] b@.contains_key(q) ==> q + "="@ + b@[q] != k + "="@ + a@[k],
    ensures
        texts(from_a@) != texts(from_b@),
{
    lemma_variables(from_a@, EnvShape::Keyed(a));
    lemma_variables(from_b@, EnvShape::Keyed(b));
    let i = choose|i: int|
        0 <= i < from_a@.len() && (#[trigger] from_a@[i])@ == k + "="@ + a@[k];
    assert(texts(from_a@)[i] == from_a@[i]@);
    if texts(from_a@) == texts(from_b@) {
        assert(texts(from_a@).len() == from_a@.len());
        assert(texts(from_b@).len() == from_b@.len());
        assert(texts(from_b@)[i] == from_b@[i]@);
        let q = choose|q: Seq<char>| #[trigger]
            b@.contains_key(q) && from_b@[i]@ == q + "="@ + b@[q];
    }
}

/// A copy of the variables gives the same list, or the same complaint.
pub proof fn copied_variables_are_the_same(
    env: EnvShape,
    copy: EnvShape,
    list: Result<Vec<String>, SandboxError>,
    of_copy: Result<Vec<String>, SandboxError>,
    i: int,
)
    requires
        call_ensures(EnvShape::clone, (&env,), copy),
        call_ensures(EnvShape::into_kv_vec, (env,), list),
        call_ensures(EnvShape::into_kv_vec, (copy,), of_copy),
    ensures
        copy is Vec <==> env is Vec,
        list is Ok <==> of_copy is Ok,
        list is Ok ==> list->Ok_0@.len() == of_copy->Ok_0@.len(),
        list is Ok && 0 <= i < list->Ok_0@.len() ==> list->Ok_0@[i]@ == of_copy->Ok_0@[i]@,
{
    if list is Ok {
        let a = crate::text::texts(list->Ok_0@);
        let b = crate::text::texts(of_copy->Ok_0@);
        assert(a == b);
        assert(a.len() == list->Ok_0@.len() && b.len() == of_copy->Ok_0@.len());
        if 0 <= i < a.len() {
            assert(a[i] == b[i]);
        }
    }
}

} // verus!
