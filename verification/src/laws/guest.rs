//! Laws of what a guest is told.

use crate::cli::boot_plan::{
    caller_env, gateway_of, guest_env, launcher_env, sets_path, GuestNetwork,
};
use crate::cli::shell_words::{shell_words, worker_cmd_reads_back};
use crate::cli::vm_boot::{
    has_key, lemma_nothing_to_replace, maybe_rewrite_localhost, maybe_rewritten, VmBootArgs,
};
use crate::laws::words::{lemma_split, lemma_split_of};
use crate::numbers::{decimal_reads_back, parsed_unsigned};
use crate::text::{
    has_substring, matches_at, opt_str, pair_texts, replace_all, split_at_first, texts,
};
use vstd::prelude::*;

verus! {

proof fn lemma_replace_one(a: Seq<char>, pat: Seq<char>, b: Seq<char>, with: Seq<char>)
    requires
        pat.len() > 0,
        forall|i: int| 0 <= i < a.len() ==> !matches_at(a + pat + b, pat, i),
        !has_substring(b, pat),
    ensures
        replace_all(a + pat + b, pat, with) == a + with + b,
    decreases a.len(),
{
    let s = a + pat + b;
    if a.len() == 0 {
        assert(s == pat + b);
        assert(s.subrange(0, pat.len() as int) == pat);
        assert(s.skip(pat.len() as int) == b);
        lemma_nothing_to_replace(b, pat, with);
        assert(a + with + b == with + b);
    } else {
        let rest = a.skip(1);
        let t = rest + pat + b;
        assert(s.skip(1) == t);
        assert forall|i: int| 0 <= i < rest.len() implies !matches_at(t, pat, i) by {
            if matches_at(t, pat, i) {
                assert(s.subrange(i + 1, i + 1 + pat.len()) == t.subrange(i, i + pat.len()));
                assert(matches_at(s, pat, i + 1));
            }
        }
        lemma_replace_one(rest, pat, b, with);
        assert(!matches_at(s, pat, 0));
        assert(s[0] == a[0]);
        assert(seq![a[0]] + (rest + with + b) == a + with + b);
    }
}

/// A colon and two slashes stand in `s` at `i`.
spec fn url_at(s: Seq<char>, i: int) -> bool {
    0 <= i && i + 2 < s.len() && s[i] == ':' && s[i + 1] == '/' && s[i + 2] == '/'
}

proof fn lemma_one_url(a: Seq<char>, host: Seq<char>, b: Seq<char>, i: int)
    requires
        !a.contains(':'),
        !host.contains(':'),
        !host.contains('/'),
        !(b.len() > 1 && b[0] == '/' && b[1] == '/'),
        forall|j: int| !url_at(b, j),
        url_at(a + ("://"@ + host + ":"@) + b, i),
    ensures
        i == a.len(),
{
    reveal_strlit("://");
    reveal_strlit(":");
    let mid = "://"@ + host + ":"@;
    let s = a + mid + b;
    let end = a.len() + mid.len();
    if i < a.len() {
        assert(s[i] == a[i]);
        assert(a.contains(a[i]));
    } else if a.len() < i && i < end - 1 {
        assert(s[i] == mid[i - a.len()]);
        if i >= a.len() + 3 {
            assert(mid[i - a.len()] == host[i - a.len() - 3]);
            assert(host.contains(host[i - a.len() - 3]));
        }
    } else if i == end - 1 {
        assert(s[i + 1] == b[0]);
        assert(s[i + 2] == b[1]);
    } else if i >= end {
        assert(s[i] == b[i - end] && s[i + 1] == b[i + 1 - end] && s[i + 2] == b[i + 2 - end]);
        assert(url_at(b, i - end));
    }
}

proof fn lemma_no_url(b: Seq<char>, pat: Seq<char>)
    requires
        forall|j: int| !url_at(b, j),
        url_at(pat, 0),
    ensures
        !has_substring(b, pat),
{
    assert forall|i: int| !matches_at(b, pat, i) by {
        if matches_at(b, pat, i) {
            let t = b.subrange(i, i + pat.len());
            assert(t[0] == b[i] && t[1] == b[i + 1] && t[2] == b[i + 2]);
            assert(url_at(b, i));
        }
    }
}

/// Without a gateway text is left as it is; with one, text that names no
/// loopback address is.
pub proof fn other_text_is_left_alone(s: &str, gateway: Option<&str>, r: String)
    requires
        call_ensures(maybe_rewrite_localhost, (s, gateway), r),
        gateway is Some ==> !has_substring(s@, "://localhost:"@) && !has_substring(
            s@,
            "://127.0.0.1:"@,
        ),
    ensures
        r@ == s@,
{
    crate::cli::vm_boot::rewrite_leaves_other_text(s@, opt_str(gateway));
}

/// A URL that names this machine, by name or by number, is pointed at the
/// gateway; what stands before the address and what comes after the port's colon
/// are kept.
pub proof fn loopback_is_pointed_at_the_gateway(
    scheme: Seq<char>,
    rest: Seq<char>,
    s: &str,
    gateway: &str,
    r: String,
)
    requires
        call_ensures(maybe_rewrite_localhost, (s, Some(gateway)), r),
        s@ == scheme + "://localhost:"@ + rest || s@ == scheme + "://127.0.0.1:"@ + rest,
        !scheme.contains(':'),
        !(rest.len() > 1 && rest[0] == '/' && rest[1] == '/'),
        forall|j: int|
            0 <= j && j + 2 < rest.len() ==> !(#[trigger] rest[j] == ':' && rest[j + 1] == '/'
                && rest[j + 2] == '/'),
        !gateway@.contains(':'),
        !gateway@.contains('/'),
    ensures
        r@ == scheme + "://"@ + gateway@ + ":"@ + rest,
{
    reveal_strlit("://localhost:");
    reveal_strlit("://127.0.0.1:");
    reveal_strlit("://");
    reveal_strlit(":");
    reveal_strlit("localhost");
    reveal_strlit("127.0.0.1");
    let named = "://localhost:"@;
    let numbered = "://127.0.0.1:"@;
    assert(named == "://"@ + "localhost"@ + ":"@);
    assert(numbered == "://"@ + "127.0.0.1"@ + ":"@);
    let to = "://"@ + gateway@ + ":"@;
    assert forall|j: int| !url_at(rest, j) by {}
    lemma_no_url(rest, named);
    lemma_no_url(rest, numbered);
    assert(scheme + "://"@ + gateway@ + ":"@ + rest == scheme + to + rest);
    if s@ == scheme + named + rest {
        assert forall|i: int| 0 <= i < scheme.len() implies !matches_at(s@, named, i) by {
            if matches_at(s@, named, i) {
                assert(s@.subrange(i, i + named.len())[0] == s@[i]);
                assert(scheme.contains(scheme[i]));
            }
        }
        lemma_replace_one(scheme, named, rest, to);
        let once = scheme + to + rest;
        assert(once[scheme.len() as int] == ':');
        if gateway@ == "127.0.0.1"@ {
            assert(to == numbered);
            assert forall|i: int| 0 <= i < scheme.len() implies !matches_at(once, numbered, i) by {
                if matches_at(once, numbered, i) {
                    assert(once.subrange(i, i + numbered.len())[0] == once[i]);
                    assert(scheme.contains(scheme[i]));
                }
            }
            lemma_replace_one(scheme, numbered, rest, to);
        } else {
            assert forall|i: int| !matches_at(once, numbered, i) by {
                if matches_at(once, numbered, i) {
                    let t = once.subrange(i, i + numbered.len());
                    assert(t[0] == once[i] && t[1] == once[i + 1] && t[2] == once[i + 2]);
                    assert(url_at(once, i));
                    lemma_one_url(scheme, gateway@, rest, i);
                    let n = gateway@.len() as int;
                    assert forall|k: int| 3 <= k < 13 implies #[trigger] t[k] == once[i + k] by {}
                    assert forall|k: int| 0 <= k < n implies once[i + 3 + k]
                        == #[trigger] gateway@[k] by {}
                    assert(once[i + 3 + n] == ':');
                    if n == 9 {
                        assert forall|k: int| 0 <= k < 9 implies gateway@[k]
                            == "127.0.0.1"@[k] by {
                            assert(t[k + 3] == once[i + (k + 3)]);
                        }
                        assert(gateway@ == "127.0.0.1"@);
                    } else if n < 9 {
                        assert(t[n + 3] == ':');
                        assert(numbered[n + 3] != ':');
                    } else {
                        assert(t[12] == once[i + 12]);
                        assert(gateway@[9] == once[i + 3 + 9]);
                        assert(gateway@.contains(gateway@[9]));
                    }
                }
            }
            lemma_nothing_to_replace(once, numbered, to);
        }
    } else {
        assert("127.0.0.1"@[0] == '1');
        assert(!"127.0.0.1"@.contains(':'));
        assert(!"127.0.0.1"@.contains('/'));
        assert forall|i: int| !matches_at(s@, named, i) by {
            if matches_at(s@, named, i) {
                let t = s@.subrange(i, i + named.len());
                assert(t[0] == s@[i] && t[1] == s@[i + 1] && t[2] == s@[i + 2] && t[3] == s@[i
                    + 3]);
                assert(url_at(s@, i));
                lemma_one_url(scheme, "127.0.0.1"@, rest, i);
                assert(s@[i + 3] == numbered[3]);
            }
        }
        lemma_nothing_to_replace(s@, named, to);
        assert forall|i: int| 0 <= i < scheme.len() implies !matches_at(s@, numbered, i) by {
            if matches_at(s@, numbered, i) {
                assert(s@.subrange(i, i + numbered.len())[0] == s@[i]);
                assert(scheme.contains(scheme[i]));
            }
        }
        lemma_replace_one(scheme, numbered, rest, to);
    }
}

/// From `from` on, `env` holds what a guest is told of `entries`, those at the
/// positions `at`: each entry that sets a variable, and no other, once and in its
/// place. The value is the entry's own, pointed at the gateway where there is
/// one.
pub open spec fn tells_in_order(
    env: Seq<(String, String)>,
    from: int,
    entries: Seq<String>,
    gateway: Option<Seq<char>>,
    at: Seq<int>,
) -> bool {
    &&& 0 <= from && from + at.len() <= env.len()
    &&& forall|j: int, k: int| 0 <= j < k < at.len() ==> (#[trigger] at[j]) < (#[trigger] at[k])
    &&& forall|i: int|
        0 <= i < entries.len() ==> ((#[trigger] entries[i])@.contains('=') <==> at.contains(i))
    &&& forall|j: int| 0 <= j < at.len() ==> 0 <= #[trigger] at[j] < entries.len()
    &&& forall|j: int|
        0 <= j < at.len() ==> exists|v: Seq<char>|
            {
                &&& entries[#[trigger] at[j]]@ == env[from + j].0@.push('=') + v
                &&& !env[from + j].0@.contains('=')
                &&& env[from + j].1@ == #[trigger] maybe_rewritten(v, gateway)
            }
}

proof fn lemma_caller_env_positions(env: Seq<Seq<char>>, gateway: Option<Seq<char>>) -> (at: Seq<
    int,
>)
    ensures
        at.len() == caller_env(env, gateway).len(),
        forall|j: int, k: int| 0 <= j < k < at.len() ==> (#[trigger] at[j]) < (#[trigger] at[k]),
        forall|i: int|
            0 <= i < env.len() ==> ((#[trigger] env[i]).contains('=') <==> at.contains(i)),
        forall|j: int| 0 <= j < at.len() ==> 0 <= #[trigger] at[j] < env.len(),
        forall|j: int|
            0 <= j < at.len() ==> split_at_first(env[#[trigger] at[j]], '=') is Some
                && caller_env(env, gateway)[j] == (
                (split_at_first(env[at[j]], '=')->0).0,
                maybe_rewritten((split_at_first(env[at[j]], '=')->0).1, gateway),
            ),
    decreases env.len(),
{
    if env.len() == 0 {
        Seq::empty()
    } else {
        let init = env.drop_last();
        let last = env.len() - 1;
        let before = lemma_caller_env_positions(init, gateway);
        lemma_split(env.last(), '=');
        let told = caller_env(env, gateway);
        match split_at_first(env.last(), '=') {
            Some(p) => {
                let at = before.push(last);
                assert((p.0.push('=') + p.1)[p.0.len() as int] == '=');
                assert(at[before.len() as int] == last);
                assert forall|i: int| 0 <= i < env.len() implies ((#[trigger] env[i]).contains('=')
                    <==> at.contains(i)) by {
                    if i < last {
                        assert(init[i] == env[i]);
                        if before.contains(i) {
                            let j = choose|j: int| 0 <= j < before.len() && before[j] == i;
                            assert(at[j] == i);
                        }
                        if at.contains(i) {
                            let j = choose|j: int| 0 <= j < at.len() && at[j] == i;
                            assert(before[j] == i);
                        }
                    }
                }
                assert forall|j: int| 0 <= j < at.len() implies split_at_first(
                    env[#[trigger] at[j]],
                    '=',
                ) is Some && told[j] == (
                    (split_at_first(env[at[j]], '=')->0).0,
                    maybe_rewritten((split_at_first(env[at[j]], '=')->0).1, gateway),
                ) by {
                    if j < before.len() {
                        assert(at[j] == before[j]);
                        assert(init[before[j]] == env[at[j]]);
                    }
                }
                at
            },
            None => {
                assert forall|i: int| 0 <= i < env.len() implies ((#[trigger] env[i]).contains('=')
                    <==> before.contains(i)) by {
                    if i < last {
                        assert(init[i] == env[i]);
                    } else if before.contains(i) {
                        let j = choose|j: int| 0 <= j < before.len() && before[j] == i;
                        assert(before[j] < init.len());
                    }
                }
                assert forall|j: int| 0 <= j < before.len() implies split_at_first(
                    env[#[trigger] before[j]],
                    '=',
                ) is Some && told[j] == (
                    (split_at_first(env[before[j]], '=')->0).0,
                    maybe_rewritten((split_at_first(env[before[j]], '=')->0).1, gateway),
                ) by {
                    assert(init[before[j]] == env[before[j]]);
                }
                before
            },
        }
    }
}

/// Some of `entries` sets the variable `key`.
pub open spec fn gives(entries: Seq<String>, key: Seq<char>) -> bool {
    exists|i: int, v: Seq<char>|
        0 <= i < entries.len() && (#[trigger] entries[i])@ == #[trigger] (key.push('=') + v)
}

pub(crate) proof fn lemma_gives(entries: Seq<String>, key: Seq<char>)
    requires
        !key.contains('='),
    ensures
        gives(entries, key) <==> exists|i: int|
            0 <= i < entries.len() && has_key(#[trigger] entries[i]@, key),
{
    if gives(entries, key) {
        let (i, v) = choose|i: int, v: Seq<char>|
            0 <= i < entries.len() && (#[trigger] entries[i])@ == #[trigger] (key.push('=') + v);
        lemma_split_of(key, '=', v);
        assert(has_key(entries[i]@, key));
    }
    if exists|i: int| 0 <= i < entries.len() && has_key(#[trigger] entries[i]@, key) {
        let i = choose|i: int| 0 <= i < entries.len() && has_key(#[trigger] entries[i]@, key);
        lemma_split(entries[i]@, '=');
        let v = (split_at_first(entries[i]@, '=')->0).1;
        assert(entries[i]@ == key.push('=') + v);
    }
}

/// What a guest is told begins with what the launcher says, so many pairs; then
/// come the caller's variables, all of them, in the caller's order; and last a
/// default `PATH`, if and only if the caller gives none.
pub proof fn callers_variables_reach_the_guest(
    args: &VmBootArgs,
    net: &Option<GuestNetwork>,
    shell_port: bool,
    mounts_env: &str,
    env: Vec<(String, String)>,
    gateway: Option<Seq<char>>,
    launcher: int,
)
    requires
        call_ensures(guest_env, (args, net, shell_port, mounts_env), env),
        net is None ==> gateway is None,
        net matches Some(n) ==> gateway == Some(n.gateway_ip@),
        launcher == 2 + (if net is Some {
            4int
        } else {
            0
        }) + (if args.control_sock is Some {
            2int
        } else {
            0
        }) + (if shell_port {
            1int
        } else {
            0
        }) + (if mounts_env@.len() > 0 {
            1int
        } else {
            0
        }),
    ensures
        exists|at: Seq<int>|
            {
                &&& #[trigger] tells_in_order(env@, launcher, args.env@, gateway, at)
                &&& gives(args.env@, "PATH"@) ==> env@.len() == launcher + at.len()
                &&& !gives(args.env@, "PATH"@) ==> env@.len() == launcher + at.len() + 1
            },
        !gives(args.env@, "PATH"@) ==> env@.last().0@ == "PATH"@ && env@.last().1@
            == crate::cli::vm_boot::DEFAULT_GUEST_PATH@,
{
    reveal_strlit("PATH");
    assert(!"PATH"@.contains('='));
    lemma_gives(args.env@, "PATH"@);
    let entries = texts(args.env@);
    assert(entries.len() == args.env@.len());
    assert(sets_path(entries) <==> gives(args.env@, "PATH"@)) by {
        if sets_path(entries) {
            let k = choose|k: int|
                0 <= k < entries.len() && has_key(#[trigger] entries[k], "PATH"@);
            assert(has_key(args.env@[k]@, "PATH"@));
        }
        if gives(args.env@, "PATH"@) {
            let k = choose|k: int|
                0 <= k < args.env@.len() && has_key(#[trigger] args.env@[k]@, "PATH"@);
            assert(has_key(entries[k], "PATH"@));
        }
    }
    let head = launcher_env(*args, *net, shell_port, mounts_env@);
    let told = caller_env(entries, gateway);
    let at = lemma_caller_env_positions(entries, gateway);
    assert(launcher == head.len());
    let all = pair_texts(env@);
    assert(all.len() == env@.len());
    assert forall|j: int| 0 <= j < told.len() implies (env@[launcher + j]).0@ == (
    #[trigger] told[j]).0 && env@[launcher + j].1@ == told[j].1 by {
        assert(all[launcher + j] == told[j]);
    }
    assert forall|i: int| 0 <= i < args.env@.len() implies ((#[trigger] args.env@[i])@.contains('=')
        <==> at.contains(i)) by {
        assert(entries[i] == args.env@[i]@);
    }
    assert forall|j: int| 0 <= j < at.len() implies exists|v: Seq<char>|
        {
            &&& args.env@[#[trigger] at[j]]@ == env@[launcher + j].0@.push('=') + v
            &&& !env@[launcher + j].0@.contains('=')
            &&& env@[launcher + j].1@ == #[trigger] maybe_rewritten(v, gateway)
        } by {
        assert(split_at_first(entries[at[j]], '=') is Some);
        lemma_split(entries[at[j]], '=');
        let p = split_at_first(entries[at[j]], '=')->0;
        assert(entries[at[j]] == args.env@[at[j]]@);
        assert(told[j] == (p.0, maybe_rewritten(p.1, gateway)));
        assert(env@[launcher + j].1@ == maybe_rewritten(p.1, gateway));
    }
    assert(tells_in_order(env@, launcher, args.env@, gateway, at));
    if sets_path(entries) {
        assert(all == head + told + Seq::<(Seq<char>, Seq<char>)>::empty());
    } else {
        assert(all == head + told + seq![("PATH"@, crate::cli::vm_boot::DEFAULT_GUEST_PATH@)]);
        assert(all[all.len() - 1].0 == "PATH"@);
        assert(all[all.len() - 1].1 == crate::cli::vm_boot::DEFAULT_GUEST_PATH@);
        assert(env@[env@.len() - 1].0@ == all[all.len() - 1].0);
    }
}

/// A guest is told that `key` is `value`.
pub open spec fn told(env: Seq<(String, String)>, key: Seq<char>, value: Seq<char>) -> bool {
    exists|j: int| 0 <= j < env.len() && (#[trigger] env[j]).0@ == key && env[j].1@ == value
}

/// A guest is told something of `key`.
pub open spec fn told_of(env: Seq<(String, String)>, key: Seq<char>) -> bool {
    exists|j: int| 0 <= j < env.len() && (#[trigger] env[j]).0@ == key
}

/// Each variable that the caller gives reaches the guest: as it was given where
/// there is no network, and pointed at the gateway where there is one.
pub proof fn each_variable_reaches_the_guest(
    args: &VmBootArgs,
    net: &Option<GuestNetwork>,
    shell_port: bool,
    mounts_env: &str,
    env: Vec<(String, String)>,
    i: int,
    key: Seq<char>,
    value: Seq<char>,
)
    requires
        call_ensures(guest_env, (args, net, shell_port, mounts_env), env),
        0 <= i < args.env@.len(),
        args.env@[i]@ == key.push('=') + value,
        !key.contains('='),
    ensures
        net is None ==> told(env@, key, value),
        net matches Some(n) ==> told(env@, key, maybe_rewritten(value, Some(n.gateway_ip@))),
{
    let entries = texts(args.env@);
    let gateway = gateway_of(*net);
    let at = lemma_caller_env_positions(entries, gateway);
    lemma_split_of(key, '=', value);
    assert(entries[i] == args.env@[i]@);
    assert((key.push('=') + value)[key.len() as int] == '=');
    assert(entries[i].contains('='));
    let j = choose|j: int| 0 <= j < at.len() && at[j] == i;
    assert(caller_env(entries, gateway)[j] == (key, maybe_rewritten(value, gateway)));
    let head = launcher_env(*args, *net, shell_port, mounts_env@);
    let all = pair_texts(env@);
    assert(all.len() == env@.len());
    assert(all[head.len() + j] == (key, maybe_rewritten(value, gateway)));
    assert(env@[head.len() + j].0@ == key);
}

/// A caller that sets `PATH` has it set in the guest; a guest whose caller does
/// not gets the default.
pub proof fn guest_has_a_path(
    args: &VmBootArgs,
    net: &Option<GuestNetwork>,
    shell_port: bool,
    mounts_env: &str,
    env: Vec<(String, String)>,
)
    requires
        call_ensures(guest_env, (args, net, shell_port, mounts_env), env),
    ensures
        told_of(env@, "PATH"@),
        !gives(args.env@, "PATH"@) ==> told(
            env@,
            "PATH"@,
            crate::cli::vm_boot::DEFAULT_GUEST_PATH@,
        ),
{
    reveal_strlit("PATH");
    assert(!"PATH"@.contains('='));
    let launcher = launcher_env(*args, *net, shell_port, mounts_env@).len() as int;
    callers_variables_reach_the_guest(
        args,
        net,
        shell_port,
        mounts_env,
        env,
        gateway_of(*net),
        launcher,
    );
    if gives(args.env@, "PATH"@) {
        let (i, v) = choose|i: int, v: Seq<char>|
            0 <= i < args.env@.len() && (#[trigger] args.env@[i])@ == #[trigger] (
            "PATH"@.push('=') + v);
        each_variable_reaches_the_guest(
            args,
            net,
            shell_port,
            mounts_env,
            env,
            i,
            "PATH"@,
            v,
        );
    } else {
        assert(env@[env@.len() - 1].0@ == "PATH"@);
    }
}

proof fn lemma_launcher_keys(
    args: VmBootArgs,
    net: Option<GuestNetwork>,
    shell_port: bool,
    mounts_env: Seq<char>,
    j: int,
)
    requires
        0 <= j < launcher_env(args, net, shell_port, mounts_env).len(),
    ensures
        ({
            let key = launcher_env(args, net, shell_port, mounts_env)[j].0;
            ||| key == "III_WORKER_CMD"@
            ||| key == "III_WORKER_MEM_BYTES"@
            ||| net is Some && (key == "III_INIT_DNS"@ || key == "III_INIT_IP"@ || key
                == "III_INIT_GW"@ || key == "III_INIT_CIDR"@)
            ||| args.control_sock is Some && (key == "III_CONTROL_PORT"@ || key
                == "III_WORKER_WORKDIR"@)
            ||| shell_port && key == "III_SHELL_PORT"@
            ||| mounts_env.len() > 0 && key == "III_VIRTIOFS_MOUNTS"@
        }),
{
}

proof fn lemma_keys_differ()
    ensures
        "III_WORKER_CMD"@.len() == 14,
        "III_WORKER_MEM_BYTES"@.len() == 20,
        "III_INIT_DNS"@.len() == 12,
        "III_INIT_IP"@.len() == 11,
        "III_INIT_GW"@.len() == 11,
        "III_INIT_CIDR"@.len() == 13,
        "III_CONTROL_PORT"@.len() == 16,
        "III_WORKER_WORKDIR"@.len() == 18,
        "III_SHELL_PORT"@.len() == 14,
        "III_VIRTIOFS_MOUNTS"@.len() == 19,
        "PATH"@.len() == 4,
        "III_WORKER_CMD"@ != "III_SHELL_PORT"@,
{
    reveal_strlit("III_INIT_DNS");
    reveal_strlit("III_INIT_IP");
    reveal_strlit("III_INIT_GW");
    reveal_strlit("III_INIT_CIDR");
    reveal_strlit("III_WORKER_CMD");
    reveal_strlit("III_WORKER_MEM_BYTES");
    reveal_strlit("III_CONTROL_PORT");
    reveal_strlit("III_WORKER_WORKDIR");
    reveal_strlit("III_SHELL_PORT");
    reveal_strlit("III_VIRTIOFS_MOUNTS");
    reveal_strlit("PATH");
    assert("III_WORKER_CMD"@[4] == 'W');
    assert("III_SHELL_PORT"@[4] == 'S');
}

proof fn lemma_told_from_launcher(
    args: &VmBootArgs,
    net: &Option<GuestNetwork>,
    shell_port: bool,
    mounts_env: &str,
    env: Vec<(String, String)>,
    j: int,
)
    requires
        call_ensures(guest_env, (args, net, shell_port, mounts_env), env),
        0 <= j < launcher_env(*args, *net, shell_port, mounts_env@).len(),
    ensures
        ({
            let pair = launcher_env(*args, *net, shell_port, mounts_env@)[j];
            told(env@, pair.0, pair.1)
        }),
{
    let pair = launcher_env(*args, *net, shell_port, mounts_env@)[j];
    let all = pair_texts(env@);
    assert(all.len() == env@.len());
    assert(all[j] == pair);
    assert(env@[j].0@ == pair.0 && env@[j].1@ == pair.1);
}

/// A guest with a network is told its own address, its gateway's and its
/// resolver's, each as it is.
pub proof fn guest_is_told_its_addresses(
    args: &VmBootArgs,
    net: &Option<GuestNetwork>,
    shell_port: bool,
    mounts_env: &str,
    env: Vec<(String, String)>,
)
    requires
        call_ensures(guest_env, (args, net, shell_port, mounts_env), env),
        net is Some,
    ensures
        told(env@, "III_INIT_DNS"@, net->0.dns@),
        told(env@, "III_INIT_IP"@, net->0.guest_ip@),
        told(env@, "III_INIT_GW"@, net->0.gateway_ip@),
        told(env@, "III_INIT_CIDR"@, "30"@),
{
    lemma_told_from_launcher(args, net, shell_port, mounts_env, env, 1);
    lemma_told_from_launcher(args, net, shell_port, mounts_env, env, 2);
    lemma_told_from_launcher(args, net, shell_port, mounts_env, env, 3);
    lemma_told_from_launcher(args, net, shell_port, mounts_env, env, 4);
}

/// A guest is told of its control channel and its directory, of its shell
/// channel, and of its mounts, if and only if it has them.
pub proof fn guest_is_told_of_its_channels(
    args: &VmBootArgs,
    net: &Option<GuestNetwork>,
    shell_port: bool,
    mounts_env: &str,
    env: Vec<(String, String)>,
)
    requires
        call_ensures(guest_env, (args, net, shell_port, mounts_env), env),
    ensures
        args.control_sock is Some ==> told(env@, "III_CONTROL_PORT"@, "iii.control"@) && told(
            env@,
            "III_WORKER_WORKDIR"@,
            args.workdir@,
        ),
        shell_port ==> told(env@, "III_SHELL_PORT"@, "iii.exec"@),
        mounts_env@.len() > 0 ==> told(env@, "III_VIRTIOFS_MOUNTS"@, mounts_env@),
{
    let n: int = if net is Some {
        4
    } else {
        0
    };
    let c: int = if args.control_sock is Some {
        2
    } else {
        0
    };
    let h: int = if shell_port {
        1
    } else {
        0
    };
    if args.control_sock is Some {
        lemma_told_from_launcher(args, net, shell_port, mounts_env, env, 2 + n);
        lemma_told_from_launcher(args, net, shell_port, mounts_env, env, 3 + n);
    }
    if shell_port {
        lemma_told_from_launcher(args, net, shell_port, mounts_env, env, 2 + n + c);
    }
    if mounts_env@.len() > 0 {
        lemma_told_from_launcher(args, net, shell_port, mounts_env, env, 2 + n + c + h);
    }
}

/// What a guest does not have, nobody but its caller tells it of.
pub proof fn guest_is_told_of_nothing_else(
    args: &VmBootArgs,
    net: &Option<GuestNetwork>,
    shell_port: bool,
    mounts_env: &str,
    env: Vec<(String, String)>,
    key: Seq<char>,
)
    requires
        call_ensures(guest_env, (args, net, shell_port, mounts_env), env),
        !gives(args.env@, key),
        ({
            ||| net is None && (key == "III_INIT_DNS"@ || key == "III_INIT_IP"@ || key
                == "III_INIT_GW"@ || key == "III_INIT_CIDR"@)
            ||| args.control_sock is None && (key == "III_CONTROL_PORT"@ || key
                == "III_WORKER_WORKDIR"@)
            ||| !shell_port && key == "III_SHELL_PORT"@
            ||| mounts_env@.len() == 0 && key == "III_VIRTIOFS_MOUNTS"@
        }),
    ensures
        !told_of(env@, key),
{
    lemma_keys_differ();
    if told_of(env@, key) {
        let j = choose|j: int| 0 <= j < env@.len() && (#[trigger] env@[j]).0@ == key;
        let entries = texts(args.env@);
        let gateway = gateway_of(*net);
        let head = launcher_env(*args, *net, shell_port, mounts_env@);
        let all = pair_texts(env@);
        let at = lemma_caller_env_positions(entries, gateway);
        assert(all.len() == env@.len());
        assert(all[j].0 == key);
        if j < head.len() {
            assert(all[j] == head[j]);
            lemma_launcher_keys(*args, *net, shell_port, mounts_env@, j);
        } else if j < head.len() + at.len() {
            let k = j - head.len();
            assert(all[j] == caller_env(entries, gateway)[k]);
            lemma_split(entries[at[k]], '=');
            let p = split_at_first(entries[at[k]], '=')->0;
            assert(split_at_first(entries[at[k]], '=') is Some);
            assert(args.env@[at[k]]@ == entries[at[k]]);
            assert(args.env@[at[k]]@ == key.push('=') + p.1);
            assert(gives(args.env@, key));
        } else {
            assert(all[j].0 == "PATH"@);
        }
    }
}

/// A guest is told of three quarters of its VM's memory, in whole MiB and never
/// less than 128 of them.
pub proof fn guest_is_told_its_share_of_memory(
    args: &VmBootArgs,
    net: &Option<GuestNetwork>,
    shell_port: bool,
    mounts_env: &str,
    env: Vec<(String, String)>,
)
    requires
        call_ensures(guest_env, (args, net, shell_port, mounts_env), env),
    ensures
        exists|text: Seq<char>, mib: nat|
            {
                &&& told(env@, "III_WORKER_MEM_BYTES"@, text)
                &&& #[trigger] parsed_unsigned(text, u64::MAX as nat) == Some(
                    #[trigger] (mib * 1048576),
                )
                &&& mib >= 128
                &&& 4 * mib <= 3 * args.ram || mib == 128
                &&& 3 * args.ram < 4 * (mib + 1)
            },
{
    let n: int = if net is Some {
        4
    } else {
        0
    };
    lemma_told_from_launcher(args, net, shell_port, mounts_env, env, 1 + n);
    let text = launcher_env(*args, *net, shell_port, mounts_env@)[1 + n].1;
    let bytes = crate::cli::boot_plan::worker_heap_bytes(args.ram as int) as nat;
    decimal_reads_back(bytes, u64::MAX as nat);
    let mib: nat = (if args.ram * 3 / 4 < 128 {
        128
    } else {
        args.ram * 3 / 4
    }) as nat;
    assert(parsed_unsigned(text, u64::MAX as nat) == Some((mib * 1048576) as nat));
}

/// A guest is told to run its program with its arguments: a shell reads them
/// back from the command, each as it was given, before loopback addresses are
/// pointed at the gateway.
pub proof fn guest_is_told_its_command(
    args: &VmBootArgs,
    net: &Option<GuestNetwork>,
    shell_port: bool,
    mounts_env: &str,
    env: Vec<(String, String)>,
)
    requires
        call_ensures(guest_env, (args, net, shell_port, mounts_env), env),
        args.exec_path@.len() > 0,
        forall|i: int| 0 <= i < args.arg@.len() ==> (#[trigger] args.arg@[i])@.len() > 0,
    ensures
        exists|cmd: Seq<char>|
            {
                &&& #[trigger] shell_words(cmd) == Some(
                    seq![args.exec_path@] + args.arg@.map_values(|a: String| a@),
                )
                &&& net is None ==> told(env@, "III_WORKER_CMD"@, cmd)
                &&& net matches Some(n) ==> told(
                    env@,
                    "III_WORKER_CMD"@,
                    maybe_rewritten(cmd, Some(n.gateway_ip@)),
                )
            },
{
    let words = texts(args.arg@);
    assert forall|i: int| 0 <= i < words.len() implies (#[trigger] words[i]).len() > 0 by {
        assert(args.arg@[i]@.len() > 0);
    }
    worker_cmd_reads_back(args.exec_path@, words);
    lemma_told_from_launcher(args, net, shell_port, mounts_env, env, 0);
    let cmd = crate::cli::vm_boot::worker_cmd(args.exec_path@, words);
    assert(shell_words(cmd) == Some(seq![args.exec_path@] + words));
}

/// With a gateway text is rewritten for that gateway, and as it is anywhere
/// else.
pub proof fn rewriting_is_for_the_gateway(s: &str, gateway: &str, some: String, r: String)
    requires
        call_ensures(maybe_rewrite_localhost, (s, Some(gateway)), some),
        call_ensures(crate::cli::vm_boot::rewrite_localhost, (s, gateway), r),
    ensures
        r@ == some@,
{
}

} // verus!
