//! What the VM boot process decides: which mounts and environment the guest
//! gets, how its command line is quoted, and what is cleaned up at exit.

use crate::numbers::{decimal, decimal_is_injective, u64_text};
use crate::paths::{join_path, joined};
use crate::text::{
    alphanumeric, concat, concat3, has_substring, is_alphanumeric, join_strings, join_with, matches_at,
    opt_str, opt_text, replace_all, replace_text, same_text, split_at_first, split_once, texts,
};
use vstd::prelude::*;

verus! {

/// Arguments of the VM boot process.
#[derive(Debug)]
pub struct VmBootArgs {
    /// Path to the guest rootfs directory.
    pub rootfs: String,
    /// Executable path inside the guest.
    pub exec_path: String,
    /// Arguments to pass to the guest executable.
    pub arg: Vec<String>,
    /// Working directory inside the guest.
    pub workdir: String,
    /// Number of vCPUs.
    pub vcpus: u32,
    /// RAM in MiB.
    pub ram: u32,
    /// Volume mounts (`host_path:guest_path`).
    pub mount: Vec<String>,
    /// Environment variables (`KEY=VALUE`).
    pub env: Vec<String>,
    /// PID file to clean up on VM exit.
    pub pid_file: Option<String>,
    /// File that receives the VM's console output.
    pub console_output: Option<String>,
    /// Network slot for address derivation.
    pub slot: u64,
    /// Unix socket on which control requests are served.
    pub control_sock: Option<String>,
    /// Enable SMT in the guest.
    pub hyperthreading: bool,
    /// Enable nested virtualization.
    pub nested_virt: bool,
    /// DAX window (MiB) of every virtiofs mount; 0 leaves the default.
    pub virtiofs_shm_size_mib: u32,
    /// Limit on the guest worker's open files; 0 leaves it unset.
    pub nofile_limit: u64,
    /// Unix socket on which exec clients are served.
    pub shell_sock: Option<String>,
    /// Attach a network device to the guest.
    pub network: bool,
}

/// One `host:guest` mount, expanded into a virtiofs attach.
#[derive(Debug, Clone, PartialEq, Eq)]
pub struct VirtiofsMountEntry {
    pub tag: String,
    pub host_path: String,
    pub guest_path: String,
}

/// The virtiofs attaches of a boot, and what the guest is told of them.
#[derive(Debug, Clone, PartialEq, Eq)]
pub struct VirtiofsMountPlan {
    /// Attach entries in argument order, tagged `virtiofs_N`.
    pub entries: Vec<VirtiofsMountEntry>,
    /// `tag1=/guest/path1;tag2=/guest/path2`.
    pub env_var: String,
}

/// The host and guest halves of a well-formed mount argument.
pub open spec fn mount_halves(m: Seq<char>) -> Option<(Seq<char>, Seq<char>)> {
    match split_at_first(m, ':') {
        Some(p) => if p.0.len() > 0 && p.1.len() > 0 {
            Some(p)
        } else {
            None
        },
        None => None,
    }
}

/// The virtiofs tag of the `i`-th mount.
pub open spec fn mount_tag(i: int) -> Seq<char> {
    "virtiofs_"@ + decimal(i as nat)
}

/// `e` attaches the `i`-th mount `m`.
pub open spec fn entry_attaches(e: VirtiofsMountEntry, i: int, m: Seq<char>) -> bool {
    &&& e.tag@ == mount_tag(i)
    &&& mount_halves(m) == Some((e.host_path@, e.guest_path@))
}

/// The guest half of a well-formed mount argument.
pub open spec fn guest_half(m: Seq<char>) -> Seq<char> {
    match mount_halves(m) {
        Some(p) => p.1,
        None => Seq::empty(),
    }
}

/// What the guest reads of each mount: `tag=guest`.
pub open spec fn mount_pairs(mounts: Seq<Seq<char>>) -> Seq<Seq<char>> {
    Seq::new(mounts.len(), |i: int| mount_tag(i) + "="@ + guest_half(mounts[i]))
}

/// The message for a malformed mount argument.
pub open spec fn bad_mount_message(m: Seq<char>) -> Seq<char> {
    "Invalid mount format '"@ + m + "'. Expected host:guest"@
}

/// Parse `host:guest` arguments into a virtiofs attach plan and the string
/// that tells the guest about it. The first malformed argument is an error.
pub fn build_virtiofs_mount_plan(mounts: &[String]) -> (r: Result<VirtiofsMountPlan, String>)
    ensures
        match r {
            Ok(plan) => {
                &&& forall|i: int| 0 <= i < mounts@.len() ==> mount_halves(mounts@[i]@) is Some
                &&& plan.entries@.len() == mounts@.len()
                &&& forall|i: int|
                    0 <= i < mounts@.len() ==> entry_attaches(
                        #[trigger] plan.entries@[i],
                        i,
                        mounts@[i]@,
                    )
                &&& plan.env_var@ == join_with(mount_pairs(texts(mounts@)), ";"@)
            },
            Err(e) => exists|i: int|
                {
                    &&& 0 <= i < mounts@.len()
                    &&& mount_halves(#[trigger] mounts@[i]@) is None
                    &&& forall|j: int| 0 <= j < i ==> mount_halves(mounts@[j]@) is Some
                    &&& e@ == bad_mount_message(mounts@[i]@)
                },
        },
{
    let mut entries: Vec<VirtiofsMountEntry> = Vec::new();
    let mut pairs: Vec<String> = Vec::new();
    let mut i: usize = 0;
    while i < mounts.len()
        invariant
            i <= mounts@.len(),
            entries@.len() == i,
            pairs@.len() == i,
            forall|j: int| 0 <= j < i ==> mount_halves(mounts@[j]@) is Some,
            forall|j: int|
                0 <= j < i ==> entry_attaches(#[trigger] entries@[j], j, mounts@[j]@),
            forall|j: int|
                0 <= j < i ==> (#[trigger] pairs@[j])@ == mount_pairs(texts(mounts@))[j],
        decreases mounts@.len() - i,
    {
        let halves = match split_once(mounts[i].as_str(), ':') {
            Some(p) => if !p.0.as_str().is_empty() && !p.1.as_str().is_empty() {
                Some(p)
            } else {
                None
            },
            None => None,
        };
        match halves {
            Some(p) => {
                let tag = concat("virtiofs_", u64_text(i as u64).as_str());
                let pair = concat3(tag.as_str(), "=", p.1.as_str());
                assert(pair@ == mount_pairs(texts(mounts@))[i as int]);
                pairs.push(pair);
                entries.push(VirtiofsMountEntry { tag, host_path: p.0, guest_path: p.1 });
            },
            None => {
                let message = concat3(
                    "Invalid mount format '",
                    mounts[i].as_str(),
                    "'. Expected host:guest",
                );
                assert(mount_halves(mounts@[i as int]@) is None);
                return Err(message);
            },
        }
        i += 1;
    }
    let env_var = join_strings(pairs.as_slice(), ";");
    assert(texts(pairs@) == mount_pairs(texts(mounts@)));
    Ok(VirtiofsMountPlan { entries, env_var })
}

/// Where the firmware file would lie, if its directory was found.
pub fn krunfw_candidate(dir: &Option<String>, filename: &str) -> (r: Option<String>)
    ensures
        opt_text(r) == (match *dir {
            Some(d) => Some(joined(d@, filename@)),
            None => None,
        }),
{
    match dir {
        Some(d) => Some(join_path(d.as_str(), filename)),
        None => None,
    }
}

/// The firmware file, if its directory was found and the file `exists` in it.
pub fn resolve_krunfw_file_path(dir: &Option<String>, filename: &str, exists: bool) -> (r: Option<
    String,
>)
    ensures
        opt_text(r) == (match *dir {
            Some(d) => if exists {
                Some(joined(d@, filename@))
            } else {
                None
            },
            None => None,
        }),
{
    if exists {
        krunfw_candidate(dir, filename)
    } else {
        None
    }
}

/// Whether there is a rootfs to boot from.
pub fn check_rootfs(rootfs: &str, exists: bool) -> (r: Result<(), String>)
    ensures
        match r {
            Ok(_) => exists,
            Err(e) => !exists && e@ == "rootfs path does not exist: "@ + rootfs@,
        },
{
    if exists {
        Ok(())
    } else {
        Err(concat("rootfs path does not exist: ", rootfs))
    }
}

/// A character that the shell reads as itself outside quotes.
pub open spec fn shell_safe(c: char) -> bool {
    alphanumeric(c) || c == '-' || c == '_' || c == '/' || c == '.' || c == ':' || c == '='
}

/// `s` as one word of a shell command line.
pub open spec fn shell_quoted(s: Seq<char>) -> Seq<char> {
    if forall|i: int| 0 <= i < s.len() ==> shell_safe(#[trigger] s[i]) {
        s
    } else {
        "'"@ + replace_all(s, "'"@, "'\\''"@) + "'"@
    }
}

fn all_shell_safe(s: &str) -> (r: bool)
    ensures
        r == forall|i: int| 0 <= i < s@.len() ==> shell_safe(#[trigger] s@[i]),
{
    let v = crate::text::chars_of(s);
    let mut i: usize = 0;
    while i < v.len()
        invariant
            i <= v@.len(),
            v@ == s@,
            forall|j: int| 0 <= j < i ==> shell_safe(#[trigger] s@[j]),
        decreases v@.len() - i,
    {
        let c = v[i];
        if !(is_alphanumeric(c) || c == '-' || c == '_' || c == '/' || c == '.' || c == ':' || c
            == '=') {
            assert(!shell_safe(s@[i as int]));
            return false;
        }
        i += 1;
    }
    true
}

/// Quote `s` so that a shell reads it as one word.
pub fn shell_quote(s: &str) -> (r: String)
    ensures
        r@ == shell_quoted(s@),
{
    if all_shell_safe(s) {
        s.to_owned()
    } else {
        proof {
            reveal_strlit("'");
        }
        let inner = replace_text(s, "'", "'\\''");
        concat3("'", inner.as_str(), "'")
    }
}

/// The quoted words of a worker's command line.
pub open spec fn quoted_words(program: Seq<char>, args: Seq<Seq<char>>) -> Seq<Seq<char>> {
    seq![shell_quoted(program)] + args.map_values(|a: Seq<char>| shell_quoted(a))
}

/// The shell command line that runs `program` with `args`.
pub open spec fn worker_cmd(program: Seq<char>, args: Seq<Seq<char>>) -> Seq<char> {
    join_with(quoted_words(program, args), " "@)
}

/// The shell command line that runs `program` with `args`.
pub fn build_worker_cmd(program: &str, args: &[String]) -> (r: String)
    ensures
        r@ == worker_cmd(program@, texts(args@)),
{
    let mut parts: Vec<String> = Vec::new();
    parts.push(shell_quote(program));
    let mut i: usize = 0;
    while i < args.len()
        invariant
            i <= args@.len(),
            parts@.len() == i + 1,
            parts@[0]@ == shell_quoted(program@),
            forall|j: int| 0 <= j < i ==> (#[trigger] parts@[j + 1])@ == shell_quoted(args@[j]@),
        decreases args@.len() - i,
    {
        parts.push(shell_quote(args[i].as_str()));
        i += 1;
    }
    assert(texts(parts@) == quoted_words(program@, texts(args@))) by {
        assert forall|k: int| 0 <= k < parts@.len() implies texts(parts@)[k] == quoted_words(
            program@,
            texts(args@),
        )[k] by {
            if k > 0 {
                assert(parts@[(k - 1) + 1]@ == shell_quoted(args@[k - 1]@));
            }
        }
    }
    join_strings(parts.as_slice(), " ")
}

/// `s` with the host's loopback addresses pointed at the gateway.
pub open spec fn rewritten(s: Seq<char>, gateway: Seq<char>) -> Seq<char> {
    let to = "://"@ + gateway + ":"@;
    replace_all(replace_all(s, "://localhost:"@, to), "://127.0.0.1:"@, to)
}

/// Rewrite localhost and loopback URLs to use the given gateway address.
pub fn rewrite_localhost(s: &str, gateway_ip: &str) -> (r: String)
    ensures
        r@ == rewritten(s@, gateway_ip@),
{
    let to = concat3("://", gateway_ip, ":");
    proof {
        reveal_strlit("://localhost:");
        reveal_strlit("://127.0.0.1:");
    }
    let named = replace_text(s, "://localhost:", to.as_str());
    replace_text(named.as_str(), "://127.0.0.1:", to.as_str())
}

/// `s` rewritten where there is a gateway, and as it is where there is none.
pub open spec fn maybe_rewritten(s: Seq<char>, gateway: Option<Seq<char>>) -> Seq<char> {
    match gateway {
        Some(gw) => rewritten(s, gw),
        None => s,
    }
}

/// Rewrite localhost and loopback URLs if there is a gateway. Without one the
/// guest's own loopback resolves them, so the text is left as it is.
pub fn maybe_rewrite_localhost(s: &str, gateway_ip: Option<&str>) -> (r: String)
    ensures
        r@ == maybe_rewritten(s@, opt_str(gateway_ip)),
{
    match gateway_ip {
        Some(gw) => rewrite_localhost(s, gw),
        None => s.to_owned(),
    }
}

/// The guest's `PATH` where neither the caller nor the image gives one: the
/// value that Debian-family images ship in `/etc/profile`.
pub const DEFAULT_GUEST_PATH: &'static str =
    "/usr/local/sbin:/usr/local/bin:/usr/sbin:/usr/bin:/sbin:/bin";

/// `kv` is a `KEY=VALUE` entry whose key is exactly `key`.
pub open spec fn has_key(kv: Seq<char>, key: Seq<char>) -> bool {
    match split_at_first(kv, '=') {
        Some(p) => p.0 == key,
        None => false,
    }
}

/// True when some `KEY=VALUE` entry has the literal key `PATH`.
pub fn env_has_path(env: &[String]) -> (r: bool)
    ensures
        r == exists|i: int| 0 <= i < env@.len() && has_key(#[trigger] env@[i]@, "PATH"@),
{
    let mut i: usize = 0;
    while i < env.len()
        invariant
            i <= env@.len(),
            forall|j: int| 0 <= j < i ==> !has_key(#[trigger] env@[j]@, "PATH"@),
        decreases env@.len() - i,
    {
        let hit = match split_once(env[i].as_str(), '=') {
            Some(p) => same_text(p.0.as_str(), "PATH"),
            None => false,
        };
        if hit {
            assert(has_key(env@[i as int]@, "PATH"@));
            return true;
        }
        i += 1;
    }
    false
}

/// No two mounts of a plan share a tag.
pub proof fn mount_tags_are_distinct(i: int, j: int)
    requires
        0 <= i,
        0 <= j,
        mount_tag(i) == mount_tag(j),
    ensures
        i == j,
{
    let n = "virtiofs_"@.len() as int;
    assert(mount_tag(i).skip(n) == decimal(i as nat));
    assert(mount_tag(j).skip(n) == decimal(j as nat));
    decimal_is_injective(i as nat, j as nat);
}

pub(crate) proof fn lemma_nothing_to_replace(s: Seq<char>, pat: Seq<char>, with: Seq<char>)
    requires
        !has_substring(s, pat),
    ensures
        replace_all(s, pat, with) == s,
    decreases s.len(),
{
    if s.len() > 0 && pat.len() > 0 {
        assert(!matches_at(s, pat, 0));
        let rest = s.skip(1);
        assert forall|i: int| !matches_at(rest, pat, i) by {
            if matches_at(rest, pat, i) {
                assert(s.subrange(i + 1, i + 1 + pat.len()) == rest.subrange(i, i + pat.len()));
                assert(matches_at(s, pat, i + 1));
            }
        }
        lemma_nothing_to_replace(rest, pat, with);
        assert(seq![s[0]] + rest == s);
    }
}

/// Text that names no loopback address is left as it is, with a gateway or
/// without; without one all text is.
pub proof fn rewrite_leaves_other_text(s: Seq<char>, gateway: Option<Seq<char>>)
    requires
        gateway is Some ==> !has_substring(s, "://localhost:"@) && !has_substring(
            s,
            "://127.0.0.1:"@,
        ),
    ensures
        maybe_rewritten(s, gateway) == s,
{
    match gateway {
        Some(gw) => {
            let to = "://"@ + gw + ":"@;
            lemma_nothing_to_replace(s, "://localhost:"@, to);
            lemma_nothing_to_replace(s, "://127.0.0.1:"@, to);
        },
        None => {},
    }
}

} // verus!
