//! Workers in libkrun VMs: where they live, what a start puts together from
//! the image and the worker's specification, and how pulls, stops and removals
//! proceed.

use crate::cli::worker_manager::boot_args::push_flag;
use crate::numbers::{decimal, parse_u64, parsed_unsigned, u64_text};
use crate::paths::{
    host_home, image_path, image_path_in, joined_bytes, opt_path, worker_path, worker_path_in,
    HostPath,
};
use crate::str_map::{lists, StrMap};
use crate::text::{
    ends_with, first_index, opt_str, opt_text, pair_texts, same_text, split_at_first, split_once, strip_suffix,
    texts,
};
use vstd::prelude::*;
use vstd::utf8::encode_utf8;

verus! {

/// Whether VMs can run here: the firmware directory was found.
pub fn libkrun_available(firmware_dir: &Option<String>) -> (r: bool)
    ensures
        r == firmware_dir is Some,
{
    firmware_dir.is_some()
}

/// The VM's environment: what the caller gives, and the isolation marker over
/// anything the caller says of it.
pub fn build_vm_env(caller_env: StrMap) -> (r: StrMap)
    ensures
        r@ == caller_env@.insert("III_ISOLATION"@, "libkrun"@),
{
    let mut merged = caller_env;
    merged.insert("III_ISOLATION".to_owned(), "libkrun".to_owned());
    merged
}

/// The runtime of libkrun workers.
#[derive(Debug, Clone, Copy, PartialEq, Eq)]
pub struct LibkrunAdapter;

impl Default for LibkrunAdapter {
    fn default() -> (r: Self)
        ensures
            r == LibkrunAdapter,
    {
        LibkrunAdapter
    }
}

impl LibkrunAdapter {
    pub fn new() -> (r: Self)
        ensures
            r == LibkrunAdapter,
    {
        LibkrunAdapter
    }

    /// The worker's directory, under the user's home or else under `/tmp`.
    pub fn worker_dir(name: &str) -> (r: HostPath)
        ensures
            exists|home: Option<HostPath>| #[trigger]
                call_ensures(host_home, (), home) && r@ == worker_path(opt_path(home), name@),
    {
        let home = host_home();
        worker_path_in(&home, name)
    }

    /// Where the files of an image lie, pinned or not, under the user's home or
    /// else under `/tmp`: at the key by which the cache knows the image without
    /// its digest.
    pub fn image_rootfs<C: CacheKeys>(image: &str, cache: &C) -> (r: HostPath)
        ensures
            exists|home: Option<HostPath>| #[trigger]
                call_ensures(host_home, (), home) && image_lies_at(
                    cache,
                    opt_path(home),
                    image@,
                    r@,
                ),
    {
        let home = host_home();
        image_rootfs_in(&home, image, cache)
    }

    /// The file that holds the worker's VM process id.
    pub fn pid_file(name: &str) -> (r: HostPath)
        ensures
            exists|home: Option<HostPath>| #[trigger]
                call_ensures(host_home, (), home) && r@ == joined_bytes(
                    worker_path(opt_path(home), name@),
                    encode_utf8("vm.pid"@),
                ),
    {
        Self::worker_dir(name).join("vm.pid")
    }

    /// The worker's log directory.
    pub fn logs_dir(name: &str) -> (r: HostPath)
        ensures
            exists|home: Option<HostPath>| #[trigger]
                call_ensures(host_home, (), home) && r@ == logs_path(opt_path(home), name@),
    {
        Self::worker_dir(name).join("logs")
    }

    /// The log of the worker's standard output.
    pub fn stdout_log(name: &str) -> (r: HostPath)
        ensures
            exists|home: Option<HostPath>| #[trigger]
                call_ensures(host_home, (), home) && r@ == joined_bytes(
                    logs_path(opt_path(home), name@),
                    encode_utf8("stdout.log"@),
                ),
    {
        Self::logs_dir(name).join("stdout.log")
    }

    /// The log of the worker's standard error.
    pub fn stderr_log(name: &str) -> (r: HostPath)
        ensures
            exists|home: Option<HostPath>| #[trigger]
                call_ensures(host_home, (), home) && r@ == joined_bytes(
                    logs_path(opt_path(home), name@),
                    encode_utf8("stderr.log"@),
                ),
    {
        Self::logs_dir(name).join("stderr.log")
    }
}

/// The log directory of the worker `name`.
pub open spec fn logs_path(home: Option<Seq<u8>>, name: Seq<char>) -> Seq<u8> {
    joined_bytes(worker_path(home, name), encode_utf8("logs"@))
}

/// What names the places of images in the cache.
pub trait CacheKeys {
    /// The key of an image, given its reference without a digest.
    fn cache_key(&self, image: String) -> String;
}

/// `path` is where the files of `image` may lie under `home`: at a key that the
/// cache gives the image without its digest.
pub open spec fn image_lies_at<C: CacheKeys>(
    cache: &C,
    home: Option<Seq<u8>>,
    image: Seq<char>,
    path: Seq<u8>,
) -> bool {
    exists|name: String, key: String| #[trigger]
        call_ensures(C::cache_key, (cache, name), key) && name@ == undigested(image) && path
            == image_path(home, key@)
}

/// Where the files of an image lie, pinned or not, under this home.
pub fn image_rootfs_in<C: CacheKeys>(home: &Option<HostPath>, image: &str, cache: &C) -> (r:
    HostPath)
    ensures
        image_lies_at(cache, opt_path(*home), image@, r@),
{
    let name = unpinned_image(image);
    let key = cache.cache_key(name);
    image_path_in(home, key.as_str())
}

/// An image reference without its digest: what stands before the first at sign.
pub open spec fn undigested(image: Seq<char>) -> Seq<char> {
    match split_at_first(image, '@') {
        Some(p) => p.0,
        None => image,
    }
}

/// The image that a reference names, pinned or not: the reference without its
/// digest.
pub fn unpinned_image(image: &str) -> (r: String)
    ensures
        r@ == undigested(image@),
{
    match split_once(image, '@') {
        Some(p) => p.0,
        None => image.to_owned(),
    }
}

/// Whether a directory's permission bits are to be tightened to the owner's
/// alone.
pub fn needs_tightening(mode: u32) -> (r: bool)
    ensures
        r == (mode & 0o777 != 0o700),
{
    mode & 0o777 != 0o700
}

/// Whether a rootfs is for this machine; one whose architecture is unknown is
/// not.
pub fn arch_matches(arch: Option<&str>, expected: &str) -> (r: bool)
    ensures
        r == (opt_str(arch) == Some(expected@)),
{
    match arch {
        Some(a) => same_text(a, expected),
        None => false,
    }
}

/// What to do with a worker's own copy of its rootfs.
#[derive(Debug, Clone, Copy, PartialEq, Eq)]
pub enum RootfsUse {
    Keep,
    Clone,
    WipeAndClone,
}

/// What to do with a worker's copy of its rootfs, given whether it exists and
/// for which architecture.
pub fn worker_rootfs_use(exists: bool, arch: Option<&str>, expected: &str) -> (r: RootfsUse)
    ensures
        r == (if !exists {
            RootfsUse::Clone
        } else if opt_str(arch) == Some(expected@) {
            RootfsUse::Keep
        } else {
            RootfsUse::WipeAndClone
        }),
{
    if !exists {
        RootfsUse::Clone
    } else if arch_matches(arch, expected) {
        RootfsUse::Keep
    } else {
        RootfsUse::WipeAndClone
    }
}

/// The position, from `i` on, of the first `--url` that has a value after it;
/// the number of arguments if there is none.
pub open spec fn url_slot(args: Seq<Seq<char>>, i: int) -> int
    decreases args.len() - i,
{
    if i + 1 >= args.len() {
        args.len() as int
    } else if args[i] == "--url"@ {
        i
    } else {
        url_slot(args, i + 1)
    }
}

/// `args` with the engine's URL: in place of the one they give, or added.
pub open spec fn with_url(args: Seq<Seq<char>>, url: Seq<char>) -> Seq<Seq<char>> {
    let i = url_slot(args, 0);
    if i < args.len() {
        args.update(i + 1, url)
    } else {
        args.push("--url"@).push(url)
    }
}

/// Point a worker's arguments at the engine.
pub fn inject_engine_url(exec_args: Vec<String>, url: &str) -> (r: Vec<String>)
    ensures
        texts(r@) == with_url(texts(exec_args@), url@),
{
    let mut out = exec_args;
    let ghost args = texts(out@);
    let mut i: usize = 0;
    while i < out.len()
        invariant
            i <= out@.len(),
            args == texts(exec_args@),
            texts(out@) == args,
            url_slot(args, 0) == url_slot(args, i as int),
        decreases out@.len() - i,
    {
        assert(args[i as int] == out@[i as int]@);
        if same_text(out[i].as_str(), "--url") && i + 1 < out.len() {
            out.set(i + 1, url.to_owned());
            assert(texts(out@) == args.update(i + 1, url@));
            return out;
        }
        i += 1;
    }
    push_flag(&mut out, "--url", url);
    out
}

/// The engine's URL in a worker's environment.
pub open spec fn engine_url_of(env: Map<Seq<char>, Seq<char>>) -> Option<Seq<char>> {
    if env.contains_key("III_ENGINE_URL"@) {
        Some(env["III_ENGINE_URL"@])
    } else if env.contains_key("III_URL"@) {
        Some(env["III_URL"@])
    } else {
        None
    }
}

pub fn engine_url(env: &StrMap) -> (r: Option<String>)
    ensures
        opt_text(r) == engine_url_of(env@),
{
    match env.get("III_ENGINE_URL") {
        Some(u) => Some(u.clone()),
        None => match env.get("III_URL") {
            Some(u) => Some(u.clone()),
            None => None,
        },
    }
}

/// `m` after giving each key of `pairs`, in order, its value.
pub open spec fn inserted(
    m: Map<Seq<char>, Seq<char>>,
    pairs: Seq<(Seq<char>, Seq<char>)>,
) -> Map<Seq<char>, Seq<char>>
    decreases pairs.len(),
{
    if pairs.len() == 0 {
        m
    } else {
        inserted(m, pairs.drop_last()).insert(pairs.last().0, pairs.last().1)
    }
}

fn insert_all(m: &mut StrMap, pairs: &[(String, String)])
    ensures
        final(m)@ == inserted(old(m)@, pair_texts(pairs@)),
{
    let ghost start = m@;
    let ghost all = pair_texts(pairs@);
    let mut i: usize = 0;
    assert(all.take(0) == Seq::<(Seq<char>, Seq<char>)>::empty());
    while i < pairs.len()
        invariant
            i <= pairs@.len(),
            all == pair_texts(pairs@),
            m@ == inserted(start, all.take(i as int)),
        decreases pairs@.len() - i,
    {
        m.insert(pairs[i].0.clone(), pairs[i].1.clone());
        assert(all.take(i + 1).drop_last() == all.take(i as int));
        i += 1;
    }
    assert(all.take(i as int) == all);
}

proof fn lemma_inserted_prefix(
    m: Map<Seq<char>, Seq<char>>,
    pairs: Seq<(Seq<char>, Seq<char>)>,
    k: Seq<char>,
)
    ensures
        inserted(m, pairs).contains_key(k) == (m.contains_key(k) || exists|i: int|
            0 <= i < pairs.len() && (#[trigger] pairs[i]).0 == k),
        (forall|i: int| 0 <= i < pairs.len() ==> (#[trigger] pairs[i]).0 != k) && m.contains_key(k)
            ==> inserted(m, pairs)[k] == m[k],
    decreases pairs.len(),
{
    if pairs.len() > 0 {
        let init = pairs.drop_last();
        lemma_inserted_prefix(m, init, k);
        if pairs.last().0 == k {
            assert(pairs[pairs.len() - 1].0 == k);
        }
        if exists|i: int| 0 <= i < init.len() && (#[trigger] init[i]).0 == k {
            let i = choose|i: int| 0 <= i < init.len() && (#[trigger] init[i]).0 == k;
            assert(pairs[i].0 == k);
        }
        if exists|i: int| 0 <= i < pairs.len() && (#[trigger] pairs[i]).0 == k {
            let i = choose|i: int| 0 <= i < pairs.len() && (#[trigger] pairs[i]).0 == k;
            if i < init.len() {
                assert(init[i].0 == k);
            }
        }
        if forall|i: int| 0 <= i < pairs.len() ==> (#[trigger] pairs[i]).0 != k {
            assert forall|i: int| 0 <= i < init.len() implies (#[trigger] init[i]).0 != k by {
                assert(pairs[i].0 != k);
            }
            assert(pairs[pairs.len() - 1].0 != k);
        }
    }
}

proof fn lemma_inserted_value(
    m: Map<Seq<char>, Seq<char>>,
    pairs: Seq<(Seq<char>, Seq<char>)>,
    n: Map<Seq<char>, Seq<char>>,
    k: Seq<char>,
)
    requires
        forall|i: int|
            0 <= i < pairs.len() ==> n.contains_pair((#[trigger] pairs[i]).0, pairs[i].1),
        exists|i: int| 0 <= i < pairs.len() && (#[trigger] pairs[i]).0 == k,
    ensures
        inserted(m, pairs)[k] == n[k],
    decreases pairs.len(),
{
    let init = pairs.drop_last();
    assert forall|i: int| 0 <= i < init.len() implies n.contains_pair(
        (#[trigger] init[i]).0,
        init[i].1,
    ) by {
        assert(n.contains_pair(pairs[i].0, pairs[i].1));
    }
    if pairs.last().0 == k {
        assert(n.contains_pair(pairs[pairs.len() - 1].0, pairs[pairs.len() - 1].1));
    } else {
        let i = choose|i: int| 0 <= i < pairs.len() && (#[trigger] pairs[i]).0 == k;
        assert(init[i].0 == k);
        lemma_inserted_value(m, init, n, k);
    }
}

proof fn lemma_inserted_listing(
    m: Map<Seq<char>, Seq<char>>,
    pairs: Seq<(Seq<char>, Seq<char>)>,
    n: Map<Seq<char>, Seq<char>>,
)
    requires
        lists(pairs, n),
    ensures
        inserted(m, pairs) == m.union_prefer_right(n),
{
    let r = inserted(m, pairs);
    let u = m.union_prefer_right(n);
    assert forall|k: Seq<char>| #[trigger] r.dom().contains(k) == u.dom().contains(k) by {
        lemma_inserted_prefix(m, pairs, k);
        assert(n.contains_key(k) ==> exists|i: int|
            0 <= i < pairs.len() && (#[trigger] pairs[i]).0 == k);
        if exists|i: int| 0 <= i < pairs.len() && (#[trigger] pairs[i]).0 == k {
            let i = choose|i: int| 0 <= i < pairs.len() && (#[trigger] pairs[i]).0 == k;
            assert(n.contains_pair(pairs[i].0, pairs[i].1));
        }
    }
    assert forall|k: Seq<char>| #[trigger] r.dom().contains(k) implies r[k] == u[k] by {
        lemma_inserted_prefix(m, pairs, k);
        if n.contains_key(k) {
            lemma_inserted_value(m, pairs, n, k);
        } else {
            assert forall|i: int| 0 <= i < pairs.len() implies (#[trigger] pairs[i]).0 != k by {
                assert(n.contains_pair(pairs[i].0, pairs[i].1));
            }
        }
    }
    assert(r =~= u);
}

/// The environment of a worker's VM: the image's variables, over them the
/// specification's, and over both the isolation marker.
pub fn merge_env(image_env: &[(String, String)], spec_env: &StrMap) -> (r: StrMap)
    ensures
        r@ == inserted(Map::empty(), pair_texts(image_env@)).union_prefer_right(spec_env@).insert(
            "III_ISOLATION"@,
            "libkrun"@,
        ),
{
    let mut merged = StrMap::new();
    insert_all(&mut merged, image_env);
    let ghost image = merged@;
    let list = spec_env.entries();
    insert_all(&mut merged, list.as_slice());
    proof {
        lemma_inserted_listing(image, pair_texts(list@), spec_env@);
    }
    build_vm_env(merged)
}

/// A Kubernetes memory quantity whose number of MiB fits 64 bits.
pub open spec fn mem_in_range(value: Seq<char>) -> bool {
    ends_with(value, "Gi"@) ==> match parsed_unsigned(
        value.take(value.len() - 2),
        u64::MAX as nat,
    ) {
        Some(n) => n * 1024 <= u64::MAX,
        None => true,
    }
}

/// A Kubernetes memory quantity in MiB, as text. `Mi` is taken as it stands,
/// other units are converted and rounded down.
pub open spec fn mem_mib(value: Seq<char>) -> Option<Seq<char>> {
    if ends_with(value, "Mi"@) {
        Some(value.take(value.len() - 2))
    } else if ends_with(value, "Gi"@) {
        match parsed_unsigned(value.take(value.len() - 2), u64::MAX as nat) {
            Some(n) => Some(decimal(n * 1024)),
            None => None,
        }
    } else if ends_with(value, "Ki"@) {
        match parsed_unsigned(value.take(value.len() - 2), u64::MAX as nat) {
            Some(n) => Some(decimal(n / 1024)),
            None => None,
        }
    } else {
        match parsed_unsigned(value, u64::MAX as nat) {
            Some(n) => Some(decimal(n / 1048576)),
            None => None,
        }
    }
}

/// Whether a memory quantity's number of MiB fits 64 bits.
pub fn mem_fits(value: &str) -> (r: bool)
    ensures
        r == mem_in_range(value@),
{
    proof {
        reveal_strlit("Gi");
    }
    match strip_suffix(value, "Gi") {
        Some(n) => match parse_u64(n.as_str()) {
            Some(v) => v <= u64::MAX / 1024,
            None => true,
        },
        None => true,
    }
}

/// A Kubernetes memory quantity in MiB, as text.
pub fn k8s_mem_to_mib(value: &str) -> (r: Option<String>)
    requires
        mem_in_range(value@),
    ensures
        opt_text(r) == mem_mib(value@),
{
    proof {
        reveal_strlit("Mi");
        reveal_strlit("Gi");
        reveal_strlit("Ki");
    }
    if let Some(n) = strip_suffix(value, "Mi") {
        Some(n)
    } else if let Some(n) = strip_suffix(value, "Gi") {
        match parse_u64(n.as_str()) {
            Some(v) => Some(u64_text(v * 1024)),
            None => None,
        }
    } else if let Some(n) = strip_suffix(value, "Ki") {
        match parse_u64(n.as_str()) {
            Some(v) => Some(u64_text(v / 1024)),
            None => None,
        }
    } else {
        match parse_u64(value) {
            Some(v) => Some(u64_text(v / 1048576)),
            None => None,
        }
    }
}

proof fn lemma_first_index_extended(a: Seq<char>, b: Seq<char>, c: char)
    ensures
        0 <= first_index(a, c) <= a.len(),
        first_index(a, c) < a.len() ==> first_index(a + b, c) == first_index(a, c),
        first_index(a, c) == a.len() && b.len() > 0 && b[0] == c ==> first_index(a + b, c)
            == a.len(),
    decreases a.len(),
{
    if a.len() == 0 {
        assert(a + b == b);
    } else {
        assert((a + b).skip(1) == a.skip(1) + b);
        lemma_first_index_extended(a.skip(1), b, c);
    }
}

/// A pinned reference and the one it pins name the same image.
pub proof fn pinned_shares_unpinned(image: Seq<char>, digest: Seq<char>)
    ensures
        undigested(image + "@"@ + digest) == undigested(image),
{
    reveal_strlit("@");
    let pin = "@"@ + digest;
    assert(image + "@"@ + digest == image + pin);
    assert(pin[0] == '@');
    lemma_first_index_extended(image, pin, '@');
    let i = first_index(image + pin, '@');
    assert((image + pin).take(i) == image.take(i));
    if first_index(image, '@') == image.len() {
        assert(image.take(i) == image);
    }
}

/// A pinned and an unpinned reference share one directory: wherever the files
/// of the one may lie, those of the other may, and with a cache that always
/// gives a name the same key that is one place.
pub proof fn pinned_shares_directory<C: CacheKeys>(
    cache: &C,
    home: Option<Seq<u8>>,
    image: Seq<char>,
    digest: Seq<char>,
    pinned_path: Seq<u8>,
    path: Seq<u8>,
)
    ensures
        image_lies_at(cache, home, image + "@"@ + digest, path) <==> image_lies_at(
            cache,
            home,
            image,
            path,
        ),
        steady(cache) && image_lies_at(cache, home, image + "@"@ + digest, pinned_path)
            && image_lies_at(cache, home, image, path) ==> pinned_path == path,
{
    pinned_shares_unpinned(image, digest);
}

/// A pinned and an unpinned reference give one directory, in two calls between
/// which neither the user's home nor the cache's key for the image changes.
pub proof fn image_rootfs_ignores_digest<C: CacheKeys>(
    cache: &C,
    image: &str,
    pinned: &str,
    digest: Seq<char>,
    image_dir: HostPath,
    pinned_dir: HostPath,
)
    requires
        pinned@ == image@ + "@"@ + digest,
        call_ensures(LibkrunAdapter::image_rootfs::<C>, (image, cache), image_dir),
        call_ensures(LibkrunAdapter::image_rootfs::<C>, (pinned, cache), pinned_dir),
        steady(cache),
        forall|a: Option<HostPath>, b: Option<HostPath>| #[trigger]
            call_ensures(host_home, (), a) && #[trigger] call_ensures(host_home, (), b)
                ==> opt_path(a) == opt_path(b),
    ensures
        pinned_dir@ == image_dir@,
{
    let home = choose|home: Option<HostPath>| #[trigger]
        call_ensures(host_home, (), home) && image_lies_at(
            cache,
            opt_path(home),
            image@,
            image_dir@,
        );
    pinned_shares_directory(
        cache,
        opt_path(home),
        image@,
        digest,
        pinned_dir@,
        image_dir@,
    );
}

/// The cache always gives a name the same key.
pub open spec fn steady<C: CacheKeys>(cache: &C) -> bool {
    forall|a: String, b: String, key_a: String, key_b: String|
        a@ == b@ && #[trigger] call_ensures(C::cache_key, (cache, a), key_a)
            && #[trigger] call_ensures(C::cache_key, (cache, b), key_b) ==> key_a@ == key_b@
}

} // verus!
