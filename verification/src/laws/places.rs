//! Laws of where files lie.

use crate::paths::{
    dev_logs_in, home_of, image_path_in, join_path, managed_dir_in, managed_path_in, worker_dir_in,
    worker_dir_is_worker_path, worker_path_in, HostPath,
};
use crate::sandbox_daemon::adapters::{IiiWorkerLauncher, LaunchPlan};
use crate::sandbox_daemon::create::BootParams;
use vstd::prelude::*;
use vstd::utf8::{decode_utf8, encode_utf8, valid_utf8};

verus! {

/// A relative path is taken in its directory, with one slash between; an
/// absolute one stands alone.
pub proof fn relative_paths_are_joined(base: &str, rel: &str, r: String)
    requires
        call_ensures(join_path, (base, rel), r),
    ensures
        base@.len() == 0 ==> r@ == rel@,
        rel@.len() > 0 && rel@[0] == '/' ==> r@ == rel@,
        base@.len() > 0 && (rel@.len() == 0 || rel@[0] != '/') ==> r@ == (if base@.last() == '/' {
            base@
        } else {
            base@.push('/')
        }) + rel@,
{
    reveal_strlit("/");
    assert(base@ + "/"@ + rel@ =~= base@.push('/') + rel@);
}

/// Workers are kept under the user's home, or under `/tmp` where there is none,
/// each in a directory of its own name.
pub proof fn workers_are_kept_at_home(
    home: &Option<String>,
    name: &str,
    all: String,
    dir: String,
    logs: String,
)
    requires
        call_ensures(managed_dir_in, (home,), all),
        call_ensures(worker_dir_in, (home, name), dir),
        call_ensures(dev_logs_in, (home, name), logs),
        *home matches Some(h) ==> h@.len() > 0 && h@.last() != '/',
        name@.len() > 0 ==> name@[0] != '/',
    ensures
        ({
            let base = if *home is Some {
                home->0@
            } else {
                "/tmp"@
            };
            &&& all@ == base + "/.iii/managed"@
            &&& dir@ == base + "/.iii/managed/"@ + name@
            &&& logs@ == base + "/.iii/logs/"@ + name@
        }),
{
    reveal_strlit("/");
    reveal_strlit("/tmp");
    reveal_strlit(".iii");
    reveal_strlit("managed");
    reveal_strlit(".iii/logs");
    reveal_strlit("/.iii/managed");
    reveal_strlit("/.iii/managed/");
    reveal_strlit("/.iii/logs/");
    let base = if *home is Some {
        home->0@
    } else {
        "/tmp"@
    };
    assert(base.len() > 0 && base.last() != '/');
    let iii = base + "/"@ + ".iii"@;
    assert(iii.last() == 'i');
    let managed = iii + "/"@ + "managed"@;
    assert(managed.last() == 'd');
    assert(managed =~= base + "/.iii/managed"@);
    assert(managed + "/"@ + name@ =~= base + "/.iii/managed/"@ + name@);
    let logged = base + "/"@ + ".iii/logs"@;
    assert(logged.last() == 's');
    assert(logged + "/"@ + name@ =~= base + "/.iii/logs/"@ + name@);
}

/// Two workers of different names have different directories.
pub proof fn workers_are_kept_apart(
    home: &Option<String>,
    a: &str,
    b: &str,
    dir_a: String,
    dir_b: String,
)
    requires
        call_ensures(worker_dir_in, (home, a), dir_a),
        call_ensures(worker_dir_in, (home, b), dir_b),
        *home matches Some(h) ==> h@.len() > 0 && h@.last() != '/',
        a@.len() > 0 && a@[0] != '/',
        b@.len() > 0 && b@[0] != '/',
        a@ != b@,
    ensures
        dir_a@ != dir_b@,
{
    let base = crate::paths::managed_root(crate::text::opt_text(*home));
    reveal_strlit("/");
    reveal_strlit("managed");
    reveal_strlit(".iii");
    reveal_strlit("/tmp");
    let n = dir_a@.len() - a@.len();
    assert(dir_a@.skip(n) =~= a@);
    if dir_a@ == dir_b@ {
        assert(dir_b@.skip(dir_b@.len() - b@.len()) =~= b@);
        assert(a@.len() == b@.len());
    }
}

/// A worker's directory is the same place whether it is worked out on text or on
/// bytes.
pub proof fn worker_has_one_directory(
    home: &Option<String>,
    host: &Option<HostPath>,
    name: &str,
    dir: String,
    path: HostPath,
)
    requires
        call_ensures(worker_dir_in, (home, name), dir),
        call_ensures(worker_path_in, (host, name), path),
        *home is Some,
        *host is Some,
        host->0@ == encode_utf8(home->0@),
    ensures
        path@ == encode_utf8(dir@),
{
    worker_dir_is_worker_path(home->0@, name@);
}

/// The control socket and the log of a sandbox's VM lie beside its shell socket.
pub proof fn sandbox_files_lie_beside_each_other(
    params: &BootParams,
    plan: LaunchPlan,
    dir: Seq<char>,
)
    requires
        call_ensures(IiiWorkerLauncher::plan, (params,), plan),
        crate::paths::plain_dir(dir),
        params.shell_sock@ == dir.push('/') + "shell.sock"@,
    ensures
        plan.control_sock@ == dir.push('/') + "control.sock"@,
        plan.stderr_log@ == dir.push('/') + "vm-boot.stderr.log"@,
{
    reveal_strlit("/");
    reveal_strlit("shell.sock");
    reveal_strlit("control.sock");
    reveal_strlit("vm-boot.stderr.log");
    assert(dir + "/"@ + "shell.sock"@ =~= dir.push('/') + "shell.sock"@);
    assert(dir + "/"@ + "control.sock"@ =~= dir.push('/') + "control.sock"@);
    assert(dir + "/"@ + "vm-boot.stderr.log"@ =~= dir.push('/') + "vm-boot.stderr.log"@);
    assert(params.shell_sock@ == crate::paths::joined(dir, "shell.sock"@));
}

/// Paths of bytes are joined as paths of text are, and are read back as they
/// were given.
pub proof fn paths_of_bytes_are_joined(
    base: HostPath,
    rel: &str,
    bytes: Vec<u8>,
    made: HostPath,
    back: &[u8],
    text: &str,
    of_text: HostPath,
    r: HostPath,
)
    requires
        call_ensures(HostPath::join, (&base, rel), r),
        call_ensures(HostPath::from_bytes, (bytes,), made),
        call_ensures(HostPath::as_bytes, (&made,), back),
        call_ensures(HostPath::from_text, (text,), of_text),
    ensures
        back@ == bytes@,
        of_text@ == encode_utf8(text@),
        ({
            let tail = encode_utf8(rel@);
            let absolute = tail.len() > 0 && tail[0] == 0x2f;
            &&& absolute || base@.len() == 0 ==> r@ == tail
            &&& !absolute && base@.len() > 0 ==> r@ == (if base@.last() == 0x2f {
                base@
            } else {
                base@.push(0x2f)
            }) + tail
        }),
{
}

/// The user's home is what was found of it, to the byte.
pub proof fn home_is_what_was_found(found: Option<Vec<u8>>, r: Option<HostPath>)
    requires
        call_ensures(home_of, (found,), r),
    ensures
        r is Some <==> found is Some,
        found matches Some(bytes) ==> r->0@ == bytes@,
{
}

/// Images and workers lie in the user's home, apart from each other: under
/// `.iii/cache` by their key, and under `.iii/managed`. Where there is no home
/// they lie in `/tmp`.
pub proof fn images_and_workers_lie_at_home(
    home: &Option<HostPath>,
    key: &str,
    base: HostPath,
    hidden: &str,
    managed: &str,
    cache: &str,
    in_hidden: HostPath,
    in_cache: HostPath,
    workers: HostPath,
    all: HostPath,
    image: HostPath,
    r: HostPath,
)
    requires
        base@ == (if *home is Some {
            home->0@
        } else {
            encode_utf8("/tmp"@)
        }),
        hidden@ == ".iii"@,
        managed@ == "managed"@,
        cache@ == ".iii/cache"@,
        call_ensures(HostPath::join, (&base, hidden), in_hidden),
        call_ensures(HostPath::join, (&in_hidden, managed), workers),
        call_ensures(HostPath::join, (&base, cache), in_cache),
        call_ensures(HostPath::join, (&in_cache, key), image),
        call_ensures(managed_path_in, (home,), all),
        call_ensures(image_path_in, (home, key), r),
    ensures
        all@ == workers@,
        r@ == image@,
{
}

/// A path that is text reads as that text.
pub proof fn paths_of_text_read_as_text(path: HostPath, r: String)
    requires
        call_ensures(HostPath::to_string_lossy, (&path,), r),
        valid_utf8(path@),
    ensures
        r@ == decode_utf8(path@),
{
}

/// The control socket and the log of a sandbox's VM have the same names wherever
/// its shell socket lies.
pub proof fn sandbox_files_have_their_names(params: &BootParams, plan: LaunchPlan)
    requires
        call_ensures(IiiWorkerLauncher::plan, (params,), plan),
    ensures
        plan.control_sock@ == crate::paths::with_file_name(params.shell_sock@, "control.sock"@),
        plan.stderr_log@ == crate::paths::with_file_name(
            params.shell_sock@,
            "vm-boot.stderr.log"@,
        ),
{
}

} // verus!
