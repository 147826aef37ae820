//! Laws of creating sandboxes.

use crate::ids::uuid_parsed;
use crate::laws::env::{are_the_variables, lemma_variables};
use crate::paths::joined;
use crate::sandbox_daemon::catalog::check_allowlist;
use crate::sandbox_daemon::config::SandboxConfig;
use crate::sandbox_daemon::create::{
    admit_create, boots_with, choose_rootfs, create_outcome, decide_create, finish_create,
    handle_create, keeps, prepare_boot, site_rootfs, Admitted, BootHandle, BootParams,
    CreateRequest, CreateResponse, CreateSite, OverlayLayout, Pending, RootfsStep,
    SandboxCreateEvent, VmLauncher,
};
use crate::sandbox_daemon::errors::SandboxError;
use crate::sandbox_daemon::reaper::is_idle;
use crate::sandbox_daemon::registry::{SandboxRegistry, SandboxState};
use crate::text::texts;
use vstd::prelude::*;

verus! {

/// An image may be booted if and only if the operator lists it and its name is
/// one of the daemon's or of the operator's own; the daemon's meaning of a name
/// comes first.
pub proof fn images_are_listed_and_known(
    cfg: &SandboxConfig,
    image: &str,
    r: Result<String, SandboxError>,
)
    requires
        call_ensures(check_allowlist, (cfg, image), r),
    ensures
        r is Ok <==> {
            &&& exists|i: int|
                0 <= i < cfg.image_allowlist@.len() && (#[trigger] cfg.image_allowlist@[i])@
                    == image@
            &&& cfg.preset_images@.contains_key(image@) || cfg.custom_images@.contains_key(image@)
        },
        r matches Ok(oci_ref) ==> {
            &&& cfg.preset_images@.contains_key(image@) ==> oci_ref@ == cfg.preset_images@[image@]
            &&& !cfg.preset_images@.contains_key(image@) ==> oci_ref@ == cfg.custom_images@[image@]
        },
        r matches Err(e) ==> e is ImageNotAllowed && e->ImageNotAllowed_image@ == image@,
{
    let list = texts(cfg.image_allowlist@);
    if list.contains(image@) {
        let i = choose|i: int| 0 <= i < list.len() && list[i] == image@;
        assert(cfg.image_allowlist@[i]@ == image@);
    }
    if exists|i: int|
        0 <= i < cfg.image_allowlist@.len() && (#[trigger] cfg.image_allowlist@[i])@ == image@ {
        let i = choose|i: int|
            0 <= i < cfg.image_allowlist@.len() && (#[trigger] cfg.image_allowlist@[i])@ == image@;
        assert(list[i] == image@);
    }
}

/// A request is admitted if and only if there is room for one more sandbox, its
/// image may be booted, and its size is within the image's limits. It is then
/// admitted with the size that it asks for: its own numbers where it gives them,
/// the operator's defaults only where it does not.
pub proof fn admitted_is_what_was_asked(
    req: &CreateRequest,
    cfg: &SandboxConfig,
    live: usize,
    image: &str,
    allowed: Result<String, SandboxError>,
    r: Result<Admitted, SandboxError>,
)
    requires
        image@ == req.image@,
        call_ensures(check_allowlist, (cfg, image), allowed),
        call_ensures(admit_create, (req, cfg, live), r),
    ensures
        ({
            let caps = cfg.per_image_caps@;
            let cpus = if req.cpus is Some {
                req.cpus->0
            } else {
                cfg.default_cpus
            };
            let memory_mb = if req.memory_mb is Some {
                req.memory_mb->0
            } else {
                cfg.default_memory_mb
            };
            let room = live < cfg.max_concurrent_sandboxes;
            let fits = caps.contains_key(req.image@) ==> cpus <= caps[req.image@].max_cpus
                && memory_mb <= caps[req.image@].max_memory_mb;
            &&& r is Ok <==> room && allowed is Ok && fits
            &&& r matches Ok(a) ==> a.cpus == cpus && a.memory_mb == memory_mb && a.oci_ref@
                == allowed->Ok_0@
            &&& r matches Err(e) ==> if room && allowed is Err {
                e is ImageNotAllowed && e->ImageNotAllowed_image@ == req.image@
            } else {
                e is ResourceLimit
            }
        }),
{
}

/// The files of an image come from the cache where it has them; otherwise they
/// are fetched where the operator lets them be, and the image is missing where
/// not.
pub proof fn cached_files_come_first(
    cached: Option<String>,
    cfg: &SandboxConfig,
    image: &str,
    r: Result<RootfsStep, SandboxError>,
)
    requires
        call_ensures(choose_rootfs, (cached, cfg, image), r),
    ensures
        forall|path: String| cached == Some(path) ==> r == Ok::<RootfsStep, SandboxError>(
            RootfsStep::Use(path),
        ),
        cached is None && cfg.auto_install ==> r == Ok::<RootfsStep, SandboxError>(
            RootfsStep::Install,
        ),
        cached is None && !cfg.auto_install ==> r is Err && r->Err_0 is RootfsMissing
            && r->Err_0->RootfsMissing_image@ == image@,
{
}

/// A prepared boot is of the size that the request asks for, and so of the size
/// that was admitted. Its VM gets the caller's variables and, on request only, a
/// network; it runs from the files it is told of, in the sandbox's own
/// directories.
pub proof fn boot_is_what_was_asked(
    req: CreateRequest,
    cfg: &SandboxConfig,
    admitted: &Admitted,
    rootfs: String,
    layout: &OverlayLayout,
    r: Result<(Pending, BootParams), SandboxError>,
)
    requires
        req.cpus matches Some(n) ==> admitted.cpus == n,
        req.cpus is None ==> admitted.cpus == cfg.default_cpus,
        req.memory_mb matches Some(m) ==> admitted.memory_mb == m,
        req.memory_mb is None ==> admitted.memory_mb == cfg.default_memory_mb,
        call_ensures(prepare_boot, (req, cfg, admitted, rootfs, layout), r),
    ensures
        call_requires(prepare_boot, (req, cfg, admitted, rootfs, layout)),
        r matches Ok(made) ==> {
            let p = made.1;
            &&& p.cpus == admitted.cpus
            &&& p.memory_mb == admitted.memory_mb
            &&& p.network <==> req.network == Some(true)
            &&& are_the_variables(p.env@, req.env)
            &&& p.rootfs@ == rootfs@
            &&& p.workdir@ == layout.merged@
            &&& p.shell_sock@ == joined(layout.base@, "shell.sock"@)
        },
        r matches Err(e) ==> e is InvalidRequest && req.env is Keyed,
{
    match r {
        Ok(made) => lemma_variables(made.1.env@, req.env),
        Err(_) => {},
    }
}

/// What outlives a boot is the request's own: its image, its label, and how long
/// the sandbox may idle, the operator's default only where the request does not
/// say.
pub proof fn kept_is_what_was_asked(
    req: CreateRequest,
    cfg: &SandboxConfig,
    admitted: &Admitted,
    rootfs: String,
    layout: &OverlayLayout,
    r: Result<(Pending, BootParams), SandboxError>,
)
    requires
        call_ensures(prepare_boot, (req, cfg, admitted, rootfs, layout), r),
    ensures
        r matches Ok(made) ==> {
            let k = made.0;
            &&& k.image == req.image
            &&& k.name == req.name
            &&& req.idle_timeout_secs matches Some(n) ==> k.idle_timeout_secs == n
            &&& req.idle_timeout_secs is None ==> k.idle_timeout_secs
                == cfg.default_idle_timeout_secs
        },
{
}

/// A boot that failed leaves everything known as it was. One that succeeded
/// makes known one more sandbox, under the id that is returned: it runs, it is
/// free for a command, it was used just now, and it is the VM that was booted.
pub proof fn booted_sandbox_is_known(
    call: (
        &mut SandboxRegistry,
        u128,
        Pending,
        BootParams,
        Result<BootHandle, SandboxError>,
        u64,
    ),
    r: Result<CreateResponse, SandboxError>,
    other: u128,
)
    requires
        call_ensures(finish_create, call, r),
        other != call.1,
    ensures
        old(call.0)@.contains_key(other) <==> final(call.0)@.contains_key(other),
        old(call.0)@.contains_key(other) ==> final(call.0)@[other] == old(call.0)@[other],
        call.4 matches Err(e) ==> r == Err::<CreateResponse, SandboxError>(e) && final(call.0)@
            == old(call.0)@,
        call.4 matches Ok(h) ==> {
            let s = final(call.0)@[call.1];
            &&& r is Ok
            &&& uuid_parsed(r->Ok_0.sandbox_id@) == Some(call.1)
            &&& r->Ok_0.image == call.2.image
            &&& final(call.0)@.contains_key(call.1)
            &&& s.id == call.1
            &&& s.vm_pid == Some(h.vm_pid)
            &&& s.lifeline == h.lifeline
            &&& s.name == call.2.name
            &&& s.image == call.2.image
            &&& s.idle_timeout_secs == call.2.idle_timeout_secs
            &&& s.rootfs == call.3.rootfs
            &&& s.workdir == call.3.workdir
            &&& s.shell_sock == call.3.shell_sock
            &&& s.created_at == call.5
            &&& s.last_exec_at == call.5
            &&& !s.exec_in_progress
            &&& !s.stopped
        },
{
}

/// `p` is a VM as the request asks for it.
pub open spec fn is_the_vm_asked_for(p: BootParams, req: CreateRequest,
    cfg: SandboxConfig) -> bool {
    &&& req.cpus matches Some(n) ==> p.cpus == n
    &&& req.cpus is None ==> p.cpus == cfg.default_cpus
    &&& req.memory_mb matches Some(m) ==> p.memory_mb == m
    &&& req.memory_mb is None ==> p.memory_mb == cfg.default_memory_mb
    &&& p.network <==> req.network == Some(true)
    &&& are_the_variables(p.env@, req.env)
}

/// A create that succeeds booted a VM as the request asks for it, from the
/// image's files where the cache has them and from the fetched ones where not;
/// the sandbox that it makes known is that VM, and keeps the request's label,
/// image and timeout.
pub proof fn created_is_what_was_asked<L: VmLauncher>(
    call: (
        CreateRequest,
        &SandboxConfig,
        &mut SandboxRegistry,
        &L,
        CreateSite,
        &mut Vec<SandboxCreateEvent>,
    ),
    resp: CreateResponse,
    other: u128,
)
    requires
        call_ensures(handle_create::<L>, call, Ok(resp)),
        other != call.4.id,
    ensures
        ({
            let req = call.0;
            let site = call.4;
            let s = final(call.2)@[site.id];
            &&& uuid_parsed(resp.sandbox_id@) == Some(site.id)
            &&& resp.image == req.image
            &&& final(call.2)@.contains_key(site.id)
            &&& s.id == site.id && s.image == req.image && s.name == req.name
            &&& !s.stopped && !s.exec_in_progress
            &&& s.created_at == site.now && s.last_exec_at == site.now
            &&& req.idle_timeout_secs matches Some(n) ==> s.idle_timeout_secs == n
            &&& req.idle_timeout_secs is None ==> s.idle_timeout_secs
                == call.1.default_idle_timeout_secs
            &&& exists|p: BootParams, h: BootHandle|
                {
                    &&& #[trigger] call_ensures(L::boot, (call.3, &p), Ok(h))
                    &&& is_the_vm_asked_for(p, req, *call.1)
                    &&& site.cached_rootfs matches Some(path) ==> p.rootfs@ == path@
                    &&& site.cached_rootfs is None ==> p.rootfs@ == site.install->Ok_0@
                    &&& p.workdir@ == site.overlay->Ok_0.merged@
                    &&& s.vm_pid == Some(h.vm_pid)
                    &&& s.lifeline == h.lifeline
                    &&& s.shell_sock == p.shell_sock
                    &&& s.rootfs == p.rootfs
                    &&& s.workdir == p.workdir
                }
        }),
        old(call.2)@.contains_key(other) <==> final(call.2)@.contains_key(other),
        old(call.2)@.contains_key(other) ==> final(call.2)@[other] == old(call.2)@[other],
        final(call.5)@.last() is Ready,
{
    let req = call.0;
    let site = call.4;
    let heard = old(call.5)@ + crate::sandbox_daemon::create::install_announced(
        req,
        *call.1,
        old(call.2)@.len(),
        site,
    );
    let (k, p, boot) = choose|k: Pending, p: BootParams, boot: Result<BootHandle, SandboxError>|
        {
            &&& #[trigger] keeps(k, req, *call.1)
            &&& #[trigger] boots_with(p, req, *call.1, site_rootfs(site)->0, site.overlay->Ok_0)
            &&& #[trigger] call_ensures(L::boot, (call.3, &p), boot)
            &&& create_outcome(
                Ok(resp),
                old(call.2)@,
                final(call.2)@,
                final(call.5)@.skip(heard.len() as int),
                site,
                k,
                p,
                boot,
            )
        };
    lemma_variables(p.env@, req.env);
    match boot {
        Ok(h) => {
            assert(call_ensures(L::boot, (call.3, &p), Ok(h)));
        },
        Err(_) => {},
    }
}

/// A create that fails changes nothing that is known, and nobody is told that a
/// sandbox is ready.
pub proof fn failed_create_leaves_no_trace<L: VmLauncher>(
    call: (
        CreateRequest,
        &SandboxConfig,
        &mut SandboxRegistry,
        &L,
        CreateSite,
        &mut Vec<SandboxCreateEvent>,
    ),
    e: SandboxError,
    i: int,
)
    requires
        call_ensures(handle_create::<L>, call, Err(e)),
        old(call.5)@.len() <= i < final(call.5)@.len(),
    ensures
        final(call.2)@ == old(call.2)@,
        !(final(call.5)@[i] is Ready),
{
}

/// A request that finds no room, or whose image may not be booted, or whose
/// variables cannot be named, or whose files or directories cannot be had,
/// fails with that; every other gets to boot.
pub proof fn create_is_refused_only_for_cause(
    call: (CreateRequest, &SandboxConfig, usize, CreateSite, &mut Vec<SandboxCreateEvent>),
    req: &CreateRequest,
    admitted: Result<Admitted, SandboxError>,
    env: Result<Vec<String>, SandboxError>,
    r: Result<(Pending, BootParams), SandboxError>,
)
    requires
        *req == call.0,
        call_ensures(admit_create, (req, call.1, call.2), admitted),
        call_ensures(crate::sandbox_daemon::exec::EnvShape::into_kv_vec, (call.0.env,), env),
        call_ensures(decide_create, call, r),
    ensures
        ({
            let site = call.3;
            let files = site.cached_rootfs is Some || (call.1.auto_install && site.install is Ok);
            &&& r is Ok <==> admitted is Ok && files && site.overlay is Ok && env is Ok
            &&& admitted matches Err(why) ==> r is Err && r->Err_0.code_spec() == why.code_spec()
            &&& admitted is Ok && site.cached_rootfs is None && !call.1.auto_install ==> r is Err
                && r->Err_0 is RootfsMissing
            &&& admitted is Ok && files && site.overlay is Err ==> r is Err
                && r->Err_0 is BootFailed
            &&& admitted is Ok && files && site.overlay is Ok && env is Err ==> r is Err
                && r->Err_0 is InvalidRequest
        }),
        r matches Ok(made) ==> is_the_vm_asked_for(made.1, call.0, *call.1),
{
    match r {
        Ok(made) => lemma_variables(made.1.env@, call.0.env),
        Err(_) => {},
    }
}

/// A sandbox that was created to idle for `n` seconds is spared by every scan in
/// the first `n` seconds, whatever the operator's default is.
pub proof fn created_sandbox_outlives_its_first_seconds<L: VmLauncher>(
    call: (
        CreateRequest,
        &SandboxConfig,
        &mut SandboxRegistry,
        &L,
        CreateSite,
        &mut Vec<SandboxCreateEvent>,
    ),
    resp: CreateResponse,
    n: u64,
    s: &SandboxState,
    now: u64,
    idle: bool,
)
    requires
        call_ensures(handle_create::<L>, call, Ok(resp)),
        call.0.idle_timeout_secs == Some(n),
        *s == final(call.2)@[call.4.id],
        call_ensures(is_idle, (s, now), idle),
    ensures
        idle <==> now > call.4.now + n * 1_000_000_000,
{
    let other = if call.4.id == 0 {
        1
    } else {
        0
    };
    created_is_what_was_asked(call, resp, other);
}

/// What a create announces comes after what was announced before it: the steps
/// of fetching the image's files, one by one and in order, the boot, and that the
/// sandbox is ready, under its id.
pub proof fn create_is_announced_in_order<L: VmLauncher>(
    call: (
        CreateRequest,
        &SandboxConfig,
        &mut SandboxRegistry,
        &L,
        CreateSite,
        &mut Vec<SandboxCreateEvent>,
    ),
    resp: CreateResponse,
)
    requires
        call_ensures(handle_create::<L>, call, Ok(resp)),
    ensures
        ({
            let before = old(call.5)@;
            let after = final(call.5)@;
            let steps = call.4.install_steps@;
            let n: int = if call.4.cached_rootfs is Some {
                0
            } else {
                steps.len() as int
            };
            &&& after.len() == before.len() + n + 2
            &&& forall|i: int| 0 <= i < before.len() ==> #[trigger] after[i] == before[i]
            &&& forall|i: int|
                before.len() <= i < before.len() + n ==> #[trigger] after[i]
                    == SandboxCreateEvent::Installing(steps[i - before.len()])
            &&& after[before.len() + n] is BootingVm
            &&& after[before.len() + n + 1] is Ready
            &&& after[before.len() + n + 1]->sandbox_id@ == resp.sandbox_id@
        }),
{
    let before = old(call.5)@;
    let after = final(call.5)@;
    let fetched = crate::sandbox_daemon::create::install_announced(
        call.0,
        *call.1,
        old(call.2)@.len(),
        call.4,
    );
    let heard = before + fetched;
    let h = heard.len() as int;
    assert(after.take(h) == heard);
    assert(after.skip(h).len() == 2);
    assert(after.skip(h)[0] == after[h]);
    assert(after.skip(h)[1] == after[h + 1]);
    assert forall|i: int| 0 <= i < h implies #[trigger] after[i] == heard[i] by {
        assert(after.take(h)[i] == after[i]);
    }
}

/// Deciding on a create announces the steps of fetching the image's files where
/// it uses fetched ones, and nothing where the cache has them.
pub proof fn fetching_is_announced(
    call: (CreateRequest, &SandboxConfig, usize, CreateSite, &mut Vec<SandboxCreateEvent>),
    decided: (Pending, BootParams),
)
    requires
        call_ensures(decide_create, call, Ok(decided)),
    ensures
        ({
            let before = old(call.4)@;
            let after = final(call.4)@;
            let steps = call.3.install_steps@;
            &&& forall|i: int| 0 <= i < before.len() ==> #[trigger] after[i] == before[i]
            &&& call.3.cached_rootfs is Some ==> after.len() == before.len()
            &&& call.3.cached_rootfs is None ==> after.len() == before.len() + steps.len()
            &&& call.3.cached_rootfs is None ==> forall|i: int|
                before.len() <= i < after.len() ==> #[trigger] after[i]
                    == SandboxCreateEvent::Installing(steps[i - before.len()])
        }),
{
}

} // verus!
