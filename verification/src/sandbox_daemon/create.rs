//! Creating a sandbox: what is admitted, what the VM is booted with, and what
//! is known of it once it runs.

use crate::daemon_exit::Lifeline;
use crate::ids::{fresh_uuid, is_v4, uuid_hyphenated, uuid_parsed, uuid_text};
use crate::numbers::{decimal, u64_text};
use crate::paths::{join_path, joined};
use crate::sandbox_daemon::catalog::{check_allowlist, image_allowed, image_ref};
use crate::sandbox_daemon::config::SandboxConfig;
use crate::sandbox_daemon::errors::{fails, SandboxError, SandboxErrorCode};
use crate::sandbox_daemon::exec::EnvShape;
use crate::sandbox_daemon::reaper::idle;
use crate::sandbox_daemon::registry::{SandboxRegistry, SandboxState};
use crate::text::{concat, concat3, texts};
use vstd::prelude::*;

verus! {

/// A sandbox to create.
#[derive(Debug)]
pub struct CreateRequest {
    /// Catalog name of the image to boot.
    pub image: String,
    pub cpus: Option<u32>,
    pub memory_mb: Option<u32>,
    /// A label for listings; it identifies nothing.
    pub name: Option<String>,
    /// Whether the VM gets a network device.
    pub network: Option<bool>,
    /// Stop the VM after this long without use.
    pub idle_timeout_secs: Option<u64>,
    pub env: EnvShape,
}

/// A sandbox that was created.
#[derive(Debug, Clone, PartialEq, Eq)]
pub struct CreateResponse {
    pub sandbox_id: String,
    pub image: String,
}

/// What a VM is booted with.
#[derive(Debug, Clone, PartialEq, Eq)]
pub struct BootParams {
    pub rootfs: String,
    pub workdir: String,
    pub shell_sock: String,
    pub cpus: u32,
    pub memory_mb: u32,
    pub env: Vec<String>,
    pub network: bool,
}

/// A VM that was booted.
#[derive(Debug, Clone, Copy, PartialEq, Eq)]
pub struct BootHandle {
    pub vm_pid: u32,
    /// What keeps the VM alive; the sandbox's entry holds it.
    pub lifeline: Option<Lifeline>,
}

/// What boots VMs.
pub trait VmLauncher {
    fn boot(&self, params: &BootParams) -> Result<BootHandle, SandboxError>;
}

/// How a create goes on.
#[derive(Debug, Clone, PartialEq, Eq)]
pub enum SandboxCreateEvent {
    /// A step of fetching the image's files, in words.
    Installing(String),
    /// The VM is about to be booted.
    BootingVm,
    /// The sandbox can be used.
    Ready { sandbox_id: String },
}

/// A request that may go ahead.
#[derive(Debug, Clone, PartialEq, Eq)]
pub struct Admitted {
    pub oci_ref: String,
    pub cpus: u32,
    pub memory_mb: u32,
}

/// The vCPUs that a request asks for.
pub open spec fn cpus_of(req: CreateRequest, cfg: SandboxConfig) -> u32 {
    match req.cpus {
        Some(n) => n,
        None => cfg.default_cpus,
    }
}

/// The memory that a request asks for.
pub open spec fn memory_of(req: CreateRequest, cfg: SandboxConfig) -> u32 {
    match req.memory_mb {
        Some(n) => n,
        None => cfg.default_memory_mb,
    }
}

/// Why a request is not admitted, with `live` sandboxes already there: the
/// number of sandboxes, then the image, then the image's limits.
pub open spec fn admission_refusal(
    req: CreateRequest,
    cfg: SandboxConfig,
    live: nat,
) -> Option<(SandboxErrorCode, Seq<char>)> {
    let cpus = cpus_of(req, cfg);
    let memory_mb = memory_of(req, cfg);
    let caps = cfg.per_image_caps@;
    if live >= cfg.max_concurrent_sandboxes {
        Some(
            (
                SandboxErrorCode::S400,
                "max_concurrent_sandboxes ("@ + decimal(cfg.max_concurrent_sandboxes as nat)
                    + ") reached"@,
            ),
        )
    } else if !image_allowed(cfg, req.image@) {
        Some((SandboxErrorCode::S100, req.image@))
    } else if caps.contains_key(req.image@) && cpus > caps[req.image@].max_cpus {
        Some(
            (
                SandboxErrorCode::S400,
                "cpus="@ + decimal(cpus as nat) + " exceeds per-image cap "@ + decimal(
                    caps[req.image@].max_cpus as nat,
                ),
            ),
        )
    } else if caps.contains_key(req.image@) && memory_mb > caps[req.image@].max_memory_mb {
        Some(
            (
                SandboxErrorCode::S400,
                "memory_mb="@ + decimal(memory_mb as nat) + " exceeds per-image cap "@ + decimal(
                    caps[req.image@].max_memory_mb as nat,
                ),
            ),
        )
    } else {
        None
    }
}

/// Whether a request may go ahead, with `live` sandboxes already there.
pub fn admit_create(req: &CreateRequest, cfg: &SandboxConfig, live: usize) -> (r: Result<
    Admitted,
    SandboxError,
>)
    ensures
        match r {
            Ok(a) => {
                &&& admission_refusal(*req, *cfg, live as nat) is None
                &&& image_ref(*cfg, req.image@) == Some(a.oci_ref@)
                &&& a.cpus == cpus_of(*req, *cfg)
                &&& a.memory_mb == memory_of(*req, *cfg)
            },
            Err(_) => match admission_refusal(*req, *cfg, live as nat) {
                Some(why) => fails(r, why.0, why.1),
                None => false,
            },
        },
{
    if live as u64 >= cfg.max_concurrent_sandboxes as u64 {
        return Err(
            SandboxError::ResourceLimit(
                concat3(
                    "max_concurrent_sandboxes (",
                    u64_text(cfg.max_concurrent_sandboxes as u64).as_str(),
                    ") reached",
                ),
            ),
        );
    }
    let oci_ref = match check_allowlist(cfg, req.image.as_str()) {
        Ok(o) => o,
        Err(e) => return Err(e),
    };
    let cpus: u32 = match req.cpus {
        Some(n) => n,
        None => cfg.default_cpus,
    };
    let memory_mb: u32 = match req.memory_mb {
        Some(n) => n,
        None => cfg.default_memory_mb,
    };
    match cfg.per_image_caps.get(req.image.as_str()) {
        Some(cap) => {
            if cpus > cap.max_cpus {
                let mut m = concat3(
                    "cpus=",
                    u64_text(cpus as u64).as_str(),
                    " exceeds per-image cap ",
                );
                m.append(u64_text(cap.max_cpus as u64).as_str());
                return Err(SandboxError::ResourceLimit(m));
            }
            if memory_mb > cap.max_memory_mb {
                let mut m = concat3(
                    "memory_mb=",
                    u64_text(memory_mb as u64).as_str(),
                    " exceeds per-image cap ",
                );
                m.append(u64_text(cap.max_memory_mb as u64).as_str());
                return Err(SandboxError::ResourceLimit(m));
            }
        },
        None => {},
    }
    Ok(Admitted { oci_ref, cpus, memory_mb })
}

/// Where an image's files come from.
#[derive(Debug, Clone, PartialEq, Eq)]
pub enum RootfsStep {
    /// They are here.
    Use(String),
    /// They are to be fetched.
    Install,
}

/// Where an image's files come from, given what the cache has.
pub fn choose_rootfs(cached: Option<String>, cfg: &SandboxConfig, image: &str) -> (r: Result<
    RootfsStep,
    SandboxError,
>)
    ensures
        match cached {
            Some(path) => r == Ok::<RootfsStep, SandboxError>(RootfsStep::Use(path)),
            None => if cfg.auto_install {
                r == Ok::<RootfsStep, SandboxError>(RootfsStep::Install)
            } else {
                fails(r, SandboxErrorCode::S101, image@)
            },
        },
{
    match cached {
        Some(path) => Ok(RootfsStep::Use(path)),
        None => if cfg.auto_install {
            Ok(RootfsStep::Install)
        } else {
            Err(SandboxError::RootfsMissing { image: image.to_owned() })
        },
    }
}

/// A fresh sandbox id, drawn at random for each sandbox.
pub fn new_sandbox_id() -> (r: u128)
    ensures
        is_v4(r),
        call_ensures(fresh_uuid, (), r),
{
    fresh_uuid()
}

/// The directories of a sandbox.
#[derive(Debug, Clone, PartialEq, Eq)]
pub struct OverlayLayout {
    pub base: String,
    pub merged: String,
}

/// `p` is what a request boots with, given the image's files and the sandbox's
/// directories.
pub open spec fn boots_with(
    p: BootParams,
    req: CreateRequest,
    cfg: SandboxConfig,
    rootfs: Seq<char>,
    layout: OverlayLayout,
) -> bool {
    &&& p.rootfs@ == rootfs
    &&& p.workdir@ == layout.merged@
    &&& p.shell_sock@ == joined(layout.base@, "shell.sock"@)
    &&& p.cpus == cpus_of(req, cfg)
    &&& p.memory_mb == memory_of(req, cfg)
    &&& req.env.kv_spec() == Ok::<Seq<Seq<char>>, Seq<char>>(texts(p.env@))
    &&& p.network == (req.network == Some(true))
}

/// The part of a request that outlives its boot.
#[derive(Debug, Clone, PartialEq, Eq)]
pub struct Pending {
    pub image: String,
    pub name: Option<String>,
    pub idle_timeout_secs: u64,
}

/// `k` is what is kept of a request.
pub open spec fn keeps(k: Pending, req: CreateRequest, cfg: SandboxConfig) -> bool {
    &&& k.image == req.image
    &&& k.name == req.name
    &&& k.idle_timeout_secs == (match req.idle_timeout_secs {
        Some(n) => n,
        None => cfg.default_idle_timeout_secs,
    })
}

/// What an admitted request boots with, and what is kept of it. A request with
/// a malformed variable never gets to boot.
pub fn prepare_boot(
    req: CreateRequest,
    cfg: &SandboxConfig,
    admitted: &Admitted,
    rootfs: String,
    layout: &OverlayLayout,
) -> (r: Result<(Pending, BootParams), SandboxError>)
    requires
        admitted.cpus == cpus_of(req, *cfg),
        admitted.memory_mb == memory_of(req, *cfg),
    ensures
        match r {
            Ok(p) => keeps(p.0, req, *cfg) && boots_with(p.1, req, *cfg, rootfs@, *layout),
            Err(_) => req.env.kv_spec() is Err && fails(
                r,
                SandboxErrorCode::S001,
                req.env.kv_spec()->Err_0,
            ),
        },
{
    let env = match req.env.into_kv_vec() {
        Ok(v) => v,
        Err(e) => return Err(e),
    };
    let network = match req.network {
        Some(b) => b,
        None => false,
    };
    let idle_timeout_secs: u64 = match req.idle_timeout_secs {
        Some(n) => n,
        None => cfg.default_idle_timeout_secs,
    };
    Ok(
        (
            Pending { image: req.image, name: req.name, idle_timeout_secs },
            BootParams {
                rootfs,
                workdir: layout.merged.clone(),
                shell_sock: join_path(layout.base.as_str(), "shell.sock"),
                cpus: admitted.cpus,
                memory_mb: admitted.memory_mb,
                env,
                network,
            },
        ),
    )
}

/// The sandbox that a boot made.
pub open spec fn created_state(
    id: u128,
    k: Pending,
    p: BootParams,
    h: BootHandle,
    now: u64,
) -> SandboxState {
    SandboxState {
        id,
        name: k.name,
        image: k.image,
        rootfs: p.rootfs,
        workdir: p.workdir,
        shell_sock: p.shell_sock,
        vm_pid: Some(h.vm_pid),
        lifeline: h.lifeline,
        created_at: now,
        last_exec_at: now,
        exec_in_progress: false,
        idle_timeout_secs: k.idle_timeout_secs,
        stopped: false,
    }
}

/// Take what a boot came to. A failed boot leaves no sandbox; a booted one is
/// known from now on, and the id returned names it.
pub fn finish_create(
    registry: &mut SandboxRegistry,
    id: u128,
    pending: Pending,
    params: BootParams,
    boot: Result<BootHandle, SandboxError>,
    now: u64,
) -> (r: Result<CreateResponse, SandboxError>)
    ensures
        match boot {
            Ok(h) => match r {
                Ok(resp) => {
                    &&& resp.sandbox_id@ == uuid_hyphenated(id)
                    &&& uuid_parsed(resp.sandbox_id@) == Some(id)
                    &&& resp.image == pending.image
                    &&& final(registry)@ == old(registry)@.insert(
                        id,
                        created_state(id, pending, params, h, now),
                    )
                },
                Err(_) => false,
            },
            Err(e) => r == Err::<CreateResponse, SandboxError>(e) && final(registry)@ == old(
                registry,
            )@,
        },
{
    match boot {
        Err(e) => Err(e),
        Ok(h) => {
            let image = pending.image.clone();
            registry.insert(
                SandboxState {
                    id,
                    name: pending.name,
                    image: pending.image,
                    rootfs: params.rootfs,
                    workdir: params.workdir,
                    shell_sock: params.shell_sock,
                    vm_pid: Some(h.vm_pid),
                    lifeline: h.lifeline,
                    created_at: now,
                    last_exec_at: now,
                    exec_in_progress: false,
                    idle_timeout_secs: pending.idle_timeout_secs,
                    stopped: false,
                },
            );
            Ok(CreateResponse { sandbox_id: uuid_text(id), image })
        },
    }
}

/// What the machine answers while a sandbox is created.
pub struct CreateSite {
    /// The image's files, if they are here.
    pub cached_rootfs: Option<String>,
    /// What fetching the image's files comes to, should it be needed.
    pub install: Result<String, SandboxError>,
    /// The steps of fetching the image's files, in words.
    pub install_steps: Vec<String>,
    /// The new sandbox's id.
    pub id: u128,
    /// The new sandbox's directories, or why they could not be made.
    pub overlay: Result<OverlayLayout, String>,
    /// The time at which the VM is up.
    pub now: u64,
}

/// The image's files at a site, if it has or gets them.
pub open spec fn site_rootfs(site: CreateSite) -> Option<Seq<char>> {
    match site.cached_rootfs {
        Some(p) => Some(p@),
        None => match site.install {
            Ok(p) => Some(p@),
            Err(_) => None,
        },
    }
}

/// Why a request does not get to boot: admission, then the image's files, then
/// the sandbox's directories, then the variables.
pub open spec fn create_refusal(
    req: CreateRequest,
    cfg: SandboxConfig,
    live: nat,
    site: CreateSite,
) -> Option<(SandboxErrorCode, Seq<char>)> {
    if admission_refusal(req, cfg, live) is Some {
        admission_refusal(req, cfg, live)
    } else if site.cached_rootfs is None && !cfg.auto_install {
        Some((SandboxErrorCode::S101, req.image@))
    } else if site.cached_rootfs is None && site.install is Err {
        Some((site.install->Err_0.code_spec(), site.install->Err_0.detail_spec()))
    } else if site.overlay is Err {
        Some((SandboxErrorCode::S300, "overlay dirs: "@ + site.overlay->Err_0@))
    } else {
        match req.env.kv_spec() {
            Err(m) => Some((SandboxErrorCode::S001, m)),
            Ok(_) => None,
        }
    }
}

/// What is announced before the boot: the steps of fetching the image's files,
/// once they are there.
pub open spec fn install_announced(
    req: CreateRequest,
    cfg: SandboxConfig,
    live: nat,
    site: CreateSite,
) -> Seq<SandboxCreateEvent> {
    if admission_refusal(req, cfg, live) is None && site.cached_rootfs is None && cfg.auto_install
        && site.install is Ok {
        site.install_steps@.map_values(|s: String| SandboxCreateEvent::Installing(s))
    } else {
        Seq::empty()
    }
}

/// What became of a request that got to boot with `p`, keeping `k`: the boot's
/// failure, or the new sandbox; and what was announced.
pub open spec fn create_outcome(
    r: Result<CreateResponse, SandboxError>,
    before: Map<u128, SandboxState>,
    after: Map<u128, SandboxState>,
    announced: Seq<SandboxCreateEvent>,
    site: CreateSite,
    k: Pending,
    p: BootParams,
    boot: Result<BootHandle, SandboxError>,
) -> bool {
    match boot {
        Err(e) => {
            &&& r == Err::<CreateResponse, SandboxError>(e)
            &&& after == before
            &&& announced == seq![SandboxCreateEvent::BootingVm]
        },
        Ok(h) => {
            &&& r is Ok
            &&& r->Ok_0.sandbox_id@ == uuid_hyphenated(site.id)
            &&& uuid_parsed(r->Ok_0.sandbox_id@) == Some(site.id)
            &&& r->Ok_0.image == k.image
            &&& after == before.insert(site.id, created_state(site.id, k, p, h, site.now))
            &&& announced.len() == 2
            &&& announced[0] == SandboxCreateEvent::BootingVm
            &&& announced[1] is Ready
            &&& announced[1]->sandbox_id@ == uuid_hyphenated(site.id)
        },
    }
}

/// Announce the steps of fetching an image's files.
fn announce_steps(steps: Vec<String>, events: &mut Vec<SandboxCreateEvent>)
    ensures
        final(events)@ == old(events)@ + steps@.map_values(
            |s: String| SandboxCreateEvent::Installing(s),
        ),
{
    let ghost start = events@;
    let ghost all = steps@.map_values(|s: String| SandboxCreateEvent::Installing(s));
    let mut i: usize = 0;
    assert(start + all.take(0) == start);
    while i < steps.len()
        invariant
            i <= steps@.len(),
            all == steps@.map_values(|s: String| SandboxCreateEvent::Installing(s)),
            events@ == start + all.take(i as int),
        decreases steps@.len() - i,
    {
        events.push(SandboxCreateEvent::Installing(steps[i].clone()));
        assert((start + all.take(i as int)).push(all[i as int]) == start + all.take(i + 1));
        i += 1;
    }
    assert(all.take(i as int) == all);
}

/// What a request boots with and what is kept of it, or why it is not to boot.
/// The steps of fetching the image's files are announced.
pub fn decide_create(
    req: CreateRequest,
    cfg: &SandboxConfig,
    live: usize,
    site: CreateSite,
    events: &mut Vec<SandboxCreateEvent>,
) -> (r: Result<(Pending, BootParams), SandboxError>)
    ensures
        final(events)@ == old(events)@ + install_announced(req, *cfg, live as nat, site),
        match create_refusal(req, *cfg, live as nat, site) {
            Some(why) => fails(r, why.0, why.1),
            None => {
                &&& r is Ok
                &&& keeps(r->Ok_0.0, req, *cfg)
                &&& boots_with(
                    r->Ok_0.1,
                    req,
                    *cfg,
                    site_rootfs(site)->0,
                    site.overlay->Ok_0,
                )
            },
        },
{
    let admitted = match admit_create(&req, cfg, live) {
        Ok(a) => a,
        Err(e) => return Err(e),
    };
    let rootfs = match choose_rootfs(site.cached_rootfs, cfg, req.image.as_str()) {
        Ok(RootfsStep::Use(path)) => path,
        Ok(RootfsStep::Install) => match site.install {
            Ok(path) => {
                announce_steps(site.install_steps, events);
                path
            },
            Err(e) => return Err(e),
        },
        Err(e) => return Err(e),
    };
    assert(events@ == old(events)@ + install_announced(req, *cfg, live as nat, site));
    let layout = match site.overlay {
        Ok(l) => l,
        Err(e) => return Err(SandboxError::BootFailed(concat("overlay dirs: ", e.as_str()))),
    };
    prepare_boot(req, cfg, &admitted, rootfs, &layout)
}

/// Create a sandbox. A request that is refused before its boot changes nothing,
/// and announces no boot: the launcher is called only with what `decide_create`
/// gives. Otherwise the launcher boots what the request asks for, and the
/// sandbox is known if and only if the boot succeeds. Only a create that succeeds
/// announces that the sandbox is ready, once and last.
pub fn handle_create<L: VmLauncher>(
    req: CreateRequest,
    cfg: &SandboxConfig,
    registry: &mut SandboxRegistry,
    launcher: &L,
    site: CreateSite,
    events: &mut Vec<SandboxCreateEvent>,
) -> (r: Result<CreateResponse, SandboxError>)
    ensures
        final(events)@.len() >= old(events)@.len(),
        r is Ok ==> final(events)@.last() is Ready,
        forall|i: int|
            old(events)@.len() <= i < final(events)@.len() && (#[trigger] final(events)@[i]) is Ready
                ==> r is Ok && i == final(events)@.len() - 1,
        match create_refusal(req, *cfg, old(registry)@.len(), site) {
            Some(why) => {
                &&& fails(r, why.0, why.1)
                &&& final(registry)@ == old(registry)@
                &&& final(events)@ == old(events)@ + install_announced(
                    req,
                    *cfg,
                    old(registry)@.len(),
                    site,
                )
            },
            None => {
                let heard = old(events)@ + install_announced(req, *cfg, old(registry)@.len(), site);
                &&& final(events)@.len() >= heard.len()
                &&& final(events)@.take(heard.len() as int) == heard
                &&& exists|k: Pending, p: BootParams, boot: Result<BootHandle, SandboxError>|
                    {
                        &&& #[trigger] keeps(k, req, *cfg)
                        &&& #[trigger] boots_with(
                            p,
                            req,
                            *cfg,
                            site_rootfs(site)->0,
                            site.overlay->Ok_0,
                        )
                        &&& #[trigger] call_ensures(L::boot, (launcher, &p), boot)
                        &&& create_outcome(
                            r,
                            old(registry)@,
                            final(registry)@,
                            final(events)@.skip(heard.len() as int),
                            site,
                            k,
                            p,
                            boot,
                        )
                    }
            },
        },
{
    let ghost known = registry@;
    let live = registry.count();
    let id = site.id;
    let now: u64 = site.now;
    let decided = decide_create(req, cfg, live, site, events);
    let ghost heard = events@;
    let (pending, params) = match decided {
        Ok(p) => p,
        Err(e) => return Err(e),
    };
    let ghost k = pending;
    let ghost p = params;
    events.push(SandboxCreateEvent::BootingVm);
    let boot = launcher.boot(&params);
    let ghost b = boot;
    let booted = boot.is_ok();
    let r = finish_create(registry, id, pending, params, boot, now);
    if booted {
        events.push(SandboxCreateEvent::Ready { sandbox_id: uuid_text(id) });
    }
    assert(keeps(k, req, *cfg));
    assert(boots_with(p, req, *cfg, site_rootfs(site)->0, site.overlay->Ok_0));
    assert(call_ensures(L::boot, (launcher, &p), b));
    let ghost announced = events@.skip(heard.len() as int);
    assert(events@.take(heard.len() as int) == heard);
    assert(announced[0] == SandboxCreateEvent::BootingVm);
    assert(b is Err ==> announced == seq![SandboxCreateEvent::BootingVm]);
    assert(create_outcome(r, known, registry@, announced, site, k, p, b));
    r
}

/// A sandbox that was just created can be used: it is neither stopped nor busy,
/// and it is not idle yet.
pub proof fn created_sandbox_is_usable(
    known: Map<u128, SandboxState>,
    id: u128,
    k: Pending,
    p: BootParams,
    h: BootHandle,
    now: u64,
)
    ensures
        ({
            let after = known.insert(id, created_state(id, k, p, h, now));
            &&& after.contains_key(id)
            &&& after[id].id == id
            &&& !after[id].stopped
            &&& !after[id].exec_in_progress
            &&& !idle(after[id], now)
        }),
{
}

/// An admitted request leaves room: with the sandbox it makes there are no more
/// than the operator allows.
pub proof fn admission_keeps_capacity(
    req: CreateRequest,
    cfg: SandboxConfig,
    known: Map<u128, SandboxState>,
    s: SandboxState,
)
    requires
        known.dom().finite(),
        admission_refusal(req, cfg, known.len()) is None,
    ensures
        known.insert(s.id, s).len() <= cfg.max_concurrent_sandboxes,
{
    if known.contains_key(s.id) {
        assert(known.insert(s.id, s).dom() =~= known.dom());
    }
}

/// A request over an image's limits, or for an image that is not allowed, is
/// refused before anything is asked of the machine.
pub proof fn refusal_comes_first(
    req: CreateRequest,
    cfg: SandboxConfig,
    live: nat,
    site: CreateSite,
)
    requires
        admission_refusal(req, cfg, live) is Some,
    ensures
        create_refusal(req, cfg, live, site) == admission_refusal(req, cfg, live),
{
}

} // verus!
