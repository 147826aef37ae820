//! The proxy between control clients and the VM: one request line in, one
//! response line out, one exchange at a time.

use vstd::prelude::*;

verus! {

/// Longest request or response line, in bytes.
pub const MAX_LINE: usize = 4096;

/// How long one read or write may block, in milliseconds.
pub const VM_IO_TIMEOUT_MS: u64 = 500;

/// How many bytes of `buf` make up its first line, the line feed counted, if
/// that is decided: a line feed stands within the first `max` bytes, or `max`
/// bytes are there without one.
pub open spec fn line_length(buf: Seq<u8>, max: int) -> Option<int>
    decreases max,
{
    if max <= 0 {
        Some(0)
    } else if buf.len() == 0 {
        None
    } else if buf[0] == 10 {
        Some(1)
    } else {
        match line_length(buf.skip(1), max - 1) {
            Some(n) => Some(n + 1),
            None => None,
        }
    }
}

/// How many bytes of `buf` make up its first line, capped at `max`; `None`
/// while more input is needed.
pub fn line_end(buf: &[u8], max: usize) -> (r: Option<usize>)
    ensures
        match r {
            Some(n) => line_length(buf@, max as int) == Some(n as int) && n <= max && n
                <= buf@.len(),
            None => line_length(buf@, max as int) is None && buf@.len() < max,
        },
{
    let mut i: usize = 0;
    assert(buf@.skip(0) == buf@);
    while i < buf.len() && i < max
        invariant
            i <= buf@.len(),
            i <= max,
            line_length(buf@, max as int) == (match line_length(
                buf@.skip(i as int),
                max as int - i,
            ) {
                Some(n) => Some(n + i),
                None => None,
            }),
        decreases buf@.len() - i,
    {
        assert(buf@.skip(i as int).skip(1) == buf@.skip(i + 1));
        if buf[i] == 10 {
            return Some(i + 1);
        }
        i += 1;
    }
    if i == max {
        Some(max)
    } else {
        None
    }
}

/// What reading one line from a peer came to.
#[derive(Debug, Clone, PartialEq, Eq)]
pub enum LineRead {
    /// The line, or what came of it before the cap or the end of the stream.
    Line(Vec<u8>),
    /// The peer closed without sending anything.
    Closed,
    /// The read failed or timed out.
    Failed,
}

/// Where an exchange stands.
#[derive(Debug, Clone, Copy, PartialEq, Eq)]
pub enum ProxyState {
    /// A client is connected; its request is to be read.
    AwaitRequest,
    /// The request is on its way to the VM.
    AwaitVmWrite,
    /// The VM's response is to be read.
    AwaitVmReply,
    /// The exchange is over; the next client may connect.
    Idle,
    /// The channel to the VM failed; the proxy has given up.
    Abandoned,
}

/// What happened to the action last asked for.
#[derive(Debug, Clone, PartialEq, Eq)]
pub enum ProxyEvent {
    ClientRead(LineRead),
    VmWrote(bool),
    VmRead(LineRead),
}

/// What is to be done next.
#[derive(Debug, Clone, PartialEq, Eq)]
pub enum ProxyAction {
    /// Read one line from the client.
    ReadRequest,
    /// Write these bytes to the VM and flush.
    Forward(Vec<u8>),
    /// Read one line from the VM.
    ReadReply,
    /// Write these bytes to the client, whatever comes of it, and close it.
    Reply(Vec<u8>),
    /// Close the client and accept the next one.
    NextClient,
    /// Stop listening: every later request would be lost.
    GiveUp,
    /// The event does not belong to this state; nothing is done.
    Ignore,
}

/// The exchange's next state and action. A client that sends nothing or fails
/// costs the client; a VM that cannot be written to or read from costs the
/// proxy.
pub open spec fn proxy_next(state: ProxyState, event: ProxyEvent) -> (ProxyState, ProxyAction) {
    match (state, event) {
        (ProxyState::AwaitRequest, ProxyEvent::ClientRead(LineRead::Line(b))) => (
            ProxyState::AwaitVmWrite,
            ProxyAction::Forward(b),
        ),
        (ProxyState::AwaitRequest, ProxyEvent::ClientRead(_)) => (
            ProxyState::Idle,
            ProxyAction::NextClient,
        ),
        (ProxyState::AwaitVmWrite, ProxyEvent::VmWrote(true)) => (
            ProxyState::AwaitVmReply,
            ProxyAction::ReadReply,
        ),
        (ProxyState::AwaitVmWrite, ProxyEvent::VmWrote(false)) => (
            ProxyState::Abandoned,
            ProxyAction::GiveUp,
        ),
        (ProxyState::AwaitVmReply, ProxyEvent::VmRead(LineRead::Line(b))) => (
            ProxyState::Idle,
            ProxyAction::Reply(b),
        ),
        (ProxyState::AwaitVmReply, ProxyEvent::VmRead(_)) => (
            ProxyState::Abandoned,
            ProxyAction::GiveUp,
        ),
        _ => (state, ProxyAction::Ignore),
    }
}

/// The exchange's next state and action.
pub fn proxy_step(state: ProxyState, event: ProxyEvent) -> (r: (ProxyState, ProxyAction))
    ensures
        r == proxy_next(state, event),
{
    match (state, event) {
        (ProxyState::AwaitRequest, ProxyEvent::ClientRead(read)) => match read {
            LineRead::Line(b) => (ProxyState::AwaitVmWrite, ProxyAction::Forward(b)),
            _ => (ProxyState::Idle, ProxyAction::NextClient),
        },
        (ProxyState::AwaitVmWrite, ProxyEvent::VmWrote(ok)) => if ok {
            (ProxyState::AwaitVmReply, ProxyAction::ReadReply)
        } else {
            (ProxyState::Abandoned, ProxyAction::GiveUp)
        },
        (ProxyState::AwaitVmReply, ProxyEvent::VmRead(read)) => match read {
            LineRead::Line(b) => (ProxyState::Idle, ProxyAction::Reply(b)),
            _ => (ProxyState::Abandoned, ProxyAction::GiveUp),
        },
        (state, _) => (state, ProxyAction::Ignore),
    }
}

/// What one whole exchange comes to.
#[derive(Debug, Clone, PartialEq, Eq)]
pub struct RoundTrip {
    /// What was written to the VM.
    pub forwarded: Option<Vec<u8>>,
    /// What was written back to the client.
    pub replied: Option<Vec<u8>>,
    /// Whether the listener stays alive.
    pub keep_listening: bool,
}

/// One request and response, given what the client sent, whether the VM took
/// it and what the VM answered.
pub fn proxy_one_round_trip(client: LineRead, vm_wrote: bool, vm: LineRead) -> (r: RoundTrip)
    ensures
        r.forwarded == (match client {
            LineRead::Line(b) => Some(b),
            _ => None,
        }),
        r.replied == (match (client, vm) {
            (LineRead::Line(_), LineRead::Line(b)) => if vm_wrote {
                Some(b)
            } else {
                None
            },
            _ => None,
        }),
        r.keep_listening == (!(client is Line) || (vm_wrote && vm is Line)),
{
    match proxy_step(ProxyState::AwaitRequest, ProxyEvent::ClientRead(client)) {
        (s1, ProxyAction::Forward(b)) => match proxy_step(s1, ProxyEvent::VmWrote(vm_wrote)) {
            (s2, ProxyAction::ReadReply) => match proxy_step(s2, ProxyEvent::VmRead(vm)) {
                (_, ProxyAction::Reply(reply)) => RoundTrip {
                    forwarded: Some(b),
                    replied: Some(reply),
                    keep_listening: true,
                },
                _ => RoundTrip { forwarded: Some(b), replied: None, keep_listening: false },
            },
            _ => RoundTrip { forwarded: Some(b), replied: None, keep_listening: false },
        },
        _ => RoundTrip { forwarded: None, replied: None, keep_listening: true },
    }
}

/// Whether a connecting peer is served: only the owner of the worker is, and a
/// peer whose identity could not be read is not.
pub fn peer_uid_matches(peer: Option<u32>, expected: u32) -> (r: bool)
    ensures
        r == (peer == Some(expected)),
{
    match peer {
        Some(uid) => uid == expected,
        None => false,
    }
}

/// The state and action that a connecting client is met with.
pub open spec fn client_met(peer: Option<u32>, owner: u32) -> (ProxyState, ProxyAction) {
    if peer == Some(owner) {
        (ProxyState::AwaitRequest, ProxyAction::ReadRequest)
    } else {
        (ProxyState::Idle, ProxyAction::NextClient)
    }
}

/// Meet a client that connects between two exchanges: the owner's request is
/// read, and anyone else is closed.
pub fn meet_client(peer: Option<u32>, owner: u32) -> (r: (ProxyState, ProxyAction))
    ensures
        r == client_met(peer, owner),
{
    if peer_uid_matches(peer, owner) {
        (ProxyState::AwaitRequest, ProxyAction::ReadRequest)
    } else {
        (ProxyState::Idle, ProxyAction::NextClient)
    }
}

/// One client from its connection on, given who it is, what it sends, whether
/// the VM takes it and what the VM answers. A refused client costs nothing but
/// itself.
pub fn serve_client(
    peer: Option<u32>,
    owner: u32,
    client: LineRead,
    vm_wrote: bool,
    vm: LineRead,
) -> (r: RoundTrip)
    ensures
        r.forwarded == (match client {
            LineRead::Line(b) => if peer == Some(owner) {
                Some(b)
            } else {
                None
            },
            _ => None,
        }),
        r.replied == (match (client, vm) {
            (LineRead::Line(_), LineRead::Line(b)) => if peer == Some(owner) && vm_wrote {
                Some(b)
            } else {
                None
            },
            _ => None,
        }),
        r.keep_listening == (peer != Some(owner) || !(client is Line) || (vm_wrote && vm is Line)),
{
    match meet_client(peer, owner) {
        (_, ProxyAction::ReadRequest) => proxy_one_round_trip(client, vm_wrote, vm),
        _ => RoundTrip { forwarded: None, replied: None, keep_listening: true },
    }
}

/// Nothing of a client that is not the owner's is forwarded: it leaves the
/// proxy idle, an idle proxy forwards nothing whatever happens, and only the
/// meeting with a client of the owner's leads to a request being read.
pub proof fn refused_client_is_not_forwarded(
    peer: Option<u32>,
    owner: u32,
    state: ProxyState,
    event: ProxyEvent,
)
    ensures
        peer != Some(owner) ==> client_met(peer, owner) == (
            ProxyState::Idle,
            ProxyAction::NextClient,
        ),
        proxy_next(ProxyState::Idle, event) == (ProxyState::Idle, ProxyAction::Ignore),
        proxy_next(state, event).1 is Forward ==> state is AwaitRequest,
        proxy_next(state, event).0 is AwaitRequest ==> state is AwaitRequest,
{
}

/// A line never outgrows the cap, and it ends at the first line feed within
/// the cap.
pub proof fn line_is_bounded(buf: Seq<u8>, max: int)
    requires
        0 <= max,
    ensures
        match line_length(buf, max) {
            Some(n) => {
                &&& 0 <= n <= max
                &&& n <= buf.len()
                &&& forall|i: int| 0 <= i < n - 1 ==> buf[i] != 10
                &&& n < max ==> n > 0 && buf[n - 1] == 10
            },
            None => buf.len() < max && forall|i: int| 0 <= i < buf.len() ==> buf[i] != 10,
        },
    decreases max,
{
    if max > 0 && buf.len() > 0 && buf[0] != 10 {
        let rest = buf.skip(1);
        line_is_bounded(rest, max - 1);
        match line_length(rest, max - 1) {
            Some(n) => {
                assert forall|i: int| 0 <= i < n implies buf[i] != 10 by {
                    if i > 0 {
                        assert(rest[i - 1] == buf[i]);
                    }
                }
                if n < max - 1 {
                    assert(rest[n - 1] == buf[n]);
                }
            },
            None => {
                assert forall|i: int| 0 <= i < buf.len() implies buf[i] != 10 by {
                    if i > 0 {
                        assert(rest[i - 1] == buf[i]);
                    }
                }
            },
        }
    }
}

} // verus!
