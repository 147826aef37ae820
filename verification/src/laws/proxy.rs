//! Laws of the control proxy.

use crate::cli::control_proxy::{
    line_end, line_is_bounded, meet_client, peer_uid_matches, proxy_one_round_trip, proxy_step,
    serve_client, LineRead, ProxyAction, ProxyEvent, ProxyState, RoundTrip,
};
use vstd::prelude::*;

verus! {

/// A line ends at its line feed, which belongs to it, or at the cap; while
/// neither is there, more is to come.
pub proof fn lines_end_at_a_line_feed_or_the_cap(buf: &[u8], max: usize, r: Option<usize>)
    requires
        call_ensures(line_end, (buf, max), r),
    ensures
        r matches Some(n) ==> {
            &&& n <= max && n <= buf@.len()
            &&& forall|i: int| 0 <= i < n - 1 ==> buf@[i] != 10
            &&& n == max || (n > 0 && buf@[n - 1] == 10)
        },
        r is None <==> buf@.len() < max && forall|i: int| 0 <= i < buf@.len() ==> buf@[i] != 10,
{
    line_is_bounded(buf@, max as int);
    match r {
        Some(n) => {
            if buf@.len() < max && forall|i: int| 0 <= i < buf@.len() ==> buf@[i] != 10 {
                assert(n < max);
                assert(buf@[n - 1] == 10);
            }
        },
        None => {},
    }
}

/// Only the owner is served: a peer that is another, or that nobody knows, is
/// not.
pub proof fn only_the_owner_is_served(peer: Option<u32>, owner: u32, r: bool)
    requires
        call_ensures(peer_uid_matches, (peer, owner), r),
    ensures
        r <==> peer == Some(owner),
{
}

/// The owner's request is read; anyone else is closed at once.
pub proof fn others_are_closed_at_once(
    peer: Option<u32>,
    owner: u32,
    r: (ProxyState, ProxyAction),
)
    requires
        call_ensures(meet_client, (peer, owner), r),
    ensures
        peer == Some(owner) ==> r.0 is AwaitRequest && r.1 is ReadRequest,
        peer != Some(owner) ==> r.0 is Idle && r.1 is NextClient,
{
}

/// What the client sent is what the VM gets, and what the VM answered is what
/// the client gets, byte for byte; nothing else is ever written to either.
pub proof fn bytes_pass_unchanged(
    state: ProxyState,
    event: ProxyEvent,
    r: (ProxyState, ProxyAction),
    bytes: Vec<u8>,
)
    requires
        call_ensures(proxy_step, (state, event), r),
    ensures
        r.1 == ProxyAction::Forward(bytes) <==> state is AwaitRequest && event
            == ProxyEvent::ClientRead(LineRead::Line(bytes)),
        r.1 == ProxyAction::Reply(bytes) <==> state is AwaitVmReply && event == ProxyEvent::VmRead(
            LineRead::Line(bytes),
        ),
{
}

/// A client that sends nothing costs itself; a VM that cannot be written to, or
/// that does not answer, costs the proxy.
pub proof fn clients_are_expendable_the_vm_is_not(
    state: ProxyState,
    event: ProxyEvent,
    r: (ProxyState, ProxyAction),
)
    requires
        call_ensures(proxy_step, (state, event), r),
    ensures
        r.1 is GiveUp <==> {
            ||| state is AwaitVmWrite && event == ProxyEvent::VmWrote(false)
            ||| state is AwaitVmReply && event is VmRead && !(event->VmRead_0 is Line)
        },
        r.1 is GiveUp ==> r.0 is Abandoned,
        r.1 is NextClient <==> state is AwaitRequest && event is ClientRead && !(
        event->ClientRead_0 is Line),
        r.1 is ReadReply <==> state is AwaitVmWrite && event == ProxyEvent::VmWrote(true),
        r.1 is Forward ==> r.0 is AwaitVmWrite,
        r.1 is ReadReply ==> r.0 is AwaitVmReply,
        r.1 is Reply || r.1 is NextClient ==> r.0 is Idle,
        r.1 is Ignore ==> r.0 == state,
{
}

/// One exchange: the client's line goes to the VM and the VM's line to the
/// client, and the proxy goes on unless the VM failed.
pub proof fn exchange_is_one_line_each_way(
    client: LineRead,
    vm_wrote: bool,
    vm: LineRead,
    r: RoundTrip,
)
    requires
        call_ensures(proxy_one_round_trip, (client, vm_wrote, vm), r),
    ensures
        forall|b: Vec<u8>| r.forwarded == Some(b) <==> client == LineRead::Line(b),
        forall|b: Vec<u8>|
            r.replied == Some(b) <==> client is Line && vm_wrote && vm == LineRead::Line(b),
        !r.keep_listening <==> client is Line && !(vm_wrote && vm is Line),
{
}

/// Of a client that is not the owner's nothing reaches the VM and nothing comes
/// back, and the proxy goes on; the owner's has its exchange.
pub proof fn strangers_reach_nothing(
    peer: Option<u32>,
    owner: u32,
    client: LineRead,
    vm_wrote: bool,
    vm: LineRead,
    served: RoundTrip,
    r: RoundTrip,
)
    requires
        call_ensures(serve_client, (peer, owner, client, vm_wrote, vm), r),
        call_ensures(proxy_one_round_trip, (client, vm_wrote, vm), served),
    ensures
        peer != Some(owner) ==> r.forwarded is None && r.replied is None && r.keep_listening,
        peer == Some(owner) ==> r == served,
{
}

} // verus!
