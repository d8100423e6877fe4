//! The event router: turns interactive input, exits and remote messages into
//! task commands.
use vstd::prelude::*;
use crate::com::Com;
use crate::wire::{
    Message, MessageVariant, PROCESS_EXITED_TAG, WireError, DECODE_LIMIT, claimed, decodes_to, starts_with, encode_message, tagged_frame,
};

verus! {

/// An event for the router.
pub enum EvCommand {
    /// A trimmed line of interactive input.
    ReadLine(String),
    /// A notification from the remote peer.
    RemoteMessage(Message),
    /// A supervised process exited on its own.
    ProcessExited(String),
}

/// What the router does about one event.
pub enum Route {
    /// Send `Restart` to the tasks at these positions of the bus, in order.
    Restart(Vec<usize>),
    /// Interactive input named no configured task: warn about it.
    NotFound(String),
    /// A local process exited: log it, and send `frame` to the remote peer
    /// when one is configured.
    Exited { id: String, frame: Option<Vec<u8>> },
    /// Nothing to do.
    Ignore,
}

/// The interactive input that restarts every task.
pub open spec fn restart_all_word() -> Seq<char> {
    seq!['R']
}

/// A position of `id` in `ids`; on a bus, whose ids are distinct, the only one.
pub open spec fn position(ids: Seq<Seq<char>>, id: Seq<char>) -> int {
    choose|i: int| 0 <= i < ids.len() && ids[i] == id
}

/// Every position of a bus with `n` tasks, in order.
pub open spec fn all_positions(n: nat) -> Seq<usize> {
    Seq::new(n, |i: int| i as usize)
}

/// `r` sends `Restart` to exactly the task registered under `id`, if there is
/// one, and otherwise is `missing`.
pub open spec fn restarts_one(com: &Com, id: Seq<char>, r: Route, missing: bool) -> bool {
    if com.id_seq().contains(id) {
        r matches Route::Restart(v) && v@ == seq![position(com.id_seq(), id) as usize]
    } else {
        missing
    }
}

/// `r` is the route of the input `line`: `R` restarts every task, a
/// registered id restarts that task, anything else is reported as not found.
pub open spec fn line_routed(com: &Com, line: Seq<char>, r: Route) -> bool {
    if line == restart_all_word() {
        r matches Route::Restart(v) && v@ == all_positions(com.ids.len() as nat)
    } else {
        restarts_one(com, line, r, r matches Route::NotFound(l) && l@ == line)
    }
}

/// `r` is the route of a remote notification about `id`: a restart of that
/// task if it is registered here, and nothing otherwise.
pub open spec fn remote_routed(com: &Com, id: Seq<char>, r: Route) -> bool {
    restarts_one(com, id, r, r is Ignore)
}

/// `r` is the route of a local exit of `id`: logged, and with `notify`
/// carrying the frame that tells the remote peer.
pub open spec fn exit_routed(id: Seq<char>, notify: bool, r: Route) -> bool {
    r matches Route::Exited { id: e, frame: f } && e@ == id && (notify <==> f is Some) && (
    f matches Some(b) ==> b@ == tagged_frame(PROCESS_EXITED_TAG, id))
}

/// A one-element vector.
fn single(i: usize) -> (r: Vec<usize>)
    ensures
        r@ == seq![i],
{
    let mut v: Vec<usize> = Vec::new();
    v.push(i);
    assert(v@ =~= seq![i]);
    v
}

/// What interactive input leads to: `R` restarts every task, a registered
/// id restarts that task, anything else is reported as not found.
pub fn route_line(com: &Com, line: String) -> (r: Route)
    requires
        com.wf(),
    ensures
        line_routed(com, line@, r),
{
    let all = String::from_str("R");
    proof {
        reveal_strlit("R");
        assert(all@ =~= restart_all_word());
    }
    if line == all {
        let mut v: Vec<usize> = Vec::new();
        let mut i: usize = 0;
        while i < com.ids.len()
            invariant
                i <= com.ids.len(),
                v@ == all_positions(i as nat),
            decreases com.ids.len() - i,
        {
            v.push(i);
            assert(v@ =~= all_positions((i + 1) as nat));
            i = i + 1;
        }
        Route::Restart(v)
    } else {
        match com.find(&line) {
            Some(i) => {
                proof {
                    lemma_position(com, line@, i as int);
                }
                Route::Restart(single(i))
            },
            None => Route::NotFound(line),
        }
    }
}

/// What a remote notification leads to: a restart of the task it names, if
/// that task is registered here, and nothing otherwise.
pub fn route_remote(com: &Com, m: Message) -> (r: Route)
    requires
        com.wf(),
    ensures
        remote_routed(com, m.task_id(), r),
{
    match m.variant {
        MessageVariant::ProcessExited(id) => match com.find(&id) {
            Some(i) => {
                proof {
                    lemma_position(com, id@, i as int);
                }
                Route::Restart(single(i))
            },
            None => Route::Ignore,
        },
    }
}

/// What a local exit leads to: it is logged, and with `notify` a frame that
/// tells the remote peer about it is sent.
pub fn route_exit(id: String, notify: bool) -> (r: Route)
    ensures
        exit_routed(id@, notify, r),
{
    if notify {
        let msg = Message::process_exited(id.clone());
        let frame = encode_message(&msg);
        Route::Exited { id, frame: Some(frame) }
    } else {
        Route::Exited { id, frame: None }
    }
}

/// Decides what the event `ev` leads to; `notify` says whether exits are
/// reported to a remote peer.
pub fn route(com: &Com, ev: EvCommand, notify: bool) -> (r: Route)
    requires
        com.wf(),
    ensures
        ev matches EvCommand::ReadLine(line) ==> line_routed(com, line@, r),
        ev matches EvCommand::RemoteMessage(m) ==> remote_routed(com, m.task_id(), r),
        ev matches EvCommand::ProcessExited(id) ==> exit_routed(id@, notify, r),
{
    match ev {
        EvCommand::ReadLine(line) => route_line(com, line),
        EvCommand::RemoteMessage(m) => route_remote(com, m),
        EvCommand::ProcessExited(id) => route_exit(id, notify),
    }
}

/// On a bus with distinct ids, the position of a registered id is the one
/// where it stands.
pub proof fn lemma_position(com: &Com, id: Seq<char>, i: int)
    requires
        com.wf(),
        0 <= i < com.ids.len(),
        com.id_seq()[i] == id,
    ensures
        com.id_seq().contains(id),
        position(com.id_seq(), id) == i,
{
    let s = com.id_seq();
    assert(s.contains(id));
    let p = position(s, id);
    if p != i {
        if p < i {
            assert(s[p] != s[i]);
        } else {
            assert(s[i] != s[p]);
        }
    }
}

/// Routing of interactive input on a bus where `a` is registered and `b` is
/// not (neither being `R`): `a` restarts exactly the task `a`, `b` sends
/// nothing and is reported as not found, and `R` restarts every task once.
pub proof fn lemma_routing(
    com: &Com,
    a: Seq<char>,
    b: Seq<char>,
    ra: Route,
    rb: Route,
    rall: Route,
)
    requires
        com.wf(),
        com.id_seq().contains(a),
        !com.id_seq().contains(b),
        a != restart_all_word(),
        b != restart_all_word(),
        line_routed(com, a, ra),
        line_routed(com, b, rb),
        line_routed(com, restart_all_word(), rall),
    ensures
        ra matches Route::Restart(v) && v.len() == 1 && com.id_seq()[v[0] as int] == a,
        rb matches Route::NotFound(l) && l@ == b,
        rall matches Route::Restart(v) && v.len() == com.ids.len() && forall|i: int|
            0 <= i < v.len() ==> v[i] == i,
{
    let p = position(com.id_seq(), a);
    assert(0 <= p < com.id_seq().len() && com.id_seq()[p] == a);
}

/// An exit notification crosses to the peer: for an id within the read
/// limit, the frame that a local exit of `id` sends, read back by the peer,
/// restarts the peer's task `id` when it has one and does nothing otherwise.
pub proof fn lemma_remote_round_trip(
    peer: &Com,
    id: Seq<char>,
    notify_route: Route,
    rest: Seq<u8>,
    read: Result<Message, WireError>,
    r: Route,
)
    requires
        peer.wf(),
        claimed(id) <= DECODE_LIMIT,
        exit_routed(id, true, notify_route),
        notify_route matches Route::Exited { frame: Some(f), .. } && decodes_to(f@ + rest, read),
        read matches Ok(m) ==> remote_routed(peer, m.task_id(), r),
    ensures
        read matches Ok(m) && m.task_id() == id,
        peer.id_seq().contains(id) ==> (r matches Route::Restart(v) && v@ == seq![
            position(peer.id_seq(), id) as usize,
        ]),
        !peer.id_seq().contains(id) ==> r is Ignore,
{
    if let Route::Exited { frame: Some(f), .. } = notify_route {
        assert((f@ + rest).subrange(0, f@.len() as int) =~= f@);
        assert(starts_with(f@ + rest, tagged_frame(PROCESS_EXITED_TAG, id)));
    }
}

} // verus!
