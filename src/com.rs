//! The bus: one shared event channel, and one command channel per task.
use vstd::prelude::*;
use crate::config::{Config, TaskConfig, ids_of, distinct};
use crate::router::EvCommand;
use crate::task::TaskCommand;

verus! {

#[verifier::external_type_specification]
#[verifier::external_body]
#[verifier::reject_recursive_types(T)]
pub struct ExSender<T>(tokio::sync::mpsc::Sender<T>);

#[verifier::external_type_specification]
#[verifier::external_body]
#[verifier::reject_recursive_types(T)]
pub struct ExReceiver<T>(tokio::sync::mpsc::Receiver<T>);

/// Room in the shared event channel.
pub const EVENT_CAPACITY: usize = 24;

/// Room in each task's command channel.
pub const COMMAND_CAPACITY: usize = 12;

/// Relies on `tokio::sync::mpsc::channel`: a bounded channel of room `cap`;
/// it panics on a room of zero.
#[verifier::external_body]
fn channel<T>(cap: usize) -> (r: (tokio::sync::mpsc::Sender<T>, tokio::sync::mpsc::Receiver<T>))
    requires
        0 < cap <= 1024,
{
    tokio::sync::mpsc::channel(cap)
}

/// The receiving ends, each for the actor that owns it.
pub struct ComBundle {
    pub ev_rx: tokio::sync::mpsc::Receiver<EvCommand>,
    /// One per task, in the order of the configuration.
    pub tasks_rx: Vec<tokio::sync::mpsc::Receiver<TaskCommand>>,
}

/// The sending ends: the event channel, and each task's command channel
/// under its id.
pub struct Com {
    pub ev: tokio::sync::mpsc::Sender<EvCommand>,
    pub ids: Vec<String>,
    pub tasks: Vec<tokio::sync::mpsc::Sender<TaskCommand>>,
}

/// The views of `ids`, in order.
pub open spec fn id_views(ids: Seq<String>) -> Seq<Seq<char>> {
    ids.map_values(|s: String| s@)
}

impl Com {
    pub open spec fn wf(&self) -> bool {
        &&& self.ids.len() == self.tasks.len()
        &&& distinct(id_views(self.ids@))
    }

    /// The ids under which tasks are registered, in order.
    pub open spec fn id_seq(&self) -> Seq<Seq<char>> {
        id_views(self.ids@)
    }

    /// Builds the bus for `entries`: one command channel per task, under its id.
    pub fn init(entries: &Vec<TaskConfig>) -> (r: (ComBundle, Com))
        requires
            distinct(ids_of(entries@)),
        ensures
            r.1.wf(),
            r.1.id_seq() == ids_of(entries@),
            r.0.tasks_rx.len() == entries.len(),
    {
        let (ev_tx, ev_rx) = channel(EVENT_CAPACITY);
        let mut ids: Vec<String> = Vec::new();
        let mut tasks: Vec<tokio::sync::mpsc::Sender<TaskCommand>> = Vec::new();
        let mut tasks_rx: Vec<tokio::sync::mpsc::Receiver<TaskCommand>> = Vec::new();
        let mut i: usize = 0;
        while i < entries.len()
            invariant
                i <= entries.len(),
                ids.len() == i,
                tasks.len() == i,
                tasks_rx.len() == i,
                id_views(ids@) == ids_of(entries@).take(i as int),
            decreases entries.len() - i,
        {
            let (ttx, rrx) = channel(COMMAND_CAPACITY);
            ids.push(entries[i].id.clone());
            tasks.push(ttx);
            tasks_rx.push(rrx);
            assert(id_views(ids@) =~= ids_of(entries@).take(i + 1));
            i = i + 1;
        }
        assert(ids_of(entries@).take(i as int) =~= ids_of(entries@));
        (ComBundle { ev_rx, tasks_rx }, Com { ev: ev_tx, ids, tasks })
    }

    /// Where `id` is registered, if it is.
    pub fn find(&self, id: &String) -> (r: Option<usize>)
        requires
            self.wf(),
        ensures
            r matches Some(i) ==> i < self.ids.len() && self.id_seq()[i as int] == id@,
            r is None <==> !self.id_seq().contains(id@),
    {
        let mut i: usize = 0;
        while i < self.ids.len()
            invariant
                self.wf(),
                i <= self.ids.len(),
                forall|k: int| 0 <= k < i ==> self.id_seq()[k] != id@,
            decreases self.ids.len() - i,
        {
            if self.ids[i] == *id {
                assert(self.id_seq()[i as int] == id@);
                return Some(i);
            }
            i = i + 1;
        }
        assert(!self.id_seq().contains(id@)) by {
            if self.id_seq().contains(id@) {
                let k = choose|k: int| 0 <= k < self.id_seq().len() && self.id_seq()[k] == id@;
                assert(self.id_seq()[k] != id@);
            }
        }
        None
    }

    /// The command channel of the task registered under `id`.
    pub fn task(&self, id: &String) -> (r: &tokio::sync::mpsc::Sender<TaskCommand>)
        requires
            self.wf(),
            self.id_seq().contains(id@),
        ensures
            exists|i: int| 0 <= i < self.ids.len() && self.id_seq()[i] == id@ && *r == self.tasks[i],
    {
        let i = self.find(id).unwrap();
        &self.tasks[i]
    }
}

/// Everything the actors share: the bus and the configuration.
pub struct Context {
    pub com: Com,
    pub cfg: Config,
}

/// Builds the shared context for `cfg`, with the receiving ends of its bus.
pub fn context(cfg: Config) -> (r: (Context, ComBundle))
    requires
        distinct(ids_of(cfg.tasks@)),
    ensures
        r.0.cfg == cfg,
        r.0.com.wf(),
        r.0.com.id_seq() == ids_of(cfg.tasks@),
        r.1.tasks_rx.len() == cfg.tasks.len(),
{
    let (bundle, com) = Com::init(&cfg.tasks);
    (Context { com, cfg }, bundle)
}

} // verus!
