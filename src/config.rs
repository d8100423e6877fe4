//! What the supervisor is told to run.
use vstd::prelude::*;

verus! {

/// One task: a shell command line under a unique id.
pub struct TaskConfig {
    pub id: String,
    pub cmd: String,
    /// Leave the task down until a command starts it.
    pub no_start: bool,
}

impl TaskConfig {
    /// Whether the supervisor restarts the task as soon as it comes up.
    pub fn starts_at_launch(&self) -> (r: bool)
        ensures
            r == !self.no_start,
    {
        !self.no_start
    }
}

/// The whole configuration.
pub struct Config {
    /// Where to send exit notifications, when set.
    pub notify_vsock: Option<(String, String)>,
    /// Whether to accept notifications from the remote peer.
    pub listen_vsock: bool,
    pub tasks: Vec<TaskConfig>,
}

/// The ids of `tasks`, in order.
pub open spec fn ids_of(tasks: Seq<TaskConfig>) -> Seq<Seq<char>> {
    tasks.map_values(|t: TaskConfig| t.id@)
}

/// No two entries of `s` are equal.
pub open spec fn distinct(s: Seq<Seq<char>>) -> bool {
    forall|i: int, j: int| 0 <= i < j < s.len() ==> s[i] != s[j]
}

} // verus!
