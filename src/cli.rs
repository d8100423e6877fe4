//! Command-line words into a configuration.
//!
//! `-c <cmd> <alias> [<id>]` adds a task that starts at once, and `-cn` in
//! its place one that waits for a command; the id is the alias unless a third
//! word gives it; `--notify-vsock <cid>:<port>` names the peer that
//! hears about exits, and `--listen-vsock` accepts the peer's notifications.
use vstd::prelude::*;
use crate::config::{Config, TaskConfig, distinct, ids_of};

verus! {

/// Why the words do not make a configuration.
#[derive(Debug)]
pub enum ArgError {
    /// No words at all.
    NoCommands,
    /// The flag lacks a value that has to follow it.
    MissingValue(String),
    /// A task id that is empty or already taken.
    BadId(String),
    /// A peer that is not `<cid>:<port>` with two decimal `u32`s.
    BadTarget(String),
    /// A word that is no flag where a flag was expected.
    UnknownWord(String),
}

/// `ArgError` with its words as character sequences.
pub enum ArgFault {
    NoCommands,
    MissingValue(Seq<char>),
    BadId(Seq<char>),
    BadTarget(Seq<char>),
    UnknownWord(Seq<char>),
}

impl ArgError {
    pub open spec fn fault(self) -> ArgFault {
        match self {
            ArgError::NoCommands => ArgFault::NoCommands,
            ArgError::MissingValue(s) => ArgFault::MissingValue(s@),
            ArgError::BadId(s) => ArgFault::BadId(s@),
            ArgError::BadTarget(s) => ArgFault::BadTarget(s@),
            ArgError::UnknownWord(s) => ArgFault::UnknownWord(s@),
        }
    }
}

/// A task as (id, command, no_start).
pub type TaskModel = (Seq<char>, Seq<char>, bool);

/// A configuration as (peer, listen, tasks).
pub type ConfigModel = (Option<(Seq<char>, Seq<char>)>, bool, Seq<TaskModel>);

pub open spec fn task_model(t: TaskConfig) -> TaskModel {
    (t.id@, t.cmd@, t.no_start)
}

pub open spec fn config_model(c: Config) -> ConfigModel {
    (
        match c.notify_vsock {
            Some((a, b)) => Some((a@, b@)),
            None => None,
        },
        c.listen_vsock,
        c.tasks@.map_values(|t: TaskConfig| task_model(t)),
    )
}

pub open spec fn flag_c() -> Seq<char> {
    "-c"@
}

pub open spec fn flag_cn() -> Seq<char> {
    "-cn"@
}

pub open spec fn flag_notify() -> Seq<char> {
    "--notify-vsock"@
}

pub open spec fn flag_listen() -> Seq<char> {
    "--listen-vsock"@
}

pub open spec fn is_flag(w: Seq<char>) -> bool {
    w == flag_c() || w == flag_cn() || w == flag_notify() || w == flag_listen()
}

/// The word at `j`, when there is one and it is no flag.
pub open spec fn value_at(args: Seq<Seq<char>>, j: int) -> Option<Seq<char>> {
    if 0 <= j < args.len() && !is_flag(args[j]) {
        Some(args[j])
    } else {
        None
    }
}

pub open spec fn is_digit(c: char) -> bool {
    '0' <= c <= '9'
}

/// The value of a string of decimal digits.
pub open spec fn dec_value(s: Seq<char>) -> nat
    decreases s.len(),
{
    if s.len() == 0 {
        0
    } else {
        dec_value(s.drop_last()) * 10 + (s.last() as nat - '0' as nat) as nat
    }
}

/// `s` is a decimal `u32`.
pub open spec fn is_u32_dec(s: Seq<char>) -> bool {
    &&& s.len() > 0
    &&& forall|i: int| 0 <= i < s.len() ==> is_digit(#[trigger] s[i])
    &&& dec_value(s) <= u32::MAX
}

/// The position of the first `:` in `s` from `from` on, if any.
pub open spec fn colon_from(s: Seq<char>, from: int) -> Option<int>
    decreases s.len() - from,
{
    if from < 0 || from >= s.len() {
        None
    } else if s[from] == ':' {
        Some(from)
    } else {
        colon_from(s, from + 1)
    }
}

/// `v` split at its first `:` into two decimal `u32`s.
pub open spec fn target_of(v: Seq<char>) -> Option<(Seq<char>, Seq<char>)> {
    match colon_from(v, 0) {
        Some(k) => {
            let (a, b) = (v.take(k), v.skip(k + 1));
            if is_u32_dec(a) && is_u32_dec(b) {
                Some((a, b))
            } else {
                None
            }
        },
        None => None,
    }
}

/// The ids of the tasks of a model.
pub open spec fn model_ids(tasks: Seq<TaskModel>) -> Seq<Seq<char>> {
    tasks.map_values(|t: TaskModel| t.0)
}

/// Reads `args` from `i` on, onto the configuration `acc`.
pub open spec fn parse_from(args: Seq<Seq<char>>, i: int, acc: ConfigModel) -> Result<
    ConfigModel,
    ArgFault,
>
    decreases args.len() - i,
{
    if i < 0 || i >= args.len() {
        Ok(acc)
    } else {
        let w = args[i];
        if w == flag_c() || w == flag_cn() {
            match (value_at(args, i + 1), value_at(args, i + 2)) {
                (Some(cmd), Some(alias)) => {
                    let (id, next) = match value_at(args, i + 3) {
                        Some(id) => (id, i + 4),
                        None => (alias, i + 3),
                    };
                    if id.len() == 0 || model_ids(acc.2).contains(id) {
                        Err(ArgFault::BadId(id))
                    } else {
                        parse_from(args, next, (acc.0, acc.1, acc.2.push((id, cmd, w == flag_cn()))))
                    }
                },
                _ => Err(ArgFault::MissingValue(w)),
            }
        } else if w == flag_notify() {
            match value_at(args, i + 1) {
                Some(v) => match target_of(v) {
                    Some(t) => parse_from(args, i + 2, (Some(t), acc.1, acc.2)),
                    None => Err(ArgFault::BadTarget(v)),
                },
                None => Err(ArgFault::MissingValue(w)),
            }
        } else if w == flag_listen() {
            parse_from(args, i + 1, (acc.0, true, acc.2))
        } else {
            Err(ArgFault::UnknownWord(w))
        }
    }
}

/// What the words `args` configure.
pub open spec fn args_config(args: Seq<Seq<char>>) -> Result<ConfigModel, ArgFault> {
    if args.len() == 0 {
        Err(ArgFault::NoCommands)
    } else {
        parse_from(args, 0, (None, false, seq![]))
    }
}

/// The views of `args`, in order.
pub open spec fn arg_views(args: Seq<String>) -> Seq<Seq<char>> {
    args.map_values(|s: String| s@)
}

fn is_flag_word(w: &String) -> (r: bool)
    ensures
        r == is_flag(w@),
{
    *w == String::from_str("-c") || *w == String::from_str("-cn") || *w == String::from_str(
        "--notify-vsock",
    ) || *w == String::from_str("--listen-vsock")
}

fn value_word(args: &Vec<String>, j: usize) -> (r: Option<&String>)
    ensures
        value_at(arg_views(args@), j as int) == (match r {
            Some(s) => Some(s@),
            None => None,
        }),
{
    if j < args.len() && !is_flag_word(&args[j]) {
        Some(&args[j])
    } else {
        None
    }
}

proof fn lemma_dec_prefix(s: Seq<char>, k: int)
    requires
        0 <= k <= s.len(),
        forall|i: int| 0 <= i < s.len() ==> is_digit(#[trigger] s[i]),
    ensures
        dec_value(s.take(k)) <= dec_value(s),
    decreases s.len(),
{
    if k < s.len() {
        let t = s.drop_last();
        assert(t.take(k) =~= s.take(k));
        lemma_dec_prefix(t, k);
    } else {
        assert(s.take(k) =~= s);
    }
}

/// Whether `s` is a decimal `u32`.
fn is_u32_word(s: &str) -> (r: bool)
    ensures
        r == is_u32_dec(s@),
{
    let n = s.unicode_len();
    if n == 0 {
        return false;
    }
    let mut v: u64 = 0;
    let mut i: usize = 0;
    while i < n
        invariant
            n == s@.len(),
            i <= n,
            v == dec_value(s@.take(i as int)),
            v <= u32::MAX,
            forall|j: int| 0 <= j < i ==> is_digit(#[trigger] s@[j]),
        decreases n - i,
    {
        let c = s.get_char(i);
        if !('0' <= c && c <= '9') {
            return false;
        }
        assert(s@.take(i + 1).drop_last() =~= s@.take(i as int));
        v = v * 10 + (c as u64 - '0' as u64);
        if v > u32::MAX as u64 {
            proof {
                assert forall|j: int| 0 <= j < i + 1 implies is_digit(#[trigger] s@.take(i + 1)[j]) by {}
                if forall|j: int| 0 <= j < s@.len() ==> is_digit(#[trigger] s@[j]) {
                    lemma_dec_prefix(s@, i + 1);
                }
            }
            return false;
        }
        i = i + 1;
    }
    assert(s@.take(n as int) =~= s@);
    true
}

proof fn lemma_colon_in_range(s: Seq<char>, from: int)
    ensures
        colon_from(s, from) matches Some(k) ==> from <= k < s.len() && s[k] == ':',
    decreases s.len() - from,
{
    if 0 <= from < s.len() && s[from] != ':' {
        lemma_colon_in_range(s, from + 1);
    }
}

/// Position of the first `:` of `s`, if any.
fn find_colon(s: &str) -> (r: Option<usize>)
    ensures
        colon_from(s@, 0) == (match r {
            Some(k) => Some(k as int),
            None => None,
        }),
{
    let n = s.unicode_len();
    let mut i: usize = 0;
    while i < n
        invariant
            n == s@.len(),
            i <= n,
            colon_from(s@, 0) == colon_from(s@, i as int),
        decreases n - i,
    {
        if s.get_char(i) == ':' {
            return Some(i);
        }
        i = i + 1;
    }
    None
}

/// `v` split into a peer's two parts.
fn split_target(v: &String) -> (r: Option<(String, String)>)
    ensures
        target_of(v@) == (match r {
            Some((a, b)) => Some((a@, b@)),
            None => None,
        }),
{
    let s = v.as_str();
    match find_colon(s) {
        Some(k) => {
            proof {
                lemma_colon_in_range(s@, 0);
            }
            let n = s.unicode_len();
            let a = s.substring_char(0, k);
            let b = s.substring_char(k + 1, n);
            assert(a@ =~= v@.take(k as int));
            assert(b@ =~= v@.skip(k + 1));
            if is_u32_word(a) && is_u32_word(b) {
                Some((String::from_str(a), String::from_str(b)))
            } else {
                None
            }
        },
        None => None,
    }
}

/// Whether a task of `tasks` has the id `id`.
fn has_id(tasks: &Vec<TaskConfig>, id: &String) -> (r: bool)
    ensures
        r == ids_of(tasks@).contains(id@),
{
    let mut i: usize = 0;
    while i < tasks.len()
        invariant
            i <= tasks.len(),
            forall|k: int| 0 <= k < i ==> ids_of(tasks@)[k] != id@,
        decreases tasks.len() - i,
    {
        if tasks[i].id == *id {
            assert(ids_of(tasks@)[i as int] == id@);
            return true;
        }
        i = i + 1;
    }
    assert(!ids_of(tasks@).contains(id@)) by {
        if ids_of(tasks@).contains(id@) {
            let k = choose|k: int| 0 <= k < ids_of(tasks@).len() && ids_of(tasks@)[k] == id@;
            assert(ids_of(tasks@)[k] != id@);
        }
    }
    false
}

/// Reads the configuration from the command-line words `args`: exactly what
/// `args_config` gives, with task ids that are distinct.
pub fn parse(args: &Vec<String>) -> (r: Result<Config, ArgError>)
    ensures
        r matches Ok(c) ==> args_config(arg_views(args@)) == Ok::<ConfigModel, ArgFault>(
            config_model(c),
        ) && distinct(ids_of(c.tasks@)),
        r matches Err(e) ==> args_config(arg_views(args@)) == Err::<ConfigModel, ArgFault>(
            e.fault(),
        ),
{
    if args.len() == 0 {
        return Err(ArgError::NoCommands);
    }
    let ghost a = arg_views(args@);
    let mut cfg = Config { notify_vsock: None, listen_vsock: false, tasks: Vec::new() };
    assert(config_model(cfg).2 =~= seq![]);
    let mut i: usize = 0;
    while i < args.len()
        invariant
            a == arg_views(args@),
            i <= args.len(),
            args_config(a) == parse_from(a, i as int, config_model(cfg)),
            distinct(ids_of(cfg.tasks@)),
            model_ids(config_model(cfg).2) == ids_of(cfg.tasks@),
        decreases args.len() - i,
    {
        let w = &args[i];
        let is_c = *w == String::from_str("-c");
        let is_cn = *w == String::from_str("-cn");
        if is_c || is_cn {
            let cmd = match value_word(args, i + 1) {
                Some(cmd) => cmd,
                None => return Err(ArgError::MissingValue(w.clone())),
            };
            let alias = match value_word(args, i + 2) {
                Some(alias) => alias,
                None => return Err(ArgError::MissingValue(w.clone())),
            };
            let (id, next) = match value_word(args, i + 3) {
                Some(id) => (id, i + 4),
                None => (alias, i + 3),
            };
            if id.unicode_len() == 0 || has_id(&cfg.tasks, id) {
                return Err(ArgError::BadId(id.clone()));
            }
            let ghost old_cfg = cfg;
            cfg.tasks.push(TaskConfig { id: id.clone(), cmd: cmd.clone(), no_start: is_cn });
            proof {
                assert(config_model(cfg).2 =~= config_model(old_cfg).2.push((id@, cmd@, is_cn)));
                assert(ids_of(cfg.tasks@) =~= ids_of(old_cfg.tasks@).push(id@));
                assert(model_ids(config_model(cfg).2) =~= model_ids(config_model(old_cfg).2).push(
                    id@,
                ));
                assert forall|p: int, q: int|
                    0 <= p < q < ids_of(cfg.tasks@).len() implies ids_of(cfg.tasks@)[p]
                    != ids_of(cfg.tasks@)[q] by {
                    if q == ids_of(cfg.tasks@).len() - 1 {
                        assert(ids_of(old_cfg.tasks@)[p] == ids_of(cfg.tasks@)[p]);
                    }
                }
            }
            i = next;
        } else if *w == String::from_str("--notify-vsock") {
            let v = match value_word(args, i + 1) {
                Some(v) => v,
                None => return Err(ArgError::MissingValue(w.clone())),
            };
            match split_target(v) {
                Some(t) => {
                    cfg.notify_vsock = Some(t);
                },
                None => return Err(ArgError::BadTarget(v.clone())),
            }
            i = i + 2;
        } else if *w == String::from_str("--listen-vsock") {
            cfg.listen_vsock = true;
            i = i + 1;
        } else {
            return Err(ArgError::UnknownWord(w.clone()));
        }
    }
    Ok(cfg)
}

} // verus!
