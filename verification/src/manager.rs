//! The session manager: the pool of connections and the registry of shells.

use std::collections::HashMap;
use vstd::prelude::*;
use vstd::hash_map::StringHashMap;
use vstd::std_specs::iter::IteratorSpec;
use crate::device::Device;
use crate::error::{Error, ErrorKind};
use crate::handshake::Connection;
use crate::ident::ConnectionId;
use crate::proc::Proc;
use crate::shell::{
    lemma_reordered_names_each_once, names_each_once, oldest_first, sort_oldest_first, Shell,
    ShellInfo, ShellToken,
};

verus! {

broadcast use vstd::std_specs::hash::group_hash_axioms;

/// How an operation gets its connection.
#[derive(Debug, PartialEq, Eq)]
pub enum Acquire {
    /// The pool holds a connection to the device: use it.
    Reuse(Connection),
    /// Establish a connection. If `pooled`, the manager has reserved the one
    /// creation it allows at a time, and waits to be told how it ended.
    Create { pooled: bool },
    /// Another pooled connection is being established: ask again when that
    /// is over.
    Wait,
}

/// What follows one attempt of an operation on a connection.
#[derive(Debug, PartialEq, Eq)]
pub enum Attempt<T> {
    /// The operation is over, with this result.
    Done(Result<T, Error>),
    /// The connection was dead: obtain a connection anew and try again.
    Retry,
}

/// The state of a session manager, as contracts speak of it.
pub struct ManagerState {
    /// The pool: device name to connection.
    pub connections: Map<Seq<char>, Connection>,
    /// The registry: token to shell.
    pub shells: Map<u128, Shell>,
    /// Whether a pooled connection is being established.
    pub creating: bool,
}

/// Whether an attempt that ended as `outcome` is made again on a new
/// connection: only where it failed because the connection was dead.
pub open spec fn retries<T>(outcome: Result<T, Error>) -> bool {
    outcome matches Err(e) && e.kind == ErrorKind::NeedsReconnect
}

/// What follows an attempt that ended as `outcome`.
pub open spec fn attempt_step<T>(outcome: Result<T, Error>) -> Attempt<T> {
    if retries(outcome) {
        Attempt::Retry
    } else {
        Attempt::Done(outcome)
    }
}

/// How an operation ends that makes its attempts one after the other, for as
/// long as it is told to retry, when these attempts end as `outcomes` say:
/// the number of attempts it makes, and its result. An operation that has
/// met nothing but dead connections has not ended.
pub open spec fn operation<T>(outcomes: Seq<Result<T, Error>>) -> Option<(nat, Result<T, Error>)>
    decreases outcomes.len(),
{
    if outcomes.len() == 0 {
        None
    } else {
        match attempt_step(outcomes[0]) {
            Attempt::Done(result) => Some((1, result)),
            Attempt::Retry => match operation(outcomes.drop_first()) {
                Some((attempts, result)) => Some(((attempts + 1) as nat, result)),
                None => None,
            },
        }
    }
}

/// The error with which an unknown token is answered.
pub open spec fn is_no_shell(e: Error) -> bool {
    e.kind == ErrorKind::NotFound && e.message@ == "No shell"@
}

impl ManagerState {
    /// The state of a manager that has just been made.
    pub open spec fn empty() -> ManagerState {
        ManagerState { connections: Map::empty(), shells: Map::empty(), creating: false }
    }

    /// Whether every entry stands under its own name: a connection under the
    /// name of its device, a shell under its token.
    pub open spec fn wf(self) -> bool {
        &&& forall|name: Seq<char>| #[trigger]
            self.connections.contains_key(name) ==> self.connections[name].device.name@ == name
        &&& forall|id: u128| #[trigger]
            self.shells.contains_key(id) ==> self.shells[id].token.id == id
    }

    /// How an operation on `device` gets its connection, and the state that
    /// this leaves.
    ///
    /// A device marked `new` always gets a connection of its own and leaves
    /// the pool alone. Any other device reuses the pooled connection of its
    /// name. Where there is none, one is created, unless another creation is
    /// under way: then the operation waits.
    pub open spec fn obtain(self, device: Device) -> (ManagerState, Acquire) {
        if device.new {
            (self, Acquire::Create { pooled: false })
        } else if self.connections.contains_key(device.name@) {
            (self, Acquire::Reuse(self.connections[device.name@]))
        } else if self.creating {
            (self, Acquire::Wait)
        } else {
            (ManagerState { creating: true, ..self }, Acquire::Create { pooled: true })
        }
    }

    /// The state after the creation that `obtain` asked for has ended as
    /// `outcome`. A pooled creation is no longer under way, and the
    /// connection it made stands in the pool under the name of its device.
    pub open spec fn finish(self, pooled: bool, outcome: Result<Connection, Error>) -> ManagerState {
        if !pooled {
            self
        } else {
            match outcome {
                Ok(c) => ManagerState {
                    connections: self.connections.insert(c.device.name@, c),
                    creating: false,
                    ..self
                },
                Err(_) => ManagerState { creating: false, ..self },
            }
        }
    }

    /// Whether the pool holds the connection `id` under `name`.
    pub open spec fn holds(self, name: Seq<char>, id: ConnectionId) -> bool {
        self.connections.contains_key(name) && self.connections[name].id == id
    }

    /// The state after the connection `id` to the device `name` has left the
    /// pool. Another connection under that name stays.
    pub open spec fn evict(self, name: Seq<char>, id: ConnectionId) -> ManagerState {
        if self.holds(name, id) {
            ManagerState { connections: self.connections.remove(name), ..self }
        } else {
            self
        }
    }

    /// The state after an attempt on `conn` has ended as `outcome`: a dead
    /// connection is discarded.
    pub open spec fn after_attempt<T>(self, conn: Connection, outcome: Result<T, Error>) -> ManagerState {
        if retries(outcome) {
            self.evict(conn.device.name@, conn.id)
        } else {
            self
        }
    }

    /// The state after an attempt to open a shell on `conn` has ended as
    /// `outcome`: a shell that was opened is registered under its token.
    pub open spec fn after_shell_open(self, conn: Connection, outcome: Result<Shell, Error>) -> ManagerState {
        match outcome {
            Ok(shell) => ManagerState { shells: self.shells.insert(shell.token.id, shell), ..self },
            Err(_) => self.after_attempt(conn, outcome),
        }
    }

    /// The state after the shell under `token` has left the registry.
    pub open spec fn close(self, token: ShellToken) -> ManagerState {
        ManagerState { shells: self.shells.remove(token.id), ..self }
    }

    /// The shell that is registered under `token`, if any.
    pub open spec fn shell(self, token: ShellToken) -> Option<Shell> {
        if self.shells.contains_key(token.id) {
            Some(self.shells[token.id])
        } else {
            None
        }
    }

    /// Whether `list` is the listing of the registry: every registered shell
    /// once, in the order of creation, oldest first. Shells of one creation
    /// time may come in any order.
    pub open spec fn lists(self, list: Seq<ShellInfo>) -> bool {
        names_each_once(self.shells, list) && oldest_first(list)
    }

    /// Whether `result` is the answer to a search for `token`.
    pub open spec fn found(self, token: ShellToken, result: Result<Shell, Error>) -> bool {
        match self.shell(token) {
            Some(shell) => result == Ok::<Shell, Error>(shell),
            None => result matches Err(e) && is_no_shell(e),
        }
    }
}

/// In every state that a manager can reach, each entry stands under its own
/// name: the empty state is so, and no step of the manager undoes it.
pub proof fn lemma_entries_stand_under_their_names<T>(
    state: ManagerState,
    device: Device,
    conn: Connection,
    pooled: bool,
    made: Result<Connection, Error>,
    outcome: Result<T, Error>,
    opened: Result<Shell, Error>,
    name: Seq<char>,
    id: ConnectionId,
    token: ShellToken,
)
    requires
        state.wf(),
    ensures
        ManagerState::empty().wf(),
        state.obtain(device).0.wf(),
        state.finish(pooled, made).wf(),
        state.evict(name, id).wf(),
        state.after_attempt(conn, outcome).wf(),
        state.after_shell_open(conn, opened).wf(),
        state.close(token).wf(),
{
}

/// Two operations on one pooled device share one connection.
///
/// Take any state and two devices of one name, neither marked `new`, that
/// ask for a connection one after the other. If the pool holds a connection
/// of that name, both get it and nothing changes. If the first is told to
/// create one, the second is told to wait, and once `made` has been
/// reported it gets `made`. If the first has to wait, so has the second.
pub proof fn lemma_pooled_connection_is_shared(
    state: ManagerState,
    first: Device,
    second: Device,
    made: Connection,
)
    requires
        !first.new,
        !second.new,
        first.name@ == second.name@,
        made.device.name@ == first.name@,
    ensures
        ({
            let (after_first, plan) = state.obtain(first);
            let (after_second, next) = after_first.obtain(second);
            let settled = after_first.finish(true, Ok(made));
            &&& plan is Reuse ==> next == plan && after_second == state
            &&& plan is Create ==> plan == (Acquire::Create { pooled: true }) && next is Wait
                && after_second == after_first && settled.obtain(second) == (
                settled,
                Acquire::Reuse(made),
            )
            &&& plan is Wait ==> next is Wait && after_second == state
        }),
{
}

/// A device marked `new` never touches the pool: whatever the state, it is
/// told to create a connection of its own, and neither asking nor reporting
/// how the creation ended changes the state. So no operation is ever handed
/// the connection that was made for such a device.
pub proof fn lemma_new_device_bypasses_pool(
    state: ManagerState,
    device: Device,
    outcome: Result<Connection, Error>,
)
    requires
        device.new,
    ensures
        state.obtain(device) == (state, Acquire::Create { pooled: false }),
        state.finish(false, outcome) == state,
{
}

/// A dead connection costs one more attempt, and no more.
///
/// The pool holds `dead` for `device`. The first attempt gets `dead` and
/// fails with an error that asks for a reconnect: it is made again, and
/// `dead` is gone from the pool. The second is told to create a connection;
/// `fresh` is made and pooled. A second attempt that ends in `result`, which
/// asks for no reconnect, ends the operation with `result`, and the pool
/// holds `fresh`.
pub proof fn lemma_dead_connection_is_replaced<T>(
    state: ManagerState,
    device: Device,
    dead: Connection,
    failure: Error,
    fresh: Connection,
    result: Result<T, Error>,
)
    requires
        !device.new,
        !state.creating,
        state.holds(device.name@, dead.id),
        state.connections[device.name@] == dead,
        dead.device.name@ == device.name@,
        fresh.device.name@ == device.name@,
        failure.needs_reconnect(),
        !retries(result),
    ensures
        ({
            let (first, plan) = state.obtain(device);
            let failed = first.after_attempt(dead, Err::<T, Error>(failure));
            let (second, next) = failed.obtain(device);
            let settled = second.finish(true, Ok(fresh));
            let done = settled.after_attempt(fresh, result);
            &&& plan == Acquire::Reuse(dead)
            &&& attempt_step(Err::<T, Error>(failure)) == Attempt::<T>::Retry
            &&& !failed.connections.contains_key(device.name@)
            &&& next == (Acquire::Create { pooled: true })
            &&& attempt_step(result) == Attempt::Done(result)
            &&& done.connections == state.connections.insert(device.name@, fresh)
            &&& done.shells == state.shells
            &&& !done.creating
        }),
{
    let (first, plan) = state.obtain(device);
    let failed = first.after_attempt(dead, Err::<T, Error>(failure));
    let (second, next) = failed.obtain(device);
    let settled = second.finish(true, Ok(fresh));
    assert(settled.connections =~= state.connections.insert(device.name@, fresh));
}

/// Each dead connection costs one attempt: an operation that meets `dead`
/// dead connections in a row and then an outcome that asks for no reconnect
/// makes `dead + 1` attempts, and that outcome is its result, unchanged.
pub proof fn lemma_one_attempt_per_dead_connection<T>(outcomes: Seq<Result<T, Error>>, dead: nat)
    requires
        dead < outcomes.len(),
        forall|i: int| 0 <= i < dead ==> retries(#[trigger] outcomes[i]),
        !retries(outcomes[dead as int]),
    ensures
        operation(outcomes) == Some(((dead + 1) as nat, outcomes[dead as int])),
    decreases dead,
{
    if dead > 0 {
        let rest = outcomes.drop_first();
        assert forall|i: int| 0 <= i < dead - 1 implies retries(#[trigger] rest[i]) by {
            assert(rest[i] == outcomes[i + 1]);
        }
        assert(rest[dead - 1] == outcomes[dead as int]);
        lemma_one_attempt_per_dead_connection(rest, (dead - 1) as nat);
    }
}

/// An error that asks for no reconnect is never retried: it ends the
/// operation as it is, and the pool stays as it was.
pub proof fn lemma_other_errors_end_the_operation<T>(
    state: ManagerState,
    conn: Connection,
    error: Error,
)
    requires
        !error.needs_reconnect(),
    ensures
        attempt_step(Err::<T, Error>(error)) == Attempt::Done(Err::<T, Error>(error)),
        state.after_attempt(conn, Err::<T, Error>(error)) == state,
{
}

/// A shell that was opened is found under its token until it is closed;
/// from then on the token is unknown, whatever becomes of the channel.
pub proof fn lemma_shell_is_found_until_closed(
    state: ManagerState,
    conn: Connection,
    shell: Shell,
    found: Result<Shell, Error>,
    missed: Result<Shell, Error>,
)
    requires
        state.after_shell_open(conn, Ok(shell)).found(shell.token, found),
        state.after_shell_open(conn, Ok(shell)).close(shell.token).found(shell.token, missed),
    ensures
        found == Ok::<Shell, Error>(shell),
        missed matches Err(e) && is_no_shell(e),
{
}

/// Closing a shell makes its token unknown in any state, and leaves every
/// other shell where it was.
pub proof fn lemma_closed_shell_is_not_found(
    state: ManagerState,
    token: ShellToken,
    other: ShellToken,
    result: Result<Shell, Error>,
)
    requires
        state.close(token).found(token, result),
    ensures
        result matches Err(e) && is_no_shell(e),
        other != token ==> state.close(token).shell(other) == state.shell(other),
{
}

/// The pool of connections and the registry of shells of one process.
///
/// The manager decides; it performs no I/O. An operation asks it for a
/// connection ([`SessionManager::conn_obtain`]), establishes one where it is
/// told to and reports how that ended ([`SessionManager::conn_finish`]),
/// makes its attempt on the connection, and reports the outcome
/// ([`SessionManager::exec`] and its like), which tells it whether to go
/// round again.
pub struct SessionManager {
    connections: StringHashMap<Connection>,
    shells: HashMap<u128, Registered>,
    creating: bool,
}

/// What the registry keeps of a shell, beside the token it stands under.
struct Registered {
    created_at: u64,
    cols: u16,
    rows: u16,
}

impl Registered {
    /// The shell that this entry stands for under the token `id`.
    spec fn shell(self, id: u128) -> Shell {
        Shell { token: ShellToken { id }, created_at: self.created_at, cols: self.cols, rows: self.rows }
    }
}

/// The shells that a registry stands for.
spec fn registered_shells(entries: Map<u128, Registered>) -> Map<u128, Shell> {
    Map::new(|id: u128| entries.contains_key(id), |id: u128| entries[id].shell(id))
}

impl View for SessionManager {
    type V = ManagerState;

    closed spec fn view(&self) -> ManagerState {
        ManagerState {
            connections: self.connections@,
            shells: registered_shells(self.shells@),
            creating: self.creating,
        }
    }
}

impl SessionManager {
    /// A manager with an empty pool and an empty registry.
    pub fn new() -> (manager: SessionManager)
        ensures
            manager@ == ManagerState::empty(),
    {
        let manager = SessionManager {
            connections: StringHashMap::new(),
            shells: HashMap::new(),
            creating: false,
        };
        assert(manager@.shells =~= Map::<u128, Shell>::empty());
        manager
    }

    /// Decides how an operation on `device` gets its connection:
    /// [`ManagerState::obtain`].
    pub fn conn_obtain(&mut self, device: &Device) -> (plan: Acquire)
        ensures
            (final(self)@, plan) == old(self)@.obtain(*device),
    {
        if device.new {
            return Acquire::Create { pooled: false };
        }
        match self.connections.get(device.name.as_str()) {
            Some(conn) => Acquire::Reuse(conn.clone()),
            None => {
                if self.creating {
                    Acquire::Wait
                } else {
                    self.creating = true;
                    Acquire::Create { pooled: true }
                }
            },
        }
    }

    /// Takes note of how the creation that `conn_obtain` asked for has
    /// ended, and hands the outcome on: [`ManagerState::finish`].
    pub fn conn_finish(&mut self, pooled: bool, outcome: Result<Connection, Error>) -> (result: Result<Connection, Error>)
        ensures
            result == outcome,
            final(self)@ == old(self)@.finish(pooled, outcome),
    {
        if pooled {
            self.creating = false;
            match &outcome {
                Ok(conn) => {
                    self.connections.insert(conn.device.name.clone(), conn.clone());
                },
                Err(_) => {},
            }
        }
        outcome
    }

    /// Removes the connection `id` to the device `name` from the pool, and
    /// says whether it was there: [`ManagerState::evict`].
    pub fn conn_evict(&mut self, name: &str, id: ConnectionId) -> (evicted: bool)
        ensures
            evicted == old(self)@.holds(name@, id),
            final(self)@ == old(self)@.evict(name@, id),
    {
        let held = match self.connections.get(name) {
            Some(conn) => conn.id == id,
            None => false,
        };
        if held {
            self.connections.remove(name);
        }
        held
    }

    /// Decides what follows an attempt on `conn` that ended as `outcome`,
    /// and discards `conn` if it was dead.
    fn attempt<T>(&mut self, conn: &Connection, outcome: Result<T, Error>) -> (step: Attempt<T>)
        ensures
            step == attempt_step(outcome),
            final(self)@ == old(self)@.after_attempt(*conn, outcome),
    {
        match outcome {
            Err(e) => {
                if e.is_needs_reconnect() {
                    self.conn_evict(conn.device.name.as_str(), conn.id);
                    Attempt::Retry
                } else {
                    Attempt::Done(Err(e))
                }
            },
            Ok(value) => Attempt::Done(Ok(value)),
        }
    }

    /// Decides what follows an attempt to run a command on `conn`, where
    /// `outcome` is the command's output or the failure.
    ///
    /// A dead connection is discarded and the attempt made again; any other
    /// outcome is the result.
    pub fn exec(&mut self, conn: &Connection, outcome: Result<Vec<u8>, Error>) -> (step: Attempt<Vec<u8>>)
        ensures
            step == attempt_step(outcome),
            final(self)@ == old(self)@.after_attempt(*conn, outcome),
    {
        self.attempt(conn, outcome)
    }

    /// Decides what follows an attempt to start a process on `conn`.
    ///
    /// A dead connection is discarded and the attempt made again; any other
    /// outcome is the result.
    pub fn spawn(&mut self, conn: &Connection, outcome: Result<Proc, Error>) -> (step: Attempt<Proc>)
        ensures
            step == attempt_step(outcome),
            final(self)@ == old(self)@.after_attempt(*conn, outcome),
    {
        self.attempt(conn, outcome)
    }

    /// Decides what follows an attempt to open a shell on `conn`, and
    /// registers the shell that was opened under its token.
    ///
    /// A dead connection is discarded and the attempt made again; any other
    /// outcome is the result.
    pub fn shell_open(&mut self, conn: &Connection, outcome: Result<Shell, Error>) -> (step: Attempt<Shell>)
        ensures
            step == attempt_step(outcome),
            final(self)@ == old(self)@.after_shell_open(*conn, outcome),
    {
        match outcome {
            Ok(shell) => {
                self.shells.insert(
                    shell.token.id,
                    Registered { created_at: shell.created_at, cols: shell.cols, rows: shell.rows },
                );
                assert(self@.shells =~= old(self)@.shells.insert(shell.token.id, shell));
                Attempt::Done(Ok(shell))
            },
            Err(e) => self.attempt(conn, Err(e)),
        }
    }

    /// Finds the shell that is registered under `token`.
    pub fn shell_find(&self, token: &ShellToken) -> (result: Result<Shell, Error>)
        ensures
            self@.found(*token, result),
    {
        match self.shells.get(&token.id) {
            Some(entry) => Ok(
                Shell {
                    token: *token,
                    created_at: entry.created_at,
                    cols: entry.cols,
                    rows: entry.rows,
                },
            ),
            None => Err(Error::new(ErrorKind::NotFound, "No shell")),
        }
    }

    /// Takes the shell under `token` out of the registry and hands it out,
    /// for the caller to close its channel. An unknown token changes
    /// nothing.
    pub fn shell_close(&mut self, token: &ShellToken) -> (closing: Option<Shell>)
        ensures
            closing == old(self)@.shell(*token),
            final(self)@ == old(self)@.close(*token),
    {
        let closing = match self.shells.remove(&token.id) {
            Some(entry) => Some(
                Shell {
                    token: *token,
                    created_at: entry.created_at,
                    cols: entry.cols,
                    rows: entry.rows,
                },
            ),
            None => None,
        };
        assert(self@.shells =~= old(self)@.shells.remove(token.id));
        closing
    }

    /// Lists the registered shells, oldest first: [`ManagerState::lists`].
    pub fn shell_list(&self) -> (list: Vec<ShellInfo>)
        ensures
            self@.lists(list@),
    {
        let mut list: Vec<ShellInfo> = Vec::new();
        let entries = self.shells.iter();
        for (id, entry) in it: entries
            invariant
                it.seq() == self.shells.iter().remaining(),
                it.seq().no_duplicates(),
                list.len() == it.index(),
                forall|k: int|
                    0 <= k < list.len() ==> (#[trigger] list[k]).token.id == *it.seq()[k].0
                        && list[k].created_at == it.seq()[k].1.created_at,
        {
            list.push(ShellInfo { token: ShellToken { id: *id }, created_at: entry.created_at });
        }
        proof {
            let walk = self.shells.iter().remaining();
            let shells = self@.shells;
            assert(shells.dom() =~= self.shells@.dom());
            assert forall|i: int, j: int| 0 <= i < j < list.len() implies list[i].token
                != list[j].token by {
                if list[i].token == list[j].token {
                    assert(self.shells@.contains_key(*walk[i].0));
                    assert(self.shells@.contains_key(*walk[j].0));
                    assert(*walk[i].1 == *walk[j].1);
                    assert(walk[i] == walk[j]);
                }
            }
            assert forall|id: u128| #[trigger] shells.contains_key(id) implies exists|i: int|
                0 <= i < list.len() && (#[trigger] list[i]).token.id == id by {
                assert(self.shells@.contains_key(id));
                assert(walk.contains((&id, &self.shells@[id])));
                let i = choose|i: int| 0 <= i < walk.len() && walk[i] == (&id, &self.shells@[id]);
                assert(list[i].token.id == id);
            }
            assert(names_each_once(shells, list@));
        }
        let ghost collected = list@;
        sort_oldest_first(&mut list);
        proof {
            lemma_reordered_names_each_once(self@.shells, collected, list@);
        }
        list
    }
}

} // verus!
