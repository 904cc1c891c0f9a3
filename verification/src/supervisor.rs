//! The supervisor: the one owner of the registry of running job hosts.
//!
//! Commands reach the supervisor through a single mailbox and are handled
//! one at a time, so the registry is never changed by two commands at
//! once. The supervisor decides; the runtime around it loads users, spawns
//! and aborts hosts, and reports back. A host is known here by its handle,
//! which the supervisor hands out before the host is spawned. Whenever the
//! registry lets go of a host, the supervisor names that host for
//! abortion, so that no host lives on outside the registry.
use crate::error::FiringError;
use vstd::prelude::*;
use crate::sequence::reversed;
use vstd::string::StringExecFns;

verus! {

/// How many commands the mailbox holds before a sender has to wait.
pub const MAILBOX_CAPACITY: usize = 8;

/// A command to the supervisor.
#[derive(Debug)]
pub enum ActorMessage {
    /// Load every active user and start a host for each.
    StartScheduler,
    /// Abort the host of `user_id`, if one runs, and start a fresh one.
    RestartUserSchedule { user_id: String },
}

/// The runtime's name for a running job host.
#[derive(Clone, Copy, Debug, PartialEq, Eq, Structural)]
pub struct HostHandle {
    pub id: u64,
}

/// One entry of the registry: a user and the host that runs for the user,
/// if one does.
#[derive(Debug)]
pub struct Worker {
    pub user_id: String,
    pub handle: Option<HostHandle>,
}

/// What the runtime is to do for a command.
#[derive(Debug)]
pub enum Directive {
    /// Load every active user, start a host for each, and report with
    /// `Actor::start_scheduler`, which names the hosts to abort.
    StartAll,
    /// Abort the host `abort`, if there is one; then load the user, start
    /// a host, and report with `Actor::restarted`.
    Restart { user_id: String, abort: Option<HostHandle> },
}

/// The registry that a list of entries stands for. Of two entries for the
/// same user the later one counts.
pub open spec fn registry_of(workers: Seq<Worker>) -> Map<Seq<char>, Option<HostHandle>>
    decreases workers.len(),
{
    if workers.len() == 0 {
        Map::empty()
    } else {
        registry_of(workers.drop_last()).insert(workers.last().user_id@, workers.last().handle)
    }
}

/// The host to abort when `user` is restarted: the one that runs for the
/// user, if any.
pub open spec fn host_to_abort(
    registry: Map<Seq<char>, Option<HostHandle>>,
    user: Seq<char>,
) -> Option<HostHandle> {
    if registry.contains_key(user) {
        registry[user]
    } else {
        None
    }
}

/// The registry once the restart of `user` has begun: the user's host, if
/// one ran, is gone from it.
pub open spec fn registry_without_host(
    registry: Map<Seq<char>, Option<HostHandle>>,
    user: Seq<char>,
) -> Map<Seq<char>, Option<HostHandle>> {
    if host_to_abort(registry, user).is_some() {
        registry.insert(user, None)
    } else {
        registry
    }
}

/// The registry once the restart of `user` has ended: it holds the new
/// host, or no host for the user if none could be started.
pub open spec fn registry_with_restart(
    registry: Map<Seq<char>, Option<HostHandle>>,
    user: Seq<char>,
    started: Result<Option<HostHandle>, FiringError>,
) -> Map<Seq<char>, Option<HostHandle>> {
    match started {
        Ok(handle) => registry.insert(user, handle),
        Err(_) => registry.insert(user, None),
    }
}

/// The entries of a report on starting all users; none if the users could
/// not be loaded.
pub open spec fn report_of(started: Result<Vec<Worker>, FiringError>) -> Seq<Worker> {
    match started {
        Ok(workers) => workers@,
        Err(_) => Seq::empty(),
    }
}

/// The registry after all users were started: the hosts that were started
/// and nothing else; empty if the users could not be loaded.
pub open spec fn registry_after_start(started: Result<Vec<Worker>, FiringError>) -> Map<
    Seq<char>,
    Option<HostHandle>,
> {
    registry_of(report_of(started))
}

/// Whether the registry holds `host` for some user.
pub open spec fn holds_host(registry: Map<Seq<char>, Option<HostHandle>>, host: HostHandle) -> bool {
    exists|user: Seq<char>| registry.contains_key(user) && #[trigger] registry[user] == Some(host)
}

/// The hosts of a report that a later entry for the same user replaces,
/// in the order in which they are replaced. A report with one entry per
/// user has none.
pub open spec fn replaced_in(started: Seq<Worker>) -> Seq<HostHandle>
    decreases started.len(),
{
    if started.len() == 0 {
        Seq::empty()
    } else {
        match host_to_abort(registry_of(started.drop_last()), started.last().user_id@) {
            Some(host) => replaced_in(started.drop_last()).push(host),
            None => replaced_in(started.drop_last()),
        }
    }
}

/// The text of a command, as it is logged.
pub open spec fn message_text(msg: ActorMessage) -> Seq<char> {
    match msg {
        ActorMessage::StartScheduler => "ActorMessage::StartScheduler"@,
        ActorMessage::RestartUserSchedule { user_id } =>
            "ActorMessage::RestartUserSchedule: { user_id: "@ + user_id@ + " }"@,
    }
}

impl ActorMessage {
    /// The text of the command, as it is logged.
    pub fn to_string(&self) -> (r: String)
        ensures
            r@ == message_text(*self),
    {
        match self {
            ActorMessage::StartScheduler => String::from_str("ActorMessage::StartScheduler"),
            ActorMessage::RestartUserSchedule { user_id } => {
                let mut out = String::from_str("ActorMessage::RestartUserSchedule: { user_id: ");
                out.append(user_id.as_str());
                out.append(" }");
                out
            },
        }
    }
}

/// Changing the last entry of a user is the same as putting the user's new
/// host into the registry.
proof fn lemma_update_last_entry(workers: Seq<Worker>, at: int, changed: Worker)
    requires
        0 <= at < workers.len(),
        changed.user_id@ == workers[at].user_id@,
        forall|j: int| at < j < workers.len() ==> workers[j].user_id@ != changed.user_id@,
    ensures
        registry_of(workers.update(at, changed)) == registry_of(workers).insert(
            changed.user_id@,
            changed.handle,
        ),
    decreases workers.len(),
{
    let after = workers.update(at, changed);
    if at == workers.len() - 1 {
        assert(after.drop_last() =~= workers.drop_last());
        assert(registry_of(after) =~= registry_of(workers).insert(
            changed.user_id@,
            changed.handle,
        ));
    } else {
        assert(after.drop_last() =~= workers.drop_last().update(at, changed));
        lemma_update_last_entry(workers.drop_last(), at, changed);
        assert(after.last() == workers.last());
        assert(registry_of(after) =~= registry_of(workers).insert(
            changed.user_id@,
            changed.handle,
        ));
    }
}

/// A user without an entry is not in the registry.
proof fn lemma_no_entry(workers: Seq<Worker>, user: Seq<char>)
    requires
        forall|j: int| 0 <= j < workers.len() ==> workers[j].user_id@ != user,
    ensures
        !registry_of(workers).contains_key(user),
    decreases workers.len(),
{
    if workers.len() > 0 {
        lemma_no_entry(workers.drop_last(), user);
    }
}

/// The last entry of a user is what the registry holds for the user.
proof fn lemma_last_entry(workers: Seq<Worker>, at: int)
    requires
        0 <= at < workers.len(),
        forall|j: int| at < j < workers.len() ==> workers[j].user_id@ != workers[at].user_id@,
    ensures
        registry_of(workers).contains_key(workers[at].user_id@),
        registry_of(workers)[workers[at].user_id@] == workers[at].handle,
    decreases workers.len(),
{
    if at < workers.len() - 1 {
        lemma_last_entry(workers.drop_last(), at);
    }
}

/// No user has two entries.
spec fn unique_users(workers: Seq<Worker>) -> bool {
    forall|i: int, j: int|
        0 <= i < j < workers.len() ==> (#[trigger] workers[i]).user_id@ != (
        #[trigger] workers[j]).user_id@
}

/// Every host of an entry has an identifier below `issued`, unless the
/// identifiers have run out.
spec fn ids_below(workers: Seq<Worker>, issued: u64) -> bool {
    forall|i: int|
        0 <= i < workers.len() ==> ((#[trigger] workers[i]).handle matches Some(h) ==> h.id
            < issued || issued == u64::MAX)
}

/// Whether entry `at` is `host` for `user`.
spec fn is_entry(workers: Seq<Worker>, at: int, user: Seq<char>, host: Option<HostHandle>) -> bool {
    0 <= at < workers.len() && workers[at].user_id@ == user && workers[at].handle == host
}

/// Whether entry `at` holds `host`.
spec fn has_host_at(workers: Seq<Worker>, at: int, host: HostHandle) -> bool {
    0 <= at < workers.len() && workers[at].handle == Some(host)
}

/// What the registry holds for a user stands in an entry.
proof fn lemma_held_has_entry(workers: Seq<Worker>, user: Seq<char>)
    requires
        registry_of(workers).contains_key(user),
    ensures
        exists|at: int| #[trigger] is_entry(workers, at, user, registry_of(workers)[user]),
    decreases workers.len(),
{
    if workers.len() > 0 {
        if workers.last().user_id@ == user {
            assert(is_entry(workers, workers.len() - 1, user, registry_of(workers)[user]));
        } else {
            lemma_held_has_entry(workers.drop_last(), user);
            let at = choose|at: int| #[trigger]
                is_entry(workers.drop_last(), at, user, registry_of(workers.drop_last())[user]);
            assert(is_entry(workers, at, user, registry_of(workers)[user]));
        }
    }
}

/// With one entry per user, the registry holds exactly the hosts of the
/// entries.
proof fn lemma_hosts_of_entries(workers: Seq<Worker>, host: HostHandle)
    requires
        unique_users(workers),
    ensures
        holds_host(registry_of(workers), host) <==> exists|at: int| #[trigger]
            has_host_at(workers, at, host),
{
    let registry = registry_of(workers);
    if holds_host(registry, host) {
        let user = choose|user: Seq<char>|
            registry.contains_key(user) && #[trigger] registry[user] == Some(host);
        lemma_held_has_entry(workers, user);
        let at = choose|at: int| #[trigger] is_entry(workers, at, user, registry[user]);
        assert(has_host_at(workers, at, host));
    }
    if exists|at: int| #[trigger] has_host_at(workers, at, host) {
        let at = choose|at: int| #[trigger] has_host_at(workers, at, host);
        lemma_last_entry(workers, at);
        assert(registry.contains_key(workers[at].user_id@) && registry[workers[at].user_id@]
            == Some(host));
    }
}

/// Taking one more entry of a report into account puts it into the
/// registry and replaces what the registry held for its user.
proof fn lemma_report_step(started: Seq<Worker>, n: int)
    requires
        0 <= n < started.len(),
    ensures
        registry_of(started.take(n + 1)) == registry_of(started.take(n)).insert(
            started[n].user_id@,
            started[n].handle,
        ),
        replaced_in(started.take(n + 1)) == match host_to_abort(
            registry_of(started.take(n)),
            started[n].user_id@,
        ) {
            Some(host) => replaced_in(started.take(n)).push(host),
            None => replaced_in(started.take(n)),
        },
{
    assert(started.take(n + 1).drop_last() =~= started.take(n));
    assert(started.take(n + 1).last() == started[n]);
}

/// The supervisor's state: the registry of job hosts, and the count of the
/// handles it has handed out.
#[derive(Debug)]
pub struct Actor {
    workers: Vec<Worker>,
    issued: u64,
}

impl Actor {
    /// No user has two entries, and no entry holds a handle that could be
    /// handed out again.
    #[verifier::type_invariant]
    closed spec fn inv(self) -> bool {
        unique_users(self.workers@) && ids_below(self.workers@, self.issued)
    }

    /// The registry: for every user that was started, the host that runs
    /// for the user, or `None` if none does.
    pub closed spec fn registry(&self) -> Map<Seq<char>, Option<HostHandle>> {
        registry_of(self.workers@)
    }

    /// The identifier of the next handle to hand out. Every handle that
    /// was handed out or stored before has a smaller one, unless the
    /// identifiers have run out.
    pub closed spec fn issued(&self) -> int {
        self.issued as int
    }

    /// Whether `host` is known to the supervisor as handed out or stored
    /// before: no handle it hands out from now on is this one.
    pub open spec fn is_before(&self, host: HostHandle) -> bool {
        host.id < self.issued() || self.issued() == u64::MAX
    }

    /// A supervisor with an empty registry that has handed out no handle.
    pub fn new() -> (r: Actor)
        ensures
            r.registry() == Map::<Seq<char>, Option<HostHandle>>::empty(),
            r.issued() == 0,
    {
        Actor { workers: Vec::new(), issued: 0 }
    }

    /// Hands out the handle for a host that is about to be spawned.
    ///
    /// The handle differs from every handle the registry holds and from
    /// every handle handed out or stored before. `None` is returned
    /// exactly when the identifiers have run out.
    pub fn new_handle(&mut self) -> (r: Option<HostHandle>)
        ensures
            final(self).registry() == old(self).registry(),
            match r {
                Some(host) => {
                    &&& host.id == old(self).issued()
                    &&& final(self).issued() == old(self).issued() + 1
                    &&& !holds_host(old(self).registry(), host)
                    &&& final(self).is_before(host)
                },
                None => old(self).issued() == u64::MAX && final(self).issued() == old(
                    self,
                ).issued(),
            },
    {
        proof {
            use_type_invariant(&*self);
        }
        if self.issued == u64::MAX {
            None
        } else {
            let host = HostHandle { id: self.issued };
            proof {
                if holds_host(self.registry(), host) {
                    lemma_hosts_of_entries(self.workers@, host);
                }
            }
            self.issued = self.issued + 1;
            Some(host)
        }
    }

    /// The place of the last entry of `user_id`, if there is one.
    fn find(workers: &Vec<Worker>, user_id: &String) -> (r: Option<usize>)
        ensures
            match r {
                Some(at) => at < workers@.len() && workers@[at as int].user_id@ == user_id@
                    && forall|j: int| at < j < workers@.len() ==> workers@[j].user_id@ != user_id@,
                None => forall|j: int| 0 <= j < workers@.len() ==> workers@[j].user_id@ != user_id@,
            },
    {
        let mut i: usize = workers.len();
        while i > 0
            invariant
                0 <= i <= workers@.len(),
                forall|j: int| i <= j < workers@.len() ==> workers@[j].user_id@ != user_id@,
            decreases i,
        {
            i = i - 1;
            if workers[i].user_id == *user_id {
                return Some(i);
            }
        }
        None
    }

    /// What the registry holds for `user_id`: `None` if the user was never
    /// started, otherwise the user's host or the lack of one.
    pub fn worker(&self, user_id: &String) -> (r: Option<Option<HostHandle>>)
        ensures
            r.is_some() <==> self.registry().contains_key(user_id@),
            r matches Some(h) ==> h == self.registry()[user_id@],
            r matches Some(Some(host)) ==> self.is_before(host),
    {
        proof {
            use_type_invariant(self);
        }
        match Actor::find(&self.workers, user_id) {
            Some(at) => {
                proof {
                    lemma_last_entry(self.workers@, at as int);
                }
                Some(self.workers[at].handle)
            },
            None => {
                proof {
                    lemma_no_entry(self.workers@, user_id@);
                }
                None
            },
        }
    }

    /// Puts `handle` into the registry as what runs for `user_id`, and
    /// gives back the host that the registry held for the user until now.
    fn put(&mut self, user_id: String, handle: Option<HostHandle>) -> (replaced: Option<HostHandle>)
        ensures
            final(self).registry() == old(self).registry().insert(user_id@, handle),
            replaced == host_to_abort(old(self).registry(), user_id@),
            replaced matches Some(host) ==> final(self).is_before(host),
            handle matches Some(host) ==> final(self).is_before(host),
            final(self).issued() >= old(self).issued(),
            handle.is_none() ==> final(self).issued() == old(self).issued(),
    {
        proof {
            use_type_invariant(&*self);
        }
        let issued = match handle {
            Some(host) => if host.id < self.issued {
                self.issued
            } else if host.id == u64::MAX {
                u64::MAX
            } else {
                host.id + 1
            },
            None => self.issued,
        };
        let mut workers: Vec<Worker> = Vec::new();
        std::mem::swap(&mut self.workers, &mut workers);
        let ghost before = workers@;
        let replaced = match Actor::find(&workers, &user_id) {
            Some(at) => {
                let changed = Worker { user_id, handle };
                proof {
                    lemma_update_last_entry(before, at as int, changed);
                    lemma_last_entry(before, at as int);
                }
                let gone = workers.remove(at);
                workers.insert(at, changed);
                assert(workers@ =~= before.update(at as int, changed));
                gone.handle
            },
            None => {
                proof {
                    lemma_no_entry(before, user_id@);
                }
                workers.push(Worker { user_id, handle });
                assert(workers@.drop_last() =~= before);
                None
            },
        };
        *self = Actor { workers, issued };
        replaced
    }

    /// Decides what is to be done for a command.
    ///
    /// `StartScheduler` asks for all users to be started and leaves the
    /// registry as it is until the runtime reports. `RestartUserSchedule`
    /// names the user's running host, if there is one, for abortion, and
    /// takes it out of the registry at once.
    pub fn handle_message(&mut self, msg: ActorMessage) -> (r: Directive)
        ensures
            final(self).issued() == old(self).issued(),
            ({
                let before = old(self).registry();
                let after = final(self).registry();
                match msg {
                    ActorMessage::StartScheduler => r is StartAll && after == before,
                    ActorMessage::RestartUserSchedule { user_id } => {
                        &&& r == (Directive::Restart {
                            user_id,
                            abort: host_to_abort(before, user_id@),
                        })
                        &&& after == registry_without_host(before, user_id@)
                    },
                }
            }),
            r matches Directive::Restart { abort: Some(host), .. } ==> final(self).is_before(host),
    {
        match msg {
            ActorMessage::StartScheduler => Directive::StartAll,
            ActorMessage::RestartUserSchedule { user_id } => {
                let abort = match self.worker(&user_id) {
                    Some(Some(handle)) => Some(handle),
                    _ => None,
                };
                if abort.is_some() {
                    let _gone = self.put(user_id.clone(), None);
                }
                Directive::Restart { user_id, abort }
            },
        }
    }

    /// Takes the runtime's report on starting all users and names the
    /// hosts to abort.
    ///
    /// The registry is replaced as a whole by the hosts that were started;
    /// of two entries for one user the later one counts. Named for
    /// abortion are exactly the hosts that the replaced registry held and
    /// the hosts of the report that a later entry replaces, so that no
    /// host lives on outside the registry.
    pub fn start_scheduler(&mut self, started: Result<Vec<Worker>, FiringError>) -> (abort: Vec<
        HostHandle,
    >)
        ensures
            final(self).registry() == registry_after_start(started),
            final(self).issued() >= old(self).issued(),
            forall|host: HostHandle|
                abort@.contains(host) <==> holds_host(old(self).registry(), host) || replaced_in(
                    report_of(started),
                ).contains(host),
            forall|host: HostHandle| abort@.contains(host) ==> final(self).is_before(host),
    {
        proof {
            use_type_invariant(&*self);
        }
        let ghost floor = self.issued;
        let mut replaced: Vec<Worker> = Vec::new();
        std::mem::swap(&mut self.workers, &mut replaced);
        let mut abort: Vec<HostHandle> = Vec::new();
        let mut i: usize = 0;
        while i < replaced.len()
            invariant
                0 <= i <= replaced@.len(),
                ids_below(replaced@, floor),
                forall|host: HostHandle|
                    abort@.contains(host) <==> exists|at: int|
                        0 <= at < i && #[trigger] has_host_at(replaced@, at, host),
                forall|host: HostHandle|
                    abort@.contains(host) ==> host.id < floor || floor == u64::MAX,
            decreases replaced@.len() - i,
        {
            let ghost so_far = abort@;
            match replaced[i].handle {
                Some(host) => {
                    abort.push(host);
                    proof {
                        assert(abort@.last() == host);
                        assert forall|h: HostHandle| abort@.contains(h) <==> exists|at: int|
                            0 <= at < i + 1 && #[trigger] has_host_at(replaced@, at, h) by {
                            if abort@.contains(h) {
                                let k = choose|k: int| 0 <= k < abort@.len() && abort@[k] == h;
                                if k < so_far.len() {
                                    assert(so_far[k] == h);
                                    assert(so_far.contains(h));
                                } else {
                                    assert(has_host_at(replaced@, i as int, h));
                                }
                            }
                            if exists|at: int|
                                0 <= at < i + 1 && #[trigger] has_host_at(replaced@, at, h) {
                                let at = choose|at: int|
                                    0 <= at < i + 1 && #[trigger] has_host_at(replaced@, at, h);
                                if at < i {
                                    assert(so_far.contains(h));
                                    let k = choose|k: int| 0 <= k < so_far.len() && so_far[k] == h;
                                    assert(abort@[k] == h);
                                } else {
                                    assert(abort@[abort@.len() - 1] == h);
                                }
                            }
                        }
                        assert forall|h: HostHandle| abort@.contains(h) implies h.id < floor
                            || floor == u64::MAX by {
                            let k = choose|k: int| 0 <= k < abort@.len() && abort@[k] == h;
                            if k < so_far.len() {
                                assert(so_far[k] == h);
                                assert(so_far.contains(h));
                            }
                        }
                    }
                },
                None => {
                    proof {
                        assert forall|h: HostHandle| abort@.contains(h) <==> exists|at: int|
                            0 <= at < i + 1 && #[trigger] has_host_at(replaced@, at, h) by {
                            if exists|at: int|
                                0 <= at < i + 1 && #[trigger] has_host_at(replaced@, at, h) {
                                let at = choose|at: int|
                                    0 <= at < i + 1 && #[trigger] has_host_at(replaced@, at, h);
                                assert(at < i);
                            }
                        }
                    }
                },
            }
            i = i + 1;
        }
        let ghost held = abort@;
        proof {
            assert(replaced@ == old(self).workers@);
            assert(registry_of(replaced@) == old(self).registry());
            assert forall|host: HostHandle| held.contains(host) <==> holds_host(
                registry_of(replaced@),
                host,
            ) by {
                lemma_hosts_of_entries(replaced@, host);
                if held.contains(host) {
                    let at = choose|at: int|
                        0 <= at < i && #[trigger] has_host_at(replaced@, at, host);
                    assert(has_host_at(replaced@, at, host));
                }
                if holds_host(registry_of(replaced@), host) {
                    let at = choose|at: int| #[trigger]
                        has_host_at(replaced@, at, host);
                    assert(0 <= at < i);
                }
            }
        }
        let report = match started {
            Ok(report) => report,
            Err(_) => Vec::new(),
        };
        let ghost all = report@;
        assert(all == report_of(started));
        let mut rest = reversed(report);
        let ghost mut seen: int = 0;
        while rest.len() > 0
            invariant
                0 <= seen <= all.len(),
                rest@.len() + seen == all.len(),
                forall|k: int| 0 <= k < rest@.len() ==> #[trigger] rest@[k] == all[all.len() - 1 - k],
                self.registry() == registry_of(all.take(seen)),
                abort@ == held + replaced_in(all.take(seen)),
                self.issued() >= floor,
                forall|host: HostHandle| abort@.contains(host) ==> self.is_before(host),
            decreases rest@.len(),
        {
            match rest.pop() {
                Some(entry) => {
                    assert(entry == all[seen]);
                    proof {
                        lemma_report_step(all, seen);
                    }
                    let ghost so_far = abort@;
                    let ghost issued_before = self.issued();
                    match self.put(entry.user_id, entry.handle) {
                        Some(host) => {
                            abort.push(host);
                            proof {
                                assert(abort@ =~= held + replaced_in(all.take(seen + 1)));
                                assert forall|h: HostHandle| abort@.contains(h) implies self.is_before(
                                    h,
                                ) by {
                                    let k = choose|k: int| 0 <= k < abort@.len() && abort@[k] == h;
                                    if k < so_far.len() {
                                        assert(so_far[k] == h);
                                        assert(so_far.contains(h));
                                    }
                                }
                            }
                        },
                        None => {
                            proof {
                                assert forall|h: HostHandle| abort@.contains(h) implies self.is_before(
                                    h,
                                ) by {
                                    assert(so_far.contains(h));
                                }
                            }
                        },
                    }
                    proof {
                        seen = seen + 1;
                    }
                },
                None => {},
            }
        }
        proof {
            assert(all.take(seen) =~= all);
            let late = replaced_in(all);
            assert forall|host: HostHandle| abort@.contains(host) <==> held.contains(host)
                || late.contains(host) by {
                if abort@.contains(host) {
                    let k = choose|k: int| 0 <= k < abort@.len() && abort@[k] == host;
                    if k < held.len() {
                        assert(held[k] == host);
                    } else {
                        assert(late[k - held.len()] == host);
                    }
                }
                if held.contains(host) {
                    let k = choose|k: int| 0 <= k < held.len() && held[k] == host;
                    assert(abort@[k] == host);
                }
                if late.contains(host) {
                    let k = choose|k: int| 0 <= k < late.len() && late[k] == host;
                    assert(abort@[held.len() + k] == host);
                }
            }
            assert forall|host: HostHandle| abort@.contains(host) <==> holds_host(
                old(self).registry(),
                host,
            ) || replaced_in(report_of(started)).contains(host) by {
                assert(held.contains(host) <==> holds_host(old(self).registry(), host));
            }
        }
        abort
    }

    /// Takes the runtime's report on restarting `user_id`: the registry
    /// holds the new host, or no host for the user if none was started.
    /// Given back is the host that the registry held for the user until
    /// now, which is to be aborted; after the restart's own directive there
    /// is none.
    pub fn restarted(&mut self, user_id: String, started: Result<Option<HostHandle>, FiringError>) -> (abort:
        Option<HostHandle>)
        ensures
            final(self).registry() == registry_with_restart(
                old(self).registry(),
                user_id@,
                started,
            ),
            abort == host_to_abort(old(self).registry(), user_id@),
            abort matches Some(host) ==> final(self).is_before(host),
            started matches Ok(Some(host)) ==> final(self).is_before(host),
            final(self).issued() >= old(self).issued(),
    {
        match started {
            Ok(handle) => self.put(user_id, handle),
            Err(_) => self.put(user_id, None),
        }
    }
}

/// A report that has one entry for every user replaces none of its own
/// hosts: starting all users then aborts the hosts of the old registry and
/// no others.
pub proof fn lemma_report_with_one_entry_per_user_replaces_none(started: Seq<Worker>)
    requires
        forall|i: int, j: int|
            0 <= i < j < started.len() ==> (#[trigger] started[i]).user_id@ != (
            #[trigger] started[j]).user_id@,
    ensures
        replaced_in(started).len() == 0,
    decreases started.len(),
{
    if started.len() > 0 {
        let front = started.drop_last();
        assert forall|i: int, j: int| 0 <= i < j < front.len() implies (#[trigger] front[i]).user_id@
            != (#[trigger] front[j]).user_id@ by {
            assert(front[i] == started[i]);
            assert(front[j] == started[j]);
        }
        lemma_report_with_one_entry_per_user_replaces_none(front);
        assert forall|j: int| 0 <= j < front.len() implies front[j].user_id@
            != started.last().user_id@ by {
            assert(front[j] == started[j]);
            assert(started.last() == started[started.len() - 1]);
        }
        lemma_no_entry(front, started.last().user_id@);
    }
}

/// Restarting a user whose host runs aborts that host and takes it out of
/// the registry; once the new host is reported, the registry holds the new
/// host for the user, and what it holds for every other user is as before.
pub proof fn lemma_restart_replaces_the_host(
    registry: Map<Seq<char>, Option<HostHandle>>,
    user: Seq<char>,
    old_host: HostHandle,
    new_host: HostHandle,
)
    requires
        registry.contains_key(user),
        registry[user] == Some(old_host),
    ensures
        host_to_abort(registry, user) == Some(old_host),
        registry_without_host(registry, user)[user].is_none(),
        registry_with_restart(registry_without_host(registry, user), user, Ok(Some(new_host)))[user]
            == Some(new_host),
        forall|other: Seq<char>|
            other != user ==> (registry.contains_key(other) <==> #[trigger] registry_with_restart(
                registry_without_host(registry, user),
                user,
                Ok(Some(new_host)),
            ).contains_key(other)),
        forall|other: Seq<char>|
            other != user && registry.contains_key(other) ==> #[trigger] registry_with_restart(
                registry_without_host(registry, user),
                user,
                Ok(Some(new_host)),
            )[other] == registry[other],
{
}

/// A restart that cannot start a host leaves the user with no running
/// host, and every other user as before.
pub proof fn lemma_failed_restart_leaves_no_host(
    registry: Map<Seq<char>, Option<HostHandle>>,
    user: Seq<char>,
    failure: FiringError,
)
    ensures
        registry_with_restart(registry_without_host(registry, user), user, Err(failure))[user]
            .is_none(),
        forall|other: Seq<char>|
            other != user && registry.contains_key(other) ==> #[trigger] registry_with_restart(
                registry_without_host(registry, user),
                user,
                Err(failure),
            )[other] == registry[other],
{
}

} // verus!
