//! The registry of sessions.
//!
//! A session is whatever the caller binds to an identifier: the registry stores it, hands it
//! out again on a later request for the same identifier, and decides when a new one may be
//! created. The caller serialises access (one lock around the manager) and starts the agent
//! instance between [`SessionManager::get_or_create_session`] and
//! [`SessionManager::insert_session`] while it holds that lock.

use crate::session::ident::{fresh_uuid, is_random_uuid};
use crate::text::{decimal, decimal_text, joined};
use vstd::prelude::*;

verus! {

/// Policy of a session manager, fixed when the manager is built.
#[derive(Clone, Copy, Debug)]
pub struct SessionManagerConfig {
    /// Upper bound on the number of registered sessions; `None` means no bound.
    pub max_sessions: Option<usize>,
    /// Whether a session is torn down when its single request is over.
    pub ephemeral: bool,
}

impl Default for SessionManagerConfig {
    fn default() -> (config: Self)
        ensures
            config.max_sessions == Some(100usize),
            !config.ephemeral,
    {
        SessionManagerConfig { max_sessions: Some(100), ephemeral: false }
    }
}

/// Why a request could not be bound to a session.
#[derive(Debug)]
pub enum SessionError {
    /// No session has the identifier and the manager does not create sessions at present.
    SessionCreationDisabled,
    /// No session has the identifier and the registry already holds `max` sessions.
    CapacityExceeded { max: usize },
    /// The agent instance of a new session could not be started.
    AgentCreationFailed { reason: String },
}

impl SessionError {
    /// The text of [`message`](Self::message).
    pub open spec fn message_text(self) -> Seq<char> {
        match self {
            SessionError::SessionCreationDisabled => "Session creation disabled"@,
            SessionError::CapacityExceeded { max } => "Maximum number of sessions reached: "@
                + decimal(max as nat),
            SessionError::AgentCreationFailed { reason } => "Failed to create agent: "@ + reason@,
        }
    }

    /// The error in words, for the one who sent the request.
    pub fn message(&self) -> (text: String)
        ensures
            text@ == self.message_text(),
    {
        match self {
            SessionError::SessionCreationDisabled => "Session creation disabled".to_owned(),
            SessionError::CapacityExceeded { max } => joined(
                "Maximum number of sessions reached: ",
                decimal_text(*max).as_str(),
            ),
            SessionError::AgentCreationFailed { reason } => joined(
                "Failed to create agent: ",
                reason.as_str(),
            ),
        }
    }
}

/// What the caller needs to start the agent instance of a new session.
pub struct AgentStart {
    /// The identifier under which the session will be registered.
    pub session_id: String,
    /// The agent profile to start, `None` for the one that is built in.
    pub agent_name: Option<String>,
    /// Whether the session is torn down after its single request.
    pub ephemeral: bool,
}

/// The profile that a request's agent name selects: the name itself, but for `default`, which
/// like no name at all selects the profile that is built in.
pub open spec fn selected_profile(agent_name: Option<String>) -> Option<String> {
    match agent_name {
        Some(name) => if name@ == "default"@ {
            None
        } else {
            Some(name)
        },
        None => None,
    }
}

/// What the registry decides for one identifier.
pub enum Admission {
    /// A session with the identifier is registered.
    Existing,
    /// None is registered, and one may be created.
    Create,
    /// None is registered, and creation is switched off.
    CreationDisabled,
    /// None is registered, and the registry is full.
    CapacityExceeded,
}

/// What one request observes of the registry.
pub enum Outcome<S> {
    /// It is bound to a session that was registered before.
    Attached(S),
    /// It is bound to a session that was created for it.
    Created(S),
    /// It fails: creation is switched off.
    SessionCreationDisabled,
    /// It fails: the registry is full.
    CapacityExceeded,
    /// It fails: the agent instance did not start.
    AgentCreationFailed,
}

/// The number of sessions that `outcomes` report as created.
pub open spec fn creations<S>(outcomes: Seq<Outcome<S>>) -> nat
    decreases outcomes.len(),
{
    if outcomes.len() == 0 {
        0
    } else {
        creations(outcomes.drop_first()) + if outcomes.first() is Created {
            1nat
        } else {
            0nat
        }
    }
}

/// The mathematical state of a manager: a finite map from identifiers to sessions, and the
/// policy.
pub struct ManagerView<S> {
    pub sessions: Map<Seq<char>, S>,
    pub max_sessions: Option<usize>,
    pub allow_creation: bool,
    pub ephemeral: bool,
}

impl<S> ManagerView<S> {
    /// The registry is finite and never larger than the policy allows.
    pub open spec fn wf(self) -> bool {
        &&& self.sessions.dom().finite()
        &&& self.max_sessions matches Some(max) ==> self.sessions.dom().len() <= max
    }

    /// No further session fits.
    pub open spec fn full(self) -> bool {
        self.max_sessions matches Some(max) && self.sessions.dom().len() >= max
    }

    /// The decision for `id`. A registered session is found. An unknown identifier is turned
    /// away where creation is forbidden, and else where the registry is full.
    pub open spec fn admission(self, id: Seq<char>) -> Admission {
        if self.sessions.contains_key(id) {
            Admission::Existing
        } else if !self.allow_creation {
            Admission::CreationDisabled
        } else if self.full() {
            Admission::CapacityExceeded
        } else {
            Admission::Create
        }
    }

    /// The state after `session` was registered under `id`.
    pub open spec fn with_session(self, id: Seq<char>, session: S) -> Self {
        ManagerView { sessions: self.sessions.insert(id, session), ..self }
    }

    /// The state after the entry of `id` was taken out.
    pub open spec fn without_session(self, id: Seq<char>) -> Self {
        ManagerView { sessions: self.sessions.remove(id), ..self }
    }

    /// One request for `id`, served while the registry is locked. `started` is what starting
    /// an agent instance gives where the registry asks for one: the new session, or `None`
    /// where the start fails.
    pub open spec fn serve(self, id: Seq<char>, started: Option<S>) -> (Self, Outcome<S>) {
        match self.admission(id) {
            Admission::Existing => (self, Outcome::Attached(self.sessions[id])),
            Admission::Create => match started {
                Some(session) => (self.with_session(id, session), Outcome::Created(session)),
                None => (self, Outcome::AgentCreationFailed),
            },
            Admission::CreationDisabled => (self, Outcome::SessionCreationDisabled),
            Admission::CapacityExceeded => (self, Outcome::CapacityExceeded),
        }
    }

    /// Several requests for one `id`, served one after the other; `starts[i]` is what starting
    /// an agent instance gives for the `i`-th of them.
    pub open spec fn serve_all(self, id: Seq<char>, starts: Seq<Option<S>>) -> (
        Self,
        Seq<Outcome<S>>,
    )
        decreases starts.len(),
    {
        if starts.len() == 0 {
            (self, Seq::empty())
        } else {
            let (next, first) = self.serve(id, starts.first());
            let (last, rest) = next.serve_all(id, starts.drop_first());
            (last, seq![first] + rest)
        }
    }
}

/// The answer to a request for a session.
pub enum Resolution<'a, S> {
    /// The session that is registered under the identifier.
    Existing(&'a S),
    /// No session is registered under it; the caller starts an agent instance and registers
    /// the new session.
    Create,
}

struct Entry<S> {
    id: String,
    session: S,
}

/// The registry: sessions by identifier, a capacity, and a switch that allows or forbids
/// creation.
pub struct SessionManager<S> {
    entries: Vec<Entry<S>>,
    max_sessions: Option<usize>,
    allow_creation: bool,
    ephemeral: bool,
}

spec fn ids_of<S>(entries: Seq<Entry<S>>) -> Seq<Seq<char>> {
    Seq::new(entries.len(), |i: int| entries[i].id@)
}

spec fn sessions_of<S>(entries: Seq<Entry<S>>) -> Map<Seq<char>, S> {
    Map::new(
        |id: Seq<char>| ids_of(entries).contains(id),
        |id: Seq<char>| entries[ids_of(entries).index_of(id)].session,
    )
}

proof fn lemma_sessions_of<S>(entries: Seq<Entry<S>>)
    requires
        ids_of(entries).no_duplicates(),
    ensures
        sessions_of(entries).dom() == ids_of(entries).to_set(),
        sessions_of(entries).dom().finite(),
        sessions_of(entries).dom().len() == entries.len(),
        forall|i: int|
            0 <= i < entries.len() ==> {
                &&& #[trigger] sessions_of(entries).contains_key(entries[i].id@)
                &&& sessions_of(entries)[entries[i].id@] == entries[i].session
            },
{
    let ids = ids_of(entries);
    assert(sessions_of(entries).dom() =~= ids.to_set());
    vstd::seq_lib::seq_to_set_is_finite(ids);
    ids.unique_seq_to_set();
    assert forall|i: int| 0 <= i < entries.len() implies {
        &&& #[trigger] sessions_of(entries).contains_key(entries[i].id@)
        &&& sessions_of(entries)[entries[i].id@] == entries[i].session
    } by {
        assert(ids[i] == entries[i].id@);
        let j = ids.index_of(entries[i].id@);
        assert(0 <= j < ids.len() && ids[j] == ids[i]);
    }
}

impl<S> View for SessionManager<S> {
    type V = ManagerView<S>;

    closed spec fn view(&self) -> ManagerView<S> {
        ManagerView {
            sessions: sessions_of(self.entries@),
            max_sessions: self.max_sessions,
            allow_creation: self.allow_creation,
            ephemeral: self.ephemeral,
        }
    }
}

impl<S> SessionManager<S> {
    #[verifier::type_invariant]
    spec fn inv(self) -> bool {
        &&& ids_of(self.entries@).no_duplicates()
        &&& self.max_sessions matches Some(max) ==> self.entries@.len() <= max
    }

    /// An empty registry with the capacity and the session policy of `config`; creation is
    /// allowed.
    pub fn new(config: SessionManagerConfig) -> (manager: Self)
        ensures
            manager@.sessions == Map::<Seq<char>, S>::empty(),
            manager@.max_sessions == config.max_sessions,
            manager@.allow_creation,
            manager@.ephemeral == config.ephemeral,
            manager@.wf(),
    {
        let manager = SessionManager {
            entries: Vec::new(),
            max_sessions: config.max_sessions,
            allow_creation: true,
            ephemeral: config.ephemeral,
        };
        proof {
            lemma_sessions_of(manager.entries@);
            assert(manager@.sessions =~= Map::<Seq<char>, S>::empty());
        }
        manager
    }

    /// The position of the entry of `session_id`, if it has one.
    fn position(&self, session_id: &str) -> (found: Option<usize>)
        ensures
            match found {
                Some(i) => i < self.entries@.len() && self.entries@[i as int].id@ == session_id@,
                None => !ids_of(self.entries@).contains(session_id@),
            },
    {
        let key = session_id.to_owned();
        let mut i: usize = 0;
        while i < self.entries.len()
            invariant
                i <= self.entries@.len(),
                key@ == session_id@,
                forall|j: int| 0 <= j < i ==> self.entries@[j].id@ != session_id@,
            decreases self.entries@.len() - i,
        {
            if self.entries[i].id == key {
                return Some(i);
            }
            i += 1;
        }
        assert forall|j: int| 0 <= j < ids_of(self.entries@).len() implies ids_of(
            self.entries@,
        )[j] != session_id@ by {}
        None
    }

    /// Finds the session of `session_id`, or decides whether one may be created.
    ///
    /// A registered session is always found, even where creation is forbidden or the
    /// registry is full. For an unknown identifier creation must be allowed and the registry
    /// must have room; where both fail, the answer is that creation is forbidden.
    pub fn get_or_create_session<'a>(&'a self, session_id: &str) -> (resolved: Result<
        Resolution<'a, S>,
        SessionError,
    >)
        ensures
            self@.wf(),
            match self@.admission(session_id@) {
                Admission::Existing => resolved matches Ok(Resolution::Existing(session))
                    && *session == self@.sessions[session_id@],
                Admission::Create => resolved matches Ok(Resolution::Create),
                Admission::CreationDisabled => resolved matches Err(
                    SessionError::SessionCreationDisabled,
                ),
                Admission::CapacityExceeded => resolved matches Err(
                    SessionError::CapacityExceeded { max },
                ) && self@.max_sessions == Some(max),
            },
    {
        proof {
            use_type_invariant(self);
            lemma_sessions_of(self.entries@);
        }
        match self.position(session_id) {
            Some(i) => Ok(Resolution::Existing(&self.entries[i].session)),
            None => {
                if !self.allow_creation {
                    return Err(SessionError::SessionCreationDisabled);
                }
                if let Some(max) = self.max_sessions {
                    if self.entries.len() >= max {
                        return Err(SessionError::CapacityExceeded { max });
                    }
                }
                Ok(Resolution::Create)
            },
        }
    }

    /// The number of registered sessions.
    pub fn session_count(&self) -> (count: usize)
        ensures
            self@.wf(),
            count == self@.sessions.dom().len(),
    {
        proof {
            use_type_invariant(self);
            lemma_sessions_of(self.entries@);
        }
        self.entries.len()
    }

    /// Allows or forbids the creation of sessions. Registered sessions are not affected.
    pub fn set_allow_creation(&mut self, allow: bool)
        ensures
            final(self)@ == (ManagerView { allow_creation: allow, ..old(self)@ }),
    {
        proof {
            use_type_invariant(&*self);
        }
        self.allow_creation = allow;
    }

    /// Whether the sessions of this manager are torn down after their single request.
    pub fn ephemeral(&self) -> (ephemeral: bool)
        ensures
            ephemeral == self@.ephemeral,
    {
        self.ephemeral
    }

    /// Prepares the creation of the session `session_id`: the profile that `agent_name`
    /// selects, and the session policy of this manager.
    pub fn create_session(&self, session_id: &str, agent_name: Option<String>) -> (start:
        AgentStart)
        ensures
            start.session_id@ == session_id@,
            start.agent_name == selected_profile(agent_name),
            start.ephemeral == self@.ephemeral,
    {
        let agent_name = match agent_name {
            Some(name) => {
                let builtin = "default".to_owned();
                if name == builtin {
                    None
                } else {
                    Some(name)
                }
            },
            None => None,
        };
        AgentStart { session_id: session_id.to_owned(), agent_name, ephemeral: self.ephemeral }
    }

    /// Registers `session` under `session_id` where
    /// [`get_or_create_session`](Self::get_or_create_session) decides for a creation, and
    /// hands it back where it does not: the registry then stays as it was.
    pub fn insert_session(&mut self, session_id: String, session: S) -> (rejected: Option<S>)
        ensures
            final(self)@.wf(),
            match old(self)@.admission(session_id@) {
                Admission::Create => rejected is None && final(self)@ == old(self)@.with_session(
                    session_id@,
                    session,
                ),
                _ => rejected == Some(session) && final(self)@ == old(self)@,
            },
    {
        proof {
            use_type_invariant(&*self);
            lemma_sessions_of(self.entries@);
        }
        if self.position(session_id.as_str()).is_some() || !self.allow_creation {
            return Some(session);
        }
        if let Some(max) = self.max_sessions {
            if self.entries.len() >= max {
                return Some(session);
            }
        }
        let ghost before = self.entries@;
        let ghost id = session_id@;
        let mut entries = Vec::new();
        std::mem::swap(&mut entries, &mut self.entries);
        entries.push(Entry { id: session_id, session });
        proof {
            let after = entries@;
            assert(ids_of(after) =~= ids_of(before).push(id));
            assert(ids_of(after).no_duplicates());
            lemma_sessions_of(after);
            assert forall|k: Seq<char>| #[trigger]
                sessions_of(after).contains_key(k) <==> sessions_of(before).insert(
                    id,
                    session,
                ).contains_key(k) by {
                if ids_of(after).contains(k) {
                    let j = ids_of(after).index_of(k);
                    if j < before.len() {
                        assert(ids_of(before)[j] == k);
                    }
                }
                if ids_of(before).contains(k) {
                    let j = ids_of(before).index_of(k);
                    assert(ids_of(after)[j] == k);
                }
                if k == id {
                    assert(ids_of(after)[before.len() as int] == k);
                }
            }
            assert forall|k: Seq<char>| #[trigger]
                sessions_of(after).contains_key(k) implies sessions_of(after)[k] == sessions_of(
                before,
            ).insert(id, session)[k] by {
                let j = ids_of(after).index_of(k);
                assert(after[j].id@ == k);
                if j < before.len() {
                    assert(before[j].id@ == k);
                    assert(sessions_of(before)[before[j].id@] == before[j].session);
                }
            }
            assert(sessions_of(after) =~= sessions_of(before).insert(id, session));
        }
        self.entries = entries;
        None
    }

    /// Takes the entry of `session_id` out of the registry, once the agent instance behind it
    /// has stopped, and hands the session out. Nothing happens where there is no such entry.
    pub fn remove_session(&mut self, session_id: &str) -> (removed: Option<S>)
        ensures
            final(self)@.wf(),
            match removed {
                Some(session) => old(self)@.sessions.contains_key(session_id@) && session == old(
                    self,
                )@.sessions[session_id@] && final(self)@ == old(self)@.without_session(
                    session_id@,
                ),
                None => !old(self)@.sessions.contains_key(session_id@) && final(self)@ == old(
                    self,
                )@,
            },
    {
        proof {
            use_type_invariant(&*self);
            lemma_sessions_of(self.entries@);
        }
        match self.position(session_id) {
            None => None,
            Some(i) => {
                let ghost before = self.entries@;
                let ghost id = session_id@;
                let mut entries = Vec::new();
                std::mem::swap(&mut entries, &mut self.entries);
                let entry = entries.remove(i);
                proof {
                    let after = entries@;
                    assert(after =~= before.remove(i as int));
                    assert forall|a: int, b: int|
                        0 <= a < after.len() && 0 <= b < after.len() && a != b implies ids_of(
                        after,
                    )[a] != ids_of(after)[b] by {
                        let a0 = if a < i { a } else { a + 1 };
                        let b0 = if b < i { b } else { b + 1 };
                        assert(ids_of(before)[a0] != ids_of(before)[b0]);
                    }
                    lemma_sessions_of(after);
                    assert forall|k: Seq<char>| #[trigger]
                        sessions_of(after).contains_key(k) <==> sessions_of(before).remove(
                            id,
                        ).contains_key(k) by {
                        if ids_of(after).contains(k) {
                            let j = ids_of(after).index_of(k);
                            let j0 = if j < i { j } else { j + 1 };
                            assert(ids_of(before)[j0] == k);
                            assert(ids_of(before)[i as int] == id);
                        }
                        if ids_of(before).contains(k) && k != id {
                            let j = ids_of(before).index_of(k);
                            let j1 = if j < i { j } else { j - 1 };
                            assert(ids_of(after)[j1] == k);
                        }
                    }
                    assert forall|k: Seq<char>| #[trigger]
                        sessions_of(after).contains_key(k) implies sessions_of(after)[k]
                        == sessions_of(before).remove(id)[k] by {
                        let j = ids_of(after).index_of(k);
                        let j0 = if j < i { j } else { j + 1 };
                        assert(after[j].id@ == k);
                        assert(before[j0].id@ == k);
                        assert(sessions_of(before)[before[j0].id@] == before[j0].session);
                    }
                    assert(sessions_of(after) =~= sessions_of(before).remove(id));
                }
                self.entries = entries;
                Some(entry.session)
            },
        }
    }

    /// The session whose agent instance is to be cancelled: the one registered under
    /// `session_id`. `None` where there is none, which is no error: nothing is cancelled then.
    pub fn cancel_session(&self, session_id: &str) -> (target: Option<&S>)
        ensures
            match target {
                Some(session) => self@.sessions.contains_key(session_id@) && *session
                    == self@.sessions[session_id@],
                None => !self@.sessions.contains_key(session_id@),
            },
    {
        proof {
            use_type_invariant(self);
            lemma_sessions_of(self.entries@);
        }
        match self.position(session_id) {
            Some(i) => Some(&self.entries[i].session),
            None => None,
        }
    }

    /// Settles the identifier of an incoming request and resolves its session.
    ///
    /// A request that names a session keeps that name. One that names none is given a fresh
    /// random identifier. The resolution is that of
    /// [`get_or_create_session`](Self::get_or_create_session) for the settled identifier.
    pub fn handle_request<'a>(&'a self, session_id: Option<String>) -> (answer: (
        String,
        Result<Resolution<'a, S>, SessionError>,
    ))
        ensures
            self@.wf(),
            match session_id {
                Some(given) => answer.0@ == given@,
                None => is_random_uuid(answer.0@),
            },
            match self@.admission(answer.0@) {
                Admission::Existing => answer.1 matches Ok(Resolution::Existing(session))
                    && *session == self@.sessions[answer.0@],
                Admission::Create => answer.1 matches Ok(Resolution::Create),
                Admission::CreationDisabled => answer.1 matches Err(
                    SessionError::SessionCreationDisabled,
                ),
                Admission::CapacityExceeded => answer.1 matches Err(
                    SessionError::CapacityExceeded { max },
                ) && self@.max_sessions == Some(max),
            },
    {
        let id = match session_id {
            Some(given) => given,
            None => fresh_uuid(),
        };
        let resolved = self.get_or_create_session(id.as_str());
        (id, resolved)
    }
}

/// Requests for a registered identifier attach to its session and change nothing, however
/// many they are, even where creation is forbidden or the registry is full.
pub proof fn law_registered_session_is_reused<S>(
    view: ManagerView<S>,
    id: Seq<char>,
    starts: Seq<Option<S>>,
)
    requires
        view.sessions.contains_key(id),
    ensures
        view.serve_all(id, starts).0 == view,
        view.serve_all(id, starts).1.len() == starts.len(),
        forall|i: int|
            0 <= i < starts.len() ==> #[trigger] view.serve_all(id, starts).1[i]
                == Outcome::Attached(view.sessions[id]),
        creations(view.serve_all(id, starts).1) == 0,
    decreases starts.len(),
{
    if starts.len() > 0 {
        law_registered_session_is_reused(view, id, starts.drop_first());
        let outcomes = view.serve_all(id, starts).1;
        assert(outcomes.drop_first() =~= view.serve_all(id, starts.drop_first()).1);
    }
}

/// Among the requests for one unknown identifier, served one after the other under the
/// manager's lock, exactly one session is created: by the first request whose agent instance
/// starts. The requests before it fail with `AgentCreationFailed`, every request after it is
/// bound to that same session, and the registry ends with that one entry more.
///
/// `first_started` is the position of the first request whose agent instance starts.
pub proof fn law_one_session_per_identifier<S>(
    view: ManagerView<S>,
    id: Seq<char>,
    starts: Seq<Option<S>>,
    first_started: int,
)
    requires
        view.wf(),
        !view.sessions.contains_key(id),
        view.allow_creation,
        !view.full(),
        0 <= first_started < starts.len(),
        starts[first_started] is Some,
        forall|i: int| 0 <= i < first_started ==> starts[i] is None,
    ensures
        ({
            let (end, outcomes) = view.serve_all(id, starts);
            let session = starts[first_started]->0;
            &&& creations(outcomes) == 1
            &&& outcomes.len() == starts.len()
            &&& forall|i: int|
                0 <= i < first_started ==> #[trigger] outcomes[i] == Outcome::<
                    S,
                >::AgentCreationFailed
            &&& outcomes[first_started] == Outcome::Created(session)
            &&& forall|i: int|
                first_started < i < starts.len() ==> #[trigger] outcomes[i] == Outcome::Attached(
                    session,
                )
            &&& end == view.with_session(id, session)
            &&& end.wf()
        }),
    decreases starts.len(),
{
    let (end, outcomes) = view.serve_all(id, starts);
    let rest = starts.drop_first();
    if first_started == 0 {
        let session = starts[0]->0;
        let next = view.with_session(id, session);
        law_registered_session_is_reused(next, id, rest);
        assert(outcomes.drop_first() =~= next.serve_all(id, rest).1);
        assert(next.sessions.dom() =~= view.sessions.dom().insert(id));
    } else {
        law_one_session_per_identifier(view, id, rest, first_started - 1);
        let tail = view.serve_all(id, rest).1;
        assert(outcomes.drop_first() =~= tail);
        assert forall|i: int| 0 <= i < first_started implies #[trigger] outcomes[i]
            == Outcome::<S>::AgentCreationFailed by {
            if i > 0 {
                assert(outcomes[i] == tail[i - 1]);
            }
        }
        assert forall|i: int| first_started < i < starts.len() implies #[trigger] outcomes[i]
            == Outcome::Attached(starts[first_started]->0) by {
            assert(outcomes[i] == tail[i - 1]);
        }
        assert(outcomes[first_started] == tail[first_started - 1]);
    }
}

/// A registry that holds as many sessions as its capacity allows turns every unknown
/// identifier away with `CapacityExceeded`, and still finds every registered one.
pub proof fn law_capacity_is_enforced<S>(view: ManagerView<S>, id: Seq<char>, started: Option<S>)
    requires
        view.wf(),
        view.allow_creation,
        view.max_sessions matches Some(max) && view.sessions.dom().len() == max,
    ensures
        view.sessions.contains_key(id) ==> view.serve(id, started) == (
            view,
            Outcome::Attached(view.sessions[id]),
        ),
        !view.sessions.contains_key(id) ==> view.serve(id, started) == (
            view,
            Outcome::<S>::CapacityExceeded,
        ),
{
}

/// Serving a request keeps the registry within its capacity. It grows by one session where
/// the request creates one, and stays as it is otherwise.
pub proof fn law_registry_stays_within_capacity<S>(
    view: ManagerView<S>,
    id: Seq<char>,
    started: Option<S>,
)
    requires
        view.wf(),
    ensures
        view.serve(id, started).0.wf(),
        view.serve(id, started).1 is Created ==> view.serve(id, started).0.sessions.dom().len()
            == view.sessions.dom().len() + 1,
        !(view.serve(id, started).1 is Created) ==> view.serve(id, started).0 == view,
{
    if view.serve(id, started).1 is Created {
        assert(view.serve(id, started).0.sessions.dom() =~= view.sessions.dom().insert(id));
    }
}

/// An identifier is bound to one session for as long as that session is registered, and is
/// free again once the session is removed: the next request for it then creates a new
/// session, for which the removal has made room.
pub proof fn law_identifier_is_free_after_removal<S>(view: ManagerView<S>, id: Seq<char>)
    requires
        view.wf(),
        view.sessions.contains_key(id),
    ensures
        view.admission(id) == Admission::Existing,
        view.without_session(id).wf(),
        view.without_session(id).sessions.dom().len() == view.sessions.dom().len() - 1,
        view.allow_creation ==> view.without_session(id).admission(id) == Admission::Create,
        !view.allow_creation ==> view.without_session(id).admission(id)
            == Admission::CreationDisabled,
{
    assert(view.without_session(id).sessions.dom() =~= view.sessions.dom().remove(id));
}

} // verus!
