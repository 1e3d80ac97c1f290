use crate::error::{DemoniteErr, ErrView};
use crate::paths::{
    check_runtime_dir, perm_bits, protocol_dir, protocol_dir_path, socket_path, socket_path_in,
    OWNER_ONLY, RUNTIME_DIR_VAR,
};
use vstd::prelude::*;
use vstd::string::StringExecFns;

verus! {

/// Where the startup of a listener stands: each phase waits for the outcome of
/// one outside step.
#[derive(PartialEq, Eq, Structural, Clone, Copy, Debug)]
pub enum Phase {
    /// Waits for the runtime directory variable.
    AwaitVar,
    /// Waits for the existence and mode of the runtime directory.
    AwaitRuntimeDir,
    /// Waits to learn whether the protocol directory exists.
    AwaitProtocolDir,
    /// Waits for the protocol directory to be created.
    AwaitCreateDir,
    /// Waits to learn whether a file stands at the socket path.
    AwaitSocket,
    /// Waits for the outcome of connecting to the file at the socket path.
    AwaitProbe,
    /// Waits for the stale socket file to be removed.
    AwaitRemove,
    /// Waits for the socket to be bound.
    AwaitBind,
    /// The socket is bound; connections are served from now on.
    Serving,
    /// Startup failed; nothing more happens.
    Failed,
}

/// The outcome of connecting to a file that stands at the socket path.
#[derive(Debug, PartialEq, Eq)]
pub enum ProbeOutcome {
    /// A live instance accepted the connection.
    Connected,
    /// The connection was refused: the file is left over from a dead instance.
    Refused,
    /// Any other failure, with its message.
    Failed(String),
}

/// The outcome of the last outside step, as the listener's host observed it.
#[derive(Debug, PartialEq, Eq)]
pub enum Event {
    /// The runtime directory variable: its value, or why it could not be read.
    RuntimeDirVar(Result<String, String>),
    /// Whether the runtime directory exists, and its mode when it does.
    RuntimeDir { exists: bool, mode: u32 },
    /// Whether the path asked about exists.
    Exists(bool),
    /// The outcome of connecting to the socket path.
    Probed(ProbeOutcome),
    /// The step succeeded.
    Done,
    /// The step failed with an I/O error, with its message.
    Failed(String),
}

/// The next outside step that the listener's host is to take.
#[derive(Debug, PartialEq, Eq)]
pub enum Action {
    /// Read the environment variable of this name.
    ReadVar(String),
    /// Find whether this directory exists, and its mode.
    InspectRuntimeDir(String),
    /// Find whether this path exists.
    CheckExists(String),
    /// Create this directory.
    CreateDir(String),
    /// Connect to the socket at this path.
    Probe(String),
    /// Remove the stale socket file at this path.
    RemoveFile(String),
    /// Bind a listening socket at this path.
    Bind(String),
    /// Serve connections on the socket bound at this path.
    Serve(String),
    /// Stop: startup failed with this error.
    Fail(DemoniteErr),
}

/// The mathematical value of an [`Event`].
pub enum EventView {
    RuntimeDirVar(Result<Seq<char>, Seq<char>>),
    RuntimeDir { exists: bool, mode: u32 },
    Exists(bool),
    Connected,
    Refused,
    ProbeFailed(Seq<char>),
    Done,
    Failed(Seq<char>),
}

/// The mathematical value of an [`Action`].
pub enum ActionView {
    ReadVar(Seq<char>),
    InspectRuntimeDir(Seq<char>),
    CheckExists(Seq<char>),
    CreateDir(Seq<char>),
    Probe(Seq<char>),
    RemoveFile(Seq<char>),
    Bind(Seq<char>),
    Serve(Seq<char>),
    Fail(ErrView),
}

impl View for Event {
    type V = EventView;

    open spec fn view(&self) -> EventView {
        match self {
            Event::RuntimeDirVar(Ok(d)) => EventView::RuntimeDirVar(Ok(d@)),
            Event::RuntimeDirVar(Err(m)) => EventView::RuntimeDirVar(Err(m@)),
            Event::RuntimeDir { exists, mode } => EventView::RuntimeDir {
                exists: *exists,
                mode: *mode,
            },
            Event::Exists(b) => EventView::Exists(*b),
            Event::Probed(ProbeOutcome::Connected) => EventView::Connected,
            Event::Probed(ProbeOutcome::Refused) => EventView::Refused,
            Event::Probed(ProbeOutcome::Failed(m)) => EventView::ProbeFailed(m@),
            Event::Done => EventView::Done,
            Event::Failed(m) => EventView::Failed(m@),
        }
    }
}

impl View for Action {
    type V = ActionView;

    open spec fn view(&self) -> ActionView {
        match self {
            Action::ReadVar(p) => ActionView::ReadVar(p@),
            Action::InspectRuntimeDir(p) => ActionView::InspectRuntimeDir(p@),
            Action::CheckExists(p) => ActionView::CheckExists(p@),
            Action::CreateDir(p) => ActionView::CreateDir(p@),
            Action::Probe(p) => ActionView::Probe(p@),
            Action::RemoveFile(p) => ActionView::RemoveFile(p@),
            Action::Bind(p) => ActionView::Bind(p@),
            Action::Serve(p) => ActionView::Serve(p@),
            Action::Fail(e) => ActionView::Fail(e@),
        }
    }
}

/// The mathematical value of a [`Launcher`].
pub struct LaunchView {
    pub service: Seq<char>,
    pub runtime_dir: Seq<char>,
    pub phase: Phase,
}

/// The startup of the listener for one service, as a state machine: its host
/// performs each [`Action`] and hands back the outcome as an [`Event`].
pub struct Launcher {
    pub service: String,
    pub runtime_dir: String,
    pub phase: Phase,
}

impl View for Launcher {
    type V = LaunchView;

    open spec fn view(&self) -> LaunchView {
        LaunchView { service: self.service@, runtime_dir: self.runtime_dir@, phase: self.phase }
    }
}

/// The state in which the startup of `service` begins.
pub open spec fn initial(service: Seq<char>) -> LaunchView {
    LaunchView { service, runtime_dir: Seq::empty(), phase: Phase::AwaitVar }
}

/// The action that begins a startup.
pub open spec fn first_action() -> ActionView {
    ActionView::ReadVar(RUNTIME_DIR_VAR@)
}

/// Whether the phase `p` waits for an event of the kind of `e`. No event is
/// awaited once serving or failed.
pub open spec fn accepts(p: Phase, e: EventView) -> bool {
    match p {
        Phase::AwaitVar => e is RuntimeDirVar,
        Phase::AwaitRuntimeDir => e is RuntimeDir || e is Failed,
        Phase::AwaitProtocolDir => e is Exists || e is Failed,
        Phase::AwaitSocket => e is Exists || e is Failed,
        Phase::AwaitProbe => e is Connected || e is Refused || e is ProbeFailed,
        Phase::AwaitCreateDir => e is Done || e is Failed,
        Phase::AwaitRemove => e is Done || e is Failed,
        Phase::AwaitBind => e is Done || e is Failed,
        Phase::Serving => false,
        Phase::Failed => false,
    }
}

/// `v` moved to phase `p`.
pub open spec fn moved(v: LaunchView, p: Phase) -> LaunchView {
    LaunchView { phase: p, ..v }
}

/// `v` failed with `e`.
pub open spec fn failed(v: LaunchView, e: ErrView) -> (LaunchView, ActionView) {
    (moved(v, Phase::Failed), ActionView::Fail(e))
}

/// Where the service of `v` listens.
pub open spec fn socket_of(v: LaunchView) -> Seq<char> {
    socket_path(v.runtime_dir, v.service)
}

/// The state and action that follow the event `e` in the state `v`. An event
/// that the phase does not await leaves the state as it is.
pub open spec fn next(v: LaunchView, e: EventView) -> (LaunchView, ActionView) {
    if !accepts(v.phase, e) {
        (v, ActionView::Fail(ErrView::Io(Seq::empty())))
    } else if let EventView::Failed(m) = e {
        failed(v, ErrView::Io(m))
    } else {
        match v.phase {
            Phase::AwaitVar => match e {
                EventView::RuntimeDirVar(Ok(d)) => (
                    LaunchView { runtime_dir: d, phase: Phase::AwaitRuntimeDir, ..v },
                    ActionView::InspectRuntimeDir(d),
                ),
                EventView::RuntimeDirVar(Err(m)) => failed(v, ErrView::EnvVar(m)),
                _ => (v, ActionView::Fail(ErrView::Io(Seq::empty()))),
            },
            Phase::AwaitRuntimeDir => match e {
                EventView::RuntimeDir { exists, mode } => if !exists {
                    failed(v, ErrView::XdgRuntimeDirMissing)
                } else if perm_bits(mode) != OWNER_ONLY {
                    failed(v, ErrView::XdgRuntimeDirInvPerm(perm_bits(mode)))
                } else {
                    (
                        moved(v, Phase::AwaitProtocolDir),
                        ActionView::CheckExists(protocol_dir(v.runtime_dir)),
                    )
                },
                _ => (v, ActionView::Fail(ErrView::Io(Seq::empty()))),
            },
            Phase::AwaitProtocolDir => if e == EventView::Exists(true) {
                (moved(v, Phase::AwaitSocket), ActionView::CheckExists(socket_of(v)))
            } else {
                (moved(v, Phase::AwaitCreateDir), ActionView::CreateDir(protocol_dir(v.runtime_dir)))
            },
            Phase::AwaitCreateDir => (
                moved(v, Phase::AwaitSocket),
                ActionView::CheckExists(socket_of(v)),
            ),
            Phase::AwaitSocket => if e == EventView::Exists(true) {
                (moved(v, Phase::AwaitProbe), ActionView::Probe(socket_of(v)))
            } else {
                (moved(v, Phase::AwaitBind), ActionView::Bind(socket_of(v)))
            },
            Phase::AwaitProbe => match e {
                EventView::Connected => failed(v, ErrView::AlreadyRunning),
                EventView::Refused => (
                    moved(v, Phase::AwaitRemove),
                    ActionView::RemoveFile(socket_of(v)),
                ),
                EventView::ProbeFailed(m) => failed(v, ErrView::Io(m)),
                _ => (v, ActionView::Fail(ErrView::Io(Seq::empty()))),
            },
            Phase::AwaitRemove => (moved(v, Phase::AwaitBind), ActionView::Bind(socket_of(v))),
            Phase::AwaitBind => (moved(v, Phase::Serving), ActionView::Serve(socket_of(v))),
            _ => (v, ActionView::Fail(ErrView::Io(Seq::empty()))),
        }
    }
}

impl Launcher {
    /// Begins the startup of the listener for `service`.
    pub fn start(service: String) -> (r: (Launcher, Action))
        ensures
            r.0@ == initial(service@),
            r.1@ == first_action(),
    {
        let l = Launcher { service, runtime_dir: String::new(), phase: Phase::AwaitVar };
        (l, Action::ReadVar(String::from_str(RUNTIME_DIR_VAR)))
    }

    /// Whether the current phase awaits an event of the kind of `e`.
    pub fn accepts(&self, e: &Event) -> (r: bool)
        ensures
            r == accepts(self.phase, e@),
    {
        match self.phase {
            Phase::AwaitVar => matches!(e, Event::RuntimeDirVar(_)),
            Phase::AwaitRuntimeDir => matches!(e, Event::RuntimeDir { .. } | Event::Failed(_)),
            Phase::AwaitProtocolDir => matches!(e, Event::Exists(_) | Event::Failed(_)),
            Phase::AwaitSocket => matches!(e, Event::Exists(_) | Event::Failed(_)),
            Phase::AwaitProbe => matches!(e, Event::Probed(_)),
            Phase::AwaitCreateDir => matches!(e, Event::Done | Event::Failed(_)),
            Phase::AwaitRemove => matches!(e, Event::Done | Event::Failed(_)),
            Phase::AwaitBind => matches!(e, Event::Done | Event::Failed(_)),
            Phase::Serving => false,
            Phase::Failed => false,
        }
    }

    /// Whether startup is over: serving, or failed.
    pub fn is_finished(&self) -> (r: bool)
        ensures
            r == (self.phase == Phase::Serving || self.phase == Phase::Failed),
    {
        self.phase == Phase::Serving || self.phase == Phase::Failed
    }

    fn fail(&mut self, e: DemoniteErr) -> (r: Action)
        ensures
            final(self)@ == moved(old(self)@, Phase::Failed),
            r@ == ActionView::Fail(e@),
    {
        self.phase = Phase::Failed;
        Action::Fail(e)
    }

    fn socket(&self) -> (r: String)
        ensures
            r@ == socket_of(self@),
    {
        socket_path_in(self.runtime_dir.as_str(), self.service.as_str())
    }

    /// Takes the outcome of the last action and gives the next one.
    pub fn step(&mut self, e: Event) -> (r: Action)
        requires
            accepts(old(self).phase, e@),
        ensures
            (final(self)@, r@) == next(old(self)@, e@),
    {
        if let Event::Failed(m) = e {
            return self.fail(DemoniteErr::Io(m));
        }
        match self.phase {
            Phase::AwaitVar => match e {
                Event::RuntimeDirVar(Ok(d)) => {
                    self.runtime_dir = d;
                    self.phase = Phase::AwaitRuntimeDir;
                    Action::InspectRuntimeDir(String::from_str(self.runtime_dir.as_str()))
                },
                Event::RuntimeDirVar(Err(m)) => self.fail(DemoniteErr::EnvVar(m)),
                _ => self.fail(DemoniteErr::Io(String::new())),
            },
            Phase::AwaitRuntimeDir => match e {
                Event::RuntimeDir { exists, mode } => match check_runtime_dir(exists, mode) {
                    Err(err) => self.fail(err),
                    Ok(()) => {
                        self.phase = Phase::AwaitProtocolDir;
                        Action::CheckExists(protocol_dir_path(self.runtime_dir.as_str()))
                    },
                },
                _ => self.fail(DemoniteErr::Io(String::new())),
            },
            Phase::AwaitProtocolDir => {
                if let Event::Exists(true) = e {
                    self.phase = Phase::AwaitSocket;
                    Action::CheckExists(self.socket())
                } else {
                    self.phase = Phase::AwaitCreateDir;
                    Action::CreateDir(protocol_dir_path(self.runtime_dir.as_str()))
                }
            },
            Phase::AwaitCreateDir => {
                self.phase = Phase::AwaitSocket;
                Action::CheckExists(self.socket())
            },
            Phase::AwaitSocket => {
                if let Event::Exists(true) = e {
                    self.phase = Phase::AwaitProbe;
                    Action::Probe(self.socket())
                } else {
                    self.phase = Phase::AwaitBind;
                    Action::Bind(self.socket())
                }
            },
            Phase::AwaitProbe => match e {
                Event::Probed(ProbeOutcome::Connected) => self.fail(DemoniteErr::AlreadyRunning),
                Event::Probed(ProbeOutcome::Refused) => {
                    self.phase = Phase::AwaitRemove;
                    Action::RemoveFile(self.socket())
                },
                Event::Probed(ProbeOutcome::Failed(m)) => self.fail(DemoniteErr::Io(m)),
                _ => self.fail(DemoniteErr::Io(String::new())),
            },
            Phase::AwaitRemove => {
                self.phase = Phase::AwaitBind;
                Action::Bind(self.socket())
            },
            Phase::AwaitBind => {
                self.phase = Phase::Serving;
                Action::Serve(self.socket())
            },
            _ => Action::Fail(DemoniteErr::Io(String::new())),
        }
    }
}

/// The actions that follow the events `es` from the state `v`, in order.
pub open spec fn run(v: LaunchView, es: Seq<EventView>) -> Seq<ActionView>
    decreases es.len(),
{
    if es.len() == 0 {
        Seq::empty()
    } else {
        seq![next(v, es[0]).1] + run(next(v, es[0]).0, es.drop_first())
    }
}

/// The state after the events `es` from the state `v`.
pub open spec fn after(v: LaunchView, es: Seq<EventView>) -> LaunchView
    decreases es.len(),
{
    if es.len() == 0 {
        v
    } else {
        after(next(v, es[0]).0, es.drop_first())
    }
}

/// Whether the action changes the file system.
pub open spec fn touches_files(a: ActionView) -> bool {
    a is CreateDir || a is RemoveFile || a is Bind
}

/// Whether `e` reports a runtime directory that exists with owner-only bits.
pub open spec fn owner_only_dir(e: EventView) -> bool {
    e matches EventView::RuntimeDir { exists, mode } && exists && perm_bits(mode) == OWNER_ONLY
}

proof fn lemma_run_len(v: LaunchView, es: Seq<EventView>)
    ensures
        run(v, es).len() == es.len(),
    decreases es.len(),
{
    if es.len() > 0 {
        lemma_run_len(next(v, es[0]).0, es.drop_first());
    }
}

/// A failed startup stays failed: whatever events follow, every action is a
/// failure, so nothing is created, removed or bound.
pub proof fn lemma_failed_is_final(v: LaunchView, es: Seq<EventView>)
    requires
        v.phase == Phase::Failed,
    ensures
        run(v, es).len() == es.len(),
        forall|i: int| 0 <= i < es.len() ==> #[trigger] run(v, es)[i] is Fail,
        after(v, es) == v,
    decreases es.len(),
{
    lemma_run_len(v, es);
    if es.len() > 0 {
        lemma_failed_is_final(next(v, es[0]).0, es.drop_first());
        assert forall|i: int| 0 <= i < es.len() implies #[trigger] run(v, es)[i] is Fail by {
            if i > 0 {
                assert(run(v, es)[i] == run(next(v, es[0]).0, es.drop_first())[i - 1]);
            }
        }
    }
}

proof fn lemma_gate_from(v: LaunchView, es: Seq<EventView>, i: int)
    requires
        v.phase == Phase::AwaitVar || v.phase == Phase::AwaitRuntimeDir,
        0 <= i < es.len(),
        touches_files(run(v, es)[i]),
    ensures
        exists|j: int| 0 <= j < i && owner_only_dir(#[trigger] es[j]),
    decreases es.len(),
{
    lemma_run_len(v, es);
    let v1 = next(v, es[0]).0;
    let rest = es.drop_first();
    if owner_only_dir(es[0]) {
        if i == 0 {
            assert(!touches_files(run(v, es)[0]));
        }
        assert(owner_only_dir(es[0]));
    } else {
        assert(!touches_files(run(v, es)[0]));
        assert(run(v, es)[i] == run(v1, rest)[i - 1]);
        if v1.phase == Phase::Failed {
            lemma_failed_is_final(v1, rest);
        } else {
            lemma_gate_from(v1, rest, i - 1);
            let j = choose|j: int| 0 <= j < i - 1 && owner_only_dir(#[trigger] rest[j]);
            assert(es[j + 1] == rest[j]);
        }
    }
}

/// Startup creates, removes or binds nothing before the runtime directory has
/// been found to exist with exactly owner-only permission bits.
pub proof fn lemma_permission_gate(service: Seq<char>, es: Seq<EventView>, i: int)
    requires
        0 <= i < es.len(),
        touches_files(run(initial(service), es)[i]),
    ensures
        exists|j: int| 0 <= j < i && owner_only_dir(#[trigger] es[j]),
{
    lemma_gate_from(initial(service), es, i);
}

/// A runtime directory whose permission bits are not owner-only stops startup
/// with an error that carries the bits found.
pub proof fn lemma_bad_permissions_rejected(v: LaunchView, mode: u32)
    requires
        v.phase == Phase::AwaitRuntimeDir,
        perm_bits(mode) != OWNER_ONLY,
    ensures
        next(v, EventView::RuntimeDir { exists: true, mode }) == failed(
            v,
            ErrView::XdgRuntimeDirInvPerm(perm_bits(mode)),
        ),
{
}

/// An existing protocol directory is left as it is: startup goes on to the
/// socket path without creating anything. The directory is created only
/// where it was found missing.
pub proof fn lemma_existing_protocol_dir_kept(v: LaunchView, e: EventView)
    requires
        v.phase == Phase::AwaitProtocolDir,
    ensures
        next(v, EventView::Exists(true)) == (
            moved(v, Phase::AwaitSocket),
            ActionView::CheckExists(socket_of(v)),
        ),
        next(v, e).1 is CreateDir ==> e == EventView::Exists(false),
{
}

/// A socket file that refuses connections is stale: startup removes it, binds
/// a new socket at the same path and serves.
pub proof fn lemma_stale_socket_recovered(v: LaunchView)
    requires
        v.phase == Phase::AwaitSocket,
    ensures
        ({
            let es = seq![
                EventView::Exists(true),
                EventView::Refused,
                EventView::Done,
                EventView::Done,
            ];
            let p = socket_of(v);
            &&& run(v, es) == seq![
                ActionView::Probe(p),
                ActionView::RemoveFile(p),
                ActionView::Bind(p),
                ActionView::Serve(p),
            ]
            &&& after(v, es) == moved(v, Phase::Serving)
        }),
{
    let es = seq![EventView::Exists(true), EventView::Refused, EventView::Done, EventView::Done];
    let p = socket_of(v);
    let v1 = moved(v, Phase::AwaitProbe);
    let v2 = moved(v, Phase::AwaitRemove);
    let v3 = moved(v, Phase::AwaitBind);
    let v4 = moved(v, Phase::Serving);
    assert(es.drop_first() =~= seq![EventView::Refused, EventView::Done, EventView::Done]);
    assert(es.drop_first().drop_first() =~= seq![EventView::Done, EventView::Done]);
    assert(es.drop_first().drop_first().drop_first() =~= seq![EventView::Done]);
    assert(es.drop_first().drop_first().drop_first().drop_first() =~= Seq::<EventView>::empty());
    assert(run(v4, Seq::empty()) =~= Seq::<ActionView>::empty());
    assert(run(v3, seq![EventView::Done]) =~= seq![ActionView::Serve(p)]);
    assert(run(v2, seq![EventView::Done, EventView::Done]) =~= seq![
        ActionView::Bind(p),
        ActionView::Serve(p),
    ]);
    assert(run(v1, seq![EventView::Refused, EventView::Done, EventView::Done]) =~= seq![
        ActionView::RemoveFile(p),
        ActionView::Bind(p),
        ActionView::Serve(p),
    ]);
    assert(after(v4, Seq::empty()) == v4);
    assert(after(v3, seq![EventView::Done]) == v4);
    assert(after(v2, seq![EventView::Done, EventView::Done]) == v4);
    assert(after(v1, seq![EventView::Refused, EventView::Done, EventView::Done]) == v4);
    assert(after(v, es) == v4);
    assert(run(v, es) =~= seq![
        ActionView::Probe(p),
        ActionView::RemoveFile(p),
        ActionView::Bind(p),
        ActionView::Serve(p),
    ]);
}

/// A live instance on the socket path stops startup with `AlreadyRunning`,
/// and nothing is removed or bound afterwards. The socket file is removed only
/// after a connection to it was refused.
pub proof fn lemma_duplicate_rejected(v: LaunchView, e: EventView, es: Seq<EventView>)
    requires
        v.phase == Phase::AwaitProbe,
    ensures
        next(v, EventView::Connected) == failed(v, ErrView::AlreadyRunning),
        forall|i: int|
            0 <= i < es.len() ==> #[trigger] run(next(v, EventView::Connected).0, es)[i] is Fail,
        next(v, e).1 is RemoveFile ==> e == EventView::Refused,
{
    lemma_failed_is_final(next(v, EventView::Connected).0, es);
}

} // verus!
