//! When to reload the configuration file: after the file was written or
//! replaced, once no file event has come for a quiet period, so that an
//! editor that writes in several steps causes a single reload.
use vstd::prelude::*;

verus! {

/// How long the directory must stay quiet before a reload, in milliseconds.
pub const RELOAD_QUIET_MS: u64 = 500;

/// The kind of a file system event, as far as reloading cares.
#[derive(Clone, Copy, Debug, PartialEq, Eq, Structural)]
pub enum FsEventKind {
    Modify,
    Create,
    Other,
}

/// An event of kind `kind` calls for a reload: the configuration file was
/// modified or created.
pub open spec fn calls_for_reload(kind: FsEventKind, touches_config: bool) -> bool {
    touches_config && (kind == FsEventKind::Modify || kind == FsEventKind::Create)
}

/// Only a modify or create event on the configuration file calls for a
/// reload: an event on another file, or of another kind, never does.
pub proof fn law_reload_kinds(kind: FsEventKind, touches_config: bool)
    ensures
        calls_for_reload(kind, touches_config) ==> touches_config,
        !calls_for_reload(FsEventKind::Other, touches_config),
        calls_for_reload(FsEventKind::Modify, true),
        calls_for_reload(FsEventKind::Create, true),
        !calls_for_reload(kind, false),
{
}

/// One step of a watch: a file event (its kind, and whether it touched the
/// configuration file), or a quiet period that passed with no event.
#[derive(Clone, Copy, Debug, PartialEq, Eq, Structural)]
pub enum WatchStep {
    Event(FsEventKind, bool),
    Quiet,
}

/// `step` is an event that calls for a reload.
pub open spec fn is_reload_trigger(step: WatchStep) -> bool {
    match step {
        WatchStep::Event(kind, touches_config) => calls_for_reload(kind, touches_config),
        WatchStep::Quiet => false,
    }
}

/// After the run of steps `steps`, a reload is due: some event in it calls
/// for a reload and no quiet period came after that event.
pub open spec fn reload_due(steps: Seq<WatchStep>) -> bool {
    exists|j: int|
        0 <= j < steps.len() && #[trigger] is_reload_trigger(steps[j]) && forall|k: int|
            j < k < steps.len() ==> #[trigger] steps[k] != WatchStep::Quiet
}

/// No reload is due before any step.
pub proof fn law_nothing_due_at_start()
    ensures
        !reload_due(Seq::<WatchStep>::empty()),
{
}

/// A reload is due after one more event exactly where one was due before
/// or the event calls for one.
pub proof fn law_event_step(steps: Seq<WatchStep>, kind: FsEventKind, touches_config: bool)
    ensures
        reload_due(steps.push(WatchStep::Event(kind, touches_config))) == (reload_due(steps)
            || calls_for_reload(kind, touches_config)),
{
    let t = steps.push(WatchStep::Event(kind, touches_config));
    if reload_due(steps) {
        let j = choose|j: int|
            0 <= j < steps.len() && #[trigger] is_reload_trigger(steps[j]) && forall|k: int|
                j < k < steps.len() ==> #[trigger] steps[k] != WatchStep::Quiet;
        assert(t[j] == steps[j]);
        assert forall|k: int| j < k < t.len() implies #[trigger] t[k] != WatchStep::Quiet by {
            if k < steps.len() {
                assert(t[k] == steps[k]);
            }
        }
        assert(is_reload_trigger(t[j]));
    }
    if calls_for_reload(kind, touches_config) {
        assert(is_reload_trigger(t[steps.len() as int]));
    }
    if reload_due(t) {
        let j = choose|j: int|
            0 <= j < t.len() && #[trigger] is_reload_trigger(t[j]) && forall|k: int|
                j < k < t.len() ==> #[trigger] t[k] != WatchStep::Quiet;
        if j < steps.len() {
            assert(steps[j] == t[j]);
            assert forall|k: int| j < k < steps.len() implies #[trigger] steps[k]
                != WatchStep::Quiet by {
                assert(t[k] == steps[k]);
            }
            assert(is_reload_trigger(steps[j]));
        }
    }
}

/// An event that does not touch the configuration file, or that is neither
/// a modification nor a creation, leaves unchanged whether a reload is due.
pub proof fn law_irrelevant_event_changes_nothing(
    steps: Seq<WatchStep>,
    kind: FsEventKind,
    touches_config: bool,
)
    requires
        !touches_config || kind == FsEventKind::Other,
    ensures
        reload_due(steps.push(WatchStep::Event(kind, touches_config))) == reload_due(steps),
{
    law_event_step(steps, kind, touches_config);
}

/// No reload is due right after a quiet period.
pub proof fn law_quiet_step(steps: Seq<WatchStep>)
    ensures
        !reload_due(steps.push(WatchStep::Quiet)),
{
    let t = steps.push(WatchStep::Quiet);
    if reload_due(t) {
        let j = choose|j: int|
            0 <= j < t.len() && #[trigger] is_reload_trigger(t[j]) && forall|k: int|
                j < k < t.len() ==> #[trigger] t[k] != WatchStep::Quiet;
        assert(t[t.len() - 1] == WatchStep::Quiet);
    }
}

/// Whether a reload is due once the directory is quiet, together with the
/// steps of the watch so far.
pub struct ReloadDebouncer {
    pending: bool,
    history: Ghost<Seq<WatchStep>>,
}

impl ReloadDebouncer {
    #[verifier::type_invariant]
    spec fn follows_history(self) -> bool {
        self.pending == reload_due(self.history@)
    }

    /// A reload is due.
    pub closed spec fn is_pending(&self) -> bool {
        self.pending
    }

    /// The steps of the watch so far: each file event and each quiet period.
    pub closed spec fn history(&self) -> Seq<WatchStep> {
        self.history@
    }

    /// A debouncer with no step yet and no reload due.
    pub fn new() -> (r: Self)
        ensures
            !r.is_pending(),
            r.history() == Seq::<WatchStep>::empty(),
    {
        proof {
            law_nothing_due_at_start();
        }
        ReloadDebouncer { pending: false, history: Ghost(Seq::empty()) }
    }

    /// Whether a reload is due, so that the quiet timer must run: whether
    /// an event that calls for a reload came since the last quiet period.
    pub fn reload_pending(&self) -> (r: bool)
        ensures
            r == self.is_pending(),
            r == reload_due(self.history()),
    {
        proof {
            use_type_invariant(self);
        }
        self.pending
    }

    /// A file event came, of kind `kind`, on the configuration file where
    /// `touches_config`; it restarts the quiet period.
    pub fn on_event(&mut self, kind: FsEventKind, touches_config: bool)
        ensures
            final(self).history() == old(self).history().push(WatchStep::Event(kind, touches_config)),
            final(self).is_pending() == reload_due(final(self).history()),
            final(self).is_pending() == (old(self).is_pending() || calls_for_reload(
                kind,
                touches_config,
            )),
            !touches_config ==> final(self).is_pending() == old(self).is_pending(),
            kind == FsEventKind::Other ==> final(self).is_pending() == old(self).is_pending(),
            touches_config && kind != FsEventKind::Other ==> final(self).is_pending(),
    {
        proof {
            use_type_invariant(&*self);
            law_event_step(self.history@, kind, touches_config);
        }
        let relevant = match kind {
            FsEventKind::Modify => true,
            FsEventKind::Create => true,
            FsEventKind::Other => false,
        };
        let pending = self.pending || (relevant && touches_config);
        let ghost history = self.history@.push(WatchStep::Event(kind, touches_config));
        *self = ReloadDebouncer { pending, history: Ghost(history) };
    }

    /// The quiet period passed with no event: returns whether to reload
    /// now, which is whether an event that calls for a reload came since
    /// the last quiet period; no reload is due afterwards.
    pub fn on_quiet(&mut self) -> (reload: bool)
        ensures
            reload == old(self).is_pending(),
            reload == reload_due(old(self).history()),
            final(self).history() == old(self).history().push(WatchStep::Quiet),
            !final(self).is_pending(),
    {
        proof {
            use_type_invariant(&*self);
            law_quiet_step(self.history@);
        }
        let reload = self.pending;
        let ghost history = self.history@.push(WatchStep::Quiet);
        *self = ReloadDebouncer { pending: false, history: Ghost(history) };
        reload
    }
}

} // verus!
