use vstd::prelude::*;
use crate::config::{Config, ConfigView, default_config_view};

verus! {

/// Changes closer together than this (five seconds, in nanoseconds) after
/// a reload are ignored.
pub const RELOAD_DEBOUNCE_NANOS: u64 = 5_000_000_000;

/// How long one wait for a file notification lasts before it is retried.
pub const RECEIVE_TIMEOUT_SECS: u64 = 200;

/// Where the config watcher stands.
#[derive(Debug, Clone, Copy, PartialEq, Eq, Structural)]
pub enum WatchPhase {
    /// About to watch the config file for the first time.
    Starting,
    /// The file could not be watched; about to create it.
    CreatingFile,
    /// About to write the default configuration into the new file.
    WritingDefault,
    /// About to watch the newly written file.
    Rewatching,
    /// Waiting for file notifications.
    Listening,
    /// About to read and parse the changed file.
    Reloading,
    /// Done; nothing more happens.
    Stopped,
}

/// The outside work the watcher asks for next.
#[derive(Debug, Clone, Copy, PartialEq, Eq, Structural)]
pub enum WatchAction {
    /// Start watching the config file.
    Watch,
    /// Create the config file.
    CreateFile,
    /// Write the default configuration into the created file.
    WriteDefault,
    /// Unless shutdown was requested, wait up to `RECEIVE_TIMEOUT_SECS` for a notification.
    Receive,
    /// Open and parse the config file.
    Reload,
    /// End the watcher.
    Stop,
}

/// The kind of a file notification, as far as the watcher cares.
#[derive(Debug, Clone, Copy, PartialEq, Eq, Structural)]
pub enum ChangeKind {
    Create,
    Modify,
    Other,
}

/// What came back from the outside work.
#[derive(Debug)]
pub enum WatchEvent {
    /// Watching the file succeeded (`true`) or failed.
    Watched(bool),
    /// Creating the file succeeded or failed.
    FileCreated(bool),
    /// Writing the default configuration succeeded or failed.
    DefaultWritten(bool),
    /// Shutdown was requested before the next wait.
    Cancelled,
    /// A notification about the file arrived.
    Changed(ChangeKind),
    /// The notifier reported an error instead of a notification.
    NotifyFailed,
    /// No notification within the wait.
    TimedOut,
    /// The notifier is gone.
    Disconnected,
    /// The file was read and parsed (`Some`), or could not be.
    Reloaded(Option<Config>),
}

/// A watcher event as a mathematical value.
pub enum WatchEventView {
    Watched(bool),
    FileCreated(bool),
    DefaultWritten(bool),
    Cancelled,
    Changed(ChangeKind),
    NotifyFailed,
    TimedOut,
    Disconnected,
    Reloaded(Option<ConfigView>),
}

impl View for WatchEvent {
    type V = WatchEventView;

    open spec fn view(&self) -> WatchEventView {
        match self {
            WatchEvent::Watched(ok) => WatchEventView::Watched(*ok),
            WatchEvent::FileCreated(ok) => WatchEventView::FileCreated(*ok),
            WatchEvent::DefaultWritten(ok) => WatchEventView::DefaultWritten(*ok),
            WatchEvent::Cancelled => WatchEventView::Cancelled,
            WatchEvent::Changed(k) => WatchEventView::Changed(*k),
            WatchEvent::NotifyFailed => WatchEventView::NotifyFailed,
            WatchEvent::TimedOut => WatchEventView::TimedOut,
            WatchEvent::Disconnected => WatchEventView::Disconnected,
            WatchEvent::Reloaded(c) => WatchEventView::Reloaded(
                match c {
                    Some(c) => Some(c@),
                    None => None,
                },
            ),
        }
    }
}

/// What a step asks of the caller besides the next action.
#[derive(Debug, Clone, Copy, PartialEq, Eq, Structural)]
pub struct WatchOutput {
    /// The outside work to do next.
    pub action: WatchAction,
    /// Publish the watcher's configuration as the one in force.
    pub publish: bool,
    /// Count one error.
    pub count_error: bool,
}

/// The config-file watcher: its phase, the configuration it last
/// published, and the monotonic time (nanoseconds) of its last reload.
#[derive(Debug)]
pub struct ConfigWatcher {
    pub phase: WatchPhase,
    pub config: Config,
    pub last_reload: u64,
}

/// A watcher as a mathematical value.
pub struct WatcherView {
    pub phase: WatchPhase,
    pub config: ConfigView,
    pub last_reload: u64,
}

impl View for ConfigWatcher {
    type V = WatcherView;

    open spec fn view(&self) -> WatcherView {
        WatcherView { phase: self.phase, config: self.config@, last_reload: self.last_reload }
    }
}

/// The outside work each phase waits for.
pub open spec fn action_of(phase: WatchPhase) -> WatchAction {
    match phase {
        WatchPhase::Starting => WatchAction::Watch,
        WatchPhase::CreatingFile => WatchAction::CreateFile,
        WatchPhase::WritingDefault => WatchAction::WriteDefault,
        WatchPhase::Rewatching => WatchAction::Watch,
        WatchPhase::Listening => WatchAction::Receive,
        WatchPhase::Reloading => WatchAction::Reload,
        WatchPhase::Stopped => WatchAction::Stop,
    }
}

/// Only creations and modifications of the file lead to a reload.
pub open spec fn triggers_reload(kind: ChangeKind) -> bool {
    kind == ChangeKind::Create || kind == ChangeKind::Modify
}

/// More than five seconds have passed since `last`.
pub open spec fn quiet_period_over(last: u64, now: u64) -> bool {
    now > last + RELOAD_DEBOUNCE_NANOS
}

/// The same watcher in another phase.
pub open spec fn in_phase(s: WatcherView, phase: WatchPhase) -> WatcherView {
    WatcherView { phase, ..s }
}

/// One step of the watcher: the next state, whether to publish its
/// configuration, and whether to count an error. Events that the current
/// phase does not wait for change nothing.
pub open spec fn step_spec(s: WatcherView, e: WatchEventView, now: u64) -> (WatcherView, bool, bool) {
    let unchanged = (s, false, false);
    match s.phase {
        WatchPhase::Starting => match e {
            WatchEventView::Watched(true) => (
                WatcherView { phase: WatchPhase::Listening, last_reload: now, ..s },
                false,
                false,
            ),
            WatchEventView::Watched(false) => (in_phase(s, WatchPhase::CreatingFile), false, false),
            _ => unchanged,
        },
        WatchPhase::CreatingFile => match e {
            WatchEventView::FileCreated(true) => (in_phase(s, WatchPhase::WritingDefault), false, false),
            WatchEventView::FileCreated(false) => (in_phase(s, WatchPhase::Stopped), false, true),
            _ => unchanged,
        },
        WatchPhase::WritingDefault => match e {
            WatchEventView::DefaultWritten(true) => (
                WatcherView { phase: WatchPhase::Rewatching, config: default_config_view(), ..s },
                true,
                false,
            ),
            WatchEventView::DefaultWritten(false) => (in_phase(s, WatchPhase::Stopped), false, true),
            _ => unchanged,
        },
        WatchPhase::Rewatching => match e {
            WatchEventView::Watched(true) => (
                WatcherView { phase: WatchPhase::Listening, last_reload: now, ..s },
                false,
                false,
            ),
            WatchEventView::Watched(false) => (in_phase(s, WatchPhase::Stopped), false, true),
            _ => unchanged,
        },
        WatchPhase::Listening => match e {
            WatchEventView::Cancelled => (in_phase(s, WatchPhase::Stopped), false, false),
            WatchEventView::Disconnected => (in_phase(s, WatchPhase::Stopped), false, false),
            WatchEventView::Changed(kind) => if triggers_reload(kind) && quiet_period_over(
                s.last_reload,
                now,
            ) {
                (WatcherView { phase: WatchPhase::Reloading, last_reload: now, ..s }, false, false)
            } else {
                unchanged
            },
            _ => unchanged,
        },
        WatchPhase::Reloading => match e {
            WatchEventView::Reloaded(Some(c)) => (
                WatcherView { phase: WatchPhase::Listening, config: c, ..s },
                true,
                false,
            ),
            WatchEventView::Reloaded(None) => (in_phase(s, WatchPhase::Listening), false, true),
            _ => unchanged,
        },
        WatchPhase::Stopped => unchanged,
    }
}

impl ConfigWatcher {
    /// A watcher about to watch the file, holding the configuration in force.
    pub fn new(config: Config) -> (r: Self)
        ensures
            r@ == (WatcherView { phase: WatchPhase::Starting, config: config@, last_reload: 0 }),
    {
        ConfigWatcher { phase: WatchPhase::Starting, config, last_reload: 0 }
    }

    /// The outside work the watcher waits for.
    pub fn pending_action(&self) -> (r: WatchAction)
        ensures
            r == action_of(self.phase),
    {
        match self.phase {
            WatchPhase::Starting => WatchAction::Watch,
            WatchPhase::CreatingFile => WatchAction::CreateFile,
            WatchPhase::WritingDefault => WatchAction::WriteDefault,
            WatchPhase::Rewatching => WatchAction::Watch,
            WatchPhase::Listening => WatchAction::Receive,
            WatchPhase::Reloading => WatchAction::Reload,
            WatchPhase::Stopped => WatchAction::Stop,
        }
    }

    /// Feed the outcome of the pending work, observed at monotonic time
    /// `now` (nanoseconds), and learn what to do next.
    pub fn step(&mut self, event: WatchEvent, now: u64) -> (out: WatchOutput)
        ensures
            (final(self)@, out.publish, out.count_error) == step_spec(old(self)@, event@, now),
            out.action == action_of(final(self).phase),
    {
        let mut publish = false;
        let mut count_error = false;
        match self.phase {
            WatchPhase::Starting => match event {
                WatchEvent::Watched(true) => {
                    self.phase = WatchPhase::Listening;
                    self.last_reload = now;
                },
                WatchEvent::Watched(false) => {
                    self.phase = WatchPhase::CreatingFile;
                },
                _ => {},
            },
            WatchPhase::CreatingFile => match event {
                WatchEvent::FileCreated(true) => {
                    self.phase = WatchPhase::WritingDefault;
                },
                WatchEvent::FileCreated(false) => {
                    self.phase = WatchPhase::Stopped;
                    count_error = true;
                },
                _ => {},
            },
            WatchPhase::WritingDefault => match event {
                WatchEvent::DefaultWritten(true) => {
                    self.phase = WatchPhase::Rewatching;
                    self.config = Config::default();
                    publish = true;
                },
                WatchEvent::DefaultWritten(false) => {
                    self.phase = WatchPhase::Stopped;
                    count_error = true;
                },
                _ => {},
            },
            WatchPhase::Rewatching => match event {
                WatchEvent::Watched(true) => {
                    self.phase = WatchPhase::Listening;
                    self.last_reload = now;
                },
                WatchEvent::Watched(false) => {
                    self.phase = WatchPhase::Stopped;
                    count_error = true;
                },
                _ => {},
            },
            WatchPhase::Listening => match event {
                WatchEvent::Cancelled => {
                    self.phase = WatchPhase::Stopped;
                },
                WatchEvent::Disconnected => {
                    self.phase = WatchPhase::Stopped;
                },
                WatchEvent::Changed(kind) => {
                    let relevant = match kind {
                        ChangeKind::Create => true,
                        ChangeKind::Modify => true,
                        ChangeKind::Other => false,
                    };
                    if relevant && now.saturating_sub(self.last_reload) > RELOAD_DEBOUNCE_NANOS {
                        self.phase = WatchPhase::Reloading;
                        self.last_reload = now;
                    }
                },
                _ => {},
            },
            WatchPhase::Reloading => match event {
                WatchEvent::Reloaded(Some(c)) => {
                    self.phase = WatchPhase::Listening;
                    self.config = c;
                    publish = true;
                },
                WatchEvent::Reloaded(None) => {
                    self.phase = WatchPhase::Listening;
                    count_error = true;
                },
                _ => {},
            },
            WatchPhase::Stopped => {},
        }
        let action = self.pending_action();
        WatchOutput { action, publish, count_error }
    }
}

/// A reload that fails (the file cannot be opened or parsed) keeps the
/// configuration in force, counts one error, and goes back to listening.
pub proof fn law_failed_reload_keeps_config(s: WatcherView, now: u64)
    requires
        s.phase == WatchPhase::Reloading,
    ensures
        step_spec(s, WatchEventView::Reloaded(None), now) == (in_phase(s, WatchPhase::Listening), false, true),
        step_spec(s, WatchEventView::Reloaded(None), now).0.config == s.config,
{
}

/// A reload that succeeds publishes exactly the configuration that was read,
/// counts no error, and goes back to listening.
pub proof fn law_successful_reload_publishes(s: WatcherView, c: ConfigView, now: u64)
    requires
        s.phase == WatchPhase::Reloading,
    ensures
        step_spec(s, WatchEventView::Reloaded(Some(c)), now).0.config == c,
        step_spec(s, WatchEventView::Reloaded(Some(c)), now).0.phase == WatchPhase::Listening,
        step_spec(s, WatchEventView::Reloaded(Some(c)), now).1,
        !step_spec(s, WatchEventView::Reloaded(Some(c)), now).2,
{
}

/// A reload starts only while listening, on a creation or modification of
/// the file, more than five seconds after the previous reload (or after
/// listening began); the quiet period then restarts.
pub proof fn law_reload_needs_change_after_quiet_period(s: WatcherView, e: WatchEventView, now: u64)
    ensures
        ({
            let r = step_spec(s, e, now).0;
            r.phase == WatchPhase::Reloading && s.phase != WatchPhase::Reloading ==> {
                &&& s.phase == WatchPhase::Listening
                &&& e matches WatchEventView::Changed(kind) && triggers_reload(kind)
                &&& quiet_period_over(s.last_reload, now)
                &&& r.last_reload == now
            }
        }),
{
}

/// The configuration changes only when the step publishes it, and what is
/// published is either a configuration that was read successfully or the
/// default one written when the file was missing.
pub proof fn law_config_changes_only_by_publication(s: WatcherView, e: WatchEventView, now: u64)
    ensures
        ({
            let (r, publish, _) = step_spec(s, e, now);
            &&& !publish ==> r.config == s.config
            &&& publish ==> (e == WatchEventView::Reloaded(Some(r.config)) || (s.phase
                == WatchPhase::WritingDefault && r.config == default_config_view()))
        }),
{
}

/// An error is counted exactly when outside work the watcher waited for
/// failed: creating the file, writing the default, watching the new file,
/// or reloading. A failure while starting up ends the watcher.
pub proof fn law_errors_count_failures(s: WatcherView, e: WatchEventView, now: u64)
    ensures
        ({
            let (r, _, count_error) = step_spec(s, e, now);
            &&& count_error <==> {
                ||| s.phase == WatchPhase::CreatingFile && e == WatchEventView::FileCreated(false)
                ||| s.phase == WatchPhase::WritingDefault && e == WatchEventView::DefaultWritten(false)
                ||| s.phase == WatchPhase::Rewatching && e == WatchEventView::Watched(false)
                ||| s.phase == WatchPhase::Reloading && e == WatchEventView::Reloaded(None)
            }
            &&& count_error && s.phase != WatchPhase::Reloading ==> r.phase == WatchPhase::Stopped
        }),
{
}

/// Once stopped, the watcher stays stopped and does nothing more.
pub proof fn law_stopped_is_final(s: WatcherView, e: WatchEventView, now: u64)
    requires
        s.phase == WatchPhase::Stopped,
    ensures
        step_spec(s, e, now) == (s, false, false),
{
}

/// While listening, shutdown and a vanished notifier stop the watcher;
/// timeouts and notifier errors leave it listening unchanged.
pub proof fn law_listening_ends_only_on_shutdown_or_disconnect(s: WatcherView, e: WatchEventView, now: u64)
    requires
        s.phase == WatchPhase::Listening,
    ensures
        step_spec(s, e, now).0.phase == WatchPhase::Stopped <==> (e == WatchEventView::Cancelled
            || e == WatchEventView::Disconnected),
        e == WatchEventView::TimedOut || e == WatchEventView::NotifyFailed ==> step_spec(s, e, now)
            == (s, false, false),
{
}

/// The watcher after a run of events, each observed at its time.
pub open spec fn run(s: WatcherView, events: Seq<(WatchEventView, u64)>) -> WatcherView
    decreases events.len(),
{
    if events.len() == 0 {
        s
    } else {
        step_spec(run(s, events.drop_last()), events.last().0, events.last().1).0
    }
}

/// Whatever happens, the configuration in force is the one the watcher
/// started with, the default one, or one that was read and parsed
/// successfully: a broken file never becomes the configuration.
pub proof fn law_config_in_force_is_valid(s: WatcherView, events: Seq<(WatchEventView, u64)>)
    ensures
        ({
            let c = run(s, events).config;
            ||| c == s.config
            ||| c == default_config_view()
            ||| exists|i: int| 0 <= i < events.len() && #[trigger] events[i].0 == WatchEventView::Reloaded(Some(c))
        }),
    decreases events.len(),
{
    if events.len() > 0 {
        let prefix = events.drop_last();
        law_config_in_force_is_valid(s, prefix);
        let before = run(s, prefix);
        law_config_changes_only_by_publication(before, events.last().0, events.last().1);
        let c = run(s, events).config;
        if c != before.config {
            assert(events[events.len() - 1] == events.last());
        } else {
            if exists|i: int| 0 <= i < prefix.len() && #[trigger] prefix[i].0 == WatchEventView::Reloaded(Some(c)) {
                let i = choose|i: int| 0 <= i < prefix.len() && #[trigger] prefix[i].0 == WatchEventView::Reloaded(Some(c));
                assert(events[i] == prefix[i]);
            }
        }
    }
}

/// A stopped watcher stays stopped, unchanged, whatever follows.
pub proof fn law_stopped_forever(s: WatcherView, events: Seq<(WatchEventView, u64)>)
    requires
        s.phase == WatchPhase::Stopped,
    ensures
        run(s, events) == s,
    decreases events.len(),
{
    if events.len() > 0 {
        law_stopped_forever(s, events.drop_last());
    }
}

/// Step `i` of `events` is the first watch of the file, and it failed.
pub open spec fn watch_failed_at(s: WatcherView, events: Seq<(WatchEventView, u64)>, i: int) -> bool {
    &&& 0 <= i < events.len()
    &&& run(s, events.take(i)).phase == WatchPhase::Starting
    &&& events[i].0 == WatchEventView::Watched(false)
}

/// Step `j` of `events` created the missing config file.
pub open spec fn file_created_at(s: WatcherView, events: Seq<(WatchEventView, u64)>, j: int) -> bool {
    &&& 0 <= j < events.len()
    &&& run(s, events.take(j)).phase == WatchPhase::CreatingFile
    &&& events[j].0 == WatchEventView::FileCreated(true)
}

/// Step `k` of `events` wrote the default configuration into the new file.
pub open spec fn default_written_at(s: WatcherView, events: Seq<(WatchEventView, u64)>, k: int) -> bool {
    &&& 0 <= k < events.len()
    &&& run(s, events.take(k)).phase == WatchPhase::WritingDefault
    &&& events[k].0 == WatchEventView::DefaultWritten(true)
}

/// The first watch failed, then the file was created, then the default
/// configuration was written into it, in that order.
pub open spec fn default_file_written(s: WatcherView, events: Seq<(WatchEventView, u64)>) -> bool {
    exists|i: int, j: int, k: int|
        i < j < k && #[trigger] watch_failed_at(s, events, i) && #[trigger] file_created_at(s, events, j)
            && #[trigger] default_written_at(s, events, k)
}

proof fn lemma_take_of_prefix(events: Seq<(WatchEventView, u64)>, i: int)
    requires
        events.len() > 0,
        0 <= i <= events.len() - 1,
    ensures
        events.take(i) == events.drop_last().take(i),
        i < events.len() - 1 ==> events[i] == events.drop_last()[i],
{
    assert(events.take(i) =~= events.drop_last().take(i));
}

proof fn lemma_run_of_prefix(s: WatcherView, events: Seq<(WatchEventView, u64)>)
    requires
        events.len() > 0,
    ensures
        run(s, events.take(events.len() - 1)) == run(s, events.drop_last()),
{
    assert(events.take(events.len() - 1) =~= events.drop_last());
}

proof fn lemma_witness_extends(s: WatcherView, events: Seq<(WatchEventView, u64)>, i: int)
    requires
        events.len() > 0,
        0 <= i < events.len() - 1,
    ensures
        watch_failed_at(s, events.drop_last(), i) ==> watch_failed_at(s, events, i),
        file_created_at(s, events.drop_last(), i) ==> file_created_at(s, events, i),
        default_written_at(s, events.drop_last(), i) ==> default_written_at(s, events, i),
{
    lemma_take_of_prefix(events, i);
}

/// A watcher started by `new` reaches file creation only after its first
/// watch failed, and writing the default only after the file was created.
proof fn lemma_startup_history(s: WatcherView, events: Seq<(WatchEventView, u64)>)
    requires
        s.phase == WatchPhase::Starting,
    ensures
        run(s, events).phase == WatchPhase::CreatingFile ==> exists|i: int| #[trigger] watch_failed_at(s, events, i),
        run(s, events).phase == WatchPhase::WritingDefault ==> exists|i: int, j: int|
            i < j && #[trigger] watch_failed_at(s, events, i) && #[trigger] file_created_at(s, events, j),
    decreases events.len(),
{
    if events.len() > 0 {
        let prefix = events.drop_last();
        let last = events.len() - 1;
        lemma_startup_history(s, prefix);
        lemma_run_of_prefix(s, events);
        let before = run(s, prefix);
        let after = run(s, events);
        if after.phase == WatchPhase::CreatingFile {
            if before.phase == WatchPhase::CreatingFile {
                let i = choose|i: int| #[trigger] watch_failed_at(s, prefix, i);
                lemma_witness_extends(s, events, i);
            } else {
                assert(watch_failed_at(s, events, last));
            }
        }
        if after.phase == WatchPhase::WritingDefault {
            if before.phase == WatchPhase::WritingDefault {
                let (i, j) = choose|i: int, j: int|
                    i < j && #[trigger] watch_failed_at(s, prefix, i) && #[trigger] file_created_at(s, prefix, j);
                lemma_witness_extends(s, events, i);
                lemma_witness_extends(s, events, j);
            } else {
                let i = choose|i: int| #[trigger] watch_failed_at(s, prefix, i);
                lemma_witness_extends(s, events, i);
                assert(file_created_at(s, events, last));
            }
        }
    }
}

/// For a watcher started by `new`, the configuration in force at any
/// moment is the one it started with, one read and parsed in full from the
/// file, or the default, and the default only after the first watch failed,
/// the file was created and the default was written into it.
pub proof fn law_config_in_force_has_a_source(s: WatcherView, events: Seq<(WatchEventView, u64)>)
    requires
        s.phase == WatchPhase::Starting,
    ensures
        ({
            let c = run(s, events).config;
            ||| c == s.config
            ||| exists|i: int| 0 <= i < events.len() && #[trigger] events[i].0 == WatchEventView::Reloaded(Some(c))
            ||| c == default_config_view() && default_file_written(s, events)
        }),
    decreases events.len(),
{
    if events.len() > 0 {
        let prefix = events.drop_last();
        let last = events.len() - 1;
        law_config_in_force_has_a_source(s, prefix);
        lemma_run_of_prefix(s, events);
        let before = run(s, prefix);
        let (after, publish, _) = step_spec(before, events.last().0, events.last().1);
        law_config_changes_only_by_publication(before, events.last().0, events.last().1);
        let c = after.config;
        assert(events[last] == events.last());
        if !publish {
            assert(c == before.config);
            if exists|i: int| 0 <= i < prefix.len() && #[trigger] prefix[i].0 == WatchEventView::Reloaded(Some(c)) {
                let i = choose|i: int| 0 <= i < prefix.len() && #[trigger] prefix[i].0 == WatchEventView::Reloaded(Some(c));
                lemma_take_of_prefix(events, i);
            }
            if c == default_config_view() && default_file_written(s, prefix) {
                let (i, j, k) = choose|i: int, j: int, k: int|
                    i < j < k && #[trigger] watch_failed_at(s, prefix, i) && #[trigger] file_created_at(s, prefix, j)
                        && #[trigger] default_written_at(s, prefix, k);
                lemma_witness_extends(s, events, i);
                lemma_witness_extends(s, events, j);
                lemma_witness_extends(s, events, k);
                assert(default_file_written(s, events));
            }
        } else if before.phase == WatchPhase::WritingDefault {
            lemma_startup_history(s, prefix);
            let (i, j) = choose|i: int, j: int|
                i < j && #[trigger] watch_failed_at(s, prefix, i) && #[trigger] file_created_at(s, prefix, j);
            lemma_witness_extends(s, events, i);
            lemma_witness_extends(s, events, j);
            assert(default_written_at(s, events, last));
            assert(default_file_written(s, events));
        }
    }
}

/// While listening, a creation or modification of the file reloads it
/// exactly when more than five seconds have passed since the last reload
/// (or since listening began); the reload restarts that period. Otherwise
/// the notice changes nothing.
pub proof fn law_relevant_change_reloads_after_quiet_period(s: WatcherView, kind: ChangeKind, now: u64)
    requires
        s.phase == WatchPhase::Listening,
    ensures
        ({
            let relevant = kind == ChangeKind::Create || kind == ChangeKind::Modify;
            let quiet = now > s.last_reload + 5_000_000_000;
            let (r, publish, count_error) = step_spec(s, WatchEventView::Changed(kind), now);
            &&& relevant && quiet ==> r == (WatcherView {
                phase: WatchPhase::Reloading,
                config: s.config,
                last_reload: now,
            })
            &&& !(relevant && quiet) ==> r == s
            &&& !publish && !count_error
            &&& action_of(r.phase) == (if relevant && quiet {
                WatchAction::Reload
            } else {
                WatchAction::Receive
            })
        }),
{
}

/// The start-up path: a first watch that succeeds starts listening at once
/// (the quiet period begins now); one that fails creates the file, writes
/// the default configuration into it, publishes that default and watches
/// again; the second watch starting to listen likewise.
pub proof fn law_startup_path(s: WatcherView, now: u64)
    ensures
        s.phase == WatchPhase::Starting ==> step_spec(s, WatchEventView::Watched(true), now) == (
            WatcherView { phase: WatchPhase::Listening, config: s.config, last_reload: now },
            false,
            false,
        ),
        s.phase == WatchPhase::Starting ==> step_spec(s, WatchEventView::Watched(false), now) == (
            WatcherView { phase: WatchPhase::CreatingFile, config: s.config, last_reload: s.last_reload },
            false,
            false,
        ),
        s.phase == WatchPhase::CreatingFile ==> step_spec(s, WatchEventView::FileCreated(true), now) == (
            WatcherView { phase: WatchPhase::WritingDefault, config: s.config, last_reload: s.last_reload },
            false,
            false,
        ),
        s.phase == WatchPhase::WritingDefault ==> step_spec(s, WatchEventView::DefaultWritten(true), now) == (
            WatcherView { phase: WatchPhase::Rewatching, config: default_config_view(), last_reload: s.last_reload },
            true,
            false,
        ),
        s.phase == WatchPhase::Rewatching ==> step_spec(s, WatchEventView::Watched(true), now) == (
            WatcherView { phase: WatchPhase::Listening, config: s.config, last_reload: now },
            false,
            false,
        ),
{
}

/// The work each phase asks for: watching while starting or after writing
/// the default, creating and writing the file when it was missing,
/// receiving notices while listening, reading the file when reloading, and
/// nothing once stopped.
pub proof fn law_action_of_each_phase()
    ensures
        action_of(WatchPhase::Starting) == WatchAction::Watch,
        action_of(WatchPhase::CreatingFile) == WatchAction::CreateFile,
        action_of(WatchPhase::WritingDefault) == WatchAction::WriteDefault,
        action_of(WatchPhase::Rewatching) == WatchAction::Watch,
        action_of(WatchPhase::Listening) == WatchAction::Receive,
        action_of(WatchPhase::Reloading) == WatchAction::Reload,
        action_of(WatchPhase::Stopped) == WatchAction::Stop,
{
}

/// The watcher waits 200 s for each notice, and its quiet period after a
/// reload is five seconds.
pub proof fn law_watcher_timings()
    ensures
        RELOAD_DEBOUNCE_NANOS == 5_000_000_000,
        RECEIVE_TIMEOUT_SECS == 200,
{
}

/// A failed start-up step (creating the file, writing the default, or
/// watching the new file) stops the watcher, keeps the configuration in
/// force, publishes nothing and counts one error. Shutdown and a vanished
/// notifier stop a listening watcher quietly.
pub proof fn law_stopping_keeps_config(s: WatcherView, now: u64)
    ensures
        ({
            let stopped = WatcherView { phase: WatchPhase::Stopped, config: s.config, last_reload: s.last_reload };
            &&& s.phase == WatchPhase::CreatingFile ==> step_spec(s, WatchEventView::FileCreated(false), now)
                == (stopped, false, true)
            &&& s.phase == WatchPhase::WritingDefault ==> step_spec(s, WatchEventView::DefaultWritten(false), now)
                == (stopped, false, true)
            &&& s.phase == WatchPhase::Rewatching ==> step_spec(s, WatchEventView::Watched(false), now)
                == (stopped, false, true)
            &&& s.phase == WatchPhase::Listening ==> step_spec(s, WatchEventView::Cancelled, now)
                == (stopped, false, false)
            &&& s.phase == WatchPhase::Listening ==> step_spec(s, WatchEventView::Disconnected, now)
                == (stopped, false, false)
        }),
{
}

/// A reload answers with the file's content: a parsed configuration is
/// published as it was read, a failure keeps the configuration; either way
/// listening resumes with the quiet period unchanged.
pub proof fn law_reload_outcomes(s: WatcherView, c: ConfigView, now: u64)
    requires
        s.phase == WatchPhase::Reloading,
    ensures
        step_spec(s, WatchEventView::Reloaded(Some(c)), now) == (
            WatcherView { phase: WatchPhase::Listening, config: c, last_reload: s.last_reload },
            true,
            false,
        ),
        step_spec(s, WatchEventView::Reloaded(None), now) == (
            WatcherView { phase: WatchPhase::Listening, config: s.config, last_reload: s.last_reload },
            false,
            true,
        ),
{
}

} // verus!
