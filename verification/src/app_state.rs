//! The installed apps, the commands sent to the app launcher and what it
//! answered.
use vstd::prelude::*;
use crate::color::{Color, default_app_accent, rgb};
use crate::text::{str_eq, with_decimal_suffix, decimal};

verus! {

/// A command for the app launcher.
pub enum AppCommand {
    /// Launch the app with this identifier.
    LaunchApp(String),
}

/// Why the app launcher could not start an app.
pub struct LaunchError {
    /// What went wrong.
    pub error: String,
    /// The command line the launcher tried.
    pub launch_command_entry: String,
}

/// What the app launcher answered to a launch command.
pub enum AppOpResult {
    /// The app's process was started.
    LaunchSpawned(String),
    /// The app could not be started.
    LaunchFailed(String, LaunchError),
}

impl AppOpResult {
    /// The app that the answer is about.
    pub open spec fn app_id(&self) -> Seq<char> {
        match self {
            AppOpResult::LaunchSpawned(id) => id@,
            AppOpResult::LaunchFailed(id, _) => id@,
        }
    }

    /// Whether the answer is about the app `app_id`.
    pub fn is_for_app(&self, app_id: &str) -> (r: bool)
        ensures
            r == (self.app_id() == app_id@),
    {
        match self {
            AppOpResult::LaunchSpawned(id) | AppOpResult::LaunchFailed(id, _) => str_eq(
                id.as_str(),
                app_id,
            ),
        }
    }
}

/// Whether the first answer about the app `app_id` among `results` is a
/// failure.
pub open spec fn first_result_failed(results: Seq<AppOpResult>, app_id: Seq<char>) -> bool
    decreases results.len(),
{
    if results.len() == 0 {
        false
    } else if results[0].app_id() == app_id {
        results[0] is LaunchFailed
    } else {
        first_result_failed(results.drop_first(), app_id)
    }
}

/// Whether the first answer about the app `app_id` among `results` is a
/// failure.
pub fn launch_failed(results: &Vec<AppOpResult>, app_id: &str) -> (failed: bool)
    ensures
        failed == first_result_failed(results@, app_id@),
{
    let mut i: usize = 0;
    assert(results@.skip(0) =~= results@);
    while i < results.len()
        invariant
            0 <= i <= results.len(),
            first_result_failed(results@, app_id@) == first_result_failed(
                results@.skip(i as int),
                app_id@,
            ),
        decreases results.len() - i,
    {
        assert(results@.skip(i as int).drop_first() =~= results@.skip(i + 1));
        if results[i].is_for_app(app_id) {
            return matches!(results[i], AppOpResult::LaunchFailed(_, _));
        }
        i = i + 1;
    }
    false
}

/// An installed app.
pub struct AppEntry {
    pub id: String,
    pub name: String,
    /// Path of the app's icon file, when it has one.
    pub icon: Option<String>,
    pub accent: Color,
}

impl AppEntry {
    /// The app's identifier.
    pub fn id(&self) -> (id: &str)
        ensures
            id@ == self.id@,
    {
        self.id.as_str()
    }
}

/// The installed apps and the launcher's answers not yet looked at.
pub struct AppsState {
    pub app_entries: Vec<AppEntry>,
    pub is_loading: bool,
    pub app_ops_results: Vec<AppOpResult>,
}

impl Default for AppsState {
    fn default() -> (state: Self)
        ensures
            state.app_entries@.len() == 0,
            state.is_loading,
            state.app_ops_results@.len() == 0,
    {
        AppsState { app_entries: Vec::new(), is_loading: true, app_ops_results: Vec::new() }
    }
}

impl AppsState {
    /// Takes the list of installed apps once it is known.
    pub fn set_app_entries(&mut self, entries: Vec<AppEntry>)
        ensures
            final(self).app_entries@ == entries@,
            !final(self).is_loading,
            final(self).app_ops_results@ == old(self).app_ops_results@,
    {
        self.is_loading = false;
        self.app_entries = entries;
    }

    /// Records the launcher's answer to a launch of the app `app_id`.
    pub fn record_launch_result(&mut self, app_id: String, result: Result<(), LaunchError>)
        ensures
            final(self).app_entries@ == old(self).app_entries@,
            final(self).is_loading == old(self).is_loading,
            final(self).app_ops_results@.len() == old(self).app_ops_results@.len() + 1,
            final(self).app_ops_results@.drop_last() == old(self).app_ops_results@,
            final(self).app_ops_results@.last() == match result {
                Ok(_) => AppOpResult::LaunchSpawned(app_id),
                Err(error) => AppOpResult::LaunchFailed(app_id, error),
            },
    {
        match result {
            Ok(()) => self.app_ops_results.push(AppOpResult::LaunchSpawned(app_id)),
            Err(error) => self.app_ops_results.push(AppOpResult::LaunchFailed(app_id, error)),
        }
        assert(self.app_ops_results@.drop_last() =~= old(self).app_ops_results@);
    }

    /// Takes all the launcher's answers, leaving none behind.
    pub fn drain_results(&mut self) -> (results: Vec<AppOpResult>)
        ensures
            results@ == old(self).app_ops_results@,
            final(self).app_ops_results@.len() == 0,
            final(self).app_entries@ == old(self).app_entries@,
            final(self).is_loading == old(self).is_loading,
    {
        let mut results = Vec::new();
        std::mem::swap(&mut results, &mut self.app_ops_results);
        results
    }
}

/// The identifier of the `index`th app of the benchmark.
pub open spec fn benchmark_app_id(index: nat) -> Seq<char> {
    "benchmark-app-"@ + decimal(index)
}

/// A grid of generated apps, for measuring how fast the app grid pages.
pub struct AppGridBenchmarkApp {
    app_count: usize,
}

impl AppGridBenchmarkApp {
    /// The number of generated apps.
    pub closed spec fn spec_app_count(&self) -> usize {
        self.app_count
    }

    /// A benchmark with `app_count` generated apps.
    pub fn new(app_count: usize) -> (app: Self)
        ensures
            app.spec_app_count() == app_count,
    {
        Self { app_count }
    }

    /// The number of generated apps.
    pub fn app_count(&self) -> (count: usize)
        ensures
            count == self.spec_app_count(),
    {
        self.app_count
    }

    /// The apps state that the benchmark starts from: its generated apps,
    /// loaded.
    pub fn initial_apps_state(&self) -> (state: AppsState)
        ensures
            state.app_entries@.len() == self.spec_app_count(),
            forall|i: int|
                0 <= i < self.spec_app_count() ==> #[trigger] state.app_entries@[i].id@
                    == benchmark_app_id(i as nat) && state.app_entries@[i].name@
                    == benchmark_app_id(i as nat) && state.app_entries@[i].icon is None
                    && state.app_entries@[i].accent == rgb(0, 125, 215),
            !state.is_loading,
            state.app_ops_results@.len() == 0,
    {
        let mut state = AppsState::default();
        let apps = benchmark_apps(self.app_count);
        let ghost generated = apps@;
        state.set_app_entries(apps);
        assert forall|i: int| 0 <= i < self.spec_app_count() implies #[trigger] state.app_entries@[i].id@
            == benchmark_app_id(i as nat) && state.app_entries@[i].name@
            == benchmark_app_id(i as nat) && state.app_entries@[i].icon is None
            && state.app_entries@[i].accent == rgb(0, 125, 215) by {
            assert(state.app_entries@[i] == generated[i]);
            assert(generated[i].id@ == benchmark_app_id(i as nat));
        }
        state
    }
}

impl Default for AppGridBenchmarkApp {
    fn default() -> (app: Self)
        ensures
            app.spec_app_count() == 72,
    {
        Self { app_count: 72 }
    }
}

/// `app_count` generated apps, named after their position.
pub fn benchmark_apps(app_count: usize) -> (apps: Vec<AppEntry>)
    ensures
        apps@.len() == app_count,
        forall|i: int|
            0 <= i < app_count ==> #[trigger] apps@[i].id@ == benchmark_app_id(i as nat)
                && apps@[i].name@ == benchmark_app_id(i as nat) && apps@[i].icon is None
                && apps@[i].accent == rgb(0, 125, 215),
{
    let mut apps: Vec<AppEntry> = Vec::new();
    let mut index: usize = 0;
    while index < app_count
        invariant
            0 <= index <= app_count,
            apps@.len() == index,
            forall|i: int|
                0 <= i < index ==> #[trigger] apps@[i].id@ == benchmark_app_id(i as nat)
                    && apps@[i].name@ == benchmark_app_id(i as nat) && apps@[i].icon is None
                    && apps@[i].accent == rgb(0, 125, 215),
        decreases app_count - index,
    {
        let id = with_decimal_suffix("benchmark-app-", index);
        let name = id.clone();
        let ghost before = apps@;
        apps.push(AppEntry { id, name, icon: None, accent: default_app_accent() });
        assert(forall|i: int| 0 <= i < index ==> apps@[i] == before[i]);
        assert(apps@[index as int].id@ == benchmark_app_id(index as nat));
        index = index + 1;
    }
    apps
}

} // verus!
