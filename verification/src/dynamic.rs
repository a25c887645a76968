//! A plugin backed by a shared library, and the protocol by which a driver
//! loads and starts it.
//!
//! Opening a library and calling into it cannot be done here. A load is
//! therefore a dialogue: [`DynamicPlugin::load`] and
//! [`DynamicPlugin::load_resume`] say what to do next, the driver does it and
//! hands back what happened. The record decides; it admits a module only
//! after the compatibility gate has passed, in order.
use crate::compatibility::{
    check_compatibility, check_loader_version, compatibility_verdict, loader_version_verdict,
    Compatibility, CompatibilityView, PluginLoaderVersion,
};
use crate::condition::{ConditionView, PluginCondition, PluginState, PluginStatus, StatusView};
use crate::error::{result_view, ErrorView, PluginError};
use crate::source::{
    request_result_view, DynamicPluginSource, LoadRequest, LoadRequestView, SourceView,
};
use crate::text::{lemma_strings_view_push, strings_view};
use libloading::Library;
use vstd::pervasive::unreached;
use vstd::prelude::*;
use vstd::string::StringExecFns;

verus! {

/// `libloading::Library`, the handle of an opened shared library, which
/// closes the library when it is dropped. A record owns the handle of its
/// module and lends it; nothing is claimed of what it holds.
#[verifier::external_type_specification]
#[verifier::external_body]
pub struct ExLibrary(Library);

/// The answer of the module that the compatibility gate waits for.
#[derive(Copy, Clone, Debug, PartialEq, Eq, Structural)]
pub enum GateCheck {
    LoaderVersion,
    Compatibility,
    EntryTable,
}

/// What happened to the latest [`LoadRequest`].
pub enum LoadEvent<V> {
    /// The candidate was opened; `path` is the resolved path of the file.
    Opened { lib: Library, path: String },
    /// The candidate could not be opened.
    OpenFailed { cause: String },
    /// The version that `get_plugin_loader_version` returned.
    LoaderVersion(PluginLoaderVersion),
    /// The record that `get_compatibility` returned, and the host's record
    /// for the same exchanged types, computed for this attempt.
    Compatibility { host: Compatibility, plugin: Compatibility },
    /// The entry-point table that `load_plugin` returned.
    EntryTable(V),
    /// The entry point asked for could not be resolved in the module.
    EntryPointFailure { cause: String },
}

/// Mathematical value of a [`LoadEvent`].
pub enum LoadEventView<V> {
    Opened { lib: Library, path: Seq<char> },
    OpenFailed { cause: Seq<char> },
    LoaderVersion(PluginLoaderVersion),
    Compatibility { host: CompatibilityView, plugin: CompatibilityView },
    EntryTable(V),
    EntryPointFailure { cause: Seq<char> },
}

impl<V> View for LoadEvent<V> {
    type V = LoadEventView<V>;

    open spec fn view(&self) -> LoadEventView<V> {
        match self {
            LoadEvent::Opened { lib, path } => LoadEventView::Opened { lib: *lib, path: path@ },
            LoadEvent::OpenFailed { cause } => LoadEventView::OpenFailed { cause: cause@ },
            LoadEvent::LoaderVersion(v) => LoadEventView::LoaderVersion(*v),
            LoadEvent::Compatibility { host, plugin } => LoadEventView::Compatibility {
                host: host@,
                plugin: plugin@,
            },
            LoadEvent::EntryTable(vtable) => LoadEventView::EntryTable(*vtable),
            LoadEvent::EntryPointFailure { cause } => LoadEventView::EntryPointFailure {
                cause: cause@,
            },
        }
    }
}

/// Where a load stands after a step.
#[derive(Debug, PartialEq, Eq)]
pub enum LoadProgress {
    /// The record is loaded; nothing is left to do.
    Loaded,
    /// The driver must carry out the request and resume with its outcome.
    Need(LoadRequest),
}

/// Mathematical value of a [`LoadProgress`].
#[verifier::ext_equal]
pub enum LoadProgressView {
    Loaded,
    Need(LoadRequestView),
}

impl View for LoadProgress {
    type V = LoadProgressView;

    open spec fn view(&self) -> LoadProgressView {
        match self {
            LoadProgress::Loaded => LoadProgressView::Loaded,
            LoadProgress::Need(request) => LoadProgressView::Need(request@),
        }
    }
}

/// Where a start stands after a step.
#[derive(Copy, Clone, Debug, PartialEq, Eq, Structural)]
pub enum RunProgress {
    /// The record holds a running instance.
    Running,
    /// The driver must call the start entry point with the record's name and
    /// the start arguments, and resume with what it returned.
    Start,
}

/// The result of a load step, by mathematical values.
pub open spec fn load_result_view(r: Result<LoadProgress, PluginError>) -> Result<
    LoadProgressView,
    ErrorView,
> {
    match r {
        Ok(progress) => Ok(progress@),
        Err(e) => Err(e@),
    }
}

/// The result of a start routine, by mathematical values.
pub open spec fn start_result_view<I>(r: Result<I, String>) -> Result<I, Seq<char>> {
    match r {
        Ok(instance) => Ok(instance),
        Err(message) => Err(message@),
    }
}

/// The warning recorded for a candidate path that could not be opened.
pub open spec fn open_warning(path: Seq<char>, cause: Seq<char>) -> Seq<char> {
    "Plugin "@ + path + " load fail: "@ + cause
}

/// The path reported for a record without a loaded module.
pub open spec fn not_loaded_path() -> Seq<char> {
    "<not loaded>"@
}

/// Phase of a dynamic record together with what it holds in that phase.
/// The first three variants are all `Declared`: no attempt in flight, a
/// candidate being opened, or a module opened and waiting at the
/// compatibility gate.
pub enum PhaseView<V, I> {
    Idle,
    Opening { next: nat, causes: Seq<Seq<char>> },
    Gate { lib: Library, path: Seq<char>, awaiting: GateCheck },
    Loaded { lib: Library, path: Seq<char>, vtable: V },
    Running { lib: Library, path: Seq<char>, vtable: V, instance: I },
}

/// Mathematical value of a [`DynamicPlugin`].
pub struct DynamicPluginView<V, I> {
    pub name: Seq<char>,
    pub condition: ConditionView,
    pub source: SourceView,
    pub phase: PhaseView<V, I>,
}

impl<V, I> DynamicPluginView<V, I> {
    /// The record as declared: nothing loaded, nothing recorded.
    pub open spec fn declared(name: Seq<char>, source: SourceView) -> Self {
        DynamicPluginView { name, condition: ConditionView::empty(), source, phase: PhaseView::Idle }
    }

    pub open spec fn state(self) -> PluginState {
        match self.phase {
            PhaseView::Loaded { .. } => PluginState::Loaded,
            PhaseView::Running { .. } => PluginState::Running,
            _ => PluginState::Declared,
        }
    }

    pub open spec fn is_loaded(self) -> bool {
        self.state() != PluginState::Declared
    }

    pub open spec fn is_running(self) -> bool {
        self.state() == PluginState::Running
    }

    /// The resolved path of the loaded module, or `<not loaded>`.
    pub open spec fn path(self) -> Seq<char> {
        match self.phase {
            PhaseView::Loaded { path, .. } => path,
            PhaseView::Running { path, .. } => path,
            _ => not_loaded_path(),
        }
    }

    pub open spec fn status(self) -> StatusView {
        StatusView { state: self.state(), condition: self.condition }
    }

    /// The handle of the module that is loaded or waits at the compatibility
    /// gate.
    pub open spec fn library(self) -> Option<Library> {
        match self.phase {
            PhaseView::Gate { lib, .. } => Some(lib),
            PhaseView::Loaded { lib, .. } => Some(lib),
            PhaseView::Running { lib, .. } => Some(lib),
            _ => None,
        }
    }

    /// The entry-point table of the loaded module.
    pub open spec fn vtable(self) -> Option<V> {
        match self.phase {
            PhaseView::Loaded { vtable, .. } => Some(vtable),
            PhaseView::Running { vtable, .. } => Some(vtable),
            _ => None,
        }
    }

    pub open spec fn instance(self) -> Option<I> {
        match self.phase {
            PhaseView::Running { instance, .. } => Some(instance),
            _ => None,
        }
    }

    pub open spec fn with_instance(self, instance: I) -> Self {
        match self.phase {
            PhaseView::Running { lib, path, vtable, instance: _ } => DynamicPluginView {
                phase: PhaseView::Running { lib, path, vtable, instance },
                ..self
            },
            _ => self,
        }
    }

    /// The record after an attempt ended in `error`: the error is recorded,
    /// whatever the attempt held is released, and the record is `Declared`.
    pub open spec fn failed(self, error: ErrorView) -> Self {
        DynamicPluginView {
            condition: self.condition.add_error(error.message()),
            phase: PhaseView::Idle,
            ..self
        }
    }

    /// Starts a load. A loaded record stays as it is. Otherwise the condition
    /// is cleared, an attempt in flight is abandoned, and the first candidate
    /// is requested; a source without candidates fails at once.
    pub open spec fn load(self) -> (Self, Result<LoadProgressView, ErrorView>) {
        if self.is_loaded() {
            (self, Ok(LoadProgressView::Loaded))
        } else {
            match self.source.first_request() {
                Ok(request) => (
                    DynamicPluginView {
                        condition: ConditionView::empty(),
                        phase: PhaseView::Opening { next: 0, causes: Seq::empty() },
                        ..self
                    },
                    Ok(LoadProgressView::Need(request)),
                ),
                Err(e) => (
                    DynamicPluginView {
                        condition: ConditionView::after_attempt::<LoadRequestView>(Err(e)),
                        phase: PhaseView::Idle,
                        ..self
                    },
                    Err(e),
                ),
            }
        }
    }

    /// Candidate `next` could not be opened for `cause`. Among paths the
    /// failure is recorded as a warning and the next path is requested; after
    /// the last candidate the load fails.
    pub open spec fn open_failed(self, next: nat, causes: Seq<Seq<char>>, cause: Seq<char>) -> (
        Self,
        Result<LoadProgressView, ErrorView>,
    ) {
        let causes = causes.push(cause);
        let warned = match self.source {
            SourceView::ByPaths { paths } if next < paths.len() => DynamicPluginView {
                condition: self.condition.add_warning(open_warning(paths[next as int], cause)),
                ..self
            },
            _ => self,
        };
        if next + 1 < self.source.candidates().len() {
            (
                DynamicPluginView { phase: PhaseView::Opening { next: next + 1, causes }, ..warned },
                Ok(LoadProgressView::Need(self.source.request((next + 1) as int))),
            )
        } else {
            let e = self.source.exhausted(causes);
            (warned.failed(e), Err(e))
        }
    }

    /// The module at the compatibility gate answered `event` while `awaiting`
    /// was expected. Each check passes on to the next request; the entry-point
    /// table is the last answer and makes the record `Loaded`. A failed check,
    /// an unresolved entry point and an answer out of turn end the attempt.
    pub open spec fn gate(
        self,
        lib: Library,
        path: Seq<char>,
        awaiting: GateCheck,
        event: LoadEventView<V>,
    ) -> (Self, Result<LoadProgressView, ErrorView>) {
        match (awaiting, event) {
            (GateCheck::LoaderVersion, LoadEventView::LoaderVersion(reported)) => {
                match loader_version_verdict(reported) {
                    Ok(_) => (
                        DynamicPluginView {
                            phase: PhaseView::Gate { lib, path, awaiting: GateCheck::Compatibility },
                            ..self
                        },
                        Ok(LoadProgressView::Need(LoadRequestView::ReadCompatibility)),
                    ),
                    Err(e) => (self.failed(e), Err(e)),
                }
            },
            (GateCheck::Compatibility, LoadEventView::Compatibility { host, plugin }) => {
                match compatibility_verdict(host, plugin) {
                    Ok(_) => (
                        DynamicPluginView {
                            phase: PhaseView::Gate { lib, path, awaiting: GateCheck::EntryTable },
                            ..self
                        },
                        Ok(LoadProgressView::Need(LoadRequestView::FetchEntryTable)),
                    ),
                    Err(e) => (self.failed(e), Err(e)),
                }
            },
            (GateCheck::EntryTable, LoadEventView::EntryTable(vtable)) => (
                DynamicPluginView { phase: PhaseView::Loaded { lib, path, vtable }, ..self },
                Ok(LoadProgressView::Loaded),
            ),
            (_, LoadEventView::EntryPointFailure { cause }) => {
                let e = ErrorView::EntryPointFailure { cause };
                (self.failed(e), Err(e))
            },
            _ => (self.failed(ErrorView::UnexpectedEvent), Err(ErrorView::UnexpectedEvent)),
        }
    }

    /// Resumes the load with the outcome of the latest request.
    pub open spec fn load_resume(self, event: LoadEventView<V>) -> (
        Self,
        Result<LoadProgressView, ErrorView>,
    ) {
        match self.phase {
            PhaseView::Opening { next, causes } => match event {
                LoadEventView::Opened { lib, path } => (
                    DynamicPluginView {
                        phase: PhaseView::Gate { lib, path, awaiting: GateCheck::LoaderVersion },
                        ..self
                    },
                    Ok(LoadProgressView::Need(LoadRequestView::ReadLoaderVersion)),
                ),
                LoadEventView::OpenFailed { cause } => self.open_failed(next, causes, cause),
                _ => (self.failed(ErrorView::UnexpectedEvent), Err(ErrorView::UnexpectedEvent)),
            },
            PhaseView::Gate { lib, path, awaiting } => self.gate(lib, path, awaiting, event),
            _ => (self, Err(ErrorView::UnexpectedEvent)),
        }
    }

    /// Starts a run: the condition is cleared; a record that is not loaded
    /// fails, a running one stays running, a loaded one asks for its start
    /// routine to be called.
    pub open spec fn run(self) -> (Self, Result<RunProgress, ErrorView>) {
        let outcome = match self.state() {
            PluginState::Declared => Err(ErrorView::NotLoaded { name: self.name }),
            PluginState::Loaded => Ok(RunProgress::Start),
            PluginState::Running => Ok(RunProgress::Running),
        };
        (DynamicPluginView { condition: ConditionView::after_attempt(outcome), ..self }, outcome)
    }

    /// Resumes a run with what the start routine returned. Only a record that
    /// is loaded and not running takes it: an instance makes it `Running`, a
    /// failure is recorded and leaves it `Loaded`.
    pub open spec fn run_resume(self, started: Result<I, Seq<char>>) -> (
        Self,
        Result<RunProgress, ErrorView>,
    ) {
        match self.phase {
            PhaseView::Loaded { lib, path, vtable } => match started {
                Ok(instance) => (
                    DynamicPluginView {
                        phase: PhaseView::Running { lib, path, vtable, instance },
                        ..self
                    },
                    Ok(RunProgress::Running),
                ),
                Err(message) => {
                    let e = ErrorView::StartFailure { message };
                    (
                        DynamicPluginView {
                            condition: self.condition.add_error(e.message()),
                            ..self
                        },
                        Err(e),
                    )
                },
            },
            PhaseView::Running { .. } => (self, Err(ErrorView::UnexpectedEvent)),
            _ => (self, Err(ErrorView::NotLoaded { name: self.name })),
        }
    }

    /// Discards the instance; the module stays loaded.
    pub open spec fn stop(self) -> Self {
        match self.phase {
            PhaseView::Running { lib, path, vtable, instance } => DynamicPluginView {
                phase: PhaseView::Loaded { lib, path, vtable },
                ..self
            },
            _ => self,
        }
    }
}

/// What a loaded record keeps of its module. The library handle stands last,
/// so that it is released after the table that points into it.
struct DynamicPluginStarter<V> {
    path: String,
    vtable: V,
    lib: Library,
}

/// In `Running` the instance stands first, so that it is dropped before the
/// module that produced it.
enum Phase<V, I> {
    Idle,
    Opening { next: usize, causes: Vec<String> },
    Gate { lib: Library, path: String, awaiting: GateCheck },
    Loaded { starter: DynamicPluginStarter<V> },
    Running { instance: I, starter: DynamicPluginStarter<V> },
}

impl<V, I> View for Phase<V, I> {
    type V = PhaseView<V, I>;

    closed spec fn view(&self) -> PhaseView<V, I> {
        match self {
            Phase::Idle => PhaseView::Idle,
            Phase::Opening { next, causes } => PhaseView::Opening {
                next: *next as nat,
                causes: strings_view(causes@),
            },
            Phase::Gate { lib, path, awaiting } => PhaseView::Gate {
                lib: *lib,
                path: path@,
                awaiting: *awaiting,
            },
            Phase::Loaded { starter } => PhaseView::Loaded {
                lib: starter.lib,
                path: starter.path@,
                vtable: starter.vtable,
            },
            Phase::Running { instance, starter } => PhaseView::Running {
                lib: starter.lib,
                path: starter.path@,
                vtable: starter.vtable,
                instance: *instance,
            },
        }
    }
}

/// A plugin backed by a shared library. It owns the module it loaded and
/// the instance that the module started.
pub struct DynamicPlugin<V, I> {
    name: String,
    condition: PluginCondition,
    source: DynamicPluginSource,
    phase: Phase<V, I>,
}

impl<V, I> View for DynamicPlugin<V, I> {
    type V = DynamicPluginView<V, I>;

    closed spec fn view(&self) -> DynamicPluginView<V, I> {
        DynamicPluginView {
            name: self.name@,
            condition: self.condition@,
            source: self.source@,
            phase: self.phase@,
        }
    }
}

impl<V, I> DynamicPlugin<V, I> {
    /// Declares a plugin; nothing is opened.
    pub fn new(name: String, source: DynamicPluginSource) -> (r: Self)
        ensures
            r@ == DynamicPluginView::<V, I>::declared(name@, source@),
    {
        DynamicPlugin { name, condition: PluginCondition::new(), source, phase: Phase::Idle }
    }

    pub fn name(&self) -> (r: &str)
        ensures
            r@ == self@.name,
    {
        self.name.as_str()
    }

    /// Whether this is the record's name.
    pub fn is_named(&self, name: &String) -> (r: bool)
        ensures
            r == (self@.name == name@),
    {
        self.name == *name
    }

    /// The resolved path of the loaded module, or `<not loaded>`.
    pub fn path(&self) -> (r: &str)
        ensures
            r@ == self@.path(),
    {
        match &self.phase {
            Phase::Loaded { starter } => starter.path.as_str(),
            Phase::Running { instance, starter } => starter.path.as_str(),
            _ => "<not loaded>",
        }
    }

    /// The phase. A record whose load is in flight is still `Declared`.
    pub fn state(&self) -> (r: PluginState)
        ensures
            r == self@.state(),
    {
        match &self.phase {
            Phase::Loaded { .. } => PluginState::Loaded,
            Phase::Running { .. } => PluginState::Running,
            _ => PluginState::Declared,
        }
    }

    /// The phase, with a copy of what the latest operation recorded.
    pub fn status(&self) -> (r: PluginStatus)
        ensures
            r@ == self@.status(),
    {
        PluginStatus { state: self.state(), condition: self.condition.clone() }
    }

    /// Where the module is looked for.
    pub fn source(&self) -> (r: &DynamicPluginSource)
        ensures
            r@ == self@.source,
    {
        &self.source
    }

    /// The module that is loaded or waits at the compatibility gate, lent for
    /// the calls that a request asks for.
    pub fn library(&self) -> (r: Option<&Library>)
        ensures
            r == match self@.library() {
                Some(lib) => Some(&lib),
                None => None,
            },
    {
        match &self.phase {
            Phase::Gate { lib, .. } => Some(lib),
            Phase::Loaded { starter } => Some(&starter.lib),
            Phase::Running { instance, starter } => Some(&starter.lib),
            _ => None,
        }
    }

    /// The entry-point table of the loaded module.
    pub fn vtable(&self) -> (r: Option<&V>)
        ensures
            r == match self@.vtable() {
                Some(vtable) => Some(&vtable),
                None => None,
            },
    {
        match &self.phase {
            Phase::Loaded { starter } => Some(&starter.vtable),
            Phase::Running { instance, starter } => Some(&starter.vtable),
            _ => None,
        }
    }

    /// Ends the attempt in flight with `error`.
    fn fail(&mut self, error: PluginError) -> (r: Result<LoadProgress, PluginError>)
        ensures
            final(self)@ == old(self)@.failed(error@),
            r == Err::<LoadProgress, PluginError>(error),
    {
        let message = error.message();
        self.condition.add_error(message.as_str());
        self.phase = Phase::Idle;
        Err(error)
    }

    /// Starts a load and says what the driver must do first. On a loaded
    /// record nothing is opened again and nothing changes.
    pub fn load(&mut self) -> (r: Result<LoadProgress, PluginError>)
        ensures
            (final(self)@, load_result_view(r)) == old(self)@.load(),
    {
        if self.state() != PluginState::Declared {
            return Ok(LoadProgress::Loaded);
        }
        self.phase = Phase::Idle;
        let source = &self.source;
        let attempt = || -> (r: Result<LoadRequest, PluginError>)
            ensures
                request_result_view(r) == source@.first_request(),
            {
                source.first_request()
            };
        let first = self.condition.catch_error(attempt);
        match first {
            Ok(request) => {
                self.phase = Phase::Opening { next: 0, causes: Vec::new() };
                assert(strings_view(Seq::<String>::empty()) =~= Seq::<Seq<char>>::empty());
                Ok(LoadProgress::Need(request))
            },
            Err(e) => Err(e),
        }
    }

    /// Candidate `next` could not be opened.
    fn open_failed(&mut self, next: usize, causes: Vec<String>, cause: String) -> (r: Result<
        LoadProgress,
        PluginError,
    >)
        ensures
            (final(self)@, load_result_view(r)) == old(self)@.open_failed(
                next as nat,
                strings_view(causes@),
                cause@,
            ),
    {
        let mut causes = causes;
        match &self.source {
            DynamicPluginSource::ByPaths(paths) => {
                if next < paths.len() {
                    let mut warning = String::from_str("Plugin ");
                    warning.append(paths[next].as_str());
                    warning.append(" load fail: ");
                    warning.append(cause.as_str());
                    self.condition.add_warning(warning.as_str());
                }
            },
            _ => {},
        }
        proof {
            lemma_strings_view_push(causes@, cause);
        }
        causes.push(cause);
        if next < usize::MAX && next + 1 < self.source.candidate_count() {
            let request = self.source.request(next + 1);
            self.phase = Phase::Opening { next: next + 1, causes };
            Ok(LoadProgress::Need(request))
        } else {
            let e = self.source.exhausted(causes);
            self.fail(e)
        }
    }

    /// The module at the compatibility gate answered `event`.
    fn gate(&mut self, lib: Library, path: String, awaiting: GateCheck, event: LoadEvent<V>) -> (r:
        Result<LoadProgress, PluginError>)
        ensures
            (final(self)@, load_result_view(r)) == old(self)@.gate(lib, path@, awaiting, event@),
    {
        match event {
            LoadEvent::LoaderVersion(reported) => match awaiting {
                GateCheck::LoaderVersion => match check_loader_version(reported) {
                    Ok(_) => {
                        self.phase = Phase::Gate { lib, path, awaiting: GateCheck::Compatibility };
                        Ok(LoadProgress::Need(LoadRequest::ReadCompatibility))
                    },
                    Err(e) => self.fail(e),
                },
                _ => self.fail(PluginError::UnexpectedEvent),
            },
            LoadEvent::Compatibility { host, plugin } => match awaiting {
                GateCheck::Compatibility => match check_compatibility(host, plugin) {
                    Ok(_) => {
                        self.phase = Phase::Gate { lib, path, awaiting: GateCheck::EntryTable };
                        Ok(LoadProgress::Need(LoadRequest::FetchEntryTable))
                    },
                    Err(e) => self.fail(e),
                },
                _ => self.fail(PluginError::UnexpectedEvent),
            },
            LoadEvent::EntryTable(vtable) => match awaiting {
                GateCheck::EntryTable => {
                    self.phase = Phase::Loaded { starter: DynamicPluginStarter { path, vtable, lib } };
                    Ok(LoadProgress::Loaded)
                },
                _ => self.fail(PluginError::UnexpectedEvent),
            },
            LoadEvent::EntryPointFailure { cause } => self.fail(
                PluginError::EntryPointFailure { cause },
            ),
            _ => self.fail(PluginError::UnexpectedEvent),
        }
    }

    /// Resumes the load with the outcome of the latest request and says what
    /// comes next. An event that answers no pending request is refused; if an
    /// attempt was in flight, it ends there.
    pub fn load_resume(&mut self, event: LoadEvent<V>) -> (r: Result<LoadProgress, PluginError>)
        ensures
            (final(self)@, load_result_view(r)) == old(self)@.load_resume(event@),
    {
        let mut phase = Phase::Idle;
        core::mem::swap(&mut self.phase, &mut phase);
        match phase {
            Phase::Opening { next, causes } => match event {
                LoadEvent::Opened { lib, path } => {
                    self.phase = Phase::Gate { lib, path, awaiting: GateCheck::LoaderVersion };
                    Ok(LoadProgress::Need(LoadRequest::ReadLoaderVersion))
                },
                LoadEvent::OpenFailed { cause } => self.open_failed(next, causes, cause),
                _ => self.fail(PluginError::UnexpectedEvent),
            },
            Phase::Gate { lib, path, awaiting } => self.gate(lib, path, awaiting, event),
            other => {
                self.phase = other;
                Err(PluginError::UnexpectedEvent)
            },
        }
    }

    /// The record itself if a module is loaded.
    pub fn loaded(&self) -> (r: Option<&Self>)
        ensures
            r == if self@.is_loaded() {
                Some(self)
            } else {
                None
            },
    {
        if self.state() != PluginState::Declared {
            Some(self)
        } else {
            None
        }
    }

    /// The record itself, for change, if a module is loaded.
    pub fn loaded_mut(&mut self) -> (r: Option<&mut Self>)
        ensures
            r is Some == old(self)@.is_loaded(),
            r matches Some(p) ==> *p == *old(self) && *final(self) == *final(p),
            r is None ==> *final(self) == *old(self),
    {
        if self.state() != PluginState::Declared {
            Some(self)
        } else {
            None
        }
    }

    /// Starts a run and says whether the start routine must be called.
    /// Whatever earlier operations recorded is cleared first.
    pub fn run(&mut self) -> (r: Result<RunProgress, PluginError>)
        ensures
            (final(self)@, result_view(r)) == old(self)@.run(),
    {
        let state = self.state();
        let name = &self.name;
        let attempt = || -> (r: Result<RunProgress, PluginError>)
            ensures
                result_view(r) == (match state {
                    PluginState::Declared => Err(ErrorView::NotLoaded { name: name@ }),
                    PluginState::Loaded => Ok(RunProgress::Start),
                    PluginState::Running => Ok(RunProgress::Running),
                }),
            {
                match state {
                    PluginState::Declared => Err(PluginError::NotLoaded { name: name.clone() }),
                    PluginState::Loaded => Ok(RunProgress::Start),
                    PluginState::Running => Ok(RunProgress::Running),
                }
            };
        self.condition.catch_error(attempt)
    }

    /// Resumes a run with what the start routine returned.
    pub fn run_resume(&mut self, started: Result<I, String>) -> (r: Result<
        RunProgress,
        PluginError,
    >)
        ensures
            (final(self)@, result_view(r)) == old(self)@.run_resume(start_result_view(started)),
    {
        let mut phase = Phase::Idle;
        core::mem::swap(&mut self.phase, &mut phase);
        match phase {
            Phase::Loaded { starter } => match started {
                Ok(instance) => {
                    self.phase = Phase::Running { instance, starter };
                    Ok(RunProgress::Running)
                },
                Err(message) => {
                    self.phase = Phase::Loaded { starter };
                    let e = PluginError::StartFailure { message };
                    let text = e.message();
                    self.condition.add_error(text.as_str());
                    Err(e)
                },
            },
            Phase::Running { instance, starter } => {
                self.phase = Phase::Running { instance, starter };
                Err(PluginError::UnexpectedEvent)
            },
            other => {
                self.phase = other;
                Err(PluginError::NotLoaded { name: self.name.clone() })
            },
        }
    }

    /// The record itself if it holds a running instance.
    pub fn running(&self) -> (r: Option<&Self>)
        ensures
            r == if self@.is_running() {
                Some(self)
            } else {
                None
            },
    {
        if self.state() == PluginState::Running {
            Some(self)
        } else {
            None
        }
    }

    /// The record itself, for change, if it holds a running instance.
    pub fn running_mut(&mut self) -> (r: Option<&mut Self>)
        ensures
            r is Some == old(self)@.is_running(),
            r matches Some(p) ==> *p == *old(self) && *final(self) == *final(p),
            r is None ==> *final(self) == *old(self),
    {
        if self.state() == PluginState::Running {
            Some(self)
        } else {
            None
        }
    }

    /// Discards the running instance, if there is one. The module stays
    /// loaded, so that the plugin can be started again at once.
    pub fn stop(&mut self)
        ensures
            final(self)@ == old(self)@.stop(),
    {
        let mut phase = Phase::Idle;
        core::mem::swap(&mut self.phase, &mut phase);
        match phase {
            Phase::Running { instance, starter } => {
                self.phase = Phase::Loaded { starter };
            },
            other => {
                self.phase = other;
            },
        }
    }

    /// The running instance.
    pub fn instance(&self) -> (r: &I)
        requires
            self@.is_running(),
        ensures
            Some(*r) == self@.instance(),
    {
        match &self.phase {
            Phase::Running { instance, .. } => instance,
            _ => unreached(),
        }
    }

    /// The running instance, for change.
    pub fn instance_mut(&mut self) -> (r: &mut I)
        requires
            old(self)@.is_running(),
        ensures
            Some(*r) == old(self)@.instance(),
            final(self)@ == old(self)@.with_instance(*final(r)),
    {
        match &mut self.phase {
            Phase::Running { instance, .. } => instance,
            _ => unreached(),
        }
    }
}

} // verus!
