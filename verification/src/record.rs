//! One plugin record of either kind, and its mathematical value.
use crate::capability::{DeclaredPlugin, LoadedPlugin, PluginInfo, RunningPlugin};
use crate::condition::{PluginState, PluginStatus, StatusView};
use crate::dynamic::{
    load_result_view, start_result_view, DynamicPlugin, DynamicPluginView, LoadEvent,
    LoadEventView, LoadProgress, LoadProgressView, RunProgress,
};
use crate::error::{result_view, ErrorView, PluginError};
use crate::source::DynamicPluginSource;
use crate::static_plugin::{static_path, StaticPlugin, StaticPluginView};
use libloading::Library;
use vstd::prelude::*;

verus! {

/// A plugin record: compiled into the host, or backed by a shared library.
pub enum PluginRecord<V, I> {
    Static(StaticPlugin<V, I>),
    Dynamic(DynamicPlugin<V, I>),
}

/// Mathematical value of a [`PluginRecord`]. The lifecycle of a record is
/// defined on this value; the operations of the record compute it.
pub enum RecordView<V, I> {
    Static(StaticPluginView<V, I>),
    Dynamic(DynamicPluginView<V, I>),
}

impl<V, I> RecordView<V, I> {
    pub open spec fn name(self) -> Seq<char> {
        match self {
            RecordView::Static(p) => p.name,
            RecordView::Dynamic(p) => p.name,
        }
    }

    /// `<static>`, the resolved path of the loaded module, or `<not loaded>`.
    pub open spec fn path(self) -> Seq<char> {
        match self {
            RecordView::Static(p) => static_path(),
            RecordView::Dynamic(p) => p.path(),
        }
    }

    pub open spec fn state(self) -> PluginState {
        match self {
            RecordView::Static(p) => p.state(),
            RecordView::Dynamic(p) => p.state(),
        }
    }

    pub open spec fn status(self) -> StatusView {
        match self {
            RecordView::Static(p) => p.status(),
            RecordView::Dynamic(p) => p.status(),
        }
    }

    pub open spec fn is_loaded(self) -> bool {
        self.state() != PluginState::Declared
    }

    pub open spec fn is_running(self) -> bool {
        self.state() == PluginState::Running
    }

    /// The entry-point table, once the record is loaded.
    pub open spec fn vtable(self) -> Option<V> {
        match self {
            RecordView::Static(p) => Some(p.vtable),
            RecordView::Dynamic(p) => p.vtable(),
        }
    }

    /// The handle of the module that is loaded or waits at the compatibility
    /// gate.
    pub open spec fn library(self) -> Option<Library> {
        match self {
            RecordView::Static(p) => None,
            RecordView::Dynamic(p) => p.library(),
        }
    }

    pub open spec fn instance(self) -> Option<I> {
        match self {
            RecordView::Static(p) => p.instance,
            RecordView::Dynamic(p) => p.instance(),
        }
    }

    /// The record with its running instance replaced.
    pub open spec fn with_instance(self, instance: I) -> Self {
        match self {
            RecordView::Static(p) => RecordView::Static(p.with_instance(instance)),
            RecordView::Dynamic(p) => RecordView::Dynamic(p.with_instance(instance)),
        }
    }

    /// What `load` does to the record, and what it answers.
    pub open spec fn load(self) -> (Self, Result<LoadProgressView, ErrorView>) {
        match self {
            RecordView::Static(p) => (RecordView::Static(p.load().0), p.load().1),
            RecordView::Dynamic(p) => (RecordView::Dynamic(p.load().0), p.load().1),
        }
    }

    /// What `load_resume` does to the record, and what it answers.
    pub open spec fn load_resume(self, event: LoadEventView<V>) -> (
        Self,
        Result<LoadProgressView, ErrorView>,
    ) {
        match self {
            RecordView::Static(p) => (
                RecordView::Static(p.load_resume(event).0),
                p.load_resume(event).1,
            ),
            RecordView::Dynamic(p) => (
                RecordView::Dynamic(p.load_resume(event).0),
                p.load_resume(event).1,
            ),
        }
    }

    /// What `run` does to the record, and what it answers.
    pub open spec fn run(self) -> (Self, Result<RunProgress, ErrorView>) {
        match self {
            RecordView::Static(p) => (RecordView::Static(p.run().0), p.run().1),
            RecordView::Dynamic(p) => (RecordView::Dynamic(p.run().0), p.run().1),
        }
    }

    /// What `run_resume` does to the record, and what it answers.
    pub open spec fn run_resume(self, started: Result<I, Seq<char>>) -> (
        Self,
        Result<RunProgress, ErrorView>,
    ) {
        match self {
            RecordView::Static(p) => (
                RecordView::Static(p.run_resume(started).0),
                p.run_resume(started).1,
            ),
            RecordView::Dynamic(p) => (
                RecordView::Dynamic(p.run_resume(started).0),
                p.run_resume(started).1,
            ),
        }
    }

    /// The record after `stop`.
    pub open spec fn stop(self) -> Self {
        match self {
            RecordView::Static(p) => RecordView::Static(p.stop()),
            RecordView::Dynamic(p) => RecordView::Dynamic(p.stop()),
        }
    }
}

impl<V, I> View for PluginRecord<V, I> {
    type V = RecordView<V, I>;

    open spec fn view(&self) -> RecordView<V, I> {
        match self {
            PluginRecord::Static(p) => RecordView::Static(p@),
            PluginRecord::Dynamic(p) => RecordView::Dynamic(p@),
        }
    }
}

impl<V, I> PluginRecord<V, I> {
    pub fn state(&self) -> (r: PluginState)
        ensures
            r == self@.state(),
    {
        match self {
            PluginRecord::Static(p) => p.state(),
            PluginRecord::Dynamic(p) => p.state(),
        }
    }

    /// Whether this is the record's name.
    pub fn is_named(&self, name: &String) -> (r: bool)
        ensures
            r == (self@.name() == name@),
    {
        match self {
            PluginRecord::Static(p) => p.is_named(name),
            PluginRecord::Dynamic(p) => p.is_named(name),
        }
    }

    /// Where the module of a dynamic record is looked for.
    pub fn source(&self) -> (r: Option<&DynamicPluginSource>)
        ensures
            match self@ {
                RecordView::Static(p) => r is None,
                RecordView::Dynamic(p) => r matches Some(source) && source@ == p.source,
            },
    {
        match self {
            PluginRecord::Static(p) => None,
            PluginRecord::Dynamic(p) => Some(p.source()),
        }
    }

    /// The module that is loaded or waits at the compatibility gate, lent for
    /// the calls that a request asks for.
    pub fn library(&self) -> (r: Option<&Library>)
        ensures
            r == match self@.library() {
                Some(lib) => Some(&lib),
                None => None,
            },
    {
        match self {
            PluginRecord::Static(p) => None,
            PluginRecord::Dynamic(p) => p.library(),
        }
    }

    /// The entry-point table, once the record is loaded.
    pub fn vtable(&self) -> (r: Option<&V>)
        ensures
            r == match self@.vtable() {
                Some(vtable) => Some(&vtable),
                None => None,
            },
    {
        match self {
            PluginRecord::Static(p) => Some(p.vtable()),
            PluginRecord::Dynamic(p) => p.vtable(),
        }
    }
}

impl<V, I> PluginInfo for PluginRecord<V, I> {
    open spec fn name_text(&self) -> Seq<char> {
        self@.name()
    }

    open spec fn path_text(&self) -> Seq<char> {
        self@.path()
    }

    open spec fn status_view(&self) -> StatusView {
        self@.status()
    }

    fn name(&self) -> (r: &str) {
        match self {
            PluginRecord::Static(p) => p.name(),
            PluginRecord::Dynamic(p) => p.name(),
        }
    }

    fn path(&self) -> (r: &str) {
        match self {
            PluginRecord::Static(p) => p.path(),
            PluginRecord::Dynamic(p) => p.path(),
        }
    }

    fn status(&self) -> (r: PluginStatus) {
        match self {
            PluginRecord::Static(p) => p.status(),
            PluginRecord::Dynamic(p) => p.status(),
        }
    }
}

impl<V, I> DeclaredPlugin<V, I> for PluginRecord<V, I> {
    open spec fn record(&self) -> RecordView<V, I> {
        self@
    }

    fn load(&mut self) -> (r: Result<LoadProgress, PluginError>) {
        match self {
            PluginRecord::Static(p) => p.load(),
            PluginRecord::Dynamic(p) => p.load(),
        }
    }

    fn load_resume(&mut self, event: LoadEvent<V>) -> (r: Result<LoadProgress, PluginError>) {
        match self {
            PluginRecord::Static(p) => p.load_resume(event),
            PluginRecord::Dynamic(p) => p.load_resume(event),
        }
    }

    fn loaded(&self) -> (r: Option<&Self>) {
        if self.state() != PluginState::Declared {
            Some(self)
        } else {
            None
        }
    }

    fn loaded_mut(&mut self) -> (r: Option<&mut Self>) {
        if self.state() != PluginState::Declared {
            Some(self)
        } else {
            None
        }
    }
}

impl<V, I> LoadedPlugin<V, I> for PluginRecord<V, I> {
    fn run(&mut self) -> (r: Result<RunProgress, PluginError>) {
        match self {
            PluginRecord::Static(p) => p.run(),
            PluginRecord::Dynamic(p) => p.run(),
        }
    }

    fn run_resume(&mut self, started: Result<I, String>) -> (r: Result<RunProgress, PluginError>) {
        match self {
            PluginRecord::Static(p) => p.run_resume(started),
            PluginRecord::Dynamic(p) => p.run_resume(started),
        }
    }

    fn running(&self) -> (r: Option<&Self>) {
        if self.state() == PluginState::Running {
            Some(self)
        } else {
            None
        }
    }

    fn running_mut(&mut self) -> (r: Option<&mut Self>) {
        if self.state() == PluginState::Running {
            Some(self)
        } else {
            None
        }
    }
}

impl<V, I> RunningPlugin<V, I> for PluginRecord<V, I> {
    fn stop(&mut self) {
        match self {
            PluginRecord::Static(p) => p.stop(),
            PluginRecord::Dynamic(p) => p.stop(),
        }
    }

    fn instance(&self) -> (r: &I) {
        match self {
            PluginRecord::Static(p) => p.instance(),
            PluginRecord::Dynamic(p) => p.instance(),
        }
    }

    fn instance_mut(&mut self) -> (r: &mut I) {
        match self {
            PluginRecord::Static(p) => p.instance_mut(),
            PluginRecord::Dynamic(p) => p.instance_mut(),
        }
    }
}

} // verus!
