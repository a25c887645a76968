//! What a plugin record offers in each phase of its lifecycle.
//!
//! A record is `Declared`, then `Loaded`, then `Running`; stopping a running
//! record makes it `Loaded` again. Each phase adds operations to those of the
//! phase before. An operation asked of a record that has not reached its phase
//! fails or gives `None`; only [`RunningPlugin::instance`] and
//! [`RunningPlugin::instance_mut`] require the phase of their caller.
use crate::condition::{PluginStatus, StatusView};
use crate::dynamic::{load_result_view, start_result_view, LoadEvent, LoadProgress, RunProgress};
use crate::error::{result_view, PluginError};
use crate::record::RecordView;
use vstd::prelude::*;

verus! {

/// What can be asked of a record in every phase.
pub trait PluginInfo {
    spec fn name_text(&self) -> Seq<char>;

    spec fn path_text(&self) -> Seq<char>;

    spec fn status_view(&self) -> StatusView;

    fn name(&self) -> (r: &str)
        ensures
            r@ == self.name_text(),
    ;

    /// Where the plugin's code comes from, for a human reader.
    fn path(&self) -> (r: &str)
        ensures
            r@ == self.path_text(),
    ;

    fn status(&self) -> (r: PluginStatus)
        ensures
            r@ == self.status_view(),
    ;
}

/// A declared plugin: it can be loaded.
pub trait DeclaredPlugin<V, I>: PluginInfo + Sized {
    /// The mathematical value of the record, on which its lifecycle is
    /// defined.
    spec fn record(&self) -> RecordView<V, I>;

    /// Starts a load and says what the driver must do first, if anything.
    fn load(&mut self) -> (r: Result<LoadProgress, PluginError>)
        ensures
            (final(self).record(), load_result_view(r)) == old(self).record().load(),
    ;

    /// Resumes the load with the outcome of the latest request.
    fn load_resume(&mut self, event: LoadEvent<V>) -> (r: Result<LoadProgress, PluginError>)
        ensures
            (final(self).record(), load_result_view(r)) == old(self).record().load_resume(event@),
    ;

    /// The record with the operations of a loaded plugin, if it is loaded.
    fn loaded(&self) -> (r: Option<&Self>)
        ensures
            r == if self.record().is_loaded() {
                Some(self)
            } else {
                None
            },
    ;

    fn loaded_mut(&mut self) -> (r: Option<&mut Self>)
        ensures
            r is Some == old(self).record().is_loaded(),
            r matches Some(p) ==> *p == *old(self) && *final(self) == *final(p),
            r is None ==> *final(self) == *old(self),
    ;
}

/// A loaded plugin: it can be started.
pub trait LoadedPlugin<V, I>: DeclaredPlugin<V, I> {
    /// Starts a run and says whether the start routine must be called.
    fn run(&mut self) -> (r: Result<RunProgress, PluginError>)
        ensures
            (final(self).record(), result_view(r)) == old(self).record().run(),
    ;

    /// Resumes a run with what the start routine returned.
    fn run_resume(&mut self, started: Result<I, String>) -> (r: Result<RunProgress, PluginError>)
        ensures
            (final(self).record(), result_view(r)) == old(self).record().run_resume(
                start_result_view(started),
            ),
    ;

    /// The record with the operations of a running plugin, if it runs.
    fn running(&self) -> (r: Option<&Self>)
        ensures
            r == if self.record().is_running() {
                Some(self)
            } else {
                None
            },
    ;

    fn running_mut(&mut self) -> (r: Option<&mut Self>)
        ensures
            r is Some == old(self).record().is_running(),
            r matches Some(p) ==> *p == *old(self) && *final(self) == *final(p),
            r is None ==> *final(self) == *old(self),
    ;
}

/// A running plugin: it can be stopped, and its instance can be used.
pub trait RunningPlugin<V, I>: LoadedPlugin<V, I> {
    /// Discards the instance. Stopping a record that does not run changes
    /// nothing.
    fn stop(&mut self)
        ensures
            final(self).record() == old(self).record().stop(),
    ;

    fn instance(&self) -> (r: &I)
        requires
            self.record().is_running(),
        ensures
            Some(*r) == self.record().instance(),
    ;

    fn instance_mut(&mut self) -> (r: &mut I)
        requires
            old(self).record().is_running(),
        ensures
            Some(*r) == old(self).record().instance(),
            final(self).record() == old(self).record().with_instance(*final(r)),
    ;
}

} // verus!
