//! A plugin compiled into the host.
use crate::condition::{ConditionView, PluginCondition, PluginState, PluginStatus, StatusView};
use crate::dynamic::{
    load_result_view, start_result_view, LoadEvent, LoadEventView, LoadProgress, LoadProgressView,
    RunProgress,
};
use crate::error::{result_view, ErrorView, PluginError};
use vstd::pervasive::unreached;
use vstd::prelude::*;

verus! {

/// The path reported for a plugin compiled into the host.
pub open spec fn static_path() -> Seq<char> {
    "<static>"@
}

/// Mathematical value of a [`StaticPlugin`].
pub struct StaticPluginView<V, I> {
    pub name: Seq<char>,
    pub vtable: V,
    pub instance: Option<I>,
}

impl<V, I> StaticPluginView<V, I> {
    /// The record as declared: its code is at hand, nothing runs yet.
    pub open spec fn declared(name: Seq<char>, vtable: V) -> Self {
        StaticPluginView { name, vtable, instance: None }
    }

    /// There is no code to fetch: the record is `Loaded` from the start.
    pub open spec fn state(self) -> PluginState {
        if self.instance is Some {
            PluginState::Running
        } else {
            PluginState::Loaded
        }
    }

    pub open spec fn is_running(self) -> bool {
        self.instance is Some
    }

    /// Nothing is ever recorded for a static plugin.
    pub open spec fn status(self) -> StatusView {
        StatusView { state: self.state(), condition: ConditionView::empty() }
    }

    pub open spec fn with_instance(self, instance: I) -> Self {
        if self.instance is Some {
            StaticPluginView { instance: Some(instance), ..self }
        } else {
            self
        }
    }

    /// Loading succeeds at once and changes nothing.
    pub open spec fn load(self) -> (Self, Result<LoadProgressView, ErrorView>) {
        (self, Ok(LoadProgressView::Loaded))
    }

    /// No load is ever in flight, so every event is out of turn.
    pub open spec fn load_resume(self, event: LoadEventView<V>) -> (
        Self,
        Result<LoadProgressView, ErrorView>,
    ) {
        (self, Err(ErrorView::UnexpectedEvent))
    }

    /// A running record stays running; another asks for its start routine.
    pub open spec fn run(self) -> (Self, Result<RunProgress, ErrorView>) {
        if self.instance is Some {
            (self, Ok(RunProgress::Running))
        } else {
            (self, Ok(RunProgress::Start))
        }
    }

    /// Takes what the start routine returned, unless an instance runs
    /// already. A failure of the start routine is handed on as it is.
    pub open spec fn run_resume(self, started: Result<I, Seq<char>>) -> (
        Self,
        Result<RunProgress, ErrorView>,
    ) {
        if self.instance is Some {
            (self, Err(ErrorView::UnexpectedEvent))
        } else {
            match started {
                Ok(instance) => (
                    StaticPluginView { instance: Some(instance), ..self },
                    Ok(RunProgress::Running),
                ),
                Err(message) => (self, Err(ErrorView::StartFailure { message })),
            }
        }
    }

    /// Drops the instance, whether there is one or not.
    pub open spec fn stop(self) -> Self {
        StaticPluginView { instance: None, ..self }
    }
}

/// A plugin compiled into the host: a name, the entry-point table known at
/// build time, and the instance while it runs.
pub struct StaticPlugin<V, I> {
    name: String,
    instance: Option<I>,
    vtable: V,
}

impl<V, I> View for StaticPlugin<V, I> {
    type V = StaticPluginView<V, I>;

    closed spec fn view(&self) -> StaticPluginView<V, I> {
        StaticPluginView { name: self.name@, vtable: self.vtable, instance: self.instance }
    }
}

impl<V, I> StaticPlugin<V, I> {
    /// Declares a plugin compiled into the host.
    pub fn new(name: String, vtable: V) -> (r: Self)
        ensures
            r@ == StaticPluginView::<V, I>::declared(name@, vtable),
    {
        StaticPlugin { name, instance: None, vtable }
    }

    pub fn name(&self) -> (r: &str)
        ensures
            r@ == self@.name,
    {
        self.name.as_str()
    }

    /// Whether this is the record's name.
    pub fn is_named(&self, name: &String) -> (r: bool)
        ensures
            r == (self@.name == name@),
    {
        self.name == *name
    }

    /// Always `<static>`.
    pub fn path(&self) -> (r: &str)
        ensures
            r@ == static_path(),
    {
        "<static>"
    }

    /// `Loaded`, or `Running` while an instance runs.
    pub fn state(&self) -> (r: PluginState)
        ensures
            r == self@.state(),
    {
        if self.instance.is_some() {
            PluginState::Running
        } else {
            PluginState::Loaded
        }
    }

    /// The phase, with an empty condition.
    pub fn status(&self) -> (r: PluginStatus)
        ensures
            r@ == self@.status(),
    {
        PluginStatus { state: self.state(), condition: PluginCondition::new() }
    }

    /// The entry-point table.
    pub fn vtable(&self) -> (r: &V)
        ensures
            *r == self@.vtable,
    {
        &self.vtable
    }

    /// Succeeds at once: there is no code to fetch.
    pub fn load(&mut self) -> (r: Result<LoadProgress, PluginError>)
        ensures
            (final(self)@, load_result_view(r)) == old(self)@.load(),
    {
        Ok(LoadProgress::Loaded)
    }

    /// Refuses `event`: no load of a static plugin is ever in flight.
    pub fn load_resume(&mut self, event: LoadEvent<V>) -> (r: Result<LoadProgress, PluginError>)
        ensures
            (final(self)@, load_result_view(r)) == old(self)@.load_resume(event@),
    {
        Err(PluginError::UnexpectedEvent)
    }

    /// The record itself: a static plugin is always loaded.
    pub fn loaded(&self) -> (r: Option<&Self>)
        ensures
            r == Some(self),
    {
        Some(self)
    }

    /// The record itself, for change: a static plugin is always loaded.
    pub fn loaded_mut(&mut self) -> (r: Option<&mut Self>)
        ensures
            r matches Some(p) && *p == *old(self) && *final(self) == *final(p),
    {
        Some(self)
    }

    /// Says whether the start routine must be called.
    pub fn run(&mut self) -> (r: Result<RunProgress, PluginError>)
        ensures
            (final(self)@, result_view(r)) == old(self)@.run(),
    {
        if self.instance.is_some() {
            Ok(RunProgress::Running)
        } else {
            Ok(RunProgress::Start)
        }
    }

    /// Takes what the start routine returned. Its failure is handed on as it
    /// is; nothing is recorded.
    pub fn run_resume(&mut self, started: Result<I, String>) -> (r: Result<
        RunProgress,
        PluginError,
    >)
        ensures
            (final(self)@, result_view(r)) == old(self)@.run_resume(start_result_view(started)),
    {
        if self.instance.is_some() {
            Err(PluginError::UnexpectedEvent)
        } else {
            match started {
                Ok(instance) => {
                    self.instance = Some(instance);
                    Ok(RunProgress::Running)
                },
                Err(message) => Err(PluginError::StartFailure { message }),
            }
        }
    }

    /// The record itself if it holds a running instance.
    pub fn running(&self) -> (r: Option<&Self>)
        ensures
            r == if self@.is_running() {
                Some(self)
            } else {
                None
            },
    {
        if self.instance.is_some() {
            Some(self)
        } else {
            None
        }
    }

    /// The record itself, for change, if it holds a running instance.
    pub fn running_mut(&mut self) -> (r: Option<&mut Self>)
        ensures
            r is Some == old(self)@.is_running(),
            r matches Some(p) ==> *p == *old(self) && *final(self) == *final(p),
            r is None ==> *final(self) == *old(self),
    {
        if self.instance.is_some() {
            Some(self)
        } else {
            None
        }
    }

    /// Drops the instance, whether there is one or not.
    pub fn stop(&mut self)
        ensures
            final(self)@ == old(self)@.stop(),
    {
        self.instance = None;
    }

    /// The running instance.
    pub fn instance(&self) -> (r: &I)
        requires
            self@.is_running(),
        ensures
            Some(*r) == self@.instance,
    {
        match &self.instance {
            Some(instance) => instance,
            None => unreached(),
        }
    }

    /// The running instance, for change.
    pub fn instance_mut(&mut self) -> (r: &mut I)
        requires
            old(self)@.is_running(),
        ensures
            Some(*r) == old(self)@.instance,
            final(self)@ == old(self)@.with_instance(*final(r)),
    {
        match &mut self.instance {
            Some(instance) => instance,
            None => unreached(),
        }
    }
}

} // verus!
