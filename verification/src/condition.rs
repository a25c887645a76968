//! Phase and diagnostics of a plugin record.
use crate::error::{result_view, ErrorView, PluginError};
use crate::text::{clone_strings, lemma_strings_view_push, strings_view};
use vstd::prelude::*;

verus! {

/// Lifecycle phase of a plugin record.
#[derive(Copy, Clone, Debug, PartialEq, Eq, Structural)]
pub enum PluginState {
    Declared,
    Loaded,
    Running,
}

impl PluginState {
    /// Whether a record in this phase has come at least as far as `least`:
    /// `Running` comes after `Loaded`, and `Loaded` after `Declared`.
    pub open spec fn reaches(self, least: PluginState) -> bool {
        match least {
            PluginState::Declared => true,
            PluginState::Loaded => self != PluginState::Declared,
            PluginState::Running => self == PluginState::Running,
        }
    }

    /// Whether a record in this phase has come at least as far as `least`.
    pub fn has_reached(self, least: PluginState) -> (r: bool)
        ensures
            r == self.reaches(least),
    {
        match least {
            PluginState::Declared => true,
            PluginState::Loaded => self != PluginState::Declared,
            PluginState::Running => self == PluginState::Running,
        }
    }
}

/// Warnings and errors gathered by the latest lifecycle operation of one
/// plugin record.
#[derive(Debug, PartialEq, Eq)]
pub struct PluginCondition {
    warnings: Vec<String>,
    errors: Vec<String>,
}

/// Mathematical value of a [`PluginCondition`]: the two lists of messages, in
/// the order in which they were added.
pub struct ConditionView {
    pub warnings: Seq<Seq<char>>,
    pub errors: Seq<Seq<char>>,
}

impl ConditionView {
    pub open spec fn empty() -> Self {
        ConditionView { warnings: Seq::empty(), errors: Seq::empty() }
    }

    pub open spec fn add_warning(self, warning: Seq<char>) -> Self {
        ConditionView { warnings: self.warnings.push(warning), errors: self.errors }
    }

    pub open spec fn add_error(self, error: Seq<char>) -> Self {
        ConditionView { warnings: self.warnings, errors: self.errors.push(error) }
    }

    /// The condition left by an attempt that started from a cleared condition
    /// and ended in `outcome`.
    pub open spec fn after_attempt<T>(outcome: Result<T, ErrorView>) -> Self {
        match outcome {
            Ok(_) => Self::empty(),
            Err(e) => Self::empty().add_error(e.message()),
        }
    }
}

impl View for PluginCondition {
    type V = ConditionView;

    closed spec fn view(&self) -> ConditionView {
        ConditionView {
            warnings: strings_view(self.warnings@),
            errors: strings_view(self.errors@),
        }
    }
}

impl Clone for PluginCondition {
    fn clone(&self) -> (r: Self)
        ensures
            r@ == self@,
    {
        PluginCondition {
            warnings: clone_strings(self.warnings.as_slice()),
            errors: clone_strings(self.errors.as_slice()),
        }
    }
}

impl Default for PluginCondition {
    fn default() -> (r: Self)
        ensures
            r@ == ConditionView::empty(),
    {
        PluginCondition::new()
    }
}

impl PluginCondition {
    /// A condition without warnings or errors.
    pub fn new() -> (r: Self)
        ensures
            r@ == ConditionView::empty(),
    {
        let r = PluginCondition { warnings: Vec::new(), errors: Vec::new() };
        assert(r@ =~= ConditionView::empty()) by {
            assert(strings_view(Seq::<String>::empty()) =~= Seq::<Seq<char>>::empty());
        }
        r
    }

    /// Forgets every warning and error.
    pub fn clear(&mut self)
        ensures
            final(self)@ == ConditionView::empty(),
    {
        self.warnings.clear();
        self.errors.clear();
        assert(strings_view(self.warnings@) =~= Seq::<Seq<char>>::empty());
        assert(strings_view(self.errors@) =~= Seq::<Seq<char>>::empty());
    }

    /// Appends `error` to the errors.
    pub fn add_error(&mut self, error: &str)
        ensures
            final(self)@ == old(self)@.add_error(error@),
    {
        let owned = error.to_owned();
        proof {
            lemma_strings_view_push(self.errors@, owned);
        }
        self.errors.push(owned);
    }

    /// Appends `warning` to the warnings.
    pub fn add_warning(&mut self, warning: &str)
        ensures
            final(self)@ == old(self)@.add_warning(warning@),
    {
        let owned = warning.to_owned();
        proof {
            lemma_strings_view_push(self.warnings@, owned);
        }
        self.warnings.push(owned);
    }

    /// Runs one attempt under this condition: clears what earlier attempts
    /// left, runs `f`, and on failure records the rendering of the error. The
    /// outcome of `f` is handed on unchanged.
    pub fn catch_error<T, F: FnOnce() -> Result<T, PluginError>>(&mut self, f: F) -> (r: Result<
        T,
        PluginError,
    >)
        requires
            f.requires(()),
        ensures
            f.ensures((), r),
            final(self)@ == ConditionView::after_attempt(result_view(r)),
    {
        self.clear();
        match f() {
            Ok(v) => Ok(v),
            Err(e) => {
                let message = e.message();
                self.add_error(message.as_str());
                Err(e)
            },
        }
    }

    /// The errors, oldest first.
    pub fn errors(&self) -> (r: &[String])
        ensures
            strings_view(r@) == self@.errors,
    {
        self.errors.as_slice()
    }

    /// The warnings, oldest first.
    pub fn warnings(&self) -> (r: &[String])
        ensures
            strings_view(r@) == self@.warnings,
    {
        self.warnings.as_slice()
    }
}

/// Phase and condition of a plugin record at one moment.
#[derive(Debug, PartialEq, Eq)]
pub struct PluginStatus {
    pub state: PluginState,
    pub condition: PluginCondition,
}

/// Mathematical value of a [`PluginStatus`].
pub struct StatusView {
    pub state: PluginState,
    pub condition: ConditionView,
}

impl View for PluginStatus {
    type V = StatusView;

    open spec fn view(&self) -> StatusView {
        StatusView { state: self.state, condition: self.condition@ }
    }
}

impl Clone for PluginStatus {
    fn clone(&self) -> (r: Self)
        ensures
            r@ == self@,
    {
        PluginStatus { state: self.state, condition: self.condition.clone() }
    }
}

} // verus!
