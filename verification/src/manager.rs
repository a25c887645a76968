//! The registry of plugin records.
use crate::capability::{DeclaredPlugin, LoadedPlugin, PluginInfo};
use crate::condition::PluginState;
use crate::dynamic::{DynamicPlugin, DynamicPluginView};
use crate::error::{ErrorView, PluginError};
use crate::record::{PluginRecord, RecordView};
use crate::source::{clone_loader, DynamicPluginSource, SourceView};
use crate::static_plugin::{StaticPlugin, StaticPluginView};
use crate::text::{clone_strings, strings_view};
use vstd::prelude::*;
use vstd::string::StringExecFns;
use zenoh_util::LibLoader;

verus! {

/// The mathematical values of a list of records.
pub open spec fn records_view<V, I>(records: Seq<PluginRecord<V, I>>) -> Seq<RecordView<V, I>> {
    records.map_values(|p: PluginRecord<V, I>| p@)
}

/// The mathematical values of a list of borrowed records.
pub open spec fn borrowed_view<V, I>(records: Seq<&PluginRecord<V, I>>) -> Seq<RecordView<V, I>> {
    records.map_values(|p: &PluginRecord<V, I>| p@)
}

/// The places of the records that have come at least as far as `least`,
/// ascending.
pub open spec fn positions<V, I>(plugins: Seq<RecordView<V, I>>, least: PluginState) -> Seq<int>
    decreases plugins.len(),
{
    if plugins.len() == 0 {
        Seq::empty()
    } else {
        let before = positions(plugins.drop_last(), least);
        if plugins.last().state().reaches(least) {
            before.push(plugins.len() - 1)
        } else {
            before
        }
    }
}

/// `positions` lists places of the sequence, in ascending order, and lists
/// exactly the places of the records that have come as far as `least`.
pub proof fn lemma_positions<V, I>(plugins: Seq<RecordView<V, I>>, least: PluginState)
    ensures
        positions(plugins, least).len() <= plugins.len(),
        forall|k: int|
            0 <= k < positions(plugins, least).len() ==> {
                let i = #[trigger] positions(plugins, least)[k];
                0 <= i < plugins.len() && plugins[i].state().reaches(least)
            },
        forall|k: int, l: int|
            0 <= k < l < positions(plugins, least).len() ==> (#[trigger] positions(
                plugins,
                least,
            )[k]) < (#[trigger] positions(plugins, least)[l]),
        forall|i: int|
            0 <= i < plugins.len() && (#[trigger] plugins[i]).state().reaches(least)
                ==> positions(plugins, least).contains(i),
    decreases plugins.len(),
{
    if plugins.len() > 0 {
        let shorter = plugins.drop_last();
        let before = positions(shorter, least);
        lemma_positions(shorter, least);
        let all = positions(plugins, least);
        assert forall|i: int|
            0 <= i < plugins.len() && (#[trigger] plugins[i]).state().reaches(
                least,
            ) implies all.contains(i) by {
            if i < shorter.len() {
                assert(shorter[i] == plugins[i]);
                let k = choose|k: int| 0 <= k < before.len() && before[k] == i;
                assert(all[k] == i);
            } else {
                assert(all[all.len() - 1] == i);
            }
        }
    }
}

/// Mathematical value of a [`PluginsManager`]: its records in the order in
/// which they were declared.
pub struct ManagerView<V, I> {
    pub default_lib_prefix: Seq<char>,
    pub loader: Option<LibLoader>,
    pub plugins: Seq<RecordView<V, I>>,
}

impl<V, I> ManagerView<V, I> {
    pub open spec fn empty(default_lib_prefix: Seq<char>, loader: Option<LibLoader>) -> Self {
        ManagerView { default_lib_prefix, loader, plugins: Seq::empty() }
    }

    /// The manager with `record` declared after all others.
    pub open spec fn declare(self, record: RecordView<V, I>) -> Self {
        ManagerView { plugins: self.plugins.push(record), ..self }
    }

    /// The manager with record `i` replaced.
    pub open spec fn with_record(self, i: int, record: RecordView<V, I>) -> Self {
        ManagerView { plugins: self.plugins.update(i, record), ..self }
    }

    pub open spec fn has_named(self, name: Seq<char>) -> bool {
        exists|i: int| 0 <= i < self.plugins.len() && (#[trigger] self.plugins[i]).name() == name
    }

    /// Record `i` bears `name` and no record before it does.
    pub open spec fn is_first_named(self, name: Seq<char>, i: int) -> bool {
        &&& 0 <= i < self.plugins.len()
        &&& self.plugins[i].name() == name
        &&& forall|j: int| 0 <= j < i ==> (#[trigger] self.plugins[j]).name() != name
    }

    /// The place of the first record that bears `name`. Names need not be
    /// unique: later records of the same name are never found.
    pub open spec fn find(self, name: Seq<char>) -> Option<int> {
        if self.has_named(name) {
            Some(choose|i: int| self.is_first_named(name, i))
        } else {
            None
        }
    }

    /// The place of the record that a lookup by `name` gives.
    pub open spec fn plugin(self, name: Seq<char>) -> Result<int, ErrorView> {
        match self.find(name) {
            Some(i) => Ok(i),
            None => Err(ErrorView::NotFound { name }),
        }
    }

    /// The place of the record that a lookup of a loaded plugin gives.
    pub open spec fn loaded_plugin(self, name: Seq<char>) -> Result<int, ErrorView> {
        match self.find(name) {
            Some(i) => if self.plugins[i].is_loaded() {
                Ok(i)
            } else {
                Err(ErrorView::NotLoaded { name })
            },
            None => Err(ErrorView::NotFound { name }),
        }
    }

    /// The place of the record that a lookup of a running plugin gives.
    pub open spec fn running_plugin(self, name: Seq<char>) -> Result<int, ErrorView> {
        match self.loaded_plugin(name) {
            Ok(i) => if self.plugins[i].is_running() {
                Ok(i)
            } else {
                Err(ErrorView::NotRunning { name })
            },
            Err(e) => Err(e),
        }
    }

    /// The records that have come at least as far as `least`, in the order of
    /// declaration.
    pub open spec fn reaching(self, least: PluginState) -> Seq<RecordView<V, I>> {
        self.plugins.filter(|p: RecordView<V, I>| p.state().reaches(least))
    }

    /// The records that are at least `Loaded`, in the order of declaration.
    pub open spec fn loaded_plugins(self) -> Seq<RecordView<V, I>> {
        self.reaching(PluginState::Loaded)
    }

    /// The records that are `Running`, in the order of declaration.
    pub open spec fn running_plugins(self) -> Seq<RecordView<V, I>> {
        self.reaching(PluginState::Running)
    }

    /// The first record of a name is the one that `find` gives.
    pub proof fn lemma_find_first(self, name: Seq<char>, i: int)
        requires
            self.is_first_named(name, i),
        ensures
            self.find(name) == Some(i),
    {
    }

    /// What `find` gives is the first record of the name, and it gives one
    /// whenever a record bears the name.
    pub proof fn lemma_find(self, name: Seq<char>)
        ensures
            match self.find(name) {
                Some(i) => self.is_first_named(name, i),
                None => forall|j: int|
                    0 <= j < self.plugins.len() ==> (#[trigger] self.plugins[j]).name() != name,
            },
    {
        if self.has_named(name) {
            let w = choose|i: int|
                0 <= i < self.plugins.len() && (#[trigger] self.plugins[i]).name() == name;
            self.lemma_first_exists(name, w);
        }
    }

    proof fn lemma_first_exists(self, name: Seq<char>, w: int)
        requires
            0 <= w < self.plugins.len(),
            self.plugins[w].name() == name,
        ensures
            exists|i: int| self.is_first_named(name, i),
        decreases w,
    {
        if forall|j: int| 0 <= j < w ==> (#[trigger] self.plugins[j]).name() != name {
            assert(self.is_first_named(name, w));
        } else {
            let j = choose|j: int| 0 <= j < w && (#[trigger] self.plugins[j]).name() == name;
            self.lemma_first_exists(name, j);
        }
    }
}

/// A plugins manager: the records of the plugins that the host knows, static
/// and dynamic alike, in the order in which they were declared.
pub struct PluginsManager<V, I> {
    default_lib_prefix: String,
    loader: Option<LibLoader>,
    plugins: Vec<PluginRecord<V, I>>,
}

impl<V, I> View for PluginsManager<V, I> {
    type V = ManagerView<V, I>;

    closed spec fn view(&self) -> ManagerView<V, I> {
        ManagerView {
            default_lib_prefix: self.default_lib_prefix@,
            loader: self.loader,
            plugins: records_view(self.plugins@),
        }
    }
}

impl<V, I> PluginsManager<V, I> {
    /// A manager that can declare dynamic plugins; `loader` finds their
    /// libraries by name, and `default_lib_prefix` is put before each name.
    pub fn dynamic(loader: LibLoader, default_lib_prefix: &str) -> (r: Self)
        ensures
            r@ == ManagerView::<V, I>::empty(default_lib_prefix@, Some(loader)),
    {
        let r = PluginsManager {
            default_lib_prefix: default_lib_prefix.to_owned(),
            loader: Some(loader),
            plugins: Vec::new(),
        };
        assert(r@.plugins =~= Seq::empty());
        r
    }

    /// A manager of static plugins only.
    pub fn static_plugins_only() -> (r: Self)
        ensures
            r@ == ManagerView::<V, I>::empty(Seq::empty(), None),
    {
        let r = PluginsManager {
            default_lib_prefix: String::new(),
            loader: None,
            plugins: Vec::new(),
        };
        assert(r@.plugins =~= Seq::empty());
        r
    }

    proof fn lemma_push(records: Seq<PluginRecord<V, I>>, record: PluginRecord<V, I>)
        ensures
            records_view(records.push(record)) == records_view(records).push(record@),
    {
    }

    proof fn lemma_update(records: Seq<PluginRecord<V, I>>, i: int, record: PluginRecord<V, I>)
        requires
            0 <= i < records.len(),
        ensures
            records_view(records.update(i, record)) == records_view(records).update(i, record@),
    {
        assert(records_view(records.update(i, record)) =~= records_view(records).update(
            i,
            record@,
        ));
    }

    /// Declares a plugin compiled into the host, under `name` and with the
    /// entry-point table known at build time.
    pub fn add_static_plugin(self, name: &str, vtable: V) -> (r: Self)
        ensures
            r@ == self@.declare(RecordView::Static(StaticPluginView::declared(name@, vtable))),
    {
        let mut manager = self;
        let record = PluginRecord::Static(StaticPlugin::new(name.to_owned(), vtable));
        proof {
            Self::lemma_push(manager.plugins@, record);
        }
        manager.plugins.push(record);
        manager
    }

    /// Declares under `name` a dynamic plugin whose library is searched by
    /// name: the default prefix followed by `plugin_name`. Nothing is opened.
    pub fn add_dynamic_plugin_by_name(&mut self, name: &str, plugin_name: &str) -> (r: Result<
        &mut PluginRecord<V, I>,
        PluginError,
    >)
        ensures
            match old(self)@.loader {
                Some(loader) => {
                    &&& r matches Ok(p)
                    &&& (*p)@ == RecordView::Dynamic(
                        DynamicPluginView::<V, I>::declared(
                            name@,
                            SourceView::ByName {
                                loader,
                                name: old(self)@.default_lib_prefix + plugin_name@,
                            },
                        ),
                    )
                    &&& final(self)@ == old(self)@.declare((*final(p))@)
                },
                None => {
                    &&& r matches Err(e)
                    &&& e@ == ErrorView::DynamicLoadingDisabled
                    &&& final(self)@ == old(self)@
                },
            },
    {
        let libloader = match &self.loader {
            Some(loader) => clone_loader(loader),
            None => {
                return Err(PluginError::DynamicLoadingDisabled);
            },
        };
        let library_name = self.default_lib_prefix.clone().concat(plugin_name);
        let record = PluginRecord::Dynamic(
            DynamicPlugin::new(
                name.to_owned(),
                DynamicPluginSource::ByName((libloader, library_name)),
            ),
        );
        Ok(self.declare(record))
    }

    /// Declares under `name` a dynamic plugin whose library is the first of
    /// `paths` that opens. Nothing is opened.
    pub fn add_dynamic_plugin_by_paths(&mut self, name: &str, paths: &[String]) -> (r: Result<
        &mut PluginRecord<V, I>,
        PluginError,
    >)
        ensures
            r matches Ok(p) && (*p)@ == RecordView::Dynamic(
                DynamicPluginView::<V, I>::declared(
                    name@,
                    SourceView::ByPaths { paths: strings_view(paths@) },
                ),
            ) && final(self)@ == old(self)@.declare((*final(p))@),
    {
        let record = PluginRecord::Dynamic(
            DynamicPlugin::new(name.to_owned(), DynamicPluginSource::ByPaths(clone_strings(paths))),
        );
        Ok(self.declare(record))
    }

    /// Adds `record` after all others and lends it.
    fn declare(&mut self, record: PluginRecord<V, I>) -> (r: &mut PluginRecord<V, I>)
        ensures
            *r == record,
            final(self)@ == old(self)@.declare((*final(r))@),
    {
        proof {
            Self::lemma_push(self.plugins@, record);
        }
        self.plugins.push(record);
        let last = self.plugins.len() - 1;
        let ghost before = self.plugins@;
        let r = &mut self.plugins[last];
        proof {
            Self::lemma_update(before, last as int, *final(r));
            assert(records_view(before).update(last as int, (*final(r))@) =~= records_view(
                before.drop_last(),
            ).push((*final(r))@));
            assert(before.drop_last() =~= old(self).plugins@);
        }
        r
    }

    /// The place of the first record that bears `name`.
    pub fn get_plugin_index(&self, name: &str) -> (r: Option<usize>)
        ensures
            match self@.find(name@) {
                Some(i) => r matches Some(k) && k as int == i && i < self@.plugins.len(),
                None => r is None,
            },
    {
        let wanted = name.to_owned();
        let mut i: usize = 0;
        while i < self.plugins.len()
            invariant
                i <= self.plugins.len(),
                wanted@ == name@,
                forall|j: int| 0 <= j < i ==> (#[trigger] self@.plugins[j]).name() != name@,
            decreases self.plugins.len() - i,
        {
            if self.plugins[i].is_named(&wanted) {
                proof {
                    self@.lemma_find_first(name@, i as int);
                }
                return Some(i);
            }
            i += 1;
        }
        proof {
            self@.lemma_find(name@);
        }
        None
    }

    /// The place of the first record that bears `name`, or the error of a
    /// name that no record bears.
    pub fn get_plugin_index_err(&self, name: &str) -> (r: Result<usize, PluginError>)
        ensures
            match self@.plugin(name@) {
                Ok(i) => r matches Ok(k) && k as int == i && i < self@.plugins.len(),
                Err(e) => r matches Err(x) && x@ == e,
            },
    {
        match self.get_plugin_index(name) {
            Some(i) => Ok(i),
            None => Err(PluginError::NotFound { name: name.to_owned() }),
        }
    }

    /// All records, in the order of declaration.
    pub fn plugins(&self) -> (r: Vec<&PluginRecord<V, I>>)
        ensures
            borrowed_view(r@) == self@.plugins,
    {
        let mut out: Vec<&PluginRecord<V, I>> = Vec::new();
        let mut i: usize = 0;
        while i < self.plugins.len()
            invariant
                i <= self.plugins.len(),
                out@.len() == i,
                forall|k: int| 0 <= k < i ==> *out@[k] == self.plugins@[k],
            decreases self.plugins.len() - i,
        {
            out.push(&self.plugins[i]);
            i += 1;
        }
        out
    }

    /// The records that have come at least as far as `least`.
    fn reaching(&self, least: PluginState) -> (r: Vec<&PluginRecord<V, I>>)
        ensures
            borrowed_view(r@) == self@.reaching(least),
    {
        let ghost pred = |p: RecordView<V, I>| p.state().reaches(least);
        let mut out: Vec<&PluginRecord<V, I>> = Vec::new();
        let mut i: usize = 0;
        proof {
            reveal(Seq::filter);
        }
        while i < self.plugins.len()
            invariant
                i <= self.plugins.len(),
                pred == |p: RecordView<V, I>| p.state().reaches(least),
                borrowed_view(out@) == self@.plugins.take(i as int).filter(pred),
            decreases self.plugins.len() - i,
        {
            let record = &self.plugins[i];
            proof {
                reveal(Seq::filter);
                let next = self@.plugins.take(i as int + 1);
                assert(next.drop_last() =~= self@.plugins.take(i as int));
            }
            if record.state().has_reached(least) {
                out.push(record);
            }
            i += 1;
        }
        assert(self@.plugins.take(i as int) =~= self@.plugins);
        out
    }

    /// The records that are at least `Loaded`, in the order of declaration.
    pub fn loaded_plugins(&self) -> (r: Vec<&PluginRecord<V, I>>)
        ensures
            borrowed_view(r@) == self@.loaded_plugins(),
    {
        self.reaching(PluginState::Loaded)
    }

    /// The records that are `Running`, in the order of declaration.
    pub fn running_plugins(&self) -> (r: Vec<&PluginRecord<V, I>>)
        ensures
            borrowed_view(r@) == self@.running_plugins(),
    {
        self.reaching(PluginState::Running)
    }

    /// The records that have come at least as far as `least`, for change.
    /// Record `positions(..)[k]` is lent as item `k`; what the borrower leaves
    /// in it is what the manager holds afterwards, and every other record
    /// stays as it is.
    fn reaching_mut(&mut self, least: PluginState) -> (r: Vec<&mut PluginRecord<V, I>>)
        ensures
            r@.len() == positions(old(self)@.plugins, least).len(),
            forall|k: int|
                0 <= k < r@.len() ==> (*#[trigger] r@[k])@ == old(self)@.plugins[positions(
                    old(self)@.plugins,
                    least,
                )[k]],
            final(self)@.default_lib_prefix == old(self)@.default_lib_prefix,
            final(self)@.loader == old(self)@.loader,
            final(self)@.plugins.len() == old(self)@.plugins.len(),
            forall|k: int|
                0 <= k < r@.len() ==> final(self)@.plugins[positions(old(self)@.plugins, least)[k]]
                    == (*final(#[trigger] r@[k]))@,
            forall|i: int|
                0 <= i < old(self)@.plugins.len() && !old(self)@.plugins[i].state().reaches(least)
                    ==> (#[trigger] final(self)@.plugins[i]) == old(self)@.plugins[i],
    {
        let mut out: Vec<&mut PluginRecord<V, I>> = Vec::new();
        let ghost start = self.plugins@;
        let ghost views = records_view(self.plugins@);
        let ghost end = final(self).plugins@;
        let ghost mut done: int = 0;
        let mut rest: &mut [PluginRecord<V, I>] = self.plugins.as_mut_slice();
        while rest.len() > 0
            invariant
                views == records_view(start),
                0 <= done,
                done + rest@.len() == start.len(),
                forall|k: int| 0 <= k < rest@.len() ==> (#[trigger] rest@[k]) == start[done + k],
                out@.len() == positions(views.take(done), least).len(),
                forall|k: int|
                    0 <= k < out@.len() ==> *(#[trigger] out@[k]) == start[positions(
                        views.take(done),
                        least,
                    )[k]],
                end.len() == done + final(rest)@.len(),
                forall|k: int|
                    0 <= k < out@.len() ==> end[positions(views.take(done), least)[k]] == *final(#[trigger] out@[k]),
                forall|i: int|
                    0 <= i < done && !views[i].state().reaches(least) ==> (#[trigger] end[i])
                        == start[i],
                forall|k: int|
                    0 <= k < final(rest)@.len() ==> end[done + k] == (#[trigger] final(rest)@[k]),
            decreases rest@.len(),
        {
            let ghost before = out@;
            let ghost rest_end = final(rest)@;
            let (head, tail) = rest.split_at_mut(1);
            rest = tail;
            proof {
                lemma_positions(views.take(done), least);
                assert(views.take(done + 1).drop_last() =~= views.take(done));
            }
            match head.first_mut() {
                Some(h) => {
                    let ghost h_end = *final(h);
                    if h.state().has_reached(least) {
                        out.push(h);
                        proof {
                            let grown = positions(views.take(done + 1), least);
                            assert forall|k: int| 0 <= k < out@.len() implies end[grown[k]]
                                == *final(#[trigger] out@[k]) by {
                                if k < before.len() {
                                    assert(out@[k] == before[k]);
                                } else {
                                    assert(rest_end[0] == h_end);
                                }
                            }
                            assert forall|k: int| 0 <= k < final(rest)@.len() implies end[done + 1
                                + k] == (#[trigger] final(rest)@[k]) by {
                                assert(rest_end[k + 1] == final(rest)@[k]);
                            }
                        }
                    } else {
                        proof {
                            assert(rest_end[0] == h_end);
                            assert forall|k: int| 0 <= k < final(rest)@.len() implies end[done + 1
                                + k] == (#[trigger] final(rest)@[k]) by {
                                assert(rest_end[k + 1] == final(rest)@[k]);
                            }
                        }
                    }
                },
                None => {},
            }
            proof {
                done = done + 1;
            }
        }
        proof {
            assert(views.take(done) =~= views);
            lemma_positions(views, least);
            let places = positions(views, least);
            assert forall|k: int| 0 <= k < out@.len() implies (#[trigger] records_view(
                end,
            )[places[k]]) == (*final(out@[k]))@ by {
                assert(end[places[k]] == *final(out@[k]));
            }
        }
        out
    }

    /// All records, for change, in the order of declaration.
    pub fn plugins_mut(&mut self) -> (r: Vec<&mut PluginRecord<V, I>>)
        ensures
            r@.len() == old(self)@.plugins.len(),
            forall|k: int| 0 <= k < r@.len() ==> (*#[trigger] r@[k])@ == old(self)@.plugins[k],
            final(self)@.default_lib_prefix == old(self)@.default_lib_prefix,
            final(self)@.loader == old(self)@.loader,
            final(self)@.plugins.len() == r@.len(),
            forall|k: int|
                0 <= k < r@.len() ==> final(self)@.plugins[k] == (*final(#[trigger] r@[k]))@,
    {
        proof {
            Self::lemma_all_positions(self@.plugins);
        }
        self.reaching_mut(PluginState::Declared)
    }

    /// Every place is the place of a record that is at least `Declared`.
    proof fn lemma_all_positions(plugins: Seq<RecordView<V, I>>)
        ensures
            positions(plugins, PluginState::Declared) == Seq::new(plugins.len(), |i: int| i),
        decreases plugins.len(),
    {
        if plugins.len() > 0 {
            Self::lemma_all_positions(plugins.drop_last());
        }
    }

    /// The records that are at least `Loaded`, for change, in the order of
    /// declaration: item `k` is the record at place
    /// `positions(.., Loaded)[k]`.
    pub fn loaded_plugins_mut(&mut self) -> (r: Vec<&mut PluginRecord<V, I>>)
        ensures
            r@.len() == positions(old(self)@.plugins, PluginState::Loaded).len(),
            forall|k: int|
                0 <= k < r@.len() ==> (*#[trigger] r@[k])@ == old(self)@.plugins[positions(
                    old(self)@.plugins,
                    PluginState::Loaded,
                )[k]],
            final(self)@.default_lib_prefix == old(self)@.default_lib_prefix,
            final(self)@.loader == old(self)@.loader,
            final(self)@.plugins.len() == old(self)@.plugins.len(),
            forall|k: int|
                0 <= k < r@.len() ==> final(self)@.plugins[positions(
                    old(self)@.plugins,
                    PluginState::Loaded,
                )[k]] == (*final(#[trigger] r@[k]))@,
            forall|i: int|
                0 <= i < old(self)@.plugins.len() && !old(self)@.plugins[i].is_loaded()
                    ==> (#[trigger] final(self)@.plugins[i]) == old(self)@.plugins[i],
    {
        self.reaching_mut(PluginState::Loaded)
    }

    /// The records that are `Running`, for change, in the order of
    /// declaration: item `k` is the record at place
    /// `positions(.., Running)[k]`.
    pub fn running_plugins_mut(&mut self) -> (r: Vec<&mut PluginRecord<V, I>>)
        ensures
            r@.len() == positions(old(self)@.plugins, PluginState::Running).len(),
            forall|k: int|
                0 <= k < r@.len() ==> (*#[trigger] r@[k])@ == old(self)@.plugins[positions(
                    old(self)@.plugins,
                    PluginState::Running,
                )[k]],
            final(self)@.default_lib_prefix == old(self)@.default_lib_prefix,
            final(self)@.loader == old(self)@.loader,
            final(self)@.plugins.len() == old(self)@.plugins.len(),
            forall|k: int|
                0 <= k < r@.len() ==> final(self)@.plugins[positions(
                    old(self)@.plugins,
                    PluginState::Running,
                )[k]] == (*final(#[trigger] r@[k]))@,
            forall|i: int|
                0 <= i < old(self)@.plugins.len() && !old(self)@.plugins[i].is_running()
                    ==> (#[trigger] final(self)@.plugins[i]) == old(self)@.plugins[i],
    {
        self.reaching_mut(PluginState::Running)
    }

    /// The first record that bears `name`.
    pub fn plugin(&self, name: &str) -> (r: Result<&PluginRecord<V, I>, PluginError>)
        ensures
            match self@.plugin(name@) {
                Ok(i) => r matches Ok(p) && p@ == self@.plugins[i],
                Err(e) => r matches Err(x) && x@ == e,
            },
    {
        let index = match self.get_plugin_index_err(name) {
            Ok(index) => index,
            Err(e) => {
                return Err(e);
            },
        };
        Ok(&self.plugins[index])
    }

    /// The first record that bears `name`, for change.
    pub fn plugin_mut(&mut self, name: &str) -> (r: Result<&mut PluginRecord<V, I>, PluginError>)
        ensures
            match old(self)@.plugin(name@) {
                Ok(i) => {
                    &&& r matches Ok(p)
                    &&& (*p)@ == old(self)@.plugins[i]
                    &&& final(self)@ == old(self)@.with_record(i, (*final(p))@)
                },
                Err(e) => r matches Err(x) && x@ == e && final(self)@ == old(self)@,
            },
    {
        let index = match self.get_plugin_index_err(name) {
            Ok(index) => index,
            Err(e) => {
                return Err(e);
            },
        };
        Ok(self.record_mut(index))
    }

    /// Record `index`, for change.
    fn record_mut(&mut self, index: usize) -> (r: &mut PluginRecord<V, I>)
        requires
            index < old(self)@.plugins.len(),
        ensures
            (*r)@ == old(self)@.plugins[index as int],
            final(self)@ == old(self)@.with_record(index as int, (*final(r))@),
    {
        let r = &mut self.plugins[index];
        proof {
            Self::lemma_update(old(self).plugins@, index as int, *final(r));
        }
        r
    }

    /// The first record that bears `name`, if it is loaded.
    pub fn loaded_plugin(&self, name: &str) -> (r: Result<&PluginRecord<V, I>, PluginError>)
        ensures
            match self@.loaded_plugin(name@) {
                Ok(i) => r matches Ok(p) && p@ == self@.plugins[i],
                Err(e) => r matches Err(x) && x@ == e,
            },
    {
        let record = match self.plugin(name) {
            Ok(record) => record,
            Err(e) => {
                return Err(e);
            },
        };
        match record.loaded() {
            Some(p) => Ok(p),
            None => Err(PluginError::NotLoaded { name: name.to_owned() }),
        }
    }

    /// The first record that bears `name`, for change, if it is loaded.
    pub fn loaded_plugin_mut(&mut self, name: &str) -> (r: Result<
        &mut PluginRecord<V, I>,
        PluginError,
    >)
        ensures
            match old(self)@.loaded_plugin(name@) {
                Ok(i) => {
                    &&& r matches Ok(p)
                    &&& (*p)@ == old(self)@.plugins[i]
                    &&& final(self)@ == old(self)@.with_record(i, (*final(p))@)
                },
                Err(e) => r matches Err(x) && x@ == e && final(self)@ == old(self)@,
            },
    {
        let index = match self.get_plugin_index_err(name) {
            Ok(index) => index,
            Err(e) => {
                return Err(e);
            },
        };
        if self.plugins[index].state() != PluginState::Declared {
            Ok(self.record_mut(index))
        } else {
            Err(PluginError::NotLoaded { name: name.to_owned() })
        }
    }

    /// The first record that bears `name`, if it runs.
    pub fn running_plugin(&self, name: &str) -> (r: Result<&PluginRecord<V, I>, PluginError>)
        ensures
            match self@.running_plugin(name@) {
                Ok(i) => r matches Ok(p) && p@ == self@.plugins[i],
                Err(e) => r matches Err(x) && x@ == e,
            },
    {
        let record = match self.loaded_plugin(name) {
            Ok(record) => record,
            Err(e) => {
                return Err(e);
            },
        };
        match record.running() {
            Some(p) => Ok(p),
            None => Err(PluginError::NotRunning { name: name.to_owned() }),
        }
    }

    /// The first record that bears `name`, for change, if it runs.
    pub fn running_plugin_mut(&mut self, name: &str) -> (r: Result<
        &mut PluginRecord<V, I>,
        PluginError,
    >)
        ensures
            match old(self)@.running_plugin(name@) {
                Ok(i) => {
                    &&& r matches Ok(p)
                    &&& (*p)@ == old(self)@.plugins[i]
                    &&& final(self)@ == old(self)@.with_record(i, (*final(p))@)
                },
                Err(e) => r matches Err(x) && x@ == e && final(self)@ == old(self)@,
            },
    {
        let index = match self.get_plugin_index_err(name) {
            Ok(index) => index,
            Err(e) => {
                return Err(e);
            },
        };
        match self.plugins[index].state() {
            PluginState::Declared => Err(PluginError::NotLoaded { name: name.to_owned() }),
            PluginState::Loaded => Err(PluginError::NotRunning { name: name.to_owned() }),
            PluginState::Running => Ok(self.record_mut(index)),
        }
    }
}

} // verus!
