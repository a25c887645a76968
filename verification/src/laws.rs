//! What holds of every record and every manager, proved from the definition
//! of the lifecycle.
use crate::compatibility::{CompatibilityView, PLUGIN_LOADER_VERSION};
use crate::condition::{ConditionView, PluginState};
use crate::dynamic::{
    open_warning, DynamicPluginView, GateCheck, LoadEventView, LoadProgressView, PhaseView,
    RunProgress,
};
use crate::error::ErrorView;
use crate::manager::{lemma_positions, positions, ManagerView};
use crate::record::RecordView;
use crate::source::{LoadRequestView, SourceView};
use libloading::Library;
use vstd::prelude::*;

verus! {

/// A dynamic record is `Declared` when it is declared.
pub proof fn declared_record_is_declared<V, I>(name: Seq<char>, source: SourceView)
    ensures
        DynamicPluginView::<V, I>::declared(name, source).state() == PluginState::Declared,
        RecordView::Dynamic(DynamicPluginView::<V, I>::declared(name, source)).state()
            == PluginState::Declared,
{
}

/// A record that is `Declared` stays `Declared` through every load step that
/// fails, and then keeps no module: nothing is in flight any more.
pub proof fn failed_load_leaves_declared<V, I>(record: RecordView<V, I>, event: LoadEventView<V>)
    requires
        record.state() == PluginState::Declared,
    ensures
        record.load().1 is Err ==> record.load().0.state() == PluginState::Declared
            && record.load().0.library() is None,
        record.load_resume(event).1 is Err ==> record.load_resume(event).0.state()
            == PluginState::Declared && record.load_resume(event).0.library() is None,
{
}

/// A load step makes a record `Loaded` exactly when it answers `Loaded`;
/// every other step leaves the phase as it was.
pub proof fn load_step_phase<V, I>(record: RecordView<V, I>, event: LoadEventView<V>)
    ensures
        record.load().1 == Ok::<LoadProgressView, ErrorView>(LoadProgressView::Loaded)
            <==> record.is_loaded(),
        record.load().0.state() == record.state(),
        record.load_resume(event).1 == Ok::<LoadProgressView, ErrorView>(LoadProgressView::Loaded)
            ==> !record.is_loaded() && record.load_resume(event).0.state() == PluginState::Loaded,
        record.load_resume(event).1 != Ok::<LoadProgressView, ErrorView>(LoadProgressView::Loaded)
            ==> record.load_resume(event).0.state() == record.state(),
{
}

/// Phases move forward: loading and running never take a record back to
/// an earlier phase, and a step moves it one phase at most. Only `stop` goes
/// back, from `Running` to `Loaded`, and changes no other phase.
pub proof fn phases_move_forward<V, I>(
    record: RecordView<V, I>,
    event: LoadEventView<V>,
    started: Result<I, Seq<char>>,
)
    ensures
        record.load().0.state() == record.state(),
        record.load_resume(event).0.state() == record.state() || (record.state()
            == PluginState::Declared && record.load_resume(event).0.state() == PluginState::Loaded),
        record.run().0.state() == record.state(),
        record.run_resume(started).0.state() == record.state() || (record.state()
            == PluginState::Loaded && record.run_resume(started).0.state()
            == PluginState::Running),
        record.stop().state() == if record.state() == PluginState::Running {
            PluginState::Loaded
        } else {
            record.state()
        },
{
}

/// The name of a record never changes.
pub proof fn name_stays<V, I>(
    record: RecordView<V, I>,
    event: LoadEventView<V>,
    started: Result<I, Seq<char>>,
)
    ensures
        record.load().0.name() == record.name(),
        record.load_resume(event).0.name() == record.name(),
        record.run().0.name() == record.name(),
        record.run_resume(started).0.name() == record.name(),
        record.stop().name() == record.name(),
{
}

/// The source of a dynamic record never changes.
pub proof fn source_stays<V, I>(
    record: DynamicPluginView<V, I>,
    event: LoadEventView<V>,
    started: Result<I, Seq<char>>,
)
    ensures
        record.load().0.source == record.source,
        record.load_resume(event).0.source == record.source,
        record.run().0.source == record.source,
        record.run_resume(started).0.source == record.source,
        record.stop().source == record.source,
{
}

/// Loading is idempotent: on a loaded record `load` asks for nothing to be
/// opened and changes nothing, so the path stays, however often it is called.
pub proof fn load_is_idempotent<V, I>(record: RecordView<V, I>)
    requires
        record.is_loaded(),
    ensures
        record.load() == (record, Ok::<LoadProgressView, ErrorView>(LoadProgressView::Loaded)),
        record.load().0.load() == record.load(),
        record.load().0.path() == record.path(),
{
}

/// Running is idempotent: on a running record `run` succeeds without asking
/// for the start routine, and the instance stays the same, however often it
/// is called.
pub proof fn run_is_idempotent<V, I>(record: RecordView<V, I>)
    requires
        record.is_running(),
    ensures
        record.run().1 == Ok::<RunProgress, ErrorView>(RunProgress::Running),
        record.run().0.instance() == record.instance(),
        record.run().0.run().1 == Ok::<RunProgress, ErrorView>(RunProgress::Running),
        record.run().0.run().0.instance() == record.instance(),
{
}

/// A record started with an instance runs with that instance, and a second
/// `run` neither replaces it nor asks for another start.
pub proof fn started_record_runs<V, I>(record: RecordView<V, I>, instance: I)
    requires
        record.state() == PluginState::Loaded,
    ensures
        record.run().1 == Ok::<RunProgress, ErrorView>(RunProgress::Start),
        record.run().0.run_resume(Ok(instance)).1 == Ok::<RunProgress, ErrorView>(
            RunProgress::Running,
        ),
        record.run().0.run_resume(Ok(instance)).0.instance() == Some(instance),
        record.run().0.run_resume(Ok(instance)).0.run().0.instance() == Some(instance),
{
}

/// Stopping keeps the module: the record is `Loaded` with the same path,
/// library and entry-point table, the next `run` asks for the start routine
/// and for nothing else, and the restarted record still has the same path.
pub proof fn stop_then_run_restarts<V, I>(record: RecordView<V, I>, instance: I)
    requires
        record.is_running(),
    ensures
        record.stop().state() == PluginState::Loaded,
        record.stop().path() == record.path(),
        record.stop().library() == record.library(),
        record.stop().vtable() == record.vtable(),
        record.stop().run().1 == Ok::<RunProgress, ErrorView>(RunProgress::Start),
        record.stop().run().0.path() == record.path(),
        record.stop().run().0.run_resume(Ok(instance)).0.is_running(),
        record.stop().run().0.run_resume(Ok(instance)).0.path() == record.path(),
        record.stop().run().0.run_resume(Ok(instance)).0.library() == record.library(),
{
}

/// A failed start leaves the record `Loaded`, with its module.
pub proof fn failed_start_leaves_loaded<V, I>(record: RecordView<V, I>, message: Seq<char>)
    requires
        record.state() == PluginState::Loaded,
    ensures
        record.run_resume(Err(message)).1 == Err::<RunProgress, ErrorView>(
            ErrorView::StartFailure { message },
        ),
        record.run_resume(Err(message)).0.state() == PluginState::Loaded,
        record.run_resume(Err(message)).0.path() == record.path(),
{
}

/// The compatibility gate rejects a module that reports another
/// loader-protocol version than the host's: the load fails with both
/// versions, the module is released, and neither its compatibility record nor
/// its entry-point table is asked for.
pub proof fn version_mismatch_is_rejected<V, I>(
    record: DynamicPluginView<V, I>,
    reported: u64,
)
    requires
        record.phase matches PhaseView::Gate { awaiting, .. } && awaiting
            == GateCheck::LoaderVersion,
        reported != PLUGIN_LOADER_VERSION,
    ensures
        record.load_resume(LoadEventView::LoaderVersion(reported)).1 == Err::<
            LoadProgressView,
            ErrorView,
        >(ErrorView::LoaderVersionMismatch { host: PLUGIN_LOADER_VERSION, plugin: reported }),
        record.load_resume(LoadEventView::LoaderVersion(reported)).0.phase == PhaseView::<
            V,
            I,
        >::Idle,
        record.load_resume(LoadEventView::LoaderVersion(reported)).0.library() is None,
{
}

/// The compatibility record of a module is asked for only in answer to a
/// loader-protocol version equal to the host's, reported by a module that
/// waits at the first check of the compatibility gate.
pub proof fn compatibility_is_read_after_version<V, I>(
    record: DynamicPluginView<V, I>,
    event: LoadEventView<V>,
)
    requires
        record.load_resume(event).1 == Ok::<LoadProgressView, ErrorView>(
            LoadProgressView::Need(LoadRequestView::ReadCompatibility),
        ),
    ensures
        record.phase matches PhaseView::Gate { awaiting, .. } && awaiting
            == GateCheck::LoaderVersion,
        event == LoadEventView::<V>::LoaderVersion(PLUGIN_LOADER_VERSION),
{
}

/// The compatibility gate rejects a module whose compatibility record is not
/// compatible with the host's: the load fails with both records, the module
/// is released, and its entry-point table is not asked for.
pub proof fn incompatible_module_is_rejected<V, I>(
    record: DynamicPluginView<V, I>,
    host: CompatibilityView,
    plugin: CompatibilityView,
)
    requires
        record.phase matches PhaseView::Gate { awaiting, .. } && awaiting
            == GateCheck::Compatibility,
        !plugin.are_compatible(host),
    ensures
        record.load_resume(LoadEventView::Compatibility { host, plugin }).1 == Err::<
            LoadProgressView,
            ErrorView,
        >(ErrorView::CompatibilityMismatch { host, plugin }),
        record.load_resume(LoadEventView::Compatibility { host, plugin }).0.phase == PhaseView::<
            V,
            I,
        >::Idle,
        record.load_resume(LoadEventView::Compatibility { host, plugin }).0.library() is None,
{
}

/// The entry-point table of a module is asked for only in answer to a
/// compatible record, reported by a module that waits at the second check of
/// the compatibility gate.
pub proof fn entry_table_is_fetched_after_compatibility<V, I>(
    record: DynamicPluginView<V, I>,
    event: LoadEventView<V>,
)
    requires
        record.load_resume(event).1 == Ok::<LoadProgressView, ErrorView>(
            LoadProgressView::Need(LoadRequestView::FetchEntryTable),
        ),
    ensures
        record.phase matches PhaseView::Gate { awaiting, .. } && awaiting
            == GateCheck::Compatibility,
        event matches LoadEventView::Compatibility { host, plugin } && plugin.are_compatible(host),
{
}

/// A record becomes `Loaded` only by taking the entry-point table of the
/// module that waits at the last check of the compatibility gate; it then
/// holds that module, its path and that table.
pub proof fn loaded_only_through_gate<V, I>(
    record: DynamicPluginView<V, I>,
    event: LoadEventView<V>,
)
    requires
        !record.is_loaded(),
        record.load_resume(event).0.is_loaded(),
    ensures
        ({
            &&& record.phase matches PhaseView::Gate { lib, path, awaiting }
            &&& awaiting == GateCheck::EntryTable
            &&& event matches LoadEventView::EntryTable(vtable)
            &&& record.load_resume(event).0.phase == (PhaseView::<V, I>::Loaded {
                lib,
                path,
                vtable,
            })
        }),
        !record.load().0.is_loaded(),
{
}

/// Among paths, a candidate that fails to open while paths are left is
/// recorded as a warning, and the next path is asked for.
pub proof fn failed_candidate_is_skipped<V, I>(
    record: DynamicPluginView<V, I>,
    next: nat,
    causes: Seq<Seq<char>>,
    cause: Seq<char>,
)
    requires
        record.source is ByPaths,
        record.phase == (PhaseView::<V, I>::Opening { next, causes }),
        next + 1 < record.source.candidates().len(),
    ensures
        record.load_resume(LoadEventView::OpenFailed { cause }).1 == Ok::<
            LoadProgressView,
            ErrorView,
        >(LoadProgressView::Need(record.source.request((next + 1) as int))),
        record.load_resume(LoadEventView::OpenFailed { cause }).0.condition
            == record.condition.add_warning(
            open_warning(record.source.candidates()[next as int], cause),
        ),
        record.load_resume(LoadEventView::OpenFailed { cause }).0.state()
            == PluginState::Declared,
{
}

/// Among paths, the failure of the last candidate fails the load with an
/// error that names every path, and the record stays `Declared`.
pub proof fn exhausted_paths_fail<V, I>(
    record: DynamicPluginView<V, I>,
    next: nat,
    causes: Seq<Seq<char>>,
    cause: Seq<char>,
)
    requires
        record.source is ByPaths,
        record.phase == (PhaseView::<V, I>::Opening { next, causes }),
        next + 1 >= record.source.candidates().len(),
    ensures
        record.load_resume(LoadEventView::OpenFailed { cause }).1 == Err::<
            LoadProgressView,
            ErrorView,
        >(
            ErrorView::SourceResolutionFailure {
                paths: record.source.candidates(),
                causes: causes.push(cause),
            },
        ),
        record.load_resume(LoadEventView::OpenFailed { cause }).0.state()
            == PluginState::Declared,
{
}

/// The running records are among the loaded ones, in the same order: they
/// are the loaded records that run.
pub proof fn running_plugins_are_loaded<V, I>(manager: ManagerView<V, I>)
    ensures
        manager.running_plugins() == manager.loaded_plugins().filter(
            |p: RecordView<V, I>| p.is_running(),
        ),
        forall|k: int|
            0 <= k < manager.running_plugins().len() ==> manager.loaded_plugins().contains(
                #[trigger] manager.running_plugins()[k],
            ),
    decreases manager.plugins.len(),
{
    reveal(Seq::filter);
    let running = |p: RecordView<V, I>| p.state().reaches(PluginState::Running);
    let loaded = |p: RecordView<V, I>| p.state().reaches(PluginState::Loaded);
    let runs = |p: RecordView<V, I>| p.is_running();
    if manager.plugins.len() > 0 {
        let shorter = ManagerView { plugins: manager.plugins.drop_last(), ..manager };
        running_plugins_are_loaded(shorter);
        assert(manager.plugins.filter(running) =~= manager.plugins.filter(loaded).filter(runs)) by {
            let last = manager.plugins.last();
            if loaded(last) {
                let kept = shorter.plugins.filter(loaded);
                assert(kept.push(last).drop_last() =~= kept);
            }
        }
    }
    let inner = manager.loaded_plugins();
    assert forall|k: int| 0 <= k < manager.running_plugins().len() implies inner.contains(
        #[trigger] manager.running_plugins()[k],
    ) by {
        inner.lemma_filter_contains_rev(runs, manager.running_plugins()[k]);
    }
}

/// The loaded records are exactly the records that are not `Declared`, in
/// the order of declaration.
pub proof fn loaded_plugins_are_the_loaded_records<V, I>(manager: ManagerView<V, I>)
    ensures
        manager.loaded_plugins() == manager.plugins.filter(|p: RecordView<V, I>| p.is_loaded()),
        forall|i: int|
            0 <= i < manager.plugins.len() && (#[trigger] manager.plugins[i]).is_loaded()
                ==> manager.loaded_plugins().contains(manager.plugins[i]),
        forall|k: int|
            0 <= k < manager.loaded_plugins().len() ==> (#[trigger] manager.loaded_plugins()[k])
                .is_loaded() && manager.plugins.contains(manager.loaded_plugins()[k]),
{
    let reached = |p: RecordView<V, I>| p.state().reaches(PluginState::Loaded);
    let loaded = |p: RecordView<V, I>| p.is_loaded();
    assert(reached =~= loaded);
    broadcast use vstd::seq_lib::group_filter_ensures;

    let kept = manager.plugins.filter(loaded);
    assert forall|k: int| 0 <= k < kept.len() implies (#[trigger] kept[k]).is_loaded()
        && manager.plugins.contains(kept[k]) by {
        manager.plugins.lemma_filter_pred(loaded, k);
        manager.plugins.lemma_filter_contains_rev(loaded, kept[k]);
    }
}

/// A name that no record bears is not found, whichever phase is asked for.
pub proof fn unregistered_name_is_not_found<V, I>(manager: ManagerView<V, I>, name: Seq<char>)
    requires
        !manager.has_named(name),
    ensures
        manager.plugin(name) == Err::<int, ErrorView>(ErrorView::NotFound { name }),
        manager.loaded_plugin(name) == Err::<int, ErrorView>(ErrorView::NotFound { name }),
        manager.running_plugin(name) == Err::<int, ErrorView>(ErrorView::NotFound { name }),
{
}

/// A record that is registered but not loaded is found by `plugin`, while
/// `loaded_plugin` and `running_plugin` both report that it is not loaded.
pub proof fn declared_record_is_not_loaded<V, I>(
    manager: ManagerView<V, I>,
    name: Seq<char>,
    i: int,
)
    requires
        manager.is_first_named(name, i),
        !manager.plugins[i].is_loaded(),
    ensures
        manager.plugin(name) == Ok::<int, ErrorView>(i),
        manager.loaded_plugin(name) == Err::<int, ErrorView>(ErrorView::NotLoaded { name }),
        manager.running_plugin(name) == Err::<int, ErrorView>(ErrorView::NotLoaded { name }),
{
    manager.lemma_find_first(name, i);
}

/// A record that is loaded but does not run is found by `plugin` and by
/// `loaded_plugin`, while `running_plugin` reports that it is not running.
pub proof fn loaded_record_is_not_running<V, I>(
    manager: ManagerView<V, I>,
    name: Seq<char>,
    i: int,
)
    requires
        manager.is_first_named(name, i),
        manager.plugins[i].state() == PluginState::Loaded,
    ensures
        manager.plugin(name) == Ok::<int, ErrorView>(i),
        manager.loaded_plugin(name) == Ok::<int, ErrorView>(i),
        manager.running_plugin(name) == Err::<int, ErrorView>(ErrorView::NotRunning { name }),
{
    manager.lemma_find_first(name, i);
}

/// The records that a listing for change lends are the records that the
/// listing of the same phase gives: those at the places that `positions`
/// lists.
pub proof fn lent_records_are_listed_records<V, I>(
    plugins: Seq<RecordView<V, I>>,
    least: PluginState,
)
    ensures
        positions(plugins, least).map_values(|i: int| plugins[i]) == plugins.filter(
            |p: RecordView<V, I>| p.state().reaches(least),
        ),
    decreases plugins.len(),
{
    reveal(Seq::filter);
    let pred = |p: RecordView<V, I>| p.state().reaches(least);
    if plugins.len() > 0 {
        let shorter = plugins.drop_last();
        lent_records_are_listed_records(shorter, least);
        lemma_positions(shorter, least);
    }
    assert(positions(plugins, least).map_values(|i: int| plugins[i]) =~= plugins.filter(pred));
}

/// Diagnostics do not pile up. A load that starts, and every run, leaves no
/// warning and at most one error; every later step of a load adds at most one
/// warning and at most one error.
pub proof fn diagnostics_stay_bounded<V, I>(
    record: DynamicPluginView<V, I>,
    event: LoadEventView<V>,
)
    ensures
        !record.is_loaded() ==> record.load().0.condition.warnings.len() == 0
            && record.load().0.condition.errors.len() <= 1,
        record.run().0.condition.warnings.len() == 0,
        record.run().0.condition.errors.len() <= 1,
        record.load_resume(event).0.condition.warnings.len() <= record.condition.warnings.len()
            + 1,
        record.load_resume(event).0.condition.errors.len() <= record.condition.errors.len() + 1,
{
}

/// The record after a load was started and the first candidates failed to
/// open, one after the other, each for its cause in `causes`.
pub open spec fn after_failed_candidates<V, I>(
    record: DynamicPluginView<V, I>,
    causes: Seq<Seq<char>>,
) -> DynamicPluginView<V, I>
    decreases causes.len(),
{
    if causes.len() == 0 {
        record.load().0
    } else {
        after_failed_candidates(record, causes.drop_last()).load_resume(
            LoadEventView::OpenFailed { cause: causes.last() },
        ).0
    }
}

/// The record after the candidate that is being tried opened as `lib` at
/// `path`, and the module answered every check of the compatibility gate as
/// the host expects.
pub open spec fn after_admission<V, I>(
    record: DynamicPluginView<V, I>,
    lib: Library,
    path: Seq<char>,
    host: CompatibilityView,
    vtable: V,
) -> DynamicPluginView<V, I> {
    record.load_resume(LoadEventView::Opened { lib, path }).0.load_resume(
        LoadEventView::LoaderVersion(PLUGIN_LOADER_VERSION),
    ).0.load_resume(LoadEventView::Compatibility { host, plugin: host }).0.load_resume(
        LoadEventView::EntryTable(vtable),
    ).0
}

/// The warnings recorded for the first paths of `paths`, which failed to open
/// for `causes`.
pub open spec fn open_warnings(paths: Seq<Seq<char>>, causes: Seq<Seq<char>>) -> Seq<Seq<char>> {
    Seq::new(causes.len(), |k: int| open_warning(paths[k], causes[k]))
}

/// Among paths, while candidates fail and paths are left, the record stays
/// `Declared`, holds one warning for each failed path, in order, and no
/// error, and tries the next path.
pub proof fn failed_paths_are_skipped<V, I>(record: DynamicPluginView<V, I>, causes: Seq<Seq<char>>)
    requires
        !record.is_loaded(),
        record.source is ByPaths,
        causes.len() < record.source.candidates().len(),
    ensures
        after_failed_candidates(record, causes) == (DynamicPluginView {
            condition: ConditionView {
                warnings: open_warnings(record.source.candidates(), causes),
                errors: Seq::empty(),
            },
            phase: PhaseView::Opening { next: causes.len(), causes },
            ..record
        }),
    decreases causes.len(),
{
    let paths = record.source.candidates();
    if causes.len() == 0 {
        assert(open_warnings(paths, causes) =~= Seq::empty());
        assert(causes =~= Seq::empty());
    } else {
        let earlier = causes.drop_last();
        failed_paths_are_skipped(record, earlier);
        assert(earlier.push(causes.last()) =~= causes);
        assert(open_warnings(paths, earlier).push(
            open_warning(paths[earlier.len() as int], causes.last()),
        ) =~= open_warnings(paths, causes));
    }
}

/// Among paths the first that opens wins: when the paths before it have
/// failed and its module passes the compatibility gate, the record is
/// `Loaded` from the resolved path of that file, with that module and its
/// table, and holds one warning for each path that failed before.
pub proof fn first_path_that_opens_wins<V, I>(
    record: DynamicPluginView<V, I>,
    causes: Seq<Seq<char>>,
    lib: Library,
    path: Seq<char>,
    host: CompatibilityView,
    vtable: V,
)
    requires
        !record.is_loaded(),
        record.source is ByPaths,
        causes.len() < record.source.candidates().len(),
    ensures
        after_admission(after_failed_candidates(record, causes), lib, path, host, vtable) == (
        DynamicPluginView {
            condition: ConditionView {
                warnings: open_warnings(record.source.candidates(), causes),
                errors: Seq::empty(),
            },
            phase: PhaseView::Loaded { lib, path, vtable },
            ..record
        }),
        after_admission(after_failed_candidates(record, causes), lib, path, host, vtable).path()
            == path,
{
    failed_paths_are_skipped(record, causes);
}

/// Among paths, when every path fails to open, the load fails with an error
/// that names every path and holds every cause; the record stays `Declared`
/// and holds that error and one warning for each path.
pub proof fn load_fails_when_no_path_opens<V, I>(
    record: DynamicPluginView<V, I>,
    causes: Seq<Seq<char>>,
)
    requires
        !record.is_loaded(),
        record.source is ByPaths,
        causes.len() == record.source.candidates().len(),
        causes.len() > 0,
    ensures
        after_failed_candidates(record, causes.drop_last()).load_resume(
            LoadEventView::OpenFailed { cause: causes.last() },
        ).1 == Err::<LoadProgressView, ErrorView>(
            ErrorView::SourceResolutionFailure { paths: record.source.candidates(), causes },
        ),
        after_failed_candidates(record, causes) == (DynamicPluginView {
            condition: ConditionView {
                warnings: open_warnings(record.source.candidates(), causes),
                errors: seq![
                    (ErrorView::SourceResolutionFailure {
                        paths: record.source.candidates(),
                        causes,
                    }).message(),
                ],
            },
            phase: PhaseView::Idle,
            ..record
        }),
        after_failed_candidates(record, causes).state() == PluginState::Declared,
{
    let paths = record.source.candidates();
    let earlier = causes.drop_last();
    failed_paths_are_skipped(record, earlier);
    assert(earlier.push(causes.last()) =~= causes);
    assert(open_warnings(paths, earlier).push(
        open_warning(paths[earlier.len() as int], causes.last()),
    ) =~= open_warnings(paths, causes));
}

} // verus!
