//! Where the module of a dynamic plugin is looked for.
use crate::error::{ErrorView, PluginError};
use crate::text::{clone_strings, strings_view};
use vstd::prelude::*;
use zenoh_util::LibLoader;

verus! {

/// `zenoh_util::LibLoader`, the search context that locates a library by
/// name in its directories. It is only carried from the manager to whoever
/// performs the search; nothing is claimed of what it holds.
#[verifier::external_type_specification]
#[verifier::external_body]
pub struct ExLibLoader(LibLoader);

/// `LibLoader::clone`, which `zenoh_util` derives for a struct whose one field
/// is the list of search directories: the copy holds the same directories, and
/// is taken for the same value.
#[verifier::external_body]
pub(crate) fn clone_loader(loader: &LibLoader) -> (r: LibLoader)
    ensures
        r == *loader,
{
    loader.clone()
}

/// Where to load the module of a dynamic plugin from.
pub enum DynamicPluginSource {
    /// The library of this name (the platform's prefix and suffix are added by
    /// the search) in the search context's directories.
    ByName((LibLoader, String)),
    /// The first file that opens among these paths, absolute or relative to
    /// the working directory, tried in order.
    ByPaths(Vec<String>),
}

/// Mathematical value of a [`DynamicPluginSource`].
#[verifier::ext_equal]
pub enum SourceView {
    ByName { loader: LibLoader, name: Seq<char> },
    ByPaths { paths: Seq<Seq<char>> },
}

/// What the driver of a load is asked to do next. It answers with the
/// matching [`crate::dynamic::LoadEvent`].
#[derive(Debug, PartialEq, Eq)]
pub enum LoadRequest {
    /// Let the record's search context locate and open the library `name`.
    Search { name: String },
    /// Open the file at `path`.
    Open { path: String },
    /// Call `get_plugin_loader_version` of the opened module.
    ReadLoaderVersion,
    /// Call `get_compatibility` of the opened module.
    ReadCompatibility,
    /// Call `load_plugin` of the opened module.
    FetchEntryTable,
}

/// Mathematical value of a [`LoadRequest`].
#[verifier::ext_equal]
pub enum LoadRequestView {
    Search { name: Seq<char> },
    Open { path: Seq<char> },
    ReadLoaderVersion,
    ReadCompatibility,
    FetchEntryTable,
}

impl View for LoadRequest {
    type V = LoadRequestView;

    open spec fn view(&self) -> LoadRequestView {
        match self {
            LoadRequest::Search { name } => LoadRequestView::Search { name: name@ },
            LoadRequest::Open { path } => LoadRequestView::Open { path: path@ },
            LoadRequest::ReadLoaderVersion => LoadRequestView::ReadLoaderVersion,
            LoadRequest::ReadCompatibility => LoadRequestView::ReadCompatibility,
            LoadRequest::FetchEntryTable => LoadRequestView::FetchEntryTable,
        }
    }
}

impl LoadRequestView {
    /// The name under which a module exports the function that the request
    /// asks to call; `None` for a request that calls nothing.
    pub open spec fn symbol(self) -> Option<Seq<char>> {
        match self {
            LoadRequestView::ReadLoaderVersion => Some("get_plugin_loader_version"@),
            LoadRequestView::ReadCompatibility => Some("get_compatibility"@),
            LoadRequestView::FetchEntryTable => Some("load_plugin"@),
            _ => None,
        }
    }
}

impl LoadRequest {
    /// The name under which a module exports the function that the request
    /// asks to call. The function takes nothing and returns, in this order
    /// of the requests: the loader-protocol version, the compatibility
    /// record, the entry-point table.
    pub fn symbol(&self) -> (r: Option<&'static str>)
        ensures
            match r {
                Some(name) => self@.symbol() == Some(name@),
                None => self@.symbol() is None,
            },
    {
        match self {
            LoadRequest::ReadLoaderVersion => Some("get_plugin_loader_version"),
            LoadRequest::ReadCompatibility => Some("get_compatibility"),
            LoadRequest::FetchEntryTable => Some("load_plugin"),
            _ => None,
        }
    }
}

impl SourceView {
    /// The candidates, in the order in which they are tried: the one name, or
    /// the paths.
    pub open spec fn candidates(self) -> Seq<Seq<char>> {
        match self {
            SourceView::ByName { loader, name } => seq![name],
            SourceView::ByPaths { paths } => paths,
        }
    }

    /// The request that tries candidate `i`.
    pub open spec fn request(self, i: int) -> LoadRequestView
        recommends
            0 <= i < self.candidates().len(),
    {
        match self {
            SourceView::ByName { loader, name } => LoadRequestView::Search { name },
            SourceView::ByPaths { paths } => LoadRequestView::Open { path: paths[i] },
        }
    }

    /// The error of a resolution in which every candidate failed; `causes`
    /// holds what each attempt reported, in order. A search by name hands on
    /// what the search context reported.
    pub open spec fn exhausted(self, causes: Seq<Seq<char>>) -> ErrorView {
        match self {
            SourceView::ByName { loader, name } => ErrorView::SearchFailure {
                name,
                cause: if causes.len() > 0 {
                    causes.last()
                } else {
                    Seq::empty()
                },
            },
            SourceView::ByPaths { paths } => ErrorView::SourceResolutionFailure { paths, causes },
        }
    }

    /// The first step of a resolution: the request for the first candidate, or
    /// the failure of a source without candidates.
    pub open spec fn first_request(self) -> Result<LoadRequestView, ErrorView> {
        if self.candidates().len() == 0 {
            Err(self.exhausted(Seq::empty()))
        } else {
            Ok(self.request(0))
        }
    }
}

/// A request or an error, each by its mathematical value.
pub open spec fn request_result_view(r: Result<LoadRequest, PluginError>) -> Result<
    LoadRequestView,
    ErrorView,
> {
    match r {
        Ok(request) => Ok(request@),
        Err(e) => Err(e@),
    }
}

impl View for DynamicPluginSource {
    type V = SourceView;

    open spec fn view(&self) -> SourceView {
        match self {
            DynamicPluginSource::ByName((loader, name)) => SourceView::ByName {
                loader: *loader,
                name: name@,
            },
            DynamicPluginSource::ByPaths(paths) => SourceView::ByPaths {
                paths: strings_view(paths@),
            },
        }
    }
}

impl DynamicPluginSource {
    /// Number of candidates this source offers.
    pub fn candidate_count(&self) -> (n: usize)
        ensures
            n == self@.candidates().len(),
    {
        match self {
            DynamicPluginSource::ByName(_) => 1,
            DynamicPluginSource::ByPaths(paths) => paths.len(),
        }
    }

    /// The request that tries candidate `i`.
    pub(crate) fn request(&self, i: usize) -> (r: LoadRequest)
        requires
            i < self@.candidates().len(),
        ensures
            r@ == self@.request(i as int),
    {
        match self {
            DynamicPluginSource::ByName((_, name)) => LoadRequest::Search { name: name.clone() },
            DynamicPluginSource::ByPaths(paths) => LoadRequest::Open { path: paths[i].clone() },
        }
    }

    /// The error of a resolution in which every candidate failed.
    pub(crate) fn exhausted(&self, causes: Vec<String>) -> (e: PluginError)
        ensures
            e@ == self@.exhausted(strings_view(causes@)),
    {
        match self {
            DynamicPluginSource::ByName((_, name)) => {
                let cause = if causes.len() > 0 {
                    causes[causes.len() - 1].clone()
                } else {
                    String::new()
                };
                PluginError::SearchFailure { name: name.clone(), cause }
            },
            DynamicPluginSource::ByPaths(paths) => PluginError::SourceResolutionFailure {
                paths: clone_strings(paths.as_slice()),
                causes,
            },
        }
    }

    /// The first step of a resolution.
    pub fn first_request(&self) -> (r: Result<LoadRequest, PluginError>)
        ensures
            request_result_view(r) == self@.first_request(),
    {
        if self.candidate_count() == 0 {
            let e = self.exhausted(Vec::new());
            assert(strings_view(Seq::<String>::empty()) =~= Seq::<Seq<char>>::empty());
            Err(e)
        } else {
            Ok(self.request(0))
        }
    }
}

} // verus!
