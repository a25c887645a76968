//! Errors of the plugin lifecycle and their human-readable rendering.
use crate::compatibility::{Compatibility, CompatibilityView, PluginLoaderVersion};
use crate::text::{debug_list, debug_list_text, decimal_text, push_decimal, strings_view};
use vstd::prelude::*;
use vstd::string::StringExecFns;

verus! {

/// Why a lifecycle operation failed.
#[allow(inconsistent_fields)]
#[derive(Debug, PartialEq, Eq)]
pub enum PluginError {
    /// No record with this name is registered.
    NotFound { name: String },
    /// The record exists but no module is loaded for it.
    NotLoaded { name: String },
    /// The record is loaded but holds no running instance.
    NotRunning { name: String },
    /// The search context found or opened no module of this name.
    SearchFailure { name: String, cause: String },
    /// None of the candidate paths could be opened; `causes` holds, in order,
    /// what opening each of them reported.
    SourceResolutionFailure { paths: Vec<String>, causes: Vec<String> },
    /// An entry point of the opened module could not be resolved.
    EntryPointFailure { cause: String },
    /// The module speaks another loader protocol than the host.
    LoaderVersionMismatch { host: PluginLoaderVersion, plugin: PluginLoaderVersion },
    /// The module was built against other types than the host.
    CompatibilityMismatch { host: Compatibility, plugin: Compatibility },
    /// The plugin's own start routine failed; `message` is what it reported.
    StartFailure { message: String },
    /// A dynamic plugin was declared on a manager of static plugins only.
    DynamicLoadingDisabled,
    /// A load event arrived that does not answer the pending request.
    UnexpectedEvent,
}

/// Mathematical value of a [`PluginError`].
#[allow(inconsistent_fields)]
pub enum ErrorView {
    NotFound { name: Seq<char> },
    NotLoaded { name: Seq<char> },
    NotRunning { name: Seq<char> },
    SearchFailure { name: Seq<char>, cause: Seq<char> },
    SourceResolutionFailure { paths: Seq<Seq<char>>, causes: Seq<Seq<char>> },
    EntryPointFailure { cause: Seq<char> },
    LoaderVersionMismatch { host: PluginLoaderVersion, plugin: PluginLoaderVersion },
    CompatibilityMismatch { host: CompatibilityView, plugin: CompatibilityView },
    StartFailure { message: Seq<char> },
    DynamicLoadingDisabled,
    UnexpectedEvent,
}

impl ErrorView {
    /// The rendering that is returned to callers and recorded in a record's
    /// condition.
    pub open spec fn message(self) -> Seq<char> {
        match self {
            ErrorView::NotFound { name } => "Plugin `"@ + name + "` not found"@,
            ErrorView::NotLoaded { name } => "Plugin `"@ + name + "` not loaded"@,
            ErrorView::NotRunning { name } => "Plugin `"@ + name + "` is not running"@,
            ErrorView::SearchFailure { name, cause } => cause,
            ErrorView::SourceResolutionFailure { paths, causes } => "Plugin not found in "@
                + debug_list_text(paths),
            ErrorView::EntryPointFailure { cause } => cause,
            ErrorView::LoaderVersionMismatch { host, plugin } =>
                "Plugin loader version mismatch: host = "@ + decimal_text(host as nat)
                    + ", plugin = "@ + decimal_text(plugin as nat),
            ErrorView::CompatibilityMismatch { host, plugin } =>
                "Plugin compatibility mismatch:\n\nHost:\n"@ + host.text() + "\nPlugin:\n"@
                    + plugin.text() + "\n"@,
            ErrorView::StartFailure { message } => message,
            ErrorView::DynamicLoadingDisabled => "Dynamic plugin loading is disabled"@,
            ErrorView::UnexpectedEvent => "Unexpected plugin load event"@,
        }
    }
}

impl View for PluginError {
    type V = ErrorView;

    open spec fn view(&self) -> ErrorView {
        match self {
            PluginError::NotFound { name } => ErrorView::NotFound { name: name@ },
            PluginError::NotLoaded { name } => ErrorView::NotLoaded { name: name@ },
            PluginError::NotRunning { name } => ErrorView::NotRunning { name: name@ },
            PluginError::SearchFailure { name, cause } => ErrorView::SearchFailure {
                name: name@,
                cause: cause@,
            },
            PluginError::SourceResolutionFailure { paths, causes } =>
                ErrorView::SourceResolutionFailure {
                    paths: strings_view(paths@),
                    causes: strings_view(causes@),
                },
            PluginError::EntryPointFailure { cause } => ErrorView::EntryPointFailure {
                cause: cause@,
            },
            PluginError::LoaderVersionMismatch { host, plugin } =>
                ErrorView::LoaderVersionMismatch { host: *host, plugin: *plugin },
            PluginError::CompatibilityMismatch { host, plugin } =>
                ErrorView::CompatibilityMismatch { host: host@, plugin: plugin@ },
            PluginError::StartFailure { message } => ErrorView::StartFailure { message: message@ },
            PluginError::DynamicLoadingDisabled => ErrorView::DynamicLoadingDisabled,
            PluginError::UnexpectedEvent => ErrorView::UnexpectedEvent,
        }
    }
}

/// A result whose error is taken by its mathematical value.
pub open spec fn result_view<T>(r: Result<T, PluginError>) -> Result<T, ErrorView> {
    match r {
        Ok(v) => Ok(v),
        Err(e) => Err(e@),
    }
}

fn named(before: &str, name: &str, after: &str) -> (r: String)
    ensures
        r@ == before@ + name@ + after@,
{
    let mut out = String::from_str(before);
    out.append(name);
    out.append(after);
    out
}

impl PluginError {
    /// The human-readable rendering of this error.
    pub fn message(&self) -> (r: String)
        ensures
            r@ == self@.message(),
    {
        match self {
            PluginError::NotFound { name } => named("Plugin `", name.as_str(), "` not found"),
            PluginError::NotLoaded { name } => named("Plugin `", name.as_str(), "` not loaded"),
            PluginError::NotRunning { name } => named(
                "Plugin `",
                name.as_str(),
                "` is not running",
            ),
            PluginError::SearchFailure { name, cause } => cause.clone(),
            PluginError::SourceResolutionFailure { paths, causes } => {
                let list = debug_list(paths);
                String::from_str("Plugin not found in ").concat(list.as_str())
            },
            PluginError::EntryPointFailure { cause } => cause.clone(),
            PluginError::LoaderVersionMismatch { host, plugin } => {
                let mut out = String::from_str("Plugin loader version mismatch: host = ");
                push_decimal(&mut out, *host);
                out.append(", plugin = ");
                push_decimal(&mut out, *plugin);
                out
            },
            PluginError::CompatibilityMismatch { host, plugin } => {
                let mut out = String::from_str("Plugin compatibility mismatch:\n\nHost:\n");
                out.append(host.describe().as_str());
                out.append("\nPlugin:\n");
                out.append(plugin.describe().as_str());
                out.append("\n");
                out
            },
            PluginError::StartFailure { message } => message.clone(),
            PluginError::DynamicLoadingDisabled => String::from_str(
                "Dynamic plugin loading is disabled",
            ),
            PluginError::UnexpectedEvent => String::from_str("Unexpected plugin load event"),
        }
    }
}

} // verus!
