//! The compatibility gate: what a separately built module must report before
//! the host may fetch its entry-point table.
use crate::error::{ErrorView, PluginError};
use crate::text::{decimal_text, push_decimal};
use vstd::prelude::*;
use vstd::string::StringExecFns;

verus! {

/// Version of the protocol by which the host reads a module's entry points.
pub type PluginLoaderVersion = u64;

/// The loader-protocol version this host speaks.
pub const PLUGIN_LOADER_VERSION: PluginLoaderVersion = 1;

/// Fingerprint of one type that host and plugin exchange: the version of its
/// layout and the build features it was compiled with.
#[derive(Debug, PartialEq, Eq)]
pub struct StructVersion {
    pub version: u64,
    pub features: String,
}

/// Mathematical value of a [`StructVersion`].
pub struct StructVersionView {
    pub version: u64,
    pub features: Seq<char>,
}

impl StructVersionView {
    /// `<version> [<features>]`.
    pub open spec fn text(self) -> Seq<char> {
        decimal_text(self.version as nat) + " ["@ + self.features + "]"@
    }
}

impl View for StructVersion {
    type V = StructVersionView;

    open spec fn view(&self) -> StructVersionView {
        StructVersionView { version: self.version, features: self.features@ }
    }
}

impl Clone for StructVersion {
    fn clone(&self) -> (r: Self)
        ensures
            r@ == self@,
    {
        StructVersion { version: self.version, features: self.features.clone() }
    }
}

impl StructVersion {
    pub fn new(version: u64, features: &str) -> (r: Self)
        ensures
            r@ == (StructVersionView { version, features: features@ }),
    {
        StructVersion { version, features: features.to_owned() }
    }

    /// Exact equality of version and features.
    pub fn same_as(&self, other: &Self) -> (r: bool)
        ensures
            r == (self@ == other@),
    {
        self.version == other.version && self.features == other.features
    }

    fn push_text(&self, out: &mut String)
        ensures
            final(out)@ == old(out)@ + self@.text(),
    {
        push_decimal(out, self.version);
        out.append(" [");
        out.append(self.features.as_str());
        out.append("]");
    }
}

/// What a build reports of itself: the loader protocol it speaks and the
/// fingerprints of the start-arguments and instance types it was compiled
/// against.
#[derive(Debug, PartialEq, Eq)]
pub struct Compatibility {
    pub loader_version: PluginLoaderVersion,
    pub start_args: StructVersion,
    pub instance: StructVersion,
}

/// Mathematical value of a [`Compatibility`] record.
pub struct CompatibilityView {
    pub loader_version: PluginLoaderVersion,
    pub start_args: StructVersionView,
    pub instance: StructVersionView,
}

impl CompatibilityView {
    /// Two records are compatible exactly when they are equal field by field:
    /// same loader protocol, same fingerprint of both exchanged types. No
    /// relaxation is applied.
    pub open spec fn are_compatible(self, other: Self) -> bool {
        self == other
    }

    /// One line naming the three components.
    pub open spec fn text(self) -> Seq<char> {
        "loader version: "@ + decimal_text(self.loader_version as nat) + ", start args: "@
            + self.start_args.text() + ", instance: "@ + self.instance.text()
    }
}

impl View for Compatibility {
    type V = CompatibilityView;

    open spec fn view(&self) -> CompatibilityView {
        CompatibilityView {
            loader_version: self.loader_version,
            start_args: self.start_args@,
            instance: self.instance@,
        }
    }
}

impl Clone for Compatibility {
    fn clone(&self) -> (r: Self)
        ensures
            r@ == self@,
    {
        Compatibility {
            loader_version: self.loader_version,
            start_args: self.start_args.clone(),
            instance: self.instance.clone(),
        }
    }
}

impl Compatibility {
    /// The record of a build that speaks this host's loader protocol.
    pub fn new(start_args: StructVersion, instance: StructVersion) -> (r: Self)
        ensures
            r@ == (CompatibilityView {
                loader_version: PLUGIN_LOADER_VERSION,
                start_args: start_args@,
                instance: instance@,
            }),
    {
        Compatibility { loader_version: PLUGIN_LOADER_VERSION, start_args, instance }
    }

    /// Whether the two records are equal field by field.
    pub fn are_compatible(&self, other: &Self) -> (r: bool)
        ensures
            r == self@.are_compatible(other@),
    {
        self.loader_version == other.loader_version && self.start_args.same_as(&other.start_args)
            && self.instance.same_as(&other.instance)
    }

    /// Human-readable rendering, as it appears in diagnostics.
    pub fn describe(&self) -> (r: String)
        ensures
            r@ == self@.text(),
    {
        let mut out = String::from_str("loader version: ");
        push_decimal(&mut out, self.loader_version);
        out.append(", start args: ");
        self.start_args.push_text(&mut out);
        out.append(", instance: ");
        self.instance.push_text(&mut out);
        out
    }
}

/// Outcome of the first gate check on the version a module reports.
pub open spec fn loader_version_verdict(reported: PluginLoaderVersion) -> Result<(), ErrorView> {
    if reported == PLUGIN_LOADER_VERSION {
        Ok(())
    } else {
        Err(ErrorView::LoaderVersionMismatch { host: PLUGIN_LOADER_VERSION, plugin: reported })
    }
}

/// Outcome of the second gate check on the record a module reports.
pub open spec fn compatibility_verdict(host: CompatibilityView, plugin: CompatibilityView) -> Result<
    (),
    ErrorView,
> {
    if plugin.are_compatible(host) {
        Ok(())
    } else {
        Err(ErrorView::CompatibilityMismatch { host, plugin })
    }
}

/// First gate check: the loader-protocol version a module reports must equal
/// the host's exactly.
pub fn check_loader_version(reported: PluginLoaderVersion) -> (r: Result<(), PluginError>)
    ensures
        crate::error::result_view(r) == loader_version_verdict(reported),
{
    if reported == PLUGIN_LOADER_VERSION {
        Ok(())
    } else {
        Err(PluginError::LoaderVersionMismatch { host: PLUGIN_LOADER_VERSION, plugin: reported })
    }
}

/// Second gate check: the record a module reports must be compatible with the
/// host's record for the same exchanged types.
pub fn check_compatibility(host: Compatibility, plugin: Compatibility) -> (r: Result<
    (),
    PluginError,
>)
    ensures
        crate::error::result_view(r) == compatibility_verdict(host@, plugin@),
{
    if plugin.are_compatible(&host) {
        Ok(())
    } else {
        Err(PluginError::CompatibilityMismatch { host, plugin })
    }
}

} // verus!
