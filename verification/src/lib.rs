//! Lifecycle of the plugins of a long-running host.
//!
//! A plugin is declared, loaded and started: `Declared`, `Loaded`,
//! `Running`. It is compiled into the host, or it lives in a shared library
//! that was built apart from the host. A library is admitted only after it
//! has reported the loader protocol it speaks and the types it was built
//! against, and both agree with the host's.
//!
//! [`manager::PluginsManager`] keeps the records, [`record::PluginRecord`] is
//! one of them, and the traits of [`capability`] are what a record offers in
//! each phase. The lifecycle is defined on the mathematical values of the
//! records ([`record::RecordView`]); [`laws`] holds what follows from it.
//!
//! Nothing here opens a library or calls into one. A record says what is to
//! be done next ([`source::LoadRequest`], [`dynamic::RunProgress`]), and its
//! driver hands back what happened ([`dynamic::LoadEvent`]).

pub mod capability;
pub mod compatibility;
pub mod condition;
pub mod dynamic;
pub mod error;
pub mod laws;
pub mod manager;
pub mod query;
pub mod record;
pub mod source;
pub mod static_plugin;
pub mod text;
