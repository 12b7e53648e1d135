//! A plugin runtime: it builds plugins from a local plugin directory and from remote plugin
//! repositories, keeps them in a registry keyed by id, and decides how each script is run.
//! Reading and writing files, fetching URLs and spawning interpreters are left to the caller,
//! which hands the library plain values and performs the actions it returns.
use vstd::prelude::*;

pub mod dispatch;
pub mod error;
pub mod json;
pub mod local;
pub mod manager;
pub mod plugin;
pub mod reconcile;
pub mod remote;
pub mod source;
pub mod text;

verus! {

} // verus!
