//! A verified configuration layer for POSIX process creation.
//!
//! The library records everything a `posix_spawn` call needs (target path,
//! argument and environment vectors, a set of spawn attributes and an ordered
//! list of file actions), checks it, and lays it out as the null-terminated
//! byte strings that the native call takes. It also turns the native return
//! codes into a structured error. The native calls themselves are made by the
//! caller, with the values that [`PosixSpawn::prepare`] hands back.
mod error;
mod bytes;
mod attr;
mod file_action;
mod spawn;

pub use error::{check_init, check_setter, SpawnError, EINVAL, ESRCH};
pub use bytes::{nul_free, has_nul, with_nul};
pub use attr::{
    apply_change, apply_changes, distinct_facets, empty_attr_state, facet,
    lemma_setter_order_reversible, lemma_setters_commute, AttrChange, AttrState, JetsamLimits,
    PlatformIdentity, PosixSpawnAttr,
};
pub use file_action::{
    lemma_opens_kept_in_order, record_opens, FileOpen, OpenAction, PosixSpawnFileActions,
};
pub use spawn::{
    actions_view, all_nul_free, attr_view, env_entry, native_strings, request_valid,
    spawn_result, strings_view, PosixSpawn, SpawnPlan, SpawnState,
};
