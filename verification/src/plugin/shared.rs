//! The state every thread of the plugin can reach.
use crate::plugin::params::ReverbParamsShared;
use crate::plugin::params::init_of;
use crate::plugin::params::PARAM_COUNT;
use std::sync::Arc;
use vstd::prelude::*;

verus! {

/// The plugin's thread-safe state: the shared parameters.
pub struct ReverbShared {
    pub params: Arc<ReverbParamsShared>,
}

impl Default for ReverbShared {
    /// Shared parameters at their initial values.
    fn default() -> (res: Self)
        ensures
            res.params.params@.len() == PARAM_COUNT,
            forall|i: int|
                0 <= i < PARAM_COUNT ==> #[trigger] res.params.params@[i].initial() == init_of(i),
    {
        ReverbShared { params: Arc::new(ReverbParamsShared::default()) }
    }
}

} // verus!
