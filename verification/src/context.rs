//! State shared by every command once the client is configured.
use vstd::prelude::*;

use crate::infrastructure::config::AppConfig;

verus! {

/// The configured client.
#[derive(Debug)]
pub struct AppContext {
    pub config: AppConfig,
}

impl AppContext {
    pub fn new(config: AppConfig) -> (r: Self)
        ensures
            r.config == config,
    {
        AppContext { config }
    }
}

} // verus!
