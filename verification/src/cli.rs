//! The arguments of the command line.

use vstd::prelude::*;

verus! {

/// What the command line gives.
#[derive(Debug)]
pub struct AbyssalCli {
    /// Paths of the configuration files; a later file overrides an earlier one.
    pub config_files: Vec<String>,
    /// Where to write the description of the API, if anywhere.
    pub specification_path: Option<String>,
}

impl Clone for AbyssalCli {
    fn clone(&self) -> (r: Self)
        ensures
            r.config_files.deep_view() == self.config_files.deep_view(),
            r.specification_path.deep_view() == self.specification_path.deep_view(),
    {
        AbyssalCli {
            config_files: self.config_files.clone(),
            specification_path: self.specification_path.clone(),
        }
    }
}

} // verus!
