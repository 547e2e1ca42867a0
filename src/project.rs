//! Projects group the models, datasets and runs of one evaluation effort.
use vstd::prelude::*;

verus! {

/// The fields of a project to create.
#[derive(Clone, Debug)]
pub struct NewProject {
    pub name: String,
    pub description: Option<String>,
}

} // verus!
