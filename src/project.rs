use vstd::prelude::*;
use vstd::string::*;

use crate::text::{snake_of, to_snake};

verus! {

/// What a user gives to create a project.
#[derive(Clone, Debug)]
pub struct ProjectCreationModel {
    pub name: String,
    pub asset_version: String,
}

/// A project's settings; its id is its name in snake case.
#[derive(Clone, Debug)]
pub struct ProjectConfig {
    pub id: String,
    pub name: String,
    pub asset_version: String,
}

impl ProjectConfig {
    pub fn new(name: &str, asset_version: &str) -> (r: Self)
        ensures
            r.id@ == snake_of(name@),
            r.name@ == name@,
            r.asset_version@ == asset_version@,
    {
        ProjectConfig {
            id: to_snake(name),
            name: String::from_str(name),
            asset_version: String::from_str(asset_version),
        }
    }
}

} // verus!
