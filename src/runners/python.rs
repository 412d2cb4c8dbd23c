use vstd::prelude::*;
use super::{Language, RecipeModel};
use crate::config::SecurityConfig;

verus! {

/// Python 3, whose interpreter reads the program from its input.
pub struct Python;

impl Language for Python {
    open spec fn recipe_model(&self) -> RecipeModel {
        RecipeModel {
            id: "python"@,
            image: "compiler-bot-python-rt:latest"@,
            invocation: "python3"@,
            is_compiled: false,
            file_extension: "py"@,
        }
    }

    fn command(&self) -> (r: &'static str) {
        "python3"
    }

    fn docker_image(&self) -> (r: &'static str) {
        "compiler-bot-python-rt:latest"
    }

    fn file_extension(&self) -> (r: &'static str) {
        "py"
    }

    fn is_compiled(&self) -> (r: bool) {
        false
    }

    fn name(&self) -> (r: &'static str) {
        "python"
    }

    fn security_config(&self) -> (r: SecurityConfig) {
        SecurityConfig::default_limits()
    }
}

} // verus!
