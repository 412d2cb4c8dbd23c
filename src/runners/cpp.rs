use vstd::prelude::*;
use super::{Language, RecipeModel};
use crate::config::SecurityConfig;

verus! {

/// C++, compiled with g++ in C++17 mode and then run.
pub struct Cpp;

impl Language for Cpp {
    open spec fn recipe_model(&self) -> RecipeModel {
        RecipeModel {
            id: "cpp"@,
            image: "compiler-bot-cpp-rt:latest"@,
            invocation: "bash -c 'cat > /output.cpp && g++ -std=c++17 -Wall -Wextra -o /output /output.cpp && /output'"@,
            is_compiled: true,
            file_extension: "cpp"@,
        }
    }

    fn command(&self) -> (r: &'static str) {
        "bash -c 'cat > /output.cpp && g++ -std=c++17 -Wall -Wextra -o /output /output.cpp && /output'"
    }

    fn docker_image(&self) -> (r: &'static str) {
        "compiler-bot-cpp-rt:latest"
    }

    fn file_extension(&self) -> (r: &'static str) {
        "cpp"
    }

    fn is_compiled(&self) -> (r: bool) {
        true
    }

    fn name(&self) -> (r: &'static str) {
        "cpp"
    }

    fn security_config(&self) -> (r: SecurityConfig) {
        SecurityConfig::default_limits()
    }
}

} // verus!
