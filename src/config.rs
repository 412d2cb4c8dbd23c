//! The resource policy applied to every sandbox.

use vstd::prelude::*;

verus! {

/// Resource caps and time limit applied to every sandbox.
#[derive(Clone, Debug)]
pub struct SecurityConfig {
    pub cpu_limit: String,
    pub memory_limit: String,
    pub pids_limit: u32,
    pub file_descriptor_limit: String,
    pub disable_network: bool,
    /// Wall-clock limit of one execution, in seconds.
    pub timeout_duration: u64,
}

/// How captured output is cut down before it is reported.
#[derive(Clone, Debug)]
pub struct OutputConfig {
    pub max_output_length: usize,
    pub truncate_suffix: String,
}

/// The whole execution policy of a deployment.
#[derive(Clone, Debug)]
pub struct BotConfig {
    pub security: SecurityConfig,
    pub output: OutputConfig,
}

impl SecurityConfig {
    /// A policy is usable only with a positive time limit.
    pub open spec fn wf(&self) -> bool {
        self.timeout_duration > 0
    }

    pub open spec fn is_default(&self) -> bool {
        &&& self.cpu_limit@ == "0.25"@
        &&& self.memory_limit@ == "128m"@
        &&& self.pids_limit == 100
        &&& self.file_descriptor_limit@ == "64:64"@
        &&& self.disable_network
        &&& self.timeout_duration == 60
    }

    /// The default caps: a quarter of a CPU, 128 MiB, 100 processes,
    /// 64 open files, no network and one minute.
    pub fn default_limits() -> (r: SecurityConfig)
        ensures
            r.is_default(),
            r.wf(),
    {
        SecurityConfig {
            cpu_limit: String::from_str("0.25"),
            memory_limit: String::from_str("128m"),
            pids_limit: 100,
            file_descriptor_limit: String::from_str("64:64"),
            disable_network: true,
            timeout_duration: 60,
        }
    }
}

impl OutputConfig {
    /// Output is kept up to a positive number of characters.
    pub open spec fn wf(&self) -> bool {
        self.max_output_length > 0
    }

    pub open spec fn is_default(&self) -> bool {
        &&& self.max_output_length == 1000
        &&& self.truncate_suffix@ == "...\n(truncated)"@
    }
}

impl BotConfig {
    pub open spec fn wf(&self) -> bool {
        self.security.wf() && self.output.wf()
    }

    pub open spec fn is_default(&self) -> bool {
        self.security.is_default() && self.output.is_default()
    }
}

impl Default for BotConfig {
    fn default() -> (r: BotConfig)
        ensures
            r.is_default(),
            r.wf(),
    {
        BotConfig {
            security: SecurityConfig::default_limits(),
            output: OutputConfig {
                max_output_length: 1000,
                truncate_suffix: String::from_str("...\n(truncated)"),
            },
        }
    }
}

} // verus!
