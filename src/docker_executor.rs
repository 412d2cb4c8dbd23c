//! One execution from validation to teardown, as a state machine: the caller
//! carries out each action and reports what happened.

use vstd::prelude::*;
use crate::config::{BotConfig, OutputConfig};
use crate::runners::{language_ids, lookup, lookup_spec, registry};
use crate::sandbox::{
    container_name, container_name_spec, engine_program, is_token, kill_args, kill_command,
    random_token, run_args, run_command, views, CommandLine,
};
use crate::text::{is_blank, is_blank_text, truncate_output, truncated};

verus! {

/// The exit code reported for an execution that ran out of time.
pub const TIMEOUT_EXIT_CODE: i32 = 124;

/// The outcome of one execution.
#[derive(Debug)]
pub struct ExecutionResult {
    pub stdout: String,
    pub stderr: String,
    pub exit_code: Option<i32>,
    pub timed_out: bool,
}

/// The reasons for which an execution produces no result.
#[derive(Debug)]
pub enum ExecError {
    /// No recipe matches the language identifier, which is kept.
    UnsupportedLanguage(String),
    /// The container engine could not be started.
    Launch(String),
    /// The source could not be handed to the sandbox.
    StdinWrite(String),
    /// Waiting for the sandbox failed for another reason than time.
    Execution(String),
}

/// The text shown to users for an error.
pub open spec fn error_message_spec(e: ExecError) -> Seq<char> {
    match e {
        ExecError::UnsupportedLanguage(id) => "Unsupported language: "@ + id@,
        ExecError::Launch(c) => "Failed to spawn Docker process: "@ + c@,
        ExecError::StdinWrite(c) => "Failed to write code to container: "@ + c@,
        ExecError::Execution(c) => "Process execution failed: "@ + c@,
    }
}

impl ExecError {
    /// The text shown to users for this error.
    pub fn message(&self) -> (r: String)
        ensures
            r@ == error_message_spec(*self),
    {
        match self {
            ExecError::UnsupportedLanguage(id) => {
                String::from_str("Unsupported language: ").concat(id.as_str())
            },
            ExecError::Launch(c) => {
                String::from_str("Failed to spawn Docker process: ").concat(c.as_str())
            },
            ExecError::StdinWrite(c) => {
                String::from_str("Failed to write code to container: ").concat(c.as_str())
            },
            ExecError::Execution(c) => {
                String::from_str("Process execution failed: ").concat(c.as_str())
            },
        }
    }
}

/// The text of captured output, read as UTF-8 with invalid sequences replaced.
pub uninterp spec fn lossy_utf8(b: Seq<u8>) -> Seq<char>;

/// Relies on `String::from_utf8_lossy`: the text depends on the bytes alone,
/// and no bytes give no text.
#[verifier::external_body]
fn decode_output(b: &Vec<u8>) -> (r: String)
    ensures
        r@ == lossy_utf8(b@),
        b@.len() == 0 ==> r@.len() == 0,
{
    String::from_utf8_lossy(b.as_slice()).into_owned()
}

pub open spec fn empty_source_message() -> Seq<char> {
    "Error: Code is empty or contains only whitespace."@
}

pub open spec fn timed_out_message() -> Seq<char> {
    "Execution timed out."@
}

impl ExecutionResult {
    /// The result given without running anything when the source is blank.
    pub open spec fn is_empty_source(&self) -> bool {
        &&& self.stdout@.len() == 0
        &&& self.stderr@ == empty_source_message()
        &&& self.exit_code == Some(1i32)
        &&& !self.timed_out
    }

    /// The result of an execution that ran out of time.
    pub open spec fn is_timeout(&self) -> bool {
        &&& self.stdout@.len() == 0
        &&& self.stderr@ == timed_out_message()
        &&& self.exit_code == Some(TIMEOUT_EXIT_CODE)
        &&& self.timed_out
    }

    /// The result of a sandbox that exited with this output and code.
    pub open spec fn is_completion(
        &self,
        stdout: Seq<char>,
        stderr: Seq<char>,
        exit_code: Option<i32>,
        output: OutputConfig,
    ) -> bool {
        &&& self.stdout@ == truncated(stdout, output.max_output_length as nat, output.truncate_suffix@)
        &&& self.stderr@ == truncated(stderr, output.max_output_length as nat, output.truncate_suffix@)
        &&& self.exit_code == exit_code
        &&& !self.timed_out
    }

    /// The result for a source that holds white space only.
    pub fn empty_source() -> (r: ExecutionResult)
        ensures
            r.is_empty_source(),
    {
        ExecutionResult {
            stdout: String::new(),
            stderr: String::from_str("Error: Code is empty or contains only whitespace."),
            exit_code: Some(1),
            timed_out: false,
        }
    }

    /// The result for a sandbox killed at its deadline; its output is dropped.
    pub fn timeout() -> (r: ExecutionResult)
        ensures
            r.is_timeout(),
    {
        ExecutionResult {
            stdout: String::new(),
            stderr: String::from_str("Execution timed out."),
            exit_code: Some(TIMEOUT_EXIT_CODE),
            timed_out: true,
        }
    }

    /// The result of a sandbox that exited, each stream truncated on its own.
    pub fn completed(stdout: String, stderr: String, exit_code: Option<i32>, output: &OutputConfig) -> (r: ExecutionResult)
        ensures
            r.is_completion(stdout@, stderr@, exit_code, *output),
    {
        ExecutionResult {
            stdout: truncate_output(stdout, output.max_output_length, output.truncate_suffix.as_str()),
            stderr: truncate_output(stderr, output.max_output_length, output.truncate_suffix.as_str()),
            exit_code,
            timed_out: false,
        }
    }

    /// Whether the program ran to its end and reported success.
    pub fn succeeded(&self) -> (r: bool)
        ensures
            r == (self.exit_code == Some(0i32) && !self.timed_out),
    {
        match self.exit_code {
            Some(c) => c == 0 && !self.timed_out,
            None => false,
        }
    }
}

/// Where one execution stands.
#[derive(Clone, Copy, Debug, PartialEq, Eq)]
pub enum Phase {
    /// The sandbox is being started.
    Launching,
    /// The source is being written to the sandbox.
    Writing,
    /// The sandbox runs, under its deadline.
    Running,
    /// The execution has ended.
    Done,
}

/// What the caller saw happen after carrying out the last action.
#[derive(Debug)]
pub enum Event {
    /// The container engine started.
    Launched,
    /// The container engine could not be started, for this reason.
    LaunchFailed(String),
    /// The source was written and the input closed.
    InputWritten,
    /// Writing the source failed, for this reason.
    InputFailed(String),
    /// The sandbox exited in time, with this output and exit code.
    Exited { stdout: Vec<u8>, stderr: Vec<u8>, exit_code: Option<i32> },
    /// Waiting for the sandbox failed, for this reason.
    WaitFailed(String),
    /// The deadline passed before the sandbox exited.
    DeadlineReached,
}

/// What the caller is to do next.
#[derive(Debug)]
pub enum Action {
    /// Start this command with piped input and output.
    Launch(CommandLine),
    /// Write this text to the sandbox's input, then close it.
    WriteInput(String),
    /// Wait for the sandbox to exit and its output to drain, for at most
    /// this many seconds.
    AwaitExit(u64),
    /// Report this outcome; the sandbox is gone or was never started.
    Finish(Result<ExecutionResult, ExecError>),
    /// Run this command to kill the sandbox, whatever comes of it, then
    /// report the outcome.
    KillThenFinish(CommandLine, Result<ExecutionResult, ExecError>),
}

impl Action {
    /// An action after which the execution is over.
    pub open spec fn is_terminal(&self) -> bool {
        self is Finish || self is KillThenFinish
    }
}

/// Whether `a` kills the container called `name`.
pub open spec fn kills_container(a: Action, name: Seq<char>) -> bool {
    match a {
        Action::KillThenFinish(cmd, _) => {
            &&& cmd.program@ == engine_program()
            &&& views(cmd.args@) == kill_args(name)
        },
        _ => false,
    }
}

/// Whether `a` kills the container called `name` and then reports an outcome
/// that meets `p`.
pub open spec fn kills_then(a: Action, name: Seq<char>, p: spec_fn(Result<ExecutionResult, ExecError>) -> bool) -> bool {
    &&& kills_container(a, name)
    &&& match a {
        Action::KillThenFinish(_, res) => p(res),
        _ => false,
    }
}

/// The state of one execution, from launch to teardown.
#[derive(Debug)]
pub struct Execution {
    pub phase: Phase,
    pub container_name: String,
    pub source: String,
    pub timeout_secs: u64,
    pub output: OutputConfig,
    /// The sandbox was started.
    pub launched: bool,
    /// The sandbox exited by itself.
    pub exited: bool,
    /// How many kill commands were issued against the sandbox.
    pub kills: u64,
}

impl Execution {
    /// A started sandbox has, once the execution is over, exited or been killed.
    pub open spec fn cleaned_up(&self) -> bool {
        self.launched ==> (self.exited || self.kills > 0)
    }

    /// At most one kill; nothing started before launch; a running sandbox
    /// neither exited nor killed; a finished execution cleaned up.
    pub open spec fn wf(&self) -> bool {
        &&& self.kills <= 1
        &&& self.phase == Phase::Launching ==> !self.launched && !self.exited && self.kills == 0
        &&& (self.phase == Phase::Writing || self.phase == Phase::Running) ==> {
            self.launched && !self.exited && self.kills == 0
        }
        &&& self.phase == Phase::Done ==> self.cleaned_up()
        &&& !(self.exited && self.kills > 0)
    }

    /// The events that can follow the action of each phase.
    pub open spec fn accepts(&self, e: Event) -> bool {
        match self.phase {
            Phase::Launching => e is Launched || e is LaunchFailed,
            Phase::Writing => e is InputWritten || e is InputFailed,
            Phase::Running => e is Exited || e is WaitFailed || e is DeadlineReached,
            Phase::Done => false,
        }
    }

    /// Whether `e` can follow the action of the current phase.
    pub fn accepts_event(&self, e: &Event) -> (r: bool)
        ensures
            r == self.accepts(*e),
    {
        match self.phase {
            Phase::Launching => matches!(e, Event::Launched) || matches!(e, Event::LaunchFailed(_)),
            Phase::Writing => matches!(e, Event::InputWritten) || matches!(e, Event::InputFailed(_)),
            Phase::Running => matches!(e, Event::Exited { .. }) || matches!(e, Event::WaitFailed(_))
                || matches!(e, Event::DeadlineReached),
            Phase::Done => false,
        }
    }

    /// An execution that is over before anything was launched.
    fn closed(container_name: String, source: String, config: &BotConfig) -> (r: Execution)
        ensures
            r.phase == Phase::Done,
            r.container_name == container_name,
            r.source == source,
            r.timeout_secs == config.security.timeout_duration,
            r.output == config.output,
            !r.launched,
            !r.exited,
            r.kills == 0,
            r.wf(),
    {
        Execution {
            phase: Phase::Done,
            container_name,
            source,
            timeout_secs: config.security.timeout_duration,
            output: OutputConfig {
                max_output_length: config.output.max_output_length,
                truncate_suffix: config.output.truncate_suffix.clone(),
            },
            launched: false,
            exited: false,
            kills: 0,
        }
    }
}

/// What starting an execution of `code` in `language` under `config`, with
/// `token` to name the sandbox, gives: nothing is launched for a blank source
/// or an unknown language; otherwise the sandbox of the language's recipe is
/// launched under the policy's limits.
pub open spec fn started(
    config: BotConfig,
    language: Seq<char>,
    code: Seq<char>,
    token: Seq<char>,
    x: Execution,
    a: Action,
) -> bool {
    &&& x.wf()
    &&& x.source@ == code
    &&& x.timeout_secs == config.security.timeout_duration
    &&& x.output == config.output
    &&& if is_blank(code) {
        &&& x.phase == Phase::Done
        &&& !x.launched
        &&& match a {
            Action::Finish(Ok(res)) => res.is_empty_source(),
            _ => false,
        }
    } else {
        match lookup_spec(language) {
            None => {
                &&& x.phase == Phase::Done
                &&& !x.launched
                &&& match a {
                    Action::Finish(Err(ExecError::UnsupportedLanguage(id))) => id@ == language,
                    _ => false,
                }
            },
            Some(recipe) => {
                &&& x.phase == Phase::Launching
                &&& x.container_name@ == container_name_spec(recipe.id, token)
                &&& match a {
                    Action::Launch(cmd) => {
                        &&& cmd.program@ == engine_program()
                        &&& views(cmd.args@) == run_args(recipe, config.security, x.container_name@)
                    },
                    _ => false,
                }
            },
        }
    }
}

/// What one step does to an execution `x`, given `e`, leading to `y` and `a`.
pub open spec fn stepped(x: Execution, e: Event, y: Execution, a: Action) -> bool {
    &&& y.container_name == x.container_name
    &&& y.source == x.source
    &&& y.timeout_secs == x.timeout_secs
    &&& y.output == x.output
    &&& match e {
        Event::Launched => {
            &&& y.phase == Phase::Writing
            &&& y.launched && !y.exited && y.kills == x.kills
            &&& match a {
                Action::WriteInput(s) => s@ == x.source@,
                _ => false,
            }
        },
        Event::LaunchFailed(cause) => {
            &&& y.phase == Phase::Done
            &&& !y.launched && !y.exited && y.kills == x.kills
            &&& match a {
                Action::Finish(Err(ExecError::Launch(c))) => c@ == cause@,
                _ => false,
            }
        },
        Event::InputWritten => {
            &&& y.phase == Phase::Running
            &&& y.launched && !y.exited && y.kills == x.kills
            &&& a == Action::AwaitExit(x.timeout_secs)
        },
        Event::InputFailed(cause) => {
            &&& y.phase == Phase::Done
            &&& y.launched && !y.exited && y.kills == x.kills + 1
            &&& kills_then(a, x.container_name@, |r: Result<ExecutionResult, ExecError>|
                match r {
                    Err(ExecError::StdinWrite(c)) => c@ == cause@,
                    _ => false,
                })
        },
        Event::Exited { stdout, stderr, exit_code } => {
            &&& y.phase == Phase::Done
            &&& y.launched && y.exited && y.kills == x.kills
            &&& match a {
                Action::Finish(Ok(res)) => res.is_completion(
                    lossy_utf8(stdout@),
                    lossy_utf8(stderr@),
                    exit_code,
                    x.output,
                ),
                _ => false,
            }
        },
        Event::WaitFailed(cause) => {
            &&& y.phase == Phase::Done
            &&& y.launched && !y.exited && y.kills == x.kills + 1
            &&& kills_then(a, x.container_name@, |r: Result<ExecutionResult, ExecError>|
                match r {
                    Err(ExecError::Execution(c)) => c@ == cause@,
                    _ => false,
                })
        },
        Event::DeadlineReached => {
            &&& y.phase == Phase::Done
            &&& y.launched && !y.exited && y.kills == x.kills + 1
            &&& kills_then(a, x.container_name@, |r: Result<ExecutionResult, ExecError>|
                match r {
                    Ok(res) => res.is_timeout(),
                    _ => false,
                })
        },
    }
}

impl Execution {
    /// Starts an execution with `token` as the unique part of the sandbox's name.
    pub fn start(config: &BotConfig, language: &str, code: &str, token: &str) -> (r: (Execution, Action))
        ensures
            started(*config, language@, code@, token@, r.0, r.1),
    {
        let source = String::from_str(code);
        if is_blank_text(code) {
            let x = Execution::closed(String::new(), source, config);
            return (x, Action::Finish(Ok(ExecutionResult::empty_source())));
        }
        match lookup(language) {
            None => {
                let x = Execution::closed(String::new(), source, config);
                (x, Action::Finish(Err(ExecError::UnsupportedLanguage(String::from_str(language)))))
            },
            Some(recipe) => {
                let name = container_name(recipe.id, token);
                let cmd = run_command(&recipe, &config.security, name.as_str());
                let mut x = Execution::closed(name, source, config);
                x.phase = Phase::Launching;
                (x, Action::Launch(cmd))
            },
        }
    }

    fn kill_then(&mut self, outcome: Result<ExecutionResult, ExecError>) -> (a: Action)
        requires
            old(self).kills == 0,
        ensures
            *final(self) == (Execution { phase: Phase::Done, kills: 1, ..*old(self) }),
            match a {
                Action::KillThenFinish(cmd, res) => {
                    &&& cmd.program@ == engine_program()
                    &&& views(cmd.args@) == kill_args(old(self).container_name@)
                    &&& res == outcome
                },
                _ => false,
            },
    {
        let cmd = kill_command(self.container_name.as_str());
        self.phase = Phase::Done;
        self.kills = 1;
        Action::KillThenFinish(cmd, outcome)
    }

    /// Takes the execution one step further on what the caller observed.
    pub fn step(&mut self, event: Event) -> (a: Action)
        requires
            old(self).wf(),
            old(self).accepts(event),
        ensures
            final(self).wf(),
            stepped(*old(self), event, *final(self), a),
    {
        match event {
            Event::Launched => {
                self.phase = Phase::Writing;
                self.launched = true;
                Action::WriteInput(self.source.clone())
            },
            Event::LaunchFailed(cause) => {
                self.phase = Phase::Done;
                Action::Finish(Err(ExecError::Launch(cause)))
            },
            Event::InputWritten => {
                self.phase = Phase::Running;
                Action::AwaitExit(self.timeout_secs)
            },
            Event::InputFailed(cause) => self.kill_then(Err(ExecError::StdinWrite(cause))),
            Event::Exited { stdout, stderr, exit_code } => {
                self.phase = Phase::Done;
                self.exited = true;
                let out = decode_output(&stdout);
                let err = decode_output(&stderr);
                Action::Finish(Ok(ExecutionResult::completed(out, err, exit_code, &self.output)))
            },
            Event::WaitFailed(cause) => self.kill_then(Err(ExecError::Execution(cause))),
            Event::DeadlineReached => self.kill_then(Ok(ExecutionResult::timeout())),
        }
    }
}

/// Every outcome that ends an execution leaves its sandbox, if one was
/// started, either exited by itself or killed.
pub proof fn lemma_terminal_outcome_cleaned_up(x: Execution, e: Event, y: Execution, a: Action)
    requires
        x.wf(),
        x.accepts(e),
        stepped(x, e, y, a),
        a.is_terminal(),
    ensures
        y.phase == Phase::Done,
        y.launched ==> (y.exited || y.kills > 0),
{
}

/// Two executions started with distinct tokens run in distinct containers,
/// and no kill that a step of the first one issues, at any later point,
/// reaches the container of the second.
pub proof fn lemma_executions_isolated(
    config: BotConfig,
    l1: Seq<char>,
    c1: Seq<char>,
    t1: Seq<char>,
    x1: Execution,
    a1: Action,
    l2: Seq<char>,
    c2: Seq<char>,
    t2: Seq<char>,
    x2: Execution,
    a2: Action,
)
    requires
        is_token(t1),
        is_token(t2),
        t1 != t2,
        started(config, l1, c1, t1, x1, a1),
        started(config, l2, c2, t2, x2, a2),
        x1.phase == Phase::Launching,
        x2.phase == Phase::Launching,
    ensures
        x1.container_name@ != x2.container_name@,
        forall|x: Execution, e: Event, y: Execution, a: Action|
            x.container_name@ == x1.container_name@ && #[trigger] stepped(x, e, y, a)
                && (a is KillThenFinish) ==> {
                &&& kills_container(a, x1.container_name@)
                &&& !kills_container(a, x2.container_name@)
            },
{
    let r1 = lookup_spec(l1).unwrap();
    let r2 = lookup_spec(l2).unwrap();
    crate::sandbox::lemma_container_names_distinct(r1.id, t1, r2.id, t2);
    assert forall|x: Execution, e: Event, y: Execution, a: Action|
        x.container_name@ == x1.container_name@ && #[trigger] stepped(x, e, y, a)
            && (a is KillThenFinish) implies {
            &&& kills_container(a, x1.container_name@)
            &&& !kills_container(a, x2.container_name@)
        } by {
        if let Action::KillThenFinish(cmd, _) = a {
            if kills_container(a, x2.container_name@) {
                assert(kill_args(x1.container_name@)[1] == kill_args(x2.container_name@)[1]);
            }
        }
    }
}

/// Runs code in sandboxes under one policy.
pub struct DockerExecutor {
    pub config: BotConfig,
}

impl DockerExecutor {
    /// An executor with the default policy.
    pub fn new() -> (r: DockerExecutor)
        ensures
            r.config.is_default(),
            r.config.wf(),
    {
        DockerExecutor { config: BotConfig::default() }
    }

    /// The identifiers of the supported languages, exactly those of the registry.
    pub fn supported_languages(&self) -> (r: Vec<&'static str>)
        ensures
            r@.len() == registry().len(),
            forall|i: int| 0 <= i < r@.len() ==> (#[trigger] r@[i])@ == registry()[i].id,
    {
        language_ids()
    }

    /// Starts an execution whose sandbox gets a fresh random name.
    pub fn begin(&self, language: &str, code: &str) -> (r: (Execution, Action))
        ensures
            exists|t: Seq<char>| is_token(t) && started(self.config, language@, code@, t, r.0, r.1),
    {
        let token = random_token();
        Execution::start(&self.config, language, code, token.as_str())
    }
}

impl Default for DockerExecutor {
    fn default() -> (r: DockerExecutor)
        ensures
            r.config.is_default(),
    {
        DockerExecutor::new()
    }
}

} // verus!
