use compiler_bot::config::BotConfig;
use compiler_bot::docker_executor::{
    Action, DockerExecutor, Event, ExecError, Execution, ExecutionResult, Phase, TIMEOUT_EXIT_CODE,
};

const TOKEN: &str = "0f8fad5b-d9cb-469f-a165-70867728950e";

fn launch_args(a: &Action) -> Vec<String> {
    match a {
        Action::Launch(cmd) => cmd.args.clone(),
        other => panic!("expected a launch, got {:?}", other),
    }
}

fn launched(config: &BotConfig, language: &str, code: &str) -> Execution {
    let (mut x, a) = Execution::start(config, language, code, TOKEN);
    launch_args(&a);
    match x.step(Event::Launched) {
        Action::WriteInput(s) => assert_eq!(s, code),
        other => panic!("expected input, got {:?}", other),
    }
    match x.step(Event::InputWritten) {
        Action::AwaitExit(secs) => assert_eq!(secs, config.security.timeout_duration),
        other => panic!("expected a wait, got {:?}", other),
    }
    x
}

fn finished(a: Action) -> Result<ExecutionResult, ExecError> {
    match a {
        Action::Finish(r) => r,
        other => panic!("expected a finish, got {:?}", other),
    }
}

#[test]
fn empty_source_short_circuits() {
    let config = BotConfig::default();
    for code in ["", "   ", "\n\t  \r\n"] {
        let (x, a) = Execution::start(&config, "python", code, TOKEN);
        assert_eq!(x.phase, Phase::Done);
        assert!(!x.launched);
        let r = finished(a).unwrap();
        assert_eq!(r.stdout, "");
        assert_eq!(r.stderr, "Error: Code is empty or contains only whitespace.");
        assert_eq!(r.exit_code, Some(1));
        assert!(!r.timed_out);
    }
}

#[test]
fn empty_source_wins_over_unknown_language() {
    let (_, a) = Execution::start(&BotConfig::default(), "cobol", " ", TOKEN);
    assert_eq!(finished(a).unwrap().exit_code, Some(1));
}

#[test]
fn unknown_language_is_rejected_without_launch() {
    let (x, a) = Execution::start(&BotConfig::default(), "brainfuck", "+.", TOKEN);
    assert_eq!(x.phase, Phase::Done);
    assert!(!x.launched);
    match finished(a) {
        Err(e) => {
            assert!(matches!(&e, ExecError::UnsupportedLanguage(id) if id == "brainfuck"));
            assert_eq!(e.message(), "Unsupported language: brainfuck");
        }
        Ok(r) => panic!("unexpected result {:?}", r),
    }
}

#[test]
fn launch_uses_recipe_and_unique_name() {
    let (x, a) = Execution::start(&BotConfig::default(), "Python", "print(1)", TOKEN);
    assert_eq!(x.phase, Phase::Launching);
    let name = format!("sandbox_python_{}", TOKEN);
    assert_eq!(x.container_name, name);
    let args = launch_args(&a);
    assert_eq!(args[3], name);
    assert_eq!(args.last().unwrap(), "python3");
}

#[test]
fn timeout_kills_once_and_reports_sentinel() {
    let mut config = BotConfig::default();
    config.security.timeout_duration = 1;
    let mut x = launched(&config, "python", "import time\ntime.sleep(10)");
    let a = x.step(Event::DeadlineReached);
    match a {
        Action::KillThenFinish(cmd, r) => {
            assert_eq!(cmd.program, "docker");
            assert_eq!(cmd.args, vec!["kill".to_string(), x.container_name.clone()]);
            let r = r.unwrap();
            assert!(r.timed_out);
            assert_eq!(r.exit_code, Some(TIMEOUT_EXIT_CODE));
            assert_eq!(r.exit_code, Some(124));
            assert_eq!(r.stdout, "");
            assert_eq!(r.stderr, "Execution timed out.");
        }
        other => panic!("expected a kill, got {:?}", other),
    }
    assert_eq!(x.kills, 1);
    assert_eq!(x.phase, Phase::Done);
    assert!(!x.accepts_event(&Event::DeadlineReached));
}

#[test]
fn python_round_trip() {
    let mut x = launched(&BotConfig::default(), "python", "print('hello')");
    let a = x.step(Event::Exited {
        stdout: b"hello\n".to_vec(),
        stderr: Vec::new(),
        exit_code: Some(0),
    });
    let r = finished(a).unwrap();
    assert!(r.stdout.contains("hello"));
    assert_eq!(r.stdout, "hello\n");
    assert_eq!(r.stderr, "");
    assert_eq!(r.exit_code, Some(0));
    assert!(!r.timed_out);
    assert!(r.succeeded());
    assert!(x.exited);
    assert_eq!(x.kills, 0);
}

#[test]
fn cpp_success_and_compile_error() {
    let code = "#include <cstdio>\nint main() { std::puts(\"ok\"); }\n";
    let (_, a) = Execution::start(&BotConfig::default(), "cpp", code, TOKEN);
    let args = launch_args(&a);
    assert_eq!(args[args.len() - 3], "bash");
    let mut x = launched(&BotConfig::default(), "cpp", code);
    let r = finished(x.step(Event::Exited {
        stdout: b"ok\n".to_vec(),
        stderr: Vec::new(),
        exit_code: Some(0),
    }))
    .unwrap();
    assert_eq!(r.exit_code, Some(0));
    assert!(r.stdout.contains("ok"));

    let mut y = launched(&BotConfig::default(), "cpp", "int main( {");
    let r = finished(y.step(Event::Exited {
        stdout: Vec::new(),
        stderr: b"/output.cpp:1:10: error: expected ')'".to_vec(),
        exit_code: Some(1),
    }))
    .unwrap();
    assert_ne!(r.exit_code, Some(0));
    assert!(!r.stderr.is_empty());
    assert!(!r.succeeded());
}

#[test]
fn output_is_truncated_per_stream() {
    let mut config = BotConfig::default();
    config.output.max_output_length = 3;
    config.output.truncate_suffix = "+".to_string();
    let mut x = launched(&config, "python", "x");
    let r = finished(x.step(Event::Exited {
        stdout: b"abcdef".to_vec(),
        stderr: b"abc".to_vec(),
        exit_code: None,
    }))
    .unwrap();
    assert_eq!(r.stdout, "abc+");
    assert_eq!(r.stderr, "abc");
    assert_eq!(r.exit_code, None);
}

#[test]
fn invalid_output_bytes_are_replaced() {
    let mut x = launched(&BotConfig::default(), "python", "x");
    let r = finished(x.step(Event::Exited {
        stdout: vec![b'a', 0xff, b'b'],
        stderr: Vec::new(),
        exit_code: Some(0),
    }))
    .unwrap();
    assert_eq!(r.stdout, "a\u{fffd}b");
}

#[test]
fn launch_failure_is_reported() {
    let (mut x, _) = Execution::start(&BotConfig::default(), "python", "x", TOKEN);
    let a = x.step(Event::LaunchFailed("not found".to_string()));
    let e = finished(a).unwrap_err();
    assert_eq!(e.message(), "Failed to spawn Docker process: not found");
    assert!(!x.launched);
    assert_eq!(x.kills, 0);
}

#[test]
fn input_failure_kills_then_reports() {
    let (mut x, _) = Execution::start(&BotConfig::default(), "python", "x", TOKEN);
    x.step(Event::Launched);
    match x.step(Event::InputFailed("broken pipe".to_string())) {
        Action::KillThenFinish(cmd, r) => {
            assert_eq!(cmd.args[1], x.container_name);
            let e = r.unwrap_err();
            assert_eq!(e.message(), "Failed to write code to container: broken pipe");
        }
        other => panic!("expected a kill, got {:?}", other),
    }
    assert_eq!(x.kills, 1);
}

#[test]
fn wait_failure_kills_then_reports() {
    let mut x = launched(&BotConfig::default(), "cpp", "int main(){}");
    match x.step(Event::WaitFailed("read error".to_string())) {
        Action::KillThenFinish(cmd, r) => {
            assert_eq!(cmd.args[0], "kill");
            let e = r.unwrap_err();
            assert!(matches!(e, ExecError::Execution(_)));
            assert_eq!(e.message(), "Process execution failed: read error");
        }
        other => panic!("expected a kill, got {:?}", other),
    }
    assert_eq!(x.kills, 1);
}

#[test]
fn events_accepted_by_phase() {
    let (x, _) = Execution::start(&BotConfig::default(), "python", "x", TOKEN);
    assert!(x.accepts_event(&Event::Launched));
    assert!(!x.accepts_event(&Event::InputWritten));
    let y = launched(&BotConfig::default(), "python", "x");
    assert!(y.accepts_event(&Event::DeadlineReached));
    assert!(!y.accepts_event(&Event::Launched));
}

#[test]
fn concurrent_executions_get_distinct_names() {
    let e = DockerExecutor::new();
    let (x1, _) = e.begin("python", "print(1)");
    let (x2, _) = e.begin("python", "print(1)");
    assert_ne!(x1.container_name, x2.container_name);
    for x in [&x1, &x2] {
        let token = x.container_name.strip_prefix("sandbox_python_").unwrap();
        assert_eq!(token.len(), 36);
        assert!(token.chars().all(|c| c.is_ascii_digit() || ('a'..='f').contains(&c) || c == '-'));
    }
    let (a, _) = Execution::start(&e.config, "cpp", "x", "t1");
    let (b, _) = Execution::start(&e.config, "cpp", "x", "t2");
    assert_ne!(a.container_name, b.container_name);
}
