use autoves::argv::InvocationRequest;
use autoves::commands::Command;
use autoves::detector::Timestamp;
use autoves::lifecycle::interrupted;
use autoves::lifecycle::fatal_report;
use autoves::lifecycle::Action;
use autoves::lifecycle::Controller;
use autoves::lifecycle::Event;
use autoves::lifecycle::ExitStatus;
use autoves::lifecycle::Phase;
use autoves::lifecycle::Step;
use autoves::lifecycle::POLL_INTERVAL_MS;
use autoves::mode::LatexType;
use autoves::outcome::Defect;
use autoves::outcome::InvocationOutcome;
use autoves::outcome::Output;
use autoves::outcome::Severity;
use autoves::platform::Platform;

const STATUS_LINE: &str = "Press Ctrl+C to exit...\n";

fn command(xe: bool, lua: bool) -> Command {
    Command {
        filename: String::from("doc.ves"),
        is_plain: false,
        is_pdf: false,
        is_xe: xe,
        is_lua: lua,
        has_sub: false,
    }
}

fn polled(nanos: i128) -> Event {
    Event::Polled(Timestamp::from_unix_nanos(nanos))
}

fn compiled(success: bool, stdout: &[u8], stderr: &[u8]) -> Event {
    Event::Compiled(InvocationOutcome { success, stdout: stdout.to_vec(), stderr: stderr.to_vec() })
}

fn request(latex_type: LatexType, platform: Platform) -> InvocationRequest {
    InvocationRequest { filename: String::from("doc.ves"), latex_type, platform }
}

fn status_only() -> Step {
    Step { outputs: vec![Output::Stdout(String::from(STATUS_LINE))], action: Action::Poll { after_ms: 300 } }
}

fn watching(platform: Platform) -> Controller {
    Controller::start(&command(false, false), platform).0
}

#[test]
fn polling_interval_is_300_ms() {
    assert_eq!(POLL_INTERVAL_MS, 300);
}

#[test]
fn start_watches_and_asks_for_a_poll() {
    let (controller, action) = Controller::start(&command(false, false), Platform::Other);
    assert_eq!(action, Action::Poll { after_ms: 300 });
    assert_eq!(controller.phase, Phase::Watching);
    assert_eq!(controller.filename, "doc.ves");
    assert_eq!(controller.latex_type, LatexType::PdfLatex);
    assert_eq!(controller.platform, Platform::Other);
    assert!(controller.watch.is_first_tick());
}

#[test]
fn first_tick_compiles_with_pdf_when_no_flag_is_given() {
    let (controller, step) = watching(Platform::Other).step(polled(1_000));
    assert_eq!(
        step,
        Step { outputs: vec![], action: Action::Compile(request(LatexType::PdfLatex, Platform::Other)) }
    );
    assert_eq!(controller.phase, Phase::Watching);
    match step.action {
        Action::Compile(request) => assert_eq!(request.argv(), vec!["compile", "-p", "doc.ves"]),
        _ => unreachable!(),
    }
}

#[test]
fn first_tick_on_windows_adds_the_prompt_flag() {
    let (_, step) = watching(Platform::Windows).step(polled(1_000));
    match step.action {
        Action::Compile(request) => {
            assert_eq!(request.argv(), vec!["compile", "-N", "-p", "doc.ves"])
        }
        _ => unreachable!(),
    }
}

#[test]
fn xe_and_lua_flags_compile_with_xe() {
    let (controller, action) = Controller::start(&command(true, true), Platform::Other);
    assert_eq!(action, Action::Poll { after_ms: 300 });
    assert_eq!(controller.latex_type, LatexType::XeLatex);
    let (_, step) = controller.step(polled(7));
    match step.action {
        Action::Compile(request) => {
            let argv = request.argv();
            assert_eq!(&argv[argv.len() - 2..], ["-x", "doc.ves"]);
        }
        _ => unreachable!(),
    }
}

#[test]
fn failed_compile_is_reported_and_the_watch_goes_on() {
    let (controller, step) = watching(Platform::Other).step(polled(10));
    assert!(matches!(step.action, Action::Compile(_)));
    let (controller, step) = controller.step(compiled(false, b"warn", b"err"));
    assert_eq!(step.action, Action::Poll { after_ms: 300 });
    assert_eq!(step.outputs.len(), 2);
    assert_eq!(
        step.outputs[0],
        Output::Stderr(String::from("vesti compilation failed.\n[stdout]\nwarn\n[stderr]\nerr\n"))
    );
    match &step.outputs[0] {
        Output::Stderr(text) => {
            assert!(text.contains("warn"));
            assert!(text.contains("err"));
        }
        _ => unreachable!(),
    }
    assert_eq!(step.outputs[1], Output::Stdout(String::from(STATUS_LINE)));
    assert_eq!(controller.phase, Phase::Watching);
    let (controller, step) = controller.step(polled(10));
    assert_eq!(step, Step { outputs: vec![], action: Action::Poll { after_ms: 300 } });
    assert_eq!(controller.phase, Phase::Watching);
}

#[test]
fn failed_compile_on_windows_is_shown_in_a_dialog() {
    let (controller, _) = watching(Platform::Windows).step(polled(10));
    let (_, step) = controller.step(compiled(false, b"warn", b"err"));
    assert_eq!(
        step,
        Step {
            outputs: vec![
                Output::Alert {
                    severity: Severity::Warning,
                    title: String::from("autoves warning"),
                    text: String::from("vesti compilation failed.\n[stdout]\nwarn\n[stderr]\nerr\n"),
                },
                Output::Stdout(String::from(STATUS_LINE)),
            ],
            action: Action::Poll { after_ms: 300 },
        }
    );
}

#[test]
fn successful_compile_prints_only_the_status_line() {
    let (controller, _) = watching(Platform::Other).step(polled(10));
    let (controller, step) = controller.step(compiled(true, b"done", b""));
    assert_eq!(step, status_only());
    assert_eq!(controller.phase, Phase::Watching);
}

#[test]
fn unchanged_file_is_compiled_once() {
    let mut controller = watching(Platform::Other);
    let mut compiles: usize = 0;
    for _ in 0..5 {
        let (next, step) = controller.step(polled(10));
        controller = next;
        if let Action::Compile(_) = step.action {
            compiles += 1;
            let (next, step) = controller.step(compiled(true, b"", b""));
            assert_eq!(step, status_only());
            controller = next;
        } else {
            assert_eq!(step, Step { outputs: vec![], action: Action::Poll { after_ms: 300 } });
        }
    }
    assert_eq!(compiles, 1);
}

#[test]
fn newer_file_is_compiled_again_and_older_is_not() {
    let (controller, _) = watching(Platform::Other).step(polled(10));
    let (controller, step) = controller.step(polled(11));
    assert_eq!(step.action, Action::Compile(request(LatexType::PdfLatex, Platform::Other)));
    let (controller, step) = controller.step(polled(9));
    assert_eq!(step.action, Action::Poll { after_ms: 300 });
    let (_, step) = controller.step(polled(10));
    assert_eq!(step.action, Action::Compile(request(LatexType::PdfLatex, Platform::Other)));
}

#[test]
fn deleted_file_ends_the_watch_with_failure() {
    let (controller, _) = watching(Platform::Other).step(polled(10));
    let (controller, _) = controller.step(compiled(true, b"", b""));
    let (controller, step) =
        controller.step(Event::PollFailed(String::from("No such file or directory (os error 2)")));
    assert_eq!(
        step,
        Step {
            outputs: vec![Output::Stderr(String::from(
                "autoves error: No such file or directory (os error 2)\n"
            ))],
            action: Action::Exit(ExitStatus::Failure),
        }
    );
    assert_eq!(controller.phase, Phase::Failed);
    let (controller, step) = controller.step(polled(11));
    assert_eq!(step, Step { outputs: vec![], action: Action::Exit(ExitStatus::Failure) });
    assert_eq!(controller.phase, Phase::Failed);
}

#[test]
fn missing_file_at_the_first_poll_is_fatal() {
    let (controller, step) = watching(Platform::Other).step(Event::PollFailed(String::from("gone")));
    assert_eq!(step.action, Action::Exit(ExitStatus::Failure));
    assert_eq!(step.outputs, vec![Output::Stderr(String::from("autoves error: gone\n"))]);
    assert_eq!(controller.phase, Phase::Failed);
}

#[test]
fn fatal_error_on_windows_shows_a_dialog_first() {
    let expected = vec![
        Output::Alert {
            severity: Severity::Error,
            title: String::from("autoves error"),
            text: String::from("autoves error occurs. See the console for more information"),
        },
        Output::Stderr(String::from("autoves error: gone\n")),
    ];
    assert_eq!(fatal_report(Platform::Windows, "gone"), expected);
    let (_, step) = watching(Platform::Windows).step(Event::PollFailed(String::from("gone")));
    assert_eq!(step, Step { outputs: expected, action: Action::Exit(ExitStatus::Failure) });
}

#[test]
fn interrupt_during_the_sleep_ends_with_success() {
    let (controller, step) = watching(Platform::Other).step(polled(10));
    assert!(matches!(step.action, Action::Compile(_)));
    let (controller, step) = controller.step(compiled(true, b"", b""));
    assert_eq!(step.action, Action::Poll { after_ms: 300 });
    let (controller, step) = controller.step(Event::Interrupted);
    assert_eq!(
        step,
        Step {
            outputs: vec![Output::Stdout(String::from("exit autoves...\n"))],
            action: Action::Exit(ExitStatus::Success),
        }
    );
    assert_eq!(controller.phase, Phase::Terminating);
    let (controller, step) = controller.step(polled(11));
    assert_eq!(step, Step { outputs: vec![], action: Action::Exit(ExitStatus::Success) });
    assert_eq!(controller.phase, Phase::Terminating);
}

#[test]
fn interrupt_before_the_first_poll_ends_with_success() {
    let (controller, step) = watching(Platform::Windows).step(Event::Interrupted);
    assert_eq!(step, interrupted());
    assert_eq!(controller.phase, Phase::Terminating);
}

#[test]
fn interrupt_during_a_compile_does_not_wait_for_it() {
    let (controller, step) = watching(Platform::Other).step(polled(10));
    assert!(matches!(step.action, Action::Compile(_)));
    let (controller, step) = controller.step(Event::Interrupted);
    assert_eq!(step.action, Action::Exit(ExitStatus::Success));
    let (_, step) = controller.step(compiled(false, b"warn", b"err"));
    assert_eq!(step, Step { outputs: vec![], action: Action::Exit(ExitStatus::Success) });
}

#[test]
fn interrupted_needs_no_state() {
    assert_eq!(
        interrupted(),
        Step {
            outputs: vec![Output::Stdout(String::from("exit autoves...\n"))],
            action: Action::Exit(ExitStatus::Success),
        }
    );
}

#[test]
fn spawn_failure_aborts() {
    let (controller, _) = watching(Platform::Other).step(polled(10));
    let (controller, step) = controller.step(Event::SpawnFailed);
    assert_eq!(step, Step { outputs: vec![], action: Action::Abort(Defect::SpawnFailed) });
    assert_eq!(controller.phase, Phase::Failed);
    let (_, step) = controller.step(polled(11));
    assert_eq!(step.action, Action::Exit(ExitStatus::Failure));
}

#[test]
fn malformed_output_of_a_failed_compile_aborts() {
    let (controller, _) = watching(Platform::Other).step(polled(10));
    let (after, step) = controller.clone().step(compiled(false, &[0xff], b"err"));
    assert_eq!(step, Step { outputs: vec![], action: Action::Abort(Defect::MalformedStdout) });
    assert_eq!(after.phase, Phase::Failed);
    let (after, step) = controller.step(compiled(false, b"warn", &[0xff]));
    assert_eq!(step, Step { outputs: vec![], action: Action::Abort(Defect::MalformedStderr) });
    assert_eq!(after.phase, Phase::Failed);
}

#[test]
fn malformed_output_of_a_successful_compile_is_ignored() {
    let (controller, _) = watching(Platform::Other).step(polled(10));
    let (controller, step) = controller.step(compiled(true, &[0xff], &[0xff]));
    assert_eq!(step, status_only());
    assert_eq!(controller.phase, Phase::Watching);
}

#[test]
fn request_names_file_backend_and_platform() {
    let (controller, _) = Controller::start(&command(false, true), Platform::Windows);
    assert_eq!(controller.request(), request(LatexType::LuaLatex, Platform::Windows));
}

#[test]
fn exit_codes_are_zero_for_success_only() {
    assert_eq!(ExitStatus::Success.code(), 0);
    assert_eq!(ExitStatus::Failure.code(), 1);
}

#[test]
fn every_poll_waits_for_the_polling_interval() {
    let (controller, action) = Controller::start(&command(false, false), Platform::Other);
    assert_eq!(action, Action::Poll { after_ms: POLL_INTERVAL_MS });
    let (controller, _) = controller.step(polled(1));
    let (controller, step) = controller.step(compiled(true, b"", b""));
    assert_eq!(step.action, Action::Poll { after_ms: POLL_INTERVAL_MS });
    let (_, step) = controller.step(polled(1));
    assert_eq!(step.action, Action::Poll { after_ms: POLL_INTERVAL_MS });
}
