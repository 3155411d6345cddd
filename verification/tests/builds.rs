use contract_compiler::model::{CompileRequest, CompileResponse, ProcessOutput};
use contract_compiler::pipeline::{Action, Event, Pipeline};

const GREETING: &str = "pub struct Contract { greeting: String }\nimpl Contract {\n    pub fn get_greeting(&self) -> String { self.greeting.clone() }\n    pub fn set_greeting(&mut self, message: String) { self.greeting = message; }\n}\n";

fn request(code: &str, name: &str) -> CompileRequest {
    CompileRequest { code: code.to_string(), contract_name: name.to_string() }
}

fn exited(success: bool, stdout: &str, stderr: &str) -> Event {
    Event::Exited(ProcessOutput { success, stdout: stdout.to_string(), stderr: stderr.to_string() })
}

fn failed(cause: &str) -> Event {
    Event::Failed(cause.to_string())
}

/// Feeds the events in order and records, for each, the action it answered.
fn drive(mut p: Pipeline, events: Vec<Event>) -> (Pipeline, Vec<Action>) {
    let mut asked = Vec::new();
    for event in events {
        assert!(p.accepts(&event));
        asked.push(p.next_action());
        p = p.advance(event);
    }
    (p, asked)
}

fn response(p: &Pipeline) -> CompileResponse {
    assert!(p.is_finished());
    assert!(!p.holds_workspace());
    match p.next_action() {
        Action::Respond(r) => r,
        _ => panic!("a finished build responds"),
    }
}

fn provisioning() -> Vec<Event> {
    vec![
        Event::Done,
        exited(true, "", "Creating library package"),
        exited(true, "", ""),
        Event::Done,
        Event::Done,
        exited(true, "", "info: component is up to date"),
    ]
}

fn full_run(build: Event, size: Option<usize>) -> Vec<Event> {
    let mut events = provisioning();
    let probe = matches!(&build, Event::Exited(out) if out.success);
    events.push(build);
    if probe {
        events.push(Event::Artifact(size));
    }
    events.push(Event::Done);
    events
}

#[test]
fn valid_source_compiles_to_a_binary() {
    let p = Pipeline::begin(request(GREETING, "hello-world"));
    let (p, asked) = drive(p, full_run(exited(true, "", ""), Some(123_456)));
    let r = response(&p);
    assert!(r.success);
    assert_eq!(r.errors, None);
    assert_eq!(r.wasm_size, Some(123_456));
    assert!(r.wasm_size.unwrap() > 0);
    assert_eq!(asked.len(), 9);
    match &asked[7] {
        Action::ProbeArtifact { path } => assert_eq!(
            path,
            &vec!["target", "wasm32-unknown-unknown", "release", "hello_world.wasm"]
        ),
        _ => panic!("the probe follows a successful build"),
    }
}

#[test]
fn invalid_source_is_reported_with_diagnostics() {
    let p = Pipeline::begin(request("this is not valid source {{{", "broken"));
    let diagnostics = "error: expected one of `!` or `::`, found `is`";
    let (p, asked) = drive(p, full_run(exited(false, "", diagnostics), None));
    let r = response(&p);
    assert!(!r.success);
    assert_eq!(r.errors.as_deref(), Some(diagnostics));
    assert_eq!(r.wasm_size, None);
    assert_eq!(asked.len(), 8);
    assert!(matches!(asked[7], Action::RemoveWorkspace));
}

#[test]
fn name_the_toolchain_rejects_is_a_reported_failure() {
    let p = Pipeline::begin(request(GREETING, "bad name\"\n[x"));
    let rejection = "error: failed to parse manifest";
    let events = vec![
        Event::Done,
        exited(false, "", "error: invalid character ` ` in package name"),
        exited(false, "", rejection),
        Event::Done,
        Event::Done,
        exited(true, "", ""),
        exited(false, "", rejection),
        Event::Done,
    ];
    let (p, asked) = drive(p, events);
    match &asked[3] {
        Action::WriteFile { path, contents } => {
            assert_eq!(path, &vec!["Cargo.toml"]);
            assert!(contents.starts_with("[package]\nname = \"bad name\"\n[x\"\nversion"));
        },
        _ => panic!("the manifest is written fourth"),
    }
    let r = response(&p);
    assert!(!r.success);
    assert_eq!(r.errors.as_deref(), Some(rejection));
    assert_eq!(r.wasm_size, None);
}

#[test]
fn name_the_filesystem_rejects_is_a_reported_failure() {
    let p = Pipeline::begin(request(GREETING, "a/b"));
    let events = vec![
        Event::Done,
        exited(false, "", ""),
        exited(true, "", ""),
        failed("Permission denied (os error 13)"),
        Event::Done,
    ];
    let (p, asked) = drive(p, events);
    assert!(matches!(asked[4], Action::RemoveWorkspace));
    let r = response(&p);
    assert!(!r.success);
    assert_eq!(r.output, "");
    assert_eq!(
        r.errors.as_deref(),
        Some("Failed to write Cargo.toml: Permission denied (os error 13)")
    );
    assert_eq!(r.wasm_size, None);
}

#[test]
fn actions_come_in_the_fixed_order() {
    let p = Pipeline::begin(request("// source", "hello-world"));
    let (p, asked) = drive(p, full_run(exited(true, "out", "warning: w"), None));
    assert!(matches!(asked[0], Action::CreateWorkspace));
    match &asked[1] {
        Action::Run(inv) => {
            assert_eq!(inv.program, "cargo");
            assert_eq!(inv.args, vec!["init", "--name", "hello-world", "--lib"]);
            assert!(inv.in_workspace);
        },
        _ => panic!("scaffolding comes second"),
    }
    match &asked[2] {
        Action::Run(inv) => assert_eq!(inv.args, vec!["clean"]),
        _ => panic!("clearing the cache comes third"),
    }
    match &asked[3] {
        Action::WriteFile { path, contents } => {
            assert_eq!(path, &vec!["Cargo.toml"]);
            assert!(contents.contains("name = \"hello-world\""));
            assert!(contents.contains("crate-type = [\"cdylib\"]"));
        },
        _ => panic!("the manifest comes fourth"),
    }
    match &asked[4] {
        Action::WriteFile { path, contents } => {
            assert_eq!(path, &vec!["src", "lib.rs"]);
            assert_eq!(contents, "// source");
        },
        _ => panic!("the source comes fifth"),
    }
    match &asked[5] {
        Action::Run(inv) => {
            assert_eq!(inv.program, "rustup");
            assert!(!inv.in_workspace);
        },
        _ => panic!("the target comes sixth"),
    }
    match &asked[6] {
        Action::Run(inv) => {
            assert_eq!(inv.args, vec!["build", "--target", "wasm32-unknown-unknown", "--release"]);
        },
        _ => panic!("the build comes seventh"),
    }
    assert!(matches!(asked[7], Action::ProbeArtifact { .. }));
    assert!(matches!(asked[8], Action::RemoveWorkspace));
    let r = response(&p);
    assert!(r.success);
    assert_eq!(r.output, "out");
    assert_eq!(r.errors.as_deref(), Some("warning: w"));
    assert_eq!(r.wasm_size, None);
}

#[test]
fn failed_allocation_ends_at_once() {
    let p = Pipeline::begin(request(GREETING, "hello-world"));
    assert!(!p.holds_workspace());
    let p = p.advance(failed("No space left on device (os error 28)"));
    let r = response(&p);
    assert!(!r.success);
    assert_eq!(r.output, "");
    assert_eq!(
        r.errors.as_deref(),
        Some("Failed to create temp directory: No space left on device (os error 28)")
    );
    assert_eq!(r.wasm_size, None);
}

#[test]
fn scaffolding_that_cannot_start_is_fatal() {
    let p = Pipeline::begin(request(GREETING, "hello-world"));
    let (p, _) = drive(p, vec![Event::Done, failed("No such file or directory (os error 2)")]);
    assert!(p.holds_workspace());
    assert!(!p.is_finished());
    assert!(matches!(p.next_action(), Action::RemoveWorkspace));
    let p = p.advance(Event::Done);
    let r = response(&p);
    assert_eq!(
        r.errors.as_deref(),
        Some("Failed to initialize cargo project: No such file or directory (os error 2)")
    );
}

#[test]
fn scaffolding_that_exits_with_failure_is_not_fatal() {
    let p = Pipeline::begin(request(GREETING, "hello-world"));
    let (p, _) = drive(p, vec![Event::Done, exited(false, "", "error: destination exists")]);
    match p.next_action() {
        Action::Run(inv) => assert_eq!(inv.args, vec!["clean"]),
        _ => panic!("the build goes on"),
    }
}

#[test]
fn best_effort_steps_may_fail() {
    let p = Pipeline::begin(request(GREETING, "hello-world"));
    let events = vec![
        Event::Done,
        exited(true, "", ""),
        failed("cargo vanished"),
        Event::Done,
        Event::Done,
        failed("rustup is not installed"),
    ];
    let (p, _) = drive(p, events);
    match p.next_action() {
        Action::Run(inv) => assert_eq!(inv.args[0], "build"),
        _ => panic!("the build is next"),
    }
}

#[test]
fn source_write_failure_is_fatal() {
    let p = Pipeline::begin(request(GREETING, "hello-world"));
    let events = vec![
        Event::Done,
        exited(true, "", ""),
        exited(true, "", ""),
        Event::Done,
        failed("No such file or directory (os error 2)"),
        Event::Failed("directory not empty".to_string()),
    ];
    let (p, _) = drive(p, events);
    let r = response(&p);
    assert!(!r.success);
    assert_eq!(
        r.errors.as_deref(),
        Some("Failed to write contract code: No such file or directory (os error 2)")
    );
}

#[test]
fn build_that_cannot_start_is_reported() {
    let p = Pipeline::begin(request(GREETING, "hello-world"));
    let (p, asked) = drive(p, full_run(failed("program not found"), None));
    assert_eq!(asked.len(), 8);
    let r = response(&p);
    assert!(!r.success);
    assert_eq!(r.output, "");
    assert_eq!(r.errors.as_deref(), Some("Failed to execute cargo build: program not found"));
    assert_eq!(r.wasm_size, None);
}

#[test]
fn events_that_do_not_fit_change_nothing() {
    let p = Pipeline::begin(request(GREETING, "hello-world"));
    assert!(!p.accepts(&Event::Artifact(Some(1))));
    assert!(!p.accepts(&exited(true, "", "")));
    let p = p.advance(Event::Artifact(Some(1)));
    assert!(matches!(p.next_action(), Action::CreateWorkspace));
    let p = p.advance(Event::Done);
    assert!(!p.accepts(&Event::Done));
    let p = p.advance(Event::Done);
    assert!(matches!(p.next_action(), Action::Run(_)));
    assert!(p.holds_workspace());
}

#[test]
fn finished_build_takes_no_event() {
    let p = Pipeline::begin(request(GREETING, "hello-world"));
    let (p, _) = drive(p, full_run(exited(true, "", ""), Some(9)));
    assert!(!p.accepts(&Event::Done));
    assert!(!p.accepts(&failed("x")));
    let p = p.advance(Event::Done);
    let r = response(&p);
    assert_eq!(r.wasm_size, Some(9));
}

#[test]
fn workspace_is_held_from_allocation_to_teardown() {
    let mut p = Pipeline::begin(request(GREETING, "hello-world"));
    assert!(!p.holds_workspace());
    let events = full_run(exited(true, "", ""), Some(9));
    let last = events.len() - 1;
    for (i, event) in events.into_iter().enumerate() {
        p = p.advance(event);
        assert_eq!(p.holds_workspace(), i < last);
        assert_eq!(p.is_finished(), i == last);
    }
}

#[test]
fn same_request_twice_gives_the_same_status_and_size() {
    let first = Pipeline::begin(request(GREETING, "hello-world"));
    let second = Pipeline::begin(request(GREETING, "hello-world"));
    let (first, _) = drive(first, full_run(exited(true, "Compiling 0.41s", ""), Some(500)));
    let (second, _) = drive(second, full_run(exited(true, "Compiling 0.39s", ""), Some(500)));
    let (a, b) = (response(&first), response(&second));
    assert_eq!(a.success, b.success);
    assert_eq!(a.wasm_size, b.wasm_size);
}

#[test]
fn builds_with_one_name_keep_their_own_source() {
    let first = Pipeline::begin(request("// one", "shared"));
    let second = Pipeline::begin(request("// two", "shared"));
    let head = || vec![Event::Done, exited(true, "", ""), exited(true, "", ""), Event::Done];
    let (first, _) = drive(first, head());
    let (second, _) = drive(second, head());
    match (first.next_action(), second.next_action()) {
        (
            Action::WriteFile { path: p1, contents: c1 },
            Action::WriteFile { path: p2, contents: c2 },
        ) => {
            assert_eq!(p1, p2);
            assert_eq!(c1, "// one");
            assert_eq!(c2, "// two");
        },
        _ => panic!("both builds write their source"),
    }
}

#[test]
fn request_ids_are_fresh() {
    let first = Pipeline::begin(request(GREETING, "hello-world"));
    let second = Pipeline::begin(request(GREETING, "hello-world"));
    assert_eq!(first.request_id().chars().count(), 36);
    assert_eq!(second.request_id().chars().count(), 36);
    assert_ne!(first.request_id(), second.request_id());
    let before = first.request_id().to_string();
    let first = first.advance(Event::Done);
    assert_eq!(first.request_id(), before);
}

#[test]
fn replay_is_advance_in_a_row() {
    let stepwise = Pipeline::begin(request(GREETING, "hello-world"));
    let (stepwise, _) = drive(stepwise, full_run(exited(true, "out", "warn"), Some(42)));
    let replayed = Pipeline::begin(request(GREETING, "hello-world"))
        .replay(full_run(exited(true, "out", "warn"), Some(42)));
    let (a, b) = (response(&stepwise), response(&replayed));
    assert!(b.success);
    assert_eq!(b.output, "out");
    assert_eq!(b.errors.as_deref(), Some("warn"));
    assert_eq!(b.wasm_size, Some(42));
    assert_eq!(a.success, b.success);
    assert_eq!(a.output, b.output);
    assert_eq!(a.errors, b.errors);
    assert_eq!(a.wasm_size, b.wasm_size);
}

#[test]
fn replay_of_nothing_changes_nothing() {
    let p = Pipeline::begin(request(GREETING, "hello-world")).replay(Vec::new());
    assert!(matches!(p.next_action(), Action::CreateWorkspace));
    assert!(!p.holds_workspace());
    assert!(!p.is_finished());
}

#[test]
fn replay_skips_events_that_do_not_fit() {
    let events = vec![Event::Artifact(None), Event::Done, Event::Done, exited(true, "", "")];
    let p = Pipeline::begin(request(GREETING, "hello-world")).replay(events);
    match p.next_action() {
        Action::Run(inv) => assert_eq!(inv.args, vec!["clean"]),
        _ => panic!("two events fit"),
    }
}
