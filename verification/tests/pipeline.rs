use app_config::errors::HookError;
use app_config::hooks::command::Command;
use app_config::hooks::file::File;
use app_config::hooks::template::{DataType, Template};
use app_config::hooks::{Action, Hook, Outcome};
use app_config::pipeline::{start_run, Pipeline};

fn rt() -> tokio::runtime::Runtime {
    tokio::runtime::Builder::new_multi_thread().enable_all().build().unwrap()
}

/// Performs one action the way the real driver does, returning the outcome.
fn perform(action: Action) -> Outcome {
    let runtime = rt();
    match action {
        Action::WriteFile { path, contents } => {
            match runtime.block_on(tokio::fs::write(&path, contents.as_bytes())) {
                Ok(()) => Outcome::Done,
                Err(e) => Outcome::IoError { message: format!("{}", e) },
            }
        },
        Action::PrintLine { text } => {
            println!("{}", text);
            Outcome::Done
        },
        Action::RunCommand { command, stdin } => {
            // The payload, if any, is irrelevant to these scenarios.
            let _ = stdin;
            let out = runtime.block_on(async {
                tokio::process::Command::new("/bin/bash").arg("-c").arg(&command).output().await
            });
            match out {
                Ok(o) => Outcome::Exited { success: o.status.success(), code: o.status.code() },
                Err(e) => Outcome::SpawnError { message: format!("{}", e) },
            }
        },
        Action::Render { .. } => Outcome::Done,
    }
}

#[test]
fn pipeline_runs_hooks_in_order() {
    let a_path = "/tmp/app_config_order_a.txt";
    let b_path = "/tmp/app_config_order_b.txt";
    let runtime = rt();
    let _ = runtime.block_on(tokio::fs::remove_file(a_path));
    let _ = runtime.block_on(tokio::fs::remove_file(b_path));

    let hooks = vec![Hook::File(File::new(a_path)), Hook::File(File::new(b_path))];
    let mut p = Pipeline::new(hooks, "payload".to_string());

    let mut issued: Vec<String> = Vec::new();
    loop {
        match p.next_action().unwrap() {
            Some(action) => {
                if let Action::WriteFile { path, .. } = &action {
                    issued.push(path.clone());
                }
                let outcome = perform(action);
                p.report(outcome).unwrap();
            },
            None => break,
        }
    }
    assert_eq!(issued, vec![a_path.to_string(), b_path.to_string()]);
    assert_eq!(runtime.block_on(tokio::fs::read_to_string(a_path)).unwrap(), "payload");
    assert_eq!(runtime.block_on(tokio::fs::read_to_string(b_path)).unwrap(), "payload");
}

#[test]
fn pipeline_stops_at_first_failure() {
    let a_path = "/tmp/app_config_abort_a.txt";
    let b_path = "/tmp/app_config_abort_b.txt";
    let runtime = rt();
    let _ = runtime.block_on(tokio::fs::remove_file(a_path));
    let _ = runtime.block_on(tokio::fs::remove_file(b_path));

    let hooks = vec![
        Hook::File(File::new(a_path)),
        Hook::Command(Command::new("/not/a/command", false)),
        Hook::File(File::new(b_path)),
    ];
    let mut p = Pipeline::new(hooks, "Where am I".to_string());

    // First hook: runs and takes effect.
    let first = p.next_action().unwrap().unwrap();
    let outcome = perform(first);
    p.report(outcome).unwrap();

    // Second hook: the command exits non-zero, so its verdict aborts the run,
    // naming the command.
    let second = p.next_action().unwrap().unwrap();
    let outcome = perform(second);
    let e = p.report(outcome).unwrap_err();
    match e {
        HookError::CommandFailed { command, status: _ } => assert_eq!(command, "/not/a/command"),
        other => panic!("wrong error: {:?}", other),
    }

    // Third hook: never issued.
    assert_eq!(p.next_action().unwrap(), None);

    // The first hook's side effect persists; the third never happened.
    assert_eq!(runtime.block_on(tokio::fs::read_to_string(a_path)).unwrap(), "Where am I");
    assert!(runtime.block_on(tokio::fs::read_to_string(b_path)).is_err());
}

#[test]
fn pipeline_aborts_on_plan_failure() {
    let b_path = "/tmp/app_config_plan_abort_b.txt";
    let runtime = rt();
    let _ = runtime.block_on(tokio::fs::remove_file(b_path));

    // The template hook cannot even plan its action: the payload is not the
    // declared format. The hook after it never runs.
    let hooks = vec![
        Hook::Template(Template::new("{{x}}", DataType::JSON, None)),
        Hook::File(File::new(b_path)),
    ];
    let mut p = Pipeline::new(hooks, "not json at all {{".to_string());

    let e = p.next_action().unwrap_err();
    assert!(matches!(e, HookError::DeserializeFailure { .. }));
    assert_eq!(p.next_action().unwrap(), None);
    assert!(runtime.block_on(tokio::fs::read_to_string(b_path)).is_err());
}

#[test]
fn no_new_data_starts_no_run() {
    let hooks = vec![Hook::File(File::new("/tmp/app_config_never.txt"))];
    assert!(start_run(hooks, None).is_none());
}

#[test]
fn new_data_starts_one_run() {
    let hooks = vec![Hook::Raw(app_config::hooks::raw::Raw {})];
    let mut p = start_run(hooks, Some("data".to_string())).unwrap();
    let action = p.next_action().unwrap().unwrap();
    assert_eq!(action, Action::PrintLine { text: "data".to_string() });
}

#[test]
fn pipeline_with_no_hooks_is_done() {
    let mut p = Pipeline::new(Vec::new(), "data".to_string());
    assert_eq!(p.len(), 0);
    assert_eq!(p.next_action().unwrap(), None);
}
