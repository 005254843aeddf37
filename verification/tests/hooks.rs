use app_config::errors::HookError;
use app_config::hooks::command::Command;
use app_config::hooks::file::File;
use app_config::hooks::raw::Raw;
use app_config::hooks::template::{DataType, Template};
use app_config::hooks::{Action, Hook, Outcome};

fn rt() -> tokio::runtime::Runtime {
    tokio::runtime::Builder::new_multi_thread().enable_all().build().unwrap()
}

/// Runs a shell command the way the command hook's action asks: through the
/// shell, with the payload on its standard input when one is given (the test
/// harness hands the payload over through a file redirection).
fn run_command(command: &str, stdin: Option<&str>, tmp: &str) -> Outcome {
    let runtime = rt();
    let full = match stdin {
        Some(payload) => {
            runtime.block_on(tokio::fs::write(tmp, payload.as_bytes())).unwrap();
            format!("{} < {}", command, tmp)
        },
        None => command.to_string(),
    };
    let out = runtime.block_on(async {
        tokio::process::Command::new("/bin/bash").arg("-c").arg(&full).output().await
    });
    match out {
        Ok(o) => Outcome::Exited { success: o.status.success(), code: o.status.code() },
        Err(e) => Outcome::SpawnError { message: format!("{}", e) },
    }
}

fn perform_command_action(hook: &Hook, payload: &str, tmp: &str) -> Result<(), HookError> {
    let action = hook.plan(payload).unwrap();
    match action {
        Action::RunCommand { command, stdin } => {
            let outcome = run_command(&command, stdin.as_deref(), tmp);
            hook.interpret(outcome)
        },
        other => panic!("expected a command action, got {:?}", other),
    }
}

#[test]
fn test_cmd() {
    let c = Hook::Command(Command::new("echo Booyeah", false));
    assert_eq!(perform_command_action(&c, "", "/tmp/app_config_unused.txt").unwrap(), ());
}

#[test]
fn command_test_piped_cmd() {
    let c = Hook::Command(Command::new("echo", true));
    let res = perform_command_action(&c, "Booyeah", "/tmp/app_config_piped_in.txt").unwrap();
    let expected = ();
    assert_eq!(res, expected);
}

#[test]
fn command_echo_hello_succeeds() {
    let c = Hook::Command(Command::new("echo hello", false));
    assert!(perform_command_action(&c, "", "/tmp/app_config_unused2.txt").is_ok());
}

#[test]
fn test_garbage_cmd() {
    let c = Hook::Command(Command::new("/not/a/command", false));
    let e = perform_command_action(&c, "", "/tmp/app_config_unused3.txt").unwrap_err();
    match e {
        HookError::CommandFailed { command, status } => {
            assert_eq!(command, "/not/a/command");
            assert!(status != Some(0));
        },
        other => panic!("wrong error: {:?}", other),
    }
    // The error message identifies the command string.
    let c2 = Command::new("/not/a/command", false);
    let msg = HookError::CommandFailed { command: c2.command_string(), status: Some(127) }.message();
    assert!(msg.contains("/not/a/command"));
}

#[test]
fn command_pipes_payload_into_file() {
    let out_path = "/tmp/app_config_piped_out.txt";
    let runtime = rt();
    let _ = runtime.block_on(tokio::fs::remove_file(out_path));
    let c = Hook::Command(Command::new("cat > /tmp/app_config_piped_out.txt", true));
    perform_command_action(&c, "X", "/tmp/app_config_piped_src.txt").unwrap();
    let written = runtime.block_on(tokio::fs::read_to_string(out_path)).unwrap();
    assert_eq!(written, "X");
}

#[test]
fn file_hook_writes_payload() {
    let out_path = "/tmp/app_config_file_hook.txt";
    let runtime = rt();
    let _ = runtime.block_on(tokio::fs::remove_file(out_path));
    let f = Hook::File(File::new(out_path));
    let action = f.plan("Where am I").unwrap();
    match action {
        Action::WriteFile { path, contents } => {
            assert_eq!(path, out_path);
            assert_eq!(contents, "Where am I");
            runtime.block_on(tokio::fs::write(&path, contents.as_bytes())).unwrap();
        },
        other => panic!("expected a file action, got {:?}", other),
    }
    assert_eq!(f.interpret(Outcome::Done).unwrap(), ());
    let written = runtime.block_on(tokio::fs::read_to_string(out_path)).unwrap();
    assert_eq!(written, "Where am I");
}

#[test]
fn io_failure_is_an_io_error() {
    let f = Hook::File(File::new("/nonexistent_dir_for_hook/out.txt"));
    let e = f
        .interpret(Outcome::IoError { message: "no such directory".to_string() })
        .unwrap_err();
    assert!(matches!(e, HookError::Io { .. }));
}

#[test]
fn render_failure_is_a_render_error() {
    let t = Hook::Template(Template::new("{{#each}}", DataType::YAML, None));
    let e = t
        .interpret(Outcome::RenderError { message: "bad template".to_string() })
        .unwrap_err();
    assert!(matches!(e, HookError::RenderFailure { .. }));
}

#[test]
fn raw_hook_prints_payload() {
    let r = Hook::Raw(Raw {});
    let action = r.plan("Where am I").unwrap();
    match action {
        Action::PrintLine { text } => assert_eq!(text, "Where am I"),
        other => panic!("expected a print action, got {:?}", other),
    }
}

// ---------------------------------------------------------------------------
// The template hook: the same structural input in any declared format gives
// the identical rendered output, with no leftover template syntax.
// ---------------------------------------------------------------------------

fn gen_yml_data() -> &'static str {
    "---
hosts:
  - name: host1
    public_key: xyz
  - name: host2
    public_key: abc"
}

fn gen_json_data() -> &'static str {
    "{
\"hosts\": [
    { \"name\": \"host1\", \"public_key\": \"xyz\" },
    { \"name\": \"host2\", \"public_key\": \"abc\" }
]
}"
}

fn gen_toml_data() -> &'static str {
    "
[hosts]

[hosts.1]
name = 'host1'
public_key = 'xyz'

[hosts.2]
name = 'host2'
public_key = 'abc'
"
}

fn gen_expected() -> &'static str {
    "
[Peer]
EndPoint = host1
PublicKey = xyz

[Peer]
EndPoint = host2
PublicKey = abc
"
}

fn gen_template() -> &'static str {
    "{{#each hosts}}
[Peer]
EndPoint = {{this.name}}
PublicKey = {{this.public_key}}
{{/each}}"
}

/// Renders the way the performer of a `Render` action does, without the
/// remote key-lookup helper.
fn render(tpl: &str, source_type: DataType, data: &str) -> String {
    let tree = Template::transform(&source_type, data).unwrap();
    let mut hb = handlebars::Handlebars::new();
    assert!(hb.register_template_string("tpl", tpl).is_ok());
    hb.render("tpl", &tree).unwrap()
}

#[test]
fn test_yaml_template() {
    let expected = gen_expected();
    let res = render(gen_template(), DataType::YAML, gen_yml_data());
    assert_eq!(expected, res);
}

#[test]
fn test_json_template() {
    let expected = gen_expected();
    let res = render(gen_template(), DataType::JSON, gen_json_data());
    assert_eq!(expected, res);
}

#[test]
fn test_toml_template() {
    let expected = gen_expected();
    let res = render(gen_template(), DataType::TOML, gen_toml_data());
    assert_eq!(expected, res);
}

#[test]
fn template_plan_rejects_malformed_payload() {
    let t = Hook::Template(Template::new(gen_template(), DataType::JSON, None));
    let e = t.plan("{ not json").unwrap_err();
    match e {
        HookError::DeserializeFailure { format } => assert_eq!(format, "json"),
        other => panic!("wrong error: {:?}", other),
    }
}

#[test]
fn template_plan_carries_out_file() {
    let t = Hook::Template(Template::new(gen_template(), DataType::YAML, Some(
        "/tmp/app_config_rendered.txt".to_string(),
    )));
    let action = t.plan(gen_yml_data()).unwrap();
    match action {
        Action::Render { template, data: _, out_file } => {
            assert_eq!(template, gen_template());
            assert_eq!(out_file, Some("/tmp/app_config_rendered.txt".to_string()));
        },
        other => panic!("expected a render action, got {:?}", other),
    }
}
