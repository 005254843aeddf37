use app_config::config::{convert_hooks, Config, HookConf, ProviderConf};
use app_config::document::parse_document;
use app_config::errors::ConfigError;
use app_config::hooks::command::Command;
use app_config::hooks::file::File;
use app_config::hooks::raw::Raw;
use app_config::hooks::template::{DataType, Template, TemplateConf};
use app_config::hooks::Hook;
use app_config::providers::aws::AWSConf;
use app_config::providers::mock::MockConf;
use app_config::providers::param_store::ParamStoreConf;

fn gen_full_config() -> String {
    "[providers.aws]
application = \"myApp\"
environment = \"dev\"
configuration = \"myConf\"
client_id = \"42\"

[hooks.template]
file = \"./tests/test_template.tmpl\"
source_type = \"yaml\"

[hooks.file]
outfile = \"raw_output.txt\"

[hooks.command]
command = \"echo\"
pipe_data = true
"
    .to_string()
}

fn gen_min_config() -> String {
    "[providers.aws]
application = \"myApp\"
environment = \"dev\"
configuration = \"myConf\"
client_id = \"42\""
        .to_string()
}

fn gen_template_body() -> String {
    String::from(
        "{{#each hosts}}
[Peer]
EndPoint = {{this.name}}
PublicKey = {{this.public_key}}
{{/each}}
",
    )
}

#[test]
fn test_get_provider() {
    let doc = parse_document(&gen_full_config()).unwrap();
    let provider = Config::get_provider(&doc).unwrap();
    let expected = ProviderConf::AWS(AWSConf {
        application: "myApp".to_string(),
        environment: "dev".to_string(),
        configuration: "myConf".to_string(),
        client_id: "42".to_string(),
        state_file: None,
    });
    assert_eq!(provider, expected);
}

#[test]
fn test_get_hooks() {
    let doc = parse_document(&gen_full_config()).unwrap();
    let confs = Config::get_hooks(&doc).unwrap();
    let hooks = convert_hooks(&confs, &vec![gen_template_body()]).unwrap();
    let expected: Vec<Hook> = vec![
        Hook::Template(Template::new(&gen_template_body(), DataType::YAML, None)),
        Hook::File(File::new("raw_output.txt")),
        Hook::Command(Command::new("echo", true)),
    ];
    assert_eq!(hooks, expected);
}

#[test]
fn test_get_empty_hooks() {
    let doc = parse_document(&gen_min_config()).unwrap();
    let confs = Config::get_hooks(&doc).unwrap();
    assert_eq!(confs, Vec::<HookConf>::new());
}

#[test]
fn mock_parse_config() {
    let text = "
[providers.mock]
data = \"Am I a mock\"
";
    let doc = parse_document(text).unwrap();
    let provider = Config::get_provider(&doc).unwrap();
    assert_eq!(
        provider,
        ProviderConf::Mock(MockConf { data: "Am I a mock".to_string() })
    );
}

#[test]
fn aws_parse_config() {
    let text = "
[providers.aws]
application = \"myApp\"
environment = \"dev\"
configuration = \"myConf\"
client_id = \"42\"
";
    let doc = parse_document(text).unwrap();
    let provider = Config::get_provider(&doc).unwrap();
    let expected = ProviderConf::AWS(AWSConf {
        application: "myApp".to_string(),
        environment: "dev".to_string(),
        configuration: "myConf".to_string(),
        client_id: "42".to_string(),
        state_file: None,
    });
    assert_eq!(provider, expected);
    // The built provider starts from the empty sentinel.
    let built = provider.convert().unwrap();
    assert_eq!(built.query().unwrap(), "".to_string());
}

#[test]
fn param_store_parse_config() {
    let text = "
[providers.param_store]
key = \"Hello\"
";
    let doc = parse_document(text).unwrap();
    let provider = Config::get_provider(&doc).unwrap();
    assert_eq!(
        provider,
        ProviderConf::ParamStore(ParamStoreConf { key: "Hello".to_string(), state_file: None })
    );
}

#[test]
fn command_parse_config() {
    let text = "
[hooks.command]
 command = \"cat > booyeah.txt\"
 pipe_data = true
";
    let doc = parse_document(text).unwrap();
    let confs = Config::get_hooks(&doc).unwrap();
    let hooks = convert_hooks(&confs, &Vec::new()).unwrap();
    let exp = Command::new("cat > booyeah.txt", true);
    assert_eq!(hooks, vec![Hook::Command(exp)]);
}

#[test]
fn file_parse_config() {
    let text = "[hooks.file]
 outfile = \"somefile.txt\"
";
    let doc = parse_document(text).unwrap();
    let confs = Config::get_hooks(&doc).unwrap();
    let hooks = convert_hooks(&confs, &Vec::new()).unwrap();
    let exp = File::new("somefile.txt");
    assert_eq!(hooks, vec![Hook::File(exp)]);
}

#[test]
fn raw_parse_config() {
    let text = "[hooks.raw]";
    let doc = parse_document(text).unwrap();
    let confs = Config::get_hooks(&doc).unwrap();
    let hooks = convert_hooks(&confs, &Vec::new()).unwrap();
    assert_eq!(hooks, vec![Hook::Raw(Raw {})]);
}

#[test]
fn config_missing_provider() {
    let doc = parse_document("[hooks.raw]").unwrap();
    let e = Config::get_provider(&doc).unwrap_err();
    assert!(matches!(e, ConfigError::MissingProvider));
}

#[test]
fn config_ambiguous_provider() {
    let text = "
[providers.mock]
data = \"a\"
[providers.aws]
application = \"x\"
environment = \"y\"
configuration = \"z\"
client_id = \"1\"
";
    let doc = parse_document(text).unwrap();
    let e = Config::get_provider(&doc).unwrap_err();
    assert!(matches!(e, ConfigError::AmbiguousProvider));
}

#[test]
fn config_unknown_provider() {
    let text = "
[providers.consul]
data = \"a\"
";
    let doc = parse_document(text).unwrap();
    let e = Config::get_provider(&doc).unwrap_err();
    match e {
        ConfigError::UnknownProvider { name } => assert_eq!(name, "consul"),
        other => panic!("wrong error: {:?}", other),
    }
}

#[test]
fn config_invalid_section_missing_field() {
    let text = "
[providers.aws]
application = \"myApp\"
";
    let doc = parse_document(text).unwrap();
    let e = Config::get_provider(&doc).unwrap_err();
    match e {
        ConfigError::InvalidSection { section, cause: _ } => assert_eq!(section, "aws"),
        other => panic!("wrong error: {:?}", other),
    }
}

#[test]
fn config_syntax_error_line() {
    let text = "[providers.mock]
data = \"ok\"
this line is broken
";
    let e = parse_document(text).unwrap_err();
    match e {
        ConfigError::Syntax { line } => assert_eq!(line, 3),
        other => panic!("wrong error: {:?}", other),
    }
}

#[test]
fn config_hook_order_preserved() {
    // Deliberately not in alphabetical order: the list must follow the
    // document, not the names.
    let text = "
[providers.mock]
data = \"x\"

[hooks.raw]

[hooks.command]
command = \"true\"

[hooks.file]
outfile = \"out.txt\"
";
    let doc = parse_document(text).unwrap();
    let confs = Config::get_hooks(&doc).unwrap();
    assert_eq!(confs.len(), 3);
    assert!(matches!(confs[0], HookConf::Raw(_)));
    assert!(matches!(confs[1], HookConf::Command(_)));
    assert!(matches!(confs[2], HookConf::File(_)));
}

#[test]
fn config_unknown_hook_skipped() {
    let text = "
[providers.mock]
data = \"x\"

[hooks.telegraph]
wire = \"morse\"

[hooks.raw]
";
    let doc = parse_document(text).unwrap();
    let confs = Config::get_hooks(&doc).unwrap();
    assert_eq!(confs.len(), 1);
    assert!(matches!(confs[0], HookConf::Raw(_)));
}

#[test]
fn config_template_conf_fields() {
    let text = "
[hooks.template]
file = \"tpl.hbs\"
source_type = \"toml\"
out_file = \"rendered.txt\"
";
    let doc = parse_document(text).unwrap();
    let confs = Config::get_hooks(&doc).unwrap();
    assert_eq!(
        confs,
        vec![HookConf::Template(TemplateConf {
            file: "tpl.hbs".to_string(),
            source_type: DataType::TOML,
            out_file: Some("rendered.txt".to_string()),
        })]
    );
}

#[test]
fn config_literal_strings() {
    // Single-quoted values are taken verbatim: no escapes, backslashes stay.
    let text = "
[providers.mock]
data = 'verbatim \\n stays'

[hooks.file]
outfile = 'somefile.txt'
";
    let doc = parse_document(text).unwrap();
    let provider = Config::get_provider(&doc).unwrap();
    assert_eq!(
        provider,
        ProviderConf::Mock(MockConf { data: "verbatim \\n stays".to_string() })
    );
    let confs = Config::get_hooks(&doc).unwrap();
    let hooks = convert_hooks(&confs, &Vec::new()).unwrap();
    assert_eq!(hooks, vec![Hook::File(File::new("somefile.txt"))]);
}

#[test]
fn config_comments_and_escapes() {
    let text = "# leading comment
[providers.mock]   # trailing comment
data = \"line\\nbreak \\\"quoted\\\"\"  # another
";
    let doc = parse_document(text).unwrap();
    let provider = Config::get_provider(&doc).unwrap();
    assert_eq!(
        provider,
        ProviderConf::Mock(MockConf { data: "line\nbreak \"quoted\"".to_string() })
    );
}
