//! The template hook: deserializes the payload — YAML, JSON or TOML, as
//! declared — into one uniform tree value, renders a pre-loaded template
//! against it, and sends the output to a configured file or to standard
//! output.
//!
//! Deserialization happens here, behind trusted wrappers around the three
//! format crates; the render itself is performed by the caller, because the
//! engine's key-lookup helper reaches out to a remote parameter source while
//! rendering.

use vstd::prelude::*;

use crate::errors::HookError;
use crate::hooks::{expand_tilde, Action};

verus! {

#[verifier::external_type_specification]
#[verifier::external_body]
pub struct ExYamlValue(serde_yaml::Value);

#[verifier::external_type_specification]
#[verifier::external_body]
pub struct ExYamlError(serde_yaml::Error);

#[verifier::external_type_specification]
#[verifier::external_body]
pub struct ExJsonError(serde_json::Error);

#[verifier::external_type_specification]
#[verifier::external_body]
pub struct ExTomlError(toml::de::Error);

/// The closed set of payload formats a template can declare.
#[derive(Debug, PartialEq, Clone, Copy)]
pub enum DataType {
    YAML,
    JSON,
    TOML,
}

/// The format's name, as the document spells it.
pub open spec fn source_name(d: DataType) -> Seq<char> {
    match d {
        DataType::YAML => "yaml"@,
        DataType::JSON => "json"@,
        DataType::TOML => "toml"@,
    }
}

/// Settings for the template hook, as read from the document: the path of
/// the template file, the payload's format, and the optional output file.
#[derive(Debug, PartialEq)]
pub struct TemplateConf {
    pub file: String,
    pub source_type: DataType,
    pub out_file: Option<String>,
}

impl TemplateConf {
    /// Builds the runtime hook around the template body, which the caller
    /// has read from the configured file (reading it is input/output and
    /// happens outside this library).
    pub fn convert(&self, template_body: &str) -> (t: Template)
        ensures
            t.spec_tpl() == template_body@,
            t.spec_source_type() == self.source_type,
            t.spec_out_file() == (match self.out_file {
                Some(o) => Some(o@),
                None => None::<Seq<char>>,
            }),
    {
        let out_file = match &self.out_file {
            Some(o) => Some(o.clone()),
            None => None,
        };
        Template::new(template_body, self.source_type.clone(), out_file)
    }
}

/// Renders formatted payload data through a pre-loaded template; the output
/// goes to `out_file` when one is configured, else to standard output.
#[derive(Debug, PartialEq)]
pub struct Template {
    tpl: String,
    source_type: DataType,
    out_file: Option<String>,
}

/// Whether serde_yaml parses a text into the generic tree value — a function
/// of the text alone.
pub uninterp spec fn yaml_parses(s: Seq<char>) -> bool;

/// Whether serde_json parses a text into the generic tree value — a function
/// of the text alone.
pub uninterp spec fn json_parses(s: Seq<char>) -> bool;

/// Whether toml parses a text into the generic tree value — a function of
/// the text alone.
pub uninterp spec fn toml_parses(s: Seq<char>) -> bool;

/// Whether a payload is well-formed for the declared format.
pub open spec fn payload_parses(d: DataType, s: Seq<char>) -> bool {
    match d {
        DataType::YAML => yaml_parses(s),
        DataType::JSON => json_parses(s),
        DataType::TOML => toml_parses(s),
    }
}

/// Relies on serde_yaml's `from_str`: parses YAML text into the generic tree
/// value; whether it succeeds depends on the text alone, which is what
/// `yaml_parses` names.
#[verifier::external_body]
fn parse_yaml(s: &str) -> (r: Result<serde_yaml::Value, serde_yaml::Error>)
    ensures
        r is Ok <==> yaml_parses(s@),
{
    serde_yaml::from_str(s)
}

/// Relies on serde_json's `from_str`: parses JSON text into the generic tree
/// value; whether it succeeds depends on the text alone, which is what
/// `json_parses` names.
#[verifier::external_body]
fn parse_json(s: &str) -> (r: Result<serde_yaml::Value, serde_json::Error>)
    ensures
        r is Ok <==> json_parses(s@),
{
    serde_json::from_str(s)
}

/// Relies on toml's `from_str`: parses TOML text into the generic tree
/// value; whether it succeeds depends on the text alone, which is what
/// `toml_parses` names.
#[verifier::external_body]
fn parse_toml(s: &str) -> (r: Result<serde_yaml::Value, toml::de::Error>)
    ensures
        r is Ok <==> toml_parses(s@),
{
    toml::from_str(s)
}

impl Template {
    /// The template body.
    pub closed spec fn spec_tpl(&self) -> Seq<char> {
        self.tpl@
    }

    /// The declared payload format.
    pub closed spec fn spec_source_type(&self) -> DataType {
        self.source_type
    }

    /// The configured output file, if any.
    pub closed spec fn spec_out_file(&self) -> Option<Seq<char>> {
        match self.out_file {
            Some(o) => Some(o@),
            None => None,
        }
    }

    /// Creates a new template hook.
    pub fn new(tpl: &str, source_type: DataType, out_file: Option<String>) -> (t: Template)
        ensures
            t.spec_tpl() == tpl@,
            t.spec_source_type() == source_type,
            t.spec_out_file() == (match out_file {
                Some(o) => Some(o@),
                None => None::<Seq<char>>,
            }),
    {
        Template { tpl: tpl.to_owned(), source_type, out_file }
    }

    /// Sources payload data in the declared format and turns it into the
    /// uniform tree value the template is rendered against. Succeeds exactly
    /// on payloads that are well-formed for the declared format; a payload
    /// that does not deserialize is a fatal hook error naming the format.
    pub fn transform(source_type: &DataType, input_data: &str) -> (r: Result<
        serde_yaml::Value,
        HookError,
    >)
        ensures
            r is Ok <==> payload_parses(*source_type, input_data@),
            r matches Err(e) ==> e matches HookError::DeserializeFailure { format } && format@
                == source_name(*source_type),
    {
        match source_type {
            DataType::YAML => match parse_yaml(input_data) {
                Ok(v) => Ok(v),
                Err(_) => Err(
                    HookError::DeserializeFailure { format: String::from_str("yaml") },
                ),
            },
            DataType::JSON => match parse_json(input_data) {
                Ok(v) => Ok(v),
                Err(_) => Err(
                    HookError::DeserializeFailure { format: String::from_str("json") },
                ),
            },
            DataType::TOML => match parse_toml(input_data) {
                Ok(v) => Ok(v),
                Err(_) => Err(
                    HookError::DeserializeFailure { format: String::from_str("toml") },
                ),
            },
        }
    }

    /// The action one run performs: render the template against the
    /// deserialized payload, into the configured output file (expanded of
    /// its `~` shorthand) or standard output. Succeeds exactly on payloads
    /// that are well-formed for the declared format.
    pub fn plan(&self, data: &str) -> (r: Result<Action, HookError>)
        ensures
            r is Ok <==> payload_parses(self.spec_source_type(), data@),
            r matches Ok(a) ==> a matches Action::Render { template, data: _, out_file }
                && template@ == self.spec_tpl() && (self.spec_out_file() is None <==> out_file
                is None) && (match self.spec_out_file() {
                Some(o) => (o.len() == 0 || o[0] != '~') ==> (out_file matches Some(x) && x@ == o),
                None => true,
            }),
            r matches Err(e) ==> e matches HookError::DeserializeFailure { format } && format@
                == source_name(self.spec_source_type()),
    {
        let tree = match Template::transform(&self.source_type, data) {
            Ok(v) => v,
            Err(e) => return Err(e),
        };
        let out_file = match &self.out_file {
            Some(f) => Some(expand_tilde(f.as_str())),
            None => None,
        };
        Ok(Action::Render { template: self.tpl.clone(), data: tree, out_file })
    }
}

} // verus!
