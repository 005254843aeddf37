//! The configuration factory: turns a parsed document into exactly one
//! provider and an ordered list of hooks.
//!
//! The factory dispatches section names against a closed set of variants.
//! Exactly one `[providers.*]` section must be present — zero is
//! [`ConfigError::MissingProvider`], more than one
//! [`ConfigError::AmbiguousProvider`] — and its name must be recognized,
//! unlike hook names, which are skipped in silence when unknown (a
//! deliberate asymmetry). Each recognized section is first read into its
//! settings record (`MockConf`, `CommandConf`, ...), and the records are
//! converted into runtime entities separately, so settings validation and
//! entity construction can be tested independently. The hook list keeps the
//! order in which hook sections stand in the document.

use vstd::prelude::*;

use crate::document::{EntryView, RawDoc, RawEntry, RawSection, RawValue, SectionView, ValueView};
use crate::errors::{ConfigError, ProviderError};
use crate::hooks::command::{Command, CommandConf};
use crate::hooks::file::{File, FileConf};
use crate::hooks::raw::{Raw, RawConf};
use crate::hooks::template::{source_name, DataType, Template, TemplateConf};
use crate::hooks::Hook;
use crate::providers::aws::AWSConf;
use crate::providers::mock::MockConf;
use crate::providers::param_store::ParamStoreConf;
use crate::providers::Provider;
use crate::text::str_eq;

verus! {

/// The settings records of the closed provider set, one per variant.
#[derive(Debug, PartialEq)]
pub enum ProviderConf {
    Mock(MockConf),
    AWS(AWSConf),
    ParamStore(ParamStoreConf),
}

/// The settings records of the closed hook set, one per variant.
#[derive(Debug, PartialEq)]
pub enum HookConf {
    Template(TemplateConf),
    File(FileConf),
    Raw(RawConf),
    Command(CommandConf),
}

/// A fully built configuration: the provider and the hooks, in declaration
/// order.
#[derive(Debug)]
pub struct Config {
    pub provider: Provider,
    pub hooks: Vec<Hook>,
}

// ---------------------------------------------------------------------------
// Looking up settings inside a section.
// ---------------------------------------------------------------------------

/// The value of the first assignment to `key`, if any.
pub open spec fn lookup(entries: Seq<EntryView>, key: Seq<char>) -> Option<ValueView>
    decreases entries.len(),
{
    if entries.len() == 0 {
        None
    } else if entries.first().key == key {
        Some(entries.first().value)
    } else {
        lookup(entries.drop_first(), key)
    }
}

/// Finds the first assignment to `key`, as an index into the entries.
fn lookup_exec(entries: &Vec<RawEntry>, key: &str) -> (r: Option<usize>)
    ensures
        r matches Some(i) ==> i < entries@.len() && lookup(
            entries@.map_values(|e: RawEntry| e@),
            key@,
        ) == Some(entries@[i as int]@.value),
        r is None ==> lookup(entries@.map_values(|e: RawEntry| e@), key@) is None,
{
    let ghost ev = entries@.map_values(|e: RawEntry| e@);
    proof {
        assert(ev.subrange(0, ev.len() as int) =~= ev);
    }
    let mut i: usize = 0;
    while i < entries.len()
        invariant
            i <= entries@.len(),
            ev == entries@.map_values(|e: RawEntry| e@),
            lookup(ev, key@) == lookup(ev.subrange(i as int, ev.len() as int), key@),
        decreases entries@.len() - i,
    {
        let ghost rest = ev.subrange(i as int, ev.len() as int);
        proof {
            assert(rest.first() == ev[i as int]);
            assert(rest.drop_first() =~= ev.subrange(i + 1 as int, ev.len() as int));
        }
        if str_eq(entries[i].key.as_str(), key) {
            return Some(i);
        }
        i = i + 1;
    }
    proof {
        assert(ev.subrange(i as int, ev.len() as int) =~= Seq::<EntryView>::empty());
    }
    None
}

/// Builds the error for a section that does not deserialize.
fn invalid(section: &str, cause: &str) -> (e: ConfigError)
    ensures
        e matches ConfigError::InvalidSection { section: s, cause: _ } && s@ == section@,
{
    ConfigError::InvalidSection { section: section.to_owned(), cause: cause.to_owned() }
}

// ---------------------------------------------------------------------------
// Provider sections.
// ---------------------------------------------------------------------------

/// Whether a section declares a provider: `[providers.<name>]`.
pub open spec fn is_provider_section(s: SectionView) -> bool {
    s.table == "providers"@ && s.name is Some
}

/// The provider sections of a document, in source order.
pub open spec fn provider_sections(doc: Seq<SectionView>) -> Seq<SectionView>
    decreases doc.len(),
{
    if doc.len() == 0 {
        Seq::empty()
    } else {
        provider_sections(doc.drop_last()) + (if is_provider_section(doc.last()) {
            seq![doc.last()]
        } else {
            Seq::empty()
        })
    }
}

/// A section's name, for sections known to have one.
pub open spec fn section_name(s: SectionView) -> Seq<char> {
    match s.name {
        Some(n) => n,
        None => Seq::empty(),
    }
}

/// The provider type names the factory recognizes.
pub open spec fn known_provider(n: Seq<char>) -> bool {
    n == "mock"@ || n == "aws"@ || n == "param_store"@
}

/// Whether a recognized provider section deserializes into its settings
/// record.
pub open spec fn provider_section_valid(s: SectionView) -> bool {
    if section_name(s) == "mock"@ {
        lookup(s.entries, "data"@) matches Some(ValueView::Str(_))
    } else if section_name(s) == "aws"@ {
        &&& lookup(s.entries, "application"@) matches Some(ValueView::Str(_))
        &&& lookup(s.entries, "environment"@) matches Some(ValueView::Str(_))
        &&& lookup(s.entries, "configuration"@) matches Some(ValueView::Str(_))
        &&& lookup(s.entries, "client_id"@) matches Some(ValueView::Str(_))
        &&& (lookup(s.entries, "state_file"@) is None || lookup(s.entries, "state_file"@) matches
            Some(ValueView::Str(_)))
    } else if section_name(s) == "param_store"@ {
        &&& lookup(s.entries, "key"@) matches Some(ValueView::Str(_))
        &&& (lookup(s.entries, "state_file"@) is None || lookup(s.entries, "state_file"@) matches
            Some(ValueView::Str(_)))
    } else {
        false
    }
}

/// Whether a settings record holds exactly what the section assigns.
pub open spec fn provider_conf_matches(p: ProviderConf, s: SectionView) -> bool {
    match p {
        ProviderConf::Mock(c) => s.name == Some("mock"@) && lookup(s.entries, "data"@) == Some(
            ValueView::Str(c.data@),
        ),
        ProviderConf::AWS(c) => {
            &&& s.name == Some("aws"@)
            &&& lookup(s.entries, "application"@) == Some(ValueView::Str(c.application@))
            &&& lookup(s.entries, "environment"@) == Some(ValueView::Str(c.environment@))
            &&& lookup(s.entries, "configuration"@) == Some(ValueView::Str(c.configuration@))
            &&& lookup(s.entries, "client_id"@) == Some(ValueView::Str(c.client_id@))
            &&& (match c.state_file {
                Some(f) => lookup(s.entries, "state_file"@) == Some(ValueView::Str(f@)),
                None => lookup(s.entries, "state_file"@) is None,
            })
        },
        ProviderConf::ParamStore(c) => {
            &&& s.name == Some("param_store"@)
            &&& lookup(s.entries, "key"@) == Some(ValueView::Str(c.key@))
            &&& (match c.state_file {
                Some(f) => lookup(s.entries, "state_file"@) == Some(ValueView::Str(f@)),
                None => lookup(s.entries, "state_file"@) is None,
            })
        },
    }
}

/// The recognized section names are pairwise distinct words.
proof fn lemma_names_distinct()
    ensures
        "mock"@ != "aws"@,
        "mock"@ != "param_store"@,
        "aws"@ != "param_store"@,
        "template"@ != "file"@,
        "template"@ != "raw"@,
        "template"@ != "command"@,
        "file"@ != "raw"@,
        "file"@ != "command"@,
        "raw"@ != "command"@,
{
    reveal_strlit("mock");
    reveal_strlit("aws");
    reveal_strlit("param_store");
    reveal_strlit("template");
    reveal_strlit("file");
    reveal_strlit("raw");
    reveal_strlit("command");
    assert("mock"@.len() == 4);
    assert("aws"@.len() == 3);
    assert("param_store"@.len() == 11);
    assert("template"@.len() == 8);
    assert("file"@.len() == 4);
    assert("raw"@.len() == 3);
    assert("command"@.len() == 7);
}

/// Reads a required string setting.
fn get_str(s: &RawSection, key: &str, section: &str) -> (r: Result<String, ConfigError>)
    ensures
        r matches Ok(v) ==> lookup(s@.entries, key@) == Some(ValueView::Str(v@)),
        r matches Err(e) ==> (e matches ConfigError::InvalidSection { section: n, cause: _ } && n@
            == section@) && !(lookup(s@.entries, key@) matches Some(ValueView::Str(_))),
{
    match lookup_exec(&s.entries, key) {
        Some(i) => match &s.entries[i].value {
            RawValue::Str(v) => Ok(v.clone()),
            RawValue::Bool(_) => Err(invalid(section, "expected a string")),
        },
        None => Err(invalid(section, "missing required field")),
    }
}

/// Reads an optional string setting; present-but-not-a-string is an error.
fn get_opt_str(s: &RawSection, key: &str, section: &str) -> (r: Result<Option<String>, ConfigError>)
    ensures
        r matches Ok(v) ==> (match v {
            Some(x) => lookup(s@.entries, key@) == Some(ValueView::Str(x@)),
            None => lookup(s@.entries, key@) is None,
        }),
        r matches Err(e) ==> (e matches ConfigError::InvalidSection { section: n, cause: _ } && n@
            == section@) && !(lookup(s@.entries, key@) is None || lookup(s@.entries, key@) matches
            Some(ValueView::Str(_))),
{
    match lookup_exec(&s.entries, key) {
        Some(i) => match &s.entries[i].value {
            RawValue::Str(v) => Ok(Some(v.clone())),
            RawValue::Bool(_) => Err(invalid(section, "expected a string")),
        },
        None => Ok(None),
    }
}

fn parse_mock(s: &RawSection) -> (r: Result<MockConf, ConfigError>)
    ensures
        r matches Ok(c) ==> lookup(s@.entries, "data"@) == Some(ValueView::Str(c.data@)),
        r matches Err(e) ==> e matches ConfigError::InvalidSection { section, cause: _ }
            && section@ == "mock"@,
        r is Ok <==> (lookup(s@.entries, "data"@) matches Some(ValueView::Str(_))),
{
    proof {
        lemma_names_distinct();
    }
    let data = match get_str(s, "data", "mock") {
        Ok(v) => v,
        Err(e) => return Err(e),
    };
    Ok(MockConf { data })
}

fn parse_aws(s: &RawSection) -> (r: Result<AWSConf, ConfigError>)
    ensures
        r matches Ok(c) ==> provider_conf_matches(ProviderConf::AWS(c), s@) || s@.name != Some(
            "aws"@,
        ),
        r matches Err(e) ==> e matches ConfigError::InvalidSection { section, cause: _ }
            && section@ == "aws"@,
        s@.name == Some("aws"@) ==> (r is Ok <==> provider_section_valid(s@)),
{
    proof {
        lemma_names_distinct();
    }
    let application = match get_str(s, "application", "aws") {
        Ok(v) => v,
        Err(e) => return Err(e),
    };
    let environment = match get_str(s, "environment", "aws") {
        Ok(v) => v,
        Err(e) => return Err(e),
    };
    let configuration = match get_str(s, "configuration", "aws") {
        Ok(v) => v,
        Err(e) => return Err(e),
    };
    let client_id = match get_str(s, "client_id", "aws") {
        Ok(v) => v,
        Err(e) => return Err(e),
    };
    let state_file = match get_opt_str(s, "state_file", "aws") {
        Ok(v) => v,
        Err(e) => return Err(e),
    };
    Ok(AWSConf { application, environment, configuration, client_id, state_file })
}

fn parse_param_store(s: &RawSection) -> (r: Result<ParamStoreConf, ConfigError>)
    ensures
        r matches Ok(c) ==> provider_conf_matches(ProviderConf::ParamStore(c), s@) || s@.name
            != Some("param_store"@),
        r matches Err(e) ==> e matches ConfigError::InvalidSection { section, cause: _ }
            && section@ == "param_store"@,
        s@.name == Some("param_store"@) ==> (r is Ok <==> provider_section_valid(s@)),
{
    proof {
        lemma_names_distinct();
    }
    let key = match get_str(s, "key", "param_store") {
        Ok(v) => v,
        Err(e) => return Err(e),
    };
    let state_file = match get_opt_str(s, "state_file", "param_store") {
        Ok(v) => v,
        Err(e) => return Err(e),
    };
    Ok(ParamStoreConf { key, state_file })
}

impl Config {
    /// Picks the one provider the document declares. Exactly as the spec
    /// functions say: no provider section is `MissingProvider`, several are
    /// `AmbiguousProvider`, an unrecognized name is `UnknownProvider`, a
    /// recognized section that does not deserialize is `InvalidSection`, and
    /// otherwise the settings record of the matching variant — and no other —
    /// is returned.
    pub fn get_provider(doc: &RawDoc) -> (r: Result<ProviderConf, ConfigError>)
        ensures
            provider_sections(doc@).len() == 0 ==> (r matches Err(e) && e is MissingProvider),
            provider_sections(doc@).len() > 1 ==> (r matches Err(e) && e is AmbiguousProvider),
            provider_sections(doc@).len() == 1 && !known_provider(
                section_name(provider_sections(doc@)[0]),
            ) ==> (r matches Err(e) && e matches ConfigError::UnknownProvider { name } && name@
                == section_name(provider_sections(doc@)[0])),
            provider_sections(doc@).len() == 1 && known_provider(
                section_name(provider_sections(doc@)[0]),
            ) && !provider_section_valid(provider_sections(doc@)[0]) ==> (r matches Err(e) && e
                matches ConfigError::InvalidSection { section, cause: _ } && section@
                == section_name(provider_sections(doc@)[0])),
            provider_sections(doc@).len() == 1 && known_provider(
                section_name(provider_sections(doc@)[0]),
            ) && provider_section_valid(provider_sections(doc@)[0]) ==> (r matches Ok(p)
                && provider_conf_matches(p, provider_sections(doc@)[0])),
    {
        let ghost dv = doc@;
        let mut count: usize = 0;
        let mut first: usize = 0;
        let mut i: usize = 0;
        while i < doc.sections.len()
            invariant
                i <= doc.sections@.len(),
                dv == doc@,
                dv.len() == doc.sections@.len(),
                count == provider_sections(dv.subrange(0, i as int)).len(),
                count <= i,
                count > 0 ==> first < i && provider_sections(dv.subrange(0, i as int))[0]
                    == dv[first as int] && is_provider_section(dv[first as int]),
            decreases doc.sections@.len() - i,
        {
            let ghost pre = dv.subrange(0, i as int);
            proof {
                assert(dv.subrange(0, i + 1 as int).drop_last() =~= pre);
                assert(dv.subrange(0, i + 1 as int).last() == dv[i as int]);
            }
            let sec = &doc.sections[i];
            if str_eq(sec.table.as_str(), "providers") && sec.name.is_some() {
                proof {
                    assert(is_provider_section(dv[i as int]));
                    if count == 0 {
                        assert(provider_sections(pre) =~= Seq::<SectionView>::empty());
                        assert(provider_sections(dv.subrange(0, i + 1 as int)) =~= seq![
                            dv[i as int],
                        ]);
                    }
                }
                if count == 0 {
                    first = i;
                }
                count = count + 1;
            } else {
                proof {
                    assert(!is_provider_section(dv[i as int]));
                    assert(provider_sections(dv.subrange(0, i + 1 as int)) =~= provider_sections(
                        pre,
                    ));
                }
            }
            i = i + 1;
        }
        proof {
            assert(dv.subrange(0, dv.len() as int) =~= dv);
        }
        if count == 0 {
            return Err(ConfigError::MissingProvider);
        }
        if count > 1 {
            return Err(ConfigError::AmbiguousProvider);
        }
        let sec = &doc.sections[first];
        let name = match &sec.name {
            Some(n) => n,
            None => {
                proof {
                    assert(false);
                }
                return Err(ConfigError::MissingProvider);
            },
        };
        if str_eq(name.as_str(), "mock") {
            match parse_mock(sec) {
                Ok(c) => Ok(ProviderConf::Mock(c)),
                Err(e) => Err(e),
            }
        } else if str_eq(name.as_str(), "aws") {
            match parse_aws(sec) {
                Ok(c) => Ok(ProviderConf::AWS(c)),
                Err(e) => Err(e),
            }
        } else if str_eq(name.as_str(), "param_store") {
            match parse_param_store(sec) {
                Ok(c) => Ok(ProviderConf::ParamStore(c)),
                Err(e) => Err(e),
            }
        } else {
            Err(ConfigError::UnknownProvider { name: name.clone() })
        }
    }
}

// ---------------------------------------------------------------------------
// Hook sections.
// ---------------------------------------------------------------------------

/// The hook type names the factory recognizes; unknown names are skipped in
/// silence.
pub open spec fn known_hook(n: Seq<char>) -> bool {
    n == "template"@ || n == "file"@ || n == "raw"@ || n == "command"@
}

/// Whether a section declares a recognized hook: `[hooks.<known name>]`.
pub open spec fn is_hook_section(s: SectionView) -> bool {
    s.table == "hooks"@ && s.name is Some && known_hook(section_name(s))
}

/// The recognized hook sections of a document, in source order. The hook
/// list the factory builds follows this order, section for section.
pub open spec fn hook_sections(doc: Seq<SectionView>) -> Seq<SectionView>
    decreases doc.len(),
{
    if doc.len() == 0 {
        Seq::empty()
    } else {
        hook_sections(doc.drop_last()) + (if is_hook_section(doc.last()) {
            seq![doc.last()]
        } else {
            Seq::empty()
        })
    }
}

/// The format names a template section may declare.
proof fn lemma_format_names_distinct()
    ensures
        "yaml"@ != "json"@,
        "yaml"@ != "toml"@,
        "json"@ != "toml"@,
{
    reveal_strlit("yaml");
    reveal_strlit("json");
    reveal_strlit("toml");
    assert("yaml"@[0] == 'y');
    assert("json"@[0] == 'j');
    assert("toml"@[0] == 't');
}

/// Whether a recognized hook section deserializes into its settings record.
pub open spec fn hook_section_valid(s: SectionView) -> bool {
    if section_name(s) == "template"@ {
        &&& lookup(s.entries, "file"@) matches Some(ValueView::Str(_))
        &&& (lookup(s.entries, "source_type"@) == Some(ValueView::Str("yaml"@)) || lookup(
            s.entries,
            "source_type"@,
        ) == Some(ValueView::Str("json"@)) || lookup(s.entries, "source_type"@) == Some(
            ValueView::Str("toml"@),
        ))
        &&& (lookup(s.entries, "out_file"@) is None || lookup(s.entries, "out_file"@) matches Some(
            ValueView::Str(_),
        ))
    } else if section_name(s) == "file"@ {
        lookup(s.entries, "outfile"@) matches Some(ValueView::Str(_))
    } else if section_name(s) == "raw"@ {
        true
    } else if section_name(s) == "command"@ {
        &&& lookup(s.entries, "command"@) matches Some(ValueView::Str(_))
        &&& (lookup(s.entries, "pipe_data"@) is None || lookup(s.entries, "pipe_data"@) matches
            Some(ValueView::Bool(_)))
    } else {
        false
    }
}

/// Whether a hook settings record holds exactly what the section assigns.
pub open spec fn hook_conf_matches(h: HookConf, s: SectionView) -> bool {
    match h {
        HookConf::Template(c) => {
            &&& s.name == Some("template"@)
            &&& lookup(s.entries, "file"@) == Some(ValueView::Str(c.file@))
            &&& lookup(s.entries, "source_type"@) == Some(ValueView::Str(source_name(c.source_type)))
            &&& (match c.out_file {
                Some(o) => lookup(s.entries, "out_file"@) == Some(ValueView::Str(o@)),
                None => lookup(s.entries, "out_file"@) is None,
            })
        },
        HookConf::File(c) => s.name == Some("file"@) && lookup(s.entries, "outfile"@) == Some(
            ValueView::Str(c.outfile@),
        ),
        HookConf::Raw(_) => s.name == Some("raw"@),
        HookConf::Command(c) => {
            &&& s.name == Some("command"@)
            &&& lookup(s.entries, "command"@) == Some(ValueView::Str(c.command@))
            &&& (match c.pipe_data {
                Some(b) => lookup(s.entries, "pipe_data"@) == Some(ValueView::Bool(b)),
                None => lookup(s.entries, "pipe_data"@) is None,
            })
        },
    }
}

/// Law: the recognized hook sections are the document's sections filtered in
/// place, so the factory's hook list — which follows them record for record —
/// keeps the order in which the hook sections stand in the source document,
/// regardless of how many hook types are declared.
pub proof fn lemma_hook_sections_in_document_order(doc: Seq<SectionView>)
    ensures
        hook_sections(doc) == doc.filter(|s: SectionView| is_hook_section(s)),
    decreases doc.len(),
{
    reveal(Seq::filter);
    if doc.len() > 0 {
        lemma_hook_sections_in_document_order(doc.drop_last());
        if is_hook_section(doc.last()) {
            assert(hook_sections(doc.drop_last()) + seq![doc.last()] =~= doc.drop_last().filter(
                |s: SectionView| is_hook_section(s),
            ).push(doc.last()));
        } else {
            assert(hook_sections(doc.drop_last()) + Seq::<SectionView>::empty() =~= doc.drop_last().filter(
                |s: SectionView| is_hook_section(s),
            ));
        }
    }
}

/// Law: the provider sections, too, are the document's sections filtered in
/// place; with exactly one of them, the factory builds the provider of that
/// one section.
pub proof fn lemma_provider_sections_in_document_order(doc: Seq<SectionView>)
    ensures
        provider_sections(doc) == doc.filter(|s: SectionView| is_provider_section(s)),
    decreases doc.len(),
{
    reveal(Seq::filter);
    if doc.len() > 0 {
        lemma_provider_sections_in_document_order(doc.drop_last());
        if is_provider_section(doc.last()) {
            assert(provider_sections(doc.drop_last()) + seq![doc.last()]
                =~= doc.drop_last().filter(|s: SectionView| is_provider_section(s)).push(
                doc.last(),
            ));
        } else {
            assert(provider_sections(doc.drop_last()) + Seq::<SectionView>::empty()
                =~= doc.drop_last().filter(|s: SectionView| is_provider_section(s)));
        }
    }
}

/// The recognized hook sections of a prefix stand, in order, at the start of
/// the whole document's recognized hook sections.
proof fn lemma_hook_sections_prefix(doc: Seq<SectionView>, j: int)
    requires
        0 <= j <= doc.len(),
    ensures
        hook_sections(doc.subrange(0, j)).len() <= hook_sections(doc).len(),
        forall|k: int|
            0 <= k < hook_sections(doc.subrange(0, j)).len() ==> hook_sections(doc.subrange(0, j))[k]
                == #[trigger] hook_sections(doc)[k],
    decreases doc.len() - j,
{
    if j < doc.len() {
        let a = doc.subrange(0, j);
        let b = doc.subrange(0, j + 1);
        assert(b.drop_last() =~= a);
        assert(b.last() == doc[j]);
        lemma_hook_sections_prefix(doc, j + 1);
    } else {
        assert(doc.subrange(0, j) =~= doc);
    }
}

/// Reads an optional boolean setting; present-but-not-a-boolean is an error.
fn get_opt_bool(s: &RawSection, key: &str, section: &str) -> (r: Result<
    Option<bool>,
    ConfigError,
>)
    ensures
        r matches Ok(v) ==> (match v {
            Some(x) => lookup(s@.entries, key@) == Some(ValueView::Bool(x)),
            None => lookup(s@.entries, key@) is None,
        }),
        r matches Err(e) ==> (e matches ConfigError::InvalidSection { section: n, cause: _ } && n@
            == section@) && !(lookup(s@.entries, key@) is None || lookup(s@.entries, key@) matches
            Some(ValueView::Bool(_))),
{
    match lookup_exec(&s.entries, key) {
        Some(i) => match &s.entries[i].value {
            RawValue::Bool(b) => Ok(Some(*b)),
            RawValue::Str(_) => Err(invalid(section, "expected a boolean")),
        },
        None => Ok(None),
    }
}

fn parse_template(s: &RawSection) -> (r: Result<TemplateConf, ConfigError>)
    ensures
        r matches Ok(c) ==> lookup(s@.entries, "file"@) == Some(ValueView::Str(c.file@)) && lookup(
            s@.entries,
            "source_type"@,
        ) == Some(ValueView::Str(source_name(c.source_type))) && (match c.out_file {
            Some(o) => lookup(s@.entries, "out_file"@) == Some(ValueView::Str(o@)),
            None => lookup(s@.entries, "out_file"@) is None,
        }),
        r matches Err(e) ==> e matches ConfigError::InvalidSection { section, cause: _ }
            && section@ == "template"@,
        s@.name == Some("template"@) ==> (r is Ok <==> hook_section_valid(s@)),
{
    proof {
        lemma_names_distinct();
        lemma_format_names_distinct();
    }
    let file = match get_str(s, "file", "template") {
        Ok(v) => v,
        Err(e) => return Err(e),
    };
    let st = match get_str(s, "source_type", "template") {
        Ok(v) => v,
        Err(e) => return Err(e),
    };
    let source_type = if str_eq(st.as_str(), "yaml") {
        DataType::YAML
    } else if str_eq(st.as_str(), "json") {
        DataType::JSON
    } else if str_eq(st.as_str(), "toml") {
        DataType::TOML
    } else {
        return Err(invalid("template", "source_type must be yaml, json or toml"));
    };
    let out_file = match get_opt_str(s, "out_file", "template") {
        Ok(v) => v,
        Err(e) => return Err(e),
    };
    Ok(TemplateConf { file, source_type, out_file })
}

fn parse_file(s: &RawSection) -> (r: Result<FileConf, ConfigError>)
    ensures
        r matches Ok(c) ==> lookup(s@.entries, "outfile"@) == Some(ValueView::Str(c.outfile@)),
        r matches Err(e) ==> e matches ConfigError::InvalidSection { section, cause: _ }
            && section@ == "file"@,
        s@.name == Some("file"@) ==> (r is Ok <==> hook_section_valid(s@)),
{
    proof {
        lemma_names_distinct();
    }
    let outfile = match get_str(s, "outfile", "file") {
        Ok(v) => v,
        Err(e) => return Err(e),
    };
    Ok(FileConf { outfile })
}

fn parse_command(s: &RawSection) -> (r: Result<CommandConf, ConfigError>)
    ensures
        r matches Ok(c) ==> lookup(s@.entries, "command"@) == Some(ValueView::Str(c.command@)) && (
        match c.pipe_data {
            Some(b) => lookup(s@.entries, "pipe_data"@) == Some(ValueView::Bool(b)),
            None => lookup(s@.entries, "pipe_data"@) is None,
        }),
        r matches Err(e) ==> e matches ConfigError::InvalidSection { section, cause: _ }
            && section@ == "command"@,
        s@.name == Some("command"@) ==> (r is Ok <==> hook_section_valid(s@)),
{
    proof {
        lemma_names_distinct();
    }
    let command = match get_str(s, "command", "command") {
        Ok(v) => v,
        Err(e) => return Err(e),
    };
    let pipe_data = match get_opt_bool(s, "pipe_data", "command") {
        Ok(v) => v,
        Err(e) => return Err(e),
    };
    Ok(CommandConf { command, pipe_data })
}

impl Config {
    /// Collects the hooks the document declares, in declaration order: the
    /// k-th settings record holds exactly what the k-th recognized hook
    /// section assigns. Unknown names under `[hooks.*]` are skipped in
    /// silence; a recognized section that does not deserialize aborts the
    /// whole load.
    pub fn get_hooks(doc: &RawDoc) -> (r: Result<Vec<HookConf>, ConfigError>)
        ensures
            r matches Ok(hs) ==> hs@.len() == hook_sections(doc@).len() && (forall|k: int|
                0 <= k < hs@.len() ==> hook_conf_matches(
                    #[trigger] hs@[k],
                    hook_sections(doc@)[k],
                )) && (forall|k: int|
                0 <= k < hook_sections(doc@).len() ==> hook_section_valid(
                    #[trigger] hook_sections(doc@)[k],
                )),
            r matches Err(e) ==> e matches ConfigError::InvalidSection { .. } && exists|k: int|
                0 <= k < hook_sections(doc@).len() && !hook_section_valid(
                    #[trigger] hook_sections(doc@)[k],
                ),
    {
        let ghost dv = doc@;
        let mut confs: Vec<HookConf> = Vec::new();
        proof {
            assert(dv.subrange(0, 0) =~= Seq::<SectionView>::empty());
            lemma_names_distinct();
        }
        let mut i: usize = 0;
        while i < doc.sections.len()
            invariant
                i <= doc.sections@.len(),
                dv == doc@,
                dv.len() == doc.sections@.len(),
                confs@.len() == hook_sections(dv.subrange(0, i as int)).len(),
                forall|k: int|
                    0 <= k < confs@.len() ==> hook_conf_matches(
                        #[trigger] confs@[k],
                        hook_sections(dv.subrange(0, i as int))[k],
                    ),
                forall|k: int|
                    0 <= k < confs@.len() ==> hook_section_valid(
                        #[trigger] hook_sections(dv.subrange(0, i as int))[k],
                    ),
            decreases doc.sections@.len() - i,
        {
            let ghost pre = dv.subrange(0, i as int);
            proof {
                lemma_names_distinct();
                assert(dv.subrange(0, i + 1 as int).drop_last() =~= pre);
                assert(dv.subrange(0, i + 1 as int).last() == dv[i as int]);
            }
            let sec = &doc.sections[i];
            let mut hook_here = false;
            if str_eq(sec.table.as_str(), "hooks") {
                match &sec.name {
                    Some(n) => {
                        if str_eq(n.as_str(), "template") {
                            hook_here = true;
                            match parse_template(sec) {
                                Ok(c) => confs.push(HookConf::Template(c)),
                                Err(e) => {
                                    proof {
                                        assert(is_hook_section(dv[i as int]));
                                        assert(hook_sections(dv.subrange(0, i + 1 as int))
                                            =~= hook_sections(pre).push(dv[i as int]));
                                        lemma_hook_sections_prefix(dv, i + 1 as int);
                                        assert(hook_sections(dv)[hook_sections(pre).len() as int]
                                            == dv[i as int]);
                                        assert(!hook_section_valid(dv[i as int]));
                                    }
                                    return Err(e);
                                },
                            }
                        } else if str_eq(n.as_str(), "file") {
                            hook_here = true;
                            match parse_file(sec) {
                                Ok(c) => confs.push(HookConf::File(c)),
                                Err(e) => {
                                    proof {
                                        assert(is_hook_section(dv[i as int]));
                                        assert(hook_sections(dv.subrange(0, i + 1 as int))
                                            =~= hook_sections(pre).push(dv[i as int]));
                                        lemma_hook_sections_prefix(dv, i + 1 as int);
                                        assert(hook_sections(dv)[hook_sections(pre).len() as int]
                                            == dv[i as int]);
                                        assert(!hook_section_valid(dv[i as int]));
                                    }
                                    return Err(e);
                                },
                            }
                        } else if str_eq(n.as_str(), "raw") {
                            hook_here = true;
                            confs.push(HookConf::Raw(RawConf {  }));
                        } else if str_eq(n.as_str(), "command") {
                            hook_here = true;
                            match parse_command(sec) {
                                Ok(c) => confs.push(HookConf::Command(c)),
                                Err(e) => {
                                    proof {
                                        assert(is_hook_section(dv[i as int]));
                                        assert(hook_sections(dv.subrange(0, i + 1 as int))
                                            =~= hook_sections(pre).push(dv[i as int]));
                                        lemma_hook_sections_prefix(dv, i + 1 as int);
                                        assert(hook_sections(dv)[hook_sections(pre).len() as int]
                                            == dv[i as int]);
                                        assert(!hook_section_valid(dv[i as int]));
                                    }
                                    return Err(e);
                                },
                            }
                        }
                    },
                    None => {},
                }
            }
            proof {
                if hook_here {
                    assert(is_hook_section(dv[i as int]));
                    assert(hook_sections(dv.subrange(0, i + 1 as int)) =~= hook_sections(
                        pre,
                    ).push(dv[i as int]));
                } else {
                    assert(!is_hook_section(dv[i as int]));
                    assert(hook_sections(dv.subrange(0, i + 1 as int)) =~= hook_sections(pre));
                }
            }
            i = i + 1;
        }
        proof {
            assert(dv.subrange(0, dv.len() as int) =~= dv);
        }
        Ok(confs)
    }
}

// ---------------------------------------------------------------------------
// Converting settings records into runtime entities.
// ---------------------------------------------------------------------------

/// How many template hooks a settings list declares.
pub open spec fn template_count(confs: Seq<HookConf>) -> int
    decreases confs.len(),
{
    if confs.len() == 0 {
        0
    } else {
        template_count(confs.drop_last()) + (if confs.last() is Template {
            1int
        } else {
            0int
        })
    }
}

/// A prefix declares no more template hooks than the whole list; one more
/// when the next record is itself a template.
proof fn lemma_template_count_prefix(confs: Seq<HookConf>, j: int)
    requires
        0 <= j <= confs.len(),
    ensures
        template_count(confs.subrange(0, j)) <= template_count(confs),
        j < confs.len() && confs[j] is Template ==> template_count(confs.subrange(0, j)) + 1
            <= template_count(confs),
    decreases confs.len() - j,
{
    if j < confs.len() {
        let a = confs.subrange(0, j);
        let b = confs.subrange(0, j + 1);
        assert(b.drop_last() =~= a);
        assert(b.last() == confs[j]);
        lemma_template_count_prefix(confs, j + 1);
    } else {
        assert(confs.subrange(0, j) =~= confs);
    }
}

/// The template body belonging to the `i`-th settings record: the bodies are
/// handed in one per template hook, in order.
pub open spec fn hook_body(confs: Seq<HookConf>, bodies: Seq<String>, i: int) -> Seq<char> {
    if confs[i] is Template {
        bodies[template_count(confs.subrange(0, i))]@
    } else {
        Seq::empty()
    }
}

/// Whether a runtime hook is the entity its settings record describes; for a
/// template hook, `body` is the template text it was built around.
pub open spec fn hook_matches_conf(h: Hook, c: HookConf, body: Seq<char>) -> bool {
    match c {
        HookConf::Template(tc) => h matches Hook::Template(t) && t.spec_tpl() == body
            && t.spec_source_type() == tc.source_type && t.spec_out_file() == (match tc.out_file {
            Some(o) => Some(o@),
            None => None::<Seq<char>>,
        }),
        HookConf::File(fc) => h matches Hook::File(f) && ((fc.outfile@.len() == 0 || fc.outfile@[0]
            != '~') ==> f.spec_outfile() == fc.outfile@),
        HookConf::Raw(_) => h is Raw,
        HookConf::Command(cc) => h matches Hook::Command(k) && k.spec_command() == cc.command@
            && k.spec_pipe() == (match cc.pipe_data {
            Some(b) => b,
            None => false,
        }),
    }
}

/// Builds the runtime hooks from their settings records, in order — the hook
/// list's execution order is the records' order, which is the order the hook
/// sections stand in the document. Reading a template file is input/output
/// and happens outside this library, so the template bodies are handed in
/// here, one per template record, in order; when their number does not match
/// no hooks at all are built.
pub fn convert_hooks(confs: &Vec<HookConf>, bodies: &Vec<String>) -> (r: Option<Vec<Hook>>)
    ensures
        r is Some <==> bodies@.len() == template_count(confs@),
        r matches Some(hs) ==> hs@.len() == confs@.len() && forall|i: int|
            0 <= i < confs@.len() ==> hook_matches_conf(
                #[trigger] hs@[i],
                confs@[i],
                hook_body(confs@, bodies@, i),
            ),
{
    let mut hooks: Vec<Hook> = Vec::new();
    let mut tcount: usize = 0;
    proof {
        assert(confs@.subrange(0, 0) =~= Seq::<HookConf>::empty());
    }
    let mut i: usize = 0;
    while i < confs.len()
        invariant
            i <= confs@.len(),
            tcount <= i,
            tcount <= bodies@.len(),
            tcount == template_count(confs@.subrange(0, i as int)),
            hooks@.len() == i,
            forall|k: int|
                0 <= k < i ==> hook_matches_conf(
                    #[trigger] hooks@[k],
                    confs@[k],
                    hook_body(confs@, bodies@, k),
                ),
        decreases confs@.len() - i,
    {
        proof {
            assert(confs@.subrange(0, i + 1 as int).drop_last() =~= confs@.subrange(0, i as int));
            assert(confs@.subrange(0, i + 1 as int).last() == confs@[i as int]);
        }
        match &confs[i] {
            HookConf::Template(tc) => {
                if tcount >= bodies.len() {
                    proof {
                        lemma_template_count_prefix(confs@, i as int);
                    }
                    return None;
                }
                let body = &bodies[tcount];
                hooks.push(Hook::Template(tc.convert(body.as_str())));
                tcount = tcount + 1;
            },
            HookConf::File(fc) => {
                hooks.push(Hook::File(fc.convert()));
            },
            HookConf::Raw(rc) => {
                hooks.push(Hook::Raw(rc.convert()));
            },
            HookConf::Command(cc) => {
                hooks.push(Hook::Command(cc.convert()));
            },
        }
        i = i + 1;
    }
    proof {
        assert(confs@.subrange(0, confs@.len() as int) =~= confs@);
    }
    if tcount != bodies.len() {
        return None;
    }
    Some(hooks)
}

/// Whether a runtime provider is the entity its settings record describes; a
/// provider built without a state file starts from the empty sentinel.
pub open spec fn provider_matches_conf(p: Provider, c: ProviderConf) -> bool {
    match c {
        ProviderConf::Mock(mc) => p matches Provider::Mock(m) && m.data_spec() == mc.data@,
        ProviderConf::AWS(ac) => p matches Provider::AWS(a) && a.spec_application()
            == ac.application@ && a.spec_environment() == ac.environment@ && a.spec_configuration()
            == ac.configuration@ && a.spec_client_id() == ac.client_id@ && (ac.state_file is None
            ==> a.cached().version == 0 && a.cached().data == Seq::<char>::empty()),
        ProviderConf::ParamStore(pc) => p matches Provider::ParamStore(ps) && ps.spec_key()
            == pc.key@ && (pc.state_file is None ==> ps.cached().version == 0 && ps.cached().data
            == Seq::<char>::empty()),
    }
}

impl ProviderConf {
    /// Builds the runtime provider this settings record describes, opening
    /// (or creating) its backing store; a store that cannot be opened or
    /// initialized is fatal.
    pub fn convert(&self) -> (r: Result<Provider, ProviderError>)
        ensures
            r matches Ok(p) ==> provider_matches_conf(p, *self),
            r matches Err(e) ==> e is StoreInit && !(self is Mock),
    {
        match self {
            ProviderConf::Mock(c) => Ok(Provider::Mock(c.convert())),
            ProviderConf::AWS(c) => match c.convert() {
                Ok(a) => Ok(Provider::AWS(a)),
                Err(e) => Err(e),
            },
            ProviderConf::ParamStore(c) => match c.convert() {
                Ok(p) => Ok(Provider::ParamStore(p)),
                Err(e) => Err(e),
            },
        }
    }
}

} // verus!
