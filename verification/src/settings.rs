//! Resolution of the effective formatting configuration.
//!
//! The effective settings are merged in strict precedence order: an
//! explicitly supplied per-field override wins over whatever a config file
//! said, and a config file wins over the built-in defaults. A config file
//! that was given but cannot be deserialized is a fatal error: no settings
//! value comes out and no file is touched.

use vstd::prelude::*;
use leptosfmt_formatter::AttributeValueBraceStyle;
use leptosfmt_formatter::ClosingTagStyle;
use leptosfmt_formatter::ExpressionFormatter;
use leptosfmt_formatter::FormatterSettings;
use leptosfmt_formatter::IndentationStyle;
use leptosfmt_formatter::NewlineStyle;

verus! {

/// An engine-specific style field, opaque here: the core never reads it,
/// it only carries it through unchanged.
#[verifier::external_type_specification]
#[verifier::external_body]
pub struct ExIndentationStyle(IndentationStyle);

/// An engine-specific style field, opaque here.
#[verifier::external_type_specification]
#[verifier::external_body]
pub struct ExNewlineStyle(NewlineStyle);

/// An engine-specific style field, opaque here.
#[verifier::external_type_specification]
#[verifier::external_body]
pub struct ExAttributeValueBraceStyle(AttributeValueBraceStyle);

/// An engine-specific style field, opaque here.
#[verifier::external_type_specification]
#[verifier::external_body]
pub struct ExClosingTagStyle(ClosingTagStyle);

/// An engine-specific attribute-value formatter, opaque here.
#[verifier::external_type_specification]
#[verifier::external_body]
pub struct ExExpressionFormatter(ExpressionFormatter);

/// The settings struct itself is declared with its fields visible, so the
/// merge logic below is verified directly against the engine's own type.
#[verifier::external_type_specification]
pub struct ExFormatterSettings(FormatterSettings);

/// Relies on `FormatterSettings::default`: its source fixes `max_width`
/// to 100, `tab_spaces` to 4, and the two conventional macro names.
#[verifier::external_body]
pub fn default_settings() -> (r: FormatterSettings)
    ensures
        r.max_width == 100,
        r.tab_spaces == 4,
        r.macro_names@.len() == 2,
        r.macro_names@[0]@ == "leptos::view"@,
        r.macro_names@[1]@ == "view"@,
{
    FormatterSettings::default()
}

/// What the TOML deserializer makes of this text as settings: nothing
/// when the text does not deserialize, else the two numeric fields it
/// carries (the config's width and indent, with their defaults where the
/// text leaves them out). The verdict and the fields are a function of
/// the text alone.
pub uninterp spec fn toml_settings(text: Seq<char>) -> Option<(usize, usize)>;

/// Relies on `toml::from_str` to deserialize TOML text into
/// `FormatterSettings`: whether it succeeds, and which numeric fields it
/// yields, is settled by the text alone; the error case carries the
/// deserializer's own description of what was malformed.
#[verifier::external_body]
fn parse_settings_toml(text: &str) -> (r: Result<FormatterSettings, String>)
    ensures
        r is Ok <==> toml_settings(text@) is Some,
        r matches Ok(s) ==> toml_settings(text@) == Some((s.max_width, s.tab_spaces)),
{
    match toml::from_str::<FormatterSettings>(text) {
        Ok(s) => Ok(s),
        Err(e) => Err(e.to_string()),
    }
}

/// Where the effective settings come from: an explicitly named config
/// file, or a walk of the ancestor directories.
pub enum ConfigSource {
    Explicit(String),
    Discover,
}

/// Decides the config source: an explicitly given path is used in place
/// of discovery; only without one is discovery attempted at all.
pub fn choose_config_source(explicit: Option<String>) -> (r: ConfigSource)
    ensures
        match explicit {
            Some(path) => r matches ConfigSource::Explicit(p) && p@ == path@,
            None => r is Discover,
        },
{
    match explicit {
        Some(path) => ConfigSource::Explicit(path),
        None => ConfigSource::Discover,
    }
}

/// Replaces each field for which an explicit override was supplied and
/// keeps every other field of `s` exactly as it was.
pub fn apply_overrides(
    s: FormatterSettings,
    max_width: Option<usize>,
    tab_spaces: Option<usize>,
) -> (r: FormatterSettings)
    ensures
        r.max_width == (match max_width {
            Some(w) => w,
            None => s.max_width,
        }),
        r.tab_spaces == (match tab_spaces {
            Some(t) => t,
            None => s.tab_spaces,
        }),
        r.indentation_style == s.indentation_style,
        r.newline_style == s.newline_style,
        r.attr_value_brace_style == s.attr_value_brace_style,
        r.closing_tag_style == s.closing_tag_style,
        r.macro_names == s.macro_names,
        r.attr_values == s.attr_values,
{
    let mut r = s;
    if let Some(w) = max_width {
        r.max_width = w;
    }
    if let Some(t) = tab_spaces {
        r.tab_spaces = t;
    }
    r
}

/// Resolves the effective settings: the config file's content if one was
/// given, the built-in defaults otherwise, with the explicit per-field
/// overrides applied last so that they win over both. The one fatal error
/// is a config text that does not deserialize: resolution fails exactly
/// then, and each un-overridden numeric field is exactly what the config
/// (or, without one, the defaults) said.
pub fn resolve_settings(
    config_text: Option<&str>,
    max_width: Option<usize>,
    tab_spaces: Option<usize>,
) -> (r: Result<FormatterSettings, String>)
    ensures
        r is Ok <==> (match config_text {
            None => true,
            Some(text) => toml_settings(text@) is Some,
        }),
        r matches Ok(s) ==> (match max_width {
            Some(w) => s.max_width == w,
            None => (match config_text {
                None => s.max_width == 100,
                Some(text) => toml_settings(text@) matches Some(fields) && s.max_width
                    == fields.0,
            }),
        }),
        r matches Ok(s) ==> (match tab_spaces {
            Some(t) => s.tab_spaces == t,
            None => (match config_text {
                None => s.tab_spaces == 4,
                Some(text) => toml_settings(text@) matches Some(fields) && s.tab_spaces
                    == fields.1,
            }),
        }),
{
    let base = match config_text {
        None => default_settings(),
        Some(text) => match parse_settings_toml(text) {
            Ok(s) => s,
            Err(message) => {
                return Err(message);
            },
        },
    };
    Ok(apply_overrides(base, max_width, tab_spaces))
}

} // verus!
