//! The theme validator: a theme document is checked against the theme-family
//! schema, and every violation is reported.

use serde_json::Value;
use vstd::prelude::*;

verus! {

#[verifier::external_type_specification]
#[verifier::external_body]
pub struct ExValue(Value);

/// Whether relaxed JSON (comments and trailing commas allowed) accepts the text.
pub uninterp spec fn relaxed_json_accepts(text: Seq<char>) -> bool;

/// Whether strict JSON accepts the text.
pub uninterp spec fn json_accepts(text: Seq<char>) -> bool;

/// Relies on `serde_json_lenient::from_str`: parses JSON that may hold
/// comments and trailing commas, and fails on text it does not accept.
#[verifier::external_body]
pub(crate) fn parse_relaxed_json(text: &str) -> (r: Result<Value, String>)
    ensures
        r is Ok <==> relaxed_json_accepts(text@),
{
    serde_json_lenient::from_str::<Value>(text).map_err(|e| e.to_string())
}

/// Relies on `serde_json::from_str`: parses strict JSON, and fails on text it
/// does not accept.
#[verifier::external_body]
fn parse_json(text: &str) -> (r: Result<Value, String>)
    ensures
        r is Ok <==> json_accepts(text@),
{
    serde_json::from_str::<Value>(text).map_err(|e| e.to_string())
}

/// The theme-family schema: a family has a name, an author and a list of
/// themes, each with a name, an appearance and a style object. Other
/// properties are allowed.
pub const THEME_FAMILY_SCHEMA: &'static str = r#"{
  "$schema": "http://json-schema.org/draft-07/schema#",
  "title": "Theme family",
  "type": "object",
  "required": ["name", "author", "themes"],
  "properties": {
    "name": { "type": "string" },
    "author": { "type": "string" },
    "themes": {
      "type": "array",
      "items": {
        "type": "object",
        "required": ["name", "appearance", "style"],
        "properties": {
          "name": { "type": "string" },
          "appearance": { "enum": ["light", "dark"] },
          "style": { "type": "object" }
        }
      }
    }
  }
}"#;

/// Whether the schema with this text compiles.
pub uninterp spec fn schema_compiles(schema: Seq<char>) -> bool;

/// Whether the document with text `theme` meets the schema with text `schema`.
pub uninterp spec fn theme_conforms(schema: Seq<char>, theme: Seq<char>) -> bool;

/// The schema that every theme document must meet: the embedded theme-family
/// schema, parsed once and shared.
pub struct ThemeSchema {
    source: String,
    document: Value,
}

/// A theme document, kept with the text it was parsed from.
pub struct ThemeDocument {
    source: String,
    value: Value,
}

impl ThemeSchema {
    /// The text the schema was parsed from.
    pub closed spec fn source(&self) -> Seq<char> {
        self.source@
    }

    /// The schema is the embedded theme-family schema.
    pub open spec fn wf(&self) -> bool {
        self.source() == THEME_FAMILY_SCHEMA@
    }

    /// Parses the embedded theme-family schema.
    pub fn embedded() -> (r: Result<ThemeSchema, String>)
        ensures
            r is Ok <==> json_accepts(THEME_FAMILY_SCHEMA@),
            r matches Ok(schema) ==> schema.wf(),
    {
        match parse_json(THEME_FAMILY_SCHEMA) {
            Ok(document) => Ok(ThemeSchema { source: String::from_str(THEME_FAMILY_SCHEMA), document }),
            Err(e) => Err(e),
        }
    }
}

impl ThemeDocument {
    /// The text the document was parsed from.
    pub closed spec fn source(&self) -> Seq<char> {
        self.source@
    }

    /// Parses a theme document from relaxed JSON text.
    pub fn parse(text: &str) -> (r: Result<ThemeDocument, String>)
        ensures
            r is Ok <==> relaxed_json_accepts(text@),
            r matches Ok(doc) ==> doc.source() == text@,
    {
        match parse_relaxed_json(text) {
            Ok(value) => Ok(ThemeDocument { source: String::from_str(text), value }),
            Err(e) => Err(e),
        }
    }
}

/// Relies on `valico::json_schema::Scope::compile_and_return` and
/// `ScopedSchema::validate`: `None` when the schema does not compile, else one
/// diagnostic for each violation found in `doc`, none exactly when the
/// document meets the schema. Only the embedded schema is admitted: it holds
/// no `$ref`, through which valico could recurse without end.
#[verifier::external_body]
fn schema_violations(schema: &ThemeSchema, doc: &ThemeDocument) -> (r: Option<Vec<String>>)
    requires
        schema.wf(),
    ensures
        r is Some <==> schema_compiles(schema.source()),
        r is Some ==> (r->Some_0@.len() == 0 <==> theme_conforms(schema.source(), doc.source())),
{
    let mut scope = valico::json_schema::Scope::new();
    match scope.compile_and_return(schema.document.clone(), false) {
        Ok(compiled) => Some(
            compiled.validate(&doc.value).errors.iter().map(|e| format!("{:?}", e)).collect(),
        ),
        Err(_) => None,
    }
}

/// A theme document that does not meet the schema, with every diagnostic.
#[derive(Clone, Debug)]
pub struct ThemeValidationError {
    pub errors: Vec<String>,
}

/// The one diagnostic given when the schema itself does not compile.
pub open spec fn schema_unusable_text() -> Seq<char> {
    "the theme schema does not compile"@
}

/// The verdict on what the schema check found: `None` when the schema did
/// not compile, else the violations. A theme passes exactly when there are
/// none, and a failure carries all of them.
pub fn theme_verdict(violations: Option<Vec<String>>) -> (r: Result<(), ThemeValidationError>)
    ensures
        violations is None ==> r is Err && r->Err_0.errors@.len() == 1
            && r->Err_0.errors@[0]@ == schema_unusable_text(),
        violations is Some ==> (r is Ok <==> violations->Some_0@.len() == 0),
        violations is Some && r is Err ==> r->Err_0.errors@ == violations->Some_0@,
{
    match violations {
        None => {
            let mut errors: Vec<String> = Vec::new();
            errors.push(String::from_str("the theme schema does not compile"));
            Err(ThemeValidationError { errors })
        },
        Some(errors) => {
            if errors.len() == 0 {
                Ok(())
            } else {
                Err(ThemeValidationError { errors })
            }
        },
    }
}

/// Checks a theme document against the schema. It passes exactly when the
/// schema compiles and the document meets it; a failure carries every
/// diagnostic, at least one.
pub fn validate_theme(schema: &ThemeSchema, theme: &ThemeDocument) -> (r: Result<(), ThemeValidationError>)
    requires
        schema.wf(),
    ensures
        r is Ok <==> schema_compiles(schema.source()) && theme_conforms(schema.source(), theme.source()),
        r is Err ==> r->Err_0.errors@.len() > 0,
{
    theme_verdict(schema_violations(schema, theme))
}

} // verus!
