//! The extension manifest, and the choice between its two on-disk forms.

use indexmap::IndexMap;
use vstd::prelude::*;

verus! {

/// An extension's metadata, whichever form it was read from.
#[derive(Clone, PartialEq, Eq, Debug)]
pub struct ExtensionManifest {
    pub name: String,
    pub version: String,
    pub description: Option<String>,
    pub repository: Option<String>,
    pub authors: Vec<String>,
    pub lib: Option<LibManifestEntry>,
    pub themes: Vec<String>,
    pub languages: Vec<String>,
    pub grammars: IndexMap<String, GrammarManifestEntry>,
    pub language_servers: IndexMap<String, LanguageServerManifestEntry>,
}

#[derive(Clone, Default, PartialEq, Eq, Debug)]
pub struct LibManifestEntry {
    pub path: String,
}

/// Where a grammar's sources are fetched from, and at which revision.
#[derive(Clone, Default, PartialEq, Eq, Debug)]
pub struct GrammarManifestEntry {
    pub repository: String,
    pub rev: String,
}

#[derive(Clone, PartialEq, Eq, Debug)]
pub struct LanguageServerManifestEntry {
    pub name: String,
    pub language: String,
}

/// Which on-disk form a manifest was read from.
#[derive(Debug, PartialEq, Eq, PartialOrd, Ord, Hash, Clone, Copy)]
pub enum ExtensionManifestFormat {
    Toml,
    Json,
}

/// What reading one manifest file gave.
#[derive(Clone, Debug)]
pub enum ManifestProbe {
    /// The file does not exist.
    Absent,
    /// The file exists but could not be read or parsed; the diagnostic.
    Invalid(String),
    Parsed(ExtensionManifest),
}

#[derive(Clone, Debug)]
pub enum ManifestError {
    /// Neither form of the manifest exists.
    NotFound,
    /// A manifest file exists in the given form but is malformed or unreadable.
    Malformed { format: ExtensionManifestFormat, detail: String },
}

/// The outcome of loading a manifest: the structured form when it exists,
/// else the legacy JSON form; a file that exists but fails is an error and
/// never falls through to the other form.
pub open spec fn choose_manifest(structured: ManifestProbe, legacy: ManifestProbe) -> Result<
    (ExtensionManifest, ExtensionManifestFormat),
    ManifestError,
> {
    match structured {
        ManifestProbe::Parsed(m) => Ok((m, ExtensionManifestFormat::Toml)),
        ManifestProbe::Invalid(d) => Err(
            ManifestError::Malformed { format: ExtensionManifestFormat::Toml, detail: d },
        ),
        ManifestProbe::Absent => match legacy {
            ManifestProbe::Parsed(m) => Ok((m, ExtensionManifestFormat::Json)),
            ManifestProbe::Invalid(d) => Err(
                ManifestError::Malformed { format: ExtensionManifestFormat::Json, detail: d },
            ),
            ManifestProbe::Absent => Err(ManifestError::NotFound),
        },
    }
}

/// Resolves a manifest from what reading `extension.toml` (`structured`) and
/// `extension.json` (`legacy`) gave. The legacy file need only be read when
/// the structured one is absent.
pub fn select_manifest(structured: ManifestProbe, legacy: ManifestProbe) -> (r: Result<
    (ExtensionManifest, ExtensionManifestFormat),
    ManifestError,
>)
    ensures
        r == choose_manifest(structured, legacy),
{
    match structured {
        ManifestProbe::Parsed(m) => Ok((m, ExtensionManifestFormat::Toml)),
        ManifestProbe::Invalid(d) => Err(
            ManifestError::Malformed { format: ExtensionManifestFormat::Toml, detail: d },
        ),
        ManifestProbe::Absent => match legacy {
            ManifestProbe::Parsed(m) => Ok((m, ExtensionManifestFormat::Json)),
            ManifestProbe::Invalid(d) => Err(
                ManifestError::Malformed { format: ExtensionManifestFormat::Json, detail: d },
            ),
            ManifestProbe::Absent => Err(ManifestError::NotFound),
        },
    }
}

/// The structured form wins whenever it exists, whatever the legacy file
/// holds; once it is gone the legacy form is used, and where both forms hold
/// the same manifest the result carries the same fields either way.
pub proof fn lemma_structured_form_preferred(
    structured: ExtensionManifest,
    legacy: ManifestProbe,
    same: ExtensionManifest,
)
    ensures
        choose_manifest(ManifestProbe::Parsed(structured), legacy) == Ok::<
            (ExtensionManifest, ExtensionManifestFormat),
            ManifestError,
        >((structured, ExtensionManifestFormat::Toml)),
        choose_manifest(ManifestProbe::Absent, ManifestProbe::Parsed(same)) == Ok::<
            (ExtensionManifest, ExtensionManifestFormat),
            ManifestError,
        >((same, ExtensionManifestFormat::Json)),
        choose_manifest(ManifestProbe::Parsed(same), ManifestProbe::Parsed(same)).unwrap().0
            == choose_manifest(ManifestProbe::Absent, ManifestProbe::Parsed(same)).unwrap().0,
{
}

} // verus!
