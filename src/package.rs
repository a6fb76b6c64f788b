//! The package builder's decisions: the version rule, the canonical output
//! manifest, the archive name, the package-relative asset paths, and the
//! verdict on each theme file.

use vstd::prelude::*;

use crate::index_map::{grammar_map_insert_full, grammar_map_new, grammar_view, grammars_of, server_map_new, servers_of};
use crate::manifest::{ExtensionManifest, ExtensionManifestFormat, GrammarManifestEntry, ManifestError};
use crate::registry::ExtensionId;
use crate::theme::{
    relaxed_json_accepts, schema_compiles, theme_conforms, validate_theme, ThemeDocument, ThemeSchema,
};

verus! {

/// Why one extension could not be packaged.
#[derive(Clone, Debug)]
pub enum PackageError {
    /// The manifest could not be loaded.
    Manifest(ManifestError),
    /// The manifest's version is not the one the registry declares.
    VersionMismatch { id: ExtensionId, name: String, expected: String, actual: String },
    /// A theme file is not a JSON document.
    MalformedTheme { file: String, detail: String },
    /// A theme document does not meet the schema.
    InvalidTheme { file: String, errors: Vec<String> },
    /// Reading the sources or writing the package failed.
    Io(String),
}

/// Whether `e` is the version mismatch for these values.
pub open spec fn is_version_mismatch(
    e: PackageError,
    id: Seq<char>,
    name: Seq<char>,
    expected: Seq<char>,
    actual: Seq<char>,
) -> bool {
    match e {
        PackageError::VersionMismatch { id: i, name: n, expected: x, actual: a } => i.0@ == id
            && n@ == name && x@ == expected && a@ == actual,
        _ => false,
    }
}

/// The version rule: a manifest may be packaged only under the version that
/// the registry declares for it.
pub fn check_version(id: &ExtensionId, manifest: &ExtensionManifest, declared: &String) -> (r: Result<(), PackageError>)
    ensures
        r is Ok <==> manifest.version@ == declared@,
        r is Err ==> is_version_mismatch(
            r->Err_0,
            id.0@,
            manifest.name@,
            declared@,
            manifest.version@,
        ),
{
    if manifest.version == *declared {
        Ok(())
    } else {
        Err(
            PackageError::VersionMismatch {
                id: ExtensionId::new(id.0.clone()),
                name: manifest.name.clone(),
                expected: declared.clone(),
                actual: manifest.version.clone(),
            },
        )
    }
}

/// The output manifest starts as the loaded one's metadata with no assets:
/// themes, languages, grammars and language servers are filled in by the
/// asset walk, and no library entry is carried over.
pub open spec fn is_fresh_package_manifest(out: ExtensionManifest, src: ExtensionManifest) -> bool {
    &&& out.name == src.name
    &&& out.version == src.version
    &&& out.description == src.description
    &&& out.repository == src.repository
    &&& out.authors == src.authors
    &&& out.lib is None
    &&& out.themes@.len() == 0
    &&& out.languages@.len() == 0
    &&& grammars_of(out.grammars).len() == 0
    &&& servers_of(out.language_servers).len() == 0
}

/// The canonical output manifest for a loaded one, before the asset walk.
pub fn new_package_manifest(metadata: ExtensionManifest) -> (r: ExtensionManifest)
    ensures
        is_fresh_package_manifest(r, metadata),
{
    ExtensionManifest {
        name: metadata.name,
        version: metadata.version,
        description: metadata.description,
        repository: metadata.repository,
        authors: metadata.authors,
        lib: None,
        themes: Vec::new(),
        languages: Vec::new(),
        grammars: grammar_map_new(),
        language_servers: server_map_new(),
    }
}

/// `{id}-{version}.tar.gz`
pub open spec fn archive_name_text(id: Seq<char>, version: Seq<char>) -> Seq<char> {
    id + "-"@ + version + ".tar.gz"@
}

/// The file name of the archive for an extension at a version.
pub fn archive_name(id: &ExtensionId, version: &String) -> (r: String)
    ensures
        r@ == archive_name_text(id.0@, version@),
{
    let mut name = id.0.clone();
    name.append("-");
    name.append(version.as_str());
    name.append(".tar.gz");
    name
}

/// The start of a build: the version rule, then the fresh output
/// manifest and the archive's file name. Nothing is produced on a mismatch.
pub fn begin_package(id: &ExtensionId, metadata: ExtensionManifest, declared: &String) -> (r: Result<
    (ExtensionManifest, String),
    PackageError,
>)
    ensures
        r is Ok <==> metadata.version@ == declared@,
        r is Err ==> is_version_mismatch(
            r->Err_0,
            id.0@,
            metadata.name@,
            declared@,
            metadata.version@,
        ),
        r is Ok ==> is_fresh_package_manifest(r->Ok_0.0, metadata) && r->Ok_0.1@
            == archive_name_text(id.0@, declared@),
{
    match check_version(id, &metadata, declared) {
        Err(e) => Err(e),
        Ok(()) => {
            let name = archive_name(id, &metadata.version);
            Ok((new_package_manifest(metadata), name))
        },
    }
}

/// Two builds from the same manifest start from output manifests with the
/// same content.
pub proof fn lemma_package_start_is_reproducible(
    metadata: ExtensionManifest,
    first: ExtensionManifest,
    second: ExtensionManifest,
)
    requires
        is_fresh_package_manifest(first, metadata),
        is_fresh_package_manifest(second, metadata),
    ensures
        first.name@ == second.name@,
        first.version@ == second.version@,
        first.description == second.description,
        first.repository == second.repository,
        first.authors@ == second.authors@,
        first.lib == second.lib,
        first.themes@ == second.themes@,
        first.languages@ == second.languages@,
        grammars_of(first.grammars) == grammars_of(second.grammars),
        servers_of(first.language_servers) == servers_of(second.language_servers),
{
    assert(first.themes@ =~= second.themes@);
    assert(first.languages@ =~= second.languages@);
    assert(grammars_of(first.grammars) =~= grammars_of(second.grammars));
    assert(servers_of(first.language_servers) =~= servers_of(second.language_servers));
}

/// The package-relative path of an asset in one of the package's directories.
pub open spec fn asset_path_text(dir: Seq<char>, file_name: Seq<char>) -> Seq<char> {
    dir + "/"@ + file_name
}

fn asset_path(dir: &str, file_name: &str) -> (r: String)
    ensures
        r@ == asset_path_text(dir@, file_name@),
{
    let mut path = String::from_str(dir);
    path.append("/");
    path.append(file_name);
    path
}

/// The package-relative path of a theme file: `themes/{file_name}`.
pub fn theme_package_path(file_name: &str) -> (r: String)
    ensures
        r@ == asset_path_text("themes"@, file_name@),
{
    asset_path("themes", file_name)
}

/// The package-relative path of a language directory: `languages/{name}`.
pub fn language_package_path(name: &str) -> (r: String)
    ensures
        r@ == asset_path_text("languages"@, name@),
{
    asset_path("languages", name)
}

/// The metadata copied from the loaded manifest, and the library entry, are
/// the same.
pub open spec fn same_metadata(a: ExtensionManifest, b: ExtensionManifest) -> bool {
    &&& a.name == b.name
    &&& a.version == b.version
    &&& a.description == b.description
    &&& a.repository == b.repository
    &&& a.authors == b.authors
    &&& a.lib == b.lib
}

/// Everything but the themes is unchanged.
pub open spec fn same_but_themes(a: ExtensionManifest, b: ExtensionManifest) -> bool {
    &&& a.name == b.name
    &&& a.version == b.version
    &&& a.description == b.description
    &&& a.repository == b.repository
    &&& a.authors == b.authors
    &&& a.lib == b.lib
    &&& a.languages == b.languages
    &&& a.grammars == b.grammars
    &&& a.language_servers == b.language_servers
}

/// Records a copied theme file in the output manifest, after those before it.
pub fn add_theme(manifest: &mut ExtensionManifest, file_name: &str)
    ensures
        final(manifest).themes@.len() == old(manifest).themes@.len() + 1,
        final(manifest).themes@.drop_last() == old(manifest).themes@,
        final(manifest).themes@.last()@ == asset_path_text("themes"@, file_name@),
        same_but_themes(*final(manifest), *old(manifest)),
{
    let path = theme_package_path(file_name);
    manifest.themes.push(path);
    assert(manifest.themes@.drop_last() =~= old(manifest).themes@);
}

/// Records a copied language directory in the output manifest, after those
/// before it.
pub fn add_language(manifest: &mut ExtensionManifest, name: &str)
    ensures
        final(manifest).languages@.len() == old(manifest).languages@.len() + 1,
        final(manifest).languages@.drop_last() == old(manifest).languages@,
        final(manifest).languages@.last()@ == asset_path_text("languages"@, name@),
        final(manifest).themes == old(manifest).themes,
        final(manifest).grammars == old(manifest).grammars,
        final(manifest).language_servers == old(manifest).language_servers,
        same_metadata(*final(manifest), *old(manifest)),
{
    let path = language_package_path(name);
    manifest.languages.push(path);
    assert(manifest.languages@.drop_last() =~= old(manifest).languages@);
}

/// Carries a grammar's repository and revision into the output manifest: a
/// grammar already recorded under `name` keeps its place, a new one goes last.
pub fn add_grammar(manifest: &mut ExtensionManifest, name: String, entry: GrammarManifestEntry)
    ensures
        (exists|i: int|
            0 <= i < grammars_of(old(manifest).grammars).len()
                && grammars_of(old(manifest).grammars)[i].0 == name@
                && grammars_of(final(manifest).grammars) == grammars_of(
                old(manifest).grammars,
            ).update(i, grammar_view(name, entry))) || ((forall|i: int|
            0 <= i < grammars_of(old(manifest).grammars).len() ==> #[trigger] grammars_of(
                old(manifest).grammars,
            )[i].0 != name@) && grammars_of(final(manifest).grammars) == grammars_of(
            old(manifest).grammars,
        ).push(grammar_view(name, entry))),
        final(manifest).themes == old(manifest).themes,
        final(manifest).languages == old(manifest).languages,
        final(manifest).language_servers == old(manifest).language_servers,
        same_metadata(*final(manifest), *old(manifest)),
{
    let _ = grammar_map_insert_full(&mut manifest.grammars, name, entry);
}

/// Whether `e` is the error for a theme file that is not JSON.
pub open spec fn is_malformed_theme(e: PackageError, file: Seq<char>) -> bool {
    match e {
        PackageError::MalformedTheme { file: f, detail: _ } => f@ == file,
        _ => false,
    }
}

/// Whether `e` is the error for a theme document that fails the schema.
pub open spec fn is_invalid_theme(e: PackageError, file: Seq<char>) -> bool {
    match e {
        PackageError::InvalidTheme { file: f, errors } => f@ == file && errors@.len() > 0,
        _ => false,
    }
}

/// The check on one theme file: its text must be relaxed JSON, and the
/// document must meet the schema. A failure names the file.
pub fn check_theme(schema: &ThemeSchema, file: &String, text: &str) -> (r: Result<(), PackageError>)
    requires
        schema.wf(),
    ensures
        !relaxed_json_accepts(text@) ==> r is Err && is_malformed_theme(r->Err_0, file@),
        relaxed_json_accepts(text@) ==> (r is Ok <==> schema_compiles(schema.source())
            && theme_conforms(schema.source(), text@)),
        relaxed_json_accepts(text@) && r is Err ==> is_invalid_theme(r->Err_0, file@),
{
    match ThemeDocument::parse(text) {
        Err(detail) => Err(PackageError::MalformedTheme { file: file.clone(), detail }),
        Ok(doc) => match validate_theme(schema, &doc) {
            Ok(()) => Ok(()),
            Err(e) => Err(PackageError::InvalidTheme { file: file.clone(), errors: e.errors }),
        },
    }
}

/// The parts, with `sep` between each two.
pub open spec fn joined(parts: Seq<Seq<char>>, sep: Seq<char>) -> Seq<char>
    decreases parts.len(),
{
    if parts.len() == 0 {
        Seq::empty()
    } else if parts.len() == 1 {
        parts[0]
    } else {
        joined(parts.drop_last(), sep) + sep + parts.last()
    }
}

fn join(parts: &Vec<String>, sep: &str) -> (r: String)
    ensures
        r@ == joined(parts@.map_values(|p: String| p@), sep@),
{
    let ghost views = parts@.map_values(|p: String| p@);
    let mut out = String::new();
    let mut i: usize = 0;
    while i < parts.len()
        invariant
            i <= parts@.len(),
            views == parts@.map_values(|p: String| p@),
            out@ == joined(views.subrange(0, i as int), sep@),
        decreases parts@.len() - i,
    {
        if i > 0 {
            out.append(sep);
        }
        out.append(parts[i].as_str());
        proof {
            let s = views.subrange(0, i + 1);
            assert(s.drop_last() =~= views.subrange(0, i as int));
            if i == 0 {
                assert(out@ =~= s[0]);
            }
        }
        i += 1;
    }
    assert(views.subrange(0, parts@.len() as int) =~= views);
    out
}

/// The operator-facing text of an error.
pub open spec fn error_text(e: PackageError) -> Seq<char> {
    match e {
        PackageError::Manifest(ManifestError::NotFound) => "no extension manifest found"@,
        PackageError::Manifest(ManifestError::Malformed { format, detail }) => match format {
            ExtensionManifestFormat::Toml => "malformed extension.toml: "@ + detail@,
            ExtensionManifestFormat::Json => "malformed extension.json: "@ + detail@,
        },
        PackageError::VersionMismatch { id, name, expected, actual } => "Incorrect version for extension "@
            + id.0@ + " ("@ + name@ + ")\n\nExpected version: "@ + expected@
            + "\nActual version: "@ + actual@,
        PackageError::MalformedTheme { file, detail } => "malformed theme "@ + file@ + ": "@
            + detail@,
        PackageError::InvalidTheme { file, errors } => "Theme validation failed for "@ + file@
            + ": "@ + joined(errors@.map_values(|p: String| p@), "; "@),
        PackageError::Io(detail) => detail@,
    }
}

impl PackageError {
    /// The text to show the operator.
    pub fn message(&self) -> (r: String)
        ensures
            r@ == error_text(*self),
    {
        match self {
            PackageError::Manifest(ManifestError::NotFound) => String::from_str(
                "no extension manifest found",
            ),
            PackageError::Manifest(ManifestError::Malformed { format, detail }) => {
                let mut s = match format {
                    ExtensionManifestFormat::Toml => String::from_str("malformed extension.toml: "),
                    ExtensionManifestFormat::Json => String::from_str("malformed extension.json: "),
                };
                s.append(detail.as_str());
                s
            },
            PackageError::VersionMismatch { id, name, expected, actual } => {
                let mut s = String::from_str("Incorrect version for extension ");
                s.append(id.0.as_str());
                s.append(" (");
                s.append(name.as_str());
                s.append(")\n\nExpected version: ");
                s.append(expected.as_str());
                s.append("\nActual version: ");
                s.append(actual.as_str());
                s
            },
            PackageError::MalformedTheme { file, detail } => {
                let mut s = String::from_str("malformed theme ");
                s.append(file.as_str());
                s.append(": ");
                s.append(detail.as_str());
                s
            },
            PackageError::InvalidTheme { file, errors } => {
                let mut s = String::from_str("Theme validation failed for ");
                s.append(file.as_str());
                s.append(": ");
                let all = join(errors, "; ");
                s.append(all.as_str());
                s
            },
            PackageError::Io(detail) => detail.clone(),
        }
    }
}

} // verus!
