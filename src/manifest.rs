//! Edits of the binding template's manifest: the workspace declaration and
//! the absolute path of the user crate's dependency entry.
use vstd::prelude::*;
use crate::error::{BuildError, ManifestIssue};
use crate::text::{contains, has_infix, occurs_at};

verus! {

#[verifier::external_type_specification]
#[verifier::external_body]
pub struct ExTomlValue(toml::Value);

#[verifier::external_type_specification]
#[verifier::external_body]
pub struct ExTomlParseError(toml::de::Error);

#[verifier::external_type_specification]
#[verifier::external_body]
pub struct ExTomlRenderError(toml::ser::Error);

/// Whether `text` is a TOML document.
pub uninterp spec fn parses_as_toml(text: Seq<char>) -> bool;

/// The keys of the top-level table of `doc`.
pub uninterp spec fn top_level_keys(doc: toml::Value) -> Set<Seq<char>>;

/// The string stored under `key` in the top-level table `table` of `doc`.
pub uninterp spec fn table_string(doc: toml::Value, table: Seq<char>, key: Seq<char>) -> Option<
    Seq<char>,
>;

/// The keys of the top-level table `table` of `doc` whose value is a table.
pub uninterp spec fn subtable_keys(doc: toml::Value, table: Seq<char>) -> Set<Seq<char>>;

/// For each key of the top-level table `table` of `doc` whose value is a
/// table holding a string under `field`, that string.
pub uninterp spec fn subtable_strings(doc: toml::Value, table: Seq<char>, field: Seq<char>) -> Map<
    Seq<char>,
    Seq<char>,
>;

/// The keys of the top-level table of the document `text`.
pub uninterp spec fn manifest_top_level_keys(text: Seq<char>) -> Set<Seq<char>>;

/// The string under `key` in the top-level table `table` of the document
/// `text`.
pub uninterp spec fn manifest_string(text: Seq<char>, table: Seq<char>, key: Seq<char>) -> Option<
    Seq<char>,
>;

/// The keys of the top-level table `table` of the document `text` whose
/// value is a table.
pub uninterp spec fn manifest_subtable_keys(text: Seq<char>, table: Seq<char>) -> Set<Seq<char>>;

/// For each key of the top-level table `table` of the document `text` whose
/// value is a table holding a string under `field`, that string.
pub uninterp spec fn manifest_subtable_strings(
    text: Seq<char>,
    table: Seq<char>,
    field: Seq<char>,
) -> Map<Seq<char>, Seq<char>>;

/// The pretty-printed TOML text of `doc`, when it can be written as TOML.
pub uninterp spec fn toml_text(doc: toml::Value) -> Option<Seq<char>>;

/// `doc` holds what the document `text` holds.
pub open spec fn reads_as(doc: toml::Value, text: Seq<char>) -> bool {
    &&& top_level_keys(doc) == manifest_top_level_keys(text)
    &&& forall|t: Seq<char>, k: Seq<char>| #[trigger]
        table_string(doc, t, k) == manifest_string(text, t, k)
    &&& forall|t: Seq<char>| #[trigger] subtable_keys(doc, t) == manifest_subtable_keys(text, t)
    &&& forall|t: Seq<char>, f: Seq<char>| #[trigger]
        subtable_strings(doc, t, f) == manifest_subtable_strings(text, t, f)
}

/// `new` is `old` with the string `value` stored under `field` in the table
/// `old[table][key]`, everything else kept.
pub open spec fn sets_subtable_string(
    old: toml::Value,
    new: toml::Value,
    table: Seq<char>,
    key: Seq<char>,
    field: Seq<char>,
    value: Seq<char>,
) -> bool {
    &&& subtable_strings(new, table, field) == subtable_strings(old, table, field).insert(key, value)
    &&& forall|t: Seq<char>, f: Seq<char>|
        !(t == table && f == field) ==> #[trigger] subtable_strings(new, t, f) == subtable_strings(
            old,
            t,
            f,
        )
    &&& forall|t: Seq<char>| #[trigger] subtable_keys(new, t) == subtable_keys(old, t)
    &&& forall|t: Seq<char>, k: Seq<char>| #[trigger]
        table_string(new, t, k) == table_string(old, t, k)
    &&& top_level_keys(new) == top_level_keys(old)
}

/// `new` is `old` with the dependency entry `name` pointed at `path`.
pub open spec fn points_dependency(
    old: toml::Value,
    new: toml::Value,
    name: Seq<char>,
    path: Seq<char>,
) -> bool {
    sets_subtable_string(old, new, "dependencies"@, name, "path"@, path)
}

/// Relies on `toml::Value`'s `FromStr`, which parses `text` as a whole
/// document: success and the parsed contents depend on the text alone.
#[verifier::external_body]
fn parse_toml(text: &str) -> (r: Result<toml::Value, toml::de::Error>)
    ensures
        r is Ok == parses_as_toml(text@),
        r matches Ok(d) ==> top_level_keys(d) == manifest_top_level_keys(text@),
        r matches Ok(d) ==> forall|t: Seq<char>, k: Seq<char>| #[trigger]
            table_string(d, t, k) == manifest_string(text@, t, k),
        r matches Ok(d) ==> forall|t: Seq<char>| #[trigger]
            subtable_keys(d, t) == manifest_subtable_keys(text@, t),
        r matches Ok(d) ==> forall|t: Seq<char>, f: Seq<char>| #[trigger]
            subtable_strings(d, t, f) == manifest_subtable_strings(text@, t, f),
{
    text.parse::<toml::Value>()
}

/// Relies on `toml::Value::get_mut` and on inserting into a `toml::Table`:
/// when `doc[table][key]` is a table, the string `value` is stored in it
/// under `field` and nothing else changes; otherwise the document is left
/// as it was.
#[verifier::external_body]
fn set_subtable_string(
    doc: &mut toml::Value,
    table: &str,
    key: &str,
    field: &str,
    value: &str,
) -> (r: bool)
    ensures
        r == subtable_keys(*old(doc), table@).contains(key@),
        r ==> subtable_strings(*final(doc), table@, field@) == subtable_strings(
            *old(doc),
            table@,
            field@,
        ).insert(key@, value@),
        r ==> forall|t: Seq<char>, f: Seq<char>|
            !(t == table@ && f == field@) ==> #[trigger] subtable_strings(*final(doc), t, f)
                == subtable_strings(*old(doc), t, f),
        r ==> forall|t: Seq<char>| #[trigger]
            subtable_keys(*final(doc), t) == subtable_keys(*old(doc), t),
        r ==> forall|t: Seq<char>, k: Seq<char>| #[trigger]
            table_string(*final(doc), t, k) == table_string(*old(doc), t, k),
        r ==> top_level_keys(*final(doc)) == top_level_keys(*old(doc)),
        !r ==> *final(doc) == *old(doc),
{
    let sub = match doc.get_mut(table) {
        Some(s) => s,
        None => return false,
    };
    match sub.get_mut(key) {
        Some(toml::Value::Table(t)) => {
            t.insert(field.to_string(), toml::Value::String(value.to_string()));
            true
        },
        _ => false,
    }
}

/// Relies on `toml::Value::get` and `toml::Value::as_str`: the string under
/// `key` of the top-level table `table`, if there is one.
#[verifier::external_body]
fn lookup_string(doc: &toml::Value, table: &str, key: &str) -> (r: Option<String>)
    ensures
        r matches Some(v) ==> table_string(*doc, table@, key@) == Some(v@),
        r is None ==> table_string(*doc, table@, key@) is None,
{
    match doc.get(table) {
        Some(t) => match t.get(key) {
            Some(v) => v.as_str().map(|s| s.to_string()),
            None => None,
        },
        None => None,
    }
}

/// Relies on `toml::to_string_pretty` to write the document back as text;
/// the text depends on the document alone.
#[verifier::external_body]
fn render_toml(doc: &toml::Value) -> (r: Result<String, toml::ser::Error>)
    ensures
        r matches Ok(t) ==> toml_text(*doc) == Some(t@),
        r is Err ==> toml_text(*doc) is None,
{
    toml::to_string_pretty(doc)
}

/// Points the dependency entry `crate_name` of the manifest `doc` at
/// `abs_path`, whatever path it held before, keeping everything else. Fails
/// when the manifest has no table entry for that dependency.
pub fn point_dependency_at(doc: &mut toml::Value, crate_name: &str, abs_path: &str) -> (r: Result<
    (),
    BuildError,
>)
    ensures
        r is Ok == subtable_keys(*old(doc), "dependencies"@).contains(crate_name@),
        r is Ok ==> subtable_strings(*final(doc), "dependencies"@, "path"@).contains_key(crate_name@)
            && subtable_strings(*final(doc), "dependencies"@, "path"@)[crate_name@] == abs_path@,
        r is Ok ==> points_dependency(*old(doc), *final(doc), crate_name@, abs_path@),
        r is Ok ==> subtable_keys(*final(doc), "dependencies"@) == subtable_keys(
            *old(doc),
            "dependencies"@,
        ),
        r is Err ==> r == Err::<(), BuildError>(BuildError::Manifest(ManifestIssue::MissingEntry))
            && *final(doc) == *old(doc),
{
    if set_subtable_string(doc, "dependencies", crate_name, "path", abs_path) {
        Ok(())
    } else {
        Err(BuildError::Manifest(ManifestIssue::MissingEntry))
    }
}

/// Pointing a dependency entry at a path a second time succeeds again and
/// leaves the document as the first time did, as far as its top-level keys,
/// strings, tables and table fields show it.
pub proof fn lemma_pointing_twice(
    d0: toml::Value,
    d1: toml::Value,
    d2: toml::Value,
    name: Seq<char>,
    path: Seq<char>,
)
    requires
        subtable_keys(d0, "dependencies"@).contains(name),
        points_dependency(d0, d1, name, path),
        points_dependency(d1, d2, name, path),
    ensures
        subtable_keys(d1, "dependencies"@).contains(name),
        top_level_keys(d2) == top_level_keys(d1),
        forall|t: Seq<char>, k: Seq<char>| #[trigger] table_string(d2, t, k) == table_string(d1, t, k),
        forall|t: Seq<char>| #[trigger] subtable_keys(d2, t) == subtable_keys(d1, t),
        forall|t: Seq<char>, f: Seq<char>| #[trigger]
            subtable_strings(d2, t, f) == subtable_strings(d1, t, f),
{
    assert(subtable_keys(d1, "dependencies"@) == subtable_keys(d0, "dependencies"@));
    let m1 = subtable_strings(d1, "dependencies"@, "path"@);
    assert(m1.insert(name, path) =~= m1);
    assert forall|t: Seq<char>, f: Seq<char>| #[trigger]
        subtable_strings(d2, t, f) == subtable_strings(d1, t, f) by {
        if t == "dependencies"@ && f == "path"@ {
            assert(subtable_strings(d2, t, f) == m1.insert(name, path));
        }
    }
}

/// `t` is the pretty-printed form of the manifest `content` with the
/// dependency entry `name` pointed at `path`.
pub open spec fn rewritten_manifest(content: Seq<char>, name: Seq<char>, path: Seq<char>, t: Seq<
    char,
>) -> bool {
    exists|old: toml::Value, new: toml::Value|
        #[trigger] reads_as(old, content) && points_dependency(old, new, name, path) && #[trigger] toml_text(
            new,
        ) == Some(t)
}

/// Rewrites the manifest text `content` so that the dependency entry
/// `crate_name` holds the path `abs_path`, keeping everything else.
pub fn replace_relative_path_with_absolute(content: &str, crate_name: &str, abs_path: &str) -> (r:
    Result<String, BuildError>)
    ensures
        !parses_as_toml(content@) <==> r == Err::<String, BuildError>(
            BuildError::Manifest(ManifestIssue::Parse),
        ),
        parses_as_toml(content@) && !manifest_subtable_keys(content@, "dependencies"@).contains(
            crate_name@,
        ) ==> r == Err::<String, BuildError>(BuildError::Manifest(ManifestIssue::MissingEntry)),
        parses_as_toml(content@) && manifest_subtable_keys(content@, "dependencies"@).contains(
            crate_name@,
        ) ==> r is Ok || r == Err::<String, BuildError>(BuildError::Manifest(ManifestIssue::Render)),
        r matches Ok(t) ==> rewritten_manifest(content@, crate_name@, abs_path@, t@),
{
    let mut doc = parse_manifest(content)?;
    let ghost parsed = doc;
    point_dependency_at(&mut doc, crate_name, abs_path)?;
    match render_toml(&doc) {
        Ok(text) => {
            assert(reads_as(parsed, content@) && points_dependency(parsed, doc, crate_name@, abs_path@)
                && toml_text(doc) == Some(text@));
            Ok(text)
        },
        Err(_) => Err(BuildError::Manifest(ManifestIssue::Render)),
    }
}

/// The header of a workspace declaration.
pub open spec fn workspace_header() -> Seq<char> {
    "[workspace]"@
}

/// What is appended to a manifest that lacks a workspace declaration.
pub open spec fn workspace_section() -> Seq<char> {
    "\n\n[workspace]\n"@
}

/// `content` with a workspace declaration appended unless one is present.
pub open spec fn with_workspace(content: Seq<char>) -> Seq<char> {
    if has_infix(content, workspace_header()) {
        content
    } else {
        content + workspace_section()
    }
}

/// The positions at which `p` occurs in `s`.
pub open spec fn occurrences(s: Seq<char>, p: Seq<char>) -> Set<int> {
    Set::new(|i: int| occurs_at(s, p, i))
}

/// The manifest text `content` with a workspace declaration appended, or
/// `content` itself when it already declares one.
pub fn ensure_workspace_toml(content: &str) -> (r: String)
    ensures
        r@ == with_workspace(content@),
{
    if contains(content, "[workspace]") {
        String::from_str(content)
    } else {
        let mut r = String::from_str(content);
        r.append("\n\n[workspace]\n");
        r
    }
}

/// Declaring the workspace is idempotent: after one run the manifest holds a
/// declaration, a second run changes nothing, and a manifest that had none
/// holds exactly one afterwards.
pub proof fn lemma_workspace_declared_once(content: Seq<char>)
    ensures
        has_infix(with_workspace(content), workspace_header()),
        with_workspace(with_workspace(content)) == with_workspace(content),
        !has_infix(content, workspace_header()) ==> occurrences(
            with_workspace(content),
            workspace_header(),
        ) == set![content.len() as int + 2],
{
    reveal_strlit("[workspace]");
    reveal_strlit("\n\n[workspace]\n");
    let h = workspace_header();
    let t = workspace_section();
    if !has_infix(content, h) {
        let s = content + t;
        let n = content.len() as int;
        assert(s.subrange(n + 2, n + 13) =~= h);
        assert(occurs_at(s, h, n + 2));
        assert forall|i: int| occurs_at(s, h, i) <==> i == n + 2 by {
            if occurs_at(s, h, i) && i != n + 2 {
                let w = s.subrange(i, i + 11);
                if i + 11 <= n {
                    assert(content.subrange(i, i + 11) =~= w);
                    assert(occurs_at(content, h, i));
                } else if i <= n {
                    assert(w[n - i] == s[n]);
                } else if i == n + 1 {
                    assert(w[0] == s[n + 1]);
                } else {
                    assert(i == n + 3);
                    assert(w[10] == s[n + 13]);
                }
            }
        }
        assert(occurrences(s, h) =~= set![n + 2]);
    }
}

/// `s` with every `-` turned into `_`.
pub open spec fn underscored(s: Seq<char>) -> Seq<char> {
    s.map_values(|c: char| if c == '-' { '_' } else { c })
}

/// The package name of the crate whose manifest is `doc`.
pub open spec fn package_name(doc: toml::Value) -> Option<Seq<char>> {
    table_string(doc, "package"@, "name"@)
}

/// The name of the library the crate builds: the `name` of its `[lib]`
/// section when set, else its package name, with `-` turned into `_`.
pub open spec fn library_name(doc: toml::Value) -> Option<Seq<char>> {
    match table_string(doc, "lib"@, "name"@) {
        Some(n) => Some(underscored(n)),
        None => match package_name(doc) {
            Some(n) => Some(underscored(n)),
            None => None,
        },
    }
}

/// The package name of the crate whose manifest text is `text`.
pub open spec fn manifest_package_name(text: Seq<char>) -> Option<Seq<char>> {
    manifest_string(text, "package"@, "name"@)
}

/// The library name of the crate whose manifest text is `text`, chosen as
/// [`library_name`] chooses it.
pub open spec fn manifest_library_name(text: Seq<char>) -> Option<Seq<char>> {
    match manifest_string(text, "lib"@, "name"@) {
        Some(n) => Some(underscored(n)),
        None => match manifest_package_name(text) {
            Some(n) => Some(underscored(n)),
            None => None,
        },
    }
}

/// `s` with every `-` turned into `_`.
pub fn to_underscored(s: &str) -> (r: String)
    ensures
        r@ == underscored(s@),
{
    let n = s.unicode_len();
    let mut r = String::new();
    let mut i: usize = 0;
    while i < n
        invariant
            n == s@.len(),
            i <= n,
            r@ == underscored(s@.subrange(0, i as int)),
        decreases n - i,
    {
        proof {
            reveal_strlit("_");
        }
        if s.get_char(i) == '-' {
            r.append("_");
        } else {
            r.append(s.substring_char(i, i + 1));
        }
        assert(underscored(s@.subrange(0, i + 1)) =~= underscored(s@.subrange(0, i as int)).push(
            underscored(s@.subrange(0, i + 1))[i as int],
        ));
        i = i + 1;
    }
    assert(s@.subrange(0, n as int) =~= s@);
    r
}

/// The package name of the crate whose manifest is `doc`; the dependency
/// entry of the crate goes under this name.
pub fn raw_project_name(doc: &toml::Value) -> (r: Result<String, BuildError>)
    ensures
        match package_name(*doc) {
            Some(n) => r is Ok && r->Ok_0@ == n,
            None => r == Err::<String, BuildError>(BuildError::Manifest(ManifestIssue::MissingEntry)),
        },
{
    match lookup_string(doc, "package", "name") {
        Some(n) => Ok(n),
        None => Err(BuildError::Manifest(ManifestIssue::MissingEntry)),
    }
}

/// The name of the library the crate whose manifest is `doc` builds.
pub fn project_name(doc: &toml::Value) -> (r: Result<String, BuildError>)
    ensures
        match library_name(*doc) {
            Some(n) => r is Ok && r->Ok_0@ == n,
            None => r == Err::<String, BuildError>(BuildError::Manifest(ManifestIssue::MissingEntry)),
        },
{
    match lookup_string(doc, "lib", "name") {
        Some(n) => Ok(to_underscored(n.as_str())),
        None => match lookup_string(doc, "package", "name") {
            Some(n) => Ok(to_underscored(n.as_str())),
            None => Err(BuildError::Manifest(ManifestIssue::MissingEntry)),
        },
    }
}

/// Parses the text of a crate's manifest.
pub fn parse_manifest(content: &str) -> (r: Result<toml::Value, BuildError>)
    ensures
        r is Ok == parses_as_toml(content@),
        r matches Ok(d) ==> reads_as(d, content@),
        r is Err ==> r == Err::<toml::Value, BuildError>(BuildError::Manifest(ManifestIssue::Parse)),
{
    match parse_toml(content) {
        Ok(d) => Ok(d),
        Err(_) => Err(BuildError::Manifest(ManifestIssue::Parse)),
    }
}

} // verus!
