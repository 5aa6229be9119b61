//! Project analysis: what a directory's `Cargo.toml` and `package.json`
//! say about the project, how many files and lines it holds per language,
//! and what to recommend.

use crate::cli::error::CliError;
use crate::documents::{
    copy_string, entry_keys_distinct, json_document, json_entry, json_get, json_get_str, json_keys,
    json_keys_distinct, json_lookup, json_object_keys, lemma_json_entry_found,
    parse_json, parse_toml, toml_document, toml_get, toml_keys, toml_lookup, toml_string_items,
    toml_strings, toml_table_keys, JsonValue, TomlValue,
};
use crate::text::{chars_of, has_prefix, opt_str, owned, str_eq, strings_contain, strs};
use vstd::prelude::*;

verus! {

/// Kind of project.
#[derive(Debug, Clone, Copy, PartialEq, Eq, Structural)]
pub enum ProjectType {
    RustApplication,
    RustLibrary,
    RustWorkspace,
    NodeApplication,
    NodeLibrary,
    Unknown,
}

/// Package manager of a Node.js project.
#[derive(Debug, Clone, Copy, PartialEq, Eq, Structural)]
pub enum PackageManager {
    Npm,
    Pnpm,
    Yarn,
    Unknown,
}

/// What a `Cargo.toml` says.
#[derive(Debug)]
pub struct RustProjectInfo {
    pub cargo_toml_path: String,
    pub is_workspace: bool,
    pub workspace_members: Vec<String>,
    pub package_name: Option<String>,
    pub dependencies: Vec<String>,
    pub dev_dependencies: Vec<String>,
    pub bin_targets: Vec<String>,
    pub lib_target: bool,
}

/// What a `package.json` says.
#[derive(Debug)]
pub struct NodeProjectInfo {
    pub package_json_path: String,
    pub package_manager: PackageManager,
    pub package_name: Option<String>,
    pub version: Option<String>,
    pub dependencies: Vec<String>,
    pub dev_dependencies: Vec<String>,
    /// Script names and commands; read from a parsed `package.json`, no
    /// name comes twice (`script_names_distinct`).
    pub scripts: Vec<(String, String)>,
    pub main_entry: Option<String>,
    pub has_typescript: bool,
}

/// The result of analyzing a project directory.
#[derive(Debug)]
pub struct ProjectAnalysis {
    pub project_path: String,
    pub project_type: ProjectType,
    pub rust_info: Option<RustProjectInfo>,
    pub node_info: Option<NodeProjectInfo>,
    pub file_count: usize,
    pub total_lines: usize,
    pub primary_language: String,
    /// Line count per language, languages distinct.
    pub languages: Vec<(String, usize)>,
    pub recommendations: Vec<String>,
}

/// Analyzes project directories.
pub struct ProjectAnalyzer {}

/// The workspace members that the manifest lists as strings.
pub open spec fn manifest_members(m: TomlValue) -> Seq<Seq<char>> {
    match toml_get(m, "workspace"@) {
        Some(ws) => match toml_get(ws, "members"@) {
            Some(TomlValue::Array(a)) => toml_strings(a@),
            _ => seq![],
        },
        None => seq![],
    }
}

/// The package name, when the manifest gives it as a string.
pub open spec fn manifest_package_name(m: TomlValue) -> Option<Seq<char>> {
    match toml_get(m, "package"@) {
        Some(p) => match toml_get(p, "name"@) {
            Some(TomlValue::String(s)) => Some(s@),
            _ => None,
        },
        None => None,
    }
}

/// The keys of the table under `section`, or nothing.
pub open spec fn manifest_table_keys(m: TomlValue, section: Seq<char>) -> Seq<Seq<char>> {
    match toml_get(m, section) {
        Some(TomlValue::Table(t)) => toml_keys(t@),
        _ => seq![],
    }
}

/// The names of `[[bin]]` targets that give one as a string.
pub open spec fn bin_names(items: Seq<TomlValue>) -> Seq<Seq<char>>
    decreases items.len(),
{
    if items.len() == 0 {
        seq![]
    } else {
        let rest = bin_names(items.drop_first());
        match toml_get(items[0], "name"@) {
            Some(TomlValue::String(s)) => seq![s@] + rest,
            _ => rest,
        }
    }
}

/// The explicit binary targets of the manifest.
pub open spec fn manifest_bins(m: TomlValue) -> Seq<Seq<char>> {
    match toml_get(m, "bin"@) {
        Some(TomlValue::Array(a)) => bin_names(a@),
        _ => seq![],
    }
}

/// `info` is what the manifest `m` at `path` says, given whether
/// `src/lib.rs` and `src/main.rs` exist: with no explicit binary but a
/// `src/main.rs`, the binary is named after the package, or "main".
pub open spec fn describes_manifest(
    info: RustProjectInfo,
    m: TomlValue,
    path: Seq<char>,
    has_lib_rs: bool,
    has_main_rs: bool,
) -> bool {
    &&& info.cargo_toml_path@ == path
    &&& info.is_workspace == (toml_get(m, "workspace"@) is Some)
    &&& strs(info.workspace_members@) == manifest_members(m)
    &&& opt_str(info.package_name) == manifest_package_name(m)
    &&& strs(info.dependencies@) == manifest_table_keys(m, "dependencies"@)
    &&& strs(info.dev_dependencies@) == manifest_table_keys(m, "dev-dependencies"@)
    &&& info.lib_target == (has_lib_rs || toml_get(m, "lib"@) is Some)
    &&& strs(info.bin_targets@) == if manifest_bins(m).len() == 0 && has_main_rs {
        seq![
            match manifest_package_name(m) {
                Some(n) => n,
                None => "main"@,
            },
        ]
    } else {
        manifest_bins(m)
    }
}

/// The keys and string values of object entries whose value is a string.
pub open spec fn string_entries(entries: Seq<(String, JsonValue)>) -> Seq<(Seq<char>, Seq<char>)>
    decreases entries.len(),
{
    if entries.len() == 0 {
        seq![]
    } else {
        let rest = string_entries(entries.drop_first());
        match entries[0].1 {
            JsonValue::String(v) => seq![(entries[0].0@, v@)] + rest,
            _ => rest,
        }
    }
}

/// The keys of the object under `section`, or nothing.
pub open spec fn package_object_keys(m: JsonValue, section: Seq<char>) -> Seq<Seq<char>> {
    match json_get(m, section) {
        Some(JsonValue::Object(o)) => json_keys(o@),
        _ => seq![],
    }
}

/// The scripts of the package that have a string command.
pub open spec fn package_scripts(m: JsonValue) -> Seq<(Seq<char>, Seq<char>)> {
    match json_get(m, "scripts"@) {
        Some(JsonValue::Object(o)) => string_entries(o@),
        _ => seq![],
    }
}

/// No two scripts have the same name.
pub open spec fn script_names_distinct(v: Seq<(Seq<char>, Seq<char>)>) -> bool {
    forall|i: int, j: int| 0 <= i < j < v.len() ==> (#[trigger] v[i]).0 != (#[trigger] v[j]).0
}

/// The string entries keep only keys of the object, and no key twice when
/// the object has none twice.
proof fn lemma_string_entries_distinct(entries: Seq<(String, JsonValue)>)
    ensures
        forall|k: int|
            0 <= k < string_entries(entries).len() ==> exists|j: int|
                0 <= j < entries.len() && entries[j].0@ == (#[trigger] string_entries(entries)[k]).0,
        entry_keys_distinct(entries) ==> script_names_distinct(string_entries(entries)),
    decreases entries.len(),
{
    if entries.len() > 0 {
        let tail = entries.drop_first();
        lemma_string_entries_distinct(tail);
        let rest = string_entries(tail);
        let all = string_entries(entries);
        assert forall|k: int| 0 <= k < all.len() implies exists|j: int|
            0 <= j < entries.len() && entries[j].0@ == (#[trigger] all[k]).0 by {
            match entries[0].1 {
                JsonValue::String(v) => {
                    if k == 0 {
                        assert(entries[0].0@ == all[0].0);
                    } else {
                        assert(all[k] == rest[k - 1]);
                        let j = choose|j: int| 0 <= j < tail.len() && tail[j].0@ == rest[k - 1].0;
                        assert(entries[j + 1].0@ == all[k].0);
                    }
                },
                _ => {
                    assert(all[k] == rest[k]);
                    let j = choose|j: int| 0 <= j < tail.len() && tail[j].0@ == rest[k].0;
                    assert(entries[j + 1].0@ == all[k].0);
                },
            }
        }
        if entry_keys_distinct(entries) {
            assert(entry_keys_distinct(tail)) by {
                assert forall|i: int, j: int| 0 <= i < j < tail.len() implies (#[trigger] tail[i]).0@ != (
                #[trigger] tail[j]).0@ by {
                    assert(tail[i] == entries[i + 1] && tail[j] == entries[j + 1]);
                }
            }
            if let JsonValue::String(v) = entries[0].1 {
                assert forall|a: int, b: int| 0 <= a < b < all.len() implies (#[trigger] all[a]).0 != (
                #[trigger] all[b]).0 by {
                    assert(all[b] == rest[b - 1]);
                    if a == 0 {
                        let j = choose|j: int| 0 <= j < tail.len() && tail[j].0@ == rest[b - 1].0;
                        assert(tail[j] == entries[j + 1]);
                        assert(entries[0].0@ != entries[j + 1].0@);
                    } else {
                        assert(all[a] == rest[a - 1]);
                    }
                }
            }
        }
    }
}

/// The views of script entries.
pub open spec fn script_views(v: Seq<(String, String)>) -> Seq<(Seq<char>, Seq<char>)> {
    v.map_values(|e: (String, String)| (e.0@, e.1@))
}

/// The package manager shown by the lock files present: pnpm, then yarn,
/// then npm.
pub open spec fn package_manager_for(has_pnpm_lock: bool, has_yarn_lock: bool, has_npm_lock: bool) -> PackageManager {
    if has_pnpm_lock {
        PackageManager::Pnpm
    } else if has_yarn_lock {
        PackageManager::Yarn
    } else if has_npm_lock {
        PackageManager::Npm
    } else {
        PackageManager::Unknown
    }
}

/// `info` is what the package manifest `m` at `path` says, given the lock
/// files and `tsconfig.json` present.
pub open spec fn describes_package(
    info: NodeProjectInfo,
    m: JsonValue,
    path: Seq<char>,
    has_pnpm_lock: bool,
    has_yarn_lock: bool,
    has_npm_lock: bool,
    has_tsconfig: bool,
) -> bool {
    &&& info.package_json_path@ == path
    &&& info.package_manager == package_manager_for(has_pnpm_lock, has_yarn_lock, has_npm_lock)
    &&& opt_str(info.package_name) == json_get_str(m, "name"@)
    &&& opt_str(info.version) == json_get_str(m, "version"@)
    &&& opt_str(info.main_entry) == json_get_str(m, "main"@)
    &&& strs(info.dependencies@) == package_object_keys(m, "dependencies"@)
    &&& strs(info.dev_dependencies@) == package_object_keys(m, "devDependencies"@)
    &&& script_views(info.scripts@) == package_scripts(m)
    &&& info.has_typescript == (package_object_keys(m, "dependencies"@).contains("typescript"@)
        || package_object_keys(m, "devDependencies"@).contains("typescript"@) || has_tsconfig)
}

/// The analysis that `analyze` starts from.
pub open spec fn is_fresh_analysis(a: ProjectAnalysis, path: Seq<char>) -> bool {
    &&& a.project_path@ == path
    &&& a.project_type == ProjectType::Unknown
    &&& a.rust_info is None
    &&& a.node_info is None
    &&& a.file_count == 0
    &&& a.total_lines == 0
    &&& a.primary_language@.len() == 0
    &&& a.languages@.len() == 0
    &&& a.recommendations@.len() == 0
}

/// The project type and primary language that the manifests found decide:
/// a Rust manifest makes a workspace, a library or an application; a
/// package manifest alone makes a Node application when it names a main
/// entry, otherwise a Node library.
pub open spec fn detected_type(rust_info: Option<RustProjectInfo>, node_info: Option<NodeProjectInfo>) -> (ProjectType, Seq<char>) {
    match rust_info {
        Some(r) => if r.is_workspace {
            (ProjectType::RustWorkspace, "rust"@)
        } else if r.lib_target {
            (ProjectType::RustLibrary, "rust"@)
        } else {
            (ProjectType::RustApplication, "rust"@)
        },
        None => match node_info {
            Some(n) => if n.main_entry is Some {
                (ProjectType::NodeApplication, "javascript"@)
            } else {
                (ProjectType::NodeLibrary, "javascript"@)
            },
            None => (ProjectType::Unknown, seq![]),
        },
    }
}


fn opt_copy(o: Option<&TomlValue>) -> (r: Option<String>)
    ensures
        r matches Some(x) ==> o matches Some(v) && *v matches TomlValue::String(s) && x@ == s@,
        r is None ==> !(o matches Some(v) && *v is String),
{
    match o {
        Some(TomlValue::String(s)) => Some(copy_string(s)),
        _ => None,
    }
}

fn bin_target_names(items: &Vec<TomlValue>) -> (names: Vec<String>)
    ensures
        strs(names@) == bin_names(items@),
{
    let mut names: Vec<String> = Vec::new();
    let mut i: usize = items.len();
    assert(items@.skip(i as int) =~= seq![]);
    assert(strs(names@) =~= seq![]);
    while i > 0
        invariant
            i <= items@.len(),
            strs(names@) == bin_names(items@.skip(i as int)),
        decreases i,
    {
        i = i - 1;
        assert(items@.skip(i as int).drop_first() =~= items@.skip(i + 1));
        assert(items@.skip(i as int)[0] == items@[i as int]);
        match opt_copy(toml_lookup(&items[i], "name")) {
            Some(n) => {
                names.insert(0, n);
                assert(strs(names@) =~= bin_names(items@.skip(i as int)));
            },
            None => {},
        }
    }
    assert(items@.skip(0) =~= items@);
    names
}

fn section_keys(m: &TomlValue, section: &str) -> (keys: Vec<String>)
    ensures
        strs(keys@) == manifest_table_keys(*m, section@),
{
    match toml_lookup(m, section) {
        Some(TomlValue::Table(t)) => toml_table_keys(t),
        _ => {
            let v: Vec<String> = Vec::new();
            assert(strs(v@) =~= seq![]);
            v
        },
    }
}

/// What a parsed `Cargo.toml` says, given whether `src/lib.rs` and
/// `src/main.rs` exist next to it.
pub fn rust_info_from_manifest(
    m: &TomlValue,
    cargo_toml_path: String,
    has_lib_rs: bool,
    has_main_rs: bool,
) -> (info: RustProjectInfo)
    ensures
        describes_manifest(info, *m, cargo_toml_path@, has_lib_rs, has_main_rs),
{
    let workspace = toml_lookup(m, "workspace");
    let mut members: Vec<String> = Vec::new();
    assert(strs(members@) =~= seq![]);
    if let Some(ws) = workspace {
        if let Some(TomlValue::Array(a)) = toml_lookup(ws, "members") {
            members = toml_string_items(a);
        }
    }
    let package_name = match toml_lookup(m, "package") {
        Some(p) => opt_copy(toml_lookup(p, "name")),
        None => None,
    };
    let dependencies = section_keys(m, "dependencies");
    let dev_dependencies = section_keys(m, "dev-dependencies");
    let mut bin_targets: Vec<String> = match toml_lookup(m, "bin") {
        Some(TomlValue::Array(a)) => bin_target_names(a),
        _ => {
            let v: Vec<String> = Vec::new();
            assert(strs(v@) =~= seq![]);
            v
        },
    };
    let lib_target = has_lib_rs || toml_lookup(m, "lib").is_some();
    if bin_targets.len() == 0 && has_main_rs {
        let name = match &package_name {
            Some(n) => copy_string(n),
            None => owned("main"),
        };
        bin_targets.push(name);
        assert(strs(bin_targets@) =~= seq![
            match manifest_package_name(*m) {
                Some(n) => n,
                None => "main"@,
            },
        ]);
    }
    RustProjectInfo {
        cargo_toml_path,
        is_workspace: workspace.is_some(),
        workspace_members: members,
        package_name,
        dependencies,
        dev_dependencies,
        bin_targets,
        lib_target,
    }
}

fn json_str(o: Option<&JsonValue>) -> (r: Option<String>)
    ensures
        r matches Some(x) ==> o matches Some(v) && *v matches JsonValue::String(s) && x@ == s@,
        r is None ==> !(o matches Some(v) && *v is String),
{
    match o {
        Some(JsonValue::String(s)) => Some(copy_string(s)),
        _ => None,
    }
}

fn object_keys(m: &JsonValue, section: &str) -> (keys: Vec<String>)
    ensures
        strs(keys@) == package_object_keys(*m, section@),
{
    match json_lookup(m, section) {
        Some(JsonValue::Object(o)) => json_object_keys(o),
        _ => {
            let v: Vec<String> = Vec::new();
            assert(strs(v@) =~= seq![]);
            v
        },
    }
}

fn string_entry_pairs(entries: &Vec<(String, JsonValue)>) -> (pairs: Vec<(String, String)>)
    ensures
        script_views(pairs@) == string_entries(entries@),
{
    let mut pairs: Vec<(String, String)> = Vec::new();
    let mut i: usize = entries.len();
    assert(entries@.skip(i as int) =~= seq![]);
    assert(script_views(pairs@) =~= seq![]);
    while i > 0
        invariant
            i <= entries@.len(),
            script_views(pairs@) == string_entries(entries@.skip(i as int)),
        decreases i,
    {
        i = i - 1;
        assert(entries@.skip(i as int).drop_first() =~= entries@.skip(i + 1));
        assert(entries@.skip(i as int)[0] == entries@[i as int]);
        match &entries[i].1 {
            JsonValue::String(v) => {
                pairs.insert(0, (copy_string(&entries[i].0), copy_string(v)));
                assert(script_views(pairs@) =~= string_entries(entries@.skip(i as int)));
            },
            _ => {},
        }
    }
    assert(entries@.skip(0) =~= entries@);
    pairs
}

/// What a parsed `package.json` says, given the lock files and
/// `tsconfig.json` present next to it.
pub fn node_info_from_package(
    m: &JsonValue,
    package_json_path: String,
    has_pnpm_lock: bool,
    has_yarn_lock: bool,
    has_npm_lock: bool,
    has_tsconfig: bool,
) -> (info: NodeProjectInfo)
    ensures
        describes_package(info, *m, package_json_path@, has_pnpm_lock, has_yarn_lock, has_npm_lock, has_tsconfig),
        json_keys_distinct(*m) ==> script_names_distinct(script_views(info.scripts@)),
{
    proof {
        if json_keys_distinct(*m) {
            if let JsonValue::Object(top) = m {
                lemma_json_entry_found(top@, "scripts"@);
                if let Some(JsonValue::Object(o)) = json_entry(top@, "scripts"@) {
                    let i = choose|i: int| 0 <= i < top@.len() && top@[i].1 == JsonValue::Object(o);
                    assert(json_keys_distinct(top@[i].1));
                    lemma_string_entries_distinct(o@);
                }
            }
        }
    }
    let package_name = json_str(json_lookup(m, "name"));
    let version = json_str(json_lookup(m, "version"));
    let main_entry = json_str(json_lookup(m, "main"));
    let dependencies = object_keys(m, "dependencies");
    let dev_dependencies = object_keys(m, "devDependencies");
    let scripts = match json_lookup(m, "scripts") {
        Some(JsonValue::Object(o)) => string_entry_pairs(o),
        _ => {
            let v: Vec<(String, String)> = Vec::new();
            assert(script_views(v@) =~= seq![]);
            v
        },
    };
    let analyzer = ProjectAnalyzer::new();
    let package_manager = analyzer.detect_package_manager(has_pnpm_lock, has_yarn_lock, has_npm_lock);
    let has_typescript = strings_contain(&dependencies, "typescript") || strings_contain(
        &dev_dependencies,
        "typescript",
    ) || has_tsconfig;
    NodeProjectInfo {
        package_json_path,
        package_manager,
        package_name,
        version,
        dependencies,
        dev_dependencies,
        scripts,
        main_entry,
        has_typescript,
    }
}

impl ProjectAnalyzer {
    /// A new analyzer. It carries no state: every analyzer is this one
    /// (`lemma_analyzer_is_stateless`).
    pub fn new() -> (a: Self)
        ensures
            a == (ProjectAnalyzer {  }),
    {
        ProjectAnalyzer {  }
    }

    /// The package manager shown by the lock files present: a
    /// `pnpm-lock.yaml`, then a `yarn.lock`, then a `package-lock.json`.
    pub fn detect_package_manager(&self, has_pnpm_lock: bool, has_yarn_lock: bool, has_npm_lock: bool) -> (pm:
        PackageManager)
        ensures
            pm == package_manager_for(has_pnpm_lock, has_yarn_lock, has_npm_lock),
    {
        if has_pnpm_lock {
            PackageManager::Pnpm
        } else if has_yarn_lock {
            PackageManager::Yarn
        } else if has_npm_lock {
            PackageManager::Npm
        } else {
            PackageManager::Unknown
        }
    }

    /// Reads the content of a `Cargo.toml`: a TOML error is an analysis error.
    pub fn analyze_rust_manifest(
        &self,
        content: &str,
        cargo_toml_path: String,
        has_lib_rs: bool,
        has_main_rs: bool,
    ) -> (res: Result<RustProjectInfo, CliError>)
        ensures
            match toml_document(content@) {
                Ok(m) => res matches Ok(info) && describes_manifest(
                    info,
                    m,
                    cargo_toml_path@,
                    has_lib_rs,
                    has_main_rs,
                ),
                Err(e) => res matches Err(CliError::Analysis(msg)) && msg@ == "Failed to parse Cargo.toml: "@
                    + e@,
            },
    {
        match parse_toml(content) {
            Ok(m) => Ok(rust_info_from_manifest(&m, cargo_toml_path, has_lib_rs, has_main_rs)),
            Err(e) => {
                let mut msg = owned("Failed to parse Cargo.toml: ");
                msg.append(e.as_str());
                Err(CliError::Analysis(msg))
            },
        }
    }

    /// Reads the content of a `package.json`: a JSON error is an analysis error.
    pub fn analyze_node_manifest(
        &self,
        content: &str,
        package_json_path: String,
        has_pnpm_lock: bool,
        has_yarn_lock: bool,
        has_npm_lock: bool,
        has_tsconfig: bool,
    ) -> (res: Result<NodeProjectInfo, CliError>)
        ensures
            match json_document(content@) {
                Ok(m) => res matches Ok(info) && describes_package(
                    info,
                    m,
                    package_json_path@,
                    has_pnpm_lock,
                    has_yarn_lock,
                    has_npm_lock,
                    has_tsconfig,
                ) && script_names_distinct(script_views(info.scripts@)),
                Err(e) => res matches Err(CliError::Analysis(msg)) && msg@ == "Failed to parse package.json: "@
                    + e@,
            },
    {
        match parse_json(content) {
            Ok(m) => Ok(
                node_info_from_package(
                    &m,
                    package_json_path,
                    has_pnpm_lock,
                    has_yarn_lock,
                    has_npm_lock,
                    has_tsconfig,
                ),
            ),
            Err(e) => {
                let mut msg = owned("Failed to parse package.json: ");
                msg.append(e.as_str());
                Err(CliError::Analysis(msg))
            },
        }
    }
}


/// The language that a file extension stands for.
pub open spec fn language_of_extension(ext: Seq<char>) -> Seq<char> {
    if ext == "rs"@ {
        "rust"@
    } else if ext == "js"@ || ext == "mjs"@ || ext == "cjs"@ {
        "javascript"@
    } else if ext == "ts"@ || ext == "mts"@ || ext == "cts"@ {
        "typescript"@
    } else if ext == "json"@ {
        "json"@
    } else if ext == "toml"@ {
        "toml"@
    } else if ext == "yaml"@ || ext == "yml"@ {
        "yaml"@
    } else if ext == "md"@ {
        "markdown"@
    } else if ext == "html"@ {
        "html"@
    } else if ext == "css"@ {
        "css"@
    } else if ext == "py"@ {
        "python"@
    } else if ext == "go"@ {
        "go"@
    } else if ext == "java"@ {
        "java"@
    } else if ext == "c"@ {
        "c"@
    } else if ext == "cpp"@ || ext == "cc"@ || ext == "cxx"@ {
        "cpp"@
    } else if ext == "h"@ || ext == "hpp"@ {
        "header"@
    } else {
        "other"@
    }
}

/// The language that a file extension stands for.
pub fn language_for_extension(ext: &str) -> (lang: &'static str)
    ensures
        lang@ == language_of_extension(ext@),
{
    if str_eq(ext, "rs") {
        "rust"
    } else if str_eq(ext, "js") || str_eq(ext, "mjs") || str_eq(ext, "cjs") {
        "javascript"
    } else if str_eq(ext, "ts") || str_eq(ext, "mts") || str_eq(ext, "cts") {
        "typescript"
    } else if str_eq(ext, "json") {
        "json"
    } else if str_eq(ext, "toml") {
        "toml"
    } else if str_eq(ext, "yaml") || str_eq(ext, "yml") {
        "yaml"
    } else if str_eq(ext, "md") {
        "markdown"
    } else if str_eq(ext, "html") {
        "html"
    } else if str_eq(ext, "css") {
        "css"
    } else if str_eq(ext, "py") {
        "python"
    } else if str_eq(ext, "go") {
        "go"
    } else if str_eq(ext, "java") {
        "java"
    } else if str_eq(ext, "c") {
        "c"
    } else if str_eq(ext, "cpp") || str_eq(ext, "cc") || str_eq(ext, "cxx") {
        "cpp"
    } else if str_eq(ext, "h") || str_eq(ext, "hpp") {
        "header"
    } else {
        "other"
    }
}

/// The extensions whose files are counted under a language, each with the
/// language's name.
pub open spec fn extension_table() -> Seq<(Seq<char>, Seq<char>)> {
    Seq::empty()
        .push(("rs"@, "rust"@))
        .push(("js"@, "javascript"@))
        .push(("mjs"@, "javascript"@))
        .push(("cjs"@, "javascript"@))
        .push(("ts"@, "typescript"@))
        .push(("mts"@, "typescript"@))
        .push(("cts"@, "typescript"@))
        .push(("json"@, "json"@))
        .push(("toml"@, "toml"@))
        .push(("yaml"@, "yaml"@))
        .push(("yml"@, "yaml"@))
        .push(("md"@, "markdown"@))
        .push(("html"@, "html"@))
        .push(("css"@, "css"@))
        .push(("py"@, "python"@))
        .push(("go"@, "go"@))
        .push(("java"@, "java"@))
        .push(("c"@, "c"@))
        .push(("cpp"@, "cpp"@))
        .push(("cc"@, "cpp"@))
        .push(("cxx"@, "cpp"@))
        .push(("h"@, "header"@))
        .push(("hpp"@, "header"@))
}

/// The language that `table` gives an extension, looking from entry `i`
/// on: that of the first entry with this extension, else "other".
pub open spec fn table_language(table: Seq<(Seq<char>, Seq<char>)>, i: int, ext: Seq<char>) -> Seq<char>
    decreases table.len() - i,
{
    if i < 0 || i >= table.len() {
        "other"@
    } else if table[i].0 == ext {
        table[i].1
    } else {
        table_language(table, i + 1, ext)
    }
}

/// Every extension counts under the language the extension table lists for
/// it, and an extension the table does not list counts under "other".
pub proof fn lemma_extension_languages(ext: Seq<char>)
    ensures
        language_of_extension(ext) == table_language(extension_table(), 0, ext),
{
    reveal_with_fuel(table_language, 24);
    let t = extension_table();
    assert(t.len() == 23);
}

/// Directories whose files are not counted.
pub open spec fn is_skipped_directory(name: Seq<char>) -> bool {
    name == "target"@ || name == "node_modules"@ || name == "dist"@ || name == "build"@ || name == ".git"@
}

/// A file is counted unless its name starts with `.` or it sits directly in
/// a build, dependency or VCS directory.
pub open spec fn counts_file(file_name: Option<Seq<char>>, parent_name: Option<Seq<char>>) -> bool {
    &&& !(file_name matches Some(n) && has_prefix(n, seq!['.']))
    &&& !(parent_name matches Some(p) && is_skipped_directory(p))
}

fn opt_view(o: Option<&str>) -> (r: Ghost<Option<Seq<char>>>)
    ensures
        r@ == match o {
            Some(s) => Some(s@),
            None => None,
        },
{
    Ghost(
        match o {
            Some(s) => Some(s@),
            None => None,
        },
    )
}

/// Whether a regular file is counted in the analysis, given its name and
/// the name of the directory that holds it (each when readable as text).
pub fn should_count_file(file_name: Option<&str>, parent_name: Option<&str>) -> (b: bool)
    ensures
        b == counts_file(
            match file_name {
                Some(s) => Some(s@),
                None => None,
            },
            match parent_name {
                Some(s) => Some(s@),
                None => None,
            },
        ),
{
    if let Some(name) = file_name {
        let chars = chars_of(name);
        if chars.len() > 0 && chars[0] == '.' {
            assert(name@.subrange(0, 1) =~= seq!['.']);
            return false;
        }
        if chars.len() == 0 || chars[0] != '.' {
            assert(!has_prefix(name@, seq!['.'])) by {
                if has_prefix(name@, seq!['.']) {
                    assert(name@.subrange(0, 1)[0] == '.');
                }
            }
        }
    }
    if let Some(parent) = parent_name {
        if str_eq(parent, "target") || str_eq(parent, "node_modules") || str_eq(parent, "dist")
            || str_eq(parent, "build") || str_eq(parent, ".git") {
            return false;
        }
    }
    true
}

/// The line count recorded for a language; zero when it has no entry.
pub open spec fn language_lines(v: Seq<(String, usize)>, lang: Seq<char>) -> int
    decreases v.len(),
{
    if v.len() == 0 {
        0
    } else if v[0].0@ == lang {
        v[0].1 as int
    } else {
        language_lines(v.drop_first(), lang)
    }
}

/// The language has an entry.
pub open spec fn has_language(v: Seq<(String, usize)>, lang: Seq<char>) -> bool {
    exists|i: int| 0 <= i < v.len() && (#[trigger] v[i]).0@ == lang
}

/// No two entries name the same language.
pub open spec fn languages_distinct(v: Seq<(String, usize)>) -> bool {
    forall|i: int, j: int| 0 <= i < j < v.len() ==> (#[trigger] v[i]).0@ != (#[trigger] v[j]).0@
}

/// Without an entry for a language, its line count is zero.
proof fn lemma_no_language(v: Seq<(String, usize)>, lang: Seq<char>)
    requires
        !has_language(v, lang),
    ensures
        language_lines(v, lang) == 0,
    decreases v.len(),
{
    if v.len() > 0 {
        assert(v[0].0@ != lang);
        assert(!has_language(v.drop_first(), lang)) by {
            if has_language(v.drop_first(), lang) {
                let i = choose|i: int| 0 <= i < v.drop_first().len() && (#[trigger] v.drop_first()[i]).0@ == lang;
                assert(v[i + 1].0@ == lang);
            }
        }
        lemma_no_language(v.drop_first(), lang);
    }
}

/// With distinct languages, the count of a language is that of its entry.
proof fn lemma_language_entry(v: Seq<(String, usize)>, lang: Seq<char>, k: int)
    requires
        languages_distinct(v),
        0 <= k < v.len(),
        v[k].0@ == lang,
    ensures
        language_lines(v, lang) == v[k].1,
    decreases v.len(),
{
    if k > 0 {
        assert(v[0].0@ != v[k].0@);
        assert(languages_distinct(v.drop_first())) by {
            assert forall|i: int, j: int| 0 <= i < j < v.drop_first().len() implies (#[trigger] v.drop_first()[i]).0@
                != (#[trigger] v.drop_first()[j]).0@ by {
                assert(v.drop_first()[i] == v[i + 1]);
                assert(v.drop_first()[j] == v[j + 1]);
            }
        }
        assert(v.drop_first()[k - 1] == v[k]);
        lemma_language_entry(v.drop_first(), lang, k - 1);
    }
}

impl ProjectAnalysis {
    /// Every language's line count is within the total.
    pub open spec fn counts_bounded(&self) -> bool {
        &&& languages_distinct(self.languages@)
        &&& forall|i: int| 0 <= i < self.languages@.len() ==> (#[trigger] self.languages@[i]).1 <= self.total_lines
    }

    /// The analysis of a directory before anything is detected or counted.
    pub fn new(project_path: String) -> (a: Self)
        ensures
            is_fresh_analysis(a, project_path@),
            a.counts_bounded(),
    {
        ProjectAnalysis {
            project_path,
            project_type: ProjectType::Unknown,
            rust_info: None,
            node_info: None,
            file_count: 0,
            total_lines: 0,
            primary_language: String::new(),
            languages: Vec::new(),
            recommendations: Vec::new(),
        }
    }

    /// Records the manifests found: the project type and primary language
    /// follow `detected_type`, and both manifests are kept.
    pub fn apply_detection(&mut self, rust_info: Option<RustProjectInfo>, node_info: Option<NodeProjectInfo>)
        requires
            old(self).project_type == ProjectType::Unknown,
            old(self).primary_language@.len() == 0,
        ensures
            final(self).project_type == detected_type(rust_info, node_info).0,
            final(self).primary_language@ == detected_type(rust_info, node_info).1,
            final(self).rust_info == rust_info,
            final(self).node_info == node_info,
            final(self).project_path == old(self).project_path,
            final(self).file_count == old(self).file_count,
            final(self).total_lines == old(self).total_lines,
            final(self).languages == old(self).languages,
            final(self).recommendations == old(self).recommendations,
    {
        if let Some(r) = &rust_info {
            self.project_type = if r.is_workspace {
                ProjectType::RustWorkspace
            } else if r.lib_target {
                ProjectType::RustLibrary
            } else {
                ProjectType::RustApplication
            };
            self.primary_language = owned("rust");
        }
        if let Some(n) = &node_info {
            if self.project_type == ProjectType::Unknown {
                self.project_type = if n.main_entry.is_some() {
                    ProjectType::NodeApplication
                } else {
                    ProjectType::NodeLibrary
                };
                self.primary_language = owned("javascript");
            }
        }
        self.rust_info = rust_info;
        self.node_info = node_info;
    }

    /// Counts one more file. When its content could be read, its lines go
    /// to the total and, when it has an extension, to that extension's
    /// language.
    pub fn record_file(&mut self, line_count: Option<usize>, extension: Option<&str>)
        requires
            old(self).counts_bounded(),
            old(self).file_count < usize::MAX,
            line_count matches Some(n) ==> old(self).total_lines + n <= usize::MAX,
        ensures
            final(self).counts_bounded(),
            final(self).file_count == old(self).file_count + 1,
            final(self).total_lines == old(self).total_lines + match line_count {
                Some(n) => n as int,
                None => 0,
            },
            forall|lang: Seq<char>| #[trigger] language_lines(final(self).languages@, lang) == language_lines(
                old(self).languages@,
                lang,
            ) + match (line_count, extension) {
                (Some(n), Some(e)) => if lang == language_of_extension(e@) {
                    n as int
                } else {
                    0
                },
                _ => 0,
            },
            forall|lang: Seq<char>| #[trigger] has_language(final(self).languages@, lang) == (has_language(
                old(self).languages@,
                lang,
            ) || (line_count is Some && (extension matches Some(e) && lang == language_of_extension(e@)))),
            final(self).project_path == old(self).project_path,
            final(self).project_type == old(self).project_type,
            final(self).rust_info == old(self).rust_info,
            final(self).node_info == old(self).node_info,
            final(self).primary_language == old(self).primary_language,
            final(self).recommendations == old(self).recommendations,
    {
        self.file_count = self.file_count + 1;
        if let Some(n) = line_count {
            self.total_lines = self.total_lines + n;
            if let Some(ext) = extension {
                let lang = language_for_extension(ext);
                add_language_lines(&mut self.languages, lang, n, self.total_lines);
            }
        }
    }
}

/// Adds `n` lines to a language's entry, creating it when missing.
fn add_language_lines(v: &mut Vec<(String, usize)>, lang: &str, n: usize, bound: usize)
    requires
        languages_distinct(old(v)@),
        n <= bound,
        forall|i: int| 0 <= i < old(v)@.len() ==> (#[trigger] old(v)@[i]).1 + n <= bound,
    ensures
        languages_distinct(final(v)@),
        forall|i: int| 0 <= i < final(v)@.len() ==> (#[trigger] final(v)@[i]).1 <= bound,
        forall|l: Seq<char>| #[trigger] language_lines(final(v)@, l) == language_lines(old(v)@, l) + if l == lang@ {
            n as int
        } else {
            0
        },
        forall|l: Seq<char>| #[trigger] has_language(final(v)@, l) == (has_language(old(v)@, l) || l == lang@),
{
    let ghost old_v = v@;
    let mut i: usize = 0;
    while i < v.len()
        invariant
            v@ == old_v,
            old(v)@ == old_v,
            i <= v@.len(),
            forall|j: int| 0 <= j < i ==> (#[trigger] v@[j]).0@ != lang@,
            languages_distinct(old_v),
            n <= bound,
            forall|j: int| 0 <= j < old_v.len() ==> (#[trigger] old_v[j]).1 + n <= bound,
        decreases v@.len() - i,
    {
        if str_eq(v[i].0.as_str(), lang) {
            let count = v[i].1;
            let name = copy_string(&v[i].0);
            v.set(i, (name, count + n));
            proof {
                let nv = v@;
                assert forall|a: int, b: int| 0 <= a < b < nv.len() implies (#[trigger] nv[a]).0@
                    != (#[trigger] nv[b]).0@ by {
                    assert(nv[a].0@ == old_v[a].0@);
                    assert(nv[b].0@ == old_v[b].0@);
                }
                assert forall|l: Seq<char>| #[trigger] has_language(nv, l) == (has_language(old_v, l) || l == lang@) by {
                    if has_language(nv, l) {
                        let k = choose|k: int| 0 <= k < nv.len() && (#[trigger] nv[k]).0@ == l;
                        assert(old_v[k].0@ == l);
                    }
                    if has_language(old_v, l) {
                        let k = choose|k: int| 0 <= k < old_v.len() && (#[trigger] old_v[k]).0@ == l;
                        assert(nv[k].0@ == l);
                    }
                    if l == lang@ {
                        assert(nv[i as int].0@ == l);
                    }
                }
                assert forall|l: Seq<char>| #[trigger] language_lines(nv, l) == language_lines(old_v, l) + if l == lang@ {
                    n as int
                } else {
                    0
                } by {
                    if l == lang@ {
                        lemma_language_entry(nv, l, i as int);
                        lemma_language_entry(old_v, l, i as int);
                    } else if has_language(old_v, l) {
                        let k = choose|k: int| 0 <= k < old_v.len() && (#[trigger] old_v[k]).0@ == l;
                        assert(k != i);
                        lemma_language_entry(nv, l, k);
                        lemma_language_entry(old_v, l, k);
                    } else {
                        lemma_no_language(old_v, l);
                        assert(!has_language(nv, l));
                        lemma_no_language(nv, l);
                    }
                }
            }
            return;
        }
        i = i + 1;
    }
    let name = owned(lang);
    v.push((name, n));
    proof {
        let nv = v@;
        assert forall|a: int, b: int| 0 <= a < b < nv.len() implies (#[trigger] nv[a]).0@ != (#[trigger] nv[b]).0@ by {
            if b < old_v.len() {
                assert(nv[a] == old_v[a]);
                assert(nv[b] == old_v[b]);
            } else {
                assert(nv[a] == old_v[a]);
            }
        }
        assert forall|l: Seq<char>| #[trigger] has_language(nv, l) == (has_language(old_v, l) || l == lang@) by {
            if has_language(nv, l) {
                let k = choose|k: int| 0 <= k < nv.len() && (#[trigger] nv[k]).0@ == l;
                if k < old_v.len() {
                    assert(old_v[k].0@ == l);
                }
            }
            if has_language(old_v, l) {
                let k = choose|k: int| 0 <= k < old_v.len() && (#[trigger] old_v[k]).0@ == l;
                assert(nv[k].0@ == l);
            }
            if l == lang@ {
                assert(nv[old_v.len() as int].0@ == l);
            }
        }
        assert forall|l: Seq<char>| #[trigger] language_lines(nv, l) == language_lines(old_v, l) + if l == lang@ {
            n as int
        } else {
            0
        } by {
            if l == lang@ {
                lemma_language_entry(nv, l, old_v.len() as int);
                assert(!has_language(old_v, l)) by {
                    if has_language(old_v, l) {
                        let k = choose|k: int| 0 <= k < old_v.len() && (#[trigger] old_v[k]).0@ == l;
                        assert(v@[k].0@ != lang@);
                    }
                }
                lemma_no_language(old_v, l);
            } else if has_language(old_v, l) {
                let k = choose|k: int| 0 <= k < old_v.len() && (#[trigger] old_v[k]).0@ == l;
                lemma_language_entry(nv, l, k);
                lemma_language_entry(old_v, l, k);
            } else {
                lemma_no_language(old_v, l);
                assert(!has_language(nv, l)) by {
                    if has_language(nv, l) {
                        let k = choose|k: int| 0 <= k < nv.len() && (#[trigger] nv[k]).0@ == l;
                        if k < old_v.len() {
                            assert(old_v[k].0@ == l);
                        }
                    }
                }
                lemma_no_language(nv, l);
            }
        }
    }
}


/// `msg` alone when `cond` holds, otherwise nothing.
pub open spec fn note_if(cond: bool, msg: Seq<char>) -> Seq<Seq<char>> {
    if cond {
        seq![msg]
    } else {
        seq![]
    }
}

/// The recommendations that a Rust manifest calls for.
pub open spec fn rust_recommendations(r: RustProjectInfo) -> Seq<Seq<char>> {
    note_if(
        r.dependencies@.len() == 0 && !r.is_workspace,
        "Consider adding dependencies to enhance functionality"@,
    ) + note_if(
        !r.lib_target && r.bin_targets@.len() == 0,
        "No library or binary targets found - consider adding src/main.rs or src/lib.rs"@,
    ) + note_if(
        r.is_workspace && r.workspace_members@.len() == 0,
        "Workspace detected but no members found - check workspace.members in Cargo.toml"@,
    )
}

/// The recommendations that a package manifest calls for.
pub open spec fn node_recommendations(n: NodeProjectInfo) -> Seq<Seq<char>> {
    note_if(
        n.package_manager == PackageManager::Unknown,
        "No lock file detected - consider using npm, yarn, or pnpm for dependency management"@,
    ) + note_if(
        n.scripts@.len() == 0,
        "No npm scripts found - consider adding build, test, or start scripts"@,
    ) + note_if(
        n.has_typescript && !strs(n.dev_dependencies@).contains("@types/node"@),
        "TypeScript detected but @types/node not found - consider adding it for better type support"@,
    )
}

/// The recommendations that the size of the project calls for.
pub open spec fn size_recommendations(file_count: usize, total_lines: usize) -> Seq<Seq<char>> {
    note_if(
        file_count == 0,
        "No source files found - ensure you're in the correct project directory"@,
    ) + note_if(
        file_count > 1000,
        "Large project detected - consider organizing code into modules or workspaces"@,
    ) + note_if(
        total_lines > 10000,
        "Large codebase detected - consider code documentation and testing strategies"@,
    )
}

/// The recommendations for a Rust manifest, if one was found.
pub open spec fn rust_part(r: Option<RustProjectInfo>) -> Seq<Seq<char>> {
    match r {
        Some(r) => rust_recommendations(r),
        None => seq![],
    }
}

/// The recommendations for a package manifest, if one was found.
pub open spec fn node_part(n: Option<NodeProjectInfo>) -> Seq<Seq<char>> {
    match n {
        Some(n) => node_recommendations(n),
        None => seq![],
    }
}

/// All recommendations for an analysis, in the order they are given.
pub open spec fn recommendations_for(a: ProjectAnalysis) -> Seq<Seq<char>> {
    rust_part(a.rust_info) + node_part(a.node_info) + size_recommendations(a.file_count, a.total_lines)
}

/// Appends `msg` when `cond` holds.
fn push_if(v: &mut Vec<String>, cond: bool, msg: &str)
    ensures
        strs(final(v)@) == strs(old(v)@) + note_if(cond, msg@),
{
    if cond {
        v.push(owned(msg));
        assert(strs(v@) =~= strs(old(v)@) + note_if(cond, msg@));
    } else {
        assert(strs(v@) =~= strs(old(v)@) + note_if(cond, msg@));
    }
}

fn push_rust_recommendations(recs: &mut Vec<String>, r: &RustProjectInfo)
    ensures
        strs(final(recs)@) == strs(old(recs)@) + rust_recommendations(*r),
{
    push_if(
        recs,
        r.dependencies.len() == 0 && !r.is_workspace,
        "Consider adding dependencies to enhance functionality",
    );
    push_if(
        recs,
        !r.lib_target && r.bin_targets.len() == 0,
        "No library or binary targets found - consider adding src/main.rs or src/lib.rs",
    );
    push_if(
        recs,
        r.is_workspace && r.workspace_members.len() == 0,
        "Workspace detected but no members found - check workspace.members in Cargo.toml",
    );
    assert(strs(recs@) =~= strs(old(recs)@) + rust_recommendations(*r));
}

fn push_node_recommendations(recs: &mut Vec<String>, n: &NodeProjectInfo)
    ensures
        strs(final(recs)@) == strs(old(recs)@) + node_recommendations(*n),
{
    push_if(
        recs,
        n.package_manager == PackageManager::Unknown,
        "No lock file detected - consider using npm, yarn, or pnpm for dependency management",
    );
    push_if(
        recs,
        n.scripts.len() == 0,
        "No npm scripts found - consider adding build, test, or start scripts",
    );
    let has_types = strings_contain(&n.dev_dependencies, "@types/node");
    push_if(
        recs,
        n.has_typescript && !has_types,
        "TypeScript detected but @types/node not found - consider adding it for better type support",
    );
    assert(strs(recs@) =~= strs(old(recs)@) + node_recommendations(*n));
}

fn push_size_recommendations(recs: &mut Vec<String>, file_count: usize, total_lines: usize)
    ensures
        strs(final(recs)@) == strs(old(recs)@) + size_recommendations(file_count, total_lines),
{
    push_if(
        recs,
        file_count == 0,
        "No source files found - ensure you're in the correct project directory",
    );
    push_if(
        recs,
        file_count > 1000,
        "Large project detected - consider organizing code into modules or workspaces",
    );
    push_if(
        recs,
        total_lines > 10000,
        "Large codebase detected - consider code documentation and testing strategies",
    );
    assert(strs(recs@) =~= strs(old(recs)@) + size_recommendations(file_count, total_lines));
}

proof fn lemma_append_three(s: Seq<Seq<char>>, a: Seq<Seq<char>>, b: Seq<Seq<char>>, c: Seq<Seq<char>>)
    ensures
        s + a + b + c == s + (a + b + c),
{
    assert(s + a + b + c =~= s + (a + b + c));
}

impl ProjectAnalyzer {
    /// Appends the recommendations that the analysis calls for; nothing
    /// else changes.
    #[verifier::spinoff_prover]
    pub fn generate_recommendations(&self, analysis: &mut ProjectAnalysis)
        ensures
            strs(final(analysis).recommendations@) == strs(old(analysis).recommendations@)
                + recommendations_for(*old(analysis)),
            final(analysis).project_path == old(analysis).project_path,
            final(analysis).project_type == old(analysis).project_type,
            final(analysis).rust_info == old(analysis).rust_info,
            final(analysis).node_info == old(analysis).node_info,
            final(analysis).file_count == old(analysis).file_count,
            final(analysis).total_lines == old(analysis).total_lines,
            final(analysis).primary_language == old(analysis).primary_language,
            final(analysis).languages == old(analysis).languages,
    {
        let ghost start = strs(analysis.recommendations@);
        let ghost a = rust_part(analysis.rust_info);
        let ghost b = node_part(analysis.node_info);
        let ghost c = size_recommendations(analysis.file_count, analysis.total_lines);
        if let Some(r) = &analysis.rust_info {
            push_rust_recommendations(&mut analysis.recommendations, r);
        } else {
            assert(strs(analysis.recommendations@) =~= start + a);
        }
        if let Some(n) = &analysis.node_info {
            push_node_recommendations(&mut analysis.recommendations, n);
        } else {
            assert(strs(analysis.recommendations@) =~= start + a + b);
        }
        let file_count = analysis.file_count;
        let total_lines = analysis.total_lines;
        push_size_recommendations(&mut analysis.recommendations, file_count, total_lines);
        proof {
            lemma_append_three(start, a, b, c);
        }
    }
}

/// A regular file met while walking the project: its name and the name of
/// the directory holding it (when readable as text), its line count (when
/// its content could be read as text) and its extension.
pub struct ScannedFile {
    pub file_name: Option<String>,
    pub parent_name: Option<String>,
    pub line_count: Option<usize>,
    pub extension: Option<String>,
}

/// The file counts in the analysis.
pub open spec fn is_counted(f: ScannedFile) -> bool {
    counts_file(opt_str(f.file_name), opt_str(f.parent_name))
}

/// The lines that a file adds to the total.
pub open spec fn total_share(f: ScannedFile) -> int {
    if is_counted(f) {
        match f.line_count {
            Some(n) => n as int,
            None => 0,
        }
    } else {
        0
    }
}

/// The lines that a file adds to a language.
pub open spec fn language_share(f: ScannedFile, lang: Seq<char>) -> int {
    if is_counted(f) {
        match (f.line_count, f.extension) {
            (Some(n), Some(e)) => if language_of_extension(e@) == lang {
                n as int
            } else {
                0
            },
            _ => 0,
        }
    } else {
        0
    }
}

/// The file gives the language an entry.
pub open spec fn gives_language(f: ScannedFile, lang: Seq<char>) -> bool {
    &&& is_counted(f)
    &&& f.line_count is Some
    &&& f.extension matches Some(e) && language_of_extension(e@) == lang
}

/// The number of counted files.
pub open spec fn counted_files(fs: Seq<ScannedFile>) -> nat
    decreases fs.len(),
{
    if fs.len() == 0 {
        0
    } else {
        counted_files(fs.drop_last()) + if is_counted(fs.last()) {
            1nat
        } else {
            0nat
        }
    }
}

/// The lines of the counted files.
pub open spec fn counted_lines(fs: Seq<ScannedFile>) -> int
    decreases fs.len(),
{
    if fs.len() == 0 {
        0
    } else {
        counted_lines(fs.drop_last()) + total_share(fs.last())
    }
}

/// The lines of the counted files in a language.
pub open spec fn counted_language_lines(fs: Seq<ScannedFile>, lang: Seq<char>) -> int
    decreases fs.len(),
{
    if fs.len() == 0 {
        0
    } else {
        counted_language_lines(fs.drop_last(), lang) + language_share(fs.last(), lang)
    }
}

/// Some counted file gives the language an entry.
pub open spec fn language_seen(fs: Seq<ScannedFile>, lang: Seq<char>) -> bool {
    exists|i: int| 0 <= i < fs.len() && gives_language(#[trigger] fs[i], lang)
}

proof fn lemma_counted_lines_prefix(fs: Seq<ScannedFile>, i: int)
    requires
        0 <= i <= fs.len(),
    ensures
        counted_lines(fs.take(i)) <= counted_lines(fs),
    decreases fs.len() - i,
{
    if i < fs.len() {
        lemma_counted_lines_prefix(fs, i + 1);
        assert(fs.take(i + 1).drop_last() =~= fs.take(i));
    } else {
        assert(fs.take(i) =~= fs);
    }
}

proof fn lemma_counted_files_bound(fs: Seq<ScannedFile>)
    ensures
        counted_files(fs) <= fs.len(),
    decreases fs.len(),
{
    if fs.len() > 0 {
        lemma_counted_files_bound(fs.drop_last());
    }
}

fn opt_as_str(o: &Option<String>) -> (r: Option<&str>)
    ensures
        match r {
            Some(s) => opt_str(*o) == Some(s@),
            None => opt_str(*o) is None,
        },
{
    match o {
        Some(s) => Some(s.as_str()),
        None => None,
    }
}

/// `a` is the analysis of the project at `path`, from the manifests read
/// there and the files met while walking it: the manifests decide the type
/// and language, the counted files give the counts and the lines per
/// language, and the recommendations follow from these.
pub open spec fn analyzes_scan(
    a: ProjectAnalysis,
    path: Seq<char>,
    rust_info: Option<RustProjectInfo>,
    node_info: Option<NodeProjectInfo>,
    files: Seq<ScannedFile>,
) -> bool {
    &&& a.project_path@ == path
    &&& a.project_type == detected_type(rust_info, node_info).0
    &&& a.primary_language@ == detected_type(rust_info, node_info).1
    &&& a.rust_info == rust_info
    &&& a.node_info == node_info
    &&& a.file_count == counted_files(files)
    &&& a.total_lines == counted_lines(files)
    &&& a.counts_bounded()
    &&& forall|lang: Seq<char>| #[trigger] language_lines(a.languages@, lang) == counted_language_lines(files, lang)
    &&& forall|lang: Seq<char>| #[trigger] has_language(a.languages@, lang) == language_seen(files, lang)
    &&& strs(a.recommendations@) == recommendations_for(a)
}

/// An analyzer carries no state: any two analyzers are the same value, so
/// whatever one of them gives for a scan, any other gives too.
pub proof fn lemma_analyzer_is_stateless(a: ProjectAnalyzer, b: ProjectAnalyzer)
    ensures
        a == b,
        a == (ProjectAnalyzer {  }),
{
}

/// Analyzing the same scan twice gives the same analysis: the same path,
/// type, language, manifests, counts, lines per language, languages seen
/// and recommendations, whichever analyzer does it.
pub proof fn lemma_analysis_is_determined(
    a1: ProjectAnalysis,
    a2: ProjectAnalysis,
    path: Seq<char>,
    rust_info: Option<RustProjectInfo>,
    node_info: Option<NodeProjectInfo>,
    files: Seq<ScannedFile>,
)
    requires
        analyzes_scan(a1, path, rust_info, node_info, files),
        analyzes_scan(a2, path, rust_info, node_info, files),
    ensures
        a1.project_path@ == a2.project_path@,
        a1.project_type == a2.project_type,
        a1.primary_language@ == a2.primary_language@,
        a1.rust_info == a2.rust_info,
        a1.node_info == a2.node_info,
        a1.file_count == a2.file_count,
        a1.total_lines == a2.total_lines,
        forall|lang: Seq<char>| #[trigger] language_lines(a1.languages@, lang) == language_lines(a2.languages@, lang),
        forall|lang: Seq<char>| #[trigger] has_language(a1.languages@, lang) == has_language(a2.languages@, lang),
        strs(a1.recommendations@) == strs(a2.recommendations@),
{
    assert forall|lang: Seq<char>| #[trigger] language_lines(a1.languages@, lang) == language_lines(a2.languages@, lang) by {
        assert(language_lines(a1.languages@, lang) == counted_language_lines(files, lang));
        assert(language_lines(a2.languages@, lang) == counted_language_lines(files, lang));
    }
    assert forall|lang: Seq<char>| #[trigger] has_language(a1.languages@, lang) == has_language(a2.languages@, lang) by {
        assert(has_language(a1.languages@, lang) == language_seen(files, lang));
        assert(has_language(a2.languages@, lang) == language_seen(files, lang));
    }
}

impl ProjectAnalyzer {
    /// The analysis of the project at `project_path`, from the manifests
    /// read there and the files met while walking it: the manifests decide
    /// the type, the counted files give the counts, and the
    /// recommendations follow.
    pub fn analyze_scan(
        &self,
        project_path: String,
        rust_info: Option<RustProjectInfo>,
        node_info: Option<NodeProjectInfo>,
        files: &Vec<ScannedFile>,
    ) -> (a: ProjectAnalysis)
        requires
            counted_lines(files@) <= usize::MAX,
        ensures
            analyzes_scan(a, project_path@, rust_info, node_info, files@),
    {
        let mut a = ProjectAnalysis::new(project_path);
        a.apply_detection(rust_info, node_info);
        let ghost fs = files@;
        let mut i: usize = 0;
        while i < files.len()
            invariant
                fs == files@,
                i <= fs.len(),
                counted_lines(fs) <= usize::MAX,
                a.project_path@ == project_path@,
                a.project_type == detected_type(rust_info, node_info).0,
                a.primary_language@ == detected_type(rust_info, node_info).1,
                a.rust_info == rust_info,
                a.node_info == node_info,
                a.recommendations@.len() == 0,
                a.counts_bounded(),
                a.file_count == counted_files(fs.take(i as int)),
                a.total_lines == counted_lines(fs.take(i as int)),
                forall|lang: Seq<char>| #[trigger] language_lines(a.languages@, lang) == counted_language_lines(
                    fs.take(i as int),
                    lang,
                ),
                forall|lang: Seq<char>| #[trigger] has_language(a.languages@, lang) == language_seen(
                    fs.take(i as int),
                    lang,
                ),
            decreases fs.len() - i,
        {
            let f = &files[i];
            let ghost pre = fs.take(i as int);
            let ghost post = fs.take(i + 1);
            proof {
                assert(post.drop_last() =~= pre);
                assert(post.last() == fs[i as int]);
                lemma_counted_lines_prefix(fs, i + 1);
                lemma_counted_files_bound(pre);
            }
            let counted = should_count_file(opt_as_str(&f.file_name), opt_as_str(&f.parent_name));
            if counted {
                let ghost before = a.languages@;
                a.record_file(f.line_count, opt_as_str(&f.extension));
                proof {
                    assert forall|lang: Seq<char>| #[trigger] has_language(a.languages@, lang) == language_seen(
                        post,
                        lang,
                    ) by {
                        if language_seen(post, lang) {
                            let k = choose|k: int| 0 <= k < post.len() && gives_language(#[trigger] post[k], lang);
                            if k < pre.len() {
                                assert(pre[k] == post[k]);
                                assert(language_seen(pre, lang));
                            }
                        }
                        if language_seen(pre, lang) {
                            let k = choose|k: int| 0 <= k < pre.len() && gives_language(#[trigger] pre[k], lang);
                            assert(post[k] == pre[k]);
                        }
                        if gives_language(fs[i as int], lang) {
                            assert(post[i as int] == fs[i as int]);
                        }
                    }
                    assert forall|lang: Seq<char>| #[trigger] language_lines(a.languages@, lang)
                        == counted_language_lines(post, lang) by {
                        assert(language_lines(before, lang) == counted_language_lines(pre, lang));
                    }
                }
            } else {
                proof {
                    assert forall|lang: Seq<char>| #[trigger] has_language(a.languages@, lang) == language_seen(
                        post,
                        lang,
                    ) by {
                        if language_seen(post, lang) {
                            let k = choose|k: int| 0 <= k < post.len() && gives_language(#[trigger] post[k], lang);
                            assert(k != i);
                            assert(pre[k] == post[k]);
                            assert(language_seen(pre, lang));
                        }
                        if language_seen(pre, lang) {
                            let k = choose|k: int| 0 <= k < pre.len() && gives_language(#[trigger] pre[k], lang);
                            assert(post[k] == pre[k]);
                        }
                    }
                    assert forall|lang: Seq<char>| #[trigger] language_lines(a.languages@, lang)
                        == counted_language_lines(post, lang) by {
                        assert(language_lines(a.languages@, lang) == counted_language_lines(pre, lang));
                    }
                }
            }
            i = i + 1;
        }
        assert(fs.take(fs.len() as int) =~= fs);
        self.generate_recommendations(&mut a);
        assert(strs(a.recommendations@) =~= recommendations_for(a));
        a
    }
}

} // verus!
