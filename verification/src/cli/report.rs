//! The text report that `analyze` prints.

use crate::cli::analyze::{NodeProjectInfo, PackageManager, ProjectAnalysis, ProjectType, RustProjectInfo};
use crate::documents::copy_string;
use crate::text::{decimal_nat, join_with, joined_with, owned, strs, u64_to_decimal};
use vstd::prelude::*;

verus! {

/// The name printed for a project type.
pub open spec fn project_type_name(t: ProjectType) -> Seq<char> {
    match t {
        ProjectType::RustApplication => "RustApplication"@,
        ProjectType::RustLibrary => "RustLibrary"@,
        ProjectType::RustWorkspace => "RustWorkspace"@,
        ProjectType::NodeApplication => "NodeApplication"@,
        ProjectType::NodeLibrary => "NodeLibrary"@,
        ProjectType::Unknown => "Unknown"@,
    }
}

/// Different project types are printed under different names.
pub proof fn lemma_project_type_names_distinct(a: ProjectType, b: ProjectType)
    ensures
        project_type_name(a) == project_type_name(b) ==> a == b,
{
    reveal_strlit("RustApplication");
    reveal_strlit("RustLibrary");
    reveal_strlit("RustWorkspace");
    reveal_strlit("NodeApplication");
    reveal_strlit("NodeLibrary");
    reveal_strlit("Unknown");
    if project_type_name(a) == project_type_name(b) {
        let na = project_type_name(a);
        let nb = project_type_name(b);
        assert(na.len() == nb.len());
        assert(na[0] == nb[0]);
        assert(na[4] == nb[4]);
    }
}

/// The name printed for a package manager.
pub open spec fn package_manager_name(p: PackageManager) -> Seq<char> {
    match p {
        PackageManager::Npm => "Npm"@,
        PackageManager::Pnpm => "Pnpm"@,
        PackageManager::Yarn => "Yarn"@,
        PackageManager::Unknown => "Unknown"@,
    }
}

/// Different package managers are printed under different names, and none
/// is printed as another's: each name tells its manager.
pub proof fn lemma_package_manager_names_distinct(a: PackageManager, b: PackageManager)
    ensures
        package_manager_name(a) == package_manager_name(b) ==> a == b,
{
    reveal_strlit("Npm");
    reveal_strlit("Pnpm");
    reveal_strlit("Yarn");
    reveal_strlit("Unknown");
    if package_manager_name(a) == package_manager_name(b) {
        let na = package_manager_name(a);
        let nb = package_manager_name(b);
        assert(na.len() == nb.len());
        assert(na[0] == nb[0]);
    }
}

/// `line` alone when `cond` holds, otherwise nothing.
pub open spec fn line_if(cond: bool, line: Seq<char>) -> Seq<Seq<char>> {
    if cond {
        seq![line]
    } else {
        seq![]
    }
}

/// `prefix` and the value, when there is one.
pub open spec fn opt_line(prefix: Seq<char>, value: Option<String>) -> Seq<Seq<char>> {
    match value {
        Some(v) => seq![prefix + v@],
        None => seq![],
    }
}

/// A rule of fifty double lines.
pub open spec fn rule() -> Seq<char> {
    Seq::new(50, |i: int| '═')
}

/// The heading lines of the report.
pub open spec fn report_head(a: ProjectAnalysis) -> Seq<Seq<char>> {
    seq![
        "\n🔍 Project Analysis Report"@,
        rule(),
        "📁 Path: "@ + a.project_path@,
        "🏷️  Type: "@ + project_type_name(a.project_type),
        "📄 Files: "@ + decimal_nat(a.file_count as nat) + " ("@ + decimal_nat(a.total_lines as nat)
            + " total lines)"@,
        "🌐 Primary Language: "@ + a.primary_language@,
    ]
}

/// The line of one language.
pub open spec fn language_line(entry: (String, usize)) -> Seq<char> {
    "   "@ + entry.0@ + ": "@ + decimal_nat(entry.1 as nat) + " lines"@
}

/// The language lines of the report.
pub open spec fn report_languages(langs: Seq<(String, usize)>) -> Seq<Seq<char>> {
    if langs.len() == 0 {
        seq![]
    } else {
        seq!["\n📊 Languages Detected:"@] + langs.map_values(|e: (String, usize)| language_line(e))
    }
}

/// The lines about a Rust manifest.
pub open spec fn report_rust(r: RustProjectInfo) -> Seq<Seq<char>> {
    seq!["\n🦀 Rust Project Information:"@] + opt_line("   Package: "@, r.package_name) + seq![
        "   Workspace: "@ + if r.is_workspace {
            "Yes"@
        } else {
            "No"@
        },
    ] + line_if(
        r.is_workspace && r.workspace_members@.len() > 0,
        "   Members: "@ + joined_with(strs(r.workspace_members@), ", "@),
    ) + line_if(
        r.dependencies@.len() > 0,
        "   Dependencies: "@ + decimal_nat(r.dependencies@.len()),
    ) + line_if(r.lib_target, "   Library: Yes"@) + line_if(
        r.bin_targets@.len() > 0,
        "   Binaries: "@ + joined_with(strs(r.bin_targets@), ", "@),
    )
}

/// The lines about a package manifest.
pub open spec fn report_node(n: NodeProjectInfo) -> Seq<Seq<char>> {
    seq!["\n🟢 Node.js Project Information:"@] + opt_line("   Package: "@, n.package_name) + opt_line(
        "   Version: "@,
        n.version,
    ) + seq!["   Package Manager: "@ + package_manager_name(n.package_manager)] + line_if(
        n.dependencies@.len() > 0,
        "   Dependencies: "@ + decimal_nat(n.dependencies@.len()),
    ) + line_if(n.has_typescript, "   TypeScript: Yes"@) + line_if(
        n.scripts@.len() > 0,
        "   Scripts: "@ + decimal_nat(n.scripts@.len()),
    )
}

/// The recommendation lines of the report.
pub open spec fn report_recommendations(recs: Seq<String>) -> Seq<Seq<char>> {
    if recs.len() == 0 {
        seq![]
    } else {
        seq!["\n💡 Recommendations:"@] + recs.map_values(|r: String| "   • "@ + r@)
    }
}

/// The report of an analysis, one printed line per element.
pub open spec fn analysis_report_of(a: ProjectAnalysis) -> Seq<Seq<char>> {
    report_head(a) + report_languages(a.languages@) + match a.rust_info {
        Some(r) => report_rust(r),
        None => seq![],
    } + match a.node_info {
        Some(n) => report_node(n),
        None => seq![],
    } + report_recommendations(a.recommendations@) + seq![seq![]]
}

fn text2(a: &str, b: &str) -> (s: String)
    ensures
        s@ == a@ + b@,
{
    let mut s = owned(a);
    s.append(b);
    s
}

fn count_text(n: usize) -> (s: String)
    ensures
        s@ == decimal_nat(n as nat),
{
    u64_to_decimal(n as u64)
}

fn push_line(lines: &mut Vec<String>, line: String)
    ensures
        strs(final(lines)@) == strs(old(lines)@).push(line@),
{
    lines.push(line);
    assert(strs(lines@) =~= strs(old(lines)@).push(line@));
}

fn push_rule(lines: &mut Vec<String>)
    ensures
        strs(final(lines)@) == strs(old(lines)@).push(rule()),
{
    let mut r = String::new();
    let mut i: usize = 0;
    while i < 50
        invariant
            i <= 50,
            r@ == Seq::new(i as nat, |k: int| '═'),
        decreases 50 - i,
    {
        r.append("═");
        proof {
            reveal_strlit("═");
            assert(r@ =~= Seq::new((i + 1) as nat, |k: int| '═'));
        }
        i = i + 1;
    }
    push_line(lines, r);
}

fn push_if(lines: &mut Vec<String>, cond: bool, line: String)
    ensures
        strs(final(lines)@) == strs(old(lines)@) + line_if(cond, line@),
{
    if cond {
        lines.push(line);
    }
    assert(strs(lines@) =~= strs(old(lines)@) + line_if(cond, line@));
}

fn optional_line(prefix: &str, value: &Option<String>) -> (r: (bool, String))
    ensures
        line_if(r.0, r.1@) == opt_line(prefix@, *value),
{
    match value {
        Some(v) => (true, text2(prefix, v.as_str())),
        None => (false, String::new()),
    }
}

#[verifier::spinoff_prover]
fn push_rust(lines: &mut Vec<String>, r: &RustProjectInfo)
    ensures
        strs(final(lines)@) == strs(old(lines)@) + report_rust(*r),
{
    let ghost start = strs(lines@);
    let ghost p1: Seq<Seq<char>> = seq!["\n🦀 Rust Project Information:"@];
    let ghost p2 = opt_line("   Package: "@, r.package_name);
    let ghost p3: Seq<Seq<char>> = seq![
        "   Workspace: "@ + if r.is_workspace {
            "Yes"@
        } else {
            "No"@
        },
    ];
    let ghost p4 = line_if(
        r.is_workspace && r.workspace_members@.len() > 0,
        "   Members: "@ + joined_with(strs(r.workspace_members@), ", "@),
    );
    let ghost p5 = line_if(r.dependencies@.len() > 0, "   Dependencies: "@ + decimal_nat(r.dependencies@.len()));
    let ghost p6 = line_if(r.lib_target, "   Library: Yes"@);
    let ghost p7 = line_if(r.bin_targets@.len() > 0, "   Binaries: "@ + joined_with(strs(r.bin_targets@), ", "@));
    push_if(lines, true, owned("\n🦀 Rust Project Information:"));
    let (has_name, name_line) = optional_line("   Package: ", &r.package_name);
    push_if(lines, has_name, name_line);
    push_if(lines, true, text2("   Workspace: ", if r.is_workspace { "Yes" } else { "No" }));
    let members = join_with(&r.workspace_members, ", ");
    push_if(lines, r.is_workspace && r.workspace_members.len() > 0, text2("   Members: ", members.as_str()));
    let deps = count_text(r.dependencies.len());
    push_if(lines, r.dependencies.len() > 0, text2("   Dependencies: ", deps.as_str()));
    push_if(lines, r.lib_target, owned("   Library: Yes"));
    let bins = join_with(&r.bin_targets, ", ");
    push_if(lines, r.bin_targets.len() > 0, text2("   Binaries: ", bins.as_str()));
    proof {
        assert(report_rust(*r) == p1 + p2 + p3 + p4 + p5 + p6 + p7);
        assert(strs(lines@) == start + p1 + p2 + p3 + p4 + p5 + p6 + p7);
        assert(start + p1 + p2 + p3 + p4 + p5 + p6 + p7 =~= start + (p1 + p2 + p3 + p4 + p5 + p6 + p7));
    }
}

#[verifier::spinoff_prover]
fn push_node(lines: &mut Vec<String>, n: &NodeProjectInfo)
    ensures
        strs(final(lines)@) == strs(old(lines)@) + report_node(*n),
{
    let ghost start = strs(lines@);
    let ghost p1: Seq<Seq<char>> = seq!["\n🟢 Node.js Project Information:"@];
    let ghost p2 = opt_line("   Package: "@, n.package_name);
    let ghost p3 = opt_line("   Version: "@, n.version);
    let ghost p4: Seq<Seq<char>> = seq!["   Package Manager: "@ + package_manager_name(n.package_manager)];
    let ghost p5 = line_if(n.dependencies@.len() > 0, "   Dependencies: "@ + decimal_nat(n.dependencies@.len()));
    let ghost p6 = line_if(n.has_typescript, "   TypeScript: Yes"@);
    let ghost p7 = line_if(n.scripts@.len() > 0, "   Scripts: "@ + decimal_nat(n.scripts@.len()));
    push_if(lines, true, owned("\n🟢 Node.js Project Information:"));
    let (has_name, name_line) = optional_line("   Package: ", &n.package_name);
    push_if(lines, has_name, name_line);
    let (has_version, version_line) = optional_line("   Version: ", &n.version);
    push_if(lines, has_version, version_line);
    let pm = match n.package_manager {
        PackageManager::Npm => "Npm",
        PackageManager::Pnpm => "Pnpm",
        PackageManager::Yarn => "Yarn",
        PackageManager::Unknown => "Unknown",
    };
    push_if(lines, true, text2("   Package Manager: ", pm));
    let deps = count_text(n.dependencies.len());
    push_if(lines, n.dependencies.len() > 0, text2("   Dependencies: ", deps.as_str()));
    push_if(lines, n.has_typescript, owned("   TypeScript: Yes"));
    let scripts = count_text(n.scripts.len());
    push_if(lines, n.scripts.len() > 0, text2("   Scripts: ", scripts.as_str()));
    proof {
        assert(report_node(*n) == p1 + p2 + p3 + p4 + p5 + p6 + p7);
        assert(strs(lines@) == start + p1 + p2 + p3 + p4 + p5 + p6 + p7);
        assert(start + p1 + p2 + p3 + p4 + p5 + p6 + p7 =~= start + (p1 + p2 + p3 + p4 + p5 + p6 + p7));
    }
}

/// The text report of an analysis, one printed line per element.
pub fn analysis_report(a: &ProjectAnalysis) -> (lines: Vec<String>)
    ensures
        strs(lines@) == analysis_report_of(*a),
{
    let mut lines: Vec<String> = Vec::new();
    push_line(&mut lines, owned("\n🔍 Project Analysis Report"));
    push_rule(&mut lines);
    push_line(&mut lines, text2("📁 Path: ", a.project_path.as_str()));
    let kind_name = match a.project_type {
        ProjectType::RustApplication => "RustApplication",
        ProjectType::RustLibrary => "RustLibrary",
        ProjectType::RustWorkspace => "RustWorkspace",
        ProjectType::NodeApplication => "NodeApplication",
        ProjectType::NodeLibrary => "NodeLibrary",
        ProjectType::Unknown => "Unknown",
    };
    push_line(&mut lines, text2("🏷️  Type: ", kind_name));
    let files = count_text(a.file_count);
    let total = count_text(a.total_lines);
    let mut counts = text2("📄 Files: ", files.as_str());
    counts.append(" (");
    counts.append(total.as_str());
    counts.append(" total lines)");
    push_line(&mut lines, counts);
    push_line(&mut lines, text2("🌐 Primary Language: ", a.primary_language.as_str()));
    let ghost head = strs(lines@);
    assert(head =~= report_head(*a));
    if a.languages.len() > 0 {
        push_line(&mut lines, owned("\n📊 Languages Detected:"));
        let ghost base = strs(lines@);
        let mut i: usize = 0;
        while i < a.languages.len()
            invariant
                i <= a.languages@.len(),
                strs(lines@) == base + a.languages@.take(i as int).map_values(|e: (String, usize)| language_line(e)),
            decreases a.languages@.len() - i,
        {
            let count = count_text(a.languages[i].1);
            let mut l = text2("   ", a.languages[i].0.as_str());
            l.append(": ");
            l.append(count.as_str());
            l.append(" lines");
            assert(l@ == language_line(a.languages@[i as int]));
            push_line(&mut lines, l);
            assert(a.languages@.take(i + 1).map_values(|e: (String, usize)| language_line(e)) =~= a.languages@.take(
                i as int,
            ).map_values(|e: (String, usize)| language_line(e)).push(language_line(a.languages@[i as int])));
            i = i + 1;
        }
        assert(a.languages@.take(a.languages@.len() as int) =~= a.languages@);
    }
    assert(strs(lines@) =~= head + report_languages(a.languages@));
    let ghost after_langs = strs(lines@);
    if let Some(r) = &a.rust_info {
        push_rust(&mut lines, r);
    }
    let ghost after_rust = strs(lines@);
    assert(after_rust =~= after_langs + match a.rust_info {
        Some(r) => report_rust(r),
        None => seq![],
    });
    if let Some(n) = &a.node_info {
        push_node(&mut lines, n);
    }
    let ghost after_node = strs(lines@);
    assert(after_node =~= after_rust + match a.node_info {
        Some(n) => report_node(n),
        None => seq![],
    });
    if a.recommendations.len() > 0 {
        push_line(&mut lines, owned("\n💡 Recommendations:"));
        let ghost base = strs(lines@);
        let mut i: usize = 0;
        while i < a.recommendations.len()
            invariant
                i <= a.recommendations@.len(),
                strs(lines@) == base + a.recommendations@.take(i as int).map_values(|r: String| "   • "@ + r@),
            decreases a.recommendations@.len() - i,
        {
            push_line(&mut lines, text2("   • ", a.recommendations[i].as_str()));
            assert(a.recommendations@.take(i + 1).map_values(|r: String| "   • "@ + r@) =~= a.recommendations@.take(
                i as int,
            ).map_values(|r: String| "   • "@ + r@).push("   • "@ + a.recommendations@[i as int]@));
            i = i + 1;
        }
        assert(a.recommendations@.take(a.recommendations@.len() as int) =~= a.recommendations@);
    }
    assert(strs(lines@) =~= after_node + report_recommendations(a.recommendations@));
    push_line(&mut lines, String::new());
    assert(strs(lines@) =~= analysis_report_of(*a));
    lines
}

} // verus!
