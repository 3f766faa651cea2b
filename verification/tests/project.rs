use annotate_snippets::{Level, Renderer, Snippet};
use cairo_lang_filesystem::cfg::{Cfg, CfgSet};
use cairo_lint_core::diagnostics::{finish_rendered, format_diagnostic, RenderStyle, Severity};
use cairo_lint_core::fix::dispatch::SemanticDiagnosticKind;
use cairo_lint_core::project::{
    build_project_config, compilation_units_to_lint, diagnostic_is_shown, find_testable_targets,
    to_cairo_cfg, to_cairo_edition, CompilationUnitMetadata, ComponentMetadata, Edition,
    PackageMetadata, ScarbCfg, TargetMetadata,
};

fn target(kind: &str, name: &str) -> TargetMetadata {
    TargetMetadata {
        kind: kind.to_string(),
        name: name.to_string(),
        source_path: format!("src/{name}.cairo"),
        params: "{}".to_string(),
    }
}

fn package(id: &str, name: &str, edition: Option<&str>, deps: &[&str], targets: Vec<TargetMetadata>) -> PackageMetadata {
    PackageMetadata {
        id: id.to_string(),
        name: name.to_string(),
        version: "1.0.0".to_string(),
        edition: edition.map(|e| e.to_string()),
        dependencies: deps.iter().map(|d| d.to_string()).collect(),
        targets,
    }
}

fn component(name: &str, package: &str, cfg: Option<Vec<ScarbCfg>>) -> ComponentMetadata {
    ComponentMetadata {
        name: name.to_string(),
        package: package.to_string(),
        source_root: format!("/src/{name}"),
        cfg,
    }
}

fn unit(package: &str, target: TargetMetadata, components: Vec<ComponentMetadata>) -> CompilationUnitMetadata {
    CompilationUnitMetadata { package: package.to_string(), target, cfg: vec![], components }
}

#[test]
fn to_cairo_cfg_holds_each_option() {
    let set = to_cairo_cfg(&vec![
        ScarbCfg::KV("target".to_string(), "test".to_string()),
        ScarbCfg::Name("docs".to_string()),
        ScarbCfg::Name("docs".to_string()),
    ]);
    let expected: CfgSet = [Cfg::kv("target", "test"), Cfg::name("docs")].into_iter().collect();
    assert_eq!(set, expected);
    assert_eq!(set.len(), 2);
    assert!(to_cairo_cfg(&vec![]).is_empty());
}

#[test]
fn to_cairo_edition_knows_each_edition() {
    assert_eq!(to_cairo_edition("2023_01").unwrap(), Edition::V2023_01);
    assert_eq!(to_cairo_edition("2023_10").unwrap(), Edition::V2023_10);
    assert_eq!(to_cairo_edition("2023_11").unwrap(), Edition::V2023_11);
    assert_eq!(to_cairo_edition("2024_07").unwrap(), Edition::V2024_07);
}

#[test]
fn to_cairo_edition_rejects_unknown_names() {
    let err = to_cairo_edition("2025_01").unwrap_err();
    assert_eq!(err.edition, "2025_01");
    assert_eq!(err.message(), "Unknown edition 2025_01");
}

#[test]
fn build_project_config_skips_corelib_root() {
    let packages = vec![
        package("app 1.0.0", "app", Some("2023_10"), &["dep", "missing"], vec![target("lib", "app")]),
        package("dep 2.0.0", "dep", None, &[], vec![target("lib", "dep")]),
        package("core 2.8.0", "core", None, &[], vec![]),
    ];
    let u = unit(
        "app 1.0.0",
        target("lib", "app"),
        vec![
            component("app", "app 1.0.0", Some(vec![ScarbCfg::Name("x".to_string())])),
            component("dep", "dep 2.0.0", None),
            component("core", "core 2.8.0", None),
        ],
    );
    let config = build_project_config(
        &u,
        "core 2.8.0",
        "/corelib".to_string(),
        "/project".to_string(),
        Edition::V2024_07,
        "0.1.0",
        &packages,
    )
    .unwrap();
    assert_eq!(config.base_path, "/project");
    assert_eq!(config.corelib, "/corelib");
    assert_eq!(
        config.crate_roots,
        vec![("app".to_string(), "/src/app".to_string()), ("dep".to_string(), "/src/dep".to_string())]
    );
    assert_eq!(config.crates_config.len(), 3);
    let entries: Vec<_> = config.crates_config.iter().collect();
    let (name, app) = entries[0];
    assert_eq!(name.as_str(), "app");
    assert_eq!(app.edition, Edition::V2023_10);
    assert_eq!(app.version.as_deref(), Some("0.1.0"));
    assert_eq!(app.cfg_set.as_ref().unwrap(), &[Cfg::name("x")].into_iter().collect::<CfgSet>());
    let mut deps = app.dependencies.clone();
    deps.sort();
    assert_eq!(
        deps,
        vec![
            ("app".to_string(), Some("1.0.0".to_string())),
            ("dep".to_string(), Some("1.0.0".to_string())),
        ]
    );
    let (name, dep) = entries[1];
    assert_eq!(name.as_str(), "dep");
    assert_eq!(dep.edition, Edition::V2024_07);
    assert!(dep.cfg_set.is_none());
    assert!(!dep.negative_impls && !dep.coupons);
    assert_eq!(entries[2].0.as_str(), "core");
}

#[test]
fn build_project_config_keeps_one_entry_per_crate_name() {
    let packages = vec![
        package("app 1.0.0", "app", Some("2023_10"), &[], vec![target("lib", "app")]),
        package("dep 2.0.0", "dep", None, &[], vec![target("lib", "dep")]),
    ];
    let u = unit(
        "app 1.0.0",
        target("lib", "app"),
        vec![
            component("app", "app 1.0.0", Some(vec![ScarbCfg::Name("x".to_string())])),
            component("dep", "dep 2.0.0", None),
            component("app", "dep 2.0.0", None),
        ],
    );
    let config = build_project_config(
        &u,
        "core 2.8.0",
        "/corelib".to_string(),
        "/project".to_string(),
        Edition::V2024_07,
        "0.1.0",
        &packages,
    )
    .unwrap();
    let entries: Vec<_> = config.crates_config.iter().collect();
    assert_eq!(entries.len(), 2);
    assert_eq!(entries[0].0.as_str(), "app");
    assert_eq!(entries[1].0.as_str(), "dep");
    // The later component of the same name gives the settings.
    assert_eq!(entries[0].1.edition, Edition::V2024_07);
    assert!(entries[0].1.cfg_set.is_none());
}

#[test]
fn find_testable_targets_keeps_test_targets_in_order() {
    let p = package(
        "p",
        "p",
        None,
        &[],
        vec![target("lib", "p"), target("test", "unit"), target("starknet-contract", "c"), target("test", "it")],
    );
    let names: Vec<&str> = find_testable_targets(&p).iter().map(|t| t.name.as_str()).collect();
    assert_eq!(names, vec!["unit", "it"]);
}

#[test]
fn compilation_units_to_lint_without_tests_takes_the_first_unit() {
    let p = package("p", "p", None, &[], vec![target("lib", "p"), target("test", "unit")]);
    let units = vec![
        unit("q", target("lib", "q"), vec![]),
        unit("p", target("lib", "p"), vec![]),
        unit("p", target("test", "unit"), vec![]),
    ];
    assert_eq!(compilation_units_to_lint(&units, &p, false), vec![1]);
}

#[test]
fn compilation_units_to_lint_with_tests_adds_test_targets() {
    let p = package("p", "p", None, &[], vec![target("lib", "p"), target("test", "unit")]);
    let units = vec![
        unit("q", target("lib", "q"), vec![]),
        unit("p", target("lib", "p"), vec![]),
        unit("p_tests", target("test", "unit"), vec![]),
        unit("r", target("test", "other"), vec![]),
    ];
    assert_eq!(compilation_units_to_lint(&units, &p, true), vec![1, 2]);
}

#[test]
fn diagnostic_is_shown_hides_panics_unless_asked() {
    let panic = "Leaving `panic` in the code is discouraged.";
    assert!(!diagnostic_is_shown(Some(panic), false));
    assert!(diagnostic_is_shown(Some(panic), true));
    assert!(diagnostic_is_shown(Some("unnecessary double parentheses found. Consider removing them."), false));
    assert!(diagnostic_is_shown(None, false));
}

#[test]
fn finish_rendered_ends_the_line() {
    assert_eq!(finish_rendered("warning: x".to_string()), "warning: x\n");
    assert_eq!(finish_rendered(String::new()), "\n");
}

#[test]
fn format_diagnostic_prints_nothing_for_unsupported_allow() {
    let out = format_diagnostic(
        &SemanticDiagnosticKind::UnsupportedAllowAttrArguments,
        Severity::Warning,
        "unsupported",
        "fn f() {}",
        "lib.cairo",
        0,
        2,
        RenderStyle::Plain,
    );
    assert_eq!(out, "");
}

#[test]
fn format_diagnostic_renders_message_over_source() {
    let source = "fn main() {\n    let x = ((1));\n}\n";
    let start = source.find("((1))").unwrap();
    let end = start + 5;
    let out = format_diagnostic(
        &SemanticDiagnosticKind::Other,
        Severity::Warning,
        "unnecessary double parentheses",
        source,
        "lib.cairo",
        start,
        end,
        RenderStyle::Plain,
    );
    let level = Level::Warning;
    let expected = Renderer::plain()
        .render(
            level.title("unnecessary double parentheses").snippet(
                Snippet::source(source).line_start(1).origin("lib.cairo").fold(true).annotation(level.span(start..end)),
            ),
        )
        .to_string();
    assert_eq!(out, format!("{expected}\n"));
    assert!(out.starts_with("warning: unnecessary double parentheses"));
    assert!(out.contains("lib.cairo:2:13"));
    assert!(out.contains("let x = ((1));"));
    let err = format_diagnostic(
        &SemanticDiagnosticKind::Other,
        Severity::Error,
        "bad",
        source,
        "lib.cairo",
        start,
        end,
        RenderStyle::Styled,
    );
    assert!(err.ends_with('\n'));
    assert!(err.contains("bad"));
}

fn strip_escapes(s: &str) -> String {
    let mut out = String::new();
    let mut inside = false;
    for c in s.chars() {
        if inside {
            inside = c != 'm';
        } else if c == '\u{1b}' {
            inside = true;
        } else {
            out.push(c);
        }
    }
    out
}

#[test]
fn styled_diagnostic_reads_as_the_plain_one() {
    let source = "fn main() {\n    let x = ((1));\n}\n";
    let start = source.find("((1))").unwrap();
    for severity in [Severity::Warning, Severity::Error] {
        let styled = format_diagnostic(&SemanticDiagnosticKind::Other, severity, "msg", source, "lib.cairo", start, start + 5, RenderStyle::Styled);
        let plain = format_diagnostic(&SemanticDiagnosticKind::Other, severity, "msg", source, "lib.cairo", start, start + 5, RenderStyle::Plain);
        assert!(styled.contains('\u{1b}'));
        assert_eq!(strip_escapes(&styled), plain);
    }
    let warning = format_diagnostic(&SemanticDiagnosticKind::Other, Severity::Warning, "msg", source, "lib.cairo", start, start + 5, RenderStyle::Plain);
    assert!(warning.starts_with("warning: msg"));
    let error = format_diagnostic(&SemanticDiagnosticKind::Other, Severity::Error, "msg", source, "lib.cairo", start, start + 5, RenderStyle::Plain);
    assert!(error.starts_with("error: msg"));
}
