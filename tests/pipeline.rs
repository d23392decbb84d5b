use typst_hugo::frontmatter::finish_page;
use typst_hugo::metadata::{extract_metadata, DocInfo, EmbeddedMeta};
use typst_hugo::paths::{export_jobs, html_output_path};
use typst_hugo::pipeline::{combine_exports, Action, ExportOutcome, Orchestrator, Phase};
use typst_hugo::CompileArgs;

fn args(themes: &[&str]) -> CompileArgs {
    CompileArgs {
        entry: "post.typ".to_string(),
        html_dir: "public".to_string(),
        asset_dir: "assets".to_string(),
        path_to_root: "/".to_string(),
        theme: themes.iter().map(|t| t.to_string()).collect(),
        front_matter: true,
        ..CompileArgs::default()
    }
}

fn run_to_export(o: &mut Orchestrator, rev: u64) {
    assert!(o.begin(rev));
    assert!(matches!(o.compiled(rev, true, vec![]), Action::Export));
}

#[test]
fn renders_only_when_every_export_succeeds() {
    let mut o = Orchestrator::new();
    run_to_export(&mut o, 1);
    let a = o.exported(1, &vec![ExportOutcome::Written, ExportOutcome::Written]);
    assert!(matches!(a, Action::Render));
    assert!(matches!(o.rendered(1, Ok(())), Action::Wait));
    assert_eq!(o.published, Some(1));

    run_to_export(&mut o, 2);
    let a = o.exported(2, &vec![ExportOutcome::Written, ExportOutcome::Failed(vec!["boom".to_string()])]);
    match a {
        Action::Report(d) => assert_eq!(d, vec!["boom".to_string()]),
        _ => panic!("a failed export must be reported"),
    }
    assert_eq!(o.phase, Phase::Idle);
    assert_eq!(o.published, Some(1));
    assert!(matches!(o.rendered(2, Ok(())), Action::Wait));
    assert_eq!(o.published, Some(1));
}

#[test]
fn compile_failure_reports_and_ends() {
    let mut o = Orchestrator::new();
    assert!(o.begin(4));
    match o.compiled(4, false, vec!["syntax".to_string()]) {
        Action::Report(d) => assert_eq!(d, vec!["syntax".to_string()]),
        _ => panic!("a failed compile must be reported"),
    }
    assert_eq!(o.phase, Phase::Idle);
    assert!(matches!(o.exported(4, &vec![]), Action::Wait));
}

#[test]
fn older_revisions_are_refused() {
    let mut o = Orchestrator::new();
    assert!(o.begin(5));
    assert!(!o.begin(6));
    assert!(matches!(o.compiled(5, false, vec![]), Action::Report(_)));
    assert!(!o.begin(5));
    assert!(!o.begin(3));
    assert!(o.begin(6));
    assert_eq!(o.last_revision, Some(6));
}

#[test]
fn render_failure_is_reported() {
    let mut o = Orchestrator::new();
    run_to_export(&mut o, 1);
    assert!(matches!(o.exported(1, &vec![ExportOutcome::Written]), Action::Render));
    match o.rendered(1, Err("disk full".to_string())) {
        Action::Report(d) => assert_eq!(d, vec!["disk full".to_string()]),
        _ => panic!("a failed render must be reported"),
    }
    assert_eq!(o.published, None);
}

#[test]
fn combined_result_gathers_all_failures() {
    assert_eq!(combine_exports(&vec![]), Ok(()));
    let outcomes = vec![
        ExportOutcome::Failed(vec!["a".to_string()]),
        ExportOutcome::Written,
        ExportOutcome::Failed(vec!["b".to_string(), "c".to_string()]),
    ];
    assert_eq!(combine_exports(&outcomes), Err(vec!["a".to_string(), "b".to_string(), "c".to_string()]));
}

#[test]
fn untitled_document_with_one_theme() {
    let a = args(&["light"]);
    let jobs = export_jobs(&a, true).unwrap();
    assert_eq!(jobs.len(), 1);
    assert!(jobs[0].artifact_path().ends_with(".light.multi.sir.in"));
    let info = DocInfo { title: Some("T".to_string()), author: vec![], date: None };
    let before = chrono::Local::now().date_naive().to_string();
    let m = extract_metadata(&EmbeddedMeta::default(), &info, &a, true, "Body", "").unwrap();
    let after = chrono::Local::now().date_naive().to_string();
    assert!(m.date == before || m.date == after);
    let page = finish_page(&m, format!("<title>{}</title>", m.title), a.front_matter);
    assert!(page.contains("T"));
    assert!(page.contains(&m.date));
    assert_eq!(html_output_path(&a, true), Some("public/post.html".to_string()));
}

#[test]
fn embedded_tags_and_draft_reach_the_header() {
    let a = args(&["light", "dark"]);
    assert_eq!(export_jobs(&a, true).unwrap().len(), 2);
    let embedded = EmbeddedMeta {
        tags: vec!["a".to_string(), "b".to_string()],
        draft: Some(true),
        ..EmbeddedMeta::default()
    };
    let m = extract_metadata(&embedded, &DocInfo::default(), &a, true, "Body", "").unwrap();
    let page = finish_page(&m, "<html></html>".to_string(), true);
    assert!(page.contains("\"tags\":[\"a\",\"b\"]"));
    assert!(page.contains("\"draft\":true"));
}

#[test]
fn failing_dark_theme_writes_no_page() {
    let mut o = Orchestrator::new();
    run_to_export(&mut o, 1);
    let a = o.exported(
        1,
        &vec![ExportOutcome::Written, ExportOutcome::Failed(vec!["dark exporter failed".to_string()])],
    );
    match a {
        Action::Report(d) => assert_eq!(d, vec!["dark exporter failed".to_string()]),
        _ => panic!("the failure must be reported"),
    }
    assert_eq!(o.published, None);
    assert_eq!(o.phase, Phase::Idle);
}
