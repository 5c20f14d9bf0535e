use typsy::error::{diagnostics_to_strings, format_diagnostics, Diagnostic, TypsyError};
use typsy::inject::{head_injection, inject_html, HEAD_INJECT, LIVE_RELOAD_SCRIPT};
use typsy::paths::{is_source_file, output_path, page_file_name, plan_targets};
use typsy::pass::{BuildPass, PassAction, PassEvent, PassStage};
use typsy::report::{compile_failure, export_failure, is_suppressed_warning, BuildReport};
use typsy::text::{chars_of, find_first, str_contains, str_ends_with};
use typsy::watch::{WatchAction, WatchEvent, WatchState};

fn strs(v: &[&str]) -> Vec<String> {
    v.iter().map(|s| s.to_string()).collect()
}

#[test]
fn format_diagnostics_lists_each_line() {
    let d = strs(&["unknown variable", "expected expression"]);
    assert_eq!(
        format_diagnostics(&d),
        "  - unknown variable\n  - expected expression"
    );
}

#[test]
fn format_diagnostics_empty_is_empty() {
    assert_eq!(format_diagnostics(&[]), "");
}

#[test]
fn diagnostics_carry_their_hints() {
    let diags = vec![
        Diagnostic { message: "unknown variable: x".to_string(), hints: strs(&["declare it", "or import it"]) },
        Diagnostic { message: "bad".to_string(), hints: vec![] },
    ];
    let r = diagnostics_to_strings(&diags);
    assert_eq!(
        r,
        strs(&["unknown variable: x (hint: declare it) (hint: or import it)", "bad"])
    );
}

#[test]
fn error_messages() {
    let io = TypsyError::Io { path: "out".to_string(), source: "permission denied".to_string() };
    assert_eq!(io.message(), "IO error at out: permission denied");
    let c = TypsyError::TypstCompile { path: "content/a.typ".to_string(), diagnostics: strs(&["oops"]) };
    assert_eq!(c.message(), "typst compilation failed for content/a.typ:\n  - oops");
    let h = TypsyError::HtmlExport { path: "content/b.typ".to_string(), diagnostics: strs(&["x", "y"]) };
    assert_eq!(h.message(), "HTML export failed for content/b.typ:\n  - x\n  - y");
    assert_eq!(TypsyError::NoContentDir.message(), "no content/ directory found");
}

#[test]
fn compile_and_export_failures_keep_path_and_diagnostics() {
    let diags = vec![Diagnostic { message: "m".to_string(), hints: strs(&["h"]) }];
    match compile_failure("content/a.typ".to_string(), &diags) {
        TypsyError::TypstCompile { path, diagnostics } => {
            assert_eq!(path, "content/a.typ");
            assert_eq!(diagnostics, strs(&["m (hint: h)"]));
        }
        other => panic!("unexpected {:?}", other),
    }
    match export_failure("content/b.typ".to_string(), &diags) {
        TypsyError::HtmlExport { path, diagnostics } => {
            assert_eq!(path, "content/b.typ");
            assert_eq!(diagnostics, strs(&["m (hint: h)"]));
        }
        other => panic!("unexpected {:?}", other),
    }
}

#[test]
fn text_search() {
    let s = chars_of("abcabc");
    assert_eq!(s, vec!['a', 'b', 'c', 'a', 'b', 'c']);
    assert_eq!(find_first(&s, &chars_of("ca")), Some(2));
    assert_eq!(find_first(&s, &chars_of("bc")), Some(1));
    assert_eq!(find_first(&s, &chars_of("cb")), None);
    assert_eq!(find_first(&s, &chars_of("")), Some(0));
    assert!(str_contains("héllo wörld", "wö"));
    assert!(!str_contains("abc", "abcd"));
    assert!(str_ends_with("page.typ", ".typ"));
    assert!(!str_ends_with("page.typst", ".typ"));
}

#[test]
fn source_files_are_recognised_by_extension() {
    assert!(is_source_file("index.typ", "typ"));
    assert!(is_source_file("a.b.typ", "typ"));
    assert!(!is_source_file(".typ", "typ"));
    assert!(!is_source_file("style.css", "typ"));
    assert!(!is_source_file("typ", "typ"));
}

#[test]
fn index_source_maps_to_directory_index() {
    assert_eq!(page_file_name("_index.typ", "typ"), "index.html");
    assert_eq!(output_path(&strs(&["blog", "_index.typ"]), "typ"), strs(&["blog", "index.html"]));
    assert_eq!(output_path(&strs(&["_index.typ"]), "typ"), strs(&["index.html"]));
}

#[test]
fn other_sources_keep_their_path() {
    assert_eq!(page_file_name("about.typ", "typ"), "about.html");
    assert_eq!(page_file_name("v1.2.typ", "typ"), "v1.2.html");
    assert_eq!(
        output_path(&strs(&["blog", "2024", "post.typ"]), "typ"),
        strs(&["blog", "2024", "post.html"])
    );
    assert_eq!(page_file_name("x_index.typ", "typ"), "x_index.html");
}

#[test]
fn index_and_about_pages_are_both_planned() {
    let sources = vec![strs(&["index.typ"]), strs(&["about.typ"])];
    let targets = plan_targets(&sources, "typ");
    assert_eq!(targets, vec![strs(&["index.html"]), strs(&["about.html"])]);
}

#[test]
fn injection_goes_after_first_head_tag() {
    let page = "<html><head><title>t</title></head><body><p>x</p><head></body></html>";
    let r = inject_html(page, false);
    let expected = format!(
        "<html><head>{}<title>t</title></head><body><p>x</p><head></body></html>",
        HEAD_INJECT
    );
    assert_eq!(r, expected);
}

#[test]
fn injection_accepts_upper_case_head() {
    let r = inject_html("<HTML><HEAD></HEAD><BODY>hi</BODY></HTML>", false);
    assert_eq!(r, format!("<HTML><HEAD>{}</HEAD><BODY>hi</BODY></HTML>", HEAD_INJECT));
}

#[test]
fn headless_page_is_wrapped_unchanged() {
    let content = "<h1>Hello</h1>";
    let r = inject_html(content, false);
    assert_eq!(
        r,
        format!(
            "<!DOCTYPE html><html lang=\"en\"><head>{}</head><body>{}</body></html>",
            HEAD_INJECT, content
        )
    );
    assert_eq!(r.matches("<head>").count(), 1);
    assert_eq!(r.matches("<body>").count(), 1);
}

#[test]
fn dev_mode_adds_reload_script() {
    let r = inject_html("<head></head><h1>Welcome</h1>", true);
    assert!(r.contains(HEAD_INJECT));
    assert!(r.contains(LIVE_RELOAD_SCRIPT));
    assert!(r.contains("/__typsy_reload"));
    assert_eq!(head_injection(true), format!("{}{}", HEAD_INJECT, LIVE_RELOAD_SCRIPT));
    assert_eq!(head_injection(false), HEAD_INJECT);
    let plain = inject_html("<head></head><h1>Welcome</h1>", false);
    assert!(!plain.contains(LIVE_RELOAD_SCRIPT));
}

#[test]
fn injection_is_repeatable() {
    let page = "<html><head></head><body>same</body></html>";
    assert_eq!(inject_html(page, true), inject_html(page, true));
}

#[test]
fn backend_notices_are_suppressed() {
    assert!(is_suppressed_warning("html export is under active development and incomplete"));
    assert!(is_suppressed_warning("image was ignored during HTML export"));
    assert!(!is_suppressed_warning("unused variable"));
}

fn io(path: &str) -> TypsyError {
    TypsyError::Io { path: path.to_string(), source: "permission denied".to_string() }
}

fn start_pages(sources: Vec<Vec<String>>) -> (BuildPass, PassAction) {
    let (mut pass, a) = BuildPass::start("out".to_string());
    assert_eq!(a, PassAction::PrepareOutput);
    let a = pass.step(PassEvent::Done, "typ");
    assert_eq!(a, PassAction::CopyStatic);
    let a = pass.step(PassEvent::Done, "typ");
    assert_eq!(a, PassAction::Discover);
    let a = pass.step(PassEvent::Discovered(sources), "typ");
    (pass, a)
}

#[test]
fn every_source_is_reported() {
    let sources = vec![strs(&["index.typ"]), strs(&["about.typ"]), strs(&["blog", "_index.typ"])];
    let (mut pass, a) = start_pages(sources);
    assert_eq!(a, PassAction::CompilePage(0));
    assert_eq!(pass.page_output(0), "out/index.html");
    assert_eq!(pass.page_output(1), "out/about.html");
    assert_eq!(pass.page_output(2), "out/blog/index.html");
    assert_eq!(pass.step(PassEvent::Done, "typ"), PassAction::InjectPage(0));
    assert_eq!(pass.step(PassEvent::Done, "typ"), PassAction::CompilePage(1));
    assert_eq!(pass.step(PassEvent::Failed(io("content/about.typ")), "typ"), PassAction::CompilePage(2));
    assert_eq!(pass.step(PassEvent::Done, "typ"), PassAction::InjectPage(2));
    assert_eq!(pass.step(PassEvent::Done, "typ"), PassAction::Finish);
    assert_eq!(pass.stage, PassStage::Finished);
    let report = pass.into_report();
    assert_eq!(report.successes, strs(&["out/index.html", "out/blog/index.html"]));
    assert_eq!(report.successes.len() + report.failures.len(), 3);
    assert_eq!(report.failures.len(), 1);
    match &report.failures[0] {
        TypsyError::Io { path, .. } => assert_eq!(path, "content/about.typ"),
        other => panic!("unexpected {:?}", other),
    }
    assert!(!report.succeeded());
}

#[test]
fn failed_injection_is_a_failure() {
    let (mut pass, _) = start_pages(vec![strs(&["index.typ"])]);
    assert_eq!(pass.step(PassEvent::Done, "typ"), PassAction::InjectPage(0));
    assert_eq!(pass.step(PassEvent::Failed(io("out/index.html")), "typ"), PassAction::Finish);
    let report = pass.into_report();
    assert!(report.successes.is_empty());
    assert_eq!(report.failures.len(), 1);
}

#[test]
fn index_and_about_pass_writes_both_pages() {
    let (mut pass, _) = start_pages(vec![strs(&["index.typ"]), strs(&["about.typ"])]);
    assert_eq!(pass.step(PassEvent::Done, "typ"), PassAction::InjectPage(0));
    assert_eq!(pass.step(PassEvent::Done, "typ"), PassAction::CompilePage(1));
    assert_eq!(pass.step(PassEvent::Done, "typ"), PassAction::InjectPage(1));
    assert_eq!(pass.step(PassEvent::Done, "typ"), PassAction::Finish);
    let report = pass.into_report();
    assert_eq!(report.successes, strs(&["out/index.html", "out/about.html"]));
    assert!(report.succeeded());
}

#[test]
fn empty_pass_succeeds() {
    let (pass, a) = start_pages(vec![]);
    assert_eq!(a, PassAction::Finish);
    let report = pass.into_report();
    assert!(report.successes.is_empty());
    assert!(report.failures.is_empty());
    assert!(report.succeeded());
}

#[test]
fn static_copy_failure_is_not_recorded() {
    let (mut pass, _) = BuildPass::start("out".to_string());
    pass.step(PassEvent::Done, "typ");
    assert_eq!(pass.step(PassEvent::Failed(io("out/style.css")), "typ"), PassAction::Discover);
    assert_eq!(pass.step(PassEvent::Discovered(vec![]), "typ"), PassAction::Finish);
    assert!(pass.into_report().succeeded());
}

#[test]
fn aborted_pass_has_one_failure() {
    let (mut pass, _) = BuildPass::start("out".to_string());
    assert_eq!(pass.step(PassEvent::Failed(io("out")), "typ"), PassAction::Finish);
    assert_eq!(pass.stage, PassStage::Aborted);
    assert_eq!(pass.step(PassEvent::Done, "typ"), PassAction::Finish);
    let report = pass.into_report();
    assert!(report.successes.is_empty());
    assert_eq!(report.failures.len(), 1);
    assert!(!report.succeeded());
}

#[test]
fn record_appends_in_order() {
    let mut report = BuildReport::new();
    report.record("a.html".to_string(), Ok(()));
    report.record("b.html".to_string(), Err(TypsyError::NoContentDir));
    report.record("c.html".to_string(), Ok(()));
    assert_eq!(report.successes, strs(&["a.html", "c.html"]));
    assert_eq!(report.failures.len(), 1);
}

#[test]
fn burst_of_changes_rebuilds_once() {
    for n in 1..6 {
        let mut state = WatchState::Idle;
        let mut rebuilds = 0;
        for _ in 0..n {
            let (s, a) = state.next(WatchEvent::Change);
            state = s;
            if a == WatchAction::RebuildAndReload {
                rebuilds += 1;
            }
            assert!(state.waits_with_timeout());
        }
        let (s, a) = state.next(WatchEvent::Quiet);
        assert_eq!(a, WatchAction::RebuildAndReload);
        assert_eq!(s, WatchState::Idle);
        assert_eq!(rebuilds, 0);
        assert!(!s.waits_with_timeout());
    }
}

#[test]
fn idle_watcher_ignores_quiet() {
    assert_eq!(WatchState::Idle.next(WatchEvent::Quiet), (WatchState::Idle, WatchAction::Wait));
}

#[test]
fn every_subscriber_gets_one_signal_per_rebuild() {
    let (tx, _keep) = tokio::sync::broadcast::channel::<()>(16);
    let mut clients: Vec<_> = (0..5).map(|_| tx.subscribe()).collect();
    tx.send(()).unwrap();
    for rx in clients.iter_mut() {
        assert_eq!(rx.try_recv(), Ok(()));
        assert!(rx.try_recv().is_err());
    }
}

#[test]
fn lagged_subscriber_resumes() {
    let (tx, _keep) = tokio::sync::broadcast::channel::<()>(16);
    let mut rx = tx.subscribe();
    for _ in 0..17 {
        tx.send(()).unwrap();
    }
    assert!(matches!(
        rx.try_recv(),
        Err(tokio::sync::broadcast::error::TryRecvError::Lagged(1))
    ));
    for _ in 0..16 {
        assert_eq!(rx.try_recv(), Ok(()));
    }
    tx.send(()).unwrap();
    assert_eq!(rx.try_recv(), Ok(()));
}
