use js::cx::ClassSpec;
use js::rt::rt;
use js::JsError;

fn global_class() -> ClassSpec {
    ClassSpec { name: b"global".to_vec(), flags: 0 }
}

#[test]
fn successful_evaluation_reports_nothing() {
    let mut r = rt();
    let mut cx = r.cx();
    cx.set_default_options_and_version();
    cx.set_logging_error_reporter();
    let comp = cx.new_compartment(global_class(), 1, true).unwrap();

    let source = b"debug(22);".to_vec();
    let result = cx.evaluate_script(comp.global, &source, &b"test".to_vec(), 1, true);
    assert_eq!(result, Ok(()));
    assert_eq!(cx.reports.len(), 0);
}

#[test]
fn syntax_error_fails_with_one_report_at_line_one() {
    let mut r = rt();
    let mut cx = r.cx();
    cx.set_default_options_and_version();
    cx.set_logging_error_reporter();
    let comp = cx.new_compartment(global_class(), 1, true).unwrap();

    // the engine, compiling `debug(22;`, delivers one report through the
    // installed reporter and then returns failure
    let source = b"debug(22;".to_vec();
    cx.report_error(Some(b"test".to_vec()), 1, b"syntax error".to_vec());
    let result = cx.evaluate_script(comp.global, &source, &b"test".to_vec(), 1, false);

    assert_eq!(result, Err(JsError::Engine));
    assert_eq!(cx.reports.len(), 1);
    assert_eq!(cx.reports[0].filename.as_slice(), b"test");
    assert_eq!(cx.reports[0].lineno, 1);
    assert_eq!(cx.reports[0].message.as_slice(), b"syntax error");
}

#[test]
fn report_without_filename_records_none() {
    let mut r = rt();
    let mut cx = r.cx();
    cx.set_logging_error_reporter();
    cx.report_error(None, 3, b"oops".to_vec());
    assert_eq!(cx.reports.len(), 1);
    assert_eq!(cx.reports[0].filename.as_slice(), b"none");
    assert_eq!(cx.reports[0].lineno, 3);
}

#[test]
fn reports_accumulate_in_order() {
    let mut r = rt();
    let mut cx = r.cx();
    cx.set_logging_error_reporter();
    cx.report_error(Some(b"a.js".to_vec()), 1, b"first".to_vec());
    cx.report_error(Some(b"b.js".to_vec()), 2, b"second".to_vec());
    assert_eq!(cx.reports.len(), 2);
    assert_eq!(cx.reports[0].filename.as_slice(), b"a.js");
    assert_eq!(cx.reports[1].filename.as_slice(), b"b.js");
    assert_eq!(cx.reports[1].lineno, 2);
}

#[test]
fn reporter_installation_is_recorded() {
    let mut r = rt();
    let mut cx = r.cx();
    assert_eq!(cx.reporter, js::cx::Reporter::Unset);
    cx.set_error_reporter(0x77);
    assert_eq!(cx.reporter, js::cx::Reporter::Custom(0x77));
    cx.set_logging_error_reporter();
    assert_eq!(cx.reporter, js::cx::Reporter::Logging);
}

#[test]
fn failed_standard_class_init_leaves_context_unchanged() {
    let mut r = rt();
    let mut cx = r.cx();
    let result = cx.new_compartment(global_class(), 1, false);
    assert_eq!(result.err(), Some(JsError::Engine));
    // the abandoned global was never rooted and the private slot is unset
    assert_eq!(cx.roots.slots.len(), 0);
    assert_eq!(cx.get_cx_private(), 0);
}
