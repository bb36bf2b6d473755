use content_tasks::export::{
    finish_export, plan_batch, plan_export, preview, BatchItem, ExportJob, ExportOptions,
    ExportResult,
};
use content_tasks::formats::{list_supported_formats, render, EncoderKind, EncoderRegistry};
use content_tasks::prompt::get_prompt_template;
use content_tasks::text::{decimal_string, str_eq};

fn options(format: &str, filename: Option<&str>) -> ExportOptions {
    ExportOptions {
        format: format.to_string(),
        filename: filename.map(|f| f.to_string()),
        metadata: None,
        styling: None,
    }
}

fn item(content: &str, title: Option<&str>, format: Option<&str>) -> BatchItem {
    BatchItem {
        content: content.to_string(),
        title: title.map(|t| t.to_string()),
        format: format.map(|f| f.to_string()),
    }
}

#[test]
fn txt_export_body_is_the_content() {
    let reg = EncoderRegistry::with_builtins();
    let job = plan_export(&reg, "Hello", &options("txt", Some("hello.txt")), 0).unwrap();
    assert_eq!(job.body.as_bytes(), b"Hello");
    assert_eq!(job.file_path, "./exports/hello.txt");
}

#[test]
fn default_filename_uses_time_and_format() {
    let reg = EncoderRegistry::with_builtins();
    let job = plan_export(&reg, "x", &options("markdown", None), 1700000000).unwrap();
    assert_eq!(job.file_path, "./exports/export_1700000000.markdown");
    assert_eq!(job.body, "x");
}

#[test]
fn html_export_wraps_content() {
    let reg = EncoderRegistry::with_builtins();
    let job = plan_export(&reg, "a<b", &options("html", Some("p.html")), 0).unwrap();
    assert_eq!(
        job.body,
        "<!DOCTYPE html><html><head><title>Export</title></head><body><pre>a<b</pre></body></html>"
    );
}

#[test]
fn unsupported_format_is_a_failed_result() {
    let reg = EncoderRegistry::with_builtins();
    let r = plan_export(&reg, "x", &options("pdf", None), 0).unwrap_err();
    assert!(!r.success);
    assert_eq!(r.error.as_deref(), Some("Unsupported format: pdf"));
    assert!(r.file_path.is_none());
    assert!(r.file_size.is_none());
}

#[test]
fn batch_isolates_failing_item() {
    let reg = EncoderRegistry::with_builtins();
    let items = vec![
        item("one", Some("a"), None),
        item("two", Some("b"), Some("rtf")),
        item("three", Some("c"), None),
    ];
    let plans = plan_batch(&reg, &items, &options("txt", None), 9);
    assert_eq!(plans.len(), 3);
    let results: Vec<ExportResult> = plans
        .into_iter()
        .map(|p| match p {
            Ok(job) => finish_export(job, Ok(3)),
            Err(r) => r,
        })
        .collect();
    assert!(results[0].success);
    assert!(!results[1].success);
    assert!(results[2].success);
    assert_eq!(results[0].file_path.as_deref(), Some("./exports/a_0.txt"));
    assert_eq!(results[1].error.as_deref(), Some("Unsupported format: rtf"));
    assert_eq!(results[2].file_path.as_deref(), Some("./exports/c_2.txt"));
}

#[test]
fn batch_item_without_title_uses_shared_filename() {
    let reg = EncoderRegistry::with_builtins();
    let items = vec![item("body", None, None)];
    let plans = plan_batch(&reg, &items, &options("html", Some("all.html")), 0);
    let job = plans.into_iter().next().unwrap().unwrap();
    assert_eq!(job.file_path, "./exports/all.html");
}

#[test]
fn empty_batch_gives_no_results() {
    let reg = EncoderRegistry::with_builtins();
    assert!(plan_batch(&reg, &vec![], &options("txt", None), 0).is_empty());
}

#[test]
fn finish_reports_size_or_error() {
    let job = ExportJob { file_path: "./exports/f.txt".to_string(), body: "abc".to_string() };
    let ok = finish_export(job.clone(), Ok(3));
    assert!(ok.success);
    assert_eq!(ok.file_size, Some(3));
    assert_eq!(ok.file_path.as_deref(), Some("./exports/f.txt"));
    assert!(ok.error.is_none());
    let bad = finish_export(job, Err("disk full".to_string()));
    assert!(!bad.success);
    assert_eq!(bad.error.as_deref(), Some("disk full"));
    assert!(bad.file_size.is_none());
}

#[test]
fn preview_by_format() {
    let reg = EncoderRegistry::with_builtins();
    assert_eq!(preview(&reg, "hi", &options("txt", None)), "hi");
    assert_eq!(preview(&reg, "# hi", &options("markdown", None)), "# hi");
    assert_eq!(
        preview(&reg, "hi", &options("html", None)),
        "<!DOCTYPE html><html><head><title>Preview</title></head><body><pre>hi</pre></body></html>"
    );
    assert_eq!(preview(&reg, "hi", &options("docx", None)), "Preview for docx format");
}

#[test]
fn supported_formats_include_text_formats() {
    let f = list_supported_formats();
    assert_eq!(f, vec!["txt", "html", "markdown", "pdf", "docx"]);
    for name in ["txt", "html", "markdown"] {
        assert!(f.iter().any(|s| s == name));
    }
}

#[test]
fn registered_encoder_is_used() {
    let mut reg = EncoderRegistry::with_builtins();
    assert_eq!(reg.encoder_for_format("htm"), None);
    reg.register("htm".to_string(), EncoderKind::MarkupPage);
    assert_eq!(reg.encoder_for_format("htm"), Some(EncoderKind::MarkupPage));
    assert_eq!(reg.supported_formats().last().map(|s| s.as_str()), Some("htm"));
    reg.register("txt".to_string(), EncoderKind::MarkupPage);
    assert_eq!(reg.encoder_for_format("txt"), Some(EncoderKind::MarkupPage));
    assert_eq!(reg.supported_formats().len(), 6);
}

#[test]
fn render_passthrough_and_markup() {
    assert_eq!(render(EncoderKind::Passthrough, "T", "body"), "body");
    assert_eq!(
        render(EncoderKind::MarkupPage, "T", "body"),
        "<!DOCTYPE html><html><head><title>T</title></head><body><pre>body</pre></body></html>"
    );
}

#[test]
fn decimal_rendering() {
    assert_eq!(decimal_string(0), "0");
    assert_eq!(decimal_string(7), "7");
    assert_eq!(decimal_string(1234567890), "1234567890");
    assert_eq!(decimal_string(u64::MAX), "18446744073709551615");
}

#[test]
fn string_equality() {
    assert!(str_eq("abc", "abc"));
    assert!(!str_eq("abc", "abd"));
    assert!(!str_eq("ab", "abc"));
    assert!(str_eq("", ""));
}

#[test]
fn prompt_template_mentions_placeholders() {
    let t = get_prompt_template();
    assert!(t.contains("{company_info}"));
    assert!(t.contains("{product_info}"));
}
