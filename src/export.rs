//! The export pipeline: resolving where an export goes, choosing its encoder,
//! rendering its body, and reporting each outcome as an `ExportResult`.
//!
//! Writing files is left to the host: it performs an `ExportJob` and hands the
//! outcome back to `finish_export`.

use vstd::prelude::*;
use std::collections::HashMap;
use crate::formats::{rendered, render, EncoderRegistry};
use crate::text::{decimal, decimal_string};

verus! {

/// `serde_json::Value`: an opaque JSON value, carried through untouched in
/// export metadata and styling.
#[verifier::external_type_specification]
#[verifier::external_body]
pub struct ExJsonValue(serde_json::Value);

/// The directory under which every export is written.
pub const EXPORT_ROOT: &'static str = "./exports";

/// Per-export configuration.
pub struct ExportOptions {
    /// Key into the encoder registry.
    pub format: String,
    /// The file name to use; when absent one is made from the time and format.
    pub filename: Option<String>,
    /// Opaque settings handed to the encoder.
    pub metadata: Option<HashMap<String, serde_json::Value>>,
    /// Opaque settings handed to the encoder.
    pub styling: Option<HashMap<String, serde_json::Value>>,
}

/// The outcome of one export: a path and size on success, a message on failure.
#[derive(Clone, Debug)]
pub struct ExportResult {
    pub success: bool,
    pub file_path: Option<String>,
    pub error: Option<String>,
    pub file_size: Option<u64>,
}

/// A rendered export that is ready to be written.
#[derive(Clone, Debug)]
pub struct ExportJob {
    pub file_path: String,
    pub body: String,
}

/// One item of a batch export. An item with a title gets its own file name;
/// an item with a format overrides the batch's format.
#[derive(Clone, Debug)]
pub struct BatchItem {
    pub content: String,
    pub title: Option<String>,
    pub format: Option<String>,
}

/// `export_<now>.<format>`.
pub open spec fn default_filename(format: Seq<char>, now: u64) -> Seq<char> {
    "export_"@ + decimal(now as nat) + "."@ + format
}

/// The given file name, or the default one.
pub open spec fn filename_for(filename: Option<Seq<char>>, format: Seq<char>, now: u64) -> Seq<
    char,
> {
    match filename {
        Some(f) => f,
        None => default_filename(format, now),
    }
}

/// Where a file named `name` is written.
pub open spec fn export_path(name: Seq<char>) -> Seq<char> {
    EXPORT_ROOT@ + "/"@ + name
}

/// The message for a format without an encoder.
pub open spec fn unsupported_message(format: Seq<char>) -> Seq<char> {
    "Unsupported format: "@ + format
}

/// What exporting `content` as `format` under `filename` at time `now` comes
/// to: the path and body to write, or the failure message.
pub open spec fn planned(
    registry: EncoderRegistry,
    content: Seq<char>,
    format: Seq<char>,
    filename: Option<Seq<char>>,
    now: u64,
) -> Result<(Seq<char>, Seq<char>), Seq<char>> {
    match registry.encoder_for(format) {
        None => Err(unsupported_message(format)),
        Some(kind) => Ok(
            (export_path(filename_for(filename, format, now)), rendered(kind, "Export"@, content)),
        ),
    }
}

/// The views of an optional string.
pub open spec fn opt_view(s: Option<String>) -> Option<Seq<char>> {
    match s {
        Some(v) => Some(v@),
        None => None,
    }
}

impl ExportResult {
    /// A failed export with message `msg`.
    pub open spec fn is_failure_with(&self, msg: Seq<char>) -> bool {
        &&& !self.success
        &&& self.file_path is None
        &&& self.file_size is None
        &&& self.error matches Some(e) && e@ == msg
    }

    /// A successful export of `size` bytes to `path`.
    pub open spec fn is_success_with(&self, path: Seq<char>, size: u64) -> bool {
        &&& self.success
        &&& self.file_path matches Some(p) && p@ == path
        &&& self.file_size == Some(size)
        &&& self.error is None
    }

    /// A failed export reporting `error`.
    pub fn failure(error: String) -> (r: ExportResult)
        ensures
            r.is_failure_with(error@),
    {
        ExportResult { success: false, file_path: None, error: Some(error), file_size: None }
    }
}

/// Whether a planning outcome `r` is the plan `p`.
pub open spec fn plan_matches(
    r: Result<ExportJob, ExportResult>,
    p: Result<(Seq<char>, Seq<char>), Seq<char>>,
) -> bool {
    match p {
        Ok((path, body)) => r matches Ok(j) && j.file_path@ == path && j.body@ == body,
        Err(msg) => r matches Err(res) && res.is_failure_with(msg),
    }
}

/// The format a batch item is exported as.
pub open spec fn item_format(item: BatchItem, options: ExportOptions) -> Seq<char> {
    match item.format {
        Some(f) => f@,
        None => options.format@,
    }
}

/// The file name of batch item `index`: `<title>_<index>.<format>` for an
/// item with a title, else the batch's own file name setting.
pub open spec fn item_filename(item: BatchItem, index: nat, options: ExportOptions) -> Option<
    Seq<char>,
> {
    match item.title {
        Some(t) => Some(t@ + "_"@ + decimal(index) + "."@ + item_format(item, options)),
        None => opt_view(options.filename),
    }
}

fn plan_parts(
    registry: &EncoderRegistry,
    content: &str,
    format: &str,
    filename: &Option<String>,
    now: u64,
) -> (r: Result<ExportJob, ExportResult>)
    ensures
        plan_matches(r, planned(*registry, content@, format@, opt_view(*filename), now)),
{
    let kind = match registry.encoder_for_format(format) {
        Some(k) => k,
        None => {
            let mut msg = String::from_str("Unsupported format: ");
            msg.append(format);
            return Err(ExportResult::failure(msg));
        },
    };
    let name = match filename {
        Some(f) => f.clone(),
        None => {
            let mut n = String::from_str("export_");
            let digits = decimal_string(now);
            n.append(digits.as_str());
            n.append(".");
            n.append(format);
            n
        },
    };
    let mut path = String::from_str(EXPORT_ROOT);
    path.append("/");
    path.append(name.as_str());
    let body = render(kind, "Export", content);
    Ok(ExportJob { file_path: path, body })
}

/// Resolves the path and renders the body for exporting `content` with
/// `options` at time `now`; a format without an encoder gives the failed
/// result to report instead.
pub fn plan_export(
    registry: &EncoderRegistry,
    content: &str,
    options: &ExportOptions,
    now: u64,
) -> (r: Result<ExportJob, ExportResult>)
    ensures
        plan_matches(
            r,
            planned(*registry, content@, options.format@, opt_view(options.filename), now),
        ),
{
    plan_parts(registry, content, options.format.as_str(), &options.filename, now)
}

/// Plans every item of a batch on its own: exactly one outcome per item, in
/// order, each the plan of that item alone, so one item's failure touches no
/// other item.
pub fn plan_batch(
    registry: &EncoderRegistry,
    items: &Vec<BatchItem>,
    options: &ExportOptions,
    now: u64,
) -> (r: Vec<Result<ExportJob, ExportResult>>)
    ensures
        r@.len() == items@.len(),
        forall|i: int|
            0 <= i < items@.len() ==> plan_matches(
                #[trigger] r@[i],
                planned(
                    *registry,
                    items@[i].content@,
                    item_format(items@[i], *options),
                    item_filename(items@[i], i as nat, *options),
                    now,
                ),
            ),
{
    let mut r: Vec<Result<ExportJob, ExportResult>> = Vec::new();
    let mut i: usize = 0;
    while i < items.len()
        invariant
            i <= items@.len(),
            r@.len() == i,
            forall|k: int|
                0 <= k < i ==> plan_matches(
                    #[trigger] r@[k],
                    planned(
                        *registry,
                        items@[k].content@,
                        item_format(items@[k], *options),
                        item_filename(items@[k], k as nat, *options),
                        now,
                    ),
                ),
        decreases items@.len() - i,
    {
        let item = &items[i];
        let format: &str = match &item.format {
            Some(f) => f.as_str(),
            None => options.format.as_str(),
        };
        let filename = match &item.title {
            Some(t) => {
                let mut n = t.clone();
                n.append("_");
                let digits = decimal_string(i as u64);
                n.append(digits.as_str());
                n.append(".");
                n.append(format);
                Some(n)
            },
            None => options.filename.clone(),
        };
        assert(opt_view(filename) == item_filename(items@[i as int], i as nat, *options));
        let planned_item = plan_parts(registry, item.content.as_str(), format, &filename, now);
        r.push(planned_item);
        i = i + 1;
    }
    r
}

/// The result of an export job given how writing it went: the byte size of
/// the written file, or the I/O error message.
pub fn finish_export(job: ExportJob, written: Result<u64, String>) -> (r: ExportResult)
    ensures
        written matches Ok(size) ==> r.is_success_with(job.file_path@, size),
        written matches Err(msg) ==> r.is_failure_with(msg@),
{
    match written {
        Ok(size) => ExportResult {
            success: true,
            file_path: Some(job.file_path),
            error: None,
            file_size: Some(size),
        },
        Err(msg) => ExportResult::failure(msg),
    }
}

/// What previewing `content` as `format` shows: the encoder's rendering with
/// a page titled "Preview", or a placeholder for a format without an encoder.
pub open spec fn previewed(registry: EncoderRegistry, content: Seq<char>, format: Seq<char>) -> Seq<
    char,
> {
    match registry.encoder_for(format) {
        Some(kind) => rendered(kind, "Preview"@, content),
        None => "Preview for "@ + format + " format"@,
    }
}

/// Renders `content` in memory for display before exporting it.
pub fn preview(registry: &EncoderRegistry, content: &str, options: &ExportOptions) -> (r: String)
    ensures
        r@ == previewed(*registry, content@, options.format@),
{
    match registry.encoder_for_format(options.format.as_str()) {
        Some(kind) => render(kind, "Preview", content),
        None => {
            let mut s = String::from_str("Preview for ");
            s.append(options.format.as_str());
            s.append(" format");
            s
        },
    }
}

} // verus!
