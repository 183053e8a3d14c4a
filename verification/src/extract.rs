//! Interpreting the extraction tool's output.
//!
//! The extraction tool runs out of process and reports its outcome as one
//! line of JSON.  The application shell captures the process output and
//! hands the text here.  Reading the report goes through serde_json
//! behind trusted wrappers; since parsing and field lookup are functions
//! of the text alone, each read carries a name (`report_success_of` and
//! its siblings), and the interpreters' contracts pin the assembled
//! outcome to exactly those named fields.

use vstd::prelude::*;

use vstd::string::StringExecFns;

use crate::numfmt::dec_rep;
use crate::numfmt::push_dec_u64;

verus! {

/// Whether the text parses as a JSON document.
pub uninterp spec fn json_parse_ok(s: Seq<char>) -> bool;

/// The report's `success` member, when the text parses to an object
/// carrying a boolean there.
pub uninterp spec fn report_success_of(s: Seq<char>) -> Option<bool>;

/// The report's `error` member, when the text parses to an object
/// carrying a string there.
pub uninterp spec fn report_error_of(s: Seq<char>) -> Option<Seq<char>>;

/// The report's `json_path` member, when the text parses to an object
/// carrying a string there.
pub uninterp spec fn report_path_of(s: Seq<char>) -> Option<Seq<char>>;

/// The report's `items` member, when the text parses to an object
/// carrying an unsigned count there.
pub uninterp spec fn report_items_of(s: Seq<char>) -> Option<u64>;

/// The report's `pages` member, when the text parses to an object
/// carrying an unsigned count there.
pub uninterp spec fn report_pages_of(s: Seq<char>) -> Option<u64>;

/// Relies on serde_json::from_str: whether the text parses as JSON, a
/// function of the text alone.
#[verifier::external_body]
fn report_parses(s: &str) -> (r: bool)
    ensures
        r == json_parse_ok(s@),
{
    serde_json::from_str::<serde_json::Value>(s).is_ok()
}

/// Relies on serde_json::from_str, Value::get and Value::as_bool: the
/// report's `success` boolean, a function of the text alone.
#[verifier::external_body]
fn report_success_field(s: &str) -> (r: Option<bool>)
    ensures
        r == report_success_of(s@),
{
    match serde_json::from_str::<serde_json::Value>(s) {
        Ok(v) => match v.get("success") {
            Some(f) => f.as_bool(),
            None => None,
        },
        Err(_) => None,
    }
}

/// Relies on serde_json::from_str, Value::get and Value::as_str: the
/// report's `error` text, copied out, a function of the text alone.
#[verifier::external_body]
fn report_error_field(s: &str) -> (r: Option<String>)
    ensures
        match r {
            Some(t) => report_error_of(s@) == Some(t@),
            None => (report_error_of(s@) is None),
        },
{
    match serde_json::from_str::<serde_json::Value>(s) {
        Ok(v) => match v.get("error") {
            Some(f) => match f.as_str() {
                Some(t) => Some(t.to_owned()),
                None => None,
            },
            None => None,
        },
        Err(_) => None,
    }
}

/// Relies on serde_json::from_str, Value::get and Value::as_str: the
/// report's `json_path` text, copied out, a function of the text alone.
#[verifier::external_body]
fn report_path_field(s: &str) -> (r: Option<String>)
    ensures
        match r {
            Some(t) => report_path_of(s@) == Some(t@),
            None => (report_path_of(s@) is None),
        },
{
    match serde_json::from_str::<serde_json::Value>(s) {
        Ok(v) => match v.get("json_path") {
            Some(f) => match f.as_str() {
                Some(t) => Some(t.to_owned()),
                None => None,
            },
            None => None,
        },
        Err(_) => None,
    }
}

/// Relies on serde_json::from_str, Value::get and Value::as_u64: the
/// report's `items` count, a function of the text alone.
#[verifier::external_body]
fn report_items_field(s: &str) -> (r: Option<u64>)
    ensures
        r == report_items_of(s@),
{
    match serde_json::from_str::<serde_json::Value>(s) {
        Ok(v) => match v.get("items") {
            Some(f) => f.as_u64(),
            None => None,
        },
        Err(_) => None,
    }
}

/// Relies on serde_json::from_str, Value::get and Value::as_u64: the
/// report's `pages` count, a function of the text alone.
#[verifier::external_body]
fn report_pages_field(s: &str) -> (r: Option<u64>)
    ensures
        r == report_pages_of(s@),
{
    match serde_json::from_str::<serde_json::Value>(s) {
        Ok(v) => match v.get("pages") {
            Some(f) => f.as_u64(),
            None => None,
        },
        Err(_) => None,
    }
}

/// The outcome of one extraction run.
#[derive(Debug)]
pub struct ExtractionResult {
    pub success: bool,
    pub json_path: String,
    pub items: usize,
    pub message: String,
}

/// The message reported for a successful extraction.
pub open spec fn spec_success_message(items: int, pages: int) -> Seq<char> {
    "Extracted "@ + dec_rep(items as nat) + " items from "@ + dec_rep(pages as nat) + " pages"@
}

/// A count capped into the machine's index range.
pub open spec fn spec_usize_cap(n: u64) -> usize {
    if n > usize::MAX {
        usize::MAX
    } else {
        n as usize
    }
}

/// What the assembled outcome is for given report fields: a report that
/// says failure yields a failed result carrying the reported error (or a
/// placeholder); any other report yields success with the path and counts
/// found, missing ones read as empty or zero.
pub open spec fn spec_report_result(
    er: ExtractionResult,
    success: Option<bool>,
    error_text: Option<Seq<char>>,
    path_text: Option<Seq<char>>,
    items: Option<u64>,
    pages: Option<u64>,
) -> bool {
    if success == Some(false) {
        &&& !er.success
        &&& er.json_path@.len() == 0
        &&& er.items == 0
        &&& er.message@ == (match error_text {
            Some(e) => e,
            None => "Unknown error"@,
        })
    } else {
        &&& er.success
        &&& er.json_path@ == (match path_text {
            Some(p) => p,
            None => Seq::<char>::empty(),
        })
        &&& er.items == spec_usize_cap(
            match items {
                Some(n) => n,
                None => 0u64,
            },
        )
        &&& er.message@ == spec_success_message(
            match items {
                Some(n) => n as int,
                None => 0int,
            },
            match pages {
                Some(n) => n as int,
                None => 0int,
            },
        )
    }
}

/// Builds the message reported for a successful extraction.
pub fn success_message(items: u64, pages: u64) -> (r: String)
    ensures
        r@ == spec_success_message(items as int, pages as int),
{
    let mut s = String::new();
    s.append("Extracted ");
    push_dec_u64(&mut s, items);
    s.append(" items from ");
    push_dec_u64(&mut s, pages);
    s.append(" pages");
    proof {
        assert(s@ =~= spec_success_message(items as int, pages as int));
    }
    s
}

/// Builds the message shown when extraction reported its own error text.
pub fn failure_from_error(error: &String) -> (r: String)
    ensures
        r@ == "Extraction failed: "@ + error@,
{
    let mut s = String::new();
    s.append("Extraction failed: ");
    s.append(error.as_str());
    proof {
        assert(s@ =~= "Extraction failed: "@ + error@);
    }
    s
}

/// Builds the message shown when the extraction process failed outright,
/// from what it printed.
pub fn failure_message(stderr: &String, stdout: &String) -> (r: String)
    ensures
        r@ == "Extraction failed: "@ + stderr@ + " | "@ + stdout@,
{
    let mut s = String::new();
    s.append("Extraction failed: ");
    s.append(stderr.as_str());
    s.append(" | ");
    s.append(stdout.as_str());
    proof {
        assert(s@ =~= "Extraction failed: "@ + stderr@ + " | "@ + stdout@);
    }
    s
}

/// Assembles the outcome from the fields the report carried, exactly as
/// `spec_report_result` states.
pub fn assemble_extraction_result(
    success: Option<bool>,
    error: Option<String>,
    json_path: Option<String>,
    items: Option<u64>,
    pages: Option<u64>,
) -> (r: ExtractionResult)
    ensures
        spec_report_result(
            r,
            success,
            match error {
                Some(e) => Some(e@),
                None => None,
            },
            match json_path {
                Some(p) => Some(p@),
                None => None,
            },
            items,
            pages,
        ),
{
    let failed = match success {
        Some(false) => true,
        _ => false,
    };
    if failed {
        let message = match error {
            Some(e) => e,
            None => String::from_str("Unknown error"),
        };
        ExtractionResult { success: false, json_path: String::new(), items: 0, message }
    } else {
        let n_items: u64 = match items {
            Some(n) => n,
            None => 0,
        };
        let n_pages: u64 = match pages {
            Some(n) => n,
            None => 0,
        };
        let path = match json_path {
            Some(p) => p,
            None => String::new(),
        };
        let capped: usize = if n_items > usize::MAX as u64 {
            usize::MAX
        } else {
            n_items as usize
        };
        ExtractionResult {
            success: true,
            json_path: path,
            items: capped,
            message: success_message(n_items, n_pages),
        }
    }
}

/// Reads the report a finished extraction printed: exactly the texts that
/// parse yield a report, and the result is the assembly of the report's
/// named fields — so a failure verdict carries its error and a success
/// carries its path, count and message.
pub fn interpret_extraction_output(stdout: &str) -> (r: Option<ExtractionResult>)
    ensures
        (r is Some) == json_parse_ok(stdout@),
        match r {
            Some(er) => spec_report_result(
                er,
                report_success_of(stdout@),
                report_error_of(stdout@),
                report_path_of(stdout@),
                report_items_of(stdout@),
                report_pages_of(stdout@),
            ),
            None => true,
        },
{
    if !report_parses(stdout) {
        return None;
    }
    let success = report_success_field(stdout);
    let error = report_error_field(stdout);
    let json_path = report_path_field(stdout);
    let items = report_items_field(stdout);
    let pages = report_pages_field(stdout);
    Some(assemble_extraction_result(success, error, json_path, items, pages))
}

/// Reads what a failed extraction process printed: always a failed
/// outcome with an empty path and no items, whose message carries the
/// report's own error text when it holds one, else the combined process
/// output.
pub fn interpret_failure_output(stderr: &String, stdout: &String) -> (r: ExtractionResult)
    ensures
        !r.success,
        r.items == 0,
        r.json_path@.len() == 0,
        r.message@ == (match report_error_of(stdout@) {
            Some(e) => "Extraction failed: "@ + e,
            None => "Extraction failed: "@ + stderr@ + " | "@ + stdout@,
        }),
{
    let error_text = report_error_field(stdout.as_str());
    let message = match error_text {
        Some(e) => failure_from_error(&e),
        None => failure_message(stderr, stdout),
    };
    ExtractionResult { success: false, json_path: String::new(), items: 0, message }
}

} // verus!
