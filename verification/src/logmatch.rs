//! Log-statement lookups against the source-matching engine.
//!
//! The engine that maps log lines back to the source statements that
//! printed them lives in an outside crate; its matcher state, parsed-line
//! values and error type stay opaque here.  This module owns the glue the
//! host calls: registering source roots, looking one log line up, and
//! rendering the results — as plain records, and as the JSON the host's
//! interface expects, emitted and specified here.

use vstd::prelude::*;

use crate::exec::{var_views, VarPair};
use crate::json::{push_decimal, spec_decimal, spec_json_string, string_into};
use crate::progress::ExtError;

verus! {

use vstd::string::StrSliceExecFns;
use vstd::string::StringExecFns;

/// The matcher's state: registered roots and their extracted statements.
#[verifier::external_type_specification]
#[verifier::external_body]
pub struct ExLogMatcher(log2src::LogMatcher);

/// The engine's error type.
#[verifier::external_type_specification]
#[verifier::external_body]
pub struct ExLogError(log2src::LogError);

/// One parsed log line, as the engine takes it.
#[verifier::external_type_specification]
#[verifier::external_body]
pub struct ExLogRef<'a>(log2src::LogRef<'a>);

/// One log statement found in a source file; its fields beyond the
/// public ones are the engine's own.
#[verifier::external_type_specification]
#[verifier::external_body]
pub struct ExSourceRef(log2src::SourceRef);

/// The source language of a statement; its variants are read directly.
#[verifier::external_type_specification]
pub struct ExSourceLanguage(log2src::SourceLanguage);

/// One resolved call site of an exception trace; its fields are read
/// directly.
#[verifier::external_type_specification]
pub struct ExCallSite(log2src::CallSite);

/// One extracted variable binding; its fields are read directly.
#[verifier::external_type_specification]
pub struct ExVariablePair(log2src::VariablePair);

/// The engine's answer for one log line; its fields are read directly.
#[verifier::external_type_specification]
pub struct ExLogMapping<'a>(log2src::LogMapping<'a>);

/// Relies on `log2src::LogMatcher::new`: a matcher with no roots.
pub assume_specification[ log2src::LogMatcher::new ]() -> (r: log2src::LogMatcher);

/// Relies on `log2src::LogMatcher::match_log_statement`: the engine's
/// match of one parsed line against the extracted statements.
pub assume_specification<'a>[ log2src::LogMatcher::match_log_statement ](
    m: &log2src::LogMatcher,
    log_ref: &log2src::LogRef<'a>,
) -> (r: Option<log2src::LogMapping<'a>>);

/// Relies on `log2src::LogMatcher::add_root`: registers a source root
/// unless a registered root already covers it; this version of the engine
/// reports no error from it, but the signature leaves room for one.
#[verifier::external_body]
fn matcher_add_root(matcher: &mut log2src::LogMatcher, path: &str) -> (r: Option<
    log2src::LogError,
>) {
    matcher.add_root(std::path::Path::new(path)).err()
}

/// Relies on `log2src::LogRefBuilder`: assembles the parsed-line value
/// the matcher takes from the optional location hints and the body.
#[verifier::external_body]
fn make_log_ref<'a>(file: Option<&'a str>, lineno: Option<usize>, body: &'a str) -> (r:
    log2src::LogRef<'a>) {
    log2src::LogRefBuilder::new().with_file(file).with_lineno(lineno).with_body(
        Some(body),
    ).build(body)
}

/// Relies on `log2src::LogMatcher::find_source_file_statements`: the
/// statements recorded for one source file over all roots, copied out.
#[verifier::external_body]
fn file_statements(matcher: &log2src::LogMatcher, path: &str) -> (r: Vec<log2src::SourceRef>) {
    matcher.find_source_file_statements(std::path::Path::new(path)).iter().flat_map(
        |f| f.log_statements.iter().cloned(),
    ).collect()
}

/// Relies on `log2src::SourceRef`'s public fields and
/// `SourceLanguage::as_str`: copies the statement's location out.
#[verifier::external_body]
fn source_details_of(src: &log2src::SourceRef) -> (r: SourceDetails) {
    SourceDetails {
        file: src.source_path.clone(),
        begin_line: src.line_no,
        end_line: src.end_line_no,
        name: src.name.clone(),
        language: src.language.as_str(),
    }
}

/// Relies on `log2src::SourceRef`'s public `text` field: the statement's
/// source text.
#[verifier::external_body]
fn source_text_of(src: &log2src::SourceRef) -> (r: String) {
    src.text.clone()
}

/// Relies on the engine error's `Display` form: its diagnostic text.
#[verifier::external_body]
fn log_error_text(e: &log2src::LogError) -> (r: String) {
    e.to_string()
}

/// Relies on `std::error::Error::source`: the causing error's text, or
/// empty when the error has no cause.
#[verifier::external_body]
fn log_error_source_text(e: &log2src::LogError) -> (r: String) {
    std::error::Error::source(e).map(|s| s.to_string()).unwrap_or_default()
}

/// Relies on `miette::Diagnostic::help`: the advice text, or empty when
/// the error carries none.
#[verifier::external_body]
fn log_error_help_text(e: &log2src::LogError) -> (r: String) {
    miette::Diagnostic::help(e).map(|h| h.to_string()).unwrap_or_default()
}

/// Where one log statement lives in the sources.
pub struct SourceDetails {
    /// Path of the source file.
    pub file: String,
    /// First line of the statement.
    pub begin_line: usize,
    /// Last line of the statement.
    pub end_line: usize,
    /// Name of the enclosing function or scope.
    pub name: String,
    /// The source language's display name.
    pub language: &'static str,
}

/// One matched log statement: its location, its source text, and the
/// variable bindings the match extracted.
pub struct FindLogResult {
    /// Where the statement lives.
    pub src: SourceDetails,
    /// The statement's source text.
    pub pattern: String,
    /// The variable bindings the match extracted.
    pub variables: Vec<VarPair>,
}

/// A matched log statement rendered for the host's interface: every part
/// a JSON string.
pub struct FindLogResultJson {
    /// The location record, as a JSON object.
    pub src: String,
    /// The statement's source text.
    pub pattern: String,
    /// The bindings, as a JSON array of objects.
    pub variables: String,
    /// The exception trace, as a JSON array of call sites, or empty when
    /// the line carried none.
    pub stack_trace: String,
}

/// The display name of a source language, equal to its serialized form.
pub open spec fn spec_language_str(l: log2src::SourceLanguage) -> Seq<char> {
    match l {
        log2src::SourceLanguage::Rust => "Rust"@,
        log2src::SourceLanguage::Java => "Java"@,
        log2src::SourceLanguage::Cpp => "C++"@,
        log2src::SourceLanguage::Python => "Python"@,
    }
}

/// See `spec_language_str`.
pub fn language_str(l: &log2src::SourceLanguage) -> (r: &'static str)
    ensures
        r@ == spec_language_str(*l),
{
    match l {
        log2src::SourceLanguage::Rust => "Rust",
        log2src::SourceLanguage::Java => "Java",
        log2src::SourceLanguage::Cpp => "C++",
        log2src::SourceLanguage::Python => "Python",
    }
}

/// Copies the engine's variable bindings into the library's pair shape.
fn convert_variables(vars: &Vec<log2src::VariablePair>) -> (r: Vec<VarPair>)
    ensures
        var_views(r@) == vars@.map_values(|v: log2src::VariablePair| (v.expr@, v.value@)),
{
    let mut r: Vec<VarPair> = Vec::new();
    let mut i: usize = 0;
    while i < vars.len()
        invariant
            0 <= i <= vars@.len(),
            r@.len() == i,
            forall|j: int| 0 <= j < i ==> (#[trigger] r@[j]).expr@ == vars@[j].expr@ && r@[j].value@
                == vars@[j].value@,
        decreases vars@.len() - i,
    {
        r.push(VarPair { expr: vars[i].expr.clone(), value: vars[i].value.clone() });
        i += 1;
    }
    proof {
        assert(var_views(r@) =~= vars@.map_values(
            |v: log2src::VariablePair| (v.expr@, v.value@),
        ));
    }
    r
}

impl FindLogResult {
    /// The same result with the given bindings attached, converted to the
    /// library's pair shape.
    pub fn with_variables(self, variables: Vec<log2src::VariablePair>) -> (r: FindLogResult)
        ensures
            r.src == self.src,
            r.pattern == self.pattern,
            var_views(r.variables@) == variables@.map_values(
                |v: log2src::VariablePair| (v.expr@, v.value@),
            ),
    {
        let converted = convert_variables(&variables);
        FindLogResult { src: self.src, pattern: self.pattern, variables: converted }
    }
}

/// Registers a source root with the matcher; an already-covered path
/// comes back as the library's error record.
pub fn add_src_root(matcher: &mut log2src::LogMatcher, path: String) -> (r: Option<ExtError>) {
    match matcher_add_root(matcher, path.as_str()) {
        Some(err) => Some(ext_error_from(&err)),
        None => None,
    }
}

/// Converts one engine error into the library's diagnostic record: its
/// text, its cause's text, and its advice, absent parts empty.
pub fn ext_error_from(e: &log2src::LogError) -> ExtError {
    ExtError {
        error: log_error_text(e),
        source: log_error_source_text(e),
        help: log_error_help_text(e),
    }
}

/// Builds the plain result from the engine's answer: a record exactly
/// when the engine mapped the line to a resolved source statement, with
/// the mapping's bindings converted pairwise.  The location and the
/// statement text come from the resolved statement through the engine's
/// fields, which stay opaque here.
pub fn result_of_mapping<'a>(mapping: Option<log2src::LogMapping<'a>>) -> (r: Option<
    FindLogResult,
>)
    ensures
        r is Some <==> (mapping is Some && mapping->0.src_ref is Some),
        r is Some ==> var_views(r->0.variables@) == mapping->0.variables@.map_values(
            |v: log2src::VariablePair| (v.expr@, v.value@),
        ),
{
    let mapping = match mapping {
        Some(m) => m,
        None => {
            return None;
        },
    };
    let src_ref = match &mapping.src_ref {
        Some(s) => s,
        None => {
            return None;
        },
    };
    let details = source_details_of(src_ref);
    let pattern = source_text_of(src_ref);
    Some(
        FindLogResult { src: details, pattern, variables: convert_variables(&mapping.variables) },
    )
}

/// Looks one log line up: an empty file name means no location hint.  The
/// engine decides whether anything matches; `result_of_mapping` carries
/// the contract on what its answer becomes.
pub fn find_log_statement(
    matcher: &log2src::LogMatcher,
    file: &str,
    lineno: usize,
    body: &str,
) -> Option<FindLogResult> {
    let log_ref = if file.is_empty() {
        make_log_ref(None, None, body)
    } else {
        make_log_ref(Some(file), Some(lineno), body)
    };
    result_of_mapping(matcher.match_log_statement(&log_ref))
}

/// The location record as JSON.
pub open spec fn spec_source_details_json(
    file: Seq<char>,
    begin: nat,
    end: nat,
    name: Seq<char>,
    language: Seq<char>,
) -> Seq<char> {
    "{\"file\":"@ + spec_json_string(file) + ",\"begin_line\":"@ + spec_decimal(begin)
        + ",\"end_line\":"@ + spec_decimal(end) + ",\"name\":"@ + spec_json_string(name)
        + ",\"language\":"@ + spec_json_string(language) + "}"@
}

/// Serializes the location record, exactly as `spec_source_details_json`
/// says.
pub fn source_details_json(d: &SourceDetails) -> (r: String)
    ensures
        r@ == spec_source_details_json(
            d.file@,
            d.begin_line as nat,
            d.end_line as nat,
            d.name@,
            d.language@,
        ),
{
    let mut out = String::new();
    out.append("{\"file\":");
    string_into(&mut out, d.file.as_str());
    out.append(",\"begin_line\":");
    push_decimal(&mut out, d.begin_line as u64);
    out.append(",\"end_line\":");
    push_decimal(&mut out, d.end_line as u64);
    out.append(",\"name\":");
    string_into(&mut out, d.name.as_str());
    out.append(",\"language\":");
    string_into(&mut out, d.language);
    out.append("}");
    proof {
        assert(out@ =~= spec_source_details_json(
            d.file@,
            d.begin_line as nat,
            d.end_line as nat,
            d.name@,
            d.language@,
        ));
    }
    out
}

/// One variable binding as JSON.
pub open spec fn spec_var_json(p: (Seq<char>, Seq<char>)) -> Seq<char> {
    "{\"expr\":"@ + spec_json_string(p.0) + ",\"value\":"@ + spec_json_string(p.1) + "}"@
}

/// The members of the bindings array, comma-separated.
pub open spec fn spec_vars_json_members(vs: Seq<(Seq<char>, Seq<char>)>) -> Seq<char>
    decreases vs.len(),
{
    if vs.len() == 0 {
        Seq::empty()
    } else if vs.len() == 1 {
        spec_var_json(vs.last())
    } else {
        spec_vars_json_members(vs.drop_last()) + ","@ + spec_var_json(vs.last())
    }
}

/// The bindings as a JSON array of objects.
pub open spec fn spec_vars_json(vs: Seq<(Seq<char>, Seq<char>)>) -> Seq<char> {
    "["@ + spec_vars_json_members(vs) + "]"@
}

/// Serializes the bindings, exactly as `spec_vars_json` says.
pub fn variables_json(vars: &Vec<VarPair>) -> (r: String)
    ensures
        r@ == spec_vars_json(var_views(vars@)),
{
    let ghost views = var_views(vars@);
    let mut out = String::new();
    out.append("[");
    let mut i: usize = 0;
    while i < vars.len()
        invariant
            0 <= i <= vars@.len(),
            views == var_views(vars@),
            out@ == "["@ + spec_vars_json_members(views.take(i as int)),
        decreases vars@.len() - i,
    {
        if i > 0 {
            out.append(",");
        }
        out.append("{\"expr\":");
        string_into(&mut out, vars[i].expr.as_str());
        out.append(",\"value\":");
        string_into(&mut out, vars[i].value.as_str());
        out.append("}");
        proof {
            assert(views.take(i + 1).drop_last() =~= views.take(i as int));
            assert(views.take(i + 1).last() == views[i as int]);
            assert(out@ =~= "["@ + spec_vars_json_members(views.take(i + 1)));
        }
        i += 1;
    }
    out.append("]");
    proof {
        assert(views.take(views.len() as int) =~= views);
        assert(out@ =~= spec_vars_json(views));
    }
    out
}

/// The view of one call site: name, path, language name, line.
pub open spec fn spec_call_site_view(c: log2src::CallSite) -> (Seq<char>, Seq<char>, Seq<char>, nat) {
    (c.name@, c.source_path@, spec_language_str(c.language), c.line_no as nat)
}

/// One call site as JSON, keyed as the host's interface expects.
pub open spec fn spec_call_site_json(c: (Seq<char>, Seq<char>, Seq<char>, nat)) -> Seq<char> {
    "{\"name\":"@ + spec_json_string(c.0) + ",\"sourcePath\":"@ + spec_json_string(c.1)
        + ",\"language\":"@ + spec_json_string(c.2) + ",\"lineNumber\":"@ + spec_decimal(c.3)
        + "}"@
}

/// The members of the trace array, comma-separated.
pub open spec fn spec_trace_json_members(cs: Seq<(Seq<char>, Seq<char>, Seq<char>, nat)>) -> Seq<
    char,
>
    decreases cs.len(),
{
    if cs.len() == 0 {
        Seq::empty()
    } else if cs.len() == 1 {
        spec_call_site_json(cs.last())
    } else {
        spec_trace_json_members(cs.drop_last()) + ","@ + spec_call_site_json(cs.last())
    }
}

/// The exception trace as a JSON array of call sites.
pub open spec fn spec_trace_json(cs: Seq<(Seq<char>, Seq<char>, Seq<char>, nat)>) -> Seq<char> {
    "["@ + spec_trace_json_members(cs) + "]"@
}

/// Serializes an exception trace, exactly as `spec_trace_json` says.
#[verifier::rlimit(30)]
pub fn call_sites_json(trace: &Vec<log2src::CallSite>) -> (r: String)
    ensures
        r@ == spec_trace_json(
            trace@.map_values(|c: log2src::CallSite| spec_call_site_view(c)),
        ),
{
    let ghost views = trace@.map_values(|c: log2src::CallSite| spec_call_site_view(c));
    let mut out = String::new();
    out.append("[");
    let mut i: usize = 0;
    while i < trace.len()
        invariant
            0 <= i <= trace@.len(),
            views == trace@.map_values(|c: log2src::CallSite| spec_call_site_view(c)),
            out@ == "["@ + spec_trace_json_members(views.take(i as int)),
        decreases trace@.len() - i,
    {
        if i > 0 {
            out.append(",");
        }
        out.append("{\"name\":");
        string_into(&mut out, trace[i].name.as_str());
        out.append(",\"sourcePath\":");
        string_into(&mut out, trace[i].source_path.as_str());
        out.append(",\"language\":");
        string_into(&mut out, language_str(&trace[i].language));
        out.append(",\"lineNumber\":");
        push_decimal(&mut out, trace[i].line_no as u64);
        out.append("}");
        proof {
            assert(views.take(i + 1).drop_last() =~= views.take(i as int));
            assert(views.take(i + 1).last() == views[i as int]);
            assert(out@ =~= "["@ + spec_trace_json_members(views.take(i + 1)));
        }
        i += 1;
    }
    out.append("]");
    proof {
        assert(views.take(views.len() as int) =~= views);
        assert(out@ =~= spec_trace_json(views));
    }
    out
}

/// Renders the engine's answer for the host's interface: a record
/// exactly when the engine mapped the line to a resolved source
/// statement, its bindings as a JSON array, and the exception trace as a
/// JSON array or the empty string when the line carried none.  The
/// location object and the statement text come from the resolved
/// statement through the engine's fields, which stay opaque here.
pub fn json_of_mapping<'a>(mapping: Option<log2src::LogMapping<'a>>) -> (r: Option<
    FindLogResultJson,
>)
    ensures
        r is Some <==> (mapping is Some && mapping->0.src_ref is Some),
        r is Some ==> r->0.variables@ == spec_vars_json(
            mapping->0.variables@.map_values(|v: log2src::VariablePair| (v.expr@, v.value@)),
        ),
        r is Some ==> r->0.stack_trace@ == if mapping->0.exception_trace@.len() == 0 {
            Seq::<char>::empty()
        } else {
            spec_trace_json(
                mapping->0.exception_trace@.map_values(
                    |c: log2src::CallSite| spec_call_site_view(c),
                ),
            )
        },
{
    let mapping = match mapping {
        Some(m) => m,
        None => {
            return None;
        },
    };
    let src_ref = match &mapping.src_ref {
        Some(s) => s,
        None => {
            return None;
        },
    };
    let details = source_details_of(src_ref);
    let pattern = source_text_of(src_ref);
    let vars = convert_variables(&mapping.variables);
    let stack_trace = if mapping.exception_trace.len() == 0 {
        String::new()
    } else {
        call_sites_json(&mapping.exception_trace)
    };
    Some(
        FindLogResultJson {
            src: source_details_json(&details),
            pattern,
            variables: variables_json(&vars),
            stack_trace,
        },
    )
}

/// Looks one log line up and renders the result for the host's
/// interface; `json_of_mapping` carries the contract on what the
/// engine's answer becomes.
pub fn find_log_statement_json(
    matcher: &log2src::LogMatcher,
    file: &str,
    lineno: usize,
    body: &str,
) -> Option<FindLogResultJson> {
    let log_ref = if file.is_empty() {
        make_log_ref(None, None, body)
    } else {
        make_log_ref(Some(file), Some(lineno), body)
    };
    json_of_mapping(matcher.match_log_statement(&log_ref))
}

/// One plain record per statement, in the statements' order, each with
/// an empty bindings list — a file listing carries no matched variables.
pub fn results_of_statements(stmts: &Vec<log2src::SourceRef>) -> (r: Vec<FindLogResult>)
    ensures
        r@.len() == stmts@.len(),
        forall|i: int| 0 <= i < r@.len() ==> (#[trigger] r@[i]).variables@.len() == 0,
{
    let mut retval: Vec<FindLogResult> = Vec::new();
    let mut i: usize = 0;
    while i < stmts.len()
        invariant
            0 <= i <= stmts@.len(),
            retval@.len() == i,
            forall|j: int| 0 <= j < i ==> (#[trigger] retval@[j]).variables@.len() == 0,
        decreases stmts@.len() - i,
    {
        let details = source_details_of(&stmts[i]);
        let pattern = source_text_of(&stmts[i]);
        retval.push(FindLogResult { src: details, pattern, variables: Vec::new() });
        i += 1;
    }
    retval
}

/// All log statements recorded for one source file, as plain records:
/// one per statement the engine fetches (`results_of_statements` carries
/// that contract), none with bindings.
pub fn get_log_statements_for(matcher: &log2src::LogMatcher, path_str: &str) -> (r: Vec<
    FindLogResult,
>)
    ensures
        forall|i: int| 0 <= i < r@.len() ==> (#[trigger] r@[i]).variables@.len() == 0,
{
    let stmts = file_statements(matcher, path_str);
    results_of_statements(&stmts)
}

} // verus!
