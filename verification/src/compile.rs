//! Query compilation: PRQL sources to SQL.
//!
//! A tree of PRQL sources is compiled to a single SQL string through the
//! query compiler's three stages — parse, resolve, generate — with the
//! compiler's error reports converted into this library's plain message
//! records.  The compiler's data structures stay opaque; what this module
//! owns and verifies is the staging, the option handling, and the exact
//! shape of the converted messages.

use vstd::prelude::*;

verus! {

use vstd::string::StringExecFns;

/// One source file handed to the compiler: a path and its contents.
pub struct SourceTreeElement {
    /// Path of the source within the tree.
    pub path: String,
    /// The PRQL text.
    pub content: String,
}

/// Compilation options, as plain values.
pub struct CompileOptions {
    /// Pretty-print the generated SQL.
    pub format: bool,
    /// Name of the SQL target and dialect to compile for.
    pub target: String,
    /// Append the compiler's signature comment to the SQL.
    pub signature_comment: bool,
}

/// Severity of one compiler message.
#[derive(Clone, Copy, PartialEq, Eq, Structural, Debug)]
pub enum Severity {
    /// The query is wrong and no SQL was produced.
    Error,
    /// The query compiled, with reservations.
    Warning,
    /// A style finding.
    Lint,
}

/// One compiler message, as plain values; absent parts are empty strings.
pub struct Message {
    /// Severity.
    pub kind: Severity,
    /// Machine-readable identifier of the finding.
    pub code: String,
    /// Plain text of the finding.
    pub reason: String,
    /// Suggestions for fixing it.
    pub hints: Vec<String>,
    /// The annotated source display, when one was composed.
    pub display: String,
}

/// What one compilation produced: generated SQL, or the compiler's
/// messages.  Never both.
pub struct CompileResult2 {
    /// The generated SQL; empty when compilation failed.
    pub output: String,
    /// The compiler's messages; empty when compilation succeeded.
    pub messages: Vec<Message>,
}

impl Default for CompileResult2 {
    /// An empty result: no output, no messages.
    fn default() -> (r: CompileResult2)
        ensures
            r.output@.len() == 0,
            r.messages@.len() == 0,
    {
        CompileResult2 { output: String::new(), messages: Vec::new() }
    }
}

/// The compiler's source-tree value.
#[verifier::external_type_specification]
#[verifier::external_body]
pub struct ExSourceTree(prqlc::SourceTree);

/// The compiler's option record.
#[verifier::external_type_specification]
#[verifier::external_body]
pub struct ExOptions(prqlc::Options);

/// The compiler's target selector.
#[verifier::external_type_specification]
#[verifier::external_body]
pub struct ExTarget(prqlc::Target);

/// The compiler's single-error value.
#[verifier::external_type_specification]
#[verifier::external_body]
pub struct ExError(prqlc::Error);

/// The parse stage's output.
#[verifier::external_type_specification]
#[verifier::external_body]
pub struct ExModuleDef(prqlc::pr::ModuleDef);

/// The resolve stage's output.
#[verifier::external_type_specification]
#[verifier::external_body]
pub struct ExRelationalQuery(prqlc::ir::rq::RelationalQuery);

/// A span within a source, as the compiler tracks it.
#[verifier::external_type_specification]
#[verifier::external_body]
pub struct ExSpan(prqlc::Span);

/// A line/column range within a source, as the compiler reports it.
#[verifier::external_type_specification]
#[verifier::external_body]
pub struct ExSourceLocation(prqlc::SourceLocation);

/// The compiler's message severity; its variants are read directly.
#[verifier::external_type_specification]
pub struct ExMessageKind(prqlc::MessageKind);

/// One error report of the compiler; its fields are read directly.
#[verifier::external_type_specification]
pub struct ExErrorMessage(prqlc::ErrorMessage);

/// The compiler's error collection; its field is read directly.
#[verifier::external_type_specification]
pub struct ExErrorMessages(prqlc::ErrorMessages);

/// Relies on `prqlc::SourceTree::new`: builds the compiler's source tree
/// holding exactly the given path/content pairs.
#[verifier::external_body]
fn source_tree_new(tree: &Vec<SourceTreeElement>) -> (r: prqlc::SourceTree)
{
    prqlc::SourceTree::new(
        tree.iter().map(|ste| (std::path::PathBuf::from(ste.path.clone()), ste.content.clone())),
        None,
    )
}

/// Relies on `prqlc::Target::from_str`: parses a target name, failing on
/// names the compiler does not know.
pub assume_specification[ <prqlc::Target as core::str::FromStr>::from_str ](s: &str) -> (r:
    Result<prqlc::Target, <prqlc::Target as core::str::FromStr>::Err>);

/// Relies on `prqlc::ErrorMessages::from`: wraps one error as an error
/// collection.
#[verifier::external_body]
fn error_messages_from_error(e: prqlc::Error) -> (r: prqlc::ErrorMessages)
    ensures
        r.inner@.len() == 1,
{
    prqlc::ErrorMessages::from(e)
}

/// Relies on `prqlc::Options`'s public fields: assembles an option record
/// with colored display off, as a non-interactive host wants it.
#[verifier::external_body]
fn make_options(format: bool, target: prqlc::Target, signature_comment: bool) -> (r:
    prqlc::Options)
{
    prqlc::Options {
        format,
        target,
        signature_comment,
        color: false,
        display: prqlc::DisplayOptions::AnsiColor,
    }
}

/// Relies on `prqlc::prql_to_pl_tree`: the parse stage.
pub assume_specification[ prqlc::prql_to_pl_tree ](prql: &prqlc::SourceTree) -> (r: Result<
    prqlc::pr::ModuleDef,
    prqlc::ErrorMessages,
>);

/// Relies on `prqlc::pl_to_rq`: the resolve stage.
pub assume_specification[ prqlc::pl_to_rq ](pl: prqlc::pr::ModuleDef) -> (r: Result<
    prqlc::ir::rq::RelationalQuery,
    prqlc::ErrorMessages,
>);

/// Relies on `prqlc::rq_to_sql`: the SQL generation stage.
pub assume_specification[ prqlc::rq_to_sql ](
    rq: prqlc::ir::rq::RelationalQuery,
    options: &prqlc::Options,
) -> (r: Result<String, prqlc::ErrorMessages>);

/// Relies on `prqlc::ErrorMessages::composed`: annotates each report with
/// its location and display against the sources, leaving the report
/// count, severities, codes, reasons and hints unchanged.
#[verifier::external_body]
fn composed(e: prqlc::ErrorMessages, sources: &prqlc::SourceTree) -> (r: prqlc::ErrorMessages)
    ensures
        r.inner@.len() == e.inner@.len(),
        forall|i: int|
            0 <= i < e.inner@.len() ==> (#[trigger] r.inner@[i]).kind == e.inner@[i].kind
                && r.inner@[i].code == e.inner@[i].code && r.inner@[i].reason == e.inner@[i].reason
                && r.inner@[i].hints == e.inner@[i].hints,
{
    e.composed(sources)
}

/// The library's severity for a compiler severity.
pub open spec fn spec_kind_of(k: prqlc::MessageKind) -> Severity {
    match k {
        prqlc::MessageKind::Error => Severity::Error,
        prqlc::MessageKind::Warning => Severity::Warning,
        prqlc::MessageKind::Lint => Severity::Lint,
    }
}

/// The mathematical value of a converted message.
#[verifier::ext_equal]
pub struct MsgView {
    /// Severity.
    pub kind: Severity,
    /// Identifier, or empty.
    pub code: Seq<char>,
    /// Plain text.
    pub reason: Seq<char>,
    /// Suggestions.
    pub hints: Seq<Seq<char>>,
    /// Annotated display, or empty.
    pub display: Seq<char>,
}

impl View for Message {
    type V = MsgView;

    open spec fn view(&self) -> MsgView {
        MsgView {
            kind: self.kind,
            code: self.code@,
            reason: self.reason@,
            hints: self.hints@.map_values(|h: String| h@),
            display: self.display@,
        }
    }
}

/// The message a compiler report converts to: severity carried over,
/// absent code and display becoming empty strings.
pub open spec fn spec_msg_of_report(em: prqlc::ErrorMessage) -> MsgView {
    MsgView {
        kind: spec_kind_of(em.kind),
        code: match em.code {
            Some(c) => c@,
            None => Seq::empty(),
        },
        reason: em.reason@,
        hints: em.hints@.map_values(|h: String| h@),
        display: match em.display {
            Some(d) => d@,
            None => Seq::empty(),
        },
    }
}

/// Copies a vector of strings.
fn clone_string_vec(v: &Vec<String>) -> (r: Vec<String>)
    ensures
        r@.map_values(|s: String| s@) == v@.map_values(|s: String| s@),
{
    let mut r: Vec<String> = Vec::new();
    let mut i: usize = 0;
    while i < v.len()
        invariant
            0 <= i <= v@.len(),
            r@.len() == i,
            forall|j: int| 0 <= j < i ==> r@[j]@ == v@[j]@,
        decreases v@.len() - i,
    {
        r.push(v[i].clone());
        i += 1;
    }
    proof {
        assert(r@.map_values(|s: String| s@) =~= v@.map_values(|s: String| s@));
    }
    r
}

/// Converts one compiler report into the library's message shape, as
/// `spec_msg_of_report` says.
pub fn message_from(em: &prqlc::ErrorMessage) -> (r: Message)
    ensures
        r@ == spec_msg_of_report(*em),
{
    let kind = match &em.kind {
        prqlc::MessageKind::Error => Severity::Error,
        prqlc::MessageKind::Warning => Severity::Warning,
        prqlc::MessageKind::Lint => Severity::Lint,
    };
    let code = match &em.code {
        Some(c) => c.clone(),
        None => String::new(),
    };
    let display = match &em.display {
        Some(d) => d.clone(),
        None => String::new(),
    };
    let r = Message {
        kind,
        code,
        reason: em.reason.clone(),
        hints: clone_string_vec(&em.hints),
        display,
    };
    proof {
        assert(r@ =~= spec_msg_of_report(*em));
    }
    r
}

/// Converts the compiler's option record; an unknown target name is the
/// compiler's own error, wrapped as a report collection.
pub fn options_try_from(value: &CompileOptions) -> (r: Result<prqlc::Options, prqlc::ErrorMessages>) {
    let target = match <prqlc::Target as core::str::FromStr>::from_str(value.target.as_str()) {
        Ok(t) => t,
        Err(e) => {
            return Err(error_messages_from_error(e));
        },
    };
    Ok(make_options(value.format, target, value.signature_comment))
}

/// Compiles the source tree to SQL: parse, resolve, generate.  Parse and
/// resolve failures are annotated against the sources before they are
/// returned; the compiler decides which inputs succeed.  A fault inside
/// the compiler panics rather than reporting; an embedder that must
/// outlive one catches the unwind at its own boundary, where catching is
/// possible.
pub fn compile_tree_int(tree: &Vec<SourceTreeElement>, options: &CompileOptions) -> (r: Result<
    String,
    prqlc::ErrorMessages,
>) {
    let ptree = source_tree_new(tree);
    let opts = match options_try_from(options) {
        Ok(o) => o,
        Err(e) => {
            return Err(e);
        },
    };
    let pl = match prqlc::prql_to_pl_tree(&ptree) {
        Ok(p) => p,
        Err(e) => {
            return Err(composed(e, &ptree));
        },
    };
    let rq = match prqlc::pl_to_rq(pl) {
        Ok(q) => q,
        Err(e) => {
            return Err(composed(e, &ptree));
        },
    };
    prqlc::rq_to_sql(rq, &opts)
}

/// Converts every report of one compiler error collection, in order, each
/// exactly as `spec_msg_of_report` says.
pub fn messages_from_reports(errors: &prqlc::ErrorMessages) -> (r: Vec<Message>)
    ensures
        r@.map_values(|m: Message| m@) == errors.inner@.map_values(
            |em: prqlc::ErrorMessage| spec_msg_of_report(em),
        ),
{
    let mut messages: Vec<Message> = Vec::new();
    let mut i: usize = 0;
    while i < errors.inner.len()
        invariant
            0 <= i <= errors.inner@.len(),
            messages@.len() == i,
            forall|j: int| 0 <= j < i ==> messages@[j]@ == spec_msg_of_report(errors.inner@[j]),
        decreases errors.inner@.len() - i,
    {
        messages.push(message_from(&errors.inner[i]));
        i += 1;
    }
    proof {
        assert(messages@.map_values(|m: Message| m@) =~= errors.inner@.map_values(
            |em: prqlc::ErrorMessage| spec_msg_of_report(em),
        ));
    }
    messages
}

/// Compiles the source tree and flattens the outcome into one record:
/// the SQL on success, the converted messages on failure — never both.
pub fn compile_tree(tree: &Vec<SourceTreeElement>, options: &CompileOptions) -> (r: CompileResult2)
    ensures
        r.output@.len() == 0 || r.messages@.len() == 0,
{
    match compile_tree_int(tree, options) {
        Ok(output) => CompileResult2 { output, messages: Vec::new() },
        Err(errors) => CompileResult2 {
            output: String::new(),
            messages: messages_from_reports(&errors),
        },
    }
}

} // verus!
