//! The rules: what each detects, the diagnostics it writes, and where
//! they stand.
use vstd::prelude::*;

use crate::chain::{
    calls_method,
    chain_calls,
    first_arg_terminal,
    reconstruct,
    reconstructed,
    terminal_ident,
};
use crate::meta::{annotation_gives, annotation_values, find_serde_attribute_value, lemma_value_origin};
use crate::naming::{is_snake_case, snake_case_token};
use crate::scope::{api_rest_dir, is_in_api_rest_folder, span_within, SourceMap};
use crate::syntax::{Attribute, Expr, Field, Item, ItemKind, Span, Variant};
use crate::text::str_eq;

verus! {

/// How the host should treat a diagnostic: advisory, or build-breaking.
#[derive(Clone, Copy, Debug, PartialEq, Eq, Structural)]
pub enum Severity {
    Warn,
    Deny,
}

/// The rules of the set, one per convention.
#[derive(Clone, Copy, Debug, PartialEq, Eq, Structural)]
pub enum Lint {
    /// Error responses of an endpoint use Problem Details, not plain JSON.
    ApiProblemDetails,
    /// Every endpoint declares a summary.
    ApiEndpointSummary,
    /// DTOs of the REST layer use snake_case in serde renames.
    ApiSnakeCase,
}

pub open spec fn lint_severity(l: Lint) -> Severity {
    match l {
        Lint::ApiProblemDetails => Severity::Warn,
        Lint::ApiEndpointSummary => Severity::Deny,
        Lint::ApiSnakeCase => Severity::Deny,
    }
}

pub open spec fn lint_code(l: Lint) -> Seq<char> {
    match l {
        Lint::ApiProblemDetails => "DE0803"@,
        Lint::ApiEndpointSummary => "DE0804"@,
        Lint::ApiSnakeCase => "DE0805"@,
    }
}

impl Lint {
    /// The rule's stable short code.
    pub fn code(&self) -> (r: &'static str)
        ensures
            r@ == lint_code(*self),
    {
        match self {
            Lint::ApiProblemDetails => "DE0803",
            Lint::ApiEndpointSummary => "DE0804",
            Lint::ApiSnakeCase => "DE0805",
        }
    }

    /// The rule's default severity.
    pub fn severity(&self) -> (r: Severity)
        ensures
            r == lint_severity(*self),
    {
        match self {
            Lint::ApiProblemDetails => Severity::Warn,
            Lint::ApiEndpointSummary => Severity::Deny,
            Lint::ApiSnakeCase => Severity::Deny,
        }
    }

    /// The rule's one-line description.
    pub fn description(&self) -> (r: &'static str)
        ensures
            r@ == lint_description(*self),
    {
        match self {
            Lint::ApiProblemDetails => "use Problem Details for 4xx/5xx error responses, not plain JSON (DE0803)",
            Lint::ApiEndpointSummary => "API endpoints must have summary for documentation quality (DE0804)",
            Lint::ApiSnakeCase => "API DTOs must use snake_case in serde rename attributes (DE0805)",
        }
    }
}

pub open spec fn lint_description(l: Lint) -> Seq<char> {
    match l {
        Lint::ApiProblemDetails => "use Problem Details for 4xx/5xx error responses, not plain JSON (DE0803)"@,
        Lint::ApiEndpointSummary => "API endpoints must have summary for documentation quality (DE0804)"@,
        Lint::ApiSnakeCase => "API DTOs must use snake_case in serde rename attributes (DE0805)"@,
    }
}

/// What a diagnostic reports; it fixes the rule and the texts.
#[derive(Clone, Copy, Debug, PartialEq, Eq, Structural)]
pub enum Finding {
    /// `.json_response(..)` with an error status code.
    PlainJsonError,
    /// `.register(..)` on a chain without `.summary(..)`.
    MissingSummary,
    /// A type-level `rename_all` other than `snake_case`.
    NonSnakeRenameAll,
    /// A field-level `rename` that is not snake_case.
    NonSnakeRename,
}

pub open spec fn finding_lint(f: Finding) -> Lint {
    match f {
        Finding::PlainJsonError => Lint::ApiProblemDetails,
        Finding::MissingSummary => Lint::ApiEndpointSummary,
        Finding::NonSnakeRenameAll => Lint::ApiSnakeCase,
        Finding::NonSnakeRename => Lint::ApiSnakeCase,
    }
}

pub open spec fn finding_message(f: Finding) -> Seq<char> {
    match f {
        Finding::PlainJsonError => "Use Problem Details for error responses, not plain JSON (DE0803)"@,
        Finding::MissingSummary => "API endpoint missing required summary (DE0804)"@,
        Finding::NonSnakeRenameAll => "DTOs must not use non-snake_case in serde rename_all (DE0805)"@,
        Finding::NonSnakeRename => "DTO fields must not use non-snake_case in serde rename (DE0805)"@,
    }
}

pub open spec fn finding_help(f: Finding) -> Seq<char> {
    match f {
        Finding::PlainJsonError => "Use .problem_response(openapi, status, description) or convenience methods like .error_404(openapi)"@,
        Finding::MissingSummary => "Add .summary(\"Brief description\") to the OperationBuilder chain"@,
        Finding::NonSnakeRenameAll => "DTOs in api/rest must use snake_case (or default) to match API standards"@,
        Finding::NonSnakeRename => "DTO fields in api/rest must use snake_case to match API standards"@,
    }
}

pub open spec fn finding_note(f: Finding) -> Option<Seq<char>> {
    match f {
        Finding::PlainJsonError => Some(
            "DNA Section 7 requires RFC 9457 Problem Details for all 4xx/5xx responses"@,
        ),
        Finding::MissingSummary => Some(
            "DNA Section 24 requires one-line summary for all endpoints"@,
        ),
        _ => None,
    }
}

impl Finding {
    /// The rule that reports this finding.
    pub fn lint(&self) -> (r: Lint)
        ensures
            r == finding_lint(*self),
    {
        match self {
            Finding::PlainJsonError => Lint::ApiProblemDetails,
            Finding::MissingSummary => Lint::ApiEndpointSummary,
            Finding::NonSnakeRenameAll => Lint::ApiSnakeCase,
            Finding::NonSnakeRename => Lint::ApiSnakeCase,
        }
    }

    /// The primary message.
    pub fn message(&self) -> (r: &'static str)
        ensures
            r@ == finding_message(*self),
    {
        match self {
            Finding::PlainJsonError => "Use Problem Details for error responses, not plain JSON (DE0803)",
            Finding::MissingSummary => "API endpoint missing required summary (DE0804)",
            Finding::NonSnakeRenameAll => "DTOs must not use non-snake_case in serde rename_all (DE0805)",
            Finding::NonSnakeRename => "DTO fields must not use non-snake_case in serde rename (DE0805)",
        }
    }

    /// The help text.
    pub fn help(&self) -> (r: &'static str)
        ensures
            r@ == finding_help(*self),
    {
        match self {
            Finding::PlainJsonError => "Use .problem_response(openapi, status, description) or convenience methods like .error_404(openapi)",
            Finding::MissingSummary => "Add .summary(\"Brief description\") to the OperationBuilder chain",
            Finding::NonSnakeRenameAll => "DTOs in api/rest must use snake_case (or default) to match API standards",
            Finding::NonSnakeRename => "DTO fields in api/rest must use snake_case to match API standards",
        }
    }

    /// The note, where the finding has one.
    pub fn note(&self) -> (r: Option<&'static str>)
        ensures
            match r {
                Some(s) => finding_note(*self) == Some(s@),
                None => finding_note(*self) is None,
            },
    {
        match self {
            Finding::PlainJsonError => Some(
                "DNA Section 7 requires RFC 9457 Problem Details for all 4xx/5xx responses",
            ),
            Finding::MissingSummary => Some(
                "DNA Section 24 requires one-line summary for all endpoints",
            ),
            _ => None,
        }
    }
}

/// A reported violation, anchored at the span of the offending token.
#[derive(Clone, Copy, Debug, PartialEq, Eq, Structural)]
pub struct Diagnostic {
    pub finding: Finding,
    pub span: Span,
}

impl Diagnostic {
    /// The severity that the diagnostic's rule assigns.
    pub fn severity(&self) -> (r: Severity)
        ensures
            r == lint_severity(finding_lint(self.finding)),
    {
        self.finding.lint().severity()
    }
}

/// The status-code names of the error class (4xx/5xx) that a response must
/// not declare as plain JSON.
pub open spec fn is_error_status(name: Seq<char>) -> bool {
    name == "BAD_REQUEST"@ || name == "UNAUTHORIZED"@ || name == "FORBIDDEN"@ || name
        == "NOT_FOUND"@ || name == "METHOD_NOT_ALLOWED"@ || name == "CONFLICT"@ || name
        == "GONE"@ || name == "UNPROCESSABLE_ENTITY"@ || name == "TOO_MANY_REQUESTS"@ || name
        == "INTERNAL_SERVER_ERROR"@ || name == "BAD_GATEWAY"@ || name == "SERVICE_UNAVAILABLE"@
        || name == "GATEWAY_TIMEOUT"@
}

/// Whether `name` is an error-class status-code name.
pub fn is_error_status_name(name: &str) -> (r: bool)
    ensures
        r == is_error_status(name@),
{
    str_eq(name, "BAD_REQUEST") || str_eq(name, "UNAUTHORIZED") || str_eq(name, "FORBIDDEN")
        || str_eq(name, "NOT_FOUND") || str_eq(name, "METHOD_NOT_ALLOWED") || str_eq(
        name,
        "CONFLICT",
    ) || str_eq(name, "GONE") || str_eq(name, "UNPROCESSABLE_ENTITY") || str_eq(
        name,
        "TOO_MANY_REQUESTS",
    ) || str_eq(name, "INTERNAL_SERVER_ERROR") || str_eq(name, "BAD_GATEWAY") || str_eq(
        name,
        "SERVICE_UNAVAILABLE",
    ) || str_eq(name, "GATEWAY_TIMEOUT")
}

/// The first argument is a path that ends in an error-class status name.
pub open spec fn error_status_arg(args: Seq<Expr>) -> bool {
    match terminal_ident(args) {
        Some(id) => is_error_status(id.name@),
        None => false,
    }
}

/// Whether the first argument names an error-class status code.
pub fn has_error_status_code(args: &Vec<Expr>) -> (r: bool)
    ensures
        r == error_status_arg(args@),
{
    match first_arg_terminal(args) {
        Some(id) => is_error_status_name(id.name.as_str()),
        None => false,
    }
}

/// What the Problem Details rule reports on `e`: a `json_response` call
/// on a builder chain whose status is of the error class, anchored at the
/// method's name.
pub open spec fn problem_details_finding(e: Expr) -> Option<Diagnostic> {
    match e {
        Expr::MethodCall { method, receiver, args, .. } => if method.name@ == "json_response"@
            && reconstructed(*receiver) is Some && error_status_arg(args@) {
            Some(Diagnostic { finding: Finding::PlainJsonError, span: method.span })
        } else {
            None
        },
        _ => None,
    }
}

/// What the summary rule reports on `e`: a `register` call on a builder
/// chain in which no `summary` call stands, anchored at the method's name.
pub open spec fn summary_finding(e: Expr) -> Option<Diagnostic> {
    match e {
        Expr::MethodCall { method, receiver, .. } => if method.name@ == "register"@ && match
        reconstructed(*receiver) {
            Some(c) => !calls_method(c, "summary"@),
            None => false,
        } {
            Some(Diagnostic { finding: Finding::MissingSummary, span: method.span })
        } else {
            None
        },
        _ => None,
    }
}

/// The Problem Details rule on one expression node.
pub fn check_problem_details(e: &Expr) -> (r: Option<Diagnostic>)
    ensures
        r == problem_details_finding(*e),
{
    match e {
        Expr::MethodCall { method, receiver, args, .. } => {
            if str_eq(method.name.as_str(), "json_response") && has_error_status_code(args) {
                match reconstruct(receiver) {
                    Some(_) => {
                        return Some(Diagnostic { finding: Finding::PlainJsonError, span: method.span });
                    },
                    None => {},
                }
            }
            None
        },
        _ => None,
    }
}

/// The endpoint summary rule on one expression node.
pub fn check_endpoint_summary(e: &Expr) -> (r: Option<Diagnostic>)
    ensures
        r == summary_finding(*e),
{
    match e {
        Expr::MethodCall { method, receiver, .. } => {
            if str_eq(method.name.as_str(), "register") {
                match reconstruct(receiver) {
                    Some(links) => {
                        if !chain_calls(&links, "summary") {
                            return Some(
                                Diagnostic { finding: Finding::MissingSummary, span: method.span },
                            );
                        }
                    },
                    None => {},
                }
            }
            None
        },
        _ => None,
    }
}

/// An expression rule's diagnostic stands at the name token of the method
/// call it was raised on, and that name is the one its message is about.
pub proof fn lemma_expr_findings_anchor(e: Expr)
    ensures
        problem_details_finding(e) is Some ==> e is MethodCall && problem_details_finding(
            e,
        )->0.span == e->method.span && e->method.name@ == "json_response"@,
        summary_finding(e) is Some ==> e is MethodCall && summary_finding(e)->0.span
            == e->method.span && e->method.name@ == "register"@,
{
}

/// One diagnostic for each `rename_all` value other than `snake_case`.
pub open spec fn rename_all_findings(vals: Seq<(Span, String)>) -> Seq<Diagnostic>
    decreases vals.len(),
{
    if vals.len() == 0 {
        Seq::empty()
    } else {
        let rest = rename_all_findings(vals.drop_last());
        if vals.last().1@ != "snake_case"@ {
            rest.push(Diagnostic { finding: Finding::NonSnakeRenameAll, span: vals.last().0 })
        } else {
            rest
        }
    }
}

/// One diagnostic for each `rename` value that is not snake_case.
pub open spec fn rename_findings(vals: Seq<(Span, String)>) -> Seq<Diagnostic>
    decreases vals.len(),
{
    if vals.len() == 0 {
        Seq::empty()
    } else {
        let rest = rename_findings(vals.drop_last());
        if !snake_case_token(vals.last().1@) {
            rest.push(Diagnostic { finding: Finding::NonSnakeRename, span: vals.last().0 })
        } else {
            rest
        }
    }
}

pub open spec fn field_findings(fields: Seq<Field>) -> Seq<Diagnostic>
    decreases fields.len(),
{
    if fields.len() == 0 {
        Seq::empty()
    } else {
        field_findings(fields.drop_last()) + rename_findings(
            annotation_values(fields.last().attrs@, "serde"@, "rename"@),
        )
    }
}

pub open spec fn variant_findings(variants: Seq<Variant>) -> Seq<Diagnostic>
    decreases variants.len(),
{
    if variants.len() == 0 {
        Seq::empty()
    } else {
        variant_findings(variants.drop_last()) + field_findings(variants.last().fields@)
    }
}

/// The naming findings of a struct or enum, wherever it stands: its own
/// `rename_all` values, then the `rename` values of its fields (of each
/// variant's fields, for an enum), in source order.
pub open spec fn item_findings(item: Item) -> Seq<Diagnostic> {
    let own = rename_all_findings(annotation_values(item.attrs@, "serde"@, "rename_all"@));
    match item.kind {
        ItemKind::Struct(fields) => own + field_findings(fields@),
        ItemKind::Enum(variants) => own + variant_findings(variants@),
        ItemKind::Other => Seq::empty(),
    }
}

/// What the snake_case rule reports on `item`: its findings where it lies
/// under an `api/rest` directory, nothing elsewhere.
pub open spec fn snake_case_findings(map: SourceMap, item: Item) -> Seq<Diagnostic> {
    if span_within(map, item.span, api_rest_dir()) {
        item_findings(item)
    } else {
        Seq::empty()
    }
}

/// Appends a diagnostic for each type-level `rename_all` that is not
/// `snake_case`.
pub fn check_type_rename_all(attrs: &Vec<Attribute>, out: &mut Vec<Diagnostic>)
    ensures
        final(out)@ == old(out)@ + rename_all_findings(
            annotation_values(attrs@, "serde"@, "rename_all"@),
        ),
{
    let vals = find_serde_attribute_value(attrs, "rename_all");
    let ghost start = out@;
    let mut i: usize = 0;
    while i < vals.len()
        invariant
            0 <= i <= vals@.len(),
            out@ == start + rename_all_findings(vals@.subrange(0, i as int)),
        decreases vals@.len() - i,
    {
        assert(vals@.subrange(0, i + 1).drop_last() =~= vals@.subrange(0, i as int));
        if !str_eq(vals[i].1.as_str(), "snake_case") {
            out.push(Diagnostic { finding: Finding::NonSnakeRenameAll, span: vals[i].0 });
        }
        assert(out@ =~= start + rename_all_findings(vals@.subrange(0, i + 1)));
        i = i + 1;
    }
    assert(vals@.subrange(0, vals@.len() as int) =~= vals@);
}

fn check_field_rename(attrs: &Vec<Attribute>, out: &mut Vec<Diagnostic>)
    ensures
        final(out)@ == old(out)@ + rename_findings(annotation_values(attrs@, "serde"@, "rename"@)),
{
    let vals = find_serde_attribute_value(attrs, "rename");
    let ghost start = out@;
    let mut i: usize = 0;
    while i < vals.len()
        invariant
            0 <= i <= vals@.len(),
            out@ == start + rename_findings(vals@.subrange(0, i as int)),
        decreases vals@.len() - i,
    {
        assert(vals@.subrange(0, i + 1).drop_last() =~= vals@.subrange(0, i as int));
        if !is_snake_case(vals[i].1.as_str()) {
            out.push(Diagnostic { finding: Finding::NonSnakeRename, span: vals[i].0 });
        }
        assert(out@ =~= start + rename_findings(vals@.subrange(0, i + 1)));
        i = i + 1;
    }
    assert(vals@.subrange(0, vals@.len() as int) =~= vals@);
}

/// Appends a diagnostic for each field-level `rename` that is not
/// snake_case.
pub fn check_fields(fields: &Vec<Field>, out: &mut Vec<Diagnostic>)
    ensures
        final(out)@ == old(out)@ + field_findings(fields@),
{
    let ghost start = out@;
    let mut i: usize = 0;
    while i < fields.len()
        invariant
            0 <= i <= fields@.len(),
            out@ == start + field_findings(fields@.subrange(0, i as int)),
        decreases fields@.len() - i,
    {
        assert(fields@.subrange(0, i + 1).drop_last() =~= fields@.subrange(0, i as int));
        check_field_rename(&fields[i].attrs, out);
        assert(out@ =~= start + field_findings(fields@.subrange(0, i + 1)));
        i = i + 1;
    }
    assert(fields@.subrange(0, fields@.len() as int) =~= fields@);
}

fn check_variants(variants: &Vec<Variant>, out: &mut Vec<Diagnostic>)
    ensures
        final(out)@ == old(out)@ + variant_findings(variants@),
{
    let ghost start = out@;
    let mut i: usize = 0;
    while i < variants.len()
        invariant
            0 <= i <= variants@.len(),
            out@ == start + variant_findings(variants@.subrange(0, i as int)),
        decreases variants@.len() - i,
    {
        assert(variants@.subrange(0, i + 1).drop_last() =~= variants@.subrange(0, i as int));
        check_fields(&variants[i].fields, out);
        assert(out@ =~= start + variant_findings(variants@.subrange(0, i + 1)));
        i = i + 1;
    }
    assert(variants@.subrange(0, variants@.len() as int) =~= variants@);
}

/// The snake_case rule on one item: nothing outside `api/rest`; inside it,
/// a diagnostic for each non-snake_case `rename_all` of a struct or enum
/// and for each non-snake_case `rename` of its fields.
pub fn check_item(map: &SourceMap, item: &Item) -> (r: Vec<Diagnostic>)
    ensures
        r@ == snake_case_findings(*map, *item),
{
    let mut out: Vec<Diagnostic> = Vec::new();
    if !is_in_api_rest_folder(map, item.span) {
        return out;
    }
    match &item.kind {
        ItemKind::Struct(fields) => {
            check_type_rename_all(&item.attrs, &mut out);
            check_fields(fields, &mut out);
        },
        ItemKind::Enum(variants) => {
            check_type_rename_all(&item.attrs, &mut out);
            check_variants(variants, &mut out);
        },
        ItemKind::Other => {},
    }
    proof {
        assert(out@ =~= snake_case_findings(*map, *item));
    }
    out
}

/// Each type-level diagnostic stands at the span of a `rename_all` entry of
/// one of the type's serde annotations, and that entry's value is not
/// `snake_case`.
pub proof fn lemma_rename_all_anchor(attrs: Seq<Attribute>, i: int)
    requires
        0 <= i < rename_all_findings(annotation_values(attrs, "serde"@, "rename_all"@)).len(),
    ensures
        ({
            let d = rename_all_findings(annotation_values(attrs, "serde"@, "rename_all"@))[i];
            &&& d.finding == Finding::NonSnakeRenameAll
            &&& exists|a: int, k: int, v: String|
                #[trigger] annotation_gives(attrs, a, k, "serde"@, "rename_all"@, d.span, v) && v@
                    != "snake_case"@
        }),
{
    let vals = annotation_values(attrs, "serde"@, "rename_all"@);
    let j = lemma_rename_all_source(vals, i);
    lemma_value_origin(attrs, "serde"@, "rename_all"@, j);
    let (a, k) = choose|a: int, k: int|
        annotation_gives(attrs, a, k, "serde"@, "rename_all"@, vals[j].0, vals[j].1);
    let d = rename_all_findings(vals)[i];
    assert(d.span == vals[j].0);
    assert(annotation_gives(attrs, a, k, "serde"@, "rename_all"@, d.span, vals[j].1) && vals[j].1@ != "snake_case"@);
}

proof fn lemma_rename_all_source(vals: Seq<(Span, String)>, i: int) -> (j: int)
    requires
        0 <= i < rename_all_findings(vals).len(),
    ensures
        0 <= j < vals.len(),
        rename_all_findings(vals)[i] == (Diagnostic {
            finding: Finding::NonSnakeRenameAll,
            span: vals[j].0,
        }),
        vals[j].1@ != "snake_case"@,
    decreases vals.len(),
{
    let rest = rename_all_findings(vals.drop_last());
    if i < rest.len() {
        lemma_rename_all_source(vals.drop_last(), i)
    } else {
        vals.len() - 1
    }
}

/// Each field-level diagnostic stands at the span of a `rename` entry of
/// one of the field's serde annotations, and that entry's value is not
/// snake_case.
pub proof fn lemma_rename_anchor(attrs: Seq<Attribute>, i: int)
    requires
        0 <= i < rename_findings(annotation_values(attrs, "serde"@, "rename"@)).len(),
    ensures
        ({
            let d = rename_findings(annotation_values(attrs, "serde"@, "rename"@))[i];
            &&& d.finding == Finding::NonSnakeRename
            &&& exists|a: int, k: int, v: String|
                #[trigger] annotation_gives(attrs, a, k, "serde"@, "rename"@, d.span, v)
                    && !snake_case_token(v@)
        }),
{
    let vals = annotation_values(attrs, "serde"@, "rename"@);
    let j = lemma_rename_source(vals, i);
    lemma_value_origin(attrs, "serde"@, "rename"@, j);
    let (a, k) = choose|a: int, k: int|
        annotation_gives(attrs, a, k, "serde"@, "rename"@, vals[j].0, vals[j].1);
    let d = rename_findings(vals)[i];
    assert(d.span == vals[j].0);
    assert(annotation_gives(attrs, a, k, "serde"@, "rename"@, d.span, vals[j].1) && !snake_case_token(vals[j].1@));
}

proof fn lemma_rename_source(vals: Seq<(Span, String)>, i: int) -> (j: int)
    requires
        0 <= i < rename_findings(vals).len(),
    ensures
        0 <= j < vals.len(),
        rename_findings(vals)[i] == (Diagnostic { finding: Finding::NonSnakeRename, span: vals[j].0 }),
        !snake_case_token(vals[j].1@),
    decreases vals.len(),
{
    let rest = rename_findings(vals.drop_last());
    if i < rest.len() {
        lemma_rename_source(vals.drop_last(), i)
    } else {
        vals.len() - 1
    }
}

} // verus!
