use rest_api_lints::chain::{chain_calls, is_http_method, reconstruct, MAX_CHAIN_LINKS};
use rest_api_lints::driver::{Registry, SourceFile};
use rest_api_lints::rules::{
    check_endpoint_summary, check_problem_details, has_error_status_code, is_error_status_name,
    Diagnostic, Finding, Lint, Severity,
};
use rest_api_lints::scope::SourceMap;
use rest_api_lints::syntax::{Expr, Ident, QPath, Span, Ty};

/// Builds expression models over a source text, with real byte spans.
struct Src {
    text: String,
    cursor: usize,
}

impl Src {
    fn new(text: &str) -> Src {
        Src { text: text.to_string(), cursor: 0 }
    }

    /// The next occurrence of `word` from the cursor, which moves past it.
    fn ident(&mut self, word: &str) -> Ident {
        let lo = self.cursor + self.text[self.cursor..].find(word).expect("word in source");
        self.cursor = lo + word.len();
        Ident { name: word.to_string(), span: Span { file: 0, lo, hi: lo + word.len() } }
    }

    fn slice(&self, s: Span) -> &str {
        &self.text[s.lo..s.hi]
    }
}

fn sp() -> Span {
    Span { file: 0, lo: 0, hi: 0 }
}

fn lit() -> Expr {
    Expr::Other { children: vec![], span: sp() }
}

fn path(segs: Vec<Ident>) -> Expr {
    Expr::Path { path: QPath::Resolved(segs), span: sp() }
}

fn origin(src: &mut Src, method: &str) -> Expr {
    let ty = src.ident("OperationBuilder");
    let m = src.ident(method);
    Expr::Call { callee: Box::new(path(vec![ty, m])), args: vec![lit()], span: sp() }
}

fn mcall(src: &mut Src, receiver: Expr, name: &str, args: Vec<Expr>) -> Expr {
    let method = src.ident(name);
    Expr::MethodCall { method, receiver: Box::new(receiver), args, span: sp() }
}

fn status(src: &mut Src, code: &str) -> Expr {
    let ty = src.ident("StatusCode");
    let c = src.ident(code);
    path(vec![ty, c])
}

fn run(e: &Expr) -> Vec<Diagnostic> {
    Registry::all().check_expr_tree(e)
}

#[test]
fn chain_of_n_calls_has_n_links_in_order() {
    let mut s = Src::new("OperationBuilder::get(p).operation_id(x).summary(y).handler(h)");
    let o = origin(&mut s, "get");
    let a = mcall(&mut s, o, "operation_id", vec![lit()]);
    let b = mcall(&mut s, a, "summary", vec![lit()]);
    let c = mcall(&mut s, b, "handler", vec![lit()]);
    let links = reconstruct(&c).expect("a builder chain");
    let names: Vec<&str> = links.iter().map(|l| l.method.name.as_str()).collect();
    assert_eq!(names, vec!["operation_id", "summary", "handler"]);
    assert!(chain_calls(&links, "summary"));
    assert!(!chain_calls(&links, "register"));
}

#[test]
fn bare_origin_is_an_empty_chain() {
    let mut s = Src::new("OperationBuilder::post(p)");
    let o = origin(&mut s, "post");
    assert_eq!(reconstruct(&o).map(|l| l.len()), Some(0));
}

#[test]
fn type_relative_origin_is_recognized() {
    let mut s = Src::new("<OperationBuilder>::delete(p).summary(x)");
    let ty = s.ident("OperationBuilder");
    let seg = s.ident("delete");
    let callee = Expr::Path { path: QPath::TypeRelative(Ty::Path(vec![ty]), seg), span: sp() };
    let o = Expr::Call { callee: Box::new(callee), args: vec![], span: sp() };
    let e = mcall(&mut s, o, "summary", vec![lit()]);
    assert_eq!(reconstruct(&e).map(|l| l.len()), Some(1));
}

#[test]
fn non_chain_node_discards_whole_chain() {
    let mut s = Src::new("{ OperationBuilder::get(p).summary(x) }.handler(h).register(r)");
    let o = origin(&mut s, "get");
    let inner = mcall(&mut s, o, "summary", vec![lit()]);
    let block = Expr::Other { children: vec![inner], span: sp() };
    let outer = mcall(&mut s, block, "handler", vec![lit()]);
    let e = mcall(&mut s, outer, "register", vec![lit()]);
    assert!(reconstruct(&e).is_none());
    // no rule fires on the register call of a broken chain
    assert_eq!(check_endpoint_summary(&e), None);
}

#[test]
fn other_origins_are_not_chains() {
    let mut s = Src::new("Router::get(p).register(r)");
    let ty = s.ident("Router");
    let m = s.ident("get");
    let o = Expr::Call { callee: Box::new(path(vec![ty, m])), args: vec![], span: sp() };
    let e = mcall(&mut s, o, "register", vec![lit()]);
    assert!(reconstruct(&e).is_none());
    assert!(run(&e).is_empty());

    let mut s = Src::new("OperationBuilder::build(p).register(r)");
    let ty = s.ident("OperationBuilder");
    let m = s.ident("build");
    let o = Expr::Call { callee: Box::new(path(vec![ty, m])), args: vec![], span: sp() };
    let e = mcall(&mut s, o, "register", vec![lit()]);
    assert!(reconstruct(&e).is_none());
}

#[test]
fn chain_longer_than_bound_is_no_chain() {
    let mut s = Src::new("OperationBuilder::get(p)");
    let mut e = origin(&mut s, "get");
    for _ in 0..MAX_CHAIN_LINKS {
        e = Expr::MethodCall {
            method: Ident { name: "handler".to_string(), span: sp() },
            receiver: Box::new(e),
            args: vec![],
            span: sp(),
        };
    }
    assert_eq!(reconstruct(&e).map(|l| l.len()), Some(MAX_CHAIN_LINKS));
    let e = Expr::MethodCall {
        method: Ident { name: "handler".to_string(), span: sp() },
        receiver: Box::new(e),
        args: vec![],
        span: sp(),
    };
    assert!(reconstruct(&e).is_none());
}

#[test]
fn constructor_and_status_names() {
    for m in ["get", "post", "put", "patch", "delete", "head", "options"] {
        assert!(is_http_method(m));
    }
    assert!(!is_http_method("GET"));
    assert!(!is_http_method("trace"));
    assert!(is_error_status_name("NOT_FOUND"));
    assert!(is_error_status_name("GATEWAY_TIMEOUT"));
    assert!(is_error_status_name("BAD_REQUEST"));
    assert!(!is_error_status_name("OK"));
    assert!(!is_error_status_name("CREATED"));
    assert!(!is_error_status_name("not_found"));
}

#[test]
fn first_argument_status_forms() {
    let mut s = Src::new("StatusCode::NOT_FOUND StatusCode::OK");
    assert!(has_error_status_code(&vec![status(&mut s, "NOT_FOUND"), lit()]));
    assert!(!has_error_status_code(&vec![status(&mut s, "OK"), lit()]));
    assert!(!has_error_status_code(&vec![]));
    assert!(!has_error_status_code(&vec![lit()]));
    let rel = Expr::Path {
        path: QPath::TypeRelative(
            Ty::Other(sp()),
            Ident { name: "CONFLICT".to_string(), span: sp() },
        ),
        span: sp(),
    };
    assert!(has_error_status_code(&vec![rel]));
}

#[test]
fn summary_present_gives_no_diagnostic() {
    let mut s = Src::new("OperationBuilder::get(path).summary(\"x\").register(router, &openapi)");
    let o = origin(&mut s, "get");
    let a = mcall(&mut s, o, "summary", vec![lit()]);
    let e = mcall(&mut s, a, "register", vec![lit(), lit()]);
    let found = run(&e);
    assert!(found.iter().all(|d| d.finding != Finding::MissingSummary));
    assert!(found.is_empty());
}

#[test]
fn summary_missing_gives_one_diagnostic_at_register() {
    let mut s = Src::new("OperationBuilder::get(path).register(router, &openapi)");
    let o = origin(&mut s, "get");
    let e = mcall(&mut s, o, "register", vec![lit(), lit()]);
    let found = run(&e);
    assert_eq!(found.len(), 1);
    assert_eq!(found[0].finding, Finding::MissingSummary);
    assert_eq!(s.slice(found[0].span), "register");
    assert_eq!(found[0].severity(), Severity::Deny);
    assert_eq!(found[0].finding.message(), "API endpoint missing required summary (DE0804)");
    assert_eq!(found[0].finding.lint().code(), "DE0804");
}

fn two_responses(first: &str, second: &str) -> (Src, Expr) {
    let text = format!(
        "OperationBuilder::get(p).summary(x).json_response(StatusCode::{}, a).json_response(StatusCode::{}, b).register(r)",
        first, second
    );
    let mut s = Src::new(&text);
    let o = origin(&mut s, "get");
    let a = mcall(&mut s, o, "summary", vec![lit()]);
    let arg1 = {
        let mut t = Src { text: s.text.clone(), cursor: s.cursor };
        let e = status(&mut t, first);
        e
    };
    let b = mcall(&mut s, a, "json_response", vec![arg1, lit()]);
    let arg2 = {
        let mut t = Src { text: s.text.clone(), cursor: s.cursor };
        status(&mut t, second)
    };
    let c = mcall(&mut s, b, "json_response", vec![arg2, lit()]);
    let e = mcall(&mut s, c, "register", vec![lit()]);
    (s, e)
}

#[test]
fn one_diagnostic_at_error_response_ok_first() {
    let (s, e) = two_responses("OK", "NOT_FOUND");
    let found = run(&e);
    assert_eq!(found.len(), 1);
    assert_eq!(found[0].finding, Finding::PlainJsonError);
    assert_eq!(found[0].severity(), Severity::Warn);
    assert_eq!(s.slice(found[0].span), "json_response");
    let second = s.text.rfind("json_response").unwrap();
    assert_eq!(found[0].span.lo, second);
}

#[test]
fn one_diagnostic_at_error_response_error_first() {
    let (s, e) = two_responses("NOT_FOUND", "OK");
    let found = run(&e);
    assert_eq!(found.len(), 1);
    assert_eq!(found[0].finding, Finding::PlainJsonError);
    assert_eq!(s.slice(found[0].span), "json_response");
    let first = s.text.find("json_response").unwrap();
    assert_eq!(found[0].span.lo, first);
}

#[test]
fn json_response_outside_a_builder_chain_is_ignored() {
    let mut s = Src::new("client.json_response(StatusCode::NOT_FOUND, b)");
    let recv = path(vec![s.ident("client")]);
    let arg = status(&mut Src::new("StatusCode::NOT_FOUND"), "NOT_FOUND");
    let e = mcall(&mut s, recv, "json_response", vec![arg, lit()]);
    assert_eq!(check_problem_details(&e), None);
}

/// The chain of the endpoint fixture that declares a 404 as plain JSON.
fn json_error_404_chain(s: &mut Src) -> Expr {
    let o = origin(s, "get");
    let a = mcall(s, o, "operation_id", vec![lit()]);
    let b = mcall(s, a, "summary", vec![lit()]);
    let c = mcall(s, b, "handler", vec![lit()]);
    let ok = status(&mut Src { text: s.text.clone(), cursor: s.cursor }, "OK");
    let d = mcall(s, c, "json_response", vec![ok, lit()]);
    let e = mcall(s, d, "require_auth", vec![lit(), lit()]);
    let f = mcall(s, e, "require_license_features", vec![lit()]);
    let nf = status(&mut Src { text: s.text.clone(), cursor: s.cursor }, "NOT_FOUND");
    let g = mcall(s, f, "json_response", vec![nf, lit()]);
    mcall(s, g, "register", vec![lit(), lit()])
}

/// The chain of the endpoint fixture that has no summary.
fn missing_summary_chain(s: &mut Src) -> Expr {
    let o = origin(s, "get");
    let a = mcall(s, o, "operation_id", vec![lit()]);
    let b = mcall(s, a, "handler", vec![lit()]);
    let c = mcall(s, b, "require_auth", vec![lit(), lit()]);
    let d = mcall(s, c, "require_license_features", vec![lit()]);
    let ok = status(&mut Src { text: s.text.clone(), cursor: s.cursor }, "OK");
    let e = mcall(s, d, "json_response", vec![ok, lit()]);
    mcall(s, e, "register", vec![lit(), lit()])
}

const JSON_ERROR_404: &str = "let _router = OperationBuilder::get(\"/users/{id}\")
    .operation_id(\"users.get\")
    .summary(\"Get user by ID\")
    .handler(|| async { \"ok\" })
    .json_response(StatusCode::OK, \"User found\")
    .require_auth(&Resource, &Action)
    .require_license_features::<License>([])
    .json_response(StatusCode::NOT_FOUND, \"User not found\")
    .register(router, &openapi);";

const MISSING_SUMMARY: &str = "let _router = OperationBuilder::get(\"/users-info/v1/users\")
    .operation_id(\"users_info.list_users\")
    .handler(|| async { \"ok\" })
    .require_auth(&Resource, &Action)
    .require_license_features::<License>([])
    .json_response(StatusCode::OK, \"Success\")
    .register(router, &openapi);";

fn line_of(text: &str, offset: usize) -> usize {
    text[..offset].matches('\n').count() + 1
}

#[test]
fn ui_examples() {
    let mut s = Src::new(JSON_ERROR_404);
    let e = json_error_404_chain(&mut s);
    let found = run(&e);
    assert_eq!(found.len(), 1);
    assert_eq!(found[0].finding, Finding::PlainJsonError);
    assert_eq!(line_of(JSON_ERROR_404, found[0].span.lo), 8);
    assert_eq!(s.slice(found[0].span), "json_response");
    assert!(found[0]
        .finding
        .message()
        .starts_with("Use Problem Details for error responses, not plain JSON"));

    let mut s = Src::new(MISSING_SUMMARY);
    let e = missing_summary_chain(&mut s);
    let found = run(&e);
    assert_eq!(found.len(), 1);
    assert_eq!(found[0].finding, Finding::MissingSummary);
    assert_eq!(line_of(MISSING_SUMMARY, found[0].span.lo), 7);
    assert!(found[0].finding.message().starts_with("API endpoint missing required summary"));
}

#[test]
fn pipeline_is_repeatable() {
    let mut s = Src::new(JSON_ERROR_404);
    let e1 = json_error_404_chain(&mut s);
    let mut s = Src::new(MISSING_SUMMARY);
    let e2 = missing_summary_chain(&mut s);
    let file = SourceFile { items: vec![], bodies: vec![e1, e2] };
    let map = SourceMap { files: vec![Some("src/api/rest/routes.rs".to_string())] };
    let reg = Registry::all();
    let first = reg.analyze(&map, &file);
    let second = reg.analyze(&map, &file);
    assert_eq!(first, second);
    assert_eq!(first.len(), 2);
    assert_eq!(first[0].finding, Finding::PlainJsonError);
    assert_eq!(first[1].finding, Finding::MissingSummary);
}

#[test]
fn registry_order_and_subsets() {
    let mut s = Src::new("OperationBuilder::get(p).json_response(StatusCode::NOT_FOUND, b).register(r)");
    let o = origin(&mut s, "get");
    let nf = status(&mut Src { text: s.text.clone(), cursor: s.cursor }, "NOT_FOUND");
    let a = mcall(&mut s, o, "json_response", vec![nf, lit()]);
    let e = mcall(&mut s, a, "register", vec![lit()]);
    // the register node first, then the json_response node under it
    let all = Registry::all().check_expr_tree(&e);
    assert_eq!(all.iter().map(|d| d.finding).collect::<Vec<_>>(), vec![
        Finding::MissingSummary,
        Finding::PlainJsonError
    ]);
    let only = Registry { lints: vec![Lint::ApiProblemDetails] }.check_expr_tree(&e);
    assert_eq!(only.len(), 1);
    assert_eq!(only[0].finding, Finding::PlainJsonError);
    let none = Registry { lints: vec![] }.check_expr_tree(&e);
    assert!(none.is_empty());
}

#[test]
fn rule_metadata() {
    assert_eq!(Lint::ApiProblemDetails.code(), "DE0803");
    assert_eq!(Lint::ApiEndpointSummary.code(), "DE0804");
    assert_eq!(Lint::ApiSnakeCase.code(), "DE0805");
    assert_eq!(Lint::ApiProblemDetails.severity(), Severity::Warn);
    assert_eq!(Lint::ApiEndpointSummary.severity(), Severity::Deny);
    assert_eq!(Lint::ApiSnakeCase.severity(), Severity::Deny);
    assert!(Lint::ApiSnakeCase.description().contains("snake_case"));
    assert!(Finding::PlainJsonError.note().is_some());
    assert!(Finding::MissingSummary.help().contains(".summary("));
    assert!(Finding::NonSnakeRename.note().is_none());
}
