//! Running a registry of rules over a file, one pass, into a fresh sink.
use vstd::prelude::*;

use crate::rules::{
    check_endpoint_summary,
    check_item,
    check_problem_details,
    problem_details_finding,
    snake_case_findings,
    summary_finding,
    Diagnostic,
    Lint,
};
use crate::scope::SourceMap;
use crate::syntax::{Expr, Item};

verus! {

broadcast use vstd::std_specs::vec::group_vec_axioms;

/// The rules of one analysis, in registration order; built once, owned
/// by the caller, and handed to the driver.
pub struct Registry {
    pub lints: Vec<Lint>,
}

/// One parsed file: its items, and the expression trees of its bodies.
pub struct SourceFile {
    pub items: Vec<Item>,
    pub bodies: Vec<Expr>,
}

/// What one rule reports on one expression node.
pub open spec fn lint_expr_findings(l: Lint, e: Expr) -> Seq<Diagnostic> {
    match l {
        Lint::ApiProblemDetails => match problem_details_finding(e) {
            Some(d) => seq![d],
            None => Seq::empty(),
        },
        Lint::ApiEndpointSummary => match summary_finding(e) {
            Some(d) => seq![d],
            None => Seq::empty(),
        },
        Lint::ApiSnakeCase => Seq::empty(),
    }
}

/// What the rules of `lints` report on one expression node, rule by rule.
pub open spec fn node_findings(lints: Seq<Lint>, e: Expr) -> Seq<Diagnostic>
    decreases lints.len(),
{
    if lints.len() == 0 {
        Seq::empty()
    } else {
        node_findings(lints.drop_last(), e) + lint_expr_findings(lints.last(), e)
    }
}

/// What the rules report on the tree under `e`, visited top-down: the node
/// itself, then its children in order.
pub open spec fn tree_findings(lints: Seq<Lint>, e: Expr) -> Seq<Diagnostic>
    decreases e, 0int,
{
    node_findings(lints, e) + match e {
        Expr::Call { callee, args, .. } => tree_findings(lints, *callee) + list_findings(
            lints,
            args,
            args.len() as int,
        ),
        Expr::MethodCall { receiver, args, .. } => tree_findings(lints, *receiver)
            + list_findings(lints, args, args.len() as int),
        Expr::Path { .. } => Seq::empty(),
        Expr::Other { children, .. } => list_findings(lints, children, children.len() as int),
    }
}

/// What the rules report on the first `n` trees of `es`.
pub open spec fn list_findings(lints: Seq<Lint>, es: Vec<Expr>, n: int) -> Seq<Diagnostic>
    decreases es, n,
{
    if n <= 0 || n > es.len() {
        Seq::empty()
    } else {
        list_findings(lints, es, n - 1) + tree_findings(lints, es[n - 1])
    }
}

/// What one rule reports on one item.
pub open spec fn lint_item_findings(l: Lint, map: SourceMap, item: Item) -> Seq<Diagnostic> {
    match l {
        Lint::ApiSnakeCase => snake_case_findings(map, item),
        _ => Seq::empty(),
    }
}

/// What the rules of `lints` report on one item, rule by rule.
pub open spec fn item_node_findings(lints: Seq<Lint>, map: SourceMap, item: Item) -> Seq<
    Diagnostic,
>
    decreases lints.len(),
{
    if lints.len() == 0 {
        Seq::empty()
    } else {
        item_node_findings(lints.drop_last(), map, item) + lint_item_findings(
            lints.last(),
            map,
            item,
        )
    }
}

pub open spec fn items_findings(lints: Seq<Lint>, map: SourceMap, items: Seq<Item>) -> Seq<
    Diagnostic,
>
    decreases items.len(),
{
    if items.len() == 0 {
        Seq::empty()
    } else {
        items_findings(lints, map, items.drop_last()) + item_node_findings(
            lints,
            map,
            items.last(),
        )
    }
}

/// What one pass over a file reports: the items in order, then the bodies'
/// expression trees in order.
pub open spec fn file_findings(lints: Seq<Lint>, map: SourceMap, file: SourceFile) -> Seq<
    Diagnostic,
> {
    items_findings(lints, map, file.items@) + list_findings(
        lints,
        file.bodies,
        file.bodies.len() as int,
    )
}

fn run_expr_rules(reg: &Registry, e: &Expr, out: &mut Vec<Diagnostic>)
    ensures
        final(out)@ == old(out)@ + node_findings(reg.lints@, *e),
{
    let ghost start = out@;
    let mut i: usize = 0;
    while i < reg.lints.len()
        invariant
            0 <= i <= reg.lints@.len(),
            out@ == start + node_findings(reg.lints@.subrange(0, i as int), *e),
        decreases reg.lints@.len() - i,
    {
        assert(reg.lints@.subrange(0, i + 1).drop_last() =~= reg.lints@.subrange(0, i as int));
        let found = match reg.lints[i] {
            Lint::ApiProblemDetails => check_problem_details(e),
            Lint::ApiEndpointSummary => check_endpoint_summary(e),
            Lint::ApiSnakeCase => None,
        };
        match found {
            Some(d) => {
                out.push(d);
            },
            None => {},
        }
        assert(out@ =~= start + node_findings(reg.lints@.subrange(0, i + 1), *e));
        i = i + 1;
    }
    assert(reg.lints@.subrange(0, reg.lints@.len() as int) =~= reg.lints@);
}

fn walk_tree(reg: &Registry, e: &Expr, out: &mut Vec<Diagnostic>)
    ensures
        final(out)@ == old(out)@ + tree_findings(reg.lints@, *e),
    decreases e, 0int,
{
    let ghost start = out@;
    run_expr_rules(reg, e, out);
    match e {
        Expr::Call { callee, args, .. } => {
            walk_tree(reg, callee, out);
            walk_list(reg, args, out);
        },
        Expr::MethodCall { receiver, args, .. } => {
            walk_tree(reg, receiver, out);
            walk_list(reg, args, out);
        },
        Expr::Path { .. } => {},
        Expr::Other { children, .. } => {
            walk_list(reg, children, out);
        },
    }
    assert(out@ =~= start + tree_findings(reg.lints@, *e));
}

fn walk_list(reg: &Registry, es: &Vec<Expr>, out: &mut Vec<Diagnostic>)
    ensures
        final(out)@ == old(out)@ + list_findings(reg.lints@, *es, es.len() as int),
    decreases es, 0int,
{
    let ghost start = out@;
    let mut i: usize = 0;
    while i < es.len()
        invariant
            0 <= i <= es@.len(),
            out@ == start + list_findings(reg.lints@, *es, i as int),
        decreases es@.len() - i,
    {
        walk_tree(reg, &es[i], out);
        assert(out@ =~= start + list_findings(reg.lints@, *es, i + 1));
        i = i + 1;
    }
}

fn run_item_rules(reg: &Registry, map: &SourceMap, item: &Item, out: &mut Vec<Diagnostic>)
    ensures
        final(out)@ == old(out)@ + item_node_findings(reg.lints@, *map, *item),
{
    let ghost start = out@;
    let mut i: usize = 0;
    while i < reg.lints.len()
        invariant
            0 <= i <= reg.lints@.len(),
            out@ == start + item_node_findings(reg.lints@.subrange(0, i as int), *map, *item),
        decreases reg.lints@.len() - i,
    {
        assert(reg.lints@.subrange(0, i + 1).drop_last() =~= reg.lints@.subrange(0, i as int));
        match reg.lints[i] {
            Lint::ApiSnakeCase => {
                let found = check_item(map, item);
                let mut k: usize = 0;
                let ghost mid = out@;
                while k < found.len()
                    invariant
                        0 <= k <= found@.len(),
                        out@ == mid + found@.subrange(0, k as int),
                    decreases found@.len() - k,
                {
                    out.push(found[k]);
                    assert(out@ =~= mid + found@.subrange(0, k + 1));
                    k = k + 1;
                }
                assert(found@.subrange(0, found@.len() as int) =~= found@);
            },
            _ => {},
        }
        assert(out@ =~= start + item_node_findings(reg.lints@.subrange(0, i + 1), *map, *item));
        i = i + 1;
    }
    assert(reg.lints@.subrange(0, reg.lints@.len() as int) =~= reg.lints@);
}

impl Registry {
    /// The registry holding every rule of the set.
    pub fn all() -> (r: Registry)
        ensures
            r.lints@ == seq![Lint::ApiProblemDetails, Lint::ApiEndpointSummary, Lint::ApiSnakeCase],
    {
        let mut lints: Vec<Lint> = Vec::new();
        lints.push(Lint::ApiProblemDetails);
        lints.push(Lint::ApiEndpointSummary);
        lints.push(Lint::ApiSnakeCase);
        assert(lints@ =~= seq![Lint::ApiProblemDetails, Lint::ApiEndpointSummary, Lint::ApiSnakeCase]);
        Registry { lints }
    }

    /// Runs every registered rule over one expression tree, top-down.
    pub fn check_expr_tree(&self, e: &Expr) -> (r: Vec<Diagnostic>)
        ensures
            r@ == tree_findings(self.lints@, *e),
    {
        let mut out: Vec<Diagnostic> = Vec::new();
        walk_tree(self, e, &mut out);
        out
    }

    /// One analysis pass over a file, into a fresh sink: the rules over
    /// every item, then over every node of every body.
    pub fn analyze(&self, map: &SourceMap, file: &SourceFile) -> (r: Vec<Diagnostic>)
        ensures
            r@ == file_findings(self.lints@, *map, *file),
    {
        let mut out: Vec<Diagnostic> = Vec::new();
        let mut i: usize = 0;
        while i < file.items.len()
            invariant
                0 <= i <= file.items@.len(),
                out@ == items_findings(self.lints@, *map, file.items@.subrange(0, i as int)),
            decreases file.items@.len() - i,
        {
            assert(file.items@.subrange(0, i + 1).drop_last() =~= file.items@.subrange(0, i as int));
            run_item_rules(self, map, &file.items[i], &mut out);
            i = i + 1;
        }
        assert(file.items@.subrange(0, file.items@.len() as int) =~= file.items@);
        walk_list(self, &file.bodies, &mut out);
        out
    }
}

/// The pass is deterministic: run twice over an unchanged file, with the
/// same rules and source map, it reports the same diagnostics in the same
/// order.
pub proof fn lemma_analysis_repeatable(
    lints: Seq<Lint>,
    map: SourceMap,
    first: SourceFile,
    second: SourceFile,
)
    requires
        first == second,
    ensures
        file_findings(lints, map, first) == file_findings(lints, map, second),
{
}

} // verus!
