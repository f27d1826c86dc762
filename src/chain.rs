//! Builder chains: walking from a method call back to the constructor
//! that begins it, and the queries the rules make on the result.
use vstd::prelude::*;

use crate::syntax::{Expr, Ident, QPath, Span, Ty};
use crate::text::str_eq;

verus! {

/// The longest chain the walker follows; a longer one is treated as no
/// builder chain at all.
pub const MAX_CHAIN_LINKS: usize = 256;

/// The type whose constructors begin a builder chain.
pub open spec fn builder_type_name() -> Seq<char> {
    "OperationBuilder"@
}

/// The constructors of the builder: one per HTTP method.
pub open spec fn is_http_method_name(s: Seq<char>) -> bool {
    s == "get"@ || s == "post"@ || s == "put"@ || s == "patch"@ || s == "delete"@ || s
        == "head"@ || s == "options"@
}

/// Whether `name` is one of the builder's constructor names.
pub fn is_http_method(name: &str) -> (r: bool)
    ensures
        r == is_http_method_name(name@),
{
    str_eq(name, "get") || str_eq(name, "post") || str_eq(name, "put") || str_eq(name, "patch")
        || str_eq(name, "delete") || str_eq(name, "head") || str_eq(name, "options")
}

pub open spec fn some_segment_is_method(segs: Seq<Ident>) -> bool {
    exists|i: int| 0 <= i < segs.len() && is_http_method_name(#[trigger] segs[i].name@)
}

pub open spec fn some_segment_is_builder(segs: Seq<Ident>) -> bool {
    exists|i: int| 0 <= i < segs.len() && (#[trigger] segs[i]).name@ == builder_type_name()
}

/// Whether a callee denotes a builder constructor, in either path form.
pub open spec fn is_origin_callee(callee: Expr) -> bool {
    match callee {
        Expr::Path { path: QPath::Resolved(segs), .. } => some_segment_is_method(segs@)
            && some_segment_is_builder(segs@),
        Expr::Path { path: QPath::TypeRelative(Ty::Path(segs), seg), .. } => is_http_method_name(
            seg.name@,
        ) && some_segment_is_builder(segs@),
        _ => false,
    }
}

/// One method call of a chain, as the spec sees it: the method's name
/// token and its arguments.
pub type LinkView = (Ident, Vec<Expr>);

/// The chain that `e` ends, from the origin outward, or `None` where `e`
/// is no builder chain.
pub open spec fn chain_of(e: Expr) -> Option<Seq<LinkView>>
    decreases e,
{
    match e {
        Expr::MethodCall { method, receiver, args, .. } => match chain_of(*receiver) {
            Some(c) => Some(c.push((method, args))),
            None => None,
        },
        Expr::Call { callee, .. } => if is_origin_callee(*callee) {
            Some(Seq::empty())
        } else {
            None
        },
        _ => None,
    }
}

/// What the walker reports: the chain, where it is no longer than the
/// bound.
pub open spec fn reconstructed(e: Expr) -> Option<Seq<LinkView>> {
    match chain_of(e) {
        Some(c) => if c.len() <= MAX_CHAIN_LINKS {
            Some(c)
        } else {
            None
        },
        None => None,
    }
}

/// One method call of a reconstructed chain, borrowed from the tree.
pub struct ChainLink<'a> {
    pub method: &'a Ident,
    pub args: &'a Vec<Expr>,
}

pub open spec fn link_view(l: ChainLink) -> LinkView {
    (*l.method, *l.args)
}

pub open spec fn links_view(ls: Seq<ChainLink>) -> Seq<LinkView> {
    ls.map_values(|l: ChainLink| link_view(l))
}

fn any_segment_is_method(segs: &Vec<Ident>) -> (r: bool)
    ensures
        r == some_segment_is_method(segs@),
{
    let mut i: usize = 0;
    while i < segs.len()
        invariant
            0 <= i <= segs@.len(),
            forall|j: int| 0 <= j < i ==> !is_http_method_name(#[trigger] segs@[j].name@),
        decreases segs@.len() - i,
    {
        if is_http_method(segs[i].name.as_str()) {
            return true;
        }
        i = i + 1;
    }
    false
}

fn any_segment_is_builder(segs: &Vec<Ident>) -> (r: bool)
    ensures
        r == some_segment_is_builder(segs@),
{
    let mut i: usize = 0;
    while i < segs.len()
        invariant
            0 <= i <= segs@.len(),
            forall|j: int| 0 <= j < i ==> (#[trigger] segs@[j]).name@ != builder_type_name(),
        decreases segs@.len() - i,
    {
        if str_eq(segs[i].name.as_str(), "OperationBuilder") {
            return true;
        }
        i = i + 1;
    }
    false
}

/// Whether `callee` denotes a builder constructor.
pub fn is_origin(callee: &Expr) -> (r: bool)
    ensures
        r == is_origin_callee(*callee),
{
    match callee {
        Expr::Path { path: QPath::Resolved(segs), .. } => any_segment_is_method(segs)
            && any_segment_is_builder(segs),
        Expr::Path { path: QPath::TypeRelative(Ty::Path(segs), seg), .. } => is_http_method(
            seg.name.as_str(),
        ) && any_segment_is_builder(segs),
        _ => false,
    }
}

fn walk<'a>(e: &'a Expr, budget: usize) -> (r: Option<Vec<ChainLink<'a>>>)
    ensures
        match chain_of(*e) {
            Some(c) => if c.len() <= budget {
                r is Some && links_view(r->0@) == c
            } else {
                r is None
            },
            None => r is None,
        },
    decreases e,
{
    match e {
        Expr::MethodCall { method, receiver, args, .. } => {
            if budget == 0 {
                return None;
            }
            match walk(receiver, budget - 1) {
                Some(mut links) => {
                    let ghost before = links@;
                    links.push(ChainLink { method, args });
                    proof {
                        assert(links_view(links@) =~= links_view(before).push((*method, *args)));
                    }
                    Some(links)
                },
                None => None,
            }
        },
        Expr::Call { callee, .. } => {
            if is_origin(callee) {
                let links: Vec<ChainLink<'a>> = Vec::new();
                proof {
                    assert(links_view(links@) =~= Seq::<LinkView>::empty());
                }
                Some(links)
            } else {
                None
            }
        },
        _ => None,
    }
}

/// Walks the receivers of `e` back to a builder constructor and returns
/// the method calls on it, origin first. `None` where some receiver on
/// the way is no method call, the bottom is no builder constructor, or the
/// chain is longer than `MAX_CHAIN_LINKS`.
pub fn reconstruct<'a>(e: &'a Expr) -> (r: Option<Vec<ChainLink<'a>>>)
    ensures
        match reconstructed(*e) {
            Some(c) => r is Some && links_view(r->0@) == c,
            None => r is None,
        },
{
    walk(e, MAX_CHAIN_LINKS)
}

/// Whether `e` is a call of a builder constructor.
pub open spec fn is_origin_call(e: Expr) -> bool {
    match e {
        Expr::Call { callee, .. } => is_origin_callee(*callee),
        _ => false,
    }
}

/// The expression that applies `calls` in turn, as method calls, to
/// `base`: the last call is outermost.
pub open spec fn chained(base: Expr, calls: Seq<(Ident, Vec<Expr>, Span)>) -> Expr
    decreases calls.len(),
{
    if calls.len() == 0 {
        base
    } else {
        Expr::MethodCall {
            method: calls.last().0,
            receiver: Box::new(chained(base, calls.drop_last())),
            args: calls.last().1,
            span: calls.last().2,
        }
    }
}

pub open spec fn call_links(calls: Seq<(Ident, Vec<Expr>, Span)>) -> Seq<LinkView> {
    calls.map_values(|c: (Ident, Vec<Expr>, Span)| (c.0, c.1))
}

/// N method calls chained on a builder constructor are reconstructed as
/// exactly those N calls, in source order, whenever N is within the bound.
pub proof fn lemma_chain_links(origin: Expr, calls: Seq<(Ident, Vec<Expr>, Span)>)
    requires
        is_origin_call(origin),
        calls.len() <= MAX_CHAIN_LINKS,
    ensures
        reconstructed(chained(origin, calls)) == Some(call_links(calls)),
        reconstructed(chained(origin, calls))->0.len() == calls.len(),
    decreases calls.len(),
{
    lemma_chain_of_chained(origin, calls);
}

proof fn lemma_chain_of_chained(origin: Expr, calls: Seq<(Ident, Vec<Expr>, Span)>)
    requires
        is_origin_call(origin),
    ensures
        chain_of(chained(origin, calls)) == Some(call_links(calls)),
    decreases calls.len(),
{
    if calls.len() == 0 {
        assert(call_links(calls) =~= Seq::<LinkView>::empty());
    } else {
        lemma_chain_of_chained(origin, calls.drop_last());
        assert(call_links(calls) =~= call_links(calls.drop_last()).push(
            (calls.last().0, calls.last().1),
        ));
    }
}

/// A node that is neither a method call nor a builder constructor call,
/// standing anywhere in the receiver path, leaves nothing to reconstruct:
/// the calls chained above it are discarded whole.
pub proof fn lemma_broken_chain(node: Expr, calls: Seq<(Ident, Vec<Expr>, Span)>)
    requires
        !(node is MethodCall),
        !is_origin_call(node),
    ensures
        reconstructed(chained(node, calls)) is None,
    decreases calls.len(),
{
    if calls.len() > 0 {
        lemma_broken_chain(node, calls.drop_last());
    }
}

/// Whether some call of the chain is named `name`.
pub open spec fn calls_method(c: Seq<LinkView>, name: Seq<char>) -> bool {
    exists|i: int| 0 <= i < c.len() && (#[trigger] c[i]).0.name@ == name
}

/// Whether some link of `links` calls a method named `name`.
pub fn chain_calls(links: &Vec<ChainLink>, name: &str) -> (r: bool)
    ensures
        r == calls_method(links_view(links@), name@),
{
    let mut i: usize = 0;
    while i < links.len()
        invariant
            0 <= i <= links@.len(),
            forall|j: int| 0 <= j < i ==> (#[trigger] links@[j]).method.name@ != name@,
        decreases links@.len() - i,
    {
        if str_eq(links[i].method.name.as_str(), name) {
            assert(links_view(links@)[i as int].0.name@ == name@);
            return true;
        }
        i = i + 1;
    }
    assert forall|j: int| 0 <= j < links_view(links@).len() implies (
    #[trigger] links_view(links@)[j]).0.name@ != name@ by {
        assert(links_view(links@)[j] == link_view(links@[j]));
    }
    false
}

/// The identifier that the first argument ends in, where that argument is
/// a path (`StatusCode::NOT_FOUND` gives `NOT_FOUND`).
pub open spec fn terminal_ident(args: Seq<Expr>) -> Option<Ident> {
    if args.len() == 0 {
        None
    } else {
        match args[0] {
            Expr::Path { path: QPath::Resolved(segs), .. } => if segs@.len() > 0 {
                Some(segs@.last())
            } else {
                None
            },
            Expr::Path { path: QPath::TypeRelative(_, seg), .. } => Some(seg),
            _ => None,
        }
    }
}

/// The identifier that the first argument ends in, where it is a path.
pub fn first_arg_terminal(args: &Vec<Expr>) -> (r: Option<&Ident>)
    ensures
        match r {
            Some(id) => terminal_ident(args@) == Some(*id),
            None => terminal_ident(args@) is None,
        },
{
    if args.len() == 0 {
        return None;
    }
    match &args[0] {
        Expr::Path { path: QPath::Resolved(segs), .. } => {
            if segs.len() > 0 {
                Some(&segs[segs.len() - 1])
            } else {
                None
            }
        },
        Expr::Path { path: QPath::TypeRelative(_, seg), .. } => Some(seg),
        _ => None,
    }
}

} // verus!
