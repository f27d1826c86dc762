//! Reading key/value entries out of the annotations on a declaration.
use vstd::prelude::*;

use crate::syntax::{Attribute, MetaEntry, Span};
use crate::text::str_eq;

verus! {

/// The string values of the entries keyed `key`, each with the span of its
/// entry, in order. Entries without a string value are skipped.
pub open spec fn entry_values(entries: Seq<MetaEntry>, key: Seq<char>) -> Seq<(Span, String)>
    decreases entries.len(),
{
    if entries.len() == 0 {
        Seq::empty()
    } else {
        let rest = entry_values(entries.drop_last(), key);
        match entries.last() {
            MetaEntry::Item { key: k, value: Some(v), span } => if k@ == key {
                rest.push((span, v))
            } else {
                rest
            },
            _ => rest,
        }
    }
}

/// The values of `key` over every annotation of namespace `ns`, in source
/// order. An annotation that is no list yields nothing.
pub open spec fn annotation_values(attrs: Seq<Attribute>, ns: Seq<char>, key: Seq<char>) -> Seq<
    (Span, String),
>
    decreases attrs.len(),
{
    if attrs.len() == 0 {
        Seq::empty()
    } else {
        let rest = annotation_values(attrs.drop_last(), ns, key);
        let a = attrs.last();
        if a.name@ == ns && a.entries is Some {
            rest + entry_values(a.entries->0@, key)
        } else {
            rest
        }
    }
}

fn push_entry_values(entries: &Vec<MetaEntry>, key: &str, out: &mut Vec<(Span, String)>)
    ensures
        final(out)@ == old(out)@ + entry_values(entries@, key@),
{
    let ghost start = out@;
    let mut i: usize = 0;
    while i < entries.len()
        invariant
            0 <= i <= entries@.len(),
            out@ == start + entry_values(entries@.subrange(0, i as int), key@),
        decreases entries@.len() - i,
    {
        let ghost pre = entries@.subrange(0, i as int);
        assert(entries@.subrange(0, i + 1).drop_last() =~= pre);
        match &entries[i] {
            MetaEntry::Item { key: k, value: Some(v), span } => {
                if str_eq(k.as_str(), key) {
                    out.push((*span, v.clone()));
                    assert(out@ =~= start + entry_values(entries@.subrange(0, i + 1), key@));
                }
            },
            _ => {},
        }
        i = i + 1;
    }
    assert(entries@.subrange(0, entries@.len() as int) =~= entries@);
}

/// The metadata extractor: every value of `key` in the annotations of
/// namespace `namespace`, each with the span of its key/value entry, in
/// source order and with repeats kept.
pub fn extract(attrs: &Vec<Attribute>, namespace: &str, key: &str) -> (r: Vec<(Span, String)>)
    ensures
        r@ == annotation_values(attrs@, namespace@, key@),
{
    let mut out: Vec<(Span, String)> = Vec::new();
    let mut i: usize = 0;
    while i < attrs.len()
        invariant
            0 <= i <= attrs@.len(),
            out@ == annotation_values(attrs@.subrange(0, i as int), namespace@, key@),
        decreases attrs@.len() - i,
    {
        let ghost pre = attrs@.subrange(0, i as int);
        assert(attrs@.subrange(0, i + 1).drop_last() =~= pre);
        let a = &attrs[i];
        if str_eq(a.name.as_str(), namespace) {
            match &a.entries {
                Some(entries) => {
                    push_entry_values(entries, key, &mut out);
                },
                None => {},
            }
        }
        i = i + 1;
    }
    assert(attrs@.subrange(0, attrs@.len() as int) =~= attrs@);
    out
}

/// The values of `attribute_name` in the item's `serde` annotations.
pub fn find_serde_attribute_value(attrs: &Vec<Attribute>, attribute_name: &str) -> (r: Vec<
    (Span, String),
>)
    ensures
        r@ == annotation_values(attrs@, "serde"@, attribute_name@),
{
    extract(attrs, "serde", attribute_name)
}

/// `entries[k]` is an entry keyed `key` with string value `v`, at `span`.
pub open spec fn entry_gives(entries: Seq<MetaEntry>, k: int, key: Seq<char>, span: Span, v: String) -> bool {
    0 <= k < entries.len() && match entries[k] {
        MetaEntry::Item { key: kk, value: Some(vv), span: s } => kk@ == key && vv == v && s == span,
        _ => false,
    }
}

/// Annotation `a` of `attrs` has namespace `ns`, and its entry `k` is keyed
/// `key` with value `v` at `span`.
pub open spec fn annotation_gives(
    attrs: Seq<Attribute>,
    a: int,
    k: int,
    ns: Seq<char>,
    key: Seq<char>,
    span: Span,
    v: String,
) -> bool {
    &&& 0 <= a < attrs.len()
    &&& attrs[a].name@ == ns
    &&& attrs[a].entries is Some
    &&& entry_gives(attrs[a].entries->0@, k, key, span, v)
}

proof fn lemma_entry_value_origin(entries: Seq<MetaEntry>, key: Seq<char>, j: int)
    requires
        0 <= j < entry_values(entries, key).len(),
    ensures
        exists|k: int|
            entry_gives(entries, k, key, entry_values(entries, key)[j].0, entry_values(entries, key)[j].1),
    decreases entries.len(),
{
    let vals = entry_values(entries, key);
    let rest = entry_values(entries.drop_last(), key);
    if j < rest.len() {
        assert(vals[j] == rest[j]);
        lemma_entry_value_origin(entries.drop_last(), key, j);
        let k = choose|k: int| #[trigger] entry_gives(entries.drop_last(), k, key, rest[j].0, rest[j].1);
        assert(entry_gives(entries, k, key, vals[j].0, vals[j].1));
    } else {
        match entries.last() {
            MetaEntry::Item { key: kk, value: Some(vv), span } => {
                assert(kk@ == key);
                assert(vals == rest.push((span, vv)));
                assert(entry_gives(entries, entries.len() - 1, key, vals[j].0, vals[j].1));
            },
            _ => {
                assert(vals == rest);
            },
        }
    }
}

/// Every value that the extractor returns, with its span, comes from one
/// keyed entry of one annotation of the asked namespace: the span is that
/// entry's own span, not the annotation's.
pub proof fn lemma_value_origin(attrs: Seq<Attribute>, ns: Seq<char>, key: Seq<char>, j: int)
    requires
        0 <= j < annotation_values(attrs, ns, key).len(),
    ensures
        exists|a: int, k: int|
            annotation_gives(
                attrs,
                a,
                k,
                ns,
                key,
                annotation_values(attrs, ns, key)[j].0,
                annotation_values(attrs, ns, key)[j].1,
            ),
    decreases attrs.len(),
{
    let vals = annotation_values(attrs, ns, key);
    let rest = annotation_values(attrs.drop_last(), ns, key);
    if j < rest.len() {
        lemma_value_origin(attrs.drop_last(), ns, key, j);
        let (a, k) = choose|a: int, k: int|
            annotation_gives(attrs.drop_last(), a, k, ns, key, rest[j].0, rest[j].1);
        assert(annotation_gives(attrs, a, k, ns, key, vals[j].0, vals[j].1));
    } else {
        let last = attrs.last();
        let ev = entry_values(last.entries->0@, key);
        assert(vals[j] == ev[j - rest.len()]);
        lemma_entry_value_origin(last.entries->0@, key, j - rest.len());
        let k = choose|k: int|
            #[trigger] entry_gives(last.entries->0@, k, key, ev[j - rest.len()].0, ev[j - rest.len()].1);
        assert(annotation_gives(attrs, attrs.len() - 1, k, ns, key, vals[j].0, vals[j].1));
    }
}

} // verus!
