//! The engine's guarantees, stated and proved once and for all: what an
//! unfiltered request returns, what a filtered request may and must contain,
//! and how flattening treats the nested maps and key collisions.

use vstd::prelude::*;
use vstd::seq_lib::*;

use crate::engine::{
    flatten_spec, label_match, project_spec, retained, text_entries, OutValueView,
};
use crate::record::RecordView;

verus! {

proof fn lemma_filter_true<A>(s: Seq<A>, p: spec_fn(A) -> bool)
    requires
        forall|i: int| 0 <= i < s.len() ==> p(#[trigger] s[i]),
    ensures
        s.filter(p) == s,
    decreases s.len(),
{
    reveal(Seq::filter);
    if s.len() > 0 {
        assert(forall|i: int|
            0 <= i < s.drop_last().len() ==> #[trigger] s.drop_last()[i] == s[i]);
        lemma_filter_true(s.drop_last(), p);
        assert(p(s[s.len() - 1]));
        assert(s.drop_last().push(s.last()) =~= s);
    } else {
        assert(s.filter(p) =~= s);
    }
}

proof fn lemma_filter_elem<A>(s: Seq<A>, p: spec_fn(A) -> bool, i: int)
    requires
        0 <= i < s.filter(p).len(),
    ensures
        exists|j: int| 0 <= j < s.len() && p(#[trigger] s[j]) && s.filter(p)[i] == s[j],
    decreases s.len(),
{
    reveal(Seq::filter);
    if s.len() > 0 {
        let sub = s.drop_last().filter(p);
        if p(s.last()) && i == sub.len() {
            assert(s.filter(p)[i] == s.last());
            assert(s.last() == s[s.len() - 1]);
            assert(p(s[s.len() - 1]) && s.filter(p)[i] == s[s.len() - 1]);
        } else {
            lemma_filter_elem(s.drop_last(), p, i);
            let j = choose|j: int|
                0 <= j < s.drop_last().len() && p(#[trigger] s.drop_last()[j]) && sub[i]
                    == s.drop_last()[j];
            assert(s.drop_last()[j] == s[j]);
            assert(p(s[j]) && s.filter(p)[i] == s[j]);
        }
    }
}

/// Without a complete filter (either filter input absent), every record
/// appears in the output, in arrival order, as its flattened map.
pub proof fn lemma_no_filter_keeps_all(
    rs: Seq<RecordView>,
    fk: Option<Seq<char>>,
    fv: Option<Seq<char>>,
)
    requires
        fk is None || fv is None,
    ensures
        project_spec(rs, fk, fv).len() == rs.len(),
        forall|i: int| 0 <= i < rs.len() ==> project_spec(rs, fk, fv)[i] == flatten_spec(
            #[trigger] rs[i],
        ),
{
    let p = |r: RecordView| retained(r, fk, fv);
    assert(forall|i: int| 0 <= i < rs.len() ==> p(#[trigger] rs[i]));
    lemma_filter_true(rs, p);
}

/// Whether an output map is the flattened form of some record of the result
/// set that carries the label `k` with value `v`.
pub open spec fn from_matching_record(
    rs: Seq<RecordView>,
    k: Seq<char>,
    v: Seq<char>,
    m: Map<Seq<char>, OutValueView>,
) -> bool {
    exists|j: int| 0 <= j < rs.len() && label_match(#[trigger] rs[j], k, v) && m == flatten_spec(
        rs[j],
    )
}

/// With both filter inputs present, every output entry is the flattened map
/// of some record carrying the matching label — so a record whose labels
/// lack the key, hold a different value, or are absent altogether never
/// appears — and conversely every record carrying the matching label does
/// appear.
pub proof fn lemma_filter_narrows(rs: Seq<RecordView>, k: Seq<char>, v: Seq<char>)
    ensures
        forall|i: int| 0 <= i < project_spec(rs, Some(k), Some(v)).len()
            ==> from_matching_record(
            rs,
            k,
            v,
            #[trigger] project_spec(rs, Some(k), Some(v))[i],
        ),
        forall|j: int|
            0 <= j < rs.len() && label_match(#[trigger] rs[j], k, v) ==> project_spec(
                rs,
                Some(k),
                Some(v),
            ).contains(flatten_spec(rs[j])),
{
    let p = |r: RecordView| retained(r, Some(k), Some(v));
    let proj = project_spec(rs, Some(k), Some(v));
    let filtered = rs.filter(p);
    assert forall|i: int| 0 <= i < proj.len() implies from_matching_record(
        rs,
        k,
        v,
        #[trigger] proj[i],
    ) by {
        lemma_filter_elem(rs, p, i);
        let j = choose|j: int|
            0 <= j < rs.len() && p(#[trigger] rs[j]) && filtered[i] == rs[j];
        assert(proj[i] == flatten_spec(filtered[i]));
        assert(0 <= j < rs.len() && label_match(rs[j], k, v) && proj[i] == flatten_spec(rs[j]));
    };
    assert forall|j: int|
        0 <= j < rs.len() && label_match(#[trigger] rs[j], k, v) implies proj.contains(
        flatten_spec(rs[j]),
    ) by {
        rs.lemma_filter_contains(p, j);
        let fi = choose|fi: int| 0 <= fi < filtered.len() && filtered[fi] == rs[j];
        assert(proj[fi] == flatten_spec(filtered[fi]));
        assert(proj.contains(flatten_spec(rs[j])));
    };
}

/// Flattening copies every `params` entry to the top level: the flattened
/// key is always present with the `params` value, even when it collides
/// with a fixed key (so a `params` entry named `tenantId` shadows the
/// record's own tenant id — the copy, written last, wins).
pub proof fn lemma_flatten_params_override(r: RecordView, k: Seq<char>)
    requires
        r.params is Some,
        r.params.unwrap().dom().contains(k),
    ensures
        flatten_spec(r).dom().contains(k),
        flatten_spec(r)[k] == OutValueView::Text(r.params.unwrap()[k]),
{
    assert(text_entries(r.params.unwrap()).dom().contains(k));
}

/// Flattening also keeps the whole `params` map as a nested echo under the
/// key `params`, as long as no `params` entry itself shadows that key.
pub proof fn lemma_flatten_nested_echo(r: RecordView)
    requires
        r.params is Some,
        !r.params.unwrap().dom().contains("params"@),
    ensures
        flatten_spec(r).dom().contains("params"@),
        flatten_spec(r)["params"@] == OutValueView::Nested(r.params.unwrap()),
{
    assert(!text_entries(r.params.unwrap()).dom().contains("params"@));
}

/// The labels map is echoed whole under the key `labels` whenever the
/// record carries one and no `params` entry shadows that key.
pub proof fn lemma_flatten_labels_echo(r: RecordView)
    requires
        r.labels is Some,
        match r.params {
            Some(p) => !p.dom().contains("labels"@),
            None => true,
        },
    ensures
        flatten_spec(r).dom().contains("labels"@),
        flatten_spec(r)["labels"@] == OutValueView::Nested(r.labels.unwrap()),
{
    reveal_strlit("labels");
    reveal_strlit("params");
    assert("labels"@[0] == 'l' && "params"@[0] == 'p');
    assert("labels"@ != "params"@);
    if r.params is Some {
        assert(!text_entries(r.params.unwrap()).dom().contains("labels"@));
    }
}

/// Each of the five fixed output keys is present and bound to its record
/// column whenever no `params` entry shadows it.
pub proof fn lemma_flatten_fixed_keys(r: RecordView)
    requires
        match r.params {
            Some(p) => {
                &&& !p.dom().contains("tenantId"@)
                &&& !p.dom().contains("namespace"@)
                &&& !p.dom().contains("cluster"@)
                &&& !p.dom().contains("repoURL"@)
                &&& !p.dom().contains("path"@)
            },
            None => true,
        },
    ensures
        flatten_spec(r).dom().contains("tenantId"@) && flatten_spec(r)["tenantId"@]
            == OutValueView::Text(r.tenant_id),
        flatten_spec(r).dom().contains("namespace"@) && flatten_spec(r)["namespace"@]
            == OutValueView::Text(r.namespace),
        flatten_spec(r).dom().contains("cluster"@) && flatten_spec(r)["cluster"@]
            == OutValueView::Text(r.target_cluster),
        flatten_spec(r).dom().contains("repoURL"@) && flatten_spec(r)["repoURL"@]
            == OutValueView::Text(r.repo_url),
        flatten_spec(r).dom().contains("path"@) && flatten_spec(r)["path"@]
            == OutValueView::Text(r.repo_path),
{
    reveal_strlit("tenantId");
    reveal_strlit("namespace");
    reveal_strlit("cluster");
    reveal_strlit("repoURL");
    reveal_strlit("path");
    reveal_strlit("labels");
    reveal_strlit("params");
    assert("tenantId"@.len() == 8);
    assert("namespace"@.len() == 9);
    assert("cluster"@.len() == 7);
    assert("repoURL"@.len() == 7);
    assert("path"@.len() == 4);
    assert("labels"@.len() == 6);
    assert("params"@.len() == 6);
    assert("cluster"@[0] == 'c' && "repoURL"@[0] == 'r');
    assert("cluster"@ != "repoURL"@);
    assert("labels"@[0] == 'l' && "params"@[0] == 'p');
    assert("labels"@ != "params"@);
    if r.params is Some {
        assert(!text_entries(r.params.unwrap()).dom().contains("tenantId"@));
        assert(!text_entries(r.params.unwrap()).dom().contains("namespace"@));
        assert(!text_entries(r.params.unwrap()).dom().contains("cluster"@));
        assert(!text_entries(r.params.unwrap()).dom().contains("repoURL"@));
        assert(!text_entries(r.params.unwrap()).dom().contains("path"@));
    }
}

} // verus!
