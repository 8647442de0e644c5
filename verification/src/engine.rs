//! The filter & transform engine: applies the caller's optional
//! label-equality filter to the decoded tenant records and flattens each
//! surviving record into one string-keyed output map.

use vstd::prelude::*;
use vstd::string::*;

use crate::maps::{entries_map, lemma_entries_map_push, KvList, StrMap};
use crate::record::{RecordView, TenantConfigRecord};

verus! {

/// One value of a per-tenant output map: a plain string, or a nested
/// string-to-string map (the `labels` / `params` echoes).
#[derive(Debug, Clone, PartialEq, Eq)]
pub enum OutValue {
    Text(String),
    Nested(StrMap),
}

pub enum OutValueView {
    Text(Seq<char>),
    Nested(Map<Seq<char>, Seq<char>>),
}

impl View for OutValue {
    type V = OutValueView;

    open spec fn view(&self) -> OutValueView {
        match self {
            OutValue::Text(s) => OutValueView::Text(s@),
            OutValue::Nested(m) => OutValueView::Nested(m@),
        }
    }
}

impl DeepView for OutValue {
    type V = OutValueView;

    open spec fn deep_view(&self) -> OutValueView {
        self.view()
    }
}

/// One per-tenant entry of the response: a flattened string-keyed map.
pub type OutMap = KvList<OutValue>;

/// A string-to-string map seen as output-map entries.
pub open spec fn text_entries(m: Map<Seq<char>, Seq<char>>) -> Map<Seq<char>, OutValueView> {
    Map::new(|k: Seq<char>| m.dom().contains(k), |k: Seq<char>| OutValueView::Text(m[k]))
}

/// The five fixed output keys, bound to the record's mandatory columns.
pub open spec fn fixed_entries(r: RecordView) -> Map<Seq<char>, OutValueView> {
    Map::empty()
        .insert("tenantId"@, OutValueView::Text(r.tenant_id))
        .insert("namespace"@, OutValueView::Text(r.namespace))
        .insert("cluster"@, OutValueView::Text(r.target_cluster))
        .insert("repoURL"@, OutValueView::Text(r.repo_url))
        .insert("path"@, OutValueView::Text(r.repo_path))
}

/// The fixed keys plus the nested `labels` and `params` echoes, each present
/// exactly when the record carries the map.
pub open spec fn nested_entries(r: RecordView) -> Map<Seq<char>, OutValueView> {
    let with_labels = match r.labels {
        Some(l) => fixed_entries(r).insert("labels"@, OutValueView::Nested(l)),
        None => fixed_entries(r),
    };
    match r.params {
        Some(p) => with_labels.insert("params"@, OutValueView::Nested(p)),
        None => with_labels,
    }
}

/// The flattened output map of one record: the fixed keys, the nested
/// echoes, and every `params` entry copied to the top level last, so that a
/// copied entry overrides any key it collides with.
pub open spec fn flatten_spec(r: RecordView) -> Map<Seq<char>, OutValueView> {
    match r.params {
        Some(p) => nested_entries(r).union_prefer_right(text_entries(p)),
        None => nested_entries(r),
    }
}

/// Whether a record carries the label `k` with value exactly `v`.
pub open spec fn label_match(r: RecordView, k: Seq<char>, v: Seq<char>) -> bool {
    match r.labels {
        Some(l) => l.dom().contains(k) && l[k] == v,
        None => false,
    }
}

/// Whether a record survives the optional filter: with both filter inputs
/// present it must carry the matching label; with either absent (a missing
/// or half-specified filter) every record survives.
pub open spec fn retained(r: RecordView, fk: Option<Seq<char>>, fv: Option<Seq<char>>) -> bool {
    match (fk, fv) {
        (Some(k), Some(v)) => label_match(r, k, v),
        _ => true,
    }
}

/// The whole engine on one result set: the surviving records, in arrival
/// order, each flattened.
pub open spec fn project_spec(
    rs: Seq<RecordView>,
    fk: Option<Seq<char>>,
    fv: Option<Seq<char>>,
) -> Seq<Map<Seq<char>, OutValueView>> {
    rs.filter(|r: RecordView| retained(r, fk, fv)).map_values(
        |r: RecordView| flatten_spec(r),
    )
}

pub proof fn lemma_project_spec_push(
    rs: Seq<RecordView>,
    r: RecordView,
    fk: Option<Seq<char>>,
    fv: Option<Seq<char>>,
)
    ensures
        project_spec(rs.push(r), fk, fv) == if retained(r, fk, fv) {
            project_spec(rs, fk, fv).push(flatten_spec(r))
        } else {
            project_spec(rs, fk, fv)
        },
{
    reveal_with_fuel(Seq::filter, 2);
    let p = |rv: RecordView| retained(rv, fk, fv);
    let f = |rv: RecordView| flatten_spec(rv);
    assert(rs.push(r) =~= rs + seq![r]);
    Seq::filter_distributes_over_add(rs, seq![r], p);
    assert(seq![r].drop_last() =~= Seq::<RecordView>::empty());
    if p(r) {
        assert(seq![r].filter(p) =~= seq![r]);
        assert(rs.filter(p) + seq![r] =~= rs.filter(p).push(r));
        rs.filter(p).lemma_push_map_commute(f, r);
    } else {
        assert(seq![r].filter(p) =~= Seq::<RecordView>::empty());
        assert(rs.filter(p) + Seq::<RecordView>::empty() =~= rs.filter(p));
    }
}

/// Whether the record carries label `k` with value exactly equal to `v`.
pub fn record_matches(rec: &TenantConfigRecord, k: &String, v: &String) -> (r: bool)
    ensures
        r == label_match(rec@, k@, v@),
{
    match &rec.labels {
        None => false,
        Some(l) => match l.get(k) {
            Some(val) => *val == *v,
            None => false,
        },
    }
}

/// Flattens one record into its output map: the five fixed keys, then the
/// nested `labels` and `params` echoes when present, then every `params`
/// entry copied to the top level, the copies written last so that they win
/// any key collision.
pub fn flatten(rec: &TenantConfigRecord) -> (r: OutMap)
    ensures
        r@ == flatten_spec(rec@),
{
    let mut out: OutMap = KvList::new();
    out.insert(String::from_str("tenantId"), OutValue::Text(rec.tenant_id.clone()));
    out.insert(String::from_str("namespace"), OutValue::Text(rec.namespace.clone()));
    out.insert(String::from_str("cluster"), OutValue::Text(rec.target_cluster.clone()));
    out.insert(String::from_str("repoURL"), OutValue::Text(rec.repo_url.clone()));
    out.insert(String::from_str("path"), OutValue::Text(rec.repo_path.clone()));
    assert(out@ == fixed_entries(rec@));
    match &rec.labels {
        Some(l) => {
            out.insert(String::from_str("labels"), OutValue::Nested(l.duplicate()));
        },
        None => {},
    }
    match &rec.params {
        Some(p) => {
            out.insert(String::from_str("params"), OutValue::Nested(p.duplicate()));
            assert(out@ == nested_entries(rec@));
            let ghost base = nested_entries(rec@);
            proof {
                assert(entries_map(p.entries@.take(0)) =~= Map::<Seq<char>, Seq<char>>::empty());
                assert(base.union_prefer_right(text_entries(entries_map(p.entries@.take(0))))
                    =~= base);
            }
            let n = p.entries.len();
            let mut i: usize = 0;
            while i < n
                invariant
                    i <= n,
                    n == p.entries@.len(),
                    base == nested_entries(rec@),
                    out@ == base.union_prefer_right(
                        text_entries(entries_map(p.entries@.take(i as int))),
                    ),
                decreases n - i,
            {
                let k = p.entries[i].0.clone();
                let v = p.entries[i].1.clone();
                proof {
                    let s = p.entries@;
                    let prefix = entries_map(s.take(i as int));
                    assert(s.take(i as int + 1) =~= s.take(i as int).push(s[i as int]));
                    lemma_entries_map_push(s.take(i as int), s[i as int]);
                    assert(text_entries(prefix.insert(k@, v@)) =~= text_entries(prefix).insert(
                        k@,
                        OutValueView::Text(v@),
                    ));
                    assert(base.union_prefer_right(text_entries(prefix)).insert(
                        k@,
                        OutValueView::Text(v@),
                    ) =~= base.union_prefer_right(
                        text_entries(prefix).insert(k@, OutValueView::Text(v@)),
                    ));
                }
                out.insert(k, OutValue::Text(v));
                i = i + 1;
            }
            proof {
                assert(p.entries@.take(n as int) =~= p.entries@);
            }
        },
        None => {
            assert(out@ == nested_entries(rec@));
        },
    }
    out
}

/// Applies the optional label filter in arrival order and flattens each
/// surviving record. With either filter input absent, nothing is dropped.
pub fn project(
    records: &Vec<TenantConfigRecord>,
    fk: &Option<String>,
    fv: &Option<String>,
) -> (r: Vec<OutMap>)
    ensures
        r.deep_view() == project_spec(records.deep_view(), fk.deep_view(), fv.deep_view()),
{
    let ghost gfk = fk.deep_view();
    let ghost gfv = fv.deep_view();
    let mut out: Vec<OutMap> = Vec::new();
    let n = records.len();
    let mut i: usize = 0;
    proof {
        assert(records.deep_view().take(0) =~= Seq::<RecordView>::empty());
        assert(project_spec(Seq::<RecordView>::empty(), gfk, gfv) =~= Seq::<
            Map<Seq<char>, OutValueView>,
        >::empty());
        assert(out.deep_view() =~= Seq::<Map<Seq<char>, OutValueView>>::empty());
    }
    while i < n
        invariant
            i <= n,
            n == records@.len(),
            gfk == fk.deep_view(),
            gfv == fv.deep_view(),
            out.deep_view() == project_spec(records.deep_view().take(i as int), gfk, gfv),
        decreases n - i,
    {
        let rec = &records[i];
        let keep: bool = if fk.is_some() && fv.is_some() {
            record_matches(rec, fk.as_ref().unwrap(), fv.as_ref().unwrap())
        } else {
            true
        };
        proof {
            assert(keep == retained(rec@, gfk, gfv));
            assert(records.deep_view().take(i as int + 1) =~= records.deep_view().take(
                i as int,
            ).push(rec@));
            lemma_project_spec_push(records.deep_view().take(i as int), rec@, gfk, gfv);
        }
        if keep {
            let flat = flatten(rec);
            out.push(flat);
            proof {
                assert(out.deep_view() =~= project_spec(
                    records.deep_view().take(i as int + 1),
                    gfk,
                    gfv,
                ));
            }
        }
        i = i + 1;
    }
    proof {
        assert(records.deep_view().take(n as int) =~= records.deep_view());
    }
    out
}

} // verus!
