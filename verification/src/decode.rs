//! Decoding of raw database rows into tenant configuration records.
//!
//! A row arrives as seven column values. The five mandatory columns must be
//! strings and the two optional ones must each be a string-to-string map or
//! null; any missing column or type mismatch fails the whole result set —
//! there is no per-row skip-and-continue for decode errors.

use vstd::prelude::*;
use vstd::string::*;

use crate::error::AppError;
use crate::maps::StrMap;
use crate::record::{RecordView, TenantConfigRecord};

verus! {

/// One column value of a raw row: a string, a string-to-string map, a null
/// (absent optional column), or anything else (a type mismatch).
#[derive(Debug, Clone, PartialEq, Eq)]
pub enum DbValue {
    Text(String),
    Table(StrMap),
    Null,
    Other,
}

pub enum DbValueView {
    Text(Seq<char>),
    Table(Map<Seq<char>, Seq<char>>),
    Null,
    Other,
}

impl View for DbValue {
    type V = DbValueView;

    open spec fn view(&self) -> DbValueView {
        match self {
            DbValue::Text(s) => DbValueView::Text(s@),
            DbValue::Table(m) => DbValueView::Table(m@),
            DbValue::Null => DbValueView::Null,
            DbValue::Other => DbValueView::Other,
        }
    }
}

impl DeepView for DbValue {
    type V = DbValueView;

    open spec fn deep_view(&self) -> DbValueView {
        self.view()
    }
}

/// One raw row of the tenant configuration query, column by column.
#[derive(Debug, Clone, PartialEq, Eq)]
pub struct RawRow {
    pub tenant_id: DbValue,
    pub namespace: DbValue,
    pub target_cluster: DbValue,
    pub repo_url: DbValue,
    pub repo_path: DbValue,
    pub labels: DbValue,
    pub params: DbValue,
}

pub struct RawRowView {
    pub tenant_id: DbValueView,
    pub namespace: DbValueView,
    pub target_cluster: DbValueView,
    pub repo_url: DbValueView,
    pub repo_path: DbValueView,
    pub labels: DbValueView,
    pub params: DbValueView,
}

impl View for RawRow {
    type V = RawRowView;

    open spec fn view(&self) -> RawRowView {
        RawRowView {
            tenant_id: self.tenant_id@,
            namespace: self.namespace@,
            target_cluster: self.target_cluster@,
            repo_url: self.repo_url@,
            repo_path: self.repo_path@,
            labels: self.labels@,
            params: self.params@,
        }
    }
}

impl DeepView for RawRow {
    type V = RawRowView;

    open spec fn deep_view(&self) -> RawRowView {
        self.view()
    }
}

/// Whether a raw row is well-typed: every mandatory column a string, every
/// optional column a map or null.
pub open spec fn row_ok(r: RawRowView) -> bool {
    &&& r.tenant_id is Text
    &&& r.namespace is Text
    &&& r.target_cluster is Text
    &&& r.repo_url is Text
    &&& r.repo_path is Text
    &&& (r.labels is Table || r.labels is Null)
    &&& (r.params is Table || r.params is Null)
}

pub open spec fn text_col(v: DbValueView) -> Seq<char> {
    match v {
        DbValueView::Text(s) => s,
        _ => Seq::empty(),
    }
}

pub open spec fn map_col(v: DbValueView) -> Option<Map<Seq<char>, Seq<char>>> {
    match v {
        DbValueView::Table(m) => Some(m),
        _ => None,
    }
}

/// The record a well-typed raw row decodes to.
pub open spec fn decoded_row(r: RawRowView) -> RecordView {
    RecordView {
        tenant_id: text_col(r.tenant_id),
        namespace: text_col(r.namespace),
        target_cluster: text_col(r.target_cluster),
        repo_url: text_col(r.repo_url),
        repo_path: text_col(r.repo_path),
        labels: map_col(r.labels),
        params: map_col(r.params),
    }
}

/// Decodes one raw row; any missing mandatory string column or type
/// mismatch is an internal error.
pub fn decode_row(row: &RawRow) -> (r: Result<TenantConfigRecord, AppError>)
    ensures
        row_ok(row@) ==> (r matches Ok(rec) && rec@ == decoded_row(row@)),
        !row_ok(row@) ==> (r matches Err(e) && e is Internal),
{
    let tenant_id = match &row.tenant_id {
        DbValue::Text(s) => s.clone(),
        _ => {
            return Err(AppError::Internal(String::from_str("row decode failed")));
        },
    };
    let namespace = match &row.namespace {
        DbValue::Text(s) => s.clone(),
        _ => {
            return Err(AppError::Internal(String::from_str("row decode failed")));
        },
    };
    let target_cluster = match &row.target_cluster {
        DbValue::Text(s) => s.clone(),
        _ => {
            return Err(AppError::Internal(String::from_str("row decode failed")));
        },
    };
    let repo_url = match &row.repo_url {
        DbValue::Text(s) => s.clone(),
        _ => {
            return Err(AppError::Internal(String::from_str("row decode failed")));
        },
    };
    let repo_path = match &row.repo_path {
        DbValue::Text(s) => s.clone(),
        _ => {
            return Err(AppError::Internal(String::from_str("row decode failed")));
        },
    };
    let labels = match &row.labels {
        DbValue::Table(m) => Some(m.duplicate()),
        DbValue::Null => None,
        _ => {
            return Err(AppError::Internal(String::from_str("row decode failed")));
        },
    };
    let params = match &row.params {
        DbValue::Table(m) => Some(m.duplicate()),
        DbValue::Null => None,
        _ => {
            return Err(AppError::Internal(String::from_str("row decode failed")));
        },
    };
    Ok(TenantConfigRecord { tenant_id, namespace, target_cluster, repo_url, repo_path, labels, params })
}

/// Decodes the whole result set; one bad row fails everything — the result
/// is `Ok` exactly when every row is well-typed.
pub fn decode_rows(rows: &Vec<RawRow>) -> (r: Result<Vec<TenantConfigRecord>, AppError>)
    ensures
        r matches Ok(recs) ==> {
            &&& forall|i: int| 0 <= i < rows.deep_view().len() ==> row_ok(
                #[trigger] rows.deep_view()[i],
            )
            &&& recs.deep_view() == rows.deep_view().map_values(|rv: RawRowView| decoded_row(rv))
        },
        r matches Err(e) ==> e is Internal && exists|i: int|
            0 <= i < rows.deep_view().len() && !row_ok(#[trigger] rows.deep_view()[i]),
{
    let mut out: Vec<TenantConfigRecord> = Vec::new();
    let n = rows.len();
    let mut i: usize = 0;
    proof {
        assert(out.deep_view() =~= rows.deep_view().take(0).map_values(
            |rv: RawRowView| decoded_row(rv),
        ));
    }
    while i < n
        invariant
            i <= n,
            n == rows@.len(),
            forall|j: int| 0 <= j < i ==> row_ok(#[trigger] rows.deep_view()[j]),
            out.deep_view() == rows.deep_view().take(i as int).map_values(
                |rv: RawRowView| decoded_row(rv),
            ),
        decreases n - i,
    {
        let rec = match decode_row(&rows[i]) {
            Ok(rec) => rec,
            Err(e) => {
                proof {
                    assert(!row_ok(rows.deep_view()[i as int]));
                }
                return Err(e);
            },
        };
        proof {
            rows.deep_view().lemma_map_take_succ(|rv: RawRowView| decoded_row(rv), i as int);
        }
        out.push(rec);
        i = i + 1;
    }
    proof {
        assert(rows.deep_view().take(n as int) =~= rows.deep_view());
    }
    Ok(out)
}

} // verus!
