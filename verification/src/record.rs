//! The tenant configuration record: one enabled row of the tenant
//! configuration table, decoded into plain values.

use vstd::prelude::*;

use crate::maps::StrMap;

verus! {

/// One enabled tenant configuration row. The five string columns are
/// mandatory; `labels` and `params` are optional string-to-string maps.
#[derive(Debug, Clone, PartialEq, Eq)]
pub struct TenantConfigRecord {
    pub tenant_id: String,
    pub namespace: String,
    pub target_cluster: String,
    pub repo_url: String,
    pub repo_path: String,
    pub labels: Option<StrMap>,
    pub params: Option<StrMap>,
}

/// The mathematical shape of a record: character sequences and maps.
pub struct RecordView {
    pub tenant_id: Seq<char>,
    pub namespace: Seq<char>,
    pub target_cluster: Seq<char>,
    pub repo_url: Seq<char>,
    pub repo_path: Seq<char>,
    pub labels: Option<Map<Seq<char>, Seq<char>>>,
    pub params: Option<Map<Seq<char>, Seq<char>>>,
}

impl View for TenantConfigRecord {
    type V = RecordView;

    open spec fn view(&self) -> RecordView {
        RecordView {
            tenant_id: self.tenant_id@,
            namespace: self.namespace@,
            target_cluster: self.target_cluster@,
            repo_url: self.repo_url@,
            repo_path: self.repo_path@,
            labels: match self.labels {
                Some(l) => Some(l@),
                None => None,
            },
            params: match self.params {
                Some(p) => Some(p@),
                None => None,
            },
        }
    }
}

impl DeepView for TenantConfigRecord {
    type V = RecordView;

    open spec fn deep_view(&self) -> RecordView {
        self.view()
    }
}

} // verus!
