use vstd::prelude::*;

use crate::partition::{assign_worker_partitions, owned_partitions, ClusterInfo, PartitionId};
use crate::query::{Direction, KeyId, LabelId, NameOrId, OneOrMany, QueryParams, RowFilter, SAMPLE_SCALE};
use crate::runtime::{EdgeRecord, RuntimeEdgeIter};
use crate::value::{encode_property, encoded_property, Object, Primitives, Property};

verus! {

/// A property id of the graph store.
pub type PropId = i32;

/// A label id of the graph store.
pub type StoreLabelId = i32;

/// A vertex id of the graph store.
pub type VertexId = i64;

/// A vertex or edge id of the query engine.
pub type ID = i64;

/// A version of the graph exposed by the store.
pub type SnapshotId = i64;

/// The key of the snapshot id among the extra parameters.
pub const SNAPSHOT_ID: &'static str = "SID";

/// The snapshot that stands for the latest graph.
pub const DEFAULT_SNAPSHOT_ID: SnapshotId = 9223372036854775806;

/// The primary key of the store's vertices.
pub const GS_STORE_PK: KeyId = 0;

/// An error of the read adapter.
#[derive(Clone, Debug)]
pub enum GraphProxyError {
    /// The store cannot answer the query.
    QueryStoreError(String),
    /// A property or filter cannot be passed down to the store.
    FilterPushDownError(String),
}

/// The value of a run of ASCII decimal digits.
pub open spec fn digits_value(s: Seq<char>) -> int
    decreases s.len(),
{
    if s.len() == 0 {
        0
    } else {
        digits_value(s.drop_last()) * 10 + ((s.last() as u32) as int - 48)
    }
}

pub open spec fn all_digits(s: Seq<char>) -> bool {
    forall|i: int| 0 <= i < s.len() ==> '0' <= #[trigger] s[i] <= '9'
}

/// The `i64` that a string denotes in decimal: an optional sign, then one or
/// more ASCII digits, with a value in range.
pub open spec fn decimal_i64(s: Seq<char>) -> Option<i64> {
    let negative = s.len() > 0 && s[0] == '-';
    let body = if s.len() > 0 && (s[0] == '-' || s[0] == '+') {
        s.drop_first()
    } else {
        s
    };
    let v = if negative {
        -digits_value(body)
    } else {
        digits_value(body)
    };
    if body.len() > 0 && all_digits(body) && i64::MIN <= v <= i64::MAX {
        Some(v as i64)
    } else {
        None
    }
}

/// Relies on `str::parse::<i64>`: it accepts an optional `+` or `-` followed
/// by ASCII digits whose value fits, and rejects anything else.
#[verifier::external_body]
fn parse_i64(s: &str) -> (r: Option<i64>)
    ensures
        r == decimal_i64(s@),
{
    s.parse::<i64>().ok()
}

/// The value stored under `key` in a list of extra parameters: the first
/// entry with that key.
pub open spec fn extra_param(extra: Seq<(String, String)>, key: Seq<char>) -> Option<Seq<char>>
    decreases extra.len(),
{
    if extra.len() == 0 {
        None
    } else if extra[0].0@ == key {
        Some(extra[0].1@)
    } else {
        extra_param(extra.drop_first(), key)
    }
}

/// The snapshot a query reads: the "SID" extra parameter parsed as an integer,
/// or the latest snapshot when it is absent or does not parse.
pub open spec fn snapshot_of(params: QueryParams) -> SnapshotId {
    match extra_param(params.extra@, SNAPSHOT_ID@) {
        Some(s) => match decimal_i64(s) {
            Some(v) => v,
            None => DEFAULT_SNAPSHOT_ID,
        },
        None => DEFAULT_SNAPSHOT_ID,
    }
}

/// Reads the snapshot id of a query.
pub fn get_snapshot_id(params: &QueryParams) -> (r: SnapshotId)
    ensures
        r == snapshot_of(*params),
{
    let key = SNAPSHOT_ID.to_owned();
    let n = params.extra.len();
    let mut i: usize = 0;
    assert(params.extra@.subrange(0, n as int) =~= params.extra@);
    while i < n
        invariant
            n == params.extra@.len(),
            i <= n,
            key@ == SNAPSHOT_ID@,
            extra_param(params.extra@, SNAPSHOT_ID@) == extra_param(
                params.extra@.subrange(i as int, n as int),
                SNAPSHOT_ID@,
            ),
        decreases n - i,
    {
        let entry = &params.extra[i];
        assert(params.extra@.subrange(i as int, n as int).drop_first() =~= params.extra@.subrange(
            i + 1,
            n as int,
        ));
        if entry.0 == key {
            return match parse_i64(entry.1.as_str()) {
                Some(v) => v,
                None => DEFAULT_SNAPSHOT_ID,
            };
        }
        i += 1;
    }
    DEFAULT_SNAPSHOT_ID
}


/// Relies on `ahash::HashSet`: collecting into a set keeps each distinct id
/// once, and collecting the set back yields each of its ids once.
#[verifier::external_body]
fn dedup_prop_ids(ids: Vec<PropId>) -> (r: Vec<PropId>)
    ensures
        r@.to_set() == ids@.to_set(),
        r@.no_duplicates(),
{
    ids.into_iter().collect::<ahash::HashSet<PropId>>().into_iter().collect()
}

/// Whether every column is named by an id.
pub open spec fn all_ids(columns: Seq<NameOrId>) -> bool {
    forall|i: int| 0 <= i < columns.len() ==> #[trigger] columns[i] is Id
}

/// The property ids of columns that are all named by ids.
pub open spec fn column_ids(columns: Seq<NameOrId>) -> Seq<PropId> {
    columns.map_values(|c: NameOrId| c->Id_0)
}

/// The ids of some optional properties, as a set.
pub open spec fn id_set(ids: Option<Seq<PropId>>) -> Set<PropId> {
    match ids {
        Some(s) => s.to_set(),
        None => Set::empty(),
    }
}

/// The property ids a filter reads.
pub open spec fn filter_props(filter: Option<RowFilter>) -> Option<Seq<PropId>> {
    match filter {
        Some(f) => match f.prop_ids {
            Some(ids) => Some(ids@),
            None => None,
        },
        None => None,
    }
}

/// The properties to request from the store when a filter needs `needed` and
/// the caller asked for `columns`: all of them (`Some` of nothing) when the
/// caller asked for all, none when neither names any, and otherwise each
/// property of either once.
pub open spec fn needed_columns(needed: Option<Seq<PropId>>, columns: Option<Seq<PropId>>, r: Option<
    Seq<PropId>,
>) -> bool {
    if columns matches Some(c) && c.len() == 0 {
        r == Some(Seq::<PropId>::empty())
    } else if needed is None && columns is None {
        r is None
    } else {
        r matches Some(v) && v.no_duplicates() && v.to_set() == id_set(needed) + id_set(columns)
    }
}

/// Encodes requested columns as store property ids; a column named by a string
/// cannot be passed to the store.
fn encode_storage_prop_keys(prop_names: Option<&Vec<NameOrId>>) -> (r: Result<
    Option<Vec<PropId>>,
    GraphProxyError,
>)
    ensures
        match prop_names {
            None => r matches Ok(None),
            Some(c) => if all_ids(c@) {
                r matches Ok(Some(ids)) && ids@ == column_ids(c@)
            } else {
                r matches Err(GraphProxyError::FilterPushDownError(_))
            },
        },
{
    match prop_names {
        None => Ok(None),
        Some(names) => {
            let mut ids: Vec<PropId> = Vec::new();
            let mut i: usize = 0;
            let mut failed = false;
            while i < names.len() && !failed
                invariant
                    i <= names.len(),
                    all_ids(names@.take(i as int)),
                    ids@ == column_ids(names@.take(i as int)),
                    failed ==> i < names.len() && !(names@[i as int] is Id),
                decreases names.len() - i, if failed { 0int } else { 1int },
            {
                match &names[i] {
                    NameOrId::Str(_) => {
                        failed = true;
                    },
                    NameOrId::Id(id) => {
                        ids.push(*id);
                        i += 1;
                        assert(names@.take(i as int).drop_last() =~= names@.take(i - 1));
                        assert(ids@ =~= column_ids(names@.take(i as int)));
                    },
                }
            }
            if failed {
                return Err(
                    GraphProxyError::FilterPushDownError(
                        "encode storage prop key error, should provide prop_id".to_string(),
                    ),
                );
            }
            assert(names@.take(names.len() as int) =~= names@);
            Ok(Some(ids))
        },
    }
}

/// The properties that the store must return so that the filter can run here
/// and the caller gets the columns it asked for.
fn extract_needed_columns(filter: Option<&RowFilter>, out_columns: Option<&Vec<PropId>>) -> (r:
    Option<Vec<PropId>>)
    ensures
        needed_columns(
            filter_props(
                match filter {
                    Some(f) => Some(*f),
                    None => None,
                },
            ),
            match out_columns {
                Some(c) => Some(c@),
                None => None,
            },
            match r {
                Some(v) => Some(v@),
                None => None,
            },
        ),
{
    if let Some(cols) = out_columns {
        if cols.len() == 0 {
            let r: Vec<PropId> = Vec::new();
            assert(r@ =~= Seq::<PropId>::empty());
            return Some(r);
        }
    }
    let mut all: Vec<PropId> = Vec::new();
    let mut any = false;
    if let Some(f) = filter {
        if let Some(ids) = &f.prop_ids {
            append_ids(&mut all, ids);
            any = true;
        }
    }
    if let Some(cols) = out_columns {
        append_ids(&mut all, cols);
        any = true;
    }
    if !any {
        return None;
    }
    let ghost joined = all@;
    let r = dedup_prop_ids(all);
    proof {
        let needed = filter_props(
            match filter {
                Some(f) => Some(*f),
                None => None,
            },
        );
        let columns = match out_columns {
            Some(c) => Some(c@),
            None => None,
        };
        match needed {
            Some(a) => match columns {
                Some(b) => {
                    lemma_concat_to_set(a, b);
                },
                None => assert(joined =~= a + Seq::<PropId>::empty()),
            },
            None => match columns {
                Some(b) => assert(joined =~= Seq::<PropId>::empty() + b),
                None => {},
            },
        }
        assert(joined.to_set() =~= id_set(needed) + id_set(columns));
    }
    Some(r)
}

proof fn lemma_concat_to_set(a: Seq<PropId>, b: Seq<PropId>)
    ensures
        (a + b).to_set() == a.to_set() + b.to_set(),
{
    assert forall|x: PropId| (a + b).contains(x) <==> (a.contains(x) || b.contains(x)) by {
        if (a + b).contains(x) {
            let k = choose|k: int| 0 <= k < (a + b).len() && (a + b)[k] == x;
            if k < a.len() {
                assert(a[k] == x);
            } else {
                assert(b[k - a.len()] == x);
            }
        }
        if a.contains(x) {
            let k = choose|k: int| 0 <= k < a.len() && a[k] == x;
            assert((a + b)[k] == x);
        }
        if b.contains(x) {
            let k = choose|k: int| 0 <= k < b.len() && b[k] == x;
            assert((a + b)[k + a.len()] == x);
        }
    }
    assert((a + b).to_set() =~= a.to_set() + b.to_set());
}

fn append_ids(all: &mut Vec<PropId>, ids: &Vec<PropId>)
    ensures
        final(all)@ == old(all)@ + ids@,
{
    let ghost start = all@;
    let mut i: usize = 0;
    while i < ids.len()
        invariant
            i <= ids.len(),
            all@ == start + ids@.take(i as int),
        decreases ids.len() - i,
    {
        all.push(ids[i]);
        i += 1;
        assert(all@ =~= start + ids@.take(i as int));
    }
    assert(ids@.take(ids.len() as int) =~= ids@);
}


/// How a query's row filter is carried out: whether its condition is passed
/// to the store, and whether it must run here on what the store returns.
pub open spec fn filter_plan(filter: Option<RowFilter>, pushdown: bool) -> (bool, bool) {
    match filter {
        Some(f) => if pushdown && f.convertible {
            (true, false)
        } else {
            (false, true)
        },
        None => (false, false),
    }
}

/// Decides where a row filter runs: in the store when push-down is on and the
/// filter converts to a store condition, here otherwise.
fn encode_storage_row_filter_condition(row_filter: Option<&RowFilter>, row_filter_pushdown: bool) -> (r:
    (bool, bool))
    ensures
        r == filter_plan(
            match row_filter {
                Some(f) => Some(*f),
                None => None,
            },
            row_filter_pushdown,
        ),
{
    match row_filter {
        Some(f) => if row_filter_pushdown && f.convertible {
            (true, false)
        } else {
            (false, true)
        },
        None => (false, false),
    }
}

/// Encodes query labels as store labels.
fn encode_storage_labels(labels: &Vec<LabelId>) -> (r: Vec<StoreLabelId>)
    ensures
        r@ == labels@,
{
    let mut out: Vec<StoreLabelId> = Vec::new();
    let mut i: usize = 0;
    while i < labels.len()
        invariant
            i <= labels.len(),
            out@ == labels@.take(i as int),
        decreases labels.len() - i,
    {
        out.push(encode_storage_label(labels[i]));
        i += 1;
        assert(out@ =~= labels@.take(i as int));
    }
    assert(labels@.take(labels.len() as int) =~= labels@);
    out
}

fn encode_storage_label(label: LabelId) -> (r: StoreLabelId)
    ensures
        r == label,
{
    label
}

/// "All properties", as the store reads it.
fn get_all_storage_props() -> (r: Option<Vec<PropId>>)
    ensures
        r matches Some(v) && v@.len() == 0,
{
    Some(Vec::new())
}

/// The properties a query asks the store for, as the result of `props`:
/// `None` for none and `Some` of an empty list for all.
pub open spec fn props_plan(column_pushdown: bool, params: QueryParams, props: Option<Vec<PropId>>) -> bool {
    if !column_pushdown {
        props matches Some(v) && v@.len() == 0
    } else {
        needed_columns(
            filter_props(params.filter),
            match params.columns {
                Some(c) => Some(column_ids(c@)),
                None => None,
            },
            match props {
                Some(v) => Some(v@),
                None => None,
            },
        )
    }
}

/// Whether the properties of a query cannot be passed to the store: column
/// push-down is on and a requested column is named by a string.
pub open spec fn props_refused(column_pushdown: bool, params: QueryParams) -> bool {
    column_pushdown && (params.columns matches Some(c) && !all_ids(c@))
}

/// A scan to run on the store.
#[derive(Clone, Debug)]
pub struct ScanRequest {
    pub snapshot: SnapshotId,
    pub labels: Vec<StoreLabelId>,
    /// Pass the filter's condition to the store.
    pub condition: bool,
    /// The properties to return: `None` for none, `Some` of an empty list for all.
    pub props: Option<Vec<PropId>>,
    /// The partitions of this worker.
    pub partitions: Vec<PartitionId>,
    /// Run the filter here on the rows the store returns.
    pub filter_in_process: bool,
}

/// A partitioned graph store as seen by the workers of one server.
pub struct GraphScopeStore {
    server_partitions: Vec<PartitionId>,
    cluster_info: ClusterInfo,
    row_filter_pushdown: bool,
    column_filter_pushdown: bool,
}

/// Builds the read adapter over a store.
pub fn create_gs_store(
    server_partitions: Vec<PartitionId>,
    cluster_info: ClusterInfo,
    row_filter_push_down: bool,
    column_filter_push_down: bool,
) -> (r: std::sync::Arc<GraphScopeStore>)
    requires
        cluster_info.local_worker_num > 0,
    ensures
        r.partitions_spec() == server_partitions@,
        r.cluster_spec() == cluster_info,
        r.row_pushdown_spec() == row_filter_push_down,
        r.column_pushdown_spec() == column_filter_push_down,
        r.wf(),
{
    let graph = GraphScopeStore {
        server_partitions,
        cluster_info,
        row_filter_pushdown: row_filter_push_down,
        column_filter_pushdown: column_filter_push_down,
    };
    std::sync::Arc::new(graph)
}

impl GraphScopeStore {
    pub closed spec fn partitions_spec(&self) -> Seq<PartitionId> {
        self.server_partitions@
    }

    pub closed spec fn cluster_spec(&self) -> ClusterInfo {
        self.cluster_info
    }

    pub closed spec fn row_pushdown_spec(&self) -> bool {
        self.row_filter_pushdown
    }

    pub closed spec fn column_pushdown_spec(&self) -> bool {
        self.column_filter_pushdown
    }

    pub open spec fn wf(&self) -> bool {
        self.cluster_spec().local_worker_num > 0
    }

    /// The partitions this worker scans.
    pub open spec fn worker_partitions(&self) -> Seq<PartitionId> {
        owned_partitions(
            self.partitions_spec(),
            self.cluster_spec().local_worker_num,
            self.cluster_spec().worker_index,
        )
    }

    /// What a scan request holds for `params` on this worker.
    pub open spec fn scan_request(&self, params: QueryParams, req: ScanRequest) -> bool {
        let (condition, in_process) = filter_plan(params.filter, self.row_pushdown_spec());
        &&& req.snapshot == snapshot_of(params)
        &&& req.labels@ == params.labels@
        &&& req.condition == condition
        &&& req.filter_in_process == in_process
        &&& props_plan(self.column_pushdown_spec(), params, req.props)
        &&& req.partitions@ == self.worker_partitions()
    }

    fn props_for(&self, params: &QueryParams) -> (r: Result<Option<Vec<PropId>>, GraphProxyError>)
        ensures
            props_refused(self.column_pushdown_spec(), *params) ==> r matches Err(
                GraphProxyError::FilterPushDownError(_),
            ),
            !props_refused(self.column_pushdown_spec(), *params) ==> (r matches Ok(props)
                && props_plan(self.column_pushdown_spec(), *params, props)),
    {
        if self.column_filter_pushdown {
            let cache_prop_ids = encode_storage_prop_keys(params.columns.as_ref())?;
            Ok(extract_needed_columns(params.filter.as_ref(), cache_prop_ids.as_ref()))
        } else {
            Ok(get_all_storage_props())
        }
    }

    fn plan_scan(&self, params: &QueryParams) -> (r: Result<Option<ScanRequest>, GraphProxyError>)
        requires
            self.wf(),
        ensures
            self.worker_partitions().len() == 0 ==> r matches Ok(None),
            self.worker_partitions().len() > 0 && props_refused(self.column_pushdown_spec(), *params)
                ==> r matches Err(GraphProxyError::FilterPushDownError(_)),
            self.worker_partitions().len() > 0 && !props_refused(
                self.column_pushdown_spec(),
                *params,
            ) ==> (r matches Ok(Some(req)) && self.scan_request(*params, req)),
    {
        let worker_partitions = assign_worker_partitions(&self.server_partitions, &self.cluster_info);
        if worker_partitions.len() == 0 {
            return Ok(None);
        }
        let si = get_snapshot_id(params);
        let label_ids = encode_storage_labels(&params.labels);
        let (condition, filter_in_process) = encode_storage_row_filter_condition(
            params.filter.as_ref(),
            self.row_filter_pushdown,
        );
        let props = self.props_for(params)?;
        Ok(
            Some(
                ScanRequest {
                    snapshot: si,
                    labels: label_ids,
                    condition,
                    props,
                    partitions: worker_partitions,
                    filter_in_process,
                },
            ),
        )
    }

    /// Plans a scan of the vertices in this worker's partitions: `None` when
    /// the worker owns no partition, so the scan is empty.
    pub fn scan_vertex(&self, params: &QueryParams) -> (r: Result<Option<ScanRequest>, GraphProxyError>)
        requires
            self.wf(),
        ensures
            self.worker_partitions().len() == 0 ==> r matches Ok(None),
            self.worker_partitions().len() > 0 && props_refused(self.column_pushdown_spec(), *params)
                ==> r matches Err(GraphProxyError::FilterPushDownError(_)),
            self.worker_partitions().len() > 0 && !props_refused(
                self.column_pushdown_spec(),
                *params,
            ) ==> (r matches Ok(Some(req)) && self.scan_request(*params, req)),
    {
        self.plan_scan(params)
    }

    /// Plans a scan of the edges in this worker's partitions: `None` when the
    /// worker owns no partition, so the scan is empty. `scanned_edges` turns
    /// what the store returns into runtime edges.
    pub fn scan_edge(&self, params: &QueryParams) -> (r: Result<Option<ScanRequest>, GraphProxyError>)
        requires
            self.wf(),
        ensures
            self.worker_partitions().len() == 0 ==> r matches Ok(None),
            self.worker_partitions().len() > 0 && props_refused(self.column_pushdown_spec(), *params)
                ==> r matches Err(GraphProxyError::FilterPushDownError(_)),
            self.worker_partitions().len() > 0 && !props_refused(
                self.column_pushdown_spec(),
                *params,
            ) ==> (r matches Ok(Some(req)) && self.scan_request(*params, req)),
    {
        self.plan_scan(params)
    }

    /// Decides whether this worker confirms a primary-key lookup. Every peer
    /// looks the key up; `found` is the global id it resolved to, with the
    /// partition that holds it. Only the worker that owns that partition
    /// fetches the vertex, so at most one peer of the cluster returns it.
    pub fn index_scan_vertex(&self, found: Option<(VertexId, PartitionId)>) -> (r: Option<ID>)
        requires
            self.wf(),
        ensures
            r == self.confirmed(found),
    {
        match found {
            Some((vid, partition_id)) => {
                let worker_partitions = assign_worker_partitions(
                    &self.server_partitions,
                    &self.cluster_info,
                );
                let mut i: usize = 0;
                while i < worker_partitions.len() && worker_partitions[i] != partition_id
                    invariant
                        i <= worker_partitions.len(),
                        forall|j: int| 0 <= j < i ==> worker_partitions@[j] != partition_id,
                    decreases worker_partitions.len() - i,
                {
                    i += 1;
                }
                if i < worker_partitions.len() {
                    Some(vid)
                } else {
                    None
                }
            },
            None => None,
        }
    }

    /// Plans a fetch of the given vertices: their ids grouped by the
    /// partition that holds each (`partitions`, one per id), and the
    /// properties to return. The store takes no condition here: the fetch
    /// says to run the query's filter, if any, on what comes back, then its
    /// limit (through `select_rows`).
    pub fn get_vertex(&self, ids: &Vec<ID>, partitions: &Vec<PartitionId>, params: &QueryParams) -> (r:
        Result<VertexFetch, GraphProxyError>)
        requires
            ids@.len() == partitions@.len(),
        ensures
            props_refused(self.column_pushdown_spec(), *params) ==> r matches Err(
                GraphProxyError::FilterPushDownError(_),
            ),
            !props_refused(self.column_pushdown_spec(), *params) ==> (
            r matches Ok(f) && f.snapshot == snapshot_of(*params) && f.filter_in_process == params.filter is Some
                && f.limit == params.limit && grouped_by_partition(
                ids@,
                partitions@,
                f.ids@,
            ) && (if self.column_pushdown_spec() {
                needed_columns(
                    filter_props(params.filter),
                    match params.columns {
                        Some(c) => Some(column_ids(c@)),
                        None => None,
                    },
                    match f.props {
                        Some(v) => Some(v@),
                        None => None,
                    },
                )
            } else {
                f.props matches Some(v) && v@.len() == 0
            })),
    {
        let si = get_snapshot_id(params);
        let prop_ids = if self.column_filter_pushdown {
            let cache_prop_ids = encode_storage_prop_keys(params.columns.as_ref())?;
            extract_needed_columns(params.filter.as_ref(), cache_prop_ids.as_ref())
        } else {
            get_all_storage_props()
        };
        let groups = get_partition_label_vertex_ids(ids, partitions);
        Ok(
            VertexFetch {
                snapshot: si,
                props: prop_ids,
                ids: groups,
                filter_in_process: params.filter.is_some(),
                limit: params.limit,
            },
        )
    }

    /// Plans an expansion from each source vertex to its neighbours. The
    /// vertices come back without properties.
    pub fn prepare_explore_vertex(&self, direction: Direction, params: &QueryParams) -> (r: Result<
        ExplorePlan,
        GraphProxyError,
    >)
        ensures
            r matches Ok(plan) && self.explore_plan(direction, *params, plan) && plan.props is None,
    {
        let (condition, filter_in_process) = encode_storage_row_filter_condition(
            params.filter.as_ref(),
            self.row_filter_pushdown,
        );
        let limit = match params.limit {
            Some(l) => l,
            None => 0,
        };
        let si = get_snapshot_id(params);
        let edge_label_ids = encode_storage_labels(&params.labels);
        Ok(
            ExplorePlan {
                snapshot: si,
                labels: edge_label_ids,
                condition,
                filter_in_process,
                props: None,
                limit,
                calls: explore_sides(direction),
            },
        )
    }

    /// Plans an expansion from each source vertex to its edges, with the
    /// properties to return as for a scan. `explored_edges` turns what each
    /// call returns into runtime edges, in the order of the plan's calls.
    pub fn prepare_explore_edge(&self, direction: Direction, params: &QueryParams) -> (r: Result<
        ExplorePlan,
        GraphProxyError,
    >)
        ensures
            props_refused(self.column_pushdown_spec(), *params) ==> r matches Err(
                GraphProxyError::FilterPushDownError(_),
            ),
            !props_refused(self.column_pushdown_spec(), *params) ==> (r matches Ok(plan)
                && self.explore_plan(direction, *params, plan) && props_plan(
                self.column_pushdown_spec(),
                *params,
                plan.props,
            )),
    {
        let si = get_snapshot_id(params);
        let (condition, filter_in_process) = encode_storage_row_filter_condition(
            params.filter.as_ref(),
            self.row_filter_pushdown,
        );
        let prop_ids = self.props_for(params)?;
        let limit = match params.limit {
            Some(l) => l,
            None => 0,
        };
        let edge_label_ids = encode_storage_labels(&params.labels);
        Ok(
            ExplorePlan {
                snapshot: si,
                labels: edge_label_ids,
                condition,
                filter_in_process,
                props: prop_ids,
                limit,
                calls: explore_sides(direction),
            },
        )
    }

    /// The vertex this worker returns for a primary-key lookup that resolved
    /// to `found`: the vertex, if its partition is one of this worker's.
    pub open spec fn confirmed(&self, found: Option<(VertexId, PartitionId)>) -> Option<ID> {
        match found {
            Some((vid, p)) => if self.worker_partitions().contains(p) {
                Some(vid)
            } else {
                None
            },
            None => None,
        }
    }

    /// What an expansion plan holds for `params` in `direction`.
    pub open spec fn explore_plan(&self, direction: Direction, params: QueryParams, plan: ExplorePlan) -> bool {
        let (condition, in_process) = filter_plan(params.filter, self.row_pushdown_spec());
        &&& plan.snapshot == snapshot_of(params)
        &&& plan.labels@ == params.labels@
        &&& plan.condition == condition
        &&& plan.filter_in_process == in_process
        &&& plan.limit == match params.limit {
            Some(l) => l,
            None => 0,
        }
        &&& plan.calls@ == explore_calls(direction)
    }

    /// Plans a count of vertices: with a filter, the count of a scan; without
    /// one, the store's own count over this worker's partitions.
    pub fn count_vertex(&self, params: &QueryParams) -> (r: Result<CountPlan, GraphProxyError>)
        requires
            self.wf(),
        ensures
            self.count_plan(*params, r),
    {
        self.plan_count(params)
    }

    /// Plans a count of edges, as `count_vertex` does for vertices.
    pub fn count_edge(&self, params: &QueryParams) -> (r: Result<CountPlan, GraphProxyError>)
        requires
            self.wf(),
        ensures
            self.count_plan(*params, r),
    {
        self.plan_count(params)
    }

    /// What a count plan holds for `params`.
    pub open spec fn count_plan(&self, params: QueryParams, r: Result<CountPlan, GraphProxyError>) -> bool {
        if self.worker_partitions().len() == 0 {
            r matches Ok(CountPlan::Zero)
        } else if params.filter is Some {
            if props_refused(self.column_pushdown_spec(), params) {
                r matches Err(GraphProxyError::FilterPushDownError(_))
            } else {
                r matches Ok(CountPlan::Scan(req)) && self.scan_request(params, req)
            }
        } else {
            r matches Ok(CountPlan::Store(c)) && c.snapshot == snapshot_of(params) && c.labels@
                == params.labels@ && c.partitions@ == self.worker_partitions()
        }
    }

    fn plan_count(&self, params: &QueryParams) -> (r: Result<CountPlan, GraphProxyError>)
        requires
            self.wf(),
        ensures
            self.count_plan(*params, r),
    {
        if params.filter.is_some() {
            match self.plan_scan(params)? {
                Some(req) => Ok(CountPlan::Scan(req)),
                None => Ok(CountPlan::Zero),
            }
        } else {
            let worker_partitions = assign_worker_partitions(&self.server_partitions, &self.cluster_info);
            if worker_partitions.len() > 0 {
                let si = get_snapshot_id(params);
                let label_ids = encode_storage_labels(&params.labels);
                Ok(CountPlan::Store(CountRequest { snapshot: si, labels: label_ids, partitions: worker_partitions }))
            } else {
                Ok(CountPlan::Zero)
            }
        }
    }

    /// The primary key of a vertex whose id the store translated to
    /// `outer_id`: the store's key 0 with that id as a long.
    pub fn get_primary_key(&self, outer_id: VertexId) -> (r: Option<OneOrMany<(NameOrId, Object)>>)
        ensures
            r matches Some(OneOrMany::One(one)) && one@.len() == 1 && one@[0].0 == NameOrId::Id(GS_STORE_PK)
                && one@[0].1 == Object::Primitive(Primitives::Long(outer_id)),
    {
        let pk_val = Object::Primitive(Primitives::Long(outer_id));
        Some(OneOrMany::One([(NameOrId::Id(GS_STORE_PK), pk_val)]))
    }
}


/// Whether the row at `i` survives: it passes the filter run here, if any, and
/// its sampling draw, when the query samples.
pub open spec fn row_kept(i: int, verdicts: Option<Seq<bool>>, sampling: bool, draws: Seq<bool>) -> bool {
    &&& match verdicts {
        Some(v) => v[i],
        None => true,
    }
    &&& (!sampling || draws[i])
}

/// The positions, in order, of the first `n` rows that survive.
pub open spec fn kept_rows(n: nat, verdicts: Option<Seq<bool>>, sampling: bool, draws: Seq<bool>) -> Seq<
    usize,
>
    decreases n,
{
    if n == 0 {
        Seq::empty()
    } else {
        let prev = kept_rows((n - 1) as nat, verdicts, sampling, draws);
        if row_kept(n - 1, verdicts, sampling, draws) {
            prev.push((n - 1) as usize)
        } else {
            prev
        }
    }
}

/// The first `limit` elements of `s`; no limit, or a limit of 0, keeps all.
pub open spec fn limited<T>(s: Seq<T>, limit: Option<usize>) -> Seq<T> {
    match limit {
        Some(l) => if 0 < l && l < s.len() {
            s.take(l as int)
        } else {
            s
        },
        None => s,
    }
}

/// The rows of a result that a query returns, by position among the `count`
/// rows the store gave: first the filter run here (`verdicts`, one per row),
/// then sampling (`draws`, one per row, read only when the sample ratio is
/// below one), then the limit.
pub fn select_rows(
    count: usize,
    verdicts: Option<&Vec<bool>>,
    sample_ratio: u32,
    draws: &Vec<bool>,
    limit: Option<usize>,
) -> (r: Vec<usize>)
    requires
        verdicts matches Some(v) ==> v@.len() == count,
        sample_ratio != SAMPLE_SCALE ==> draws@.len() == count,
    ensures
        r@ == limited(
            kept_rows(
                count as nat,
                match verdicts {
                    Some(v) => Some(v@),
                    None => None,
                },
                sample_ratio != SAMPLE_SCALE,
                draws@,
            ),
            limit,
        ),
{
    let ghost vs = match verdicts {
        Some(v) => Some(v@),
        None => None,
    };
    let sampling = sample_ratio != SAMPLE_SCALE;
    let mut out: Vec<usize> = Vec::new();
    let mut i: usize = 0;
    while i < count
        invariant
            i <= count,
            verdicts matches Some(v) ==> v@.len() == count,
            sampling ==> draws@.len() == count,
            vs == match verdicts {
                Some(v) => Some(v@),
                None => None,
            },
            out@ == limited(kept_rows(i as nat, vs, sampling, draws@), limit),
            limit matches Some(l) ==> (l > 0 ==> out@.len() <= l),
        decreases count - i,
    {
        let passes = match verdicts {
            Some(v) => v[i],
            None => true,
        };
        let keep = passes && (!sampling || draws[i]);
        let ghost before = kept_rows(i as nat, vs, sampling, draws@);
        proof {
            lemma_kept_rows_len(i as nat, vs, sampling, draws@);
        }
        if keep {
            let room = match limit {
                Some(l) => l == 0 || out.len() < l,
                None => true,
            };
            if room {
                out.push(i);
            }
            proof {
                let after = kept_rows((i + 1) as nat, vs, sampling, draws@);
                assert(after == before.push(i));
                if let Some(l) = limit {
                    if l > 0 {
                        if before.len() >= l {
                            assert(before.push(i).take(l as int) =~= before.take(l as int));
                        }
                    }
                }
            }
        }
        i += 1;
    }
    out
}

proof fn lemma_kept_rows_len(n: nat, verdicts: Option<Seq<bool>>, sampling: bool, draws: Seq<bool>)
    ensures
        kept_rows(n, verdicts, sampling, draws).len() <= n,
        forall|k: int|
            0 <= k < kept_rows(n, verdicts, sampling, draws).len() ==> #[trigger] kept_rows(
                n,
                verdicts,
                sampling,
                draws,
            )[k] < n,
    decreases n,
{
    if n > 0 {
        lemma_kept_rows_len((n - 1) as nat, verdicts, sampling, draws);
    }
}

proof fn lemma_pushdown_prefix(n: nat, v: Seq<bool>, sampling: bool, row_draws: Seq<bool>, match_draws: Seq<bool>)
    requires
        n <= usize::MAX,
        n <= v.len(),
        n <= row_draws.len(),
        ({
            let m = kept_rows(n, Some(v), false, row_draws);
            &&& m.len() <= match_draws.len()
            &&& forall|j: int| 0 <= j < m.len() ==> match_draws[j] == row_draws[#[trigger] m[j] as int]
        }),
    ensures
        ({
            let m = kept_rows(n, Some(v), false, row_draws);
            kept_rows(n, Some(v), sampling, row_draws) == kept_rows(
                m.len() as nat,
                None,
                sampling,
                match_draws,
            ).map_values(|j: usize| m[j as int])
        }),
    decreases n,
{
    if n > 0 {
        let i = n - 1;
        let p = kept_rows(i as nat, Some(v), false, row_draws);
        let m = kept_rows(n, Some(v), false, row_draws);
        assert forall|j: int| 0 <= j < p.len() implies match_draws[j] == row_draws[#[trigger] p[j] as int] by {
            assert(m[j] == p[j]);
        }
        lemma_pushdown_prefix(i as nat, v, sampling, row_draws, match_draws);
        let k = kept_rows(p.len() as nat, None, sampling, match_draws);
        lemma_kept_rows_len(p.len() as nat, None, sampling, match_draws);
        if v[i] {
            assert(m == p.push(i as usize));
            assert(k.map_values(|j: usize| m[j as int]) =~= k.map_values(|j: usize| p[j as int]));
            let k2 = kept_rows(m.len() as nat, None, sampling, match_draws);
            assert(m[p.len() as int] == i as usize);
            lemma_kept_rows_len(i as nat, Some(v), false, row_draws);
            assert(match_draws[p.len() as int] == row_draws[m[p.len() as int] as int]);
            if row_kept(p.len() as int, None, sampling, match_draws) {
                assert(k2 == k.push(p.len() as usize));
                assert(k2.map_values(|j: usize| m[j as int]) =~= k.map_values(|j: usize| m[j as int]).push(
                    i as usize,
                ));
            } else {
                assert(k2 == k);
            }
        } else {
            assert(m == p);
        }
    }
}

/// Filtering in the store or here returns the same rows. Let the store return
/// `n` rows when no condition is passed, with `verdicts` the filter's answer on
/// each, and exactly the passing rows, in order, when the condition is passed.
/// If every row draws the same sample in both cases, both return the rows at
/// the same positions among the `n`.
pub proof fn lemma_filter_pushdown_transparent(
    n: nat,
    verdicts: Seq<bool>,
    sampling: bool,
    row_draws: Seq<bool>,
    match_draws: Seq<bool>,
    limit: Option<usize>,
)
    requires
        n <= usize::MAX,
        verdicts.len() == n,
        row_draws.len() == n,
        ({
            let m = kept_rows(n, Some(verdicts), false, row_draws);
            &&& match_draws.len() == m.len()
            &&& forall|j: int| 0 <= j < m.len() ==> match_draws[j] == row_draws[#[trigger] m[j] as int]
        }),
    ensures
        ({
            let m = kept_rows(n, Some(verdicts), false, row_draws);
            limited(kept_rows(n, Some(verdicts), sampling, row_draws), limit) == limited(
                kept_rows(m.len() as nat, None, sampling, match_draws),
                limit,
            ).map_values(|j: usize| m[j as int])
        }),
{
    let m = kept_rows(n, Some(verdicts), false, row_draws);
    lemma_pushdown_prefix(n, verdicts, sampling, row_draws, match_draws);
    let k = kept_rows(m.len() as nat, None, sampling, match_draws);
    let f = |j: usize| m[j as int];
    if let Some(l) = limit {
        if 0 < l && l < k.len() {
            assert(k.map_values(f).take(l as int) =~= k.take(l as int).map_values(f));
        }
    }
}


/// The store label and the encoded key values of a primary-key lookup, one
/// value per key column, in order.
pub fn index_scan_key(label_id: LabelId, primary_key: &OneOrMany<(NameOrId, Object)>) -> (r: (
    StoreLabelId,
    Vec<Property>,
))
    ensures
        r.0 == label_id,
        r.1@.len() == primary_key@.len(),
        forall|i: int| 0 <= i < primary_key@.len() ==> encoded_property(primary_key@[i].1, #[trigger] r.1@[i]),
{
    let store_label_id = encode_storage_label(label_id);
    let pkvs = primary_key.as_ref();
    let mut values: Vec<Property> = Vec::new();
    let mut i: usize = 0;
    while i < pkvs.len()
        invariant
            i <= pkvs@.len(),
            pkvs@ == primary_key@,
            values@.len() == i,
            forall|j: int| 0 <= j < i ==> encoded_property(pkvs@[j].1, #[trigger] values@[j]),
        decreases pkvs@.len() - i,
    {
        values.push(encode_property(&pkvs[i].1));
        i += 1;
    }
    (store_label_id, values)
}

/// Vertex ids of one partition, by store label (the label is never known
/// here, so there is one entry with none).
pub type PartitionLabeledVertexIds = (PartitionId, Vec<(Option<StoreLabelId>, Vec<VertexId>)>);

/// A fetch of vertex properties to run on the store.
pub struct VertexFetch {
    pub snapshot: SnapshotId,
    /// The properties to return: `None` for none, `Some` of an empty list for all.
    pub props: Option<Vec<PropId>>,
    pub ids: Vec<PartitionLabeledVertexIds>,
    /// Run the filter here on the vertices the store returns.
    pub filter_in_process: bool,
    /// The most vertices to return; `None` or 0 means no limit.
    pub limit: Option<usize>,
}

/// The ids, in order, of those vertices that lie in partition `p`.
pub open spec fn ids_in_partition(ids: Seq<ID>, partitions: Seq<PartitionId>, p: PartitionId) -> Seq<VertexId>
    decreases ids.len(),
{
    if ids.len() == 0 {
        Seq::empty()
    } else {
        let prev = ids_in_partition(ids.drop_last(), partitions, p);
        if partitions[ids.len() - 1] == p {
            prev.push(ids.last())
        } else {
            prev
        }
    }
}

/// `groups` holds each partition of `partitions` once, with the ids that lie
/// in it, in their order.
pub open spec fn grouped_by_partition(ids: Seq<ID>, partitions: Seq<PartitionId>, groups: Seq<PartitionLabeledVertexIds>) -> bool {
    &&& groups.map_values(|g: PartitionLabeledVertexIds| g.0).no_duplicates()
    &&& groups.map_values(|g: PartitionLabeledVertexIds| g.0).to_set() == partitions.take(ids.len() as int).to_set()
    &&& forall|k: int| 0 <= k < groups.len() ==> {
        &&& (#[trigger] groups[k]).1@.len() == 1
        &&& groups[k].1@[0].0 is None
        &&& groups[k].1@[0].1@ == ids_in_partition(ids, partitions, groups[k].0)
    }
}

fn ids_of_partition(ids: &Vec<ID>, partitions: &Vec<PartitionId>, p: PartitionId) -> (r: Vec<VertexId>)
    requires
        ids@.len() == partitions@.len(),
    ensures
        r@ == ids_in_partition(ids@, partitions@, p),
{
    let mut out: Vec<VertexId> = Vec::new();
    let mut i: usize = 0;
    while i < ids.len()
        invariant
            i <= ids@.len(),
            ids@.len() == partitions@.len(),
            out@ == ids_in_partition(ids@.take(i as int), partitions@, p),
        decreases ids@.len() - i,
    {
        assert(ids@.take(i + 1).drop_last() =~= ids@.take(i as int));
        if partitions[i] == p {
            out.push(ids[i]);
        }
        i += 1;
    }
    assert(ids@.take(ids@.len() as int) =~= ids@);
    out
}

/// Groups vertex ids by the partition that holds each, one group per
/// partition in the order the partitions first appear.
fn get_partition_label_vertex_ids(ids: &Vec<ID>, partitions: &Vec<PartitionId>) -> (r: Vec<
    PartitionLabeledVertexIds,
>)
    requires
        ids@.len() == partitions@.len(),
    ensures
        grouped_by_partition(ids@, partitions@, r@),
{
    let mut groups: Vec<PartitionLabeledVertexIds> = Vec::new();
    let mut i: usize = 0;
    while i < partitions.len()
        invariant
            i <= partitions@.len(),
            ids@.len() == partitions@.len(),
            groups@.map_values(|g: PartitionLabeledVertexIds| g.0).no_duplicates(),
            groups@.map_values(|g: PartitionLabeledVertexIds| g.0).to_set() == partitions@.take(i as int).to_set(),
            forall|k: int| 0 <= k < groups@.len() ==> {
                &&& (#[trigger] groups@[k]).1@.len() == 1
                &&& groups@[k].1@[0].0 is None
                &&& groups@[k].1@[0].1@ == ids_in_partition(ids@, partitions@, groups@[k].0)
            },
        decreases partitions@.len() - i,
    {
        let p = partitions[i];
        let ghost keys = groups@.map_values(|g: PartitionLabeledVertexIds| g.0);
        let mut j: usize = 0;
        while j < groups.len() && groups[j].0 != p
            invariant
                j <= groups@.len(),
                keys == groups@.map_values(|g: PartitionLabeledVertexIds| g.0),
                forall|k: int| 0 <= k < j ==> keys[k] != p,
            decreases groups@.len() - j,
        {
            j += 1;
        }
        proof {
            assert(partitions@.take(i + 1) =~= partitions@.take(i as int).push(p));
            partitions@.take(i as int).lemma_push_to_set_commute(p);
        }
        if j == groups.len() {
            let members = ids_of_partition(ids, partitions, p);
            let entry: (Option<StoreLabelId>, Vec<VertexId>) = (None, members);
            let mut labeled: Vec<(Option<StoreLabelId>, Vec<VertexId>)> = Vec::new();
            labeled.push(entry);
            groups.push((p, labeled));
            proof {
                let nk = groups@.map_values(|g: PartitionLabeledVertexIds| g.0);
                assert(nk =~= keys.push(p));
                keys.lemma_push_to_set_commute(p);
                assert(!keys.contains(p));
                assert forall|a: int, b: int| 0 <= a < b < nk.len() implies nk[a] != nk[b] by {
                    if b == nk.len() - 1 {
                        assert(nk[a] == keys[a]);
                    } else {
                        assert(nk[a] == keys[a]);
                        assert(nk[b] == keys[b]);
                    }
                }
            }
        } else {
            proof {
                assert(keys[j as int] == p);
                assert(keys.to_set().contains(p));
                assert(keys.to_set().insert(p) =~= keys.to_set());
            }
        }
        i += 1;
    }
    assert(partitions@.take(ids@.len() as int) =~= partitions@.take(i as int));
    groups
}

/// One store call of an expansion: outgoing or incoming. `explored_edges`
/// turns what each returns into runtime edges.
#[derive(Clone, Copy, Debug, PartialEq, Eq, Structural)]
pub enum ExploreCall {
    Out,
    In,
}

/// The store calls of an expansion in `direction`, in order: both directions
/// give the outgoing results first.
pub open spec fn explore_calls(direction: Direction) -> Seq<ExploreCall> {
    match direction {
        Direction::Out => seq![ExploreCall::Out],
        Direction::In => seq![ExploreCall::In],
        Direction::Both => seq![ExploreCall::Out, ExploreCall::In],
    }
}

fn explore_sides(direction: Direction) -> (r: Vec<ExploreCall>)
    ensures
        r@ == explore_calls(direction),
{
    let mut calls: Vec<ExploreCall> = Vec::new();
    match direction {
        Direction::Out => calls.push(ExploreCall::Out),
        Direction::In => calls.push(ExploreCall::In),
        Direction::Both => {
            calls.push(ExploreCall::Out);
            calls.push(ExploreCall::In);
        },
    }
    assert(calls@ =~= explore_calls(direction));
    calls
}

/// An expansion to run on the store for each source vertex.
#[derive(Clone, Debug)]
pub struct ExplorePlan {
    pub snapshot: SnapshotId,
    /// The edge labels to follow.
    pub labels: Vec<StoreLabelId>,
    /// Pass the filter's condition to the store.
    pub condition: bool,
    /// Run the filter here on what the store returns.
    pub filter_in_process: bool,
    /// The properties to return: `None` for none, `Some` of an empty list for all.
    pub props: Option<Vec<PropId>>,
    /// The most results per source; 0 means no limit.
    pub limit: usize,
    /// The store calls to make, in order.
    pub calls: Vec<ExploreCall>,
}

/// The source vertex of one expansion, routed to the partition that holds it.
pub fn get_partition_vertex_id(id: ID, partition_id: PartitionId) -> (r: (PartitionId, Vec<VertexId>))
    ensures
        r.0 == partition_id,
        r.1@ == seq![id],
{
    let mut ids: Vec<VertexId> = Vec::new();
    ids.push(id);
    assert(ids@ =~= seq![id]);
    (partition_id, ids)
}

/// The edges a scan of a `ScanRequest` got back from the store, as runtime
/// edges: a scan sees every edge from its source. Filter, sample and limit
/// then go by `select_rows`.
pub fn scanned_edges(rows: Vec<EdgeRecord>, params: &QueryParams) -> (r: RuntimeEdgeIter)
    ensures
        r.wf(),
        r.rest() == rows@,
        r.from_src_spec(),
{
    let columns = params.columns.clone();
    RuntimeEdgeIter::new(rows, true, columns)
}

/// The edges one store call of an expansion got back for a source vertex, as
/// runtime edges: those of an outgoing call are seen from their source, those
/// of an incoming call from their target.
pub fn explored_edges(call: ExploreCall, rows: Vec<EdgeRecord>, params: &QueryParams) -> (r:
    RuntimeEdgeIter)
    ensures
        r.wf(),
        r.rest() == rows@,
        r.from_src_spec() == (call == ExploreCall::Out),
{
    let columns = params.columns.clone();
    let from_src = match call {
        ExploreCall::Out => true,
        ExploreCall::In => false,
    };
    RuntimeEdgeIter::new(rows, from_src, columns)
}

/// A count to run on the store.
#[derive(Clone, Debug)]
pub struct CountRequest {
    pub snapshot: SnapshotId,
    pub labels: Vec<StoreLabelId>,
    pub partitions: Vec<PartitionId>,
}

/// How to count the vertices or edges of a query on this worker.
#[derive(Clone, Debug)]
pub enum CountPlan {
    /// Run this scan, filter, sample and limit, and count the rows.
    Scan(ScanRequest),
    /// Ask the store to count.
    Store(CountRequest),
    /// The worker owns no partition: the count is 0.
    Zero,
}


/// Column projection: with column push-down on and some columns, or none,
/// requested, a scan asks the store for each property that the filter reads or
/// the query requested, once; when all columns are requested, or column
/// push-down is off, it asks for all of them.
pub proof fn lemma_column_projection(store: GraphScopeStore, params: QueryParams, req: ScanRequest)
    requires
        store.scan_request(params, req),
    ensures
        !store.column_pushdown_spec() ==> (req.props matches Some(v) && v@.len() == 0),
        (params.columns matches Some(c) && c@.len() == 0) ==> (req.props matches Some(v) && v@.len() == 0),
        store.column_pushdown_spec() && !(params.columns matches Some(c) && c@.len() == 0) && (filter_props(
            params.filter,
        ) is Some || params.columns is Some) ==> (req.props matches Some(v) && v@.no_duplicates()
            && v@.to_set() == id_set(filter_props(params.filter)) + id_set(
            match params.columns {
                Some(c) => Some(column_ids(c@)),
                None => None,
            },
        )),
{
}

/// A primary-key lookup is confirmed by at most one peer: two workers of a
/// server with different indices never both return the vertex.
pub proof fn lemma_index_scan_unique(
    a: GraphScopeStore,
    b: GraphScopeStore,
    found: Option<(VertexId, PartitionId)>,
)
    requires
        a.wf(),
        a.partitions_spec() == b.partitions_spec(),
        a.cluster_spec().local_worker_num == b.cluster_spec().local_worker_num,
        a.cluster_spec().worker_index < a.cluster_spec().local_worker_num,
        b.cluster_spec().worker_index < b.cluster_spec().local_worker_num,
        a.cluster_spec().worker_index != b.cluster_spec().worker_index,
    ensures
        !(a.confirmed(found) is Some && b.confirmed(found) is Some),
{
    crate::partition::lemma_partitions_split(a.partitions_spec(), a.cluster_spec().local_worker_num);
}

} // verus!
