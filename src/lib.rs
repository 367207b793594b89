//! Per-worker execution core of a distributed graph query engine: the worker
//! lifecycle and its cooperative step machine, job-wide peer accounting,
//! scoped resources, and the adapter that plans scans over a partitioned store.

mod errors;
mod partition;
mod peer;
mod query;
mod resource;
mod runtime;
mod store;
mod task;
mod value;
mod worker;

pub use errors::{BuildJobError, JobExecError};
pub use partition::{
    assign_worker_partitions, lemma_partitions_split, lemma_single_owner, owned_partitions, owns,
    ClusterInfo, PartitionId,
};
pub use peer::{
    lemma_peer_count_conserved, lemma_single_last_peer, lifecycle, live_after, PeerEvent, PeerGuard,
};
pub use query::{
    Direction, KeyId, LabelId, Logical, NameOrId, OneOrMany, OpKind, PhysicalOperator, PhysicalOpr,
    QueryParams, RowFilter, SAMPLE_SCALE,
};
pub use resource::{keys_unique, ResourceTable, WorkerContext};
pub use runtime::{
    to_empty_vertex, to_runtime_edge, to_runtime_vertex, Details, Edge, EdgeRecord,
    RuntimeEdgeIter, Vertex, VertexRecord,
};
pub use store::{
    all_ids, column_ids, create_gs_store, decimal_i64, explore_calls, extra_param, filter_plan,
    explored_edges, filter_props, get_partition_vertex_id, get_snapshot_id, grouped_by_partition, id_set,
    ids_in_partition, index_scan_key, kept_rows, lemma_column_projection,
    lemma_filter_pushdown_transparent, lemma_index_scan_unique, limited, needed_columns,
    props_plan, props_refused, row_kept, scanned_edges, select_rows, snapshot_of, CountPlan, CountRequest,
    ExploreCall, ExplorePlan, GraphProxyError, GraphScopeStore, PartitionLabeledVertexIds, PropId,
    ScanRequest, SnapshotId, StoreLabelId, VertexFetch, VertexId, DEFAULT_SNAPSHOT_ID, GS_STORE_PK,
    ID, SNAPSHOT_ID,
};
pub use task::{probe_outcome, step_outcome, NotifyReport, StepReport, TaskState, WorkerTask};
pub use value::{
    encode_property, encode_store_prop_val, encoded_property, family, list_property,
    primitive_property, Family, Object, Primitives, Property,
};
pub use worker::{
    accounted_change, cancel_outcome, cancelled, channel_index_text, decimal, digit_char, lemma_swap_removed_drops,
    lemma_guard_counts_new_peer, lemma_guard_counts_unfinished, lemma_last_peer, probe_done,
    sender_count_text, step_done, unfinished, plain_outcome, swap_removed, EventSenders,
    JobConf, Outcome, SpanEnd, Worker, WorkerId,
};
