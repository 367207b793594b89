use graph_worker::{
    assign_worker_partitions, create_gs_store, encode_store_prop_val, get_partition_vertex_id,
    get_snapshot_id, index_scan_key, select_rows, ClusterInfo, CountPlan, Direction, ExploreCall,
    GraphProxyError, GraphScopeStore, Logical, NameOrId, Object, OneOrMany, OpKind,
    PhysicalOperator, PhysicalOpr, Primitives, Property, QueryParams, RowFilter,
    DEFAULT_SNAPSHOT_ID, SAMPLE_SCALE,
};
use graph_worker::{explored_edges, scanned_edges, to_empty_vertex, to_runtime_vertex, Details, EdgeRecord, RuntimeEdgeIter, VertexRecord};
use std::sync::Arc;

fn params() -> QueryParams {
    QueryParams {
        labels: vec![],
        columns: None,
        filter: None,
        limit: None,
        sample_ratio: SAMPLE_SCALE,
        extra: vec![],
    }
}

fn store(parts: Vec<u32>, workers: u32, index: u32, row: bool, col: bool) -> Arc<GraphScopeStore> {
    create_gs_store(parts, ClusterInfo { local_worker_num: workers, worker_index: index }, row, col)
}

fn sorted(mut v: Vec<i32>) -> Vec<i32> {
    v.sort();
    v
}

#[test]
fn partitions_split_between_two_workers() {
    let parts = vec![0u32, 1, 2, 3];
    let w0 = assign_worker_partitions(&parts, &ClusterInfo { local_worker_num: 2, worker_index: 0 });
    let w1 = assign_worker_partitions(&parts, &ClusterInfo { local_worker_num: 2, worker_index: 1 });
    assert_eq!(w0, vec![0, 2]);
    assert_eq!(w1, vec![1, 3]);
    let req = store(parts, 2, 1, true, true).scan_vertex(&params()).ok().unwrap().unwrap();
    assert_eq!(req.partitions, vec![1, 3]);
}

#[test]
fn partitions_cover_and_are_disjoint() {
    let parts = vec![5u32, 9, 12, 3, 7, 8, 21];
    let w = 3;
    let mut all = Vec::new();
    for i in 0..w {
        let mine = assign_worker_partitions(&parts, &ClusterInfo { local_worker_num: w, worker_index: i });
        for p in mine.iter() {
            assert!(!all.contains(p));
            assert_eq!(p % w, i);
        }
        all.extend(mine);
    }
    all.sort();
    let mut expected = parts.clone();
    expected.sort();
    assert_eq!(all, expected);
}

#[test]
fn worker_without_partitions_scans_nothing() {
    let s = store(vec![0, 2], 2, 1, true, true);
    assert!(s.scan_vertex(&params()).ok().unwrap().is_none());
    assert!(s.scan_edge(&params()).ok().unwrap().is_none());
    assert!(matches!(s.count_vertex(&params()), Ok(CountPlan::Zero)));
}

#[test]
fn filter_without_pushdown_runs_here() {
    let mut p = params();
    p.filter = Some(RowFilter { convertible: true, prop_ids: Some(vec![4]) });
    p.sample_ratio = SAMPLE_SCALE / 2;
    p.limit = Some(10);
    let s = store(vec![0, 1], 1, 0, false, false);
    let req = s.scan_vertex(&p).ok().unwrap().unwrap();
    assert!(!req.condition);
    assert!(req.filter_in_process);
    assert_eq!(req.props, Some(vec![]));
    // 40 rows, the filter keeps the even ones, sampling keeps every other of those
    let verdicts: Vec<bool> = (0..40).map(|i| i % 2 == 0).collect();
    let draws: Vec<bool> = (0..40).map(|i| i % 4 == 0).collect();
    let rows = select_rows(40, Some(&verdicts), p.sample_ratio, &draws, p.limit);
    assert_eq!(rows, vec![0, 4, 8, 12, 16, 20, 24, 28, 32, 36]);
    let rows = select_rows(40, Some(&verdicts), p.sample_ratio, &draws, Some(3));
    assert_eq!(rows, vec![0, 4, 8]);
}

#[test]
fn convertible_filter_is_pushed_down() {
    let mut p = params();
    p.filter = Some(RowFilter { convertible: true, prop_ids: None });
    let req = store(vec![0], 1, 0, true, true).scan_vertex(&p).ok().unwrap().unwrap();
    assert!(req.condition);
    assert!(!req.filter_in_process);
    p.filter = Some(RowFilter { convertible: false, prop_ids: None });
    let req = store(vec![0], 1, 0, true, true).scan_edge(&p).ok().unwrap().unwrap();
    assert!(!req.condition);
    assert!(req.filter_in_process);
}

#[test]
fn pushdown_and_local_filter_return_the_same_rows() {
    // the store's rows 0..10; the filter passes 1, 2, 5, 7, 8
    let verdicts = vec![false, true, true, false, false, true, false, true, true, false];
    let row_draws = vec![true, true, false, true, true, true, true, false, true, true];
    let local = select_rows(10, Some(&verdicts), 500_000, &row_draws, Some(2));
    let passing: Vec<usize> = (0..10).filter(|i| verdicts[*i]).collect();
    let match_draws: Vec<bool> = passing.iter().map(|i| row_draws[*i]).collect();
    let pushed = select_rows(passing.len(), None, 500_000, &match_draws, Some(2));
    let pushed: Vec<usize> = pushed.iter().map(|j| passing[*j]).collect();
    assert_eq!(local, pushed);
    assert_eq!(local, vec![1, 5]);
}

#[test]
fn no_sampling_and_zero_limit_keep_everything() {
    let rows = select_rows(4, None, SAMPLE_SCALE, &vec![], Some(0));
    assert_eq!(rows, vec![0, 1, 2, 3]);
    let rows = select_rows(4, None, SAMPLE_SCALE, &vec![], None);
    assert_eq!(rows, vec![0, 1, 2, 3]);
    assert!(select_rows(0, None, SAMPLE_SCALE, &vec![], Some(5)).is_empty());
}

#[test]
fn requested_columns_join_the_filter_columns() {
    let mut p = params();
    p.filter = Some(RowFilter { convertible: false, prop_ids: Some(vec![1, 1, 2]) });
    p.columns = Some(vec![NameOrId::Id(2), NameOrId::Id(3)]);
    let req = store(vec![0], 1, 0, true, true).scan_vertex(&p).ok().unwrap().unwrap();
    assert_eq!(sorted(req.props.unwrap()), vec![1, 2, 3]);
    // the filter was pushed down: its columns are still requested
    p.filter = Some(RowFilter { convertible: true, prop_ids: Some(vec![7]) });
    let req = store(vec![0], 1, 0, true, true).scan_vertex(&p).ok().unwrap().unwrap();
    assert_eq!(sorted(req.props.unwrap()), vec![2, 3, 7]);
}

#[test]
fn all_columns_or_no_pushdown_request_everything() {
    let mut p = params();
    p.filter = Some(RowFilter { convertible: false, prop_ids: Some(vec![1]) });
    p.columns = Some(vec![]);
    let req = store(vec![0], 1, 0, true, true).scan_vertex(&p).ok().unwrap().unwrap();
    assert_eq!(req.props, Some(vec![]));
    p.columns = Some(vec![NameOrId::Id(5)]);
    let req = store(vec![0], 1, 0, true, false).scan_vertex(&p).ok().unwrap().unwrap();
    assert_eq!(req.props, Some(vec![]));
    let q = params();
    let req = store(vec![0], 1, 0, true, true).scan_vertex(&q).ok().unwrap().unwrap();
    assert_eq!(req.props, None);
}

#[test]
fn named_column_cannot_be_pushed_down() {
    let mut p = params();
    p.columns = Some(vec![NameOrId::Id(1), NameOrId::Str("name".to_string())]);
    let r = store(vec![0], 1, 0, true, true).scan_vertex(&p);
    assert!(matches!(r, Err(GraphProxyError::FilterPushDownError(_))));
    let r = store(vec![0], 1, 0, true, true).prepare_explore_edge(Direction::Out, &p);
    assert!(matches!(r, Err(GraphProxyError::FilterPushDownError(_))));
    let r = store(vec![0], 1, 0, true, false).scan_vertex(&p);
    assert!(r.is_ok());
}

#[test]
fn one_peer_confirms_an_index_lookup() {
    let parts = vec![0u32, 1, 2, 3];
    let found = Some((42i64, 2u32));
    let answers: Vec<Option<i64>> =
        (0..4).map(|i| store(parts.clone(), 4, i, true, true).index_scan_vertex(found)).collect();
    assert_eq!(answers, vec![None, None, Some(42), None]);
    assert_eq!(store(parts, 4, 2, true, true).index_scan_vertex(None), None);
}

#[test]
fn index_key_values_are_encoded() {
    let pk = OneOrMany::One([(NameOrId::Str("id".to_string()), Object::Primitive(Primitives::Long(42)))]);
    let (label, values) = index_scan_key(3, &pk);
    assert_eq!(label, 3);
    assert_eq!(values.len(), 1);
    assert!(matches!(values[0], Property::Long(42)));
    let pk = OneOrMany::Many(vec![
        (NameOrId::Id(1), Object::String("marko".to_string())),
        (NameOrId::Id(2), Object::Primitive(Primitives::Integer(29))),
    ]);
    let (_, values) = index_scan_key(3, &pk);
    assert!(matches!(&values[0], Property::String(s) if s == "marko"));
    assert!(matches!(values[1], Property::Int(29)));
}

#[test]
fn snapshot_id_comes_from_extra() {
    let mut p = params();
    assert_eq!(get_snapshot_id(&p), DEFAULT_SNAPSHOT_ID);
    assert_eq!(DEFAULT_SNAPSHOT_ID, i64::MAX - 1);
    p.extra = vec![("other".to_string(), "5".to_string()), ("SID".to_string(), "42".to_string())];
    assert_eq!(get_snapshot_id(&p), 42);
    p.extra = vec![("SID".to_string(), "-3".to_string())];
    assert_eq!(get_snapshot_id(&p), -3);
    p.extra = vec![("SID".to_string(), "+7".to_string())];
    assert_eq!(get_snapshot_id(&p), 7);
    p.extra = vec![("SID".to_string(), "abc".to_string())];
    assert_eq!(get_snapshot_id(&p), DEFAULT_SNAPSHOT_ID);
    p.extra = vec![("SID".to_string(), "99999999999999999999".to_string())];
    assert_eq!(get_snapshot_id(&p), DEFAULT_SNAPSHOT_ID);
    let req = store(vec![0], 1, 0, true, true).scan_vertex(&p).ok().unwrap().unwrap();
    assert_eq!(req.snapshot, DEFAULT_SNAPSHOT_ID);
}

#[test]
fn primitive_values_encode() {
    assert!(matches!(encode_store_prop_val(Object::Primitive(Primitives::Byte(-1))), Property::Char(255)));
    assert!(matches!(
        encode_store_prop_val(Object::Primitive(Primitives::UInteger(u32::MAX))),
        Property::Long(4294967295)
    ));
    assert!(matches!(encode_store_prop_val(Object::Primitive(Primitives::ULong(5))), Property::Long(5)));
    assert!(matches!(
        encode_store_prop_val(Object::Primitive(Primitives::ULLong(u128::MAX))),
        Property::Long(-1)
    ));
    let bits = 1.5f32.to_bits();
    assert!(matches!(encode_store_prop_val(Object::Primitive(Primitives::Float(bits))), Property::Float(b) if b == bits));
    let bits = 2.5f64.to_bits();
    assert!(matches!(encode_store_prop_val(Object::Primitive(Primitives::Double(bits))), Property::Double(b) if b == bits));
    assert!(matches!(encode_store_prop_val(Object::Null), Property::Null));
    assert!(matches!(encode_store_prop_val(Object::Other), Property::Unknown));
    assert!(matches!(encode_store_prop_val(Object::Blob(vec![1, 2])), Property::Bytes(b) if b == vec![1, 2]));
}

#[test]
fn vectors_encode_by_their_first_element() {
    let v = Object::Vector(vec![
        Object::Primitive(Primitives::Byte(1)),
        Object::Primitive(Primitives::Integer(2)),
    ]);
    assert!(matches!(encode_store_prop_val(v), Property::ListInt(xs) if xs == vec![1, 2]));
    let v = Object::Vector(vec![
        Object::Primitive(Primitives::Long(1)),
        Object::Primitive(Primitives::ULong(2)),
        Object::Primitive(Primitives::UInteger(u32::MAX)),
    ]);
    assert!(matches!(encode_store_prop_val(v), Property::ListLong(xs) if xs == vec![1, 2, 4294967295]));
    let v = Object::Vector(vec![Object::Primitive(Primitives::Integer(1)), Object::Primitive(Primitives::UInteger(3))]);
    assert!(matches!(encode_store_prop_val(v), Property::Unknown));
    let v = Object::Vector(vec![Object::String("a".to_string()), Object::String("b".to_string())]);
    assert!(matches!(encode_store_prop_val(v), Property::ListString(xs) if xs == vec!["a".to_string(), "b".to_string()]));
    let v = Object::Vector(vec![Object::Blob(vec![9])]);
    assert!(matches!(encode_store_prop_val(v), Property::ListBytes(xs) if xs == vec![vec![9u8]]));
    assert!(matches!(encode_store_prop_val(Object::Vector(vec![])), Property::Null));
    let mixed = Object::Vector(vec![Object::Primitive(Primitives::Integer(1)), Object::String("x".to_string())]);
    assert!(matches!(encode_store_prop_val(mixed), Property::Unknown));
}

#[test]
fn vertex_ids_group_by_partition() {
    let mut p = params();
    p.columns = Some(vec![NameOrId::Id(1)]);
    let s = store(vec![0, 1], 1, 0, true, true);
    let f = s.get_vertex(&vec![10, 11, 12, 13], &vec![1, 0, 1, 2], &p).ok().unwrap();
    assert_eq!(f.props, Some(vec![1]));
    assert_eq!(f.ids.len(), 3);
    assert_eq!(f.ids[0].0, 1);
    assert_eq!(f.ids[0].1, vec![(None, vec![10, 12])]);
    assert_eq!(f.ids[1], (0, vec![(None, vec![11])]));
    assert_eq!(f.ids[2], (2, vec![(None, vec![13])]));
}

#[test]
fn expansions_call_out_before_in() {
    let mut p = params();
    p.limit = Some(5);
    let s = store(vec![0], 1, 0, true, true);
    let plan = s.prepare_explore_vertex(Direction::Both, &p).ok().unwrap();
    assert_eq!(plan.calls, vec![ExploreCall::Out, ExploreCall::In]);
    assert_eq!(plan.limit, 5);
    assert!(plan.props.is_none());
    let plan = s.prepare_explore_edge(Direction::In, &params()).ok().unwrap();
    assert_eq!(plan.calls, vec![ExploreCall::In]);
    assert_eq!(plan.limit, 0);
    let plan = s.prepare_explore_edge(Direction::Out, &params()).ok().unwrap();
    assert_eq!(plan.calls, vec![ExploreCall::Out]);
    assert_eq!(get_partition_vertex_id(7, 3), (3, vec![7]));
}

#[test]
fn counts_use_the_store_unless_filtered() {
    let s = store(vec![0, 1], 1, 0, true, true);
    match s.count_edge(&params()) {
        Ok(CountPlan::Store(c)) => assert_eq!(c.partitions, vec![0, 1]),
        _ => panic!("expected a store count"),
    }
    let mut p = params();
    p.filter = Some(RowFilter { convertible: false, prop_ids: None });
    match s.count_vertex(&p) {
        Ok(CountPlan::Scan(req)) => assert!(req.filter_in_process),
        _ => panic!("expected a scan count"),
    }
}

#[test]
fn primary_key_is_the_outer_id() {
    let s = store(vec![0], 1, 0, true, true);
    match s.get_primary_key(77) {
        Some(OneOrMany::One([(NameOrId::Id(0), Object::Primitive(Primitives::Long(77)))])) => {}
        _ => panic!("unexpected primary key"),
    }
}

#[test]
fn query_params_flags() {
    let mut p = params();
    assert!(p.is_empty());
    assert!(!p.has_labels() && !p.has_columns() && !p.has_predicates() && !p.has_sample() && !p.has_limit());
    p.labels = vec![1];
    p.columns = Some(vec![]);
    p.sample_ratio = 10;
    p.limit = Some(1);
    p.filter = Some(RowFilter { convertible: true, prop_ids: None });
    assert!(p.has_labels() && p.has_columns() && p.has_predicates() && p.has_sample() && p.has_limit());
    assert!(!p.is_empty());
    let mut q = params();
    q.extra = vec![("SID".to_string(), "1".to_string())];
    assert!(!q.is_empty());
}

#[test]
fn small_helpers() {
    assert_eq!(Direction::Out.reverse(), Direction::In);
    assert_eq!(Direction::In.reverse(), Direction::Out);
    assert_eq!(Direction::Both.reverse(), Direction::Both);
    assert!(Logical::Not.is_unary() && Logical::Isnull.is_unary() && !Logical::Eq.is_unary());
    assert!(Logical::Regex.is_binary() && Logical::Within.is_binary() && !Logical::Not.is_binary());
    let r = PhysicalOpr { opr: Some(PhysicalOperator { op_kind: Some(OpKind::Repartition) }) };
    assert!(r.is_repartition());
    let s = PhysicalOpr { opr: Some(PhysicalOperator { op_kind: Some(OpKind::Scan) }) };
    assert!(!s.is_repartition());
    assert!(!PhysicalOpr { opr: None }.is_repartition());
    let one: OneOrMany<u8> = OneOrMany::from(4u8);
    assert_eq!(one.as_ref(), &[4u8]);
    let many: OneOrMany<u8> = OneOrMany::from(vec![1u8, 2]);
    assert_eq!(many.as_ref(), &[1u8, 2]);
    let d: OneOrMany<u8> = Default::default();
    assert_eq!(d.as_ref(), &[0u8]);
}

#[test]
fn store_edges_become_runtime_edges() {
    let e1 = EdgeRecord { edge_id: 1, label_id: 2, src_id: 3, dst_id: 4, src_label_id: 5, dst_label_id: 6 };
    let e2 = EdgeRecord { edge_id: 7, label_id: 8, src_id: 9, dst_id: 10, src_label_id: 11, dst_label_id: 12 };
    let mut it = RuntimeEdgeIter::new(vec![e1, e2], false, Some(vec![NameOrId::Id(1)]));
    let a = it.next().unwrap();
    assert_eq!((a.id, a.label, a.src_id, a.dst_id, a.from_src), (1, Some(2), 3, 4, false));
    assert_eq!((a.src_label, a.dst_label), (Some(5), Some(6)));
    assert!(matches!(a.details, Details::Lazy(Some(_))));
    let b = it.next().unwrap();
    assert_eq!(b.id, 7);
    assert!(it.next().is_none());
    let v = to_runtime_vertex(VertexRecord { id: 42, label_id: 3 }, None);
    assert_eq!((v.id, v.label), (42, Some(3)));
    assert!(matches!(v.details, Details::Lazy(None)));
    let v = to_empty_vertex(&VertexRecord { id: 43, label_id: 1 });
    assert!(matches!(v.details, Details::Empty));
}

#[test]
fn edges_carry_the_end_they_were_reached_from() {
    let e = EdgeRecord { edge_id: 1, label_id: 2, src_id: 3, dst_id: 4, src_label_id: 5, dst_label_id: 6 };
    let mut scanned = scanned_edges(vec![e], &params());
    assert!(scanned.next().unwrap().from_src);
    assert!(scanned.next().is_none());
    let mut out = explored_edges(ExploreCall::Out, vec![e], &params());
    assert!(out.next().unwrap().from_src);
    let mut inc = explored_edges(ExploreCall::In, vec![e, e], &params());
    assert!(!inc.next().unwrap().from_src);
    assert!(!inc.next().unwrap().from_src);
    assert!(inc.next().is_none());
}
