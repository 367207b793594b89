use vstd::prelude::*;

verus! {

/// A partition of the graph store.
pub type PartitionId = u32;

/// Where the worker that an adapter serves stands among the workers of its
/// server.
#[derive(Clone, Copy, Debug, PartialEq, Eq, Structural)]
pub struct ClusterInfo {
    /// The number of workers on this server.
    pub local_worker_num: u32,
    /// The index of this worker.
    pub worker_index: u32,
}

/// Whether the worker at `index` of `workers` owns partition `p`.
pub open spec fn owns(p: PartitionId, workers: u32, index: u32) -> bool {
    p % workers == index % workers
}

/// The partitions of `parts` that the worker at `index` of `workers` scans, in
/// their order.
pub open spec fn owned_partitions(parts: Seq<PartitionId>, workers: u32, index: u32) -> Seq<
    PartitionId,
> {
    parts.filter(|p: PartitionId| owns(p, workers, index))
}

/// Given all the partitions of the server, the ones that this worker scans:
/// those equal to its index modulo the number of workers.
pub fn assign_worker_partitions(query_partitions: &Vec<PartitionId>, cluster_info: &ClusterInfo) -> (r:
    Vec<PartitionId>)
    requires
        cluster_info.local_worker_num > 0,
    ensures
        r@ == owned_partitions(
            query_partitions@,
            cluster_info.local_worker_num,
            cluster_info.worker_index,
        ),
{
    let workers_num = cluster_info.local_worker_num;
    let worker_idx = cluster_info.worker_index;
    let ghost pred = |p: PartitionId| owns(p, workers_num, worker_idx);
    let mut worker_partition_list: Vec<PartitionId> = Vec::new();
    let n = query_partitions.len();
    let mut i: usize = 0;
    while i < n
        invariant
            n == query_partitions.len(),
            i <= n,
            workers_num > 0,
            pred == (|p: PartitionId| owns(p, workers_num, worker_idx)),
            worker_partition_list@ == query_partitions@.take(i as int).filter(pred),
        decreases n - i,
    {
        let pid = query_partitions[i];
        proof {
            assert(query_partitions@.take(i + 1).drop_last() =~= query_partitions@.take(i as int));
            reveal(Seq::filter);
        }
        if pid % workers_num == worker_idx % workers_num {
            worker_partition_list.push(pid);
        }
        i += 1;
    }
    assert(query_partitions@.take(n as int) =~= query_partitions@);
    worker_partition_list
}

/// The workers of a server split its partitions: every partition is scanned by
/// some worker, every partition a worker scans is one of the server's, and two
/// different workers never scan the same partition.
pub proof fn lemma_partitions_split(parts: Seq<PartitionId>, workers: u32)
    requires
        workers > 0,
    ensures
        forall|p: PartitionId|
            #[trigger] parts.contains(p) ==> owned_partitions(parts, workers, (p % workers) as u32).contains(p),
        forall|p: PartitionId, i: u32|
            i < workers && #[trigger] owned_partitions(parts, workers, i).contains(p) ==> parts.contains(p),
        forall|p: PartitionId, i: u32, j: u32|
            i < workers && j < workers && i != j && #[trigger] owned_partitions(parts, workers, i).contains(p)
                ==> !#[trigger] owned_partitions(parts, workers, j).contains(p),
{
    assert forall|p: PartitionId| #[trigger] parts.contains(p) implies owned_partitions(
        parts,
        workers,
        (p % workers) as u32,
    ).contains(p) by {
        let i = (p % workers) as u32;
        let pred = |q: PartitionId| owns(q, workers, i);
        assert((p % workers) % workers == p % workers) by (nonlinear_arith)
            requires workers > 0;
        assert(pred(p));
        let k = choose|k: int| 0 <= k < parts.len() && parts[k] == p;
        parts.lemma_filter_contains(pred, k);
    }
    assert forall|p: PartitionId, i: u32|
        i < workers && #[trigger] owned_partitions(parts, workers, i).contains(p) implies parts.contains(p) by {
        let pred = |q: PartitionId| owns(q, workers, i);
        parts.lemma_filter_contains_rev(pred, p);
    }
    assert forall|p: PartitionId, i: u32, j: u32|
        i < workers && j < workers && i != j && #[trigger] owned_partitions(parts, workers, i).contains(p)
            implies !#[trigger] owned_partitions(parts, workers, j).contains(p) by {
        let pi = |q: PartitionId| owns(q, workers, i);
        let pj = |q: PartitionId| owns(q, workers, j);
        let fi = parts.filter(pi);
        let k = choose|k: int| 0 <= k < fi.len() && fi[k] == p;
        parts.lemma_filter_pred(pi, k);
        if owned_partitions(parts, workers, j).contains(p) {
            let fj = parts.filter(pj);
            let m = choose|m: int| 0 <= m < fj.len() && fj[m] == p;
            parts.lemma_filter_pred(pj, m);
            assert(i % workers == i) by (nonlinear_arith)
                requires i < workers;
            assert(j % workers == j) by (nonlinear_arith)
                requires j < workers;
        }
    }
}

/// A partition is owned by at most one worker of a server: of the workers
/// `0..workers`, only the one at `p % workers` owns `p`.
pub proof fn lemma_single_owner(p: PartitionId, workers: u32, i: u32)
    requires
        workers > 0,
        i < workers,
    ensures
        owns(p, workers, i) <==> i == p % workers,
{
    assert(i % workers == i) by (nonlinear_arith)
        requires i < workers;
}

} // verus!
