//! What each kind of stage does with the results of the capability calls it made:
//! which nodes go on downstream, which errors are recorded, which fingerprints
//! are marked as seen.
use vstd::prelude::*;
use crate::ingestion::IngestionNode;
use crate::pipeline::run_succeeds;

verus! {

/// A node-level failure: the stage, the path of the node, and what went wrong.
#[derive(Clone, Debug)]
pub struct StageError {
    pub stage: String,
    pub path: String,
    pub message: String,
}

/// A stage error as plain sequences of characters: stage, path, message.
pub type ErrView = (Seq<char>, Seq<char>, Seq<char>);

pub open spec fn err_view(e: StageError) -> ErrView {
    (e.stage@, e.path@, e.message@)
}

pub open spec fn errs_view(s: Seq<StageError>) -> Seq<ErrView> {
    s.map_values(|e: StageError| err_view(e))
}

impl StageError {
    pub fn new(stage: String, path: String, message: String) -> (r: StageError)
        ensures
            err_view(r) == (stage@, path@, message@),
    {
        StageError { stage, path, message }
    }
}

/// One call of a transforming capability: the path of the (first) node it was
/// given, and the nodes it returned or its error.
pub struct Invocation {
    pub path: String,
    pub result: Result<Vec<IngestionNode>, String>,
}

/// The nodes that a sequence of calls produced, in order.
pub open spec fn produced(s: Seq<Invocation>) -> Seq<IngestionNode>
    decreases s.len(),
{
    if s.len() == 0 {
        Seq::empty()
    } else {
        match s[0].result {
            Ok(v) => v@ + produced(s.skip(1)),
            Err(_) => produced(s.skip(1)),
        }
    }
}

/// The errors that a sequence of calls of stage `stage` records, in order.
pub open spec fn failures(stage: Seq<char>, s: Seq<Invocation>) -> Seq<ErrView>
    decreases s.len(),
{
    if s.len() == 0 {
        Seq::empty()
    } else {
        match s[0].result {
            Ok(_) => failures(stage, s.skip(1)),
            Err(m) => seq![(stage, s[0].path@, m@)] + failures(stage, s.skip(1)),
        }
    }
}

/// Gathers the calls of a transforming stage: every node produced goes on, every
/// failed call is recorded once with the stage's name.
pub fn collect_invocations(stage: &String, invocations: Vec<Invocation>) -> (r: (
    Vec<IngestionNode>,
    Vec<StageError>,
))
    ensures
        r.0@ == produced(invocations@),
        errs_view(r.1@) == failures(stage@, invocations@),
{
    let ghost all = invocations@;
    let mut rest = invocations;
    let mut out: Vec<IngestionNode> = Vec::new();
    let mut errs: Vec<StageError> = Vec::new();
    while rest.len() > 0
        invariant
            out@ + produced(rest@) == produced(all),
            errs_view(errs@) + failures(stage@, rest@) == failures(stage@, all),
        decreases rest@.len(),
    {
        let ghost before = rest@;
        let ghost out0 = out@;
        let ghost errs0 = errs@;
        let item = rest.remove(0);
        assert(rest@ =~= before.skip(1));
        match item.result {
            Ok(nodes) => {
                let mut nodes = nodes;
                let ghost got = nodes@;
                out.append(&mut nodes);
                assert(out@ + produced(rest@) =~= out0 + (got + produced(rest@)));
                assert(errs_view(errs@) =~= errs_view(errs0));
            },
            Err(message) => {
                let ghost e = (stage@, item.path@, message@);
                errs.push(StageError::new(stage.clone(), item.path, message));
                assert(errs_view(errs@) =~= errs_view(errs0).push(e));
                assert(errs_view(errs@) + failures(stage@, rest@) =~= errs_view(errs0) + (seq![e]
                    + failures(stage@, rest@)));
            },
        }
    }
    (out, errs)
}

/// A cache lookup counts as "seen" only when it succeeded and said so; a failed
/// lookup lets the node through.
pub open spec fn is_seen(r: Result<bool, String>) -> bool {
    r == Ok::<bool, String>(true)
}

/// The nodes whose lookup did not report them as seen, in order.
pub open spec fn kept(nodes: Seq<IngestionNode>, lookups: Seq<Result<bool, String>>) -> Seq<IngestionNode>
    decreases nodes.len(),
{
    if nodes.len() == 0 {
        Seq::empty()
    } else if is_seen(lookups[0]) {
        kept(nodes.skip(1), lookups.skip(1))
    } else {
        seq![nodes[0]] + kept(nodes.skip(1), lookups.skip(1))
    }
}

/// The cache filter: drops each node whose fingerprint the cache has seen,
/// forwards the others unchanged. `lookups[i]` is the cache's answer for `nodes[i]`.
pub fn filter_unseen(nodes: Vec<IngestionNode>, lookups: Vec<Result<bool, String>>) -> (r: Vec<IngestionNode>)
    requires
        nodes@.len() == lookups@.len(),
    ensures
        r@ == kept(nodes@, lookups@),
{
    let ghost all_n = nodes@;
    let ghost all_l = lookups@;
    let mut rest = nodes;
    let mut looks = lookups;
    let mut out: Vec<IngestionNode> = Vec::new();
    while rest.len() > 0
        invariant
            rest@.len() == looks@.len(),
            out@ + kept(rest@, looks@) == kept(all_n, all_l),
        decreases rest@.len(),
    {
        let ghost rn = rest@;
        let ghost rl = looks@;
        let ghost out0 = out@;
        let node = rest.remove(0);
        let look = looks.remove(0);
        assert(rest@ =~= rn.skip(1));
        assert(looks@ =~= rl.skip(1));
        let seen = match look {
            Ok(b) => b,
            Err(_) => false,
        };
        if !seen {
            out.push(node);
            assert(out@ + kept(rest@, looks@) =~= out0 + (seq![rn[0]] + kept(rest@, looks@)));
        }
    }
    assert(out@ =~= out@ + kept(rest@, looks@));
    out
}

/// The number of windows of size at most `b` that `n` items fill: `n / b` rounded up.
pub open spec fn window_count(n: nat, b: nat) -> nat
    recommends
        b > 0,
{
    ((n + b - 1) / b as int) as nat
}

/// The size of the last window: `n mod b`, or `b` when `b` divides `n`.
pub open spec fn last_window_len(n: nat, b: nat) -> nat
    recommends
        b > 0,
{
    if n % b == 0 {
        b
    } else {
        n % b
    }
}

/// The windows laid end to end.
pub open spec fn flatten(ws: Seq<Vec<IngestionNode>>) -> Seq<IngestionNode>
    decreases ws.len(),
{
    if ws.len() == 0 {
        Seq::empty()
    } else {
        flatten(ws.drop_last()) + ws.last()@
    }
}

/// Groups nodes into consecutive windows of `size`, the last of which may be
/// smaller; each window is one call of a batch capability.
pub fn windows(nodes: Vec<IngestionNode>, size: usize) -> (r: Vec<Vec<IngestionNode>>)
    requires
        size >= 1,
    ensures
        flatten(r@) == nodes@,
        r@.len() == window_count(nodes@.len(), size as nat),
        forall|i: int| 0 <= i < r@.len() - 1 ==> #[trigger] r@[i]@.len() == size,
        r@.len() > 0 ==> r@.last()@.len() == last_window_len(nodes@.len(), size as nat),
{
    let ghost all = nodes@;
    let ghost n = nodes@.len();
    let mut rest = nodes;
    let mut out: Vec<Vec<IngestionNode>> = Vec::new();
    assert(out@.len() * size + rest@.len() == n) by (nonlinear_arith)
        requires
            out@.len() == 0,
            rest@.len() == n,
    ;
    while rest.len() > size
        invariant
            size >= 1,
            out@.len() > 0 ==> rest@.len() > 0,
            flatten(out@) + rest@ == all,
            out@.len() * size + rest@.len() == n,
            forall|i: int| 0 <= i < out@.len() ==> #[trigger] out@[i]@.len() == size,
        decreases rest@.len(),
    {
        let ghost out0 = out@;
        let ghost r0 = rest@;
        let tail = rest.split_off(size);
        assert(r0 =~= rest@ + tail@);
        out.push(rest);
        rest = tail;
        assert(out@.drop_last() =~= out0);
        assert(flatten(out@) + rest@ =~= flatten(out0) + r0);
        assert(out@.len() * size == out0.len() * size + size) by (nonlinear_arith)
            requires
                out@.len() == out0.len() + 1,
        ;
    }
    let ghost k = out@.len() as int;
    let ghost b = size as int;
    let ghost m = n as int;
    if rest.len() > 0 {
        let ghost out0 = out@;
        let ghost r = rest@.len() as int;
        out.push(rest);
        assert(out@.drop_last() =~= out0);
        assert(flatten(out@) =~= all);
        assert((m + b - 1) / b == k + 1 && (m % b == 0 ==> r == b) && (m % b != 0 ==> r == m
            % b)) by (nonlinear_arith)
            requires
                m == k * b + r,
                1 <= r <= b,
                b >= 1,
        ;
    } else {
        assert(flatten(out@) =~= all);
        assert(m == 0) by (nonlinear_arith)
            requires
                m == k * b,
                k == 0,
        ;
        assert((m + b - 1) / b == 0) by (nonlinear_arith)
            requires
                m == 0,
                b >= 1,
        ;
    }
    out
}

/// One call of the storage capability: the path of the (first) node handed
/// over, the fingerprints of all nodes handed over, and the outcome.
pub struct Persisted {
    pub path: String,
    pub fingerprints: Vec<u64>,
    pub result: Result<(), String>,
}

/// The fingerprints of the nodes that were persisted, in order.
pub open spec fn stored_marks(s: Seq<Persisted>) -> Seq<u64>
    decreases s.len(),
{
    if s.len() == 0 {
        Seq::empty()
    } else {
        match s[0].result {
            Ok(_) => s[0].fingerprints@ + stored_marks(s.skip(1)),
            Err(_) => stored_marks(s.skip(1)),
        }
    }
}

/// The errors that a sequence of storage calls of stage `stage` records, in order.
pub open spec fn store_failures(stage: Seq<char>, s: Seq<Persisted>) -> Seq<ErrView>
    decreases s.len(),
{
    if s.len() == 0 {
        Seq::empty()
    } else {
        match s[0].result {
            Ok(_) => store_failures(stage, s.skip(1)),
            Err(m) => seq![(stage, s[0].path@, m@)] + store_failures(stage, s.skip(1)),
        }
    }
}

/// Gathers the calls of a storage stage: the fingerprints to mark as seen are
/// those of the nodes actually persisted; every failed call is recorded once.
pub fn collect_persisted(stage: &String, calls: Vec<Persisted>) -> (r: (Vec<u64>, Vec<StageError>))
    ensures
        r.0@ == stored_marks(calls@),
        errs_view(r.1@) == store_failures(stage@, calls@),
{
    let ghost all = calls@;
    let mut rest = calls;
    let mut marks: Vec<u64> = Vec::new();
    let mut errs: Vec<StageError> = Vec::new();
    while rest.len() > 0
        invariant
            marks@ + stored_marks(rest@) == stored_marks(all),
            errs_view(errs@) + store_failures(stage@, rest@) == store_failures(stage@, all),
        decreases rest@.len(),
    {
        let ghost before = rest@;
        let ghost marks0 = marks@;
        let ghost errs0 = errs@;
        let item = rest.remove(0);
        assert(rest@ =~= before.skip(1));
        match item.result {
            Ok(_) => {
                let mut fps = item.fingerprints;
                let ghost got = fps@;
                marks.append(&mut fps);
                assert(marks@ + stored_marks(rest@) =~= marks0 + (got + stored_marks(rest@)));
                assert(errs_view(errs@) =~= errs_view(errs0));
            },
            Err(message) => {
                let ghost e = (stage@, item.path@, message@);
                errs.push(StageError::new(stage.clone(), item.path, message));
                assert(errs_view(errs@) =~= errs_view(errs0).push(e));
                assert(errs_view(errs@) + store_failures(stage@, rest@) =~= errs_view(errs0) + (
                seq![e] + store_failures(stage@, rest@)));
            },
        }
    }
    (marks, errs)
}

/// The bookkeeping of a unit-form stage with a concurrency bound: how many calls
/// are in flight, never more than the bound.
pub struct Dispatch {
    bound: usize,
    in_flight: usize,
}

impl Dispatch {
    pub closed spec fn bound_spec(&self) -> nat {
        self.bound as nat
    }

    pub closed spec fn in_flight_spec(&self) -> nat {
        self.in_flight as nat
    }

    /// At least one call may run, and no more than the bound run at once.
    pub open spec fn wf(&self) -> bool {
        1 <= self.bound_spec() && self.in_flight_spec() <= self.bound_spec()
    }

    /// No call in flight yet; `bound` calls may run at once.
    pub fn new(bound: usize) -> (r: Dispatch)
        requires
            bound >= 1,
        ensures
            r.wf(),
            r.bound_spec() == bound,
            r.in_flight_spec() == 0,
    {
        Dispatch { bound, in_flight: 0 }
    }

    /// Whether one more call may start now.
    pub fn can_start(&self) -> (r: bool)
        ensures
            r == (self.in_flight_spec() < self.bound_spec()),
    {
        self.in_flight < self.bound
    }

    /// Number of calls in flight.
    pub fn in_flight(&self) -> (r: usize)
        ensures
            r == self.in_flight_spec(),
    {
        self.in_flight
    }

    /// A call starts.
    pub fn start(&mut self)
        requires
            old(self).wf(),
            old(self).in_flight_spec() < old(self).bound_spec(),
        ensures
            final(self).wf(),
            final(self).bound_spec() == old(self).bound_spec(),
            final(self).in_flight_spec() == old(self).in_flight_spec() + 1,
    {
        self.in_flight = self.in_flight + 1;
    }

    /// A call in flight has finished, with a result or an error.
    pub fn finish(&mut self)
        requires
            old(self).wf(),
            old(self).in_flight_spec() > 0,
        ensures
            final(self).wf(),
            final(self).bound_spec() == old(self).bound_spec(),
            final(self).in_flight_spec() == old(self).in_flight_spec() - 1,
    {
        self.in_flight = self.in_flight - 1;
    }
}

/// The cache's answers for `nodes` when it holds exactly the fingerprints `seen`.
pub open spec fn lookups_in(nodes: Seq<IngestionNode>, seen: Set<u64>) -> Seq<Result<bool, String>> {
    nodes.map_values(|n: IngestionNode| Ok::<bool, String>(seen.contains(n.fingerprint())))
}

/// The fingerprints of a sequence of nodes.
pub open spec fn fingerprints(nodes: Seq<IngestionNode>) -> Seq<u64> {
    nodes.map_values(|n: IngestionNode| n.fingerprint())
}

proof fn lemma_lookups_skip(nodes: Seq<IngestionNode>, seen: Set<u64>)
    requires
        nodes.len() > 0,
    ensures
        lookups_in(nodes, seen).skip(1) == lookups_in(nodes.skip(1), seen),
{
    assert(lookups_in(nodes, seen).skip(1) =~= lookups_in(nodes.skip(1), seen));
}

/// Each node either has a fingerprint in `seen` or passes the filter.
proof fn lemma_unseen_kept(nodes: Seq<IngestionNode>, seen: Set<u64>)
    ensures
        forall|i: int|
            0 <= i < nodes.len() ==> seen.contains(#[trigger] nodes[i].fingerprint()) || kept(
                nodes,
                lookups_in(nodes, seen),
            ).contains(nodes[i]),
    decreases nodes.len(),
{
    if nodes.len() > 0 {
        let t = nodes.skip(1);
        lemma_lookups_skip(nodes, seen);
        lemma_unseen_kept(t, seen);
        let k = kept(nodes, lookups_in(nodes, seen));
        assert forall|i: int|
            0 <= i < nodes.len() implies seen.contains(#[trigger] nodes[i].fingerprint())
                || k.contains(nodes[i]) by {
            if !seen.contains(nodes[i].fingerprint()) {
                if i == 0 {
                    assert(k[0] == nodes[0]);
                } else {
                    assert(t[i - 1] == nodes[i]);
                    let kt = kept(t, lookups_in(t, seen));
                    let j = choose|j: int| 0 <= j < kt.len() && kt[j] == nodes[i];
                    if seen.contains(nodes[0].fingerprint()) {
                        assert(k == kt);
                        assert(k[j] == nodes[i]);
                    } else {
                        assert(k == seq![nodes[0]] + kt);
                        assert(k[j + 1] == nodes[i]);
                    }
                }
            }
        }
    }
}

/// A filter over a cache that has seen every node lets none through.
proof fn lemma_all_seen_none_kept(nodes: Seq<IngestionNode>, seen: Set<u64>)
    requires
        forall|i: int| 0 <= i < nodes.len() ==> seen.contains(#[trigger] nodes[i].fingerprint()),
    ensures
        kept(nodes, lookups_in(nodes, seen)).len() == 0,
    decreases nodes.len(),
{
    if nodes.len() > 0 {
        let t = nodes.skip(1);
        lemma_lookups_skip(nodes, seen);
        assert forall|i: int| 0 <= i < t.len() implies seen.contains(#[trigger] t[i].fingerprint()) by {
            assert(t[i] == nodes[i + 1]);
        }
        lemma_all_seen_none_kept(t, seen);
    }
}

/// Running the same nodes through the cache filter and storage twice, with the
/// fingerprints of everything persisted in the first run marked as seen, lets no
/// node reach storage in the second run.
pub proof fn lemma_rerun_stores_nothing(nodes: Seq<IngestionNode>, seen: Set<u64>, calls: Seq<Persisted>)
    requires
        stored_marks(calls) == fingerprints(kept(nodes, lookups_in(nodes, seen))),
    ensures
        kept(nodes, lookups_in(nodes, seen + stored_marks(calls).to_set())).len() == 0,
{
    let first = kept(nodes, lookups_in(nodes, seen));
    let after = seen + stored_marks(calls).to_set();
    lemma_unseen_kept(nodes, seen);
    assert forall|i: int| 0 <= i < nodes.len() implies after.contains(
        #[trigger] nodes[i].fingerprint(),
    ) by {
        if !seen.contains(nodes[i].fingerprint()) {
            let j = choose|j: int| 0 <= j < first.len() && first[j] == nodes[i];
            assert(stored_marks(calls)[j] == nodes[i].fingerprint());
            assert(stored_marks(calls).to_set().contains(nodes[i].fingerprint()));
        }
    }
    lemma_all_seen_none_kept(nodes, after);
}

/// The single node that a call returned.
pub open spec fn only_node(c: Invocation) -> IngestionNode {
    c.result->Ok_0@[0]
}

/// A call that succeeded with exactly one node.
pub open spec fn one_node(c: Invocation) -> bool {
    c.result matches Ok(v) && v@.len() == 1
}

proof fn lemma_all_one_node(stage: Seq<char>, s: Seq<Invocation>)
    requires
        forall|i: int| 0 <= i < s.len() ==> one_node(#[trigger] s[i]),
    ensures
        failures(stage, s).len() == 0,
        produced(s) == Seq::new(s.len(), |i: int| only_node(s[i])),
    decreases s.len(),
{
    if s.len() > 0 {
        let t = s.skip(1);
        assert forall|i: int| 0 <= i < t.len() implies one_node(#[trigger] t[i]) by {
            assert(t[i] == s[i + 1]);
        }
        lemma_all_one_node(stage, t);
        assert(one_node(s[0]));
        assert(produced(s) =~= Seq::new(s.len(), |i: int| only_node(s[i])));
    }
}

/// When exactly one call of a transforming stage fails and every other call
/// returns one node, exactly one error is recorded, with the failed node's
/// path, the run cannot succeed, and every other node goes on downstream.
pub proof fn lemma_single_failure_isolated(stage: Seq<char>, s: Seq<Invocation>, k: int)
    requires
        0 <= k < s.len(),
        s[k].result is Err,
        forall|i: int| 0 <= i < s.len() && i != k ==> one_node(#[trigger] s[i]),
    ensures
        failures(stage, s).len() == 1,
        failures(stage, s)[0].1 == s[k].path@,
        !run_succeeds(failures(stage, s)),
        produced(s).len() == s.len() - 1,
        forall|i: int| 0 <= i < s.len() && i != k ==> produced(s).contains(only_node(#[trigger] s[i])),
    decreases s.len(),
{
    let t = s.skip(1);
    if k == 0 {
        assert forall|i: int| 0 <= i < t.len() implies one_node(#[trigger] t[i]) by {
            assert(t[i] == s[i + 1]);
        }
        lemma_all_one_node(stage, t);
        assert forall|i: int| 0 <= i < s.len() && i != k implies produced(s).contains(
            only_node(#[trigger] s[i]),
        ) by {
            assert(t[i - 1] == s[i]);
            assert(produced(s)[i - 1] == only_node(s[i]));
        }
    } else {
        assert(one_node(s[0]));
        assert forall|i: int| 0 <= i < t.len() && i != k - 1 implies one_node(#[trigger] t[i]) by {
            assert(t[i] == s[i + 1]);
        }
        assert(t[k - 1] == s[k]);
        lemma_single_failure_isolated(stage, t, k - 1);
        assert forall|i: int| 0 <= i < s.len() && i != k implies produced(s).contains(
            only_node(#[trigger] s[i]),
        ) by {
            if i == 0 {
                assert(produced(s)[0] == only_node(s[0]));
            } else {
                assert(t[i - 1] == s[i]);
                let pt = produced(t);
                let j = choose|j: int| 0 <= j < pt.len() && pt[j] == only_node(t[i - 1]);
                assert(produced(s)[j + 1] == only_node(s[i]));
            }
        }
    }
}

} // verus!
