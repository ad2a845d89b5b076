//! A unit of operations cut into segments, with nested save points.

use vstd::prelude::*;
use vstd::slice::slice_subrange;
use vstd::string::StringExecFns;
use crate::bytes::to_bytes;
use crate::error::{Error, ErrorView};
use crate::prewrite::unit_result_view;
use crate::write_batch::{
    capped, flat, segments_size, segments_view, RawWriteBatch, WriteOp, WriteOpView,
    WRITE_BATCH_LIMIT, WRITE_BATCH_MAX_BATCH, WRITE_BATCH_MAX_KEYS,
};

verus! {

/// A save point: the segment that was filled when it was set, and the number
/// of operations that the segment held.
#[derive(Clone, Copy, Debug, PartialEq, Eq, Structural)]
pub struct SavePoint {
    pub index: usize,
    pub len: usize,
}

/// The mathematical value of a [`SavePoint`].
pub struct SavePointView {
    pub index: nat,
    pub len: nat,
}

impl View for SavePoint {
    type V = SavePointView;

    open spec fn view(&self) -> SavePointView {
        SavePointView { index: self.index as nat, len: self.len as nat }
    }
}

/// The mathematical value of a list of save points.
pub open spec fn save_points_view(sps: Seq<SavePoint>) -> Seq<SavePointView> {
    sps.map_values(|sp: SavePoint| sp@)
}

/// The mathematical value of a list of names.
pub open spec fn names_view(names: Seq<String>) -> Seq<Seq<char>> {
    names.map_values(|n: String| n@)
}

/// The mathematical value of a [`RocksWriteBatchVec`].
pub struct WriteBatchVecView {
    /// The column families that operations may name.
    pub cfs: Seq<Seq<char>>,
    /// The segments in use, in order; there is always at least one.
    pub segments: Seq<Seq<WriteOpView>>,
    /// The number of operations after which a new segment is begun; zero for
    /// no limit.
    pub batch_size_limit: nat,
    /// Whether the engine takes a unit as a list of segments.
    pub support_write_batch_vec: bool,
    /// The save points that are set, the latest last.
    pub save_points: Seq<SavePointView>,
}

impl WriteBatchVecView {
    /// All operations of the unit, in the order in which they were asked for.
    pub open spec fn ops(self) -> Seq<WriteOpView> {
        flat(self.segments)
    }

    /// The number of operations that the unit holds.
    pub open spec fn count(self) -> nat {
        self.ops().len()
    }

    /// The index of the segment that is being filled.
    pub open spec fn index(self) -> nat {
        (self.segments.len() - 1) as nat
    }

    /// Whether the unit is cut into segments at all.
    pub open spec fn cuts(self) -> bool {
        self.support_write_batch_vec && self.batch_size_limit > 0
    }

    /// The view is well formed: a unit that is not cut has one segment, every
    /// segment that was left behind is full, and every save point lies
    /// within the unit, later ones not before earlier ones.
    pub open spec fn wf(self) -> bool {
        &&& self.segments.len() >= 1
        &&& !self.cuts() ==> self.segments.len() == 1
        &&& forall|i: int|
            0 <= i < self.segments.len() - 1 ==> (#[trigger] self.segments[i]).len()
                >= self.batch_size_limit
        &&& forall|j: int|
            0 <= j < self.save_points.len() ==> (#[trigger] self.save_points[j]).index
                < self.segments.len() && self.save_points[j].len
                <= self.segments[self.save_points[j].index as int].len()
        &&& forall|j: int, k: int|
            0 <= j < k < self.save_points.len() ==> (#[trigger] self.save_points[j]).index < (
            #[trigger] self.save_points[k]).index || (self.save_points[j].index
                == self.save_points[k].index && self.save_points[j].len <= self.save_points[k].len)
    }

    /// Whether a name is one of the column families.
    pub open spec fn has_cf(self, cf: Seq<char>) -> bool {
        self.cfs.contains(cf)
    }

    /// Whether the next request begins a new segment: the unit is cut, and
    /// the segment being filled has reached the limit.
    pub open spec fn switches(self) -> bool {
        self.cuts() && self.segments.last().len() >= self.batch_size_limit
    }

    /// The unit made ready for one more request: a new, empty segment is
    /// begun where the last one has reached the limit.
    pub open spec fn switched(self) -> WriteBatchVecView {
        if self.switches() {
            WriteBatchVecView { segments: self.segments.push(seq![]), ..self }
        } else {
            self
        }
    }

    /// The unit with `ops` added at the end of its last segment.
    pub open spec fn extended(self, ops: Seq<WriteOpView>) -> WriteBatchVecView {
        WriteBatchVecView {
            segments: self.segments.update(
                self.segments.len() - 1,
                self.segments.last() + ops,
            ),
            ..self
        }
    }

    /// The unit after one operation was added.
    pub open spec fn with_op(self, op: WriteOpView) -> WriteBatchVecView {
        self.switched().extended(seq![op])
    }

    /// The unit after a list of operations was added, one after the other.
    pub open spec fn with_ops(self, ops: Seq<WriteOpView>) -> WriteBatchVecView
        decreases ops.len(),
    {
        if ops.len() == 0 {
            self
        } else {
            self.with_ops(ops.drop_last()).with_op(ops.last())
        }
    }

    /// The unit after the segments of another unit were merged into it: the
    /// operations of each segment are added together, to a new segment
    /// where the last one has reached the limit.
    pub open spec fn merged(self, segments: Seq<Seq<WriteOpView>>) -> WriteBatchVecView
        decreases segments.len(),
    {
        if segments.len() == 0 {
            self
        } else {
            self.merged(segments.drop_last()).switched().extended(segments.last())
        }
    }

    /// Whether the unit has grown so large that it should be written: a
    /// unit that the engine takes in segments when it has left the given
    /// number of segments behind, another unit when it holds more than the
    /// given number of operations.
    pub open spec fn should_write_to_engine(self) -> bool {
        if self.support_write_batch_vec {
            self.index() >= WRITE_BATCH_MAX_BATCH
        } else {
            self.count() > WRITE_BATCH_MAX_KEYS
        }
    }

    /// The unit without operations and save points.
    pub open spec fn cleared(self) -> WriteBatchVecView {
        WriteBatchVecView { segments: seq![seq![]], save_points: seq![], ..self }
    }

    /// The save point that would be set now.
    pub open spec fn here(self) -> SavePointView {
        SavePointView { index: self.index(), len: self.segments.last().len() }
    }

    /// The unit with a save point set at its end.
    pub open spec fn saved(self) -> WriteBatchVecView {
        WriteBatchVecView { save_points: self.save_points.push(self.here()), ..self }
    }

    /// The unit without its latest save point.
    pub open spec fn popped(self) -> WriteBatchVecView {
        WriteBatchVecView { save_points: self.save_points.drop_last(), ..self }
    }

    /// The unit as it was at its latest save point, which is taken off.
    pub open spec fn rolled_back(self) -> WriteBatchVecView {
        let sp = self.save_points.last();
        WriteBatchVecView {
            segments: self.segments.take(sp.index as int + 1).update(
                sp.index as int,
                self.segments[sp.index as int].take(sp.len as int),
            ),
            save_points: self.save_points.drop_last(),
            ..self
        }
    }

    /// The unit and the answer after the request for one operation. An
    /// operation for an unknown column family is refused, and the unit
    /// stays as it is.
    pub open spec fn request(self, op: WriteOpView) -> (WriteBatchVecView, Result<(), ErrorView>) {
        match op.cf() {
            Some(cf) => if self.has_cf(cf) {
                (self.with_op(op), Ok(()))
            } else {
                (self, Err(ErrorView::Engine(cf_not_found_message(cf))))
            },
            None => (self.with_op(op), Ok(())),
        }
    }

    /// The unit and the answer after the request to go back to the latest
    /// save point.
    pub open spec fn rollback_request(self) -> (WriteBatchVecView, Result<(), ErrorView>) {
        if self.save_points.len() == 0 {
            (self, Err(ErrorView::Engine(no_save_point_message())))
        } else {
            (self.rolled_back(), Ok(()))
        }
    }

    /// The unit and the answer after the request to take the latest save
    /// point off.
    pub open spec fn pop_request(self) -> (WriteBatchVecView, Result<(), ErrorView>) {
        if self.save_points.len() == 0 {
            (self, Err(ErrorView::Engine(no_save_point_message())))
        } else {
            (self.popped(), Ok(()))
        }
    }

    /// The operations that the unit held at its latest save point.
    pub open spec fn ops_at_save_point(self) -> Seq<WriteOpView> {
        let sp = self.save_points.last();
        flat(self.segments.take(sp.index as int)) + self.segments[sp.index as int].take(
            sp.len as int,
        )
    }
}

/// What a unit says when no save point is set.
pub open spec fn no_save_point_message() -> Seq<char> {
    "no save point"@
}

/// What a unit says of an unknown column family.
pub open spec fn cf_not_found_message(cf: Seq<char>) -> Seq<char> {
    "cf "@ + cf + " not found"@
}

/// A list of segments holds at least the operations of its first segment,
/// and exactly those if it is the only one.
pub proof fn lemma_flat_len(segments: Seq<Seq<WriteOpView>>)
    requires
        segments.len() >= 1,
    ensures
        flat(segments).len() >= segments[0].len(),
        segments.len() == 1 ==> flat(segments) == segments[0],
    decreases segments.len(),
{
    if segments.len() == 1 {
        assert(segments.drop_last() =~= Seq::<Seq<WriteOpView>>::empty());
        assert(flat(segments.drop_last()) =~= Seq::<WriteOpView>::empty());
        assert(segments.last() == segments[0]);
        assert(flat(segments) =~= segments[0]);
    } else {
        lemma_flat_len(segments.drop_last());
        assert(segments.drop_last()[0] == segments[0]);
    }
}

/// A well-formed unit holds no operation exactly if its first segment
/// holds none.
pub proof fn lemma_empty_first_segment(v: WriteBatchVecView)
    requires
        v.wf(),
    ensures
        (v.segments[0].len() == 0) == (v.count() == 0),
{
    lemma_flat_len(v.segments);
}

/// Making ready for one more request keeps the unit well formed and its
/// operations as they are.
pub proof fn lemma_switched(v: WriteBatchVecView)
    requires
        v.wf(),
    ensures
        v.switched().wf(),
        v.switched().ops() == v.ops(),
        v.switched().save_points == v.save_points,
{
    let w = v.switched();
    if v.switches() {
        assert(w.segments.drop_last() =~= v.segments);
        assert(flat(w.segments) =~= flat(v.segments));
        assert forall|i: int| 0 <= i < w.segments.len() - 1 implies (#[trigger] w.segments[i]).len()
            >= w.batch_size_limit by {
            assert(w.segments[i] == v.segments[i]);
        }
    }
}

/// Adding operations to the last segment keeps the unit well formed and
/// puts them at the end of the unit.
pub proof fn lemma_extended(v: WriteBatchVecView, ops: Seq<WriteOpView>)
    requires
        v.wf(),
    ensures
        v.extended(ops).wf(),
        v.extended(ops).ops() == v.ops() + ops,
        v.extended(ops).save_points == v.save_points,
        v.extended(ops).segments.len() == v.segments.len(),
{
    let w = v.extended(ops);
    assert(w.segments.drop_last() =~= v.segments.drop_last());
    assert(flat(w.segments) =~= flat(v.segments) + ops);
}

/// However the unit is cut into segments, an operation that is added comes
/// last in it, after all that was there, and the unit holds one operation
/// more.
pub proof fn lemma_with_op_appends(v: WriteBatchVecView, op: WriteOpView)
    requires
        v.wf(),
    ensures
        v.with_op(op).wf(),
        v.with_op(op).ops() == v.ops().push(op),
        v.with_op(op).count() == v.count() + 1,
        v.with_op(op).save_points == v.save_points,
{
    lemma_switched(v);
    lemma_extended(v.switched(), seq![op]);
    assert(v.ops() + seq![op] =~= v.ops().push(op));
}

/// Operations that are added one after the other come last in the unit, in
/// their order.
pub proof fn lemma_with_ops_appends(v: WriteBatchVecView, ops: Seq<WriteOpView>)
    requires
        v.wf(),
    ensures
        v.with_ops(ops).wf(),
        v.with_ops(ops).ops() == v.ops() + ops,
        v.with_ops(ops).count() == v.count() + ops.len(),
        v.with_ops(ops).save_points == v.save_points,
    decreases ops.len(),
{
    if ops.len() > 0 {
        lemma_with_ops_appends(v, ops.drop_last());
        lemma_with_op_appends(v.with_ops(ops.drop_last()), ops.last());
        assert(v.ops() + ops =~= (v.ops() + ops.drop_last()).push(ops.last()));
    } else {
        assert(v.ops() + ops =~= v.ops());
    }
}

/// Merging keeps the unit well formed and puts the merged operations at its
/// end, in their order: the unit then holds as many operations more as the
/// other unit held.
pub proof fn lemma_merged(v: WriteBatchVecView, segments: Seq<Seq<WriteOpView>>)
    requires
        v.wf(),
    ensures
        v.merged(segments).wf(),
        v.merged(segments).ops() == v.ops() + flat(segments),
        v.merged(segments).count() == v.count() + flat(segments).len(),
        v.merged(segments).save_points == v.save_points,
    decreases segments.len(),
{
    if segments.len() > 0 {
        let before = v.merged(segments.drop_last());
        lemma_merged(v, segments.drop_last());
        lemma_switched(before);
        lemma_extended(before.switched(), segments.last());
        assert(v.ops() + flat(segments) =~= (v.ops() + flat(segments.drop_last()))
            + segments.last());
    } else {
        assert(v.ops() + flat(segments) =~= v.ops());
    }
}

/// Setting a save point keeps the unit well formed, and the save point
/// remembers all operations of the unit.
pub proof fn lemma_saved(v: WriteBatchVecView)
    requires
        v.wf(),
    ensures
        v.saved().wf(),
        v.saved().ops() == v.ops(),
        v.saved().ops_at_save_point() == v.ops(),
        v.saved().rolled_back() == v,
        v.saved().popped() == v,
{
    let w = v.saved();
    assert(w.save_points.last() == v.here());
    assert(v.segments.take(v.index() as int) =~= v.segments.drop_last());
    assert(v.segments.last().take(v.segments.last().len() as int) =~= v.segments.last());
    assert(w.save_points.drop_last() =~= v.save_points);
    assert(w.rolled_back().segments =~= v.segments);
}

/// Going back to the latest save point keeps the unit well formed and
/// leaves exactly the operations that the save point remembers, so the
/// unit reports their number again.
pub proof fn lemma_rolled_back(v: WriteBatchVecView)
    requires
        v.wf(),
        v.save_points.len() > 0,
    ensures
        v.rolled_back().wf(),
        v.rolled_back().ops() == v.ops_at_save_point(),
        v.rolled_back().count() == v.ops_at_save_point().len(),
{
    let w = v.rolled_back();
    let sp = v.save_points.last();
    assert(sp == v.save_points[v.save_points.len() - 1]);
    assert(w.segments.drop_last() =~= v.segments.take(sp.index as int));
    assert forall|i: int| 0 <= i < w.segments.len() - 1 implies (#[trigger] w.segments[i]).len()
        >= w.batch_size_limit by {
        assert(w.segments[i] == v.segments[i]);
    }
    assert forall|j: int| 0 <= j < w.save_points.len() implies (#[trigger] w.save_points[j]).index
        < w.segments.len() && w.save_points[j].len
        <= w.segments[w.save_points[j].index as int].len() by {
        assert(w.save_points[j] == v.save_points[j]);
    }
    assert forall|j: int, k: int| 0 <= j < k < w.save_points.len() implies (
    #[trigger] w.save_points[j]).index < (#[trigger] w.save_points[k]).index || (
    w.save_points[j].index == w.save_points[k].index && w.save_points[j].len
        <= w.save_points[k].len) by {
        assert(w.save_points[j] == v.save_points[j]);
        assert(w.save_points[k] == v.save_points[k]);
    }
}

/// Taking the latest save point off keeps the unit well formed and its
/// operations as they are.
pub proof fn lemma_popped(v: WriteBatchVecView)
    requires
        v.wf(),
        v.save_points.len() > 0,
    ensures
        v.popped().wf(),
        v.popped().ops() == v.ops(),
{
    let w = v.popped();
    assert forall|j: int| 0 <= j < w.save_points.len() implies (#[trigger] w.save_points[j]).index
        < w.segments.len() && w.save_points[j].len
        <= w.segments[w.save_points[j].index as int].len() by {
        assert(w.save_points[j] == v.save_points[j]);
    }
    assert forall|j: int, k: int| 0 <= j < k < w.save_points.len() implies (
    #[trigger] w.save_points[j]).index < (#[trigger] w.save_points[k]).index || (
    w.save_points[j].index == w.save_points[k].index && w.save_points[j].len
        <= w.save_points[k].len) by {
        assert(w.save_points[j] == v.save_points[j]);
        assert(w.save_points[k] == v.save_points[k]);
    }
}

/// What a save point remembers does not change when an operation is added.
pub proof fn lemma_save_point_survives(v: WriteBatchVecView, op: WriteOpView)
    requires
        v.wf(),
        v.save_points.len() > 0,
    ensures
        v.with_op(op).save_points == v.save_points,
        v.with_op(op).ops_at_save_point() == v.ops_at_save_point(),
{
    lemma_switched(v);
    lemma_extended(v.switched(), seq![op]);
    let s = v.switched();
    let w = v.with_op(op);
    let sp = v.save_points.last();
    assert(sp == v.save_points[v.save_points.len() - 1]);
    assert(s.segments.take(sp.index as int) =~= v.segments.take(sp.index as int));
    assert(w.segments.take(sp.index as int) =~= v.segments.take(sp.index as int));
    assert(w.segments[sp.index as int].take(sp.len as int) =~= v.segments[sp.index as int].take(
        sp.len as int,
    ));
}

/// Going back to a save point discards exactly the work done since: after
/// a save point, any operations, and the way back, the unit holds the
/// operations that it held when the save point was set, and reports their
/// number.
pub proof fn lemma_rollback_discards_work_since(v: WriteBatchVecView, ops: Seq<WriteOpView>)
    requires
        v.wf(),
    ensures
        v.saved().with_ops(ops).save_points.len() > 0,
        v.saved().with_ops(ops).rolled_back().wf(),
        v.saved().with_ops(ops).rolled_back().ops() == v.ops(),
        v.saved().with_ops(ops).rolled_back().count() == v.count(),
        v.saved().with_ops(ops).rolled_back().save_points == v.save_points,
    decreases ops.len(),
{
    lemma_saved(v);
    lemma_with_ops_appends(v.saved(), ops);
    let worked = v.saved().with_ops(ops);
    assert(v.saved().save_points.drop_last() =~= v.save_points);
    assert(worked.ops_at_save_point() == v.ops()) by {
        lemma_work_keeps_save_point(v.saved(), ops);
    }
    lemma_rolled_back(worked);
}

/// What a save point remembers does not change when operations are added.
pub proof fn lemma_work_keeps_save_point(v: WriteBatchVecView, ops: Seq<WriteOpView>)
    requires
        v.wf(),
        v.save_points.len() > 0,
    ensures
        v.with_ops(ops).save_points == v.save_points,
        v.with_ops(ops).ops_at_save_point() == v.ops_at_save_point(),
    decreases ops.len(),
{
    if ops.len() > 0 {
        lemma_work_keeps_save_point(v, ops.drop_last());
        lemma_with_ops_appends(v, ops.drop_last());
        lemma_save_point_survives(v.with_ops(ops.drop_last()), ops.last());
    }
}

/// Clearing gives a well-formed, empty unit.
pub proof fn lemma_cleared(v: WriteBatchVecView)
    ensures
        v.cleared().wf(),
        v.cleared().ops() == Seq::<WriteOpView>::empty(),
        v.cleared().count() == 0,
        !v.cleared().should_write_to_engine(),
{
    let w = v.cleared();
    assert(w.segments.len() == 1);
    lemma_flat_len(w.segments);
    assert(w.segments[0] =~= Seq::<WriteOpView>::empty());
}

/// What the unit needs to know of the engine that it will be written to.
#[derive(Debug)]
pub struct RocksEngine {
    /// The names of the engine's column families.
    pub cfs: Vec<String>,
    /// Whether the engine takes a unit as a list of segments.
    pub multi_batch_write: bool,
}

impl RocksEngine {
    /// The description of an engine.
    pub fn new(cfs: Vec<String>, multi_batch_write: bool) -> (engine: RocksEngine)
        ensures
            engine.cfs == cfs,
            engine.multi_batch_write == multi_batch_write,
    {
        RocksEngine { cfs, multi_batch_write }
    }

    /// An empty unit for this engine, with the usual segment limit.
    pub fn write_batch(&self) -> (wb: RocksWriteBatchVec)
        ensures
            wb.wf(),
            wb@ == RocksWriteBatchVec::spec_new(self, WRITE_BATCH_LIMIT),
    {
        RocksWriteBatchVec::new(self, WRITE_BATCH_LIMIT, 1)
    }

    /// An empty unit for this engine that expects `cap` bytes.
    pub fn write_batch_with_cap(&self, cap: usize) -> (wb: RocksWriteBatchVec)
        ensures
            wb.wf(),
            wb@ == RocksWriteBatchVec::spec_new(self, WRITE_BATCH_LIMIT),
    {
        RocksWriteBatchVec::with_capacity(self, cap)
    }
}

/// A unit of operations that is written as a whole. Where the engine takes
/// segments, the unit begins a new segment whenever the last one holds
/// `batch_size_limit` operations, so that no segment holds up the engine
/// for long; the segments together are still one unit.
#[derive(Debug)]
pub struct RocksWriteBatchVec {
    cfs: Vec<String>,
    wbs: Vec<RawWriteBatch>,
    save_points: Vec<SavePoint>,
    index: usize,
    batch_size_limit: usize,
    support_write_batch_vec: bool,
}

impl View for RocksWriteBatchVec {
    type V = WriteBatchVecView;

    closed spec fn view(&self) -> WriteBatchVecView {
        WriteBatchVecView {
            cfs: names_view(self.cfs@),
            segments: segments_view(self.wbs@).take(self.index as int + 1),
            batch_size_limit: self.batch_size_limit as nat,
            support_write_batch_vec: self.support_write_batch_vec,
            save_points: save_points_view(self.save_points@),
        }
    }
}

fn clone_names(names: &Vec<String>) -> (res: Vec<String>)
    ensures
        names_view(res@) == names_view(names@),
{
    let mut out: Vec<String> = Vec::new();
    let mut i: usize = 0;
    while i < names.len()
        invariant
            i <= names@.len(),
            names_view(out@) == names_view(names@).take(i as int),
        decreases names@.len() - i,
    {
        let ghost before = names_view(out@);
        out.push(names[i].clone());
        assert(names_view(out@) =~= before.push(names@[i as int]@));
        assert(names_view(names@).take(i as int + 1) =~= names_view(names@).take(i as int).push(
            names@[i as int]@,
        ));
        i += 1;
    }
    assert(names_view(names@).take(names@.len() as int) =~= names_view(names@));
    out
}

impl RocksWriteBatchVec {
    /// The unit is well formed: its view is, and the segments held in
    /// reserve behind the one being filled are empty.
    pub closed spec fn wf(&self) -> bool {
        &&& self.index < self.wbs@.len()
        &&& forall|i: int| self.index < i < self.wbs@.len() ==> (#[trigger] self.wbs@[i])@.len() == 0
        &&& self@.wf()
    }

    /// The view of a well-formed unit is well formed.
    pub proof fn lemma_wf_view(&self)
        requires
            self.wf(),
        ensures
            self@.wf(),
    {
    }

    proof fn lemma_index_bound(&self)
        requires
            self.index < self.wbs@.len(),
        ensures
            self.index < usize::MAX,
    {
        assert(self.wbs.len() == self.wbs@.len());
    }

    /// The empty unit for `engine` with the given segment limit.
    pub open spec fn spec_new(engine: &RocksEngine, batch_size_limit: usize) -> WriteBatchVecView {
        WriteBatchVecView {
            cfs: names_view(engine.cfs@),
            segments: seq![seq![]],
            batch_size_limit: batch_size_limit as nat,
            support_write_batch_vec: engine.multi_batch_write,
            save_points: seq![],
        }
    }

    /// An empty unit for `engine`. A new segment is begun after
    /// `batch_size_limit` operations, if the engine takes segments and the
    /// limit is not zero. `cap` is the size in bytes that the caller
    /// expects.
    pub fn new(engine: &RocksEngine, batch_size_limit: usize, cap: usize) -> (wb:
        RocksWriteBatchVec)
        ensures
            wb.wf(),
            wb@ == Self::spec_new(engine, batch_size_limit),
    {
        let first = RawWriteBatch::with_capacity(cap);
        let mut wbs: Vec<RawWriteBatch> = Vec::new();
        wbs.push(first);
        let wb = RocksWriteBatchVec {
            cfs: clone_names(&engine.cfs),
            wbs,
            save_points: Vec::new(),
            index: 0,
            batch_size_limit,
            support_write_batch_vec: engine.multi_batch_write,
        };
        proof {
            assert(wb@.segments =~= seq![Seq::<WriteOpView>::empty()]);
            assert(wb@.save_points =~= Seq::<SavePointView>::empty());
        }
        wb
    }

    /// An empty unit for `engine` with the usual segment limit.
    pub fn with_capacity(engine: &RocksEngine, cap: usize) -> (wb: RocksWriteBatchVec)
        ensures
            wb.wf(),
            wb@ == Self::spec_new(engine, WRITE_BATCH_LIMIT),
    {
        Self::new(engine, WRITE_BATCH_LIMIT, cap)
    }

    /// The segments in use, in order.
    pub fn as_inner(&self) -> (inner: &[RawWriteBatch])
        requires
            self.wf(),
        ensures
            segments_view(inner@) == self@.segments,
    {
        proof {
            self.lemma_index_bound();
        }
        let inner = slice_subrange(self.wbs.as_slice(), 0, self.index + 1);
        assert(segments_view(inner@) =~= self@.segments);
        inner
    }

    /// The first segment.
    pub fn as_raw(&self) -> (raw: &RawWriteBatch)
        requires
            self.wf(),
        ensures
            raw@ == self@.segments[0],
    {
        &self.wbs[0]
    }

    /// Makes ready for one more request: begins a new segment where the
    /// last one has reached the limit.
    fn check_switch_batch(&mut self)
        requires
            old(self).wf(),
        ensures
            final(self).wf(),
            final(self)@ == old(self)@.switched(),
    {
        proof {
            lemma_switched(self@);
            self.lemma_index_bound();
        }
        let ghost before = self@;
        if self.support_write_batch_vec {
            if self.batch_size_limit > 0 && self.wbs[self.index].count() >= self.batch_size_limit {
                self.index += 1;
                if self.index >= self.wbs.len() {
                    self.wbs.push(RawWriteBatch::with_capacity(0));
                }
                proof {
                    assert(self.wbs@[self.index as int]@ =~= Seq::<WriteOpView>::empty());
                }
            }
        }
        proof {
            assert(self@.segments =~~= before.switched().segments);
        }
    }

    /// The number of key and value bytes held, or the greatest `usize` if
    /// that is less.
    pub fn data_size(&self) -> (res: usize)
        requires
            self.wf(),
        ensures
            res == capped(segments_size(self@.segments)),
    {
        let mut total: usize = 0;
        let mut i: usize = 0;
        assert(self@.segments.take(0) =~= Seq::<Seq<WriteOpView>>::empty());
        proof {
            self.lemma_index_bound();
        }
        while i <= self.index
            invariant
                self.wf(),
                self.index < usize::MAX,
                i <= self.index + 1,
                total == capped(segments_size(self@.segments.take(i as int))),
            decreases self.index + 1 - i,
        {
            assert(self@.segments.take(i as int + 1).drop_last() =~= self@.segments.take(i as int));
            assert(self@.segments.take(i as int + 1).last() == self.wbs@[i as int]@);
            total = total.saturating_add(self.wbs[i].data_size());
            i += 1;
        }
        assert(self@.segments.take(self.index as int + 1) =~= self@.segments);
        total
    }

    /// The number of operations held, or the greatest `usize` if that is
    /// less.
    pub fn count(&self) -> (res: usize)
        requires
            self.wf(),
        ensures
            res == capped(self@.count()),
    {
        let mut total: usize = 0;
        let mut i: usize = 0;
        assert(self@.segments.take(0) =~= Seq::<Seq<WriteOpView>>::empty());
        proof {
            self.lemma_index_bound();
        }
        while i <= self.index
            invariant
                self.wf(),
                self.index < usize::MAX,
                i <= self.index + 1,
                total == capped(flat(self@.segments.take(i as int)).len()),
            decreases self.index + 1 - i,
        {
            assert(self@.segments.take(i as int + 1).drop_last() =~= self@.segments.take(i as int));
            assert(self@.segments.take(i as int + 1).last() == self.wbs@[i as int]@);
            total = total.saturating_add(self.wbs[i].count());
            i += 1;
        }
        assert(self@.segments.take(self.index as int + 1) =~= self@.segments);
        total
    }

    /// Whether the unit holds no operation.
    pub fn is_empty(&self) -> (res: bool)
        requires
            self.wf(),
        ensures
            res == (self@.count() == 0),
    {
        proof {
            lemma_empty_first_segment(self@);
        }
        self.wbs[0].is_empty()
    }

    /// Whether the unit has grown so large that it should be written.
    pub fn should_write_to_engine(&self) -> (res: bool)
        requires
            self.wf(),
        ensures
            res == self@.should_write_to_engine(),
    {
        if self.support_write_batch_vec {
            self.index >= WRITE_BATCH_MAX_BATCH
        } else {
            self.count() > WRITE_BATCH_MAX_KEYS
        }
    }

    /// Removes every operation and every save point.
    pub fn clear(&mut self)
        requires
            old(self).wf(),
        ensures
            final(self).wf(),
            final(self)@ == old(self)@.cleared(),
    {
        let mut i: usize = 0;
        proof {
            self.lemma_index_bound();
        }
        while i <= self.index
            invariant
                i <= self.index + 1,
                self.index < usize::MAX,
                self.index == old(self).index,
                self.index < self.wbs@.len(),
                self.wbs@.len() == old(self).wbs@.len(),
                self.cfs == old(self).cfs,
                self.batch_size_limit == old(self).batch_size_limit,
                self.support_write_batch_vec == old(self).support_write_batch_vec,
                forall|j: int| 0 <= j < i ==> (#[trigger] self.wbs@[j])@.len() == 0,
                forall|j: int|
                    self.index < j < self.wbs@.len() ==> (#[trigger] self.wbs@[j])@.len() == 0,
            decreases self.index + 1 - i,
        {
            self.wbs[i].clear();
            i += 1;
        }
        self.save_points.clear();
        self.index = 0;
        proof {
            lemma_cleared(old(self)@);
            assert(self.wbs@[0]@ =~= Seq::<WriteOpView>::empty());
            assert(self@.segments =~~= seq![Seq::<WriteOpView>::empty()]);
            assert(self@.save_points =~= Seq::<SavePointView>::empty());
        }
    }

    /// Sets a save point at the end of the unit.
    pub fn set_save_point(&mut self)
        requires
            old(self).wf(),
        ensures
            final(self).wf(),
            final(self)@ == old(self)@.saved(),
    {
        proof {
            lemma_saved(self@);
        }
        let ghost before = save_points_view(self.save_points@);
        let sp = SavePoint { index: self.index, len: self.wbs[self.index].count() };
        self.save_points.push(sp);
        proof {
            assert(save_points_view(self.save_points@) =~= before.push(sp@));
        }
    }

    /// Takes the latest save point off and keeps all operations. Fails if
    /// no save point is set.
    pub fn pop_save_point(&mut self) -> (res: Result<(), Error>)
        requires
            old(self).wf(),
        ensures
            final(self).wf(),
            (final(self)@, unit_result_view(res)) == old(self)@.pop_request(),
    {
        let ghost before = save_points_view(self.save_points@);
        match self.save_points.pop() {
            Some(_) => {
                proof {
                    lemma_popped(old(self)@);
                    assert(save_points_view(self.save_points@) =~= before.drop_last());
                }
                Ok(())
            },
            None => Err(Error::Engine(String::from_str("no save point"))),
        }
    }

    /// Goes back to the latest save point: the operations added since are
    /// dropped, and the save point is taken off. Fails if no save point is
    /// set.
    pub fn rollback_to_save_point(&mut self) -> (res: Result<(), Error>)
        requires
            old(self).wf(),
        ensures
            final(self).wf(),
            (final(self)@, unit_result_view(res)) == old(self)@.rollback_request(),
    {
        let ghost before = save_points_view(self.save_points@);
        match self.save_points.pop() {
            Some(sp) => {
                proof {
                    lemma_rolled_back(old(self)@);
                    old(self).lemma_index_bound();
                    assert(save_points_view(self.save_points@) =~= before.drop_last());
                    assert(before.last() == sp@);
                    assert(before[before.len() - 1] == sp@);
                }
                let mut i: usize = sp.index + 1;
                while i <= self.index
                    invariant
                        sp.index < i <= self.index + 1,
                        self.index < usize::MAX,
                        self.index == old(self).index,
                        self.index < self.wbs@.len(),
                        self.wbs@.len() == old(self).wbs@.len(),
                        self.cfs == old(self).cfs,
                        self.batch_size_limit == old(self).batch_size_limit,
                        self.support_write_batch_vec == old(self).support_write_batch_vec,
                        save_points_view(self.save_points@) == before.drop_last(),
                        forall|j: int| sp.index < j < i ==> (#[trigger] self.wbs@[j])@.len() == 0,
                        forall|j: int|
                            0 <= j <= sp.index ==> (#[trigger] self.wbs@[j]) == old(self).wbs@[j],
                        forall|j: int|
                            self.index < j < self.wbs@.len() ==> (#[trigger] self.wbs@[j])@.len()
                                == 0,
                    decreases self.index + 1 - i,
                {
                    self.wbs[i].clear();
                    i += 1;
                }
                self.index = sp.index;
                self.wbs[sp.index].truncate(sp.len);
                proof {
                    assert(self@.segments =~~= old(self)@.rolled_back().segments);
                }
                Ok(())
            },
            None => Err(Error::Engine(String::from_str("no save point"))),
        }
    }

    fn has_cf(&self, cf: &str) -> (res: bool)
        ensures
            res == self@.has_cf(cf@),
    {
        let name = String::from_str(cf);
        let mut i: usize = 0;
        while i < self.cfs.len()
            invariant
                i <= self.cfs@.len(),
                name@ == cf@,
                forall|j: int| 0 <= j < i ==> names_view(self.cfs@)[j] != cf@,
            decreases self.cfs@.len() - i,
        {
            if self.cfs[i] == name {
                assert(names_view(self.cfs@)[i as int] == cf@);
                return true;
            }
            i += 1;
        }
        false
    }

    /// Adds `op` to the segment being filled, unless it names an unknown
    /// column family.
    fn request(&mut self, op: WriteOp, cf: Option<&str>) -> (res: Result<(), Error>)
        requires
            old(self).wf(),
            op@.cf() == match cf {
                Some(name) => Some(name@),
                None => None,
            },
        ensures
            final(self).wf(),
            (final(self)@, unit_result_view(res)) == old(self)@.request(op@),
    {
        if let Some(name) = cf {
            if !self.has_cf(name) {
                let msg = String::from_str("cf ").concat(name).concat(" not found");
                return Err(Error::Engine(msg));
            }
        }
        proof {
            lemma_with_op_appends(self@, op@);
        }
        self.check_switch_batch();
        let ghost switched = self@;
        let ghost opv = op@;
        self.wbs[self.index].push(op);
        proof {
            assert(self@.segments =~~= switched.extended(seq![opv]).segments);
            lemma_extended(switched, seq![opv]);
        }
        Ok(())
    }

    /// Merges the segments of another unit into this one. The operations of
    /// each segment are added together to the segment being filled, after a
    /// new one is begun where it has reached the limit. Never fails.
    pub fn merge(&mut self, other: RocksWriteBatchVec) -> (res: Result<(), Error>)
        requires
            old(self).wf(),
            other.wf(),
        ensures
            final(self).wf(),
            final(self)@ == old(self)@.merged(other@.segments),
            res is Ok,
    {
        proof {
            other.lemma_index_bound();
        }
        let n: usize = other.index + 1;
        let ghost segments = other@.segments;
        let mut i: usize = 0;
        assert(segments.take(0) =~= Seq::<Seq<WriteOpView>>::empty());
        while i < n
            invariant
                i <= n,
                n == other.index + 1,
                other.wf(),
                segments == other@.segments,
                self.wf(),
                self@ == old(self)@.merged(segments.take(i as int)),
            decreases n - i,
        {
            proof {
                lemma_switched(self@);
                assert(segments.take(i as int + 1).drop_last() =~= segments.take(i as int));
                assert(segments.take(i as int + 1).last() == other.wbs@[i as int]@);
            }
            self.check_switch_batch();
            let ghost switched = self@;
            self.wbs[self.index].append(&other.wbs[i]);
            proof {
                assert(self@.segments =~~= switched.extended(other.wbs@[i as int]@).segments);
                lemma_extended(switched, other.wbs@[i as int]@);
            }
            i += 1;
        }
        assert(segments.take(n as int) =~= segments);
        Ok(())
    }

    /// Asks to store `value` under `key`.
    pub fn put(&mut self, key: &[u8], value: &[u8]) -> (res: Result<(), Error>)
        requires
            old(self).wf(),
        ensures
            final(self).wf(),
            (final(self)@, unit_result_view(res)) == old(self)@.request(
                WriteOpView::Put { cf: None, key: key@, value: value@ },
            ),
    {
        self.request(WriteOp::Put { cf: None, key: to_bytes(key), value: to_bytes(value) }, None)
    }

    /// Asks to store `value` under `key` in the column family `cf`.
    pub fn put_cf(&mut self, cf: &str, key: &[u8], value: &[u8]) -> (res: Result<(), Error>)
        requires
            old(self).wf(),
        ensures
            final(self).wf(),
            (final(self)@, unit_result_view(res)) == old(self)@.request(
                WriteOpView::Put { cf: Some(cf@), key: key@, value: value@ },
            ),
    {
        let op = WriteOp::Put {
            cf: Some(String::from_str(cf)),
            key: to_bytes(key),
            value: to_bytes(value),
        };
        self.request(op, Some(cf))
    }

    /// Asks to delete `key`.
    pub fn delete(&mut self, key: &[u8]) -> (res: Result<(), Error>)
        requires
            old(self).wf(),
        ensures
            final(self).wf(),
            (final(self)@, unit_result_view(res)) == old(self)@.request(
                WriteOpView::Delete { cf: None, key: key@ },
            ),
    {
        self.request(WriteOp::Delete { cf: None, key: to_bytes(key) }, None)
    }

    /// Asks to delete `key` in the column family `cf`.
    pub fn delete_cf(&mut self, cf: &str, key: &[u8]) -> (res: Result<(), Error>)
        requires
            old(self).wf(),
        ensures
            final(self).wf(),
            (final(self)@, unit_result_view(res)) == old(self)@.request(
                WriteOpView::Delete { cf: Some(cf@), key: key@ },
            ),
    {
        let op = WriteOp::Delete { cf: Some(String::from_str(cf)), key: to_bytes(key) };
        self.request(op, Some(cf))
    }

    /// Asks to delete every key from `begin_key` up to, not including,
    /// `end_key`.
    pub fn delete_range(&mut self, begin_key: &[u8], end_key: &[u8]) -> (res: Result<(), Error>)
        requires
            old(self).wf(),
        ensures
            final(self).wf(),
            (final(self)@, unit_result_view(res)) == old(self)@.request(
                WriteOpView::DeleteRange { cf: None, begin_key: begin_key@, end_key: end_key@ },
            ),
    {
        let op = WriteOp::DeleteRange {
            cf: None,
            begin_key: to_bytes(begin_key),
            end_key: to_bytes(end_key),
        };
        self.request(op, None)
    }

    /// Asks to delete every key from `begin_key` up to, not including,
    /// `end_key` in the column family `cf`.
    pub fn delete_range_cf(&mut self, cf: &str, begin_key: &[u8], end_key: &[u8]) -> (res: Result<
        (),
        Error,
    >)
        requires
            old(self).wf(),
        ensures
            final(self).wf(),
            (final(self)@, unit_result_view(res)) == old(self)@.request(
                WriteOpView::DeleteRange {
                    cf: Some(cf@),
                    begin_key: begin_key@,
                    end_key: end_key@,
                },
            ),
    {
        let op = WriteOp::DeleteRange {
            cf: Some(String::from_str(cf)),
            begin_key: to_bytes(begin_key),
            end_key: to_bytes(end_key),
        };
        self.request(op, Some(cf))
    }
}

} // verus!
