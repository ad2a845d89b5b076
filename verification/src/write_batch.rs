//! The storage write adapter: a unit of key-value operations that is
//! applied as a whole, cut into segments so that no single segment grows
//! too large, with nested save points.

use vstd::prelude::*;
use crate::bytes::clone_bytes;

verus! {

/// The number of segments at which a segmented unit should be written.
pub const WRITE_BATCH_MAX_BATCH: usize = 16;

/// The number of operations after which a new segment is begun.
pub const WRITE_BATCH_LIMIT: usize = 16;

/// The number of operations above which an unsegmented unit should be
/// written.
pub const WRITE_BATCH_MAX_KEYS: usize = 256;

/// One key-value operation. `cf` names the column family; without it the
/// operation is for the default one.
#[derive(Debug, PartialEq, Eq)]
pub enum WriteOp {
    Put { cf: Option<String>, key: Vec<u8>, value: Vec<u8> },
    Delete { cf: Option<String>, key: Vec<u8> },
    DeleteRange { cf: Option<String>, begin_key: Vec<u8>, end_key: Vec<u8> },
}

/// The mathematical value of a [`WriteOp`].
pub enum WriteOpView {
    Put { cf: Option<Seq<char>>, key: Seq<u8>, value: Seq<u8> },
    Delete { cf: Option<Seq<char>>, key: Seq<u8> },
    DeleteRange { cf: Option<Seq<char>>, begin_key: Seq<u8>, end_key: Seq<u8> },
}

/// The mathematical value of an optional name.
pub open spec fn opt_name_view(name: Option<String>) -> Option<Seq<char>> {
    match name {
        Some(n) => Some(n@),
        None => None,
    }
}

impl WriteOpView {
    /// The column family that the operation names, if it names one.
    pub open spec fn cf(self) -> Option<Seq<char>> {
        match self {
            WriteOpView::Put { cf, .. } => cf,
            WriteOpView::Delete { cf, .. } => cf,
            WriteOpView::DeleteRange { cf, .. } => cf,
        }
    }

    /// The number of key and value bytes that the operation carries.
    pub open spec fn size(self) -> nat {
        match self {
            WriteOpView::Put { key, value, .. } => key.len() + value.len(),
            WriteOpView::Delete { key, .. } => key.len(),
            WriteOpView::DeleteRange { begin_key, end_key, .. } => begin_key.len() + end_key.len(),
        }
    }
}

impl View for WriteOp {
    type V = WriteOpView;

    open spec fn view(&self) -> WriteOpView {
        match *self {
            WriteOp::Put { cf, key, value } => WriteOpView::Put {
                cf: opt_name_view(cf),
                key: key@,
                value: value@,
            },
            WriteOp::Delete { cf, key } => WriteOpView::Delete { cf: opt_name_view(cf), key: key@ },
            WriteOp::DeleteRange { cf, begin_key, end_key } => WriteOpView::DeleteRange {
                cf: opt_name_view(cf),
                begin_key: begin_key@,
                end_key: end_key@,
            },
        }
    }
}

fn clone_opt_name(name: &Option<String>) -> (res: Option<String>)
    ensures
        opt_name_view(res) == opt_name_view(*name),
{
    match name {
        Some(n) => Some(n.clone()),
        None => None,
    }
}

impl Clone for WriteOp {
    fn clone(&self) -> (res: WriteOp)
        ensures
            res@ == self@,
    {
        match self {
            WriteOp::Put { cf, key, value } => WriteOp::Put {
                cf: clone_opt_name(cf),
                key: clone_bytes(key),
                value: clone_bytes(value),
            },
            WriteOp::Delete { cf, key } => WriteOp::Delete {
                cf: clone_opt_name(cf),
                key: clone_bytes(key),
            },
            WriteOp::DeleteRange { cf, begin_key, end_key } => WriteOp::DeleteRange {
                cf: clone_opt_name(cf),
                begin_key: clone_bytes(begin_key),
                end_key: clone_bytes(end_key),
            },
        }
    }
}

impl WriteOp {
    /// The number of key and value bytes that the operation carries, or the
    /// greatest `usize` if that is less.
    pub fn size(&self) -> (res: usize)
        ensures
            res == capped(self@.size()),
    {
        match self {
            WriteOp::Put { key, value, .. } => key.len().saturating_add(value.len()),
            WriteOp::Delete { key, .. } => key.len(),
            WriteOp::DeleteRange { begin_key, end_key, .. } => begin_key.len().saturating_add(
                end_key.len(),
            ),
        }
    }
}

/// A count as a `usize`: itself, or the greatest `usize` if that is less.
pub open spec fn capped(n: nat) -> usize {
    if n > usize::MAX {
        usize::MAX
    } else {
        n as usize
    }
}

/// The mathematical value of a list of operations.
pub open spec fn ops_view(ops: Seq<WriteOp>) -> Seq<WriteOpView> {
    ops.map_values(|op: WriteOp| op@)
}

/// The number of key and value bytes that a list of operations carries.
pub open spec fn ops_size(ops: Seq<WriteOpView>) -> nat
    decreases ops.len(),
{
    if ops.len() == 0 {
        0
    } else {
        ops_size(ops.drop_last()) + ops.last().size()
    }
}

/// The number of key and value bytes that a list of segments carries.
pub open spec fn segments_size(segments: Seq<Seq<WriteOpView>>) -> nat
    decreases segments.len(),
{
    if segments.len() == 0 {
        0
    } else {
        segments_size(segments.drop_last()) + ops_size(segments.last())
    }
}

/// The operations of a list of segments, in order.
pub open spec fn flat(segments: Seq<Seq<WriteOpView>>) -> Seq<WriteOpView>
    decreases segments.len(),
{
    if segments.len() == 0 {
        seq![]
    } else {
        flat(segments.drop_last()) + segments.last()
    }
}

/// One segment of a unit: a list of operations in the order in which they
/// were asked for.
#[derive(Debug, PartialEq, Eq)]
pub struct RawWriteBatch {
    pub ops: Vec<WriteOp>,
}

impl View for RawWriteBatch {
    type V = Seq<WriteOpView>;

    open spec fn view(&self) -> Seq<WriteOpView> {
        ops_view(self.ops@)
    }
}

/// The mathematical value of a list of segments.
pub open spec fn segments_view(wbs: Seq<RawWriteBatch>) -> Seq<Seq<WriteOpView>> {
    wbs.map_values(|wb: RawWriteBatch| wb@)
}

impl RawWriteBatch {
    /// An empty segment. `cap` is the size in bytes that the caller expects;
    /// the segment grows as needed whatever it is.
    pub fn with_capacity(cap: usize) -> (wb: RawWriteBatch)
        ensures
            wb@ == Seq::<WriteOpView>::empty(),
    {
        RawWriteBatch { ops: Vec::new() }
    }

    /// The number of operations.
    pub fn count(&self) -> (n: usize)
        ensures
            n == self@.len(),
    {
        self.ops.len()
    }

    /// Whether the segment holds no operation.
    pub fn is_empty(&self) -> (res: bool)
        ensures
            res == (self@.len() == 0),
    {
        self.ops.len() == 0
    }

    /// The number of key and value bytes held, or the greatest `usize` if
    /// that is less.
    pub fn data_size(&self) -> (res: usize)
        ensures
            res == capped(ops_size(self@)),
    {
        let mut total: usize = 0;
        let mut i: usize = 0;
        assert(self@.take(0) =~= Seq::<WriteOpView>::empty());
        while i < self.ops.len()
            invariant
                i <= self.ops@.len(),
                total == capped(ops_size(self@.take(i as int))),
            decreases self.ops@.len() - i,
        {
            assert(self@.take(i as int + 1).drop_last() =~= self@.take(i as int));
            assert(self@.take(i as int + 1).last() == self.ops@[i as int]@);
            total = total.saturating_add(self.ops[i].size());
            i += 1;
        }
        assert(self@.take(self.ops@.len() as int) =~= self@);
        total
    }

    /// Removes every operation.
    pub fn clear(&mut self)
        ensures
            final(self)@ == Seq::<WriteOpView>::empty(),
    {
        self.ops.clear();
    }

    /// Adds an operation at the end.
    pub fn push(&mut self, op: WriteOp)
        ensures
            final(self)@ == old(self)@.push(op@),
    {
        self.ops.push(op);
    }

    /// Adds the operations of `other` at the end, in their order.
    pub fn append(&mut self, other: &RawWriteBatch)
        ensures
            final(self)@ == old(self)@ + other@,
    {
        let mut i: usize = 0;
        assert(other@.take(0) =~= Seq::<WriteOpView>::empty());
        while i < other.ops.len()
            invariant
                i <= other.ops@.len(),
                self@ == old(self)@ + other@.take(i as int),
            decreases other.ops@.len() - i,
        {
            let ghost before = self@;
            assert(other@.take(i as int + 1) =~= other@.take(i as int).push(other.ops@[i as int]@));
            self.ops.push(other.ops[i].clone());
            assert(self@ =~= before.push(other.ops@[i as int]@));
            assert(self@ =~= old(self)@ + other@.take(i as int + 1));
            i += 1;
        }
        assert(other@.take(other.ops@.len() as int) =~= other@);
    }

    /// Keeps the first `len` operations and drops the rest. A segment that
    /// holds no more than `len` operations stays as it is.
    pub fn truncate(&mut self, len: usize)
        ensures
            final(self)@ == if len <= old(self)@.len() {
                old(self)@.take(len as int)
            } else {
                old(self)@
            },
    {
        let ghost before = self@;
        let ghost raw = self.ops@;
        self.ops.truncate(len);
        proof {
            if len <= raw.len() {
                assert(self@ =~= before.take(len as int));
            }
        }
    }
}

} // verus!
