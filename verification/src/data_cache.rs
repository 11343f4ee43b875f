//! The per-block data cache: a write-buffering overlay over a snapshot of
//! the authoritative global store. Reads check the overlay first and fall
//! back to the store; writes only ever touch the overlay, never the store.

use vstd::prelude::*;
use crate::types::{
    AccessPath, AccessPathView, Value, ValueView, WriteOp, WriteOpView, writes_view,
};

verus! {

/// The latest buffered write at a path, if any.
pub open spec fn lookup_writes(ws: Seq<(AccessPathView, WriteOpView)>, p: AccessPathView) -> Option<
    WriteOpView,
>
    decreases ws.len(),
{
    if ws.len() == 0 {
        None
    } else if ws.last().0 == p {
        Some(ws.last().1)
    } else {
        lookup_writes(ws.drop_last(), p)
    }
}

/// The value the store snapshot holds at a path, if any.
pub open spec fn lookup_store(st: Seq<(AccessPathView, ValueView)>, p: AccessPathView) -> Option<
    ValueView,
>
    decreases st.len(),
{
    if st.len() == 0 {
        None
    } else if st[0].0 == p {
        Some(st[0].1)
    } else {
        lookup_store(st.drop_first(), p)
    }
}

/// What a read observes through an overlay of buffered writes over a store:
/// the latest buffered value, absence after a buffered deletion, or the
/// store's value.
pub open spec fn overlay_lookup(
    ws: Seq<(AccessPathView, WriteOpView)>,
    st: Seq<(AccessPathView, ValueView)>,
    p: AccessPathView,
) -> Option<ValueView> {
    match lookup_writes(ws, p) {
        Some(WriteOpView::Value(v)) => Some(v),
        Some(WriteOpView::Deletion) => None,
        None => lookup_store(st, p),
    }
}

/// A lookup in concatenated write buffers checks the later buffer first.
pub proof fn lemma_lookup_writes_concat(
    a: Seq<(AccessPathView, WriteOpView)>,
    b: Seq<(AccessPathView, WriteOpView)>,
    p: AccessPathView,
)
    ensures
        lookup_writes(a + b, p) == (match lookup_writes(b, p) {
            Some(w) => Some(w),
            None => lookup_writes(a, p),
        }),
    decreases b.len(),
{
    if b.len() == 0 {
        assert(a + b =~= a);
    } else {
        assert((a + b).last() == b.last());
        assert((a + b).drop_last() =~= a + b.drop_last());
        lemma_lookup_writes_concat(a, b.drop_last(), p);
    }
}

/// Finds the latest buffered write at a path in one write buffer.
pub fn find_write(ws: &Vec<(AccessPath, WriteOp)>, p: &AccessPath) -> (r: Option<WriteOp>)
    ensures
        match r {
            Some(op) => lookup_writes(writes_view(ws@), p@) == Some(op@),
            None => lookup_writes(writes_view(ws@), p@) is None,
        },
{
    let ghost wv = writes_view(ws@);
    let mut i: usize = ws.len();
    proof {
        assert(wv.take(ws@.len() as int) =~= wv);
    }
    while i > 0
        invariant
            i <= ws@.len(),
            wv == writes_view(ws@),
            lookup_writes(wv, p@) == lookup_writes(wv.take(i as int), p@),
        decreases i,
    {
        i = i - 1;
        let e = &ws[i];
        proof {
            assert(wv[i as int] == (ws@[i as int].0@, ws@[i as int].1@));
            assert(wv.take(i + 1).last() == wv[i as int]);
            assert(wv.take(i + 1).drop_last() =~= wv.take(i as int));
        }
        if e.0.eq_path(p) {
            return Some(e.1.clone());
        }
    }
    proof {
        assert(wv.take(0).len() == 0);
    }
    None
}

/// The view of a store snapshot.
pub open spec fn store_view_of(s: Seq<(AccessPath, Value)>) -> Seq<(AccessPathView, ValueView)> {
    s.map_values(|e: (AccessPath, Value)| (e.0@, e.1@))
}

/// Law (read-your-writes): within one overlay, a read of a path immediately
/// after a write of a value to that path returns the written value, never
/// the store's stale value.
pub proof fn lemma_read_your_writes(
    ws: Seq<(AccessPathView, WriteOpView)>,
    st: Seq<(AccessPathView, ValueView)>,
    p: AccessPathView,
    v: ValueView,
)
    ensures
        overlay_lookup(ws.push((p, WriteOpView::Value(v))), st, p) == Some(v),
{
    assert(ws.push((p, WriteOpView::Value(v))).last() == (p, WriteOpView::Value(v)));
}

/// The per-block cache: a read-only snapshot of the global store, plus the
/// block-local write buffer. A fresh cache is created per block and never
/// leaks into the next one; the store itself is mutated only by the commit
/// collaborator, outside this core.
pub struct BlockDataCache {
    store: Vec<(AccessPath, Value)>,
    write_buffer: Vec<(AccessPath, WriteOp)>,
}

impl BlockDataCache {
    /// The view of the wrapped store snapshot.
    pub closed spec fn store_view(self) -> Seq<(AccessPathView, ValueView)> {
        store_view_of(self.store@)
    }

    /// The view of the block-local write buffer.
    pub closed spec fn buffer_view(self) -> Seq<(AccessPathView, WriteOpView)> {
        writes_view(self.write_buffer@)
    }

    /// What a read observes at a path.
    pub open spec fn lookup(self, p: AccessPathView) -> Option<ValueView> {
        overlay_lookup(self.buffer_view(), self.store_view(), p)
    }

    /// A fresh cache over a store snapshot, with an empty write buffer.
    pub fn new(store: Vec<(AccessPath, Value)>) -> (r: BlockDataCache)
        ensures
            r.store_view() == store_view_of(store@),
            r.buffer_view() == Seq::<(AccessPathView, WriteOpView)>::empty(),
    {
        let r = BlockDataCache { store, write_buffer: Vec::new() };
        proof {
            assert(r.buffer_view() =~= Seq::<(AccessPathView, WriteOpView)>::empty());
        }
        r
    }

    /// Reads a path: the buffered write wins over the store.
    pub fn read(&self, p: &AccessPath) -> (r: Option<Value>)
        ensures
            match r {
                Some(v) => self.lookup(p@) == Some(v@),
                None => self.lookup(p@) is None,
            },
    {
        let ghost ws = self.buffer_view();
        let mut i: usize = self.write_buffer.len();
        proof {
            assert(ws.take(self.write_buffer@.len() as int) =~= ws);
        }
        while i > 0
            invariant
                i <= self.write_buffer@.len(),
                ws == self.buffer_view(),
                lookup_writes(ws, p@) == lookup_writes(ws.take(i as int), p@),
            decreases i,
        {
            i = i - 1;
            let e = &self.write_buffer[i];
            proof {
                assert(ws[i as int] == (self.write_buffer@[i as int].0@,
                self.write_buffer@[i as int].1@));
                assert(ws.take(i + 1).last() == ws[i as int]);
                assert(ws.take(i + 1).drop_last() =~= ws.take(i as int));
            }
            if e.0.eq_path(p) {
                match &e.1 {
                    WriteOp::Value(v) => {
                        return Some(v.clone());
                    },
                    WriteOp::Deletion => {
                        return None;
                    },
                }
            }
        }
        proof {
            assert(ws.take(0).len() == 0);
        }
        let ghost st = self.store_view();
        let mut j: usize = 0;
        let n = self.store.len();
        proof {
            assert(st.skip(0) =~= st);
        }
        while j < n
            invariant
                j <= self.store@.len(),
                n == self.store@.len(),
                st == self.store_view(),
                ws == self.buffer_view(),
                lookup_writes(ws, p@) is None,
                lookup_store(st, p@) == lookup_store(st.skip(j as int), p@),
            decreases n - j,
        {
            let e = &self.store[j];
            proof {
                assert(st[j as int] == (self.store@[j as int].0@, self.store@[j as int].1@));
                assert(st.skip(j as int)[0] == st[j as int]);
                assert(st.skip(j as int).drop_first() =~= st.skip(j + 1));
            }
            if e.0.eq_path(p) {
                proof {
                    assert(lookup_store(st.skip(j as int), p@) == Some(st[j as int].1));
                }
                return Some(e.1.clone());
            }
            j = j + 1;
        }
        proof {
            assert(st.skip(j as int).len() == 0);
        }
        None
    }

    /// Buffers one write: a new value for the path, or its deletion. Only
    /// the overlay changes; the store is untouched, and every other path
    /// reads as before.
    pub fn write_op(&mut self, p: AccessPath, op: WriteOp)
        ensures
            final(self).store_view() == old(self).store_view(),
            final(self).buffer_view() == old(self).buffer_view().push((p@, op@)),
            final(self).lookup(p@) == (match op@ {
                WriteOpView::Value(v) => Some(v),
                WriteOpView::Deletion => None::<ValueView>,
            }),
            forall|q: AccessPathView| q != p@ ==> final(self).lookup(q) == old(self).lookup(q),
    {
        let ghost old_buf = self.buffer_view();
        let ghost pv = p@;
        let ghost opv = op@;
        self.write_buffer.push((p, op));
        proof {
            assert(self.buffer_view() =~= old_buf.push((pv, opv)));
            assert(self.buffer_view().last() == (pv, opv));
            assert forall|q: AccessPathView| q != pv implies lookup_writes(self.buffer_view(), q)
                == lookup_writes(old_buf, q) by {
                assert(self.buffer_view().drop_last() =~= old_buf);
            }
        }
    }

    /// Buffers a whole write-set, in order, so that the transactions that
    /// follow in the block observe the effects of the ones before them.
    pub fn push_write_set(&mut self, write_set: &Vec<(AccessPath, WriteOp)>)
        ensures
            final(self).store_view() == old(self).store_view(),
            final(self).buffer_view() == old(self).buffer_view() + writes_view(write_set@),
    {
        let ghost old_buf = self.buffer_view();
        let mut k: usize = 0;
        let n = write_set.len();
        while k < n
            invariant
                k <= write_set@.len(),
                n == write_set@.len(),
                self.store_view() == old(self).store_view(),
                self.buffer_view() == old_buf + writes_view(write_set@.take(k as int)),
            decreases n - k,
        {
            let e = &write_set[k];
            let p = e.0.clone();
            let op = e.1.clone();
            let ghost before = self.buffer_view();
            self.write_buffer.push((p, op));
            proof {
                assert(self.buffer_view() =~= before.push((write_set@[k as int].0@,
                write_set@[k as int].1@)));
                assert(writes_view(write_set@.take(k as int)).push((write_set@[k as int].0@,
                write_set@[k as int].1@)) =~= writes_view(write_set@.take(k + 1)));
                assert(self.buffer_view() =~= old_buf + writes_view(write_set@.take(k + 1)));
            }
            k = k + 1;
        }
        proof {
            assert(write_set@.take(k as int) =~= write_set@);
            assert(self.buffer_view() =~= old_buf + writes_view(write_set@));
        }
    }
}

} // verus!
