use vstd::prelude::*;

use crate::submission::{status_of, Status};

verus! {

/// One row of a pending-scan of the store.
pub struct ScanRow {
    pub id: i64,
    pub status: String,
}

/// Dispatcher state: the permit count and the submissions in flight, in the
/// order they were taken. The first `limit` of them hold a permit and run;
/// the rest wait for one.
pub struct Dispatcher {
    limit: usize,
    queue: Vec<i64>,
}

pub struct DispatchView {
    pub limit: nat,
    pub queue: Seq<i64>,
}

pub open spec fn min(a: nat, b: nat) -> nat {
    if a <= b { a } else { b }
}

impl DispatchView {
    /// Ids holding a permit.
    pub open spec fn running(self) -> Seq<i64> {
        self.queue.take(min(self.limit, self.queue.len()) as int)
    }

    /// Ids waiting for a permit.
    pub open spec fn waiting(self) -> Seq<i64> {
        self.queue.skip(min(self.limit, self.queue.len()) as int)
    }

    pub open spec fn wf(self) -> bool {
        &&& self.limit > 0
        &&& self.queue.no_duplicates()
    }
}

/// Ids that a scan adds to `queue`: those of rows whose status is pending,
/// not already in flight, each once, in scan order.
pub open spec fn fresh(queue: Seq<i64>, rows: Seq<ScanRow>) -> Seq<i64>
    decreases rows.len(),
{
    if rows.len() == 0 {
        Seq::empty()
    } else {
        let prev = fresh(queue, rows.drop_last());
        let row = rows.last();
        if status_of(row.status@) == Some(Status::Pending) && !queue.contains(row.id)
            && !prev.contains(row.id) {
            prev.push(row.id)
        } else {
            prev
        }
    }
}

/// The value held by `o`, as a sequence of zero or one element.
pub open spec fn option_seq(o: Option<i64>) -> Seq<i64> {
    match o {
        Some(x) => seq![x],
        None => Seq::empty(),
    }
}

fn contains(v: &Vec<i64>, x: i64) -> (r: bool)
    ensures
        r == v@.contains(x),
{
    let mut i: usize = 0;
    while i < v.len()
        invariant
            i <= v@.len(),
            forall|j: int| 0 <= j < i ==> v@[j] != x,
        decreases v@.len() - i,
    {
        if v[i] == x {
            return true;
        }
        i = i + 1;
    }
    false
}

impl View for Dispatcher {
    type V = DispatchView;

    closed spec fn view(&self) -> DispatchView {
        DispatchView { limit: self.limit as nat, queue: self.queue@ }
    }
}

impl Dispatcher {
    /// A dispatcher with `limit` permits and nothing in flight.
    pub fn new(limit: usize) -> (r: Dispatcher)
        requires
            limit > 0,
        ensures
            r@.wf(),
            r@.limit == limit,
            r@.queue.len() == 0,
    {
        Dispatcher { limit, queue: Vec::new() }
    }

    /// Takes in the rows of a pending-scan. Rows that are not pending, and
    /// ids already in flight, are left out, so that a repeated wake signal
    /// never processes a submission twice. Returns the ids that got a permit
    /// and are to be started now.
    pub fn on_scan(&mut self, rows: &Vec<ScanRow>) -> (started: Vec<i64>)
        requires
            old(self)@.wf(),
        ensures
            final(self)@.wf(),
            final(self)@.limit == old(self)@.limit,
            final(self)@.queue == old(self)@.queue + fresh(old(self)@.queue, rows@),
            final(self)@.running() == old(self)@.running() + started@,
    {
        let ghost q0 = self.queue@;
        let old_len = self.queue.len();
        let mut i: usize = 0;
        while i < rows.len()
            invariant
                i <= rows@.len(),
                self.limit > 0,
                self.queue@ == q0 + fresh(q0, rows@.take(i as int)),
                self.queue@.no_duplicates(),
                old_len == q0.len(),
                self.limit == old(self).limit,
                q0 == old(self).queue@,
            decreases rows@.len() - i,
        {
            let row = &rows[i];
            let ghost prev = fresh(q0, rows@.take(i as int));
            assert(rows@.take(i + 1).drop_last() =~= rows@.take(i as int));
            assert(rows@.take(i + 1).last() == rows@[i as int]);
            let pending = match Status::from_text(row.status.as_str()) {
                Some(Status::Pending) => true,
                _ => false,
            };
            if pending && !contains(&self.queue, row.id) {
                proof {
                    assert(!q0.contains(row.id)) by {
                        if q0.contains(row.id) {
                            let k = choose|k: int| 0 <= k < q0.len() && q0[k] == row.id;
                            assert(self.queue@[k] == row.id);
                        }
                    }
                    assert(!prev.contains(row.id)) by {
                        if prev.contains(row.id) {
                            let k = choose|k: int| 0 <= k < prev.len() && prev[k] == row.id;
                            assert(self.queue@[q0.len() + k] == row.id);
                        }
                    }
                }
                self.queue.push(row.id);
                proof {
                    assert(self.queue@ =~= q0 + fresh(q0, rows@.take(i + 1)));
                }
            } else {
                proof {
                    if pending {
                        let k = choose|k: int| 0 <= k < self.queue@.len() && self.queue@[k] == row.id;
                        if k < q0.len() {
                            assert(q0[k] == row.id);
                        } else {
                            assert(prev[k - q0.len()] == row.id);
                        }
                    }
                    assert(self.queue@ =~= q0 + fresh(q0, rows@.take(i + 1)));
                }
            }
            i = i + 1;
        }
        assert(rows@.take(rows@.len() as int) =~= rows@);
        let old_running: usize = if self.limit <= old_len { self.limit } else { old_len };
        let new_running: usize = if self.limit <= self.queue.len() { self.limit } else { self.queue.len() };
        let mut started: Vec<i64> = Vec::new();
        let mut j: usize = old_running;
        while j < new_running
            invariant
                old_running <= j <= new_running,
                new_running <= self.queue@.len(),
                old_running <= q0.len(),
                q0 == self.queue@.take(q0.len() as int),
                started@ == self.queue@.subrange(old_running as int, j as int),
                self.limit == old(self).limit,
                q0 == old(self).queue@,
                old_running == min(self.limit as nat, q0.len()),
                new_running == min(self.limit as nat, self.queue@.len()),
            decreases new_running - j,
        {
            started.push(self.queue[j]);
            j = j + 1;
            assert(started@ =~= self.queue@.subrange(old_running as int, j as int));
        }
        proof {
            assert(self.queue@.take(q0.len() as int) =~= q0);
            assert(self@.running() =~= old(self)@.running() + started@);
        }
        started
    }

    /// Takes back the permit of `id`, whose unit has ended, and hands it to
    /// the longest-waiting submission, which is returned to be started. An id
    /// that holds no permit changes nothing.
    pub fn on_finished(&mut self, id: i64) -> (next: Option<i64>)
        requires
            old(self)@.wf(),
        ensures
            final(self)@.wf(),
            final(self)@.limit == old(self)@.limit,
            !old(self)@.running().contains(id) ==> final(self)@ == old(self)@ && next is None,
            old(self)@.running().contains(id) ==> {
                &&& next == if old(self)@.queue.len() > old(self)@.limit {
                    Some(old(self)@.queue[old(self)@.limit as int])
                } else {
                    None
                }
                &&& exists|i: int|
                    0 <= i < old(self)@.running().len() && old(self)@.queue[i] == id
                        && final(self)@.queue == old(self)@.queue.remove(i)
                        && final(self)@.running() == old(self)@.running().remove(i) + option_seq(next)
            },
    {
        let n = self.queue.len();
        let running: usize = if self.limit <= n { self.limit } else { n };
        let mut i: usize = 0;
        while i < running
            invariant
                i <= running,
                running == min(self.limit as nat, self.queue@.len()),
                n == self.queue@.len(),
                forall|j: int| 0 <= j < i ==> self.queue@[j] != id,
                self.queue@ == old(self).queue@,
                self.limit == old(self).limit,
                old(self)@.wf(),
            decreases running - i,
        {
            if self.queue[i] == id {
                let ghost q0 = self.queue@;
                let next = if n > self.limit { Some(self.queue[self.limit]) } else { None };
                self.queue.remove(i);
                proof {
                    let q = self.queue@;
                    assert(q =~= q0.remove(i as int));
                    assert(old(self)@.running()[i as int] == id);
                    assert forall|a: int, b: int|
                        0 <= a < q.len() && 0 <= b < q.len() && a != b implies q[a] != q[b] by {
                        let a0 = if a < i { a } else { a + 1 };
                        let b0 = if b < i { b } else { b + 1 };
                        assert(q[a] == q0[a0] && q[b] == q0[b0]);
                    }
                    assert(self@.running() =~= old(self)@.running().remove(i as int) + option_seq(next));
                }
                return next;
            }
            i = i + 1;
        }
        assert(!old(self)@.running().contains(id)) by {
            if old(self)@.running().contains(id) {
                let k = choose|k: int| 0 <= k < old(self)@.running().len() && old(self)@.running()[k] == id;
                assert(self.queue@[k] == id);
            }
        }
        None
    }
}

/// However many submissions are in flight, at most `limit` of them hold a
/// permit, and one waits only while every permit is held.
pub proof fn lemma_permits_bounded(v: DispatchView)
    requires
        v.wf(),
    ensures
        v.running().len() <= v.limit,
        v.waiting().len() > 0 ==> v.running().len() == v.limit,
        v.running() + v.waiting() == v.queue,
{
    assert(v.running() + v.waiting() =~= v.queue);
}

/// A scan never takes in a submission again: not one already in flight, and
/// not one whose row is terminal (each of its rows has a status other than
/// pending).
pub proof fn lemma_no_reprocessing(queue: Seq<i64>, rows: Seq<ScanRow>, id: i64)
    requires
        queue.contains(id) || forall|k: int|
            0 <= k < rows.len() && (#[trigger] rows[k]).id == id ==> status_of(rows[k].status@)
                != Some(Status::Pending),
    ensures
        !fresh(queue, rows).contains(id),
    decreases rows.len(),
{
    if rows.len() > 0 {
        let init = rows.drop_last();
        assert forall|k: int|
            0 <= k < init.len() && (#[trigger] init[k]).id == id implies status_of(init[k].status@)
                != Some(Status::Pending) || queue.contains(id) by {
            assert(init[k] == rows[k]);
        }
        lemma_no_reprocessing(queue, init, id);
        let prev = fresh(queue, init);
        if rows.last().id == id && !queue.contains(id) {
            assert(rows[rows.len() - 1] == rows.last());
        }
        if fresh(queue, rows).contains(id) {
            let k = choose|k: int| 0 <= k < fresh(queue, rows).len() && fresh(queue, rows)[k] == id;
            if k < prev.len() {
                assert(prev[k] == id);
            }
        }
    }
}

} // verus!
