//! The designer's save queue: patch batches are sent one at a time, each against the newest
//! draft version known for its program.

use vstd::prelude::*;
use crate::text::{text_eq, starts_with, has_prefix};

verus! {

/// Patches waiting to be sent: where to, for which program, against which draft version.
pub struct PendingPatch<P> {
    pub api_base_url: String,
    pub program_id: String,
    pub base_version: i64,
    pub payload: P,
}

/// A batch to send now.
pub struct PatchBatch<P> {
    pub api_base_url: String,
    pub program_id: String,
    pub base_version: i64,
    pub payload: P,
}

/// The save queue: the batches waiting, whether a sender is running, and the newest draft
/// version saved per program.
pub struct PatchQueue<P> {
    queue: Vec<PendingPatch<P>>,
    active: bool,
    versions: Vec<(String, i64)>,
}

/// A queued batch as the queue keeps it: where it goes, its program, the version it was made
/// against, and its patches.
pub ghost struct PendingView<P> {
    pub api_base_url: Seq<char>,
    pub program_id: Seq<char>,
    pub base_version: i64,
    pub payload: P,
}

pub open spec fn pending_view<P>(p: PendingPatch<P>) -> PendingView<P> {
    PendingView { api_base_url: p.api_base_url@, program_id: p.program_id@, base_version: p.base_version, payload: p.payload }
}

pub open spec fn queue_view<P>(q: Seq<PendingPatch<P>>) -> Seq<PendingView<P>> {
    q.map_values(|p: PendingPatch<P>| pending_view(p))
}

pub open spec fn versions_view(vs: Seq<(String, i64)>) -> Seq<(Seq<char>, i64)> {
    vs.map_values(|e: (String, i64)| (e.0@, e.1))
}

/// The version recorded for `program`: the first entry for it.
pub open spec fn version_of(vs: Seq<(Seq<char>, i64)>, program: Seq<char>) -> Option<i64>
    decreases vs.len(),
{
    if vs.len() == 0 {
        None
    } else if vs[0].0 == program {
        Some(vs[0].1)
    } else {
        version_of(vs.skip(1), program)
    }
}

/// The base version a batch is sent against: the newer of its own and the one recorded.
pub open spec fn effective_base(vs: Seq<(Seq<char>, i64)>, program: Seq<char>, base: i64) -> i64 {
    match version_of(vs, program) {
        Some(current) => if current >= base {
            current
        } else {
            base
        },
        None => base,
    }
}

/// The queue without the batches of `program`, the others in their order.
pub open spec fn without_program<P>(q: Seq<PendingView<P>>, program: Seq<char>) -> Seq<PendingView<P>>
    decreases q.len(),
{
    if q.len() == 0 {
        Seq::empty()
    } else {
        (if q[0].program_id == program {
            Seq::empty()
        } else {
            seq![q[0]]
        }) + without_program(q.skip(1), program)
    }
}

/// The recorded versions without those of `program`, the others in their order.
pub open spec fn without_version(vs: Seq<(Seq<char>, i64)>, program: Seq<char>) -> Seq<(Seq<char>, i64)>
    decreases vs.len(),
{
    if vs.len() == 0 {
        Seq::empty()
    } else {
        (if vs[0].0 == program {
            Seq::empty()
        } else {
            seq![vs[0]]
        }) + without_version(vs.skip(1), program)
    }
}

/// How a failed save is reported.
#[derive(Debug, PartialEq, Eq)]
pub enum SaveFailure {
    /// Another edit changed the draft first: the program's queued batches were dropped.
    Conflict,
    /// Any other failure, with its message.
    Other(String),
}

impl<P> PatchQueue<P> {
    pub closed spec fn pending(&self) -> Seq<PendingView<P>> {
        queue_view(self.queue@)
    }

    pub closed spec fn is_active(&self) -> bool {
        self.active
    }

    pub closed spec fn recorded(&self) -> Seq<(Seq<char>, i64)> {
        versions_view(self.versions@)
    }

    /// An empty queue with no sender running and no version recorded.
    pub fn new() -> (q: PatchQueue<P>)
        ensures
            q.pending() == Seq::<PendingView<P>>::empty(),
            !q.is_active(),
            q.recorded() == Seq::<(Seq<char>, i64)>::empty(),
    {
        let q = PatchQueue { queue: Vec::new(), active: false, versions: Vec::new() };
        assert(q.pending() =~= Seq::<PendingView<P>>::empty());
        assert(q.recorded() =~= Seq::<(Seq<char>, i64)>::empty());
        q
    }

    /// Queues a batch; returns whether a sender has to be started (none was running).
    pub fn submit(&mut self, pending: PendingPatch<P>) -> (start: bool)
        ensures
            final(self).pending() == old(self).pending().push(pending_view(pending)),
            final(self).is_active(),
            final(self).recorded() == old(self).recorded(),
            start == !old(self).is_active(),
    {
        let ghost p = pending_view(pending);
        self.queue.push(pending);
        assert(queue_view(self.queue@) =~= queue_view(old(self).queue@).push(p));
        let start = !self.active;
        self.active = true;
        start
    }

    /// The next batch to send, first in first out, against the newest version known for its
    /// program. With nothing queued the sender stops.
    pub fn next_batch(&mut self) -> (batch: Option<PatchBatch<P>>)
        ensures
            final(self).recorded() == old(self).recorded(),
            match batch {
                Some(b) => {
                    &&& old(self).pending().len() > 0
                    &&& b.api_base_url@ == old(self).pending()[0].api_base_url
                    &&& b.program_id@ == old(self).pending()[0].program_id
                    &&& b.payload == old(self).pending()[0].payload
                    &&& b.base_version == effective_base(
                        old(self).recorded(),
                        old(self).pending()[0].program_id,
                        old(self).pending()[0].base_version,
                    )
                    &&& final(self).pending() == old(self).pending().skip(1)
                    &&& final(self).is_active() == old(self).is_active()
                },
                None => {
                    &&& old(self).pending().len() == 0
                    &&& final(self).pending() == old(self).pending()
                    &&& !final(self).is_active()
                },
            },
    {
        if self.queue.len() == 0 {
            self.active = false;
            return None;
        }
        let pending = self.queue.remove(0);
        assert(queue_view(self.queue@) =~= queue_view(old(self).queue@).skip(1));
        let base = match self.recorded_version(pending.program_id.as_str()) {
            Some(current) => if current >= pending.base_version {
                current
            } else {
                pending.base_version
            },
            None => pending.base_version,
        };
        Some(PatchBatch {
            api_base_url: pending.api_base_url,
            program_id: pending.program_id,
            base_version: base,
            payload: pending.payload,
        })
    }

    fn recorded_version(&self, program: &str) -> (v: Option<i64>)
        ensures
            v == version_of(self.recorded(), program@),
    {
        let ghost vs = self.recorded();
        assert(vs.skip(0) =~= vs);
        let mut i: usize = 0;
        while i < self.versions.len()
            invariant
                i <= self.versions.len(),
                vs == versions_view(self.versions@),
                version_of(vs, program@) == version_of(vs.skip(i as int), program@),
            decreases self.versions.len() - i,
        {
            assert(vs.skip(i as int)[0] == (self.versions@[i as int].0@, self.versions@[i as int].1));
            if text_eq(self.versions[i].0.as_str(), program) {
                return Some(self.versions[i].1);
            }
            assert(vs.skip(i as int).skip(1) =~= vs.skip(i as int + 1));
            i = i + 1;
        }
        None
    }

    /// Records the draft version that a save of `program_id` produced.
    pub fn record_saved(&mut self, program_id: &str, version: i64)
        ensures
            final(self).pending() == old(self).pending(),
            final(self).is_active() == old(self).is_active(),
            version_of(final(self).recorded(), program_id@) == Some(version),
            forall|other: Seq<char>| other != program_id@ ==> version_of(final(self).recorded(), other) == version_of(old(self).recorded(), other),
    {
        let ghost start = self.recorded();
        self.forget_version(program_id);
        let ghost before = self.recorded();
        self.versions.push((program_id.to_owned(), version));
        assert(self.recorded() =~= before.push((program_id@, version)));
        proof {
            lemma_without_version(start, program_id@);
            lemma_version_of_push_absent(before, program_id@, version);
        }
    }

    fn forget_version(&mut self, program: &str)
        ensures
            final(self).pending() == old(self).pending(),
            final(self).is_active() == old(self).is_active(),
            final(self).recorded() == without_version(old(self).recorded(), program@),
    {
        let ghost old_vs = self.recorded();
        let mut kept: Vec<(String, i64)> = Vec::new();
        let mut i: usize = 0;
        while i < self.versions.len()
            invariant
                i <= self.versions.len(),
                old_vs == versions_view(self.versions@),
                versions_view(kept@) == without_version(old_vs.take(i as int), program@),
            decreases self.versions.len() - i,
        {
            proof {
                lemma_without_version_push(old_vs.take(i as int), old_vs[i as int], program@);
                assert(old_vs.take(i as int).push(old_vs[i as int]) =~= old_vs.take(i as int + 1));
            }
            if !text_eq(self.versions[i].0.as_str(), program) {
                let entry = (self.versions[i].0.clone(), self.versions[i].1);
                let ghost before = kept@;
                kept.push(entry);
                assert(versions_view(kept@) =~= versions_view(before).push(old_vs[i as int]));
            } else {
                assert(without_version(old_vs.take(i as int + 1), program@) =~= without_version(old_vs.take(i as int), program@));
            }
            i = i + 1;
        }
        assert(old_vs.take(old_vs.len() as int) =~= old_vs);
        self.versions = kept;
    }

    /// Handles a failed save of `program_id` with message `error`: the recorded version of the
    /// program is forgotten, and on a draft version conflict the program's queued batches are
    /// dropped.
    pub fn record_failed(&mut self, program_id: &str, error: &str) -> (failure: SaveFailure)
        ensures
            final(self).is_active() == old(self).is_active(),
            version_of(final(self).recorded(), program_id@) is None,
            forall|other: Seq<char>| other != program_id@ ==> version_of(final(self).recorded(), other) == version_of(old(self).recorded(), other),
            has_prefix(error@, "draft version conflict"@) ==> failure == SaveFailure::Conflict && final(self).pending()
                == without_program(old(self).pending(), program_id@),
            !has_prefix(error@, "draft version conflict"@) ==> (match failure {
                SaveFailure::Other(m) => m@ == error@,
                SaveFailure::Conflict => false,
            }) && final(self).pending() == old(self).pending(),
    {
        let ghost start = self.recorded();
        self.forget_version(program_id);
        proof {
            lemma_without_version(start, program_id@);
            lemma_version_of_absent(self.recorded(), program_id@);
        }
        if starts_with(error, "draft version conflict") {
            self.drop_program(program_id);
            SaveFailure::Conflict
        } else {
            SaveFailure::Other(error.to_owned())
        }
    }

    fn drop_program(&mut self, program: &str)
        ensures
            final(self).pending() == without_program(old(self).pending(), program@),
            final(self).is_active() == old(self).is_active(),
            final(self).recorded() == old(self).recorded(),
    {
        let ghost q0 = self.pending();
        let mut rest: Vec<PendingPatch<P>> = Vec::new();
        std::mem::swap(&mut rest, &mut self.queue);
        assert(queue_view(rest@) == q0);
        let mut kept: Vec<PendingPatch<P>> = Vec::new();
        let ghost mut i: int = 0;
        while rest.len() > 0
            invariant
                0 <= i <= q0.len(),
                queue_view(rest@) == q0.skip(i),
                queue_view(kept@) == without_program(q0.take(i), program@),
            decreases rest@.len(),
        {
            let ghost r0 = rest@;
            assert(queue_view(r0).len() == r0.len());
            let p = rest.remove(0);
            proof {
                assert(queue_view(r0)[0] == pending_view(p));
                assert(q0.skip(i)[0] == q0[i]);
                lemma_without_program_push(q0.take(i), q0[i], program@);
                assert(q0.take(i).push(q0[i]) =~= q0.take(i + 1));
                assert(rest@ =~= r0.skip(1));
                assert(queue_view(rest@) =~= queue_view(r0).skip(1));
                assert(queue_view(rest@) =~= q0.skip(i + 1));
            }
            if !text_eq(p.program_id.as_str(), program) {
                let ghost before = kept@;
                kept.push(p);
                assert(queue_view(kept@) =~= queue_view(before).push(pending_view(p)));
            } else {
                assert(without_program(q0.take(i + 1), program@) =~= without_program(q0.take(i), program@));
            }
            proof {
                i = i + 1;
            }
        }
        assert(q0.take(q0.len() as int) =~= q0);
        self.queue = kept;
    }
}

pub proof fn lemma_without_version_push(vs: Seq<(Seq<char>, i64)>, e: (Seq<char>, i64), program: Seq<char>)
    ensures
        without_version(vs.push(e), program) == without_version(vs, program) + if e.0 == program {
            Seq::<(Seq<char>, i64)>::empty()
        } else {
            seq![e]
        },
    decreases vs.len(),
{
    if vs.len() == 0 {
        assert(vs.push(e).skip(1) =~= Seq::<(Seq<char>, i64)>::empty());
        reveal_with_fuel(without_version, 2);
        assert(without_version(vs.push(e), program) =~= without_version(vs, program) + if e.0 == program {
            Seq::<(Seq<char>, i64)>::empty()
        } else {
            seq![e]
        });
    } else {
        lemma_without_version_push(vs.skip(1), e, program);
        assert(vs.push(e).skip(1) =~= vs.skip(1).push(e));
        assert(without_version(vs.push(e), program) =~= without_version(vs, program) + if e.0 == program {
            Seq::<(Seq<char>, i64)>::empty()
        } else {
            seq![e]
        });
    }
}

pub proof fn lemma_without_program_push<P>(q: Seq<PendingView<P>>, e: PendingView<P>, program: Seq<char>)
    ensures
        without_program(q.push(e), program) == without_program(q, program) + if e.program_id == program {
            Seq::<PendingView<P>>::empty()
        } else {
            seq![e]
        },
    decreases q.len(),
{
    if q.len() == 0 {
        assert(q.push(e).skip(1) =~= Seq::<PendingView<P>>::empty());
        reveal_with_fuel(without_program, 2);
        assert(without_program(q.push(e), program) =~= without_program(q, program) + if e.program_id == program {
            Seq::<PendingView<P>>::empty()
        } else {
            seq![e]
        });
    } else {
        lemma_without_program_push(q.skip(1), e, program);
        assert(q.push(e).skip(1) =~= q.skip(1).push(e));
        assert(without_program(q.push(e), program) =~= without_program(q, program) + if e.program_id == program {
            Seq::<PendingView<P>>::empty()
        } else {
            seq![e]
        });
    }
}

/// Dropping the versions of one program leaves none of it, and every other program's version.
pub proof fn lemma_without_version(vs: Seq<(Seq<char>, i64)>, program: Seq<char>)
    ensures
        forall|k: int| 0 <= k < without_version(vs, program).len() ==> (#[trigger] without_version(vs, program)[k]).0 != program,
        forall|other: Seq<char>| other != program ==> version_of(without_version(vs, program), other) == version_of(vs, other),
    decreases vs.len(),
{
    if vs.len() > 0 {
        lemma_without_version(vs.skip(1), program);
        let rest = without_version(vs.skip(1), program);
        let head = if vs[0].0 == program { Seq::<(Seq<char>, i64)>::empty() } else { seq![vs[0]] };
        let r = without_version(vs, program);
        assert(r == head + rest);
        assert forall|k: int| 0 <= k < r.len() implies (#[trigger] r[k]).0 != program by {
            if k >= head.len() {
                assert(r[k] == rest[k - head.len()]);
            }
        }
        assert forall|other: Seq<char>| other != program implies version_of(r, other) == version_of(vs, other) by {
            if vs[0].0 != program {
                assert(r[0] == vs[0]);
                assert(r.skip(1) =~= rest);
                if vs[0].0 != other {
                    assert(version_of(r, other) == version_of(r.skip(1), other));
                    assert(version_of(rest, other) == version_of(vs.skip(1), other));
                }
            } else {
                assert(r =~= rest);
                assert(version_of(rest, other) == version_of(vs.skip(1), other));
            }
        }
    }
}

/// After a draft version conflict of a program, none of its batches is left in the queue, and
/// the batches of other programs stay in their order.
pub proof fn conflict_drops_program<P>(q: Seq<PendingView<P>>, program: Seq<char>)
    ensures
        forall|k: int| 0 <= k < without_program(q, program).len() ==> (#[trigger] without_program(q, program)[k]).program_id
            != program,
    decreases q.len(),
{
    if q.len() > 0 {
        conflict_drops_program(q.skip(1), program);
        let rest = without_program(q.skip(1), program);
        let head = if q[0].program_id == program { Seq::<PendingView<P>>::empty() } else { seq![q[0]] };
        let r = without_program(q, program);
        assert(r == head + rest);
        assert forall|k: int| 0 <= k < r.len() implies (#[trigger] r[k]).program_id != program by {
            if k >= head.len() {
                assert(r[k] == rest[k - head.len()]);
            }
        }
    }
}

pub proof fn lemma_version_of_push_absent(vs: Seq<(Seq<char>, i64)>, program: Seq<char>, version: i64)
    requires
        forall|k: int| 0 <= k < vs.len() ==> (#[trigger] vs[k]).0 != program,
    ensures
        version_of(vs.push((program, version)), program) == Some(version),
        forall|other: Seq<char>| other != program ==> version_of(vs.push((program, version)), other) == version_of(vs, other),
    decreases vs.len(),
{
    if vs.len() == 0 {
        assert forall|other: Seq<char>| other != program implies version_of(vs.push((program, version)), other) == version_of(vs, other) by {
            assert(vs.push((program, version)).skip(1) =~= Seq::<(Seq<char>, i64)>::empty());
            reveal_with_fuel(version_of, 2);
        }
    } else {
        assert forall|k: int| 0 <= k < vs.skip(1).len() implies (#[trigger] vs.skip(1)[k]).0 != program by {
            assert(vs.skip(1)[k] == vs[k + 1]);
        }
        lemma_version_of_push_absent(vs.skip(1), program, version);
        assert(vs.push((program, version)).skip(1) =~= vs.skip(1).push((program, version)));
        assert(vs.push((program, version))[0] == vs[0]);
        assert forall|other: Seq<char>| other != program implies version_of(vs.push((program, version)), other) == version_of(vs, other) by {
            if vs[0].0 != other {
                assert(version_of(vs.skip(1).push((program, version)), other) == version_of(vs.skip(1), other));
            }
        }
    }
}

pub proof fn lemma_version_of_absent(vs: Seq<(Seq<char>, i64)>, program: Seq<char>)
    requires
        forall|k: int| 0 <= k < vs.len() ==> (#[trigger] vs[k]).0 != program,
    ensures
        version_of(vs, program) is None,
    decreases vs.len(),
{
    if vs.len() > 0 {
        assert forall|k: int| 0 <= k < vs.skip(1).len() implies (#[trigger] vs.skip(1)[k]).0 != program by {
            assert(vs.skip(1)[k] == vs[k + 1]);
        }
        lemma_version_of_absent(vs.skip(1), program);
    }
}

/// A batch is never sent against an older draft version than the one it was made for, nor
/// against an older one than the last version saved for its program.
pub proof fn base_version_is_newest(vs: Seq<(Seq<char>, i64)>, program: Seq<char>, base: i64)
    ensures
        effective_base(vs, program, base) >= base,
        version_of(vs, program) matches Some(v) ==> effective_base(vs, program, base) >= v,
{
}

} // verus!
