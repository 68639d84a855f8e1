use vstd::prelude::*;

use crate::events::FileMeta;

verus! {

/// One asynchronous file read: the file it reads and whether its completion
/// is still outstanding.
pub struct ReadTask {
    pub name: String,
    pub active: bool,
}

impl ReadTask {
    /// Whether the read's completion has not yet been delivered.
    pub fn is_active(&self) -> (r: bool)
        ensures
            r == self.active,
    {
        self.active
    }
}

/// Tasks that stay live in the set.
pub open spec fn live(t: ReadTask) -> bool {
    t.active
}

/// The read task scheduled for one listed file.
pub open spec fn task_for(f: FileMeta) -> ReadTask {
    ReadTask { name: f.name, active: true }
}

/// Drop every task whose read is no longer outstanding.
pub fn prune_tasks(tasks: &mut Vec<ReadTask>)
    ensures
        final(tasks)@ == old(tasks)@.filter(|t: ReadTask| live(t)),
{
    let mut all: Vec<ReadTask> = Vec::new();
    core::mem::swap(&mut all, tasks);
    let ghost orig = all@;
    proof {
        reveal_with_fuel(Seq::<_>::filter, 2);
        assert(orig.subrange(0, 0).filter(|t: ReadTask| live(t)) =~= Seq::<ReadTask>::empty());
    }
    let mut i: usize = 0;
    while i < all.len()
        invariant
            i <= all.len(),
            all@ == orig,
            tasks@ == orig.subrange(0, i as int).filter(|t: ReadTask| live(t)),
        decreases all.len() - i,
    {
        if all[i].is_active() {
            let t = ReadTask { name: all[i].name.clone(), active: true };
            tasks.push(t);
        }
        proof {
            reveal_with_fuel(Seq::<_>::filter, 2);
            let pred = |t: ReadTask| live(t);
            assert(orig.subrange(0, i as int + 1) =~= orig.subrange(0, i as int) + seq![orig[i as int]]);
            Seq::<ReadTask>::filter_distributes_over_add(
                orig.subrange(0, i as int),
                seq![orig[i as int]],
                pred,
            );
            assert(seq![orig[i as int]].drop_last() =~= Seq::<ReadTask>::empty());
            if pred(orig[i as int]) {
                assert(seq![orig[i as int]].filter(pred) =~= seq![orig[i as int]]);
            } else {
                assert(seq![orig[i as int]].filter(pred) =~= Seq::<ReadTask>::empty());
            }
        }
        i += 1;
    }
    proof {
        assert(orig.subrange(0, orig.len() as int) =~= orig);
    }
}

/// Append a newly scheduled read for each listed file.
pub fn schedule_tasks(tasks: &mut Vec<ReadTask>, files: Vec<FileMeta>)
    ensures
        final(tasks)@ == old(tasks)@ + files@.map_values(|f: FileMeta| task_for(f)),
{
    let ghost base = tasks@;
    let ghost fseq = files@;
    let mut i: usize = 0;
    proof {
        assert(tasks@ =~= base + fseq.subrange(0, 0).map_values(|f: FileMeta| task_for(f)));
    }
    while i < files.len()
        invariant
            i <= files.len(),
            files@ == fseq,
            tasks@ == base + fseq.subrange(0, i as int).map_values(|f: FileMeta| task_for(f)),
        decreases files.len() - i,
    {
        tasks.push(ReadTask { name: files[i].name.clone(), active: true });
        proof {
            assert(fseq.subrange(0, i as int + 1).map_values(|f: FileMeta| task_for(f)) =~= fseq.subrange(
                0,
                i as int,
            ).map_values(|f: FileMeta| task_for(f)).push(task_for(fseq[i as int])));
        }
        i += 1;
    }
    proof {
        assert(fseq.subrange(0, fseq.len() as int) =~= fseq);
    }
}

/// Task hygiene: after a prune-and-schedule step every task in the set is
/// either a still-active earlier task or a newly scheduled read, so the set
/// holds only reads whose completion is still outstanding, and it is no
/// larger than those two groups together.
pub proof fn lemma_task_hygiene(before: Seq<ReadTask>, files: Seq<FileMeta>, after: Seq<ReadTask>)
    requires
        after == before.filter(|t: ReadTask| live(t)) + files.map_values(
            |f: FileMeta| task_for(f),
        ),
    ensures
        after.len() <= before.len() + files.len(),
        forall|i: int| 0 <= i < after.len() ==> (#[trigger] after[i]).active,
{
    let pred = |t: ReadTask| live(t);
    before.lemma_filter_len(pred);
    let kept = before.filter(pred);
    assert forall|i: int| 0 <= i < after.len() implies (#[trigger] after[i]).active by {
        if i < kept.len() {
            before.lemma_filter_pred(pred, i);
        } else {
            assert(after[i] == task_for(files[i - kept.len()]));
        }
    }
}

} // verus!
