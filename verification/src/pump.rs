use vstd::prelude::*;

use crate::ui_command::UiCommand;

verus! {

/// The non-resize commands of a batch, in arrival order.
pub open spec fn non_resizes(batch: Seq<UiCommand>) -> Seq<UiCommand>
    decreases batch.len(),
{
    if batch.len() == 0 {
        Seq::empty()
    } else if batch.first().spec_is_resize() {
        non_resizes(batch.drop_first())
    } else {
        seq![batch.first()] + non_resizes(batch.drop_first())
    }
}

/// The last resize command of a batch, if the batch holds any resize.
pub open spec fn last_resize(batch: Seq<UiCommand>) -> Option<UiCommand>
    decreases batch.len(),
{
    if batch.len() == 0 {
        None
    } else {
        match last_resize(batch.drop_first()) {
            Some(r) => Some(r),
            None => if batch.first().spec_is_resize() {
                Some(batch.first())
            } else {
                None
            },
        }
    }
}

/// What one drain-batch cycle executes, in order: the batch's last resize
/// first, if the batch holds any resize, then every non-resize command in
/// arrival order. Earlier resizes of the batch are discarded.
pub open spec fn coalesced(batch: Seq<UiCommand>) -> Seq<UiCommand> {
    match last_resize(batch) {
        Some(r) => seq![r] + non_resizes(batch),
        None => non_resizes(batch),
    }
}

/// Turn one drain batch into the exact sequence of commands to execute,
/// applying the resize-coalescing rule.
pub fn plan_batch(batch: Vec<UiCommand>) -> (plan: Vec<UiCommand>)
    ensures
        plan@ == coalesced(batch@),
{
    let ghost orig = batch@;
    let mut batch = batch;
    let mut resize: Option<UiCommand> = None;
    let mut others: Vec<UiCommand> = Vec::new();
    while batch.len() > 0
        invariant
            non_resizes(orig) == others@ + non_resizes(batch@),
            last_resize(orig) == (match last_resize(batch@) {
                Some(r) => Some(r),
                None => resize,
            }),
        decreases batch@.len(),
    {
        let ghost pre = batch@;
        let c = batch.remove(0);
        proof {
            assert(pre.remove(0) =~= pre.drop_first());
            assert(pre.first() == c);
        }
        if c.is_resize() {
            resize = Some(c);
        } else {
            let ghost others_pre = others@;
            others.push(c);
            proof {
                assert(others_pre + (seq![c] + non_resizes(pre.drop_first()))
                    =~= others@ + non_resizes(pre.drop_first()));
            }
        }
    }
    proof {
        assert(non_resizes(orig) =~= others@);
    }
    let mut plan: Vec<UiCommand> = Vec::new();
    match resize {
        Some(r) => {
            plan.push(r);
            proof {
                assert(plan@ =~= seq![r]);
            }
        },
        None => {},
    }
    let mut others = others;
    plan.append(&mut others);
    proof {
        if last_resize(orig) is None {
            assert(plan@ =~= coalesced(orig));
        }
    }
    plan
}

proof fn lemma_non_resizes_all_non_resize(batch: Seq<UiCommand>)
    ensures
        forall|i: int| 0 <= i < non_resizes(batch).len() ==> !(#[trigger] non_resizes(
            batch,
        )[i]).spec_is_resize(),
    decreases batch.len(),
{
    if batch.len() > 0 {
        lemma_non_resizes_all_non_resize(batch.drop_first());
        if !batch.first().spec_is_resize() {
            assert forall|i: int| 0 <= i < non_resizes(batch).len() implies !(#[trigger] non_resizes(
                batch,
            )[i]).spec_is_resize() by {
                if i > 0 {
                    assert(non_resizes(batch)[i] == non_resizes(batch.drop_first())[i - 1]);
                }
            }
        }
    }
}

proof fn lemma_non_resizes_identity(batch: Seq<UiCommand>)
    requires
        forall|i: int| 0 <= i < batch.len() ==> !(#[trigger] batch[i]).spec_is_resize(),
    ensures
        non_resizes(batch) == batch,
    decreases batch.len(),
{
    if batch.len() > 0 {
        assert(!batch.first().spec_is_resize());
        lemma_non_resizes_identity(batch.drop_first());
        assert(non_resizes(batch) =~= batch);
    }
}

proof fn lemma_non_resizes_concat(a: Seq<UiCommand>, b: Seq<UiCommand>)
    ensures
        non_resizes(a + b) == non_resizes(a) + non_resizes(b),
    decreases a.len(),
{
    if a.len() == 0 {
        assert(a + b =~= b);
        assert(non_resizes(a) + non_resizes(b) =~= non_resizes(b));
    } else {
        assert((a + b).drop_first() =~= a.drop_first() + b);
        lemma_non_resizes_concat(a.drop_first(), b);
        if !a.first().spec_is_resize() {
            assert(seq![a.first()] + (non_resizes(a.drop_first()) + non_resizes(b)) =~= (seq![
                a.first(),
            ] + non_resizes(a.drop_first())) + non_resizes(b));
        }
    }
}

proof fn lemma_last_resize_props(batch: Seq<UiCommand>)
    ensures
        last_resize(batch) matches Some(r) ==> r.spec_is_resize() && exists|j: int|
            0 <= j < batch.len() && batch[j] == r && (#[trigger] batch[j]).spec_is_resize() && (
            forall|k: int| j < k < batch.len() ==> !(#[trigger] batch[k]).spec_is_resize()),
        last_resize(batch) is None ==> forall|i: int|
            0 <= i < batch.len() ==> !(#[trigger] batch[i]).spec_is_resize(),
    decreases batch.len(),
{
    if batch.len() > 0 {
        let rest = batch.drop_first();
        lemma_last_resize_props(rest);
        assert(forall|i: int| 1 <= i < batch.len() ==> #[trigger] batch[i] == rest[i - 1]);
        match last_resize(rest) {
            Some(r) => {
                let j = choose|j: int|
                    0 <= j < rest.len() && rest[j] == r && (#[trigger] rest[j]).spec_is_resize()
                        && (forall|k: int| j < k < rest.len() ==> !(
                        #[trigger] rest[k]).spec_is_resize());
                assert(batch[j + 1] == r && batch[j + 1].spec_is_resize());
                assert(forall|k: int| j + 1 < k < batch.len() ==> !(
                #[trigger] batch[k]).spec_is_resize());
            },
            None => {
                if batch.first().spec_is_resize() {
                    assert(batch[0] == batch.first() && batch[0].spec_is_resize());
                    assert(forall|k: int| 0 < k < batch.len() ==> !(
                    #[trigger] batch[k]).spec_is_resize());
                }
            },
        }
    }
}

/// Resize coalescing: of what one drain cycle executes, only the first
/// command can be a resize, so at most one resize is executed per cycle; the
/// cycle executes a resize exactly when its batch holds one, and the resize
/// executed is the batch's last resize: a resize of the batch after which no
/// further resize of the batch follows.
pub proof fn lemma_resize_coalescing(batch: Seq<UiCommand>)
    ensures
        forall|i: int| 1 <= i < coalesced(batch).len() ==> !(#[trigger] coalesced(
            batch,
        )[i]).spec_is_resize(),
        (exists|j: int| 0 <= j < batch.len() && (#[trigger] batch[j]).spec_is_resize())
            <==> last_resize(batch) is Some,
        last_resize(batch) matches Some(r) ==> coalesced(batch).len() > 0 && coalesced(batch)[0]
            == r && r.spec_is_resize() && exists|j: int|
            0 <= j < batch.len() && batch[j] == r && (#[trigger] batch[j]).spec_is_resize() && (
            forall|k: int| j < k < batch.len() ==> !(#[trigger] batch[k]).spec_is_resize()),
{
    lemma_last_resize_props(batch);
    lemma_non_resizes_all_non_resize(batch);
    match last_resize(batch) {
        Some(r) => {
            assert(coalesced(batch)[0] == r);
            assert(forall|i: int| 1 <= i < coalesced(batch).len() ==> coalesced(batch)[i]
                == non_resizes(batch)[i - 1]);
        },
        None => {
        },
    }
}

/// Everything a pump that drains the queue in the given batches executes,
/// in execution order.
pub open spec fn executed(batches: Seq<Seq<UiCommand>>) -> Seq<UiCommand>
    decreases batches.len(),
{
    if batches.len() == 0 {
        Seq::empty()
    } else {
        coalesced(batches.first()) + executed(batches.drop_first())
    }
}

/// Everything that was enqueued, in enqueue order.
pub open spec fn enqueued(batches: Seq<Seq<UiCommand>>) -> Seq<UiCommand>
    decreases batches.len(),
{
    if batches.len() == 0 {
        Seq::empty()
    } else {
        batches.first() + enqueued(batches.drop_first())
    }
}

/// FIFO for non-resize commands: over any sequence of drain batches, the
/// non-resize commands that the pump executes are exactly the non-resize
/// commands that were enqueued, in enqueue order. Coalescing drops and
/// reorders resizes only.
pub proof fn lemma_fifo_for_non_resize(batches: Seq<Seq<UiCommand>>)
    ensures
        non_resizes(executed(batches)) == non_resizes(enqueued(batches)),
    decreases batches.len(),
{
    if batches.len() > 0 {
        let first = batches.first();
        let rest = batches.drop_first();
        lemma_fifo_for_non_resize(rest);
        lemma_non_resizes_concat(coalesced(first), executed(rest));
        lemma_non_resizes_concat(first, enqueued(rest));
        lemma_coalesced_preserves_non_resizes(first);
    }
}

/// One drain cycle executes exactly the non-resize commands of its batch,
/// in arrival order.
pub proof fn lemma_coalesced_preserves_non_resizes(batch: Seq<UiCommand>)
    ensures
        non_resizes(coalesced(batch)) == non_resizes(batch),
{
    lemma_non_resizes_all_non_resize(batch);
    lemma_non_resizes_identity(non_resizes(batch));
    match last_resize(batch) {
        Some(r) => {
            lemma_last_resize_props(batch);
            lemma_non_resizes_concat(seq![r], non_resizes(batch));
            assert(seq![r].first() == r);
            assert(r.spec_is_resize());
            assert(seq![r].drop_first() =~= Seq::<UiCommand>::empty());
            assert(non_resizes(Seq::<UiCommand>::empty()) == Seq::<UiCommand>::empty());
            assert(non_resizes(seq![r]) == non_resizes(seq![r].drop_first()));
            assert(Seq::<UiCommand>::empty() + non_resizes(batch) =~= non_resizes(batch));
        },
        None => {
        },
    }
}

} // verus!
