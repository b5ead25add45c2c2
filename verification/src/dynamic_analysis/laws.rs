//! What holds of every run of the trial engine.
//!
//! The file on disk is outside the engine. These laws follow it through the
//! answers of the engine: a file holds what the last [`Action::Verify`] or
//! [`Action::Revert`] had written to it.
//!
//! [`Action::Verify`]: crate::dynamic_analysis::trial::Action::Verify
//! [`Action::Revert`]: crate::dynamic_analysis::trial::Action::Revert

use crate::analysis::ItemKeyView;
use crate::dynamic_analysis::common::{
    candidates_of, BoundCandidateView, BoundRemovalOutcomeView, BoundRemovalResultView,
    CommandOutputView,
};
use crate::dynamic_analysis::edit::{edit_hits, edited};
use crate::dynamic_analysis::trial::{checksum, skipped, ActionView, EventView, Phase, SessionView};
use crate::syntax::NodeView;
use vstd::prelude::*;

verus! {

/// The text on disk once `action` is carried out, where `disk` stood there
/// before.
pub open spec fn disk_after(action: ActionView, disk: Seq<char>) -> Seq<char> {
    match action {
        ActionView::Verify(text) => text,
        ActionView::Revert(text) => text,
        _ => disk,
    }
}

/// Whether `disk` is what the engine in state `st` takes to stand on disk:
/// the trial text while the verifier is at work, and the current text at any
/// other time.
pub open spec fn in_sync(st: SessionView, disk: Seq<char>) -> bool {
    if st.phase == Phase::Verifying {
        disk == st.trial_src
    } else {
        disk == st.current_src
    }
}

/// Whether `later` is `earlier` with entries added at its end, all of them
/// for skipped candidates.
pub open spec fn extends_by_skips(
    earlier: Seq<BoundRemovalResultView>,
    later: Seq<BoundRemovalResultView>,
) -> bool {
    &&& earlier.len() <= later.len()
    &&& forall|i: int| 0 <= i < earlier.len() ==> (#[trigger] later[i]) == earlier[i]
    &&& forall|i: int|
        earlier.len() <= i < later.len() ==> (#[trigger] later[i]).outcome
            == BoundRemovalOutcomeView::Skipped
}

/// Whether `rest` is what is left of `items` once some of its first items are
/// dropped.
pub open spec fn is_rest_of<A>(rest: Seq<A>, items: Seq<A>) -> bool {
    &&& rest.len() <= items.len()
    &&& forall|i: int| 0 <= i < rest.len() ==> rest[i] == items[i + items.len() - rest.len()]
}

/// Going on to the next trial neither changes the working tree or a text, nor
/// asks for anything to be written. It adds to the ledger only candidates that
/// were skipped, and ends either with a trial tree to print or with the run
/// finished.
pub proof fn lemma_seek(st: SessionView)
    requires
        st.cursor <= st.candidates().len(),
    ensures
        st.seek().0.wf(),
        st.seek().0.working == st.working,
        st.seek().0.current_src == st.current_src,
        st.seek().0.trial_src == st.trial_src,
        extends_by_skips(st.outcomes, st.seek().0.outcomes),
        is_rest_of(st.seek().0.bounds, st.bounds),
        st.seek().0.phase == Phase::Finished || st.seek().0.phase == Phase::Applying,
        st.seek().0.phase == Phase::Finished ==> st.seek().1 == ActionView::Finish,
        st.seek().0.phase == Phase::Applying ==> st.seek().1 == ActionView::Render(
            st.seek().0.trial(),
        ),
    decreases st.bounds.len(), st.candidates().len() - st.cursor,
{
    if st.bounds.len() == 0 {
    } else if st.cursor >= st.candidates().len() {
        lemma_seek(SessionView { bounds: st.bounds.remove(0), cursor: 0, ..st });
    } else if !st.hits() {
        let next = SessionView {
            outcomes: st.outcomes.push(skipped(st.candidate())),
            cursor: st.cursor + 1,
            ..st
        };
        lemma_seek(next);
    } else {
    }
}

/// Every step leaves the engine in a state that a run can be in.
pub proof fn lemma_step_keeps_wf(st: SessionView, event: EventView)
    requires
        st.wf(),
    ensures
        st.step(event).0.wf(),
{
    lemma_step_cases(st, event);
}

/// The steps of the engine, case by case.
proof fn lemma_step_cases(st: SessionView, event: EventView)
    requires
        st.wf(),
    ensures
        st.step(event).0.wf(),
        st.step(event).1 matches ActionView::Verify(text) ==> st.phase == Phase::Applying && event
            == EventView::Rendered(text) && checksum(text) != checksum(st.current_src)
            && st.step(event).0.phase == Phase::Verifying && st.step(event).0.trial_src == text,
        st.step(event).1 matches ActionView::Revert(text) ==> st.phase == Phase::Verifying && text
            == st.current_src && st.step(event).0.phase != Phase::Verifying,
        st.step(event).0.phase == Phase::Verifying ==> st.step(event).1 is Verify || (st.step(
            event,
        ).1 is Refused && st.phase == Phase::Verifying),
        st.step(event).1 is Refused ==> st.step(event).0 == st,
        (st.step(event).0.working != st.working || st.step(event).0.current_src != st.current_src)
            ==> st.phase == Phase::Verifying && (event matches EventView::Checked(check)
            && check.status.success()),
        st.phase == Phase::Verifying && (event matches EventView::Checked(check)
            && check.status.success()) ==> st.step(event).0.working == st.trial() && st.step(
            event,
        ).0.current_src == st.trial_src && !(st.step(event).1 is Revert),
        st.phase == Phase::Verifying && !(st.step(event).1 is Revert) && !(st.step(event).1 is Refused)
            ==> (event matches EventView::Checked(check) && check.status.success()),
{
    match (st.phase, event) {
        (Phase::Pending, EventView::Start) => {
            lemma_seek(st);
        },
        (Phase::Applying, EventView::Rendered(text)) => {
            if checksum(text) == checksum(st.current_src) {
                lemma_seek(
                    SessionView {
                        outcomes: st.outcomes.push(skipped(st.candidate())),
                        cursor: st.cursor + 1,
                        ..st
                    },
                );
            }
        },
        (Phase::Verifying, EventView::Checked(check)) => {
            if check.status.success() {
                lemma_seek(st.settle_accepted(check));
            }
        },
        (Phase::Reverting, EventView::Reverted) => {
            lemma_seek(st);
        },
        _ => {},
    }
}

/// The engine and the file stay in step. If the file holds what the engine
/// takes it to hold, then it does so again once the answer to an event is
/// carried out. So whenever no trial is with the verifier, the file holds the
/// current text: the text the run began with, or the text of the last trial
/// that the verifier accepted.
pub proof fn lemma_file_stays_in_sync(st: SessionView, event: EventView, disk: Seq<char>)
    requires
        st.wf(),
        in_sync(st, disk),
    ensures
        in_sync(st.step(event).0, disk_after(st.step(event).1, disk)),
{
    lemma_step_cases(st, event);
}

/// A trial that the verifier rejects leaves no trace. Let a trial tree be
/// printed to `text`, a text with another checksum than the current text, and
/// let the verifier reject it. Then the text that is written back is the text
/// that stood on disk before the trial, character for character; and the
/// working tree and the current text are what they were.
pub proof fn lemma_rejected_trial_restores_file(
    st: SessionView,
    text: Seq<char>,
    check: CommandOutputView,
    disk: Seq<char>,
)
    requires
        st.wf(),
        st.phase == Phase::Applying,
        in_sync(st, disk),
        checksum(text) != checksum(st.current_src),
        !check.status.success(),
    ensures
        ({
            let (tried, verify) = st.step(EventView::Rendered(text));
            let (settled, revert) = tried.step(EventView::Checked(check));
            &&& verify == ActionView::Verify(text)
            &&& revert == ActionView::Revert(disk)
            &&& disk_after(revert, disk_after(verify, disk)) == disk
            &&& settled.working == st.working
            &&& settled.current_src == st.current_src
            &&& settled.outcomes == st.outcomes.push(
                BoundRemovalResultView {
                    candidate: st.candidate(),
                    outcome: BoundRemovalOutcomeView::Retained { check },
                },
            )
        }),
{
}

/// A trial that cannot be carried through leaves no trace either: where the
/// trial text could not be written or the verifier could not be run, the
/// answer is to write the current text back.
pub proof fn lemma_aborted_trial_restores_file(st: SessionView, disk: Seq<char>)
    requires
        st.wf(),
        st.phase == Phase::Verifying,
    ensures
        st.step(EventView::Aborted).1 == ActionView::Revert(st.current_src),
        disk_after(st.step(EventView::Aborted).1, disk) == st.current_src,
        st.step(EventView::Aborted).0.working == st.working,
        st.step(EventView::Aborted).0.current_src == st.current_src,
        st.step(EventView::Aborted).0.outcomes == st.outcomes,
{
}

/// A trial that does not change the text never reaches the verifier. Where
/// the trial tree is printed to a text with the checksum of the current text,
/// the candidate is entered as skipped, the answer is not to verify, and the
/// working tree and the current text are what they were.
pub proof fn lemma_unchanged_text_is_skipped(st: SessionView, text: Seq<char>)
    requires
        st.wf(),
        st.phase == Phase::Applying,
        checksum(text) == checksum(st.current_src),
    ensures
        ({
            let (next, action) = st.step(EventView::Rendered(text));
            &&& !(action is Verify)
            &&& next.outcomes.len() > st.outcomes.len()
            &&& next.outcomes[st.outcomes.len() as int] == skipped(st.candidate())
            &&& extends_by_skips(st.outcomes, next.outcomes)
            &&& next.working == st.working
            &&& next.current_src == st.current_src
        }),
{
    let entered = SessionView {
        outcomes: st.outcomes.push(skipped(st.candidate())),
        cursor: st.cursor + 1,
        ..st
    };
    lemma_seek(entered);
    let next = st.step(EventView::Rendered(text)).0;
    assert(next.outcomes[st.outcomes.len() as int] == entered.outcomes[st.outcomes.len() as int]);
}

/// The verifier is asked about a text only where a trial tree was printed to
/// it and its checksum is not that of the current text.
pub proof fn lemma_verified_text_differs(st: SessionView, event: EventView)
    requires
        st.wf(),
    ensures
        st.step(event).1 matches ActionView::Verify(text) ==> st.phase == Phase::Applying && event
            == EventView::Rendered(text) && checksum(text) != checksum(st.current_src),
{
    lemma_step_cases(st, event);
}

/// What the verifier accepted is what stays on disk. Where the verifier
/// accepts a trial, the text it ran on becomes the current text and the trial
/// tree the working tree, the candidate is entered as removed, and nothing is
/// written to the file.
pub proof fn lemma_accepted_text_is_on_disk(
    st: SessionView,
    check: CommandOutputView,
    disk: Seq<char>,
)
    requires
        st.wf(),
        st.phase == Phase::Verifying,
        in_sync(st, disk),
        check.status.success(),
    ensures
        ({
            let (next, action) = st.step(EventView::Checked(check));
            &&& disk_after(action, disk) == disk
            &&& next.current_src == disk
            &&& next.working == st.trial()
            &&& next.outcomes.len() > st.outcomes.len()
            &&& next.outcomes[st.outcomes.len() as int]
                == BoundRemovalResultView {
                candidate: st.candidate(),
                outcome: BoundRemovalOutcomeView::Removed { check },
            }
        }),
{
    lemma_step_cases(st, EventView::Checked(check));
    let accepted = st.settle_accepted(check);
    lemma_seek(accepted);
    let next = st.step(EventView::Checked(check)).0;
    assert(next.outcomes[st.outcomes.len() as int] == accepted.outcomes[st.outcomes.len() as int]);
}

/// Only an accepted trial changes anything. A step that is not the
/// verifier's acceptance of a trial leaves the working tree and the current
/// text as they were; so a run in which the verifier accepts nothing ends
/// with the tree, the text and the file it began with.
pub proof fn lemma_only_acceptance_changes_file(st: SessionView, event: EventView)
    requires
        st.wf(),
        !(st.phase == Phase::Verifying && (event matches EventView::Checked(check)
            && check.status.success())),
    ensures
        st.step(event).0.working == st.working,
        st.step(event).0.current_src == st.current_src,
{
    lemma_step_cases(st, event);
}

/// What is outside the engine, taken to answer alike whenever it is asked
/// alike: a printer of trees, and a verifier of texts.
pub struct World {
    /// The text that a tree is printed to.
    pub print: spec_fn(Seq<NodeView>) -> Seq<char>,
    /// What the verifier gives for a file with this text.
    pub verdict: spec_fn(Seq<char>) -> CommandOutputView,
}

/// What happens in `world` when `action` is carried out: the event that the
/// engine is told next. There is none once the run has ended.
pub open spec fn answer(world: World, action: ActionView) -> Option<EventView> {
    match action {
        ActionView::Render(tree) => Some(EventView::Rendered((world.print)(tree))),
        ActionView::Verify(text) => Some(EventView::Checked((world.verdict)(text))),
        ActionView::Revert(_) => Some(EventView::Reverted),
        _ => None,
    }
}

/// Where a run stands in `world` after up to `n` more steps, beginning in
/// state `st` with `action` to be carried out.
pub open spec fn run(st: SessionView, action: ActionView, world: World, n: nat) -> (
    SessionView,
    ActionView,
)
    decreases n,
{
    if n == 0 {
        (st, action)
    } else {
        match answer(world, action) {
            None => (st, action),
            Some(event) => run(st.step(event).0, st.step(event).1, world, (n - 1) as nat),
        }
    }
}

/// Whether `world` turns down the removal of `candidate` from the item `key`
/// of the file `working` with the text `current`: the edit removes nothing,
/// or the text it leaves has the checksum of the current text, or the
/// verifier rejects it.
pub open spec fn turned_down(
    working: Seq<NodeView>,
    current: Seq<char>,
    key: ItemKeyView,
    candidate: BoundCandidateView,
    world: World,
) -> bool {
    let trial = (world.print)(edited(working, key.span, key.ident, candidate.site));
    ||| !edit_hits(working, key.span, key.ident, candidate.site)
    ||| checksum(trial) == checksum(current)
    ||| !(world.verdict)(trial).status.success()
}

/// Whether `world` turns down every candidate of every item that is still to
/// be processed: nothing is left to remove.
pub open spec fn settled(st: SessionView, world: World) -> bool {
    forall|k: int, c: int|
        #![trigger candidates_of(st.bounds[k])[c]]
        0 <= k < st.bounds.len() && 0 <= c < candidates_of(st.bounds[k]).len() ==> turned_down(
            st.working,
            st.current_src,
            st.bounds[k].item,
            candidates_of(st.bounds[k])[c],
            world,
        )
}

/// Whether `action` is what the engine in state `st` waits to have carried
/// out in `world`.
pub open spec fn awaits(st: SessionView, action: ActionView, world: World) -> bool {
    match st.phase {
        Phase::Pending => false,
        Phase::Applying => action == ActionView::Render(st.trial()),
        Phase::Verifying => {
            &&& action == ActionView::Verify(st.trial_src)
            &&& st.trial_src == (world.print)(st.trial())
            &&& checksum(st.trial_src) != checksum(st.current_src)
        },
        Phase::Reverting => action is Revert,
        Phase::Halting => action is Revert,
        Phase::Finished => action == ActionView::Finish,
    }
}

/// Whether no entry of `ledger` from index `from` on is for a removed bound.
pub open spec fn none_removed(ledger: Seq<BoundRemovalResultView>, from: int) -> bool {
    forall|i: int| from <= i < ledger.len() ==> !((#[trigger] ledger[i]).outcome is Removed)
}

/// One step of a run in which nothing is left to remove leaves nothing to
/// remove, and changes neither the working tree nor the current text.
proof fn lemma_settled_step(st: SessionView, action: ActionView, world: World, from: int)
    requires
        st.wf(),
        settled(st, world),
        awaits(st, action, world),
        answer(world, action) is Some,
        0 <= from <= st.outcomes.len(),
        none_removed(st.outcomes, from),
    ensures
        ({
            let (next, then) = st.step(answer(world, action)->0);
            &&& next.wf()
            &&& settled(next, world)
            &&& awaits(next, then, world)
            &&& next.working == st.working
            &&& next.current_src == st.current_src
            &&& from <= next.outcomes.len()
            &&& none_removed(next.outcomes, from)
        }),
{
    let event = answer(world, action)->0;
    let (next, then) = st.step(event);
    lemma_step_cases(st, event);
    match st.phase {
        Phase::Applying => {
            let text = (world.print)(st.trial());
            if checksum(text) == checksum(st.current_src) {
                let entered = SessionView {
                    outcomes: st.outcomes.push(skipped(st.candidate())),
                    cursor: st.cursor + 1,
                    ..st
                };
                lemma_seek(entered);
                lemma_rest_is_settled(st, next, world);
                assert forall|i: int| from <= i < next.outcomes.len() implies !((
                #[trigger] next.outcomes[i]).outcome is Removed) by {
                    if i < st.outcomes.len() {
                        assert(next.outcomes[i] == entered.outcomes[i]);
                        assert(entered.outcomes[i] == st.outcomes[i]);
                    } else if i == st.outcomes.len() {
                        assert(next.outcomes[i] == entered.outcomes[i]);
                    }
                }
            } else {
                lemma_rest_is_settled(st, next, world);
            }
        },
        Phase::Verifying => {
            assert(turned_down(
                st.working,
                st.current_src,
                st.bounds[0].item,
                candidates_of(st.bounds[0])[st.cursor as int],
                world,
            ));
            lemma_rest_is_settled(st, next, world);
        },
        Phase::Reverting => {
            lemma_seek(st);
            lemma_rest_is_settled(st, next, world);
            assert forall|i: int| from <= i < next.outcomes.len() implies !((
            #[trigger] next.outcomes[i]).outcome is Removed) by {
                if i < st.outcomes.len() {
                    assert(next.outcomes[i] == st.outcomes[i]);
                }
            }
        },
        _ => {
            lemma_rest_is_settled(st, next, world);
        },
    }
}

/// Where nothing is left to remove, nothing is left to remove once some of
/// the first items are dropped.
proof fn lemma_rest_is_settled(st: SessionView, next: SessionView, world: World)
    requires
        settled(st, world),
        is_rest_of(next.bounds, st.bounds),
        next.working == st.working,
        next.current_src == st.current_src,
    ensures
        settled(next, world),
{
    let shift = st.bounds.len() - next.bounds.len();
    assert forall|k: int, c: int|
        #![trigger candidates_of(next.bounds[k])[c]]
        0 <= k < next.bounds.len() && 0 <= c < candidates_of(
            next.bounds[k],
        ).len() implies turned_down(
        next.working,
        next.current_src,
        next.bounds[k].item,
        candidates_of(next.bounds[k])[c],
        world,
    ) by {
        assert(next.bounds[k] == st.bounds[k + shift]);
        assert(turned_down(
            st.working,
            st.current_src,
            st.bounds[k + shift].item,
            candidates_of(st.bounds[k + shift])[c],
            world,
        ));
    }
}

/// A run in which nothing is left to remove changes nothing, however long it
/// goes on.
proof fn lemma_settled_run(st: SessionView, action: ActionView, world: World, n: nat, from: int)
    requires
        st.wf(),
        settled(st, world),
        awaits(st, action, world),
        0 <= from <= st.outcomes.len(),
        none_removed(st.outcomes, from),
    ensures
        run(st, action, world, n).0.working == st.working,
        run(st, action, world, n).0.current_src == st.current_src,
        none_removed(run(st, action, world, n).0.outcomes, from),
    decreases n,
{
    if n > 0 && answer(world, action) is Some {
        let event = answer(world, action)->0;
        lemma_settled_step(st, action, world, from);
        lemma_settled_run(st.step(event).0, st.step(event).1, world, (n - 1) as nat, from);
    }
}

/// A run on a file from which the verifier lets nothing be removed changes
/// nothing. Let the printer and the verifier answer alike whenever they are
/// asked alike, and let every candidate of every item be turned down: its
/// edit removes nothing, or leaves the text with the same checksum, or the
/// verifier rejects what it leaves. Then at every point of the run the
/// working tree and the current text are those it began with, and no bound is
/// entered as removed. This is what a second run finds where the first one
/// has ended with every item in that state.
pub proof fn lemma_settled_run_changes_nothing(st: SessionView, world: World, n: nat)
    requires
        st.wf(),
        st.phase == Phase::Pending,
        settled(st, world),
    ensures
        ({
            let (begun, action) = st.step(EventView::Start);
            let end = run(begun, action, world, n).0;
            &&& end.working == st.working
            &&& end.current_src == st.current_src
            &&& none_removed(end.outcomes, st.outcomes.len() as int)
        }),
{
    let (begun, action) = st.step(EventView::Start);
    lemma_seek(st);
    lemma_rest_is_settled(st, begun, world);
    lemma_settled_run(begun, action, world, n, st.outcomes.len() as int);
}

/// Whether `world` has turned down every candidate that the pass over the
/// item being processed has dealt with so far.
pub open spec fn tried(st: SessionView, world: World) -> bool {
    forall|c: int|
        0 <= c < st.cursor && c < st.candidates().len() ==> turned_down(
            st.working,
            st.current_src,
            st.bounds[0].item,
            #[trigger] st.candidates()[c],
            world,
        )
}

/// Whether `world` turns down every candidate of the first `count` items
/// that are still to be processed.
pub open spec fn first_settled(st: SessionView, count: int, world: World) -> bool {
    forall|k: int, c: int|
        #![trigger candidates_of(st.bounds[k])[c]]
        0 <= k < count && 0 <= c < candidates_of(st.bounds[k]).len() ==> turned_down(
            st.working,
            st.current_src,
            st.bounds[k].item,
            candidates_of(st.bounds[k])[c],
            world,
        )
}

/// An item is dropped only once nothing is left to remove from it. Where
/// `world` has turned down every candidate that the pass has dealt with so
/// far, it turns down every candidate of every item that is dropped on the
/// way to the next trial, for the file as it stands then; and it has turned
/// down every candidate that the pass over the item reached has dealt with.
pub proof fn lemma_dropped_items_are_settled(st: SessionView, world: World)
    requires
        st.cursor <= st.candidates().len(),
        tried(st, world),
    ensures
        first_settled(st, st.bounds.len() - st.seek().0.bounds.len(), world),
        tried(st.seek().0, world),
    decreases st.bounds.len(), st.candidates().len() - st.cursor,
{
    lemma_seek(st);
    if st.bounds.len() == 0 {
    } else if st.cursor >= st.candidates().len() {
        let rest = SessionView { bounds: st.bounds.remove(0), cursor: 0, ..st };
        lemma_dropped_items_are_settled(rest, world);
        lemma_seek(rest);
        let dropped = st.bounds.len() - st.seek().0.bounds.len();
        assert forall|k: int, c: int|
            #![trigger candidates_of(st.bounds[k])[c]]
            0 <= k < dropped && 0 <= c < candidates_of(st.bounds[k]).len() implies turned_down(
            st.working,
            st.current_src,
            st.bounds[k].item,
            candidates_of(st.bounds[k])[c],
            world,
        ) by {
            if k == 0 {
                assert(candidates_of(st.bounds[0])[c] == st.candidates()[c]);
            } else {
                assert(st.bounds[k] == rest.bounds[k - 1]);
                assert(turned_down(
                    rest.working,
                    rest.current_src,
                    rest.bounds[k - 1].item,
                    candidates_of(rest.bounds[k - 1])[c],
                    world,
                ));
            }
        }
    } else if !st.hits() {
        let next = SessionView {
            outcomes: st.outcomes.push(skipped(st.candidate())),
            cursor: st.cursor + 1,
            ..st
        };
        assert forall|c: int| 0 <= c < next.cursor && c < next.candidates().len() implies turned_down(
            next.working,
            next.current_src,
            next.bounds[0].item,
            #[trigger] next.candidates()[c],
            world,
        ) by {
            if c < st.cursor {
                assert(turned_down(
                    st.working,
                    st.current_src,
                    st.bounds[0].item,
                    st.candidates()[c],
                    world,
                ));
            }
        }
        lemma_dropped_items_are_settled(next, world);
    } else {
    }
}

/// A run begins with the record of the pass true: the first answer of the
/// engine is the one it then waits to have carried out, and every candidate
/// that the pass over the item reached has dealt with was turned down.
pub proof fn lemma_pass_begins(st: SessionView, world: World)
    requires
        st.wf(),
        st.phase == Phase::Pending,
        tried(st, world),
    ensures
        st.step(EventView::Start).0.wf(),
        awaits(st.step(EventView::Start).0, st.step(EventView::Start).1, world),
        tried(st.step(EventView::Start).0, world),
{
    lemma_seek(st);
    lemma_dropped_items_are_settled(st, world);
}

/// In a world that answers alike whenever it is asked alike, every step
/// keeps the record of the pass true: every candidate that the pass over the
/// item being processed has dealt with was turned down for the file as it
/// stands. With [`lemma_dropped_items_are_settled`] this says that a run
/// leaves each item only when nothing is left to remove from it.
pub proof fn lemma_pass_is_kept(st: SessionView, action: ActionView, world: World)
    requires
        st.wf(),
        awaits(st, action, world),
        answer(world, action) is Some,
        tried(st, world),
    ensures
        st.step(answer(world, action)->0).0.wf(),
        awaits(st.step(answer(world, action)->0).0, st.step(answer(world, action)->0).1, world),
        tried(st.step(answer(world, action)->0).0, world),
{
    let event = answer(world, action)->0;
    lemma_step_cases(st, event);
    match st.phase {
        Phase::Applying => {
            let text = (world.print)(st.trial());
            if checksum(text) == checksum(st.current_src) {
                let entered = SessionView {
                    outcomes: st.outcomes.push(skipped(st.candidate())),
                    cursor: st.cursor + 1,
                    ..st
                };
                assert forall|c: int|
                    0 <= c < entered.cursor && c < entered.candidates().len() implies turned_down(
                    entered.working,
                    entered.current_src,
                    entered.bounds[0].item,
                    #[trigger] entered.candidates()[c],
                    world,
                ) by {
                    if c < st.cursor {
                        assert(turned_down(
                            st.working,
                            st.current_src,
                            st.bounds[0].item,
                            st.candidates()[c],
                            world,
                        ));
                    }
                }
                lemma_seek(entered);
                lemma_dropped_items_are_settled(entered, world);
            }
        },
        Phase::Verifying => {
            let check = (world.verdict)(st.trial_src);
            if check.status.success() {
                let accepted = st.settle_accepted(check);
                lemma_seek(accepted);
                lemma_dropped_items_are_settled(accepted, world);
            } else {
                let next = st.step(event).0;
                assert forall|c: int|
                    0 <= c < next.cursor && c < next.candidates().len() implies turned_down(
                    next.working,
                    next.current_src,
                    next.bounds[0].item,
                    #[trigger] next.candidates()[c],
                    world,
                ) by {
                    if c < st.cursor {
                        assert(turned_down(
                            st.working,
                            st.current_src,
                            st.bounds[0].item,
                            st.candidates()[c],
                            world,
                        ));
                    }
                }
            }
        },
        Phase::Reverting => {
            lemma_seek(st);
            lemma_dropped_items_are_settled(st, world);
        },
        _ => {},
    }
}

} // verus!
