//! The trial engine: one candidate at a time, a bound is taken out of a copy
//! of the file, the copy is printed, and the verifier decides whether the
//! bound stays out.
//!
//! The engine does not print, write or run anything itself. It is driven by
//! [`PruneSession::step`]: each call takes what has just happened and answers
//! with what is to be done next.

use crate::analysis::{Collector, DeclBounds, DeclBoundsView, ItemBounds, ItemBoundsView};
use crate::cli::TargetType;
use crate::dynamic_analysis::common::{
    candidates_of, BoundCandidate, BoundCandidateView, BoundRemovalOutcome,
    BoundRemovalOutcomeView, BoundRemovalResult, BoundRemovalResultView, CommandOutput,
    CommandOutputView,
};
use crate::dynamic_analysis::edit::{edit_hits, edited, first_target, BoundEditor};
use crate::syntax::{NodeView, SyntaxTree};
use vstd::prelude::*;
use vstd::utf8::encode_utf8;

verus! {

/// The CRC-32 checksum of a sequence of bytes.
pub uninterp spec fn crc32(bytes: Seq<u8>) -> u32;

/// `crc32fast::hash` returns the CRC-32 checksum of the bytes it is given: a
/// value that depends on those bytes alone.
pub assume_specification[ crc32fast::hash ](buf: &[u8]) -> (sum: u32)
    ensures
        sum == crc32(buf@),
;

/// The checksum of a text: the CRC-32 checksum of its UTF-8 encoding.
pub open spec fn checksum(text: Seq<char>) -> u32 {
    crc32(encode_utf8(text))
}

/// The checksum of a text.
pub fn hash_bytes(s: &str) -> (sum: u32)
    ensures
        sum == checksum(s@),
{
    crc32fast::hash(s.as_bytes())
}

/// Where the engine stands with the candidate at hand.
#[derive(Clone, Copy, Debug, PartialEq, Eq, Structural)]
pub enum Phase {
    /// Not started.
    Pending,
    /// A bound was taken out of a copy of the file; the copy is to be
    /// printed.
    Applying,
    /// The printed copy is to be written and verified.
    Verifying,
    /// The verifier rejected the copy; the file is to be written back.
    Reverting,
    /// The verifier could not be run; the file is to be written back, and the
    /// run ends.
    Halting,
    /// The run has ended.
    Finished,
}

/// What has just happened outside the engine.
#[derive(Debug, PartialEq, Eq)]
pub enum Event {
    /// The run begins.
    Start,
    /// The trial tree was printed, to this text.
    Rendered(String),
    /// The trial text was written to the file and the verifier was run on it.
    Checked(CommandOutput),
    /// The trial text could not be written, or the verifier could not be run.
    Aborted,
    /// The file was written back.
    Reverted,
}

/// The value of an [`Event`].
pub enum EventView {
    Start,
    Rendered(Seq<char>),
    Checked(CommandOutputView),
    Aborted,
    Reverted,
}

impl DeepView for Event {
    type V = EventView;

    open spec fn deep_view(&self) -> EventView {
        match self {
            Event::Start => EventView::Start,
            Event::Rendered(text) => EventView::Rendered(text@),
            Event::Checked(check) => EventView::Checked(check@),
            Event::Aborted => EventView::Aborted,
            Event::Reverted => EventView::Reverted,
        }
    }
}

impl View for Event {
    type V = EventView;

    open spec fn view(&self) -> EventView {
        self.deep_view()
    }
}

/// What is to be done next outside the engine.
#[derive(Debug, PartialEq, Eq)]
pub enum Action {
    /// Print this tree, and report the text with [`Event::Rendered`].
    Render(SyntaxTree),
    /// Write this text to the file, run the verifier, and report what it gave
    /// with [`Event::Checked`], or [`Event::Aborted`] if that could not be
    /// done.
    Verify(String),
    /// Write this text to the file, and report it with [`Event::Reverted`].
    Revert(String),
    /// Nothing: the run has ended.
    Finish,
    /// Nothing: the event does not belong to the phase, and was passed over.
    Refused,
}

/// The value of an [`Action`].
pub enum ActionView {
    Render(Seq<NodeView>),
    Verify(Seq<char>),
    Revert(Seq<char>),
    Finish,
    Refused,
}

impl DeepView for Action {
    type V = ActionView;

    open spec fn deep_view(&self) -> ActionView {
        match self {
            Action::Render(tree) => ActionView::Render(tree@),
            Action::Verify(text) => ActionView::Verify(text@),
            Action::Revert(text) => ActionView::Revert(text@),
            Action::Finish => ActionView::Finish,
            Action::Refused => ActionView::Refused,
        }
    }
}

impl View for Action {
    type V = ActionView;

    open spec fn view(&self) -> ActionView {
        self.deep_view()
    }
}

/// The record `bounds` with its coordinates taken anew from `nodes`: those of
/// the declaration that an edit aimed at the record's item changes. A record
/// whose declaration is not found has no coordinates left.
pub open spec fn refreshed(bounds: DeclBoundsView, nodes: Seq<NodeView>) -> DeclBoundsView {
    match first_target(nodes, bounds.item.span, bounds.item.ident) {
        Some(t) => DeclBoundsView {
            type_params: nodes[t].generics.param_bounds(),
            where_preds: nodes[t].generics.where_bounds(),
            ..bounds
        },
        None => DeclBoundsView { type_params: Seq::empty(), where_preds: Seq::empty(), ..bounds },
    }
}

/// The state of a run.
pub struct SessionView {
    /// The working tree: the file as it is believed to stand on disk.
    pub working: Seq<NodeView>,
    /// The text that the working tree was printed to.
    pub current_src: Seq<char>,
    /// The items still to be processed; the first is being processed.
    pub bounds: Seq<DeclBoundsView>,
    /// How many candidates of the first item have been dealt with in this
    /// pass over it.
    pub cursor: nat,
    /// The text of the last trial that went to the verifier.
    pub trial_src: Seq<char>,
    /// The ledger: every candidate dealt with so far, and what became of it.
    pub outcomes: Seq<BoundRemovalResultView>,
    /// Where the engine stands.
    pub phase: Phase,
}

/// A ledger entry for a candidate that was not tried.
pub open spec fn skipped(candidate: BoundCandidateView) -> BoundRemovalResultView {
    BoundRemovalResultView { candidate, outcome: BoundRemovalOutcomeView::Skipped }
}

impl SessionView {
    /// The candidates of the item that is being processed.
    pub open spec fn candidates(self) -> Seq<BoundCandidateView> {
        if self.bounds.len() > 0 {
            candidates_of(self.bounds[0])
        } else {
            Seq::empty()
        }
    }

    /// The candidate at hand.
    pub open spec fn candidate(self) -> BoundCandidateView {
        self.candidates()[self.cursor as int]
    }

    /// Whether the edit for the candidate at hand removes a bound from the
    /// working tree.
    pub open spec fn hits(self) -> bool {
        edit_hits(
            self.working,
            self.bounds[0].item.span,
            self.bounds[0].item.ident,
            self.candidate().site,
        )
    }

    /// The trial tree: the working tree without the bound of the candidate at
    /// hand.
    pub open spec fn trial(self) -> Seq<NodeView> {
        edited(
            self.working,
            self.bounds[0].item.span,
            self.bounds[0].item.ident,
            self.candidate().site,
        )
    }

    /// Whether the state is one that a run can be in.
    pub open spec fn wf(self) -> bool {
        &&& self.cursor <= self.candidates().len()
        &&& (self.phase == Phase::Applying || self.phase == Phase::Verifying) ==> self.bounds.len()
            > 0 && self.cursor < self.candidates().len() && self.hits()
        &&& self.phase == Phase::Reverting ==> self.bounds.len() > 0
    }

    /// Goes on to the next candidate whose edit removes a bound. On the way,
    /// every candidate whose edit removes nothing is entered as skipped, and
    /// an item whose candidates are all dealt with is dropped. The answer is
    /// to print the trial tree of the candidate found, or to finish if no
    /// item is left.
    pub open spec fn seek(self) -> (SessionView, ActionView)
        decreases self.bounds.len(), self.candidates().len() - self.cursor,
    {
        if self.bounds.len() == 0 {
            (SessionView { phase: Phase::Finished, ..self }, ActionView::Finish)
        } else if self.cursor >= self.candidates().len() {
            (SessionView { bounds: self.bounds.remove(0), cursor: 0, ..self }).seek()
        } else if !self.hits() {
            (SessionView {
                outcomes: self.outcomes.push(skipped(self.candidate())),
                cursor: self.cursor + 1,
                ..self
            }).seek()
        } else {
            (SessionView { phase: Phase::Applying, ..self }, ActionView::Render(self.trial()))
        }
    }

    /// Judges the text that the trial tree was printed to. A text with the
    /// checksum of the current text changes nothing: the candidate is entered
    /// as skipped, and the engine goes on. Any other text goes to the
    /// verifier.
    pub open spec fn judge(self, text: Seq<char>) -> (SessionView, ActionView) {
        if checksum(text) == checksum(self.current_src) {
            (SessionView {
                outcomes: self.outcomes.push(skipped(self.candidate())),
                cursor: self.cursor + 1,
                ..self
            }).seek()
        } else {
            (SessionView { phase: Phase::Verifying, trial_src: text, ..self }, ActionView::Verify(text))
        }
    }

    /// The state once the trial at hand was accepted: the candidate is
    /// entered as removed, the trial tree and text are the working tree and
    /// the current text, and the item's coordinates are taken anew for a pass
    /// from its first candidate.
    pub open spec fn settle_accepted(self, check: CommandOutputView) -> SessionView {
        SessionView {
            working: self.trial(),
            current_src: self.trial_src,
            bounds: self.bounds.update(0, refreshed(self.bounds[0], self.trial())),
            cursor: 0,
            outcomes: self.outcomes.push(
                BoundRemovalResultView {
                    candidate: self.candidate(),
                    outcome: BoundRemovalOutcomeView::Removed { check },
                },
            ),
            ..self
        }
    }

    /// Settles the trial by what the verifier gave. On success the bound
    /// stays out: the trial tree and text become the working tree and the
    /// current text, the item's coordinates are taken anew, and the engine
    /// goes on with the same item from its first candidate. On failure the
    /// bound stays in: the answer is to write the current text back.
    pub open spec fn settle(self, check: CommandOutputView) -> (SessionView, ActionView) {
        if check.status.success() {
            self.settle_accepted(check).seek()
        } else {
            (
                SessionView {
                    cursor: self.cursor + 1,
                    outcomes: self.outcomes.push(
                        BoundRemovalResultView {
                            candidate: self.candidate(),
                            outcome: BoundRemovalOutcomeView::Retained { check },
                        },
                    ),
                    phase: Phase::Reverting,
                    ..self
                },
                ActionView::Revert(self.current_src),
            )
        }
    }

    /// The state after `event`, and what is to be done next. An event that
    /// does not belong to the phase changes nothing.
    pub open spec fn step(self, event: EventView) -> (SessionView, ActionView) {
        match (self.phase, event) {
            (Phase::Pending, EventView::Start) => self.seek(),
            (Phase::Applying, EventView::Rendered(text)) => self.judge(text),
            (Phase::Verifying, EventView::Checked(check)) => self.settle(check),
            (Phase::Verifying, EventView::Aborted) => (
                SessionView { phase: Phase::Halting, ..self },
                ActionView::Revert(self.current_src),
            ),
            (Phase::Reverting, EventView::Reverted) => self.seek(),
            (Phase::Halting, EventView::Reverted) => (
                SessionView { phase: Phase::Finished, ..self },
                ActionView::Finish,
            ),
            _ => (self, ActionView::Refused),
        }
    }
}

/// A run of the trial engine over the items of one file.
pub struct PruneSession {
    working: SyntaxTree,
    current_src: String,
    current_hash: u32,
    bounds: Vec<DeclBounds>,
    candidates: Vec<BoundCandidate>,
    cursor: usize,
    trial: SyntaxTree,
    trial_src: String,
    outcomes: Vec<BoundRemovalResult>,
    phase: Phase,
}

/// The state of the run. The session keeps three things more, which the
/// state determines and [`PruneSession::wf`] ties to it: the checksum of the
/// current text, the candidates of the item that is being processed, and the
/// trial tree.
impl View for PruneSession {
    type V = SessionView;

    closed spec fn view(&self) -> SessionView {
        SessionView {
            working: self.working@,
            current_src: self.current_src@,
            bounds: self.bounds.deep_view(),
            cursor: self.cursor as nat,
            trial_src: self.trial_src@,
            outcomes: self.outcomes.deep_view(),
            phase: self.phase,
        }
    }
}

impl PruneSession {
    /// Whether the session is one that a run can be in: its state is (see
    /// [`SessionView::wf`]), and what it keeps beside its state is what the
    /// state gives: the checksum of the current text, the candidates of the
    /// item that is being processed, and, while a trial is under way, the
    /// trial tree.
    pub closed spec fn wf(&self) -> bool {
        &&& self@.wf()
        &&& self.current_hash == checksum(self.current_src@)
        &&& self.candidates.deep_view() == self@.candidates()
        &&& (self.phase == Phase::Applying || self.phase == Phase::Verifying) ==> self.trial@
            == self@.trial()
    }

    /// The state of a session that a run can be in is one that a run can be
    /// in.
    pub proof fn lemma_wf(&self)
        requires
            self.wf(),
        ensures
            self@.wf(),
    {
    }

    /// A run that has not started. `working` is the tree of the file,
    /// `source` the text that stands on disk, and `bounds` the items to
    /// process, in their order.
    pub fn new(working: SyntaxTree, bounds: Vec<DeclBounds>, source: String) -> (session: Self)
        ensures
            session.wf(),
            session@.wf(),
            session@.working == working@,
            session@.current_src == source@,
            session@.bounds == bounds.deep_view(),
            session@.cursor == 0,
            session@.outcomes.len() == 0,
            session@.phase == Phase::Pending,
    {
        let current_hash = hash_bytes(source.as_str());
        let candidates = if bounds.len() > 0 {
            BoundCandidate::collect_candidates(&bounds[0])
        } else {
            Vec::new()
        };
        let session = PruneSession {
            working,
            current_src: source,
            current_hash,
            bounds,
            candidates,
            cursor: 0,
            trial: SyntaxTree::new(),
            trial_src: String::new(),
            outcomes: Vec::new(),
            phase: Phase::Pending,
        };
        assert(session.candidates.deep_view() =~= session@.candidates());
        session
    }

    /// Where the engine stands.
    pub fn phase(&self) -> (phase: Phase)
        ensures
            phase == self@.phase,
    {
        self.phase
    }

    /// The working tree.
    pub fn working(&self) -> (tree: &SyntaxTree)
        ensures
            tree@ == self@.working,
    {
        &self.working
    }

    /// The text that the working tree was printed to: what stands on disk
    /// whenever no trial is under way.
    pub fn current_src(&self) -> (text: &String)
        ensures
            text@ == self@.current_src,
    {
        &self.current_src
    }

    /// The checksum of the current text.
    pub fn current_hash(&self) -> (sum: u32)
        requires
            self.wf(),
        ensures
            sum == checksum(self@.current_src),
    {
        self.current_hash
    }

    /// The items still to be processed.
    pub fn bounds(&self) -> (bounds: &Vec<DeclBounds>)
        ensures
            bounds.deep_view() == self@.bounds,
    {
        &self.bounds
    }

    /// The ledger so far.
    pub fn outcomes(&self) -> (outcomes: &Vec<BoundRemovalResult>)
        ensures
            outcomes.deep_view() == self@.outcomes,
    {
        &self.outcomes
    }

    /// Ends the session and hands out its ledger.
    pub fn into_outcomes(self) -> (outcomes: Vec<BoundRemovalResult>)
        ensures
            outcomes.deep_view() == self@.outcomes,
    {
        self.outcomes
    }

    /// Takes the coordinates of the item that is being processed anew from
    /// the working tree, and its candidates with them.
    fn refresh(&mut self)
        requires
            old(self)@.bounds.len() > 0,
        ensures
            final(self)@ == (SessionView {
                bounds: old(self)@.bounds.update(
                    0,
                    refreshed(old(self)@.bounds[0], old(self)@.working),
                ),
                ..old(self)@
            }),
            final(self).candidates.deep_view() == final(self)@.candidates(),
            final(self).current_hash == old(self).current_hash,
            final(self).trial == old(self).trial,
    {
        let ghost before = self@;
        let found = BoundEditor::locate(
            &self.working,
            self.bounds[0].item.span,
            self.bounds[0].item.ident.as_ref(),
        );
        assert(self.working@.len() == self.working.nodes.len());
        let (type_params, where_preds) = match found {
            Some(t) => (
                Collector::type_param_bounds(&self.working.nodes[t].generics),
                Collector::where_bounds(&self.working.nodes[t].generics),
            ),
            None => (Vec::new(), Vec::new()),
        };
        assert(found is None ==> type_params.deep_view() =~= Seq::empty()
            && where_preds.deep_view() =~= Seq::empty());
        let record = &mut self.bounds[0];
        record.type_params = type_params;
        record.where_preds = where_preds;
        assert(self.bounds.deep_view() =~= before.bounds.update(
            0,
            refreshed(before.bounds[0], before.working),
        ));
        self.candidates = BoundCandidate::collect_candidates(&self.bounds[0]);
    }

    /// Goes on to the next candidate whose edit removes a bound, and answers
    /// with its trial tree; or finishes, where no item is left.
    fn seek(&mut self) -> (action: Action)
        requires
            old(self)@.cursor <= old(self)@.candidates().len(),
            old(self).current_hash == checksum(old(self)@.current_src),
            old(self).candidates.deep_view() == old(self)@.candidates(),
        ensures
            final(self).wf(),
            final(self)@ == old(self)@.seek().0,
            action@ == old(self)@.seek().1,
    {
        let ghost goal = self@.seek();
        loop
            invariant
                self@.cursor <= self@.candidates().len(),
                self.current_hash == checksum(self@.current_src),
                self.candidates.deep_view() == self@.candidates(),
                self@.seek() == goal,
                goal == old(self)@.seek(),
            decreases self.bounds.len(), self.candidates.len() - self.cursor,
        {
            let ghost state = self@;
            if self.bounds.len() == 0 {
                self.phase = Phase::Finished;
                return Action::Finish;
            }
            if self.cursor >= self.candidates.len() {
                self.bounds.remove(0);
                self.candidates = if self.bounds.len() > 0 {
                    BoundCandidate::collect_candidates(&self.bounds[0])
                } else {
                    Vec::new()
                };
                self.cursor = 0;
                assert(self.bounds.deep_view() =~= state.bounds.remove(0));
                assert(self.candidates.deep_view() =~= self@.candidates());
                assert(self@ == (SessionView { bounds: state.bounds.remove(0), cursor: 0, ..state }));
                continue ;
            }
            let mut try_working = self.working.clone();
            let key = &self.bounds[0].item;
            let candidate = &self.candidates[self.cursor];
            assert(candidate@ == state.candidate());
            let mut editor = BoundEditor::new(key.ident.as_ref(), key.span, candidate);
            editor.visit_file_mut(&mut try_working);
            if editor.modified() {
                self.trial = try_working;
                self.phase = Phase::Applying;
                let tree = self.trial.clone();
                assert(self@ == (SessionView { phase: Phase::Applying, ..state }));
                return Action::Render(tree);
            }
            let entry = BoundRemovalResult {
                candidate: candidate.clone(),
                outcome: BoundRemovalOutcome::Skipped,
            };
            self.outcomes.push(entry);
            self.cursor = self.cursor + 1;
            assert(self.outcomes.deep_view() =~= state.outcomes.push(skipped(state.candidate())));
            assert(self@ == (SessionView {
                outcomes: state.outcomes.push(skipped(state.candidate())),
                cursor: state.cursor + 1,
                ..state
            }));
        }
    }

    /// Takes in what has just happened and answers with what is to be done
    /// next.
    ///
    /// A run starts with [`Event::Start`]. The engine then goes through the
    /// items in their order, and through the candidates of each item in
    /// theirs. A candidate whose edit removes nothing from the working tree
    /// is entered as skipped. For any other, the answer is
    /// [`Action::Render`] with the trial tree. Once the text comes in: a text
    /// with the checksum of the current text has the candidate entered as
    /// skipped, and any other is handed out with [`Action::Verify`]. Once
    /// the verifier's output comes in: on success the candidate is entered as
    /// removed, the trial becomes the working tree and current text, and the
    /// same item is gone through again with coordinates taken anew; on
    /// failure the candidate is entered as retained and the answer is
    /// [`Action::Revert`] with the current text. An item is dropped once all
    /// its candidates were dealt with in one pass, and with the last item the
    /// answer is [`Action::Finish`]. After [`Event::Aborted`] the answer is
    /// [`Action::Revert`] with the current text, and the run ends there.
    ///
    /// An event that does not belong to the phase is answered with
    /// [`Action::Refused`], and changes nothing.
    pub fn step(&mut self, event: Event) -> (action: Action)
        requires
            old(self).wf(),
        ensures
            final(self).wf(),
            final(self)@.wf(),
            final(self)@ == old(self)@.step(event@).0,
            action@ == old(self)@.step(event@).1,
    {
        let ghost state = self@;
        assert(self.candidates.deep_view().len() == self.candidates.len());
        match (self.phase, event) {
            (Phase::Pending, Event::Start) => self.seek(),
            (Phase::Applying, Event::Rendered(text)) => {
                let sum = hash_bytes(text.as_str());
                if sum == self.current_hash {
                    let entry = BoundRemovalResult {
                        candidate: self.candidates[self.cursor].clone(),
                        outcome: BoundRemovalOutcome::Skipped,
                    };
                    self.outcomes.push(entry);
                    self.cursor = self.cursor + 1;
                    assert(self.outcomes.deep_view() =~= state.outcomes.push(
                        skipped(state.candidate()),
                    ));
                    assert(self@ == (SessionView {
                        outcomes: state.outcomes.push(skipped(state.candidate())),
                        cursor: state.cursor + 1,
                        ..state
                    }));
                    self.seek()
                } else {
                    self.trial_src = text.clone();
                    self.phase = Phase::Verifying;
                    assert(self@ == (SessionView {
                        phase: Phase::Verifying,
                        trial_src: text@,
                        ..state
                    }));
                    Action::Verify(text)
                }
            },
            (Phase::Verifying, Event::Checked(check)) => {
                let candidate = self.candidates[self.cursor].clone();
                if check.status.success() {
                    let ghost entry = BoundRemovalResultView {
                        candidate: state.candidate(),
                        outcome: BoundRemovalOutcomeView::Removed { check: check@ },
                    };
                    self.outcomes.push(
                        BoundRemovalResult {
                            candidate,
                            outcome: BoundRemovalOutcome::Removed { check },
                        },
                    );
                    assert(self.outcomes.deep_view() =~= state.outcomes.push(entry));
                    self.working = self.trial.clone();
                    self.current_src = self.trial_src.clone();
                    self.current_hash = hash_bytes(self.current_src.as_str());
                    self.cursor = 0;
                    self.refresh();
                    assert(self@ == (SessionView {
                        working: state.trial(),
                        current_src: state.trial_src,
                        bounds: state.bounds.update(0, refreshed(state.bounds[0], state.trial())),
                        cursor: 0,
                        outcomes: state.outcomes.push(entry),
                        ..state
                    }));
                    self.seek()
                } else {
                    let ghost entry = BoundRemovalResultView {
                        candidate: state.candidate(),
                        outcome: BoundRemovalOutcomeView::Retained { check: check@ },
                    };
                    self.outcomes.push(
                        BoundRemovalResult {
                            candidate,
                            outcome: BoundRemovalOutcome::Retained { check },
                        },
                    );
                    assert(self.outcomes.deep_view() =~= state.outcomes.push(entry));
                    self.cursor = self.cursor + 1;
                    self.phase = Phase::Reverting;
                    assert(self@ == (SessionView {
                        cursor: state.cursor + 1,
                        outcomes: state.outcomes.push(entry),
                        phase: Phase::Reverting,
                        ..state
                    }));
                    Action::Revert(self.current_src.clone())
                }
            },
            (Phase::Verifying, Event::Aborted) => {
                self.phase = Phase::Halting;
                Action::Revert(self.current_src.clone())
            },
            (Phase::Reverting, Event::Reverted) => self.seek(),
            (Phase::Halting, Event::Reverted) => {
                self.phase = Phase::Finished;
                Action::Finish
            },
            _ => Action::Refused,
        }
    }
}

/// The items that a run on `target_type` processes, in the order in which it
/// processes them. A run on every kind goes through functions, `impl`
/// blocks, traits, trait methods, `impl` methods, enums and structs.
pub open spec fn selected(items: ItemBoundsView, target_type: TargetType) -> Seq<DeclBoundsView> {
    match target_type {
        TargetType::All => items.fns + items.impls + items.traits + items.trait_methods
            + items.impl_methods + items.enums + items.structs,
        TargetType::Function => items.fns,
        TargetType::Impl => items.impls,
        TargetType::Trait => items.traits,
        TargetType::TraitMethod => items.trait_methods,
        TargetType::ImplMethod => items.impl_methods,
        TargetType::Enum => items.enums,
        TargetType::Struct => items.structs,
    }
}

/// Pruning the bounds of the items of a file.
pub struct PruneItem;

impl PruneItem {
    /// The items that a run on `target_type` processes, in their order.
    pub fn select(items: ItemBounds, target_type: TargetType) -> (bounds: Vec<DeclBounds>)
        ensures
            bounds.deep_view() == selected(items@, target_type),
    {
        let mut items = items;
        let ghost all = items@;
        match target_type {
            TargetType::All => {
                let mut bounds = items.fns;
                bounds.append(&mut items.impls);
                bounds.append(&mut items.traits);
                bounds.append(&mut items.trait_methods);
                bounds.append(&mut items.impl_methods);
                bounds.append(&mut items.enums);
                bounds.append(&mut items.structs);
                assert(bounds.deep_view() =~= selected(all, target_type));
                bounds
            },
            TargetType::Function => items.fns,
            TargetType::Impl => items.impls,
            TargetType::Trait => items.traits,
            TargetType::TraitMethod => items.trait_methods,
            TargetType::ImplMethod => items.impl_methods,
            TargetType::Enum => items.enums,
            TargetType::Struct => items.structs,
        }
    }

    /// Begins a run over `bounds`, the items of the file whose tree is
    /// `syntax` and whose text on disk is `source`. The run is carried on with
    /// [`PruneSession::step`].
    pub fn prune_bounds(syntax: SyntaxTree, bounds: Vec<DeclBounds>, source: String) -> (session:
        PruneSession)
        ensures
            session.wf(),
            session@.wf(),
            session@.working == syntax@,
            session@.current_src == source@,
            session@.bounds == bounds.deep_view(),
            session@.cursor == 0,
            session@.outcomes.len() == 0,
            session@.phase == Phase::Pending,
    {
        PruneSession::new(syntax, bounds, source)
    }
}

} // verus!
