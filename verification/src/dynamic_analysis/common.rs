//! Coordinates of removable bounds, and the removal of one bound from a
//! declaration's generics.

use crate::analysis::{
    DeclBounds, DeclBoundsView, TypeParamBounds, TypeParamBoundsView, WhereTypeBounds,
    WhereTypeBoundsView,
};
use crate::config::CargoCheckConfig;
use crate::syntax::{
    GenericParam, GenericParamView, Generics, GenericsView, Node, NodeView, WherePredicate,
    WherePredicateView,
};
use vstd::prelude::*;
use vstd::string::StringExecFns;

verus! {

/// The coordinate of one removable bound: which list it stands in, and at
/// which position. A coordinate holds for the generics it was taken from;
/// once a bound at or before it in the same list is removed, it has to be
/// taken anew.
#[derive(Debug, PartialEq, Eq)]
pub enum BoundSite {
    /// A bound on a type parameter, like `Clone` in `fn f<T: Clone>()`.
    TypeParam {
        /// The type parameter's name.
        ident: String,
        /// The parameter's index among the generic parameters.
        param_index: usize,
        /// The bound's index among the parameter's bounds.
        bound_index: usize,
    },
    /// A bound in a `where` clause, like `Debug` in `where Vec<T>: Debug`.
    WhereClause {
        /// The bounded type.
        ty: String,
        /// The predicate's index among the predicates of the clause.
        pred_index: usize,
        /// The bound's index among the predicate's bounds.
        bound_index: usize,
    },
}

/// The value of a [`BoundSite`].
pub enum BoundSiteView {
    TypeParam { ident: Seq<char>, param_index: nat, bound_index: nat },
    WhereClause { ty: Seq<char>, pred_index: nat, bound_index: nat },
}

impl DeepView for BoundSite {
    type V = BoundSiteView;

    open spec fn deep_view(&self) -> BoundSiteView {
        match self {
            BoundSite::TypeParam { ident, param_index, bound_index } => BoundSiteView::TypeParam {
                ident: ident@,
                param_index: *param_index as nat,
                bound_index: *bound_index as nat,
            },
            BoundSite::WhereClause { ty, pred_index, bound_index } => BoundSiteView::WhereClause {
                ty: ty@,
                pred_index: *pred_index as nat,
                bound_index: *bound_index as nat,
            },
        }
    }
}

impl View for BoundSite {
    type V = BoundSiteView;

    open spec fn view(&self) -> BoundSiteView {
        self.deep_view()
    }
}

impl Clone for BoundSite {
    fn clone(&self) -> (copy: Self)
        ensures
            copy@ == self@,
    {
        match self {
            BoundSite::TypeParam { ident, param_index, bound_index } => BoundSite::TypeParam {
                ident: ident.clone(),
                param_index: *param_index,
                bound_index: *bound_index,
            },
            BoundSite::WhereClause { ty, pred_index, bound_index } => BoundSite::WhereClause {
                ty: ty.clone(),
                pred_index: *pred_index,
                bound_index: *bound_index,
            },
        }
    }
}

/// A bound that may be removable: its coordinate, and the bound as written.
#[derive(Debug, PartialEq, Eq)]
pub struct BoundCandidate {
    /// Where the bound stands.
    pub site: BoundSite,
    /// The bound itself, such as `Clone`, `?Sized` or `'a`.
    pub bound: String,
}

/// The value of a [`BoundCandidate`].
pub struct BoundCandidateView {
    pub site: BoundSiteView,
    pub bound: Seq<char>,
}

impl DeepView for BoundCandidate {
    type V = BoundCandidateView;

    open spec fn deep_view(&self) -> BoundCandidateView {
        BoundCandidateView { site: self.site@, bound: self.bound@ }
    }
}

impl View for BoundCandidate {
    type V = BoundCandidateView;

    open spec fn view(&self) -> BoundCandidateView {
        self.deep_view()
    }
}

impl Clone for BoundCandidate {
    fn clone(&self) -> (copy: Self)
        ensures
            copy@ == self@,
    {
        BoundCandidate { site: self.site.clone(), bound: self.bound.clone() }
    }
}

/// The candidates of one bounded type parameter: one for each of its bounds,
/// by ascending index.
pub open spec fn param_candidates(tp: TypeParamBoundsView) -> Seq<BoundCandidateView> {
    Seq::new(
        tp.bounds.len(),
        |j: int|
            BoundCandidateView {
                site: BoundSiteView::TypeParam {
                    ident: tp.ident,
                    param_index: tp.param_index,
                    bound_index: j as nat,
                },
                bound: tp.bounds[j],
            },
    )
}

/// The candidates of one bounded `where` predicate: one for each of its
/// bounds, by ascending index.
pub open spec fn where_candidates(wb: WhereTypeBoundsView) -> Seq<BoundCandidateView> {
    Seq::new(
        wb.bounds.len(),
        |j: int|
            BoundCandidateView {
                site: BoundSiteView::WhereClause {
                    ty: wb.ty,
                    pred_index: wb.pred_index,
                    bound_index: j as nat,
                },
                bound: wb.bounds[j],
            },
    )
}

/// The candidates of the first `n` of the bounded type parameters `tps`.
pub open spec fn param_candidates_upto(tps: Seq<TypeParamBoundsView>, n: int) -> Seq<
    BoundCandidateView,
>
    decreases n,
{
    if n <= 0 {
        Seq::empty()
    } else {
        param_candidates_upto(tps, n - 1) + param_candidates(tps[n - 1])
    }
}

/// The candidates of the first `n` of the bounded `where` predicates `wbs`.
pub open spec fn where_candidates_upto(wbs: Seq<WhereTypeBoundsView>, n: int) -> Seq<
    BoundCandidateView,
>
    decreases n,
{
    if n <= 0 {
        Seq::empty()
    } else {
        where_candidates_upto(wbs, n - 1) + where_candidates(wbs[n - 1])
    }
}

/// All candidates of a declaration: those on its type parameters, then those
/// in its `where` clause, each group in source order.
pub open spec fn candidates_of(bounds: DeclBoundsView) -> Seq<BoundCandidateView> {
    param_candidates_upto(bounds.type_params, bounds.type_params.len() as int)
        + where_candidates_upto(bounds.where_preds, bounds.where_preds.len() as int)
}

impl BoundCandidate {
    /// Appends the candidates of the bounded type parameter `tp` to `out`.
    pub fn push_type_param_candidates(out: &mut Vec<BoundCandidate>, tp: &TypeParamBounds)
        ensures
            final(out).deep_view() == old(out).deep_view() + param_candidates(tp@),
    {
        let ghost before = out.deep_view();
        let count: usize = tp.bounds.len();
        let mut bound_index: usize = 0;
        assert(out.deep_view() =~= before + param_candidates(tp@).take(0));
        while bound_index < count
            invariant
                count == tp.bounds.len(),
                bound_index <= count,
                out.deep_view() == before + param_candidates(tp@).take(bound_index as int),
            decreases count - bound_index,
        {
            let candidate = BoundCandidate {
                site: BoundSite::TypeParam {
                    ident: tp.ident.clone(),
                    param_index: tp.param_index,
                    bound_index,
                },
                bound: tp.bounds[bound_index].clone(),
            };
            let ghost gathered = out.deep_view();
            assert(candidate@ == param_candidates(tp@)[bound_index as int]);
            out.push(candidate);
            assert(out.deep_view() =~= gathered.push(candidate@));
            bound_index = bound_index + 1;
            assert(out.deep_view() =~= before + param_candidates(tp@).take(bound_index as int));
        }
        assert(param_candidates(tp@).take(count as int) =~= param_candidates(tp@));
    }

    /// Appends the candidates of the bounded `where` predicate `wb` to `out`.
    pub fn push_where_candidates(out: &mut Vec<BoundCandidate>, wb: &WhereTypeBounds)
        ensures
            final(out).deep_view() == old(out).deep_view() + where_candidates(wb@),
    {
        let ghost before = out.deep_view();
        let count: usize = wb.bounds.len();
        let mut bound_index: usize = 0;
        assert(out.deep_view() =~= before + where_candidates(wb@).take(0));
        while bound_index < count
            invariant
                count == wb.bounds.len(),
                bound_index <= count,
                out.deep_view() == before + where_candidates(wb@).take(bound_index as int),
            decreases count - bound_index,
        {
            let candidate = BoundCandidate {
                site: BoundSite::WhereClause {
                    ty: wb.ty.clone(),
                    pred_index: wb.pred_index,
                    bound_index,
                },
                bound: wb.bounds[bound_index].clone(),
            };
            let ghost gathered = out.deep_view();
            assert(candidate@ == where_candidates(wb@)[bound_index as int]);
            out.push(candidate);
            assert(out.deep_view() =~= gathered.push(candidate@));
            bound_index = bound_index + 1;
            assert(out.deep_view() =~= before + where_candidates(wb@).take(bound_index as int));
        }
        assert(where_candidates(wb@).take(count as int) =~= where_candidates(wb@));
    }

    /// The candidates of a declaration, in the order in which they are tried:
    /// the bounds on its type parameters before those in its `where` clause,
    /// and within each group by ascending position.
    pub fn collect_candidates(bounds: &DeclBounds) -> (out: Vec<BoundCandidate>)
        ensures
            out.deep_view() == candidates_of(bounds@),
    {
        let mut out: Vec<BoundCandidate> = Vec::new();
        let params: usize = bounds.type_params.len();
        let mut i: usize = 0;
        assert(out.deep_view() =~= param_candidates_upto(bounds@.type_params, 0));
        while i < params
            invariant
                params == bounds.type_params.len(),
                i <= params,
                out.deep_view() == param_candidates_upto(bounds@.type_params, i as int),
            decreases params - i,
        {
            Self::push_type_param_candidates(&mut out, &bounds.type_params[i]);
            i = i + 1;
        }
        let ghost first = out.deep_view();
        let preds: usize = bounds.where_preds.len();
        let mut k: usize = 0;
        assert(out.deep_view() =~= first + where_candidates_upto(bounds@.where_preds, 0));
        while k < preds
            invariant
                preds == bounds.where_preds.len(),
                k <= preds,
                out.deep_view() == first + where_candidates_upto(bounds@.where_preds, k as int),
            decreases preds - k,
        {
            Self::push_where_candidates(&mut out, &bounds.where_preds[k]);
            k = k + 1;
            assert(out.deep_view() =~= first + where_candidates_upto(
                bounds@.where_preds,
                k as int,
            ));
        }
        out
    }
}

impl GenericsView {
    /// Whether parameter `k` is a type parameter that has a bound at `j`.
    pub open spec fn has_param_bound(self, k: int, j: int) -> bool {
        &&& 0 <= k < self.params.len()
        &&& self.params[k] is Type
        &&& 0 <= j < self.params[k]->Type_bounds.len()
    }

    /// These generics with bound `j` of type parameter `k` taken out. The
    /// bounds before `j` stay, those after it move down by one, and a
    /// parameter left without bounds loses its `:`.
    pub open spec fn without_param_bound(self, k: int, j: int) -> GenericsView
        recommends
            self.has_param_bound(k, j),
    {
        let rest = self.params[k]->Type_bounds.remove(j);
        let param = GenericParamView::Type {
            ident: self.params[k]->ident,
            colon: self.params[k]->colon && rest.len() > 0,
            bounds: rest,
        };
        GenericsView { params: self.params.update(k, param), where_clause: self.where_clause }
    }

    /// Whether there is a `where` clause whose predicate `p` is on a type and
    /// has a bound at `j`.
    pub open spec fn has_where_bound(self, p: int, j: int) -> bool {
        &&& self.where_clause is Some
        &&& 0 <= p < self.where_clause->0.len()
        &&& self.where_clause->0[p] is Type
        &&& 0 <= j < self.where_clause->0[p]->Type_bounds.len()
    }

    /// These generics with bound `j` of `where` predicate `p` taken out. A
    /// predicate left without bounds is dropped, and a clause left without
    /// predicates is dropped with it.
    pub open spec fn without_where_bound(self, p: int, j: int) -> GenericsView
        recommends
            self.has_where_bound(p, j),
    {
        let predicates = self.where_clause->0;
        let rest = predicates[p]->Type_bounds.remove(j);
        let clause = if rest.len() > 0 {
            Some(
                predicates.update(
                    p,
                    WherePredicateView::Type { bounded_ty: predicates[p]->bounded_ty, bounds: rest },
                ),
            )
        } else if predicates.len() > 1 {
            Some(predicates.remove(p))
        } else {
            None
        };
        GenericsView { params: self.params, where_clause: clause }
    }
}

impl GenericsView {
    /// Whether the bound that `site` points at exists in these generics.
    pub open spec fn has_site(self, site: BoundSiteView) -> bool {
        match site {
            BoundSiteView::TypeParam { param_index, bound_index, .. } => self.has_param_bound(
                param_index as int,
                bound_index as int,
            ),
            BoundSiteView::WhereClause { pred_index, bound_index, .. } => self.has_where_bound(
                pred_index as int,
                bound_index as int,
            ),
        }
    }

    /// These generics with the bound that `site` points at taken out; the
    /// generics themselves if there is no such bound.
    pub open spec fn without_site(self, site: BoundSiteView) -> GenericsView {
        if !self.has_site(site) {
            self
        } else {
            match site {
                BoundSiteView::TypeParam {
                    param_index,
                    bound_index,
                    ..
                } => self.without_param_bound(param_index as int, bound_index as int),
                BoundSiteView::WhereClause {
                    pred_index,
                    bound_index,
                    ..
                } => self.without_where_bound(pred_index as int, bound_index as int),
            }
        }
    }
}

/// Removing the bound at `j` from the type parameter at `k` takes out that
/// bound and no other: the bounds before `j` stay where they are, those after
/// it move down by one position, and every other parameter, and the `where`
/// clause, are what they were.
pub proof fn lemma_param_bound_removal(generics: GenericsView, k: int, j: int)
    requires
        generics.has_param_bound(k, j),
    ensures
        ({
            let after = generics.without_param_bound(k, j);
            let old_bounds = generics.params[k]->Type_bounds;
            let new_bounds = after.params[k]->Type_bounds;
            &&& after.params.len() == generics.params.len()
            &&& after.params[k] is Type
            &&& after.params[k]->ident == generics.params[k]->ident
            &&& new_bounds.len() == old_bounds.len() - 1
            &&& forall|i: int| 0 <= i < j ==> new_bounds[i] == old_bounds[i]
            &&& forall|i: int| j <= i < new_bounds.len() ==> new_bounds[i] == old_bounds[i + 1]
            &&& after.params[k]->colon == (generics.params[k]->colon && new_bounds.len() > 0)
            &&& forall|p: int|
                0 <= p < generics.params.len() && p != k ==> after.params[p] == generics.params[p]
            &&& after.where_clause == generics.where_clause
        }),
{
}

/// Removing the bound at `j` from the `where` predicate at `p` takes out that
/// bound and no other. If other bounds are left on the predicate, they keep
/// their order and the other predicates are what they were. If none is left,
/// the predicate is dropped and the others keep their order; and if it was
/// the only predicate, the clause is dropped. The generic parameters are what
/// they were.
pub proof fn lemma_where_bound_removal(generics: GenericsView, p: int, j: int)
    requires
        generics.has_where_bound(p, j),
    ensures
        ({
            let after = generics.without_where_bound(p, j);
            let old_preds = generics.where_clause->0;
            let old_bounds = old_preds[p]->Type_bounds;
            &&& after.params == generics.params
            &&& old_bounds.len() > 1 ==> {
                let new_preds = after.where_clause->0;
                let new_bounds = new_preds[p]->Type_bounds;
                &&& after.where_clause is Some
                &&& new_preds.len() == old_preds.len()
                &&& new_preds[p] is Type
                &&& new_preds[p]->bounded_ty == old_preds[p]->bounded_ty
                &&& new_bounds.len() == old_bounds.len() - 1
                &&& forall|i: int| 0 <= i < j ==> new_bounds[i] == old_bounds[i]
                &&& forall|i: int| j <= i < new_bounds.len() ==> new_bounds[i] == old_bounds[i + 1]
                &&& forall|q: int| 0 <= q < old_preds.len() && q != p ==> new_preds[q] == old_preds[q]
            }
            &&& old_bounds.len() == 1 && old_preds.len() > 1 ==> {
                let new_preds = after.where_clause->0;
                &&& after.where_clause is Some
                &&& new_preds.len() == old_preds.len() - 1
                &&& forall|q: int| 0 <= q < p ==> new_preds[q] == old_preds[q]
                &&& forall|q: int| p <= q < new_preds.len() ==> new_preds[q] == old_preds[q + 1]
            }
            &&& old_bounds.len() == 1 && old_preds.len() == 1 ==> after.where_clause is None
        }),
{
}

/// A declaration that carries generics.
pub trait HasGenerics {
    /// The declaration's generics.
    spec fn generics(&self) -> GenericsView;

    /// Whether `other` is this declaration with, at most, other generics.
    spec fn same_but_generics(&self, other: &Self) -> bool;

    /// The declaration's generics, to be changed in place.
    fn generics_mut(&mut self) -> (generics: &mut Generics)
        ensures
            generics@ == old(self).generics(),
            final(self).generics() == final(generics)@,
            old(self).same_but_generics(final(self)),
    ;
}

impl HasGenerics for Node {
    open spec fn generics(&self) -> GenericsView {
        self@.generics
    }

    open spec fn same_but_generics(&self, other: &Self) -> bool {
        other@ == (NodeView { generics: other@.generics, ..self@ })
    }

    fn generics_mut(&mut self) -> (generics: &mut Generics) {
        &mut self.generics
    }
}

/// Removes single bounds from a declaration's generics, in place.
pub struct Remove;

impl Remove {
    /// Removes from `item` the bound that the candidate's coordinate points
    /// at, and says whether there was such a bound. A parameter left without
    /// bounds loses its `:`, a predicate left without bounds is dropped, and
    /// so is a `where` clause left without predicates. Where the coordinate
    /// points at nothing, `item` stays as it was.
    pub fn apply_to_item_with_generics<T: HasGenerics>(
        item: &mut T,
        candidate: &BoundCandidate,
    ) -> (removed: bool)
        ensures
            removed == old(item).generics().has_site(candidate@.site),
            final(item).generics() == old(item).generics().without_site(candidate@.site),
            old(item).same_but_generics(final(item)),
    {
        match &candidate.site {
            BoundSite::TypeParam { param_index, bound_index, .. } => {
                Self::remove_tp_bound_by_index(item.generics_mut(), *param_index, *bound_index)
            },
            BoundSite::WhereClause { pred_index, bound_index, .. } => {
                Self::remove_where_bound_by_index(item.generics_mut(), *pred_index, *bound_index)
            },
        }
    }

    /// Takes the element at `idx` out of `list` and says whether there was
    /// one. The other elements keep their order.
    pub fn remove_punctuated_at<T>(list: &mut Vec<T>, idx: usize) -> (removed: bool)
        ensures
            removed == (idx < old(list)@.len()),
            removed ==> final(list)@ == old(list)@.remove(idx as int),
            !removed ==> final(list)@ == old(list)@,
    {
        if idx >= list.len() {
            return false;
        }
        list.remove(idx);
        true
    }

    /// Drops the predicate at `idx`; a list that has no such predicate comes
    /// back as it was.
    pub fn drop_predicate_at(preds: Vec<WherePredicate>, idx: usize) -> (kept: Vec<WherePredicate>)
        ensures
            kept.deep_view() == if idx < preds.deep_view().len() {
                preds.deep_view().remove(idx as int)
            } else {
                preds.deep_view()
            },
    {
        let mut kept = preds;
        if idx < kept.len() {
            kept.remove(idx);
            assert(kept.deep_view() =~= preds.deep_view().remove(idx as int));
        }
        kept
    }

    /// Removes bound `bound_index` of the type parameter at `param_index`, and
    /// says whether there was such a bound. Nothing changes if there was not.
    pub fn remove_tp_bound_by_index(
        generics: &mut Generics,
        param_index: usize,
        bound_index: usize,
    ) -> (removed: bool)
        ensures
            removed == old(generics)@.has_param_bound(param_index as int, bound_index as int),
            removed ==> final(generics)@ == old(generics)@.without_param_bound(
                param_index as int,
                bound_index as int,
            ),
            !removed ==> final(generics)@ == old(generics)@,
    {
        if param_index >= generics.params.len() {
            return false;
        }
        let ghost before = generics@;
        assert(before.params.len() == generics.params@.len());
        let removed = match &mut generics.params[param_index] {
            GenericParam::Type { bounds, colon, .. } => {
                let ghost texts = bounds.deep_view();
                let removed = Self::remove_punctuated_at(bounds, bound_index);
                if removed {
                    assert(bounds.deep_view() =~= texts.remove(bound_index as int));
                    if bounds.is_empty() {
                        *colon = false;
                    }
                } else {
                    assert(bounds.deep_view() =~= texts);
                }
                removed
            },
            GenericParam::Other { .. } => false,
        };
        assert(generics@.params =~= if removed {
            before.without_param_bound(param_index as int, bound_index as int).params
        } else {
            before.params
        });
        removed
    }

    /// Removes bound `bound_index` of the `where` predicate at `pred_index`,
    /// and says whether there was such a bound. Nothing changes if there was
    /// not.
    pub fn remove_where_bound_by_index(
        generics: &mut Generics,
        pred_index: usize,
        bound_index: usize,
    ) -> (removed: bool)
        ensures
            removed == old(generics)@.has_where_bound(pred_index as int, bound_index as int),
            removed ==> final(generics)@ == old(generics)@.without_where_bound(
                pred_index as int,
                bound_index as int,
            ),
            !removed ==> final(generics)@ == old(generics)@,
    {
        let ghost before = generics@;
        let mut predicates = match generics.where_clause.take() {
            Some(predicates) => predicates,
            None => {
                return false;
            },
        };
        let ghost written = predicates.deep_view();
        assert(before.where_clause == Some(written));
        if pred_index >= predicates.len() {
            generics.where_clause = Some(predicates);
            return false;
        }
        let (removed, emptied) = match &mut predicates[pred_index] {
            WherePredicate::Type { bounds, .. } => {
                let ghost texts = bounds.deep_view();
                let removed = Self::remove_punctuated_at(bounds, bound_index);
                assert(bounds.deep_view() =~= if removed {
                    texts.remove(bound_index as int)
                } else {
                    texts
                });
                (removed, removed && bounds.is_empty())
            },
            WherePredicate::Other { .. } => (false, false),
        };
        if emptied {
            let kept = Self::drop_predicate_at(predicates, pred_index);
            assert(kept.deep_view() =~= written.remove(pred_index as int));
            if kept.is_empty() {
                generics.where_clause = None;
            } else {
                generics.where_clause = Some(kept);
            }
        } else {
            assert(predicates.deep_view() =~= if removed {
                before.without_where_bound(pred_index as int, bound_index as int).where_clause->0
            } else {
                written
            });
            generics.where_clause = Some(predicates);
        }
        removed
    }
}

/// How the verifier's process ended.
#[derive(Clone, Copy, Debug, PartialEq, Eq)]
pub struct ExitStatus {
    /// The exit code; `None` where the process was ended by a signal.
    pub code: Option<i32>,
}

impl ExitStatus {
    /// Whether the process ended with exit code 0.
    pub open spec fn spec_success(&self) -> bool {
        self.code == Some(0i32)
    }

    /// Whether the process ended with exit code 0.
    #[verifier::when_used_as_spec(spec_success)]
    pub fn success(&self) -> (ok: bool)
        ensures
            ok == self.spec_success(),
    {
        match self.code {
            Some(code) => code == 0,
            None => false,
        }
    }
}

/// What a run of the verifier gave.
#[derive(Debug, PartialEq, Eq)]
pub struct CommandOutput {
    /// How the process ended.
    pub status: ExitStatus,
    /// What the process wrote to its standard output.
    pub stdout: String,
    /// What the process wrote to its standard error.
    pub stderr: String,
}

/// The value of a [`CommandOutput`].
pub struct CommandOutputView {
    pub status: ExitStatus,
    pub stdout: Seq<char>,
    pub stderr: Seq<char>,
}

impl DeepView for CommandOutput {
    type V = CommandOutputView;

    open spec fn deep_view(&self) -> CommandOutputView {
        CommandOutputView { status: self.status, stdout: self.stdout@, stderr: self.stderr@ }
    }
}

impl View for CommandOutput {
    type V = CommandOutputView;

    open spec fn view(&self) -> CommandOutputView {
        self.deep_view()
    }
}

/// What became of one candidate.
#[derive(Debug, PartialEq, Eq)]
pub enum BoundRemovalOutcome {
    /// The bound was removed: the verifier accepted the file without it.
    Removed {
        /// What the verifier gave.
        check: CommandOutput,
    },
    /// The bound was kept: the verifier rejected the file without it.
    Retained {
        /// What the verifier gave.
        check: CommandOutput,
    },
    /// The bound was not tried: the edit found nothing to remove, or left the
    /// text as it was.
    Skipped,
}

/// The value of a [`BoundRemovalOutcome`].
pub enum BoundRemovalOutcomeView {
    Removed { check: CommandOutputView },
    Retained { check: CommandOutputView },
    Skipped,
}

impl DeepView for BoundRemovalOutcome {
    type V = BoundRemovalOutcomeView;

    open spec fn deep_view(&self) -> BoundRemovalOutcomeView {
        match self {
            BoundRemovalOutcome::Removed { check } => BoundRemovalOutcomeView::Removed {
                check: check@,
            },
            BoundRemovalOutcome::Retained { check } => BoundRemovalOutcomeView::Retained {
                check: check@,
            },
            BoundRemovalOutcome::Skipped => BoundRemovalOutcomeView::Skipped,
        }
    }
}

impl View for BoundRemovalOutcome {
    type V = BoundRemovalOutcomeView;

    open spec fn view(&self) -> BoundRemovalOutcomeView {
        self.deep_view()
    }
}

/// One entry of the ledger of a run: a candidate and what became of it.
#[derive(Debug, PartialEq, Eq)]
pub struct BoundRemovalResult {
    /// The candidate.
    pub candidate: BoundCandidate,
    /// What became of it.
    pub outcome: BoundRemovalOutcome,
}

/// The value of a [`BoundRemovalResult`].
pub struct BoundRemovalResultView {
    pub candidate: BoundCandidateView,
    pub outcome: BoundRemovalOutcomeView,
}

impl DeepView for BoundRemovalResult {
    type V = BoundRemovalResultView;

    open spec fn deep_view(&self) -> BoundRemovalResultView {
        BoundRemovalResultView { candidate: self.candidate@, outcome: self.outcome@ }
    }
}

impl View for BoundRemovalResult {
    type V = BoundRemovalResultView;

    open spec fn view(&self) -> BoundRemovalResultView {
        self.deep_view()
    }
}

/// The verifier command.
pub struct CargoCheck;

impl CargoCheck {
    /// The arguments that the verifier command `cargo` is run with: `check`,
    /// then the configured arguments in their order.
    pub fn cargo_check_args(config: &CargoCheckConfig) -> (args: Vec<String>)
        ensures
            args.deep_view() == seq!["check"@] + config@.args,
    {
        let mut args: Vec<String> = Vec::new();
        args.push(String::from_str("check"));
        let count: usize = config.args.len();
        let mut i: usize = 0;
        assert(args.deep_view() =~= seq!["check"@] + config@.args.take(0));
        while i < count
            invariant
                count == config.args.len(),
                i <= count,
                args.deep_view() == seq!["check"@] + config@.args.take(i as int),
            decreases count - i,
        {
            let ghost gathered = args.deep_view();
            args.push(config.args[i].clone());
            assert(args.deep_view() =~= gathered.push(config.args@[i as int]@));
            i = i + 1;
            assert(args.deep_view() =~= seq!["check"@] + config@.args.take(i as int));
        }
        assert(config@.args.take(count as int) =~= config@.args);
        args
    }

    /// How a path is shown in messages.
    pub fn display(path: &str) -> (shown: String)
        ensures
            shown@ == path@,
    {
        String::from_str(path)
    }
}

} // verus!
