//! Finding the one declaration that an edit is aimed at, and taking one
//! bound out of it.

use crate::dynamic_analysis::common::{BoundCandidate, BoundSiteView, HasGenerics, Remove};
use crate::syntax::{
    clone_opt_text, encloses, lemma_subtree_end, lemma_subtree_nested, subtree_end, NodeView,
    Span, SyntaxTree,
};
use vstd::prelude::*;

verus! {

/// Whether an edit can reach the declaration at `i`: every declaration that
/// encloses it is of a kind among whose nested declarations an edit looks.
pub open spec fn reachable(nodes: Seq<NodeView>, i: int) -> bool {
    forall|j: int| #[trigger] encloses(nodes, j, i) ==> nodes[j].kind.is_searched()
}

/// Whether an expected name lets a declaration's name pass: they differ only
/// where both are given and are not the same.
pub open spec fn names_agree(want: Option<Seq<char>>, got: Option<Seq<char>>) -> bool {
    want is Some && got is Some ==> want == got
}

/// Whether the declaration at `i` is one that an edit aimed at `anchor` and
/// `ident` may change: it can be reached, it is of a kind that carries
/// generics, its identifying token is the one aimed at, and its name, where
/// both have one, is the expected one.
pub open spec fn is_target(
    nodes: Seq<NodeView>,
    i: int,
    anchor: Span,
    ident: Option<Seq<char>>,
) -> bool {
    &&& 0 <= i < nodes.len()
    &&& reachable(nodes, i)
    &&& nodes[i].kind.is_editable()
    &&& nodes[i].anchor.matches(anchor)
    &&& names_agree(ident, nodes[i].ident)
}

/// Whether the declaration at `i` is the first, in source order, that an
/// edit aimed at `anchor` and `ident` may change.
pub open spec fn is_first_target(
    nodes: Seq<NodeView>,
    i: int,
    anchor: Span,
    ident: Option<Seq<char>>,
) -> bool {
    &&& is_target(nodes, i, anchor, ident)
    &&& forall|j: int| 0 <= j < i ==> !is_target(nodes, j, anchor, ident)
}

/// The declaration that an edit aimed at `anchor` and `ident` changes: the
/// first that may be changed, if there is any.
pub open spec fn first_target(nodes: Seq<NodeView>, anchor: Span, ident: Option<Seq<char>>) -> Option<
    int,
> {
    if exists|i: int| is_first_target(nodes, i, anchor, ident) {
        Some(choose|i: int| is_first_target(nodes, i, anchor, ident))
    } else {
        None
    }
}

/// Whether an edit aimed at `anchor` and `ident` removes a bound: it finds
/// its declaration, and the declaration has the bound that `site` points at.
pub open spec fn edit_hits(
    nodes: Seq<NodeView>,
    anchor: Span,
    ident: Option<Seq<char>>,
    site: BoundSiteView,
) -> bool {
    first_target(nodes, anchor, ident) matches Some(t) && nodes[t].generics.has_site(site)
}

/// The file after an edit aimed at `anchor` and `ident`: the aimed-at
/// declaration has lost the bound that `site` points at, and nothing else
/// has changed. Without such a declaration or such a bound the file is as it
/// was.
pub open spec fn edited(
    nodes: Seq<NodeView>,
    anchor: Span,
    ident: Option<Seq<char>>,
    site: BoundSiteView,
) -> Seq<NodeView> {
    match first_target(nodes, anchor, ident) {
        Some(t) => nodes.update(
            t,
            NodeView { generics: nodes[t].generics.without_site(site), ..nodes[t] },
        ),
        None => nodes,
    }
}

/// There is at most one first target.
pub proof fn lemma_first_target_is(
    nodes: Seq<NodeView>,
    i: int,
    anchor: Span,
    ident: Option<Seq<char>>,
)
    requires
        is_first_target(nodes, i, anchor, ident),
    ensures
        first_target(nodes, anchor, ident) == Some(i),
{
    let chosen = choose|k: int| is_first_target(nodes, k, anchor, ident);
    assert(is_first_target(nodes, chosen, anchor, ident));
    if chosen < i {
        assert(!is_target(nodes, chosen, anchor, ident));
    }
    if i < chosen {
        assert(!is_target(nodes, i, anchor, ident));
    }
}

/// Without a target there is no first target.
pub proof fn lemma_no_target(nodes: Seq<NodeView>, anchor: Span, ident: Option<Seq<char>>)
    requires
        forall|i: int| 0 <= i < nodes.len() ==> !is_target(nodes, i, anchor, ident),
    ensures
        first_target(nodes, anchor, ident) is None,
{
    if exists|i: int| is_first_target(nodes, i, anchor, ident) {
        let i = choose|i: int| is_first_target(nodes, i, anchor, ident);
        assert(is_target(nodes, i, anchor, ident));
        assert(false);
    }
}

/// Where an edit can reach a declaration among whose nested declarations it
/// looks, it can reach the declaration that follows.
pub proof fn lemma_reach_next(nodes: Seq<NodeView>, i: int)
    requires
        0 <= i,
        i + 1 < nodes.len(),
        reachable(nodes, i),
        nodes[i].kind.is_searched(),
    ensures
        reachable(nodes, i + 1),
{
    assert forall|j: int| #[trigger] encloses(nodes, j, i + 1) implies nodes[j].kind.is_searched() by {
        if j != i {
            assert(encloses(nodes, j, i));
        }
    }
}

/// Where an edit can reach a declaration, it can reach the one that follows
/// all that is nested in it.
pub proof fn lemma_reach_past(nodes: Seq<NodeView>, i: int)
    requires
        0 <= i < nodes.len(),
        reachable(nodes, i),
        subtree_end(nodes, i) < nodes.len(),
    ensures
        reachable(nodes, subtree_end(nodes, i)),
{
    let end = subtree_end(nodes, i);
    lemma_subtree_end(nodes, i);
    assert forall|j: int| #[trigger] encloses(nodes, j, end) implies nodes[j].kind.is_searched() by {
        if j < i {
            assert(encloses(nodes, j, i));
        } else if j > i {
            assert(encloses(nodes, i, j));
            lemma_subtree_nested(nodes, i, j);
        }
    }
}

/// Looks through a file for the declaration with a given identifying token
/// and takes one bound out of it.
pub struct BoundEditor<'a> {
    target_ident: Option<&'a String>,
    target_anchor: Span,
    candidate: &'a BoundCandidate,
    modified: bool,
}

impl<'a> BoundEditor<'a> {
    /// The name that the aimed-at declaration is expected to have.
    pub closed spec fn target_ident(&self) -> Option<Seq<char>> {
        self.target_ident.deep_view()
    }

    /// The identifying token of the aimed-at declaration.
    pub closed spec fn target_anchor(&self) -> Span {
        self.target_anchor
    }

    /// The bound to remove.
    pub closed spec fn candidate(&self) -> crate::dynamic_analysis::common::BoundCandidateView {
        self.candidate@
    }

    /// Whether a bound was removed.
    pub closed spec fn was_modified(&self) -> bool {
        self.modified
    }

    /// An editor that has not changed anything yet.
    pub fn new(
        target_ident: Option<&'a String>,
        target_anchor: Span,
        candidate: &'a BoundCandidate,
    ) -> (editor: Self)
        ensures
            editor.target_ident() == target_ident.deep_view(),
            editor.target_anchor() == target_anchor,
            editor.candidate() == candidate@,
            !editor.was_modified(),
    {
        BoundEditor { target_ident, target_anchor, candidate, modified: false }
    }

    /// Whether the editor has removed a bound.
    pub fn modified(&self) -> (modified: bool)
        ensures
            modified == self.was_modified(),
    {
        self.modified
    }

    /// Whether two spans name the same token: by their bytes, or else by
    /// their lines and columns.
    pub fn spans_equal(&self, span1: Span, span2: Span) -> (equal: bool)
        ensures
            equal == span1.matches(span2),
    {
        spans_match(span1, span2)
    }

    /// Tries the edit on one declaration, and says whether the declaration is
    /// the one aimed at. An editor that has already removed a bound passes
    /// every declaration by. Otherwise the declaration is the one aimed at if
    /// its identifying token is at `node_anchor` and its name passes; the
    /// bound is then removed from it, if it has that bound.
    pub fn try_edit_node<N: HasGenerics>(
        &mut self,
        node: &mut N,
        node_ident: Option<&String>,
        node_anchor: Span,
    ) -> (aimed_at: bool)
        ensures
            aimed_at == (!old(self).was_modified() && node_anchor.matches(old(self).target_anchor())
                && names_agree(old(self).target_ident(), node_ident.deep_view())),
            final(self).target_ident() == old(self).target_ident(),
            final(self).target_anchor() == old(self).target_anchor(),
            final(self).candidate() == old(self).candidate(),
            final(self).was_modified() == (old(self).was_modified() || (aimed_at && old(
                node,
            ).generics().has_site(old(self).candidate().site))),
            !aimed_at ==> *final(node) == *old(node),
            aimed_at ==> old(node).same_but_generics(final(node)),
            aimed_at ==> final(node).generics() == old(node).generics().without_site(
                old(self).candidate().site,
            ),
    {
        if self.modified {
            return false;
        }
        if !self.spans_equal(node_anchor, self.target_anchor) {
            return false;
        }
        if !ident_passes(self.target_ident, node_ident) {
            return false;
        }
        self.modified = Remove::apply_to_item_with_generics(node, self.candidate);
        true
    }

    /// Finds the declaration of `file` that an edit aimed at `anchor` and
    /// `ident` changes: the first, in source order, that can be reached, is of
    /// a kind that carries generics, has its identifying token at `anchor`,
    /// and whose name passes. Methods are reached through their trait or
    /// `impl` block, and the items of a module through the module; what is
    /// nested in a function, a method, a struct or an enum is passed by.
    pub fn locate(file: &SyntaxTree, anchor: Span, ident: Option<&String>) -> (found: Option<usize>)
        ensures
            match found {
                Some(t) => t < file@.len() && first_target(file@, anchor, ident.deep_view())
                    == Some(t as int),
                None => first_target(file@, anchor, ident.deep_view()) is None,
            },
    {
        let ghost nodes = file@;
        let ghost name = ident.deep_view();
        let count: usize = file.nodes.len();
        let mut i: usize = 0;
        assert(nodes.len() == count);
        while i < count
            invariant
                count == file.nodes.len(),
                i <= count,
                file@ == nodes,
                nodes.len() == count,
                name == ident.deep_view(),
                forall|j: int| 0 <= j < i ==> !is_target(nodes, j, anchor, name),
                i < count ==> reachable(nodes, i as int),
            decreases count - i,
        {
            let node = &file.nodes[i];
            if node.kind.is_editable() && spans_match(node.anchor, anchor) && ident_passes(
                ident,
                node.ident.as_ref(),
            ) {
                proof {
                    assert(is_first_target(nodes, i as int, anchor, name));
                    lemma_first_target_is(nodes, i as int, anchor, name);
                }
                return Some(i);
            }
            proof {
                lemma_subtree_end(nodes, i as int);
            }
            if node.kind.is_searched() {
                proof {
                    if i + 1 < count {
                        lemma_reach_next(nodes, i as int);
                    }
                }
                i = i + 1;
            } else {
                let end: usize = file.subtree_end(i);
                proof {
                    assert forall|j: int| i < j < end implies !is_target(nodes, j, anchor, name) by {
                        assert(encloses(nodes, i as int, j));
                    }
                    if end < count {
                        lemma_reach_past(nodes, i as int);
                    }
                }
                i = end;
            }
        }
        proof {
            lemma_no_target(nodes, anchor, name);
        }
        None
    }

    /// Applies the edit to the declaration of `file` that it is aimed at. At
    /// most one declaration changes, and at most by one bound. An editor that
    /// has already removed a bound changes nothing.
    pub fn visit_file_mut(&mut self, file: &mut SyntaxTree)
        ensures
            final(self).target_ident() == old(self).target_ident(),
            final(self).target_anchor() == old(self).target_anchor(),
            final(self).candidate() == old(self).candidate(),
            old(self).was_modified() ==> final(self).was_modified() && final(file)@ == old(file)@,
            !old(self).was_modified() ==> final(self).was_modified() == edit_hits(
                old(file)@,
                old(self).target_anchor(),
                old(self).target_ident(),
                old(self).candidate().site,
            ),
            !old(self).was_modified() ==> final(file)@ == edited(
                old(file)@,
                old(self).target_anchor(),
                old(self).target_ident(),
                old(self).candidate().site,
            ),
    {
        if self.modified {
            return ;
        }
        let ghost nodes = file@;
        if let Some(t) = Self::locate(file, self.target_anchor, self.target_ident) {
            assert(file@.len() == file.nodes.len());
            let id = clone_opt_text(&file.nodes[t].ident);
            let at = file.nodes[t].anchor;
            let aimed_at = self.try_edit_node(&mut file.nodes[t], id.as_ref(), at);
            assert(aimed_at);
            assert(file@ =~= edited(
                nodes,
                self.target_anchor(),
                self.target_ident(),
                self.candidate().site,
            ));
        }
    }
}

/// Whether two spans name the same token: by their bytes, or else by their
/// lines and columns.
fn spans_match(span1: Span, span2: Span) -> (equal: bool)
    ensures
        equal == span1.matches(span2),
{
    if span1.lo == span2.lo && span1.hi == span2.hi {
        return true;
    }
    span1.start_line == span2.start_line && span1.start_column == span2.start_column
        && span1.end_line == span2.end_line && span1.end_column == span2.end_column
}

/// Whether the expected name `want` lets the name `got` pass.
fn ident_passes(want: Option<&String>, got: Option<&String>) -> (passes: bool)
    ensures
        passes == names_agree(want.deep_view(), got.deep_view()),
{
    match (want, got) {
        (Some(want), Some(got)) => *want == *got,
        _ => true,
    }
}

} // verus!
