//! A plain-data model of the declarations of one source file.
//!
//! The model keeps what bound pruning reads and changes: which declarations
//! exist, how they nest, where their identifying token sits, and the generic
//! parameters and `where` clauses they carry. Everything else in a file
//! (bodies, fields, attributes) is left to the parser and the printer.
//!
//! A file is a [`SyntaxTree`]: its declarations in source order, each with the
//! depth at which it is nested. The declarations nested in the one at index `i`
//! are the run of elements that follows it with a greater depth.

use vstd::prelude::*;

verus! {

/// The place of one token in the source text.
#[derive(Clone, Copy, Debug, PartialEq, Eq, Structural)]
pub struct Span {
    /// First byte of the token.
    pub lo: usize,
    /// One past the last byte of the token.
    pub hi: usize,
    /// Line of the first character.
    pub start_line: usize,
    /// Column of the first character.
    pub start_column: usize,
    /// Line of the last character.
    pub end_line: usize,
    /// Column one past the last character.
    pub end_column: usize,
}

impl Span {
    /// Whether both spans cover the same bytes.
    pub open spec fn same_bytes(self, other: Span) -> bool {
        self.lo == other.lo && self.hi == other.hi
    }

    /// Whether both spans start and end at the same line and column.
    pub open spec fn same_position(self, other: Span) -> bool {
        &&& self.start_line == other.start_line
        &&& self.start_column == other.start_column
        &&& self.end_line == other.end_line
        &&& self.end_column == other.end_column
    }

    /// Whether the two spans name the same token: the same bytes, or, for
    /// trees that were produced apart from each other, the same lines and
    /// columns.
    pub open spec fn matches(self, other: Span) -> bool {
        self.same_bytes(other) || self.same_position(other)
    }
}

/// One generic parameter of a declaration.
#[derive(Debug, PartialEq, Eq)]
pub enum GenericParam {
    /// A type parameter such as `T: Clone + Send`.
    Type {
        /// The parameter's name.
        ident: String,
        /// Whether a `:` follows the name.
        colon: bool,
        /// The bounds after the `:`, in source order.
        bounds: Vec<String>,
    },
    /// A lifetime or const parameter, as written.
    Other {
        /// The parameter's tokens.
        text: String,
    },
}

/// The value of a [`GenericParam`].
pub enum GenericParamView {
    Type { ident: Seq<char>, colon: bool, bounds: Seq<Seq<char>> },
    Other { text: Seq<char> },
}

impl DeepView for GenericParam {
    type V = GenericParamView;

    open spec fn deep_view(&self) -> GenericParamView {
        match self {
            GenericParam::Type { ident, colon, bounds } => GenericParamView::Type {
                ident: ident@,
                colon: *colon,
                bounds: bounds.deep_view(),
            },
            GenericParam::Other { text } => GenericParamView::Other { text: text@ },
        }
    }
}

impl View for GenericParam {
    type V = GenericParamView;

    open spec fn view(&self) -> GenericParamView {
        self.deep_view()
    }
}

impl Clone for GenericParam {
    fn clone(&self) -> (copy: Self)
        ensures
            copy@ == self@,
    {
        match self {
            GenericParam::Type { ident, colon, bounds } => GenericParam::Type {
                ident: ident.clone(),
                colon: *colon,
                bounds: clone_texts(bounds),
            },
            GenericParam::Other { text } => GenericParam::Other { text: text.clone() },
        }
    }
}

/// One predicate of a `where` clause.
#[derive(Debug, PartialEq, Eq)]
pub enum WherePredicate {
    /// A predicate on a type, such as `Vec<T>: Clone + Send`.
    Type {
        /// The type that is bounded.
        bounded_ty: String,
        /// The bounds after the `:`, in source order.
        bounds: Vec<String>,
    },
    /// A predicate of another shape (on a lifetime), as written.
    Other {
        /// The predicate's tokens.
        text: String,
    },
}

/// The value of a [`WherePredicate`].
pub enum WherePredicateView {
    Type { bounded_ty: Seq<char>, bounds: Seq<Seq<char>> },
    Other { text: Seq<char> },
}

impl DeepView for WherePredicate {
    type V = WherePredicateView;

    open spec fn deep_view(&self) -> WherePredicateView {
        match self {
            WherePredicate::Type { bounded_ty, bounds } => WherePredicateView::Type {
                bounded_ty: bounded_ty@,
                bounds: bounds.deep_view(),
            },
            WherePredicate::Other { text } => WherePredicateView::Other { text: text@ },
        }
    }
}

impl View for WherePredicate {
    type V = WherePredicateView;

    open spec fn view(&self) -> WherePredicateView {
        self.deep_view()
    }
}

impl Clone for WherePredicate {
    fn clone(&self) -> (copy: Self)
        ensures
            copy@ == self@,
    {
        match self {
            WherePredicate::Type { bounded_ty, bounds } => WherePredicate::Type {
                bounded_ty: bounded_ty.clone(),
                bounds: clone_texts(bounds),
            },
            WherePredicate::Other { text } => WherePredicate::Other { text: text.clone() },
        }
    }
}

/// The generic parameters and the `where` clause of one declaration.
#[derive(Debug, PartialEq, Eq)]
pub struct Generics {
    /// The parameters between `<` and `>`, in source order.
    pub params: Vec<GenericParam>,
    /// The predicates of the `where` clause, if the declaration has one.
    pub where_clause: Option<Vec<WherePredicate>>,
}

/// The value of a [`Generics`].
pub struct GenericsView {
    pub params: Seq<GenericParamView>,
    pub where_clause: Option<Seq<WherePredicateView>>,
}

impl DeepView for Generics {
    type V = GenericsView;

    open spec fn deep_view(&self) -> GenericsView {
        GenericsView {
            params: self.params.deep_view(),
            where_clause: self.where_clause.deep_view(),
        }
    }
}

impl View for Generics {
    type V = GenericsView;

    open spec fn view(&self) -> GenericsView {
        self.deep_view()
    }
}

impl Clone for Generics {
    fn clone(&self) -> (copy: Self)
        ensures
            copy@ == self@,
    {
        let params = self.params.clone();
        let where_clause = match &self.where_clause {
            Some(predicates) => {
                let kept = predicates.clone();
                assert(kept.deep_view() =~= predicates.deep_view());
                Some(kept)
            },
            None => None,
        };
        assert(params.deep_view() =~= self.params.deep_view());
        Generics { params, where_clause }
    }
}

impl Generics {
    /// Generics with no parameter and no `where` clause.
    pub fn new() -> (empty: Self)
        ensures
            empty@.params.len() == 0,
            empty@.where_clause is None,
    {
        Generics { params: Vec::new(), where_clause: None }
    }
}

/// What sort of declaration a [`Node`] stands for.
#[derive(Clone, Copy, Debug, PartialEq, Eq, Structural)]
pub enum NodeKind {
    /// A free function.
    Function,
    /// A struct.
    Struct,
    /// An enum.
    Enum,
    /// A trait.
    Trait,
    /// An `impl` block, inherent or of a trait.
    Impl,
    /// A method declared in a trait.
    TraitMethod,
    /// A method defined in an `impl` block.
    ImplMethod,
    /// A module with its items written inline.
    Module,
    /// Any other item; it carries no generics, but may hold declarations.
    Other,
}

impl NodeKind {
    /// Whether a declaration of this kind can have a bound removed.
    pub open spec fn spec_is_editable(self) -> bool {
        self != NodeKind::Module && self != NodeKind::Other
    }

    /// Whether a declaration of this kind can have a bound removed.
    #[verifier::when_used_as_spec(spec_is_editable)]
    pub fn is_editable(self) -> (yes: bool)
        ensures
            yes == self.spec_is_editable(),
    {
        match self {
            NodeKind::Module | NodeKind::Other => false,
            _ => true,
        }
    }

    /// Whether an edit looks for its target among the declarations nested in
    /// one of this kind. Methods are reached through their trait or `impl`
    /// block; what is nested in a function, a method, a struct or an enum is
    /// out of an edit's reach.
    pub open spec fn spec_is_searched(self) -> bool {
        self == NodeKind::Module || self == NodeKind::Other || self == NodeKind::Trait || self
            == NodeKind::Impl
    }

    /// Whether an edit looks for its target among the declarations nested in
    /// one of this kind.
    #[verifier::when_used_as_spec(spec_is_searched)]
    pub fn is_searched(self) -> (yes: bool)
        ensures
            yes == self.spec_is_searched(),
    {
        match self {
            NodeKind::Module | NodeKind::Other | NodeKind::Trait | NodeKind::Impl => true,
            _ => false,
        }
    }
}

/// One declaration of a file.
#[derive(Debug, PartialEq, Eq)]
pub struct Node {
    /// What the declaration is.
    pub kind: NodeKind,
    /// How many declarations enclose this one.
    pub depth: usize,
    /// The declared name; `impl` blocks have none.
    pub ident: Option<String>,
    /// The span of the token that identifies the declaration: its name, or
    /// the `impl` keyword.
    pub anchor: Span,
    /// The declaration's generic parameters and `where` clause.
    pub generics: Generics,
    /// For an `impl` block, the implementing type; empty otherwise.
    pub self_ty: String,
    /// For an `impl` block of a trait, the trait's path.
    pub trait_path: Option<String>,
}

/// The value of a [`Node`].
pub struct NodeView {
    pub kind: NodeKind,
    pub depth: nat,
    pub ident: Option<Seq<char>>,
    pub anchor: Span,
    pub generics: GenericsView,
    pub self_ty: Seq<char>,
    pub trait_path: Option<Seq<char>>,
}

impl DeepView for Node {
    type V = NodeView;

    open spec fn deep_view(&self) -> NodeView {
        NodeView {
            kind: self.kind,
            depth: self.depth as nat,
            ident: self.ident.deep_view(),
            anchor: self.anchor,
            generics: self.generics@,
            self_ty: self.self_ty@,
            trait_path: self.trait_path.deep_view(),
        }
    }
}

impl View for Node {
    type V = NodeView;

    open spec fn view(&self) -> NodeView {
        self.deep_view()
    }
}

impl Clone for Node {
    fn clone(&self) -> (copy: Self)
        ensures
            copy@ == self@,
    {
        Node {
            kind: self.kind,
            depth: self.depth,
            ident: clone_opt_text(&self.ident),
            anchor: self.anchor,
            generics: self.generics.clone(),
            self_ty: self.self_ty.clone(),
            trait_path: clone_opt_text(&self.trait_path),
        }
    }
}

/// The declarations of one file, in source order.
#[derive(Debug, PartialEq, Eq)]
pub struct SyntaxTree {
    /// Every declaration, each before the declarations nested in it.
    pub nodes: Vec<Node>,
}

impl DeepView for SyntaxTree {
    type V = Seq<NodeView>;

    open spec fn deep_view(&self) -> Seq<NodeView> {
        self.nodes.deep_view()
    }
}

impl View for SyntaxTree {
    type V = Seq<NodeView>;

    open spec fn view(&self) -> Seq<NodeView> {
        self.deep_view()
    }
}

impl Clone for SyntaxTree {
    fn clone(&self) -> (copy: Self)
        ensures
            copy@ == self@,
    {
        let nodes = self.nodes.clone();
        assert(nodes.deep_view() =~= self.nodes.deep_view());
        SyntaxTree { nodes }
    }
}

/// The first index at or after `from` whose declaration is nested no deeper
/// than `depth`, or the number of declarations if there is none.
pub open spec fn run_end(nodes: Seq<NodeView>, depth: nat, from: int) -> int
    decreases nodes.len() - from,
{
    if from >= nodes.len() {
        nodes.len() as int
    } else if nodes[from].depth <= depth {
        from
    } else {
        run_end(nodes, depth, from + 1)
    }
}

/// One past the last declaration nested in the one at `i`.
pub open spec fn subtree_end(nodes: Seq<NodeView>, i: int) -> int {
    run_end(nodes, nodes[i].depth, i + 1)
}

/// Whether the declaration at `inner` is nested in the one at `outer`.
pub open spec fn encloses(nodes: Seq<NodeView>, outer: int, inner: int) -> bool {
    0 <= outer < inner < subtree_end(nodes, outer)
}

/// Whether the declaration at `child` is nested directly in the one at
/// `parent`.
pub open spec fn is_child(nodes: Seq<NodeView>, parent: int, child: int) -> bool {
    encloses(nodes, parent, child) && nodes[child].depth == nodes[parent].depth + 1
}

/// `run_end` stops at the first declaration that is nested no deeper than
/// `depth`, and at no other.
pub proof fn lemma_run_end(nodes: Seq<NodeView>, depth: nat, from: int)
    requires
        0 <= from <= nodes.len(),
    ensures
        from <= run_end(nodes, depth, from) <= nodes.len(),
        forall|k: int| from <= k < run_end(nodes, depth, from) ==> (#[trigger] nodes[k]).depth > depth,
        run_end(nodes, depth, from) < nodes.len() ==> nodes[run_end(nodes, depth, from)].depth
            <= depth,
    decreases nodes.len() - from,
{
    if from < nodes.len() && nodes[from].depth > depth {
        lemma_run_end(nodes, depth, from + 1);
    }
}

/// The declarations nested in the one at `i` are those that follow it up to
/// the next one that is nested no deeper than it.
pub proof fn lemma_subtree_end(nodes: Seq<NodeView>, i: int)
    requires
        0 <= i < nodes.len(),
    ensures
        i < subtree_end(nodes, i) <= nodes.len(),
        forall|k: int| i < k < subtree_end(nodes, i) ==> (#[trigger] nodes[k]).depth > nodes[i].depth,
        subtree_end(nodes, i) < nodes.len() ==> nodes[subtree_end(nodes, i)].depth
            <= nodes[i].depth,
{
    lemma_run_end(nodes, nodes[i].depth, i + 1);
}

/// `run_end` passes no declaration that is nested as shallowly as `depth`.
pub proof fn lemma_run_end_stops(nodes: Seq<NodeView>, depth: nat, from: int, k: int)
    requires
        0 <= from <= k < nodes.len(),
        nodes[k].depth <= depth,
    ensures
        run_end(nodes, depth, from) <= k,
    decreases k - from,
{
    if from < k && nodes[from].depth > depth {
        lemma_run_end_stops(nodes, depth, from + 1, k);
    }
}

/// What is nested in a declaration that is itself nested in another is
/// nested in that other one too.
pub proof fn lemma_subtree_nested(nodes: Seq<NodeView>, outer: int, inner: int)
    requires
        inner < nodes.len(),
        encloses(nodes, outer, inner),
    ensures
        subtree_end(nodes, inner) <= subtree_end(nodes, outer),
{
    lemma_subtree_end(nodes, outer);
    lemma_subtree_end(nodes, inner);
    let end = subtree_end(nodes, outer);
    if end < nodes.len() {
        lemma_run_end_stops(nodes, nodes[inner].depth, inner + 1, end);
    }
}

impl SyntaxTree {
    /// A file without declarations.
    pub fn new() -> (tree: Self)
        ensures
            tree@.len() == 0,
    {
        SyntaxTree { nodes: Vec::new() }
    }

    /// One past the last declaration nested in the one at `i`.
    pub fn subtree_end(&self, i: usize) -> (end: usize)
        requires
            i < self@.len(),
        ensures
            end == subtree_end(self@, i as int),
            i < end <= self@.len(),
    {
        let len: usize = self.nodes.len();
        proof {
            lemma_subtree_end(self@, i as int);
        }
        let depth: usize = self.nodes[i].depth;
        let mut j: usize = i + 1;
        while j < len && self.nodes[j].depth > depth
            invariant
                len == self.nodes.len(),
                i < j <= len,
                depth == self@[i as int].depth,
                run_end(self@, depth as nat, j as int) == subtree_end(self@, i as int),
            decreases len - j,
        {
            j = j + 1;
        }
        j
    }
}

/// Copies a list of texts.
pub fn clone_texts(texts: &Vec<String>) -> (copy: Vec<String>)
    ensures
        copy.deep_view() == texts.deep_view(),
{
    let copy = texts.clone();
    assert(copy.deep_view() =~= texts.deep_view());
    copy
}

/// Copies a text that may be absent.
pub fn clone_opt_text(text: &Option<String>) -> (copy: Option<String>)
    ensures
        copy.deep_view() == text.deep_view(),
{
    match text {
        Some(t) => Some(t.clone()),
        None => None,
    }
}

} // verus!
