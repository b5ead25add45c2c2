//! Finding the declarations of a file that carry bounds, and the coordinates
//! of those bounds.

use crate::syntax::{
    clone_opt_text, clone_texts, is_child, subtree_end, GenericParam, GenericParamView, Generics,
    GenericsView, Node, NodeKind, NodeView, Span, SyntaxTree, WherePredicate, WherePredicateView,
};
use vstd::prelude::*;
use vstd::string::StringExecFns;

verus! {

/// Which declaration of a [`SyntaxTree`] an item is: the index of its node,
/// and for a method the index of the trait or `impl` block that owns it. The
/// indices hold for the tree the item was collected from.
#[derive(Clone, Copy, Debug, PartialEq, Eq, Structural)]
pub enum ItemRef {
    /// A free function.
    Func(usize),
    /// A struct.
    Struct(usize),
    /// An enum.
    Enum(usize),
    /// A trait.
    Trait(usize),
    /// An `impl` block.
    Impl(usize),
    /// A method in an `impl` block, inherent or of a trait.
    ImplMethod {
        /// The `impl` block.
        owner: usize,
        /// The method itself.
        method: usize,
    },
    /// A method in a trait.
    TraitMethod {
        /// The trait.
        owner: usize,
        /// The method itself.
        method: usize,
    },
}

/// The identity of an inspected item: what it is, what it is called, how it is
/// shown, and where its identifying token sits.
#[derive(Debug, PartialEq, Eq)]
pub struct ItemKey {
    /// The declaration.
    pub item: ItemRef,
    /// The declared name; `impl` blocks have none.
    pub ident: Option<String>,
    /// The line that reports show for the item.
    pub label: String,
    /// The span of the identifying token.
    pub span: Span,
}

/// The value of an [`ItemKey`].
pub struct ItemKeyView {
    pub item: ItemRef,
    pub ident: Option<Seq<char>>,
    pub label: Seq<char>,
    pub span: Span,
}

impl DeepView for ItemKey {
    type V = ItemKeyView;

    open spec fn deep_view(&self) -> ItemKeyView {
        ItemKeyView {
            item: self.item,
            ident: self.ident.deep_view(),
            label: self.label@,
            span: self.span,
        }
    }
}

impl View for ItemKey {
    type V = ItemKeyView;

    open spec fn view(&self) -> ItemKeyView {
        self.deep_view()
    }
}

impl Clone for ItemKey {
    fn clone(&self) -> (copy: Self)
        ensures
            copy@ == self@,
    {
        ItemKey {
            item: self.item,
            ident: clone_opt_text(&self.ident),
            label: self.label.clone(),
            span: self.span,
        }
    }
}

/// The label of a free function.
pub open spec fn fn_label(name: Seq<char>) -> Seq<char> {
    "// fn "@ + name
}

/// The label of a struct.
pub open spec fn struct_label(name: Seq<char>) -> Seq<char> {
    "// struct "@ + name
}

/// The label of an enum.
pub open spec fn enum_label(name: Seq<char>) -> Seq<char> {
    "// enum "@ + name
}

/// The label of a trait.
pub open spec fn trait_label(name: Seq<char>) -> Seq<char> {
    "// trait "@ + name
}

/// The label of an inherent `impl` block.
pub open spec fn impl_inherent_label(self_ty: Seq<char>) -> Seq<char> {
    "// impl "@ + self_ty
}

/// The label of an `impl` block of a trait.
pub open spec fn impl_trait_label(trait_path: Seq<char>, self_ty: Seq<char>) -> Seq<char> {
    "// impl "@ + trait_path + " for "@ + self_ty
}

/// The label of a method in an `impl` block.
pub open spec fn impl_method_label(owner: Seq<char>, method: Seq<char>) -> Seq<char> {
    "// "@ + owner + "::"@ + method
}

/// The label of a method in a trait.
pub open spec fn trait_method_label(trait_name: Seq<char>, method: Seq<char>) -> Seq<char> {
    "// trait "@ + trait_name + "::"@ + method
}

/// How the owner of an `impl` method is written in the method's label.
pub open spec fn impl_owner(trait_path: Option<Seq<char>>, self_ty: Seq<char>) -> Seq<char> {
    match trait_path {
        Some(path) => path + " for "@ + self_ty,
        None => self_ty,
    }
}

impl ItemKey {
    /// The label of a free function.
    pub fn fn_label(name: &str) -> (label: String)
        ensures
            label@ == fn_label(name@),
    {
        String::from_str("// fn ").concat(name)
    }

    /// The label of a struct.
    pub fn struct_label(name: &str) -> (label: String)
        ensures
            label@ == struct_label(name@),
    {
        String::from_str("// struct ").concat(name)
    }

    /// The label of an enum.
    pub fn enum_label(name: &str) -> (label: String)
        ensures
            label@ == enum_label(name@),
    {
        String::from_str("// enum ").concat(name)
    }

    /// The label of a trait.
    pub fn trait_label(name: &str) -> (label: String)
        ensures
            label@ == trait_label(name@),
    {
        String::from_str("// trait ").concat(name)
    }

    /// The label of an inherent `impl` block.
    pub fn impl_inherent_label(self_ty: &str) -> (label: String)
        ensures
            label@ == impl_inherent_label(self_ty@),
    {
        String::from_str("// impl ").concat(self_ty)
    }

    /// The label of an `impl` block of a trait.
    pub fn impl_trait_label(trait_path: &str, self_ty: &str) -> (label: String)
        ensures
            label@ == impl_trait_label(trait_path@, self_ty@),
    {
        String::from_str("// impl ").concat(trait_path).concat(" for ").concat(self_ty)
    }

    /// The label of a method in an `impl` block.
    pub fn impl_method_label(owner: &str, method: &str) -> (label: String)
        ensures
            label@ == impl_method_label(owner@, method@),
    {
        String::from_str("// ").concat(owner).concat("::").concat(method)
    }

    /// The label of a method in a trait.
    pub fn trait_method_label(trait_name: &str, method: &str) -> (label: String)
        ensures
            label@ == trait_method_label(trait_name@, method@),
    {
        String::from_str("// trait ").concat(trait_name).concat("::").concat(method)
    }

    /// The item's name, if it has one.
    pub fn ident(&self) -> (ident: Option<&String>)
        ensures
            ident.deep_view() == self@.ident,
    {
        self.ident.as_ref()
    }

    /// Which declaration the item is.
    pub fn item(&self) -> (item: &ItemRef)
        ensures
            *item == self@.item,
    {
        &self.item
    }

    /// The span of the item's identifying token.
    pub fn span(&self) -> (span: Span)
        ensures
            span == self@.span,
    {
        self.span
    }

    /// The item's label, as reports show it.
    pub fn to_string(&self) -> (label: String)
        ensures
            label@ == self@.label,
    {
        self.label.clone()
    }
}

/// A type parameter that has bounds: where it stands among the declaration's
/// generic parameters, and the bounds it carries.
#[derive(Debug, PartialEq, Eq)]
pub struct TypeParamBounds {
    /// The parameter's name.
    pub ident: String,
    /// The parameter's bounds, in source order.
    pub bounds: Vec<String>,
    /// The parameter's index among the declaration's generic parameters.
    pub param_index: usize,
}

/// The value of a [`TypeParamBounds`].
pub struct TypeParamBoundsView {
    pub ident: Seq<char>,
    pub bounds: Seq<Seq<char>>,
    pub param_index: nat,
}

impl DeepView for TypeParamBounds {
    type V = TypeParamBoundsView;

    open spec fn deep_view(&self) -> TypeParamBoundsView {
        TypeParamBoundsView {
            ident: self.ident@,
            bounds: self.bounds.deep_view(),
            param_index: self.param_index as nat,
        }
    }
}

impl View for TypeParamBounds {
    type V = TypeParamBoundsView;

    open spec fn view(&self) -> TypeParamBoundsView {
        self.deep_view()
    }
}

impl Clone for TypeParamBounds {
    fn clone(&self) -> (copy: Self)
        ensures
            copy@ == self@,
    {
        TypeParamBounds {
            ident: self.ident.clone(),
            bounds: clone_texts(&self.bounds),
            param_index: self.param_index,
        }
    }
}

impl TypeParamBounds {
    /// The parameter's name.
    pub fn ident(&self) -> (ident: &String)
        ensures
            ident@ == self@.ident,
    {
        &self.ident
    }

    /// The parameter's bounds.
    pub fn bounds(&self) -> (bounds: &Vec<String>)
        ensures
            bounds.deep_view() == self@.bounds,
    {
        &self.bounds
    }

    /// The parameter's index among the declaration's generic parameters.
    pub fn param_index(&self) -> (index: usize)
        ensures
            index == self@.param_index,
    {
        self.param_index
    }
}

/// A `where` predicate on a type that has bounds: where it stands in the
/// clause, and the bounds it carries.
#[derive(Debug, PartialEq, Eq)]
pub struct WhereTypeBounds {
    /// The bounded type.
    pub ty: String,
    /// The predicate's bounds, in source order.
    pub bounds: Vec<String>,
    /// The predicate's index among all predicates of the clause.
    pub pred_index: usize,
}

/// The value of a [`WhereTypeBounds`].
pub struct WhereTypeBoundsView {
    pub ty: Seq<char>,
    pub bounds: Seq<Seq<char>>,
    pub pred_index: nat,
}

impl DeepView for WhereTypeBounds {
    type V = WhereTypeBoundsView;

    open spec fn deep_view(&self) -> WhereTypeBoundsView {
        WhereTypeBoundsView {
            ty: self.ty@,
            bounds: self.bounds.deep_view(),
            pred_index: self.pred_index as nat,
        }
    }
}

impl View for WhereTypeBounds {
    type V = WhereTypeBoundsView;

    open spec fn view(&self) -> WhereTypeBoundsView {
        self.deep_view()
    }
}

impl Clone for WhereTypeBounds {
    fn clone(&self) -> (copy: Self)
        ensures
            copy@ == self@,
    {
        WhereTypeBounds {
            ty: self.ty.clone(),
            bounds: clone_texts(&self.bounds),
            pred_index: self.pred_index,
        }
    }
}

impl WhereTypeBounds {
    /// The bounded type.
    pub fn bounded_ty(&self) -> (ty: &String)
        ensures
            ty@ == self@.ty,
    {
        &self.ty
    }

    /// The predicate's bounds.
    pub fn bounds(&self) -> (bounds: &Vec<String>)
        ensures
            bounds.deep_view() == self@.bounds,
    {
        &self.bounds
    }

    /// The predicate's index among all predicates of the clause.
    pub fn pred_index(&self) -> (index: usize)
        ensures
            index == self@.pred_index,
    {
        self.pred_index
    }
}

impl GenericParamView {
    /// Whether this is a type parameter with at least one bound.
    pub open spec fn is_bounded(self) -> bool {
        self is Type && self->Type_bounds.len() > 0
    }
}

impl WherePredicateView {
    /// Whether this is a predicate on a type with at least one bound.
    pub open spec fn is_bounded(self) -> bool {
        self is Type && self->Type_bounds.len() > 0
    }
}

impl GenericsView {
    /// The bounded type parameters among the first `n` parameters, in source
    /// order.
    pub open spec fn param_bounds_upto(self, n: int) -> Seq<TypeParamBoundsView>
        decreases n,
    {
        if n <= 0 {
            Seq::empty()
        } else if self.params[n - 1].is_bounded() {
            self.param_bounds_upto(n - 1).push(
                TypeParamBoundsView {
                    ident: self.params[n - 1]->ident,
                    bounds: self.params[n - 1]->Type_bounds,
                    param_index: (n - 1) as nat,
                },
            )
        } else {
            self.param_bounds_upto(n - 1)
        }
    }

    /// The bounded type parameters, in source order.
    pub open spec fn param_bounds(self) -> Seq<TypeParamBoundsView> {
        self.param_bounds_upto(self.params.len() as int)
    }

    /// The bounded type predicates among the first `n` predicates of the
    /// `where` clause, in source order.
    pub open spec fn where_bounds_upto(self, n: int) -> Seq<WhereTypeBoundsView>
        decreases n,
    {
        if n <= 0 || self.where_clause is None {
            Seq::empty()
        } else if self.where_clause->0[n - 1].is_bounded() {
            self.where_bounds_upto(n - 1).push(
                WhereTypeBoundsView {
                    ty: self.where_clause->0[n - 1]->bounded_ty,
                    bounds: self.where_clause->0[n - 1]->Type_bounds,
                    pred_index: (n - 1) as nat,
                },
            )
        } else {
            self.where_bounds_upto(n - 1)
        }
    }

    /// The bounded type predicates of the `where` clause, in source order.
    pub open spec fn where_bounds(self) -> Seq<WhereTypeBoundsView> {
        match self.where_clause {
            Some(predicates) => self.where_bounds_upto(predicates.len() as int),
            None => Seq::empty(),
        }
    }

    /// Whether the generics hold a bound at all.
    pub open spec fn has_bounds(self) -> bool {
        self.param_bounds().len() > 0 || self.where_bounds().len() > 0
    }
}

/// The coordinates taken from the first `n` generic parameters are those of
/// the bounded type parameters among them, and of no other parameter: each
/// with the parameter's name, bounds and index, and by ascending index.
pub proof fn lemma_param_bounds_upto(generics: GenericsView, n: int)
    requires
        0 <= n <= generics.params.len(),
    ensures
        forall|i: int|
            0 <= i < generics.param_bounds_upto(n).len() ==> {
                let found = #[trigger] generics.param_bounds_upto(n)[i];
                &&& found.param_index < n
                &&& generics.params[found.param_index as int].is_bounded()
                &&& found.ident == generics.params[found.param_index as int]->ident
                &&& found.bounds == generics.params[found.param_index as int]->Type_bounds
            },
        forall|i: int, j: int|
            0 <= i < j < generics.param_bounds_upto(n).len() ==> (
            #[trigger] generics.param_bounds_upto(n)[i]).param_index < (
            #[trigger] generics.param_bounds_upto(n)[j]).param_index,
        forall|k: int|
            0 <= k < n && (#[trigger] generics.params[k]).is_bounded() ==> exists|i: int|
                0 <= i < generics.param_bounds_upto(n).len() && (
                #[trigger] generics.param_bounds_upto(n)[i]).param_index == k,
    decreases n,
{
    if n > 0 {
        lemma_param_bounds_upto(generics, n - 1);
        let before = generics.param_bounds_upto(n - 1);
        let now = generics.param_bounds_upto(n);
        assert forall|k: int| 0 <= k < n && (#[trigger] generics.params[k]).is_bounded() implies exists|
            i: int,
        |
            0 <= i < now.len() && (#[trigger] now[i]).param_index == k by {
            if k < n - 1 {
                let i = choose|i: int| 0 <= i < before.len() && (#[trigger] before[i]).param_index == k;
                assert(now[i].param_index == k);
            } else {
                assert(now[now.len() - 1].param_index == k);
            }
        }
    }
}

/// The coordinates taken from the first `n` predicates of the `where` clause
/// are those of the bounded type predicates among them, and of no other
/// predicate: each with the predicate's type, bounds and index, and by
/// ascending index.
pub proof fn lemma_where_bounds_upto(generics: GenericsView, n: int)
    requires
        generics.where_clause is Some,
        0 <= n <= generics.where_clause->0.len(),
    ensures
        forall|i: int|
            0 <= i < generics.where_bounds_upto(n).len() ==> {
                let found = #[trigger] generics.where_bounds_upto(n)[i];
                &&& found.pred_index < n
                &&& generics.where_clause->0[found.pred_index as int].is_bounded()
                &&& found.ty == generics.where_clause->0[found.pred_index as int]->bounded_ty
                &&& found.bounds == generics.where_clause->0[found.pred_index as int]->Type_bounds
            },
        forall|i: int, j: int|
            0 <= i < j < generics.where_bounds_upto(n).len() ==> (
            #[trigger] generics.where_bounds_upto(n)[i]).pred_index < (
            #[trigger] generics.where_bounds_upto(n)[j]).pred_index,
        forall|k: int|
            0 <= k < n && (#[trigger] generics.where_clause->0[k]).is_bounded() ==> exists|i: int|
                0 <= i < generics.where_bounds_upto(n).len() && (
                #[trigger] generics.where_bounds_upto(n)[i]).pred_index == k,
    decreases n,
{
    if n > 0 {
        lemma_where_bounds_upto(generics, n - 1);
        let before = generics.where_bounds_upto(n - 1);
        let now = generics.where_bounds_upto(n);
        assert forall|k: int|
            0 <= k < n && (#[trigger] generics.where_clause->0[k]).is_bounded() implies exists|i: int|
            0 <= i < now.len() && (#[trigger] now[i]).pred_index == k by {
            if k < n - 1 {
                let i = choose|i: int| 0 <= i < before.len() && (#[trigger] before[i]).pred_index == k;
                assert(now[i].pred_index == k);
            } else {
                assert(now[now.len() - 1].pred_index == k);
            }
        }
    }
}

/// One declaration that carries bounds: its identity and the coordinates of
/// its bounds, on its generic parameters and in its `where` clause.
#[derive(Debug, PartialEq, Eq)]
pub struct DeclBounds {
    /// The declaration's identity.
    pub item: ItemKey,
    /// Its bounded type parameters.
    pub type_params: Vec<TypeParamBounds>,
    /// Its bounded `where` predicates.
    pub where_preds: Vec<WhereTypeBounds>,
}

/// The bounds of a free function.
pub type FnBounds = DeclBounds;

/// The bounds of a method declared in a trait.
pub type TraitMethodBounds = DeclBounds;

/// The bounds of a method defined in an `impl` block.
pub type ImplMethodBounds = DeclBounds;

/// The bounds of a trait.
pub type TraitBounds = DeclBounds;

/// The bounds of an `impl` block.
pub type ImplBounds = DeclBounds;

/// The bounds of an enum.
pub type EnumBounds = DeclBounds;

/// The bounds of a struct.
pub type StructBounds = DeclBounds;

/// The value of a [`DeclBounds`].
pub struct DeclBoundsView {
    pub item: ItemKeyView,
    pub type_params: Seq<TypeParamBoundsView>,
    pub where_preds: Seq<WhereTypeBoundsView>,
}

impl DeepView for DeclBounds {
    type V = DeclBoundsView;

    open spec fn deep_view(&self) -> DeclBoundsView {
        DeclBoundsView {
            item: self.item@,
            type_params: self.type_params.deep_view(),
            where_preds: self.where_preds.deep_view(),
        }
    }
}

impl View for DeclBounds {
    type V = DeclBoundsView;

    open spec fn view(&self) -> DeclBoundsView {
        self.deep_view()
    }
}

impl Clone for DeclBounds {
    fn clone(&self) -> (copy: Self)
        ensures
            copy@ == self@,
    {
        let type_params = self.type_params.clone();
        let where_preds = self.where_preds.clone();
        assert(type_params.deep_view() =~= self.type_params.deep_view());
        assert(where_preds.deep_view() =~= self.where_preds.deep_view());
        DeclBounds { item: self.item.clone(), type_params, where_preds }
    }
}

impl DeclBounds {
    /// The declaration's bounded type parameters.
    pub fn type_param_bounds(&self) -> (found: &Vec<TypeParamBounds>)
        ensures
            found.deep_view() == self@.type_params,
    {
        &self.type_params
    }

    /// The declaration's bounded `where` predicates.
    pub fn where_bounds(&self) -> (found: &Vec<WhereTypeBounds>)
        ensures
            found.deep_view() == self@.where_preds,
    {
        &self.where_preds
    }

    /// The declaration's identity.
    pub fn item_key(&self) -> (key: &ItemKey)
        ensures
            key@ == self@.item,
    {
        &self.item
    }
}

/// The declarations of a file that carry bounds, by kind. Within a kind they
/// stand in the order in which the file declares them; methods follow the
/// order of their owners.
#[derive(Debug, PartialEq, Eq)]
pub struct ItemBounds {
    /// Free functions.
    pub fns: Vec<FnBounds>,
    /// Traits.
    pub traits: Vec<TraitBounds>,
    /// `impl` blocks.
    pub impls: Vec<ImplBounds>,
    /// Methods declared in traits.
    pub trait_methods: Vec<TraitMethodBounds>,
    /// Methods defined in `impl` blocks.
    pub impl_methods: Vec<ImplMethodBounds>,
    /// Enums.
    pub enums: Vec<EnumBounds>,
    /// Structs.
    pub structs: Vec<StructBounds>,
}

/// The value of an [`ItemBounds`].
pub struct ItemBoundsView {
    pub fns: Seq<DeclBoundsView>,
    pub traits: Seq<DeclBoundsView>,
    pub impls: Seq<DeclBoundsView>,
    pub trait_methods: Seq<DeclBoundsView>,
    pub impl_methods: Seq<DeclBoundsView>,
    pub enums: Seq<DeclBoundsView>,
    pub structs: Seq<DeclBoundsView>,
}

impl DeepView for ItemBounds {
    type V = ItemBoundsView;

    open spec fn deep_view(&self) -> ItemBoundsView {
        ItemBoundsView {
            fns: self.fns.deep_view(),
            traits: self.traits.deep_view(),
            impls: self.impls.deep_view(),
            trait_methods: self.trait_methods.deep_view(),
            impl_methods: self.impl_methods.deep_view(),
            enums: self.enums.deep_view(),
            structs: self.structs.deep_view(),
        }
    }
}

impl View for ItemBounds {
    type V = ItemBoundsView;

    open spec fn view(&self) -> ItemBoundsView {
        self.deep_view()
    }
}

/// The name of a declaration; empty if it has none.
pub open spec fn name_of(node: NodeView) -> Seq<char> {
    match node.ident {
        Some(name) => name,
        None => Seq::empty(),
    }
}

/// The label of a declaration that is no method.
pub open spec fn item_label(node: NodeView) -> Seq<char> {
    match node.kind {
        NodeKind::Function => fn_label(name_of(node)),
        NodeKind::Struct => struct_label(name_of(node)),
        NodeKind::Enum => enum_label(name_of(node)),
        NodeKind::Trait => trait_label(name_of(node)),
        NodeKind::Impl => match node.trait_path {
            Some(path) => impl_trait_label(path, node.self_ty),
            None => impl_inherent_label(node.self_ty),
        },
        _ => Seq::empty(),
    }
}

/// The label of a method, which names its owner.
pub open spec fn method_label(owner: NodeView, method: NodeView) -> Seq<char> {
    if owner.kind == NodeKind::Trait {
        trait_method_label(name_of(owner), name_of(method))
    } else {
        impl_method_label(impl_owner(owner.trait_path, owner.self_ty), name_of(method))
    }
}

/// How the declaration at `i`, which is no method, is referred to.
pub open spec fn item_ref(kind: NodeKind, i: usize) -> ItemRef {
    match kind {
        NodeKind::Struct => ItemRef::Struct(i),
        NodeKind::Enum => ItemRef::Enum(i),
        NodeKind::Trait => ItemRef::Trait(i),
        NodeKind::Impl => ItemRef::Impl(i),
        _ => ItemRef::Func(i),
    }
}

/// The record of the declaration at `i`, which is no method.
pub open spec fn item_record(nodes: Seq<NodeView>, i: int) -> DeclBoundsView {
    DeclBoundsView {
        item: ItemKeyView {
            item: item_ref(nodes[i].kind, i as usize),
            ident: if nodes[i].kind == NodeKind::Impl {
                None
            } else {
                nodes[i].ident
            },
            label: item_label(nodes[i]),
            span: nodes[i].anchor,
        },
        type_params: nodes[i].generics.param_bounds(),
        where_preds: nodes[i].generics.where_bounds(),
    }
}

/// The record of the method at `method`, owned by the trait or `impl` block at
/// `owner`.
pub open spec fn method_record(nodes: Seq<NodeView>, owner: int, method: int) -> DeclBoundsView {
    DeclBoundsView {
        item: ItemKeyView {
            item: if nodes[owner].kind == NodeKind::Trait {
                ItemRef::TraitMethod { owner: owner as usize, method: method as usize }
            } else {
                ItemRef::ImplMethod { owner: owner as usize, method: method as usize }
            },
            ident: nodes[method].ident,
            label: method_label(nodes[owner], nodes[method]),
            span: nodes[method].anchor,
        },
        type_params: nodes[method].generics.param_bounds(),
        where_preds: nodes[method].generics.where_bounds(),
    }
}

/// The kind of the methods that a trait or an `impl` block owns.
pub open spec fn method_kind(owner_kind: NodeKind) -> NodeKind {
    if owner_kind == NodeKind::Trait {
        NodeKind::TraitMethod
    } else {
        NodeKind::ImplMethod
    }
}

/// What the declaration at `i` adds to the list of the items of `kind`: its
/// record, if it is of that kind and carries a bound.
pub open spec fn items_at(nodes: Seq<NodeView>, kind: NodeKind, i: int) -> Seq<DeclBoundsView> {
    if nodes[i].kind == kind && nodes[i].generics.has_bounds() {
        seq![item_record(nodes, i)]
    } else {
        Seq::empty()
    }
}

/// The records of the items of `kind` among the first `n` declarations, in
/// source order.
pub open spec fn items_upto(nodes: Seq<NodeView>, kind: NodeKind, n: int) -> Seq<DeclBoundsView>
    decreases n,
{
    if n <= 0 {
        Seq::empty()
    } else {
        items_upto(nodes, kind, n - 1) + items_at(nodes, kind, n - 1)
    }
}

/// Whether the declaration at `c` is a method nested directly in the trait or
/// `impl` block at `owner`.
pub open spec fn is_method_of(nodes: Seq<NodeView>, owner: int, c: int) -> bool {
    is_child(nodes, owner, c) && nodes[c].kind == method_kind(nodes[owner].kind)
}

/// The records of the methods of the declaration at `owner` that stand before
/// index `n` and carry a bound, in source order.
pub open spec fn methods_of_upto(nodes: Seq<NodeView>, owner: int, n: int) -> Seq<DeclBoundsView>
    decreases n,
{
    if n <= 0 {
        Seq::empty()
    } else if is_method_of(nodes, owner, n - 1) && nodes[n - 1].generics.has_bounds() {
        methods_of_upto(nodes, owner, n - 1).push(method_record(nodes, owner, n - 1))
    } else {
        methods_of_upto(nodes, owner, n - 1)
    }
}

/// What the declaration at `i` adds to the list of the methods of owners of
/// `owner_kind`: the records of its own methods, if it is of that kind.
pub open spec fn methods_at(nodes: Seq<NodeView>, owner_kind: NodeKind, i: int) -> Seq<
    DeclBoundsView,
> {
    if nodes[i].kind == owner_kind {
        methods_of_upto(nodes, i, subtree_end(nodes, i))
    } else {
        Seq::empty()
    }
}

/// The records of the methods of the owners of `owner_kind` among the first
/// `n` declarations: owner by owner, and in source order under each.
pub open spec fn methods_upto(nodes: Seq<NodeView>, owner_kind: NodeKind, n: int) -> Seq<
    DeclBoundsView,
>
    decreases n,
{
    if n <= 0 {
        Seq::empty()
    } else {
        methods_upto(nodes, owner_kind, n - 1) + methods_at(nodes, owner_kind, n - 1)
    }
}

/// No item of any kind.
pub open spec fn nothing_gathered() -> ItemBoundsView {
    ItemBoundsView {
        fns: Seq::empty(),
        traits: Seq::empty(),
        impls: Seq::empty(),
        trait_methods: Seq::empty(),
        impl_methods: Seq::empty(),
        enums: Seq::empty(),
        structs: Seq::empty(),
    }
}

/// What has been gathered once the first `n` declarations of a file were
/// visited.
pub open spec fn collected_upto(nodes: Seq<NodeView>, n: int) -> ItemBoundsView {
    ItemBoundsView {
        fns: items_upto(nodes, NodeKind::Function, n),
        traits: items_upto(nodes, NodeKind::Trait, n),
        impls: items_upto(nodes, NodeKind::Impl, n),
        trait_methods: methods_upto(nodes, NodeKind::Trait, n),
        impl_methods: methods_upto(nodes, NodeKind::Impl, n),
        enums: items_upto(nodes, NodeKind::Enum, n),
        structs: items_upto(nodes, NodeKind::Struct, n),
    }
}

/// The declarations of a file that carry bounds.
pub open spec fn collected(nodes: Seq<NodeView>) -> ItemBoundsView {
    collected_upto(nodes, nodes.len() as int)
}

/// Walks a file and gathers the declarations that carry bounds.
pub struct Collector {
    /// What has been gathered.
    pub out: ItemBounds,
}

impl Collector {
    /// The type parameters of `gens` that have bounds, in source order, each
    /// with its index among all generic parameters.
    pub fn type_param_bounds(gens: &Generics) -> (found: Vec<TypeParamBounds>)
        ensures
            found.deep_view() == gens@.param_bounds(),
    {
        let mut found: Vec<TypeParamBounds> = Vec::new();
        let count: usize = gens.params.len();
        let mut idx: usize = 0;
        assert(gens@.params.len() == count);
        while idx < count
            invariant
                count == gens.params.len(),
                count == gens@.params.len(),
                idx <= count,
                found.deep_view() == gens@.param_bounds_upto(idx as int),
            decreases count - idx,
        {
            match &gens.params[idx] {
                GenericParam::Type { ident, bounds, .. } => {
                    if !bounds.is_empty() {
                        found.push(
                            TypeParamBounds {
                                ident: ident.clone(),
                                bounds: clone_texts(bounds),
                                param_index: idx,
                            },
                        );
                    }
                },
                GenericParam::Other { .. } => {},
            }
            idx = idx + 1;
            assert(found.deep_view() =~= gens@.param_bounds_upto(idx as int));
        }
        found
    }

    /// The predicates of the `where` clause of `gens` that are on a type and
    /// have bounds, in source order, each with its index among all predicates.
    pub fn where_bounds(gens: &Generics) -> (found: Vec<WhereTypeBounds>)
        ensures
            found.deep_view() == gens@.where_bounds(),
    {
        let mut found: Vec<WhereTypeBounds> = Vec::new();
        if let Some(predicates) = &gens.where_clause {
            let count: usize = predicates.len();
            let mut pred_index: usize = 0;
            assert(gens@.where_clause->0.len() == count);
            while pred_index < count
                invariant
                    count == predicates.len(),
                    gens@.where_clause == Some(predicates.deep_view()),
                    pred_index <= count,
                    found.deep_view() == gens@.where_bounds_upto(pred_index as int),
                decreases count - pred_index,
            {
                match &predicates[pred_index] {
                    WherePredicate::Type { bounded_ty, bounds } => {
                        if !bounds.is_empty() {
                            found.push(
                                WhereTypeBounds {
                                    ty: bounded_ty.clone(),
                                    bounds: clone_texts(bounds),
                                    pred_index,
                                },
                            );
                        }
                    },
                    WherePredicate::Other { .. } => {},
                }
                pred_index = pred_index + 1;
                assert(found.deep_view() =~= gens@.where_bounds_upto(pred_index as int));
            }
        }
        found
    }

    /// Appends to `list` the record of a declaration with the generics `gens`,
    /// unless the generics hold no bound.
    pub fn push_if_any(list: &mut Vec<DeclBounds>, gens: &Generics, item: ItemKey)
        ensures
            final(list).deep_view() == if gens@.has_bounds() {
                old(list).deep_view().push(
                    DeclBoundsView {
                        item: item@,
                        type_params: gens@.param_bounds(),
                        where_preds: gens@.where_bounds(),
                    },
                )
            } else {
                old(list).deep_view()
            },
    {
        let type_params = Self::type_param_bounds(gens);
        let where_preds = Self::where_bounds(gens);
        let ghost before = list.deep_view();
        if !type_params.is_empty() || !where_preds.is_empty() {
            let record = DeclBounds { item, type_params, where_preds };
            list.push(record);
            assert(list.deep_view() =~= before.push(record@));
        } else {
            assert(list.deep_view() =~= before);
        }
    }

    /// Appends to `list` the records of the methods that are nested directly
    /// in the trait or `impl` block at `owner` and carry a bound.
    pub fn visit_methods(list: &mut Vec<DeclBounds>, file: &SyntaxTree, owner: usize)
        requires
            owner < file@.len(),
        ensures
            final(list).deep_view() == old(list).deep_view() + methods_of_upto(
                file@,
                owner as int,
                subtree_end(file@, owner as int),
            ),
    {
        let end: usize = file.subtree_end(owner);
        let depth: usize = file.nodes[owner].depth;
        let of_trait: bool = file.nodes[owner].kind == NodeKind::Trait;
        let ghost before = list.deep_view();
        let mut c: usize = owner + 1;
        proof {
            lemma_no_methods_before(file@, owner as int, c as int);
            assert(list.deep_view() =~= before + methods_of_upto(file@, owner as int, c as int));
        }
        while c < end
            invariant
                owner < c <= end <= file@.len(),
                file@.len() == file.nodes.len(),
                end == subtree_end(file@, owner as int),
                depth == file@[owner as int].depth,
                of_trait == (file@[owner as int].kind == NodeKind::Trait),
                list.deep_view() == before + methods_of_upto(file@, owner as int, c as int),
            decreases end - c,
        {
            let node = &file.nodes[c];
            let wanted = if of_trait {
                NodeKind::TraitMethod
            } else {
                NodeKind::ImplMethod
            };
            if depth < usize::MAX && node.depth == depth + 1 && node.kind == wanted {
                let key = method_key_of(file, owner, c);
                Self::push_if_any(list, &node.generics, key);
            }
            c = c + 1;
            assert(list.deep_view() =~= before + methods_of_upto(file@, owner as int, c as int));
        }
    }

    /// Visits the declaration at `i`: files its record under its kind if it
    /// carries a bound, and for a trait or an `impl` block files the records
    /// of its methods as well.
    pub fn visit_item(&mut self, file: &SyntaxTree, i: usize)
        requires
            i < file@.len(),
        ensures
            final(self).out@ == visited(old(self).out@, file@, i as int),
    {
        let ghost before = self.out@;
        assert(file@.len() == file.nodes.len());
        let node = &file.nodes[i];
        match node.kind {
            NodeKind::Function => {
                Self::push_if_any(&mut self.out.fns, &node.generics, item_key_of(file, i));
            },
            NodeKind::Struct => {
                Self::push_if_any(&mut self.out.structs, &node.generics, item_key_of(file, i));
            },
            NodeKind::Enum => {
                Self::push_if_any(&mut self.out.enums, &node.generics, item_key_of(file, i));
            },
            NodeKind::Trait => {
                Self::push_if_any(&mut self.out.traits, &node.generics, item_key_of(file, i));
                Self::visit_methods(&mut self.out.trait_methods, file, i);
            },
            NodeKind::Impl => {
                Self::push_if_any(&mut self.out.impls, &node.generics, item_key_of(file, i));
                Self::visit_methods(&mut self.out.impl_methods, file, i);
            },
            _ => {},
        }
        proof {
            let after = visited(before, file@, i as int);
            assert(self.out@.fns =~= after.fns);
            assert(self.out@.traits =~= after.traits);
            assert(self.out@.impls =~= after.impls);
            assert(self.out@.trait_methods =~= after.trait_methods);
            assert(self.out@.impl_methods =~= after.impl_methods);
            assert(self.out@.enums =~= after.enums);
            assert(self.out@.structs =~= after.structs);
        }
    }
}

/// What has been gathered after a visit to the declaration at `i`, given what
/// had been gathered before.
pub open spec fn visited(out: ItemBoundsView, nodes: Seq<NodeView>, i: int) -> ItemBoundsView {
    ItemBoundsView {
        fns: out.fns + items_at(nodes, NodeKind::Function, i),
        traits: out.traits + items_at(nodes, NodeKind::Trait, i),
        impls: out.impls + items_at(nodes, NodeKind::Impl, i),
        trait_methods: out.trait_methods + methods_at(nodes, NodeKind::Trait, i),
        impl_methods: out.impl_methods + methods_at(nodes, NodeKind::Impl, i),
        enums: out.enums + items_at(nodes, NodeKind::Enum, i),
        structs: out.structs + items_at(nodes, NodeKind::Struct, i),
    }
}

/// No method of the declaration at `owner` stands at or before it.
pub proof fn lemma_no_methods_before(nodes: Seq<NodeView>, owner: int, n: int)
    requires
        n <= owner + 1,
    ensures
        methods_of_upto(nodes, owner, n) == Seq::<DeclBoundsView>::empty(),
    decreases n,
{
    if n > 0 {
        lemma_no_methods_before(nodes, owner, n - 1);
    }
}

impl ItemBounds {
    /// Nothing gathered.
    pub fn empty() -> (out: Self)
        ensures
            out@ == nothing_gathered(),
    {
        let out = ItemBounds {
            fns: Vec::new(),
            traits: Vec::new(),
            impls: Vec::new(),
            trait_methods: Vec::new(),
            impl_methods: Vec::new(),
            enums: Vec::new(),
            structs: Vec::new(),
        };
        proof {
            let none = nothing_gathered();
            assert(out@.fns =~= none.fns);
            assert(out@.traits =~= none.traits);
            assert(out@.impls =~= none.impls);
            assert(out@.trait_methods =~= none.trait_methods);
            assert(out@.impl_methods =~= none.impl_methods);
            assert(out@.enums =~= none.enums);
            assert(out@.structs =~= none.structs);
        }
        out
    }

    /// Gathers the declarations of `file` that carry bounds: functions,
    /// structs, enums, traits and `impl` blocks wherever they are nested, and
    /// the methods nested directly in a trait or an `impl` block. A
    /// declaration without bounds is left out.
    pub fn collect_items_in_file(file: &SyntaxTree) -> (out: ItemBounds)
        ensures
            out@ == collected(file@),
    {
        Self::collect_items_from_src(file)
    }

    fn collect_items_from_src(file: &SyntaxTree) -> (out: ItemBounds)
        ensures
            out@ == collected(file@),
    {
        let mut v = Collector { out: ItemBounds::empty() };
        let count: usize = file.nodes.len();
        let mut i: usize = 0;
        assert(file@.len() == count);
        assert(v.out@ == collected_upto(file@, 0)) by {
            let none = collected_upto(file@, 0);
            assert(v.out@.fns =~= none.fns);
            assert(v.out@.traits =~= none.traits);
            assert(v.out@.impls =~= none.impls);
            assert(v.out@.trait_methods =~= none.trait_methods);
            assert(v.out@.impl_methods =~= none.impl_methods);
            assert(v.out@.enums =~= none.enums);
            assert(v.out@.structs =~= none.structs);
        }
        while i < count
            invariant
                count == file@.len(),
                i <= count,
                v.out@ == collected_upto(file@, i as int),
            decreases count - i,
        {
            v.visit_item(file, i);
            i = i + 1;
        }
        v.out
    }

    /// The identities of all gathered items: functions, traits, `impl`
    /// blocks, trait methods, `impl` methods, enums, structs, in this order.
    pub fn iter_all_items(&self) -> (keys: Vec<&ItemKey>)
        ensures
            keys.deep_view() == all_keys(self@),
    {
        let mut keys: Vec<&ItemKey> = Vec::new();
        push_keys(&mut keys, &self.fns);
        push_keys(&mut keys, &self.traits);
        push_keys(&mut keys, &self.impls);
        push_keys(&mut keys, &self.trait_methods);
        push_keys(&mut keys, &self.impl_methods);
        push_keys(&mut keys, &self.enums);
        push_keys(&mut keys, &self.structs);
        assert(keys.deep_view() =~= all_keys(self@));
        keys
    }

    /// The free functions that carry bounds.
    pub fn fns(&self) -> (list: &Vec<DeclBounds>)
        ensures
            list.deep_view() == self@.fns,
    {
        &self.fns
    }

    /// The free functions that carry bounds, to be changed in place.
    pub fn fns_mut(&mut self) -> (list: &mut Vec<DeclBounds>)
        ensures
            list.deep_view() == old(self)@.fns,
            final(self)@ == (ItemBoundsView { fns: final(list).deep_view(), ..old(self)@ }),
    {
        &mut self.fns
    }

    /// The traits that carry bounds.
    pub fn traits(&self) -> (list: &Vec<DeclBounds>)
        ensures
            list.deep_view() == self@.traits,
    {
        &self.traits
    }

    /// The traits that carry bounds, to be changed in place.
    pub fn traits_mut(&mut self) -> (list: &mut Vec<DeclBounds>)
        ensures
            list.deep_view() == old(self)@.traits,
            final(self)@ == (ItemBoundsView { traits: final(list).deep_view(), ..old(self)@ }),
    {
        &mut self.traits
    }

    /// The methods declared in traits that carry bounds.
    pub fn trait_methods(&self) -> (list: &Vec<DeclBounds>)
        ensures
            list.deep_view() == self@.trait_methods,
    {
        &self.trait_methods
    }

    /// The methods declared in traits that carry bounds, to be changed in place.
    pub fn trait_methods_mut(&mut self) -> (list: &mut Vec<DeclBounds>)
        ensures
            list.deep_view() == old(self)@.trait_methods,
            final(self)@ == (ItemBoundsView { trait_methods: final(list).deep_view(), ..old(self)@ }),
    {
        &mut self.trait_methods
    }

    /// The methods defined in `impl` blocks that carry bounds.
    pub fn impl_methods(&self) -> (list: &Vec<DeclBounds>)
        ensures
            list.deep_view() == self@.impl_methods,
    {
        &self.impl_methods
    }

    /// The methods defined in `impl` blocks that carry bounds, to be changed in place.
    pub fn impl_methods_mut(&mut self) -> (list: &mut Vec<DeclBounds>)
        ensures
            list.deep_view() == old(self)@.impl_methods,
            final(self)@ == (ItemBoundsView { impl_methods: final(list).deep_view(), ..old(self)@ }),
    {
        &mut self.impl_methods
    }

    /// The enums that carry bounds.
    pub fn enums(&self) -> (list: &Vec<DeclBounds>)
        ensures
            list.deep_view() == self@.enums,
    {
        &self.enums
    }

    /// The enums that carry bounds, to be changed in place.
    pub fn enums_mut(&mut self) -> (list: &mut Vec<DeclBounds>)
        ensures
            list.deep_view() == old(self)@.enums,
            final(self)@ == (ItemBoundsView { enums: final(list).deep_view(), ..old(self)@ }),
    {
        &mut self.enums
    }

    /// The structs that carry bounds.
    pub fn structs(&self) -> (list: &Vec<DeclBounds>)
        ensures
            list.deep_view() == self@.structs,
    {
        &self.structs
    }

    /// The structs that carry bounds, to be changed in place.
    pub fn structs_mut(&mut self) -> (list: &mut Vec<DeclBounds>)
        ensures
            list.deep_view() == old(self)@.structs,
            final(self)@ == (ItemBoundsView { structs: final(list).deep_view(), ..old(self)@ }),
    {
        &mut self.structs
    }

    /// The `impl` blocks that carry bounds.
    pub fn impls(&self) -> (list: &Vec<DeclBounds>)
        ensures
            list.deep_view() == self@.impls,
    {
        &self.impls
    }

    /// The `impl` blocks that carry bounds, to be changed in place.
    pub fn impls_mut(&mut self) -> (list: &mut Vec<DeclBounds>)
        ensures
            list.deep_view() == old(self)@.impls,
            final(self)@ == (ItemBoundsView { impls: final(list).deep_view(), ..old(self)@ }),
    {
        &mut self.impls
    }
}

/// The identities of a list of records.
pub open spec fn keys_of(records: Seq<DeclBoundsView>) -> Seq<ItemKeyView> {
    records.map_values(|record: DeclBoundsView| record.item)
}

/// The identities of all gathered items, kind after kind.
pub open spec fn all_keys(items: ItemBoundsView) -> Seq<ItemKeyView> {
    keys_of(items.fns) + keys_of(items.traits) + keys_of(items.impls) + keys_of(
        items.trait_methods,
    ) + keys_of(items.impl_methods) + keys_of(items.enums) + keys_of(items.structs)
}

/// Appends the identities of `list` to `keys`.
fn push_keys<'a>(keys: &mut Vec<&'a ItemKey>, list: &'a Vec<DeclBounds>)
    ensures
        final(keys).deep_view() == old(keys).deep_view() + keys_of(list.deep_view()),
{
    let ghost before = keys.deep_view();
    let count: usize = list.len();
    let mut i: usize = 0;
    assert(keys.deep_view() =~= before + keys_of(list.deep_view()).take(0));
    while i < count
        invariant
            count == list.len(),
            i <= count,
            keys.deep_view() == before + keys_of(list.deep_view()).take(i as int),
        decreases count - i,
    {
        let ghost gathered = keys.deep_view();
        keys.push(&list[i].item);
        assert(keys.deep_view() =~= gathered.push(list@[i as int].item@));
        assert(keys_of(list.deep_view())[i as int] == list@[i as int].item@);
        i = i + 1;
        assert(keys_of(list.deep_view()).take(i as int) =~= keys_of(list.deep_view()).take(
            i - 1,
        ).push(list@[i - 1].item@));
    }
    assert(keys_of(list.deep_view()).take(count as int) =~= keys_of(list.deep_view()));
}

/// The identity of the declaration at `i`, which is no method.
fn item_key_of(file: &SyntaxTree, i: usize) -> (key: ItemKey)
    requires
        i < file@.len(),
    ensures
        key@ == item_record(file@, i as int).item,
{
    assert(file@.len() == file.nodes.len());
    let node = &file.nodes[i];
    let name = name_of_node(node);
    match node.kind {
        NodeKind::Struct => ItemKey {
            item: ItemRef::Struct(i),
            ident: clone_opt_text(&node.ident),
            label: ItemKey::struct_label(name.as_str()),
            span: node.anchor,
        },
        NodeKind::Enum => ItemKey {
            item: ItemRef::Enum(i),
            ident: clone_opt_text(&node.ident),
            label: ItemKey::enum_label(name.as_str()),
            span: node.anchor,
        },
        NodeKind::Trait => ItemKey {
            item: ItemRef::Trait(i),
            ident: clone_opt_text(&node.ident),
            label: ItemKey::trait_label(name.as_str()),
            span: node.anchor,
        },
        NodeKind::Impl => {
            let label = match &node.trait_path {
                Some(path) => ItemKey::impl_trait_label(path.as_str(), node.self_ty.as_str()),
                None => ItemKey::impl_inherent_label(node.self_ty.as_str()),
            };
            ItemKey { item: ItemRef::Impl(i), ident: None, label, span: node.anchor }
        },
        NodeKind::Function => ItemKey {
            item: ItemRef::Func(i),
            ident: clone_opt_text(&node.ident),
            label: ItemKey::fn_label(name.as_str()),
            span: node.anchor,
        },
        _ => ItemKey {
            item: ItemRef::Func(i),
            ident: clone_opt_text(&node.ident),
            label: String::new(),
            span: node.anchor,
        },
    }
}

/// The identity of the method at `method`, owned by the trait or `impl` block
/// at `owner`.
fn method_key_of(file: &SyntaxTree, owner: usize, method: usize) -> (key: ItemKey)
    requires
        owner < file@.len(),
        method < file@.len(),
    ensures
        key@ == method_record(file@, owner as int, method as int).item,
{
    assert(file@.len() == file.nodes.len());
    let holder = &file.nodes[owner];
    let node = &file.nodes[method];
    let name = name_of_node(node);
    if holder.kind == NodeKind::Trait {
        let trait_name = name_of_node(holder);
        ItemKey {
            item: ItemRef::TraitMethod { owner, method },
            ident: clone_opt_text(&node.ident),
            label: ItemKey::trait_method_label(trait_name.as_str(), name.as_str()),
            span: node.anchor,
        }
    } else {
        let written = match &holder.trait_path {
            Some(path) => path.clone().concat(" for ").concat(holder.self_ty.as_str()),
            None => holder.self_ty.clone(),
        };
        ItemKey {
            item: ItemRef::ImplMethod { owner, method },
            ident: clone_opt_text(&node.ident),
            label: ItemKey::impl_method_label(written.as_str(), name.as_str()),
            span: node.anchor,
        }
    }
}

/// The name of a declaration; empty if it has none.
fn name_of_node(node: &Node) -> (name: String)
    ensures
        name@ == name_of(node@),
{
    match &node.ident {
        Some(name) => name.clone(),
        None => String::new(),
    }
}

} // verus!
