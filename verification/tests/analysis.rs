use trait_winnower::analysis::{Collector, ItemBounds, ItemKey, ItemRef};
use trait_winnower::syntax::{
    GenericParam, Generics, Node, NodeKind, Span, SyntaxTree, WherePredicate,
};

enum Label<'a> {
    Eq(&'a str),
    StartsWith(&'a str),
    Contains(&'a str),
}

fn span(at: usize) -> Span {
    Span { lo: at, hi: at + 1, start_line: 1, start_column: at, end_line: 1, end_column: at + 1 }
}

fn texts(items: &[&str]) -> Vec<String> {
    items.iter().map(|s| s.to_string()).collect()
}

fn type_param(name: &str, bounds: &[&str]) -> GenericParam {
    GenericParam::Type { ident: name.to_string(), colon: !bounds.is_empty(), bounds: texts(bounds) }
}

fn pred(ty: &str, bounds: &[&str]) -> WherePredicate {
    WherePredicate::Type { bounded_ty: ty.to_string(), bounds: texts(bounds) }
}

fn generics(params: Vec<GenericParam>, preds: Option<Vec<WherePredicate>>) -> Generics {
    Generics { params, where_clause: preds }
}

fn no_generics() -> Generics {
    generics(vec![], None)
}

fn node(kind: NodeKind, depth: usize, name: Option<&str>, at: usize, generics: Generics) -> Node {
    Node {
        kind,
        depth,
        ident: name.map(|s| s.to_string()),
        anchor: span(at),
        generics,
        self_ty: String::new(),
        trait_path: None,
    }
}

fn impl_node(depth: usize, at: usize, self_ty: &str, trait_path: Option<&str>, g: Generics) -> Node {
    Node {
        kind: NodeKind::Impl,
        depth,
        ident: None,
        anchor: span(at),
        generics: g,
        self_ty: self_ty.to_string(),
        trait_path: trait_path.map(|s| s.to_string()),
    }
}

/// `<T: Copy> ... where T: Clone`
fn copy_and_clone() -> Generics {
    generics(vec![type_param("T", &["Copy"])], Some(vec![pred("T", &["Clone"])]))
}

/// `where T: Default`
fn where_default() -> Generics {
    generics(vec![], Some(vec![pred("T", &["Default"])]))
}

fn labels_from(nodes: Vec<Node>) -> Vec<String> {
    let file = SyntaxTree { nodes };
    let items = ItemBounds::collect_items_in_file(&file);
    items.iter_all_items().iter().map(|i| i.label.clone()).collect()
}

fn assert_has(labels: &[String], expected: &[Label<'_>]) {
    for want in expected {
        let ok = match want {
            Label::Eq(s) => labels.iter().any(|l| l == s),
            Label::StartsWith(s) => labels.iter().any(|l| l.starts_with(s)),
            Label::Contains(s) => labels.iter().any(|l| l.contains(s)),
        };
        assert!(ok, "missing label");
    }
}

fn assert_none(labels: &[String]) {
    assert!(labels.is_empty(), "expected no interesting items, but got: {:?}", labels);
}

#[test]
fn item_bounds_fn() {
    // fn foo<T: Copy>() where T: Clone { let x: i32 = 1; }
    let labels = labels_from(vec![node(NodeKind::Function, 0, Some("foo"), 3, copy_and_clone())]);
    assert_eq!(labels.len(), 1);
    assert_has(&labels, &[Label::Eq("// fn foo")]);
}

#[test]
fn item_bounds_fn_no_bounds() {
    // fn bar() {}
    let labels = labels_from(vec![node(NodeKind::Function, 0, Some("bar"), 3, no_generics())]);
    assert_none(&labels);
}

#[test]
fn item_bounds_fn_in_module_records_path() {
    // mod outer { fn foo<T: Copy>() {} }
    let file = SyntaxTree {
        nodes: vec![
            node(NodeKind::Module, 0, Some("outer"), 4, no_generics()),
            node(
                NodeKind::Function,
                1,
                Some("foo"),
                15,
                generics(vec![type_param("T", &["Copy"])], None),
            ),
        ],
    };
    let items = ItemBounds::collect_items_in_file(&file);
    assert_eq!(items.fns().len(), 1);
    let info = &items.fns()[0];
    assert_eq!(info.item.label, "// fn foo");
}

#[test]
fn item_bounds_struct() {
    // struct Bar<T: Copy> where T: Clone { a: T }
    let labels = labels_from(vec![node(NodeKind::Struct, 0, Some("Bar"), 7, copy_and_clone())]);
    assert_eq!(labels.len(), 1);
    assert_has(&labels, &[Label::Eq("// struct Bar")]);
}

#[test]
fn item_bounds_struct_no_bounds() {
    // struct Baz { a: i32 }
    let labels = labels_from(vec![node(NodeKind::Struct, 0, Some("Baz"), 7, no_generics())]);
    assert_none(&labels);
}

#[test]
fn item_bounds_enum() {
    // enum Baz<T: Copy> where T: Clone { A(T), B }
    let labels = labels_from(vec![node(NodeKind::Enum, 0, Some("Baz"), 5, copy_and_clone())]);
    assert_eq!(labels.len(), 1);
    assert_has(&labels, &[Label::Eq("// enum Baz")]);
}

#[test]
fn item_bounds_enum_no_bounds() {
    // enum Qux { A, B }
    let labels = labels_from(vec![node(NodeKind::Enum, 0, Some("Qux"), 5, no_generics())]);
    assert_none(&labels);
}

#[test]
fn item_bounds_trait_and_methods() {
    // trait Qux<T: Copy> where T: Clone {
    //     fn a(&self) where T: Default;
    //     fn b(&self) -> i32;
    // }
    let labels = labels_from(vec![
        node(NodeKind::Trait, 0, Some("Qux"), 6, copy_and_clone()),
        node(NodeKind::TraitMethod, 1, Some("a"), 40, where_default()),
        node(NodeKind::TraitMethod, 1, Some("b"), 70, no_generics()),
    ]);
    assert_has(&labels, &[Label::Eq("// trait Qux"), Label::Eq("// trait Qux::a")]);
    // Should not collect trait method b (no bounds)
    assert!(!labels.iter().any(|l| l == "// trait Qux::b"));
}

#[test]
fn item_bounds_trait_and_methods_no_bounds() {
    // trait Empty { fn a(&self); fn b(&self) -> i32; }
    let labels = labels_from(vec![
        node(NodeKind::Trait, 0, Some("Empty"), 6, no_generics()),
        node(NodeKind::TraitMethod, 1, Some("a"), 20, no_generics()),
        node(NodeKind::TraitMethod, 1, Some("b"), 40, no_generics()),
    ]);
    assert_none(&labels);
}

#[test]
fn item_bounds_impl_trait_and_methods() {
    // trait T { fn m(&self); }
    // struct S;
    // impl<T: Copy> T for S where T: Clone {
    //     fn m(&self) where T: Default {}
    //     fn n(&self) {}
    // }
    let labels = labels_from(vec![
        node(NodeKind::Trait, 0, Some("T"), 6, no_generics()),
        node(NodeKind::TraitMethod, 1, Some("m"), 13, no_generics()),
        node(NodeKind::Struct, 0, Some("S"), 35, no_generics()),
        impl_node(0, 40, "S", Some("T"), copy_and_clone()),
        node(NodeKind::ImplMethod, 1, Some("m"), 80, where_default()),
        node(NodeKind::ImplMethod, 1, Some("n"), 110, no_generics()),
    ]);
    assert_has(&labels, &[Label::StartsWith("// impl T for S"), Label::Contains("::m")]);
    assert!(!labels.iter().any(|l| l.contains("::n")));
}

#[test]
fn item_bounds_impl_trait_and_methods_no_bounds() {
    // trait T { fn m(&self); }  struct S;  impl T for S { fn m(&self) {} }
    let labels = labels_from(vec![
        node(NodeKind::Trait, 0, Some("T"), 6, no_generics()),
        node(NodeKind::TraitMethod, 1, Some("m"), 13, no_generics()),
        node(NodeKind::Struct, 0, Some("S"), 35, no_generics()),
        impl_node(0, 40, "S", Some("T"), no_generics()),
        node(NodeKind::ImplMethod, 1, Some("m"), 60, no_generics()),
    ]);
    assert_none(&labels);
}

#[test]
fn item_bounds_impl_inherent_and_methods() {
    // struct S;
    // impl<T: Copy> S where T: Clone {
    //     fn foo(&self) where T: Default {}
    //     fn bar(&self) {}
    // }
    let labels = labels_from(vec![
        node(NodeKind::Struct, 0, Some("S"), 7, no_generics()),
        impl_node(0, 10, "S", None, copy_and_clone()),
        node(NodeKind::ImplMethod, 1, Some("foo"), 50, where_default()),
        node(NodeKind::ImplMethod, 1, Some("bar"), 90, no_generics()),
    ]);
    assert_has(&labels, &[Label::StartsWith("// impl S"), Label::Contains("::foo")]);
    assert!(!labels.iter().any(|l| l.contains("::bar")));
}

#[test]
fn item_bounds_impl_inherent_and_methods_no_bounds() {
    // struct S;  impl S { fn foo(&self) {} fn bar(&self) {} }
    let labels = labels_from(vec![
        node(NodeKind::Struct, 0, Some("S"), 7, no_generics()),
        impl_node(0, 10, "S", None, no_generics()),
        node(NodeKind::ImplMethod, 1, Some("foo"), 20, no_generics()),
        node(NodeKind::ImplMethod, 1, Some("bar"), 40, no_generics()),
    ]);
    assert_none(&labels);
}

#[test]
fn labels_are_spelled_out() {
    assert_eq!(ItemKey::fn_label("f"), "// fn f");
    assert_eq!(ItemKey::struct_label("S"), "// struct S");
    assert_eq!(ItemKey::enum_label("E"), "// enum E");
    assert_eq!(ItemKey::trait_label("T"), "// trait T");
    assert_eq!(ItemKey::impl_inherent_label("S"), "// impl S");
    assert_eq!(ItemKey::impl_trait_label("T", "S"), "// impl T for S");
    assert_eq!(ItemKey::impl_method_label("T for S", "m"), "// T for S::m");
    assert_eq!(ItemKey::trait_method_label("T", "m"), "// trait T::m");
}

#[test]
fn impl_method_labels_name_the_owner() {
    let file = SyntaxTree {
        nodes: vec![
            impl_node(0, 0, "S", Some("T"), no_generics()),
            node(NodeKind::ImplMethod, 1, Some("m"), 20, where_default()),
            impl_node(0, 50, "Vec < U >", None, no_generics()),
            node(NodeKind::ImplMethod, 1, Some("k"), 70, where_default()),
        ],
    };
    let items = ItemBounds::collect_items_in_file(&file);
    let labels: Vec<String> = items.impl_methods().iter().map(|m| m.item.to_string()).collect();
    assert_eq!(labels, vec!["// T for S::m".to_string(), "// Vec < U >::k".to_string()]);
    assert_eq!(items.impl_methods()[0].item.item, ItemRef::ImplMethod { owner: 0, method: 1 });
    assert_eq!(items.impl_methods()[1].item.item, ItemRef::ImplMethod { owner: 2, method: 3 });
    assert!(items.impls().is_empty());
}

#[test]
fn coordinates_keep_positions_among_all_parameters() {
    // <'a, T, U: Clone + Send, const N: usize, V: Copy> where 'a: 'static, U: Sync, V:, W: Eq
    let g = generics(
        vec![
            GenericParam::Other { text: "'a".to_string() },
            type_param("T", &[]),
            type_param("U", &["Clone", "Send"]),
            GenericParam::Other { text: "const N : usize".to_string() },
            type_param("V", &["Copy"]),
        ],
        Some(vec![
            WherePredicate::Other { text: "'a : 'static".to_string() },
            pred("U", &["Sync"]),
            pred("V", &[]),
            pred("W", &["Eq"]),
        ]),
    );
    let tps = Collector::type_param_bounds(&g);
    assert_eq!(tps.len(), 2);
    assert_eq!((tps[0].ident().as_str(), tps[0].param_index()), ("U", 2));
    assert_eq!(tps[0].bounds(), &texts(&["Clone", "Send"]));
    assert_eq!((tps[1].ident().as_str(), tps[1].param_index()), ("V", 4));
    let wbs = Collector::where_bounds(&g);
    assert_eq!(wbs.len(), 2);
    assert_eq!((wbs[0].bounded_ty().as_str(), wbs[0].pred_index()), ("U", 1));
    assert_eq!((wbs[1].bounded_ty().as_str(), wbs[1].pred_index()), ("W", 3));
    assert_eq!(wbs[1].bounds(), &texts(&["Eq"]));
}

#[test]
fn items_are_filed_by_kind_in_source_order() {
    let bounded = || generics(vec![type_param("T", &["Copy"])], None);
    let file = SyntaxTree {
        nodes: vec![
            node(NodeKind::Struct, 0, Some("A"), 1, bounded()),
            node(NodeKind::Function, 0, Some("f"), 2, bounded()),
            node(NodeKind::Trait, 0, Some("Tr"), 3, bounded()),
            node(NodeKind::TraitMethod, 1, Some("m1"), 4, bounded()),
            // a trait nested in the body of `m1`
            node(NodeKind::Trait, 2, Some("Inner"), 5, no_generics()),
            node(NodeKind::TraitMethod, 3, Some("x"), 6, bounded()),
            node(NodeKind::TraitMethod, 1, Some("m2"), 7, bounded()),
            node(NodeKind::Enum, 0, Some("E"), 8, bounded()),
            node(NodeKind::Function, 0, Some("g"), 9, bounded()),
            // a function nested in the body of `g`
            node(NodeKind::Function, 1, Some("h"), 10, bounded()),
        ],
    };
    let items = ItemBounds::collect_items_in_file(&file);
    let names = |list: &Vec<trait_winnower::analysis::DeclBounds>| -> Vec<String> {
        list.iter().map(|b| b.item_key().to_string()).collect()
    };
    assert_eq!(names(items.fns()), vec!["// fn f", "// fn g", "// fn h"]);
    assert_eq!(names(items.traits()), vec!["// trait Tr"]);
    assert_eq!(
        names(items.trait_methods()),
        vec!["// trait Tr::m1", "// trait Tr::m2", "// trait Inner::x"]
    );
    assert_eq!(names(items.enums()), vec!["// enum E"]);
    assert_eq!(names(items.structs()), vec!["// struct A"]);
    let all: Vec<String> = items.iter_all_items().iter().map(|k| k.to_string()).collect();
    assert_eq!(
        all,
        vec![
            "// fn f",
            "// fn g",
            "// fn h",
            "// trait Tr",
            "// trait Tr::m1",
            "// trait Tr::m2",
            "// trait Inner::x",
            "// enum E",
            "// struct A"
        ]
    );
    assert_eq!(items.fns()[0].item_key().span(), span(2));
    assert_eq!(items.fns()[0].item_key().ident(), Some(&"f".to_string()));
    assert_eq!(*items.fns()[0].item_key().item(), ItemRef::Func(1));
}

#[test]
fn empty_holds_nothing() {
    let none = ItemBounds::empty();
    assert!(none.iter_all_items().is_empty());
    assert!(none.fns().is_empty() && none.structs().is_empty());
}

#[test]
fn subtree_end_is_past_the_nested_declarations() {
    let file = SyntaxTree {
        nodes: vec![
            node(NodeKind::Module, 0, Some("a"), 1, no_generics()),
            node(NodeKind::Function, 1, Some("f"), 2, no_generics()),
            node(NodeKind::Function, 2, Some("g"), 3, no_generics()),
            node(NodeKind::Function, 1, Some("h"), 4, no_generics()),
            node(NodeKind::Function, 0, Some("k"), 5, no_generics()),
        ],
    };
    assert_eq!(file.subtree_end(0), 4);
    assert_eq!(file.subtree_end(1), 3);
    assert_eq!(file.subtree_end(2), 3);
    assert_eq!(file.subtree_end(4), 5);
}
