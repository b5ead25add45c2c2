use trait_winnower::analysis::{Collector, DeclBounds, ItemKey, ItemRef};
use trait_winnower::dynamic_analysis::common::{
    BoundCandidate, BoundSite, HasGenerics, Remove,
};
use trait_winnower::dynamic_analysis::edit::BoundEditor;
use trait_winnower::syntax::{
    GenericParam, Generics, Node, NodeKind, Span, SyntaxTree, WherePredicate,
};

fn span(at: usize) -> Span {
    Span { lo: at, hi: at + 1, start_line: 1, start_column: at, end_line: 1, end_column: at + 1 }
}

fn texts(items: &[&str]) -> Vec<String> {
    items.iter().map(|s| s.to_string()).collect()
}

fn type_param(name: &str, bounds: &[&str]) -> GenericParam {
    GenericParam::Type { ident: name.to_string(), colon: !bounds.is_empty(), bounds: texts(bounds) }
}

fn pred(ty: &str, bounds: &[&str]) -> WherePredicate {
    WherePredicate::Type { bounded_ty: ty.to_string(), bounds: texts(bounds) }
}

fn node(kind: NodeKind, depth: usize, name: Option<&str>, at: usize, generics: Generics) -> Node {
    Node {
        kind,
        depth,
        ident: name.map(|s| s.to_string()),
        anchor: span(at),
        generics,
        self_ty: String::new(),
        trait_path: None,
    }
}

fn tp_site(k: usize, j: usize) -> BoundCandidate {
    BoundCandidate {
        site: BoundSite::TypeParam { ident: "T".to_string(), param_index: k, bound_index: j },
        bound: "X".to_string(),
    }
}

fn where_site(p: usize, j: usize) -> BoundCandidate {
    BoundCandidate {
        site: BoundSite::WhereClause { ty: "T".to_string(), pred_index: p, bound_index: j },
        bound: "X".to_string(),
    }
}

fn sample() -> Generics {
    Generics {
        params: vec![
            GenericParam::Other { text: "'a".to_string() },
            type_param("T", &["A", "B", "C", "D"]),
            type_param("U", &["E"]),
        ],
        where_clause: Some(vec![pred("T", &["F", "G"]), pred("U", &["H"])]),
    }
}

#[test]
fn removing_a_param_bound_shifts_the_later_bounds_down() {
    let mut n = node(NodeKind::Function, 0, Some("f"), 1, sample());
    assert!(Remove::apply_to_item_with_generics(&mut n, &tp_site(1, 1)));
    let mut expected = sample();
    expected.params[1] = type_param("T", &["A", "C", "D"]);
    assert_eq!(n.generics, expected);
    // the coordinate now points at what was the next bound
    assert!(Remove::apply_to_item_with_generics(&mut n, &tp_site(1, 1)));
    expected.params[1] = type_param("T", &["A", "D"]);
    assert_eq!(n.generics, expected);
    assert_eq!(n.kind, NodeKind::Function);
    assert_eq!(n.ident, Some("f".to_string()));
}

#[test]
fn removing_the_last_param_bound_drops_the_colon() {
    let mut n = node(NodeKind::Function, 0, Some("f"), 1, sample());
    assert!(Remove::apply_to_item_with_generics(&mut n, &tp_site(2, 0)));
    let mut expected = sample();
    expected.params[2] = GenericParam::Type { ident: "U".to_string(), colon: false, bounds: vec![] };
    assert_eq!(n.generics, expected);
}

#[test]
fn a_coordinate_that_points_at_nothing_changes_nothing() {
    for candidate in [
        tp_site(0, 0),
        tp_site(1, 4),
        tp_site(3, 0),
        tp_site(usize::MAX, usize::MAX),
        where_site(0, 2),
        where_site(2, 0),
        where_site(usize::MAX, 0),
    ] {
        let mut n = node(NodeKind::Function, 0, Some("f"), 1, sample());
        assert!(!Remove::apply_to_item_with_generics(&mut n, &candidate));
        assert_eq!(n.generics, sample());
    }
    let mut bare = node(NodeKind::Function, 0, Some("f"), 1, Generics::new());
    assert!(!Remove::apply_to_item_with_generics(&mut bare, &where_site(0, 0)));
    assert!(!Remove::apply_to_item_with_generics(&mut bare, &tp_site(0, 0)));
    assert_eq!(bare.generics, Generics::new());
}

#[test]
fn removing_where_bounds_drops_empty_predicates_and_clauses() {
    let mut n = node(NodeKind::Struct, 0, Some("S"), 1, sample());
    assert!(Remove::apply_to_item_with_generics(&mut n, &where_site(0, 0)));
    assert_eq!(n.generics.where_clause, Some(vec![pred("T", &["G"]), pred("U", &["H"])]));
    assert!(Remove::apply_to_item_with_generics(&mut n, &where_site(0, 0)));
    assert_eq!(n.generics.where_clause, Some(vec![pred("U", &["H"])]));
    assert!(Remove::apply_to_item_with_generics(&mut n, &where_site(0, 0)));
    assert_eq!(n.generics.where_clause, None);
    assert_eq!(n.generics.params, sample().params);
}

#[test]
fn a_lifetime_predicate_keeps_the_clause() {
    let mut g = Generics {
        params: vec![],
        where_clause: Some(vec![
            WherePredicate::Other { text: "'a : 'b".to_string() },
            pred("T", &["Clone"]),
        ]),
    };
    assert!(!Remove::apply_to_item_with_generics(
        &mut node(NodeKind::Function, 0, None, 0, g.clone()),
        &where_site(0, 0)
    ));
    let mut n = node(NodeKind::Function, 0, None, 0, g.clone());
    assert!(Remove::apply_to_item_with_generics(&mut n, &where_site(1, 0)));
    g.where_clause = Some(vec![WherePredicate::Other { text: "'a : 'b".to_string() }]);
    assert_eq!(n.generics, g);
}

#[test]
fn list_helpers_remove_one_element() {
    let mut list = vec![1, 2, 3];
    assert!(Remove::remove_punctuated_at(&mut list, 1));
    assert_eq!(list, vec![1, 3]);
    assert!(!Remove::remove_punctuated_at(&mut list, 2));
    assert_eq!(list, vec![1, 3]);
    let preds = vec![pred("A", &["X"]), pred("B", &["Y"]), pred("C", &["Z"])];
    assert_eq!(
        Remove::drop_predicate_at(preds.clone(), 0),
        vec![pred("B", &["Y"]), pred("C", &["Z"])]
    );
    assert_eq!(Remove::drop_predicate_at(preds.clone(), 3), preds);
}

#[test]
fn generics_mut_hands_out_the_generics() {
    let mut n = node(NodeKind::Enum, 0, Some("E"), 1, sample());
    n.generics_mut().where_clause = None;
    assert_eq!(n.generics.where_clause, None);
    assert_eq!(n.generics.params, sample().params);
}

#[test]
fn candidates_come_params_first_by_ascending_index() {
    let g = sample();
    let record = DeclBounds {
        item: ItemKey {
            item: ItemRef::Func(0),
            ident: Some("f".to_string()),
            label: ItemKey::fn_label("f"),
            span: span(1),
        },
        type_params: Collector::type_param_bounds(&g),
        where_preds: Collector::where_bounds(&g),
    };
    let got: Vec<String> = BoundCandidate::collect_candidates(&record)
        .iter()
        .map(|c| match &c.site {
            BoundSite::TypeParam { ident, param_index, bound_index } => {
                format!("{}[{}][{}]={}", ident, param_index, bound_index, c.bound)
            }
            BoundSite::WhereClause { ty, pred_index, bound_index } => {
                format!("where {}[{}][{}]={}", ty, pred_index, bound_index, c.bound)
            }
        })
        .collect();
    assert_eq!(
        got,
        vec![
            "T[1][0]=A",
            "T[1][1]=B",
            "T[1][2]=C",
            "T[1][3]=D",
            "U[2][0]=E",
            "where T[0][0]=F",
            "where T[0][1]=G",
            "where U[1][0]=H"
        ]
    );
    assert_eq!(
        format!("{:?}", BoundCandidate::collect_candidates(&record)[0]),
        "BoundCandidate { site: TypeParam { ident: \"T\", param_index: 1, bound_index: 0 }, bound: \"A\" }"
    );
}

fn one() -> Generics {
    Generics { params: vec![type_param("T", &["Clone"])], where_clause: None }
}

fn nested_file() -> SyntaxTree {
    SyntaxTree {
        nodes: vec![
            node(NodeKind::Function, 0, Some("outer"), 10, one()),
            // nested in the body of `outer`: out of reach
            node(NodeKind::Function, 1, Some("hidden"), 20, one()),
            node(NodeKind::Module, 0, Some("m"), 30, Generics::new()),
            node(NodeKind::Trait, 1, Some("Tr"), 40, one()),
            node(NodeKind::TraitMethod, 2, Some("go"), 50, one()),
            node(NodeKind::Impl, 0, None, 60, one()),
            node(NodeKind::ImplMethod, 1, Some("go"), 70, one()),
            node(NodeKind::Struct, 0, Some("S"), 80, one()),
        ],
    }
}

fn edit(file: &mut SyntaxTree, ident: Option<&str>, at: usize, candidate: &BoundCandidate) -> bool {
    let name = ident.map(|s| s.to_string());
    let mut editor = BoundEditor::new(name.as_ref(), span(at), candidate);
    assert!(!editor.modified());
    editor.visit_file_mut(file);
    editor.modified()
}

#[test]
fn the_editor_changes_the_declaration_aimed_at_and_no_other() {
    for (at, name, index) in [
        (10, Some("outer"), 0),
        (40, Some("Tr"), 3),
        (50, Some("go"), 4),
        (60, None, 5),
        (70, Some("go"), 6),
        (80, Some("S"), 7),
    ] {
        let mut file = nested_file();
        assert!(edit(&mut file, name, at, &tp_site(0, 0)));
        let mut expected = nested_file();
        expected.nodes[index].generics.params[0] =
            GenericParam::Type { ident: "T".to_string(), colon: false, bounds: vec![] };
        assert_eq!(file, expected);
        assert_eq!(BoundEditor::locate(&nested_file(), span(at), None), Some(index));
    }
}

#[test]
fn the_editor_passes_by_what_it_cannot_reach_or_does_not_find() {
    let mut file = nested_file();
    // nested in a function body
    assert!(!edit(&mut file, Some("hidden"), 20, &tp_site(0, 0)));
    // a module carries no generics
    assert!(!edit(&mut file, Some("m"), 30, &tp_site(0, 0)));
    // no such anchor
    assert!(!edit(&mut file, Some("outer"), 11, &tp_site(0, 0)));
    // the name is not the expected one
    assert!(!edit(&mut file, Some("inner"), 10, &tp_site(0, 0)));
    // the coordinate points at nothing
    assert!(!edit(&mut file, Some("outer"), 10, &tp_site(0, 1)));
    assert!(!edit(&mut file, Some("outer"), 10, &where_site(0, 0)));
    assert_eq!(file, nested_file());
    assert_eq!(BoundEditor::locate(&file, span(20), None), None);
}

#[test]
fn the_first_match_wins() {
    let mut file = SyntaxTree {
        nodes: vec![
            node(NodeKind::Function, 0, Some("f"), 10, one()),
            node(NodeKind::Function, 0, Some("f"), 10, one()),
        ],
    };
    assert!(edit(&mut file, Some("f"), 10, &tp_site(0, 0)));
    assert_eq!(file.nodes[1].generics, one());
    assert!(file.nodes[0].generics != one());
    // what is left of the first match has no such bound: nothing changes
    assert!(!edit(&mut file, Some("f"), 10, &tp_site(0, 0)));
    assert_eq!(file.nodes[1].generics, one());
}

#[test]
fn spans_match_by_bytes_or_by_lines_and_columns() {
    let candidate = tp_site(0, 0);
    let editor = BoundEditor::new(None, span(0), &candidate);
    let a = Span { lo: 5, hi: 8, start_line: 2, start_column: 1, end_line: 2, end_column: 4 };
    let same_bytes = Span { lo: 5, hi: 8, start_line: 9, start_column: 9, end_line: 9, end_column: 9 };
    let same_place = Span { lo: 105, hi: 108, ..a };
    let other = Span { lo: 6, hi: 8, start_line: 2, start_column: 2, end_line: 2, end_column: 4 };
    assert!(editor.spans_equal(a, a));
    assert!(editor.spans_equal(a, same_bytes));
    assert!(editor.spans_equal(a, same_place));
    assert!(!editor.spans_equal(a, other));
    let mut file = SyntaxTree { nodes: vec![node(NodeKind::Function, 0, Some("f"), 5, one())] };
    file.nodes[0].anchor = same_place;
    let mut by_place = BoundEditor::new(None, a, &candidate);
    by_place.visit_file_mut(&mut file);
    assert!(by_place.modified());
}

#[test]
fn try_edit_node_reports_whether_the_node_was_aimed_at() {
    let candidate = tp_site(0, 1);
    let name = "f".to_string();
    let other = "g".to_string();
    let mut editor = BoundEditor::new(Some(&name), span(3), &candidate);
    let mut n = node(NodeKind::Function, 0, Some("f"), 3, one());
    assert!(!editor.try_edit_node(&mut n, Some(&other), span(3)));
    assert!(!editor.try_edit_node(&mut n, Some(&name), span(4)));
    // aimed at, but there is no second bound
    assert!(editor.try_edit_node(&mut n, Some(&name), span(3)));
    assert!(!editor.modified());
    assert_eq!(n.generics, one());
    let first = tp_site(0, 0);
    let mut editor = BoundEditor::new(Some(&name), span(3), &first);
    assert!(editor.try_edit_node(&mut n, None, span(3)));
    assert!(editor.modified());
    // an editor that has removed a bound passes every node by
    let mut again = node(NodeKind::Function, 0, Some("f"), 3, one());
    assert!(!editor.try_edit_node(&mut again, Some(&name), span(3)));
    assert_eq!(again.generics, one());
}
