use trait_winnower::analysis::{DeclBounds, ItemBounds};
use trait_winnower::cli::TargetType;
use trait_winnower::dynamic_analysis::common::{
    BoundRemovalOutcome, BoundRemovalResult, CommandOutput, ExitStatus,
};
use trait_winnower::dynamic_analysis::trial::{
    hash_bytes, Action, Event, Phase, PruneItem, PruneSession,
};
use trait_winnower::syntax::{
    GenericParam, Generics, Node, NodeKind, Span, SyntaxTree, WherePredicate,
};

fn span(at: usize) -> Span {
    Span { lo: at, hi: at + 1, start_line: 1, start_column: at, end_line: 1, end_column: at + 1 }
}

fn texts(items: &[&str]) -> Vec<String> {
    items.iter().map(|s| s.to_string()).collect()
}

fn type_param(name: &str, bounds: &[&str]) -> GenericParam {
    GenericParam::Type { ident: name.to_string(), colon: !bounds.is_empty(), bounds: texts(bounds) }
}

fn pred(ty: &str, bounds: &[&str]) -> WherePredicate {
    WherePredicate::Type { bounded_ty: ty.to_string(), bounds: texts(bounds) }
}

fn node(kind: NodeKind, depth: usize, name: Option<&str>, at: usize, generics: Generics) -> Node {
    Node {
        kind,
        depth,
        ident: name.map(|s| s.to_string()),
        anchor: span(at),
        generics,
        self_ty: "S".to_string(),
        trait_path: None,
    }
}

/// Prints a tree, one declaration a line.
fn render(tree: &SyntaxTree) -> String {
    let mut out = String::new();
    for n in &tree.nodes {
        out.push_str(&format!("{:?} {}", n.kind, n.ident.clone().unwrap_or_default()));
        if !n.generics.params.is_empty() {
            let params: Vec<String> = n
                .generics
                .params
                .iter()
                .map(|p| match p {
                    GenericParam::Type { ident, colon, bounds } => {
                        if *colon {
                            format!("{}: {}", ident, bounds.join(" + "))
                        } else {
                            ident.clone()
                        }
                    }
                    GenericParam::Other { text } => text.clone(),
                })
                .collect();
            out.push_str(&format!("<{}>", params.join(", ")));
        }
        if let Some(preds) = &n.generics.where_clause {
            let preds: Vec<String> = preds
                .iter()
                .map(|p| match p {
                    WherePredicate::Type { bounded_ty, bounds } => {
                        format!("{}: {}", bounded_ty, bounds.join(" + "))
                    }
                    WherePredicate::Other { text } => text.clone(),
                })
                .collect();
            out.push_str(&format!(" where {}", preds.join(", ")));
        }
        out.push('\n');
    }
    out
}

fn output(code: i32) -> CommandOutput {
    CommandOutput {
        status: ExitStatus { code: Some(code) },
        stdout: String::new(),
        stderr: if code == 0 { String::new() } else { "error".to_string() },
    }
}

/// What a run did outside the engine.
struct Run {
    disk: String,
    verified: Vec<String>,
    writes: Vec<String>,
    ledger: Vec<BoundRemovalResult>,
    working: SyntaxTree,
    current: String,
}

/// Runs the engine to its end with `printer` as the printer and `accepts` as
/// the verifier.
fn run_with(
    tree: SyntaxTree,
    bounds: Vec<DeclBounds>,
    printer: &dyn Fn(&SyntaxTree) -> String,
    accepts: &dyn Fn(&str) -> bool,
) -> Run {
    let source = printer(&tree);
    let mut disk = source.clone();
    let mut verified = Vec::new();
    let mut writes = Vec::new();
    let mut session = PruneItem::prune_bounds(tree, bounds, source);
    assert_eq!(session.phase(), Phase::Pending);
    let mut event = Event::Start;
    loop {
        let before_trial = session.current_src().clone();
        match session.step(event) {
            Action::Render(trial) => {
                assert_eq!(session.phase(), Phase::Applying);
                assert_eq!(disk, *session.current_src());
                event = Event::Rendered(printer(&trial));
            }
            Action::Verify(text) => {
                assert_eq!(session.phase(), Phase::Verifying);
                assert_ne!(hash_bytes(&text), session.current_hash());
                disk = text.clone();
                writes.push(text.clone());
                verified.push(text.clone());
                event = Event::Checked(output(if accepts(&text) { 0 } else { 1 }));
            }
            Action::Revert(text) => {
                assert_eq!(session.phase(), Phase::Reverting);
                assert_eq!(text, before_trial);
                disk = text.clone();
                writes.push(text);
                event = Event::Reverted;
            }
            Action::Finish => break,
            Action::Refused => panic!("the engine refused an event"),
        }
    }
    assert_eq!(session.phase(), Phase::Finished);
    assert!(session.bounds().is_empty());
    assert_eq!(disk, *session.current_src());
    let working = session.working().clone();
    let current = session.current_src().clone();
    Run { disk, verified, writes, ledger: session.into_outcomes(), working, current }
}

fn run(tree: SyntaxTree, target: TargetType, accepts: &dyn Fn(&str) -> bool) -> Run {
    let bounds = PruneItem::select(ItemBounds::collect_items_in_file(&tree), target);
    run_with(tree, bounds, &render, accepts)
}

fn outcomes(run: &Run) -> Vec<String> {
    run.ledger
        .iter()
        .map(|r| {
            let what = match &r.outcome {
                BoundRemovalOutcome::Removed { check } => {
                    assert!(check.status.success());
                    "removed"
                }
                BoundRemovalOutcome::Retained { check } => {
                    assert!(!check.status.success());
                    "retained"
                }
                BoundRemovalOutcome::Skipped => "skipped",
            };
            format!("{} {}", what, r.candidate.bound)
        })
        .collect()
}

#[test]
fn scenario_one_unused_bound_is_removed() {
    let tree = SyntaxTree {
        nodes: vec![node(
            NodeKind::Function,
            0,
            Some("f"),
            3,
            Generics { params: vec![type_param("T", &["Clone"])], where_clause: None },
        )],
    };
    let got = run(tree, TargetType::Function, &|_| true);
    assert_eq!(outcomes(&got), vec!["removed Clone"]);
    assert_eq!(got.verified.len(), 1);
    assert_eq!(
        got.working.nodes[0].generics.params,
        vec![GenericParam::Type { ident: "T".to_string(), colon: false, bounds: vec![] }]
    );
    assert_eq!(got.disk, "Function f<T>\n");
    assert_eq!(got.current, got.disk);
}

#[test]
fn scenario_the_used_bound_of_two_is_retained() {
    let tree = SyntaxTree {
        nodes: vec![node(
            NodeKind::Function,
            0,
            Some("f"),
            3,
            Generics { params: vec![type_param("T", &["Unused", "Used"])], where_clause: None },
        )],
    };
    let got = run(tree, TargetType::All, &|text| text.contains("Used"));
    assert_eq!(outcomes(&got), vec!["removed Unused", "retained Used"]);
    assert_eq!(got.working.nodes[0].generics.params, vec![type_param("T", &["Used"])]);
    assert_eq!(got.disk, "Function f<T: Used>\n");
    // the rejected trial was written, and written back
    assert_eq!(
        got.writes,
        vec!["Function f<T: Used>\n", "Function f<T>\n", "Function f<T: Used>\n"]
    );
}

#[test]
fn scenario_a_needed_where_clause_stays_byte_for_byte() {
    let tree = SyntaxTree {
        nodes: vec![
            node(
                NodeKind::Impl,
                0,
                None,
                0,
                Generics { params: vec![type_param("T", &[])], where_clause: Some(vec![pred("T", &["Clone"])]) },
            ),
            node(NodeKind::ImplMethod, 1, Some("go"), 20, Generics::new()),
        ],
    };
    let baseline = render(&tree);
    let before = SyntaxTree { nodes: tree.nodes.to_vec() };
    let got = run(tree, TargetType::Impl, &|text| text.contains("where T: Clone"));
    assert_eq!(outcomes(&got), vec!["retained Clone"]);
    assert_eq!(got.disk, baseline);
    assert_eq!(got.current, baseline);
    assert_eq!(got.working, before);
    assert_eq!(got.writes.last(), Some(&baseline));
}

#[test]
fn scenario_only_the_method_bound_is_a_candidate() {
    let tree = SyntaxTree {
        nodes: vec![
            node(NodeKind::Trait, 0, Some("Tr"), 6, Generics::new()),
            node(
                NodeKind::TraitMethod,
                1,
                Some("go"),
                20,
                Generics { params: vec![], where_clause: Some(vec![pred("Self", &["Sized"])]) },
            ),
        ],
    };
    let items = ItemBounds::collect_items_in_file(&tree);
    assert!(items.traits().is_empty());
    assert_eq!(items.trait_methods().len(), 1);
    let got = run(tree, TargetType::All, &|_| true);
    assert_eq!(outcomes(&got), vec!["removed Sized"]);
    assert_eq!(got.working.nodes[0], node(NodeKind::Trait, 0, Some("Tr"), 6, Generics::new()));
    assert_eq!(got.working.nodes[1].generics, Generics::new());
    assert_eq!(got.disk, "Trait Tr\nTraitMethod go\n");
}

#[test]
fn coordinates_are_taken_anew_after_each_removal() {
    let tree = SyntaxTree {
        nodes: vec![node(
            NodeKind::Function,
            0,
            Some("f"),
            3,
            Generics { params: vec![type_param("T", &["A", "B", "C"])], where_clause: None },
        )],
    };
    let got = run(tree, TargetType::Function, &|text| text.contains("B"));
    assert_eq!(outcomes(&got), vec!["removed A", "retained B", "removed C", "retained B"]);
    assert_eq!(got.working.nodes[0].generics.params, vec![type_param("T", &["B"])]);
    assert_eq!(got.verified.len(), 4);
}

#[test]
fn a_second_run_changes_nothing() {
    let tree = SyntaxTree {
        nodes: vec![
            node(
                NodeKind::Function,
                0,
                Some("f"),
                3,
                Generics {
                    params: vec![type_param("T", &["A", "Keep", "C"])],
                    where_clause: Some(vec![pred("T", &["D"])]),
                },
            ),
            node(
                NodeKind::Struct,
                0,
                Some("S"),
                30,
                Generics { params: vec![type_param("U", &["Keep", "E"])], where_clause: None },
            ),
        ],
    };
    let keeps = |text: &str| text.matches("Keep").count() == 2;
    let first = run(tree, TargetType::All, &keeps);
    assert_eq!(first.disk, "Function f<T: Keep>\nStruct S<U: Keep>\n");
    let again = SyntaxTree { nodes: first.working.nodes.to_vec() };
    let second = run(again, TargetType::All, &keeps);
    assert_eq!(second.disk, first.disk);
    assert_eq!(second.working, first.working);
    assert_eq!(outcomes(&second), vec!["retained Keep", "retained Keep"]);
}

#[test]
fn a_trial_that_prints_the_same_text_never_reaches_the_verifier() {
    let tree = SyntaxTree {
        nodes: vec![node(
            NodeKind::Function,
            0,
            Some("f"),
            3,
            Generics {
                params: vec![type_param("T", &["A", "B"])],
                where_clause: Some(vec![pred("T", &["C"])]),
            },
        )],
    };
    let before = SyntaxTree { nodes: tree.nodes.to_vec() };
    let bounds = PruneItem::select(ItemBounds::collect_items_in_file(&tree), TargetType::All);
    let got = run_with(tree, bounds, &|_| "always the same".to_string(), &|_| {
        panic!("the verifier was asked")
    });
    assert_eq!(outcomes(&got), vec!["skipped A", "skipped B", "skipped C"]);
    assert!(got.verified.is_empty() && got.writes.is_empty());
    assert_eq!(got.working, before);
    assert_eq!(got.disk, "always the same");
}

#[test]
fn an_item_that_is_not_found_is_skipped() {
    let tree = SyntaxTree {
        nodes: vec![node(
            NodeKind::Function,
            0,
            Some("f"),
            3,
            Generics { params: vec![type_param("T", &["A"])], where_clause: None },
        )],
    };
    let mut bounds = PruneItem::select(ItemBounds::collect_items_in_file(&tree), TargetType::All);
    bounds[0].item.span = span(99);
    let got = run_with(tree, bounds, &render, &|_| true);
    assert_eq!(outcomes(&got), vec!["skipped A"]);
    assert!(got.writes.is_empty());
}

#[test]
fn an_aborted_trial_is_written_back_and_ends_the_run() {
    let tree = SyntaxTree {
        nodes: vec![node(
            NodeKind::Function,
            0,
            Some("f"),
            3,
            Generics { params: vec![type_param("T", &["A", "B"])], where_clause: None },
        )],
    };
    let source = render(&tree);
    let bounds = PruneItem::select(ItemBounds::collect_items_in_file(&tree), TargetType::All);
    let mut session = PruneSession::new(tree, bounds, source.clone());
    let trial = match session.step(Event::Start) {
        Action::Render(trial) => trial,
        other => panic!("{:?}", other),
    };
    assert_eq!(session.step(Event::Rendered(render(&trial))), Action::Verify("Function f<T: B>\n".to_string()));
    assert_eq!(session.step(Event::Aborted), Action::Revert(source.clone()));
    assert_eq!(session.phase(), Phase::Halting);
    assert_eq!(session.step(Event::Reverted), Action::Finish);
    assert_eq!(session.phase(), Phase::Finished);
    assert!(session.outcomes().is_empty());
    assert_eq!(*session.current_src(), source);
}

#[test]
fn an_event_out_of_turn_is_refused() {
    let tree = SyntaxTree {
        nodes: vec![node(
            NodeKind::Function,
            0,
            Some("f"),
            3,
            Generics { params: vec![type_param("T", &["A"])], where_clause: None },
        )],
    };
    let source = render(&tree);
    let bounds = PruneItem::select(ItemBounds::collect_items_in_file(&tree), TargetType::All);
    let mut session = PruneSession::new(tree, bounds, source);
    assert_eq!(session.step(Event::Reverted), Action::Refused);
    assert_eq!(session.step(Event::Checked(output(0))), Action::Refused);
    assert_eq!(session.phase(), Phase::Pending);
    assert!(matches!(session.step(Event::Start), Action::Render(_)));
    assert_eq!(session.step(Event::Start), Action::Refused);
    assert_eq!(session.step(Event::Aborted), Action::Refused);
    assert_eq!(session.phase(), Phase::Applying);
    assert!(session.outcomes().is_empty());
}

#[test]
fn a_run_without_items_finishes_at_once() {
    let mut session = PruneSession::new(SyntaxTree::new(), vec![], "text".to_string());
    assert_eq!(session.step(Event::Start), Action::Finish);
    assert_eq!(session.phase(), Phase::Finished);
    assert_eq!(session.step(Event::Start), Action::Refused);
}

#[test]
fn a_signal_is_no_success() {
    assert!(ExitStatus { code: Some(0) }.success());
    assert!(!ExitStatus { code: Some(1) }.success());
    assert!(!ExitStatus { code: None }.success());
}

#[test]
fn the_checksum_is_crc32() {
    assert_eq!(hash_bytes("123456789"), 0xCBF4_3926);
    assert_eq!(hash_bytes(""), 0);
    assert_ne!(hash_bytes("fn f<T: Clone>() {}"), hash_bytes("fn f<T>() {}"));
}

#[test]
fn every_kind_is_processed_in_a_fixed_order() {
    let bounded = || Generics { params: vec![type_param("T", &["X"])], where_clause: None };
    let tree = SyntaxTree {
        nodes: vec![
            node(NodeKind::Struct, 0, Some("St"), 1, bounded()),
            node(NodeKind::Enum, 0, Some("En"), 2, bounded()),
            node(NodeKind::Impl, 0, None, 3, bounded()),
            node(NodeKind::ImplMethod, 1, Some("im"), 4, bounded()),
            node(NodeKind::Trait, 0, Some("Tr"), 5, bounded()),
            node(NodeKind::TraitMethod, 1, Some("tm"), 6, bounded()),
            node(NodeKind::Function, 0, Some("f"), 7, bounded()),
        ],
    };
    let labels = |target: TargetType| -> Vec<String> {
        PruneItem::select(ItemBounds::collect_items_in_file(&tree), target)
            .iter()
            .map(|b| b.item.to_string())
            .collect()
    };
    assert_eq!(
        labels(TargetType::All),
        vec![
            "// fn f",
            "// impl S",
            "// trait Tr",
            "// trait Tr::tm",
            "// S::im",
            "// enum En",
            "// struct St"
        ]
    );
    assert_eq!(labels(TargetType::Function), vec!["// fn f"]);
    assert_eq!(labels(TargetType::Impl), vec!["// impl S"]);
    assert_eq!(labels(TargetType::Trait), vec!["// trait Tr"]);
    assert_eq!(labels(TargetType::TraitMethod), vec!["// trait Tr::tm"]);
    assert_eq!(labels(TargetType::ImplMethod), vec!["// S::im"]);
    assert_eq!(labels(TargetType::Enum), vec!["// enum En"]);
    assert_eq!(labels(TargetType::Struct), vec!["// struct St"]);
}
