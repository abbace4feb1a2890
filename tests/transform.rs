use pad_backend::encoder::encode;
use pad_backend::mapper::{collapse_spaced_dots, extract_functions, parse_block, parse_expr, parse_function, parse_stmt};
use pad_backend::pad::PadNode;
use pad_backend::program::{program_node, transform};
use pad_backend::syntax::{Expr, FnDef, Item, Stmt};

fn s(text: &str) -> String {
    text.to_string()
}

fn call(text: &str) -> Stmt {
    Stmt::Expr { expr: Expr::Other { text: s(text) } }
}

fn command(label: &str) -> PadNode {
    PadNode::Command { label: s(label) }
}

fn seq(children: Vec<PadNode>) -> PadNode {
    PadNode::Sequence { children }
}

fn function(name: &str, body: Vec<Stmt>) -> Item {
    Item::Fn { def: FnDef { name: s(name), body } }
}

#[test]
fn it_works() {
    let result = pad_backend::add(2, 2);
    assert_eq!(result, 4);
}

#[test]
fn single_function_is_one_labelled_block() {
    let items = vec![function("main", vec![call("run ()")])];
    let node = program_node(&Ok(items));
    assert_eq!(
        node,
        seq(vec![PadNode::Block { label: s("fn main()"), children: vec![seq(vec![command("run ()")])] }])
    );
}

#[test]
fn no_function_gives_error() {
    let items = vec![Item::Other, Item::Other];
    let node = program_node(&Ok(items));
    assert_eq!(node, PadNode::Error { message: s("No function found") });
    assert_eq!(
        transform(&Ok(vec![Item::Other])),
        "{\"type\":\"error\",\"message\":\"No function found\"}"
    );
}

#[test]
fn parse_failure_gives_prefixed_error() {
    let out = transform(&Err(s("unexpected end of input")));
    assert_eq!(out, "{\"type\":\"error\",\"message\":\"Parse error: unexpected end of input\"}");
    match program_node(&Err(s("expected `}`"))) {
        PadNode::Error { message } => assert!(message.starts_with("Parse error: ")),
        other => panic!("unexpected node {:?}", other),
    }
}

#[test]
fn same_input_same_output() {
    let make = || {
        vec![function(
            "f",
            vec![Stmt::Local { text: s("let x = 1 ;") }, call("g (x)")],
        )]
    };
    assert_eq!(transform(&Ok(make())), transform(&Ok(make())));
}

#[test]
fn if_else_round_trip() {
    let body = vec![Stmt::Expr {
        expr: Expr::If {
            cond: s("x > 0"),
            then_branch: vec![call("a()")],
            else_branch: Some(Box::new(Expr::Block { stmts: vec![call("b()")] })),
        },
    }];
    let items = vec![function("f", body)];
    let expected_if = PadNode::If {
        condition: s("x > 0"),
        then_block: Box::new(seq(vec![command("a()")])),
        else_block: Some(Box::new(seq(vec![command("b()")]))),
    };
    assert_eq!(
        program_node(&Ok(items)),
        seq(vec![PadNode::Block { label: s("fn f()"), children: vec![seq(vec![expected_if])] }])
    );
}

#[test]
fn if_else_encodes_both_branches() {
    let body = vec![Stmt::Expr {
        expr: Expr::If {
            cond: s("x > 0"),
            then_branch: vec![call("a()")],
            else_branch: Some(Box::new(Expr::Block { stmts: vec![call("b()")] })),
        },
    }];
    let out = transform(&Ok(vec![function("f", body)]));
    assert_eq!(
        out,
        "{\"type\":\"sequence\",\"children\":[{\"type\":\"block\",\"label\":\"fn f()\",\"children\":[{\"type\":\"sequence\",\"children\":[{\"type\":\"if\",\"condition\":\"x > 0\",\"then_block\":{\"type\":\"sequence\",\"children\":[{\"type\":\"command\",\"label\":\"a()\"}]},\"else_block\":{\"type\":\"sequence\",\"children\":[{\"type\":\"command\",\"label\":\"b()\"}]}}]}]}]}"
    );
}

#[test]
fn if_without_else_omits_else_block() {
    let e = Expr::If { cond: s("done"), then_branch: vec![], else_branch: None };
    let node = parse_expr(&e);
    assert_eq!(
        node,
        PadNode::If { condition: s("done"), then_block: Box::new(seq(vec![])), else_block: None }
    );
    assert_eq!(
        encode(&node),
        "{\"type\":\"if\",\"condition\":\"done\",\"then_block\":{\"type\":\"sequence\",\"children\":[]}}"
    );
}

#[test]
fn else_if_chain_nests() {
    let e = Expr::If {
        cond: s("a"),
        then_branch: vec![call("one ()")],
        else_branch: Some(Box::new(Expr::If {
            cond: s("b"),
            then_branch: vec![call("two ()")],
            else_branch: Some(Box::new(Expr::Block { stmts: vec![call("three ()")] })),
        })),
    };
    let expected = PadNode::If {
        condition: s("a"),
        then_block: Box::new(seq(vec![command("one ()")])),
        else_block: Some(Box::new(PadNode::If {
            condition: s("b"),
            then_block: Box::new(seq(vec![command("two ()")])),
            else_block: Some(Box::new(seq(vec![command("three ()")]))),
        })),
    };
    assert_eq!(parse_expr(&e), expected);
}

#[test]
fn condition_member_access_is_collapsed() {
    let e = Expr::If { cond: s("self . len > other . x . y"), then_branch: vec![], else_branch: None };
    match parse_expr(&e) {
        PadNode::If { condition, .. } => assert_eq!(condition, "self.len > other.x.y"),
        other => panic!("unexpected node {:?}", other),
    }
    assert_eq!(collapse_spaced_dots(&s(" . . ")), ".. ");
    assert_eq!(collapse_spaced_dots(&s("a .b")), "a .b");
    assert_eq!(collapse_spaced_dots(&s("")), "");
}

#[test]
fn while_condition_is_verbatim() {
    let e = Expr::While { cond: s("a . b < 3"), body: vec![call("step ()")] };
    assert_eq!(
        parse_expr(&e),
        PadNode::Loop { condition: s("a . b < 3"), body: Box::new(seq(vec![command("step ()")])) }
    );
}

#[test]
fn for_loop_condition() {
    let e = Expr::ForLoop { pat: s("i"), iter: s("0..10"), body: vec![call("print (i)")] };
    assert_eq!(
        parse_expr(&e),
        PadNode::Loop { condition: s("for i in 0..10"), body: Box::new(seq(vec![command("print (i)")])) }
    );
}

#[test]
fn other_expression_is_one_command() {
    assert_eq!(parse_stmt(&call("x = x + 1")), command("x = x + 1"));
    assert_eq!(parse_stmt(&Stmt::Local { text: s("let y = 2 ;") }), command("let y = 2 ;"));
    assert_eq!(parse_stmt(&Stmt::Macro { text: s("println ! (\"hi\") ;") }), command("println ! (\"hi\") ;"));
}

#[test]
fn inner_item_is_placeholder() {
    assert_eq!(parse_stmt(&Stmt::Item), command("Inner item not supported"));
}

#[test]
fn nested_block_is_transparent() {
    let stmts = vec![Stmt::Expr { expr: Expr::Block { stmts: vec![call("a ()"), call("b ()")] } }];
    assert_eq!(parse_block(&stmts), seq(vec![seq(vec![command("a ()"), command("b ()")])]));
}

#[test]
fn many_functions_in_source_order() {
    let items = vec![
        function("first", vec![]),
        Item::Other,
        function("second", vec![call("x ()")]),
        function("third", vec![]),
    ];
    let defs = extract_functions(&items);
    let names: Vec<&str> = defs.iter().map(|d| d.name.as_str()).collect();
    assert_eq!(names, vec!["first", "second", "third"]);
    match program_node(&Ok(items)) {
        PadNode::Sequence { children } => {
            assert_eq!(children.len(), 3);
            let labels: Vec<String> = children
                .iter()
                .map(|c| match c {
                    PadNode::Block { label, .. } => label.clone(),
                    other => panic!("unexpected node {:?}", other),
                })
                .collect();
            assert_eq!(labels, vec!["fn first()", "fn second()", "fn third()"]);
        }
        other => panic!("unexpected node {:?}", other),
    }
}

#[test]
fn function_block_wraps_body_sequence() {
    let def = FnDef { name: s("go"), body: vec![Stmt::Item] };
    assert_eq!(
        parse_function(&def),
        PadNode::Block { label: s("fn go()"), children: vec![seq(vec![command("Inner item not supported")])] }
    );
}

#[test]
fn strings_are_escaped_in_output() {
    let node = command("say(\"a\\b\")\n");
    assert_eq!(encode(&node), "{\"type\":\"command\",\"label\":\"say(\\\"a\\\\b\\\")\\n\"}");
}

#[test]
fn error_node_encoding() {
    let node = PadNode::Error { message: s("boom") };
    assert_eq!(encode(&node), "{\"type\":\"error\",\"message\":\"boom\"}");
}
