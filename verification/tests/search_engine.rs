#![allow(dead_code)]

use taintoooor::ast::{
    ContractDefinition, ContractPart, Expression, FunctionDefinition, List, Loc, Name, Node,
    Parameter, ParameterItem, SourceUnit, SourceUnitPart, Statement, Type, VariableDeclaration,
    VariableDefinition,
};
use taintoooor::identifier::Identifier;
use taintoooor::targets::IdentifierSet;
use taintoooor::traverse::{get_identifier_from_node, traverse_node_for_identifiers};

fn loc() -> Loc {
    Loc { start: 0, end: 0 }
}

fn at(start: usize, end: usize) -> Loc {
    Loc { start, end }
}

fn nm(s: &str) -> Name {
    Name { loc: loc(), name: s.to_string() }
}

fn bx(e: Expression) -> Box<Expression> {
    Box::new(e)
}

fn var(s: &str) -> Expression {
    Expression::Variable(nm(s))
}

fn lst<T>(items: Vec<T>) -> List<T> {
    let mut l = List::Nil;
    for x in items.into_iter().rev() {
        l = List::Cons(Box::new(x), Box::new(l));
    }
    l
}

fn block(stmts: Vec<Statement>) -> Statement {
    Statement::Block { loc: loc(), unchecked: false, statements: lst(stmts) }
}

fn uint_ty() -> Expression {
    Expression::Type(loc(), Type::Uint(256))
}

/// The tree for `contract C { uint x; function set(uint v) public { x = v; } }`.
fn simple_store() -> SourceUnit {
    let state_var = VariableDefinition {
        loc: at(13, 19),
        ty: uint_ty(),
        name: nm("x"),
        initializer: None,
    };
    let body = block(vec![Statement::Expression(
        at(44, 49),
        Expression::Assign(at(44, 49), bx(var("x")), bx(var("v"))),
    )]);
    let set_fn = FunctionDefinition {
        loc: at(21, 53),
        name: Some(nm("set")),
        params: lst(vec![ParameterItem {
            loc: at(34, 40),
            param: Some(Parameter { loc: at(34, 40), ty: uint_ty(), name: Some(nm("v")) }),
        }]),
        attributes: List::Nil,
        returns: List::Nil,
        body: Some(body),
    };
    let contract = ContractDefinition {
        loc: at(0, 55),
        name: nm("C"),
        base: List::Nil,
        parts: lst(vec![
            ContractPart::VariableDefinition(Box::new(state_var)),
            ContractPart::FunctionDefinition(Box::new(set_fn)),
        ]),
    };
    SourceUnit(lst(vec![SourceUnitPart::ContractDefinition(Box::new(contract))]))
}

#[test]
fn searching_twice_gives_identical_output() {
    let mut targets = IdentifierSet::new();
    targets.insert(Identifier::Variable);
    targets.insert(Identifier::FunctionDefinition);
    let first = traverse_node_for_identifiers(&targets, Node::SourceUnit(simple_store()));
    let second = traverse_node_for_identifiers(&targets, Node::SourceUnit(simple_store()));
    assert_eq!(first, second);
}

#[test]
fn growing_the_target_set_keeps_a_subsequence() {
    let mut small = IdentifierSet::new();
    small.insert(Identifier::Variable);
    let mut large = IdentifierSet::new();
    large.insert(Identifier::Variable);
    large.insert(Identifier::FunctionDefinition);
    large.insert(Identifier::Type);
    let few = traverse_node_for_identifiers(&small, Node::SourceUnit(simple_store()));
    let many = traverse_node_for_identifiers(&large, Node::SourceUnit(simple_store()));
    let mut pos = 0;
    for item in &few {
        let mut found = false;
        while pos < many.len() {
            let candidate = &many[pos];
            pos += 1;
            if candidate == item {
                found = true;
                break;
            }
        }
        assert!(found, "smaller search must embed, in order, into the larger one");
    }
}

#[test]
fn matched_node_still_has_its_children_searched() {
    // f(g(x)) with FunctionCall targeted: both calls match, outer first.
    let inner = Expression::FunctionCall(at(2, 6), bx(var("g")), lst(vec![var("x")]));
    let outer = Expression::FunctionCall(at(0, 7), bx(var("f")), lst(vec![inner]));
    let matches = get_identifier_from_node(Identifier::FunctionCall, Node::Expression(outer));
    assert_eq!(matches.len(), 2);
    assert_eq!(matches[0].as_identifier(), Identifier::FunctionCall);
    assert_eq!(matches[1].as_identifier(), Identifier::FunctionCall);
    match &matches[0] {
        Node::Expression(Expression::FunctionCall(l, _, _)) => assert_eq!(*l, at(0, 7)),
        other => panic!("expected the outer call first, got {:?}", other),
    }
    match &matches[1] {
        Node::Expression(Expression::FunctionCall(l, _, _)) => assert_eq!(*l, at(2, 6)),
        other => panic!("expected the inner call second, got {:?}", other),
    }
}

#[test]
fn empty_target_set_yields_empty_result() {
    let targets = IdentifierSet::new();
    let matches = traverse_node_for_identifiers(&targets, Node::SourceUnit(simple_store()));
    assert!(matches.is_empty());
}

#[test]
fn function_definitions_of_a_simple_contract() {
    let matches =
        get_identifier_from_node(Identifier::FunctionDefinition, Node::SourceUnit(simple_store()));
    assert_eq!(matches.len(), 1);
    match &matches[0] {
        Node::ContractPart(ContractPart::FunctionDefinition(def)) => {
            assert_eq!(def.name.as_ref().unwrap().name, "set");
        },
        other => panic!("expected the set declaration, got {:?}", other),
    }
}

#[test]
fn add_is_visited_before_its_multiply_operand() {
    // a + b * c, with standard precedence: Add(a, Multiply(b, c)).
    let product = Expression::Multiply(at(4, 9), bx(var("b")), bx(var("c")));
    let sum = Expression::Add(at(0, 9), bx(var("a")), bx(product));
    let mut targets = IdentifierSet::new();
    targets.insert(Identifier::Add);
    targets.insert(Identifier::Multiply);
    let matches = traverse_node_for_identifiers(&targets, Node::Expression(sum));
    let kinds: Vec<Identifier> = matches.iter().map(|n| n.as_identifier()).collect();
    assert_eq!(kinds, vec![Identifier::Add, Identifier::Multiply]);
}

#[test]
fn for_loop_matches_come_in_source_order() {
    // for (uint i = 0; i < n; i++) { sum += i; }
    let init = Statement::VariableDefinition(
        at(5, 15),
        VariableDeclaration { loc: at(5, 15), ty: uint_ty(), name: nm("i") },
        Some(Expression::NumberLiteral(at(14, 15), "0".to_string(), String::new())),
    );
    let cond = Expression::Less(at(17, 22), bx(var("i")), bx(var("n")));
    let update = Statement::Expression(
        at(24, 27),
        Expression::PostIncrement(at(24, 27), bx(var("i"))),
    );
    let body = block(vec![Statement::Expression(
        at(31, 39),
        Expression::AssignAdd(at(31, 39), bx(var("sum")), bx(var("i"))),
    )]);
    let for_loop = Statement::For(
        at(0, 41),
        Some(Box::new(init)),
        Some(Box::new(cond)),
        Some(Box::new(body)),
        Some(Box::new(update)),
    );
    let mut targets = IdentifierSet::new();
    targets.insert(Identifier::VariableDefinition);
    targets.insert(Identifier::AssignAdd);
    targets.insert(Identifier::PostIncrement);
    let matches = traverse_node_for_identifiers(&targets, Node::Statement(for_loop));
    let kinds: Vec<Identifier> = matches.iter().map(|n| n.as_identifier()).collect();
    assert_eq!(
        kinds,
        vec![Identifier::VariableDefinition, Identifier::AssignAdd, Identifier::PostIncrement]
    );
}

#[test]
fn no_node_is_reported_twice() {
    let mut targets = IdentifierSet::new();
    targets.insert(Identifier::Variable);
    let matches = traverse_node_for_identifiers(&targets, Node::SourceUnit(simple_store()));
    // x and v in the assignment, plus the parameter type carries no variable:
    // each distinct occurrence is reported once.
    assert_eq!(matches.len(), 2);
    for i in 0..matches.len() {
        for j in (i + 1)..matches.len() {
            // The two occurrences are different nodes (different names).
            assert_ne!(matches[i], matches[j]);
        }
    }
}

#[test]
fn node_accessors_expose_the_wrapped_category() {
    let e = var("x");
    let node = Node::Expression(e);
    assert!(!node.is_contract_part());
    assert!(!node.is_source_unit_part());
    assert_eq!(node.clone().statement(), None);
    assert_eq!(node.expression(), Some(var("x")));
    let unit = Node::SourceUnit(SourceUnit(List::Nil));
    assert!(unit.clone().source_unit().is_some());
    assert_eq!(unit.contract_part(), None);
}

#[test]
fn the_root_itself_can_match() {
    let unit = SourceUnit(lst(vec![SourceUnitPart::StraySemicolon(loc())]));
    let matches = get_identifier_from_node(Identifier::SourceUnit, Node::SourceUnit(unit));
    assert_eq!(matches.len(), 1);
    assert_eq!(matches[0].as_identifier(), Identifier::SourceUnit);
}

#[test]
fn an_empty_source_unit_yields_only_itself_at_most() {
    let empty_unit = Node::SourceUnit(SourceUnit(List::Nil));
    let matches = get_identifier_from_node(Identifier::FunctionDefinition, empty_unit);
    assert!(matches.is_empty());
}

#[test]
fn unmodeled_statements_are_leaves() {
    // An assembly block classifies as unclassified and hides its interior.
    let stmt = Statement::Assembly(loc());
    let matches = get_identifier_from_node(Identifier::Unclassified, Node::Statement(stmt));
    assert_eq!(matches.len(), 1);
}
