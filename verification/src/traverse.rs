//! The traversal engine: a depth-first, pre-order search of a syntax tree
//! for nodes whose kind lies in a target set.
//!
//! The specification side builds, for every node, the pre-order sequence of
//! all structurally reachable nodes (`visit_node` and its helpers); a search
//! is specified as filtering that sequence by membership of the node's kind
//! in the target set (`search_matches`). The executable traversal consumes
//! the tree it is given and returns exactly that filtered sequence: a node
//! that matches is retained (as an equal copy) and its children are still
//! searched afterwards.
//!
//! Grammar productions without a recursion rule — assembly blocks,
//! `continue`, `break`, enum members, import and pragma directives, function
//! attributes of a function definition, and the catch arms of `try` — are
//! leaves for traversal purposes: a deliberate, bounded coverage gap.

use vstd::prelude::*;
use crate::ast::{
    Base, ContractDefinition, ContractPart, ErrorDefinition, ErrorParameter, EventDefinition,
    EventParameter, Expression, FunctionAttribute, FunctionDefinition, List, NamedArgument, Node,
    ParameterItem, SourceUnit, SourceUnitPart, Statement, StructDefinition, TryReturns, Type,
    TypeDefinition, Using, VariableDeclaration, VariableDefinition,
};
use crate::classify::{
    contract_part_identifier, convert_contract_part_into_taintoooor_identifier,
    convert_expressions_into_taintoooor_identifier, convert_source_unit_into_taintoooor_identifier,
    convert_statements_into_taintoooor_identifier, expression_identifier, node_identifier,
    source_unit_part_identifier, statement_identifier,
};
use crate::identifier::Identifier;
use crate::targets::IdentifierSet;

verus! {

broadcast use vstd::seq_lib::group_seq_lib_default;

/// The membership test a search applies to every visited node.
pub open spec fn match_pred(targets: Set<Identifier>) -> spec_fn(Node) -> bool {
    |n: Node| targets.contains(node_identifier(n))
}

/// Filtering a one-element sequence keeps the element exactly when the
/// predicate holds of it.
pub proof fn lemma_filter_singleton<A>(x: A, pred: spec_fn(A) -> bool)
    ensures
        seq![x].filter(pred) == if pred(x) {
            seq![x]
        } else {
            Seq::<A>::empty()
        },
{
    reveal_with_fuel(Seq::filter, 3);
    assert(seq![x].drop_last() =~= Seq::<A>::empty());
    assert(Seq::<A>::empty().filter(pred) == Seq::<A>::empty());
    if pred(x) {
        assert(seq![x].filter(pred) =~= seq![x]);
    } else {
        assert(seq![x].filter(pred) =~= Seq::<A>::empty());
    }
}

/// The pre-order node sequence of an expression subtree.
pub open spec fn visit_expression(e: Expression) -> Seq<Node>
    decreases e, 1int,
{
    seq![Node::Expression(e)] + expression_children(e)
}

/// The concatenated visit sequences of an expression's operand positions.
pub open spec fn expression_children(e: Expression) -> Seq<Node>
    decreases e, 0int,
{
    match e {
        Expression::PostIncrement(_, a) => visit_expression(*a),
        Expression::PostDecrement(_, a) => visit_expression(*a),
        Expression::New(_, a) => visit_expression(*a),
        Expression::ArraySubscript(_, a, i) => visit_expression(*a) + (match i {
            Some(i) => visit_expression(*i),
            None => Seq::<Node>::empty(),
        }),
        Expression::ArraySlice(_, a, lo, hi) => visit_expression(*a) + (match lo {
            Some(lo) => visit_expression(*lo),
            None => Seq::<Node>::empty(),
        }) + (match hi {
            Some(hi) => visit_expression(*hi),
            None => Seq::<Node>::empty(),
        }),
        Expression::Parenthesis(_, a) => visit_expression(*a),
        Expression::MemberAccess(_, a, _) => visit_expression(*a),
        Expression::FunctionCall(_, f, args) => visit_expression(*f) + expression_list_visits(
            args,
        ),
        Expression::FunctionCallBlock(_, f, s) => visit_expression(*f) + visit_statement(*s),
        Expression::NamedFunctionCall(_, f, args) => visit_expression(*f)
            + named_argument_list_visits(args),
        Expression::Not(_, a) => visit_expression(*a),
        Expression::Complement(_, a) => visit_expression(*a),
        Expression::Delete(_, a) => visit_expression(*a),
        Expression::PreIncrement(_, a) => visit_expression(*a),
        Expression::PreDecrement(_, a) => visit_expression(*a),
        Expression::UnaryPlus(_, a) => visit_expression(*a),
        Expression::UnaryMinus(_, a) => visit_expression(*a),
        Expression::Power(_, a, b) => visit_expression(*a) + visit_expression(*b),
        Expression::Multiply(_, a, b) => visit_expression(*a) + visit_expression(*b),
        Expression::Divide(_, a, b) => visit_expression(*a) + visit_expression(*b),
        Expression::Modulo(_, a, b) => visit_expression(*a) + visit_expression(*b),
        Expression::Add(_, a, b) => visit_expression(*a) + visit_expression(*b),
        Expression::Subtract(_, a, b) => visit_expression(*a) + visit_expression(*b),
        Expression::ShiftLeft(_, a, b) => visit_expression(*a) + visit_expression(*b),
        Expression::ShiftRight(_, a, b) => visit_expression(*a) + visit_expression(*b),
        Expression::BitwiseAnd(_, a, b) => visit_expression(*a) + visit_expression(*b),
        Expression::BitwiseXor(_, a, b) => visit_expression(*a) + visit_expression(*b),
        Expression::BitwiseOr(_, a, b) => visit_expression(*a) + visit_expression(*b),
        Expression::Less(_, a, b) => visit_expression(*a) + visit_expression(*b),
        Expression::More(_, a, b) => visit_expression(*a) + visit_expression(*b),
        Expression::LessEqual(_, a, b) => visit_expression(*a) + visit_expression(*b),
        Expression::MoreEqual(_, a, b) => visit_expression(*a) + visit_expression(*b),
        Expression::Equal(_, a, b) => visit_expression(*a) + visit_expression(*b),
        Expression::NotEqual(_, a, b) => visit_expression(*a) + visit_expression(*b),
        Expression::And(_, a, b) => visit_expression(*a) + visit_expression(*b),
        Expression::Or(_, a, b) => visit_expression(*a) + visit_expression(*b),
        Expression::Ternary(_, a, b, c) => visit_expression(*a) + visit_expression(*b)
            + visit_expression(*c),
        Expression::Assign(_, a, b) => visit_expression(*a) + visit_expression(*b),
        Expression::AssignOr(_, a, b) => visit_expression(*a) + visit_expression(*b),
        Expression::AssignAnd(_, a, b) => visit_expression(*a) + visit_expression(*b),
        Expression::AssignXor(_, a, b) => visit_expression(*a) + visit_expression(*b),
        Expression::AssignShiftLeft(_, a, b) => visit_expression(*a) + visit_expression(*b),
        Expression::AssignShiftRight(_, a, b) => visit_expression(*a) + visit_expression(*b),
        Expression::AssignAdd(_, a, b) => visit_expression(*a) + visit_expression(*b),
        Expression::AssignSubtract(_, a, b) => visit_expression(*a) + visit_expression(*b),
        Expression::AssignMultiply(_, a, b) => visit_expression(*a) + visit_expression(*b),
        Expression::AssignDivide(_, a, b) => visit_expression(*a) + visit_expression(*b),
        Expression::AssignModulo(_, a, b) => visit_expression(*a) + visit_expression(*b),
        Expression::Type(_, t) => type_children(t),
        Expression::List(_, params) => parameter_items_visits(params),
        Expression::ArrayLiteral(_, elems) => expression_list_visits(elems),
        Expression::Unit(_, a, _) => visit_expression(*a),
        Expression::BoolLiteral(_, _) => Seq::<Node>::empty(),
        Expression::NumberLiteral(_, _, _) => Seq::<Node>::empty(),
        Expression::RationalNumberLiteral(_, _, _, _) => Seq::<Node>::empty(),
        Expression::HexNumberLiteral(_, _) => Seq::<Node>::empty(),
        Expression::StringLiteral(_) => Seq::<Node>::empty(),
        Expression::HexLiteral(_) => Seq::<Node>::empty(),
        Expression::AddressLiteral(_, _) => Seq::<Node>::empty(),
        Expression::Variable(_) => Seq::<Node>::empty(),
        Expression::This(_) => Seq::<Node>::empty(),
    }
}

/// The visit sequences of each expression of a list, concatenated in order.
pub open spec fn expression_list_visits(l: List<Expression>) -> Seq<Node>
    decreases l,
{
    match l {
        List::Nil => Seq::<Node>::empty(),
        List::Cons(x, rest) => visit_expression(*x) + expression_list_visits(*rest),
    }
}

/// The visit sequences of each named argument's expression, in order.
pub open spec fn named_argument_list_visits(l: List<NamedArgument>) -> Seq<Node>
    decreases l,
{
    match l {
        List::Nil => Seq::<Node>::empty(),
        List::Cons(x, rest) => visit_expression(x.expr) + named_argument_list_visits(*rest),
    }
}

/// The visit sequences of the type of each present parameter, in order.
pub open spec fn parameter_items_visits(l: List<ParameterItem>) -> Seq<Node>
    decreases l,
{
    match l {
        List::Nil => Seq::<Node>::empty(),
        List::Cons(x, rest) => (match x.param {
            Some(p) => visit_expression(p.ty),
            None => Seq::<Node>::empty(),
        }) + parameter_items_visits(*rest),
    }
}

/// The visit sequences contributed by function-type attributes: modifier
/// arguments and name-value expressions; other attributes are leaves.
pub open spec fn function_attributes_visits(l: List<FunctionAttribute>) -> Seq<Node>
    decreases l,
{
    match l {
        List::Nil => Seq::<Node>::empty(),
        List::Cons(x, rest) => (match *x {
            FunctionAttribute::BaseOrModifier(_, b) => (match b.args {
                Some(args) => expression_list_visits(args),
                None => Seq::<Node>::empty(),
            }),
            FunctionAttribute::NameValue(_, _, e) => visit_expression(e),
            _ => Seq::<Node>::empty(),
        }) + function_attributes_visits(*rest),
    }
}

/// The sub-expressions embedded in a type expression: mapping key and value,
/// and a function type's parameters, attributes, and returns clause.
pub open spec fn type_children(t: Type) -> Seq<Node>
    decreases t,
{
    match t {
        Type::Mapping(_, k, v) => visit_expression(*k) + visit_expression(*v),
        Type::Function { params, attributes, returns } => parameter_items_visits(params)
            + function_attributes_visits(attributes) + (match returns {
            Some(rc) => parameter_items_visits(rc.params) + function_attributes_visits(
                rc.attributes,
            ),
            None => Seq::<Node>::empty(),
        }),
        _ => Seq::<Node>::empty(),
    }
}

/// The pre-order node sequence of a statement subtree.
pub open spec fn visit_statement(s: Statement) -> Seq<Node>
    decreases s, 1int,
{
    seq![Node::Statement(s)] + statement_children(s)
}

/// The concatenated visit sequences of a statement's nested positions.
pub open spec fn statement_children(s: Statement) -> Seq<Node>
    decreases s, 0int,
{
    match s {
        Statement::Block { loc: _, unchecked: _, statements } => statement_list_visits(statements),
        Statement::Args(_, args) => named_argument_list_visits(args),
        Statement::If(_, c, t, els) => visit_expression(c) + visit_statement(*t) + (match els {
            Some(e) => visit_statement(*e),
            None => Seq::<Node>::empty(),
        }),
        Statement::While(_, c, b) => visit_expression(c) + visit_statement(*b),
        Statement::Expression(_, e) => visit_expression(e),
        Statement::VariableDefinition(_, decl, init) => visit_expression(decl.ty) + (match init {
            Some(e) => visit_expression(e),
            None => Seq::<Node>::empty(),
        }),
        Statement::For(_, init, cond, update, body) => (match init {
            Some(s) => visit_statement(*s),
            None => Seq::<Node>::empty(),
        }) + (match cond {
            Some(e) => visit_expression(*e),
            None => Seq::<Node>::empty(),
        }) + (match update {
            Some(s) => visit_statement(*s),
            None => Seq::<Node>::empty(),
        }) + (match body {
            Some(s) => visit_statement(*s),
            None => Seq::<Node>::empty(),
        }),
        Statement::DoWhile(_, b, c) => visit_statement(*b) + visit_expression(c),
        Statement::Return(_, e) => (match e {
            Some(e) => visit_expression(e),
            None => Seq::<Node>::empty(),
        }),
        Statement::Revert(_, _, exprs) => expression_list_visits(exprs),
        Statement::RevertNamedArgs(_, _, args) => named_argument_list_visits(args),
        Statement::Emit(_, e) => visit_expression(e),
        Statement::Try(_, e, r, _) => visit_expression(e) + (match r {
            Some(r) => parameter_items_visits(r.params) + visit_statement(*r.body),
            None => Seq::<Node>::empty(),
        }),
        Statement::Assembly(_) => Seq::<Node>::empty(),
        Statement::Continue(_) => Seq::<Node>::empty(),
        Statement::Break(_) => Seq::<Node>::empty(),
    }
}

/// The visit sequences of each statement of a list, concatenated in order.
pub open spec fn statement_list_visits(l: List<Statement>) -> Seq<Node>
    decreases l,
{
    match l {
        List::Nil => Seq::<Node>::empty(),
        List::Cons(x, rest) => visit_statement(*x) + statement_list_visits(*rest),
    }
}

/// The visit sequences of the type of each error field, in order.
pub open spec fn error_fields_visits(l: List<ErrorParameter>) -> Seq<Node>
    decreases l,
{
    match l {
        List::Nil => Seq::<Node>::empty(),
        List::Cons(x, rest) => visit_expression(x.ty) + error_fields_visits(*rest),
    }
}

/// The visit sequences of the type of each event field, in order.
pub open spec fn event_fields_visits(l: List<EventParameter>) -> Seq<Node>
    decreases l,
{
    match l {
        List::Nil => Seq::<Node>::empty(),
        List::Cons(x, rest) => visit_expression(x.ty) + event_fields_visits(*rest),
    }
}

/// The visit sequences of the type of each struct field, in order.
pub open spec fn struct_fields_visits(l: List<VariableDeclaration>) -> Seq<Node>
    decreases l,
{
    match l {
        List::Nil => Seq::<Node>::empty(),
        List::Cons(x, rest) => visit_expression(x.ty) + struct_fields_visits(*rest),
    }
}

/// The visit sequences of each base's constructor arguments, in order.
pub open spec fn base_list_visits(l: List<Base>) -> Seq<Node>
    decreases l,
{
    match l {
        List::Nil => Seq::<Node>::empty(),
        List::Cons(x, rest) => (match x.args {
            Some(args) => expression_list_visits(args),
            None => Seq::<Node>::empty(),
        }) + base_list_visits(*rest),
    }
}

/// The reachable children of a function declaration: parameter types, return
/// parameter types, and the body if present.
pub open spec fn function_definition_children(d: FunctionDefinition) -> Seq<Node> {
    parameter_items_visits(d.params) + parameter_items_visits(d.returns) + (match d.body {
        Some(b) => visit_statement(b),
        None => Seq::<Node>::empty(),
    })
}

/// The reachable children of a variable declaration: its type, then its
/// initializer if present.
pub open spec fn variable_definition_children(d: VariableDefinition) -> Seq<Node> {
    visit_expression(d.ty) + (match d.initializer {
        Some(e) => visit_expression(e),
        None => Seq::<Node>::empty(),
    })
}

/// The reachable children of a contract declaration: base constructor
/// arguments, then every member part.
pub open spec fn contract_definition_children(d: ContractDefinition) -> Seq<Node> {
    base_list_visits(d.base) + contract_part_list_visits(d.parts)
}

/// The pre-order node sequence of a contract member subtree.
pub open spec fn visit_contract_part(p: ContractPart) -> Seq<Node>
    decreases p, 1int,
{
    seq![Node::ContractPart(p)] + contract_part_children(p)
}

/// The reachable children of a contract member. Stray semicolons and enum
/// declarations contribute none.
pub open spec fn contract_part_children(p: ContractPart) -> Seq<Node>
    decreases p, 0int,
{
    match p {
        ContractPart::StructDefinition(d) => struct_fields_visits(d.fields),
        ContractPart::EventDefinition(d) => event_fields_visits(d.fields),
        ContractPart::ErrorDefinition(d) => error_fields_visits(d.fields),
        ContractPart::VariableDefinition(d) => variable_definition_children(*d),
        ContractPart::FunctionDefinition(d) => function_definition_children(*d),
        ContractPart::TypeDefinition(d) => visit_expression(d.ty),
        ContractPart::Using(d) => (match d.ty {
            Some(e) => visit_expression(e),
            None => Seq::<Node>::empty(),
        }),
        ContractPart::EnumDefinition(_) => Seq::<Node>::empty(),
        ContractPart::StraySemicolon(_) => Seq::<Node>::empty(),
    }
}

/// The visit sequences of each contract member of a list, in order.
pub open spec fn contract_part_list_visits(l: List<ContractPart>) -> Seq<Node>
    decreases l,
{
    match l {
        List::Nil => Seq::<Node>::empty(),
        List::Cons(x, rest) => visit_contract_part(*x) + contract_part_list_visits(*rest),
    }
}

/// The pre-order node sequence of a top-level declaration subtree.
pub open spec fn visit_source_unit_part(p: SourceUnitPart) -> Seq<Node>
    decreases p, 1int,
{
    seq![Node::SourceUnitPart(p)] + source_unit_part_children(p)
}

/// The reachable children of a top-level declaration. Pragma and import
/// directives, stray semicolons, and enum declarations contribute none.
pub open spec fn source_unit_part_children(p: SourceUnitPart) -> Seq<Node>
    decreases p, 0int,
{
    match p {
        SourceUnitPart::ContractDefinition(d) => contract_definition_children(*d),
        SourceUnitPart::StructDefinition(d) => struct_fields_visits(d.fields),
        SourceUnitPart::EventDefinition(d) => event_fields_visits(d.fields),
        SourceUnitPart::ErrorDefinition(d) => error_fields_visits(d.fields),
        SourceUnitPart::VariableDefinition(d) => variable_definition_children(*d),
        SourceUnitPart::FunctionDefinition(d) => function_definition_children(*d),
        SourceUnitPart::TypeDefinition(d) => visit_expression(d.ty),
        SourceUnitPart::Using(d) => (match d.ty {
            Some(e) => visit_expression(e),
            None => Seq::<Node>::empty(),
        }),
        SourceUnitPart::PragmaDirective(_, _, _) => Seq::<Node>::empty(),
        SourceUnitPart::ImportDirective(_) => Seq::<Node>::empty(),
        SourceUnitPart::EnumDefinition(_) => Seq::<Node>::empty(),
        SourceUnitPart::StraySemicolon(_) => Seq::<Node>::empty(),
    }
}

/// The visit sequences of each top-level declaration of a list, in order.
pub open spec fn source_unit_part_list_visits(l: List<SourceUnitPart>) -> Seq<Node>
    decreases l,
{
    match l {
        List::Nil => Seq::<Node>::empty(),
        List::Cons(x, rest) => visit_source_unit_part(*x) + source_unit_part_list_visits(*rest),
    }
}

/// The pre-order node sequence of a whole source file.
pub open spec fn visit_source_unit(u: SourceUnit) -> Seq<Node>
    decreases u,
{
    seq![Node::SourceUnit(u)] + source_unit_part_list_visits(u.0)
}

/// The pre-order node sequence of any wrapped node.
pub open spec fn visit_node(n: Node) -> Seq<Node> {
    match n {
        Node::Expression(e) => visit_expression(e),
        Node::Statement(s) => visit_statement(s),
        Node::ContractPart(p) => visit_contract_part(p),
        Node::SourceUnitPart(p) => visit_source_unit_part(p),
        Node::SourceUnit(u) => visit_source_unit(u),
    }
}

/// The visit sequences of a node's structurally reachable children, without
/// the node itself: what a search examines after testing the node.
pub open spec fn node_children_visits(n: Node) -> Seq<Node> {
    match n {
        Node::Expression(e) => expression_children(e),
        Node::Statement(s) => statement_children(s),
        Node::ContractPart(p) => contract_part_children(p),
        Node::SourceUnitPart(p) => source_unit_part_children(p),
        Node::SourceUnit(u) => source_unit_part_list_visits(u.0),
    }
}

/// The nodes a search returns: the pre-order visit sequence of the tree,
/// restricted to nodes whose kind lies in the target set.
pub open spec fn search_matches(targets: Set<Identifier>, n: Node) -> Seq<Node> {
    visit_node(n).filter(match_pred(targets))
}

/// Searches an expression subtree.
pub fn traverse_expression(identifiers: &IdentifierSet, e: Expression) -> (matches: Vec<Node>)
    ensures
        matches@ == visit_expression(e).filter(match_pred(identifiers@)),
    decreases e, 1int,
{
    let ghost ge = e;
    let ghost pred = match_pred(identifiers@);
    let ghost gnode = Node::Expression(ge);
    let mut matches: Vec<Node> = Vec::new();
    let id = convert_expressions_into_taintoooor_identifier(&e);
    if identifiers.contains(id) {
        matches.push(Node::Expression(e.clone()));
    }
    proof {
        lemma_filter_singleton(gnode, pred);
        assert(matches@ == seq![gnode].filter(pred));
    }
    let mut sub = traverse_expression_children(identifiers, e);
    matches.append(&mut sub);
    proof {
        assert(matches@ =~= visit_expression(ge).filter(pred));
    }
    matches
}

/// Searches the operand positions of an expression, without the expression
/// itself.
pub fn traverse_expression_children(identifiers: &IdentifierSet, e: Expression) -> (matches: Vec<
    Node>)
    ensures
        matches@ == expression_children(e).filter(match_pred(identifiers@)),
    decreases e, 0int,
{
    let ghost ge = e;
    let ghost pred = match_pred(identifiers@);
    let mut matches: Vec<Node> = Vec::new();
    match e {
        Expression::PostIncrement(_, a) => {
            let mut sub = traverse_expression(identifiers, *a);
            matches.append(&mut sub);
        },
        Expression::PostDecrement(_, a) => {
            let mut sub = traverse_expression(identifiers, *a);
            matches.append(&mut sub);
        },
        Expression::New(_, a) => {
            let mut sub = traverse_expression(identifiers, *a);
            matches.append(&mut sub);
        },
        Expression::ArraySubscript(_, a, i) => {
            let mut sub = traverse_expression(identifiers, *a);
            matches.append(&mut sub);
            if let Some(i) = i {
                let mut sub2 = traverse_expression(identifiers, *i);
                matches.append(&mut sub2);
            }
        },
        Expression::ArraySlice(_, a, lo, hi) => {
            let mut sub = traverse_expression(identifiers, *a);
            matches.append(&mut sub);
            if let Some(lo) = lo {
                let mut sub2 = traverse_expression(identifiers, *lo);
                matches.append(&mut sub2);
            }
            if let Some(hi) = hi {
                let mut sub3 = traverse_expression(identifiers, *hi);
                matches.append(&mut sub3);
            }
        },
        Expression::Parenthesis(_, a) => {
            let mut sub = traverse_expression(identifiers, *a);
            matches.append(&mut sub);
        },
        Expression::MemberAccess(_, a, _) => {
            let mut sub = traverse_expression(identifiers, *a);
            matches.append(&mut sub);
        },
        Expression::FunctionCall(_, f, args) => {
            let mut sub = traverse_expression(identifiers, *f);
            matches.append(&mut sub);
            let mut sub2 = traverse_expression_list(identifiers, args);
            matches.append(&mut sub2);
        },
        Expression::FunctionCallBlock(_, f, s) => {
            let mut sub = traverse_expression(identifiers, *f);
            matches.append(&mut sub);
            let mut sub2 = traverse_statement(identifiers, *s);
            matches.append(&mut sub2);
        },
        Expression::NamedFunctionCall(_, f, args) => {
            let mut sub = traverse_expression(identifiers, *f);
            matches.append(&mut sub);
            let mut sub2 = traverse_named_argument_list(identifiers, args);
            matches.append(&mut sub2);
        },
        Expression::Not(_, a) => {
            let mut sub = traverse_expression(identifiers, *a);
            matches.append(&mut sub);
        },
        Expression::Complement(_, a) => {
            let mut sub = traverse_expression(identifiers, *a);
            matches.append(&mut sub);
        },
        Expression::Delete(_, a) => {
            let mut sub = traverse_expression(identifiers, *a);
            matches.append(&mut sub);
        },
        Expression::PreIncrement(_, a) => {
            let mut sub = traverse_expression(identifiers, *a);
            matches.append(&mut sub);
        },
        Expression::PreDecrement(_, a) => {
            let mut sub = traverse_expression(identifiers, *a);
            matches.append(&mut sub);
        },
        Expression::UnaryPlus(_, a) => {
            let mut sub = traverse_expression(identifiers, *a);
            matches.append(&mut sub);
        },
        Expression::UnaryMinus(_, a) => {
            let mut sub = traverse_expression(identifiers, *a);
            matches.append(&mut sub);
        },
        Expression::Power(_, a, b) => {
            let mut sub = traverse_expression(identifiers, *a);
            matches.append(&mut sub);
            let mut sub2 = traverse_expression(identifiers, *b);
            matches.append(&mut sub2);
        },
        Expression::Multiply(_, a, b) => {
            let mut sub = traverse_expression(identifiers, *a);
            matches.append(&mut sub);
            let mut sub2 = traverse_expression(identifiers, *b);
            matches.append(&mut sub2);
        },
        Expression::Divide(_, a, b) => {
            let mut sub = traverse_expression(identifiers, *a);
            matches.append(&mut sub);
            let mut sub2 = traverse_expression(identifiers, *b);
            matches.append(&mut sub2);
        },
        Expression::Modulo(_, a, b) => {
            let mut sub = traverse_expression(identifiers, *a);
            matches.append(&mut sub);
            let mut sub2 = traverse_expression(identifiers, *b);
            matches.append(&mut sub2);
        },
        Expression::Add(_, a, b) => {
            let mut sub = traverse_expression(identifiers, *a);
            matches.append(&mut sub);
            let mut sub2 = traverse_expression(identifiers, *b);
            matches.append(&mut sub2);
        },
        Expression::Subtract(_, a, b) => {
            let mut sub = traverse_expression(identifiers, *a);
            matches.append(&mut sub);
            let mut sub2 = traverse_expression(identifiers, *b);
            matches.append(&mut sub2);
        },
        Expression::ShiftLeft(_, a, b) => {
            let mut sub = traverse_expression(identifiers, *a);
            matches.append(&mut sub);
            let mut sub2 = traverse_expression(identifiers, *b);
            matches.append(&mut sub2);
        },
        Expression::ShiftRight(_, a, b) => {
            let mut sub = traverse_expression(identifiers, *a);
            matches.append(&mut sub);
            let mut sub2 = traverse_expression(identifiers, *b);
            matches.append(&mut sub2);
        },
        Expression::BitwiseAnd(_, a, b) => {
            let mut sub = traverse_expression(identifiers, *a);
            matches.append(&mut sub);
            let mut sub2 = traverse_expression(identifiers, *b);
            matches.append(&mut sub2);
        },
        Expression::BitwiseXor(_, a, b) => {
            let mut sub = traverse_expression(identifiers, *a);
            matches.append(&mut sub);
            let mut sub2 = traverse_expression(identifiers, *b);
            matches.append(&mut sub2);
        },
        Expression::BitwiseOr(_, a, b) => {
            let mut sub = traverse_expression(identifiers, *a);
            matches.append(&mut sub);
            let mut sub2 = traverse_expression(identifiers, *b);
            matches.append(&mut sub2);
        },
        Expression::Less(_, a, b) => {
            let mut sub = traverse_expression(identifiers, *a);
            matches.append(&mut sub);
            let mut sub2 = traverse_expression(identifiers, *b);
            matches.append(&mut sub2);
        },
        Expression::More(_, a, b) => {
            let mut sub = traverse_expression(identifiers, *a);
            matches.append(&mut sub);
            let mut sub2 = traverse_expression(identifiers, *b);
            matches.append(&mut sub2);
        },
        Expression::LessEqual(_, a, b) => {
            let mut sub = traverse_expression(identifiers, *a);
            matches.append(&mut sub);
            let mut sub2 = traverse_expression(identifiers, *b);
            matches.append(&mut sub2);
        },
        Expression::MoreEqual(_, a, b) => {
            let mut sub = traverse_expression(identifiers, *a);
            matches.append(&mut sub);
            let mut sub2 = traverse_expression(identifiers, *b);
            matches.append(&mut sub2);
        },
        Expression::Equal(_, a, b) => {
            let mut sub = traverse_expression(identifiers, *a);
            matches.append(&mut sub);
            let mut sub2 = traverse_expression(identifiers, *b);
            matches.append(&mut sub2);
        },
        Expression::NotEqual(_, a, b) => {
            let mut sub = traverse_expression(identifiers, *a);
            matches.append(&mut sub);
            let mut sub2 = traverse_expression(identifiers, *b);
            matches.append(&mut sub2);
        },
        Expression::And(_, a, b) => {
            let mut sub = traverse_expression(identifiers, *a);
            matches.append(&mut sub);
            let mut sub2 = traverse_expression(identifiers, *b);
            matches.append(&mut sub2);
        },
        Expression::Or(_, a, b) => {
            let mut sub = traverse_expression(identifiers, *a);
            matches.append(&mut sub);
            let mut sub2 = traverse_expression(identifiers, *b);
            matches.append(&mut sub2);
        },
        Expression::Ternary(_, a, b, c) => {
            let mut sub = traverse_expression(identifiers, *a);
            matches.append(&mut sub);
            let mut sub2 = traverse_expression(identifiers, *b);
            matches.append(&mut sub2);
            let mut sub3 = traverse_expression(identifiers, *c);
            matches.append(&mut sub3);
        },
        Expression::Assign(_, a, b) => {
            let mut sub = traverse_expression(identifiers, *a);
            matches.append(&mut sub);
            let mut sub2 = traverse_expression(identifiers, *b);
            matches.append(&mut sub2);
        },
        Expression::AssignOr(_, a, b) => {
            let mut sub = traverse_expression(identifiers, *a);
            matches.append(&mut sub);
            let mut sub2 = traverse_expression(identifiers, *b);
            matches.append(&mut sub2);
        },
        Expression::AssignAnd(_, a, b) => {
            let mut sub = traverse_expression(identifiers, *a);
            matches.append(&mut sub);
            let mut sub2 = traverse_expression(identifiers, *b);
            matches.append(&mut sub2);
        },
        Expression::AssignXor(_, a, b) => {
            let mut sub = traverse_expression(identifiers, *a);
            matches.append(&mut sub);
            let mut sub2 = traverse_expression(identifiers, *b);
            matches.append(&mut sub2);
        },
        Expression::AssignShiftLeft(_, a, b) => {
            let mut sub = traverse_expression(identifiers, *a);
            matches.append(&mut sub);
            let mut sub2 = traverse_expression(identifiers, *b);
            matches.append(&mut sub2);
        },
        Expression::AssignShiftRight(_, a, b) => {
            let mut sub = traverse_expression(identifiers, *a);
            matches.append(&mut sub);
            let mut sub2 = traverse_expression(identifiers, *b);
            matches.append(&mut sub2);
        },
        Expression::AssignAdd(_, a, b) => {
            let mut sub = traverse_expression(identifiers, *a);
            matches.append(&mut sub);
            let mut sub2 = traverse_expression(identifiers, *b);
            matches.append(&mut sub2);
        },
        Expression::AssignSubtract(_, a, b) => {
            let mut sub = traverse_expression(identifiers, *a);
            matches.append(&mut sub);
            let mut sub2 = traverse_expression(identifiers, *b);
            matches.append(&mut sub2);
        },
        Expression::AssignMultiply(_, a, b) => {
            let mut sub = traverse_expression(identifiers, *a);
            matches.append(&mut sub);
            let mut sub2 = traverse_expression(identifiers, *b);
            matches.append(&mut sub2);
        },
        Expression::AssignDivide(_, a, b) => {
            let mut sub = traverse_expression(identifiers, *a);
            matches.append(&mut sub);
            let mut sub2 = traverse_expression(identifiers, *b);
            matches.append(&mut sub2);
        },
        Expression::AssignModulo(_, a, b) => {
            let mut sub = traverse_expression(identifiers, *a);
            matches.append(&mut sub);
            let mut sub2 = traverse_expression(identifiers, *b);
            matches.append(&mut sub2);
        },
        Expression::Type(_, t) => {
            let mut sub = traverse_type(identifiers, t);
            matches.append(&mut sub);
        },
        Expression::List(_, params) => {
            let mut sub = traverse_parameter_items(identifiers, params);
            matches.append(&mut sub);
        },
        Expression::ArrayLiteral(_, elems) => {
            let mut sub = traverse_expression_list(identifiers, elems);
            matches.append(&mut sub);
        },
        Expression::Unit(_, a, _) => {
            let mut sub = traverse_expression(identifiers, *a);
            matches.append(&mut sub);
        },
        Expression::BoolLiteral(_, _) => {},
        Expression::NumberLiteral(_, _, _) => {},
        Expression::RationalNumberLiteral(_, _, _, _) => {},
        Expression::HexNumberLiteral(_, _) => {},
        Expression::StringLiteral(_) => {},
        Expression::HexLiteral(_) => {},
        Expression::AddressLiteral(_, _) => {},
        Expression::Variable(_) => {},
        Expression::This(_) => {},
    }
    proof {
        assert(matches@ =~= expression_children(ge).filter(pred));
    }
    matches
}

/// Searches each expression of a list, in order.
pub fn traverse_expression_list(identifiers: &IdentifierSet, l: List<Expression>) -> (matches: Vec<
    Node,
>)
    ensures
        matches@ == expression_list_visits(l).filter(match_pred(identifiers@)),
    decreases l,
{
    let ghost gl = l;
    let ghost pred = match_pred(identifiers@);
    match l {
        List::Nil => {
            let matches: Vec<Node> = Vec::new();
            proof {
                assert(matches@ =~= expression_list_visits(gl).filter(pred));
            }
            matches
        },
        List::Cons(x, rest) => {
            let mut matches = traverse_expression(identifiers, *x);
            let mut sub = traverse_expression_list(identifiers, *rest);
            matches.append(&mut sub);
            proof {
                assert(matches@ =~= expression_list_visits(gl).filter(pred));
            }
            matches
        },
    }
}

/// Searches the expression of each named argument, in order.
pub fn traverse_named_argument_list(identifiers: &IdentifierSet, l: List<NamedArgument>) -> (matches:
    Vec<Node>)
    ensures
        matches@ == named_argument_list_visits(l).filter(match_pred(identifiers@)),
    decreases l,
{
    let ghost gl = l;
    let ghost pred = match_pred(identifiers@);
    match l {
        List::Nil => {
            let matches: Vec<Node> = Vec::new();
            proof {
                assert(matches@ =~= named_argument_list_visits(gl).filter(pred));
            }
            matches
        },
        List::Cons(x, rest) => {
            let arg = *x;
            let mut matches = traverse_expression(identifiers, arg.expr);
            let mut sub = traverse_named_argument_list(identifiers, *rest);
            matches.append(&mut sub);
            proof {
                assert(matches@ =~= named_argument_list_visits(gl).filter(pred));
            }
            matches
        },
    }
}

/// Searches the type of each present parameter, in order.
pub fn traverse_parameter_items(identifiers: &IdentifierSet, l: List<ParameterItem>) -> (matches:
    Vec<Node>)
    ensures
        matches@ == parameter_items_visits(l).filter(match_pred(identifiers@)),
    decreases l,
{
    let ghost gl = l;
    let ghost pred = match_pred(identifiers@);
    match l {
        List::Nil => {
            let matches: Vec<Node> = Vec::new();
            proof {
                assert(matches@ =~= parameter_items_visits(gl).filter(pred));
            }
            matches
        },
        List::Cons(x, rest) => {
            let item = *x;
            let mut matches: Vec<Node> = Vec::new();
            if let Some(p) = item.param {
                let mut sub = traverse_expression(identifiers, p.ty);
                matches.append(&mut sub);
            }
            let mut sub2 = traverse_parameter_items(identifiers, *rest);
            matches.append(&mut sub2);
            proof {
                assert(matches@ =~= parameter_items_visits(gl).filter(pred));
            }
            matches
        },
    }
}

/// Searches what function-type attributes reach: modifier arguments and
/// name-value expressions.
pub fn traverse_function_attributes(
    identifiers: &IdentifierSet,
    l: List<FunctionAttribute>,
) -> (matches: Vec<Node>)
    ensures
        matches@ == function_attributes_visits(l).filter(match_pred(identifiers@)),
    decreases l,
{
    let ghost gl = l;
    let ghost pred = match_pred(identifiers@);
    match l {
        List::Nil => {
            let matches: Vec<Node> = Vec::new();
            proof {
                assert(matches@ =~= function_attributes_visits(gl).filter(pred));
            }
            matches
        },
        List::Cons(x, rest) => {
            let mut matches: Vec<Node> = Vec::new();
            match *x {
                FunctionAttribute::BaseOrModifier(_, b) => {
                    if let Some(args) = b.args {
                        let mut sub = traverse_expression_list(identifiers, args);
                        matches.append(&mut sub);
                    }
                },
                FunctionAttribute::NameValue(_, _, e) => {
                    let mut sub = traverse_expression(identifiers, e);
                    matches.append(&mut sub);
                },
                _ => {},
            }
            let mut sub2 = traverse_function_attributes(identifiers, *rest);
            matches.append(&mut sub2);
            proof {
                assert(matches@ =~= function_attributes_visits(gl).filter(pred));
            }
            matches
        },
    }
}

/// Searches the sub-expressions embedded in a type expression.
pub fn traverse_type(identifiers: &IdentifierSet, t: Type) -> (matches: Vec<Node>)
    ensures
        matches@ == type_children(t).filter(match_pred(identifiers@)),
    decreases t,
{
    let ghost gt = t;
    let ghost pred = match_pred(identifiers@);
    let mut matches: Vec<Node> = Vec::new();
    match t {
        Type::Mapping(_, k, v) => {
            let mut sub = traverse_expression(identifiers, *k);
            matches.append(&mut sub);
            let mut sub2 = traverse_expression(identifiers, *v);
            matches.append(&mut sub2);
        },
        Type::Function { params, attributes, returns } => {
            let mut sub = traverse_parameter_items(identifiers, params);
            matches.append(&mut sub);
            let mut sub2 = traverse_function_attributes(identifiers, attributes);
            matches.append(&mut sub2);
            if let Some(rc) = returns {
                let mut sub3 = traverse_parameter_items(identifiers, rc.params);
                matches.append(&mut sub3);
                let mut sub4 = traverse_function_attributes(identifiers, rc.attributes);
                matches.append(&mut sub4);
            }
        },
        _ => {},
    }
    proof {
        assert(matches@ =~= type_children(gt).filter(pred));
    }
    matches
}


/// Searches an optional boxed statement position.
pub fn traverse_opt_statement(identifiers: &IdentifierSet, o: Option<Box<Statement>>) -> (matches:
    Vec<Node>)
    ensures
        matches@ == (match o {
            Some(s) => visit_statement(*s),
            None => Seq::<Node>::empty(),
        }).filter(match_pred(identifiers@)),
    decreases o,
{
    let ghost pred = match_pred(identifiers@);
    match o {
        Some(s) => traverse_statement(identifiers, *s),
        None => {
            let matches: Vec<Node> = Vec::new();
            proof {
                assert(matches@ =~= Seq::<Node>::empty().filter(pred));
            }
            matches
        },
    }
}

/// Searches an optional boxed expression position.
pub fn traverse_opt_boxed_expression(identifiers: &IdentifierSet, o: Option<Box<Expression>>) -> (
    matches: Vec<Node>)
    ensures
        matches@ == (match o {
            Some(e) => visit_expression(*e),
            None => Seq::<Node>::empty(),
        }).filter(match_pred(identifiers@)),
    decreases o,
{
    let ghost pred = match_pred(identifiers@);
    match o {
        Some(e) => traverse_expression(identifiers, *e),
        None => {
            let matches: Vec<Node> = Vec::new();
            proof {
                assert(matches@ =~= Seq::<Node>::empty().filter(pred));
            }
            matches
        },
    }
}

/// Searches an optional expression position.
pub fn traverse_opt_expression(identifiers: &IdentifierSet, o: Option<Expression>) -> (matches: Vec<
    Node>)
    ensures
        matches@ == (match o {
            Some(e) => visit_expression(e),
            None => Seq::<Node>::empty(),
        }).filter(match_pred(identifiers@)),
    decreases o,
{
    let ghost pred = match_pred(identifiers@);
    match o {
        Some(e) => traverse_expression(identifiers, e),
        None => {
            let matches: Vec<Node> = Vec::new();
            proof {
                assert(matches@ =~= Seq::<Node>::empty().filter(pred));
            }
            matches
        },
    }
}

/// Searches the returns clause of a `try` statement, if present.
pub fn traverse_opt_try_returns(identifiers: &IdentifierSet, o: Option<TryReturns>) -> (matches:
    Vec<Node>)
    ensures
        matches@ == (match o {
            Some(r) => parameter_items_visits(r.params) + visit_statement(*r.body),
            None => Seq::<Node>::empty(),
        }).filter(match_pred(identifiers@)),
    decreases o,
{
    let ghost go = o;
    let ghost pred = match_pred(identifiers@);
    match o {
        Some(r) => {
            let mut matches = traverse_parameter_items(identifiers, r.params);
            let mut sub = traverse_statement(identifiers, *r.body);
            matches.append(&mut sub);
            proof {
                assert(matches@ =~= (match go {
                    Some(r) => parameter_items_visits(r.params) + visit_statement(*r.body),
                    None => Seq::<Node>::empty(),
                }).filter(pred));
            }
            matches
        },
        None => {
            let matches: Vec<Node> = Vec::new();
            proof {
                assert(matches@ =~= Seq::<Node>::empty().filter(pred));
            }
            matches
        },
    }
}

/// Searches a statement subtree.
pub fn traverse_statement(identifiers: &IdentifierSet, s: Statement) -> (matches: Vec<Node>)
    ensures
        matches@ == visit_statement(s).filter(match_pred(identifiers@)),
    decreases s, 1int,
{
    let ghost gs = s;
    let ghost pred = match_pred(identifiers@);
    let ghost gnode = Node::Statement(gs);
    let mut matches: Vec<Node> = Vec::new();
    let id = convert_statements_into_taintoooor_identifier(&s);
    if identifiers.contains(id) {
        matches.push(Node::Statement(s.clone()));
    }
    proof {
        lemma_filter_singleton(gnode, pred);
        assert(matches@ == seq![gnode].filter(pred));
    }
    let mut sub = traverse_statement_children(identifiers, s);
    matches.append(&mut sub);
    proof {
        assert(matches@ =~= visit_statement(gs).filter(pred));
    }
    matches
}

/// Searches the nested positions of a statement, without the statement
/// itself.
pub fn traverse_statement_children(identifiers: &IdentifierSet, s: Statement) -> (matches: Vec<
    Node>)
    ensures
        matches@ == statement_children(s).filter(match_pred(identifiers@)),
    decreases s, 0int,
{
    let ghost gs = s;
    let ghost pred = match_pred(identifiers@);
    let mut matches: Vec<Node> = Vec::new();
    match s {
        Statement::Block { loc: _, unchecked: _, statements } => {
            let mut sub = traverse_statement_list(identifiers, statements);
            matches.append(&mut sub);
        },
        Statement::Args(_, args) => {
            let mut sub = traverse_named_argument_list(identifiers, args);
            matches.append(&mut sub);
        },
        Statement::If(_, c, t, els) => {
            let mut sub = traverse_expression(identifiers, c);
            matches.append(&mut sub);
            let mut sub2 = traverse_statement(identifiers, *t);
            matches.append(&mut sub2);
            let mut sub3 = traverse_opt_statement(identifiers, els);
            matches.append(&mut sub3);
        },
        Statement::While(_, c, b) => {
            let mut sub = traverse_expression(identifiers, c);
            matches.append(&mut sub);
            let mut sub2 = traverse_statement(identifiers, *b);
            matches.append(&mut sub2);
        },
        Statement::Expression(_, e) => {
            let mut sub = traverse_expression(identifiers, e);
            matches.append(&mut sub);
        },
        Statement::VariableDefinition(_, decl, init) => {
            let mut sub = traverse_expression(identifiers, decl.ty);
            matches.append(&mut sub);
            let mut sub2 = traverse_opt_expression(identifiers, init);
            matches.append(&mut sub2);
        },
        Statement::For(_, init, cond, update, body) => {
            let mut sub = traverse_opt_statement(identifiers, init);
            matches.append(&mut sub);
            let mut sub2 = traverse_opt_boxed_expression(identifiers, cond);
            matches.append(&mut sub2);
            let mut sub3 = traverse_opt_statement(identifiers, update);
            matches.append(&mut sub3);
            let mut sub4 = traverse_opt_statement(identifiers, body);
            matches.append(&mut sub4);
        },
        Statement::DoWhile(_, b, c) => {
            let mut sub = traverse_statement(identifiers, *b);
            matches.append(&mut sub);
            let mut sub2 = traverse_expression(identifiers, c);
            matches.append(&mut sub2);
        },
        Statement::Return(_, e) => {
            let mut sub = traverse_opt_expression(identifiers, e);
            matches.append(&mut sub);
        },
        Statement::Revert(_, _, exprs) => {
            let mut sub = traverse_expression_list(identifiers, exprs);
            matches.append(&mut sub);
        },
        Statement::RevertNamedArgs(_, _, args) => {
            let mut sub = traverse_named_argument_list(identifiers, args);
            matches.append(&mut sub);
        },
        Statement::Emit(_, e) => {
            let mut sub = traverse_expression(identifiers, e);
            matches.append(&mut sub);
        },
        Statement::Try(_, e, r, _) => {
            let mut sub = traverse_expression(identifiers, e);
            matches.append(&mut sub);
            let mut sub2 = traverse_opt_try_returns(identifiers, r);
            matches.append(&mut sub2);
        },
        Statement::Assembly(_) => {},
        Statement::Continue(_) => {},
        Statement::Break(_) => {},
    }
    proof {
        assert(matches@ =~= statement_children(gs).filter(pred));
    }
    matches
}

/// Searches each statement of a list, in order.
pub fn traverse_statement_list(identifiers: &IdentifierSet, l: List<Statement>) -> (matches: Vec<
    Node,
>)
    ensures
        matches@ == statement_list_visits(l).filter(match_pred(identifiers@)),
    decreases l,
{
    let ghost gl = l;
    let ghost pred = match_pred(identifiers@);
    match l {
        List::Nil => {
            let matches: Vec<Node> = Vec::new();
            proof {
                assert(matches@ =~= statement_list_visits(gl).filter(pred));
            }
            matches
        },
        List::Cons(x, rest) => {
            let mut matches = traverse_statement(identifiers, *x);
            let mut sub = traverse_statement_list(identifiers, *rest);
            matches.append(&mut sub);
            proof {
                assert(matches@ =~= statement_list_visits(gl).filter(pred));
            }
            matches
        },
    }
}

/// Searches the type of each error field, in order.
pub fn traverse_error_parameter_list(identifiers: &IdentifierSet, l: List<ErrorParameter>) -> (
    matches: Vec<Node>)
    ensures
        matches@ == error_fields_visits(l).filter(match_pred(identifiers@)),
    decreases l,
{
    let ghost gl = l;
    let ghost pred = match_pred(identifiers@);
    match l {
        List::Nil => {
            let matches: Vec<Node> = Vec::new();
            proof {
                assert(matches@ =~= error_fields_visits(gl).filter(pred));
            }
            matches
        },
        List::Cons(x, rest) => {
            let field = *x;
            let mut matches = traverse_expression(identifiers, field.ty);
            let mut sub = traverse_error_parameter_list(identifiers, *rest);
            matches.append(&mut sub);
            proof {
                assert(matches@ =~= error_fields_visits(gl).filter(pred));
            }
            matches
        },
    }
}

/// Searches the type of each event field, in order.
pub fn traverse_event_parameter_list(identifiers: &IdentifierSet, l: List<EventParameter>) -> (
    matches: Vec<Node>)
    ensures
        matches@ == event_fields_visits(l).filter(match_pred(identifiers@)),
    decreases l,
{
    let ghost gl = l;
    let ghost pred = match_pred(identifiers@);
    match l {
        List::Nil => {
            let matches: Vec<Node> = Vec::new();
            proof {
                assert(matches@ =~= event_fields_visits(gl).filter(pred));
            }
            matches
        },
        List::Cons(x, rest) => {
            let field = *x;
            let mut matches = traverse_expression(identifiers, field.ty);
            let mut sub = traverse_event_parameter_list(identifiers, *rest);
            matches.append(&mut sub);
            proof {
                assert(matches@ =~= event_fields_visits(gl).filter(pred));
            }
            matches
        },
    }
}

/// Searches the type of each struct field, in order.
pub fn traverse_variable_declaration_list(identifiers: &IdentifierSet, l: List<
    VariableDeclaration>) -> (matches: Vec<Node>)
    ensures
        matches@ == struct_fields_visits(l).filter(match_pred(identifiers@)),
    decreases l,
{
    let ghost gl = l;
    let ghost pred = match_pred(identifiers@);
    match l {
        List::Nil => {
            let matches: Vec<Node> = Vec::new();
            proof {
                assert(matches@ =~= struct_fields_visits(gl).filter(pred));
            }
            matches
        },
        List::Cons(x, rest) => {
            let field = *x;
            let mut matches = traverse_expression(identifiers, field.ty);
            let mut sub = traverse_variable_declaration_list(identifiers, *rest);
            matches.append(&mut sub);
            proof {
                assert(matches@ =~= struct_fields_visits(gl).filter(pred));
            }
            matches
        },
    }
}

/// Searches the constructor arguments of each base, in order.
pub fn traverse_base_list(identifiers: &IdentifierSet, l: List<Base>) -> (matches: Vec<Node>)
    ensures
        matches@ == base_list_visits(l).filter(match_pred(identifiers@)),
    decreases l,
{
    let ghost gl = l;
    let ghost pred = match_pred(identifiers@);
    match l {
        List::Nil => {
            let matches: Vec<Node> = Vec::new();
            proof {
                assert(matches@ =~= base_list_visits(gl).filter(pred));
            }
            matches
        },
        List::Cons(x, rest) => {
            let base = *x;
            let mut matches: Vec<Node> = Vec::new();
            if let Some(args) = base.args {
                let mut sub = traverse_expression_list(identifiers, args);
                matches.append(&mut sub);
            }
            let mut sub2 = traverse_base_list(identifiers, *rest);
            matches.append(&mut sub2);
            proof {
                assert(matches@ =~= base_list_visits(gl).filter(pred));
            }
            matches
        },
    }
}

/// Searches what a function declaration reaches: parameter types, return
/// parameter types, and the body if present.
pub fn traverse_function_definition(identifiers: &IdentifierSet, d: FunctionDefinition) -> (matches:
    Vec<Node>)
    ensures
        matches@ == function_definition_children(d).filter(match_pred(identifiers@)),
    decreases d,
{
    let ghost gd = d;
    let ghost pred = match_pred(identifiers@);
    let mut matches = traverse_parameter_items(identifiers, d.params);
    let mut sub = traverse_parameter_items(identifiers, d.returns);
    matches.append(&mut sub);
    let mut sub2 = traverse_opt_statement_value(identifiers, d.body);
    matches.append(&mut sub2);
    proof {
        assert(matches@ =~= function_definition_children(gd).filter(pred));
    }
    matches
}

/// Searches an optional unboxed statement position.
pub fn traverse_opt_statement_value(identifiers: &IdentifierSet, o: Option<Statement>) -> (matches:
    Vec<Node>)
    ensures
        matches@ == (match o {
            Some(s) => visit_statement(s),
            None => Seq::<Node>::empty(),
        }).filter(match_pred(identifiers@)),
    decreases o,
{
    let ghost pred = match_pred(identifiers@);
    match o {
        Some(s) => traverse_statement(identifiers, s),
        None => {
            let matches: Vec<Node> = Vec::new();
            proof {
                assert(matches@ =~= Seq::<Node>::empty().filter(pred));
            }
            matches
        },
    }
}

/// Searches what a variable declaration reaches: its type, then its
/// initializer if present.
pub fn traverse_variable_definition(identifiers: &IdentifierSet, d: VariableDefinition) -> (matches:
    Vec<Node>)
    ensures
        matches@ == variable_definition_children(d).filter(match_pred(identifiers@)),
    decreases d,
{
    let ghost gd = d;
    let ghost pred = match_pred(identifiers@);
    let mut matches = traverse_expression(identifiers, d.ty);
    let mut sub = traverse_opt_expression(identifiers, d.initializer);
    matches.append(&mut sub);
    proof {
        assert(matches@ =~= variable_definition_children(gd).filter(pred));
    }
    matches
}

/// Searches what a contract declaration reaches: base constructor arguments,
/// then every member part.
pub fn traverse_contract_definition(identifiers: &IdentifierSet, d: ContractDefinition) -> (matches:
    Vec<Node>)
    ensures
        matches@ == contract_definition_children(d).filter(match_pred(identifiers@)),
    decreases d,
{
    let ghost gd = d;
    let ghost pred = match_pred(identifiers@);
    let mut matches = traverse_base_list(identifiers, d.base);
    let mut sub = traverse_contract_part_list(identifiers, d.parts);
    matches.append(&mut sub);
    proof {
        assert(matches@ =~= contract_definition_children(gd).filter(pred));
    }
    matches
}

/// Searches a contract member subtree.
pub fn traverse_contract_part(identifiers: &IdentifierSet, p: ContractPart) -> (matches: Vec<Node>)
    ensures
        matches@ == visit_contract_part(p).filter(match_pred(identifiers@)),
    decreases p, 1int,
{
    let ghost gp = p;
    let ghost pred = match_pred(identifiers@);
    let ghost gnode = Node::ContractPart(gp);
    let mut matches: Vec<Node> = Vec::new();
    let id = convert_contract_part_into_taintoooor_identifier(&p);
    if identifiers.contains(id) {
        matches.push(Node::ContractPart(p.clone()));
    }
    proof {
        lemma_filter_singleton(gnode, pred);
        assert(matches@ == seq![gnode].filter(pred));
    }
    let mut sub = traverse_contract_part_children(identifiers, p);
    matches.append(&mut sub);
    proof {
        assert(matches@ =~= visit_contract_part(gp).filter(pred));
    }
    matches
}

/// Searches the reachable children of a contract member.
pub fn traverse_contract_part_children(identifiers: &IdentifierSet, p: ContractPart) -> (matches:
    Vec<Node>)
    ensures
        matches@ == contract_part_children(p).filter(match_pred(identifiers@)),
    decreases p, 0int,
{
    let ghost gp = p;
    let ghost pred = match_pred(identifiers@);
    let mut matches: Vec<Node> = Vec::new();
    match p {
        ContractPart::StructDefinition(d) => {
            let def = *d;
            let mut sub = traverse_variable_declaration_list(identifiers, def.fields);
            matches.append(&mut sub);
        },
        ContractPart::EventDefinition(d) => {
            let def = *d;
            let mut sub = traverse_event_parameter_list(identifiers, def.fields);
            matches.append(&mut sub);
        },
        ContractPart::ErrorDefinition(d) => {
            let def = *d;
            let mut sub = traverse_error_parameter_list(identifiers, def.fields);
            matches.append(&mut sub);
        },
        ContractPart::VariableDefinition(d) => {
            let mut sub = traverse_variable_definition(identifiers, *d);
            matches.append(&mut sub);
        },
        ContractPart::FunctionDefinition(d) => {
            let mut sub = traverse_function_definition(identifiers, *d);
            matches.append(&mut sub);
        },
        ContractPart::TypeDefinition(d) => {
            let def = *d;
            let mut sub = traverse_expression(identifiers, def.ty);
            matches.append(&mut sub);
        },
        ContractPart::Using(d) => {
            let def = *d;
            let mut sub = traverse_opt_expression(identifiers, def.ty);
            matches.append(&mut sub);
        },
        ContractPart::EnumDefinition(_) => {},
        ContractPart::StraySemicolon(_) => {},
    }
    proof {
        assert(matches@ =~= contract_part_children(gp).filter(pred));
    }
    matches
}

/// Searches each contract member of a list, in order.
pub fn traverse_contract_part_list(identifiers: &IdentifierSet, l: List<ContractPart>) -> (matches:
    Vec<Node>)
    ensures
        matches@ == contract_part_list_visits(l).filter(match_pred(identifiers@)),
    decreases l,
{
    let ghost gl = l;
    let ghost pred = match_pred(identifiers@);
    match l {
        List::Nil => {
            let matches: Vec<Node> = Vec::new();
            proof {
                assert(matches@ =~= contract_part_list_visits(gl).filter(pred));
            }
            matches
        },
        List::Cons(x, rest) => {
            let mut matches = traverse_contract_part(identifiers, *x);
            let mut sub = traverse_contract_part_list(identifiers, *rest);
            matches.append(&mut sub);
            proof {
                assert(matches@ =~= contract_part_list_visits(gl).filter(pred));
            }
            matches
        },
    }
}

/// Searches a top-level declaration subtree.
pub fn traverse_source_unit_part(identifiers: &IdentifierSet, p: SourceUnitPart) -> (matches: Vec<
    Node>)
    ensures
        matches@ == visit_source_unit_part(p).filter(match_pred(identifiers@)),
    decreases p, 1int,
{
    let ghost gp = p;
    let ghost pred = match_pred(identifiers@);
    let ghost gnode = Node::SourceUnitPart(gp);
    let mut matches: Vec<Node> = Vec::new();
    let id = convert_source_unit_into_taintoooor_identifier(&p);
    if identifiers.contains(id) {
        matches.push(Node::SourceUnitPart(p.clone()));
    }
    proof {
        lemma_filter_singleton(gnode, pred);
        assert(matches@ == seq![gnode].filter(pred));
    }
    let mut sub = traverse_source_unit_part_children(identifiers, p);
    matches.append(&mut sub);
    proof {
        assert(matches@ =~= visit_source_unit_part(gp).filter(pred));
    }
    matches
}

/// Searches the reachable children of a top-level declaration.
pub fn traverse_source_unit_part_children(identifiers: &IdentifierSet, p: SourceUnitPart) -> (
    matches: Vec<Node>)
    ensures
        matches@ == source_unit_part_children(p).filter(match_pred(identifiers@)),
    decreases p, 0int,
{
    let ghost gp = p;
    let ghost pred = match_pred(identifiers@);
    let mut matches: Vec<Node> = Vec::new();
    match p {
        SourceUnitPart::ContractDefinition(d) => {
            let mut sub = traverse_contract_definition(identifiers, *d);
            matches.append(&mut sub);
        },
        SourceUnitPart::StructDefinition(d) => {
            let def = *d;
            let mut sub = traverse_variable_declaration_list(identifiers, def.fields);
            matches.append(&mut sub);
        },
        SourceUnitPart::EventDefinition(d) => {
            let def = *d;
            let mut sub = traverse_event_parameter_list(identifiers, def.fields);
            matches.append(&mut sub);
        },
        SourceUnitPart::ErrorDefinition(d) => {
            let def = *d;
            let mut sub = traverse_error_parameter_list(identifiers, def.fields);
            matches.append(&mut sub);
        },
        SourceUnitPart::VariableDefinition(d) => {
            let mut sub = traverse_variable_definition(identifiers, *d);
            matches.append(&mut sub);
        },
        SourceUnitPart::FunctionDefinition(d) => {
            let mut sub = traverse_function_definition(identifiers, *d);
            matches.append(&mut sub);
        },
        SourceUnitPart::TypeDefinition(d) => {
            let def = *d;
            let mut sub = traverse_expression(identifiers, def.ty);
            matches.append(&mut sub);
        },
        SourceUnitPart::Using(d) => {
            let def = *d;
            let mut sub = traverse_opt_expression(identifiers, def.ty);
            matches.append(&mut sub);
        },
        SourceUnitPart::PragmaDirective(_, _, _) => {},
        SourceUnitPart::ImportDirective(_) => {},
        SourceUnitPart::EnumDefinition(_) => {},
        SourceUnitPart::StraySemicolon(_) => {},
    }
    proof {
        assert(matches@ =~= source_unit_part_children(gp).filter(pred));
    }
    matches
}

/// Searches each top-level declaration of a list, in order.
pub fn traverse_source_unit_part_list(identifiers: &IdentifierSet, l: List<SourceUnitPart>) -> (
    matches: Vec<Node>)
    ensures
        matches@ == source_unit_part_list_visits(l).filter(match_pred(identifiers@)),
    decreases l,
{
    let ghost gl = l;
    let ghost pred = match_pred(identifiers@);
    match l {
        List::Nil => {
            let matches: Vec<Node> = Vec::new();
            proof {
                assert(matches@ =~= source_unit_part_list_visits(gl).filter(pred));
            }
            matches
        },
        List::Cons(x, rest) => {
            let mut matches = traverse_source_unit_part(identifiers, *x);
            let mut sub = traverse_source_unit_part_list(identifiers, *rest);
            matches.append(&mut sub);
            proof {
                assert(matches@ =~= source_unit_part_list_visits(gl).filter(pred));
            }
            matches
        },
    }
}

/// Searches a whole source file: the unit itself, then each top-level
/// declaration in source order.
pub fn traverse_source_unit(identifiers: &IdentifierSet, u: SourceUnit) -> (matches: Vec<Node>)
    ensures
        matches@ == visit_source_unit(u).filter(match_pred(identifiers@)),
    decreases u,
{
    let ghost gu = u;
    let ghost pred = match_pred(identifiers@);
    let ghost gnode = Node::SourceUnit(gu);
    let mut matches: Vec<Node> = Vec::new();
    let id = Identifier::SourceUnit;
    if identifiers.contains(id) {
        matches.push(Node::SourceUnit(u.clone()));
    }
    proof {
        lemma_filter_singleton(gnode, pred);
        assert(matches@ == seq![gnode].filter(pred));
    }
    let SourceUnit(parts) = u;
    let mut sub = traverse_source_unit_part_list(identifiers, parts);
    matches.append(&mut sub);
    proof {
        assert(matches@ =~= visit_source_unit(gu).filter(pred));
    }
    matches
}

/// Searches the tree rooted at `node` for nodes whose kind lies in
/// `identifiers`, returning every match in pre-order: a node is tested
/// before its children, children in structural order, and a matching node
/// still has its children searched.
pub fn traverse_node_for_identifiers(identifiers: &IdentifierSet, node: Node) -> (matches: Vec<
    Node>)
    ensures
        matches@ == search_matches(identifiers@, node),
{
    match node {
        Node::Expression(e) => traverse_expression(identifiers, e),
        Node::Statement(s) => traverse_statement(identifiers, s),
        Node::ContractPart(p) => traverse_contract_part(identifiers, p),
        Node::SourceUnitPart(p) => traverse_source_unit_part(identifiers, p),
        Node::SourceUnit(u) => traverse_source_unit(identifiers, u),
    }
}

/// Searches the tree for a single target kind.
pub fn get_identifier_from_node(identifier: Identifier, node: Node) -> (matches: Vec<Node>)
    ensures
        matches@ == search_matches(Set::<Identifier>::empty().insert(identifier), node),
{
    let mut target_set = IdentifierSet::new();
    target_set.insert(identifier);
    traverse_node_for_identifiers(&target_set, node)
}

} // verus!
