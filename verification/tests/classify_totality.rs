#![allow(dead_code)]
#![allow(unused_imports)]

use taintoooor::ast::{
    Base, ContractDefinition, ContractPart, EnumDefinition, ErrorDefinition, ErrorParameter,
    EventDefinition, EventParameter, Expression, FunctionDefinition, List, LitChunk, Loc, Name,
    Node, Parameter, ParameterItem, SourceUnit, SourceUnitPart, Statement, StructDefinition, Type,
    TypeDefinition, Using, UnitName, VariableDeclaration, VariableDefinition,
};
use taintoooor::identifier::Identifier;

fn loc() -> Loc {
    Loc { start: 0, end: 0 }
}

fn nm(s: &str) -> Name {
    Name { loc: loc(), name: s.to_string() }
}

fn chunk(s: &str) -> LitChunk {
    LitChunk { loc: loc(), value: s.to_string() }
}

fn bx(e: Expression) -> Box<Expression> {
    Box::new(e)
}

fn var(s: &str) -> Expression {
    Expression::Variable(nm(s))
}

fn lst<T>(items: Vec<T>) -> List<T> {
    let mut l = List::Nil;
    for x in items.into_iter().rev() {
        l = List::Cons(Box::new(x), Box::new(l));
    }
    l
}

fn block(stmts: Vec<Statement>) -> Statement {
    Statement::Block { loc: loc(), unchecked: false, statements: lst(stmts) }
}

fn decl(nme: &str) -> VariableDeclaration {
    VariableDeclaration { loc: loc(), ty: Expression::Type(loc(), Type::Uint(256)), name: nm(nme) }
}

fn vardef(nme: &str) -> VariableDefinition {
    VariableDefinition {
        loc: loc(),
        ty: Expression::Type(loc(), Type::Uint(256)),
        name: nm(nme),
        initializer: None,
    }
}

fn param(ty: Expression) -> ParameterItem {
    ParameterItem { loc: loc(), param: Some(Parameter { loc: loc(), ty, name: None }) }
}

fn fun_def(nme: &str, params: Vec<ParameterItem>, body: Option<Statement>) -> FunctionDefinition {
    FunctionDefinition {
        loc: loc(),
        name: Some(nm(nme)),
        params: lst(params),
        attributes: List::Nil,
        returns: List::Nil,
        body,
    }
}

fn struct_def() -> StructDefinition {
    StructDefinition { loc: loc(), name: nm("S"), fields: List::Nil }
}

fn enum_def() -> EnumDefinition {
    EnumDefinition { loc: loc(), name: nm("E"), values: List::Nil }
}

fn event_def() -> EventDefinition {
    EventDefinition { loc: loc(), name: nm("Ev"), fields: List::Nil, anonymous: false }
}

fn error_def() -> ErrorDefinition {
    ErrorDefinition { loc: loc(), name: nm("Er"), fields: List::Nil }
}

fn type_def() -> TypeDefinition {
    TypeDefinition { loc: loc(), name: nm("T"), ty: Expression::Type(loc(), Type::Uint(256)) }
}

fn contract_def(base: Vec<Base>, parts: Vec<ContractPart>) -> ContractDefinition {
    ContractDefinition { loc: loc(), name: nm("C"), base: lst(base), parts: lst(parts) }
}

#[test]
fn every_expression_constructor_classifies() {
    let cases: Vec<(Node, Identifier)> = vec![
        (Node::Expression(Expression::PostIncrement(loc(), bx(var("x")))), Identifier::PostIncrement),
        (Node::Expression(Expression::PostDecrement(loc(), bx(var("x")))), Identifier::PostDecrement),
        (Node::Expression(Expression::New(loc(), bx(var("x")))), Identifier::New),
        (Node::Expression(Expression::ArraySubscript(loc(), bx(var("a")), None)), Identifier::ArraySubscript),
        (Node::Expression(Expression::ArraySlice(loc(), bx(var("a")), None, None)), Identifier::ArraySlice),
        (Node::Expression(Expression::Parenthesis(loc(), bx(var("x")))), Identifier::Parenthesis),
        (Node::Expression(Expression::MemberAccess(loc(), bx(var("a")), nm("f"))), Identifier::MemberAccess),
        (Node::Expression(Expression::FunctionCall(loc(), bx(var("f")), List::Nil)), Identifier::FunctionCall),
        (Node::Expression(Expression::FunctionCallBlock(loc(), bx(var("f")), Box::new(block(vec![])))), Identifier::FunctionCallBlock),
        (Node::Expression(Expression::NamedFunctionCall(loc(), bx(var("f")), List::Nil)), Identifier::NamedFunctionCall),
        (Node::Expression(Expression::Not(loc(), bx(var("x")))), Identifier::Not),
        (Node::Expression(Expression::Complement(loc(), bx(var("x")))), Identifier::Complement),
        (Node::Expression(Expression::Delete(loc(), bx(var("x")))), Identifier::Delete),
        (Node::Expression(Expression::PreIncrement(loc(), bx(var("x")))), Identifier::PreIncrement),
        (Node::Expression(Expression::PreDecrement(loc(), bx(var("x")))), Identifier::PreDecrement),
        (Node::Expression(Expression::UnaryPlus(loc(), bx(var("x")))), Identifier::UnaryPlus),
        (Node::Expression(Expression::UnaryMinus(loc(), bx(var("x")))), Identifier::UnaryMinus),
        (Node::Expression(Expression::Power(loc(), bx(var("a")), bx(var("b")))), Identifier::Power),
        (Node::Expression(Expression::Multiply(loc(), bx(var("a")), bx(var("b")))), Identifier::Multiply),
        (Node::Expression(Expression::Divide(loc(), bx(var("a")), bx(var("b")))), Identifier::Divide),
        (Node::Expression(Expression::Modulo(loc(), bx(var("a")), bx(var("b")))), Identifier::Modulo),
        (Node::Expression(Expression::Add(loc(), bx(var("a")), bx(var("b")))), Identifier::Add),
        (Node::Expression(Expression::Subtract(loc(), bx(var("a")), bx(var("b")))), Identifier::Subtract),
        (Node::Expression(Expression::ShiftLeft(loc(), bx(var("a")), bx(var("b")))), Identifier::ShiftLeft),
        (Node::Expression(Expression::ShiftRight(loc(), bx(var("a")), bx(var("b")))), Identifier::ShiftRight),
        (Node::Expression(Expression::BitwiseAnd(loc(), bx(var("a")), bx(var("b")))), Identifier::BitwiseAnd),
        (Node::Expression(Expression::BitwiseXor(loc(), bx(var("a")), bx(var("b")))), Identifier::BitwiseXor),
        (Node::Expression(Expression::BitwiseOr(loc(), bx(var("a")), bx(var("b")))), Identifier::BitwiseOr),
        (Node::Expression(Expression::Less(loc(), bx(var("a")), bx(var("b")))), Identifier::Less),
        (Node::Expression(Expression::More(loc(), bx(var("a")), bx(var("b")))), Identifier::More),
        (Node::Expression(Expression::LessEqual(loc(), bx(var("a")), bx(var("b")))), Identifier::LessEqual),
        (Node::Expression(Expression::MoreEqual(loc(), bx(var("a")), bx(var("b")))), Identifier::MoreEqual),
        (Node::Expression(Expression::Equal(loc(), bx(var("a")), bx(var("b")))), Identifier::Equal),
        (Node::Expression(Expression::NotEqual(loc(), bx(var("a")), bx(var("b")))), Identifier::NotEqual),
        (Node::Expression(Expression::And(loc(), bx(var("a")), bx(var("b")))), Identifier::And),
        (Node::Expression(Expression::Or(loc(), bx(var("a")), bx(var("b")))), Identifier::Or),
        (Node::Expression(Expression::Assign(loc(), bx(var("a")), bx(var("b")))), Identifier::Assign),
        (Node::Expression(Expression::AssignOr(loc(), bx(var("a")), bx(var("b")))), Identifier::AssignOr),
        (Node::Expression(Expression::AssignAnd(loc(), bx(var("a")), bx(var("b")))), Identifier::AssignAnd),
        (Node::Expression(Expression::AssignXor(loc(), bx(var("a")), bx(var("b")))), Identifier::AssignXor),
        (Node::Expression(Expression::AssignShiftLeft(loc(), bx(var("a")), bx(var("b")))), Identifier::AssignShiftLeft),
        (Node::Expression(Expression::AssignShiftRight(loc(), bx(var("a")), bx(var("b")))), Identifier::AssignShiftRight),
        (Node::Expression(Expression::AssignAdd(loc(), bx(var("a")), bx(var("b")))), Identifier::AssignAdd),
        (Node::Expression(Expression::AssignSubtract(loc(), bx(var("a")), bx(var("b")))), Identifier::AssignSubtract),
        (Node::Expression(Expression::AssignMultiply(loc(), bx(var("a")), bx(var("b")))), Identifier::AssignMultiply),
        (Node::Expression(Expression::AssignDivide(loc(), bx(var("a")), bx(var("b")))), Identifier::AssignDivide),
        (Node::Expression(Expression::AssignModulo(loc(), bx(var("a")), bx(var("b")))), Identifier::AssignModulo),
        (Node::Expression(Expression::Ternary(loc(), bx(var("a")), bx(var("b")), bx(var("c")))), Identifier::Ternary),
        (Node::Expression(Expression::BoolLiteral(loc(), true)), Identifier::BoolLiteral),
        (Node::Expression(Expression::NumberLiteral(loc(), "1".to_string(), String::new())), Identifier::NumberLiteral),
        (Node::Expression(Expression::RationalNumberLiteral(loc(), "1".to_string(), "5".to_string(), String::new())), Identifier::RationalNumberLiteral),
        (Node::Expression(Expression::HexNumberLiteral(loc(), "0x1".to_string())), Identifier::HexNumberLiteral),
        (Node::Expression(Expression::StringLiteral(List::Nil)), Identifier::StringLiteral),
        (Node::Expression(Expression::Type(loc(), Type::Bool)), Identifier::Type),
        (Node::Expression(Expression::HexLiteral(List::Nil)), Identifier::HexLiteral),
        (Node::Expression(Expression::AddressLiteral(loc(), "0x0".to_string())), Identifier::AddressLiteral),
        (Node::Expression(var("x")), Identifier::Variable),
        (Node::Expression(Expression::List(loc(), List::Nil)), Identifier::List),
        (Node::Expression(Expression::ArrayLiteral(loc(), List::Nil)), Identifier::ArrayLiteral),
        (Node::Expression(Expression::Unit(loc(), bx(var("x")), UnitName::Ether)), Identifier::Unit),
        (Node::Expression(Expression::This(loc())), Identifier::This),
    ];
    for (node, expected) in cases {
        assert_eq!(node.as_identifier(), expected);
    }
}

#[test]
fn every_statement_constructor_classifies() {
    let cases: Vec<(Node, Identifier)> = vec![
        (Node::Statement(block(vec![])), Identifier::Block),
        (Node::Statement(Statement::Assembly(loc())), Identifier::Unclassified),
        (Node::Statement(Statement::Args(loc(), List::Nil)), Identifier::Args),
        (Node::Statement(Statement::If(loc(), var("c"), Box::new(block(vec![])), None)), Identifier::If),
        (Node::Statement(Statement::While(loc(), var("c"), Box::new(block(vec![])))), Identifier::While),
        (Node::Statement(Statement::Expression(loc(), var("x"))), Identifier::Expression),
        (Node::Statement(Statement::VariableDefinition(loc(), decl("v"), None)), Identifier::VariableDefinition),
        (Node::Statement(Statement::For(loc(), None, None, None, None)), Identifier::For),
        (Node::Statement(Statement::DoWhile(loc(), Box::new(block(vec![])), var("c"))), Identifier::DoWhile),
        (Node::Statement(Statement::Continue(loc())), Identifier::Unclassified),
        (Node::Statement(Statement::Break(loc())), Identifier::Unclassified),
        (Node::Statement(Statement::Return(loc(), None)), Identifier::Return),
        (Node::Statement(Statement::Revert(loc(), None, List::Nil)), Identifier::Revert),
        (Node::Statement(Statement::RevertNamedArgs(loc(), None, List::Nil)), Identifier::RevertNamedArgs),
        (Node::Statement(Statement::Emit(loc(), var("e"))), Identifier::Emit),
        (Node::Statement(Statement::Try(loc(), var("e"), None, List::Nil)), Identifier::Try),
    ];
    for (node, expected) in cases {
        assert_eq!(node.as_identifier(), expected);
    }
}

#[test]
fn every_contract_part_constructor_classifies() {
    let cases: Vec<(Node, Identifier)> = vec![
        (Node::ContractPart(ContractPart::StructDefinition(Box::new(struct_def()))), Identifier::StructDefinition),
        (Node::ContractPart(ContractPart::EventDefinition(Box::new(event_def()))), Identifier::EventDefinition),
        (Node::ContractPart(ContractPart::EnumDefinition(Box::new(enum_def()))), Identifier::EnumDefinition),
        (Node::ContractPart(ContractPart::ErrorDefinition(Box::new(error_def()))), Identifier::ErrorDefinition),
        (Node::ContractPart(ContractPart::VariableDefinition(Box::new(vardef("x")))), Identifier::VariableDefinition),
        (Node::ContractPart(ContractPart::FunctionDefinition(Box::new(fun_def("f", vec![], None)))), Identifier::FunctionDefinition),
        (Node::ContractPart(ContractPart::TypeDefinition(Box::new(type_def()))), Identifier::TypeDefinition),
        (Node::ContractPart(ContractPart::StraySemicolon(loc())), Identifier::StraySemicolon),
        (Node::ContractPart(ContractPart::Using(Box::new(Using { loc: loc(), ty: None }))), Identifier::Using),
    ];
    for (node, expected) in cases {
        assert_eq!(node.as_identifier(), expected);
    }
}

#[test]
fn every_source_unit_part_constructor_classifies() {
    let cases: Vec<(Node, Identifier)> = vec![
        (Node::SourceUnitPart(SourceUnitPart::ContractDefinition(Box::new(contract_def(vec![], vec![])))), Identifier::ContractDefinition),
        (Node::SourceUnitPart(SourceUnitPart::PragmaDirective(loc(), nm("solidity"), chunk("^0.8.16"))), Identifier::PragmaDirective),
        (Node::SourceUnitPart(SourceUnitPart::ImportDirective(loc())), Identifier::ImportDirective),
        (Node::SourceUnitPart(SourceUnitPart::EnumDefinition(Box::new(enum_def()))), Identifier::EnumDefinition),
        (Node::SourceUnitPart(SourceUnitPart::StructDefinition(Box::new(struct_def()))), Identifier::StructDefinition),
        (Node::SourceUnitPart(SourceUnitPart::EventDefinition(Box::new(event_def()))), Identifier::EventDefinition),
        (Node::SourceUnitPart(SourceUnitPart::ErrorDefinition(Box::new(error_def()))), Identifier::ErrorDefinition),
        (Node::SourceUnitPart(SourceUnitPart::FunctionDefinition(Box::new(fun_def("f", vec![], None)))), Identifier::FunctionDefinition),
        (Node::SourceUnitPart(SourceUnitPart::VariableDefinition(Box::new(vardef("x")))), Identifier::VariableDefinition),
        (Node::SourceUnitPart(SourceUnitPart::TypeDefinition(Box::new(type_def()))), Identifier::TypeDefinition),
        (Node::SourceUnitPart(SourceUnitPart::Using(Box::new(Using { loc: loc(), ty: None }))), Identifier::Using),
        (Node::SourceUnitPart(SourceUnitPart::StraySemicolon(loc())), Identifier::StraySemicolon),
    ];
    for (node, expected) in cases {
        assert_eq!(node.as_identifier(), expected);
    }
}

#[test]
fn source_unit_classifies() {
    let unit = Node::SourceUnit(SourceUnit(List::Nil));
    assert_eq!(unit.as_identifier(), Identifier::SourceUnit);
}
