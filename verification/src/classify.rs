//! The node classifier: a pure, total map from any concrete node to its
//! [`Identifier`] tag.
//!
//! Each executable classifier returns exactly the value of its spec
//! counterpart, and the spec functions are total over every constructor, so
//! classification never fails and never leaves a node ambiguous.

use vstd::prelude::*;
use crate::ast::{ContractPart, Expression, Node, SourceUnitPart, Statement};
use crate::identifier::Identifier;

verus! {

/// The tag of a top-level declaration.
pub open spec fn source_unit_part_identifier(p: SourceUnitPart) -> Identifier {
    match p {
        SourceUnitPart::ContractDefinition(_) => Identifier::ContractDefinition,
        SourceUnitPart::PragmaDirective(_, _, _) => Identifier::PragmaDirective,
        SourceUnitPart::ImportDirective(_) => Identifier::ImportDirective,
        SourceUnitPart::EnumDefinition(_) => Identifier::EnumDefinition,
        SourceUnitPart::StructDefinition(_) => Identifier::StructDefinition,
        SourceUnitPart::EventDefinition(_) => Identifier::EventDefinition,
        SourceUnitPart::ErrorDefinition(_) => Identifier::ErrorDefinition,
        SourceUnitPart::FunctionDefinition(_) => Identifier::FunctionDefinition,
        SourceUnitPart::VariableDefinition(_) => Identifier::VariableDefinition,
        SourceUnitPart::TypeDefinition(_) => Identifier::TypeDefinition,
        SourceUnitPart::Using(_) => Identifier::Using,
        SourceUnitPart::StraySemicolon(_) => Identifier::StraySemicolon,
    }
}

/// The tag of a contract member.
pub open spec fn contract_part_identifier(p: ContractPart) -> Identifier {
    match p {
        ContractPart::StructDefinition(_) => Identifier::StructDefinition,
        ContractPart::EventDefinition(_) => Identifier::EventDefinition,
        ContractPart::EnumDefinition(_) => Identifier::EnumDefinition,
        ContractPart::ErrorDefinition(_) => Identifier::ErrorDefinition,
        ContractPart::VariableDefinition(_) => Identifier::VariableDefinition,
        ContractPart::FunctionDefinition(_) => Identifier::FunctionDefinition,
        ContractPart::TypeDefinition(_) => Identifier::TypeDefinition,
        ContractPart::StraySemicolon(_) => Identifier::StraySemicolon,
        ContractPart::Using(_) => Identifier::Using,
    }
}

/// The tag of an expression.
pub open spec fn expression_identifier(e: Expression) -> Identifier {
    match e {
        Expression::PostIncrement(_, _) => Identifier::PostIncrement,
        Expression::PostDecrement(_, _) => Identifier::PostDecrement,
        Expression::New(_, _) => Identifier::New,
        Expression::ArraySubscript(_, _, _) => Identifier::ArraySubscript,
        Expression::ArraySlice(_, _, _, _) => Identifier::ArraySlice,
        Expression::Parenthesis(_, _) => Identifier::Parenthesis,
        Expression::MemberAccess(_, _, _) => Identifier::MemberAccess,
        Expression::FunctionCall(_, _, _) => Identifier::FunctionCall,
        Expression::FunctionCallBlock(_, _, _) => Identifier::FunctionCallBlock,
        Expression::NamedFunctionCall(_, _, _) => Identifier::NamedFunctionCall,
        Expression::Not(_, _) => Identifier::Not,
        Expression::Complement(_, _) => Identifier::Complement,
        Expression::Delete(_, _) => Identifier::Delete,
        Expression::PreIncrement(_, _) => Identifier::PreIncrement,
        Expression::PreDecrement(_, _) => Identifier::PreDecrement,
        Expression::UnaryPlus(_, _) => Identifier::UnaryPlus,
        Expression::UnaryMinus(_, _) => Identifier::UnaryMinus,
        Expression::Power(_, _, _) => Identifier::Power,
        Expression::Multiply(_, _, _) => Identifier::Multiply,
        Expression::Divide(_, _, _) => Identifier::Divide,
        Expression::Modulo(_, _, _) => Identifier::Modulo,
        Expression::Add(_, _, _) => Identifier::Add,
        Expression::Subtract(_, _, _) => Identifier::Subtract,
        Expression::ShiftLeft(_, _, _) => Identifier::ShiftLeft,
        Expression::ShiftRight(_, _, _) => Identifier::ShiftRight,
        Expression::BitwiseAnd(_, _, _) => Identifier::BitwiseAnd,
        Expression::BitwiseXor(_, _, _) => Identifier::BitwiseXor,
        Expression::BitwiseOr(_, _, _) => Identifier::BitwiseOr,
        Expression::Less(_, _, _) => Identifier::Less,
        Expression::More(_, _, _) => Identifier::More,
        Expression::LessEqual(_, _, _) => Identifier::LessEqual,
        Expression::MoreEqual(_, _, _) => Identifier::MoreEqual,
        Expression::Equal(_, _, _) => Identifier::Equal,
        Expression::NotEqual(_, _, _) => Identifier::NotEqual,
        Expression::And(_, _, _) => Identifier::And,
        Expression::Or(_, _, _) => Identifier::Or,
        Expression::Ternary(_, _, _, _) => Identifier::Ternary,
        Expression::Assign(_, _, _) => Identifier::Assign,
        Expression::AssignOr(_, _, _) => Identifier::AssignOr,
        Expression::AssignAnd(_, _, _) => Identifier::AssignAnd,
        Expression::AssignXor(_, _, _) => Identifier::AssignXor,
        Expression::AssignShiftLeft(_, _, _) => Identifier::AssignShiftLeft,
        Expression::AssignShiftRight(_, _, _) => Identifier::AssignShiftRight,
        Expression::AssignAdd(_, _, _) => Identifier::AssignAdd,
        Expression::AssignSubtract(_, _, _) => Identifier::AssignSubtract,
        Expression::AssignMultiply(_, _, _) => Identifier::AssignMultiply,
        Expression::AssignDivide(_, _, _) => Identifier::AssignDivide,
        Expression::AssignModulo(_, _, _) => Identifier::AssignModulo,
        Expression::BoolLiteral(_, _) => Identifier::BoolLiteral,
        Expression::NumberLiteral(_, _, _) => Identifier::NumberLiteral,
        Expression::RationalNumberLiteral(_, _, _, _) => Identifier::RationalNumberLiteral,
        Expression::HexNumberLiteral(_, _) => Identifier::HexNumberLiteral,
        Expression::StringLiteral(_) => Identifier::StringLiteral,
        Expression::Type(_, _) => Identifier::Type,
        Expression::HexLiteral(_) => Identifier::HexLiteral,
        Expression::AddressLiteral(_, _) => Identifier::AddressLiteral,
        Expression::Variable(_) => Identifier::Variable,
        Expression::List(_, _) => Identifier::List,
        Expression::ArrayLiteral(_, _) => Identifier::ArrayLiteral,
        Expression::Unit(_, _, _) => Identifier::Unit,
        Expression::This(_) => Identifier::This,
    }
}

/// The tag of a statement. Assembly blocks, `continue` and `break` have no
/// structural model yet and classify as [`Identifier::Unclassified`].
pub open spec fn statement_identifier(s: Statement) -> Identifier {
    match s {
        Statement::Args(_, _) => Identifier::Args,
        Statement::Return(_, _) => Identifier::Return,
        Statement::Revert(_, _, _) => Identifier::Revert,
        Statement::Emit(_, _) => Identifier::Emit,
        Statement::RevertNamedArgs(_, _, _) => Identifier::RevertNamedArgs,
        Statement::Expression(_, _) => Identifier::Expression,
        Statement::VariableDefinition(_, _, _) => Identifier::VariableDefinition,
        Statement::Block { loc: _, unchecked: _, statements: _ } => Identifier::Block,
        Statement::If(_, _, _, _) => Identifier::If,
        Statement::While(_, _, _) => Identifier::While,
        Statement::For(_, _, _, _, _) => Identifier::For,
        Statement::DoWhile(_, _, _) => Identifier::DoWhile,
        Statement::Try(_, _, _, _) => Identifier::Try,
        Statement::Assembly(_) => Identifier::Unclassified,
        Statement::Continue(_) => Identifier::Unclassified,
        Statement::Break(_) => Identifier::Unclassified,
    }
}

/// The tag of a wrapped node.
pub open spec fn node_identifier(n: Node) -> Identifier {
    match n {
        Node::Expression(e) => expression_identifier(e),
        Node::Statement(s) => statement_identifier(s),
        Node::ContractPart(p) => contract_part_identifier(p),
        Node::SourceUnit(_) => Identifier::SourceUnit,
        Node::SourceUnitPart(p) => source_unit_part_identifier(p),
    }
}

/// Classifies a top-level declaration.
pub fn convert_source_unit_into_taintoooor_identifier(
    source_unit_part: &SourceUnitPart,
) -> (r: Identifier)
    ensures
        r == source_unit_part_identifier(*source_unit_part),
{
    match source_unit_part {
        SourceUnitPart::ContractDefinition(_) => Identifier::ContractDefinition,
        SourceUnitPart::PragmaDirective(_, _, _) => Identifier::PragmaDirective,
        SourceUnitPart::ImportDirective(_) => Identifier::ImportDirective,
        SourceUnitPart::EnumDefinition(_) => Identifier::EnumDefinition,
        SourceUnitPart::StructDefinition(_) => Identifier::StructDefinition,
        SourceUnitPart::EventDefinition(_) => Identifier::EventDefinition,
        SourceUnitPart::ErrorDefinition(_) => Identifier::ErrorDefinition,
        SourceUnitPart::FunctionDefinition(_) => Identifier::FunctionDefinition,
        SourceUnitPart::VariableDefinition(_) => Identifier::VariableDefinition,
        SourceUnitPart::TypeDefinition(_) => Identifier::TypeDefinition,
        SourceUnitPart::Using(_) => Identifier::Using,
        SourceUnitPart::StraySemicolon(_) => Identifier::StraySemicolon,
    }
}

/// Classifies a contract member.
pub fn convert_contract_part_into_taintoooor_identifier(contract_part: &ContractPart) -> (r:
    Identifier)
    ensures
        r == contract_part_identifier(*contract_part),
{
    match contract_part {
        ContractPart::StructDefinition(_) => Identifier::StructDefinition,
        ContractPart::EventDefinition(_) => Identifier::EventDefinition,
        ContractPart::EnumDefinition(_) => Identifier::EnumDefinition,
        ContractPart::ErrorDefinition(_) => Identifier::ErrorDefinition,
        ContractPart::VariableDefinition(_) => Identifier::VariableDefinition,
        ContractPart::FunctionDefinition(_) => Identifier::FunctionDefinition,
        ContractPart::TypeDefinition(_) => Identifier::TypeDefinition,
        ContractPart::StraySemicolon(_) => Identifier::StraySemicolon,
        ContractPart::Using(_) => Identifier::Using,
    }
}

/// Classifies an expression.
pub fn convert_expressions_into_taintoooor_identifier(expression: &Expression) -> (r: Identifier)
    ensures
        r == expression_identifier(*expression),
{
    match expression {
        Expression::PostIncrement(_, _) => Identifier::PostIncrement,
        Expression::PostDecrement(_, _) => Identifier::PostDecrement,
        Expression::New(_, _) => Identifier::New,
        Expression::ArraySubscript(_, _, _) => Identifier::ArraySubscript,
        Expression::ArraySlice(_, _, _, _) => Identifier::ArraySlice,
        Expression::Parenthesis(_, _) => Identifier::Parenthesis,
        Expression::MemberAccess(_, _, _) => Identifier::MemberAccess,
        Expression::FunctionCall(_, _, _) => Identifier::FunctionCall,
        Expression::FunctionCallBlock(_, _, _) => Identifier::FunctionCallBlock,
        Expression::NamedFunctionCall(_, _, _) => Identifier::NamedFunctionCall,
        Expression::Not(_, _) => Identifier::Not,
        Expression::Complement(_, _) => Identifier::Complement,
        Expression::Delete(_, _) => Identifier::Delete,
        Expression::PreIncrement(_, _) => Identifier::PreIncrement,
        Expression::PreDecrement(_, _) => Identifier::PreDecrement,
        Expression::UnaryPlus(_, _) => Identifier::UnaryPlus,
        Expression::UnaryMinus(_, _) => Identifier::UnaryMinus,
        Expression::Power(_, _, _) => Identifier::Power,
        Expression::Multiply(_, _, _) => Identifier::Multiply,
        Expression::Divide(_, _, _) => Identifier::Divide,
        Expression::Modulo(_, _, _) => Identifier::Modulo,
        Expression::Add(_, _, _) => Identifier::Add,
        Expression::Subtract(_, _, _) => Identifier::Subtract,
        Expression::ShiftLeft(_, _, _) => Identifier::ShiftLeft,
        Expression::ShiftRight(_, _, _) => Identifier::ShiftRight,
        Expression::BitwiseAnd(_, _, _) => Identifier::BitwiseAnd,
        Expression::BitwiseXor(_, _, _) => Identifier::BitwiseXor,
        Expression::BitwiseOr(_, _, _) => Identifier::BitwiseOr,
        Expression::Less(_, _, _) => Identifier::Less,
        Expression::More(_, _, _) => Identifier::More,
        Expression::LessEqual(_, _, _) => Identifier::LessEqual,
        Expression::MoreEqual(_, _, _) => Identifier::MoreEqual,
        Expression::Equal(_, _, _) => Identifier::Equal,
        Expression::NotEqual(_, _, _) => Identifier::NotEqual,
        Expression::And(_, _, _) => Identifier::And,
        Expression::Or(_, _, _) => Identifier::Or,
        Expression::Ternary(_, _, _, _) => Identifier::Ternary,
        Expression::Assign(_, _, _) => Identifier::Assign,
        Expression::AssignOr(_, _, _) => Identifier::AssignOr,
        Expression::AssignAnd(_, _, _) => Identifier::AssignAnd,
        Expression::AssignXor(_, _, _) => Identifier::AssignXor,
        Expression::AssignShiftLeft(_, _, _) => Identifier::AssignShiftLeft,
        Expression::AssignShiftRight(_, _, _) => Identifier::AssignShiftRight,
        Expression::AssignAdd(_, _, _) => Identifier::AssignAdd,
        Expression::AssignSubtract(_, _, _) => Identifier::AssignSubtract,
        Expression::AssignMultiply(_, _, _) => Identifier::AssignMultiply,
        Expression::AssignDivide(_, _, _) => Identifier::AssignDivide,
        Expression::AssignModulo(_, _, _) => Identifier::AssignModulo,
        Expression::BoolLiteral(_, _) => Identifier::BoolLiteral,
        Expression::NumberLiteral(_, _, _) => Identifier::NumberLiteral,
        Expression::RationalNumberLiteral(_, _, _, _) => Identifier::RationalNumberLiteral,
        Expression::HexNumberLiteral(_, _) => Identifier::HexNumberLiteral,
        Expression::StringLiteral(_) => Identifier::StringLiteral,
        Expression::Type(_, _) => Identifier::Type,
        Expression::HexLiteral(_) => Identifier::HexLiteral,
        Expression::AddressLiteral(_, _) => Identifier::AddressLiteral,
        Expression::Variable(_) => Identifier::Variable,
        Expression::List(_, _) => Identifier::List,
        Expression::ArrayLiteral(_, _) => Identifier::ArrayLiteral,
        Expression::Unit(_, _, _) => Identifier::Unit,
        Expression::This(_) => Identifier::This,
    }
}

/// Classifies a statement.
pub fn convert_statements_into_taintoooor_identifier(statement: &Statement) -> (r: Identifier)
    ensures
        r == statement_identifier(*statement),
{
    match statement {
        Statement::Args(_, _) => Identifier::Args,
        Statement::Return(_, _) => Identifier::Return,
        Statement::Revert(_, _, _) => Identifier::Revert,
        Statement::Emit(_, _) => Identifier::Emit,
        Statement::RevertNamedArgs(_, _, _) => Identifier::RevertNamedArgs,
        Statement::Expression(_, _) => Identifier::Expression,
        Statement::VariableDefinition(_, _, _) => Identifier::VariableDefinition,
        Statement::Block { loc: _, unchecked: _, statements: _ } => Identifier::Block,
        Statement::If(_, _, _, _) => Identifier::If,
        Statement::While(_, _, _) => Identifier::While,
        Statement::For(_, _, _, _, _) => Identifier::For,
        Statement::DoWhile(_, _, _) => Identifier::DoWhile,
        Statement::Try(_, _, _, _) => Identifier::Try,
        _ => Identifier::Unclassified,
    }
}

impl Node {
    /// The tag of this node, whichever category it wraps.
    pub fn as_identifier(&self) -> (r: Identifier)
        ensures
            r == node_identifier(*self),
    {
        match self {
            Node::Expression(expression) => convert_expressions_into_taintoooor_identifier(
                expression,
            ),
            Node::Statement(statement) => convert_statements_into_taintoooor_identifier(statement),
            Node::ContractPart(contract_part) => convert_contract_part_into_taintoooor_identifier(
                contract_part,
            ),
            Node::SourceUnit(_) => Identifier::SourceUnit,
            Node::SourceUnitPart(source_unit_part) => convert_source_unit_into_taintoooor_identifier(
                source_unit_part,
            ),
        }
    }

    /// The wrapped expression, if this node is one.
    pub fn expression(self) -> (r: Option<Expression>)
        ensures
            r == (match self {
                Node::Expression(e) => Some(e),
                _ => None::<Expression>,
            }),
    {
        match self {
            Node::Expression(expression) => Some(expression),
            _ => None,
        }
    }

    /// The wrapped statement, if this node is one.
    pub fn statement(self) -> (r: Option<Statement>)
        ensures
            r == (match self {
                Node::Statement(s) => Some(s),
                _ => None::<Statement>,
            }),
    {
        match self {
            Node::Statement(statement) => Some(statement),
            _ => None,
        }
    }

    /// The wrapped source unit, if this node is one.
    pub fn source_unit(self) -> (r: Option<crate::ast::SourceUnit>)
        ensures
            r == (match self {
                Node::SourceUnit(u) => Some(u),
                _ => None::<crate::ast::SourceUnit>,
            }),
    {
        match self {
            Node::SourceUnit(source_unit) => Some(source_unit),
            _ => None,
        }
    }

    /// The wrapped top-level declaration, if this node is one.
    pub fn source_unit_part(self) -> (r: Option<SourceUnitPart>)
        ensures
            r == (match self {
                Node::SourceUnitPart(p) => Some(p),
                _ => None::<SourceUnitPart>,
            }),
    {
        match self {
            Node::SourceUnitPart(source_unit_part) => Some(source_unit_part),
            _ => None,
        }
    }

    /// Whether this node wraps a top-level declaration.
    pub fn is_source_unit_part(&self) -> (r: bool)
        ensures
            r == (self matches Node::SourceUnitPart(_)),
    {
        if let Node::SourceUnitPart(_) = self {
            true
        } else {
            false
        }
    }

    /// The wrapped contract member, if this node is one.
    pub fn contract_part(self) -> (r: Option<ContractPart>)
        ensures
            r == (match self {
                Node::ContractPart(p) => Some(p),
                _ => None::<ContractPart>,
            }),
    {
        match self {
            Node::ContractPart(contract_part) => Some(contract_part),
            _ => None,
        }
    }

    /// Whether this node wraps a contract member.
    pub fn is_contract_part(&self) -> (r: bool)
        ensures
            r == (self matches Node::ContractPart(_)),
    {
        if let Node::ContractPart(_) = self {
            true
        } else {
            false
        }
    }
}

} // verus!
