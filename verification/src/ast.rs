//! The abstract syntax tree that the query engine walks.
//!
//! Each grammar category is a closed sum type that owns its children, either
//! directly, through a `Box`, or through the cons list [`List`]. A whole
//! parsed file is a [`SourceUnit`]; the [`Node`] wrapper unifies the five
//! categories so that one traversal can visit them all.
//!
//! Every type implements `Clone` with the postcondition that the copy is
//! spec-equal to the original; the traversal relies on that when it retains a
//! matched node while still recursing into the node's children.

use vstd::prelude::*;

verus! {

/// A source span: byte offsets into the parsed file.
#[derive(Debug, Clone, Copy, PartialEq, Eq, Structural)]
pub struct Loc {
    pub start: usize,
    pub end: usize,
}

/// A name appearing in the source, with its span.
#[derive(Debug, PartialEq, Eq)]
pub struct Name {
    pub loc: Loc,
    pub name: String,
}

/// One chunk of a string or hex literal.
#[derive(Debug, PartialEq, Eq)]
pub struct LitChunk {
    pub loc: Loc,
    pub value: String,
}

/// An owned cons list. Child sequences of AST nodes are kept in this form so
/// that a rebuilt copy of a tree is spec-equal to the original, which `Vec`
/// does not offer.
#[derive(Debug, PartialEq, Eq)]
pub enum List<T> {
    Nil,
    Cons(Box<T>, Box<List<T>>),
}

/// The elements of a list, in order, as a mathematical sequence.
pub open spec fn list_seq<T>(l: List<T>) -> Seq<T>
    decreases l,
{
    match l {
        List::Nil => Seq::empty(),
        List::Cons(x, rest) => seq![*x] + list_seq(*rest),
    }
}

/// A denomination suffix on a Solidity expression (`1 ether`, `3 days`, ...).
#[derive(Debug, Clone, Copy, PartialEq, Eq, Structural)]
pub enum UnitName {
    Seconds,
    Minutes,
    Hours,
    Days,
    Weeks,
    Wei,
    Gwei,
    Ether,
}

/// A single declared parameter: its type and an optional name.
#[derive(Debug, PartialEq, Eq)]
pub struct Parameter {
    pub loc: Loc,
    pub ty: Expression,
    pub name: Option<Name>,
}

/// A slot of a parameter list; the parameter itself may be absent, as in
/// `function (uint,) ...` positions the grammar leaves empty.
#[derive(Debug, PartialEq, Eq)]
pub struct ParameterItem {
    pub loc: Loc,
    pub param: Option<Parameter>,
}

/// An attribute on a function type or definition.
#[derive(Debug, PartialEq, Eq)]
pub enum FunctionAttribute {
    Mutability(Loc),
    Visibility(Loc),
    Virtual(Loc),
    Immutable(Loc),
    Override(Loc),
    BaseOrModifier(Loc, Base),
    NameValue(Loc, Name, Expression),
}

/// A base contract or modifier invocation, possibly with arguments.
#[derive(Debug, PartialEq, Eq)]
pub struct Base {
    pub loc: Loc,
    pub name: Name,
    pub args: Option<List<Expression>>,
}

/// The `returns (...)` clause of a function type.
#[derive(Debug, PartialEq, Eq)]
pub struct ReturnsClause {
    pub params: List<ParameterItem>,
    pub attributes: List<FunctionAttribute>,
}

/// A Solidity type expression.
#[derive(Debug, PartialEq, Eq)]
pub enum Type {
    Address,
    AddressPayable,
    Payable,
    Bool,
    Text,
    Int(u16),
    Uint(u16),
    Bytes(u8),
    Rational,
    DynamicBytes,
    Mapping(Loc, Box<Expression>, Box<Expression>),
    Function {
        params: List<ParameterItem>,
        attributes: List<FunctionAttribute>,
        returns: Option<ReturnsClause>,
    },
}

/// An argument passed by name: `f({gas: g})`.
#[derive(Debug, PartialEq, Eq)]
pub struct NamedArgument {
    pub loc: Loc,
    pub name: Name,
    pub expr: Expression,
}

/// Every expression form of the grammar.
#[derive(Debug, PartialEq, Eq)]
pub enum Expression {
    PostIncrement(Loc, Box<Expression>),
    PostDecrement(Loc, Box<Expression>),
    New(Loc, Box<Expression>),
    ArraySubscript(Loc, Box<Expression>, Option<Box<Expression>>),
    ArraySlice(Loc, Box<Expression>, Option<Box<Expression>>, Option<Box<Expression>>),
    Parenthesis(Loc, Box<Expression>),
    MemberAccess(Loc, Box<Expression>, Name),
    FunctionCall(Loc, Box<Expression>, List<Expression>),
    FunctionCallBlock(Loc, Box<Expression>, Box<Statement>),
    NamedFunctionCall(Loc, Box<Expression>, List<NamedArgument>),
    Not(Loc, Box<Expression>),
    Complement(Loc, Box<Expression>),
    Delete(Loc, Box<Expression>),
    PreIncrement(Loc, Box<Expression>),
    PreDecrement(Loc, Box<Expression>),
    UnaryPlus(Loc, Box<Expression>),
    UnaryMinus(Loc, Box<Expression>),
    Power(Loc, Box<Expression>, Box<Expression>),
    Multiply(Loc, Box<Expression>, Box<Expression>),
    Divide(Loc, Box<Expression>, Box<Expression>),
    Modulo(Loc, Box<Expression>, Box<Expression>),
    Add(Loc, Box<Expression>, Box<Expression>),
    Subtract(Loc, Box<Expression>, Box<Expression>),
    ShiftLeft(Loc, Box<Expression>, Box<Expression>),
    ShiftRight(Loc, Box<Expression>, Box<Expression>),
    BitwiseAnd(Loc, Box<Expression>, Box<Expression>),
    BitwiseXor(Loc, Box<Expression>, Box<Expression>),
    BitwiseOr(Loc, Box<Expression>, Box<Expression>),
    Less(Loc, Box<Expression>, Box<Expression>),
    More(Loc, Box<Expression>, Box<Expression>),
    LessEqual(Loc, Box<Expression>, Box<Expression>),
    MoreEqual(Loc, Box<Expression>, Box<Expression>),
    Equal(Loc, Box<Expression>, Box<Expression>),
    NotEqual(Loc, Box<Expression>, Box<Expression>),
    And(Loc, Box<Expression>, Box<Expression>),
    Or(Loc, Box<Expression>, Box<Expression>),
    Ternary(Loc, Box<Expression>, Box<Expression>, Box<Expression>),
    Assign(Loc, Box<Expression>, Box<Expression>),
    AssignOr(Loc, Box<Expression>, Box<Expression>),
    AssignAnd(Loc, Box<Expression>, Box<Expression>),
    AssignXor(Loc, Box<Expression>, Box<Expression>),
    AssignShiftLeft(Loc, Box<Expression>, Box<Expression>),
    AssignShiftRight(Loc, Box<Expression>, Box<Expression>),
    AssignAdd(Loc, Box<Expression>, Box<Expression>),
    AssignSubtract(Loc, Box<Expression>, Box<Expression>),
    AssignMultiply(Loc, Box<Expression>, Box<Expression>),
    AssignDivide(Loc, Box<Expression>, Box<Expression>),
    AssignModulo(Loc, Box<Expression>, Box<Expression>),
    BoolLiteral(Loc, bool),
    NumberLiteral(Loc, String, String),
    RationalNumberLiteral(Loc, String, String, String),
    HexNumberLiteral(Loc, String),
    StringLiteral(List<LitChunk>),
    Type(Loc, Type),
    HexLiteral(List<LitChunk>),
    AddressLiteral(Loc, String),
    Variable(Name),
    List(Loc, List<ParameterItem>),
    ArrayLiteral(Loc, List<Expression>),
    Unit(Loc, Box<Expression>, UnitName),
    This(Loc),
}

/// A declared variable: its type and name.
#[derive(Debug, PartialEq, Eq)]
pub struct VariableDeclaration {
    pub loc: Loc,
    pub ty: Expression,
    pub name: Name,
}

/// One catch arm of a `try` statement.
#[derive(Debug, PartialEq, Eq)]
pub enum CatchClause {
    Simple(Loc, Option<Parameter>, Box<Statement>),
    Named(Loc, Name, Parameter, Box<Statement>),
}

/// The `returns (...) { ... }` clause of a `try` statement.
#[derive(Debug, PartialEq, Eq)]
pub struct TryReturns {
    pub params: List<ParameterItem>,
    pub body: Box<Statement>,
}

/// Every statement form of the grammar.
///
/// A `For` statement holds, in order: the initializer, the condition, the
/// loop body, and the update statement; a search therefore reaches the body
/// before the update.
#[derive(Debug, PartialEq, Eq)]
pub enum Statement {
    Block { loc: Loc, unchecked: bool, statements: List<Statement> },
    Assembly(Loc),
    Args(Loc, List<NamedArgument>),
    If(Loc, Expression, Box<Statement>, Option<Box<Statement>>),
    While(Loc, Expression, Box<Statement>),
    Expression(Loc, Expression),
    VariableDefinition(Loc, VariableDeclaration, Option<Expression>),
    For(
        Loc,
        Option<Box<Statement>>,
        Option<Box<Expression>>,
        Option<Box<Statement>>,
        Option<Box<Statement>>,
    ),
    DoWhile(Loc, Box<Statement>, Expression),
    Continue(Loc),
    Break(Loc),
    Return(Loc, Option<Expression>),
    Revert(Loc, Option<Name>, List<Expression>),
    RevertNamedArgs(Loc, Option<Name>, List<NamedArgument>),
    Emit(Loc, Expression),
    Try(Loc, Expression, Option<TryReturns>, List<CatchClause>),
}

/// An `enum` declaration; its members contribute no further recursion.
#[derive(Debug, PartialEq, Eq)]
pub struct EnumDefinition {
    pub loc: Loc,
    pub name: Name,
    pub values: List<Name>,
}

/// A `struct` declaration.
#[derive(Debug, PartialEq, Eq)]
pub struct StructDefinition {
    pub loc: Loc,
    pub name: Name,
    pub fields: List<VariableDeclaration>,
}

/// One field of an `error` declaration.
#[derive(Debug, PartialEq, Eq)]
pub struct ErrorParameter {
    pub loc: Loc,
    pub ty: Expression,
    pub name: Option<Name>,
}

/// An `error` declaration.
#[derive(Debug, PartialEq, Eq)]
pub struct ErrorDefinition {
    pub loc: Loc,
    pub name: Name,
    pub fields: List<ErrorParameter>,
}

/// One field of an `event` declaration.
#[derive(Debug, PartialEq, Eq)]
pub struct EventParameter {
    pub loc: Loc,
    pub ty: Expression,
    pub indexed: bool,
    pub name: Option<Name>,
}

/// An `event` declaration.
#[derive(Debug, PartialEq, Eq)]
pub struct EventDefinition {
    pub loc: Loc,
    pub name: Name,
    pub fields: List<EventParameter>,
    pub anonymous: bool,
}

/// A function, constructor, or modifier declaration.
#[derive(Debug, PartialEq, Eq)]
pub struct FunctionDefinition {
    pub loc: Loc,
    pub name: Option<Name>,
    pub params: List<ParameterItem>,
    pub attributes: List<FunctionAttribute>,
    pub returns: List<ParameterItem>,
    pub body: Option<Statement>,
}

/// A state or top-level variable declaration, with an optional initializer.
#[derive(Debug, PartialEq, Eq)]
pub struct VariableDefinition {
    pub loc: Loc,
    pub ty: Expression,
    pub name: Name,
    pub initializer: Option<Expression>,
}

/// A `type X is T` declaration.
#[derive(Debug, PartialEq, Eq)]
pub struct TypeDefinition {
    pub loc: Loc,
    pub name: Name,
    pub ty: Expression,
}

/// A `using L for T` directive; the bound type may be `*`.
#[derive(Debug, PartialEq, Eq)]
pub struct Using {
    pub loc: Loc,
    pub ty: Option<Expression>,
}

/// A `contract`, `interface`, or `library` declaration.
#[derive(Debug, PartialEq, Eq)]
pub struct ContractDefinition {
    pub loc: Loc,
    pub name: Name,
    pub base: List<Base>,
    pub parts: List<ContractPart>,
}

/// A member of a contract body.
#[derive(Debug, PartialEq, Eq)]
pub enum ContractPart {
    StructDefinition(Box<StructDefinition>),
    EventDefinition(Box<EventDefinition>),
    EnumDefinition(Box<EnumDefinition>),
    ErrorDefinition(Box<ErrorDefinition>),
    VariableDefinition(Box<VariableDefinition>),
    FunctionDefinition(Box<FunctionDefinition>),
    TypeDefinition(Box<TypeDefinition>),
    StraySemicolon(Loc),
    Using(Box<Using>),
}

/// A top-level declaration of a source file.
#[derive(Debug, PartialEq, Eq)]
pub enum SourceUnitPart {
    ContractDefinition(Box<ContractDefinition>),
    PragmaDirective(Loc, Name, LitChunk),
    ImportDirective(Loc),
    EnumDefinition(Box<EnumDefinition>),
    StructDefinition(Box<StructDefinition>),
    EventDefinition(Box<EventDefinition>),
    ErrorDefinition(Box<ErrorDefinition>),
    FunctionDefinition(Box<FunctionDefinition>),
    VariableDefinition(Box<VariableDefinition>),
    TypeDefinition(Box<TypeDefinition>),
    Using(Box<Using>),
    StraySemicolon(Loc),
}

/// A whole parsed file: its top-level declarations, in source order.
#[derive(Debug, PartialEq, Eq)]
pub struct SourceUnit(pub List<SourceUnitPart>);

/// The wrapper unifying the five grammar categories for traversal.
#[derive(Debug, PartialEq, Eq)]
pub enum Node {
    Statement(Statement),
    Expression(Expression),
    ContractPart(ContractPart),
    SourceUnit(SourceUnit),
    SourceUnitPart(SourceUnitPart),
}

impl Clone for Name {
    fn clone(&self) -> (res: Self)
        ensures
            res == *self,
    {
        Name { loc: self.loc, name: self.name.clone() }
    }
}

impl Clone for LitChunk {
    fn clone(&self) -> (res: Self)
        ensures
            res == *self,
    {
        LitChunk { loc: self.loc, value: self.value.clone() }
    }
}

impl Clone for Parameter {
    fn clone(&self) -> (res: Self)
        ensures
            res == *self,
        decreases self,
    {
        Parameter {
            loc: self.loc,
            ty: self.ty.clone(),
            name: (match &self.name {
                Some(n) => Some(n.clone()),
                None => None,
            }),
        }
    }
}

impl Clone for ParameterItem {
    fn clone(&self) -> (res: Self)
        ensures
            res == *self,
        decreases self,
    {
        ParameterItem {
            loc: self.loc,
            param: (match &self.param {
                Some(p) => Some(p.clone()),
                None => None,
            }),
        }
    }
}

impl Clone for List<ParameterItem> {
    fn clone(&self) -> (res: Self)
        ensures
            res == *self,
        decreases self,
    {
        match self {
            List::Nil => List::Nil,
            List::Cons(x, rest) => List::Cons(Box::new((&**x).clone()), Box::new((&**rest).clone())),
        }
    }
}

impl Clone for FunctionAttribute {
    fn clone(&self) -> (res: Self)
        ensures
            res == *self,
        decreases self,
    {
        match self {
            FunctionAttribute::Mutability(l) => FunctionAttribute::Mutability(*l),
            FunctionAttribute::Visibility(l) => FunctionAttribute::Visibility(*l),
            FunctionAttribute::Virtual(l) => FunctionAttribute::Virtual(*l),
            FunctionAttribute::Immutable(l) => FunctionAttribute::Immutable(*l),
            FunctionAttribute::Override(l) => FunctionAttribute::Override(*l),
            FunctionAttribute::BaseOrModifier(l, b) => FunctionAttribute::BaseOrModifier(
                *l,
                b.clone(),
            ),
            FunctionAttribute::NameValue(l, n, e) => FunctionAttribute::NameValue(
                *l,
                n.clone(),
                e.clone(),
            ),
        }
    }
}

impl Clone for List<FunctionAttribute> {
    fn clone(&self) -> (res: Self)
        ensures
            res == *self,
        decreases self,
    {
        match self {
            List::Nil => List::Nil,
            List::Cons(x, rest) => List::Cons(Box::new((&**x).clone()), Box::new((&**rest).clone())),
        }
    }
}

impl Clone for Base {
    fn clone(&self) -> (res: Self)
        ensures
            res == *self,
        decreases self,
    {
        Base {
            loc: self.loc,
            name: self.name.clone(),
            args: (match &self.args {
                Some(l) => Some(l.clone()),
                None => None,
            }),
        }
    }
}

impl Clone for List<Base> {
    fn clone(&self) -> (res: Self)
        ensures
            res == *self,
        decreases self,
    {
        match self {
            List::Nil => List::Nil,
            List::Cons(x, rest) => List::Cons(Box::new((&**x).clone()), Box::new((&**rest).clone())),
        }
    }
}

impl Clone for ReturnsClause {
    fn clone(&self) -> (res: Self)
        ensures
            res == *self,
        decreases self,
    {
        ReturnsClause { params: self.params.clone(), attributes: self.attributes.clone() }
    }
}

impl Clone for Type {
    fn clone(&self) -> (res: Self)
        ensures
            res == *self,
        decreases self,
    {
        match self {
            Type::Address => Type::Address,
            Type::AddressPayable => Type::AddressPayable,
            Type::Payable => Type::Payable,
            Type::Bool => Type::Bool,
            Type::Text => Type::Text,
            Type::Int(w) => Type::Int(*w),
            Type::Uint(w) => Type::Uint(*w),
            Type::Bytes(w) => Type::Bytes(*w),
            Type::Rational => Type::Rational,
            Type::DynamicBytes => Type::DynamicBytes,
            Type::Mapping(l, k, v) => Type::Mapping(
                *l,
                Box::new((&**k).clone()),
                Box::new((&**v).clone()),
            ),
            Type::Function { params, attributes, returns } => Type::Function {
                params: params.clone(),
                attributes: attributes.clone(),
                returns: (match returns {
                    Some(r) => Some(r.clone()),
                    None => None,
                }),
            },
        }
    }
}

impl Clone for NamedArgument {
    fn clone(&self) -> (res: Self)
        ensures
            res == *self,
        decreases self,
    {
        NamedArgument { loc: self.loc, name: self.name.clone(), expr: self.expr.clone() }
    }
}

impl Clone for List<NamedArgument> {
    fn clone(&self) -> (res: Self)
        ensures
            res == *self,
        decreases self,
    {
        match self {
            List::Nil => List::Nil,
            List::Cons(x, rest) => List::Cons(Box::new((&**x).clone()), Box::new((&**rest).clone())),
        }
    }
}

impl Clone for List<LitChunk> {
    fn clone(&self) -> (res: Self)
        ensures
            res == *self,
        decreases self,
    {
        match self {
            List::Nil => List::Nil,
            List::Cons(x, rest) => List::Cons(Box::new((&**x).clone()), Box::new((&**rest).clone())),
        }
    }
}

impl Clone for List<Name> {
    fn clone(&self) -> (res: Self)
        ensures
            res == *self,
        decreases self,
    {
        match self {
            List::Nil => List::Nil,
            List::Cons(x, rest) => List::Cons(Box::new((&**x).clone()), Box::new((&**rest).clone())),
        }
    }
}

impl Clone for Expression {
    fn clone(&self) -> (res: Self)
        ensures
            res == *self,
        decreases self,
    {
        match self {
            Expression::PostIncrement(l, a) => Expression::PostIncrement(
                *l,
                Box::new((&**a).clone()),
            ),
            Expression::PostDecrement(l, a) => Expression::PostDecrement(
                *l,
                Box::new((&**a).clone()),
            ),
            Expression::New(l, a) => Expression::New(*l, Box::new((&**a).clone())),
            Expression::ArraySubscript(l, a, i) => Expression::ArraySubscript(
                *l,
                Box::new((&**a).clone()),
                (match i {
                    Some(e) => Some(Box::new((&**e).clone())),
                    None => None,
                }),
            ),
            Expression::ArraySlice(l, a, lo, hi) => Expression::ArraySlice(
                *l,
                Box::new((&**a).clone()),
                (match lo {
                    Some(e) => Some(Box::new((&**e).clone())),
                    None => None,
                }),
                (match hi {
                    Some(e) => Some(Box::new((&**e).clone())),
                    None => None,
                }),
            ),
            Expression::Parenthesis(l, a) => Expression::Parenthesis(*l, Box::new((&**a).clone())),
            Expression::MemberAccess(l, a, n) => Expression::MemberAccess(
                *l,
                Box::new((&**a).clone()),
                n.clone(),
            ),
            Expression::FunctionCall(l, f, args) => Expression::FunctionCall(
                *l,
                Box::new((&**f).clone()),
                args.clone(),
            ),
            Expression::FunctionCallBlock(l, f, s) => Expression::FunctionCallBlock(
                *l,
                Box::new((&**f).clone()),
                Box::new((&**s).clone()),
            ),
            Expression::NamedFunctionCall(l, f, args) => Expression::NamedFunctionCall(
                *l,
                Box::new((&**f).clone()),
                args.clone(),
            ),
            Expression::Not(l, a) => Expression::Not(*l, Box::new((&**a).clone())),
            Expression::Complement(l, a) => Expression::Complement(*l, Box::new((&**a).clone())),
            Expression::Delete(l, a) => Expression::Delete(*l, Box::new((&**a).clone())),
            Expression::PreIncrement(l, a) => Expression::PreIncrement(
                *l,
                Box::new((&**a).clone()),
            ),
            Expression::PreDecrement(l, a) => Expression::PreDecrement(
                *l,
                Box::new((&**a).clone()),
            ),
            Expression::UnaryPlus(l, a) => Expression::UnaryPlus(*l, Box::new((&**a).clone())),
            Expression::UnaryMinus(l, a) => Expression::UnaryMinus(*l, Box::new((&**a).clone())),
            Expression::Power(l, a, b) => Expression::Power(
                *l,
                Box::new((&**a).clone()),
                Box::new((&**b).clone()),
            ),
            Expression::Multiply(l, a, b) => Expression::Multiply(
                *l,
                Box::new((&**a).clone()),
                Box::new((&**b).clone()),
            ),
            Expression::Divide(l, a, b) => Expression::Divide(
                *l,
                Box::new((&**a).clone()),
                Box::new((&**b).clone()),
            ),
            Expression::Modulo(l, a, b) => Expression::Modulo(
                *l,
                Box::new((&**a).clone()),
                Box::new((&**b).clone()),
            ),
            Expression::Add(l, a, b) => Expression::Add(
                *l,
                Box::new((&**a).clone()),
                Box::new((&**b).clone()),
            ),
            Expression::Subtract(l, a, b) => Expression::Subtract(
                *l,
                Box::new((&**a).clone()),
                Box::new((&**b).clone()),
            ),
            Expression::ShiftLeft(l, a, b) => Expression::ShiftLeft(
                *l,
                Box::new((&**a).clone()),
                Box::new((&**b).clone()),
            ),
            Expression::ShiftRight(l, a, b) => Expression::ShiftRight(
                *l,
                Box::new((&**a).clone()),
                Box::new((&**b).clone()),
            ),
            Expression::BitwiseAnd(l, a, b) => Expression::BitwiseAnd(
                *l,
                Box::new((&**a).clone()),
                Box::new((&**b).clone()),
            ),
            Expression::BitwiseXor(l, a, b) => Expression::BitwiseXor(
                *l,
                Box::new((&**a).clone()),
                Box::new((&**b).clone()),
            ),
            Expression::BitwiseOr(l, a, b) => Expression::BitwiseOr(
                *l,
                Box::new((&**a).clone()),
                Box::new((&**b).clone()),
            ),
            Expression::Less(l, a, b) => Expression::Less(
                *l,
                Box::new((&**a).clone()),
                Box::new((&**b).clone()),
            ),
            Expression::More(l, a, b) => Expression::More(
                *l,
                Box::new((&**a).clone()),
                Box::new((&**b).clone()),
            ),
            Expression::LessEqual(l, a, b) => Expression::LessEqual(
                *l,
                Box::new((&**a).clone()),
                Box::new((&**b).clone()),
            ),
            Expression::MoreEqual(l, a, b) => Expression::MoreEqual(
                *l,
                Box::new((&**a).clone()),
                Box::new((&**b).clone()),
            ),
            Expression::Equal(l, a, b) => Expression::Equal(
                *l,
                Box::new((&**a).clone()),
                Box::new((&**b).clone()),
            ),
            Expression::NotEqual(l, a, b) => Expression::NotEqual(
                *l,
                Box::new((&**a).clone()),
                Box::new((&**b).clone()),
            ),
            Expression::And(l, a, b) => Expression::And(
                *l,
                Box::new((&**a).clone()),
                Box::new((&**b).clone()),
            ),
            Expression::Or(l, a, b) => Expression::Or(
                *l,
                Box::new((&**a).clone()),
                Box::new((&**b).clone()),
            ),
            Expression::Ternary(l, a, b, c) => Expression::Ternary(
                *l,
                Box::new((&**a).clone()),
                Box::new((&**b).clone()),
                Box::new((&**c).clone()),
            ),
            Expression::Assign(l, a, b) => Expression::Assign(
                *l,
                Box::new((&**a).clone()),
                Box::new((&**b).clone()),
            ),
            Expression::AssignOr(l, a, b) => Expression::AssignOr(
                *l,
                Box::new((&**a).clone()),
                Box::new((&**b).clone()),
            ),
            Expression::AssignAnd(l, a, b) => Expression::AssignAnd(
                *l,
                Box::new((&**a).clone()),
                Box::new((&**b).clone()),
            ),
            Expression::AssignXor(l, a, b) => Expression::AssignXor(
                *l,
                Box::new((&**a).clone()),
                Box::new((&**b).clone()),
            ),
            Expression::AssignShiftLeft(l, a, b) => Expression::AssignShiftLeft(
                *l,
                Box::new((&**a).clone()),
                Box::new((&**b).clone()),
            ),
            Expression::AssignShiftRight(l, a, b) => Expression::AssignShiftRight(
                *l,
                Box::new((&**a).clone()),
                Box::new((&**b).clone()),
            ),
            Expression::AssignAdd(l, a, b) => Expression::AssignAdd(
                *l,
                Box::new((&**a).clone()),
                Box::new((&**b).clone()),
            ),
            Expression::AssignSubtract(l, a, b) => Expression::AssignSubtract(
                *l,
                Box::new((&**a).clone()),
                Box::new((&**b).clone()),
            ),
            Expression::AssignMultiply(l, a, b) => Expression::AssignMultiply(
                *l,
                Box::new((&**a).clone()),
                Box::new((&**b).clone()),
            ),
            Expression::AssignDivide(l, a, b) => Expression::AssignDivide(
                *l,
                Box::new((&**a).clone()),
                Box::new((&**b).clone()),
            ),
            Expression::AssignModulo(l, a, b) => Expression::AssignModulo(
                *l,
                Box::new((&**a).clone()),
                Box::new((&**b).clone()),
            ),
            Expression::BoolLiteral(l, b) => Expression::BoolLiteral(*l, *b),
            Expression::NumberLiteral(l, v, e) => Expression::NumberLiteral(
                *l,
                v.clone(),
                e.clone(),
            ),
            Expression::RationalNumberLiteral(l, a, b, c) => Expression::RationalNumberLiteral(
                *l,
                a.clone(),
                b.clone(),
                c.clone(),
            ),
            Expression::HexNumberLiteral(l, v) => Expression::HexNumberLiteral(*l, v.clone()),
            Expression::StringLiteral(parts) => Expression::StringLiteral(parts.clone()),
            Expression::Type(l, t) => Expression::Type(*l, t.clone()),
            Expression::HexLiteral(parts) => Expression::HexLiteral(parts.clone()),
            Expression::AddressLiteral(l, v) => Expression::AddressLiteral(*l, v.clone()),
            Expression::Variable(n) => Expression::Variable(n.clone()),
            Expression::List(l, params) => Expression::List(*l, params.clone()),
            Expression::ArrayLiteral(l, elems) => Expression::ArrayLiteral(*l, elems.clone()),
            Expression::Unit(l, a, u) => Expression::Unit(*l, Box::new((&**a).clone()), *u),
            Expression::This(l) => Expression::This(*l),
        }
    }
}

impl Clone for List<Expression> {
    fn clone(&self) -> (res: Self)
        ensures
            res == *self,
        decreases self,
    {
        match self {
            List::Nil => List::Nil,
            List::Cons(x, rest) => List::Cons(Box::new((&**x).clone()), Box::new((&**rest).clone())),
        }
    }
}

impl Clone for VariableDeclaration {
    fn clone(&self) -> (res: Self)
        ensures
            res == *self,
        decreases self,
    {
        VariableDeclaration { loc: self.loc, ty: self.ty.clone(), name: self.name.clone() }
    }
}

impl Clone for CatchClause {
    fn clone(&self) -> (res: Self)
        ensures
            res == *self,
        decreases self,
    {
        match self {
            CatchClause::Simple(l, p, s) => CatchClause::Simple(
                *l,
                (match p {
                    Some(p) => Some(p.clone()),
                    None => None,
                }),
                Box::new((&**s).clone()),
            ),
            CatchClause::Named(l, n, p, s) => CatchClause::Named(
                *l,
                n.clone(),
                p.clone(),
                Box::new((&**s).clone()),
            ),
        }
    }
}

impl Clone for List<CatchClause> {
    fn clone(&self) -> (res: Self)
        ensures
            res == *self,
        decreases self,
    {
        match self {
            List::Nil => List::Nil,
            List::Cons(x, rest) => List::Cons(Box::new((&**x).clone()), Box::new((&**rest).clone())),
        }
    }
}

impl Clone for TryReturns {
    fn clone(&self) -> (res: Self)
        ensures
            res == *self,
        decreases self,
    {
        TryReturns { params: self.params.clone(), body: Box::new((&*self.body).clone()) }
    }
}

impl Clone for Statement {
    fn clone(&self) -> (res: Self)
        ensures
            res == *self,
        decreases self,
    {
        match self {
            Statement::Block { loc, unchecked, statements } => Statement::Block {
                loc: *loc,
                unchecked: *unchecked,
                statements: statements.clone(),
            },
            Statement::Assembly(l) => Statement::Assembly(*l),
            Statement::Args(l, args) => Statement::Args(*l, args.clone()),
            Statement::If(l, c, t, e) => Statement::If(
                *l,
                c.clone(),
                Box::new((&**t).clone()),
                (match e {
                    Some(s) => Some(Box::new((&**s).clone())),
                    None => None,
                }),
            ),
            Statement::While(l, c, b) => Statement::While(*l, c.clone(), Box::new((&**b).clone())),
            Statement::Expression(l, e) => Statement::Expression(*l, e.clone()),
            Statement::VariableDefinition(l, d, init) => Statement::VariableDefinition(
                *l,
                d.clone(),
                (match init {
                    Some(e) => Some(e.clone()),
                    None => None,
                }),
            ),
            Statement::For(l, init, cond, update, body) => Statement::For(
                *l,
                (match init {
                    Some(s) => Some(Box::new((&**s).clone())),
                    None => None,
                }),
                (match cond {
                    Some(e) => Some(Box::new((&**e).clone())),
                    None => None,
                }),
                (match update {
                    Some(s) => Some(Box::new((&**s).clone())),
                    None => None,
                }),
                (match body {
                    Some(s) => Some(Box::new((&**s).clone())),
                    None => None,
                }),
            ),
            Statement::DoWhile(l, b, c) => Statement::DoWhile(
                *l,
                Box::new((&**b).clone()),
                c.clone(),
            ),
            Statement::Continue(l) => Statement::Continue(*l),
            Statement::Break(l) => Statement::Break(*l),
            Statement::Return(l, e) => Statement::Return(
                *l,
                (match e {
                    Some(e) => Some(e.clone()),
                    None => None,
                }),
            ),
            Statement::Revert(l, n, args) => Statement::Revert(
                *l,
                (match n {
                    Some(n) => Some(n.clone()),
                    None => None,
                }),
                args.clone(),
            ),
            Statement::RevertNamedArgs(l, n, args) => Statement::RevertNamedArgs(
                *l,
                (match n {
                    Some(n) => Some(n.clone()),
                    None => None,
                }),
                args.clone(),
            ),
            Statement::Emit(l, e) => Statement::Emit(*l, e.clone()),
            Statement::Try(l, e, r, catches) => Statement::Try(
                *l,
                e.clone(),
                (match r {
                    Some(r) => Some(r.clone()),
                    None => None,
                }),
                catches.clone(),
            ),
        }
    }
}

impl Clone for List<Statement> {
    fn clone(&self) -> (res: Self)
        ensures
            res == *self,
        decreases self,
    {
        match self {
            List::Nil => List::Nil,
            List::Cons(x, rest) => List::Cons(Box::new((&**x).clone()), Box::new((&**rest).clone())),
        }
    }
}

impl Clone for EnumDefinition {
    fn clone(&self) -> (res: Self)
        ensures
            res == *self,
        decreases self,
    {
        EnumDefinition { loc: self.loc, name: self.name.clone(), values: self.values.clone() }
    }
}

impl Clone for StructDefinition {
    fn clone(&self) -> (res: Self)
        ensures
            res == *self,
        decreases self,
    {
        StructDefinition { loc: self.loc, name: self.name.clone(), fields: self.fields.clone() }
    }
}

impl Clone for List<VariableDeclaration> {
    fn clone(&self) -> (res: Self)
        ensures
            res == *self,
        decreases self,
    {
        match self {
            List::Nil => List::Nil,
            List::Cons(x, rest) => List::Cons(Box::new((&**x).clone()), Box::new((&**rest).clone())),
        }
    }
}

impl Clone for ErrorParameter {
    fn clone(&self) -> (res: Self)
        ensures
            res == *self,
        decreases self,
    {
        ErrorParameter {
            loc: self.loc,
            ty: self.ty.clone(),
            name: (match &self.name {
                Some(n) => Some(n.clone()),
                None => None,
            }),
        }
    }
}

impl Clone for List<ErrorParameter> {
    fn clone(&self) -> (res: Self)
        ensures
            res == *self,
        decreases self,
    {
        match self {
            List::Nil => List::Nil,
            List::Cons(x, rest) => List::Cons(Box::new((&**x).clone()), Box::new((&**rest).clone())),
        }
    }
}

impl Clone for ErrorDefinition {
    fn clone(&self) -> (res: Self)
        ensures
            res == *self,
        decreases self,
    {
        ErrorDefinition { loc: self.loc, name: self.name.clone(), fields: self.fields.clone() }
    }
}

impl Clone for EventParameter {
    fn clone(&self) -> (res: Self)
        ensures
            res == *self,
        decreases self,
    {
        EventParameter {
            loc: self.loc,
            ty: self.ty.clone(),
            indexed: self.indexed,
            name: (match &self.name {
                Some(n) => Some(n.clone()),
                None => None,
            }),
        }
    }
}

impl Clone for List<EventParameter> {
    fn clone(&self) -> (res: Self)
        ensures
            res == *self,
        decreases self,
    {
        match self {
            List::Nil => List::Nil,
            List::Cons(x, rest) => List::Cons(Box::new((&**x).clone()), Box::new((&**rest).clone())),
        }
    }
}

impl Clone for EventDefinition {
    fn clone(&self) -> (res: Self)
        ensures
            res == *self,
        decreases self,
    {
        EventDefinition {
            loc: self.loc,
            name: self.name.clone(),
            fields: self.fields.clone(),
            anonymous: self.anonymous,
        }
    }
}

impl Clone for FunctionDefinition {
    fn clone(&self) -> (res: Self)
        ensures
            res == *self,
        decreases self,
    {
        FunctionDefinition {
            loc: self.loc,
            name: (match &self.name {
                Some(n) => Some(n.clone()),
                None => None,
            }),
            params: self.params.clone(),
            attributes: self.attributes.clone(),
            returns: self.returns.clone(),
            body: (match &self.body {
                Some(s) => Some(s.clone()),
                None => None,
            }),
        }
    }
}

impl Clone for VariableDefinition {
    fn clone(&self) -> (res: Self)
        ensures
            res == *self,
        decreases self,
    {
        VariableDefinition {
            loc: self.loc,
            ty: self.ty.clone(),
            name: self.name.clone(),
            initializer: (match &self.initializer {
                Some(e) => Some(e.clone()),
                None => None,
            }),
        }
    }
}

impl Clone for TypeDefinition {
    fn clone(&self) -> (res: Self)
        ensures
            res == *self,
        decreases self,
    {
        TypeDefinition { loc: self.loc, name: self.name.clone(), ty: self.ty.clone() }
    }
}

impl Clone for Using {
    fn clone(&self) -> (res: Self)
        ensures
            res == *self,
        decreases self,
    {
        Using {
            loc: self.loc,
            ty: (match &self.ty {
                Some(e) => Some(e.clone()),
                None => None,
            }),
        }
    }
}

impl Clone for ContractDefinition {
    fn clone(&self) -> (res: Self)
        ensures
            res == *self,
        decreases self,
    {
        ContractDefinition {
            loc: self.loc,
            name: self.name.clone(),
            base: self.base.clone(),
            parts: self.parts.clone(),
        }
    }
}

impl Clone for ContractPart {
    fn clone(&self) -> (res: Self)
        ensures
            res == *self,
        decreases self,
    {
        match self {
            ContractPart::StructDefinition(d) => ContractPart::StructDefinition(
                Box::new((&**d).clone()),
            ),
            ContractPart::EventDefinition(d) => ContractPart::EventDefinition(
                Box::new((&**d).clone()),
            ),
            ContractPart::EnumDefinition(d) => ContractPart::EnumDefinition(
                Box::new((&**d).clone()),
            ),
            ContractPart::ErrorDefinition(d) => ContractPart::ErrorDefinition(
                Box::new((&**d).clone()),
            ),
            ContractPart::VariableDefinition(d) => ContractPart::VariableDefinition(
                Box::new((&**d).clone()),
            ),
            ContractPart::FunctionDefinition(d) => ContractPart::FunctionDefinition(
                Box::new((&**d).clone()),
            ),
            ContractPart::TypeDefinition(d) => ContractPart::TypeDefinition(
                Box::new((&**d).clone()),
            ),
            ContractPart::StraySemicolon(l) => ContractPart::StraySemicolon(*l),
            ContractPart::Using(d) => ContractPart::Using(Box::new((&**d).clone())),
        }
    }
}

impl Clone for List<ContractPart> {
    fn clone(&self) -> (res: Self)
        ensures
            res == *self,
        decreases self,
    {
        match self {
            List::Nil => List::Nil,
            List::Cons(x, rest) => List::Cons(Box::new((&**x).clone()), Box::new((&**rest).clone())),
        }
    }
}

impl Clone for SourceUnitPart {
    fn clone(&self) -> (res: Self)
        ensures
            res == *self,
        decreases self,
    {
        match self {
            SourceUnitPart::ContractDefinition(d) => SourceUnitPart::ContractDefinition(
                Box::new((&**d).clone()),
            ),
            SourceUnitPart::PragmaDirective(l, n, v) => SourceUnitPart::PragmaDirective(
                *l,
                n.clone(),
                v.clone(),
            ),
            SourceUnitPart::ImportDirective(l) => SourceUnitPart::ImportDirective(*l),
            SourceUnitPart::EnumDefinition(d) => SourceUnitPart::EnumDefinition(
                Box::new((&**d).clone()),
            ),
            SourceUnitPart::StructDefinition(d) => SourceUnitPart::StructDefinition(
                Box::new((&**d).clone()),
            ),
            SourceUnitPart::EventDefinition(d) => SourceUnitPart::EventDefinition(
                Box::new((&**d).clone()),
            ),
            SourceUnitPart::ErrorDefinition(d) => SourceUnitPart::ErrorDefinition(
                Box::new((&**d).clone()),
            ),
            SourceUnitPart::FunctionDefinition(d) => SourceUnitPart::FunctionDefinition(
                Box::new((&**d).clone()),
            ),
            SourceUnitPart::VariableDefinition(d) => SourceUnitPart::VariableDefinition(
                Box::new((&**d).clone()),
            ),
            SourceUnitPart::TypeDefinition(d) => SourceUnitPart::TypeDefinition(
                Box::new((&**d).clone()),
            ),
            SourceUnitPart::Using(d) => SourceUnitPart::Using(Box::new((&**d).clone())),
            SourceUnitPart::StraySemicolon(l) => SourceUnitPart::StraySemicolon(*l),
        }
    }
}

impl Clone for List<SourceUnitPart> {
    fn clone(&self) -> (res: Self)
        ensures
            res == *self,
        decreases self,
    {
        match self {
            List::Nil => List::Nil,
            List::Cons(x, rest) => List::Cons(Box::new((&**x).clone()), Box::new((&**rest).clone())),
        }
    }
}

impl Clone for SourceUnit {
    fn clone(&self) -> (res: Self)
        ensures
            res == *self,
    {
        SourceUnit(self.0.clone())
    }
}

impl Clone for Node {
    fn clone(&self) -> (res: Self)
        ensures
            res == *self,
    {
        match self {
            Node::Statement(s) => Node::Statement(s.clone()),
            Node::Expression(e) => Node::Expression(e.clone()),
            Node::ContractPart(p) => Node::ContractPart(p.clone()),
            Node::SourceUnit(u) => Node::SourceUnit(u.clone()),
            Node::SourceUnitPart(p) => Node::SourceUnitPart(p.clone()),
        }
    }
}

impl From<Statement> for Node {
    fn from(value: Statement) -> Self {
        Node::Statement(value)
    }
}

impl vstd::std_specs::convert::FromSpecImpl<Statement> for Node {
    open spec fn obeys_from_spec() -> bool {
        true
    }

    open spec fn from_spec(value: Statement) -> Self {
        Node::Statement(value)
    }
}

impl From<Box<Statement>> for Node {
    fn from(value: Box<Statement>) -> Self {
        Node::Statement(*value)
    }
}

impl vstd::std_specs::convert::FromSpecImpl<Box<Statement>> for Node {
    open spec fn obeys_from_spec() -> bool {
        true
    }

    open spec fn from_spec(value: Box<Statement>) -> Self {
        Node::Statement(*value)
    }
}

impl From<Expression> for Node {
    fn from(value: Expression) -> Self {
        Node::Expression(value)
    }
}

impl vstd::std_specs::convert::FromSpecImpl<Expression> for Node {
    open spec fn obeys_from_spec() -> bool {
        true
    }

    open spec fn from_spec(value: Expression) -> Self {
        Node::Expression(value)
    }
}

impl From<Box<Expression>> for Node {
    fn from(value: Box<Expression>) -> Self {
        Node::Expression(*value)
    }
}

impl vstd::std_specs::convert::FromSpecImpl<Box<Expression>> for Node {
    open spec fn obeys_from_spec() -> bool {
        true
    }

    open spec fn from_spec(value: Box<Expression>) -> Self {
        Node::Expression(*value)
    }
}

impl From<ContractPart> for Node {
    fn from(value: ContractPart) -> Self {
        Node::ContractPart(value)
    }
}

impl vstd::std_specs::convert::FromSpecImpl<ContractPart> for Node {
    open spec fn obeys_from_spec() -> bool {
        true
    }

    open spec fn from_spec(value: ContractPart) -> Self {
        Node::ContractPart(value)
    }
}

impl From<SourceUnitPart> for Node {
    fn from(value: SourceUnitPart) -> Self {
        Node::SourceUnitPart(value)
    }
}

impl vstd::std_specs::convert::FromSpecImpl<SourceUnitPart> for Node {
    open spec fn obeys_from_spec() -> bool {
        true
    }

    open spec fn from_spec(value: SourceUnitPart) -> Self {
        Node::SourceUnitPart(value)
    }
}

impl From<SourceUnit> for Node {
    fn from(value: SourceUnit) -> Self {
        Node::SourceUnit(value)
    }
}

impl vstd::std_specs::convert::FromSpecImpl<SourceUnit> for Node {
    open spec fn obeys_from_spec() -> bool {
        true
    }

    open spec fn from_spec(value: SourceUnit) -> Self {
        Node::SourceUnit(value)
    }
}

} // verus!
