//! The closed taxonomy of node kinds.
//!
//! Every concrete grammar production maps to exactly one [`Identifier`];
//! productions the traversal does not yet model structurally map to
//! [`Identifier::Unclassified`], so classification is total and never fails.

use vstd::prelude::*;

verus! {

/// One tag per grammar production, plus a sentinel for unmodeled forms.
#[derive(Debug, Clone, Copy, PartialEq, Eq, Hash, Structural)]
pub enum Identifier {
    // Statement identifiers
    Args,
    Return,
    Revert,
    RevertNamedArgs,
    Emit,
    Expression,
    Block,
    If,
    While,
    For,
    DoWhile,
    Try,
    // Expression identifiers
    Add,
    And,
    ArrayLiteral,
    ArraySlice,
    ArraySubscript,
    Assign,
    AssignAdd,
    AssignAnd,
    AssignDivide,
    AssignModulo,
    AssignMultiply,
    AssignOr,
    AssignShiftLeft,
    AssignShiftRight,
    AssignSubtract,
    AssignXor,
    BitwiseAnd,
    BitwiseOr,
    BitwiseXor,
    Ternary,
    Complement,
    Delete,
    Divide,
    Equal,
    FunctionCall,
    FunctionCallBlock,
    Less,
    LessEqual,
    List,
    MemberAccess,
    Modulo,
    More,
    MoreEqual,
    Multiply,
    NamedFunctionCall,
    New,
    Not,
    NotEqual,
    Or,
    Parenthesis,
    PostDecrement,
    PostIncrement,
    PreIncrement,
    PreDecrement,
    ShiftLeft,
    ShiftRight,
    Subtract,
    Type,
    Function,
    UnaryMinus,
    UnaryPlus,
    Unit,
    Power,
    BoolLiteral,
    NumberLiteral,
    RationalNumberLiteral,
    HexNumberLiteral,
    HexLiteral,
    StringLiteral,
    AddressLiteral,
    Variable,
    This,
    // Declaration identifiers
    SourceUnit,
    ContractDefinition,
    EnumDefinition,
    EventDefinition,
    ErrorDefinition,
    FunctionDefinition,
    ImportDirective,
    PragmaDirective,
    StraySemicolon,
    StructDefinition,
    TypeDefinition,
    Using,
    VariableDefinition,
    // The sentinel for productions without a structural model
    Unclassified,
}

} // verus!
