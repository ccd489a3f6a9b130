//! The operators of the language: their text and how tightly they bind.

use vstd::prelude::*;

verus! {

/// How tightly a construct binds, from the comma operator, the loosest, to
/// a primary expression.
#[derive(Debug, Clone, Copy, PartialEq, Eq, Structural)]
pub enum Precedence {
    Comma,
    Assign,
    Arrow,
    Yield,
    Conditional,
    Coalesce,
    LogicalOr,
    LogicalAnd,
    BitwiseOr,
    BitwiseXor,
    BitwiseAnd,
    Equality,
    Relational,
    Shift,
    Add,
    Multiply,
    Exponential,
    Prefix,
    Postfix,
    NewWithoutArgs,
    Call,
    Member,
    Grouping,
}

impl Precedence {
    /// The position in the order of binding strength.
    pub open spec fn rank_spec(self) -> u8 {
        match self {
            Precedence::Comma => 0,
            Precedence::Assign => 1,
            Precedence::Arrow => 2,
            Precedence::Yield => 3,
            Precedence::Conditional => 4,
            Precedence::Coalesce => 5,
            Precedence::LogicalOr => 6,
            Precedence::LogicalAnd => 7,
            Precedence::BitwiseOr => 8,
            Precedence::BitwiseXor => 9,
            Precedence::BitwiseAnd => 10,
            Precedence::Equality => 11,
            Precedence::Relational => 12,
            Precedence::Shift => 13,
            Precedence::Add => 14,
            Precedence::Multiply => 15,
            Precedence::Exponential => 16,
            Precedence::Prefix => 17,
            Precedence::Postfix => 18,
            Precedence::NewWithoutArgs => 19,
            Precedence::Call => 20,
            Precedence::Member => 21,
            Precedence::Grouping => 22,
        }
    }

    /// The position in the order of binding strength.
    pub fn rank(self) -> (rank: u8)
        ensures
            rank == self.rank_spec(),
    {
        match self {
            Precedence::Comma => 0,
            Precedence::Assign => 1,
            Precedence::Arrow => 2,
            Precedence::Yield => 3,
            Precedence::Conditional => 4,
            Precedence::Coalesce => 5,
            Precedence::LogicalOr => 6,
            Precedence::LogicalAnd => 7,
            Precedence::BitwiseOr => 8,
            Precedence::BitwiseXor => 9,
            Precedence::BitwiseAnd => 10,
            Precedence::Equality => 11,
            Precedence::Relational => 12,
            Precedence::Shift => 13,
            Precedence::Add => 14,
            Precedence::Multiply => 15,
            Precedence::Exponential => 16,
            Precedence::Prefix => 17,
            Precedence::Postfix => 18,
            Precedence::NewWithoutArgs => 19,
            Precedence::Call => 20,
            Precedence::Member => 21,
            Precedence::Grouping => 22,
        }
    }

    /// Whether a run of operators of this strength groups from the right.
    pub open spec fn is_right_associative_spec(self) -> bool {
        self == Precedence::Exponential
    }

    /// Whether a run of operators of this strength groups from the right.
    pub fn is_right_associative(self) -> (right: bool)
        ensures
            right == self.is_right_associative_spec(),
    {
        match self {
            Precedence::Exponential => true,
            _ => false,
        }
    }
}

#[derive(Debug, Clone, Copy, PartialEq, Eq, Structural)]
pub enum AssignmentOperator {
    Assign,
    Addition,
    Subtraction,
    Multiplication,
    Division,
    Remainder,
    ShiftLeft,
    ShiftRight,
    ShiftRightZeroFill,
    BitwiseOR,
    BitwiseXOR,
    BitwiseAnd,
    LogicalAnd,
    LogicalOr,
    LogicalNullish,
    Exponential,
}

impl AssignmentOperator {
    /// The operator as it is written.
    pub open spec fn text(self) -> Seq<char> {
        match self {
            AssignmentOperator::Assign => "="@,
            AssignmentOperator::Addition => "+="@,
            AssignmentOperator::Subtraction => "-="@,
            AssignmentOperator::Multiplication => "*="@,
            AssignmentOperator::Division => "/="@,
            AssignmentOperator::Remainder => "%="@,
            AssignmentOperator::ShiftLeft => "<<="@,
            AssignmentOperator::ShiftRight => ">>="@,
            AssignmentOperator::ShiftRightZeroFill => ">>>="@,
            AssignmentOperator::BitwiseOR => "|="@,
            AssignmentOperator::BitwiseXOR => "^="@,
            AssignmentOperator::BitwiseAnd => "&="@,
            AssignmentOperator::LogicalAnd => "&&="@,
            AssignmentOperator::LogicalOr => "||="@,
            AssignmentOperator::LogicalNullish => "??="@,
            AssignmentOperator::Exponential => "**="@,
        }
    }

    /// The operator as it is written.
    pub fn as_str(&self) -> (text: &'static str)
        ensures
            text@ == self.text(),
    {
        match self {
            AssignmentOperator::Assign => "=",
            AssignmentOperator::Addition => "+=",
            AssignmentOperator::Subtraction => "-=",
            AssignmentOperator::Multiplication => "*=",
            AssignmentOperator::Division => "/=",
            AssignmentOperator::Remainder => "%=",
            AssignmentOperator::ShiftLeft => "<<=",
            AssignmentOperator::ShiftRight => ">>=",
            AssignmentOperator::ShiftRightZeroFill => ">>>=",
            AssignmentOperator::BitwiseOR => "|=",
            AssignmentOperator::BitwiseXOR => "^=",
            AssignmentOperator::BitwiseAnd => "&=",
            AssignmentOperator::LogicalAnd => "&&=",
            AssignmentOperator::LogicalOr => "||=",
            AssignmentOperator::LogicalNullish => "??=",
            AssignmentOperator::Exponential => "**=",
        }
    }
}

#[derive(Debug, Clone, Copy, PartialEq, Eq, Structural)]
pub enum BinaryOperator {
    Equality,
    Inequality,
    StrictEquality,
    StrictInequality,
    LessThan,
    LessEqualThan,
    GreaterThan,
    GreaterEqualThan,
    ShiftLeft,
    ShiftRight,
    ShiftRightZeroFill,
    Addition,
    Subtraction,
    Multiplication,
    Division,
    Remainder,
    BitwiseOR,
    BitwiseXOR,
    BitwiseAnd,
    In,
    Instanceof,
    Exponential,
}

impl BinaryOperator {
    /// The operator as it is written.
    pub open spec fn text(self) -> Seq<char> {
        match self {
            BinaryOperator::Equality => "=="@,
            BinaryOperator::Inequality => "!="@,
            BinaryOperator::StrictEquality => "==="@,
            BinaryOperator::StrictInequality => "!=="@,
            BinaryOperator::LessThan => "<"@,
            BinaryOperator::LessEqualThan => "<="@,
            BinaryOperator::GreaterThan => ">"@,
            BinaryOperator::GreaterEqualThan => ">="@,
            BinaryOperator::ShiftLeft => "<<"@,
            BinaryOperator::ShiftRight => ">>"@,
            BinaryOperator::ShiftRightZeroFill => ">>>"@,
            BinaryOperator::Addition => "+"@,
            BinaryOperator::Subtraction => "-"@,
            BinaryOperator::Multiplication => "*"@,
            BinaryOperator::Division => "/"@,
            BinaryOperator::Remainder => "%"@,
            BinaryOperator::BitwiseOR => "|"@,
            BinaryOperator::BitwiseXOR => "^"@,
            BinaryOperator::BitwiseAnd => "&"@,
            BinaryOperator::In => "in"@,
            BinaryOperator::Instanceof => "instanceof"@,
            BinaryOperator::Exponential => "**"@,
        }
    }

    /// The operator as it is written.
    pub fn as_str(&self) -> (text: &'static str)
        ensures
            text@ == self.text(),
    {
        match self {
            BinaryOperator::Equality => "==",
            BinaryOperator::Inequality => "!=",
            BinaryOperator::StrictEquality => "===",
            BinaryOperator::StrictInequality => "!==",
            BinaryOperator::LessThan => "<",
            BinaryOperator::LessEqualThan => "<=",
            BinaryOperator::GreaterThan => ">",
            BinaryOperator::GreaterEqualThan => ">=",
            BinaryOperator::ShiftLeft => "<<",
            BinaryOperator::ShiftRight => ">>",
            BinaryOperator::ShiftRightZeroFill => ">>>",
            BinaryOperator::Addition => "+",
            BinaryOperator::Subtraction => "-",
            BinaryOperator::Multiplication => "*",
            BinaryOperator::Division => "/",
            BinaryOperator::Remainder => "%",
            BinaryOperator::BitwiseOR => "|",
            BinaryOperator::BitwiseXOR => "^",
            BinaryOperator::BitwiseAnd => "&",
            BinaryOperator::In => "in",
            BinaryOperator::Instanceof => "instanceof",
            BinaryOperator::Exponential => "**",
        }
    }

    /// How tightly the operator binds.
    pub open spec fn precedence_spec(self) -> Precedence {
        match self {
            BinaryOperator::Equality => Precedence::Equality,
            BinaryOperator::Inequality => Precedence::Equality,
            BinaryOperator::StrictEquality => Precedence::Equality,
            BinaryOperator::StrictInequality => Precedence::Equality,
            BinaryOperator::LessThan => Precedence::Relational,
            BinaryOperator::LessEqualThan => Precedence::Relational,
            BinaryOperator::GreaterThan => Precedence::Relational,
            BinaryOperator::GreaterEqualThan => Precedence::Relational,
            BinaryOperator::ShiftLeft => Precedence::Shift,
            BinaryOperator::ShiftRight => Precedence::Shift,
            BinaryOperator::ShiftRightZeroFill => Precedence::Shift,
            BinaryOperator::Addition => Precedence::Add,
            BinaryOperator::Subtraction => Precedence::Add,
            BinaryOperator::Multiplication => Precedence::Multiply,
            BinaryOperator::Division => Precedence::Multiply,
            BinaryOperator::Remainder => Precedence::Multiply,
            BinaryOperator::BitwiseOR => Precedence::BitwiseOr,
            BinaryOperator::BitwiseXOR => Precedence::BitwiseXor,
            BinaryOperator::BitwiseAnd => Precedence::BitwiseAnd,
            BinaryOperator::In => Precedence::Relational,
            BinaryOperator::Instanceof => Precedence::Relational,
            BinaryOperator::Exponential => Precedence::Exponential,
        }
    }

    /// How tightly the operator binds.
    pub fn precedence(&self) -> (precedence: Precedence)
        ensures
            precedence == self.precedence_spec(),
    {
        match self {
            BinaryOperator::Equality => Precedence::Equality,
            BinaryOperator::Inequality => Precedence::Equality,
            BinaryOperator::StrictEquality => Precedence::Equality,
            BinaryOperator::StrictInequality => Precedence::Equality,
            BinaryOperator::LessThan => Precedence::Relational,
            BinaryOperator::LessEqualThan => Precedence::Relational,
            BinaryOperator::GreaterThan => Precedence::Relational,
            BinaryOperator::GreaterEqualThan => Precedence::Relational,
            BinaryOperator::ShiftLeft => Precedence::Shift,
            BinaryOperator::ShiftRight => Precedence::Shift,
            BinaryOperator::ShiftRightZeroFill => Precedence::Shift,
            BinaryOperator::Addition => Precedence::Add,
            BinaryOperator::Subtraction => Precedence::Add,
            BinaryOperator::Multiplication => Precedence::Multiply,
            BinaryOperator::Division => Precedence::Multiply,
            BinaryOperator::Remainder => Precedence::Multiply,
            BinaryOperator::BitwiseOR => Precedence::BitwiseOr,
            BinaryOperator::BitwiseXOR => Precedence::BitwiseXor,
            BinaryOperator::BitwiseAnd => Precedence::BitwiseAnd,
            BinaryOperator::In => Precedence::Relational,
            BinaryOperator::Instanceof => Precedence::Relational,
            BinaryOperator::Exponential => Precedence::Exponential,
        }
    }
}

#[derive(Debug, Clone, Copy, PartialEq, Eq, Structural)]
pub enum LogicalOperator {
    Or,
    And,
    Coalesce,
}

impl LogicalOperator {
    /// The operator as it is written.
    pub open spec fn text(self) -> Seq<char> {
        match self {
            LogicalOperator::Or => "||"@,
            LogicalOperator::And => "&&"@,
            LogicalOperator::Coalesce => "??"@,
        }
    }

    /// The operator as it is written.
    pub fn as_str(&self) -> (text: &'static str)
        ensures
            text@ == self.text(),
    {
        match self {
            LogicalOperator::Or => "||",
            LogicalOperator::And => "&&",
            LogicalOperator::Coalesce => "??",
        }
    }

    /// How tightly the operator binds.
    pub open spec fn precedence_spec(self) -> Precedence {
        match self {
            LogicalOperator::Or => Precedence::LogicalOr,
            LogicalOperator::And => Precedence::LogicalAnd,
            LogicalOperator::Coalesce => Precedence::Coalesce,
        }
    }

    /// How tightly the operator binds.
    pub fn precedence(&self) -> (precedence: Precedence)
        ensures
            precedence == self.precedence_spec(),
    {
        match self {
            LogicalOperator::Or => Precedence::LogicalOr,
            LogicalOperator::And => Precedence::LogicalAnd,
            LogicalOperator::Coalesce => Precedence::Coalesce,
        }
    }
}

#[derive(Debug, Clone, Copy, PartialEq, Eq, Structural)]
pub enum UnaryOperator {
    UnaryNegation,
    UnaryPlus,
    LogicalNot,
    BitwiseNot,
    Typeof,
    Void,
    Delete,
}

impl UnaryOperator {
    /// The operator as it is written.
    pub open spec fn text(self) -> Seq<char> {
        match self {
            UnaryOperator::UnaryNegation => "-"@,
            UnaryOperator::UnaryPlus => "+"@,
            UnaryOperator::LogicalNot => "!"@,
            UnaryOperator::BitwiseNot => "~"@,
            UnaryOperator::Typeof => "typeof"@,
            UnaryOperator::Void => "void"@,
            UnaryOperator::Delete => "delete"@,
        }
    }

    /// The operator as it is written.
    pub fn as_str(&self) -> (text: &'static str)
        ensures
            text@ == self.text(),
    {
        match self {
            UnaryOperator::UnaryNegation => "-",
            UnaryOperator::UnaryPlus => "+",
            UnaryOperator::LogicalNot => "!",
            UnaryOperator::BitwiseNot => "~",
            UnaryOperator::Typeof => "typeof",
            UnaryOperator::Void => "void",
            UnaryOperator::Delete => "delete",
        }
    }

    /// Whether the operator is written as a word.
    pub open spec fn is_keyword_spec(self) -> bool {
        self == UnaryOperator::Typeof || self == UnaryOperator::Void || self
            == UnaryOperator::Delete
    }

    /// Whether the operator is written as a word.
    pub fn is_keyword(&self) -> (keyword: bool)
        ensures
            keyword == self.is_keyword_spec(),
    {
        match self {
            UnaryOperator::Typeof | UnaryOperator::Void | UnaryOperator::Delete => true,
            _ => false,
        }
    }
}

#[derive(Debug, Clone, Copy, PartialEq, Eq, Structural)]
pub enum UpdateOperator {
    Increment,
    Decrement,
}

impl UpdateOperator {
    /// The operator as it is written.
    pub open spec fn text(self) -> Seq<char> {
        match self {
            UpdateOperator::Increment => "++"@,
            UpdateOperator::Decrement => "--"@,
        }
    }

    /// The operator as it is written.
    pub fn as_str(&self) -> (text: &'static str)
        ensures
            text@ == self.text(),
    {
        match self {
            UpdateOperator::Increment => "++",
            UpdateOperator::Decrement => "--",
        }
    }
}

} // verus!
