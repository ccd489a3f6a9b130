use oxc_prettier::ast::VariableDeclarationKind;
use oxc_prettier::operator::{
    AssignmentOperator, BinaryOperator, LogicalOperator, Precedence, UnaryOperator, UpdateOperator,
};
use oxc_syntax::operator as outside;
use oxc_syntax::precedence::{GetPrecedence, Precedence as OutsidePrecedence};

fn rank_of(precedence: OutsidePrecedence) -> u8 {
    let order = [
        OutsidePrecedence::Comma,
        OutsidePrecedence::Assign,
        OutsidePrecedence::Arrow,
        OutsidePrecedence::Yield,
        OutsidePrecedence::Conditional,
        OutsidePrecedence::Coalesce,
        OutsidePrecedence::LogicalOr,
        OutsidePrecedence::LogicalAnd,
        OutsidePrecedence::BitwiseOr,
        OutsidePrecedence::BitwiseXor,
        OutsidePrecedence::BitwiseAnd,
        OutsidePrecedence::Equality,
        OutsidePrecedence::Relational,
        OutsidePrecedence::Shift,
        OutsidePrecedence::Add,
        OutsidePrecedence::Multiply,
        OutsidePrecedence::Exponential,
        OutsidePrecedence::Prefix,
        OutsidePrecedence::Postfix,
        OutsidePrecedence::NewWithoutArgs,
        OutsidePrecedence::Call,
        OutsidePrecedence::Member,
        OutsidePrecedence::Grouping,
    ];
    let mut rank: u8 = 0;
    for (index, candidate) in order.iter().enumerate() {
        if *candidate == precedence {
            rank = u8::try_from(index).unwrap();
        }
    }
    rank
}

#[test]
fn binary_operators_agree_with_oxc_syntax() {
    let pairs = [
        (BinaryOperator::Equality, outside::BinaryOperator::Equality),
        (BinaryOperator::Inequality, outside::BinaryOperator::Inequality),
        (BinaryOperator::StrictEquality, outside::BinaryOperator::StrictEquality),
        (BinaryOperator::StrictInequality, outside::BinaryOperator::StrictInequality),
        (BinaryOperator::LessThan, outside::BinaryOperator::LessThan),
        (BinaryOperator::LessEqualThan, outside::BinaryOperator::LessEqualThan),
        (BinaryOperator::GreaterThan, outside::BinaryOperator::GreaterThan),
        (BinaryOperator::GreaterEqualThan, outside::BinaryOperator::GreaterEqualThan),
        (BinaryOperator::ShiftLeft, outside::BinaryOperator::ShiftLeft),
        (BinaryOperator::ShiftRight, outside::BinaryOperator::ShiftRight),
        (BinaryOperator::ShiftRightZeroFill, outside::BinaryOperator::ShiftRightZeroFill),
        (BinaryOperator::Addition, outside::BinaryOperator::Addition),
        (BinaryOperator::Subtraction, outside::BinaryOperator::Subtraction),
        (BinaryOperator::Multiplication, outside::BinaryOperator::Multiplication),
        (BinaryOperator::Division, outside::BinaryOperator::Division),
        (BinaryOperator::Remainder, outside::BinaryOperator::Remainder),
        (BinaryOperator::BitwiseOR, outside::BinaryOperator::BitwiseOR),
        (BinaryOperator::BitwiseXOR, outside::BinaryOperator::BitwiseXOR),
        (BinaryOperator::BitwiseAnd, outside::BinaryOperator::BitwiseAnd),
        (BinaryOperator::In, outside::BinaryOperator::In),
        (BinaryOperator::Instanceof, outside::BinaryOperator::Instanceof),
        (BinaryOperator::Exponential, outside::BinaryOperator::Exponential),
    ];
    for (own, theirs) in pairs {
        assert_eq!(own.as_str(), theirs.as_str());
        assert_eq!(own.precedence().rank(), rank_of(theirs.precedence()));
        assert_eq!(
            own.precedence().is_right_associative(),
            theirs.precedence().is_right_associative()
        );
    }
}

#[test]
fn logical_operators_agree_with_oxc_syntax() {
    let pairs = [
        (LogicalOperator::Or, outside::LogicalOperator::Or),
        (LogicalOperator::And, outside::LogicalOperator::And),
        (LogicalOperator::Coalesce, outside::LogicalOperator::Coalesce),
    ];
    for (own, theirs) in pairs {
        assert_eq!(own.as_str(), theirs.as_str());
        assert_eq!(own.precedence().rank(), rank_of(theirs.precedence()));
    }
}

#[test]
fn assignment_operators_agree_with_oxc_syntax() {
    let pairs = [
        (AssignmentOperator::Assign, outside::AssignmentOperator::Assign),
        (AssignmentOperator::Addition, outside::AssignmentOperator::Addition),
        (AssignmentOperator::Subtraction, outside::AssignmentOperator::Subtraction),
        (AssignmentOperator::Multiplication, outside::AssignmentOperator::Multiplication),
        (AssignmentOperator::Division, outside::AssignmentOperator::Division),
        (AssignmentOperator::Remainder, outside::AssignmentOperator::Remainder),
        (AssignmentOperator::ShiftLeft, outside::AssignmentOperator::ShiftLeft),
        (AssignmentOperator::ShiftRight, outside::AssignmentOperator::ShiftRight),
        (AssignmentOperator::ShiftRightZeroFill, outside::AssignmentOperator::ShiftRightZeroFill),
        (AssignmentOperator::BitwiseOR, outside::AssignmentOperator::BitwiseOR),
        (AssignmentOperator::BitwiseXOR, outside::AssignmentOperator::BitwiseXOR),
        (AssignmentOperator::BitwiseAnd, outside::AssignmentOperator::BitwiseAnd),
        (AssignmentOperator::LogicalAnd, outside::AssignmentOperator::LogicalAnd),
        (AssignmentOperator::LogicalOr, outside::AssignmentOperator::LogicalOr),
        (AssignmentOperator::LogicalNullish, outside::AssignmentOperator::LogicalNullish),
        (AssignmentOperator::Exponential, outside::AssignmentOperator::Exponential),
    ];
    for (own, theirs) in pairs {
        assert_eq!(own.as_str(), theirs.as_str());
    }
}

#[test]
fn unary_and_update_operators_agree_with_oxc_syntax() {
    let unary = [
        (UnaryOperator::UnaryNegation, outside::UnaryOperator::UnaryNegation),
        (UnaryOperator::UnaryPlus, outside::UnaryOperator::UnaryPlus),
        (UnaryOperator::LogicalNot, outside::UnaryOperator::LogicalNot),
        (UnaryOperator::BitwiseNot, outside::UnaryOperator::BitwiseNot),
        (UnaryOperator::Typeof, outside::UnaryOperator::Typeof),
        (UnaryOperator::Void, outside::UnaryOperator::Void),
        (UnaryOperator::Delete, outside::UnaryOperator::Delete),
    ];
    for (own, theirs) in unary {
        assert_eq!(own.as_str(), theirs.as_str());
        assert_eq!(own.is_keyword(), theirs.is_keyword());
    }
    let update = [
        (UpdateOperator::Increment, outside::UpdateOperator::Increment),
        (UpdateOperator::Decrement, outside::UpdateOperator::Decrement),
    ];
    for (own, theirs) in update {
        assert_eq!(own.as_str(), theirs.as_str());
    }
}

#[test]
fn declaration_kinds_agree_with_oxc_ast() {
    let pairs = [
        (VariableDeclarationKind::Var, oxc_ast::ast::VariableDeclarationKind::Var),
        (VariableDeclarationKind::Const, oxc_ast::ast::VariableDeclarationKind::Const),
        (VariableDeclarationKind::Let, oxc_ast::ast::VariableDeclarationKind::Let),
    ];
    for (own, theirs) in pairs {
        assert_eq!(own.as_str(), theirs.as_str());
    }
}

#[test]
fn precedence_ranks_are_in_order() {
    let order = [
        Precedence::Comma,
        Precedence::Assign,
        Precedence::Arrow,
        Precedence::Yield,
        Precedence::Conditional,
        Precedence::Coalesce,
        Precedence::LogicalOr,
        Precedence::LogicalAnd,
        Precedence::BitwiseOr,
        Precedence::BitwiseXor,
        Precedence::BitwiseAnd,
        Precedence::Equality,
        Precedence::Relational,
        Precedence::Shift,
        Precedence::Add,
        Precedence::Multiply,
        Precedence::Exponential,
        Precedence::Prefix,
        Precedence::Postfix,
        Precedence::NewWithoutArgs,
        Precedence::Call,
        Precedence::Member,
        Precedence::Grouping,
    ];
    for (index, precedence) in order.iter().enumerate() {
        assert_eq!(usize::from(precedence.rank()), index);
        assert_eq!(precedence.is_right_associative(), *precedence == Precedence::Exponential);
    }
}
