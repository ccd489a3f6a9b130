//! The syntax tree that the printers read: for each construct, the parts
//! that decide its text. Constructs that the printers do not cover are kept
//! as `Unsupported` leaves.

use vstd::prelude::*;
use crate::operator::{
    AssignmentOperator, BinaryOperator, LogicalOperator, UnaryOperator, UpdateOperator,
};

verus! {

/// A range of the source text, in bytes.
#[derive(Debug, Clone, Copy, PartialEq, Eq, Structural)]
pub struct Span {
    pub start: u32,
    pub end: u32,
}

#[derive(Debug)]
pub struct Program {
    pub directives: Vec<Directive>,
    pub body: Vec<Statement>,
}

/// A directive prologue entry such as `"use strict"`, by the text between
/// its quotes.
#[derive(Debug)]
pub struct Directive {
    pub directive: String,
}

#[derive(Debug)]
pub enum Statement {
    BlockStatement(Box<BlockStatement>),
    BreakStatement(Box<BreakStatement>),
    ContinueStatement(Box<ContinueStatement>),
    DebuggerStatement,
    EmptyStatement,
    ExpressionStatement(Box<ExpressionStatement>),
    IfStatement(Box<IfStatement>),
    ModuleDeclaration(Box<ModuleDeclaration>),
    ReturnStatement(Box<ReturnStatement>),
    SwitchStatement(Box<SwitchStatement>),
    ThrowStatement(Box<ThrowStatement>),
    TryStatement(Box<TryStatement>),
    WithStatement(Box<WithStatement>),
    Declaration(Declaration),
    /// Loops and labeled statements.
    Unsupported,
}

#[derive(Debug)]
pub struct BlockStatement {
    pub body: Vec<Statement>,
}

#[derive(Debug)]
pub struct BreakStatement {
    pub label: Option<LabelIdentifier>,
}

#[derive(Debug)]
pub struct ContinueStatement {
    pub label: Option<LabelIdentifier>,
}

#[derive(Debug)]
pub struct ExpressionStatement {
    pub expression: Expression,
}

#[derive(Debug)]
pub struct IfStatement {
    pub test: Expression,
    pub consequent: Statement,
    pub alternate: Option<Statement>,
}

#[derive(Debug)]
pub struct ReturnStatement {
    pub argument: Option<Expression>,
}

#[derive(Debug)]
pub struct ThrowStatement {
    pub argument: Expression,
}

#[derive(Debug)]
pub struct SwitchStatement {
    pub discriminant: Expression,
    pub cases: Vec<SwitchCase>,
}

#[derive(Debug)]
pub struct SwitchCase {
    pub test: Option<Expression>,
    pub consequent: Vec<Statement>,
}

#[derive(Debug)]
pub struct TryStatement {
    pub block: BlockStatement,
    pub handler: Option<CatchClause>,
    pub finalizer: Option<BlockStatement>,
}

#[derive(Debug)]
pub struct CatchClause {
    pub param: Option<BindingPattern>,
    pub body: BlockStatement,
}

#[derive(Debug)]
pub struct WithStatement {
    pub object: Expression,
    pub body: Statement,
}

#[derive(Debug)]
pub enum ModuleDeclaration {
    ImportDeclaration(Box<ImportDeclaration>),
    ExportDefaultDeclaration(Box<ExportDefaultDeclaration>),
    ExportNamedDeclaration(Box<ExportNamedDeclaration>),
    /// Re-exports and the export forms of type declarations.
    Unsupported,
}

#[derive(Debug)]
pub struct ImportDeclaration {
    pub specifiers: Option<Vec<ImportDeclarationSpecifier>>,
    pub source: StringLiteral,
    pub is_type: bool,
}

#[derive(Debug)]
pub enum ImportDeclarationSpecifier {
    ImportSpecifier(ImportSpecifier),
    ImportDefaultSpecifier(ImportDefaultSpecifier),
    ImportNamespaceSpecifier(ImportNamespaceSpecifier),
}

#[derive(Debug)]
pub struct ImportSpecifier {
    pub imported: ModuleExportName,
    pub local: BindingIdentifier,
}

#[derive(Debug)]
pub struct ImportDefaultSpecifier {
    pub local: BindingIdentifier,
}

#[derive(Debug)]
pub struct ImportNamespaceSpecifier {
    pub local: BindingIdentifier,
}

/// The exported name of a binding: an identifier, or a string literal by
/// its value.
#[derive(Debug)]
pub struct ModuleExportName {
    pub span: Span,
    pub name: String,
}

#[derive(Debug)]
pub struct ExportDefaultDeclaration {
    pub declaration: ExportDefaultDeclarationKind,
}

#[derive(Debug)]
pub enum ExportDefaultDeclarationKind {
    Expression(Expression),
    FunctionDeclaration(Box<Function>),
    ClassDeclaration(Box<Class>),
    /// Type declarations.
    Unsupported,
}

/// `export` before a declaration; the form with a specifier list has none.
#[derive(Debug)]
pub struct ExportNamedDeclaration {
    pub declaration: Option<Declaration>,
}

#[derive(Debug)]
pub enum Declaration {
    VariableDeclaration(Box<VariableDeclaration>),
    FunctionDeclaration(Box<Function>),
    ClassDeclaration(Box<Class>),
    /// `using` and type declarations.
    Unsupported,
}

#[derive(Debug, Clone, Copy, PartialEq, Eq, Structural)]
pub enum VariableDeclarationKind {
    Var,
    Const,
    Let,
}

#[derive(Debug)]
pub struct VariableDeclaration {
    pub kind: VariableDeclarationKind,
    pub declarations: Vec<VariableDeclarator>,
}

#[derive(Debug)]
pub struct VariableDeclarator {
    pub id: BindingPattern,
    pub init: Option<Expression>,
}

#[derive(Debug)]
pub struct Function {
    pub id: Option<BindingIdentifier>,
    pub generator: bool,
    pub is_async: bool,
    pub params: FormalParameters,
    pub body: Option<FunctionBody>,
}

#[derive(Debug)]
pub struct FunctionBody {
    pub directives: Vec<Directive>,
    pub statements: Vec<Statement>,
}

#[derive(Debug)]
pub struct FormalParameters {
    pub items: Vec<FormalParameter>,
    pub rest: Option<RestElement>,
}

#[derive(Debug)]
pub struct FormalParameter {
    pub pattern: BindingPattern,
}

#[derive(Debug)]
pub struct Class {
    pub id: Option<BindingIdentifier>,
    pub super_class: Option<Expression>,
    pub body: ClassBody,
}

#[derive(Debug)]
pub struct ClassBody {
    pub body: Vec<ClassElement>,
}

#[derive(Debug)]
pub enum ClassElement {
    StaticBlock(StaticBlock),
    /// Methods, properties, accessors and index signatures.
    Unsupported,
}

#[derive(Debug)]
pub struct StaticBlock {
    pub body: Vec<Statement>,
}

#[derive(Debug)]
pub enum Expression {
    BooleanLiteral(BooleanLiteral),
    NullLiteral,
    NumberLiteral(NumberLiteral),
    BigintLiteral(BigintLiteral),
    RegExpLiteral(RegExpLiteral),
    StringLiteral(StringLiteral),
    Identifier(IdentifierReference),
    ThisExpression,
    Super,
    MemberExpression(Box<MemberExpression>),
    CallExpression(Box<CallExpression>),
    NewExpression(Box<NewExpression>),
    ArrayExpression(Box<ArrayExpression>),
    ObjectExpression(Box<ObjectExpression>),
    FunctionExpression(Box<Function>),
    ArrowExpression(Box<ArrowExpression>),
    ClassExpression(Box<Class>),
    YieldExpression(Box<YieldExpression>),
    AwaitExpression(Box<AwaitExpression>),
    UpdateExpression(Box<UpdateExpression>),
    UnaryExpression(Box<UnaryExpression>),
    BinaryExpression(Box<BinaryExpression>),
    PrivateInExpression(Box<PrivateInExpression>),
    LogicalExpression(Box<LogicalExpression>),
    ConditionalExpression(Box<ConditionalExpression>),
    AssignmentExpression(Box<AssignmentExpression>),
    SequenceExpression(Box<SequenceExpression>),
    ParenthesizedExpression(Box<ParenthesizedExpression>),
    ChainExpression(Box<ChainExpression>),
    MetaProperty(MetaProperty),
    /// An expression under a type annotation (`as`, `satisfies`, `!`, a type
    /// assertion or instantiation): printed as the expression.
    TypeWrapped(Box<Expression>),
    /// Templates, dynamic imports and JSX.
    Unsupported,
}

#[derive(Debug)]
pub struct BooleanLiteral {
    pub value: bool,
}

/// A number, by its text in the source.
#[derive(Debug)]
pub struct NumberLiteral {
    pub raw: String,
}

/// A big integer, by where its text stands in the source.
#[derive(Debug)]
pub struct BigintLiteral {
    pub span: Span,
}

#[derive(Debug, Clone, Copy, PartialEq, Eq, Structural)]
pub struct RegExpFlags {
    pub has_indices: bool,
    pub global: bool,
    pub ignore_case: bool,
    pub multiline: bool,
    pub dot_all: bool,
    pub unicode: bool,
    pub unicode_sets: bool,
    pub sticky: bool,
}

#[derive(Debug)]
pub struct RegExpLiteral {
    pub pattern: String,
    pub flags: RegExpFlags,
}

/// A string, by its value.
#[derive(Debug)]
pub struct StringLiteral {
    pub value: String,
}

#[derive(Debug)]
pub struct IdentifierReference {
    pub name: String,
}

#[derive(Debug)]
pub struct IdentifierName {
    pub name: String,
}

#[derive(Debug)]
pub struct BindingIdentifier {
    pub span: Span,
    pub name: String,
}

#[derive(Debug)]
pub struct LabelIdentifier {
    pub name: String,
}

#[derive(Debug)]
pub struct PrivateIdentifier {
    pub name: String,
}

#[derive(Debug)]
pub enum MemberExpression {
    ComputedMemberExpression(ComputedMemberExpression),
    StaticMemberExpression(StaticMemberExpression),
    PrivateFieldExpression(PrivateFieldExpression),
}

#[derive(Debug)]
pub struct ComputedMemberExpression {
    pub object: Expression,
    pub expression: Expression,
    pub optional: bool,
}

#[derive(Debug)]
pub struct StaticMemberExpression {
    pub object: Expression,
    pub property: IdentifierName,
    pub optional: bool,
}

#[derive(Debug)]
pub struct PrivateFieldExpression {
    pub object: Expression,
    pub field: PrivateIdentifier,
    pub optional: bool,
}

#[derive(Debug)]
pub struct CallExpression {
    pub callee: Expression,
    pub arguments: Vec<Argument>,
    pub optional: bool,
}

#[derive(Debug)]
pub struct NewExpression {
    pub callee: Expression,
    pub arguments: Vec<Argument>,
}

#[derive(Debug)]
pub enum Argument {
    SpreadElement(SpreadElement),
    Expression(Expression),
}

#[derive(Debug)]
pub struct SpreadElement {
    pub argument: Expression,
}

#[derive(Debug)]
pub struct ArrayExpression {
    pub elements: Vec<ArrayExpressionElement>,
}

#[derive(Debug)]
pub enum ArrayExpressionElement {
    SpreadElement(SpreadElement),
    Expression(Expression),
    Elision,
}

#[derive(Debug)]
pub struct ObjectExpression {
    pub properties: Vec<ObjectPropertyKind>,
}

#[derive(Debug)]
pub enum ObjectPropertyKind {
    ObjectProperty(ObjectProperty),
    SpreadProperty(SpreadElement),
}

#[derive(Debug)]
pub struct ObjectProperty {
    pub key: PropertyKey,
    pub value: Expression,
    pub shorthand: bool,
    pub computed: bool,
}

#[derive(Debug)]
pub enum PropertyKey {
    Identifier(IdentifierName),
    PrivateIdentifier(PrivateIdentifier),
    Expression(Expression),
}

#[derive(Debug)]
pub struct ArrowExpression {
    /// Whether the body is a single expression rather than a block.
    pub expression: bool,
    pub is_async: bool,
    pub params: FormalParameters,
    pub body: FunctionBody,
}

#[derive(Debug)]
pub struct YieldExpression {
    pub delegate: bool,
    pub argument: Option<Expression>,
}

#[derive(Debug)]
pub struct AwaitExpression {
    pub argument: Expression,
}

#[derive(Debug)]
pub struct UpdateExpression {
    pub operator: UpdateOperator,
    pub prefix: bool,
    pub argument: SimpleAssignmentTarget,
}

#[derive(Debug)]
pub struct UnaryExpression {
    pub operator: UnaryOperator,
    pub argument: Expression,
}

#[derive(Debug)]
pub struct BinaryExpression {
    pub left: Expression,
    pub operator: BinaryOperator,
    pub right: Expression,
}

/// `#field in object`.
#[derive(Debug)]
pub struct PrivateInExpression {
    pub left: PrivateIdentifier,
    pub right: Expression,
}

#[derive(Debug)]
pub struct LogicalExpression {
    pub left: Expression,
    pub operator: LogicalOperator,
    pub right: Expression,
}

#[derive(Debug)]
pub struct ConditionalExpression {
    pub test: Expression,
    pub consequent: Expression,
    pub alternate: Expression,
}

#[derive(Debug)]
pub struct AssignmentExpression {
    pub operator: AssignmentOperator,
    pub left: AssignmentTarget,
    pub right: Expression,
}

#[derive(Debug)]
pub enum AssignmentTarget {
    SimpleAssignmentTarget(SimpleAssignmentTarget),
    AssignmentTargetPattern(AssignmentTargetPattern),
}

#[derive(Debug)]
pub enum SimpleAssignmentTarget {
    AssignmentTargetIdentifier(IdentifierReference),
    MemberAssignmentTarget(Box<MemberExpression>),
    /// A target under a type annotation: printed as the expression.
    TypeWrapped(Box<Expression>),
}

/// A destructuring target on the left of an assignment.
#[derive(Debug)]
pub enum AssignmentTargetPattern {
    ArrayAssignmentTarget,
    ObjectAssignmentTarget,
}

#[derive(Debug)]
pub struct SequenceExpression {
    pub expressions: Vec<Expression>,
}

#[derive(Debug)]
pub struct ParenthesizedExpression {
    pub expression: Expression,
}

#[derive(Debug)]
pub struct ChainExpression {
    pub expression: ChainElement,
}

#[derive(Debug)]
pub enum ChainElement {
    CallExpression(Box<CallExpression>),
    MemberExpression(Box<MemberExpression>),
}

#[derive(Debug)]
pub struct MetaProperty {
    pub meta: IdentifierName,
    pub property: IdentifierName,
}

#[derive(Debug)]
pub struct BindingPattern {
    pub kind: BindingPatternKind,
}

#[derive(Debug)]
pub enum BindingPatternKind {
    BindingIdentifier(BindingIdentifier),
    ObjectPattern(Box<ObjectPattern>),
    AssignmentPattern(Box<AssignmentPattern>),
    /// Array patterns.
    Unsupported,
}

#[derive(Debug)]
pub struct ObjectPattern {
    pub properties: Vec<BindingProperty>,
    pub rest: Option<RestElement>,
}

#[derive(Debug)]
pub struct BindingProperty {
    pub key: PropertyKey,
    pub value: BindingPattern,
    pub shorthand: bool,
    pub computed: bool,
}

#[derive(Debug)]
pub struct AssignmentPattern {
    pub left: BindingPattern,
    pub right: Expression,
}

#[derive(Debug)]
pub struct RestElement {
    pub argument: Box<BindingPattern>,
}

} // verus!
