//! `Format`: what every node of the syntax tree offers, its document.

use vstd::prelude::*;
use crate::ast::{
    Argument, ArrayExpression, ArrayExpressionElement, ArrowExpression, AssignmentExpression,
    AssignmentPattern, AssignmentTarget, AssignmentTargetPattern, AwaitExpression, BigintLiteral,
    BinaryExpression, BindingIdentifier, BindingPattern, BindingProperty, BlockStatement,
    BooleanLiteral, BreakStatement, CallExpression, CatchClause, ChainElement, ChainExpression,
    Class, ClassBody, ClassElement, ComputedMemberExpression, ConditionalExpression,
    ContinueStatement, Declaration, Directive, ExportDefaultDeclarationKind, Expression,
    ExpressionStatement, FormalParameter, FormalParameters, Function, FunctionBody, IdentifierName,
    IdentifierReference, IfStatement, ImportDeclaration, ImportDeclarationSpecifier,
    ImportDefaultSpecifier, ImportNamespaceSpecifier, ImportSpecifier, LabelIdentifier,
    LogicalExpression, MemberExpression, MetaProperty, ModuleDeclaration, NewExpression,
    NumberLiteral, ObjectExpression, ObjectPattern, ObjectProperty, ObjectPropertyKind,
    ParenthesizedExpression, PrivateFieldExpression, PrivateIdentifier, PrivateInExpression,
    Program, PropertyKey, RegExpFlags, RegExpLiteral, RestElement, SequenceExpression,
    SimpleAssignmentTarget, SpreadElement, Statement, StaticBlock, StaticMemberExpression,
    StringLiteral, SwitchCase, SwitchStatement, TryStatement, UnaryExpression, UpdateExpression,
    VariableDeclaration, VariableDeclarator, WithStatement, YieldExpression,
};
use crate::doc::{Doc, DocView};
use crate::format::array::{
    array_element_doc, array_expression_doc, format_array_element, print_array,
};
use crate::format::arrow_function::{arrow_function_doc, print_arrow_function};
use crate::format::binaryish::{
    binary_expression_doc, format_binary_expression, format_logical_expression,
    format_private_in_expression, logical_expression_doc, private_in_expression_doc,
};
use crate::format::block::{block_doc, print_block};
use crate::format::call_expression::{
    argument_doc, call_expression_doc, computed_member_expression_doc, format_argument,
    format_call_expression, format_computed_member_expression, format_member_expression,
    format_new_expression, format_private_field_expression, format_static_member_expression,
    member_expression_doc, new_expression_doc, private_field_expression_doc,
    static_member_expression_doc,
};
use crate::format::class::{
    class_body_doc, class_doc, class_element_doc, format_class_body, format_class_element,
    print_class,
};
use crate::format::function::{
    format_function_body, function_body_doc, function_doc, print_function,
};
use crate::format::function_parameters::{
    formal_parameter_doc, format_formal_parameter, function_parameters_doc,
    print_function_parameters,
};
use crate::format::literal::{
    bigint_literal_doc, boolean_literal_doc, format_bigint_literal, format_boolean_literal,
    format_number_literal, format_regexp_flags, format_regexp_literal, format_string_literal,
    number_literal_doc, regexp_flags_doc, regexp_literal_doc, string_literal_doc,
};
use crate::format::module::{
    export_default_kind_doc, format_export_default_kind, format_import_declaration,
    format_import_declaration_specifier, format_import_default_specifier,
    format_import_namespace_specifier, format_import_specifier, format_module_declaration,
    import_declaration_doc, import_declaration_specifier_doc, import_default_specifier_doc,
    import_namespace_specifier_doc, import_specifier_doc, module_declaration_doc,
};
use crate::format::object::{
    binding_property_doc, format_binding_property, format_object_expression, format_object_pattern,
    format_object_property, format_object_property_kind, object_expression_doc, object_pattern_doc,
    object_property_doc, object_property_kind_doc,
};
use crate::format::ternary::{print_ternary, ternary_doc};
use crate::format::{
    assignment_target_pattern_doc, format_assignment_target_pattern, format_property_key,
    property_key_doc, assignment_expression_doc, assignment_pattern_doc, assignment_target_doc, await_expression_doc,
    binding_identifier_doc, binding_pattern_doc, break_statement_doc, catch_clause_doc,
    chain_element_doc, chain_expression_doc, continue_statement_doc, declaration_doc,
    directive_doc, expression_doc, expression_statement_doc, format_assignment_expression,
    format_assignment_pattern, format_assignment_target, format_await_expression,
    format_binding_identifier, format_binding_pattern, format_break_statement, format_catch_clause,
    format_chain_element, format_chain_expression, format_continue_statement, format_declaration,
    format_directive, format_expression, format_expression_statement, format_identifier_name,
    format_identifier_reference, format_if_statement, format_label_identifier,
    format_meta_property, format_parenthesized_expression, format_private_identifier,
    format_program, format_rest_element, format_sequence_expression,
    format_simple_assignment_target, format_spread_element, format_statement, format_switch_case,
    format_switch_statement, format_try_statement, format_unary_expression,
    format_update_expression, format_variable_declaration, format_variable_declarator,
    format_with_statement, format_yield_expression, identifier_name_doc, identifier_reference_doc,
    if_statement_doc, label_identifier_doc, meta_property_doc, parenthesized_expression_doc,
    private_identifier_doc, program_doc, rest_element_doc, sequence_expression_doc,
    simple_assignment_target_doc, spread_element_doc, statement_doc, switch_case_doc,
    switch_statement_doc, try_statement_doc, unary_expression_doc, update_expression_doc,
    variable_declaration_doc, variable_declarator_doc, with_statement_doc, yield_expression_doc,
};
use crate::session::{Prettier, Style};

verus! {

/// A node of the syntax tree that has a document.
pub trait Format {
    /// The document of the node under `style`.
    spec fn doc_spec(&self, style: Style) -> DocView;

    /// The document of the node in the run `p`.
    #[must_use]
    fn format(&self, p: &Prettier) -> (doc: Doc)
        ensures
            doc@ == self.doc_spec(p@),
    ;
}

impl Format for Program {
    open spec fn doc_spec(&self, style: Style) -> DocView {
        program_doc(*self, style)
    }

    fn format(&self, p: &Prettier) -> (doc: Doc) {
        format_program(self, p)
    }
}

impl Format for Directive {
    open spec fn doc_spec(&self, style: Style) -> DocView {
        directive_doc(*self, style)
    }

    fn format(&self, p: &Prettier) -> (doc: Doc) {
        format_directive(self, p)
    }
}

impl Format for Statement {
    open spec fn doc_spec(&self, style: Style) -> DocView {
        statement_doc(*self, style)
    }

    fn format(&self, p: &Prettier) -> (doc: Doc) {
        format_statement(self, p)
    }
}

impl Format for ExpressionStatement {
    open spec fn doc_spec(&self, style: Style) -> DocView {
        expression_statement_doc(*self, style)
    }

    fn format(&self, p: &Prettier) -> (doc: Doc) {
        format_expression_statement(self, p)
    }
}

impl Format for IfStatement {
    open spec fn doc_spec(&self, style: Style) -> DocView {
        if_statement_doc(*self, style)
    }

    fn format(&self, p: &Prettier) -> (doc: Doc) {
        format_if_statement(self, p)
    }
}

impl Format for BlockStatement {
    open spec fn doc_spec(&self, style: Style) -> DocView {
        block_doc(self.body@, None, false, style)
    }

    fn format(&self, p: &Prettier) -> (doc: Doc) {
        print_block(p, &self.body, None, false)
    }
}

impl Format for ContinueStatement {
    open spec fn doc_spec(&self, style: Style) -> DocView {
        continue_statement_doc(*self, style)
    }

    fn format(&self, p: &Prettier) -> (doc: Doc) {
        format_continue_statement(self, p)
    }
}

impl Format for BreakStatement {
    open spec fn doc_spec(&self, style: Style) -> DocView {
        break_statement_doc(*self, style)
    }

    fn format(&self, p: &Prettier) -> (doc: Doc) {
        format_break_statement(self, p)
    }
}

impl Format for SwitchStatement {
    open spec fn doc_spec(&self, style: Style) -> DocView {
        switch_statement_doc(*self, style)
    }

    fn format(&self, p: &Prettier) -> (doc: Doc) {
        format_switch_statement(self, p)
    }
}

impl Format for SwitchCase {
    open spec fn doc_spec(&self, style: Style) -> DocView {
        switch_case_doc(*self, style)
    }

    fn format(&self, p: &Prettier) -> (doc: Doc) {
        format_switch_case(self, p)
    }
}

impl Format for TryStatement {
    open spec fn doc_spec(&self, style: Style) -> DocView {
        try_statement_doc(*self, style)
    }

    fn format(&self, p: &Prettier) -> (doc: Doc) {
        format_try_statement(self, p)
    }
}

impl Format for CatchClause {
    open spec fn doc_spec(&self, style: Style) -> DocView {
        catch_clause_doc(*self, style)
    }

    fn format(&self, p: &Prettier) -> (doc: Doc) {
        format_catch_clause(self, p)
    }
}

impl Format for WithStatement {
    open spec fn doc_spec(&self, style: Style) -> DocView {
        with_statement_doc(*self, style)
    }

    fn format(&self, p: &Prettier) -> (doc: Doc) {
        format_with_statement(self, p)
    }
}

impl Format for ModuleDeclaration {
    open spec fn doc_spec(&self, style: Style) -> DocView {
        module_declaration_doc(*self, style)
    }

    fn format(&self, p: &Prettier) -> (doc: Doc) {
        format_module_declaration(self, p)
    }
}

impl Format for Declaration {
    open spec fn doc_spec(&self, style: Style) -> DocView {
        declaration_doc(*self, style)
    }

    fn format(&self, p: &Prettier) -> (doc: Doc) {
        format_declaration(self, p)
    }
}

impl Format for VariableDeclaration {
    open spec fn doc_spec(&self, style: Style) -> DocView {
        variable_declaration_doc(*self, style)
    }

    fn format(&self, p: &Prettier) -> (doc: Doc) {
        format_variable_declaration(self, p)
    }
}

impl Format for VariableDeclarator {
    open spec fn doc_spec(&self, style: Style) -> DocView {
        variable_declarator_doc(*self, style)
    }

    fn format(&self, p: &Prettier) -> (doc: Doc) {
        format_variable_declarator(self, p)
    }
}

impl Format for Function {
    open spec fn doc_spec(&self, style: Style) -> DocView {
        function_doc(*self, style)
    }

    fn format(&self, p: &Prettier) -> (doc: Doc) {
        print_function(p, self)
    }
}

impl Format for FunctionBody {
    open spec fn doc_spec(&self, style: Style) -> DocView {
        function_body_doc(*self, style)
    }

    fn format(&self, p: &Prettier) -> (doc: Doc) {
        format_function_body(self, p)
    }
}

impl Format for FormalParameters {
    open spec fn doc_spec(&self, style: Style) -> DocView {
        function_parameters_doc(*self, style)
    }

    fn format(&self, p: &Prettier) -> (doc: Doc) {
        print_function_parameters(p, self)
    }
}

impl Format for FormalParameter {
    open spec fn doc_spec(&self, style: Style) -> DocView {
        formal_parameter_doc(*self, style)
    }

    fn format(&self, p: &Prettier) -> (doc: Doc) {
        format_formal_parameter(self, p)
    }
}

impl Format for ImportDeclaration {
    open spec fn doc_spec(&self, style: Style) -> DocView {
        import_declaration_doc(*self, style)
    }

    fn format(&self, p: &Prettier) -> (doc: Doc) {
        format_import_declaration(self, p)
    }
}

impl Format for ImportDeclarationSpecifier {
    open spec fn doc_spec(&self, style: Style) -> DocView {
        import_declaration_specifier_doc(*self)
    }

    fn format(&self, p: &Prettier) -> (doc: Doc) {
        format_import_declaration_specifier(self)
    }
}

impl Format for ImportSpecifier {
    open spec fn doc_spec(&self, style: Style) -> DocView {
        import_specifier_doc(*self)
    }

    fn format(&self, p: &Prettier) -> (doc: Doc) {
        format_import_specifier(self)
    }
}

impl Format for ImportDefaultSpecifier {
    open spec fn doc_spec(&self, style: Style) -> DocView {
        import_default_specifier_doc(*self)
    }

    fn format(&self, p: &Prettier) -> (doc: Doc) {
        format_import_default_specifier(self)
    }
}

impl Format for ImportNamespaceSpecifier {
    open spec fn doc_spec(&self, style: Style) -> DocView {
        import_namespace_specifier_doc(*self)
    }

    fn format(&self, p: &Prettier) -> (doc: Doc) {
        format_import_namespace_specifier(self)
    }
}

impl Format for ExportDefaultDeclarationKind {
    open spec fn doc_spec(&self, style: Style) -> DocView {
        export_default_kind_doc(*self, style)
    }

    fn format(&self, p: &Prettier) -> (doc: Doc) {
        format_export_default_kind(self, p)
    }
}

impl Format for Expression {
    open spec fn doc_spec(&self, style: Style) -> DocView {
        expression_doc(*self, style)
    }

    fn format(&self, p: &Prettier) -> (doc: Doc) {
        format_expression(self, p)
    }
}

impl Format for IdentifierReference {
    open spec fn doc_spec(&self, style: Style) -> DocView {
        identifier_reference_doc(*self)
    }

    fn format(&self, p: &Prettier) -> (doc: Doc) {
        format_identifier_reference(self)
    }
}

impl Format for IdentifierName {
    open spec fn doc_spec(&self, style: Style) -> DocView {
        identifier_name_doc(*self)
    }

    fn format(&self, p: &Prettier) -> (doc: Doc) {
        format_identifier_name(self)
    }
}

impl Format for BindingIdentifier {
    open spec fn doc_spec(&self, style: Style) -> DocView {
        binding_identifier_doc(*self)
    }

    fn format(&self, p: &Prettier) -> (doc: Doc) {
        format_binding_identifier(self)
    }
}

impl Format for LabelIdentifier {
    open spec fn doc_spec(&self, style: Style) -> DocView {
        label_identifier_doc(*self)
    }

    fn format(&self, p: &Prettier) -> (doc: Doc) {
        format_label_identifier(self)
    }
}

impl Format for PrivateIdentifier {
    open spec fn doc_spec(&self, style: Style) -> DocView {
        private_identifier_doc(*self)
    }

    fn format(&self, p: &Prettier) -> (doc: Doc) {
        format_private_identifier(self)
    }
}

impl Format for BooleanLiteral {
    open spec fn doc_spec(&self, style: Style) -> DocView {
        boolean_literal_doc(*self)
    }

    fn format(&self, p: &Prettier) -> (doc: Doc) {
        format_boolean_literal(self)
    }
}

impl Format for NumberLiteral {
    open spec fn doc_spec(&self, style: Style) -> DocView {
        number_literal_doc(*self)
    }

    fn format(&self, p: &Prettier) -> (doc: Doc) {
        format_number_literal(self)
    }
}

impl Format for BigintLiteral {
    open spec fn doc_spec(&self, style: Style) -> DocView {
        bigint_literal_doc(*self, style)
    }

    fn format(&self, p: &Prettier) -> (doc: Doc) {
        format_bigint_literal(self, p)
    }
}

impl Format for RegExpLiteral {
    open spec fn doc_spec(&self, style: Style) -> DocView {
        regexp_literal_doc(*self)
    }

    fn format(&self, p: &Prettier) -> (doc: Doc) {
        format_regexp_literal(self)
    }
}

impl Format for RegExpFlags {
    open spec fn doc_spec(&self, style: Style) -> DocView {
        regexp_flags_doc(*self)
    }

    fn format(&self, p: &Prettier) -> (doc: Doc) {
        format_regexp_flags(self)
    }
}

impl Format for StringLiteral {
    open spec fn doc_spec(&self, style: Style) -> DocView {
        string_literal_doc(*self, style)
    }

    fn format(&self, p: &Prettier) -> (doc: Doc) {
        format_string_literal(self, p)
    }
}

impl Format for MemberExpression {
    open spec fn doc_spec(&self, style: Style) -> DocView {
        member_expression_doc(*self, style)
    }

    fn format(&self, p: &Prettier) -> (doc: Doc) {
        format_member_expression(self, p)
    }
}

impl Format for CallExpression {
    open spec fn doc_spec(&self, style: Style) -> DocView {
        call_expression_doc(*self, style)
    }

    fn format(&self, p: &Prettier) -> (doc: Doc) {
        format_call_expression(self, p)
    }
}

impl Format for NewExpression {
    open spec fn doc_spec(&self, style: Style) -> DocView {
        new_expression_doc(*self, style)
    }

    fn format(&self, p: &Prettier) -> (doc: Doc) {
        format_new_expression(self, p)
    }
}

impl Format for Argument {
    open spec fn doc_spec(&self, style: Style) -> DocView {
        argument_doc(*self, style)
    }

    fn format(&self, p: &Prettier) -> (doc: Doc) {
        format_argument(self, p)
    }
}

impl Format for ArrayExpressionElement {
    open spec fn doc_spec(&self, style: Style) -> DocView {
        array_element_doc(*self, style)
    }

    fn format(&self, p: &Prettier) -> (doc: Doc) {
        format_array_element(self, p)
    }
}

impl Format for SpreadElement {
    open spec fn doc_spec(&self, style: Style) -> DocView {
        spread_element_doc(*self, style)
    }

    fn format(&self, p: &Prettier) -> (doc: Doc) {
        format_spread_element(self, p)
    }
}

impl Format for ArrayExpression {
    open spec fn doc_spec(&self, style: Style) -> DocView {
        array_expression_doc(*self, style)
    }

    fn format(&self, p: &Prettier) -> (doc: Doc) {
        print_array(p, self)
    }
}

impl Format for ObjectExpression {
    open spec fn doc_spec(&self, style: Style) -> DocView {
        object_expression_doc(*self, style)
    }

    fn format(&self, p: &Prettier) -> (doc: Doc) {
        format_object_expression(self, p)
    }
}

impl Format for ObjectPropertyKind {
    open spec fn doc_spec(&self, style: Style) -> DocView {
        object_property_kind_doc(*self, style)
    }

    fn format(&self, p: &Prettier) -> (doc: Doc) {
        format_object_property_kind(self, p)
    }
}

impl Format for ObjectProperty {
    open spec fn doc_spec(&self, style: Style) -> DocView {
        object_property_doc(*self, style)
    }

    fn format(&self, p: &Prettier) -> (doc: Doc) {
        format_object_property(self, p)
    }
}

impl Format for ArrowExpression {
    open spec fn doc_spec(&self, style: Style) -> DocView {
        arrow_function_doc(*self, style)
    }

    fn format(&self, p: &Prettier) -> (doc: Doc) {
        print_arrow_function(p, self)
    }
}

impl Format for YieldExpression {
    open spec fn doc_spec(&self, style: Style) -> DocView {
        yield_expression_doc(*self, style)
    }

    fn format(&self, p: &Prettier) -> (doc: Doc) {
        format_yield_expression(self, p)
    }
}

impl Format for AwaitExpression {
    open spec fn doc_spec(&self, style: Style) -> DocView {
        await_expression_doc(*self, style)
    }

    fn format(&self, p: &Prettier) -> (doc: Doc) {
        format_await_expression(self, p)
    }
}

impl Format for UpdateExpression {
    open spec fn doc_spec(&self, style: Style) -> DocView {
        update_expression_doc(*self, style)
    }

    fn format(&self, p: &Prettier) -> (doc: Doc) {
        format_update_expression(self, p)
    }
}

impl Format for UnaryExpression {
    open spec fn doc_spec(&self, style: Style) -> DocView {
        unary_expression_doc(*self, style)
    }

    fn format(&self, p: &Prettier) -> (doc: Doc) {
        format_unary_expression(self, p)
    }
}

impl Format for BinaryExpression {
    open spec fn doc_spec(&self, style: Style) -> DocView {
        binary_expression_doc(*self, style)
    }

    fn format(&self, p: &Prettier) -> (doc: Doc) {
        format_binary_expression(self, p)
    }
}

impl Format for PrivateInExpression {
    open spec fn doc_spec(&self, style: Style) -> DocView {
        private_in_expression_doc(*self, style)
    }

    fn format(&self, p: &Prettier) -> (doc: Doc) {
        format_private_in_expression(self, p)
    }
}

impl Format for LogicalExpression {
    open spec fn doc_spec(&self, style: Style) -> DocView {
        logical_expression_doc(*self, style)
    }

    fn format(&self, p: &Prettier) -> (doc: Doc) {
        format_logical_expression(self, p)
    }
}

impl Format for ConditionalExpression {
    open spec fn doc_spec(&self, style: Style) -> DocView {
        ternary_doc(*self, style)
    }

    fn format(&self, p: &Prettier) -> (doc: Doc) {
        print_ternary(p, self)
    }
}

impl Format for AssignmentExpression {
    open spec fn doc_spec(&self, style: Style) -> DocView {
        assignment_expression_doc(*self, style)
    }

    fn format(&self, p: &Prettier) -> (doc: Doc) {
        format_assignment_expression(self, p)
    }
}

impl Format for AssignmentTarget {
    open spec fn doc_spec(&self, style: Style) -> DocView {
        assignment_target_doc(*self, style)
    }

    fn format(&self, p: &Prettier) -> (doc: Doc) {
        format_assignment_target(self, p)
    }
}

impl Format for SimpleAssignmentTarget {
    open spec fn doc_spec(&self, style: Style) -> DocView {
        simple_assignment_target_doc(*self, style)
    }

    fn format(&self, p: &Prettier) -> (doc: Doc) {
        format_simple_assignment_target(self, p)
    }
}

impl Format for SequenceExpression {
    open spec fn doc_spec(&self, style: Style) -> DocView {
        sequence_expression_doc(*self, style)
    }

    fn format(&self, p: &Prettier) -> (doc: Doc) {
        format_sequence_expression(self, p)
    }
}

impl Format for ParenthesizedExpression {
    open spec fn doc_spec(&self, style: Style) -> DocView {
        parenthesized_expression_doc(*self, style)
    }

    fn format(&self, p: &Prettier) -> (doc: Doc) {
        format_parenthesized_expression(self, p)
    }
}

impl Format for ChainExpression {
    open spec fn doc_spec(&self, style: Style) -> DocView {
        chain_expression_doc(*self, style)
    }

    fn format(&self, p: &Prettier) -> (doc: Doc) {
        format_chain_expression(self, p)
    }
}

impl Format for ChainElement {
    open spec fn doc_spec(&self, style: Style) -> DocView {
        chain_element_doc(*self, style)
    }

    fn format(&self, p: &Prettier) -> (doc: Doc) {
        format_chain_element(self, p)
    }
}

impl Format for MetaProperty {
    open spec fn doc_spec(&self, style: Style) -> DocView {
        meta_property_doc(*self)
    }

    fn format(&self, p: &Prettier) -> (doc: Doc) {
        format_meta_property(self)
    }
}

impl Format for Class {
    open spec fn doc_spec(&self, style: Style) -> DocView {
        class_doc(*self, style)
    }

    fn format(&self, p: &Prettier) -> (doc: Doc) {
        print_class(p, self)
    }
}

impl Format for ClassBody {
    open spec fn doc_spec(&self, style: Style) -> DocView {
        class_body_doc(*self, style)
    }

    fn format(&self, p: &Prettier) -> (doc: Doc) {
        format_class_body(self, p)
    }
}

impl Format for ClassElement {
    open spec fn doc_spec(&self, style: Style) -> DocView {
        class_element_doc(*self, style)
    }

    fn format(&self, p: &Prettier) -> (doc: Doc) {
        format_class_element(self, p)
    }
}

impl Format for StaticBlock {
    open spec fn doc_spec(&self, style: Style) -> DocView {
        block_doc(self.body@, None, true, style)
    }

    fn format(&self, p: &Prettier) -> (doc: Doc) {
        print_block(p, &self.body, None, true)
    }
}

impl Format for BindingPattern {
    open spec fn doc_spec(&self, style: Style) -> DocView {
        binding_pattern_doc(*self, style)
    }

    fn format(&self, p: &Prettier) -> (doc: Doc) {
        format_binding_pattern(self, p)
    }
}

impl Format for ObjectPattern {
    open spec fn doc_spec(&self, style: Style) -> DocView {
        object_pattern_doc(*self, style)
    }

    fn format(&self, p: &Prettier) -> (doc: Doc) {
        format_object_pattern(self, p)
    }
}

impl Format for BindingProperty {
    open spec fn doc_spec(&self, style: Style) -> DocView {
        binding_property_doc(*self, style)
    }

    fn format(&self, p: &Prettier) -> (doc: Doc) {
        format_binding_property(self, p)
    }
}

impl Format for AssignmentPattern {
    open spec fn doc_spec(&self, style: Style) -> DocView {
        assignment_pattern_doc(*self, style)
    }

    fn format(&self, p: &Prettier) -> (doc: Doc) {
        format_assignment_pattern(self, p)
    }
}

impl Format for RestElement {
    open spec fn doc_spec(&self, style: Style) -> DocView {
        rest_element_doc(*self, style)
    }

    fn format(&self, p: &Prettier) -> (doc: Doc) {
        format_rest_element(self, p)
    }
}

impl Format for ComputedMemberExpression {
    open spec fn doc_spec(&self, style: Style) -> DocView {
        computed_member_expression_doc(*self, style)
    }

    fn format(&self, p: &Prettier) -> (doc: Doc) {
        format_computed_member_expression(self, p)
    }
}

impl Format for StaticMemberExpression {
    open spec fn doc_spec(&self, style: Style) -> DocView {
        static_member_expression_doc(*self, style)
    }

    fn format(&self, p: &Prettier) -> (doc: Doc) {
        format_static_member_expression(self, p)
    }
}

impl Format for PrivateFieldExpression {
    open spec fn doc_spec(&self, style: Style) -> DocView {
        private_field_expression_doc(*self, style)
    }

    fn format(&self, p: &Prettier) -> (doc: Doc) {
        format_private_field_expression(self, p)
    }
}

impl Format for AssignmentTargetPattern {
    open spec fn doc_spec(&self, style: Style) -> DocView {
        assignment_target_pattern_doc(*self)
    }

    fn format(&self, p: &Prettier) -> (doc: Doc) {
        format_assignment_target_pattern(self)
    }
}

/// A property key on its own is printed as a key that is not computed.
impl Format for PropertyKey {
    open spec fn doc_spec(&self, style: Style) -> DocView {
        property_key_doc(*self, false, style)
    }

    fn format(&self, p: &Prettier) -> (doc: Doc) {
        format_property_key(self, false, p)
    }
}

} // verus!
