use oxc_prettier::ast::{
    Argument, ArrayExpression, ArrayExpressionElement, ArrowExpression, AssignmentExpression,
    AssignmentTarget, AwaitExpression, BigintLiteral, BinaryExpression, BindingIdentifier,
    BindingPattern, BindingPatternKind, BindingProperty, BlockStatement, BooleanLiteral,
    BreakStatement, CallExpression, CatchClause, ChainElement, ChainExpression, Class, ClassBody,
    ClassElement, ComputedMemberExpression, ConditionalExpression, ContinueStatement, Declaration,
    Directive, ExportDefaultDeclaration, ExportDefaultDeclarationKind, ExportNamedDeclaration,
    Expression, ExpressionStatement, FormalParameter, FormalParameters, Function, FunctionBody,
    IdentifierName, IdentifierReference, IfStatement, ImportDeclaration,
    ImportDeclarationSpecifier, ImportDefaultSpecifier, ImportNamespaceSpecifier, ImportSpecifier,
    LabelIdentifier, LogicalExpression, MemberExpression, MetaProperty, ModuleDeclaration,
    ModuleExportName, NewExpression, NumberLiteral, ObjectExpression, ObjectPattern,
    ObjectProperty, ObjectPropertyKind, ParenthesizedExpression, PrivateFieldExpression,
    PrivateIdentifier, PrivateInExpression, Program, PropertyKey, RegExpFlags, RegExpLiteral,
    RestElement, ReturnStatement, SequenceExpression, SimpleAssignmentTarget, Span, SpreadElement,
    Statement, StaticBlock, StaticMemberExpression, StringLiteral, SwitchCase, SwitchStatement,
    ThrowStatement, TryStatement, UnaryExpression, UpdateExpression, VariableDeclaration,
    VariableDeclarationKind, VariableDeclarator, WithStatement, YieldExpression,
};
use oxc_prettier::operator::{
    AssignmentOperator, BinaryOperator, LogicalOperator, UnaryOperator, UpdateOperator,
};
use oxc_prettier::options::PrettierOptions;
use oxc_prettier::printer::print;
use oxc_prettier::{Format, Prettier};

fn options(width: usize) -> PrettierOptions {
    PrettierOptions::new(width, 2, true, false).unwrap()
}

fn program(body: Vec<Statement>) -> Program {
    Program { directives: vec![], body }
}

fn render_with(source: &str, options: PrettierOptions, body: Vec<Statement>) -> String {
    Prettier::new(source, options).build(&program(body)).unwrap()
}

fn render(width: usize, body: Vec<Statement>) -> String {
    render_with("", options(width), body)
}

fn render_expr(width: usize, expr: Expression) -> String {
    let p = Prettier::new("", options(width));
    print(&expr.format(&p), &p.options).unwrap()
}

fn id(name: &str) -> Expression {
    Expression::Identifier(IdentifierReference { name: name.to_string() })
}

fn num(raw: &str) -> Expression {
    Expression::NumberLiteral(NumberLiteral { raw: raw.to_string() })
}

fn string(value: &str) -> Expression {
    Expression::StringLiteral(StringLiteral { value: value.to_string() })
}

fn stmt(expression: Expression) -> Statement {
    Statement::ExpressionStatement(Box::new(ExpressionStatement { expression }))
}

fn block(body: Vec<Statement>) -> Statement {
    Statement::BlockStatement(Box::new(BlockStatement { body }))
}

fn binary(left: Expression, operator: BinaryOperator, right: Expression) -> Expression {
    Expression::BinaryExpression(Box::new(BinaryExpression { left, operator, right }))
}

fn logical(left: Expression, operator: LogicalOperator, right: Expression) -> Expression {
    Expression::LogicalExpression(Box::new(LogicalExpression { left, operator, right }))
}

fn add(left: Expression, right: Expression) -> Expression {
    binary(left, BinaryOperator::Addition, right)
}

fn paren(expression: Expression) -> Expression {
    Expression::ParenthesizedExpression(Box::new(ParenthesizedExpression { expression }))
}

fn cond(test: Expression, consequent: Expression, alternate: Expression) -> Expression {
    Expression::ConditionalExpression(Box::new(ConditionalExpression { test, consequent, alternate }))
}

fn args(list: Vec<Expression>) -> Vec<Argument> {
    list.into_iter().map(Argument::Expression).collect()
}

fn call(callee: Expression, arguments: Vec<Expression>) -> Expression {
    Expression::CallExpression(Box::new(CallExpression {
        callee,
        arguments: args(arguments),
        optional: false,
    }))
}

fn member(object: Expression, property: &str) -> Expression {
    Expression::MemberExpression(Box::new(MemberExpression::StaticMemberExpression(
        StaticMemberExpression {
            object,
            property: IdentifierName { name: property.to_string() },
            optional: false,
        },
    )))
}

fn array(elements: Vec<Expression>) -> Expression {
    Expression::ArrayExpression(Box::new(ArrayExpression {
        elements: elements.into_iter().map(ArrayExpressionElement::Expression).collect(),
    }))
}

fn prop(key: &str, value: Expression) -> ObjectPropertyKind {
    ObjectPropertyKind::ObjectProperty(ObjectProperty {
        key: PropertyKey::Identifier(IdentifierName { name: key.to_string() }),
        value,
        shorthand: false,
        computed: false,
    })
}

fn object(properties: Vec<ObjectPropertyKind>) -> Expression {
    Expression::ObjectExpression(Box::new(ObjectExpression { properties }))
}

fn binding(name: &str) -> BindingPattern {
    BindingPattern {
        kind: BindingPatternKind::BindingIdentifier(BindingIdentifier {
            span: Span { start: 0, end: 0 },
            name: name.to_string(),
        }),
    }
}

fn params(names: Vec<&str>) -> FormalParameters {
    FormalParameters {
        items: names.into_iter().map(|name| FormalParameter { pattern: binding(name) }).collect(),
        rest: None,
    }
}

fn body(statements: Vec<Statement>) -> FunctionBody {
    FunctionBody { directives: vec![], statements }
}

fn function(name: Option<&str>, names: Vec<&str>, statements: Vec<Statement>) -> Function {
    Function {
        id: name.map(|name| BindingIdentifier { span: Span { start: 0, end: 0 }, name: name.to_string() }),
        generator: false,
        is_async: false,
        params: params(names),
        body: Some(body(statements)),
    }
}

fn arrow(names: Vec<&str>, expression: Expression) -> Expression {
    Expression::ArrowExpression(Box::new(ArrowExpression {
        expression: true,
        is_async: false,
        params: params(names),
        body: body(vec![stmt(expression)]),
    }))
}

fn var(kind: VariableDeclarationKind, list: Vec<(&str, Option<Expression>)>) -> Statement {
    Statement::Declaration(Declaration::VariableDeclaration(Box::new(VariableDeclaration {
        kind,
        declarations: list
            .into_iter()
            .map(|(name, init)| VariableDeclarator { id: binding(name), init })
            .collect(),
    })))
}

fn ret(argument: Option<Expression>) -> Statement {
    Statement::ReturnStatement(Box::new(ReturnStatement { argument }))
}

fn if_else() -> Statement {
    Statement::IfStatement(Box::new(IfStatement {
        test: id("x"),
        consequent: block(vec![stmt(call(id("y"), vec![]))]),
        alternate: Some(block(vec![stmt(call(id("z"), vec![]))])),
    }))
}

fn chain_abcd() -> Expression {
    add(add(add(id("a"), id("b")), id("c")), id("d"))
}

#[test]
fn if_else_with_blocks() {
    assert_eq!(render(80, vec![if_else()]), "if (x) {\n  y();\n} else {\n  z();\n}");
}

#[test]
fn if_else_with_blocks_and_wider_indent() {
    let options = PrettierOptions::new(80, 4, true, false).unwrap();
    assert_eq!(
        render_with("", options, vec![if_else()]),
        "if (x) {\n    y();\n} else {\n    z();\n}"
    );
}

#[test]
fn if_without_else() {
    let statement = Statement::IfStatement(Box::new(IfStatement {
        test: id("x"),
        consequent: block(vec![]),
        alternate: None,
    }));
    assert_eq!(render(80, vec![statement]), "if (x) {}");
}

#[test]
fn if_with_plain_statements() {
    let statement = Statement::IfStatement(Box::new(IfStatement {
        test: id("x"),
        consequent: stmt(call(id("y"), vec![])),
        alternate: Some(stmt(call(id("z"), vec![]))),
    }));
    assert_eq!(render(80, vec![statement]), "if (x) y();\nelse z();");
}

#[test]
fn else_if_stays_on_the_line() {
    let inner = Statement::IfStatement(Box::new(IfStatement {
        test: id("b"),
        consequent: block(vec![]),
        alternate: None,
    }));
    let statement = Statement::IfStatement(Box::new(IfStatement {
        test: id("a"),
        consequent: block(vec![]),
        alternate: Some(inner),
    }));
    assert_eq!(render(80, vec![statement]), "if (a) {} else if (b) {}");
}

#[test]
fn long_test_breaks_inside_the_brackets() {
    let statement = Statement::IfStatement(Box::new(IfStatement {
        test: id("aaaaaaaaaaaa"),
        consequent: block(vec![]),
        alternate: None,
    }));
    assert_eq!(render(10, vec![statement]), "if (\n  aaaaaaaaaaaa\n) {}");
}

#[test]
fn binary_chain_on_one_line() {
    assert_eq!(render(80, vec![stmt(chain_abcd())]), "a + b + c + d;");
    assert_eq!(render(14, vec![stmt(chain_abcd())]), "a + b + c + d;");
}

#[test]
fn binary_chain_breaks_before_every_operator() {
    assert_eq!(render(13, vec![stmt(chain_abcd())]), "a\n  + b\n  + c\n  + d;");
    assert_eq!(render(5, vec![stmt(chain_abcd())]), "a\n  + b\n  + c\n  + d;");
}

#[test]
fn binary_chain_of_one_tier_is_one_group() {
    let expr = binary(add(id("a"), id("b")), BinaryOperator::Subtraction, id("c"));
    assert_eq!(render_expr(80, expr), "a + b - c");
    let expr = binary(add(id("aaa"), id("bbb")), BinaryOperator::Subtraction, id("ccc"));
    assert_eq!(render_expr(8, expr), "aaa\n  + bbb\n  - ccc");
}

#[test]
fn tighter_operand_is_a_group_of_its_own() {
    let product = binary(id("bbb"), BinaryOperator::Multiplication, id("ccc"));
    let expr = add(add(id("aaa"), product), id("ddd"));
    assert_eq!(render_expr(80, add(id("a"), binary(id("b"), BinaryOperator::Multiplication, id("c")))), "a + b * c");
    assert_eq!(render_expr(13, expr), "aaa\n  + bbb * ccc\n  + ddd");
    let product = binary(id("bbb"), BinaryOperator::Multiplication, id("ccc"));
    let expr = add(add(id("aaa"), product), id("ddd"));
    assert_eq!(render_expr(12, expr), "aaa\n  + bbb\n    * ccc\n  + ddd");
}

#[test]
fn looser_operand_gets_brackets() {
    let expr = binary(add(id("a"), id("b")), BinaryOperator::Multiplication, id("c"));
    assert_eq!(render_expr(80, expr), "(a + b) * c");
    let expr = binary(id("a"), BinaryOperator::Multiplication, add(id("b"), id("c")));
    assert_eq!(render_expr(80, expr), "a * (b + c)");
}

#[test]
fn right_operand_of_the_same_tier_keeps_its_brackets() {
    let expr = binary(id("a"), BinaryOperator::Subtraction, binary(id("b"), BinaryOperator::Subtraction, id("c")));
    assert_eq!(render_expr(80, expr), "a - (b - c)");
}

#[test]
fn brackets_of_the_source_do_not_count() {
    let expr = add(paren(add(id("a"), id("b"))), paren(id("c")));
    assert_eq!(render_expr(80, expr), "a + b + c");
    let expr = add(paren(binary(id("a"), BinaryOperator::Multiplication, id("b"))), id("c"));
    assert_eq!(render_expr(80, expr), "a * b + c");
}

#[test]
fn power_groups_from_the_right() {
    let expr = binary(id("a"), BinaryOperator::Exponential, binary(id("b"), BinaryOperator::Exponential, id("c")));
    assert_eq!(render_expr(80, expr), "a ** b ** c");
    let expr = binary(binary(id("a"), BinaryOperator::Exponential, id("b")), BinaryOperator::Exponential, id("c"));
    assert_eq!(render_expr(80, expr), "(a ** b) ** c");
    let negated = Expression::UnaryExpression(Box::new(UnaryExpression {
        operator: UnaryOperator::UnaryNegation,
        argument: id("a"),
    }));
    assert_eq!(render_expr(80, binary(negated, BinaryOperator::Exponential, id("b"))), "(-a) ** b");
}

#[test]
fn mixed_logical_operators_get_brackets() {
    let expr = logical(logical(id("a"), LogicalOperator::And, id("b")), LogicalOperator::Or, id("c"));
    assert_eq!(render_expr(80, expr), "(a && b) || c");
    let expr = logical(id("a"), LogicalOperator::And, logical(id("b"), LogicalOperator::Or, id("c")));
    assert_eq!(render_expr(80, expr), "a && (b || c)");
    let expr = logical(logical(id("a"), LogicalOperator::Or, id("b")), LogicalOperator::Coalesce, id("c"));
    assert_eq!(render_expr(80, expr), "(a || b) ?? c");
}

#[test]
fn logical_chain_is_one_group() {
    let expr = logical(logical(id("aaa"), LogicalOperator::And, id("bbb")), LogicalOperator::And, id("ccc"));
    assert_eq!(render_expr(80, logical(logical(id("a"), LogicalOperator::And, id("b")), LogicalOperator::And, id("c"))), "a && b && c");
    assert_eq!(render_expr(10, expr), "aaa\n  && bbb\n  && ccc");
}

#[test]
fn comparison_in_a_logical_chain() {
    let expr = logical(
        binary(id("a"), BinaryOperator::StrictEquality, id("b")),
        LogicalOperator::Or,
        binary(id("c"), BinaryOperator::LessThan, id("d")),
    );
    assert_eq!(render_expr(80, expr), "a === b || c < d");
}

#[test]
fn every_binary_operator_has_its_text() {
    let table = [
        (BinaryOperator::Equality, "=="),
        (BinaryOperator::Inequality, "!="),
        (BinaryOperator::StrictEquality, "==="),
        (BinaryOperator::StrictInequality, "!=="),
        (BinaryOperator::LessThan, "<"),
        (BinaryOperator::LessEqualThan, "<="),
        (BinaryOperator::GreaterThan, ">"),
        (BinaryOperator::GreaterEqualThan, ">="),
        (BinaryOperator::ShiftLeft, "<<"),
        (BinaryOperator::ShiftRight, ">>"),
        (BinaryOperator::ShiftRightZeroFill, ">>>"),
        (BinaryOperator::Addition, "+"),
        (BinaryOperator::Subtraction, "-"),
        (BinaryOperator::Multiplication, "*"),
        (BinaryOperator::Division, "/"),
        (BinaryOperator::Remainder, "%"),
        (BinaryOperator::BitwiseOR, "|"),
        (BinaryOperator::BitwiseXOR, "^"),
        (BinaryOperator::BitwiseAnd, "&"),
        (BinaryOperator::In, "in"),
        (BinaryOperator::Instanceof, "instanceof"),
        (BinaryOperator::Exponential, "**"),
    ];
    for (operator, text) in table {
        assert_eq!(operator.as_str(), text);
        assert_eq!(render_expr(80, binary(id("a"), operator, id("b"))), format!("a {} b", text));
    }
}

#[test]
fn operator_texts() {
    assert_eq!(AssignmentOperator::ShiftRightZeroFill.as_str(), ">>>=");
    assert_eq!(AssignmentOperator::LogicalNullish.as_str(), "??=");
    assert_eq!(AssignmentOperator::Exponential.as_str(), "**=");
    assert_eq!(LogicalOperator::Coalesce.as_str(), "??");
    assert_eq!(UnaryOperator::Typeof.as_str(), "typeof");
    assert_eq!(UnaryOperator::BitwiseNot.as_str(), "~");
    assert_eq!(UpdateOperator::Decrement.as_str(), "--");
    assert!(UnaryOperator::Void.is_keyword());
    assert!(!UnaryOperator::LogicalNot.is_keyword());
}

#[test]
fn private_in_expression() {
    let expr = Expression::PrivateInExpression(Box::new(PrivateInExpression {
        left: PrivateIdentifier { name: "x".to_string() },
        right: id("obj"),
    }));
    assert_eq!(render_expr(80, expr), "#x in obj");
}

#[test]
fn ternary_on_one_line() {
    assert_eq!(render_expr(80, cond(id("a"), id("b"), id("c"))), "a ? b : c");
}

#[test]
fn ternary_chain_is_flat_and_aligned() {
    let chain = cond(id("a"), id("b"), cond(id("c"), id("d"), id("e")));
    assert_eq!(render_expr(80, chain), "a ? b : c ? d : e");
    let chain = cond(id("aaaa"), id("bbbb"), cond(id("cccc"), id("dddd"), id("eeee")));
    assert_eq!(render_expr(12, chain), "aaaa\n  ? bbbb\n  : cccc\n  ? dddd\n  : eeee");
}

#[test]
fn ternary_operands_get_brackets_where_needed() {
    let test = cond(id("a"), id("b"), id("c"));
    assert_eq!(render_expr(80, cond(test, id("d"), id("e"))), "(a ? b : c) ? d : e");
    let sequence = Expression::SequenceExpression(Box::new(SequenceExpression {
        expressions: vec![id("x"), id("y")],
    }));
    assert_eq!(render_expr(80, cond(id("a"), sequence, id("c"))), "a ? (x, y) : c");
    let inner = cond(id("b"), id("c"), id("d"));
    assert_eq!(render_expr(80, cond(id("a"), inner, id("e"))), "a ? b ? c : d : e");
}

#[test]
fn array_that_fits() {
    assert_eq!(render(80, vec![stmt(array(vec![num("1"), num("2"), num("3")]))]), "[1, 2, 3];");
}

#[test]
fn array_that_breaks() {
    assert_eq!(
        render(5, vec![stmt(array(vec![num("1"), num("2"), num("3")]))]),
        "[\n  1,\n  2,\n  3,\n];"
    );
}

#[test]
fn empty_array_and_holes() {
    assert_eq!(render_expr(80, array(vec![])), "[]");
    let holes = Expression::ArrayExpression(Box::new(ArrayExpression {
        elements: vec![
            ArrayExpressionElement::Elision,
            ArrayExpressionElement::Expression(id("a")),
            ArrayExpressionElement::SpreadElement(SpreadElement { argument: id("b") }),
        ],
    }));
    assert_eq!(render_expr(80, holes), "[, a, ...b]");
}

#[test]
fn object_that_fits() {
    assert_eq!(render_expr(80, object(vec![prop("a", num("1")), prop("b", num("2"))])), "{ a: 1, b: 2 }");
    assert_eq!(render_expr(80, object(vec![])), "{}");
}

#[test]
fn object_that_breaks() {
    assert_eq!(
        render_expr(10, object(vec![prop("a", num("1")), prop("b", num("2"))])),
        "{\n  a: 1,\n  b: 2,\n}"
    );
}

#[test]
fn object_property_forms() {
    let shorthand = ObjectPropertyKind::ObjectProperty(ObjectProperty {
        key: PropertyKey::Identifier(IdentifierName { name: "a".to_string() }),
        value: id("a"),
        shorthand: true,
        computed: false,
    });
    let computed = ObjectPropertyKind::ObjectProperty(ObjectProperty {
        key: PropertyKey::Expression(id("k")),
        value: num("1"),
        shorthand: false,
        computed: true,
    });
    let quoted = ObjectPropertyKind::ObjectProperty(ObjectProperty {
        key: PropertyKey::Expression(string("x y")),
        value: num("2"),
        shorthand: false,
        computed: false,
    });
    let spread = ObjectPropertyKind::SpreadProperty(SpreadElement { argument: id("rest") });
    assert_eq!(
        render_expr(80, object(vec![shorthand, computed, quoted, spread])),
        "{ a, [k]: 1, \"x y\": 2, ...rest }"
    );
}

#[test]
fn object_statement_gets_brackets() {
    assert_eq!(render(80, vec![stmt(object(vec![]))]), "({});");
}

#[test]
fn call_without_arguments() {
    assert_eq!(render_expr(80, call(id("f"), vec![])), "f()");
}

#[test]
fn call_arguments_that_fit() {
    assert_eq!(render_expr(80, call(id("f"), vec![id("a"), num("1")])), "f(a, 1)");
}

#[test]
fn call_arguments_that_break() {
    let expr = call(id("f"), vec![id("aaaa"), call(id("g"), vec![])]);
    assert_eq!(render_expr(8, expr), "f(\n  aaaa,\n  g(),\n)");
}

#[test]
fn last_argument_is_hugged() {
    let expr = call(id("f"), vec![id("a"), object(vec![prop("bbbb", num("1")), prop("cc", num("2"))])]);
    assert_eq!(render_expr(80, expr), "f(a, { bbbb: 1, cc: 2 })");
    let expr = call(id("f"), vec![id("a"), object(vec![prop("bbbb", num("1")), prop("cc", num("2"))])]);
    assert_eq!(render_expr(12, expr), "f(a, {\n  bbbb: 1,\n  cc: 2,\n})");
    let expr = call(id("f"), vec![array(vec![num("1"), num("2"), num("3")])]);
    assert_eq!(render_expr(6, expr), "f([\n  1,\n  2,\n  3,\n])");
}

#[test]
fn last_argument_is_not_hugged_after_a_complex_one() {
    let expr = call(id("f"), vec![call(id("g"), vec![]), array(vec![num("1"), num("2")])]);
    assert_eq!(render_expr(80, expr), "f(g(), [1, 2])");
    let expr = call(id("f"), vec![call(id("g"), vec![]), array(vec![num("1"), num("2")])]);
    assert_eq!(render_expr(10, expr), "f(\n  g(),\n  [1, 2],\n)");
}

#[test]
fn arrow_as_last_argument_is_hugged() {
    let expr = call(id("f"), vec![arrow(vec!["x"], add(id("x"), num("1")))]);
    assert_eq!(render_expr(80, expr), "f((x) => x + 1)");
}

#[test]
fn member_chain_on_one_line() {
    let expr = call(member(call(member(id("a"), "b"), vec![]), "c"), vec![id("d")]);
    assert_eq!(render_expr(80, expr), "a.b().c(d)");
}

#[test]
fn member_chain_breaks_before_every_segment() {
    let expr = call(member(call(member(id("aaaa"), "bbbb"), vec![]), "cccc"), vec![id("d")]);
    assert_eq!(render_expr(12, expr), "aaaa\n  .bbbb()\n  .cccc(d)");
    let longer = call(member(call(member(call(member(id("aaaa"), "bbbb"), vec![]), "cccc"), vec![id("d")]), "eeee"), vec![]);
    assert_eq!(render_expr(12, longer), "aaaa\n  .bbbb()\n  .cccc(d)\n  .eeee()");
}

#[test]
fn calls_on_the_head_stay_with_it() {
    let expr = member(call(call(id("f"), vec![id("a")]), vec![id("b")]), "c");
    assert_eq!(render_expr(80, expr), "f(a)(b).c");
}

#[test]
fn computed_and_private_and_optional_access() {
    let computed = Expression::MemberExpression(Box::new(MemberExpression::ComputedMemberExpression(
        ComputedMemberExpression { object: id("a"), expression: num("0"), optional: false },
    )));
    assert_eq!(render_expr(80, computed), "a[0]");
    let optional = Expression::MemberExpression(Box::new(MemberExpression::ComputedMemberExpression(
        ComputedMemberExpression { object: id("a"), expression: num("0"), optional: true },
    )));
    assert_eq!(render_expr(80, optional), "a?.[0]");
    let private = Expression::MemberExpression(Box::new(MemberExpression::PrivateFieldExpression(
        PrivateFieldExpression {
            object: Expression::ThisExpression,
            field: PrivateIdentifier { name: "x".to_string() },
            optional: false,
        },
    )));
    assert_eq!(render_expr(80, private), "this.#x");
    let chained = Expression::ChainExpression(Box::new(ChainExpression {
        expression: ChainElement::CallExpression(Box::new(CallExpression {
            callee: Expression::MemberExpression(Box::new(MemberExpression::StaticMemberExpression(
                StaticMemberExpression {
                    object: id("a"),
                    property: IdentifierName { name: "b".to_string() },
                    optional: true,
                },
            ))),
            arguments: vec![],
            optional: true,
        })),
    }));
    assert_eq!(render_expr(80, chained), "a?.b?.()");
}

#[test]
fn head_of_a_chain_gets_brackets_where_needed() {
    assert_eq!(render_expr(80, member(add(id("a"), id("b")), "c")), "(a + b).c");
    let iife = call(Expression::FunctionExpression(Box::new(function(None, vec![], vec![]))), vec![]);
    assert_eq!(render_expr(80, iife), "(function() {})()");
    assert_eq!(render_expr(80, call(arrow(vec![], num("1")), vec![])), "(() => 1)()");
}

#[test]
fn new_expression() {
    let expr = Expression::NewExpression(Box::new(NewExpression {
        callee: id("Foo"),
        arguments: args(vec![id("a")]),
    }));
    assert_eq!(render_expr(80, expr), "new Foo(a)");
    let expr = Expression::NewExpression(Box::new(NewExpression {
        callee: call(id("f"), vec![]),
        arguments: vec![],
    }));
    assert_eq!(render_expr(80, expr), "new (f())()");
    let expr = member(
        Expression::NewExpression(Box::new(NewExpression { callee: id("Foo"), arguments: vec![] })),
        "bar",
    );
    assert_eq!(render_expr(80, expr), "new Foo().bar");
}

#[test]
fn spread_argument() {
    let expr = Expression::CallExpression(Box::new(CallExpression {
        callee: id("f"),
        arguments: vec![Argument::SpreadElement(SpreadElement { argument: id("xs") })],
        optional: false,
    }));
    assert_eq!(render_expr(80, expr), "f(...xs)");
}

#[test]
fn string_literal_with_single_quotes() {
    let single = PrettierOptions::new(80, 2, true, true).unwrap();
    assert_eq!(render_with("", single, vec![stmt(string("it's"))]), "'it\\'s';");
}

#[test]
fn string_literal_with_double_quotes() {
    assert_eq!(render(80, vec![stmt(string("it's"))]), "\"it's\";");
    assert_eq!(render(80, vec![stmt(string("say \"hi\""))]), "\"say \\\"hi\\\"\";");
}

#[test]
fn string_literal_escapes_backslash_and_line_ends() {
    assert_eq!(render_expr(80, string("a\\b\nc\rd")), "\"a\\\\b\\nc\\rd\"");
    assert_eq!(render_expr(80, string("")), "\"\"");
}

#[test]
fn statement_without_semicolon() {
    let bare = PrettierOptions::new(80, 2, false, false).unwrap();
    assert_eq!(render_with("", bare, vec![stmt(call(id("f"), vec![]))]), "f()");
    assert_eq!(render(80, vec![stmt(call(id("f"), vec![]))]), "f();");
}

#[test]
fn semicolon_option_reaches_every_statement() {
    let bare = PrettierOptions::new(80, 2, false, false).unwrap();
    let body = || {
        vec![
            var(VariableDeclarationKind::Let, vec![("a", Some(num("1")))]),
            Statement::DebuggerStatement,
            Statement::BreakStatement(Box::new(BreakStatement { label: None })),
            Statement::ContinueStatement(Box::new(ContinueStatement {
                label: Some(LabelIdentifier { name: "top".to_string() }),
            })),
            ret(Some(id("a"))),
            Statement::ThrowStatement(Box::new(ThrowStatement { argument: id("e") })),
        ]
    };
    assert_eq!(
        render_with("", bare, body()),
        "let a = 1\ndebugger\nbreak\ncontinue top\nreturn a\nthrow e"
    );
    assert_eq!(
        render(80, body()),
        "let a = 1;\ndebugger;\nbreak;\ncontinue top;\nreturn a;\nthrow e;"
    );
}

#[test]
fn literals() {
    assert_eq!(render_expr(80, Expression::BooleanLiteral(BooleanLiteral { value: true })), "true");
    assert_eq!(render_expr(80, Expression::BooleanLiteral(BooleanLiteral { value: false })), "false");
    assert_eq!(render_expr(80, Expression::NullLiteral), "null");
    assert_eq!(render_expr(80, Expression::ThisExpression), "this");
    assert_eq!(render_expr(80, Expression::Super), "super");
}

#[test]
fn number_is_lower_case_with_a_leading_zero() {
    assert_eq!(render_expr(80, num("0XAB")), "0xab");
    assert_eq!(render_expr(80, num("1E5")), "1e5");
    assert_eq!(render_expr(80, num(".5")), "0.5");
    assert_eq!(render_expr(80, num("42")), "42");
}

#[test]
fn bigint_is_cut_out_of_the_source() {
    let source = "x = 0XFFN;";
    let p = Prettier::new(source, options(80));
    let lit = Expression::BigintLiteral(BigintLiteral { span: Span { start: 4, end: 9 } });
    assert_eq!(print(&lit.format(&p), &p.options).unwrap(), "0xffn");
}

#[test]
fn bigint_after_wide_characters() {
    let source = "é = 10N";
    let p = Prettier::new(source, options(80));
    let lit = Expression::BigintLiteral(BigintLiteral { span: Span { start: 5, end: 8 } });
    assert_eq!(print(&lit.format(&p), &p.options).unwrap(), "10n");
}

#[test]
fn bigint_outside_the_source_is_marked() {
    let p = Prettier::new("é1n", options(80));
    for span in [Span { start: 2, end: 9 }, Span { start: 1, end: 3 }, Span { start: 3, end: 2 }] {
        let lit = Expression::BigintLiteral(BigintLiteral { span });
        assert_eq!(print(&lit.format(&p), &p.options).unwrap(), "/* unsupported */");
    }
}

#[test]
fn regexp_flags_are_in_alphabetical_order() {
    let all = RegExpFlags {
        has_indices: true,
        global: true,
        ignore_case: true,
        multiline: true,
        dot_all: true,
        unicode: true,
        unicode_sets: true,
        sticky: true,
    };
    let lit = Expression::RegExpLiteral(RegExpLiteral { pattern: "a+".to_string(), flags: all });
    assert_eq!(render_expr(80, lit), "/a+/dgimsuvy");
    let some = RegExpFlags {
        has_indices: false,
        global: true,
        ignore_case: false,
        multiline: false,
        dot_all: false,
        unicode: true,
        unicode_sets: false,
        sticky: true,
    };
    let lit = Expression::RegExpLiteral(RegExpLiteral { pattern: "b".to_string(), flags: some });
    assert_eq!(render_expr(80, lit), "/b/guy");
}

#[test]
fn unary_and_update() {
    let typeof_x = Expression::UnaryExpression(Box::new(UnaryExpression {
        operator: UnaryOperator::Typeof,
        argument: id("x"),
    }));
    assert_eq!(render_expr(80, typeof_x), "typeof x");
    let not_sum = Expression::UnaryExpression(Box::new(UnaryExpression {
        operator: UnaryOperator::LogicalNot,
        argument: add(id("a"), id("b")),
    }));
    assert_eq!(render_expr(80, not_sum), "!(a + b)");
    let minus = |argument| {
        Expression::UnaryExpression(Box::new(UnaryExpression {
            operator: UnaryOperator::UnaryNegation,
            argument,
        }))
    };
    assert_eq!(render_expr(80, minus(minus(id("x")))), "-(-x)");
    let update = |prefix| {
        Expression::UpdateExpression(Box::new(UpdateExpression {
            operator: UpdateOperator::Increment,
            prefix,
            argument: SimpleAssignmentTarget::AssignmentTargetIdentifier(IdentifierReference {
                name: "i".to_string(),
            }),
        }))
    };
    assert_eq!(render_expr(80, update(true)), "++i");
    assert_eq!(render_expr(80, update(false)), "i++");
    assert_eq!(render_expr(80, minus(update(true))), "-(++i)");
}

#[test]
fn assignment_and_sequence() {
    let assign = |right| {
        Expression::AssignmentExpression(Box::new(AssignmentExpression {
            operator: AssignmentOperator::Addition,
            left: AssignmentTarget::SimpleAssignmentTarget(
                SimpleAssignmentTarget::AssignmentTargetIdentifier(IdentifierReference {
                    name: "a".to_string(),
                }),
            ),
            right,
        }))
    };
    assert_eq!(render_expr(80, assign(num("1"))), "a += 1");
    let sequence = || {
        Expression::SequenceExpression(Box::new(SequenceExpression {
            expressions: vec![id("x"), id("y")],
        }))
    };
    assert_eq!(render_expr(80, sequence()), "x, y");
    assert_eq!(render_expr(80, assign(sequence())), "a += (x, y)");
}

#[test]
fn yield_await_and_meta_property() {
    let delegate = Expression::YieldExpression(Box::new(YieldExpression {
        delegate: true,
        argument: Some(id("xs")),
    }));
    assert_eq!(render_expr(80, delegate), "yield* xs");
    let bare = Expression::YieldExpression(Box::new(YieldExpression { delegate: false, argument: None }));
    assert_eq!(render_expr(80, bare), "yield");
    let awaited = Expression::AwaitExpression(Box::new(AwaitExpression { argument: add(id("a"), id("b")) }));
    assert_eq!(render_expr(80, awaited), "await (a + b)");
    let meta = Expression::MetaProperty(MetaProperty {
        meta: IdentifierName { name: "import".to_string() },
        property: IdentifierName { name: "meta".to_string() },
    });
    assert_eq!(render_expr(80, meta), "import.meta");
}

#[test]
fn parenthesized_and_type_wrapped() {
    assert_eq!(render_expr(80, paren(id("a"))), "(a)");
    assert_eq!(render_expr(80, Expression::TypeWrapped(Box::new(id("a")))), "a");
}

#[test]
fn uncovered_constructs_are_marked() {
    assert_eq!(render_expr(80, Expression::Unsupported), "/* unsupported */");
    assert_eq!(render(80, vec![Statement::Unsupported]), "/* unsupported */");
    assert_eq!(
        render(80, vec![Statement::Declaration(Declaration::Unsupported)]),
        "/* unsupported */"
    );
}

#[test]
fn statements_stand_one_per_line() {
    let body = vec![stmt(id("a")), Statement::EmptyStatement, stmt(id("b"))];
    assert_eq!(render(80, body), "a;\nb;");
}

#[test]
fn empty_program_is_empty_text() {
    assert_eq!(render(80, vec![]), "");
    assert_eq!(render(80, vec![Statement::EmptyStatement]), "");
}

#[test]
fn directives_come_first() {
    let program = Program {
        directives: vec![Directive { directive: "use strict".to_string() }],
        body: vec![stmt(id("a"))],
    };
    let p = Prettier::new("", options(80));
    assert_eq!(p.build(&program), Ok("\"use strict\";\na;".to_string()));
    let single = Prettier::new("", PrettierOptions::new(80, 2, false, true).unwrap());
    let only = Program {
        directives: vec![Directive { directive: "use strict".to_string() }],
        body: vec![],
    };
    assert_eq!(single.build(&only), Ok("'use strict'".to_string()));
}

#[test]
fn blocks() {
    assert_eq!(render(80, vec![block(vec![])]), "{}");
    assert_eq!(render(80, vec![block(vec![Statement::EmptyStatement])]), "{}");
    assert_eq!(
        render(80, vec![block(vec![stmt(id("a")), block(vec![stmt(id("b"))])])]),
        "{\n  a;\n  {\n    b;\n  }\n}"
    );
}

#[test]
fn variable_declarations() {
    assert_eq!(render(80, vec![var(VariableDeclarationKind::Var, vec![("a", None)])]), "var a;");
    let two = || var(VariableDeclarationKind::Const, vec![("aaa", Some(num("1"))), ("bbb", Some(num("2")))]);
    assert_eq!(render(80, vec![two()]), "const aaa = 1, bbb = 2;");
    assert_eq!(render(12, vec![two()]), "const aaa = 1,\n  bbb = 2;");
}

#[test]
fn function_declaration() {
    let declaration = Statement::Declaration(Declaration::FunctionDeclaration(Box::new(function(
        Some("f"),
        vec!["a", "b"],
        vec![ret(Some(add(id("a"), id("b"))))],
    ))));
    assert_eq!(render(80, vec![declaration]), "function f(a, b) {\n  return a + b;\n}");
}

#[test]
fn function_forms() {
    let generator = Function {
        id: Some(BindingIdentifier { span: Span { start: 0, end: 0 }, name: "g".to_string() }),
        generator: true,
        is_async: true,
        params: FormalParameters {
            items: vec![FormalParameter { pattern: binding("a") }],
            rest: Some(RestElement { argument: Box::new(binding("more")) }),
        },
        body: Some(FunctionBody {
            directives: vec![Directive { directive: "use strict".to_string() }],
            statements: vec![],
        }),
    };
    assert_eq!(
        render(80, vec![Statement::Declaration(Declaration::FunctionDeclaration(Box::new(generator)))]),
        "async function* g(a, ...more) {\n  \"use strict\";\n}"
    );
}

#[test]
fn parameters_that_break() {
    let declaration = Statement::Declaration(Declaration::FunctionDeclaration(Box::new(function(
        Some("f"),
        vec!["aaaa", "bbbb"],
        vec![],
    ))));
    assert_eq!(render(12, vec![declaration]), "function f(\n  aaaa,\n  bbbb,\n) {}");
}

#[test]
fn arrow_functions() {
    assert_eq!(render_expr(80, arrow(vec!["x"], id("x"))), "(x) => x");
    assert_eq!(render_expr(80, arrow(vec![], object(vec![]))), "() => ({})");
    let with_block = Expression::ArrowExpression(Box::new(ArrowExpression {
        expression: false,
        is_async: true,
        params: params(vec![]),
        body: body(vec![ret(None)]),
    }));
    assert_eq!(render_expr(80, with_block), "async () => {\n  return;\n}");
}

#[test]
fn destructuring_patterns() {
    let pattern = BindingPattern {
        kind: BindingPatternKind::ObjectPattern(Box::new(ObjectPattern {
            properties: vec![
                BindingProperty {
                    key: PropertyKey::Identifier(IdentifierName { name: "a".to_string() }),
                    value: binding("a"),
                    shorthand: true,
                    computed: false,
                },
                BindingProperty {
                    key: PropertyKey::Identifier(IdentifierName { name: "b".to_string() }),
                    value: binding("c"),
                    shorthand: false,
                    computed: false,
                },
            ],
            rest: Some(RestElement { argument: Box::new(binding("others")) }),
        })),
    };
    let declaration = Statement::Declaration(Declaration::VariableDeclaration(Box::new(
        VariableDeclaration {
            kind: VariableDeclarationKind::Const,
            declarations: vec![VariableDeclarator { id: pattern, init: Some(id("o")) }],
        },
    )));
    assert_eq!(render(80, vec![declaration]), "const { a, b: c, ...others } = o;");
}

#[test]
fn classes() {
    let plain = Class {
        id: Some(BindingIdentifier { span: Span { start: 0, end: 0 }, name: "A".to_string() }),
        super_class: Some(id("B")),
        body: ClassBody { body: vec![] },
    };
    assert_eq!(
        render(80, vec![Statement::Declaration(Declaration::ClassDeclaration(Box::new(plain)))]),
        "class A extends B {}"
    );
    let with_elements = Class {
        id: None,
        super_class: None,
        body: ClassBody {
            body: vec![
                ClassElement::StaticBlock(StaticBlock { body: vec![stmt(id("a"))] }),
                ClassElement::Unsupported,
            ],
        },
    };
    assert_eq!(
        render_expr(80, Expression::ClassExpression(Box::new(with_elements))),
        "class {\n  static {\n    a;\n  }\n  /* unsupported */\n}"
    );
}

#[test]
fn switch_statement() {
    let statement = Statement::SwitchStatement(Box::new(SwitchStatement {
        discriminant: id("x"),
        cases: vec![
            SwitchCase {
                test: Some(num("1")),
                consequent: vec![
                    stmt(call(id("a"), vec![])),
                    Statement::BreakStatement(Box::new(BreakStatement { label: None })),
                ],
            },
            SwitchCase { test: Some(num("2")), consequent: vec![] },
            SwitchCase { test: None, consequent: vec![stmt(call(id("b"), vec![]))] },
        ],
    }));
    assert_eq!(
        render(80, vec![statement]),
        "switch (x) {\n  case 1:\n    a();\n    break;\n  case 2:\n  default:\n    b();\n}"
    );
    let empty = Statement::SwitchStatement(Box::new(SwitchStatement { discriminant: id("x"), cases: vec![] }));
    assert_eq!(render(80, vec![empty]), "switch (x) {\n}");
}

#[test]
fn try_catch_finally() {
    let statement = Statement::TryStatement(Box::new(TryStatement {
        block: BlockStatement { body: vec![stmt(call(id("a"), vec![]))] },
        handler: Some(CatchClause {
            param: Some(binding("e")),
            body: BlockStatement { body: vec![] },
        }),
        finalizer: Some(BlockStatement { body: vec![stmt(call(id("c"), vec![]))] }),
    }));
    assert_eq!(render(80, vec![statement]), "try {\n  a();\n} catch (e) {} finally {\n  c();\n}");
    let bare = Statement::TryStatement(Box::new(TryStatement {
        block: BlockStatement { body: vec![] },
        handler: Some(CatchClause { param: None, body: BlockStatement { body: vec![] } }),
        finalizer: None,
    }));
    assert_eq!(render(80, vec![bare]), "try {} catch {}");
}

#[test]
fn with_statement() {
    let statement = Statement::WithStatement(Box::new(WithStatement {
        object: id("o"),
        body: block(vec![stmt(id("a"))]),
    }));
    assert_eq!(render(80, vec![statement]), "with (o) {\n  a;\n}");
}

#[test]
fn imports() {
    let local = |name: &str, start: u32| BindingIdentifier {
        span: Span { start, end: start + 1 },
        name: name.to_string(),
    };
    let import = |specifiers, is_type| {
        Statement::ModuleDeclaration(Box::new(ModuleDeclaration::ImportDeclaration(Box::new(
            ImportDeclaration {
                specifiers,
                source: StringLiteral { value: "m".to_string() },
                is_type,
            },
        ))))
    };
    assert_eq!(render(80, vec![import(None, false)]), "import \"m\";");
    assert_eq!(render(80, vec![import(Some(vec![]), false)]), "import {} from \"m\";");
    let named = vec![
        ImportDeclarationSpecifier::ImportSpecifier(ImportSpecifier {
            imported: ModuleExportName { span: Span { start: 9, end: 10 }, name: "a".to_string() },
            local: local("a", 9),
        }),
        ImportDeclarationSpecifier::ImportSpecifier(ImportSpecifier {
            imported: ModuleExportName { span: Span { start: 12, end: 13 }, name: "b".to_string() },
            local: local("c", 17),
        }),
    ];
    assert_eq!(render(80, vec![import(Some(named), true)]), "import type { a, b as c } from \"m\";");
    let mixed = vec![
        ImportDeclarationSpecifier::ImportDefaultSpecifier(ImportDefaultSpecifier { local: local("d", 7) }),
        ImportDeclarationSpecifier::ImportSpecifier(ImportSpecifier {
            imported: ModuleExportName { span: Span { start: 12, end: 13 }, name: "e".to_string() },
            local: local("e", 12),
        }),
    ];
    assert_eq!(render(80, vec![import(Some(mixed), false)]), "import d, { e } from \"m\";");
    let namespace = vec![ImportDeclarationSpecifier::ImportNamespaceSpecifier(
        ImportNamespaceSpecifier { local: local("ns", 12) },
    )];
    assert_eq!(render(80, vec![import(Some(namespace), false)]), "import * as ns from \"m\";");
}

#[test]
fn exports() {
    let default = Statement::ModuleDeclaration(Box::new(ModuleDeclaration::ExportDefaultDeclaration(
        Box::new(ExportDefaultDeclaration {
            declaration: ExportDefaultDeclarationKind::Expression(id("a")),
        }),
    )));
    assert_eq!(render(80, vec![default]), "export default a;");
    let named = Statement::ModuleDeclaration(Box::new(ModuleDeclaration::ExportNamedDeclaration(
        Box::new(ExportNamedDeclaration {
            declaration: Some(Declaration::FunctionDeclaration(Box::new(function(
                Some("f"),
                vec![],
                vec![],
            )))),
        }),
    )));
    assert_eq!(render(80, vec![named]), "export function f() {}");
    let other = Statement::ModuleDeclaration(Box::new(ModuleDeclaration::Unsupported));
    assert_eq!(render(80, vec![other]), "/* unsupported */");
}

#[test]
fn format_of_a_node_is_its_document() {
    let p = Prettier::new("", options(80));
    let lit = StringLiteral { value: "a".to_string() };
    assert_eq!(print(&lit.format(&p), &p.options), Ok("\"a\"".to_string()));
    let statement = if_else();
    let doc = statement.format(&p);
    assert_eq!(print(&doc, &p.options), Ok("if (x) {\n  y();\n} else {\n  z();\n}".to_string()));
}

#[test]
fn formatting_the_same_tree_again_changes_nothing() {
    let first = render(80, vec![if_else()]);
    assert_eq!(first, "if (x) {\n  y();\n} else {\n  z();\n}");
    let again = render(80, vec![if_else()]);
    assert_eq!(again, first);
    let narrow = render(13, vec![stmt(chain_abcd())]);
    assert_eq!(render(13, vec![stmt(chain_abcd())]), narrow);
}

#[test]
fn nested_literals_in_a_declaration() {
    let nested = object(vec![
        prop("a", object(vec![prop("b", num("1"))])),
        prop("c", array(vec![num("1"), num("2")])),
    ]);
    assert_eq!(
        render(12, vec![var(VariableDeclarationKind::Let, vec![("o", Some(nested))])]),
        "let o = {\n  a: {\n    b: 1,\n  },\n  c: [1, 2],\n};"
    );
}

#[test]
fn awaited_chain_with_a_hugged_arrow() {
    let fetch = call(
        member(call(id("fetch"), vec![id("url")]), "then"),
        vec![arrow(vec!["r"], call(member(id("r"), "json"), vec![]))],
    );
    let awaited = Expression::AwaitExpression(Box::new(AwaitExpression { argument: fetch }));
    assert_eq!(
        render(80, vec![var(VariableDeclarationKind::Const, vec![("result", Some(awaited))])]),
        "const result = await fetch(url).then((r) => r.json());"
    );
}

#[test]
fn arguments_break_one_per_line() {
    let expr = call(id("callback"), vec![id("first"), id("second"), call(id("third"), vec![id("x")])]);
    assert_eq!(
        render(30, vec![stmt(expr)]),
        "callback(\n  first,\n  second,\n  third(x),\n);"
    );
}

#[test]
fn returned_chain_breaks_before_every_operator() {
    let chain = logical(
        logical(id("aaaaaa"), LogicalOperator::And, id("bbbbbb")),
        LogicalOperator::And,
        call(id("cccc"), vec![id("d")]),
    );
    assert_eq!(render(20, vec![ret(Some(chain))]), "return aaaaaa\n  && bbbbbb\n  && cccc(d);");
}

#[test]
fn format_of_a_member_access_is_its_chain() {
    let p = Prettier::new("", options(80));
    let access = StaticMemberExpression {
        object: call(id("f"), vec![]),
        property: IdentifierName { name: "g".to_string() },
        optional: false,
    };
    assert_eq!(print(&access.format(&p), &p.options), Ok("f().g".to_string()));
    let key = PropertyKey::PrivateIdentifier(PrivateIdentifier { name: "k".to_string() });
    assert_eq!(print(&key.format(&p), &p.options), Ok("#k".to_string()));
    let target = AssignmentTarget::AssignmentTargetPattern(
        oxc_prettier::ast::AssignmentTargetPattern::ArrayAssignmentTarget,
    );
    assert_eq!(print(&target.format(&p), &p.options), Ok("/* unsupported */".to_string()));
}
