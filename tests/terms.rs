use baik::binary::Operator as BinaryOperator;
use baik::unary::Operator as UnaryOperator;
use baik::{climb, Clause, Function, InputLocation, Location, NodeType, ParseError, ParseNode, Rule, Term, Value};

fn node(rule: Rule, start: usize, text: &str, children: Vec<ParseNode>) -> ParseNode {
    ParseNode { rule, start, end: start + text.len(), text: text.to_string(), children }
}

fn leaf(rule: Rule, start: usize, text: &str) -> ParseNode {
    node(rule, start, text, vec![])
}

fn int_node(start: usize, digits: &str) -> ParseNode {
    node(Rule::integer, start, digits, vec![leaf(Rule::integer_decimal, start, digits)])
}

fn string(start: usize, quoted: &str) -> ParseNode {
    let content = &quoted[1..quoted.len() - 1];
    node(Rule::string, start, quoted, vec![leaf(Rule::string_content, start + 1, content)])
}

fn argument(inner: ParseNode) -> ParseNode {
    let (start, end) = (inner.start, inner.end);
    ParseNode { rule: Rule::call_argument, start, end, text: inner.text.clone(), children: vec![inner] }
}

fn op(rule: Rule, start: usize, text: &str) -> ParseNode {
    leaf(rule, start, text)
}

fn infix(start: usize, text: &str, children: Vec<ParseNode>) -> ParseNode {
    node(Rule::infix, start, text, children)
}

fn block(start: usize, text: &str, children: Vec<ParseNode>) -> ParseNode {
    node(Rule::block, start, text, children)
}

/// What the grammar gives for a whole input: the statement, then the end marker.
fn input(statement: ParseNode) -> Vec<Term> {
    let end = statement.end;
    Term::input(&vec![statement, leaf(Rule::EOI, end, "")]).unwrap()
}

fn shape(t: &Term) -> String {
    format!("{:?}", t)
}

#[test]
fn term_test_array() {
    // [ 1, :two, "three" ]
    let tree = node(
        Rule::array,
        0,
        "[ 1, :two, \"three\" ]",
        vec![int_node(2, "1"), leaf(Rule::atom, 5, ":two"), string(11, "\"three\"")],
    );
    let terms = input(tree);
    assert_eq!(terms[0].node_type(), NodeType::Array);
    let array = terms[0].array().unwrap();
    assert_eq!(array[0].integer().unwrap().value_ref(), &1);
    assert_eq!(array[1].atom().unwrap().value_ref(), "two");
    assert_eq!(array[2].string().unwrap().value_ref(), "three");
    assert_eq!(array.len(), 3);
}

#[test]
fn test_array_empty() {
    let terms = input(node(Rule::array, 0, "[]", vec![]));
    let array = terms[0].array().unwrap();
    assert_eq!(array.len(), 0);
}

#[test]
fn test_atom() {
    let terms = input(leaf(Rule::atom, 0, ":baik"));
    assert_eq!(terms[0].node_type(), NodeType::Atom);
    let term = terms[0].atom().unwrap();
    assert_eq!(term.value_ref(), "baik");
}

fn one_times_two_plus_three_over_four() -> ParseNode {
    // 1 * 2 + 3 / 4
    infix(
        0,
        "1 * 2 + 3 / 4",
        vec![
            int_node(0, "1"),
            op(Rule::multiply, 2, "*"),
            int_node(4, "2"),
            op(Rule::plus, 6, "+"),
            int_node(8, "3"),
            op(Rule::divide, 10, "/"),
            int_node(12, "4"),
        ],
    )
}

#[test]
fn test_binary() {
    let terms = input(one_times_two_plus_three_over_four());
    assert_eq!(terms[0].node_type(), NodeType::Binary);

    let (op0, lhs0, rhs0) = terms[0].binary().unwrap();
    assert_eq!(op0.value_ref(), &BinaryOperator::Plus);

    let (op1, lhs1, rhs1) = lhs0.binary().unwrap();
    assert_eq!(op1.value_ref(), &BinaryOperator::Multiply);
    assert_eq!(lhs1.integer().unwrap().value_ref(), &1);
    assert_eq!(rhs1.integer().unwrap().value_ref(), &2);

    let (op2, lhs2, rhs2) = rhs0.binary().unwrap();
    assert_eq!(op2.value_ref(), &BinaryOperator::Divide);
    assert_eq!(lhs2.integer().unwrap().value_ref(), &3);
    assert_eq!(rhs2.integer().unwrap().value_ref(), &4);
}

#[test]
fn binary_term_stands_at_its_operator() {
    let terms = input(one_times_two_plus_three_over_four());
    assert_eq!(terms[0].location(), &InputLocation::Span(6, 7));
}

#[test]
fn test_boolean_true() {
    let terms = input(node(Rule::boolean, 0, "benar", vec![leaf(Rule::boolean_true, 0, "benar")]));
    assert_eq!(terms[0].node_type(), NodeType::Boolean);
    let term = terms[0].boolean().unwrap().clone();
    assert_eq!(term.value(), true);
}

#[test]
fn test_boolean_false() {
    let terms = input(node(Rule::boolean, 0, "salah", vec![leaf(Rule::boolean_false, 0, "salah")]));
    let term = terms[0].boolean().unwrap().clone();
    assert_eq!(term.value(), false);
}

#[test]
fn test_call() {
    // hello("Baik", "Lang")
    let tree = node(
        Rule::call_local,
        0,
        "hello(\"Baik\", \"Lang\")",
        vec![
            leaf(Rule::local, 0, "hello"),
            argument(string(6, "\"Baik\"")),
            argument(string(14, "\"Lang\"")),
        ],
    );
    let terms = input(tree);
    assert_eq!(terms[0].node_type(), NodeType::Call);
    let (callee, arguments) = terms[0].call().unwrap();
    let local = callee.local().unwrap();
    assert_eq!(local.value_ref(), "hello");
    assert_eq!(arguments[0].string().unwrap().value_ref(), "Baik");
    assert_eq!(arguments[1].string().unwrap().value_ref(), "Lang");
}

#[test]
fn test_call_no_args() {
    let terms = input(node(Rule::call_local, 0, "hello()", vec![leaf(Rule::local, 0, "hello")]));
    let (callee, arguments) = terms[0].call().unwrap();
    let local = callee.local().unwrap();
    assert_eq!(local.value_ref(), "hello");
    assert_eq!(arguments.len(), 0);
}

#[test]
fn call_rejects_a_bare_argument() {
    let tree = node(
        Rule::call_local,
        0,
        "hello(1)",
        vec![leaf(Rule::local, 0, "hello"), int_node(6, "1")],
    );
    match Term::input(&vec![tree]) {
        Err(ParseError::AstGeneration { rule, location }) => {
            assert_eq!(rule, Rule::integer);
            assert_eq!(location, InputLocation::Span(6, 7));
        }
        other => panic!("unexpected {:?}", other),
    }
}

#[test]
fn test_typename() {
    let terms = input(leaf(Rule::typename, 0, "Baik"));
    assert_eq!(terms[0].node_type(), NodeType::Ty);
    let term = terms[0].ty().unwrap().clone();
    assert_eq!(term.value(), "Baik");
}

#[test]
fn test_constructor_empty() {
    let terms = input(node(Rule::constructor, 0, "Character {}", vec![leaf(Rule::typename, 0, "Character")]));
    assert_eq!(terms[0].node_type(), NodeType::Constructor);
    let (ty, properties) = terms[0].constructor().unwrap();
    assert_eq!(ty.value_ref(), "Character");
    assert_eq!(properties.len(), 0);
}

#[test]
fn test_constructor() {
    // Character { name: "Baik Lang" }
    let property = node(
        Rule::constructor_property,
        12,
        "name: \"Baik Lang\"",
        vec![leaf(Rule::keyword, 12, "name:"), string(18, "\"Baik Lang\"")],
    );
    let tree = node(
        Rule::constructor,
        0,
        "Character { name: \"Baik Lang\" }",
        vec![leaf(Rule::typename, 0, "Character"), property],
    );
    let terms = input(tree);
    let (ty, properties) = terms[0].constructor().unwrap();
    assert_eq!(ty.value_ref(), "Character");
    assert_eq!(properties.len(), 1);
    let (key, value) = &properties[0];
    assert_eq!(key.value_ref(), "name");
    assert_eq!(value.string().unwrap().value_ref(), "Baik Lang");
}

#[test]
fn test_traitdef_with_bounds() {
    // trait Integer: Add + Subtract
    let bounds = node(
        Rule::typespec,
        15,
        "Add + Subtract",
        vec![leaf(Rule::typename, 15, "Add"), leaf(Rule::typename, 21, "Subtract")],
    );
    let tree = node(
        Rule::traitdef,
        0,
        "trait Integer: Add + Subtract",
        vec![
            leaf(Rule::typename, 6, "Integer"),
            node(Rule::traitbounds, 13, ": Add + Subtract", vec![bounds]),
            block(29, "", vec![]),
        ],
    );
    let terms = Term::file(&vec![tree, leaf(Rule::EOI, 29, "")]).unwrap();
    let (ty, reqs, body) = terms[0].traitdef().unwrap();
    assert_eq!(ty.value_ref(), "Integer");
    assert!(reqs.is_some());
    let reqs = reqs.unwrap();
    let tys = reqs.value_ref();
    assert_eq!(tys.len(), 2);
    assert_eq!(body.len(), 0);

    assert_eq!(tys[0].value_ref(), "Add");
    assert_eq!(tys[1].value_ref(), "Subtract");
}

#[test]
fn test_declaration() {
    // speed = 88
    let tree = node(
        Rule::declaration,
        0,
        "speed = 88",
        vec![leaf(Rule::ident, 0, "speed"), leaf(Rule::assign, 6, "="), int_node(8, "88")],
    );
    let terms = input(tree);
    assert_eq!(terms[0].node_type(), NodeType::Declaration);

    let (ident, value) = terms[0].declaration().unwrap();
    let value = value.integer().unwrap();
    assert_eq!(ident.value_ref(), "speed");
    assert_eq!(value.value_ref(), &88);
}

#[test]
fn declaration_needs_its_assignment() {
    let tree = node(
        Rule::declaration,
        0,
        "speed 88",
        vec![leaf(Rule::ident, 0, "speed"), leaf(Rule::local, 6, "x"), int_node(8, "88")],
    );
    assert!(matches!(
        Term::input(&vec![tree]),
        Err(ParseError::AstGeneration { rule: Rule::declaration, .. })
    ));
}

#[test]
fn test_float() {
    let terms = input(leaf(Rule::float, 0, "1.23"));
    assert_eq!(terms[0].node_type(), NodeType::Float);
    let node = terms[0].float().unwrap();
    let value: f64 = node.value_ref().parse().unwrap();
    assert!(value - 1.23 < std::f64::EPSILON);
}

#[test]
fn test_integer_decimal() {
    let terms = input(int_node(0, "123"));
    assert_eq!(terms[0].node_type(), NodeType::Integer);
    let node = terms[0].integer().unwrap();
    assert_eq!(node.value_ref(), &123);
    assert_eq!(node.radix(), 10);
}

#[test]
fn test_integer_hexadecimal() {
    let tree = node(Rule::integer, 0, "0x123", vec![leaf(Rule::integer_hexadecimal, 2, "123")]);
    let terms = input(tree);
    let node = terms[0].integer().unwrap();
    assert_eq!(node.value_ref(), &291);
    assert_eq!(node.radix(), 16);
}

#[test]
fn test_integer_octal() {
    let tree = node(Rule::integer, 0, "0o123", vec![leaf(Rule::integer_octal, 2, "123")]);
    let terms = input(tree);
    let node = terms[0].integer().unwrap();
    assert_eq!(node.value_ref(), &83);
    assert_eq!(node.radix(), 8);
}

#[test]
fn test_integer_binary() {
    let tree = node(Rule::integer, 0, "0b0101", vec![leaf(Rule::integer_binary, 2, "0101")]);
    let terms = input(tree);
    let node = terms[0].integer().unwrap();
    assert_eq!(node.value_ref(), &5);
    assert_eq!(node.radix(), 2);
}

#[test]
fn test_integer_zero() {
    let tree = node(Rule::integer, 0, "0", vec![leaf(Rule::integer_zero, 0, "0")]);
    let terms = input(tree);
    let node = terms[0].integer().unwrap();
    assert_eq!(node.value_ref(), &0);
    assert_eq!(node.radix(), 10);
}

#[test]
fn test_local() {
    let terms = input(leaf(Rule::local, 0, "baik"));
    assert_eq!(terms[0].node_type(), NodeType::Local);
    let node = terms[0].local().unwrap();
    assert_eq!(node.value_ref(), "baik");
}

#[test]
fn test_map() {
    // { baik: "Lang", "speed" => 88 }
    let first = node(
        Rule::map_pair,
        2,
        "baik: \"Lang\"",
        vec![leaf(Rule::keyword, 2, "baik:"), string(8, "\"Lang\"")],
    );
    let second = node(Rule::map_pair, 16, "\"speed\" => 88", vec![string(16, "\"speed\""), int_node(27, "88")]);
    let terms = input(node(Rule::map, 0, "{ baik: \"Lang\", \"speed\" => 88 }", vec![first, second]));
    assert_eq!(terms[0].node_type(), NodeType::Dictionary);

    let map = terms[0].map().unwrap();
    assert_eq!(map.len(), 2);

    let (key0, value0) = &map[0];
    assert_eq!(key0.atom().unwrap().value_ref(), "baik");
    assert_eq!(value0.string().unwrap().value_ref(), "Lang");

    let (key1, value1) = &map[1];
    assert_eq!(key1.string().unwrap().value_ref(), "speed");
    assert_eq!(value1.integer().unwrap().value_ref(), &88);
}

#[test]
fn test_map_empty() {
    let terms = input(node(Rule::map, 0, "{ }", vec![]));
    let map = terms[0].map().unwrap();
    assert_eq!(map.len(), 0);
}

#[test]
fn test_method_call() {
    // greeter.hello("Baik", "Lang")
    let tree = node(
        Rule::call_method,
        0,
        "greeter.hello(\"Baik\", \"Lang\")",
        vec![
            leaf(Rule::local, 0, "greeter"),
            leaf(Rule::ident, 8, "hello"),
            argument(string(14, "\"Baik\"")),
            argument(string(22, "\"Lang\"")),
        ],
    );
    let terms = input(tree);
    let (callee, method_name, arguments) = terms[0].method_call().unwrap();
    let local = callee.local().unwrap();
    assert_eq!(local.value_ref(), "greeter");
    assert_eq!(method_name.value_ref(), "hello");
    assert_eq!(arguments[0].string().unwrap().value_ref(), "Baik");
    assert_eq!(arguments[1].string().unwrap().value_ref(), "Lang");
}

fn delorean_chain() -> ParseNode {
    // delorean.target_year(1985).accellerate(88)
    node(
        Rule::call_method,
        0,
        "delorean.target_year(1985).accellerate(88)",
        vec![
            leaf(Rule::local, 0, "delorean"),
            leaf(Rule::ident, 9, "target_year"),
            argument(int_node(21, "1985")),
            leaf(Rule::ident, 27, "accellerate"),
            argument(int_node(39, "88")),
        ],
    )
}

#[test]
fn test_method_call_multi() {
    let terms = input(delorean_chain());

    let (callee0, method_name0, arguments0) = terms[0].method_call().unwrap();
    assert_eq!(method_name0.value_ref(), "accellerate");
    assert_eq!(arguments0.len(), 1);
    assert_eq!(arguments0[0].integer().unwrap().value_ref(), &88);

    let (callee1, method_name1, arguments1) = callee0.method_call().unwrap();
    assert_eq!(callee1.local().unwrap().value_ref(), "delorean");
    assert_eq!(method_name1.value_ref(), "target_year");
    assert_eq!(arguments1.len(), 1);
    assert_eq!(arguments1[0].integer().unwrap().value_ref(), &1985);
}

#[test]
fn method_calls_stand_at_their_receiver() {
    let terms = input(delorean_chain());
    assert_eq!(terms[0].location(), &InputLocation::Span(0, 8));
    let (inner, _, _) = terms[0].method_call().unwrap();
    assert_eq!(inner.location(), &InputLocation::Span(0, 8));
}

#[test]
fn test_method_call_empty() {
    let tree = node(
        Rule::call_method,
        0,
        "greeter.hello()",
        vec![leaf(Rule::local, 0, "greeter"), leaf(Rule::ident, 8, "hello")],
    );
    let terms = input(tree);

    let (callee, method_name, arguments) = terms[0].method_call().unwrap();
    let local = callee.local().unwrap();
    assert_eq!(local.value_ref(), "greeter");
    assert_eq!(method_name.value_ref(), "hello");
    assert_eq!(arguments.len(), 0);
}

#[test]
fn test_method_call_on_typename() {
    let tree = node(
        Rule::call_method,
        0,
        "My.Greeter.hello()",
        vec![leaf(Rule::typename, 0, "My.Greeter"), leaf(Rule::ident, 11, "hello")],
    );
    let terms = input(tree);

    let (callee, method_name, arguments) = terms[0].method_call().unwrap();
    let ty = callee.ty().unwrap();
    assert_eq!(ty.value_ref(), "My.Greeter");
    assert_eq!(method_name.value_ref(), "hello");
    assert_eq!(arguments.len(), 0);
}

#[test]
fn method_call_without_a_name_is_rejected() {
    let tree = node(Rule::call_method, 0, "greeter", vec![leaf(Rule::local, 0, "greeter")]);
    assert!(matches!(
        Term::input(&vec![tree]),
        Err(ParseError::AstGeneration { rule: Rule::call_method, .. })
    ));
}

#[test]
fn test_string() {
    let terms = input(string(0, "\"Baik Lang\""));
    assert_eq!(terms[0].node_type(), NodeType::String);

    let term = terms[0].string().unwrap();
    assert_eq!(term.value_ref(), "Baik Lang");
}

#[test]
fn test_string_empty() {
    let terms = input(string(0, "\"\""));
    let term = terms[0].string().unwrap();
    assert_eq!(term.value_ref(), "");
}

#[test]
fn string_quote_styles_agree() {
    let double = input(string(0, "\"it's \\\"fine\\\"\""));
    let single = input(string(0, "'it\\'s \"fine\"'"));
    assert_eq!(double[0].node_type(), NodeType::String);
    assert_eq!(single[0].node_type(), NodeType::String);
    assert_eq!(double[0].string().unwrap().value_ref(), "it's \\\"fine\\\"");
    assert_eq!(single[0].string().unwrap().value_ref(), "it\\'s \"fine\"");
    let plain_double = input(string(0, "\"a'b\""));
    let plain_single = input(string(0, "'a'b'"));
    assert_eq!(
        plain_double[0].string().unwrap().value_ref(),
        plain_single[0].string().unwrap().value_ref()
    );
}

#[test]
fn test_unary() {
    let tree = node(Rule::unary, 0, "+123", vec![leaf(Rule::plus, 0, "+"), int_node(1, "123")]);
    let terms = input(tree);
    assert_eq!(terms[0].node_type(), NodeType::Unary);

    let (operator, term) = terms[0].unary().unwrap();
    assert_eq!(operator.value_ref(), &UnaryOperator::Plus);
    assert_eq!(term.integer().unwrap().value_ref(), &123);
}

#[test]
fn test_infix() {
    // (1 + 2) / (3 - 4)
    let left = infix(1, "1 + 2", vec![int_node(1, "1"), op(Rule::plus, 3, "+"), int_node(5, "2")]);
    let right = infix(11, "3 - 4", vec![int_node(11, "3"), op(Rule::minus, 13, "-"), int_node(15, "4")]);
    let terms = input(infix(0, "(1 + 2) / (3 - 4)", vec![left, op(Rule::divide, 8, "/"), right]));
    assert_eq!(terms[0].node_type(), NodeType::Binary);

    let (op0, lhs0, rhs0) = terms[0].binary().unwrap();
    assert_eq!(op0.value_ref(), &BinaryOperator::Divide);

    let (op1, lhs1, rhs1) = lhs0.binary().unwrap();
    assert_eq!(op1.value_ref(), &BinaryOperator::Plus);
    assert_eq!(lhs1.integer().unwrap().value_ref(), &1);
    assert_eq!(rhs1.integer().unwrap().value_ref(), &2);

    let (op2, lhs2, rhs2) = rhs0.binary().unwrap();
    assert_eq!(op2.value_ref(), &BinaryOperator::Minus);
    assert_eq!(lhs2.integer().unwrap().value_ref(), &3);
    assert_eq!(rhs2.integer().unwrap().value_ref(), &4);
}

fn three(first: (Rule, &str), second: (Rule, &str)) -> ParseNode {
    infix(
        0,
        "a x b y c",
        vec![
            leaf(Rule::local, 0, "a"),
            op(first.0, 2, first.1),
            leaf(Rule::local, 4, "b"),
            op(second.0, 6, second.1),
            leaf(Rule::local, 8, "c"),
        ],
    )
}

#[test]
fn left_tiers_group_to_the_left() {
    let pairs = [
        ((Rule::minus, "-"), (Rule::plus, "+")),
        ((Rule::divide, "/"), (Rule::multiply, "*")),
        ((Rule::logical_or, "||"), (Rule::logical_or, "||")),
        ((Rule::less_than, "<"), (Rule::greater_than_or_equal, ">=")),
        ((Rule::shift_left, "<<"), (Rule::shift_right, ">>")),
    ];
    for (first, second) in pairs.iter() {
        let terms = input(three(*first, *second));
        let (root, lhs, rhs) = terms[0].binary().unwrap();
        assert_eq!(root.location(), &InputLocation::Span(6, 6 + second.1.len()));
        assert!(lhs.binary().is_some());
        assert_eq!(rhs.local().unwrap().value_ref(), "c");
    }
}

#[test]
fn right_tiers_group_to_the_right() {
    let pairs = [
        ((Rule::exponent, "**"), (Rule::exponent, "**")),
        ((Rule::equal, "=="), (Rule::not_equal, "!=")),
    ];
    for (first, second) in pairs.iter() {
        let terms = input(three(*first, *second));
        let (root, lhs, rhs) = terms[0].binary().unwrap();
        assert_eq!(root.location(), &InputLocation::Span(2, 2 + first.1.len()));
        assert_eq!(lhs.local().unwrap().value_ref(), "a");
        assert!(rhs.binary().is_some());
    }
}

#[test]
fn redundant_parentheses_change_nothing() {
    // (2 + (3 + 4) + (6 + (6 + 7)) + 5) against 2 + (3 + 4) + (6 + (6 + 7)) + 5
    let build = |outer: bool| {
        let inner_left = infix(4, "3 + 4", vec![int_node(4, "3"), op(Rule::plus, 6, "+"), int_node(8, "4")]);
        let deep = infix(20, "6 + 7", vec![int_node(20, "6"), op(Rule::plus, 22, "+"), int_node(24, "7")]);
        let inner_right =
            infix(15, "6 + (6 + 7)", vec![int_node(15, "6"), op(Rule::plus, 17, "+"), deep]);
        let body = infix(
            1,
            "2 + (3 + 4) + (6 + (6 + 7)) + 5",
            vec![
                int_node(1, "2"),
                op(Rule::plus, 3, "+"),
                inner_left,
                op(Rule::plus, 12, "+"),
                inner_right,
                op(Rule::plus, 29, "+"),
                int_node(31, "5"),
            ],
        );
        if outer {
            infix(0, "(2 + (3 + 4) + (6 + (6 + 7)) + 5)", vec![body])
        } else {
            body
        }
    };
    let with = input(build(true));
    let without = input(build(false));
    assert_eq!(shape(&with[0]), shape(&without[0]));

    // (1 * 2) + 3 against 1 * 2 + 3
    let grouped = infix(
        0,
        "(1 * 2) + 3",
        vec![
            infix(1, "1 * 2", vec![int_node(1, "1"), op(Rule::multiply, 3, "*"), int_node(5, "2")]),
            op(Rule::plus, 8, "+"),
            int_node(10, "3"),
        ],
    );
    let flat = infix(
        0,
        "1 * 2 + 3",
        vec![int_node(1, "1"), op(Rule::multiply, 3, "*"), int_node(5, "2"), op(Rule::plus, 8, "+"), int_node(10, "3")],
    );
    assert_eq!(shape(&input(grouped)[0]), shape(&input(flat)[0]));
}

#[test]
fn climb_rejects_a_missing_operand() {
    let tree = infix(0, "1 +", vec![int_node(0, "1"), op(Rule::plus, 2, "+")]);
    assert!(climb(&tree).is_err());
    let tree = infix(0, "1 2", vec![int_node(0, "1"), int_node(2, "2"), int_node(4, "3")]);
    assert!(climb(&tree).is_err());
}

#[test]
fn test_if() {
    // jika benar { 123 }
    let tree = node(
        Rule::if_expression,
        1,
        "jika benar { 123 }",
        vec![
            node(Rule::boolean, 6, "benar", vec![leaf(Rule::boolean_true, 6, "benar")]),
            block(12, "{ 123 }", vec![int_node(14, "123")]),
        ],
    );
    let terms = input(tree);
    let (_test, positive, negative) = terms[0].if_expr().unwrap();
    assert_eq!(positive.len(), 1);
    assert!(negative.is_empty());
}

#[test]
fn test_if_else() {
    // jika benar { 123 } lainnya { 456 }
    let tree = node(
        Rule::if_expression,
        1,
        "jika benar { 123 } lainnya { 456 }",
        vec![
            node(Rule::boolean, 6, "benar", vec![leaf(Rule::boolean_true, 6, "benar")]),
            block(12, "{ 123 }", vec![int_node(14, "123")]),
            block(28, "{ 456 }", vec![int_node(30, "456")]),
        ],
    );
    let terms = input(tree);
    let (_test, positive, negative) = terms[0].if_expr().unwrap();
    assert_eq!(positive.len(), 1);
    assert_eq!(negative.len(), 1);
}

fn typed_argument(start: usize, name: &str, ty: &str) -> ParseNode {
    let ty_at = start + name.len() + 1;
    node(
        Rule::argument,
        start,
        &format!("{} {}", name, ty),
        vec![
            leaf(Rule::keyword, start, name),
            node(Rule::typespec, ty_at, ty, vec![leaf(Rule::typename, ty_at, ty)]),
        ],
    )
}

#[test]
fn definitions_keep_their_parts() {
    // type Delorean(speed: Integer) do impl TimeMachine end
    let imp = node(
        Rule::impldef,
        30,
        "impl TimeMachine",
        vec![leaf(Rule::typename, 35, "TimeMachine"), block(46, "", vec![])],
    );
    let typedef = node(
        Rule::typedef,
        0,
        "type Delorean(speed: Integer) do impl TimeMachine end",
        vec![
            leaf(Rule::typename, 5, "Delorean"),
            node(Rule::argument_list, 14, "speed: Integer", vec![typed_argument(14, "speed:", "Integer")]),
            block(30, "impl TimeMachine", vec![imp]),
        ],
    );
    let terms = Term::file(&vec![typedef]).unwrap();
    assert_eq!(terms[0].node_type(), NodeType::TypeDef);
    let (ty, props, body) = terms[0].typedef().unwrap();
    assert_eq!(ty.value_ref(), "Delorean");
    assert_eq!(props.len(), 1);
    assert_eq!(props[0].0.value_ref(), "speed");
    assert_eq!(props[0].1.value_ref()[0].value_ref(), "Integer");
    let (tr, inner) = body[0].impldef().unwrap();
    assert_eq!(tr.value_ref(), "TimeMachine");
    assert_eq!(inner.len(), 0);
}

#[test]
fn method_definitions() {
    let method = |rule: Rule| {
        node(
            rule,
            0,
            "def go(speed: Integer) do 1 end",
            vec![
                leaf(Rule::ident, 4, "go"),
                node(Rule::argument_list, 7, "speed: Integer", vec![typed_argument(7, "speed:", "Integer")]),
                block(26, "1", vec![int_node(26, "1")]),
            ],
        )
    };
    let terms = Term::file(&vec![
        method(Rule::defpublicmethod),
        method(Rule::defprivatemethod),
        method(Rule::defstaticmethod),
    ])
    .unwrap();
    assert_eq!(terms[0].node_type(), NodeType::PublicMethod);
    assert_eq!(terms[1].node_type(), NodeType::PrivateMethod);
    assert_eq!(terms[2].node_type(), NodeType::StaticMethod);
    let (name, args, body) = terms[1].private_method().unwrap();
    assert_eq!(name.value_ref(), "go");
    assert_eq!(args.len(), 1);
    assert_eq!(body.len(), 1);
    assert!(terms[0].public_method().is_some());
    assert!(terms[2].static_method().is_some());
    assert!(terms[0].private_method().is_none());
}

#[test]
fn signatures_with_and_without_a_return_type() {
    let predicate = node(
        Rule::defpublicspec,
        0,
        "def empty?()",
        vec![leaf(Rule::methodnamewithpredicate, 4, "empty?"), node(Rule::argument_list, 11, "", vec![])],
    );
    let typed = node(
        Rule::defstaticspec,
        0,
        "defs size() Integer",
        vec![
            leaf(Rule::methodname, 5, "size"),
            node(Rule::argument_list, 10, "", vec![]),
            node(
                Rule::return_type,
                12,
                "Integer",
                vec![node(Rule::typespec, 12, "Integer", vec![leaf(Rule::typename, 12, "Integer")])],
            ),
        ],
    );
    let terms = Term::file(&vec![predicate, typed]).unwrap();
    let (name, args, rval) = terms[0].public_method_spec().unwrap();
    assert_eq!(name.value_ref(), "empty?");
    assert!(args.is_empty());
    assert!(rval.is_none());
    let (name, _, rval) = terms[1].static_method_spec().unwrap();
    assert_eq!(name.value_ref(), "size");
    assert_eq!(rval.unwrap().value_ref()[0].value_ref(), "Integer");

    let missing = node(
        Rule::defstaticspec,
        0,
        "defs size()",
        vec![leaf(Rule::methodname, 5, "size"), node(Rule::argument_list, 10, "", vec![])],
    );
    assert!(Term::file(&vec![missing]).is_err());
}

#[test]
fn function_clauses() {
    let clause = |start: usize| {
        node(
            Rule::function_clause,
            start,
            "(speed: Float) do \"WAT\" end",
            vec![
                node(Rule::argument_list, start + 1, "speed: Float", vec![typed_argument(start + 1, "speed:", "Float")]),
                block(start + 18, "\"WAT\"", vec![string(start + 18, "\"WAT\"")]),
            ],
        )
    };
    let tree = node(Rule::function, 0, "fn ...", vec![clause(3), clause(40)]);
    let terms = input(tree);
    let function = terms[0].function().unwrap();
    let clauses = function.value_ref();
    assert_eq!(clauses.len(), 2);
    assert_eq!(clauses[0].arguments().len(), 1);
    assert_eq!(clauses[0].body().len(), 1);
    assert_eq!(clauses[1].arguments().len(), 1);
    assert_eq!(clauses[1].body().len(), 1);
    assert_eq!(clauses[1].location(), &InputLocation::Span(40, 67));
}

#[test]
fn properties() {
    let get = input(leaf(Rule::property_get, 0, "@speed"));
    assert_eq!(get[0].property_get().unwrap().value_ref(), "speed");
    let set = node(
        Rule::property_set,
        0,
        "@{ speed: 88 }",
        vec![node(Rule::property, 3, "speed: 88", vec![leaf(Rule::keyword, 3, "speed:"), int_node(10, "88")])],
    );
    let terms = input(set);
    let values = terms[0].property_set().unwrap();
    assert_eq!(values[0].0.value_ref(), "speed");
    assert_eq!(values[0].1.integer().unwrap().value_ref(), &88);
}

#[test]
fn accessors_answer_only_for_their_kind() {
    let terms = input(int_node(0, "1"));
    assert!(terms[0].integer().is_some());
    assert!(terms[0].array().is_none());
    assert!(terms[0].string().is_none());
    assert!(terms[0].binary().is_none());
    assert!(terms[0].method_call().is_none());
    assert!(terms[0].if_expr().is_none());
    assert!(terms[0].typedef().is_none());
}

#[test]
fn program_stops_at_end_marker_and_keeps_order() {
    let nodes = vec![int_node(0, "1"), leaf(Rule::atom, 2, ":b"), leaf(Rule::EOI, 4, ""), leaf(Rule::ident, 4, "x")];
    let terms = Term::input(&nodes).unwrap();
    assert_eq!(terms.len(), 2);
    assert_eq!(terms[0].node_type(), NodeType::Integer);
    assert_eq!(terms[1].node_type(), NodeType::Atom);
    assert!(Term::input(&vec![]).unwrap().is_empty());
}

#[test]
fn unknown_rule_is_an_internal_error() {
    let nodes = vec![leaf(Rule::assign, 3, "=")];
    match Term::input(&nodes) {
        Err(ParseError::AstGeneration { rule, location }) => {
            assert_eq!(rule, Rule::assign);
            assert_eq!(location, InputLocation::Span(3, 4));
        }
        other => panic!("unexpected {:?}", other),
    }
}

#[test]
fn clause_and_function_converters() {
    let clause = node(
        Rule::function_clause,
        3,
        "(speed: Float) do 1 end",
        vec![
            node(Rule::argument_list, 4, "speed: Float", vec![typed_argument(4, "speed:", "Float")]),
            block(21, "1", vec![int_node(21, "1")]),
        ],
    );
    let converted = Clause::from_node(&clause).unwrap();
    assert_eq!(converted.arguments()[0].0.value_ref(), "speed");
    assert_eq!(converted.body().len(), 1);
    let function = Function::from_node(&node(Rule::function, 0, "fn", vec![clause])).unwrap();
    assert_eq!(function.value_ref().len(), 1);
    assert!(Function::from_node(&leaf(Rule::local, 0, "f")).is_err());
    assert!(Clause::from_node(&leaf(Rule::function_clause, 0, "()")).is_err());
}
