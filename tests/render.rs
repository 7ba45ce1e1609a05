use sql_parser::{
    BinaryOperator, DataType, Expr, Function, FunctionArgs, Ident, ObjectName, OrderByExpr,
    Query, TrimSide, UnaryOperator, Value, WindowFrame, WindowFrameBound, WindowFrameUnits,
    WindowSpec,
};
use std::collections::hash_map::DefaultHasher;
use std::hash::{Hash, Hasher};

fn id(parts: &[&str]) -> Expr {
    Expr::Identifier(parts.iter().map(|p| Ident(p.to_string())).collect())
}

fn num(n: &str) -> Expr {
    Expr::Value(Value::Number(n.to_string()))
}

fn text(s: &str) -> Expr {
    Expr::Value(Value::String(s.to_string()))
}

fn query(q: &str) -> Box<Query> {
    Box::new(Query(q.to_string()))
}

fn hash_of(e: &Expr) -> u64 {
    let mut h = DefaultHasher::new();
    e.hash(&mut h);
    h.finish()
}

fn sample_tree() -> Expr {
    Expr::Case {
        operand: Some(Box::new(id(&["t", "kind"]))),
        conditions: vec![num("1"), text("two")],
        results: vec![id(&["a"]), Expr::Parameter(3)],
        else_result: Some(Box::new(Expr::Nested(Box::new(Expr::BinaryOp {
            left: Box::new(id(&["b"])),
            op: BinaryOperator::Plus,
            right: Box::new(num("7")),
        })))),
    }
}

#[test]
fn equal_trees_hash_equal() {
    let a = sample_tree();
    let b = sample_tree();
    assert_eq!(a, b);
    assert_eq!(b, a);
    assert_eq!(a, a);
    assert_eq!(hash_of(&a), hash_of(&b));
}

#[test]
fn trees_differing_deep_inside_are_unequal() {
    let a = sample_tree();
    let b = Expr::Case {
        operand: Some(Box::new(id(&["t", "kind"]))),
        conditions: vec![num("1"), text("two")],
        results: vec![id(&["a"]), Expr::Parameter(4)],
        else_result: None,
    };
    assert_ne!(a, b);
    assert_ne!(Expr::Parameter(1), Expr::Parameter(2));
    assert_ne!(id(&["x"]), Expr::QualifiedWildcard(vec![Ident("x".to_string())]));
}

#[test]
fn cast_of_identifier_is_not_wrapped() {
    let e = Expr::Cast { expr: Box::new(id(&["x"])), data_type: DataType("TEXT".to_string()) };
    assert_eq!(e.to_ast_string(), "x::TEXT");
}

#[test]
fn cast_of_binary_op_is_wrapped() {
    let e = Expr::Cast {
        expr: Box::new(Expr::BinaryOp {
            left: Box::new(id(&["a"])),
            op: BinaryOperator::Plus,
            right: Box::new(id(&["b"])),
        }),
        data_type: DataType("INT4".to_string()),
    };
    assert_eq!(e.to_ast_string(), "(a + b)::INT4");
}

#[test]
fn cast_wrapping_follows_operand_kind() {
    let t = || DataType("INT4".to_string());
    let cast = |e: Expr| Expr::Cast { expr: Box::new(e), data_type: t() };
    assert_eq!(cast(num("1")).to_ast_string(), "1::INT4");
    assert_eq!(cast(Expr::Nested(Box::new(num("1")))).to_ast_string(), "(1)::INT4");
    assert_eq!(cast(cast(id(&["x"]))).to_ast_string(), "x::INT4::INT4");
    assert_eq!(
        cast(Expr::Coalesce { exprs: vec![id(&["a"]), num("0")] }).to_ast_string(),
        "COALESCE(a, 0)::INT4"
    );
    assert_eq!(
        cast(Expr::Parameter(1)).to_ast_string(),
        "($1)::INT4"
    );
    assert_eq!(
        cast(Expr::IsNull(Box::new(id(&["a"])))).to_ast_string(),
        "(a IS NULL)::INT4"
    );
    assert_eq!(
        cast(Expr::UnaryOp { op: UnaryOperator::Minus, expr: Box::new(num("5")) })
            .to_ast_string(),
        "(- 5)::INT4"
    );
}

#[test]
fn case_pairs_conditions_with_results() {
    let e = Expr::Case {
        operand: None,
        conditions: vec![id(&["c0"]), id(&["c1"])],
        results: vec![id(&["r0"]), id(&["r1"])],
        else_result: Some(Box::new(id(&["e"]))),
    };
    assert_eq!(e.to_ast_string(), "CASE WHEN c0 THEN r0 WHEN c1 THEN r1 ELSE e END");
}

#[test]
fn case_with_operand_and_no_else() {
    let e = Expr::Case {
        operand: Some(Box::new(id(&["k"]))),
        conditions: vec![num("1")],
        results: vec![text("one")],
        else_result: None,
    };
    assert_eq!(e.to_ast_string(), "CASE k WHEN 1 THEN 'one' END");
}

#[test]
fn window_frame_shorthand() {
    let short = WindowFrame {
        units: WindowFrameUnits::Rows,
        start_bound: WindowFrameBound::Preceding(Some(5)),
        end_bound: None,
    };
    assert_eq!(short.to_ast_string(), "ROWS 5 PRECEDING");
    let long = WindowFrame {
        units: WindowFrameUnits::Rows,
        start_bound: WindowFrameBound::Preceding(Some(5)),
        end_bound: Some(WindowFrameBound::CurrentRow),
    };
    assert_eq!(long.to_ast_string(), "ROWS BETWEEN 5 PRECEDING AND CURRENT ROW");
}

#[test]
fn window_frame_bounds() {
    assert_eq!(WindowFrameBound::CurrentRow.to_ast_string(), "CURRENT ROW");
    assert_eq!(WindowFrameBound::Preceding(None).to_ast_string(), "UNBOUNDED PRECEDING");
    assert_eq!(WindowFrameBound::Following(None).to_ast_string(), "UNBOUNDED FOLLOWING");
    assert_eq!(WindowFrameBound::Following(Some(0)).to_ast_string(), "0 FOLLOWING");
    assert_eq!(
        WindowFrameBound::Preceding(Some(u64::MAX)).to_ast_string(),
        "18446744073709551615 PRECEDING"
    );
    assert_eq!(WindowFrameUnits::Range.to_ast_string(), "RANGE");
    assert_eq!(WindowFrameUnits::Groups.to_ast_string(), "GROUPS");
    let f = WindowFrame {
        units: WindowFrameUnits::Groups,
        start_bound: WindowFrameBound::Preceding(None),
        end_bound: Some(WindowFrameBound::Following(Some(10))),
    };
    assert_eq!(f.to_ast_string(), "GROUPS BETWEEN UNBOUNDED PRECEDING AND 10 FOLLOWING");
}

#[test]
fn trim_renders_as_function_call() {
    let lead = Expr::Trim { side: TrimSide::Leading, exprs: vec![id(&["x"])] };
    assert_eq!(lead.to_ast_string(), "ltrim(x)");
    let both = Expr::Trim { side: TrimSide::Both, exprs: vec![id(&["x"]), text("y")] };
    assert_eq!(both.to_ast_string(), "btrim(x, 'y')");
    let trail = Expr::Trim { side: TrimSide::Trailing, exprs: vec![id(&["x"])] };
    assert_eq!(trail.to_ast_string(), "rtrim(x)");
    assert_eq!(TrimSide::Both.to_ast_string(), "btrim");
}

#[test]
fn identifier_parts_joined_by_dots() {
    assert_eq!(id(&["schema", "table", "col"]).to_ast_string(), "schema.table.col");
    let w = Expr::QualifiedWildcard(vec![Ident("t".to_string())]);
    assert_eq!(w.to_ast_string(), "t.*");
    assert_eq!(id(&["x"]).to_ast_string(), "x");
}

#[test]
fn quantified_comparison_keeps_keyword() {
    let any = |some: bool| Expr::Any {
        left: Box::new(id(&["x"])),
        op: BinaryOperator::Gt,
        right: query("SELECT y FROM t"),
        some,
    };
    assert_eq!(any(true).to_ast_string(), "x > SOME (SELECT y FROM t)");
    assert_eq!(any(false).to_ast_string(), "x > ANY (SELECT y FROM t)");
    let all = Expr::All {
        left: Box::new(id(&["x"])),
        op: BinaryOperator::LtEq,
        right: query("SELECT y FROM t"),
    };
    assert_eq!(all.to_ast_string(), "x <= ALL (SELECT y FROM t)");
}

#[test]
fn null_tests_and_membership() {
    assert_eq!(Expr::IsNull(Box::new(id(&["a"]))).to_ast_string(), "a IS NULL");
    assert_eq!(Expr::IsNotNull(Box::new(id(&["a"]))).to_ast_string(), "a IS NOT NULL");
    let inl = |negated: bool| Expr::InList {
        expr: Box::new(id(&["a"])),
        list: vec![num("1"), num("2"), num("3")],
        negated,
    };
    assert_eq!(inl(false).to_ast_string(), "a IN (1, 2, 3)");
    assert_eq!(inl(true).to_ast_string(), "a NOT IN (1, 2, 3)");
    let ins = Expr::InSubquery {
        expr: Box::new(id(&["a"])),
        subquery: query("SELECT 1"),
        negated: true,
    };
    assert_eq!(ins.to_ast_string(), "a NOT IN (SELECT 1)");
    let empty = Expr::InList { expr: Box::new(id(&["a"])), list: vec![], negated: false };
    assert_eq!(empty.to_ast_string(), "a IN ()");
}

#[test]
fn between_and_operators() {
    let b = |negated: bool| Expr::Between {
        expr: Box::new(id(&["a"])),
        negated,
        low: Box::new(num("1")),
        high: Box::new(num("9")),
    };
    assert_eq!(b(false).to_ast_string(), "a BETWEEN 1 AND 9");
    assert_eq!(b(true).to_ast_string(), "a NOT BETWEEN 1 AND 9");
    let op = Expr::BinaryOp {
        left: Box::new(id(&["a"])),
        op: BinaryOperator::NotEq,
        right: Box::new(Expr::Value(Value::Null)),
    };
    assert_eq!(op.to_ast_string(), "a <> NULL");
    let not = Expr::UnaryOp { op: UnaryOperator::Not, expr: Box::new(Expr::Value(Value::Boolean(true))) };
    assert_eq!(not.to_ast_string(), "NOT TRUE");
    let and = Expr::BinaryOp {
        left: Box::new(Expr::Value(Value::Boolean(false))),
        op: BinaryOperator::And,
        right: Box::new(id(&["p"])),
    };
    assert_eq!(and.to_ast_string(), "FALSE AND p");
}

#[test]
fn parameters_render_in_decimal() {
    assert_eq!(Expr::Parameter(1).to_ast_string(), "$1");
    assert_eq!(Expr::Parameter(42).to_ast_string(), "$42");
    assert_eq!(Expr::Parameter(0).to_ast_string(), "$0");
    assert_eq!(Expr::Parameter(1000).to_ast_string(), "$1000");
}

#[test]
fn extract_escapes_field() {
    let e = Expr::Extract { field: "year".to_string(), expr: Box::new(id(&["d"])) };
    assert_eq!(e.to_ast_string(), "EXTRACT(year FROM d)");
    let q = Expr::Extract { field: "it's".to_string(), expr: Box::new(id(&["d"])) };
    assert_eq!(q.to_ast_string(), "EXTRACT(it''s FROM d)");
}

#[test]
fn string_literals_double_quotes() {
    assert_eq!(text("it's").to_ast_string(), "'it''s'");
    assert_eq!(text("").to_ast_string(), "''");
    assert_eq!(text("''").to_ast_string(), "''''''");
    assert_eq!(text("héllo").to_ast_string(), "'héllo'");
}

#[test]
fn collate_coalesce_row_list_nested() {
    let c = Expr::Collate {
        expr: Box::new(id(&["name"])),
        collation: ObjectName(vec![Ident("pg_catalog".to_string()), Ident("C".to_string())]),
    };
    assert_eq!(c.to_ast_string(), "name COLLATE pg_catalog.C");
    let co = Expr::Coalesce { exprs: vec![id(&["a"]), id(&["b"]), num("0")] };
    assert_eq!(co.to_ast_string(), "COALESCE(a, b, 0)");
    let row = Expr::Row { exprs: vec![num("1"), text("x")] };
    assert_eq!(row.to_ast_string(), "ROW(1, 'x')");
    assert_eq!(Expr::Row { exprs: vec![] }.to_ast_string(), "ROW()");
    let list = Expr::List(vec![num("1"), num("2")]);
    assert_eq!(list.to_ast_string(), "LIST[1, 2]");
    assert_eq!(Expr::List(vec![]).to_ast_string(), "LIST[]");
    assert_eq!(Expr::List(vec![num("1")]).to_ast_string(), "LIST[1]");
    assert_eq!(Expr::Nested(Box::new(id(&["a"]))).to_ast_string(), "(a)");
}

#[test]
fn subqueries() {
    assert_eq!(Expr::Exists(query("SELECT 1")).to_ast_string(), "EXISTS (SELECT 1)");
    assert_eq!(Expr::Subquery(query("SELECT 1")).to_ast_string(), "(SELECT 1)");
}

fn count_star() -> Function {
    Function {
        name: ObjectName(vec![Ident("count".to_string())]),
        args: FunctionArgs::Star,
        filter: None,
        over: None,
        distinct: false,
    }
}

#[test]
fn function_calls() {
    assert_eq!(Expr::Function(count_star()).to_ast_string(), "count(*)");
    let f = Function {
        name: ObjectName(vec![Ident("pg_catalog".to_string()), Ident("sum".to_string())]),
        args: FunctionArgs::Args(vec![id(&["x"])]),
        filter: Some(Box::new(Expr::BinaryOp {
            left: Box::new(id(&["x"])),
            op: BinaryOperator::Gt,
            right: Box::new(num("0")),
        })),
        over: None,
        distinct: true,
    };
    assert_eq!(f.to_ast_string(), "pg_catalog.sum(DISTINCT x) FILTER (WHERE x > 0)");
    assert_eq!(FunctionArgs::Star.to_ast_string(), "*");
    assert_eq!(
        FunctionArgs::Args(vec![num("1"), num("2")]).to_ast_string(),
        "1, 2"
    );
}

#[test]
fn window_specs_join_present_clauses() {
    let frame = WindowFrame {
        units: WindowFrameUnits::Range,
        start_bound: WindowFrameBound::Preceding(None),
        end_bound: None,
    };
    let spec = |p: bool, o: bool, f: bool| WindowSpec {
        partition_by: if p { vec![id(&["a"]), id(&["b"])] } else { vec![] },
        order_by: if o {
            vec![
                OrderByExpr { expr: id(&["c"]), asc: Some(false) },
                OrderByExpr { expr: id(&["d"]), asc: None },
                OrderByExpr { expr: id(&["e"]), asc: Some(true) },
            ]
        } else {
            vec![]
        },
        window_frame: if f { Some(frame.clone()) } else { None },
    };
    assert_eq!(spec(false, false, false).to_ast_string(), "");
    assert_eq!(spec(true, false, false).to_ast_string(), "PARTITION BY a, b");
    assert_eq!(spec(false, true, false).to_ast_string(), "ORDER BY c DESC, d, e ASC");
    assert_eq!(spec(false, false, true).to_ast_string(), "RANGE UNBOUNDED PRECEDING");
    assert_eq!(
        spec(true, true, true).to_ast_string(),
        "PARTITION BY a, b ORDER BY c DESC, d, e ASC RANGE UNBOUNDED PRECEDING"
    );
    assert_eq!(
        spec(true, false, true).to_ast_string(),
        "PARTITION BY a, b RANGE UNBOUNDED PRECEDING"
    );
    let mut f = count_star();
    f.over = Some(spec(false, true, false));
    assert_eq!(Expr::Function(f).to_ast_string(), "count(*) OVER (ORDER BY c DESC, d, e ASC)");
}

#[test]
fn string_literal_detection() {
    assert!(text("a").is_string_literal());
    assert!(!num("1").is_string_literal());
    assert!(!Expr::Value(Value::Null).is_string_literal());
    assert!(!id(&["a"]).is_string_literal());
    assert!(!Expr::Nested(Box::new(text("a"))).is_string_literal());
}
