//! Properties of the SQL text that hold for every input.
use vstd::prelude::*;
use crate::expr::{Expr, WindowFrame, WindowFrameBound, WindowFrameUnits};
use crate::leaf::{BinaryOperator, DataType, Query};

verus! {

broadcast use crate::text::lemma_concat_regroup;

/// A cast wraps its operand in parentheses exactly when the operand does
/// not bind tightly (is not `Nested`, `Value`, `Cast`, `Function`,
/// `Identifier`, `Extract`, `Trim`, `Collate` or `Coalesce`); the data type
/// follows `::` in both cases.
pub proof fn cast_wrap_rule(expr: Box<Expr>, data_type: DataType)
    ensures
        (Expr::Cast { expr, data_type }).sql() == if expr.binds_tightly() {
            expr.sql() + "::"@ + data_type.sql()
        } else {
            "("@ + expr.sql() + ")"@ + "::"@ + data_type.sql()
        },
        expr.binds_tightly() <==> (*expr is Nested || *expr is Value || *expr is Cast
            || *expr is Function || *expr is Identifier || *expr is Extract || *expr is Trim
            || *expr is Collate || *expr is Coalesce),
{
}

/// A `CASE` without operand, with two conditions, two results and an
/// `ELSE`, pairs the i-th condition with the i-th result, in order.
pub proof fn case_pairs_in_order(e: Expr)
    requires
        e is Case,
        e->Case_operand is None,
        e->Case_conditions.len() == 2,
        e->Case_results.len() == 2,
        e->Case_else_result is Some,
    ensures
        e.sql() == "CASE"@ + " WHEN "@ + e->Case_conditions@[0].sql() + " THEN "@
            + e->Case_results@[0].sql() + " WHEN "@ + e->Case_conditions@[1].sql() + " THEN "@
            + e->Case_results@[1].sql() + " ELSE "@ + e->Case_else_result->Some_0.sql()
            + " END"@,
{
    reveal_with_fuel(crate::expr::case_pairs_sql, 3);
    let pairs = crate::expr::case_pairs_sql(e, 2);
    assert(pairs == " WHEN "@ + e->Case_conditions@[0].sql() + " THEN "@
        + e->Case_results@[0].sql() + " WHEN "@ + e->Case_conditions@[1].sql() + " THEN "@
        + e->Case_results@[1].sql()) by {
        assert(crate::expr::case_pairs_sql(e, 0) == Seq::<char>::empty());
        assert(Seq::<char>::empty() + " WHEN "@ =~= " WHEN "@);
    }
    assert("CASE"@ + Seq::<char>::empty() =~= "CASE"@);
}

/// A frame without end bound is written in the shorthand form, and one
/// whose end bound is `CURRENT ROW` in the `BETWEEN` form; both mean the
/// frame from the start bound to the current row.
pub proof fn frame_shorthand(units: WindowFrameUnits, start_bound: WindowFrameBound)
    ensures
        (WindowFrame { units, start_bound, end_bound: None }).sql() == units.sql() + " "@
            + start_bound.sql(),
        (WindowFrame {
            units,
            start_bound,
            end_bound: Some(WindowFrameBound::CurrentRow),
        }).sql() == units.sql() + " BETWEEN "@ + start_bound.sql() + " AND "@ + "CURRENT ROW"@,
        (WindowFrame { units, start_bound, end_bound: None }).effective_end_bound() == (
        WindowFrame {
            units,
            start_bound,
            end_bound: Some(WindowFrameBound::CurrentRow),
        }).effective_end_bound(),
{
}

/// A quantified comparison keeps the keyword it was written with: `SOME`
/// when `some` holds, `ANY` otherwise; `ALL` is written as `ALL`.
pub proof fn quantifier_keyword(left: Box<Expr>, op: BinaryOperator, right: Box<Query>, some: bool)
    ensures
        (Expr::Any { left, op, right, some }).sql() == left.sql() + " "@ + op.sql() + if some {
            " SOME ("@
        } else {
            " ANY ("@
        } + right.sql() + ")"@,
        (Expr::All { left, op, right }).sql() == left.sql() + " "@ + op.sql() + " ALL ("@
            + right.sql() + ")"@,
{
    assert(" SOME "@ + "("@ == " SOME ("@) by {
        reveal_strlit(" SOME ");
        reveal_strlit("(");
        reveal_strlit(" SOME (");
    }
    assert(" ANY "@ + "("@ == " ANY ("@) by {
        reveal_strlit(" ANY ");
        reveal_strlit("(");
        reveal_strlit(" ANY (");
    }
}

} // verus!
