//! SQL scalar expressions and their canonical SQL text.
//!
//! Each type has a spec function `sql` giving its text, and an executable
//! `write_sql` proved to append exactly that text. Rendering assumes the
//! tree is `well_formed`: every `Trim` carries one or two arguments and
//! every `Case` has as many results as conditions.
use vstd::prelude::*;
use vstd::string::StringExecFns;
use crate::leaf::{
    ident_texts, write_idents, BinaryOperator, DataType, Ident, ObjectName, Query, UnaryOperator,
    Value,
};
use crate::text::{decimal, escape_single_quotes, join, write_decimal, write_escaped};

verus! {

broadcast use crate::text::lemma_concat_regroup;

/// An SQL expression of any type.
#[derive(Debug, PartialEq, Eq, Hash)]
pub enum Expr {
    /// Identifier e.g. table name or column name
    Identifier(Vec<Ident>),
    /// Qualified wildcard, e.g. `alias.*` or `schema.table.*`.
    QualifiedWildcard(Vec<Ident>),
    /// A positional parameter, e.g., `$1` or `$42`
    Parameter(usize),
    /// `IS NULL` expression
    IsNull(Box<Expr>),
    /// `IS NOT NULL` expression
    IsNotNull(Box<Expr>),
    /// `[ NOT ] IN (val1, val2, ...)`
    InList { expr: Box<Expr>, list: Vec<Expr>, negated: bool },
    /// `[ NOT ] IN (SELECT ...)`
    InSubquery { expr: Box<Expr>, subquery: Box<Query>, negated: bool },
    /// `<expr> [ NOT ] BETWEEN <low> AND <high>`
    Between { expr: Box<Expr>, negated: bool, low: Box<Expr>, high: Box<Expr> },
    /// Binary operation e.g. `1 + 1` or `foo > bar`
    BinaryOp { left: Box<Expr>, op: BinaryOperator, right: Box<Expr> },
    /// Unary operation e.g. `NOT foo`
    UnaryOp { op: UnaryOperator, expr: Box<Expr> },
    /// A cast, rendered with the `::` operator
    Cast { expr: Box<Expr>, data_type: DataType },
    /// `EXTRACT(<field> FROM <expr>)`
    Extract { field: String, expr: Box<Expr> },
    /// A trim, rendered as a call of `btrim`, `ltrim` or `rtrim`
    Trim { side: TrimSide, exprs: Vec<Expr> },
    /// `expr COLLATE collation`
    Collate { expr: Box<Expr>, collation: ObjectName },
    /// `COALESCE(<expr>, ...)`
    Coalesce { exprs: Vec<Expr> },
    /// Nested expression e.g. `(foo > bar)` or `(1)`
    Nested(Box<Expr>),
    /// A row constructor like `ROW(<expr>...)`
    Row { exprs: Vec<Expr> },
    /// A literal value, such as string, number or NULL
    Value(Value),
    /// Scalar function call e.g. `LEFT(foo, 5)`
    Function(Function),
    /// `CASE [<operand>] WHEN <condition> THEN <result> ... [ELSE <result>] END`
    Case {
        operand: Option<Box<Expr>>,
        conditions: Vec<Expr>,
        results: Vec<Expr>,
        else_result: Option<Box<Expr>>,
    },
    /// `EXISTS (SELECT ...)`
    Exists(Box<Query>),
    /// A parenthesized subquery `(SELECT ...)`
    Subquery(Box<Query>),
    /// `<expr> <op> ANY/SOME (<query>)`; `some` records which keyword was used
    Any { left: Box<Expr>, op: BinaryOperator, right: Box<Query>, some: bool },
    /// `<expr> <op> ALL (<query>)`
    All { left: Box<Expr>, op: BinaryOperator, right: Box<Query> },
    /// `LIST[<expr>*]`
    List(Vec<Expr>),
}

/// A window specification (i.e. `OVER (PARTITION BY .. ORDER BY .. etc.)`)
#[derive(Debug, PartialEq, Eq, Hash)]
pub struct WindowSpec {
    pub partition_by: Vec<Expr>,
    pub order_by: Vec<OrderByExpr>,
    pub window_frame: Option<WindowFrame>,
}

/// The rows a window function sees, e.g. `RANGE UNBOUNDED PRECEDING` or
/// `ROWS BETWEEN 5 PRECEDING AND CURRENT ROW`. An absent `end_bound` is
/// the shorthand form, which means the same as an end bound of
/// `CURRENT ROW`.
#[derive(Debug, Clone, PartialEq, Eq, Hash)]
pub struct WindowFrame {
    pub units: WindowFrameUnits,
    pub start_bound: WindowFrameBound,
    pub end_bound: Option<WindowFrameBound>,
}

#[derive(Debug, Clone, PartialEq, Eq, Hash)]
pub enum WindowFrameUnits {
    Rows,
    Range,
    Groups,
}

/// A bound of a [WindowFrame]; an absent count means unbounded.
#[derive(Debug, Clone, PartialEq, Eq, Hash)]
pub enum WindowFrameBound {
    /// `CURRENT ROW`
    CurrentRow,
    /// `<N> PRECEDING` or `UNBOUNDED PRECEDING`
    Preceding(Option<u64>),
    /// `<N> FOLLOWING` or `UNBOUNDED FOLLOWING`
    Following(Option<u64>),
}

/// A function call
#[derive(Debug, PartialEq, Eq, Hash)]
pub struct Function {
    pub name: ObjectName,
    pub args: FunctionArgs,
    /// aggregate functions may specify e.g. `COUNT(DISTINCT X) FILTER (WHERE ...)`
    pub filter: Option<Box<Expr>>,
    pub over: Option<WindowSpec>,
    /// aggregate functions may specify e.g. `COUNT(DISTINCT x)`
    pub distinct: bool,
}

/// Arguments for a function call.
#[derive(Debug, PartialEq, Eq, Hash)]
pub enum FunctionArgs {
    /// The special star argument, as in `count(*)`.
    Star,
    /// A normal list of arguments.
    Args(Vec<Expr>),
}

/// Which side a trim removes characters from.
#[derive(Debug, Clone, PartialEq, Eq, Hash)]
pub enum TrimSide {
    /// Rendered as `btrim`
    Both,
    /// Rendered as `ltrim`
    Leading,
    /// Rendered as `rtrim`
    Trailing,
}

/// An expression in an `ORDER BY` list, with its optional direction.
#[derive(Debug, PartialEq, Eq, Hash)]
pub struct OrderByExpr {
    pub expr: Expr,
    /// `Some(true)` for `ASC`, `Some(false)` for `DESC`
    pub asc: Option<bool>,
}

// ---------------------------------------------------------------------
// Well-formedness
// ---------------------------------------------------------------------

impl Expr {
    /// The shape invariants rendering relies on hold at every node.
    pub open spec fn well_formed(self) -> bool
        decreases self,
    {
        match self {
            Expr::Identifier(_) | Expr::QualifiedWildcard(_) | Expr::Parameter(_) => true,
            Expr::Value(_) | Expr::Exists(_) | Expr::Subquery(_) => true,
            Expr::IsNull(e) | Expr::IsNotNull(e) | Expr::Nested(e) => e.well_formed(),
            Expr::InList { expr, list, .. } => expr.well_formed() && all_well_formed(list@),
            Expr::InSubquery { expr, .. } => expr.well_formed(),
            Expr::Between { expr, low, high, .. } => expr.well_formed() && low.well_formed()
                && high.well_formed(),
            Expr::BinaryOp { left, right, .. } => left.well_formed() && right.well_formed(),
            Expr::UnaryOp { expr, .. } => expr.well_formed(),
            Expr::Cast { expr, .. } => expr.well_formed(),
            Expr::Extract { expr, .. } => expr.well_formed(),
            Expr::Trim { exprs, .. } => 1 <= exprs.len() <= 2 && all_well_formed(exprs@),
            Expr::Collate { expr, .. } => expr.well_formed(),
            Expr::Coalesce { exprs } => all_well_formed(exprs@),
            Expr::Row { exprs } => all_well_formed(exprs@),
            Expr::Function(f) => f.well_formed(),
            Expr::Case { operand, conditions, results, else_result } => {
                &&& conditions.len() == results.len()
                &&& all_well_formed(conditions@)
                &&& all_well_formed(results@)
                &&& (match operand {
                    Some(o) => o.well_formed(),
                    None => true,
                })
                &&& (match else_result {
                    Some(e) => e.well_formed(),
                    None => true,
                })
            },
            Expr::Any { left, .. } => left.well_formed(),
            Expr::All { left, .. } => left.well_formed(),
            Expr::List(exprs) => all_well_formed(exprs@),
        }
    }
}

/// Every expression of `s` is well formed.
pub open spec fn all_well_formed(s: Seq<Expr>) -> bool
    decreases s,
{
    s.len() == 0 || (all_well_formed(s.drop_last()) && s.last().well_formed())
}

/// Every expression of the `ORDER BY` list `s` is well formed.
pub open spec fn order_bys_well_formed(s: Seq<OrderByExpr>) -> bool
    decreases s,
{
    s.len() == 0 || (order_bys_well_formed(s.drop_last()) && s.last().expr.well_formed())
}

/// Each member of a well-formed list is well formed.
pub proof fn lemma_member_well_formed(s: Seq<Expr>, i: int)
    requires
        all_well_formed(s),
        0 <= i < s.len(),
    ensures
        s[i].well_formed(),
    decreases s.len(),
{
    if i < s.len() - 1 {
        assert(s.drop_last()[i] == s[i]);
        lemma_member_well_formed(s.drop_last(), i);
    }
}

/// Each member of a well-formed `ORDER BY` list is well formed.
pub proof fn lemma_order_by_well_formed(s: Seq<OrderByExpr>, i: int)
    requires
        order_bys_well_formed(s),
        0 <= i < s.len(),
    ensures
        s[i].expr.well_formed(),
    decreases s.len(),
{
    if i < s.len() - 1 {
        assert(s.drop_last()[i] == s[i]);
        lemma_order_by_well_formed(s.drop_last(), i);
    }
}

impl Function {
    pub open spec fn well_formed(self) -> bool
        decreases self,
    {
        &&& (match self.args {
            FunctionArgs::Star => true,
            FunctionArgs::Args(v) => all_well_formed(v@),
        })
        &&& (match self.filter {
            Some(f) => f.well_formed(),
            None => true,
        })
        &&& (match self.over {
            Some(w) => w.well_formed(),
            None => true,
        })
    }
}

impl WindowSpec {
    pub open spec fn well_formed(self) -> bool
        decreases self,
    {
        &&& all_well_formed(self.partition_by@)
        &&& order_bys_well_formed(self.order_by@)
    }
}

// ---------------------------------------------------------------------
// SQL text
// ---------------------------------------------------------------------

/// `a` when `b` holds, nothing otherwise.
pub open spec fn when(b: bool, a: Seq<char>) -> Seq<char> {
    if b {
        a
    } else {
        Seq::empty()
    }
}

impl Expr {
    /// Whether the text of `self` can be followed by `::` without
    /// parentheses: it is self-delimiting or binds at least as tightly.
    pub open spec fn binds_tightly(self) -> bool {
        match self {
            Expr::Nested(_) | Expr::Value(_) | Expr::Cast { .. } | Expr::Function(_)
            | Expr::Identifier(_) | Expr::Extract { .. } | Expr::Trim { .. } | Expr::Collate {
                ..
            } | Expr::Coalesce { .. } => true,
            _ => false,
        }
    }

    /// The number of `WHEN`/`THEN` pairs a `Case` renders.
    pub open spec fn pair_count(self) -> nat {
        match self {
            Expr::Case { conditions, results, .. } => if conditions.len() <= results.len() {
                conditions.len() as nat
            } else {
                results.len() as nat
            },
            _ => 0,
        }
    }

    /// The SQL text of `self`.
    pub open spec fn sql(self) -> Seq<char>
        decreases self, self.pair_count() + 1,
    {
        match self {
            Expr::Identifier(s) => join(ident_texts(s@), "."@),
            Expr::QualifiedWildcard(q) => join(ident_texts(q@), "."@) + ".*"@,
            Expr::Parameter(n) => "$"@ + decimal(n as nat),
            Expr::IsNull(e) => e.sql() + " IS NULL"@,
            Expr::IsNotNull(e) => e.sql() + " IS NOT NULL"@,
            Expr::InList { expr, list, negated } => expr.sql() + " "@ + when(negated, "NOT "@)
                + "IN ("@ + exprs_sql(list@) + ")"@,
            Expr::InSubquery { expr, subquery, negated } => expr.sql() + " "@ + when(
                negated,
                "NOT "@,
            ) + "IN ("@ + subquery.sql() + ")"@,
            Expr::Between { expr, negated, low, high } => expr.sql() + when(negated, " NOT"@)
                + " BETWEEN "@ + low.sql() + " AND "@ + high.sql(),
            Expr::BinaryOp { left, op, right } => left.sql() + " "@ + op.sql() + " "@
                + right.sql(),
            Expr::UnaryOp { op, expr } => op.sql() + " "@ + expr.sql(),
            Expr::Cast { expr, data_type } => if expr.binds_tightly() {
                expr.sql() + "::"@ + data_type.sql()
            } else {
                "("@ + expr.sql() + ")"@ + "::"@ + data_type.sql()
            },
            Expr::Extract { field, expr } => "EXTRACT("@ + escape_single_quotes(field@)
                + " FROM "@ + expr.sql() + ")"@,
            Expr::Trim { side, exprs } => side.sql() + "("@ + if exprs.len() == 0 {
                Seq::empty()
            } else if exprs.len() == 2 {
                exprs@[0].sql() + ", "@ + exprs@[1].sql()
            } else {
                exprs@[0].sql()
            } + ")"@,
            Expr::Collate { expr, collation } => expr.sql() + " COLLATE "@ + collation.sql(),
            Expr::Coalesce { exprs } => "COALESCE("@ + exprs_sql(exprs@) + ")"@,
            Expr::Nested(e) => "("@ + e.sql() + ")"@,
            Expr::Row { exprs } => "ROW("@ + exprs_sql(exprs@) + ")"@,
            Expr::Value(v) => v.sql(),
            Expr::Function(f) => f.sql(),
            Expr::Case { operand, conditions, results, else_result } => "CASE"@ + match operand {
                Some(o) => " "@ + o.sql(),
                None => Seq::empty(),
            } + case_pairs_sql(self, self.pair_count()) + match else_result {
                Some(e) => " ELSE "@ + e.sql(),
                None => Seq::empty(),
            } + " END"@,
            Expr::Exists(q) => "EXISTS ("@ + q.sql() + ")"@,
            Expr::Subquery(q) => "("@ + q.sql() + ")"@,
            Expr::Any { left, op, right, some } => left.sql() + " "@ + op.sql() + if some {
                " SOME "@
            } else {
                " ANY "@
            } + "("@ + right.sql() + ")"@,
            Expr::All { left, op, right } => left.sql() + " "@ + op.sql() + " ALL ("@
                + right.sql() + ")"@,
            Expr::List(exprs) => "LIST["@ + exprs_sql(exprs@) + "]"@,
        }
    }
}

/// The first `n` `WHEN <condition> THEN <result>` clauses of the `Case`
/// expression `e`, each preceded by a space.
pub open spec fn case_pairs_sql(e: Expr, n: nat) -> Seq<char>
    decreases e, n,
{
    match e {
        Expr::Case { conditions, results, .. } => if n == 0 || n > conditions.len() || n
            > results.len() {
            Seq::empty()
        } else {
            case_pairs_sql(e, (n - 1) as nat) + " WHEN "@ + conditions@[n - 1].sql() + " THEN "@
                + results@[n - 1].sql()
        },
        _ => Seq::empty(),
    }
}

/// The texts of `s` joined by `", "`.
pub open spec fn exprs_sql(s: Seq<Expr>) -> Seq<char>
    decreases s, 0nat,
{
    if s.len() == 0 {
        Seq::empty()
    } else if s.len() == 1 {
        s[0].sql()
    } else {
        exprs_sql(s.drop_last()) + ", "@ + s.last().sql()
    }
}

impl OrderByExpr {
    pub open spec fn sql(self) -> Seq<char>
        decreases self, 0nat,
    {
        self.expr.sql() + match self.asc {
            Some(true) => " ASC"@,
            Some(false) => " DESC"@,
            None => Seq::empty(),
        }
    }
}

/// The texts of `s` joined by `", "`.
pub open spec fn order_bys_sql(s: Seq<OrderByExpr>) -> Seq<char>
    decreases s, 0nat,
{
    if s.len() == 0 {
        Seq::empty()
    } else if s.len() == 1 {
        s[0].sql()
    } else {
        order_bys_sql(s.drop_last()) + ", "@ + s.last().sql()
    }
}

impl Function {
    pub open spec fn sql(self) -> Seq<char>
        decreases self, 0nat,
    {
        self.name.sql() + "("@ + when(self.distinct, "DISTINCT "@) + self.args.sql() + ")"@
            + match self.filter {
            Some(f) => " FILTER (WHERE "@ + f.sql() + ")"@,
            None => Seq::empty(),
        } + match self.over {
            Some(w) => " OVER ("@ + w.sql() + ")"@,
            None => Seq::empty(),
        }
    }
}

impl FunctionArgs {
    pub open spec fn sql(self) -> Seq<char>
        decreases self, 0nat,
    {
        match self {
            FunctionArgs::Star => "*"@,
            FunctionArgs::Args(v) => exprs_sql(v@),
        }
    }
}

impl WindowSpec {
    /// The clauses present: `PARTITION BY` and `ORDER BY` when their lists
    /// are non-empty, then the frame when there is one.
    pub open spec fn clauses(self) -> Seq<Seq<char>>
        decreases self, 0nat,
    {
        (if self.partition_by.len() > 0 {
            seq!["PARTITION BY "@ + exprs_sql(self.partition_by@)]
        } else {
            Seq::empty()
        }) + (if self.order_by.len() > 0 {
            seq!["ORDER BY "@ + order_bys_sql(self.order_by@)]
        } else {
            Seq::empty()
        }) + match self.window_frame {
            Some(f) => seq![f.sql()],
            None => Seq::empty(),
        }
    }

    /// The clauses present, separated by single spaces.
    pub open spec fn sql(self) -> Seq<char>
        decreases self, 1nat,
    {
        join(self.clauses(), " "@)
    }
}

impl WindowFrame {
    /// Where the frame ends; the shorthand form ends at the current row.
    pub open spec fn effective_end_bound(self) -> WindowFrameBound {
        match self.end_bound {
            Some(b) => b,
            None => WindowFrameBound::CurrentRow,
        }
    }

    pub open spec fn sql(self) -> Seq<char> {
        match self.end_bound {
            Some(end) => self.units.sql() + " BETWEEN "@ + self.start_bound.sql() + " AND "@
                + end.sql(),
            None => self.units.sql() + " "@ + self.start_bound.sql(),
        }
    }
}

impl WindowFrameUnits {
    pub open spec fn sql(self) -> Seq<char> {
        match self {
            WindowFrameUnits::Rows => "ROWS"@,
            WindowFrameUnits::Range => "RANGE"@,
            WindowFrameUnits::Groups => "GROUPS"@,
        }
    }
}

impl WindowFrameBound {
    pub open spec fn sql(self) -> Seq<char> {
        match self {
            WindowFrameBound::CurrentRow => "CURRENT ROW"@,
            WindowFrameBound::Preceding(None) => "UNBOUNDED PRECEDING"@,
            WindowFrameBound::Following(None) => "UNBOUNDED FOLLOWING"@,
            WindowFrameBound::Preceding(Some(n)) => decimal(n as nat) + " PRECEDING"@,
            WindowFrameBound::Following(Some(n)) => decimal(n as nat) + " FOLLOWING"@,
        }
    }
}

impl TrimSide {
    /// The name of the function the trim is rendered as.
    pub open spec fn sql(self) -> Seq<char> {
        match self {
            TrimSide::Both => "btrim"@,
            TrimSide::Leading => "ltrim"@,
            TrimSide::Trailing => "rtrim"@,
        }
    }
}

// ---------------------------------------------------------------------
// Rendering
// ---------------------------------------------------------------------

/// Appends the texts of `v` joined by `", "`.
pub fn write_exprs(v: &Vec<Expr>, out: &mut String)
    requires
        all_well_formed(v@),
    ensures
        final(out)@ == old(out)@ + exprs_sql(v@),
    decreases v,
{
    let ghost start = out@;
    let mut i: usize = 0;
    while i < v.len()
        invariant
            i <= v.len(),
            all_well_formed(v@),
            out@ == start + exprs_sql(v@.subrange(0, i as int)),
        decreases v.len() - i,
    {
        if i > 0 {
            out.append(", ");
        }
        proof {
            lemma_member_well_formed(v@, i as int);
        }
        v[i].write_sql(out);
        assert(v@.subrange(0, i + 1).drop_last() =~= v@.subrange(0, i as int));
        i += 1;
    }
    assert(v@.subrange(0, v.len() as int) =~= v@);
}

/// Appends the texts of `v` joined by `", "`.
pub fn write_order_bys(v: &Vec<OrderByExpr>, out: &mut String)
    requires
        order_bys_well_formed(v@),
    ensures
        final(out)@ == old(out)@ + order_bys_sql(v@),
    decreases v,
{
    let ghost start = out@;
    let mut i: usize = 0;
    while i < v.len()
        invariant
            i <= v.len(),
            order_bys_well_formed(v@),
            out@ == start + order_bys_sql(v@.subrange(0, i as int)),
        decreases v.len() - i,
    {
        if i > 0 {
            out.append(", ");
        }
        proof {
            lemma_order_by_well_formed(v@, i as int);
        }
        v[i].write_sql(out);
        assert(v@.subrange(0, i + 1).drop_last() =~= v@.subrange(0, i as int));
        i += 1;
    }
    assert(v@.subrange(0, v.len() as int) =~= v@);
}

impl OrderByExpr {
    pub fn write_sql(&self, out: &mut String)
        requires
            self.expr.well_formed(),
        ensures
            final(out)@ == old(out)@ + self.sql(),
        decreases self,
    {
        self.expr.write_sql(out);
        match self.asc {
            Some(true) => out.append(" ASC"),
            Some(false) => out.append(" DESC"),
            None => {},
        }
    }
}

impl Function {
    pub fn write_sql(&self, out: &mut String)
        requires
            self.well_formed(),
        ensures
            final(out)@ == old(out)@ + self.sql(),
        decreases self,
    {
        self.name.write_sql(out);
        out.append("(");
        if self.distinct {
            out.append("DISTINCT ");
        }
        self.args.write_sql(out);
        out.append(")");
        if let Some(filter) = &self.filter {
            out.append(" FILTER (WHERE ");
            filter.write_sql(out);
            out.append(")");
        }
        if let Some(o) = &self.over {
            out.append(" OVER (");
            o.write_sql(out);
            out.append(")");
        }
    }

    pub fn to_ast_string(&self) -> (r: String)
        requires
            self.well_formed(),
        ensures
            r@ == self.sql(),
    {
        let mut s = String::new();
        self.write_sql(&mut s);
        s
    }
}

impl FunctionArgs {
    pub fn write_sql(&self, out: &mut String)
        requires
            match *self {
                FunctionArgs::Star => true,
                FunctionArgs::Args(v) => all_well_formed(v@),
            },
        ensures
            final(out)@ == old(out)@ + self.sql(),
        decreases self,
    {
        match self {
            FunctionArgs::Star => out.append("*"),
            FunctionArgs::Args(args) => write_exprs(args, out),
        }
    }

    pub fn to_ast_string(&self) -> (r: String)
        requires
            match *self {
                FunctionArgs::Star => true,
                FunctionArgs::Args(v) => all_well_formed(v@),
            },
        ensures
            r@ == self.sql(),
    {
        let mut s = String::new();
        self.write_sql(&mut s);
        s
    }
}

/// Joining one more piece onto a list of pieces adds the separator only
/// when something precedes it.
proof fn lemma_join_push(parts: Seq<Seq<char>>, sep: Seq<char>, p: Seq<char>)
    ensures
        join(parts.push(p), sep) == if parts.len() == 0 {
            p
        } else {
            join(parts, sep) + sep + p
        },
{
    assert(parts.push(p).drop_last() =~= parts);
    if parts.len() == 0 {
        assert(parts.push(p)[0] == p);
    }
}

impl WindowSpec {
    pub fn write_sql(&self, out: &mut String)
        requires
            self.well_formed(),
        ensures
            final(out)@ == old(out)@ + self.sql(),
        decreases self,
    {
        proof {
            reveal_strlit("");
        }
        let ghost start = out@;
        // `pieces` holds the clauses written so far; `delim` is a space
        // exactly when one has been.
        let ghost mut pieces: Seq<Seq<char>> = Seq::empty();
        let mut delim = "";
        if self.partition_by.len() > 0 {
            delim = " ";
            out.append("PARTITION BY ");
            write_exprs(&self.partition_by, out);
            proof {
                let p = "PARTITION BY "@ + exprs_sql(self.partition_by@);
                lemma_join_push(pieces, " "@, p);
                pieces = pieces.push(p);
                assert(out@ =~= start + join(pieces, " "@));
            }
        }
        if self.order_by.len() > 0 {
            out.append(delim);
            delim = " ";
            out.append("ORDER BY ");
            write_order_bys(&self.order_by, out);
            proof {
                let p = "ORDER BY "@ + order_bys_sql(self.order_by@);
                lemma_join_push(pieces, " "@, p);
                pieces = pieces.push(p);
                assert(out@ =~= start + join(pieces, " "@));
            }
        }
        if let Some(window_frame) = &self.window_frame {
            out.append(delim);
            window_frame.write_sql(out);
            proof {
                lemma_join_push(pieces, " "@, window_frame.sql());
                pieces = pieces.push(window_frame.sql());
                assert(out@ =~= start + join(pieces, " "@));
            }
        }
        assert(pieces =~= self.clauses());
    }

    pub fn to_ast_string(&self) -> (r: String)
        requires
            self.well_formed(),
        ensures
            r@ == self.sql(),
    {
        let mut s = String::new();
        self.write_sql(&mut s);
        s
    }
}

impl WindowFrame {
    pub fn write_sql(&self, out: &mut String)
        ensures
            final(out)@ == old(out)@ + self.sql(),
    {
        if let Some(end_bound) = &self.end_bound {
            self.units.write_sql(out);
            out.append(" BETWEEN ");
            self.start_bound.write_sql(out);
            out.append(" AND ");
            end_bound.write_sql(out);
        } else {
            self.units.write_sql(out);
            out.append(" ");
            self.start_bound.write_sql(out);
        }
    }

    pub fn to_ast_string(&self) -> (r: String)
        ensures
            r@ == self.sql(),
    {
        let mut s = String::new();
        self.write_sql(&mut s);
        s
    }
}

impl WindowFrameUnits {
    pub fn write_sql(&self, out: &mut String)
        ensures
            final(out)@ == old(out)@ + self.sql(),
    {
        out.append(
            match self {
                WindowFrameUnits::Rows => "ROWS",
                WindowFrameUnits::Range => "RANGE",
                WindowFrameUnits::Groups => "GROUPS",
            },
        );
    }

    pub fn to_ast_string(&self) -> (r: String)
        ensures
            r@ == self.sql(),
    {
        let mut s = String::new();
        self.write_sql(&mut s);
        s
    }
}

impl WindowFrameBound {
    pub fn write_sql(&self, out: &mut String)
        ensures
            final(out)@ == old(out)@ + self.sql(),
    {
        match self {
            WindowFrameBound::CurrentRow => out.append("CURRENT ROW"),
            WindowFrameBound::Preceding(None) => out.append("UNBOUNDED PRECEDING"),
            WindowFrameBound::Following(None) => out.append("UNBOUNDED FOLLOWING"),
            WindowFrameBound::Preceding(Some(n)) => {
                write_decimal(*n, out);
                out.append(" PRECEDING");
            },
            WindowFrameBound::Following(Some(n)) => {
                write_decimal(*n, out);
                out.append(" FOLLOWING");
            },
        }
    }

    pub fn to_ast_string(&self) -> (r: String)
        ensures
            r@ == self.sql(),
    {
        let mut s = String::new();
        self.write_sql(&mut s);
        s
    }
}

impl TrimSide {
    pub fn write_sql(&self, out: &mut String)
        ensures
            final(out)@ == old(out)@ + self.sql(),
    {
        match self {
            TrimSide::Both => out.append("btrim"),
            TrimSide::Leading => out.append("ltrim"),
            TrimSide::Trailing => out.append("rtrim"),
        }
    }

    pub fn to_ast_string(&self) -> (r: String)
        ensures
            r@ == self.sql(),
    {
        let mut s = String::new();
        self.write_sql(&mut s);
        s
    }
}

impl Expr {
    /// Whether `self` is a string literal.
    pub fn is_string_literal(&self) -> (r: bool)
        ensures
            r == match *self {
                Expr::Value(Value::String(_)) => true,
                _ => false,
            },
    {
        if let Expr::Value(Value::String(_)) = self {
            true
        } else {
            false
        }
    }

    /// The SQL text of `self`.
    pub fn to_ast_string(&self) -> (r: String)
        requires
            self.well_formed(),
        ensures
            r@ == self.sql(),
    {
        let mut s = String::new();
        self.write_sql(&mut s);
        s
    }

    /// Appends the SQL text of `self`.
    #[verifier::loop_isolation(false)]
    pub fn write_sql(&self, out: &mut String)
        requires
            self.well_formed(),
        ensures
            final(out)@ == old(out)@ + self.sql(),
        decreases self,
    {
        match self {
            Expr::Identifier(s) => write_idents(s, ".", out),
            Expr::QualifiedWildcard(q) => {
                write_idents(q, ".", out);
                out.append(".*");
            },
            Expr::Parameter(n) => {
                out.append("$");
                write_decimal(*n as u64, out);
            },
            Expr::IsNull(ast) => {
                ast.write_sql(out);
                out.append(" IS NULL");
            },
            Expr::IsNotNull(ast) => {
                ast.write_sql(out);
                out.append(" IS NOT NULL");
            },
            Expr::InList { expr, list, negated } => {
                expr.write_sql(out);
                out.append(" ");
                if *negated {
                    out.append("NOT ");
                }
                out.append("IN (");
                write_exprs(list, out);
                out.append(")");
            },
            Expr::InSubquery { expr, subquery, negated } => {
                expr.write_sql(out);
                out.append(" ");
                if *negated {
                    out.append("NOT ");
                }
                out.append("IN (");
                subquery.write_sql(out);
                out.append(")");
            },
            Expr::Between { expr, negated, low, high } => {
                expr.write_sql(out);
                if *negated {
                    out.append(" NOT");
                }
                out.append(" BETWEEN ");
                low.write_sql(out);
                out.append(" AND ");
                high.write_sql(out);
            },
            Expr::BinaryOp { left, op, right } => {
                left.write_sql(out);
                out.append(" ");
                out.append(op.as_str());
                out.append(" ");
                right.write_sql(out);
            },
            Expr::UnaryOp { op, expr } => {
                out.append(op.as_str());
                out.append(" ");
                expr.write_sql(out);
            },
            Expr::Cast { expr, data_type } => {
                // `::` binds tightly, so an operand that is not
                // self-delimiting is wrapped to keep its meaning.
                let needs_wrap = match **expr {
                    Expr::Nested(_)
                    | Expr::Value(_)
                    | Expr::Cast { .. }
                    | Expr::Function(_)
                    | Expr::Identifier(_)
                    | Expr::Extract { .. }
                    | Expr::Trim { .. }
                    | Expr::Collate { .. }
                    | Expr::Coalesce { .. } => false,
                    _ => true,
                };
                if needs_wrap {
                    out.append("(");
                }
                expr.write_sql(out);
                if needs_wrap {
                    out.append(")");
                }
                out.append("::");
                data_type.write_sql(out);
            },
            Expr::Extract { field, expr } => {
                out.append("EXTRACT(");
                write_escaped(field.as_str(), out);
                out.append(" FROM ");
                expr.write_sql(out);
                out.append(")");
            },
            Expr::Trim { side, exprs } => {
                side.write_sql(out);
                out.append("(");
                proof {
                    lemma_member_well_formed(exprs@, 0);
                }
                exprs[0].write_sql(out);
                if exprs.len() == 2 {
                    out.append(", ");
                    proof {
                        lemma_member_well_formed(exprs@, 1);
                    }
                    exprs[1].write_sql(out);
                }
                out.append(")");
            },
            Expr::Collate { expr, collation } => {
                expr.write_sql(out);
                out.append(" COLLATE ");
                collation.write_sql(out);
            },
            Expr::Coalesce { exprs } => {
                out.append("COALESCE(");
                write_exprs(exprs, out);
                out.append(")");
            },
            Expr::Nested(ast) => {
                out.append("(");
                ast.write_sql(out);
                out.append(")");
            },
            Expr::Row { exprs } => {
                out.append("ROW(");
                write_exprs(exprs, out);
                out.append(")");
            },
            Expr::Value(v) => v.write_sql(out),
            Expr::Function(fun) => fun.write_sql(out),
            Expr::Case { operand, conditions, results, else_result } => {
                out.append("CASE");
                if let Some(operand) = operand {
                    out.append(" ");
                    operand.write_sql(out);
                }
                let ghost mid = out@;
                let mut i: usize = 0;
                while i < conditions.len()
                    invariant
                        i <= conditions.len(),
                        out@ == mid + case_pairs_sql(*self, i as nat),
                    decreases conditions.len() - i,
                {
                    out.append(" WHEN ");
                    proof {
                        lemma_member_well_formed(conditions@, i as int);
                        lemma_member_well_formed(results@, i as int);
                    }
                    conditions[i].write_sql(out);
                    out.append(" THEN ");
                    results[i].write_sql(out);
                    i += 1;
                }
                if let Some(else_result) = else_result {
                    out.append(" ELSE ");
                    else_result.write_sql(out);
                }
                out.append(" END");
            },
            Expr::Exists(s) => {
                out.append("EXISTS (");
                s.write_sql(out);
                out.append(")");
            },
            Expr::Subquery(s) => {
                out.append("(");
                s.write_sql(out);
                out.append(")");
            },
            Expr::Any { left, op, right, some } => {
                left.write_sql(out);
                out.append(" ");
                out.append(op.as_str());
                if *some {
                    out.append(" SOME ");
                } else {
                    out.append(" ANY ");
                }
                out.append("(");
                right.write_sql(out);
                out.append(")");
            },
            Expr::All { left, op, right } => {
                left.write_sql(out);
                out.append(" ");
                out.append(op.as_str());
                out.append(" ALL (");
                right.write_sql(out);
                out.append(")");
            },
            Expr::List(exprs) => {
                out.append("LIST[");
                write_exprs(exprs, out);
                out.append("]");
            },
        }
    }
}

} // verus!
