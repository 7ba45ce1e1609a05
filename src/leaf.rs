//! The leaf types an expression tree refers to: names, literal values,
//! data types, operators and subqueries. Each knows its own SQL text.
use vstd::prelude::*;
use vstd::string::StringExecFns;
use crate::text::{escape_single_quotes, join, write_escaped};

verus! {

broadcast use crate::text::lemma_concat_regroup;

/// A single SQL identifier, rendered as written.
#[derive(Debug, Clone, PartialEq, Eq, Hash)]
pub struct Ident(pub String);

impl Ident {
    pub open spec fn sql(self) -> Seq<char> {
        self.0@
    }

    pub fn write_sql(&self, out: &mut String)
        ensures
            final(out)@ == old(out)@ + self.sql(),
    {
        out.append(self.0.as_str());
    }
}

/// The text of each identifier in `parts`, in order.
pub open spec fn ident_texts(parts: Seq<Ident>) -> Seq<Seq<char>> {
    parts.map_values(|i: Ident| i.sql())
}

/// Appends the identifiers of `parts` joined by `sep`.
pub fn write_idents(parts: &Vec<Ident>, sep: &str, out: &mut String)
    ensures
        final(out)@ == old(out)@ + join(ident_texts(parts@), sep@),
{
    let ghost start = out@;
    let mut i: usize = 0;
    while i < parts.len()
        invariant
            i <= parts.len(),
            out@ == start + join(ident_texts(parts@.subrange(0, i as int)), sep@),
        decreases parts.len() - i,
    {
        if i > 0 {
            out.append(sep);
        }
        parts[i].write_sql(out);
        assert(ident_texts(parts@.subrange(0, i + 1)).drop_last() =~= ident_texts(
            parts@.subrange(0, i as int),
        ));
        i += 1;
    }
    assert(parts@.subrange(0, parts.len() as int) =~= parts@);
}

/// A possibly qualified name such as `schema.table`.
#[derive(Debug, Clone, PartialEq, Eq, Hash)]
pub struct ObjectName(pub Vec<Ident>);

impl ObjectName {
    pub open spec fn sql(self) -> Seq<char> {
        join(ident_texts(self.0@), "."@)
    }

    pub fn write_sql(&self, out: &mut String)
        ensures
            final(out)@ == old(out)@ + self.sql(),
    {
        write_idents(&self.0, ".", out);
    }
}

/// A literal value.
#[derive(Debug, Clone, PartialEq, Eq, Hash)]
pub enum Value {
    /// A numeric literal, kept as written.
    Number(String),
    /// A string literal; rendered in single quotes.
    String(String),
    Boolean(bool),
    Null,
}

impl Value {
    pub open spec fn sql(self) -> Seq<char> {
        match self {
            Value::Number(n) => n@,
            Value::String(s) => seq!['\''] + escape_single_quotes(s@) + seq!['\''],
            Value::Boolean(b) => if b {
                "TRUE"@
            } else {
                "FALSE"@
            },
            Value::Null => "NULL"@,
        }
    }

    pub fn write_sql(&self, out: &mut String)
        ensures
            final(out)@ == old(out)@ + self.sql(),
    {
        match self {
            Value::Number(n) => out.append(n.as_str()),
            Value::String(s) => {
                crate::text::push_char(out, '\'');
                write_escaped(s.as_str(), out);
                crate::text::push_char(out, '\'');
            },
            Value::Boolean(b) => {
                if *b {
                    out.append("TRUE");
                } else {
                    out.append("FALSE");
                }
            },
            Value::Null => out.append("NULL"),
        }
    }
}

/// A data type name such as `INT4` or `TEXT`, rendered as written.
#[derive(Debug, Clone, PartialEq, Eq, Hash)]
pub struct DataType(pub String);

impl DataType {
    pub open spec fn sql(self) -> Seq<char> {
        self.0@
    }

    pub fn write_sql(&self, out: &mut String)
        ensures
            final(out)@ == old(out)@ + self.sql(),
    {
        out.append(self.0.as_str());
    }
}

/// A subquery. Statement-level syntax lies outside expressions, so the
/// query is carried as its SQL text.
#[derive(Debug, Clone, PartialEq, Eq, Hash)]
pub struct Query(pub String);

impl Query {
    pub open spec fn sql(self) -> Seq<char> {
        self.0@
    }

    pub fn write_sql(&self, out: &mut String)
        ensures
            final(out)@ == old(out)@ + self.sql(),
    {
        out.append(self.0.as_str());
    }
}

/// Binary operators.
#[derive(Debug, Clone, Copy, PartialEq, Eq, Hash)]
pub enum BinaryOperator {
    Plus,
    Minus,
    Multiply,
    Divide,
    Modulus,
    Concat,
    Gt,
    Lt,
    GtEq,
    LtEq,
    Eq,
    NotEq,
    And,
    Or,
    Like,
    NotLike,
}

impl BinaryOperator {
    pub open spec fn sql(self) -> Seq<char> {
        match self {
            BinaryOperator::Plus => "+"@,
            BinaryOperator::Minus => "-"@,
            BinaryOperator::Multiply => "*"@,
            BinaryOperator::Divide => "/"@,
            BinaryOperator::Modulus => "%"@,
            BinaryOperator::Concat => "||"@,
            BinaryOperator::Gt => ">"@,
            BinaryOperator::Lt => "<"@,
            BinaryOperator::GtEq => ">="@,
            BinaryOperator::LtEq => "<="@,
            BinaryOperator::Eq => "="@,
            BinaryOperator::NotEq => "<>"@,
            BinaryOperator::And => "AND"@,
            BinaryOperator::Or => "OR"@,
            BinaryOperator::Like => "LIKE"@,
            BinaryOperator::NotLike => "NOT LIKE"@,
        }
    }

    pub fn as_str(&self) -> (r: &'static str)
        ensures
            r@ == self.sql(),
    {
        match self {
            BinaryOperator::Plus => "+",
            BinaryOperator::Minus => "-",
            BinaryOperator::Multiply => "*",
            BinaryOperator::Divide => "/",
            BinaryOperator::Modulus => "%",
            BinaryOperator::Concat => "||",
            BinaryOperator::Gt => ">",
            BinaryOperator::Lt => "<",
            BinaryOperator::GtEq => ">=",
            BinaryOperator::LtEq => "<=",
            BinaryOperator::Eq => "=",
            BinaryOperator::NotEq => "<>",
            BinaryOperator::And => "AND",
            BinaryOperator::Or => "OR",
            BinaryOperator::Like => "LIKE",
            BinaryOperator::NotLike => "NOT LIKE",
        }
    }
}

/// Unary operators.
#[derive(Debug, Clone, Copy, PartialEq, Eq, Hash)]
pub enum UnaryOperator {
    Plus,
    Minus,
    Not,
}

impl UnaryOperator {
    pub open spec fn sql(self) -> Seq<char> {
        match self {
            UnaryOperator::Plus => "+"@,
            UnaryOperator::Minus => "-"@,
            UnaryOperator::Not => "NOT"@,
        }
    }

    pub fn as_str(&self) -> (r: &'static str)
        ensures
            r@ == self.sql(),
    {
        match self {
            UnaryOperator::Plus => "+",
            UnaryOperator::Minus => "-",
            UnaryOperator::Not => "NOT",
        }
    }
}

} // verus!
