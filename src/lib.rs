//! SQL scalar expressions and their rendering back into SQL text.
use vstd::prelude::*;

pub mod expr;
pub mod laws;
pub mod leaf;
pub mod text;

pub use expr::{
    Expr, Function, FunctionArgs, OrderByExpr, TrimSide, WindowFrame, WindowFrameBound,
    WindowFrameUnits, WindowSpec,
};
pub use leaf::{BinaryOperator, DataType, Ident, ObjectName, Query, UnaryOperator, Value};

verus! {

} // verus!
