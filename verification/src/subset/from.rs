use crate::subset::ast::Expr;
use crate::subset::ast::ExprConcat;
use vstd::prelude::*;

verus! {

impl From<ExprConcat> for Expr {
    fn from(concat: ExprConcat) -> (r: Expr) {
        Expr::Concat(concat)
    }
}

impl vstd::std_specs::convert::FromSpecImpl<ExprConcat> for Expr {
    open spec fn obeys_from_spec() -> bool {
        true
    }

    open spec fn from_spec(concat: ExprConcat) -> Expr {
        Expr::Concat(concat)
    }
}

impl From<String> for Expr {
    fn from(id: String) -> (r: Expr) {
        Expr::Ref(id)
    }
}

impl vstd::std_specs::convert::FromSpecImpl<String> for Expr {
    open spec fn obeys_from_spec() -> bool {
        true
    }

    open spec fn from_spec(id: String) -> Expr {
        Expr::Ref(id)
    }
}

impl From<i32> for Expr {
    fn from(i: i32) -> (r: Expr) {
        Expr::Int(i)
    }
}

impl vstd::std_specs::convert::FromSpecImpl<i32> for Expr {
    open spec fn obeys_from_spec() -> bool {
        true
    }

    open spec fn from_spec(i: i32) -> Expr {
        Expr::Int(i)
    }
}

} // verus!
