use crate::subset::ast::Attribute;
use crate::subset::ast::AttributeTy;
use crate::subset::ast::Expr;
use crate::subset::ast::ExprConcat;
use crate::subset::ast::Id;
use crate::subset::ast::Instance;
use crate::subset::ast::InstancePath;
use crate::subset::sort::entry_views;
use vstd::prelude::*;

verus! {

impl Default for Instance {
    /// An instance with no names, no entries and no attributes.
    fn default() -> (r: Instance)
        ensures
            r.id@ == Seq::<char>::empty(),
            r.prim@ == Seq::<char>::empty(),
            r.params@ == Seq::<(Id, Expr)>::empty(),
            r.ports@ == Seq::<(Id, Expr)>::empty(),
            r.attr.attrs@ == Seq::<AttributeTy>::empty(),
            r.wf(),
    {
        let r = Instance {
            id: String::new(),
            prim: String::new(),
            params: Vec::new(),
            ports: Vec::new(),
            attr: Attribute { attrs: Vec::new() },
        };
        proof {
            assert(entry_views(r.params@) =~= Seq::<(Seq<char>, Expr)>::empty());
            assert(entry_views(r.ports@) =~= Seq::<(Seq<char>, Expr)>::empty());
        }
        r
    }
}

impl Default for InstancePath {
    /// A path with no segments.
    fn default() -> (r: InstancePath)
        ensures
            r.path@ == Seq::<Id>::empty(),
    {
        InstancePath { path: Vec::new() }
    }
}

impl Default for ExprConcat {
    /// A concatenation with no operands.
    fn default() -> (r: ExprConcat)
        ensures
            r.exprs@ == Seq::<Expr>::empty(),
    {
        ExprConcat { exprs: Vec::new() }
    }
}

impl Default for Attribute {
    /// An attribute block with no entries.
    fn default() -> (r: Attribute)
        ensures
            r.attrs@ == Seq::<AttributeTy>::empty(),
    {
        Attribute { attrs: Vec::new() }
    }
}

} // verus!
