use crate::subset::ast::Attribute;
use crate::subset::ast::AttributeTy;
use crate::subset::ast::Binop;
use crate::subset::ast::Expr;
use crate::subset::ast::ExprConcat;
use crate::subset::ast::Id;
use crate::subset::ast::Instance;
use crate::subset::ast::InstancePath;
use crate::subset::ast::Radix;
use crate::subset::ast::Terop;
use crate::subset::ast::Unop;
use crate::subset::sort::assoc_insert;
use crate::subset::sort::entry_insert;
use crate::subset::sort::entry_views;
use crate::util::num::dec_str;
use crate::util::num::u32_to_string;
use vstd::prelude::*;

verus! {

// ----------------------------------------------------------------------------
// Copies. The syntax tree owns its children outright, so a copy clones
// every child. The copies carry no contract; nothing verified relies on
// them.
// ----------------------------------------------------------------------------

fn clone_ids(v: &Vec<Id>) -> Vec<Id> {
    let mut r: Vec<Id> = Vec::new();
    let mut i: usize = 0;
    while i < v.len()
        decreases v@.len() - i,
    {
        r.push(v[i].clone());
        i += 1;
    }
    r
}

fn clone_exprs(v: &Vec<Expr>) -> Vec<Expr>
    decreases v@,
{
    let mut r: Vec<Expr> = Vec::new();
    let mut i: usize = 0;
    while i < v.len()
        decreases v@.len() - i,
    {
        r.push(clone_expr(&v[i]));
        i += 1;
    }
    r
}

fn clone_expr(e: &Expr) -> Expr
    decreases *e,
{
    match e {
        Expr::Ref(id) => Expr::Ref(id.clone()),
        Expr::Int(i) => Expr::Int(*i),
        Expr::ULit(w, r, v) => Expr::ULit(*w, *r, v.clone()),
        Expr::Str(s) => Expr::Str(s.clone()),
        Expr::Signed(b) => Expr::Signed(Box::new(clone_expr(&**b))),
        Expr::IPath(p, idx) => Expr::IPath(
            InstancePath { path: clone_ids(&p.path) },
            match idx {
                Option::Some(b) => Option::Some(Box::new(clone_expr(&**b))),
                Option::None => Option::None,
            },
        ),
        Expr::Unop(op, b) => Expr::Unop(*op, Box::new(clone_expr(&**b))),
        Expr::Binop(op, a, b) => Expr::Binop(
            *op,
            Box::new(clone_expr(&**a)),
            Box::new(clone_expr(&**b)),
        ),
        Expr::Terop(op, a, b, c) => Expr::Terop(
            *op,
            Box::new(clone_expr(&**a)),
            Box::new(clone_expr(&**b)),
            Box::new(clone_expr(&**c)),
        ),
        Expr::Concat(c) => Expr::Concat(ExprConcat { exprs: clone_exprs(&c.exprs) }),
        Expr::Repeat(n, b) => Expr::Repeat(*n, Box::new(clone_expr(&**b))),
        Expr::Call(id, params) => Expr::Call(id.clone(), clone_exprs(params)),
    }
}

impl Clone for Expr {
    fn clone(&self) -> Expr {
        clone_expr(self)
    }
}

impl Clone for ExprConcat {
    fn clone(&self) -> ExprConcat {
        ExprConcat { exprs: clone_exprs(&self.exprs) }
    }
}

impl Clone for InstancePath {
    fn clone(&self) -> InstancePath {
        InstancePath { path: clone_ids(&self.path) }
    }
}

impl Clone for AttributeTy {
    fn clone(&self) -> AttributeTy {
        match self {
            AttributeTy::Val(v) => AttributeTy::Val(v.clone()),
            AttributeTy::Stmt(k, v) => AttributeTy::Stmt(k.clone(), v.clone()),
        }
    }
}

impl Clone for Attribute {
    fn clone(&self) -> Attribute {
        let mut attrs: Vec<AttributeTy> = Vec::new();
        let mut i: usize = 0;
        while i < self.attrs.len()
            decreases self.attrs@.len() - i,
        {
            attrs.push(self.attrs[i].clone());
            i += 1;
        }
        Attribute { attrs }
    }
}

fn clone_entries(v: &Vec<(Id, Expr)>) -> Vec<(Id, Expr)> {
    let mut r: Vec<(Id, Expr)> = Vec::new();
    let mut i: usize = 0;
    while i < v.len()
        decreases v@.len() - i,
    {
        r.push((v[i].0.clone(), clone_expr(&v[i].1)));
        i += 1;
    }
    r
}

impl Clone for Instance {
    fn clone(&self) -> Instance {
        Instance {
            id: self.id.clone(),
            prim: self.prim.clone(),
            params: clone_entries(&self.params),
            ports: clone_entries(&self.ports),
            attr: self.attr.clone(),
        }
    }
}

// ----------------------------------------------------------------------------
// Dotted paths.
// ----------------------------------------------------------------------------

/// Splits on `'.'`, character by character; `cur` is the segment read so
/// far. Every dot ends a segment, and the text after the last dot is a
/// segment too, so the result is never empty.
pub open spec fn split_acc(s: Seq<char>, cur: Seq<char>) -> Seq<Seq<char>>
    decreases s.len(),
{
    if s.len() == 0 {
        seq![cur]
    } else if s[0] == '.' {
        seq![cur] + split_acc(s.drop_first(), Seq::empty())
    } else {
        split_acc(s.drop_first(), cur.push(s[0]))
    }
}

/// The segments of `s` between its dots.
pub open spec fn split_dots(s: Seq<char>) -> Seq<Seq<char>> {
    split_acc(s, Seq::empty())
}

/// The texts of a list of names.
pub open spec fn id_views(s: Seq<Id>) -> Seq<Seq<char>> {
    s.map_values(|id: Id| id@)
}

impl InstancePath {
    /// Parses a dotted path such as `a.b.c` into its segments.
    pub fn new(path: &str) -> (r: InstancePath)
        ensures
            id_views(r.path@) == split_dots(path@),
    {
        let mut segs: Vec<Id> = Vec::new();
        let n = path.unicode_len();
        let mut seg_start: usize = 0;
        let mut i: usize = 0;
        proof {
            assert(path@.skip(0) =~= path@);
            assert(path@.subrange(0, 0) =~= Seq::<char>::empty());
            assert(id_views(segs@) =~= Seq::<Seq<char>>::empty());
            assert(Seq::<Seq<char>>::empty() + split_acc(path@, Seq::<char>::empty())
                =~= split_acc(path@, Seq::<char>::empty()));
        }
        while i < n
            invariant
                seg_start <= i <= n,
                n == path@.len(),
                split_dots(path@) == id_views(segs@) + split_acc(
                    path@.skip(i as int),
                    path@.subrange(seg_start as int, i as int),
                ),
            decreases n - i,
        {
            let ghost rest = path@.skip(i as int);
            let ghost cur = path@.subrange(seg_start as int, i as int);
            let c = path.get_char(i);
            if c == '.' {
                segs.push(path.substring_char(seg_start, i).to_owned());
                proof {
                    let ghost old_views = id_views(segs@.drop_last());
                    assert(rest[0] == '.');
                    assert(rest.drop_first() =~= path@.skip(i as int + 1));
                    assert(path@.subrange(i as int + 1, i as int + 1) =~= Seq::<char>::empty());
                    assert(id_views(segs@) =~= id_views(segs@.drop_last()).push(cur));
                    assert(id_views(segs@.drop_last()).push(cur) =~= id_views(segs@.drop_last())
                        + seq![cur]);
                    vstd::seq_lib::lemma_concat_associative(
                        id_views(segs@.drop_last()),
                        seq![cur],
                        split_acc(path@.skip(i as int + 1), Seq::<char>::empty()),
                    );
                    assert(seq![cur] + split_acc(path@.skip(i as int + 1), Seq::<char>::empty())
                        =~= split_acc(rest, cur));
                }
                seg_start = i + 1;
            } else {
                proof {
                    assert(rest[0] == path@[i as int]);
                    assert(rest.drop_first() =~= path@.skip(i as int + 1));
                    assert(path@.subrange(seg_start as int, i as int + 1) =~= cur.push(
                        path@[i as int],
                    ));
                }
            }
            i += 1;
        }
        segs.push(path.substring_char(seg_start, n).to_owned());
        proof {
            assert(path@.skip(n as int) =~= Seq::<char>::empty());
            let ghost cur = path@.subrange(seg_start as int, n as int);
            assert(id_views(segs@) =~= id_views(segs@.drop_last()).push(cur));
            assert(id_views(segs@.drop_last()).push(cur) =~= id_views(segs@.drop_last())
                + seq![cur]);
        }
        InstancePath { path: segs }
    }

    pub fn path(&self) -> (r: &Vec<Id>)
        ensures
            *r == self.path,
    {
        &self.path
    }

    /// Appends one more segment to the path.
    pub fn add_inst(&mut self, name: &str)
        ensures
            final(self).path@.len() == old(self).path@.len() + 1,
            final(self).path@.drop_last() == old(self).path@,
            final(self).path@.last()@ == name@,
    {
        self.path.push(name.to_owned());
        proof {
            assert(final(self).path@.drop_last() =~= old(self).path@);
        }
    }
}

impl ExprConcat {
    pub fn exprs(&self) -> (r: &Vec<Expr>)
        ensures
            *r == self.exprs,
    {
        &self.exprs
    }

    /// Appends one more operand to the concatenation.
    pub fn add_expr(&mut self, expr: Expr)
        ensures
            final(self).exprs@ == old(self).exprs@.push(expr),
    {
        self.exprs.push(expr);
    }
}

// ----------------------------------------------------------------------------
// Expressions.
// ----------------------------------------------------------------------------

/// Whether `id` reaches a reference: the expression is a reference,
/// possibly under sign casts.
pub open spec fn has_id(e: Expr) -> bool
    decreases e,
{
    match e {
        Expr::Ref(_) => true,
        Expr::Signed(b) => has_id(*b),
        _ => false,
    }
}

/// The referenced name, for expressions that have one.
pub open spec fn spec_id(e: Expr) -> Seq<char>
    decreases e,
{
    match e {
        Expr::Ref(id) => id@,
        Expr::Signed(b) => spec_id(*b),
        _ => Seq::empty(),
    }
}

impl Expr {
    /// The name this expression refers to.
    pub fn id(&self) -> (r: String)
        requires
            has_id(*self),
        ensures
            r@ == spec_id(*self),
        decreases *self,
    {
        match self {
            Expr::Ref(id) => id.clone(),
            Expr::Signed(e) => e.id(),
            _ => String::new(),
        }
    }

    pub fn new_ref(name: &str) -> (e: Expr)
        ensures
            e matches Expr::Ref(id) && id@ == name@,
    {
        Expr::Ref(name.to_owned())
    }

    pub fn new_signed_ref(name: &str) -> (e: Expr)
        ensures
            e matches Expr::Signed(inner) && *inner matches Expr::Ref(id) && id@ == name@,
    {
        Expr::Signed(Box::new(Expr::Ref(name.to_owned())))
    }

    pub fn new_signed(expr: Expr) -> (e: Expr)
        ensures
            e == Expr::Signed(Box::new(expr)),
    {
        Expr::Signed(Box::new(expr))
    }

    pub fn new_str(value: &str) -> (e: Expr)
        ensures
            e matches Expr::Str(v) && v@ == value@,
    {
        Expr::Str(value.to_owned())
    }

    pub fn new_ulit_dec(width: u32, value: &str) -> (e: Expr)
        requires
            width > 0,
        ensures
            e matches Expr::ULit(w, r, v) && w == width && r == Radix::Dec && v@ == value@,
    {
        Expr::ULit(width, Radix::Dec, value.to_owned())
    }

    pub fn new_ulit_hex(width: u32, value: &str) -> (e: Expr)
        requires
            width > 0,
        ensures
            e matches Expr::ULit(w, r, v) && w == width && r == Radix::Hex && v@ == value@,
    {
        Expr::ULit(width, Radix::Hex, value.to_owned())
    }

    pub fn new_ulit_bin(width: u32, value: &str) -> (e: Expr)
        requires
            width > 0,
        ensures
            e matches Expr::ULit(w, r, v) && w == width && r == Radix::Bin && v@ == value@,
    {
        Expr::ULit(width, Radix::Bin, value.to_owned())
    }

    pub fn new_bit_or(lhs: Expr, rhs: Expr) -> (e: Expr)
        ensures
            e == Expr::Binop(Binop::BitOr, Box::new(lhs), Box::new(rhs)),
    {
        Expr::Binop(Binop::BitOr, Box::new(lhs), Box::new(rhs))
    }

    pub fn new_bit_and(lhs: Expr, rhs: Expr) -> (e: Expr)
        ensures
            e == Expr::Binop(Binop::BitAnd, Box::new(lhs), Box::new(rhs)),
    {
        Expr::Binop(Binop::BitAnd, Box::new(lhs), Box::new(rhs))
    }

    pub fn new_logical_or(lhs: Expr, rhs: Expr) -> (e: Expr)
        ensures
            e == Expr::Binop(Binop::LogOr, Box::new(lhs), Box::new(rhs)),
    {
        Expr::Binop(Binop::LogOr, Box::new(lhs), Box::new(rhs))
    }

    pub fn new_logical_and(lhs: Expr, rhs: Expr) -> (e: Expr)
        ensures
            e == Expr::Binop(Binop::LogAnd, Box::new(lhs), Box::new(rhs)),
    {
        Expr::Binop(Binop::LogAnd, Box::new(lhs), Box::new(rhs))
    }

    pub fn new_add(lhs: Expr, rhs: Expr) -> (e: Expr)
        ensures
            e == Expr::Binop(Binop::Add, Box::new(lhs), Box::new(rhs)),
    {
        Expr::Binop(Binop::Add, Box::new(lhs), Box::new(rhs))
    }

    pub fn new_shift_left(lhs: Expr, rhs: Expr) -> (e: Expr)
        ensures
            e == Expr::Binop(Binop::ShiftLeft, Box::new(lhs), Box::new(rhs)),
    {
        Expr::Binop(Binop::ShiftLeft, Box::new(lhs), Box::new(rhs))
    }

    pub fn new_sub(lhs: Expr, rhs: Expr) -> (e: Expr)
        ensures
            e == Expr::Binop(Binop::Sub, Box::new(lhs), Box::new(rhs)),
    {
        Expr::Binop(Binop::Sub, Box::new(lhs), Box::new(rhs))
    }

    pub fn new_gt(lhs: Expr, rhs: Expr) -> (e: Expr)
        ensures
            e == Expr::Binop(Binop::Gt, Box::new(lhs), Box::new(rhs)),
    {
        Expr::Binop(Binop::Gt, Box::new(lhs), Box::new(rhs))
    }

    pub fn new_lt(lhs: Expr, rhs: Expr) -> (e: Expr)
        ensures
            e == Expr::Binop(Binop::Lt, Box::new(lhs), Box::new(rhs)),
    {
        Expr::Binop(Binop::Lt, Box::new(lhs), Box::new(rhs))
    }

    pub fn new_geq(lhs: Expr, rhs: Expr) -> (e: Expr)
        ensures
            e == Expr::Binop(Binop::Geq, Box::new(lhs), Box::new(rhs)),
    {
        Expr::Binop(Binop::Geq, Box::new(lhs), Box::new(rhs))
    }

    pub fn new_leq(lhs: Expr, rhs: Expr) -> (e: Expr)
        ensures
            e == Expr::Binop(Binop::Leq, Box::new(lhs), Box::new(rhs)),
    {
        Expr::Binop(Binop::Leq, Box::new(lhs), Box::new(rhs))
    }

    pub fn new_eq(lhs: Expr, rhs: Expr) -> (e: Expr)
        ensures
            e == Expr::Binop(Binop::Equal, Box::new(lhs), Box::new(rhs)),
    {
        Expr::Binop(Binop::Equal, Box::new(lhs), Box::new(rhs))
    }

    pub fn new_neq(lhs: Expr, rhs: Expr) -> (e: Expr)
        ensures
            e == Expr::Binop(Binop::NotEqual, Box::new(lhs), Box::new(rhs)),
    {
        Expr::Binop(Binop::NotEqual, Box::new(lhs), Box::new(rhs))
    }

    pub fn new_mul(lhs: Expr, rhs: Expr) -> (e: Expr)
        ensures
            e == Expr::Binop(Binop::Mul, Box::new(lhs), Box::new(rhs)),
    {
        Expr::Binop(Binop::Mul, Box::new(lhs), Box::new(rhs))
    }

    pub fn new_mux(cond: Expr, tru: Expr, fal: Expr) -> (e: Expr)
        ensures
            e == Expr::Terop(Terop::Mux, Box::new(cond), Box::new(tru), Box::new(fal)),
    {
        Expr::Terop(Terop::Mux, Box::new(cond), Box::new(tru), Box::new(fal))
    }

    pub fn new_not(exp: Expr) -> (e: Expr)
        ensures
            e == Expr::Unop(Unop::Not, Box::new(exp)),
    {
        Expr::Unop(Unop::Not, Box::new(exp))
    }

    pub fn new_slice(var: &str, hi: Expr, lo: Expr) -> (e: Expr)
        ensures
            e matches Expr::Terop(t, v, h, l) && *v matches Expr::Ref(id) && (t == Terop::Slice
                && id@ == var@ && *h == hi && *l == lo),
    {
        Expr::Terop(
            Terop::Slice,
            Box::new(Expr::new_ref(var)),
            Box::new(hi),
            Box::new(lo),
        )
    }

    pub fn new_index_slice(var: &str, lo: Expr, width: u32) -> (e: Expr)
        ensures
            e matches Expr::Terop(t, v, l, w) && *v matches Expr::Ref(id) && (t
                == Terop::IndexSlice && id@ == var@ && *l == lo && *w == Expr::Int(
                width as i32,
            )),
    {
        Expr::Terop(
            Terop::IndexSlice,
            Box::new(Expr::new_ref(var)),
            Box::new(lo),
            Box::new(Expr::Int(width as i32)),
        )
    }

    pub fn new_index_bit(var: &str, bit: i32) -> (e: Expr)
        ensures
            e matches Expr::Binop(op, v, b) && *v matches Expr::Ref(id) && (op == Binop::IndexBit
                && id@ == var@ && *b == Expr::Int(bit)),
    {
        Expr::Binop(
            Binop::IndexBit,
            Box::new(Expr::new_ref(var)),
            Box::new(Expr::Int(bit)),
        )
    }

    pub fn new_index_expr(var: &str, expr: Expr) -> (e: Expr)
        ensures
            e matches Expr::Binop(op, v, b) && *v matches Expr::Ref(id) && (op == Binop::IndexBit
                && id@ == var@ && *b == expr),
    {
        Expr::Binop(Binop::IndexBit, Box::new(Expr::new_ref(var)), Box::new(expr))
    }

    pub fn new_int(value: i32) -> (e: Expr)
        ensures
            e == Expr::Int(value),
    {
        Expr::Int(value)
    }

    pub fn new_ipath(path: &str) -> (e: Expr)
        ensures
            e matches Expr::IPath(p, idx) && id_views(p.path@) == split_dots(path@)
                && idx is None,
    {
        Expr::IPath(InstancePath::new(path), Option::None)
    }

    pub fn new_ipath_with_index(path: &str, index: &str) -> (e: Expr)
        ensures
            e matches Expr::IPath(p, idx) && idx matches Some(ix) && *ix matches Expr::Ref(id)
                && (id_views(p.path@) == split_dots(path@) && id@ == index@),
    {
        Expr::IPath(
            InstancePath::new(path),
            Option::Some(Box::new(Expr::new_ref(index))),
        )
    }

    pub fn new_call(name: &str, params: Vec<Expr>) -> (e: Expr)
        ensures
            e matches Expr::Call(id, ps) && id@ == name@ && ps == params,
    {
        Expr::Call(name.to_owned(), params)
    }

    pub fn new_repeat(times: u64, expr: Expr) -> (e: Expr)
        ensures
            e == Expr::Repeat(times, Box::new(expr)),
    {
        Expr::Repeat(times, Box::new(expr))
    }
}

// ----------------------------------------------------------------------------
// Attributes.
// ----------------------------------------------------------------------------

impl AttributeTy {
    pub fn new_val(value: &str) -> (a: AttributeTy)
        ensures
            a matches AttributeTy::Val(v) && v@ == value@,
    {
        AttributeTy::Val(value.to_owned())
    }

    pub fn new_stmt(id: &str, value: &str) -> (a: AttributeTy)
        ensures
            a matches AttributeTy::Stmt(k, v) && k@ == id@ && v@ == value@,
    {
        AttributeTy::Stmt(id.to_owned(), value.to_owned())
    }
}

impl Attribute {
    pub fn attrs(&self) -> (r: &Vec<AttributeTy>)
        ensures
            *r == self.attrs,
    {
        &self.attrs
    }

    /// Appends a bare flag entry.
    pub fn add_val(&mut self, value: &str)
        ensures
            final(self).attrs@.len() == old(self).attrs@.len() + 1,
            final(self).attrs@.drop_last() == old(self).attrs@,
            final(self).attrs@.last() matches AttributeTy::Val(v) && v@ == value@,
    {
        self.attrs.push(AttributeTy::new_val(value));
        proof {
            assert(final(self).attrs@.drop_last() =~= old(self).attrs@);
        }
    }

    /// Appends a `key = "value"` entry.
    pub fn add_stmt(&mut self, id: &str, value: &str)
        ensures
            final(self).attrs@.len() == old(self).attrs@.len() + 1,
            final(self).attrs@.drop_last() == old(self).attrs@,
            final(self).attrs@.last() matches AttributeTy::Stmt(k, v) && k@ == id@ && v@
                == value@,
    {
        self.attrs.push(AttributeTy::new_stmt(id, value));
        proof {
            assert(final(self).attrs@.drop_last() =~= old(self).attrs@);
        }
    }

    /// Appends an entry.
    pub fn add_attr(&mut self, attr: AttributeTy)
        ensures
            final(self).attrs@ == old(self).attrs@.push(attr),
    {
        self.attrs.push(attr);
    }
}

// ----------------------------------------------------------------------------
// Instances.
// ----------------------------------------------------------------------------

impl Instance {
    pub fn new(id: &str, prim: &str) -> (r: Instance)
        ensures
            r.id@ == id@,
            r.prim@ == prim@,
            r.params@ == Seq::<(Id, Expr)>::empty(),
            r.ports@ == Seq::<(Id, Expr)>::empty(),
            r.attr.attrs@ == Seq::<AttributeTy>::empty(),
            r.wf(),
    {
        let r = Instance {
            id: id.to_owned(),
            prim: prim.to_owned(),
            params: Vec::new(),
            ports: Vec::new(),
            attr: Attribute { attrs: Vec::new() },
        };
        proof {
            assert(entry_views(r.params@) =~= Seq::<(Seq<char>, Expr)>::empty());
            assert(entry_views(r.ports@) =~= Seq::<(Seq<char>, Expr)>::empty());
        }
        r
    }

    pub fn id(&self) -> (r: String)
        ensures
            r@ == self.id@,
    {
        self.id.clone()
    }

    pub fn prim(&self) -> (r: String)
        ensures
            r@ == self.prim@,
    {
        self.prim.clone()
    }

    pub fn attr(&self) -> (r: &Attribute)
        ensures
            *r == self.attr,
    {
        &self.attr
    }

    pub fn param_map(&self) -> (r: &Vec<(Id, Expr)>)
        ensures
            *r == self.params,
    {
        &self.params
    }

    pub fn port_map(&self) -> (r: &Vec<(Id, Expr)>)
        ensures
            *r == self.ports,
    {
        &self.ports
    }

    pub fn set_id(&mut self, id: &str)
        ensures
            final(self).id@ == id@,
            final(self).prim == old(self).prim,
            final(self).params == old(self).params,
            final(self).ports == old(self).ports,
            final(self).attr == old(self).attr,
    {
        self.id = id.to_owned();
    }

    pub fn set_prim(&mut self, prim: &str)
        ensures
            final(self).prim@ == prim@,
            final(self).id == old(self).id,
            final(self).params == old(self).params,
            final(self).ports == old(self).ports,
            final(self).attr == old(self).attr,
    {
        self.prim = prim.to_owned();
    }

    pub fn set_attr(&mut self, attr: Attribute)
        ensures
            final(self).attr == attr,
            final(self).id == old(self).id,
            final(self).prim == old(self).prim,
            final(self).params == old(self).params,
            final(self).ports == old(self).ports,
    {
        self.attr = attr;
    }

    /// Sets the value of a parameter, overwriting an earlier value under
    /// the same name.
    pub fn add_param(&mut self, param: &str, value: Expr)
        ensures
            entry_views(final(self).params@) == entry_insert(
                entry_views(old(self).params@),
                param@,
                value,
            ),
            final(self).ports == old(self).ports,
            final(self).id == old(self).id,
            final(self).prim == old(self).prim,
            final(self).attr == old(self).attr,
    {
        assoc_insert(&mut self.params, param, value);
    }

    /// Sets a parameter to an unsigned decimal literal of width 32.
    pub fn add_param_uint(&mut self, param: &str, value: u32)
        ensures
            exists|e: Expr|
                (e matches Expr::ULit(w, r, v) && w == 32 && r == Radix::Dec && v@ == dec_str(
                    value as nat,
                )) && entry_views(final(self).params@) == entry_insert(
                    entry_views(old(self).params@),
                    param@,
                    e,
                ),
            final(self).ports == old(self).ports,
            final(self).id == old(self).id,
            final(self).prim == old(self).prim,
            final(self).attr == old(self).attr,
    {
        let text = u32_to_string(value);
        let e = Expr::new_ulit_dec(32, text.as_str());
        assoc_insert(&mut self.params, param, e);
    }

    /// Sets a parameter to a string literal.
    pub fn add_param_str(&mut self, param: &str, value: &str)
        ensures
            exists|e: Expr|
                (e matches Expr::Str(v) && v@ == value@) && entry_views(final(self).params@)
                    == entry_insert(entry_views(old(self).params@), param@, e),
            final(self).ports == old(self).ports,
            final(self).id == old(self).id,
            final(self).prim == old(self).prim,
            final(self).attr == old(self).attr,
    {
        let e = Expr::new_str(value);
        assoc_insert(&mut self.params, param, e);
    }

    /// Connects a port, overwriting an earlier connection of the same port.
    pub fn connect(&mut self, port: &str, expr: Expr)
        ensures
            entry_views(final(self).ports@) == entry_insert(
                entry_views(old(self).ports@),
                port@,
                expr,
            ),
            final(self).params == old(self).params,
            final(self).id == old(self).id,
            final(self).prim == old(self).prim,
            final(self).attr == old(self).attr,
    {
        assoc_insert(&mut self.ports, port, expr);
    }

    /// Connects a port to a referenced signal.
    pub fn connect_ref(&mut self, port: &str, id: &str)
        ensures
            exists|e: Expr|
                (e matches Expr::Ref(r) && r@ == id@) && entry_views(final(self).ports@)
                    == entry_insert(entry_views(old(self).ports@), port@, e),
            final(self).params == old(self).params,
            final(self).id == old(self).id,
            final(self).prim == old(self).prim,
            final(self).attr == old(self).attr,
    {
        let e = Expr::new_ref(id);
        assoc_insert(&mut self.ports, port, e);
    }
}

} // verus!
