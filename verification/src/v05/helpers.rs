use crate::subset::helpers::has_id;
use crate::subset::helpers::spec_id;
use crate::util::num::dec_str;
use crate::util::num::u32_to_string;
use crate::v05::ast::Attribute;
use crate::v05::ast::AttributeTy;
use crate::v05::ast::AssignTy;
use crate::v05::ast::Case;
use crate::v05::ast::CaseBranch;
use crate::v05::ast::CaseDefault;
use crate::v05::ast::Decl;
use crate::v05::ast::EventTy;
use crate::v05::ast::Expr;
use crate::v05::ast::Instance;
use crate::v05::ast::Module;
use crate::v05::ast::Parallel;
use crate::v05::ast::ParallelProcess;
use crate::v05::ast::Port;
use crate::v05::ast::ProcessTy;
use crate::v05::ast::Sequential;
use crate::v05::ast::SequentialIfElse;
use crate::v05::ast::Stmt;
use crate::v05::ast::Ty;
use crate::subset::ast::Radix;
use vstd::prelude::*;

verus! {

impl Ty {
    pub fn new_int() -> (t: Ty)
        ensures
            t == Ty::Int,
    {
        Ty::Int
    }

    /// A vector type; zero widths are invalid and refused.
    pub fn new_width(width: u64) -> (t: Ty)
        requires
            width > 0,
        ensures
            t == Ty::Width(width),
    {
        Ty::Width(width)
    }

    /// The width of a vector type.
    pub fn width(&self) -> (r: u64)
        requires
            *self matches Ty::Width(_),
        ensures
            *self == Ty::Width(r),
    {
        match self {
            Ty::Width(w) => *w,
            _ => 0,
        }
    }
}

impl Decl {
    pub fn new_int(name: &str) -> (d: Decl)
        ensures
            d matches Decl::Int(n, t) && (n@ == name@ && t == Ty::Int),
            d.wf(),
    {
        Decl::Int(name.to_owned(), Ty::new_int())
    }

    pub fn new_wire(name: &str, width: u64) -> (d: Decl)
        requires
            width > 0,
        ensures
            d matches Decl::Wire(n, t) && (n@ == name@ && t == Ty::Width(width)),
            d.wf(),
    {
        Decl::Wire(name.to_owned(), Ty::new_width(width))
    }

    pub fn new_reg(name: &str, width: u64) -> (d: Decl)
        requires
            width > 0,
        ensures
            d matches Decl::Reg(n, t) && (n@ == name@ && t == Ty::Width(width)),
            d.wf(),
    {
        Decl::Reg(name.to_owned(), Ty::new_width(width))
    }

    pub fn new_array(name: &str, width: u64, depth: u64) -> (d: Decl)
        requires
            width > 0,
            depth > 0,
        ensures
            d matches Decl::Array(n, w, dep) && (n@ == name@ && w == Ty::Width(width) && dep
                == Ty::Width(depth)),
            d.wf(),
    {
        Decl::Array(name.to_owned(), Ty::new_width(width), Ty::new_width(depth))
    }

    pub fn new_param_uint(name: &str, value: u32) -> (d: Decl)
        ensures
            d matches Decl::Param(n, e) && e matches Expr::ULit(w, r, v) && (n@ == name@ && w
                == 32 && r == Radix::Dec && v@ == dec_str(value as nat)),
            d.wf(),
    {
        let text = u32_to_string(value);
        Decl::Param(name.to_owned(), Expr::new_ulit_dec(32, text.as_str()))
    }

    pub fn new_param_str(name: &str, value: &str) -> (d: Decl)
        ensures
            d matches Decl::Param(n, e) && e matches Expr::Str(v) && (n@ == name@ && v@
                == value@),
            d.wf(),
    {
        Decl::Param(name.to_owned(), Expr::new_str(value))
    }

    /// Attaches an attribute block to a declaration.
    pub fn new_attribute_decl(attr: Attribute, decl: Decl) -> (d: Decl)
        ensures
            d == Decl::AttributeDecl(attr, Box::new(decl)),
    {
        Decl::AttributeDecl(attr, Box::new(decl))
    }
}

impl Port {
    pub fn new_input(name: &str, width: u64) -> (p: Port)
        ensures
            p matches Port::Input(d) && d matches Decl::Wire(n, t) && (n@ == name@ && t
                == Ty::Width(width)),
    {
        let ty = Ty::Width(width);
        let wire = Decl::Wire(name.to_owned(), ty);
        Port::Input(wire)
    }

    pub fn new_output(name: &str, width: u64) -> (p: Port)
        ensures
            p matches Port::Output(d) && d matches Decl::Wire(n, t) && (n@ == name@ && t
                == Ty::Width(width)),
    {
        let ty = Ty::Width(width);
        let wire = Decl::Wire(name.to_owned(), ty);
        Port::Output(wire)
    }

    pub fn new_output_reg(name: &str, width: u64) -> (p: Port)
        ensures
            p matches Port::Output(d) && d matches Decl::Reg(n, t) && (n@ == name@ && t
                == Ty::Width(width)),
    {
        let ty = Ty::Width(width);
        let reg = Decl::Reg(name.to_owned(), ty);
        Port::Output(reg)
    }
}

impl SequentialIfElse {
    pub fn new(cond: Expr) -> (s: Self)
        ensures
            s.cond == Some(cond),
            s.body@ == Seq::<Sequential>::empty(),
            s.elsebr is None,
    {
        SequentialIfElse { cond: Some(cond), body: Vec::new(), elsebr: None }
    }

    pub fn cond(&self) -> (r: Option<&Expr>)
        ensures
            match r {
                Some(c) => self.cond matches Some(i) && i == *c,
                None => self.cond is None,
            },
    {
        self.cond.as_ref()
    }

    pub fn body(&self) -> (r: &Vec<Sequential>)
        ensures
            *r == self.body,
    {
        &self.body
    }

    pub fn else_branch(&self) -> (r: Option<&Sequential>)
        ensures
            match r {
                Some(b) => self.elsebr matches Some(i) && *i == *b,
                None => self.elsebr is None,
            },
    {
        match &self.elsebr {
            Some(b) => Some(&**b),
            None => None,
        }
    }

    /// Appends a statement to the body taken when the condition holds.
    pub fn add_seq(&mut self, seq: Sequential)
        ensures
            final(self).body@ == old(self).body@.push(seq),
            final(self).cond == old(self).cond,
            final(self).elsebr == old(self).elsebr,
    {
        self.body.push(seq);
    }

    /// Sets the alternative branch; a conditional placed here makes the
    /// chain read as `else if`.
    pub fn set_else(&mut self, seq: Sequential)
        ensures
            final(self).elsebr == Some(Box::new(seq)),
            final(self).cond == old(self).cond,
            final(self).body == old(self).body,
    {
        self.elsebr = Some(Box::new(seq));
    }
}

impl Default for SequentialIfElse {
    /// A conditional with no condition, no body and no alternative: the
    /// shape of a bare `else` branch.
    fn default() -> (s: SequentialIfElse)
        ensures
            s.cond is None,
            s.body@ == Seq::<Sequential>::empty(),
            s.elsebr is None,
    {
        SequentialIfElse { cond: None, body: Vec::new(), elsebr: None }
    }
}

impl Sequential {
    pub fn new_posedge(name: &str) -> (s: Self)
        ensures
            s matches Sequential::Event(t, e) && e matches Expr::Ref(id) && (t
                == EventTy::Posedge && id@ == name@),
    {
        Sequential::Event(EventTy::Posedge, Expr::new_ref(name))
    }

    pub fn new_blk_assign(lexpr: Expr, rexpr: Expr) -> (s: Sequential)
        ensures
            s == Sequential::Assign(lexpr, rexpr, AssignTy::Blocking),
    {
        Sequential::Assign(lexpr, rexpr, AssignTy::Blocking)
    }

    pub fn new_nonblk_assign(lexpr: Expr, rexpr: Expr) -> (s: Sequential)
        ensures
            s == Sequential::Assign(lexpr, rexpr, AssignTy::NonBlocking),
    {
        Sequential::Assign(lexpr, rexpr, AssignTy::NonBlocking)
    }

    pub fn new_case(case: Case) -> (s: Sequential)
        ensures
            s == Sequential::SeqCase(case),
    {
        Sequential::SeqCase(case)
    }
}

impl ParallelProcess {
    pub fn new_always() -> (p: Self)
        ensures
            p.ty == ProcessTy::Always,
            p.event is None,
            p.body@ == Seq::<Sequential>::empty(),
    {
        ParallelProcess { ty: ProcessTy::Always, event: None, body: Vec::new() }
    }

    pub fn ty(&self) -> (r: &ProcessTy)
        ensures
            *r == self.ty,
    {
        &self.ty
    }

    pub fn event(&self) -> (r: Option<&Sequential>)
        ensures
            match r {
                Some(e) => self.event matches Some(i) && i == *e,
                None => self.event is None,
            },
    {
        self.event.as_ref()
    }

    pub fn body(&self) -> (r: &Vec<Sequential>)
        ensures
            *r == self.body,
    {
        &self.body
    }

    /// Appends a statement to the process body.
    pub fn add_seq(&mut self, seq: Sequential)
        ensures
            final(self).body@ == old(self).body@.push(seq),
            final(self).ty == old(self).ty,
            final(self).event == old(self).event,
    {
        self.body.push(seq);
    }

    /// Sets the trigger of the process.
    pub fn set_event(&mut self, seq: Sequential)
        ensures
            final(self).event == Some(seq),
            final(self).ty == old(self).ty,
            final(self).body == old(self).body,
    {
        self.event = Some(seq);
    }
}

impl Parallel {
    pub fn new_inst(inst: Instance) -> (p: Parallel)
        ensures
            p == Parallel::Inst(inst),
    {
        Parallel::Inst(inst)
    }

    /// The name on the left of an instantiation or assignment.
    pub fn id(&self) -> (r: String)
        requires
            self matches Parallel::Inst(_) || (self matches Parallel::Assign(l, _) && has_id(
                *l,
            )),
        ensures
            self matches Parallel::Inst(inst) ==> r@ == inst.id@,
            self matches Parallel::Assign(l, _) ==> r@ == spec_id(*l),
    {
        match self {
            Parallel::Inst(inst) => inst.id(),
            Parallel::Assign(lexpr, _) => lexpr.id(),
            _ => String::new(),
        }
    }
}

impl Stmt {
    pub fn new_parallel(par: Parallel) -> (s: Stmt)
        ensures
            s == Stmt::Parallel(par),
    {
        Stmt::Parallel(par)
    }

    pub fn new_decl(decl: Decl) -> (s: Stmt)
        ensures
            s == Stmt::Decl(decl),
    {
        Stmt::Decl(decl)
    }
}

impl Module {
    pub fn new(name: &str) -> (m: Module)
        ensures
            m.name@ == name@,
            m.params@ == Seq::<Decl>::empty(),
            m.ports@ == Seq::<Port>::empty(),
            m.body@ == Seq::<Stmt>::empty(),
            m.attr.attrs@ == Seq::<AttributeTy>::empty(),
            m.wf(),
    {
        Module {
            name: name.to_owned(),
            params: Vec::new(),
            ports: Vec::new(),
            body: Vec::new(),
            attr: Attribute { attrs: Vec::new() },
        }
    }

    pub fn name(&self) -> (r: String)
        ensures
            r@ == self.name@,
    {
        self.name.clone()
    }

    pub fn body(&self) -> (r: &Vec<Stmt>)
        ensures
            *r == self.body,
    {
        &self.body
    }

    pub fn ports(&self) -> (r: &Vec<Port>)
        ensures
            *r == self.ports,
    {
        &self.ports
    }

    pub fn params(&self) -> (r: &Vec<Decl>)
        ensures
            *r == self.params,
    {
        &self.params
    }

    pub fn attr(&self) -> (r: &Attribute)
        ensures
            *r == self.attr,
    {
        &self.attr
    }

    /// Adds an integer parameter with an unsigned decimal value.
    pub fn add_param_uint(&mut self, name: &str, value: u32)
        ensures
            final(self).params@.len() == old(self).params@.len() + 1,
            final(self).params@.drop_last() == old(self).params@,
            final(self).params@.last() matches Decl::Param(n, e) && e matches Expr::ULit(
                w,
                r,
                v,
            ) && (n@ == name@ && w == 32 && r == Radix::Dec && v@ == dec_str(value as nat)),
            final(self).params@.last().wf(),
            final(self).name == old(self).name,
            final(self).ports == old(self).ports,
            final(self).body == old(self).body,
            final(self).attr == old(self).attr,
    {
        self.params.push(Decl::new_param_uint(name, value));
        proof {
            assert(final(self).params@.drop_last() =~= old(self).params@);
        }
    }

    /// Adds a string-valued parameter.
    pub fn add_param_str(&mut self, name: &str, value: &str)
        ensures
            final(self).params@.len() == old(self).params@.len() + 1,
            final(self).params@.drop_last() == old(self).params@,
            final(self).params@.last() matches Decl::Param(n, e) && e matches Expr::Str(v) && (
            n@ == name@ && v@ == value@),
            final(self).params@.last().wf(),
            final(self).name == old(self).name,
            final(self).ports == old(self).ports,
            final(self).body == old(self).body,
            final(self).attr == old(self).attr,
    {
        self.params.push(Decl::new_param_str(name, value));
        proof {
            assert(final(self).params@.drop_last() =~= old(self).params@);
        }
    }

    pub fn add_port(&mut self, port: Port)
        ensures
            final(self).ports@ == old(self).ports@.push(port),
            final(self).name == old(self).name,
            final(self).params == old(self).params,
            final(self).body == old(self).body,
            final(self).attr == old(self).attr,
    {
        self.ports.push(port);
    }

    /// Adds an input wire of the given width.
    pub fn add_input(&mut self, name: &str, width: u64)
        ensures
            final(self).ports@.len() == old(self).ports@.len() + 1,
            final(self).ports@.drop_last() == old(self).ports@,
            final(self).ports@.last() matches Port::Input(d) && d matches Decl::Wire(n, t) && (
            n@ == name@ && t == Ty::Width(width)),
            final(self).name == old(self).name,
            final(self).params == old(self).params,
            final(self).body == old(self).body,
            final(self).attr == old(self).attr,
    {
        self.ports.push(Port::new_input(name, width));
        proof {
            assert(final(self).ports@.drop_last() =~= old(self).ports@);
        }
    }

    /// Adds an output wire of the given width.
    pub fn add_output(&mut self, name: &str, width: u64)
        ensures
            final(self).ports@.len() == old(self).ports@.len() + 1,
            final(self).ports@.drop_last() == old(self).ports@,
            final(self).ports@.last() matches Port::Output(d) && d matches Decl::Wire(n, t) && (
            n@ == name@ && t == Ty::Width(width)),
            final(self).name == old(self).name,
            final(self).params == old(self).params,
            final(self).body == old(self).body,
            final(self).attr == old(self).attr,
    {
        self.ports.push(Port::new_output(name, width));
        proof {
            assert(final(self).ports@.drop_last() =~= old(self).ports@);
        }
    }

    /// Adds an output register of the given width.
    pub fn add_output_reg(&mut self, name: &str, width: u64)
        ensures
            final(self).ports@.len() == old(self).ports@.len() + 1,
            final(self).ports@.drop_last() == old(self).ports@,
            final(self).ports@.last() matches Port::Output(d) && d matches Decl::Reg(n, t) && (
            n@ == name@ && t == Ty::Width(width)),
            final(self).name == old(self).name,
            final(self).params == old(self).params,
            final(self).body == old(self).body,
            final(self).attr == old(self).attr,
    {
        self.ports.push(Port::new_output_reg(name, width));
        proof {
            assert(final(self).ports@.drop_last() =~= old(self).ports@);
        }
    }

    /// Adds a module instantiation to the body.
    pub fn add_instance(&mut self, inst: Instance)
        ensures
            final(self).body@ == old(self).body@.push(
                Stmt::Parallel(Parallel::Inst(inst)),
            ),
            final(self).name == old(self).name,
            final(self).params == old(self).params,
            final(self).ports == old(self).ports,
            final(self).attr == old(self).attr,
    {
        self.body.push(Stmt::new_parallel(Parallel::new_inst(inst)));
    }

    /// Adds a declaration to the body.
    pub fn add_decl(&mut self, decl: Decl)
        ensures
            final(self).body@ == old(self).body@.push(Stmt::Decl(decl)),
            final(self).name == old(self).name,
            final(self).params == old(self).params,
            final(self).ports == old(self).ports,
            final(self).attr == old(self).attr,
    {
        self.body.push(Stmt::Decl(decl));
    }

    /// Adds a statement to the body.
    pub fn add_stmt(&mut self, stmt: Stmt)
        ensures
            final(self).body@ == old(self).body@.push(stmt),
            final(self).name == old(self).name,
            final(self).params == old(self).params,
            final(self).ports == old(self).ports,
            final(self).attr == old(self).attr,
    {
        self.body.push(stmt);
    }

    pub fn set_attr(&mut self, attr: Attribute)
        ensures
            final(self).attr == attr,
            final(self).name == old(self).name,
            final(self).params == old(self).params,
            final(self).ports == old(self).ports,
            final(self).body == old(self).body,
    {
        self.attr = attr;
    }
}

impl CaseBranch {
    pub fn new(cond: Expr) -> (b: CaseBranch)
        ensures
            b.cond == cond,
            b.body@ == Seq::<Sequential>::empty(),
    {
        CaseBranch { cond, body: Vec::new() }
    }

    /// Appends a statement to the branch body.
    pub fn add_seq(&mut self, seq: Sequential)
        ensures
            final(self).body@ == old(self).body@.push(seq),
            final(self).cond == old(self).cond,
    {
        self.body.push(seq);
    }

    /// Appends a nested case statement to the branch body.
    pub fn add_case(&mut self, case: Case)
        ensures
            final(self).body@ == old(self).body@.push(Sequential::SeqCase(case)),
            final(self).cond == old(self).cond,
    {
        self.body.push(Sequential::new_case(case));
    }

    pub fn body(&self) -> (r: &Vec<Sequential>)
        ensures
            *r == self.body,
    {
        &self.body
    }
}

impl CaseDefault {
    /// Appends a statement to the default body.
    pub fn add_seq(&mut self, seq: Sequential)
        ensures
            final(self).body@ == old(self).body@.push(seq),
    {
        self.body.push(seq);
    }

    pub fn body(&self) -> (r: &Vec<Sequential>)
        ensures
            *r == self.body,
    {
        &self.body
    }
}

impl Default for CaseDefault {
    /// A default branch with an empty body.
    fn default() -> (d: CaseDefault)
        ensures
            d.body@ == Seq::<Sequential>::empty(),
    {
        CaseDefault { body: Vec::new() }
    }
}

impl Case {
    pub fn new(cond: Expr) -> (c: Case)
        ensures
            c.cond == cond,
            c.branches@ == Seq::<CaseBranch>::empty(),
            c.default is None,
    {
        Case { cond, branches: Vec::new(), default: None }
    }

    /// Appends a guarded branch.
    pub fn add_branch(&mut self, branch: CaseBranch)
        ensures
            final(self).branches@ == old(self).branches@.push(branch),
            final(self).cond == old(self).cond,
            final(self).default == old(self).default,
    {
        self.branches.push(branch);
    }

    /// Sets the default branch.
    pub fn set_default(&mut self, branch: CaseDefault)
        ensures
            final(self).default == Some(branch),
            final(self).cond == old(self).cond,
            final(self).branches == old(self).branches,
    {
        self.default = Some(branch);
    }

    pub fn branches(&self) -> (r: &Vec<CaseBranch>)
        ensures
            *r == self.branches,
    {
        &self.branches
    }

    /// The default branch; reading it before it was set is a usage error
    /// and refused.
    pub fn default(&self) -> (r: &CaseDefault)
        requires
            self.default is Some,
        ensures
            self.default matches Some(d) && d == *r,
    {
        self.default.as_ref().unwrap()
    }
}

} // verus!
