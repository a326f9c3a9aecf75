use crate::subset::ast::Radix;
use crate::util::num::dec_str;
use crate::util::num::u32_to_string;
use crate::v17::ast::Attribute;
use crate::v17::ast::AttributeTy;
use crate::v17::ast::AssignTy;
use crate::v17::ast::Case;
use crate::v17::ast::CaseBranch;
use crate::v17::ast::CaseDefault;
use crate::v17::ast::Decl;
use crate::v17::ast::EventTy;
use crate::v17::ast::Expr;
use crate::v17::ast::Function;
use crate::v17::ast::FunctionTy;
use crate::v17::ast::Instance;
use crate::v17::ast::Module;
use crate::v17::ast::Parallel;
use crate::v17::ast::ParallelProcess;
use crate::v17::ast::Port;
use crate::v17::ast::ProcessTy;
use crate::v17::ast::Sequential;
use crate::v17::ast::SequentialIfElse;
use crate::v17::ast::Stmt;
use crate::v17::ast::Ty;
use vstd::prelude::*;

verus! {

impl Ty {
    pub fn new_int() -> (t: Ty)
        ensures
            t == Ty::Int,
    {
        Ty::Int
    }

    /// A vector type; zero widths are invalid and refused.
    pub fn new_width(width: u64) -> (t: Ty)
        requires
            width > 0,
        ensures
            t == Ty::Width(width),
    {
        Ty::Width(width)
    }

    /// The width of a vector type.
    pub fn width(&self) -> (r: u64)
        requires
            *self matches Ty::Width(_),
        ensures
            *self == Ty::Width(r),
    {
        match self {
            Ty::Width(w) => *w,
            _ => 0,
        }
    }
}

impl Port {
    pub fn new_input(name: &str, width: u64) -> (p: Port)
        ensures
            p matches Port::Input(d) && d matches Decl::Logic(n, t) && (n@ == name@ && t
                == Ty::Width(width)),
    {
        let ty = Ty::Width(width);
        let logic = Decl::Logic(name.to_owned(), ty);
        Port::Input(logic)
    }

    pub fn new_input_int(name: &str) -> (p: Port)
        ensures
            p matches Port::Input(d) && d matches Decl::Int(n, t) && (n@ == name@ && t
                == Ty::Int),
    {
        let inp = Decl::Int(name.to_owned(), Ty::Int);
        Port::Input(inp)
    }

    pub fn new_output(name: &str, width: u64) -> (p: Port)
        ensures
            p matches Port::Output(d) && d matches Decl::Logic(n, t) && (n@ == name@ && t
                == Ty::Width(width)),
    {
        let ty = Ty::Width(width);
        let logic = Decl::Logic(name.to_owned(), ty);
        Port::Output(logic)
    }
}

impl CaseBranch {
    pub fn new(cond: Expr) -> (b: CaseBranch)
        ensures
            b.cond == cond,
            b.body@ == Seq::<Sequential>::empty(),
    {
        CaseBranch { cond, body: Vec::new() }
    }

    /// Appends a statement to the branch body.
    pub fn add_seq(&mut self, seq: Sequential)
        ensures
            final(self).body@ == old(self).body@.push(seq),
            final(self).cond == old(self).cond,
    {
        self.body.push(seq);
    }

    /// Appends a nested case statement to the branch body.
    pub fn add_case(&mut self, case: Case)
        ensures
            final(self).body@ == old(self).body@.push(Sequential::SeqCase(case)),
            final(self).cond == old(self).cond,
    {
        self.body.push(Sequential::new_case(case));
    }

    pub fn body(&self) -> (r: &Vec<Sequential>)
        ensures
            *r == self.body,
    {
        &self.body
    }
}

impl CaseDefault {
    /// Appends a statement to the default body.
    pub fn add_seq(&mut self, seq: Sequential)
        ensures
            final(self).body@ == old(self).body@.push(seq),
    {
        self.body.push(seq);
    }

    pub fn body(&self) -> (r: &Vec<Sequential>)
        ensures
            *r == self.body,
    {
        &self.body
    }
}

impl Default for CaseDefault {
    /// A default branch with an empty body.
    fn default() -> (d: CaseDefault)
        ensures
            d.body@ == Seq::<Sequential>::empty(),
    {
        CaseDefault { body: Vec::new() }
    }
}

impl Case {
    pub fn new(cond: Expr) -> (c: Case)
        ensures
            c.cond == cond,
            c.branches@ == Seq::<CaseBranch>::empty(),
            c.default is None,
    {
        Case { cond, branches: Vec::new(), default: None }
    }

    /// Appends a guarded branch.
    pub fn add_branch(&mut self, branch: CaseBranch)
        ensures
            final(self).branches@ == old(self).branches@.push(branch),
            final(self).cond == old(self).cond,
            final(self).default == old(self).default,
    {
        self.branches.push(branch);
    }

    /// Sets the default branch.
    pub fn set_default(&mut self, branch: CaseDefault)
        ensures
            final(self).default == Some(branch),
            final(self).cond == old(self).cond,
            final(self).branches == old(self).branches,
    {
        self.default = Some(branch);
    }

    pub fn branches(&self) -> (r: &Vec<CaseBranch>)
        ensures
            *r == self.branches,
    {
        &self.branches
    }

    /// The default branch; reading it before it was set is a usage error
    /// and refused.
    pub fn default(&self) -> (r: &CaseDefault)
        requires
            self.default is Some,
        ensures
            self.default matches Some(d) && d == *r,
    {
        self.default.as_ref().unwrap()
    }
}

impl Sequential {
    pub fn new_seqexpr(expr: Expr) -> (s: Sequential)
        ensures
            s == Sequential::SeqExpr(expr),
    {
        Sequential::SeqExpr(expr)
    }

    pub fn new_error(msg: &str) -> (s: Sequential)
        ensures
            s matches Sequential::Error(m) && m@ == msg@,
    {
        Sequential::Error(msg.to_owned())
    }

    pub fn new_display(msg: &str) -> (s: Sequential)
        ensures
            s matches Sequential::Display(m) && m@ == msg@,
    {
        Sequential::Display(msg.to_owned())
    }

    pub fn new_return(expr: Expr) -> (s: Sequential)
        ensures
            s == Sequential::Return(expr),
    {
        Sequential::Return(expr)
    }

    pub fn new_assert(expr: Expr) -> (s: Sequential)
        ensures
            s == Sequential::Assert(expr, None),
    {
        Sequential::Assert(expr, None)
    }

    pub fn new_assert_with_else(expr: Expr, seq: Sequential) -> (s: Sequential)
        ensures
            s == Sequential::Assert(expr, Some(Box::new(seq))),
    {
        Sequential::Assert(expr, Some(Box::new(seq)))
    }

    pub fn new_blk_assign(lexpr: Expr, rexpr: Expr) -> (s: Sequential)
        ensures
            s == Sequential::SeqAssign(lexpr, rexpr, AssignTy::Blocking),
    {
        Sequential::SeqAssign(lexpr, rexpr, AssignTy::Blocking)
    }

    pub fn new_nonblk_assign(lexpr: Expr, rexpr: Expr) -> (s: Sequential)
        ensures
            s == Sequential::SeqAssign(lexpr, rexpr, AssignTy::NonBlocking),
    {
        Sequential::SeqAssign(lexpr, rexpr, AssignTy::NonBlocking)
    }

    pub fn new_case(case: Case) -> (s: Sequential)
        ensures
            s == Sequential::SeqCase(case),
    {
        Sequential::SeqCase(case)
    }

    pub fn new_call(call: Expr) -> (s: Sequential)
        ensures
            s == Sequential::SeqCall(call),
    {
        Sequential::SeqCall(call)
    }
}

impl SequentialIfElse {
    pub fn new(cond: Expr) -> (s: Self)
        ensures
            s.cond == Some(cond),
            s.body@ == Seq::<Sequential>::empty(),
            s.else_branch is None,
            s.unique == false,
    {
        SequentialIfElse { cond: Some(cond), body: Vec::new(), else_branch: None, unique: false }
    }

    /// Marks the chain with the `unique` annotation.
    pub fn set_unique(&mut self)
        ensures
            final(self).unique == true,
            final(self).cond == old(self).cond,
            final(self).body == old(self).body,
            final(self).else_branch == old(self).else_branch,
    {
        self.unique = true;
    }

    /// Appends a statement to the body taken when the condition holds.
    pub fn add_seq(&mut self, seq: Sequential)
        ensures
            final(self).body@ == old(self).body@.push(seq),
            final(self).cond == old(self).cond,
            final(self).else_branch == old(self).else_branch,
            final(self).unique == old(self).unique,
    {
        self.body.push(seq);
    }

    /// Sets the alternative branch; a conditional placed here makes the
    /// chain read as `else if`.
    pub fn set_else(&mut self, seq: Sequential)
        ensures
            final(self).else_branch == Some(Box::new(seq)),
            final(self).cond == old(self).cond,
            final(self).body == old(self).body,
            final(self).unique == old(self).unique,
    {
        self.else_branch = Some(Box::new(seq));
    }
}

impl Default for SequentialIfElse {
    /// A conditional with no condition, no body and no alternative: the
    /// shape of a bare `else` branch.
    fn default() -> (s: SequentialIfElse)
        ensures
            s.cond is None,
            s.body@ == Seq::<Sequential>::empty(),
            s.else_branch is None,
            s.unique == false,
    {
        SequentialIfElse { cond: None, body: Vec::new(), else_branch: None, unique: false }
    }
}

impl ParallelProcess {
    pub fn new_always_comb() -> (p: Self)
        ensures
            p.ty == ProcessTy::AlwaysComb,
            p.event is None,
            p.body@ == Seq::<Sequential>::empty(),
    {
        ParallelProcess { ty: ProcessTy::AlwaysComb, event: None, body: Vec::new() }
    }

    pub fn new_always_ff() -> (p: Self)
        ensures
            p.ty == ProcessTy::AlwaysFF,
            p.event is None,
            p.body@ == Seq::<Sequential>::empty(),
    {
        ParallelProcess { ty: ProcessTy::AlwaysFF, event: None, body: Vec::new() }
    }

    pub fn new_initial() -> (p: Self)
        ensures
            p.ty == ProcessTy::Initial,
            p.event is None,
            p.body@ == Seq::<Sequential>::empty(),
    {
        ParallelProcess { ty: ProcessTy::Initial, event: None, body: Vec::new() }
    }

    pub fn new_final() -> (p: Self)
        ensures
            p.ty == ProcessTy::Final,
            p.event is None,
            p.body@ == Seq::<Sequential>::empty(),
    {
        ParallelProcess { ty: ProcessTy::Final, event: None, body: Vec::new() }
    }

    pub fn ty(&self) -> (r: &ProcessTy)
        ensures
            *r == self.ty,
    {
        &self.ty
    }

    pub fn body(&self) -> (r: &Vec<Sequential>)
        ensures
            *r == self.body,
    {
        &self.body
    }

    pub fn event(&self) -> (r: Option<&Sequential>)
        ensures
            match r {
                Some(e) => self.event matches Some(i) && i == *e,
                None => self.event is None,
            },
    {
        self.event.as_ref()
    }

    /// Appends a statement to the process body.
    pub fn add_seq(&mut self, seq: Sequential)
        ensures
            final(self).body@ == old(self).body@.push(seq),
            final(self).ty == old(self).ty,
            final(self).event == old(self).event,
    {
        self.body.push(seq);
    }

    /// Appends a case statement to the process body.
    pub fn add_case(&mut self, case: Case)
        ensures
            final(self).body@ == old(self).body@.push(Sequential::SeqCase(case)),
            final(self).ty == old(self).ty,
            final(self).event == old(self).event,
    {
        self.body.push(Sequential::new_case(case));
    }

    /// Sets the trigger of the process.
    pub fn set_event(&mut self, seq: Sequential)
        ensures
            final(self).event == Some(seq),
            final(self).ty == old(self).ty,
            final(self).body == old(self).body,
    {
        self.event = Some(seq);
    }
}

impl Parallel {
    pub fn new_inst(inst: Instance) -> (p: Parallel)
        ensures
            p == Parallel::Inst(inst),
    {
        Parallel::Inst(inst)
    }

    pub fn new_process(par_process: ParallelProcess) -> (p: Parallel)
        ensures
            p == Parallel::Process(par_process),
    {
        Parallel::Process(par_process)
    }
}

impl Stmt {
    pub fn new_parallel(par: Parallel) -> (s: Stmt)
        ensures
            s == Stmt::Parallel(par),
    {
        Stmt::Parallel(par)
    }

    pub fn new_decl(decl: Decl) -> (s: Stmt)
        ensures
            s == Stmt::Decl(decl),
    {
        Stmt::Decl(decl)
    }

    /// A raw string taken over verbatim as a statement.
    pub fn new_rawstr(s: String) -> (r: Stmt)
        ensures
            r == Stmt::RawStr(s),
    {
        Stmt::RawStr(s)
    }
}

impl Function {
    pub fn new(name: &str, ret: Ty) -> (f: Function)
        ensures
            f.ty matches FunctionTy::Plain,
            f.name@ == name@,
            f.ports@ == Seq::<Port>::empty(),
            f.decls@ == Seq::<Decl>::empty(),
            f.body@ == Seq::<Sequential>::empty(),
            f.ret == ret,
    {
        Function {
            ty: FunctionTy::Plain,
            name: name.to_owned(),
            ports: Vec::new(),
            decls: Vec::new(),
            body: Vec::new(),
            ret,
        }
    }

    pub fn ports(&self) -> (r: &Vec<Port>)
        ensures
            *r == self.ports,
    {
        &self.ports
    }

    pub fn decls(&self) -> (r: &Vec<Decl>)
        ensures
            *r == self.decls,
    {
        &self.decls
    }

    pub fn body(&self) -> (r: &Vec<Sequential>)
        ensures
            *r == self.body,
    {
        &self.body
    }

    pub fn ty(&self) -> (r: &FunctionTy)
        ensures
            *r == self.ty,
    {
        &self.ty
    }

    /// Adds an input port of the given width.
    pub fn add_input(&mut self, name: &str, width: u64)
        ensures
            final(self).ports@.len() == old(self).ports@.len() + 1,
            final(self).ports@.drop_last() == old(self).ports@,
            final(self).ports@.last() matches Port::Input(d) && d matches Decl::Logic(n, t) && (
            n@ == name@ && t == Ty::Width(width)),
            final(self).ty == old(self).ty,
            final(self).name == old(self).name,
            final(self).decls == old(self).decls,
            final(self).body == old(self).body,
            final(self).ret == old(self).ret,
    {
        self.ports.push(Port::new_input(name, width));
        proof {
            assert(final(self).ports@.drop_last() =~= old(self).ports@);
        }
    }

    /// Adds a plain-integer input port.
    pub fn add_input_int(&mut self, name: &str)
        ensures
            final(self).ports@.len() == old(self).ports@.len() + 1,
            final(self).ports@.drop_last() == old(self).ports@,
            final(self).ports@.last() matches Port::Input(d) && d matches Decl::Int(n, t) && (
            n@ == name@ && t == Ty::Int),
            final(self).ty == old(self).ty,
            final(self).name == old(self).name,
            final(self).decls == old(self).decls,
            final(self).body == old(self).body,
            final(self).ret == old(self).ret,
    {
        self.ports.push(Port::new_input_int(name));
        proof {
            assert(final(self).ports@.drop_last() =~= old(self).ports@);
        }
    }

    /// Adds an output port of the given width.
    pub fn add_output(&mut self, name: &str, width: u64)
        ensures
            final(self).ports@.len() == old(self).ports@.len() + 1,
            final(self).ports@.drop_last() == old(self).ports@,
            final(self).ports@.last() matches Port::Output(d) && d matches Decl::Logic(n, t)
                && (n@ == name@ && t == Ty::Width(width)),
            final(self).ty == old(self).ty,
            final(self).name == old(self).name,
            final(self).decls == old(self).decls,
            final(self).body == old(self).body,
            final(self).ret == old(self).ret,
    {
        self.ports.push(Port::new_output(name, width));
        proof {
            assert(final(self).ports@.drop_last() =~= old(self).ports@);
        }
    }

    /// Adds a local four-state signal; zero widths are refused.
    pub fn add_logic(&mut self, name: &str, width: u64)
        requires
            width > 0,
        ensures
            final(self).decls@.len() == old(self).decls@.len() + 1,
            final(self).decls@.drop_last() == old(self).decls@,
            final(self).decls@.last() matches Decl::Logic(n, t) && (n@ == name@ && t
                == Ty::Width(width)),
            final(self).ty == old(self).ty,
            final(self).name == old(self).name,
            final(self).ports == old(self).ports,
            final(self).body == old(self).body,
            final(self).ret == old(self).ret,
    {
        self.decls.push(Decl::new_logic(name, width));
        proof {
            assert(final(self).decls@.drop_last() =~= old(self).decls@);
        }
    }

    /// Appends a statement to the function body.
    pub fn add_stmt(&mut self, stmt: Sequential)
        ensures
            final(self).body@ == old(self).body@.push(stmt),
            final(self).ty == old(self).ty,
            final(self).name == old(self).name,
            final(self).ports == old(self).ports,
            final(self).decls == old(self).decls,
            final(self).ret == old(self).ret,
    {
        self.body.push(stmt);
    }

    pub fn set_return_type(&mut self, ret: Ty)
        ensures
            final(self).ret == ret,
            final(self).ty == old(self).ty,
            final(self).name == old(self).name,
            final(self).ports == old(self).ports,
            final(self).decls == old(self).decls,
            final(self).body == old(self).body,
    {
        self.ret = ret;
    }

    /// Marks the function as exported to foreign code.
    pub fn export(&mut self)
        ensures
            final(self).ty matches FunctionTy::Export,
            final(self).name == old(self).name,
            final(self).ports == old(self).ports,
            final(self).decls == old(self).decls,
            final(self).body == old(self).body,
            final(self).ret == old(self).ret,
    {
        self.ty = FunctionTy::Export;
    }

    /// Marks the function as imported from foreign code.
    pub fn import(&mut self)
        ensures
            final(self).ty matches FunctionTy::Import,
            final(self).name == old(self).name,
            final(self).ports == old(self).ports,
            final(self).decls == old(self).decls,
            final(self).body == old(self).body,
            final(self).ret == old(self).ret,
    {
        self.ty = FunctionTy::Import;
    }
}

impl Decl {
    pub fn new_param_uint(name: &str, value: u32) -> (d: Decl)
        ensures
            d matches Decl::Param(n, t, e) && e matches Expr::ULit(w, r, v) && (n@ == name@ && t
                == Ty::Int && w == 32 && r == Radix::Dec && v@ == dec_str(value as nat)),
            d.wf(),
    {
        let text = u32_to_string(value);
        Decl::Param(name.to_owned(), Ty::new_int(), Expr::new_ulit_dec(32, text.as_str()))
    }

    /// A four-state signal declaration; zero widths are refused.
    pub fn new_logic(name: &str, width: u64) -> (d: Decl)
        requires
            width > 0,
        ensures
            d matches Decl::Logic(n, t) && (n@ == name@ && t == Ty::Width(width)),
            d.wf(),
    {
        Decl::Logic(name.to_owned(), Ty::new_width(width))
    }

    pub fn new_int(name: &str) -> (d: Decl)
        ensures
            d matches Decl::Int(n, t) && (n@ == name@ && t == Ty::Int),
            d.wf(),
    {
        Decl::Int(name.to_owned(), Ty::Int)
    }

    pub fn new_func(func: Function) -> (d: Decl)
        ensures
            d == Decl::Func(func),
    {
        Decl::Func(func)
    }
}

impl Module {
    pub fn new(name: &str) -> (m: Module)
        ensures
            m.name@ == name@,
            m.params@ == Seq::<Decl>::empty(),
            m.ports@ == Seq::<Port>::empty(),
            m.body@ == Seq::<Stmt>::empty(),
            m.attr.attrs@ == Seq::<AttributeTy>::empty(),
            m.wf(),
    {
        Module {
            name: name.to_owned(),
            params: Vec::new(),
            ports: Vec::new(),
            body: Vec::new(),
            attr: Attribute { attrs: Vec::new() },
        }
    }

    /// A module under the given name, like `new`.
    pub fn new_with_name(name: &str) -> (m: Module)
        ensures
            m.name@ == name@,
            m.params@ == Seq::<Decl>::empty(),
            m.ports@ == Seq::<Port>::empty(),
            m.body@ == Seq::<Stmt>::empty(),
            m.attr.attrs@ == Seq::<AttributeTy>::empty(),
            m.wf(),
    {
        Module::new(name)
    }

    pub fn name(&self) -> (r: String)
        ensures
            r@ == self.name@,
    {
        self.name.clone()
    }

    pub fn body(&self) -> (r: &Vec<Stmt>)
        ensures
            *r == self.body,
    {
        &self.body
    }

    pub fn ports(&self) -> (r: &Vec<Port>)
        ensures
            *r == self.ports,
    {
        &self.ports
    }

    pub fn params(&self) -> (r: &Vec<Decl>)
        ensures
            *r == self.params,
    {
        &self.params
    }

    pub fn attr(&self) -> (r: &Attribute)
        ensures
            *r == self.attr,
    {
        &self.attr
    }

    /// Adds an input port of the given width.
    pub fn add_input(&mut self, name: &str, width: u64)
        ensures
            final(self).ports@.len() == old(self).ports@.len() + 1,
            final(self).ports@.drop_last() == old(self).ports@,
            final(self).ports@.last() matches Port::Input(d) && d matches Decl::Logic(n, t) && (
            n@ == name@ && t == Ty::Width(width)),
            final(self).name == old(self).name,
            final(self).params == old(self).params,
            final(self).body == old(self).body,
            final(self).attr == old(self).attr,
    {
        self.ports.push(Port::new_input(name, width));
        proof {
            assert(final(self).ports@.drop_last() =~= old(self).ports@);
        }
    }

    /// Adds an output port of the given width.
    pub fn add_output(&mut self, name: &str, width: u64)
        ensures
            final(self).ports@.len() == old(self).ports@.len() + 1,
            final(self).ports@.drop_last() == old(self).ports@,
            final(self).ports@.last() matches Port::Output(d) && d matches Decl::Logic(n, t)
                && (n@ == name@ && t == Ty::Width(width)),
            final(self).name == old(self).name,
            final(self).params == old(self).params,
            final(self).body == old(self).body,
            final(self).attr == old(self).attr,
    {
        self.ports.push(Port::new_output(name, width));
        proof {
            assert(final(self).ports@.drop_last() =~= old(self).ports@);
        }
    }

    /// Adds a declaration to the body.
    pub fn add_decl(&mut self, decl: Decl)
        ensures
            final(self).body@ == old(self).body@.push(Stmt::Decl(decl)),
            final(self).name == old(self).name,
            final(self).params == old(self).params,
            final(self).ports == old(self).ports,
            final(self).attr == old(self).attr,
    {
        self.body.push(Stmt::new_decl(decl));
    }

    /// Adds a function definition to the body.
    pub fn add_function(&mut self, func: Function)
        ensures
            final(self).body@ == old(self).body@.push(Stmt::Decl(Decl::Func(func))),
            final(self).name == old(self).name,
            final(self).params == old(self).params,
            final(self).ports == old(self).ports,
            final(self).attr == old(self).attr,
    {
        self.body.push(Stmt::new_decl(Decl::new_func(func)));
    }

    /// Adds a module instantiation to the body.
    pub fn add_instance(&mut self, inst: Instance)
        ensures
            final(self).body@ == old(self).body@.push(
                Stmt::Parallel(Parallel::Inst(inst)),
            ),
            final(self).name == old(self).name,
            final(self).params == old(self).params,
            final(self).ports == old(self).ports,
            final(self).attr == old(self).attr,
    {
        self.body.push(Stmt::new_parallel(Parallel::new_inst(inst)));
    }

    /// Adds a process to the body.
    pub fn add_process(&mut self, proc: ParallelProcess)
        ensures
            final(self).body@ == old(self).body@.push(
                Stmt::Parallel(Parallel::Process(proc)),
            ),
            final(self).name == old(self).name,
            final(self).params == old(self).params,
            final(self).ports == old(self).ports,
            final(self).attr == old(self).attr,
    {
        self.body.push(Stmt::new_parallel(Parallel::new_process(proc)));
    }

    /// Adds a statement to the body.
    pub fn add_stmt(&mut self, stmt: Stmt)
        ensures
            final(self).body@ == old(self).body@.push(stmt),
            final(self).name == old(self).name,
            final(self).params == old(self).params,
            final(self).ports == old(self).ports,
            final(self).attr == old(self).attr,
    {
        self.body.push(stmt);
    }

    pub fn set_attr(&mut self, attr: Attribute)
        ensures
            final(self).attr == attr,
            final(self).name == old(self).name,
            final(self).params == old(self).params,
            final(self).ports == old(self).ports,
            final(self).body == old(self).body,
    {
        self.attr = attr;
    }
}

} // verus!
