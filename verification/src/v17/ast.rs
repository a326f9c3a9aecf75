use crate::subset;
use vstd::prelude::*;

verus! {

pub type Id = subset::ast::Id;

pub type InstancePath = subset::ast::InstancePath;

pub type Expr = subset::ast::Expr;

pub type ExprConcat = subset::ast::ExprConcat;

pub type EventTy = subset::ast::EventTy;

pub type Attribute = subset::ast::Attribute;

pub type AttributeTy = subset::ast::AttributeTy;

pub type AssignTy = subset::ast::AssignTy;

pub type Instance = subset::ast::Instance;

pub type CaseBranch = subset::ast::GenericCaseBranch<Sequential>;

pub type CaseDefault = subset::ast::GenericCaseDefault<Sequential>;

pub type Case = subset::ast::GenericCase<Sequential>;

pub type Function = subset::ast::GenericFunction<FunctionTy, Decl, Sequential, Ty>;

pub type Stmt = subset::ast::GenericStmt<Decl, Parallel>;

pub type Port = subset::ast::GenericPort<Decl>;

pub type Module = subset::ast::GenericModule<Decl, Parallel>;

/// A data type of the newer dialect: no type, a plain integer, or a
/// four-state vector of the given width. Width zero is invalid; the
/// constructors refuse it.
#[derive(Clone, Copy, Debug, PartialEq, Eq, Hash)]
pub enum Ty {
    Void,
    Int,
    Width(u64),
}

impl Ty {
    /// A vector type carries a positive width.
    pub open spec fn wf(self) -> bool {
        self matches Ty::Width(w) ==> w >= 1
    }
}

/// The linkage of a function: an ordinary definition, or one exported to
/// or imported from foreign code.
#[derive(Clone, Copy, Debug)]
pub enum FunctionTy {
    Plain,
    Export,
    Import,
}

/// A declaration of the newer dialect.
#[derive(Debug)]
pub enum Decl {
    Int(Id, Ty),
    Logic(Id, Ty),
    Func(Function),
    Param(Id, Ty, Expr),
}

impl Decl {
    /// Four-state signals carry an explicit positive width; every width
    /// that occurs is positive.
    pub open spec fn wf(self) -> bool
        decreases self, 1int,
    {
        match self {
            Decl::Int(_, ty) => ty.wf(),
            Decl::Logic(_, ty) => ty matches Ty::Width(w) && w >= 1,
            Decl::Func(func) => func.wf(),
            Decl::Param(_, ty, _) => ty.wf(),
        }
    }
}

impl Port {
    pub open spec fn wf(self) -> bool
        decreases self, 1int,
    {
        match self {
            Port::Input(decl) => decl.wf(),
            Port::Output(decl) => decl.wf(),
        }
    }
}

/// Every port of the list is well formed.
pub open spec fn fports_wf(v: Seq<Port>) -> bool
    decreases v, 2int,
{
    v.len() == 0 || (v[0].wf() && fports_wf(v.drop_first()))
}

/// Every declaration of the list is well formed.
pub open spec fn fdecls_wf(v: Seq<Decl>) -> bool
    decreases v, 2int,
{
    v.len() == 0 || (v[0].wf() && fdecls_wf(v.drop_first()))
}

pub proof fn lemma_fports_wf(v: Seq<Port>)
    ensures
        fports_wf(v) <==> (forall|i: int| 0 <= i < v.len() ==> (#[trigger] v[i]).wf()),
    decreases v,
{
    if v.len() > 0 {
        lemma_fports_wf(v.drop_first());
        if fports_wf(v) {
            assert forall|i: int| 0 <= i < v.len() implies (#[trigger] v[i]).wf() by {
                if i > 0 {
                    assert(v[i] == v.drop_first()[i - 1]);
                }
            }
        }
        if forall|i: int| 0 <= i < v.len() ==> (#[trigger] v[i]).wf() {
            assert forall|i: int|
                0 <= i < v.drop_first().len() implies (#[trigger] v.drop_first()[i]).wf() by {
                assert(v.drop_first()[i] == v[i + 1]);
            }
        }
    }
}

pub proof fn lemma_fdecls_wf(v: Seq<Decl>)
    ensures
        fdecls_wf(v) <==> (forall|i: int| 0 <= i < v.len() ==> (#[trigger] v[i]).wf()),
    decreases v,
{
    if v.len() > 0 {
        lemma_fdecls_wf(v.drop_first());
        if fdecls_wf(v) {
            assert forall|i: int| 0 <= i < v.len() implies (#[trigger] v[i]).wf() by {
                if i > 0 {
                    assert(v[i] == v.drop_first()[i - 1]);
                }
            }
        }
        if forall|i: int| 0 <= i < v.len() ==> (#[trigger] v[i]).wf() {
            assert forall|i: int|
                0 <= i < v.drop_first().len() implies (#[trigger] v.drop_first()[i]).wf() by {
                assert(v.drop_first()[i] == v[i + 1]);
            }
        }
    }
}

impl Function {
    /// Every port, local declaration and the return type are well formed.
    pub open spec fn wf(self) -> bool
        decreases self, 3int,
    {
        fports_wf(self.ports@) && fdecls_wf(self.decls@) && self.ret.wf()
    }
}

/// A conditional chain: a condition, a body, and an optional alternative.
/// An `else if` is a chain whose alternative is another conditional.
#[derive(Debug)]
pub struct SequentialIfElse {
    pub cond: Option<Expr>,
    pub body: Vec<Sequential>,
    pub else_branch: Option<Box<Sequential>>,
    /// Whether the chain carries the `unique` annotation.
    pub unique: bool,
}

/// A sequential statement of the newer dialect.
#[derive(Debug)]
pub enum Sequential {
    /// A diagnostic that fails.
    Error(String),
    /// A diagnostic that prints.
    Display(String),
    /// A return from a function body.
    Return(Expr),
    /// A bare expression statement.
    SeqExpr(Expr),
    /// A blocking or non-blocking assignment.
    SeqAssign(Expr, Expr, AssignTy),
    /// A case statement.
    SeqCase(Case),
    /// A call statement.
    SeqCall(Expr),
    /// An edge-triggered event.
    Event(EventTy, Expr),
    /// A conditional chain.
    If(SequentialIfElse),
    /// An assertion with an optional alternative taken on failure.
    Assert(Expr, Option<Box<Sequential>>),
}

#[derive(Clone, Copy, Debug)]
pub enum ProcessTy {
    AlwaysComb,
    AlwaysFF,
    Initial,
    Final,
}

/// A process: a trigger and a body.
#[derive(Debug)]
pub struct ParallelProcess {
    pub ty: ProcessTy,
    pub event: Option<Sequential>,
    pub body: Vec<Sequential>,
}

/// A parallel statement of the newer dialect. Continuous assignment is
/// carried but has no rendering in this dialect.
#[derive(Debug)]
pub enum Parallel {
    Inst(Instance),
    ParAssign(Expr, Expr),
    Process(ParallelProcess),
}

impl Parallel {
    /// Renderable parallel statements: instances with uniquely named
    /// entries, and processes. Continuous assignments have no rendering.
    pub open spec fn wf(self) -> bool {
        match self {
            Parallel::Inst(inst) => inst.wf(),
            Parallel::ParAssign(_, _) => false,
            Parallel::Process(_) => true,
        }
    }
}

impl Stmt {
    pub open spec fn wf(self) -> bool {
        match self {
            Stmt::Decl(decl) => decl.wf(),
            Stmt::Parallel(par) => par.wf(),
            Stmt::RawStr(_) => true,
        }
    }
}

impl Module {
    /// Every declaration of the module is well formed, every instance
    /// keyed with distinct names, and no statement lacks a rendering.
    pub open spec fn wf(self) -> bool {
        &&& forall|i: int| 0 <= i < self.params@.len() ==> (#[trigger] self.params@[i]).wf()
        &&& forall|i: int| 0 <= i < self.ports@.len() ==> (#[trigger] self.ports@[i]).wf()
        &&& forall|i: int| 0 <= i < self.body@.len() ==> (#[trigger] self.body@[i]).wf()
    }
}

} // verus!
