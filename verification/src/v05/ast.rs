use crate::subset;
use vstd::prelude::*;

verus! {

pub type Id = subset::ast::Id;

pub type Expr = subset::ast::Expr;

pub type ExprConcat = subset::ast::ExprConcat;

pub type EventTy = subset::ast::EventTy;

pub type Attribute = subset::ast::Attribute;

pub type AttributeTy = subset::ast::AttributeTy;

pub type AssignTy = subset::ast::AssignTy;

pub type Instance = subset::ast::Instance;

pub type CaseBranch = subset::ast::GenericCaseBranch<Sequential>;

pub type CaseDefault = subset::ast::GenericCaseDefault<Sequential>;

pub type Case = subset::ast::GenericCase<Sequential>;

pub type Stmt = subset::ast::GenericStmt<Decl, Parallel>;

pub type Port = subset::ast::GenericPort<Decl>;

pub type Module = subset::ast::GenericModule<Decl, Parallel>;

/// A data type: a plain integer, or a bit vector of the given width.
/// Width zero is invalid; the constructors refuse it.
#[derive(Clone, Copy, Debug, PartialEq, Eq, Hash)]
pub enum Ty {
    Int,
    Width(u64),
}

impl Ty {
    /// A vector type carries a positive width.
    pub open spec fn wf(self) -> bool {
        self matches Ty::Width(w) ==> w >= 1
    }
}

/// A declaration of the older dialect.
#[derive(Debug)]
pub enum Decl {
    Int(Id, Ty),
    Wire(Id, Ty),
    Reg(Id, Ty),
    Array(Id, Ty, Ty),
    Param(Id, Expr),
    AttributeDecl(Attribute, Box<Decl>),
}

impl Decl {
    /// Wires, registers and arrays carry an explicit positive width;
    /// every width that occurs is positive.
    pub open spec fn wf(self) -> bool
        decreases self,
    {
        match self {
            Decl::Int(_, ty) => ty.wf(),
            Decl::Wire(_, ty) => ty matches Ty::Width(w) && w >= 1,
            Decl::Reg(_, ty) => ty matches Ty::Width(w) && w >= 1,
            Decl::Array(_, width, depth) => (width matches Ty::Width(w) && w >= 1) && (
            depth matches Ty::Width(d) && d >= 1),
            Decl::Param(_, _) => true,
            Decl::AttributeDecl(_, decl) => decl.wf(),
        }
    }
}

/// A conditional chain: a condition, a body, and an optional alternative.
/// An `else if` is a chain whose alternative is another conditional.
#[derive(Debug)]
pub struct SequentialIfElse {
    pub cond: Option<Expr>,
    pub body: Vec<Sequential>,
    pub elsebr: Option<Box<Sequential>>,
}

/// A sequential statement of the older dialect.
#[derive(Debug)]
pub enum Sequential {
    /// The wildcard of a sensitivity list.
    Wildcard,
    /// An edge-triggered event.
    Event(EventTy, Expr),
    /// A blocking or non-blocking assignment.
    Assign(Expr, Expr, AssignTy),
    /// A conditional chain.
    IfElse(SequentialIfElse),
    /// A case statement.
    SeqCase(Case),
}

#[derive(Clone, Copy, Debug)]
pub enum ProcessTy {
    Always,
}

/// A process: a trigger and a body.
#[derive(Debug)]
pub struct ParallelProcess {
    pub ty: ProcessTy,
    pub event: Option<Sequential>,
    pub body: Vec<Sequential>,
}

/// A parallel statement of the older dialect.
#[derive(Debug)]
pub enum Parallel {
    Inst(Instance),
    Assign(Expr, Expr),
    Process(ParallelProcess),
}

impl Parallel {
    pub open spec fn wf(self) -> bool {
        match self {
            Parallel::Inst(inst) => inst.wf(),
            _ => true,
        }
    }
}

impl Stmt {
    pub open spec fn wf(self) -> bool {
        match self {
            Stmt::Decl(decl) => decl.wf(),
            Stmt::Parallel(par) => par.wf(),
            Stmt::RawStr(_) => true,
        }
    }
}

impl Port {
    pub open spec fn wf(self) -> bool {
        match self {
            Port::Input(decl) => decl.wf(),
            Port::Output(decl) => decl.wf(),
        }
    }
}

impl Module {
    /// Every declaration of the module is well formed and every instance
    /// keyed with distinct names.
    pub open spec fn wf(self) -> bool {
        &&& forall|i: int| 0 <= i < self.params@.len() ==> (#[trigger] self.params@[i]).wf()
        &&& forall|i: int| 0 <= i < self.ports@.len() ==> (#[trigger] self.ports@[i]).wf()
        &&& forall|i: int| 0 <= i < self.body@.len() ==> (#[trigger] self.body@[i]).wf()
    }
}

} // verus!
