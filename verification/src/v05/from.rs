use crate::v05::ast::Decl;
use crate::v05::ast::Instance;
use crate::v05::ast::Parallel;
use crate::v05::ast::ParallelProcess;
use crate::v05::ast::Sequential;
use crate::v05::ast::SequentialIfElse;
use crate::v05::ast::Stmt;
use vstd::prelude::*;

verus! {

impl From<Instance> for Parallel {
    fn from(inst: Instance) -> (r: Self) {
        Parallel::Inst(inst)
    }
}

impl vstd::std_specs::convert::FromSpecImpl<Instance> for Parallel {
    open spec fn obeys_from_spec() -> bool {
        true
    }

    open spec fn from_spec(inst: Instance) -> Parallel {
        Parallel::Inst(inst)
    }
}

impl From<Decl> for Stmt {
    fn from(decl: Decl) -> (r: Self) {
        Stmt::Decl(decl)
    }
}

impl vstd::std_specs::convert::FromSpecImpl<Decl> for Stmt {
    open spec fn obeys_from_spec() -> bool {
        true
    }

    open spec fn from_spec(decl: Decl) -> Stmt {
        Stmt::Decl(decl)
    }
}

impl From<SequentialIfElse> for Sequential {
    fn from(seq: SequentialIfElse) -> (r: Self) {
        Sequential::IfElse(seq)
    }
}

impl vstd::std_specs::convert::FromSpecImpl<SequentialIfElse> for Sequential {
    open spec fn obeys_from_spec() -> bool {
        true
    }

    open spec fn from_spec(seq: SequentialIfElse) -> Sequential {
        Sequential::IfElse(seq)
    }
}

impl From<ParallelProcess> for Parallel {
    fn from(process: ParallelProcess) -> (r: Self) {
        Parallel::Process(process)
    }
}

impl vstd::std_specs::convert::FromSpecImpl<ParallelProcess> for Parallel {
    open spec fn obeys_from_spec() -> bool {
        true
    }

    open spec fn from_spec(process: ParallelProcess) -> Parallel {
        Parallel::Process(process)
    }
}

impl From<ParallelProcess> for Stmt {
    fn from(process: ParallelProcess) -> (r: Self) {
        Stmt::Parallel(Parallel::Process(process))
    }
}

impl vstd::std_specs::convert::FromSpecImpl<ParallelProcess> for Stmt {
    open spec fn obeys_from_spec() -> bool {
        true
    }

    open spec fn from_spec(process: ParallelProcess) -> Stmt {
        Stmt::Parallel(Parallel::Process(process))
    }
}

impl From<Parallel> for Stmt {
    fn from(par: Parallel) -> (r: Self) {
        Stmt::Parallel(par)
    }
}

impl vstd::std_specs::convert::FromSpecImpl<Parallel> for Stmt {
    open spec fn obeys_from_spec() -> bool {
        true
    }

    open spec fn from_spec(par: Parallel) -> Stmt {
        Stmt::Parallel(par)
    }
}

impl From<Instance> for Stmt {
    fn from(inst: Instance) -> (r: Self) {
        Stmt::Parallel(Parallel::Inst(inst))
    }
}

impl vstd::std_specs::convert::FromSpecImpl<Instance> for Stmt {
    open spec fn obeys_from_spec() -> bool {
        true
    }

    open spec fn from_spec(inst: Instance) -> Stmt {
        Stmt::Parallel(Parallel::Inst(inst))
    }
}

} // verus!
