use crate::v17::ast::Decl;
use crate::v17::ast::Function;
use crate::v17::ast::Parallel;
use crate::v17::ast::ParallelProcess;
use crate::v17::ast::Sequential;
use crate::v17::ast::SequentialIfElse;
use crate::v17::ast::Stmt;
use vstd::prelude::*;

verus! {

impl From<SequentialIfElse> for Sequential {
    fn from(seq: SequentialIfElse) -> (r: Self) {
        Sequential::If(seq)
    }
}

impl vstd::std_specs::convert::FromSpecImpl<SequentialIfElse> for Sequential {
    open spec fn obeys_from_spec() -> bool {
        true
    }

    open spec fn from_spec(seq: SequentialIfElse) -> Sequential {
        Sequential::If(seq)
    }
}

impl From<ParallelProcess> for Parallel {
    fn from(process: ParallelProcess) -> (r: Self) {
        Parallel::Process(process)
    }
}

impl vstd::std_specs::convert::FromSpecImpl<ParallelProcess> for Parallel {
    open spec fn obeys_from_spec() -> bool {
        true
    }

    open spec fn from_spec(process: ParallelProcess) -> Parallel {
        Parallel::Process(process)
    }
}

impl From<Parallel> for Stmt {
    fn from(parallel: Parallel) -> (r: Self) {
        Stmt::Parallel(parallel)
    }
}

impl vstd::std_specs::convert::FromSpecImpl<Parallel> for Stmt {
    open spec fn obeys_from_spec() -> bool {
        true
    }

    open spec fn from_spec(parallel: Parallel) -> Stmt {
        Stmt::Parallel(parallel)
    }
}

impl From<ParallelProcess> for Stmt {
    fn from(process: ParallelProcess) -> (r: Self) {
        Stmt::Parallel(Parallel::Process(process))
    }
}

impl vstd::std_specs::convert::FromSpecImpl<ParallelProcess> for Stmt {
    open spec fn obeys_from_spec() -> bool {
        true
    }

    open spec fn from_spec(process: ParallelProcess) -> Stmt {
        Stmt::Parallel(Parallel::Process(process))
    }
}

impl From<Function> for Decl {
    fn from(function: Function) -> (r: Self) {
        Decl::Func(function)
    }
}

impl vstd::std_specs::convert::FromSpecImpl<Function> for Decl {
    open spec fn obeys_from_spec() -> bool {
        true
    }

    open spec fn from_spec(function: Function) -> Decl {
        Decl::Func(function)
    }
}

} // verus!
