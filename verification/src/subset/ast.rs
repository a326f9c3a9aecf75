use vstd::prelude::*;

verus! {

pub type Id = String;

/// Unary reduction operators.
#[derive(Clone, Copy, Debug, PartialEq, Eq, Hash)]
pub enum Unop {
    LogNot,
    Not,
    And,
    Nand,
    Or,
    Nor,
    Xor,
    Xnor,
}

/// Binary operators.
#[derive(Clone, Copy, Debug, PartialEq, Eq, Hash)]
pub enum Binop {
    LogOr,
    LogAnd,
    Add,
    Sub,
    Mul,
    Gt,
    Lt,
    Geq,
    Leq,
    Equal,
    NotEqual,
    IndexBit,
    BitAnd,
    BitOr,
    ShiftLeft,
}

/// Ternary operations.
#[derive(Clone, Copy, Debug, PartialEq, Eq, Hash)]
pub enum Terop {
    Mux,
    Slice,
    IndexSlice,
}

#[derive(Clone, Copy, Debug, PartialEq, Eq, Hash)]
pub enum Radix {
    Dec,
    Bin,
    Hex,
}

#[derive(Debug, PartialEq, Eq, Hash)]
pub struct InstancePath {
    pub path: Vec<Id>,
}

#[derive(Debug, PartialEq, Eq, Hash)]
pub struct ExprConcat {
    pub exprs: Vec<Expr>,
}

#[derive(Debug, PartialEq, Eq, Hash)]
pub enum Expr {
    Ref(Id),
    Int(i32),
    ULit(u32, Radix, String),
    Str(String),
    Signed(Box<Expr>),
    IPath(InstancePath, Option<Box<Expr>>),
    Unop(Unop, Box<Expr>),
    Binop(Binop, Box<Expr>, Box<Expr>),
    Terop(Terop, Box<Expr>, Box<Expr>, Box<Expr>),
    Concat(ExprConcat),
    Repeat(u64, Box<Expr>),
    Call(Id, Vec<Expr>),
}

#[derive(Debug, PartialEq, Eq, Hash)]
pub enum AttributeTy {
    Val(String),
    Stmt(String, String),
}

/// Representation for attributes.
#[derive(Debug, PartialEq, Eq, Hash)]
pub struct Attribute {
    pub attrs: Vec<AttributeTy>,
}

/// Event type for a task.
#[derive(Clone, Copy, Debug)]
pub enum EventTy {
    /// A positive edge triggered event.
    Posedge,
    /// A negative edge triggered event.
    Negedge,
}

/// Instance of a module. Parameter values and port connections are keyed
/// by name; connecting the same name twice overwrites the earlier entry.
#[derive(Debug)]
pub struct Instance {
    /// Name of this instance.
    pub id: Id,
    /// Name of the module being instantiated.
    pub prim: Id,
    /// Values for the parameters.
    pub params: Vec<(Id, Expr)>,
    /// Wires for the ports.
    pub ports: Vec<(Id, Expr)>,
    /// Attributes for the instance.
    pub attr: Attribute,
}

/// The type of assignment.
#[derive(Clone, Copy, Debug)]
pub enum AssignTy {
    /// A blocking assignment.
    Blocking,
    /// A non-blocking assignment.
    NonBlocking,
}

/// One branch of a case statement; `T` is the dialect's sequential type.
#[derive(Debug)]
pub struct GenericCaseBranch<T> {
    /// The guard for this case.
    pub cond: Expr,
    /// The body for this case.
    pub body: Vec<T>,
}

/// The default branch of a case statement.
#[derive(Debug)]
pub struct GenericCaseDefault<T> {
    pub body: Vec<T>,
}

/// A case statement: a scrutinee, guarded branches, and an optional
/// default branch.
#[derive(Debug)]
pub struct GenericCase<T> {
    /// The expression being switched on.
    pub cond: Expr,
    /// Conditional branches of the case.
    pub branches: Vec<GenericCaseBranch<T>>,
    /// The default branch, if one was set.
    pub default: Option<GenericCaseDefault<T>>,
}

/// A port of a module or a function; `T` is the dialect's declaration type.
#[derive(Debug)]
pub enum GenericPort<T> {
    /// An input port.
    Input(T),
    /// An output port.
    Output(T),
}

/// A function definition; `F` is the function kind, `T` the declaration
/// type, `U` the sequential type and `V` the data type.
#[derive(Debug)]
pub struct GenericFunction<F, T, U, V> {
    /// Function kind.
    pub ty: F,
    /// Name of the function.
    pub name: Id,
    /// Ports of the function.
    pub ports: Vec<GenericPort<T>>,
    /// Declarations local to this function.
    pub decls: Vec<T>,
    /// Body of this function.
    pub body: Vec<U>,
    /// Return type of this function.
    pub ret: V,
}

/// A module-level statement; `T` is the declaration type and `U` the
/// parallel type.
#[derive(Debug)]
pub enum GenericStmt<T, U> {
    /// A declaration.
    Decl(T),
    /// A parallel task.
    Parallel(U),
    /// A raw string taken over verbatim as a statement.
    RawStr(String),
}

/// A module; `T` is the declaration type and `U` the parallel type.
#[derive(Debug)]
pub struct GenericModule<T, U> {
    /// Name of the module.
    pub name: String,
    /// Parameters of the module.
    pub params: Vec<T>,
    /// Ports of this module.
    pub ports: Vec<GenericPort<T>>,
    /// Body of this module.
    pub body: Vec<GenericStmt<T, U>>,
    /// Attributes of this module.
    pub attr: Attribute,
}

} // verus!
