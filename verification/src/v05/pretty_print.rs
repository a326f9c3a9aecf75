use crate::subset::pretty_print::assign_ty_str;
use crate::subset::pretty_print::attribute_text;
use crate::subset::pretty_print::event_ty_str;
use crate::subset::pretty_print::expr_text;
use crate::subset::pretty_print::instance_text;
use crate::util::num::dec_str;
use crate::util::num::u64_to_string;
use crate::util::pretty_print::block;
use crate::util::pretty_print::block_with_parens;
use crate::util::pretty_print::blocked;
use crate::util::pretty_print::doc_text;
use crate::util::pretty_print::doc_to_string;
use crate::util::pretty_print::doc_views;
use crate::util::pretty_print::indent_step;
use crate::util::pretty_print::intersperse;
use crate::util::pretty_print::joined;
use crate::util::pretty_print::texts_at;
use crate::util::pretty_print::Doc;
use crate::v05::ast::Case;
use crate::v05::ast::CaseBranch;
use crate::v05::ast::CaseDefault;
use crate::v05::ast::Decl;
use crate::v05::ast::Module;
use crate::v05::ast::Parallel;
use crate::v05::ast::ParallelProcess;
use crate::v05::ast::Port;
use crate::v05::ast::ProcessTy;
use crate::v05::ast::Sequential;
use crate::v05::ast::SequentialIfElse;
use crate::v05::ast::Stmt;
use crate::v05::ast::Ty;
use vstd::prelude::*;

verus! {

// ----------------------------------------------------------------------------
// Types and declarations.
// ----------------------------------------------------------------------------

/// Text of a type: `integer`, nothing for a single bit, or a descending
/// range for a wider vector.
pub open spec fn ty_text(t: Ty) -> Seq<char> {
    match t {
        Ty::Int => "integer"@,
        Ty::Width(w) => if w == 1 {
            Seq::empty()
        } else {
            "["@ + (dec_str((w - 1) as nat) + ":"@ + "0"@) + "]"@
        },
    }
}

/// Text of a declaration. A single-bit signal carries no range and no
/// second space before its name.
pub open spec fn decl_text(d: Decl, pre: Seq<char>) -> Seq<char>
    decreases d,
{
    match d {
        Decl::Int(name, ty) => ty_text(ty) + " "@ + name@,
        Decl::Wire(name, ty) => "wire"@ + " "@ + ty_text(ty) + (if ty matches Ty::Width(1) {
            Seq::<char>::empty()
        } else {
            " "@
        }) + name@,
        Decl::Reg(name, ty) => "reg"@ + " "@ + ty_text(ty) + (if ty matches Ty::Width(1) {
            Seq::<char>::empty()
        } else {
            " "@
        }) + name@,
        Decl::Array(name, width, depth) => "reg"@ + " "@ + ty_text(width) + (
        if width matches Ty::Width(1) {
            Seq::<char>::empty()
        } else {
            " "@
        }) + name@ + (if depth matches Ty::Width(1) {
            Seq::<char>::empty()
        } else {
            " "@
        }) + ty_text(depth),
        Decl::Param(name, expr) => "parameter"@ + " "@ + name@ + " "@ + "="@ + " "@ + expr_text(
            expr,
            pre,
        ),
        Decl::AttributeDecl(attr, decl) => attribute_text(attr) + " "@ + decl_text(*decl, pre),
    }
}

impl Ty {
    pub fn to_doc(&self) -> (d: Doc)
        requires
            self.wf(),
        ensures
            forall|pre: Seq<char>| #[trigger] doc_text(d@, pre) == ty_text(*self),
    {
        match self {
            Ty::Int => Doc::text("integer"),
            Ty::Width(w) => {
                if *w == 1 {
                    Doc::nil()
                } else {
                    Doc::text_owned(u64_to_string(*w - 1)).cat(Doc::text(":")).cat(
                        Doc::text("0"),
                    ).brackets()
                }
            }
        }
    }
}

impl Decl {
    pub fn to_doc(&self) -> (d: Doc)
        requires
            self.wf(),
        ensures
            forall|pre: Seq<char>| #[trigger] doc_text(d@, pre) == decl_text(*self, pre),
        decreases *self,
    {
        match self {
            Decl::Int(name, ty) => ty.to_doc().cat(Doc::space()).cat(
                Doc::text(name.as_str()),
            ),
            Decl::Wire(name, ty) => {
                let extra_space = if ty.width() == 1 {
                    Doc::nil()
                } else {
                    Doc::space()
                };
                Doc::text("wire").cat(Doc::space()).cat(ty.to_doc()).cat(extra_space).cat(
                    Doc::text(name.as_str()),
                )
            }
            Decl::Reg(name, ty) => {
                let extra_space = if ty.width() == 1 {
                    Doc::nil()
                } else {
                    Doc::space()
                };
                Doc::text("reg").cat(Doc::space()).cat(ty.to_doc()).cat(extra_space).cat(
                    Doc::text(name.as_str()),
                )
            }
            Decl::Array(name, width, depth) => {
                let width_space = if width.width() == 1 {
                    Doc::nil()
                } else {
                    Doc::space()
                };
                let depth_space = if depth.width() == 1 {
                    Doc::nil()
                } else {
                    Doc::space()
                };
                Doc::text("reg").cat(Doc::space()).cat(width.to_doc()).cat(width_space).cat(
                    Doc::text(name.as_str()),
                ).cat(depth_space).cat(depth.to_doc())
            }
            Decl::Param(name, expr) => Doc::text("parameter").cat(Doc::space()).cat(
                Doc::text(name.as_str()),
            ).cat(Doc::space()).cat(Doc::text("=")).cat(Doc::space()).cat(expr.to_doc()),
            Decl::AttributeDecl(attr, decl) => attr.to_doc().cat(Doc::space()).cat(
                decl.to_doc(),
            ),
        }
    }

    pub fn to_pretty(&self) -> (r: String)
        requires
            self.wf(),
        ensures
            r@ == decl_text(*self, Seq::empty()),
    {
        doc_to_string(&self.to_doc())
    }

    pub fn to_string(&self) -> (r: String)
        requires
            self.wf(),
        ensures
            r@ == decl_text(*self, Seq::empty()),
    {
        self.to_pretty()
    }
}

// ----------------------------------------------------------------------------
// Sequential statements.
// ----------------------------------------------------------------------------

pub open spec fn seqs_texts(v: Seq<Sequential>, pre: Seq<char>) -> Seq<Seq<char>>
    decreases v, 0int,
{
    if v.len() == 0 {
        Seq::empty()
    } else {
        seq![seq_text(v[0], pre)] + seqs_texts(v.drop_first(), pre)
    }
}

/// Text of a statement body: nothing when empty, otherwise a begin/end
/// block holding one statement per line, one level deeper.
pub open spec fn seq_body_text(v: Seq<Sequential>, pre: Seq<char>) -> Seq<char>
    decreases v, 1int,
{
    if v.len() == 0 {
        Seq::empty()
    } else {
        "begin"@ + blocked(
            joined(seqs_texts(v, pre + indent_step()), "\n"@ + (pre + indent_step())),
            pre,
        ) + "end"@
    }
}

/// Text of a conditional chain: the condition when present, the body, and
/// the alternative after `else`. A conditional in the alternative renders
/// as an `else if` chain.
pub open spec fn ifelse_text(ie: SequentialIfElse, pre: Seq<char>) -> Seq<char>
    decreases ie, 0int,
{
    (match ie.cond {
        Some(c) => "if"@ + ("("@ + expr_text(c, pre) + ")"@) + " "@,
        None => Seq::<char>::empty(),
    }) + seq_body_text(ie.body@, pre) + (match ie.elsebr {
        Some(b) => " "@ + "else"@ + " "@ + seq_text(*b, pre),
        None => Seq::<char>::empty(),
    })
}

pub open spec fn branch_text(b: CaseBranch, pre: Seq<char>) -> Seq<char>
    decreases b, 0int,
{
    expr_text(b.cond, pre) + " "@ + ":"@ + " "@ + seq_body_text(b.body@, pre)
}

pub open spec fn branches_texts(bs: Seq<CaseBranch>, pre: Seq<char>) -> Seq<Seq<char>>
    decreases bs, 0int,
{
    if bs.len() == 0 {
        Seq::empty()
    } else {
        seq![branch_text(bs[0], pre)] + branches_texts(bs.drop_first(), pre)
    }
}

pub open spec fn default_text(d: CaseDefault, pre: Seq<char>) -> Seq<char>
    decreases d, 0int,
{
    "default"@ + " "@ + ":"@ + " "@ + seq_body_text(d.body@, pre)
}

/// Text of a case statement: the scrutinee in parentheses, the branches one
/// per line and the default branch last, all between `case` and `endcase`.
pub open spec fn case_text(c: Case, pre: Seq<char>) -> Seq<char>
    decreases c, 1int,
{
    let pre4 = pre + indent_step();
    let bt = if c.branches@.len() == 0 {
        Seq::<char>::empty()
    } else {
        joined(branches_texts(c.branches@, pre4), "\n"@ + pre4)
    };
    let bt2 = match c.default {
        Some(d) => bt + ("\n"@ + pre4) + default_text(d, pre4),
        None => bt,
    };
    "case"@ + (" "@ + ("("@ + expr_text(c.cond, pre) + ")"@) + blocked(bt2, pre)) + "endcase"@
}

pub open spec fn seq_text(s: Sequential, pre: Seq<char>) -> Seq<char>
    decreases s, 0int,
{
    match s {
        Sequential::Wildcard => "*"@,
        Sequential::Event(ty, expr) => event_ty_str(ty) + " "@ + expr_text(expr, pre),
        Sequential::Assign(lexpr, rexpr, ty) => expr_text(lexpr, pre) + " "@ + assign_ty_str(ty)
            + " "@ + expr_text(rexpr, pre) + ";"@,
        Sequential::IfElse(ie) => ifelse_text(ie, pre),
        Sequential::SeqCase(c) => case_text(c, pre),
    }
}

pub proof fn lemma_seqs_texts_index(v: Seq<Sequential>, pre: Seq<char>)
    ensures
        seqs_texts(v, pre).len() == v.len(),
        forall|k: int| 0 <= k < v.len() ==> seqs_texts(v, pre)[k] == seq_text(v[k], pre),
    decreases v,
{
    if v.len() > 0 {
        lemma_seqs_texts_index(v.drop_first(), pre);
        assert forall|k: int| 0 <= k < v.len() implies seqs_texts(v, pre)[k] == seq_text(
            v[k],
            pre,
        ) by {
            if k > 0 {
                assert(seqs_texts(v, pre)[k] == seqs_texts(v.drop_first(), pre)[k - 1]);
                assert(v.drop_first()[k - 1] == v[k]);
            }
        }
    }
}

pub proof fn lemma_branches_texts_index(bs: Seq<CaseBranch>, pre: Seq<char>)
    ensures
        branches_texts(bs, pre).len() == bs.len(),
        forall|k: int| 0 <= k < bs.len() ==> branches_texts(bs, pre)[k] == branch_text(
            bs[k],
            pre,
        ),
    decreases bs,
{
    if bs.len() > 0 {
        lemma_branches_texts_index(bs.drop_first(), pre);
        assert forall|k: int| 0 <= k < bs.len() implies branches_texts(bs, pre)[k]
            == branch_text(bs[k], pre) by {
            if k > 0 {
                assert(branches_texts(bs, pre)[k] == branches_texts(bs.drop_first(), pre)[k
                    - 1]);
                assert(bs.drop_first()[k - 1] == bs[k]);
            }
        }
    }
}

/// Renders a statement body as a begin/end block, or nothing when empty.
fn seq_body_doc(v: &Vec<Sequential>) -> (d: Doc)
    ensures
        forall|pre: Seq<char>| #[trigger] doc_text(d@, pre) == seq_body_text(v@, pre),
    decreases v@, 1int,
{
    if v.len() == 0 {
        Doc::nil()
    } else {
        let n = v.len();
        let mut docs: Vec<Doc> = Vec::new();
        let mut i: usize = 0;
        while i < n
            invariant
                i <= n,
                n == v@.len(),
                docs@.len() == i,
                forall|j: int, pre: Seq<char>|
                    0 <= j < i ==> #[trigger] doc_text(docs@[j]@, pre) == seq_text(v@[j], pre),
            decreases n - i,
        {
            docs.push(v[i].to_doc());
            i += 1;
        }
        let inner = intersperse(docs, Doc::hardline());
        let d = block(inner).begin_end();
        proof {
            assert forall|pre: Seq<char>| #[trigger]
                doc_text(d@, pre) == seq_body_text(v@, pre) by {
                let pre4 = pre + indent_step();
                lemma_seqs_texts_index(v@, pre4);
                let lhs = texts_at(doc_views(docs@), pre4);
                let rhs = seqs_texts(v@, pre4);
                assert(lhs.len() == n as int && rhs.len() == n as int);
                assert forall|j: int| 0 <= j < n implies lhs[j] == rhs[j] by {
                    assert(lhs[j] == doc_text(docs@[j]@, pre4));
                    assert(rhs[j] == seq_text(v@[j], pre4));
                }
                assert(lhs =~= rhs);
            }
        }
        d
    }
}

impl SequentialIfElse {
    pub fn to_doc(&self) -> (d: Doc)
        ensures
            forall|pre: Seq<char>| #[trigger] doc_text(d@, pre) == ifelse_text(*self, pre),
        decreases *self, 2int,
    {
        let cond = match &self.cond {
            Some(c) => Doc::text("if").cat(c.to_doc().parens()).cat(Doc::space()),
            None => Doc::nil(),
        };
        let body = seq_body_doc(&self.body);
        let else_branch = match &self.elsebr {
            Some(branch) => Doc::space().cat(Doc::text("else")).cat(Doc::space()).cat(
                branch.to_doc(),
            ),
            None => Doc::nil(),
        };
        cond.cat(body).cat(else_branch)
    }

    pub fn to_pretty(&self) -> (r: String)
        ensures
            r@ == ifelse_text(*self, Seq::empty()),
    {
        doc_to_string(&self.to_doc())
    }

    pub fn to_string(&self) -> (r: String)
        ensures
            r@ == ifelse_text(*self, Seq::empty()),
    {
        self.to_pretty()
    }
}

impl CaseBranch {
    pub fn to_doc(&self) -> (d: Doc)
        ensures
            forall|pre: Seq<char>| #[trigger] doc_text(d@, pre) == branch_text(*self, pre),
        decreases *self, 2int,
    {
        self.cond.to_doc().cat(Doc::space()).cat(Doc::text(":")).cat(Doc::space()).cat(
            seq_body_doc(&self.body),
        )
    }

    pub fn to_pretty(&self) -> (r: String)
        ensures
            r@ == branch_text(*self, Seq::empty()),
    {
        doc_to_string(&self.to_doc())
    }

    pub fn to_string(&self) -> (r: String)
        ensures
            r@ == branch_text(*self, Seq::empty()),
    {
        self.to_pretty()
    }
}

impl CaseDefault {
    pub fn to_doc(&self) -> (d: Doc)
        ensures
            forall|pre: Seq<char>| #[trigger] doc_text(d@, pre) == default_text(*self, pre),
        decreases *self, 2int,
    {
        Doc::text("default").cat(Doc::space()).cat(Doc::text(":")).cat(Doc::space()).cat(
            seq_body_doc(&self.body),
        )
    }

    pub fn to_pretty(&self) -> (r: String)
        ensures
            r@ == default_text(*self, Seq::empty()),
    {
        doc_to_string(&self.to_doc())
    }

    pub fn to_string(&self) -> (r: String)
        ensures
            r@ == default_text(*self, Seq::empty()),
    {
        self.to_pretty()
    }
}

impl Case {
    pub fn to_doc(&self) -> (d: Doc)
        ensures
            forall|pre: Seq<char>| #[trigger] doc_text(d@, pre) == case_text(*self, pre),
        decreases *self, 2int,
    {
        let n = self.branches.len();
        let mut docs: Vec<Doc> = Vec::new();
        let mut i: usize = 0;
        while i < n
            invariant
                i <= n,
                n == self.branches@.len(),
                docs@.len() == i,
                forall|j: int, pre: Seq<char>|
                    0 <= j < i ==> #[trigger] doc_text(docs@[j]@, pre) == branch_text(
                        self.branches@[j],
                        pre,
                    ),
            decreases n - i,
        {
            docs.push(self.branches[i].to_doc());
            i += 1;
        }
        let branches = if n == 0 {
            Doc::nil()
        } else {
            intersperse(docs, Doc::hardline())
        };
        proof {
            assert forall|pre: Seq<char>| #[trigger]
                doc_text(branches@, pre) == (if self.branches@.len() == 0 {
                    Seq::<char>::empty()
                } else {
                    joined(branches_texts(self.branches@, pre), "\n"@ + pre)
                }) by {
                lemma_branches_texts_index(self.branches@, pre);
                if self.branches@.len() > 0 {
                    let lhs = texts_at(doc_views(docs@), pre);
                    let rhs = branches_texts(self.branches@, pre);
                    assert(lhs.len() == n as int && rhs.len() == n as int);
                    assert forall|j: int| 0 <= j < n implies lhs[j] == rhs[j] by {
                        assert(lhs[j] == doc_text(docs@[j]@, pre));
                        assert(rhs[j] == branch_text(self.branches@[j], pre));
                    }
                    assert(lhs =~= rhs);
                }
            }
        }
        let with_default = match &self.default {
            Some(default) => branches.cat(Doc::hardline()).cat(default.to_doc()),
            None => branches,
        };
        Doc::space().cat(self.cond.to_doc().parens()).cat(block(with_default)).case_endcase()
    }

    pub fn to_pretty(&self) -> (r: String)
        ensures
            r@ == case_text(*self, Seq::empty()),
    {
        doc_to_string(&self.to_doc())
    }

    pub fn to_string(&self) -> (r: String)
        ensures
            r@ == case_text(*self, Seq::empty()),
    {
        self.to_pretty()
    }
}

impl Sequential {
    pub fn to_doc(&self) -> (d: Doc)
        ensures
            forall|pre: Seq<char>| #[trigger] doc_text(d@, pre) == seq_text(*self, pre),
        decreases *self, 3int,
    {
        match self {
            Sequential::Wildcard => Doc::text("*"),
            Sequential::Event(ty, expr) => ty.to_doc().cat(Doc::space()).cat(expr.to_doc()),
            Sequential::Assign(lexpr, rexpr, ty) => lexpr.to_doc().cat(Doc::space()).cat(
                ty.to_doc(),
            ).cat(Doc::space()).cat(rexpr.to_doc()).cat(Doc::text(";")),
            Sequential::IfElse(ifelse) => ifelse.to_doc(),
            Sequential::SeqCase(case) => case.to_doc(),
        }
    }

    pub fn to_pretty(&self) -> (r: String)
        ensures
            r@ == seq_text(*self, Seq::empty()),
    {
        doc_to_string(&self.to_doc())
    }

    pub fn to_string(&self) -> (r: String)
        ensures
            r@ == seq_text(*self, Seq::empty()),
    {
        self.to_pretty()
    }
}

// ----------------------------------------------------------------------------
// Parallel statements and processes.
// ----------------------------------------------------------------------------

pub open spec fn process_ty_str(t: ProcessTy) -> Seq<char> {
    match t {
        ProcessTy::Always => "always"@,
    }
}

/// Text of a process: the keyword, the trigger in parentheses after `@`,
/// and the body.
pub open spec fn process_text(p: ParallelProcess, pre: Seq<char>) -> Seq<char> {
    process_ty_str(p.ty) + " "@ + "@"@ + ("("@ + (match p.event {
        Some(e) => seq_text(e, pre),
        None => Seq::<char>::empty(),
    }) + ")"@) + " "@ + seq_body_text(p.body@, pre)
}

pub open spec fn parallel_text(p: Parallel, pre: Seq<char>) -> Seq<char> {
    match p {
        Parallel::Inst(inst) => instance_text(inst, pre),
        Parallel::Assign(lexpr, rexpr) => "assign"@ + " "@ + expr_text(lexpr, pre) + " "@ + "="@
            + " "@ + expr_text(rexpr, pre) + ";"@,
        Parallel::Process(proc) => process_text(proc, pre),
    }
}

pub open spec fn stmt_text(s: Stmt, pre: Seq<char>) -> Seq<char> {
    match s {
        Stmt::Decl(decl) => decl_text(decl, pre) + ";"@,
        Stmt::Parallel(par) => parallel_text(par, pre),
        Stmt::RawStr(text) => text@,
    }
}

impl ProcessTy {
    pub fn to_doc(&self) -> (d: Doc)
        ensures
            forall|pre: Seq<char>| #[trigger] doc_text(d@, pre) == process_ty_str(*self),
    {
        match self {
            ProcessTy::Always => Doc::text("always"),
        }
    }
}

impl ParallelProcess {
    pub fn to_doc(&self) -> (d: Doc)
        ensures
            forall|pre: Seq<char>| #[trigger] doc_text(d@, pre) == process_text(*self, pre),
    {
        let body = seq_body_doc(&self.body);
        let event = match &self.event {
            Some(e) => e.to_doc(),
            None => Doc::nil(),
        };
        self.ty.to_doc().cat(Doc::space()).cat(Doc::text("@")).cat(event.parens()).cat(
            Doc::space(),
        ).cat(body)
    }

    pub fn to_pretty(&self) -> (r: String)
        ensures
            r@ == process_text(*self, Seq::empty()),
    {
        doc_to_string(&self.to_doc())
    }

    pub fn to_string(&self) -> (r: String)
        ensures
            r@ == process_text(*self, Seq::empty()),
    {
        self.to_pretty()
    }
}

impl Parallel {
    pub fn to_doc(&self) -> (d: Doc)
        requires
            self.wf(),
        ensures
            forall|pre: Seq<char>| #[trigger] doc_text(d@, pre) == parallel_text(*self, pre),
    {
        match self {
            Parallel::Inst(inst) => inst.to_doc(),
            Parallel::Assign(lexpr, rexpr) => Doc::text("assign").cat(Doc::space()).cat(
                lexpr.to_doc(),
            ).cat(Doc::space()).cat(Doc::text("=")).cat(Doc::space()).cat(rexpr.to_doc()).cat(
                Doc::text(";"),
            ),
            Parallel::Process(proc) => proc.to_doc(),
        }
    }

    pub fn to_pretty(&self) -> (r: String)
        requires
            self.wf(),
        ensures
            r@ == parallel_text(*self, Seq::empty()),
    {
        doc_to_string(&self.to_doc())
    }

    pub fn to_string(&self) -> (r: String)
        requires
            self.wf(),
        ensures
            r@ == parallel_text(*self, Seq::empty()),
    {
        self.to_pretty()
    }
}

impl Stmt {
    pub fn to_doc(&self) -> (d: Doc)
        requires
            self.wf(),
        ensures
            forall|pre: Seq<char>| #[trigger] doc_text(d@, pre) == stmt_text(*self, pre),
    {
        match self {
            Stmt::Decl(decl) => decl.to_doc().cat(Doc::text(";")),
            Stmt::Parallel(par) => par.to_doc(),
            Stmt::RawStr(text) => Doc::text(text.as_str()),
        }
    }

    pub fn to_pretty(&self) -> (r: String)
        requires
            self.wf(),
        ensures
            r@ == stmt_text(*self, Seq::empty()),
    {
        doc_to_string(&self.to_doc())
    }

    pub fn to_string(&self) -> (r: String)
        requires
            self.wf(),
        ensures
            r@ == stmt_text(*self, Seq::empty()),
    {
        self.to_pretty()
    }
}

// ----------------------------------------------------------------------------
// Ports and modules.
// ----------------------------------------------------------------------------

pub open spec fn port_text(p: Port, pre: Seq<char>) -> Seq<char> {
    match p {
        Port::Input(decl) => "input"@ + " "@ + decl_text(decl, pre),
        Port::Output(decl) => "output"@ + " "@ + decl_text(decl, pre),
    }
}

impl Port {
    pub fn to_doc(&self) -> (d: Doc)
        requires
            self.wf(),
        ensures
            forall|pre: Seq<char>| #[trigger] doc_text(d@, pre) == port_text(*self, pre),
    {
        match self {
            Port::Input(decl) => Doc::text("input").cat(Doc::space()).cat(decl.to_doc()),
            Port::Output(decl) => Doc::text("output").cat(Doc::space()).cat(decl.to_doc()),
        }
    }

    pub fn to_pretty(&self) -> (r: String)
        requires
            self.wf(),
        ensures
            r@ == port_text(*self, Seq::empty()),
    {
        doc_to_string(&self.to_doc())
    }

    pub fn to_string(&self) -> (r: String)
        requires
            self.wf(),
        ensures
            r@ == port_text(*self, Seq::empty()),
    {
        self.to_pretty()
    }
}

pub open spec fn decls_texts(v: Seq<Decl>, pre: Seq<char>) -> Seq<Seq<char>>
    decreases v,
{
    if v.len() == 0 {
        Seq::empty()
    } else {
        seq![decl_text(v[0], pre)] + decls_texts(v.drop_first(), pre)
    }
}

pub proof fn lemma_decls_texts_index(v: Seq<Decl>, pre: Seq<char>)
    ensures
        decls_texts(v, pre).len() == v.len(),
        forall|k: int| 0 <= k < v.len() ==> decls_texts(v, pre)[k] == decl_text(v[k], pre),
    decreases v,
{
    if v.len() > 0 {
        lemma_decls_texts_index(v.drop_first(), pre);
        assert forall|k: int| 0 <= k < v.len() implies decls_texts(v, pre)[k] == decl_text(
            v[k],
            pre,
        ) by {
            if k > 0 {
                assert(decls_texts(v, pre)[k] == decls_texts(v.drop_first(), pre)[k - 1]);
                assert(v.drop_first()[k - 1] == v[k]);
            }
        }
    }
}

pub open spec fn ports_texts(v: Seq<Port>, pre: Seq<char>) -> Seq<Seq<char>>
    decreases v,
{
    if v.len() == 0 {
        Seq::empty()
    } else {
        seq![port_text(v[0], pre)] + ports_texts(v.drop_first(), pre)
    }
}

pub proof fn lemma_ports_texts_index(v: Seq<Port>, pre: Seq<char>)
    ensures
        ports_texts(v, pre).len() == v.len(),
        forall|k: int| 0 <= k < v.len() ==> ports_texts(v, pre)[k] == port_text(v[k], pre),
    decreases v,
{
    if v.len() > 0 {
        lemma_ports_texts_index(v.drop_first(), pre);
        assert forall|k: int| 0 <= k < v.len() implies ports_texts(v, pre)[k] == port_text(
            v[k],
            pre,
        ) by {
            if k > 0 {
                assert(ports_texts(v, pre)[k] == ports_texts(v.drop_first(), pre)[k - 1]);
                assert(v.drop_first()[k - 1] == v[k]);
            }
        }
    }
}

pub open spec fn stmts_texts(v: Seq<Stmt>, pre: Seq<char>) -> Seq<Seq<char>>
    decreases v,
{
    if v.len() == 0 {
        Seq::empty()
    } else {
        seq![stmt_text(v[0], pre)] + stmts_texts(v.drop_first(), pre)
    }
}

pub proof fn lemma_stmts_texts_index(v: Seq<Stmt>, pre: Seq<char>)
    ensures
        stmts_texts(v, pre).len() == v.len(),
        forall|k: int| 0 <= k < v.len() ==> stmts_texts(v, pre)[k] == stmt_text(v[k], pre),
    decreases v,
{
    if v.len() > 0 {
        lemma_stmts_texts_index(v.drop_first(), pre);
        assert forall|k: int| 0 <= k < v.len() implies stmts_texts(v, pre)[k] == stmt_text(
            v[k],
            pre,
        ) by {
            if k > 0 {
                assert(stmts_texts(v, pre)[k] == stmts_texts(v.drop_first(), pre)[k - 1]);
                assert(v.drop_first()[k - 1] == v[k]);
            }
        }
    }
}

/// Text of a module: an attribute block when present, the header with
/// parameters and ports, the body one level deeper, and `endmodule`.
pub open spec fn module_text(m: Module, pre: Seq<char>) -> Seq<char> {
    let pre4 = pre + indent_step();
    let params_inner = joined(decls_texts(m.params@, pre4), ","@ + ("\n"@ + pre4));
    let ports_inner = joined(ports_texts(m.ports@, pre4), ","@ + ("\n"@ + pre4));
    let name_part = if m.params@.len() == 0 && m.ports@.len() == 0 {
        m.name@ + " "@ + ("("@ + Seq::<char>::empty() + ")"@)
    } else if m.params@.len() == 0 {
        m.name@ + " "@ + "("@ + blocked(ports_inner, pre) + ")"@
    } else if m.ports@.len() == 0 {
        m.name@ + " "@ + "#"@ + " "@ + "("@ + blocked(params_inner, pre) + ")"@
    } else {
        (m.name@ + " "@ + "#"@ + " "@ + "("@ + blocked(params_inner, pre) + ")"@) + (Seq::<
            char,
        >::empty() + " "@ + "("@ + blocked(ports_inner, pre) + ")"@)
    };
    let body_part = if m.body@.len() == 0 {
        "\n"@ + pre
    } else {
        blocked(joined(stmts_texts(m.body@, pre4), "\n"@ + pre4), pre)
    };
    let attr_part = if m.attr.attrs@.len() == 0 {
        Seq::<char>::empty()
    } else {
        attribute_text(m.attr) + ("\n"@ + pre)
    };
    attr_part + ("module"@ + (" "@ + name_part + ";"@ + body_part) + "endmodule"@ + ("\n"@
        + pre))
}

impl Module {
    pub fn to_doc(&self) -> (d: Doc)
        requires
            self.wf(),
        ensures
            forall|pre: Seq<char>| #[trigger] doc_text(d@, pre) == module_text(*self, pre),
    {
        let np = self.params.len();
        let mut param_docs: Vec<Doc> = Vec::new();
        let mut i: usize = 0;
        while i < np
            invariant
                i <= np,
                np == self.params@.len(),
                param_docs@.len() == i,
                self.wf(),
                forall|j: int, pre: Seq<char>|
                    0 <= j < i ==> #[trigger] doc_text(param_docs@[j]@, pre) == decl_text(
                        self.params@[j],
                        pre,
                    ),
            decreases np - i,
        {
            param_docs.push(self.params[i].to_doc());
            i += 1;
        }
        let params = intersperse(param_docs, Doc::text(",").cat(Doc::hardline()));
        let npo = self.ports.len();
        let mut port_docs: Vec<Doc> = Vec::new();
        let mut k: usize = 0;
        while k < npo
            invariant
                k <= npo,
                npo == self.ports@.len(),
                port_docs@.len() == k,
                self.wf(),
                forall|j: int, pre: Seq<char>|
                    0 <= j < k ==> #[trigger] doc_text(port_docs@[j]@, pre) == port_text(
                        self.ports@[j],
                        pre,
                    ),
            decreases npo - k,
        {
            port_docs.push(self.ports[k].to_doc());
            k += 1;
        }
        let ports = intersperse(port_docs, Doc::text(",").cat(Doc::hardline()));
        proof {
            assert forall|pre: Seq<char>| #[trigger]
                doc_text(params@, pre) == joined(
                    decls_texts(self.params@, pre),
                    ","@ + ("\n"@ + pre),
                ) by {
                lemma_decls_texts_index(self.params@, pre);
                let lhs = texts_at(doc_views(param_docs@), pre);
                let rhs = decls_texts(self.params@, pre);
                assert(lhs.len() == np as int && rhs.len() == np as int);
                assert forall|j: int| 0 <= j < np implies lhs[j] == rhs[j] by {
                    assert(lhs[j] == doc_text(param_docs@[j]@, pre));
                    assert(rhs[j] == decl_text(self.params@[j], pre));
                }
                assert(lhs =~= rhs);
            }
            assert forall|pre: Seq<char>| #[trigger]
                doc_text(ports@, pre) == joined(
                    ports_texts(self.ports@, pre),
                    ","@ + ("\n"@ + pre),
                ) by {
                lemma_ports_texts_index(self.ports@, pre);
                let lhs = texts_at(doc_views(port_docs@), pre);
                let rhs = ports_texts(self.ports@, pre);
                assert(lhs.len() == npo as int && rhs.len() == npo as int);
                assert forall|j: int| 0 <= j < npo implies lhs[j] == rhs[j] by {
                    assert(lhs[j] == doc_text(port_docs@[j]@, pre));
                    assert(rhs[j] == port_text(self.ports@[j], pre));
                }
                assert(lhs =~= rhs);
            }
        }
        let name = if self.params.len() == 0 && self.ports.len() == 0 {
            Doc::text(self.name.as_str()).cat(Doc::space()).cat(Doc::nil().parens())
        } else if self.params.len() == 0 {
            block_with_parens(Doc::text(self.name.as_str()), ports)
        } else if self.ports.len() == 0 {
            block_with_parens(
                Doc::text(self.name.as_str()).cat(Doc::space()).cat(Doc::text("#")),
                params,
            )
        } else {
            block_with_parens(
                Doc::text(self.name.as_str()).cat(Doc::space()).cat(Doc::text("#")),
                params,
            ).cat(block_with_parens(Doc::nil(), ports))
        };
        let nb = self.body.len();
        let mut stmt_docs: Vec<Doc> = Vec::new();
        let mut b: usize = 0;
        while b < nb
            invariant
                b <= nb,
                nb == self.body@.len(),
                stmt_docs@.len() == b,
                self.wf(),
                forall|j: int, pre: Seq<char>|
                    0 <= j < b ==> #[trigger] doc_text(stmt_docs@[j]@, pre) == stmt_text(
                        self.body@[j],
                        pre,
                    ),
            decreases nb - b,
        {
            stmt_docs.push(self.body[b].to_doc());
            b += 1;
        }
        let body = if self.body.len() == 0 {
            Doc::hardline()
        } else {
            block(intersperse(stmt_docs, Doc::hardline()))
        };
        proof {
            assert forall|pre: Seq<char>| #[trigger]
                doc_text(body@, pre) == (if self.body@.len() == 0 {
                    "\n"@ + pre
                } else {
                    blocked(
                        joined(
                            stmts_texts(self.body@, pre + indent_step()),
                            "\n"@ + (pre + indent_step()),
                        ),
                        pre,
                    )
                }) by {
                let pre4 = pre + indent_step();
                lemma_stmts_texts_index(self.body@, pre4);
                if self.body@.len() > 0 {
                    let lhs = texts_at(doc_views(stmt_docs@), pre4);
                    let rhs = stmts_texts(self.body@, pre4);
                    assert(lhs.len() == nb as int && rhs.len() == nb as int);
                    assert forall|j: int| 0 <= j < nb implies lhs[j] == rhs[j] by {
                        assert(lhs[j] == doc_text(stmt_docs@[j]@, pre4));
                        assert(rhs[j] == stmt_text(self.body@[j], pre4));
                    }
                    assert(lhs =~= rhs);
                }
            }
        }
        let attr = if self.attr.attrs.len() == 0 {
            Doc::nil()
        } else {
            self.attr.to_doc().cat(Doc::hardline())
        };
        let module = Doc::space().cat(name).cat(Doc::text(";")).cat(body).module_endmodule().cat(
            Doc::hardline(),
        );
        attr.cat(module)
    }

    pub fn to_pretty(&self) -> (r: String)
        requires
            self.wf(),
        ensures
            r@ == module_text(*self, Seq::empty()),
    {
        doc_to_string(&self.to_doc())
    }

    pub fn to_string(&self) -> (r: String)
        requires
            self.wf(),
        ensures
            r@ == module_text(*self, Seq::empty()),
    {
        self.to_pretty()
    }
}

} // verus!
