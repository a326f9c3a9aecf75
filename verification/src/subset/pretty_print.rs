use crate::subset::ast::Attribute;
use crate::subset::ast::AttributeTy;
use crate::subset::ast::Binop;
use crate::subset::ast::EventTy;
use crate::subset::ast::Expr;
use crate::subset::ast::ExprConcat;
use crate::subset::ast::Id;
use crate::subset::ast::Instance;
use crate::subset::ast::InstancePath;
use crate::subset::ast::AssignTy;
use crate::subset::ast::Radix;
use crate::subset::ast::Terop;
use crate::subset::ast::Unop;
use crate::subset::helpers::id_views;
use crate::subset::sort::entry_views;
use crate::subset::sort::sort_entries;
use crate::subset::sort::sorted_entries;
use crate::subset::sort::unique_keys;
use crate::util::num::dec_str;
use crate::util::num::int_str;
use crate::util::num::i32_to_string;
use crate::util::num::u32_to_string;
use crate::util::num::u64_to_string;
use crate::util::pretty_print::blocked;
use crate::util::pretty_print::block;
use crate::util::pretty_print::doc_text;
use crate::util::pretty_print::doc_to_string;
use crate::util::pretty_print::doc_views;
use crate::util::pretty_print::indent_step;
use crate::util::pretty_print::intersperse;
use crate::util::pretty_print::joined;
use crate::util::pretty_print::texts_at;
use crate::util::pretty_print::Doc;
use crate::util::pretty_print::DocV;
use vstd::prelude::*;

verus! {

// ----------------------------------------------------------------------------
// Precedence classes.
//
// Each binary operator belongs to exactly one class. An operand is wrapped
// in parentheses exactly when the operator above it binds tighter than the
// operand's own operator.
// ----------------------------------------------------------------------------

/// Context in which an expression is printed: the class of the operator
/// directly above it.
#[derive(Clone, Copy, Debug, PartialEq, Eq)]
pub enum ParenCtx {
    Op,
    Not,
    And,
    Or,
    BAnd,
    BOr,
}

/// Binding strength of a class, tightest highest: `Not` above `Op` above
/// `BAnd` above `BOr` above `And` above `Or`.
pub open spec fn ctx_rank(c: ParenCtx) -> int {
    match c {
        ParenCtx::Not => 5,
        ParenCtx::Op => 4,
        ParenCtx::BAnd => 3,
        ParenCtx::BOr => 2,
        ParenCtx::And => 1,
        ParenCtx::Or => 0,
    }
}

/// The class a binary operator belongs to. Everything arithmetic,
/// relational, shifting or indexing shares one class.
pub open spec fn binop_ctx(op: Binop) -> ParenCtx {
    match op {
        Binop::BitOr => ParenCtx::BOr,
        Binop::BitAnd => ParenCtx::BAnd,
        Binop::LogOr => ParenCtx::Or,
        Binop::LogAnd => ParenCtx::And,
        _ => ParenCtx::Op,
    }
}

fn ctx_rank_exec(c: ParenCtx) -> (r: u8)
    ensures
        r as int == ctx_rank(c),
{
    match c {
        ParenCtx::Not => 5,
        ParenCtx::Op => 4,
        ParenCtx::BAnd => 3,
        ParenCtx::BOr => 2,
        ParenCtx::And => 1,
        ParenCtx::Or => 0,
    }
}

fn binop_ctx_exec(op: &Binop) -> (c: ParenCtx)
    ensures
        c == binop_ctx(*op),
{
    match op {
        Binop::BitOr => ParenCtx::BOr,
        Binop::BitAnd => ParenCtx::BAnd,
        Binop::LogOr => ParenCtx::Or,
        Binop::LogAnd => ParenCtx::And,
        _ => ParenCtx::Op,
    }
}

// ----------------------------------------------------------------------------
// Operator and radix text.
// ----------------------------------------------------------------------------

pub open spec fn unop_str(op: Unop) -> Seq<char> {
    match op {
        Unop::LogNot => "!"@,
        Unop::Not => "~"@,
        Unop::And => "&"@,
        Unop::Nand => "~&"@,
        Unop::Or => "|"@,
        Unop::Nor => "~|"@,
        Unop::Xor => "^"@,
        Unop::Xnor => "~^"@,
    }
}

/// Operator text. Bit selection is written with brackets rather than an
/// operator, so it contributes no text of its own.
pub open spec fn binop_str(op: Binop) -> Seq<char> {
    match op {
        Binop::BitOr => "|"@,
        Binop::BitAnd => "&"@,
        Binop::LogOr => "||"@,
        Binop::LogAnd => "&&"@,
        Binop::Add => "+"@,
        Binop::Sub => "-"@,
        Binop::Mul => "*"@,
        Binop::Lt => "<"@,
        Binop::Gt => ">"@,
        Binop::Geq => ">="@,
        Binop::Leq => "<="@,
        Binop::Equal => "=="@,
        Binop::NotEqual => "!="@,
        Binop::ShiftLeft => "<<"@,
        Binop::IndexBit => Seq::empty(),
    }
}

pub open spec fn radix_str(r: Radix) -> Seq<char> {
    match r {
        Radix::Dec => "d"@,
        Radix::Bin => "b"@,
        Radix::Hex => "h"@,
    }
}

impl Unop {
    pub fn to_doc(&self) -> (d: Doc)
        ensures
            d@ == DocV::Text(unop_str(*self)),
            forall|pre: Seq<char>| #[trigger] doc_text(d@, pre) == unop_str(*self),
    {
        match self {
            Unop::LogNot => Doc::text("!"),
            Unop::Not => Doc::text("~"),
            Unop::And => Doc::text("&"),
            Unop::Nand => Doc::text("~&"),
            Unop::Or => Doc::text("|"),
            Unop::Nor => Doc::text("~|"),
            Unop::Xor => Doc::text("^"),
            Unop::Xnor => Doc::text("~^"),
        }
    }

    pub fn to_pretty(&self) -> (r: String)
        ensures
            r@ == unop_str(*self),
    {
        doc_to_string(&self.to_doc())
    }

    pub fn to_string(&self) -> (r: String)
        ensures
            r@ == unop_str(*self),
    {
        self.to_pretty()
    }
}

impl Binop {
    pub fn to_doc(&self) -> (d: Doc)
        ensures
            forall|pre: Seq<char>| #[trigger] doc_text(d@, pre) == binop_str(*self),
    {
        match self {
            Binop::BitOr => Doc::text("|"),
            Binop::BitAnd => Doc::text("&"),
            Binop::LogOr => Doc::text("||"),
            Binop::LogAnd => Doc::text("&&"),
            Binop::Add => Doc::text("+"),
            Binop::Sub => Doc::text("-"),
            Binop::Mul => Doc::text("*"),
            Binop::Lt => Doc::text("<"),
            Binop::Gt => Doc::text(">"),
            Binop::Geq => Doc::text(">="),
            Binop::Leq => Doc::text("<="),
            Binop::Equal => Doc::text("=="),
            Binop::NotEqual => Doc::text("!="),
            Binop::ShiftLeft => Doc::text("<<"),
            Binop::IndexBit => Doc::nil(),
        }
    }

    pub fn to_pretty(&self) -> (r: String)
        ensures
            r@ == binop_str(*self),
    {
        doc_to_string(&self.to_doc())
    }

    pub fn to_string(&self) -> (r: String)
        ensures
            r@ == binop_str(*self),
    {
        self.to_pretty()
    }
}

impl Radix {
    pub fn to_doc(&self) -> (d: Doc)
        ensures
            d@ == DocV::Text(radix_str(*self)),
            forall|pre: Seq<char>| #[trigger] doc_text(d@, pre) == radix_str(*self),
    {
        match self {
            Radix::Dec => Doc::text("d"),
            Radix::Bin => Doc::text("b"),
            Radix::Hex => Doc::text("h"),
        }
    }
}

pub open spec fn event_ty_str(e: EventTy) -> Seq<char> {
    match e {
        EventTy::Posedge => "posedge"@,
        EventTy::Negedge => "negedge"@,
    }
}

impl EventTy {
    pub fn to_doc(&self) -> (d: Doc)
        ensures
            d@ == DocV::Text(event_ty_str(*self)),
            forall|pre: Seq<char>| #[trigger] doc_text(d@, pre) == event_ty_str(*self),
    {
        match self {
            EventTy::Posedge => Doc::text("posedge"),
            EventTy::Negedge => Doc::text("negedge"),
        }
    }

    pub fn to_pretty(&self) -> (r: String)
        ensures
            r@ == event_ty_str(*self),
    {
        doc_to_string(&self.to_doc())
    }

    pub fn to_string(&self) -> (r: String)
        ensures
            r@ == event_ty_str(*self),
    {
        self.to_pretty()
    }
}

pub open spec fn assign_ty_str(a: AssignTy) -> Seq<char> {
    match a {
        AssignTy::Blocking => "="@,
        AssignTy::NonBlocking => "<="@,
    }
}

impl AssignTy {
    pub fn to_doc(&self) -> (d: Doc)
        ensures
            d@ == DocV::Text(assign_ty_str(*self)),
            forall|pre: Seq<char>| #[trigger] doc_text(d@, pre) == assign_ty_str(*self),
    {
        match self {
            AssignTy::Blocking => Doc::text("="),
            AssignTy::NonBlocking => Doc::text("<="),
        }
    }
}

// ----------------------------------------------------------------------------
// Expression text.
//
// `expr_text` is the text of an expression at the outermost position;
// `print_text` the text of an expression under a surrounding operator
// class, adding parentheses exactly when that class binds tighter than
// the expression's own; `atom_text` the text of every non-binary form.
// ----------------------------------------------------------------------------

/// Text of a dotted path.
pub open spec fn ipath_text(p: InstancePath) -> Seq<char> {
    joined(id_views(p.path@), "."@)
}

/// Texts of a list of expressions, each at the outermost position.
pub open spec fn exprs_texts(v: Seq<Expr>, pre: Seq<char>) -> Seq<Seq<char>>
    decreases v, 2int,
{
    if v.len() == 0 {
        Seq::empty()
    } else {
        seq![expr_text(v[0], pre)] + exprs_texts(v.drop_first(), pre)
    }
}

/// Text of every expression form that is opaque to the precedence rules.
pub open spec fn atom_text(e: Expr, pre: Seq<char>) -> Seq<char>
    decreases e, 0int,
{
    match e {
        Expr::Ref(name) => name@,
        Expr::Int(num) => int_str(num as int),
        Expr::ULit(width, radix, value) => dec_str(width as nat) + "'"@ + radix_str(radix)
            + value@,
        Expr::Str(value) => "\""@ + value@ + "\""@,
        Expr::Signed(expr) => "$"@ + "signed"@ + ("("@ + expr_text(*expr, pre) + ")"@),
        Expr::IPath(path, index) => match index {
            Option::Some(ix) => ipath_text(path) + ("["@ + expr_text(*ix, pre) + "]"@),
            Option::None => ipath_text(path),
        },
        Expr::Unop(op, input) => unop_str(op) + print_text(*input, ParenCtx::Not, pre),
        Expr::Binop(_, _, _) => Seq::empty(),
        Expr::Terop(t, a, b, c) => match t {
            Terop::Mux => expr_text(*a, pre) + " "@ + "?"@ + " "@ + expr_text(*b, pre) + " "@
                + ":"@ + (if *c matches Expr::Terop(Terop::Mux, _, _, _) {
                "\n"@ + pre
            } else {
                Seq::empty()
            }) + " "@ + expr_text(*c, pre),
            Terop::Slice => expr_text(*a, pre) + ("["@ + (expr_text(*b, pre) + ":"@ + expr_text(
                *c,
                pre,
            )) + "]"@),
            Terop::IndexSlice => expr_text(*a, pre) + ("["@ + (expr_text(*b, pre) + " "@ + "+"@
                + ":"@ + " "@ + expr_text(*c, pre)) + "]"@),
        },
        Expr::Concat(c) => "{"@ + joined(exprs_texts(c.exprs@, pre).reverse(), ", "@) + "}"@,
        Expr::Repeat(times, expr) => "{"@ + (dec_str(times as nat) + ("{"@ + expr_text(
            *expr,
            pre,
        ) + "}"@)) + "}"@,
        Expr::Call(name, params) => name@ + ("("@ + joined(
            exprs_texts(params@, Seq::empty()),
            ", "@,
        ) + ")"@),
    }
}

/// Text of an expression under a surrounding operator class.
pub open spec fn print_text(e: Expr, ctx: ParenCtx, pre: Seq<char>) -> Seq<char>
    decreases e, 1int,
{
    match e {
        Expr::Binop(op, lhs, rhs) => {
            let opc = binop_ctx(op);
            let body = print_text(*lhs, opc, pre) + " "@ + binop_str(op) + " "@ + print_text(
                *rhs,
                opc,
                pre,
            );
            if ctx_rank(ctx) > ctx_rank(opc) {
                "("@ + body + ")"@
            } else {
                body
            }
        }
        _ => atom_text(e, pre),
    }
}

/// Text of an expression at the outermost position: never wrapped, with
/// bit selection printing its base as if under the tightest class and its
/// index bare inside brackets.
pub open spec fn expr_text(e: Expr, pre: Seq<char>) -> Seq<char>
    decreases e, 2int,
{
    match e {
        Expr::Binop(Binop::IndexBit, lhs, rhs) => print_text(*lhs, ParenCtx::Not, pre) + ("["@
            + expr_text(*rhs, pre) + "]"@),
        Expr::Binop(_, _, _) => print_text(e, ParenCtx::Or, pre),
        _ => atom_text(e, pre),
    }
}

/// `exprs_texts` lists one text per expression.
pub proof fn lemma_exprs_texts_index(v: Seq<Expr>, pre: Seq<char>)
    ensures
        exprs_texts(v, pre).len() == v.len(),
        forall|k: int| 0 <= k < v.len() ==> exprs_texts(v, pre)[k] == expr_text(v[k], pre),
    decreases v,
{
    if v.len() > 0 {
        lemma_exprs_texts_index(v.drop_first(), pre);
        assert forall|k: int| 0 <= k < v.len() implies exprs_texts(v, pre)[k] == expr_text(
            v[k],
            pre,
        ) by {
            if k > 0 {
                assert(exprs_texts(v, pre)[k] == exprs_texts(v.drop_first(), pre)[k - 1]);
                assert(v.drop_first()[k - 1] == v[k]);
            }
        }
    }
}

impl InstancePath {
    pub fn to_doc(&self) -> (d: Doc)
        ensures
            forall|pre: Seq<char>| #[trigger] doc_text(d@, pre) == ipath_text(*self),
    {
        let mut docs: Vec<Doc> = Vec::new();
        let mut i: usize = 0;
        while i < self.path.len()
            invariant
                i <= self.path@.len(),
                docs@.len() == i,
                forall|j: int| 0 <= j < i ==> docs@[j]@ == DocV::Text(self.path@[j]@),
            decreases self.path@.len() - i,
        {
            docs.push(Doc::text(self.path[i].as_str()));
            i += 1;
        }
        let d = intersperse(docs, Doc::text("."));
        proof {
            assert forall|pre: Seq<char>| #[trigger] doc_text(d@, pre) == ipath_text(*self) by {
                assert(texts_at(doc_views(docs@), pre) =~= id_views(self.path@));
            }
        }
        d
    }

    pub fn to_pretty(&self) -> (r: String)
        ensures
            r@ == ipath_text(*self),
    {
        doc_to_string(&self.to_doc())
    }

    pub fn to_string(&self) -> (r: String)
        ensures
            r@ == ipath_text(*self),
    {
        self.to_pretty()
    }
}

/// Documents for the operands of a concatenation, last operand first.
fn concat_docs(v: &Vec<Expr>) -> (docs: Vec<Doc>)
    ensures
        forall|pre: Seq<char>| #[trigger]
            texts_at(doc_views(docs@), pre) == exprs_texts(v@, pre).reverse(),
    decreases v@, 3int,
{
    let n = v.len();
    let mut docs: Vec<Doc> = Vec::new();
    let mut i: usize = 0;
    while i < n
        invariant
            i <= n,
            n == v@.len(),
            docs@.len() == i,
            forall|j: int, pre: Seq<char>|
                0 <= j < i ==> #[trigger] doc_text(docs@[j]@, pre) == expr_text(
                    v@[n - 1 - j],
                    pre,
                ),
        decreases n - i,
    {
        docs.push(v[n - 1 - i].to_doc());
        i += 1;
    }
    proof {
        assert forall|pre: Seq<char>| #[trigger]
            texts_at(doc_views(docs@), pre) == exprs_texts(v@, pre).reverse() by {
            lemma_exprs_texts_index(v@, pre);
            let lhs = texts_at(doc_views(docs@), pre);
            let rhs = exprs_texts(v@, pre).reverse();
            assert(lhs.len() == n && rhs.len() == n);
            assert forall|k: int| 0 <= k < n implies lhs[k] == rhs[k] by {
                assert(lhs[k] == doc_text(docs@[k]@, pre));
                assert(rhs[k] == exprs_texts(v@, pre)[n - 1 - k]);
                assert(rhs[k] == expr_text(v@[n - 1 - k], pre));
            }
            assert(lhs =~= rhs);
        }
    }
    docs
}

/// Documents for the arguments of a call: each argument is rendered on its
/// own and taken over as plain text.
fn call_docs(v: &Vec<Expr>) -> (docs: Vec<Doc>)
    ensures
        forall|pre: Seq<char>| #[trigger]
            texts_at(doc_views(docs@), pre) == exprs_texts(v@, Seq::empty()),
    decreases v@, 3int,
{
    let n = v.len();
    let mut docs: Vec<Doc> = Vec::new();
    let mut i: usize = 0;
    while i < n
        invariant
            i <= n,
            n == v@.len(),
            docs@.len() == i,
            forall|j: int| 0 <= j < i ==> docs@[j]@ == DocV::Text(
                expr_text(v@[j], Seq::<char>::empty()),
            ),
        decreases n - i,
    {
        let s = v[i].to_pretty();
        docs.push(Doc::text_owned(s));
        i += 1;
    }
    proof {
        assert forall|pre: Seq<char>| #[trigger]
            texts_at(doc_views(docs@), pre) == exprs_texts(v@, Seq::empty()) by {
            lemma_exprs_texts_index(v@, Seq::<char>::empty());
            assert(texts_at(doc_views(docs@), pre) =~= exprs_texts(v@, Seq::empty()));
        }
    }
    docs
}

/// Every non-binary expression form, printed directly.
#[verifier::rlimit(100)]
fn atom_doc(e: &Expr) -> (d: Doc)
    ensures
        forall|pre: Seq<char>| #[trigger] doc_text(d@, pre) == atom_text(*e, pre),
    decreases *e, 0int,
{
    match e {
        Expr::Ref(name) => Doc::text(name.as_str()),
        Expr::Int(num) => Doc::text_owned(i32_to_string(*num)),
        Expr::ULit(width, radix, value) => {
            let d = Doc::text_owned(u32_to_string(*width)).cat(Doc::text("'")).cat(
                radix.to_doc(),
            ).cat(Doc::text(value.as_str()));
            d
        }
        Expr::Str(value) => {
            let d = Doc::text(value.as_str()).quotes();
            d
        }
        Expr::Signed(expr) => {
            let d = Doc::text("$").cat(Doc::text("signed")).cat(expr.to_doc().parens());
            d
        }
        Expr::IPath(path, index) => match index {
            Option::Some(ix) => {
                let d = path.to_doc().cat(ix.to_doc().brackets());
                d
            }
            Option::None => path.to_doc(),
        },
        Expr::Unop(op, input) => {
            let d = op.to_doc().cat(print_expr(&**input, ParenCtx::Not));
            d
        }
        Expr::Binop(_, _, _) => Doc::nil(),
        Expr::Terop(t, a, b, c) => match t {
            Terop::Mux => {
                let chain = if let Expr::Terop(Terop::Mux, _, _, _) = &**c {
                    Doc::hardline()
                } else {
                    Doc::nil()
                };
                let d = a.to_doc().cat(Doc::space()).cat(Doc::text("?")).cat(
                    Doc::space(),
                ).cat(b.to_doc()).cat(Doc::space()).cat(Doc::text(":")).cat(
                    chain,
                ).cat(Doc::space()).cat(c.to_doc());
                d
            }
            Terop::Slice => {
                let d = a.to_doc().cat(
                    b.to_doc().cat(Doc::text(":")).cat(c.to_doc()).brackets(),
                );
                d
            }
            Terop::IndexSlice => {
                let d = a.to_doc().cat(
                    b.to_doc().cat(Doc::space()).cat(Doc::text("+")).cat(
                        Doc::text(":"),
                    ).cat(Doc::space()).cat(c.to_doc()).brackets(),
                );
                d
            }
        },
        Expr::Concat(c) => {
            let docs = concat_docs(&c.exprs);
            let d = intersperse(docs, Doc::text(", ")).braces();
            d
        }
        Expr::Repeat(times, expr) => {
            let d = Doc::text_owned(u64_to_string(*times)).cat(
                expr.to_doc().braces(),
            ).braces();
            d
        }
        Expr::Call(name, params) => {
            let docs = call_docs(params);
            let d = Doc::text(name.as_str()).cat(
                intersperse(docs, Doc::text(", ")).parens(),
            );
            d
        }
    }
}

/// Prints an expression under a surrounding operator class, parenthesizing
/// exactly when that class binds tighter than the expression's own
/// operator.
fn print_expr(e: &Expr, ctx: ParenCtx) -> (d: Doc)
    ensures
        forall|pre: Seq<char>| #[trigger] doc_text(d@, pre) == print_text(*e, ctx, pre),
    decreases *e, 1int,
{
    match e {
        Expr::Binop(op, lhs, rhs) => {
            let opc = binop_ctx_exec(op);
            let body = print_expr(&**lhs, opc).cat(Doc::space()).cat(op.to_doc()).cat(
                Doc::space(),
            ).cat(print_expr(&**rhs, opc));
            let d = if ctx_rank_exec(ctx) > ctx_rank_exec(opc) {
                body.parens()
            } else {
                body
            };
            d
        }
        _ => atom_doc(e),
    }
}

impl Expr {
    #[verifier::rlimit(50)]
    pub fn to_doc(&self) -> (d: Doc)
        ensures
            forall|pre: Seq<char>| #[trigger] doc_text(d@, pre) == expr_text(*self, pre),
        decreases *self, 2int,
    {
        match self {
            Expr::Binop(Binop::IndexBit, lhs, rhs) => {
                print_expr(&**lhs, ParenCtx::Not).cat(rhs.to_doc().brackets())
            }
            Expr::Binop(_, _, _) => print_expr(self, ParenCtx::Or),
            _ => atom_doc(self),
        }
    }

    pub fn to_pretty(&self) -> (r: String)
        ensures
            r@ == expr_text(*self, Seq::empty()),
        decreases *self, 4int,
    {
        doc_to_string(&self.to_doc())
    }

    pub fn to_string(&self) -> (r: String)
        ensures
            r@ == expr_text(*self, Seq::empty()),
    {
        self.to_pretty()
    }
}

impl ExprConcat {
    pub fn to_doc(&self) -> (d: Doc)
        ensures
            forall|pre: Seq<char>| #[trigger]
                doc_text(d@, pre) == "{"@ + joined(exprs_texts(self.exprs@, pre).reverse(), ", "@)
                    + "}"@,
    {
        let docs = concat_docs(&self.exprs);
        intersperse(docs, Doc::text(", ")).braces()
    }
}


// ----------------------------------------------------------------------------
// Attributes.
// ----------------------------------------------------------------------------

pub open spec fn attr_ty_text(a: AttributeTy) -> Seq<char> {
    match a {
        AttributeTy::Val(name) => name@,
        AttributeTy::Stmt(id, value) => id@ + " "@ + "="@ + " "@ + ("\""@ + value@ + "\""@),
    }
}

pub open spec fn attr_tys_texts(s: Seq<AttributeTy>) -> Seq<Seq<char>>
    decreases s,
{
    if s.len() == 0 {
        Seq::empty()
    } else {
        seq![attr_ty_text(s[0])] + attr_tys_texts(s.drop_first())
    }
}

pub proof fn lemma_attr_tys_texts_index(s: Seq<AttributeTy>)
    ensures
        attr_tys_texts(s).len() == s.len(),
        forall|k: int| 0 <= k < s.len() ==> attr_tys_texts(s)[k] == attr_ty_text(s[k]),
    decreases s,
{
    if s.len() > 0 {
        lemma_attr_tys_texts_index(s.drop_first());
        assert forall|k: int| 0 <= k < s.len() implies attr_tys_texts(s)[k] == attr_ty_text(
            s[k],
        ) by {
            if k > 0 {
                assert(attr_tys_texts(s)[k] == attr_tys_texts(s.drop_first())[k - 1]);
                assert(s.drop_first()[k - 1] == s[k]);
            }
        }
    }
}

/// Text of an attribute block: the entries in reverse insertion order,
/// between `(*` and `*)`.
pub open spec fn attribute_text(a: Attribute) -> Seq<char> {
    "("@ + ("*"@ + joined(attr_tys_texts(a.attrs@).reverse(), ", "@) + "*"@) + ")"@
}

impl AttributeTy {
    pub fn to_doc(&self) -> (d: Doc)
        ensures
            forall|pre: Seq<char>| #[trigger] doc_text(d@, pre) == attr_ty_text(*self),
    {
        match self {
            AttributeTy::Val(name) => Doc::text(name.as_str()),
            AttributeTy::Stmt(id, value) => Doc::text(id.as_str()).cat(Doc::space()).cat(
                Doc::text("="),
            ).cat(Doc::space()).cat(Doc::text(value.as_str()).quotes()),
        }
    }

    pub fn to_pretty(&self) -> (r: String)
        ensures
            r@ == attr_ty_text(*self),
    {
        doc_to_string(&self.to_doc())
    }

    pub fn to_string(&self) -> (r: String)
        ensures
            r@ == attr_ty_text(*self),
    {
        self.to_pretty()
    }
}

impl Attribute {
    pub fn to_doc(&self) -> (d: Doc)
        ensures
            forall|pre: Seq<char>| #[trigger] doc_text(d@, pre) == attribute_text(*self),
    {
        let n = self.attrs.len();
        let mut docs: Vec<Doc> = Vec::new();
        let mut i: usize = 0;
        while i < n
            invariant
                i <= n,
                n == self.attrs@.len(),
                docs@.len() == i,
                forall|j: int, pre: Seq<char>|
                    0 <= j < i ==> #[trigger] doc_text(docs@[j]@, pre) == attr_ty_text(
                        self.attrs@[n - 1 - j],
                    ),
            decreases n - i,
        {
            docs.push(self.attrs[n - 1 - i].to_doc());
            i += 1;
        }
        let d = intersperse(docs, Doc::text(", ")).stars().parens();
        proof {
            assert forall|pre: Seq<char>| #[trigger]
                doc_text(d@, pre) == attribute_text(*self) by {
                lemma_attr_tys_texts_index(self.attrs@);
                let lhs = texts_at(doc_views(docs@), pre);
                let rhs = attr_tys_texts(self.attrs@).reverse();
                assert(lhs.len() == n && rhs.len() == n);
                assert forall|k: int| 0 <= k < n implies lhs[k] == rhs[k] by {
                    assert(lhs[k] == doc_text(docs@[k]@, pre));
                    assert(rhs[k] == attr_tys_texts(self.attrs@)[n - 1 - k]);
                    assert(rhs[k] == attr_ty_text(self.attrs@[n - 1 - k]));
                }
                assert(lhs =~= rhs);
            }
        }
        d
    }

    pub fn to_pretty(&self) -> (r: String)
        ensures
            r@ == attribute_text(*self),
    {
        doc_to_string(&self.to_doc())
    }

    pub fn to_string(&self) -> (r: String)
        ensures
            r@ == attribute_text(*self),
    {
        self.to_pretty()
    }
}

// ----------------------------------------------------------------------------
// Parameter and port maps.
// ----------------------------------------------------------------------------

/// Text of one map entry.
pub open spec fn entryv_text(p: (Seq<char>, Expr), pre: Seq<char>) -> Seq<char> {
    "."@ + p.0 + ("("@ + expr_text(p.1, pre) + ")"@)
}

pub open spec fn entryv_texts(s: Seq<(Seq<char>, Expr)>, pre: Seq<char>) -> Seq<Seq<char>>
    decreases s,
{
    if s.len() == 0 {
        Seq::empty()
    } else {
        seq![entryv_text(s[0], pre)] + entryv_texts(s.drop_first(), pre)
    }
}

pub proof fn lemma_entryv_texts_index(s: Seq<(Seq<char>, Expr)>, pre: Seq<char>)
    ensures
        entryv_texts(s, pre).len() == s.len(),
        forall|k: int| 0 <= k < s.len() ==> entryv_texts(s, pre)[k] == entryv_text(s[k], pre),
    decreases s,
{
    if s.len() > 0 {
        lemma_entryv_texts_index(s.drop_first(), pre);
        assert forall|k: int| 0 <= k < s.len() implies entryv_texts(s, pre)[k] == entryv_text(
            s[k],
            pre,
        ) by {
            if k > 0 {
                assert(entryv_texts(s, pre)[k] == entryv_texts(s.drop_first(), pre)[k - 1]);
                assert(s.drop_first()[k - 1] == s[k]);
            }
        }
    }
}

/// Text of a parameter or port map: one `.name(expr)` entry per line, in
/// ascending name order whatever the insertion order was.
pub open spec fn map_text(entries: Seq<(Id, Expr)>, pre: Seq<char>) -> Seq<char> {
    joined(entryv_texts(sort_entries(entry_views(entries)), pre), ","@ + ("\n"@ + pre))
}

/// Renders the entries of a map, sorted by name.
pub fn map_doc(entries: &Vec<(Id, Expr)>) -> (d: Doc)
    requires
        unique_keys(entry_views(entries@)),
    ensures
        forall|pre: Seq<char>| #[trigger] doc_text(d@, pre) == map_text(entries@, pre),
{
    let sorted = sorted_entries(entries);
    let n = sorted.len();
    let mut docs: Vec<Doc> = Vec::new();
    let mut i: usize = 0;
    while i < n
        invariant
            i <= n,
            n == sorted@.len(),
            docs@.len() == i,
            entry_views(sorted@) == sort_entries(entry_views(entries@)),
            forall|j: int, pre: Seq<char>|
                0 <= j < i ==> #[trigger] doc_text(docs@[j]@, pre) == entryv_text(
                    entry_views(sorted@)[j],
                    pre,
                ),
        decreases n - i,
    {
        let entry_doc = Doc::text(".").cat(Doc::text(sorted[i].0.as_str())).cat(
            sorted[i].1.to_doc().parens(),
        );
        proof {
            assert(entry_views(sorted@)[i as int] == (sorted@[i as int].0@, sorted@[
                i as int
            ].1));
        }
        docs.push(entry_doc);
        i += 1;
    }
    let d = intersperse(docs, Doc::text(",").cat(Doc::hardline()));
    proof {
        assert forall|pre: Seq<char>| #[trigger]
            doc_text(d@, pre) == map_text(entries@, pre) by {
            let sv = entry_views(sorted@);
            lemma_entryv_texts_index(sv, pre);
            let lhs = texts_at(doc_views(docs@), pre);
            let rhs = entryv_texts(sv, pre);
            assert(lhs.len() == n && rhs.len() == n);
            assert forall|k: int| 0 <= k < n implies lhs[k] == rhs[k] by {
                assert(lhs[k] == doc_text(docs@[k]@, pre));
                assert(rhs[k] == entryv_text(sv[k], pre));
            }
            assert(lhs =~= rhs);
        }
    }
    d
}

// ----------------------------------------------------------------------------
// Instances.
// ----------------------------------------------------------------------------

/// Text of an instance: an attribute block on its own line when present,
/// the instantiated module, the parameter values when present, the
/// instance name, the port connections, and a closing semicolon.
pub open spec fn instance_text(inst: Instance, pre: Seq<char>) -> Seq<char> {
    (if inst.attr.attrs@.len() == 0 {
        Seq::<char>::empty()
    } else {
        attribute_text(inst.attr) + ("\n"@ + pre)
    }) + inst.prim@ + (if inst.params@.len() == 0 {
        " "@
    } else {
        " "@ + "#"@ + " "@ + ("("@ + blocked(map_text(inst.params@, pre + indent_step()), pre)
            + ")"@) + " "@
    }) + inst.id@ + (if inst.ports@.len() == 0 {
        "("@ + " "@ + ")"@
    } else {
        " "@ + ("("@ + blocked(map_text(inst.ports@, pre + indent_step()), pre) + ")"@)
    }) + ";"@
}

impl Instance {
    pub fn to_doc(&self) -> (d: Doc)
        requires
            self.wf(),
        ensures
            forall|pre: Seq<char>| #[trigger] doc_text(d@, pre) == instance_text(*self, pre),
    {
        let params = if self.param_map().is_empty() {
            Doc::space()
        } else {
            Doc::space().cat(Doc::text("#")).cat(Doc::space()).cat(
                block(map_doc(&self.params)).parens(),
            ).cat(Doc::space())
        };
        let ports = if self.port_map().is_empty() {
            Doc::space().parens()
        } else {
            Doc::space().cat(block(map_doc(&self.ports)).parens())
        };
        let attr = if self.attr.attrs.len() == 0 {
            Doc::nil()
        } else {
            self.attr.to_doc().cat(Doc::hardline())
        };
        attr.cat(Doc::text(self.prim.as_str())).cat(params).cat(Doc::text(self.id.as_str())).cat(
            ports,
        ).cat(Doc::text(";"))
    }

    pub fn to_pretty(&self) -> (r: String)
        requires
            self.wf(),
        ensures
            r@ == instance_text(*self, Seq::empty()),
    {
        doc_to_string(&self.to_doc())
    }

    pub fn to_string(&self) -> (r: String)
        requires
            self.wf(),
        ensures
            r@ == instance_text(*self, Seq::empty()),
    {
        self.to_pretty()
    }
}

} // verus!
