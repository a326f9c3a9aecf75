use crate::subset::ast::Binop;
use crate::subset::ast::Expr;
use crate::subset::ast::Id;
use crate::subset::ast::Instance;
use crate::subset::pretty_print::binop_ctx;
use crate::subset::pretty_print::ctx_rank;
use crate::subset::pretty_print::expr_text;
use crate::subset::pretty_print::instance_text;
use crate::subset::pretty_print::map_text;
use crate::subset::pretty_print::print_text;
use crate::subset::pretty_print::ParenCtx;
use crate::subset::sort::entry_views;
use crate::subset::sort::lemma_sort_entries;
use crate::subset::sort::lemma_sorted_unique_equal;
use crate::subset::sort::lemma_unique_keys_permutation;
use crate::subset::sort::sort_entries;
use crate::subset::sort::unique_keys;
use crate::util::num::dec_str;
use crate::v05::ast::Decl as DeclV05;
use crate::v05::ast::Module as ModuleV05;
use crate::v05::ast::Ty as TyV05;
use crate::v05::pretty_print::decl_text as decl_text_v05;
use crate::v05::pretty_print::module_text as module_text_v05;
use crate::v17::ast::Decl as DeclV17;
use crate::v17::ast::Module as ModuleV17;
use crate::v17::ast::Ty as TyV17;
use crate::v17::pretty_print::decl_text as decl_text_v17;
use crate::v17::pretty_print::module_text as module_text_v17;
use vstd::prelude::*;

verus! {

// ----------------------------------------------------------------------------
// Declarations of width one and of wider vectors.
// ----------------------------------------------------------------------------

/// A wire declaration of width above one renders as the keyword, the
/// descending range, and the name: `wire [n-1:0] name`.
pub proof fn lemma_wire_decl_range(d: DeclV05, pre: Seq<char>)
    requires
        d matches DeclV05::Wire(_, t) && t matches TyV05::Width(n) && n > 1,
    ensures
        decl_text_v05(d, pre) == "wire ["@ + dec_str((d->Wire_1->Width_0 - 1) as nat) + ":0] "@
            + d->Wire_0@,
{
    reveal_strlit("wire");
    reveal_strlit(" ");
    reveal_strlit("[");
    reveal_strlit(":");
    reveal_strlit("0");
    reveal_strlit("]");
    reveal_strlit("wire [");
    reveal_strlit(":0] ");
    assert(decl_text_v05(d, pre) =~= "wire ["@ + dec_str((d->Wire_1->Width_0 - 1) as nat)
        + ":0] "@ + d->Wire_0@);
}

/// A wire declaration of width one carries no range and exactly one space
/// before the name: `wire name`.
pub proof fn lemma_wire_decl_single(d: DeclV05, pre: Seq<char>)
    requires
        d matches DeclV05::Wire(_, t) && t == TyV05::Width(1),
    ensures
        decl_text_v05(d, pre) == "wire "@ + d->Wire_0@,
{
    reveal_strlit("wire");
    reveal_strlit(" ");
    reveal_strlit("wire ");
    assert(decl_text_v05(d, pre) =~= "wire "@ + d->Wire_0@);
}

/// A register declaration of width above one renders as `reg [n-1:0] name`.
pub proof fn lemma_reg_decl_range(d: DeclV05, pre: Seq<char>)
    requires
        d matches DeclV05::Reg(_, t) && t matches TyV05::Width(n) && n > 1,
    ensures
        decl_text_v05(d, pre) == "reg ["@ + dec_str((d->Reg_1->Width_0 - 1) as nat) + ":0] "@
            + d->Reg_0@,
{
    reveal_strlit("reg");
    reveal_strlit(" ");
    reveal_strlit("[");
    reveal_strlit(":");
    reveal_strlit("0");
    reveal_strlit("]");
    reveal_strlit("reg [");
    reveal_strlit(":0] ");
    assert(decl_text_v05(d, pre) =~= "reg ["@ + dec_str((d->Reg_1->Width_0 - 1) as nat)
        + ":0] "@ + d->Reg_0@);
}

/// A register declaration of width one renders as `reg name`.
pub proof fn lemma_reg_decl_single(d: DeclV05, pre: Seq<char>)
    requires
        d matches DeclV05::Reg(_, t) && t == TyV05::Width(1),
    ensures
        decl_text_v05(d, pre) == "reg "@ + d->Reg_0@,
{
    reveal_strlit("reg");
    reveal_strlit(" ");
    reveal_strlit("reg ");
    assert(decl_text_v05(d, pre) =~= "reg "@ + d->Reg_0@);
}

/// A four-state signal declaration of width above one renders as
/// `logic [n-1:0] name`.
pub proof fn lemma_logic_decl_range(d: DeclV17, pre: Seq<char>)
    requires
        d matches DeclV17::Logic(_, t) && t matches TyV17::Width(n) && n > 1,
    ensures
        decl_text_v17(d, pre) == "logic ["@ + dec_str((d->Logic_1->Width_0 - 1) as nat)
            + ":0] "@ + d->Logic_0@,
{
    reveal_strlit("logic");
    reveal_strlit(" ");
    reveal_strlit("[");
    reveal_strlit(":");
    reveal_strlit("0");
    reveal_strlit("]");
    reveal_strlit("logic [");
    reveal_strlit(":0] ");
    assert(decl_text_v17(d, pre) =~= "logic ["@ + dec_str((d->Logic_1->Width_0 - 1) as nat)
        + ":0] "@ + d->Logic_0@);
}

/// A four-state signal declaration of width one renders as `logic name`.
pub proof fn lemma_logic_decl_single(d: DeclV17, pre: Seq<char>)
    requires
        d matches DeclV17::Logic(_, t) && t == TyV17::Width(1),
    ensures
        decl_text_v17(d, pre) == "logic "@ + d->Logic_0@,
{
    reveal_strlit("logic");
    reveal_strlit(" ");
    reveal_strlit("logic ");
    assert(decl_text_v17(d, pre) =~= "logic "@ + d->Logic_0@);
}

// ----------------------------------------------------------------------------
// Parenthesization.
// ----------------------------------------------------------------------------

/// A binary expression under a surrounding operator class is wrapped in
/// parentheses exactly when that class binds tighter than the expression's
/// own operator class; what is wrapped is its outermost-position text.
pub proof fn lemma_operand_parens(e: Expr, ctx: ParenCtx, pre: Seq<char>)
    requires
        e matches Expr::Binop(_, _, _),
    ensures
        print_text(e, ctx, pre) == if ctx_rank(ctx) > ctx_rank(binop_ctx(e->Binop_0)) {
            "("@ + print_text(e, ParenCtx::Or, pre) + ")"@
        } else {
            print_text(e, ParenCtx::Or, pre)
        },
{
}

/// At the outermost position a binary expression other than a bit select
/// is printed under the loosest class, so it is never wrapped.
pub proof fn lemma_top_level_unwrapped(e: Expr, pre: Seq<char>)
    requires
        e matches Expr::Binop(op, _, _) && op != Binop::IndexBit,
    ensures
        expr_text(e, pre) == print_text(e, ParenCtx::Or, pre),
{
}

// ----------------------------------------------------------------------------
// Maps render in name order, whatever the insertion order.
// ----------------------------------------------------------------------------

/// Two entry lists holding the same entries under pairwise distinct names
/// render identically, whatever order they were built in.
pub proof fn lemma_map_text_order_irrelevant(
    a: Seq<(Id, Expr)>,
    b: Seq<(Id, Expr)>,
    pre: Seq<char>,
)
    requires
        entry_views(a).to_multiset() == entry_views(b).to_multiset(),
        unique_keys(entry_views(a)),
    ensures
        map_text(a, pre) == map_text(b, pre),
{
    lemma_sort_entries(entry_views(a));
    lemma_sort_entries(entry_views(b));
    lemma_unique_keys_permutation(entry_views(a), sort_entries(entry_views(a)));
    lemma_sorted_unique_equal(sort_entries(entry_views(b)), sort_entries(entry_views(a)));
}

/// Two instances that differ only in the order their parameter values and
/// port connections were added render identically.
pub proof fn lemma_instance_text_order_irrelevant(i1: Instance, i2: Instance, pre: Seq<char>)
    requires
        i1.id@ == i2.id@,
        i1.prim@ == i2.prim@,
        i1.attr.attrs@ == i2.attr.attrs@,
        entry_views(i1.params@).to_multiset() == entry_views(i2.params@).to_multiset(),
        entry_views(i1.ports@).to_multiset() == entry_views(i2.ports@).to_multiset(),
        unique_keys(entry_views(i1.params@)),
        unique_keys(entry_views(i1.ports@)),
    ensures
        instance_text(i1, pre) == instance_text(i2, pre),
{
    lemma_map_text_order_irrelevant(i1.params@, i2.params@, pre + indent());
    lemma_map_text_order_irrelevant(i1.ports@, i2.ports@, pre + indent());
    vstd::seq_lib::to_multiset_len(entry_views(i1.params@));
    vstd::seq_lib::to_multiset_len(entry_views(i2.params@));
    vstd::seq_lib::to_multiset_len(entry_views(i1.ports@));
    vstd::seq_lib::to_multiset_len(entry_views(i2.ports@));
    assert(entry_views(i1.params@).len() == entry_views(i2.params@).len());
    assert(entry_views(i1.ports@).len() == entry_views(i2.ports@).len());
    assert(i1.params@.len() == i2.params@.len());
    assert(i1.ports@.len() == i2.ports@.len());
}

spec fn indent() -> Seq<char> {
    crate::util::pretty_print::indent_step()
}

// ----------------------------------------------------------------------------
// Rendering is deterministic.
// ----------------------------------------------------------------------------

/// Any two renderings of one module of the older dialect are identical
/// byte for byte: the text is a function of the tree alone.
pub proof fn lemma_v05_rendering_deterministic(m: ModuleV05, r1: Seq<char>, r2: Seq<char>)
    requires
        r1 == module_text_v05(m, Seq::<char>::empty()),
        r2 == module_text_v05(m, Seq::<char>::empty()),
    ensures
        r1 == r2,
{
}

/// Any two renderings of one module of the newer dialect are identical
/// byte for byte: the text is a function of the tree alone.
pub proof fn lemma_v17_rendering_deterministic(m: ModuleV17, r1: Seq<char>, r2: Seq<char>)
    requires
        r1 == module_text_v17(m, Seq::<char>::empty()),
        r2 == module_text_v17(m, Seq::<char>::empty()),
    ensures
        r1 == r2,
{
}

} // verus!
