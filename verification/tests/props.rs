use vast::subset::ast::Attribute;
use vast::subset::ast::AttributeTy;
use vast::subset::ast::Expr;
use vast::subset::ast::ExprConcat;
use vast::subset::ast::Instance;
use vast::subset::ast::InstancePath;
use vast::subset::ast::Unop;
use vast::v05::ast::Decl;
use vast::v05::ast::Module;
use vast::v05::ast::Parallel;
use vast::v05::ast::ParallelProcess;
use vast::v05::ast::Sequential;
use vast::v05::ast::Ty as TyV05;
use vast::v17::ast::Function;
use vast::v17::ast::FunctionTy;
use vast::v17::ast::Module as ModuleV17;
use vast::v17::ast::Sequential as SequentialV17;
use vast::v17::ast::Stmt as StmtV17;
use vast::v17::ast::Ty as TyV17;

#[test]
fn unop_not_parenthesizes_compound_operand() {
    let inner = Expr::new_bit_and(Expr::new_ref("a"), Expr::new_ref("b"));
    let expr = Expr::new_not(inner);
    assert_eq!(expr.to_string(), "~(a & b)");
}

#[test]
fn unop_not_leaves_reference_bare() {
    let expr = Expr::new_not(Expr::new_ref("a"));
    assert_eq!(expr.to_string(), "~a");
}

#[test]
fn logical_and_inside_bit_or_needs_parens() {
    let and = Expr::new_logical_and(Expr::new_ref("a"), Expr::new_ref("b"));
    let expr = Expr::new_bit_or(and, Expr::new_ref("c"));
    assert_eq!(expr.to_string(), "(a && b) | c");
}

#[test]
fn bit_and_inside_bit_or_needs_no_parens() {
    let and = Expr::new_bit_and(Expr::new_ref("a"), Expr::new_ref("b"));
    let expr = Expr::new_bit_or(and, Expr::new_ref("c"));
    assert_eq!(expr.to_string(), "a & b | c");
}

#[test]
fn logical_or_never_wraps_tighter_operands() {
    let and = Expr::new_logical_and(Expr::new_ref("b"), Expr::new_ref("c"));
    let expr = Expr::new_logical_or(Expr::new_ref("a"), and);
    assert_eq!(expr.to_string(), "a || b && c");
}

#[test]
fn mux_condition_carries_no_parens() {
    let cond = Expr::new_eq(Expr::new_ref("a"), Expr::new_ref("b"));
    let mux = Expr::new_mux(cond, Expr::new_ref("a"), Expr::new_ref("b"));
    assert_eq!(mux.to_string(), "a == b ? a : b");
}

#[test]
fn ports_render_in_name_order_regardless_of_insertion() {
    let mut inst = Instance::new("i0", "prim");
    inst.connect_ref("b", "y");
    inst.connect_ref("a", "x");
    let exp = "prim i0 (\n    .a(x),\n    .b(y)\n);";
    assert_eq!(inst.to_string(), exp);
}

#[test]
fn params_render_in_name_order_regardless_of_insertion() {
    let mut first = Instance::new("i0", "prim");
    first.add_param_uint("width", 4);
    first.add_param_uint("depth", 2);
    first.connect_ref("p", "x");
    let mut second = Instance::new("i0", "prim");
    second.add_param_uint("depth", 2);
    second.add_param_uint("width", 4);
    second.connect_ref("p", "x");
    assert_eq!(first.to_string(), second.to_string());
}

#[test]
fn connecting_a_port_twice_overwrites() {
    let mut inst = Instance::new("i0", "prim");
    inst.connect_ref("a", "x");
    inst.connect_ref("a", "y");
    let exp = "prim i0 (\n    .a(y)\n);";
    assert_eq!(inst.to_string(), exp);
}

#[test]
fn rendering_the_same_module_twice_is_identical() {
    let mut module = Module::new("foo");
    module.add_param_uint("width", 32);
    module.add_input("data", 4);
    let first = module.to_string();
    let second = module.to_string();
    assert_eq!(first, second);
}

#[test]
fn golden_module_one_32_bit_input() {
    let mut module = Module::new("foo");
    module.add_input("a", 32);
    let exp = "module foo (\n    input wire [31:0] a\n);\nendmodule\n";
    assert_eq!(module.to_string(), exp);
}

#[test]
fn logical_negation() {
    assert_eq!("!".to_string(), Unop::LogNot.to_string());
}

#[test]
fn reduce_operators_render() {
    assert_eq!(Unop::LogNot.to_string(), "!");
    assert_eq!(Unop::Not.to_string(), "~");
    assert_eq!(Unop::And.to_string(), "&");
    assert_eq!(Unop::Nand.to_string(), "~&");
    assert_eq!(Unop::Or.to_string(), "|");
    assert_eq!(Unop::Nor.to_string(), "~|");
    assert_eq!(Unop::Xor.to_string(), "^");
    assert_eq!(Unop::Xnor.to_string(), "~^");
}

#[test]
fn shift_and_sub_render() {
    let shift = Expr::new_shift_left(Expr::new_ref("a"), Expr::new_int(2));
    assert_eq!(shift.to_string(), "a << 2");
    let sub = Expr::new_sub(Expr::new_ref("a"), Expr::new_ref("b"));
    assert_eq!(sub.to_string(), "a - b");
}

#[test]
fn negative_int_renders_with_sign() {
    assert_eq!(Expr::new_int(-17).to_string(), "-17");
    assert_eq!(Expr::new_int(0).to_string(), "0");
}

#[test]
fn repeat_renders_count_and_braces() {
    let rep = Expr::new_repeat(2, Expr::new_ref("a"));
    assert_eq!(rep.to_string(), "{2{a}}");
}

#[test]
fn concat_renders_operands_in_reverse_order() {
    let mut concat = ExprConcat::default();
    concat.add_expr(Expr::new_ref("a"));
    concat.add_expr(Expr::new_ref("b"));
    concat.add_expr(Expr::new_ref("c"));
    assert_eq!(Expr::from(concat).to_string(), "{c, b, a}");
}

#[test]
fn attribute_renders_entries_in_reverse_order() {
    let mut attr = Attribute::default();
    attr.add_val("keep");
    attr.add_stmt("x", "3");
    assert_eq!(attr.to_string(), "(*x = \"3\", keep*)");
}

#[test]
fn attribute_entry_builders_render() {
    assert_eq!(AttributeTy::new_val("keep").to_string(), "keep");
    assert_eq!(AttributeTy::new_stmt("x", "3").to_string(), "x = \"3\"");
}

#[test]
fn instance_path_splits_on_dots() {
    let path = InstancePath::new("cpu.alu.a");
    assert_eq!(path.path().len(), 3);
    assert_eq!(path.to_string(), "cpu.alu.a");
}

#[test]
fn instance_path_grows_by_segments() {
    let mut path = InstancePath::new("cpu");
    path.add_inst("mem");
    assert_eq!(path.to_string(), "cpu.mem");
}

#[test]
fn expr_id_reaches_through_sign_cast() {
    let signed = Expr::new_signed_ref("a");
    assert_eq!(signed.id(), "a");
    assert_eq!(Expr::new_ref("b").id(), "b");
}

#[test]
fn index_expr_renders_bracketed() {
    let e = Expr::new_index_expr("a", Expr::new_ref("i"));
    assert_eq!(e.to_string(), "a[i]");
}

#[test]
fn integer_decl_renders() {
    let d = Decl::new_int("a");
    assert_eq!(d.to_string(), "integer a");
}

#[test]
fn array_decl_renders_width_and_depth() {
    let d = Decl::new_array("mem", 8, 32);
    assert_eq!(d.to_string(), "reg [7:0] mem [31:0]");
}

#[test]
fn attribute_decl_renders_block_before_declaration() {
    let mut attr = Attribute::default();
    attr.add_val("keep");
    let d = Decl::new_attribute_decl(attr, Decl::new_wire("w", 2));
    assert_eq!(d.to_string(), "(*keep*) wire [1:0] w");
}

#[test]
fn param_str_renders_quoted() {
    let d = Decl::new_param_str("name", "foo");
    assert_eq!(d.to_string(), "parameter name = \"foo\"");
}

#[test]
fn instance_names_can_be_reset() {
    let mut inst = Instance::new("i0", "prim");
    inst.set_id("i1");
    inst.set_prim("other");
    assert_eq!(inst.id(), "i1");
    assert_eq!(inst.prim(), "other");
}

#[test]
fn module_name_getter_returns_the_name() {
    let module = Module::new("foo");
    assert_eq!(module.name(), "foo");
}

#[test]
fn v17_raw_statement_passes_through() {
    let mut module = ModuleV17::new("raw");
    module.add_stmt(StmtV17::new_rawstr("`timescale 1ns/1ps".to_string()));
    let exp = "module raw ();\n    `timescale 1ns/1ps\nendmodule\n";
    assert_eq!(module.to_string(), exp);
}

#[test]
fn v17_call_statement_renders_with_semicolon() {
    let call = SequentialV17::new_call(Expr::new_call("foo", vec![Expr::new_ref("a")]));
    assert_eq!(call.to_string(), "foo(a);");
}

#[test]
fn v05_wildcard_sensitivity_renders_star() {
    let mut always = ParallelProcess::new_always();
    always.set_event(Sequential::Wildcard);
    always.add_seq(Sequential::new_blk_assign(Expr::new_ref("y"), Expr::new_ref("a")));
    let exp = "always @(*) begin\n    y = a;\nend";
    assert_eq!(always.to_string(), exp);
}

#[test]
fn v05_parallel_id_names_the_instance() {
    let inst = Instance::new("i0", "prim");
    let par = Parallel::new_inst(inst);
    assert_eq!(par.id(), "i0");
    let assign = Parallel::Assign(Expr::new_ref("lhs"), Expr::new_ref("rhs"));
    assert_eq!(assign.id(), "lhs");
}

#[test]
fn v17_function_kind_markers_are_recorded() {
    let mut func = Function::new("f", TyV17::Void);
    assert!(matches!(func.ty(), FunctionTy::Plain));
    func.export();
    assert!(matches!(func.ty(), FunctionTy::Export));
    func.import();
    assert!(matches!(func.ty(), FunctionTy::Import));
}

#[test]
fn ty_width_getters_return_the_width() {
    assert_eq!(TyV05::new_width(8).width(), 8);
    assert_eq!(TyV17::new_width(16).width(), 16);
}

#[test]
fn nested_mux_chain_breaks_the_line() {
    let inner = Expr::new_mux(Expr::new_ref("c2"), Expr::new_ref("x"), Expr::new_ref("y"));
    let outer = Expr::new_mux(Expr::new_ref("c1"), Expr::new_ref("a"), inner);
    assert_eq!(outer.to_string(), "c1 ? a :\n c2 ? x : y");
}

#[test]
fn signed_cast_wraps_any_expression() {
    let e = Expr::new_signed(Expr::new_add(Expr::new_ref("a"), Expr::new_ref("b")));
    assert_eq!(e.to_string(), "$signed(a + b)");
}
