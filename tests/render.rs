use hlbc_decompiler::ast::{Class, ClassField, Constant, Expr, Method, Operation, Statement};
use hlbc_decompiler::fmt::{to_haxe_type, FormatOptions};
use hlbc_decompiler::types::{
    Bytecode, EnumConstruct, Function, ObjField, RefField, RefFloat, RefFun, RefInt, RefString,
    RefType, Reg, Type, TypeFun, TypeObj,
};

// Types: 0 Void, 1 I32, 2 fn() -> Void, 3 fn(I32, I32) -> I32, 4 Obj Foo,
// 5 Virtual {x, y}, 6 Enum Color {Red, Rgb}, 7 Dyn.
// Strings: 0 "bar", 1 "baz", 2 "Foo", 3 "x", 4 "y", 5 "say \"hi\"", 6 "Color", 7 "Red",
// 8 "Rgb", 9 "add", 10 "a", 11 "b", then the variable names "c", "e", "sum", "i".
const STRINGS: [&str; 16] =
    ["bar", "baz", "Foo", "x", "y", "say \"hi\"", "Color", "Red", "Rgb", "add", "a", "b", "c", "e", "sum", "i"];

fn module() -> Bytecode {
    let strings = STRINGS;
    Bytecode {
        ints: vec![2, 3, -17],
        floats: vec!["1.5".to_string()],
        strings: strings.iter().map(|s| s.to_string()).collect(),
        bytes: vec![],
        types: vec![
            Type::Void,
            Type::I32,
            Type::Fun(TypeFun { args: vec![], ret: RefType(0) }),
            Type::Fun(TypeFun { args: vec![RefType(1), RefType(1)], ret: RefType(1) }),
            Type::Obj(TypeObj { name: RefString(2), super_: None, fields: vec![], protos: vec![], bindings: vec![], statics: None }),
            Type::Virtual {
                fields: vec![
                    ObjField { name: RefString(3), t: RefType(1) },
                    ObjField { name: RefString(4), t: RefType(1) },
                ],
            },
            Type::Enum {
                name: RefString(6),
                constructs: vec![
                    EnumConstruct { name: RefString(7), params: vec![] },
                    EnumConstruct { name: RefString(8), params: vec![RefType(1)] },
                ],
            },
            Type::Dyn,
        ],
        globals: vec![],
        functions: vec![
            Function { t: RefType(2), name: Some(RefString(1)), regs: vec![], ops: vec![], reg_names: vec![] },
            Function {
                t: RefType(3),
                name: Some(RefString(9)),
                regs: vec![RefType(1), RefType(1)],
                ops: vec![],
                reg_names: vec![Some(RefString(10)), Some(RefString(11))],
            },
        ],
    }
}

fn var(name: &str) -> Expr {
    let i = STRINGS.iter().position(|s| *s == name).unwrap();
    Expr::Variable(Reg(0), Some(RefString(i)))
}

fn lit(i: i32) -> Expr {
    Expr::Constant(Constant::InlineInt(i))
}

fn render(s: &Statement) -> String {
    let m = module();
    s.display(&FormatOptions::new(2), &m, &m.functions[0])
}

fn render_expr(e: &Expr) -> String {
    let m = module();
    e.display(&FormatOptions::new(2), &m, &m.functions[0])
}

fn foo_class() -> Class {
    Class {
        name: "Foo".to_string(),
        parent: None,
        fields: vec![ClassField { name: "bar".to_string(), static_: true, ty: RefType(1) }],
        methods: vec![Method { fun: RefFun(0), static_: false, dynamic: true, statements: vec![] }],
    }
}

#[test]
fn format_options_nesting() {
    let o = FormatOptions::new(2);
    assert_eq!(o.to_string(), "");
    let o2 = o.inc_nesting();
    assert_eq!(o2.to_string(), "  ");
    assert_eq!(o2.inc_nesting().to_string(), "    ");
    assert_eq!(FormatOptions::new(4).inc_nesting().to_string(), "    ");
}

#[test]
fn haxe_type_names() {
    let m = module();
    assert_eq!(to_haxe_type(&Type::Void, &m), "Void");
    assert_eq!(to_haxe_type(&Type::I32, &m), "Int");
    assert_eq!(to_haxe_type(&Type::F64, &m), "Float");
    assert_eq!(to_haxe_type(&Type::Bool, &m), "Bool");
    assert_eq!(to_haxe_type(&Type::Bytes, &m), "hl.Bytes");
    assert_eq!(to_haxe_type(&Type::Dyn, &m), "Dynamic");
    assert_eq!(to_haxe_type(&m.types[2], &m), "Function");
    assert_eq!(to_haxe_type(&m.types[4], &m), "Foo");
    assert_eq!(to_haxe_type(&Type::U8, &m), "other");
}

#[test]
fn class_with_static_field_and_dynamic_method() {
    let m = module();
    let text = foo_class().display(&m, &FormatOptions::new(2));
    assert_eq!(text, "class Foo {\n  static var bar: Int;\n\n  dynamic function baz() {}\n}");
}

#[test]
fn class_with_parent_and_no_methods() {
    let m = module();
    let c = Class {
        name: "Bar".to_string(),
        parent: Some("Foo".to_string()),
        fields: vec![ClassField { name: "n".to_string(), static_: false, ty: RefType(7) }],
        methods: vec![],
    };
    assert_eq!(c.display(&m, &FormatOptions::new(2)), "class Bar extends Foo {\n  var n: Dynamic;\n}");
}

#[test]
fn rendering_twice_gives_same_text() {
    let m = module();
    let c = foo_class();
    let o = FormatOptions::new(2);
    assert_eq!(c.display(&m, &o), c.display(&m, &o));
    let s = Statement::Return(Some(var("a")));
    assert_eq!(render(&s), render(&s));
}

#[test]
fn equal_trees_render_identically() {
    let a = Statement::While { cond: var("c"), stmts: vec![Statement::Break] };
    let b = Statement::While { cond: var("c"), stmts: vec![Statement::Break] };
    assert_eq!(render(&a), render(&b));
    assert_eq!(foo_class().display(&module(), &FormatOptions::new(2)), foo_class().display(&module(), &FormatOptions::new(2)));
}

#[test]
fn empty_switch() {
    let s = Statement::Switch { arg: var("x"), default: vec![], cases: vec![] };
    assert_eq!(render(&s), "switch (x) {\n}");
}

#[test]
fn switch_default_first() {
    let s = Statement::Switch {
        arg: var("x"),
        default: vec![Statement::Return(Some(lit(0)))],
        cases: vec![
            (lit(0), vec![Statement::Return(Some(lit(1)))]),
            (lit(1), vec![Statement::Return(Some(lit(2)))]),
        ],
    };
    assert_eq!(
        render(&s),
        "switch (x) {\n  default:\n    return 0;\n  case 0:\n    return 1;\n  case 1:\n    return 2;\n}"
    );
}

#[test]
fn if_without_else() {
    let s = Statement::IfElse { cond: var("a"), if_: vec![Statement::Break], else_: vec![] };
    assert_eq!(render(&s), "if (a) {\n  break;\n}");
}

#[test]
fn if_else_returning_constant() {
    let cond = Expr::Op(Operation::Gt(Box::new(var("a")), Box::new(var("b"))));
    let s = Statement::IfElse {
        cond,
        if_: vec![Statement::Return(Some(lit(1)))],
        else_: vec![Statement::Return(Some(lit(0)))],
    };
    assert_eq!(render(&s), "if (a > b) {\n  return 1;\n} else {\n  return 0;\n}");
}

#[test]
fn bare_return() {
    assert_eq!(render(&Statement::Return(None)), "return;");
}

#[test]
fn empty_method_body_on_signature_line() {
    let m = module();
    let meth = Method { fun: RefFun(1), static_: true, dynamic: false, statements: vec![] };
    assert_eq!(meth.display(&m, &FormatOptions::new(2)), "static function add(a: Int, b: Int): Int {}\n");
}

#[test]
fn method_with_body_skips_receiver() {
    let m = module();
    let ret = Statement::Return(Some(Expr::Op(Operation::Add(Box::new(var("b")), Box::new(lit(1))))));
    let meth = Method { fun: RefFun(1), static_: false, dynamic: false, statements: vec![ret] };
    assert_eq!(meth.display(&m, &FormatOptions::new(2)), "function add(b: Int): Int {\n  return b + 1;\n}\n");
}

#[test]
fn anonymous_with_non_virtual_type() {
    let e = Expr::Anonymous(RefType(1), vec![(RefField(0), lit(1))]);
    assert_eq!(render_expr(&e), "[invalid anonymous type]");
}

#[test]
fn anonymous_with_virtual_type() {
    let e = Expr::Anonymous(RefType(5), vec![(RefField(1), lit(2)), (RefField(0), lit(1))]);
    assert_eq!(render_expr(&e), "{x: 1, y: 2}");
    let partial = Expr::Anonymous(RefType(5), vec![(RefField(0), lit(1))]);
    assert_eq!(render_expr(&partial), "{x: 1, y: [missing value]}");
}

#[test]
fn try_catch_blocks() {
    let m = module();
    let meth = Method {
        fun: RefFun(0),
        static_: true,
        dynamic: false,
        statements: vec![
            Statement::Try { stmts: vec![Statement::Throw(var("e"))] },
            Statement::Catch { stmts: vec![Statement::Return(None)] },
        ],
    };
    assert_eq!(
        meth.display(&m, &FormatOptions::new(2)),
        "static function baz() {\n  try {\n    throw e\n  }\n  catch () {\n    return;\n  }\n}\n"
    );
}

#[test]
fn constants() {
    assert_eq!(render_expr(&lit(-42)), "-42");
    assert_eq!(render_expr(&lit(i32::MIN)), "-2147483648");
    assert_eq!(render_expr(&Expr::Constant(Constant::Int(RefInt(2)))), "-17");
    assert_eq!(render_expr(&Expr::Constant(Constant::Int(RefInt(9)))), "[invalid reference]");
    assert_eq!(render_expr(&Expr::Constant(Constant::Float(RefFloat(0)))), "1.5");
    assert_eq!(render_expr(&Expr::Constant(Constant::String(RefString(0)))), "\"bar\"");
    assert_eq!(render_expr(&Expr::Constant(Constant::String(RefString(5)))), "\"say \\\"hi\\\"\"");
    assert_eq!(render_expr(&Expr::Constant(Constant::Bool(true))), "true");
    assert_eq!(render_expr(&Expr::Constant(Constant::Bool(false))), "false");
    assert_eq!(render_expr(&Expr::Constant(Constant::Null)), "null");
    assert_eq!(render_expr(&Expr::Constant(Constant::This)), "this");
}

#[test]
fn variables_and_calls() {
    assert_eq!(render_expr(&Expr::Variable(Reg(12), None)), "reg12");
    let call = Expr::Call { fun: Box::new(Expr::FunRef(RefFun(1))), args: vec![lit(1), var("x")] };
    assert_eq!(render_expr(&call), "add(1, x)");
    let field = Expr::Field(Box::new(Expr::Constant(Constant::This)), "bar".to_string());
    assert_eq!(render_expr(&field), "this.bar");
    let arr = Expr::Array(Box::new(var("a")), Box::new(lit(0)));
    assert_eq!(render_expr(&arr), "a[0]");
    let ctor = Expr::Constructor { ty: RefType(4), args: vec![] };
    assert_eq!(render_expr(&ctor), "new Foo()");
    let en = Expr::EnumConstr(RefType(6), 1, vec![lit(7)]);
    assert_eq!(render_expr(&en), "Rgb(7)");
    assert_eq!(render_expr(&Expr::Unknown("no idea".to_string())), "[no idea]");
}

#[test]
fn operations() {
    let m = module();
    let o = FormatOptions::new(2);
    let f = &m.functions[0];
    let bin = |op: fn(Box<Expr>, Box<Expr>) -> Operation| op(Box::new(var("a")), Box::new(var("b"))).display(&o, &m, f);
    assert_eq!(bin(Operation::Sub), "a - b");
    assert_eq!(bin(Operation::Mul), "a * b");
    assert_eq!(bin(Operation::Div), "a / b");
    assert_eq!(bin(Operation::Mod), "a % b");
    assert_eq!(bin(Operation::Shl), "a << b");
    assert_eq!(bin(Operation::Shr), "a >> b");
    assert_eq!(bin(Operation::And), "a && b");
    assert_eq!(bin(Operation::Or), "a || b");
    assert_eq!(bin(Operation::Xor), "a ^ b");
    assert_eq!(bin(Operation::Eq), "a == b");
    assert_eq!(bin(Operation::NotEq), "a != b");
    assert_eq!(bin(Operation::Gte), "a >= b");
    assert_eq!(bin(Operation::Lt), "a < b");
    assert_eq!(bin(Operation::Lte), "a <= b");
    assert_eq!(Operation::Neg(Box::new(var("a"))).display(&o, &m, f), "-a");
    assert_eq!(Operation::Not(Box::new(var("a"))).display(&o, &m, f), "!a");
    assert_eq!(Operation::Incr(Box::new(var("a"))).display(&o, &m, f), "a++");
    assert_eq!(Operation::Decr(Box::new(var("a"))).display(&o, &m, f), "a--");
}

#[test]
fn closure_and_expression_if() {
    let closure = Expr::Closure(RefFun(1), vec![Statement::Return(Some(var("a")))]);
    assert_eq!(render_expr(&closure), "(a: Int, b: Int) -> {\n  return a;\n}");
    let cond = Expr::IfElse {
        cond: Box::new(var("c")),
        if_: vec![Statement::ExprStatement(lit(1))],
        else_: vec![Statement::ExprStatement(lit(2))],
    };
    assert_eq!(render_expr(&cond), "if (c) {\n  1;\n} else {\n  2;\n}");
}

#[test]
fn assignments_loops_and_comments() {
    let decl = Statement::Assign { declaration: true, variable: var("sum"), assign: lit(0) };
    assert_eq!(render(&decl), "var sum = 0;");
    let upd = Statement::Assign {
        declaration: false,
        variable: var("sum"),
        assign: Expr::Op(Operation::Add(Box::new(var("sum")), Box::new(var("i")))),
    };
    assert_eq!(render(&upd), "sum = sum + i;");
    let w = Statement::While { cond: Expr::Constant(Constant::Bool(true)), stmts: vec![Statement::Continue] };
    assert_eq!(render(&w), "while (true) {\n  continue;\n}");
    assert_eq!(render(&Statement::Comment("note".to_string())), "// note");
}
