use hlbc_decompiler::ast::Statement;
use hlbc_decompiler::fmt::FormatOptions;
use hlbc_decompiler::lift::{decompile_method, lift_function, LiftError};
use hlbc_decompiler::opcode::Opcode;
use hlbc_decompiler::types::{
    Bytecode, EnumConstruct, Function, ObjField, RefField, RefFun, RefInt, RefString, RefType, Reg,
    Type, TypeFun, TypeObj,
};

// Types: 0 Void, 1 I32, 2 fn(I32) -> I32, 3 fn() -> Void. Strings: 0 "f", 1 "g", 2 "n".
fn module(ops: Vec<Opcode>, regs: Vec<RefType>) -> Bytecode {
    Bytecode {
        ints: vec![2, 3],
        floats: vec![],
        strings: vec!["f".to_string(), "g".to_string(), "n".to_string()],
        bytes: vec![],
        types: vec![
            Type::Void,
            Type::I32,
            Type::Fun(TypeFun { args: vec![RefType(1)], ret: RefType(1) }),
            Type::Fun(TypeFun { args: vec![], ret: RefType(0) }),
        ],
        globals: vec![],
        functions: vec![
            Function { t: RefType(2), name: Some(RefString(0)), regs, ops, reg_names: vec![Some(RefString(2))] },
            Function { t: RefType(3), name: Some(RefString(1)), regs: vec![RefType(0)], ops: vec![], reg_names: vec![] },
        ],
    }
}

fn body(m: &Bytecode) -> String {
    let meth = decompile_method(m, RefFun(0), true, false).unwrap();
    meth.display(m, &FormatOptions::new(2))
}

fn i32_regs(n: usize) -> Vec<RefType> {
    vec![RefType(1); n]
}

#[test]
fn integer_add() {
    let ops = vec![
        Opcode::Int { dst: Reg(1), ptr: RefInt(0) },
        Opcode::Int { dst: Reg(2), ptr: RefInt(1) },
        Opcode::Add { dst: Reg(3), a: Reg(1), b: Reg(2) },
        Opcode::Ret { ret: Reg(3) },
    ];
    let m = module(ops, i32_regs(4));
    assert_eq!(body(&m), "static function f(n: Int): Int {\n  return 2 + 3;\n}\n");
}

#[test]
fn value_read_twice_is_declared() {
    let ops = vec![
        Opcode::Int { dst: Reg(1), ptr: RefInt(0) },
        Opcode::Mul { dst: Reg(2), a: Reg(1), b: Reg(1) },
        Opcode::Ret { ret: Reg(2) },
    ];
    let m = module(ops, i32_regs(3));
    assert_eq!(body(&m), "static function f(n: Int): Int {\n  var reg1 = 2;\n  return reg1 * reg1;\n}\n");
}

#[test]
fn second_assignment_is_not_a_declaration() {
    let ops = vec![
        Opcode::Int { dst: Reg(1), ptr: RefInt(0) },
        Opcode::Int { dst: Reg(1), ptr: RefInt(1) },
        Opcode::Sub { dst: Reg(2), a: Reg(1), b: Reg(1) },
        Opcode::Ret { ret: Reg(2) },
    ];
    let m = module(ops, i32_regs(3));
    assert_eq!(
        body(&m),
        "static function f(n: Int): Int {\n  var reg1 = 2;\n  reg1 = 3;\n  return reg1 - reg1;\n}\n"
    );
}

#[test]
fn unused_call_becomes_statement_and_void_return() {
    let ops = vec![
        Opcode::Call1 { dst: Reg(1), fun: RefFun(0), arg0: Reg(0) },
        Opcode::Ret { ret: Reg(2) },
    ];
    let m = module(ops, vec![RefType(1), RefType(1), RefType(0)]);
    assert_eq!(body(&m), "static function f(n: Int): Int {\n  f(n);\n  return;\n}\n");
}

#[test]
fn call_result_folds_into_reader() {
    let ops = vec![
        Opcode::Call0 { dst: Reg(1), fun: RefFun(1) },
        Opcode::Neg { dst: Reg(2), src: Reg(1) },
        Opcode::Ret { ret: Reg(2) },
    ];
    let m = module(ops, i32_regs(3));
    assert_eq!(body(&m), "static function f(n: Int): Int {\n  return -g();\n}\n");
}

#[test]
fn increment_emits_statement() {
    let ops = vec![Opcode::Incr { dst: Reg(0) }, Opcode::Ret { ret: Reg(0) }];
    let m = module(ops, i32_regs(1));
    assert_eq!(body(&m), "static function f(n: Int): Int {\n  n++;\n  return n;\n}\n");
}

#[test]
fn mov_and_casts_fold_as_identity() {
    let ops = vec![
        Opcode::Int { dst: Reg(1), ptr: RefInt(1) },
        Opcode::Mov { dst: Reg(2), src: Reg(1) },
        Opcode::ToDyn { dst: Reg(3), src: Reg(2) },
        Opcode::Throw { exc: Reg(3) },
    ];
    let m = module(ops, i32_regs(4));
    assert_eq!(body(&m), "static function f(n: Int): Int {\n  throw 3\n}\n");
}

#[test]
fn no_op_instructions_emit_nothing() {
    let ops = vec![Opcode::Nop, Opcode::Label, Opcode::Assert, Opcode::NullCheck { reg: Reg(0) }];
    let m = module(ops, i32_regs(1));
    assert_eq!(body(&m), "static function f(n: Int): Int {}\n");
}

#[test]
fn unsupported_instruction_is_rendered_inline() {
    let ops = vec![Opcode::Type { dst: Reg(0), ty: RefType(1) }];
    let m = module(ops, i32_regs(1));
    assert_eq!(body(&m), "static function f(n: Int): Int {\n  [Type];\n}\n");
}

#[test]
fn jump_out_of_structure_is_refused() {
    let ops = vec![Opcode::Nop, Opcode::JAlways { offset: 5 }, Opcode::Nop];
    let m = module(ops, i32_regs(1));
    assert_eq!(lift_function(&m, &m.functions[0]).unwrap_err(), LiftError::MalformedCfg(1));
}

#[test]
fn unmatched_trap_end_is_refused() {
    let ops = vec![Opcode::EndTrap { exc: Reg(0) }];
    let m = module(ops, i32_regs(1));
    assert_eq!(lift_function(&m, &m.functions[0]).unwrap_err(), LiftError::MalformedCfg(0));
}

#[test]
fn register_out_of_range_is_refused() {
    let ops = vec![Opcode::Add { dst: Reg(0), a: Reg(0), b: Reg(7) }];
    let m = module(ops, i32_regs(2));
    assert_eq!(lift_function(&m, &m.functions[0]).unwrap_err(), LiftError::RegisterOutOfRange(Reg(7)));
}

#[test]
fn missing_function_is_refused() {
    let m = module(vec![], i32_regs(1));
    assert_eq!(decompile_method(&m, RefFun(5), false, false).unwrap_err(), LiftError::BadFunction(RefFun(5)));
}

#[test]
fn lifted_variables_stay_within_registers() {
    let ops = vec![
        Opcode::Int { dst: Reg(1), ptr: RefInt(0) },
        Opcode::Add { dst: Reg(0), a: Reg(1), b: Reg(0) },
        Opcode::Ret { ret: Reg(0) },
    ];
    let m = module(ops, i32_regs(2));
    let stmts = lift_function(&m, &m.functions[0]).unwrap();
    assert_eq!(stmts.len(), 1);
    assert!(matches!(stmts[0], Statement::Return(Some(_))));
    assert_eq!(body(&m), "static function f(n: Int): Int {\n  return 2 + n;\n}\n");
}

// Scenarios with control flow. Registers named by debug information.
fn named_module(ops: Vec<Opcode>, regs: Vec<RefType>, names: Vec<&str>, args: Vec<RefType>, ret: RefType) -> Bytecode {
    let mut strings: Vec<String> = vec!["f".to_string()];
    let mut reg_names = Vec::new();
    for n in names {
        if n.is_empty() {
            reg_names.push(None);
        } else {
            reg_names.push(Some(RefString(strings.len())));
            strings.push(n.to_string());
        }
    }
    Bytecode {
        ints: vec![0, 1, 2],
        floats: vec![],
        strings,
        bytes: vec![],
        types: vec![Type::Void, Type::I32, Type::Fun(TypeFun { args, ret }), Type::Dyn],
        globals: vec![],
        functions: vec![Function { t: RefType(2), name: Some(RefString(0)), regs, ops, reg_names }],
    }
}

fn method_body(m: &Bytecode) -> String {
    let meth = decompile_method(m, RefFun(0), true, false).unwrap();
    let text = meth.display(m, &FormatOptions::new(2));
    let start = text.find('\n').unwrap() + 1;
    let end = text.rfind('}').unwrap();
    // Drop the signature line and the closing brace; remove one level of indentation.
    text[start..end].lines().map(|l| l.strip_prefix("  ").unwrap_or(l)).collect::<Vec<_>>().join("\n")
}

#[test]
fn if_else_returning_a_constant() {
    // if (a > b) return 1 else return 0
    let ops = vec![
        Opcode::JSLte { a: Reg(0), b: Reg(1), offset: 2 },
        Opcode::Int { dst: Reg(2), ptr: RefInt(1) },
        Opcode::Ret { ret: Reg(2) },
        Opcode::Int { dst: Reg(2), ptr: RefInt(0) },
        Opcode::Ret { ret: Reg(2) },
    ];
    let m = named_module(ops, i32_regs(3), vec!["a", "b", ""], vec![RefType(1), RefType(1)], RefType(1));
    assert_eq!(method_body(&m), "if (a > b) {\n  return 1;\n} else {\n  return 0;\n}");
}

#[test]
fn if_else_with_jump_over_else() {
    let ops = vec![
        Opcode::JFalse { cond: Reg(0), offset: 3 },
        Opcode::Int { dst: Reg(1), ptr: RefInt(1) },
        Opcode::Mov { dst: Reg(2), src: Reg(1) },
        Opcode::JAlways { offset: 2 },
        Opcode::Int { dst: Reg(1), ptr: RefInt(2) },
        Opcode::Mov { dst: Reg(2), src: Reg(1) },
        Opcode::Ret { ret: Reg(2) },
    ];
    let m = named_module(ops, i32_regs(3), vec!["c", "", "r"], vec![RefType(1)], RefType(1));
    assert_eq!(
        method_body(&m),
        "if (c) {\n  var r = 1;\n} else {\n  r = 2;\n}\nreturn r;"
    );
}

#[test]
fn while_loop_summing() {
    let ops = vec![
        Opcode::Int { dst: Reg(1), ptr: RefInt(0) },
        Opcode::Int { dst: Reg(2), ptr: RefInt(1) },
        Opcode::Label,
        Opcode::JSGt { a: Reg(2), b: Reg(0), offset: 3 },
        Opcode::Add { dst: Reg(1), a: Reg(1), b: Reg(2) },
        Opcode::Incr { dst: Reg(2) },
        Opcode::JAlways { offset: -5 },
        Opcode::Ret { ret: Reg(1) },
    ];
    let m = named_module(ops, i32_regs(3), vec!["n", "sum", "i"], vec![RefType(1)], RefType(1));
    let body = method_body(&m);
    assert_eq!(body.matches("while (").count(), 1);
    assert!(body.contains("var sum = 0;"));
    assert!(body.contains("sum = sum + i;"));
    assert_eq!(
        body,
        "var sum = 0;\nvar i = 1;\nwhile (i <= n) {\n  sum = sum + i;\n  i++;\n}\nreturn sum;"
    );
}

#[test]
fn loop_exit_test_at_header_becomes_condition() {
    let ops = vec![
        Opcode::Label,
        Opcode::JTrue { cond: Reg(0), offset: 3 },
        Opcode::JFalse { cond: Reg(1), offset: -3 },
        Opcode::Incr { dst: Reg(2) },
        Opcode::JAlways { offset: -5 },
        Opcode::Ret { ret: Reg(2) },
    ];
    let m = named_module(ops, i32_regs(3), vec!["a", "b", "k"], vec![RefType(1), RefType(1), RefType(1)], RefType(1));
    assert_eq!(method_body(&m), "while (!a) {\n  if (!b) {\n    continue;\n  }\n  k++;\n}\nreturn k;");
}

#[test]
fn infinite_loop_with_break_and_continue() {
    let ops = vec![
        Opcode::Label,
        Opcode::Incr { dst: Reg(2) },
        Opcode::JTrue { cond: Reg(0), offset: 3 },
        Opcode::JFalse { cond: Reg(1), offset: -4 },
        Opcode::Incr { dst: Reg(2) },
        Opcode::JAlways { offset: -6 },
        Opcode::Ret { ret: Reg(2) },
    ];
    let m = named_module(ops, i32_regs(3), vec!["a", "b", "k"], vec![RefType(1), RefType(1), RefType(1)], RefType(1));
    assert_eq!(
        method_body(&m),
        "while (true) {\n  k++;\n  if (a) {\n    break;\n  }\n  if (!b) {\n    continue;\n  }\n  k++;\n}\nreturn k;"
    );
}

#[test]
fn switch_with_default() {
    let ops = vec![
        Opcode::Switch { reg: Reg(0), offsets: vec![2, 4], end: 6 },
        Opcode::Int { dst: Reg(1), ptr: RefInt(0) },
        Opcode::Ret { ret: Reg(1) },
        Opcode::Int { dst: Reg(1), ptr: RefInt(1) },
        Opcode::Ret { ret: Reg(1) },
        Opcode::Int { dst: Reg(1), ptr: RefInt(2) },
        Opcode::Ret { ret: Reg(1) },
    ];
    let m = named_module(ops, i32_regs(2), vec!["x", ""], vec![RefType(1)], RefType(1));
    assert_eq!(
        method_body(&m),
        "switch (x) {\n  default:\n    return 0;\n  case 0:\n    return 1;\n  case 1:\n    return 2;\n}"
    );
}

#[test]
fn switch_cases_ending_in_jumps() {
    let ops = vec![
        Opcode::Switch { reg: Reg(0), offsets: vec![1, 3], end: 4 },
        Opcode::JAlways { offset: 3 },
        Opcode::Incr { dst: Reg(1) },
        Opcode::JAlways { offset: 1 },
        Opcode::Decr { dst: Reg(1) },
        Opcode::Ret { ret: Reg(1) },
    ];
    let m = named_module(ops, i32_regs(2), vec!["x", "y"], vec![RefType(1), RefType(1)], RefType(1));
    assert_eq!(
        method_body(&m),
        "switch (x) {\n  case 0:\n    y++;\n  case 1:\n    y--;\n}\nreturn y;"
    );
}

#[test]
fn try_catch_throw() {
    let ops = vec![
        Opcode::Trap { exc: Reg(0), offset: 3 },
        Opcode::Throw { exc: Reg(0) },
        Opcode::EndTrap { exc: Reg(0) },
        Opcode::JAlways { offset: 1 },
        Opcode::Ret { ret: Reg(1) },
    ];
    let m = named_module(ops, vec![RefType(3), RefType(0)], vec!["e", ""], vec![], RefType(0));
    let stmts = lift_function(&m, &m.functions[0]).unwrap();
    assert!(matches!(stmts[0], Statement::Try { .. }));
    assert!(matches!(stmts[1], Statement::Catch { .. }));
    assert_eq!(method_body(&m), "try {\n  throw e\n}\ncatch () {\n  return;\n}");
}

// Types: 0 Void, 1 I32, 2 fn(Obj) -> Void, 3 Obj Pt {x, y}, 4 Enum Opt {None, Some}, 5 Dyn.
// Strings: 0 "m", 1 "Pt", 2 "x", 3 "y", 4 "Opt", 5 "None", 6 "Some", 7 "p", 8 "arr".
fn object_module(ops: Vec<Opcode>, regs: Vec<RefType>) -> Bytecode {
    let strings = ["m", "Pt", "x", "y", "Opt", "None", "Some", "p", "arr"];
    Bytecode {
        ints: vec![5, 9],
        floats: vec![],
        strings: strings.iter().map(|s| s.to_string()).collect(),
        bytes: vec![],
        types: vec![
            Type::Void,
            Type::I32,
            Type::Fun(TypeFun { args: vec![RefType(3)], ret: RefType(0) }),
            Type::Obj(TypeObj {
                name: RefString(1),
                super_: None,
                fields: vec![
                    ObjField { name: RefString(2), t: RefType(1) },
                    ObjField { name: RefString(3), t: RefType(1) },
                ],
                protos: vec![],
                bindings: vec![],
                statics: None,
            }),
            Type::Enum {
                name: RefString(4),
                constructs: vec![
                    EnumConstruct { name: RefString(5), params: vec![] },
                    EnumConstruct { name: RefString(6), params: vec![RefType(1)] },
                ],
            },
            Type::Dyn,
        ],
        globals: vec![],
        functions: vec![Function {
            t: RefType(2),
            name: Some(RefString(0)),
            regs,
            ops,
            reg_names: vec![None, Some(RefString(7)), Some(RefString(8))],
        }],
    }
}

fn object_body(m: &Bytecode) -> String {
    let meth = decompile_method(m, RefFun(0), false, false).unwrap();
    meth.display(m, &FormatOptions::new(2))
}

#[test]
fn fields_of_this_and_objects() {
    let ops = vec![
        Opcode::GetThis { dst: Reg(3), field: RefField(0) },
        Opcode::SetThis { field: RefField(1), src: Reg(3) },
        Opcode::New { dst: Reg(1) },
        Opcode::Int { dst: Reg(4), ptr: RefInt(0) },
        Opcode::SetField { obj: Reg(1), field: RefField(0), src: Reg(4) },
        Opcode::Field { dst: Reg(5), obj: Reg(1), field: RefField(1) },
        Opcode::Ret { ret: Reg(5) },
    ];
    let regs = vec![RefType(3), RefType(3), RefType(5), RefType(1), RefType(1), RefType(1)];
    let m = object_module(ops, regs);
    assert_eq!(
        object_body(&m),
        "function m() {\n  this.y = this.x;\n  var p = new Pt();\n  p.x = 5;\n  return p.y;\n}\n"
    );
}

#[test]
fn arrays_closures_and_enums() {
    let ops = vec![
        Opcode::Int { dst: Reg(3), ptr: RefInt(1) },
        Opcode::GetArray { dst: Reg(4), array: Reg(2), index: Reg(3) },
        Opcode::SetArray { array: Reg(2), index: Reg(3), src: Reg(4) },
        Opcode::StaticClosure { dst: Reg(5), fun: RefFun(0) },
        Opcode::CallClosure { dst: Reg(6), fun: Reg(5), args: vec![] },
        Opcode::Int { dst: Reg(7), ptr: RefInt(0) },
        Opcode::MakeEnum { dst: Reg(8), construct: 1, args: vec![Reg(7)] },
        Opcode::EnumAlloc { dst: Reg(9), construct: 0 },
        Opcode::Ret { ret: Reg(8) },
    ];
    let regs = vec![
        RefType(3), RefType(3), RefType(5), RefType(1), RefType(1),
        RefType(2), RefType(1), RefType(1), RefType(4), RefType(4),
    ];
    let m = object_module(ops, regs);
    assert_eq!(
        object_body(&m),
        "function m() {\n  var reg3 = 9;\n  arr[reg3] = arr[reg3];\n  m();\n  var reg8 = Some(5);\n  var reg9 = None();\n  return reg8;\n}\n"
    );
}
