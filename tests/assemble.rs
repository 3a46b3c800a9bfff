use hlbc_decompiler::assemble::decompile_class;
use hlbc_decompiler::ast::Statement;
use hlbc_decompiler::fmt::FormatOptions;
use hlbc_decompiler::lift::LiftError;
use hlbc_decompiler::opcode::Opcode;
use hlbc_decompiler::types::{
    Bytecode, Function, ObjBinding, ObjField, ObjProto, RefField, RefFun, RefInt, RefString, RefType,
    Reg, Type, TypeFun, TypeObj,
};

// Strings: 0 "Base", 1 "Point", 2 "x", 3 "y", 4 "sum", 5 "this", 6 "broken".
// Types: 0 Void, 1 I32, 2 Obj Base, 3 Obj Point extends Base, 4 fn(Point) -> I32.
fn module() -> Bytecode {
    let strings = ["Base", "Point", "x", "y", "sum", "this", "broken"];
    Bytecode {
        ints: vec![40, 2],
        floats: vec![],
        strings: strings.iter().map(|s| s.to_string()).collect(),
        bytes: vec![],
        types: vec![
            Type::Void,
            Type::I32,
            Type::Obj(TypeObj { name: RefString(0), super_: None, fields: vec![], protos: vec![], bindings: vec![], statics: None }),
            Type::Obj(TypeObj {
                name: RefString(1),
                super_: Some(RefType(2)),
                fields: vec![
                    ObjField { name: RefString(2), t: RefType(1) },
                    ObjField { name: RefString(3), t: RefType(1) },
                ],
                protos: vec![
                    ObjProto { name: RefString(4), findex: RefFun(0) },
                    ObjProto { name: RefString(6), findex: RefFun(1) },
                ],
                bindings: vec![],
                statics: None,
            }),
            Type::Fun(TypeFun { args: vec![RefType(3)], ret: RefType(1) }),
        ],
        globals: vec![],
        functions: vec![
            Function {
                t: RefType(4),
                name: Some(RefString(4)),
                regs: vec![RefType(3), RefType(1), RefType(1), RefType(1)],
                ops: vec![
                    Opcode::Int { dst: Reg(1), ptr: RefInt(0) },
                    Opcode::Int { dst: Reg(2), ptr: RefInt(1) },
                    Opcode::Add { dst: Reg(3), a: Reg(1), b: Reg(2) },
                    Opcode::Ret { ret: Reg(3) },
                ],
                reg_names: vec![Some(RefString(5))],
            },
            Function {
                t: RefType(4),
                name: Some(RefString(6)),
                regs: vec![RefType(3)],
                ops: vec![Opcode::JAlways { offset: 7 }],
                reg_names: vec![],
            },
        ],
    }
}

#[test]
fn class_from_object_type() {
    let m = module();
    let c = decompile_class(&m, RefType(3)).unwrap();
    assert_eq!(c.name, "Point");
    assert_eq!(c.parent, Some("Base".to_string()));
    assert_eq!(c.fields.len(), 2);
    assert_eq!(c.fields[1].name, "y");
    assert_eq!(c.methods.len(), 2);
    assert!(matches!(c.methods[1].statements[0], Statement::Comment(_)));
    assert_eq!(
        c.display(&m, &FormatOptions::new(2)),
        "class Point extends Base {\n  var x: Int;\n  var y: Int;\n\n  function sum(): Int {\n    return 40 + 2;\n  }\n\n  function broken(): Int {\n    // this method could not be decompiled\n  }\n}"
    );
}

#[test]
fn class_without_parent_or_members() {
    let m = module();
    let c = decompile_class(&m, RefType(2)).unwrap();
    assert_eq!(c.parent, None);
    assert_eq!(c.display(&m, &FormatOptions::new(2)), "class Base {\n}");
}

#[test]
fn non_class_types_are_refused() {
    let m = module();
    assert_eq!(decompile_class(&m, RefType(1)).unwrap_err(), LiftError::NotAClass(RefType(1)));
    assert_eq!(decompile_class(&m, RefType(50)).unwrap_err(), LiftError::NotAClass(RefType(50)));
}

// Class Foo with one static field and one dynamic method. Strings: 0 "Foo", 1 "bar", 2 "baz",
// 3 "$Foo", 4 "make". Types: 0 Void, 1 I32, 2 fn() -> Void, 3 Obj Foo, 4 Obj $Foo (statics).
fn foo_module() -> Bytecode {
    let strings = ["Foo", "bar", "baz", "$Foo", "make"];
    let empty = |ops: Vec<Opcode>, name: usize| Function {
        t: RefType(2),
        name: Some(RefString(name)),
        regs: vec![RefType(0)],
        ops,
        reg_names: vec![],
    };
    Bytecode {
        ints: vec![],
        floats: vec![],
        strings: strings.iter().map(|s| s.to_string()).collect(),
        bytes: vec![],
        types: vec![
            Type::Void,
            Type::I32,
            Type::Fun(TypeFun { args: vec![], ret: RefType(0) }),
            Type::Obj(TypeObj {
                name: RefString(0),
                super_: None,
                fields: vec![],
                protos: vec![],
                bindings: vec![ObjBinding { field: RefField(0), findex: RefFun(0) }],
                statics: Some(RefType(4)),
            }),
            Type::Obj(TypeObj {
                name: RefString(3),
                super_: None,
                fields: vec![ObjField { name: RefString(1), t: RefType(1) }],
                protos: vec![ObjProto { name: RefString(4), findex: RefFun(1) }],
                bindings: vec![],
                statics: None,
            }),
        ],
        globals: vec![],
        functions: vec![empty(vec![], 2), empty(vec![Opcode::Ret { ret: Reg(0) }], 4)],
    }
}

#[test]
fn static_field_and_dynamic_method() {
    let m = foo_module();
    let c = decompile_class(&m, RefType(3)).unwrap();
    assert!(c.fields[0].static_);
    assert!(c.methods[0].dynamic && !c.methods[0].static_);
    assert!(c.methods[1].static_ && !c.methods[1].dynamic);
    assert_eq!(
        c.display(&m, &FormatOptions::new(2)),
        "class Foo {\n  static var bar: Int;\n\n  dynamic function baz() {}\n\n  static function make() {\n    return;\n  }\n}"
    );
}
