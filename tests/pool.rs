use hlbc_decompiler::pool::{PoolError, Table};
use hlbc_decompiler::types::{
    Bytecode, Function, ObjField, RefFloat, RefFun, RefGlobal, RefInt, RefString, RefType, Type,
    TypeFun,
};

fn module() -> Bytecode {
    Bytecode {
        ints: vec![7, -3],
        floats: vec!["0.25".to_string()],
        strings: vec!["a".to_string(), "b".to_string()],
        bytes: vec![],
        types: vec![
            Type::Void,
            Type::Virtual { fields: vec![ObjField { name: RefString(0), t: RefType(0) }] },
            Type::Fun(TypeFun { args: vec![], ret: RefType(0) }),
        ],
        globals: vec![RefType(1)],
        functions: vec![Function { t: RefType(2), name: None, regs: vec![], ops: vec![], reg_names: vec![] }],
    }
}

#[test]
fn lookups_in_range() {
    let m = module();
    assert_eq!(m.resolve_int(RefInt(1)), Ok(-3));
    assert_eq!(m.resolve_float(RefFloat(0)).unwrap(), "0.25");
    assert_eq!(m.resolve_string(RefString(1)).unwrap(), "b");
    assert!(matches!(m.resolve_type(RefType(0)).unwrap(), Type::Void));
    assert_eq!(m.resolve_field(RefType(1), 0).unwrap().name, RefString(0));
    assert_eq!(m.resolve_global(RefGlobal(0)), Ok(RefType(1)));
    assert_eq!(m.resolve_function(RefFun(0)).unwrap().t, RefType(2));
}

#[test]
fn lookups_out_of_range() {
    let m = module();
    assert_eq!(m.resolve_int(RefInt(2)), Err(PoolError::OutOfRange(Table::Ints, 2)));
    assert_eq!(m.resolve_float(RefFloat(1)).unwrap_err(), PoolError::OutOfRange(Table::Floats, 1));
    assert_eq!(m.resolve_string(RefString(9)).unwrap_err(), PoolError::OutOfRange(Table::Strings, 9));
    assert_eq!(m.resolve_type(RefType(3)).unwrap_err(), PoolError::OutOfRange(Table::Types, 3));
    assert_eq!(m.resolve_field(RefType(1), 1).unwrap_err(), PoolError::OutOfRange(Table::Fields, 1));
    assert_eq!(m.resolve_field(RefType(0), 0).unwrap_err(), PoolError::OutOfRange(Table::Fields, 0));
    assert_eq!(m.resolve_field(RefType(8), 0).unwrap_err(), PoolError::OutOfRange(Table::Types, 8));
    assert_eq!(m.resolve_global(RefGlobal(1)), Err(PoolError::OutOfRange(Table::Globals, 1)));
    assert_eq!(m.resolve_function(RefFun(1)).unwrap_err(), PoolError::OutOfRange(Table::Functions, 1));
}
