use hlbc_decompiler::codec::{
    decode, decode_function, encode, encode_function, read_var, shape_of, write_var, DecodeError,
    OperandKind,
};
use hlbc_decompiler::opcode::Opcode;
use hlbc_decompiler::types::{RefField, RefFun, RefInt, RefString, Reg, ValBool};

fn var_bytes(v: i64) -> Vec<u8> {
    let mut out = Vec::new();
    write_var(&mut out, v);
    out
}

fn round_trip(op: Opcode) -> Opcode {
    let mut bytes = Vec::new();
    encode(&op, &mut bytes);
    let (back, end) = decode(&bytes, 0).unwrap();
    assert_eq!(end, bytes.len());
    back
}

#[test]
fn var_int_forms() {
    assert_eq!(var_bytes(0), vec![0]);
    assert_eq!(var_bytes(127), vec![0x7f]);
    assert_eq!(var_bytes(128), vec![0x80, 0x80]);
    assert_eq!(var_bytes(-1), vec![0xa0, 0x01]);
    assert_eq!(var_bytes(8191), vec![0x9f, 0xff]);
    assert_eq!(var_bytes(8192), vec![0xc0, 0x00, 0x20, 0x00]);
    assert_eq!(var_bytes(-0x1fff_ffff), vec![0xff, 0xff, 0xff, 0xff]);
    for v in [0i64, 1, 127, 128, -1, -128, 8191, -8191, 8192, -8192, 0x1fff_ffff, -0x1fff_ffff] {
        let b = var_bytes(v);
        assert_eq!(read_var(&b, 0), Some((v, b.len())));
    }
    assert_eq!(read_var(&[0x80], 0), None);
    assert_eq!(read_var(&[0xc0, 1, 2], 0), None);
    assert_eq!(read_var(&[], 0), None);
}

#[test]
fn instruction_layout() {
    let mut bytes = Vec::new();
    encode(&Opcode::Add { dst: Reg(3), a: Reg(1), b: Reg(2) }, &mut bytes);
    assert_eq!(bytes, vec![7, 3, 1, 2]);
    let mut bytes = Vec::new();
    encode(&Opcode::JAlways { offset: -3 }, &mut bytes);
    assert_eq!(bytes, vec![58, 0xa0, 0x03]);
    let mut bytes = Vec::new();
    encode(&Opcode::CallN { dst: Reg(0), fun: RefFun(300), args: vec![Reg(1), Reg(2)] }, &mut bytes);
    assert_eq!(bytes, vec![29, 0, 0x81, 0x2c, 2, 1, 2]);
}

#[test]
fn opcode_round_trips() {
    assert!(matches!(round_trip(Opcode::Mov { dst: Reg(1), src: Reg(2) }), Opcode::Mov { dst: Reg(1), src: Reg(2) }));
    assert!(matches!(round_trip(Opcode::Int { dst: Reg(4), ptr: RefInt(9000) }), Opcode::Int { dst: Reg(4), ptr: RefInt(9000) }));
    assert!(matches!(round_trip(Opcode::Bool { dst: Reg(0), value: ValBool(true) }), Opcode::Bool { dst: Reg(0), value: ValBool(true) }));
    assert!(matches!(round_trip(Opcode::String { dst: Reg(0), ptr: RefString(5) }), Opcode::String { dst: Reg(0), ptr: RefString(5) }));
    assert!(matches!(round_trip(Opcode::JSLt { a: Reg(1), b: Reg(2), offset: -100 }), Opcode::JSLt { a: Reg(1), b: Reg(2), offset: -100 }));
    assert!(matches!(round_trip(Opcode::Nop), Opcode::Nop));
    assert!(matches!(round_trip(Opcode::Label), Opcode::Label));
    match round_trip(Opcode::Switch { reg: Reg(0), offsets: vec![2, 4, -7], end: 6 }) {
        Opcode::Switch { reg, offsets, end } => {
            assert_eq!(reg, Reg(0));
            assert_eq!(offsets, vec![2, 4, -7]);
            assert_eq!(end, 6);
        }
        _ => panic!("wrong variant"),
    }
    match round_trip(Opcode::MakeEnum { dst: Reg(1), construct: 2, args: vec![Reg(3), Reg(4)] }) {
        Opcode::MakeEnum { dst, construct, args } => {
            assert_eq!(dst, Reg(1));
            assert_eq!(construct, 2);
            assert_eq!(args, vec![Reg(3), Reg(4)]);
        }
        _ => panic!("wrong variant"),
    }
    match round_trip(Opcode::EnumField { dst: Reg(1), enum_: Reg(2), construct: 3, field: RefField(4) }) {
        Opcode::EnumField { dst, enum_, construct, field } => {
            assert_eq!((dst, enum_, construct, field), (Reg(1), Reg(2), 3, RefField(4)));
        }
        _ => panic!("wrong variant"),
    }
}

#[test]
fn function_round_trip() {
    let ops = vec![
        Opcode::Int { dst: Reg(1), ptr: RefInt(0) },
        Opcode::Int { dst: Reg(2), ptr: RefInt(1) },
        Opcode::Add { dst: Reg(3), a: Reg(1), b: Reg(2) },
        Opcode::CallClosure { dst: Reg(4), fun: Reg(3), args: vec![] },
        Opcode::Ret { ret: Reg(3) },
    ];
    let bytes = encode_function(&ops);
    let (back, end) = decode_function(&bytes, 0, ops.len()).unwrap();
    assert_eq!(end, bytes.len());
    assert_eq!(format!("{:?}", back), format!("{:?}", ops));
}

#[test]
fn decode_errors() {
    assert_eq!(decode(&[], 0).unwrap_err(), DecodeError::Truncated);
    assert_eq!(decode(&[200], 0).unwrap_err(), DecodeError::UnknownOpcode(200));
    assert_eq!(decode(&[99], 0).unwrap_err(), DecodeError::UnknownOpcode(99));
    assert_eq!(decode(&[7, 3, 1], 0).unwrap_err(), DecodeError::Truncated);
    // A negative register.
    assert_eq!(decode(&[0, 0xa0, 0x01, 0], 0).unwrap_err(), DecodeError::BadReference(-1));
    // A boolean operand other than 0 or 1.
    assert_eq!(decode(&[3, 0, 2], 0).unwrap_err(), DecodeError::BadReference(2));
    assert_eq!(decode_function(&[0, 1, 2, 98], 0, 3).unwrap_err(), DecodeError::Truncated);
}

#[test]
fn shapes_declare_operands() {
    assert_eq!(shape_of(0), Some(vec![OperandKind::Reg, OperandKind::Reg]));
    assert_eq!(shape_of(1), Some(vec![OperandKind::Reg, OperandKind::Index]));
    assert_eq!(shape_of(3), Some(vec![OperandKind::Reg, OperandKind::Flag]));
    assert_eq!(shape_of(70), Some(vec![OperandKind::Reg, OperandKind::OffsetList, OperandKind::Offset]));
    assert_eq!(shape_of(98), Some(vec![]));
    assert_eq!(shape_of(99), None);
}

#[test]
fn opcode_names() {
    assert_eq!(Opcode::Mov { dst: Reg(0), src: Reg(1) }.name(), "Mov");
    assert_eq!(Opcode::JAlways { offset: 1 }.name(), "JAlways");
    assert_eq!(Opcode::Nop.name(), "Nop");
    assert_eq!(Opcode::RefOffset { dst: Reg(0), reg: Reg(1), offset: 2 }.name(), "RefOffset");
}
