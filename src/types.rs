//! Pool references, the type table's entries and the module that owns every table.

use vstd::prelude::*;
use crate::opcode::Opcode;

verus! {

/// A register of a function, indexed from 0.
#[derive(Clone, Copy, Debug, PartialEq, Eq, Structural)]
pub struct Reg(pub u32);

/// An index into the integer pool.
#[derive(Clone, Copy, Debug, PartialEq, Eq, Structural)]
pub struct RefInt(pub usize);

/// An index into the float pool.
#[derive(Clone, Copy, Debug, PartialEq, Eq, Structural)]
pub struct RefFloat(pub usize);

/// An index into the byte-buffer pool.
#[derive(Clone, Copy, Debug, PartialEq, Eq, Structural)]
pub struct RefBytes(pub usize);

/// An index into the string pool.
#[derive(Clone, Copy, Debug, PartialEq, Eq, Structural)]
pub struct RefString(pub usize);

/// An index into the type table.
#[derive(Clone, Copy, Debug, PartialEq, Eq, Structural)]
pub struct RefType(pub usize);

/// The position of a field inside an object or structural type.
#[derive(Clone, Copy, Debug, PartialEq, Eq, Structural)]
pub struct RefField(pub usize);

/// An index into the global table.
#[derive(Clone, Copy, Debug, PartialEq, Eq, Structural)]
pub struct RefGlobal(pub usize);

/// An index into the function table.
#[derive(Clone, Copy, Debug, PartialEq, Eq, Structural)]
pub struct RefFun(pub usize);

/// A boolean operand stored inline in an instruction.
#[derive(Clone, Copy, Debug, PartialEq, Eq, Structural)]
pub struct ValBool(pub bool);

/// A named, typed field of an object or structural type.
#[derive(Clone, Debug)]
pub struct ObjField {
    pub name: RefString,
    pub t: RefType,
}

/// A function signature.
#[derive(Clone, Debug)]
pub struct TypeFun {
    pub args: Vec<RefType>,
    pub ret: RefType,
}

/// A method of a class type: its name and the function that implements it.
#[derive(Clone, Debug)]
pub struct ObjProto {
    pub name: RefString,
    pub findex: RefFun,
}

/// A field of a class bound to a function: a method that each instance may rebind.
#[derive(Clone, Debug)]
pub struct ObjBinding {
    pub field: RefField,
    pub findex: RefFun,
}

/// A class type: its name, its parent, its own fields, its methods, its rebindable
/// methods, and the class type that holds its static fields and static methods.
#[derive(Clone, Debug)]
pub struct TypeObj {
    pub name: RefString,
    pub super_: Option<RefType>,
    pub fields: Vec<ObjField>,
    pub protos: Vec<ObjProto>,
    pub bindings: Vec<ObjBinding>,
    pub statics: Option<RefType>,
}

/// One constructor of an enum type.
#[derive(Clone, Debug)]
pub struct EnumConstruct {
    pub name: RefString,
    pub params: Vec<RefType>,
}

/// An entry of the type table.
#[derive(Clone, Debug)]
pub enum Type {
    Void,
    U8,
    U16,
    I32,
    I64,
    F32,
    F64,
    Bool,
    Bytes,
    Dyn,
    Fun(TypeFun),
    Obj(TypeObj),
    Array,
    TypeType,
    Ref(RefType),
    Virtual { fields: Vec<ObjField> },
    DynObj,
    Abstract { name: RefString },
    Enum { name: RefString, constructs: Vec<EnumConstruct> },
    Null(RefType),
}

/// A function body: its signature type, its registers and its instructions.
#[derive(Clone, Debug)]
pub struct Function {
    /// The signature, an index of a `Type::Fun` entry.
    pub t: RefType,
    /// The function's name, when the module records one.
    pub name: Option<RefString>,
    /// The type of each register.
    pub regs: Vec<RefType>,
    /// The instruction stream.
    pub ops: Vec<Opcode>,
    /// Debug names of the registers, by register; the arguments are the first registers.
    pub reg_names: Vec<Option<RefString>>,
}

/// A loaded bytecode module: its pools and tables, read-only once built.
///
/// Float constants are held as the decimal text the loader gave them.
#[derive(Clone, Debug)]
pub struct Bytecode {
    pub ints: Vec<i32>,
    pub floats: Vec<String>,
    pub strings: Vec<String>,
    pub bytes: Vec<Vec<u8>>,
    pub types: Vec<Type>,
    pub globals: Vec<RefType>,
    pub functions: Vec<Function>,
}

} // verus!
