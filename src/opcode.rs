//! The instruction set of the virtual machine.

use vstd::prelude::*;
use crate::types::{
    RefBytes, RefField, RefFloat, RefFun, RefGlobal, RefInt, RefString, RefType, Reg, ValBool,
};

verus! {

/// A signed jump offset, relative to the instruction after the branch.
pub type JumpOffset = i32;

/// One decoded instruction.
#[derive(Clone, Debug)]
pub enum Opcode {
    Mov {
        dst: Reg,
        src: Reg,
    },
    Int {
        dst: Reg,
        ptr: RefInt,
    },
    Float {
        dst: Reg,
        ptr: RefFloat,
    },
    Bool {
        dst: Reg,
        value: ValBool,
    },
    Bytes {
        dst: Reg,
        ptr: RefBytes,
    },
    String {
        dst: Reg,
        ptr: RefString,
    },
    Null {
        dst: Reg,
    },
    Add {
        dst: Reg,
        a: Reg,
        b: Reg,
    },
    Sub {
        dst: Reg,
        a: Reg,
        b: Reg,
    },
    Mul {
        dst: Reg,
        a: Reg,
        b: Reg,
    },
    SDiv {
        dst: Reg,
        a: Reg,
        b: Reg,
    },
    UDiv {
        dst: Reg,
        a: Reg,
        b: Reg,
    },
    SMod {
        dst: Reg,
        a: Reg,
        b: Reg,
    },
    UMod {
        dst: Reg,
        a: Reg,
        b: Reg,
    },
    Shl {
        dst: Reg,
        a: Reg,
        b: Reg,
    },
    SShr {
        dst: Reg,
        a: Reg,
        b: Reg,
    },
    UShr {
        dst: Reg,
        a: Reg,
        b: Reg,
    },
    And {
        dst: Reg,
        a: Reg,
        b: Reg,
    },
    Or {
        dst: Reg,
        a: Reg,
        b: Reg,
    },
    Xor {
        dst: Reg,
        a: Reg,
        b: Reg,
    },
    Neg {
        dst: Reg,
        src: Reg,
    },
    Not {
        dst: Reg,
        src: Reg,
    },
    Incr {
        dst: Reg,
    },
    Decr {
        dst: Reg,
    },
    Call0 {
        dst: Reg,
        fun: RefFun,
    },
    Call1 {
        dst: Reg,
        fun: RefFun,
        arg0: Reg,
    },
    Call2 {
        dst: Reg,
        fun: RefFun,
        arg0: Reg,
        arg1: Reg,
    },
    Call3 {
        dst: Reg,
        fun: RefFun,
        arg0: Reg,
        arg1: Reg,
        arg2: Reg,
    },
    Call4 {
        dst: Reg,
        fun: RefFun,
        arg0: Reg,
        arg1: Reg,
        arg2: Reg,
        arg3: Reg,
    },
    CallN {
        dst: Reg,
        fun: RefFun,
        args: Vec<Reg>,
    },
    CallMethod {
        dst: Reg,
        obj: Reg,
        field: Reg,
        args: Vec<Reg>,
    },
    CallThis {
        dst: Reg,
        field: Reg,
        args: Vec<Reg>,
    },
    CallClosure {
        dst: Reg,
        fun: Reg,
        args: Vec<Reg>,
    },
    StaticClosure {
        dst: Reg,
        fun: RefFun,
    },
    InstanceClosure {
        dst: Reg,
        fun: RefFun,
        obj: Reg,
    },
    VirtualClosure {
        dst: Reg,
        obj: Reg,
        field: Reg,
    },
    GetGlobal {
        dst: Reg,
        global: RefGlobal,
    },
    SetGlobal {
        global: RefGlobal,
        src: Reg,
    },
    Field {
        dst: Reg,
        obj: Reg,
        field: RefField,
    },
    SetField {
        obj: Reg,
        field: RefField,
        src: Reg,
    },
    GetThis {
        dst: Reg,
        field: RefField,
    },
    SetThis {
        field: RefField,
        src: Reg,
    },
    DynGet {
        dst: Reg,
        obj: Reg,
        field: Reg,
    },
    DynSet {
        obj: Reg,
        field: Reg,
        src: Reg,
    },
    JTrue {
        cond: Reg,
        offset: JumpOffset,
    },
    JFalse {
        cond: Reg,
        offset: JumpOffset,
    },
    JNull {
        reg: Reg,
        offset: JumpOffset,
    },
    JNotNull {
        reg: Reg,
        offset: JumpOffset,
    },
    JSLt {
        a: Reg,
        b: Reg,
        offset: JumpOffset,
    },
    JSGte {
        a: Reg,
        b: Reg,
        offset: JumpOffset,
    },
    JSGt {
        a: Reg,
        b: Reg,
        offset: JumpOffset,
    },
    JSLte {
        a: Reg,
        b: Reg,
        offset: JumpOffset,
    },
    JULt {
        a: Reg,
        b: Reg,
        offset: JumpOffset,
    },
    JUGte {
        a: Reg,
        b: Reg,
        offset: JumpOffset,
    },
    JNotLt {
        a: Reg,
        b: Reg,
        offset: JumpOffset,
    },
    JNotGte {
        a: Reg,
        b: Reg,
        offset: JumpOffset,
    },
    JEq {
        a: Reg,
        b: Reg,
        offset: JumpOffset,
    },
    JNotEq {
        a: Reg,
        b: Reg,
        offset: JumpOffset,
    },
    JAlways {
        offset: JumpOffset,
    },
    ToDyn {
        dst: Reg,
        src: Reg,
    },
    ToSFloat {
        dst: Reg,
        src: Reg,
    },
    ToUFloat {
        dst: Reg,
        src: Reg,
    },
    ToInt {
        dst: Reg,
        src: Reg,
    },
    SafeCast {
        dst: Reg,
        src: Reg,
    },
    UnsafeCast {
        dst: Reg,
        src: Reg,
    },
    ToVirtual {
        dst: Reg,
        src: Reg,
    },
    Label,
    Ret {
        ret: Reg,
    },
    Throw {
        exc: Reg,
    },
    Rethrow {
        exc: Reg,
    },
    Switch {
        reg: Reg,
        offsets: Vec<JumpOffset>,
        end: JumpOffset,
    },
    NullCheck {
        reg: Reg,
    },
    Trap {
        exc: Reg,
        offset: JumpOffset,
    },
    EndTrap {
        exc: Reg,
    },
    GetI8 {
        dst: Reg,
        bytes: Reg,
        index: Reg,
    },
    GetI16 {
        dst: Reg,
        bytes: Reg,
        index: Reg,
    },
    GetMem {
        dst: Reg,
        bytes: Reg,
        index: Reg,
    },
    GetArray {
        dst: Reg,
        array: Reg,
        index: Reg,
    },
    SetI8 {
        bytes: Reg,
        index: Reg,
        src: Reg,
    },
    SetI16 {
        bytes: Reg,
        index: Reg,
        src: Reg,
    },
    SetMem {
        bytes: Reg,
        index: Reg,
        src: Reg,
    },
    SetArray {
        array: Reg,
        index: Reg,
        src: Reg,
    },
    New {
        dst: Reg,
    },
    ArraySize {
        dst: Reg,
        array: Reg,
    },
    Type {
        dst: Reg,
        ty: RefType,
    },
    GetType {
        dst: Reg,
        src: Reg,
    },
    GetTID {
        dst: Reg,
        src: Reg,
    },
    Ref {
        dst: Reg,
        src: Reg,
    },
    Unref {
        dst: Reg,
        src: Reg,
    },
    Setref {
        dst: Reg,
        value: Reg,
    },
    MakeEnum {
        dst: Reg,
        construct: usize,
        args: Vec<Reg>,
    },
    EnumAlloc {
        dst: Reg,
        construct: usize,
    },
    EnumIndex {
        dst: Reg,
        construct: Reg,
    },
    EnumField {
        dst: Reg,
        enum_: Reg,
        construct: usize,
        field: RefField,
    },
    SetEnumField {
        enum_: Reg,
        field: RefField,
        src: Reg,
    },
    Assert,
    RefData {
        dst: Reg,
        src: Reg,
    },
    RefOffset {
        dst: Reg,
        reg: Reg,
        offset: usize,
    },
    Nop,
}


/// The name of an instruction's variant.
pub open spec fn opcode_name(op: Opcode) -> Seq<char> {
    match op {
        Opcode::Mov { .. } => "Mov"@,
        Opcode::Int { .. } => "Int"@,
        Opcode::Float { .. } => "Float"@,
        Opcode::Bool { .. } => "Bool"@,
        Opcode::Bytes { .. } => "Bytes"@,
        Opcode::String { .. } => "String"@,
        Opcode::Null { .. } => "Null"@,
        Opcode::Add { .. } => "Add"@,
        Opcode::Sub { .. } => "Sub"@,
        Opcode::Mul { .. } => "Mul"@,
        Opcode::SDiv { .. } => "SDiv"@,
        Opcode::UDiv { .. } => "UDiv"@,
        Opcode::SMod { .. } => "SMod"@,
        Opcode::UMod { .. } => "UMod"@,
        Opcode::Shl { .. } => "Shl"@,
        Opcode::SShr { .. } => "SShr"@,
        Opcode::UShr { .. } => "UShr"@,
        Opcode::And { .. } => "And"@,
        Opcode::Or { .. } => "Or"@,
        Opcode::Xor { .. } => "Xor"@,
        Opcode::Neg { .. } => "Neg"@,
        Opcode::Not { .. } => "Not"@,
        Opcode::Incr { .. } => "Incr"@,
        Opcode::Decr { .. } => "Decr"@,
        Opcode::Call0 { .. } => "Call0"@,
        Opcode::Call1 { .. } => "Call1"@,
        Opcode::Call2 { .. } => "Call2"@,
        Opcode::Call3 { .. } => "Call3"@,
        Opcode::Call4 { .. } => "Call4"@,
        Opcode::CallN { .. } => "CallN"@,
        Opcode::CallMethod { .. } => "CallMethod"@,
        Opcode::CallThis { .. } => "CallThis"@,
        Opcode::CallClosure { .. } => "CallClosure"@,
        Opcode::StaticClosure { .. } => "StaticClosure"@,
        Opcode::InstanceClosure { .. } => "InstanceClosure"@,
        Opcode::VirtualClosure { .. } => "VirtualClosure"@,
        Opcode::GetGlobal { .. } => "GetGlobal"@,
        Opcode::SetGlobal { .. } => "SetGlobal"@,
        Opcode::Field { .. } => "Field"@,
        Opcode::SetField { .. } => "SetField"@,
        Opcode::GetThis { .. } => "GetThis"@,
        Opcode::SetThis { .. } => "SetThis"@,
        Opcode::DynGet { .. } => "DynGet"@,
        Opcode::DynSet { .. } => "DynSet"@,
        Opcode::JTrue { .. } => "JTrue"@,
        Opcode::JFalse { .. } => "JFalse"@,
        Opcode::JNull { .. } => "JNull"@,
        Opcode::JNotNull { .. } => "JNotNull"@,
        Opcode::JSLt { .. } => "JSLt"@,
        Opcode::JSGte { .. } => "JSGte"@,
        Opcode::JSGt { .. } => "JSGt"@,
        Opcode::JSLte { .. } => "JSLte"@,
        Opcode::JULt { .. } => "JULt"@,
        Opcode::JUGte { .. } => "JUGte"@,
        Opcode::JNotLt { .. } => "JNotLt"@,
        Opcode::JNotGte { .. } => "JNotGte"@,
        Opcode::JEq { .. } => "JEq"@,
        Opcode::JNotEq { .. } => "JNotEq"@,
        Opcode::JAlways { .. } => "JAlways"@,
        Opcode::ToDyn { .. } => "ToDyn"@,
        Opcode::ToSFloat { .. } => "ToSFloat"@,
        Opcode::ToUFloat { .. } => "ToUFloat"@,
        Opcode::ToInt { .. } => "ToInt"@,
        Opcode::SafeCast { .. } => "SafeCast"@,
        Opcode::UnsafeCast { .. } => "UnsafeCast"@,
        Opcode::ToVirtual { .. } => "ToVirtual"@,
        Opcode::Label { .. } => "Label"@,
        Opcode::Ret { .. } => "Ret"@,
        Opcode::Throw { .. } => "Throw"@,
        Opcode::Rethrow { .. } => "Rethrow"@,
        Opcode::Switch { .. } => "Switch"@,
        Opcode::NullCheck { .. } => "NullCheck"@,
        Opcode::Trap { .. } => "Trap"@,
        Opcode::EndTrap { .. } => "EndTrap"@,
        Opcode::GetI8 { .. } => "GetI8"@,
        Opcode::GetI16 { .. } => "GetI16"@,
        Opcode::GetMem { .. } => "GetMem"@,
        Opcode::GetArray { .. } => "GetArray"@,
        Opcode::SetI8 { .. } => "SetI8"@,
        Opcode::SetI16 { .. } => "SetI16"@,
        Opcode::SetMem { .. } => "SetMem"@,
        Opcode::SetArray { .. } => "SetArray"@,
        Opcode::New { .. } => "New"@,
        Opcode::ArraySize { .. } => "ArraySize"@,
        Opcode::Type { .. } => "Type"@,
        Opcode::GetType { .. } => "GetType"@,
        Opcode::GetTID { .. } => "GetTID"@,
        Opcode::Ref { .. } => "Ref"@,
        Opcode::Unref { .. } => "Unref"@,
        Opcode::Setref { .. } => "Setref"@,
        Opcode::MakeEnum { .. } => "MakeEnum"@,
        Opcode::EnumAlloc { .. } => "EnumAlloc"@,
        Opcode::EnumIndex { .. } => "EnumIndex"@,
        Opcode::EnumField { .. } => "EnumField"@,
        Opcode::SetEnumField { .. } => "SetEnumField"@,
        Opcode::Assert { .. } => "Assert"@,
        Opcode::RefData { .. } => "RefData"@,
        Opcode::RefOffset { .. } => "RefOffset"@,
        Opcode::Nop { .. } => "Nop"@,
    }
}

impl Opcode {
    /// The name of the instruction's variant.
    pub fn name(&self) -> (r: &'static str)
        ensures
            r@ == opcode_name(*self),
    {
        match self {
            Opcode::Mov { .. } => "Mov",
            Opcode::Int { .. } => "Int",
            Opcode::Float { .. } => "Float",
            Opcode::Bool { .. } => "Bool",
            Opcode::Bytes { .. } => "Bytes",
            Opcode::String { .. } => "String",
            Opcode::Null { .. } => "Null",
            Opcode::Add { .. } => "Add",
            Opcode::Sub { .. } => "Sub",
            Opcode::Mul { .. } => "Mul",
            Opcode::SDiv { .. } => "SDiv",
            Opcode::UDiv { .. } => "UDiv",
            Opcode::SMod { .. } => "SMod",
            Opcode::UMod { .. } => "UMod",
            Opcode::Shl { .. } => "Shl",
            Opcode::SShr { .. } => "SShr",
            Opcode::UShr { .. } => "UShr",
            Opcode::And { .. } => "And",
            Opcode::Or { .. } => "Or",
            Opcode::Xor { .. } => "Xor",
            Opcode::Neg { .. } => "Neg",
            Opcode::Not { .. } => "Not",
            Opcode::Incr { .. } => "Incr",
            Opcode::Decr { .. } => "Decr",
            Opcode::Call0 { .. } => "Call0",
            Opcode::Call1 { .. } => "Call1",
            Opcode::Call2 { .. } => "Call2",
            Opcode::Call3 { .. } => "Call3",
            Opcode::Call4 { .. } => "Call4",
            Opcode::CallN { .. } => "CallN",
            Opcode::CallMethod { .. } => "CallMethod",
            Opcode::CallThis { .. } => "CallThis",
            Opcode::CallClosure { .. } => "CallClosure",
            Opcode::StaticClosure { .. } => "StaticClosure",
            Opcode::InstanceClosure { .. } => "InstanceClosure",
            Opcode::VirtualClosure { .. } => "VirtualClosure",
            Opcode::GetGlobal { .. } => "GetGlobal",
            Opcode::SetGlobal { .. } => "SetGlobal",
            Opcode::Field { .. } => "Field",
            Opcode::SetField { .. } => "SetField",
            Opcode::GetThis { .. } => "GetThis",
            Opcode::SetThis { .. } => "SetThis",
            Opcode::DynGet { .. } => "DynGet",
            Opcode::DynSet { .. } => "DynSet",
            Opcode::JTrue { .. } => "JTrue",
            Opcode::JFalse { .. } => "JFalse",
            Opcode::JNull { .. } => "JNull",
            Opcode::JNotNull { .. } => "JNotNull",
            Opcode::JSLt { .. } => "JSLt",
            Opcode::JSGte { .. } => "JSGte",
            Opcode::JSGt { .. } => "JSGt",
            Opcode::JSLte { .. } => "JSLte",
            Opcode::JULt { .. } => "JULt",
            Opcode::JUGte { .. } => "JUGte",
            Opcode::JNotLt { .. } => "JNotLt",
            Opcode::JNotGte { .. } => "JNotGte",
            Opcode::JEq { .. } => "JEq",
            Opcode::JNotEq { .. } => "JNotEq",
            Opcode::JAlways { .. } => "JAlways",
            Opcode::ToDyn { .. } => "ToDyn",
            Opcode::ToSFloat { .. } => "ToSFloat",
            Opcode::ToUFloat { .. } => "ToUFloat",
            Opcode::ToInt { .. } => "ToInt",
            Opcode::SafeCast { .. } => "SafeCast",
            Opcode::UnsafeCast { .. } => "UnsafeCast",
            Opcode::ToVirtual { .. } => "ToVirtual",
            Opcode::Label { .. } => "Label",
            Opcode::Ret { .. } => "Ret",
            Opcode::Throw { .. } => "Throw",
            Opcode::Rethrow { .. } => "Rethrow",
            Opcode::Switch { .. } => "Switch",
            Opcode::NullCheck { .. } => "NullCheck",
            Opcode::Trap { .. } => "Trap",
            Opcode::EndTrap { .. } => "EndTrap",
            Opcode::GetI8 { .. } => "GetI8",
            Opcode::GetI16 { .. } => "GetI16",
            Opcode::GetMem { .. } => "GetMem",
            Opcode::GetArray { .. } => "GetArray",
            Opcode::SetI8 { .. } => "SetI8",
            Opcode::SetI16 { .. } => "SetI16",
            Opcode::SetMem { .. } => "SetMem",
            Opcode::SetArray { .. } => "SetArray",
            Opcode::New { .. } => "New",
            Opcode::ArraySize { .. } => "ArraySize",
            Opcode::Type { .. } => "Type",
            Opcode::GetType { .. } => "GetType",
            Opcode::GetTID { .. } => "GetTID",
            Opcode::Ref { .. } => "Ref",
            Opcode::Unref { .. } => "Unref",
            Opcode::Setref { .. } => "Setref",
            Opcode::MakeEnum { .. } => "MakeEnum",
            Opcode::EnumAlloc { .. } => "EnumAlloc",
            Opcode::EnumIndex { .. } => "EnumIndex",
            Opcode::EnumField { .. } => "EnumField",
            Opcode::SetEnumField { .. } => "SetEnumField",
            Opcode::Assert { .. } => "Assert",
            Opcode::RefData { .. } => "RefData",
            Opcode::RefOffset { .. } => "RefOffset",
            Opcode::Nop { .. } => "Nop",
        }
    }
}

} // verus!
