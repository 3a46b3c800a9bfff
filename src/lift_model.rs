//! The lifter's model: what the count pass computes and what lifting a straight-line
//! instruction stream produces, stated instruction by instruction.

use vstd::prelude::*;
use crate::opcode::Opcode;
use crate::ast::{Constant, Expr, Operation, Statement};
use crate::types::{Bytecode, Function, RefString, Reg, Type};

verus! {

/// What the count pass keeps: the read count of the value each instruction produces, and
/// for each register the instruction that last gave it a value.
pub struct CountView {
    pub reads: Seq<u8>,
    pub last_def: Seq<Option<usize>>,
}

/// One read of register `r`, weighing `k`, credited to the value it last received.
pub open spec fn note_v(c: CountView, r: Reg, k: u8) -> CountView {
    if (r.0 as int) < c.last_def.len() && c.last_def[r.0 as int] is Some && (c.last_def[r.0 as int]->0 as int)
        < c.reads.len() {
        let d = c.last_def[r.0 as int]->0 as int;
        let t = c.reads[d] + k;
        CountView { reads: c.reads.update(d, if t >= 2 { 2u8 } else { t as u8 }), last_def: c.last_def }
    } else {
        c
    }
}

/// One read of each register of `regs`, in order.
pub open spec fn note_list_v(c: CountView, regs: Seq<Reg>) -> CountView
    decreases regs.len(),
{
    if regs.len() == 0 {
        c
    } else {
        note_v(note_list_v(c, regs.drop_last()), regs.last(), 1)
    }
}

/// The reads that an instruction makes, credited in operand order.
pub open spec fn count_notes_v(c: CountView, op: Opcode) -> CountView {
    match op {
        Opcode::Add { a, b, .. } => note_v(note_v(c, a, 1), b, 1),
        Opcode::Sub { a, b, .. } => note_v(note_v(c, a, 1), b, 1),
        Opcode::Mul { a, b, .. } => note_v(note_v(c, a, 1), b, 1),
        Opcode::SDiv { a, b, .. } => note_v(note_v(c, a, 1), b, 1),
        Opcode::UDiv { a, b, .. } => note_v(note_v(c, a, 1), b, 1),
        Opcode::SMod { a, b, .. } => note_v(note_v(c, a, 1), b, 1),
        Opcode::UMod { a, b, .. } => note_v(note_v(c, a, 1), b, 1),
        Opcode::Shl { a, b, .. } => note_v(note_v(c, a, 1), b, 1),
        Opcode::SShr { a, b, .. } => note_v(note_v(c, a, 1), b, 1),
        Opcode::UShr { a, b, .. } => note_v(note_v(c, a, 1), b, 1),
        Opcode::And { a, b, .. } => note_v(note_v(c, a, 1), b, 1),
        Opcode::Or { a, b, .. } => note_v(note_v(c, a, 1), b, 1),
        Opcode::Xor { a, b, .. } => note_v(note_v(c, a, 1), b, 1),
        Opcode::JSLt { a, b, .. } => note_v(note_v(c, a, 1), b, 1),
        Opcode::JSGte { a, b, .. } => note_v(note_v(c, a, 1), b, 1),
        Opcode::JSGt { a, b, .. } => note_v(note_v(c, a, 1), b, 1),
        Opcode::JSLte { a, b, .. } => note_v(note_v(c, a, 1), b, 1),
        Opcode::JULt { a, b, .. } => note_v(note_v(c, a, 1), b, 1),
        Opcode::JUGte { a, b, .. } => note_v(note_v(c, a, 1), b, 1),
        Opcode::JNotLt { a, b, .. } => note_v(note_v(c, a, 1), b, 1),
        Opcode::JNotGte { a, b, .. } => note_v(note_v(c, a, 1), b, 1),
        Opcode::JEq { a, b, .. } => note_v(note_v(c, a, 1), b, 1),
        Opcode::JNotEq { a, b, .. } => note_v(note_v(c, a, 1), b, 1),
        Opcode::ToDyn { src, .. } => note_v(c, src, 1),
        Opcode::ToSFloat { src, .. } => note_v(c, src, 1),
        Opcode::ToUFloat { src, .. } => note_v(c, src, 1),
        Opcode::ToInt { src, .. } => note_v(c, src, 1),
        Opcode::SafeCast { src, .. } => note_v(c, src, 1),
        Opcode::UnsafeCast { src, .. } => note_v(c, src, 1),
        Opcode::ToVirtual { src, .. } => note_v(c, src, 1),
        Opcode::Mov { src, .. } => note_v(c, src, 1),
        Opcode::Neg { src, .. } => note_v(c, src, 1),
        Opcode::Not { src, .. } => note_v(c, src, 1),
        Opcode::Incr { dst } | Opcode::Decr { dst } => note_v(c, dst, 2),
        Opcode::Call1 { arg0, .. } => note_v(c, arg0, 1),
        Opcode::Call2 { arg0, arg1, .. } => note_v(note_v(c, arg0, 1), arg1, 1),
        Opcode::Call3 { arg0, arg1, arg2, .. } => note_v(note_v(note_v(c, arg0, 1), arg1, 1), arg2, 1),
        Opcode::Call4 { arg0, arg1, arg2, arg3, .. } => note_v(note_v(note_v(note_v(c, arg0, 1), arg1, 1), arg2, 1), arg3, 1),
        Opcode::CallN { args, .. } => note_list_v(c, args@),
        Opcode::CallClosure { fun, args, .. } => note_list_v(note_v(c, fun, 1), args@),
        Opcode::Ret { ret } => note_v(c, ret, 1),
        Opcode::Throw { exc } | Opcode::Rethrow { exc } => note_v(c, exc, 1),
        Opcode::JTrue { cond, .. } | Opcode::JFalse { cond, .. } => note_v(c, cond, 1),
        Opcode::JNull { reg, .. } | Opcode::JNotNull { reg, .. } | Opcode::Switch { reg, .. } => note_v(c, reg, 1),
        Opcode::GetArray { array, index, .. } => note_v(note_v(c, array, 1), index, 1),
        Opcode::SetArray { array, index, src } => note_v(note_v(note_v(c, array, 1), index, 1), src, 1),
        Opcode::Field { obj, .. } => note_v(c, obj, 1),
        Opcode::SetField { obj, src, .. } => note_v(note_v(c, obj, 1), src, 1),
        Opcode::SetThis { src, .. } => note_v(c, src, 1),
        Opcode::MakeEnum { args, .. } => note_list_v(c, args@),
        _ => c,
    }
}

/// The register that an instruction gives a value that lifting folds, if any.
pub open spec fn def_of_v(op: Opcode) -> Option<Reg> {
    match op {
        Opcode::Int { dst, .. } | Opcode::Float { dst, .. } | Opcode::Bool { dst, .. } | Opcode::String { dst, .. } | Opcode::Null { dst, .. } | Opcode::ToDyn { dst, .. } | Opcode::ToSFloat { dst, .. } | Opcode::ToUFloat { dst, .. } | Opcode::ToInt { dst, .. } | Opcode::SafeCast { dst, .. } | Opcode::UnsafeCast { dst, .. } | Opcode::ToVirtual { dst, .. } | Opcode::Mov { dst, .. } | Opcode::Add { dst, .. } | Opcode::Sub { dst, .. } | Opcode::Mul { dst, .. } | Opcode::SDiv { dst, .. } | Opcode::UDiv { dst, .. } | Opcode::SMod { dst, .. } | Opcode::UMod { dst, .. } | Opcode::Shl { dst, .. } | Opcode::SShr { dst, .. } | Opcode::UShr { dst, .. } | Opcode::And { dst, .. } | Opcode::Or { dst, .. } | Opcode::Xor { dst, .. } | Opcode::Neg { dst, .. } | Opcode::Not { dst, .. } | Opcode::Call0 { dst, .. } | Opcode::Call1 { dst, .. } | Opcode::Call2 { dst, .. } | Opcode::Call3 { dst, .. } | Opcode::Call4 { dst, .. } | Opcode::CallN { dst, .. } | Opcode::CallClosure { dst, .. } | Opcode::GetArray { dst, .. } | Opcode::Field { dst, .. } | Opcode::GetThis { dst, .. } | Opcode::StaticClosure { dst, .. } | Opcode::MakeEnum { dst, .. } | Opcode::EnumAlloc { dst, .. } | Opcode::New { dst } => Some(dst),
        _ => None,
    }
}

/// The count pass after the instruction at `pc`.
pub open spec fn count_step_v(c: CountView, op: Opcode, pc: usize) -> CountView {
    let c1 = count_notes_v(c, op);
    match def_of_v(op) {
        Some(d) => if (d.0 as int) < c1.last_def.len() {
            CountView { reads: c1.reads, last_def: c1.last_def.update(d.0 as int, Some(pc)) }
        } else {
            c1
        },
        None => c1,
    }
}

/// The count pass over the first `k` instructions of `ops`, for `nregs` registers.
pub open spec fn count_v(ops: Seq<Opcode>, nregs: nat, k: nat) -> CountView
    decreases k,
{
    if k == 0 || k > ops.len() {
        CountView { reads: Seq::new(ops.len(), |i: int| 0u8), last_def: Seq::new(nregs, |i: int| None) }
    } else {
        count_step_v(count_v(ops, nregs, (k - 1) as nat), ops[k - 1], (k - 1) as usize)
    }
}

/// For each instruction of `f` that gives a register a value, how often that value is read
/// before the register is given another, counted up to 2.
pub open spec fn reads_of(f: Function) -> Seq<u8> {
    count_v(f.ops@, f.regs@.len(), f.ops@.len()).reads
}

/// What lifting keeps while it walks a block: the expression waiting to be folded into the
/// next read of each register, whether each register has been declared, and the statements
/// emitted so far.
pub struct LiftView {
    pub pending: Seq<Option<Expr>>,
    pub declared: Seq<bool>,
    pub out: Seq<Statement>,
}

/// The debug name of register `r` of `f`, if it has one.
pub open spec fn reg_name(f: Function, r: int) -> Option<RefString> {
    if 0 <= r < f.reg_names@.len() {
        f.reg_names@[r]
    } else {
        None
    }
}

/// The debug names of the `n` registers of `f`.
pub open spec fn names_of(f: Function, n: nat) -> Seq<Option<RefString>> {
    Seq::new(n, |i: int| reg_name(f, i))
}

/// The variable that stands for register `r`.
pub open spec fn var_v(names: Seq<Option<RefString>>, r: Reg) -> Expr {
    Expr::Variable(r, if (r.0 as int) < names.len() { names[r.0 as int] } else { None })
}

/// The value of register `r` for its reader: the pending expression, or the variable.
pub open spec fn take_e(names: Seq<Option<RefString>>, v: LiftView, r: Reg) -> Expr {
    match v.pending[r.0 as int] {
        Some(e) => e,
        None => var_v(names, r),
    }
}

/// The state once the pending expression of `r` has been read.
pub open spec fn taken_v(v: LiftView, r: Reg) -> LiftView {
    LiftView { pending: v.pending.update(r.0 as int, None), declared: v.declared, out: v.out }
}

/// Emits `r = e`, a declaration the first time.
pub open spec fn assign_v(names: Seq<Option<RefString>>, v: LiftView, r: Reg, e: Expr) -> LiftView {
    LiftView {
        pending: v.pending,
        declared: v.declared.update(r.0 as int, true),
        out: v.out.push(
            Statement::Assign { declaration: !v.declared[r.0 as int], variable: var_v(names, r), assign: e },
        ),
    }
}

pub open spec fn emit_v(v: LiftView, s: Statement) -> LiftView {
    LiftView { pending: v.pending, declared: v.declared, out: v.out.push(s) }
}

/// Materialises the pending expressions of registers `r..n`, in register order, as
/// assignments.
pub open spec fn flush_v(names: Seq<Option<RefString>>, v: LiftView, r: nat, n: nat) -> LiftView
    decreases n - r,
{
    if r >= n {
        v
    } else {
        let v2 = if r <= u32::MAX {
            let v1 = LiftView { pending: v.pending.update(r as int, None), declared: v.declared, out: v.out };
            match v.pending[r as int] {
                Some(e) => assign_v(names, v1, Reg(r as u32), e),
                None => v1,
            }
        } else {
            v
        };
        flush_v(names, v2, r + 1, n)
    }
}

/// Gives register `dst` the value `e` computed by the instruction at `pc`: folded into its
/// only reader; kept as a statement when unread and effectful; assigned otherwise. Anything
/// pending is materialised before a statement is emitted.
pub open spec fn define_v(
    names: Seq<Option<RefString>>,
    reads: Seq<u8>,
    v: LiftView,
    pc: usize,
    dst: Reg,
    e: Expr,
    effectful: bool,
) -> LiftView {
    let uses = if (pc as int) < reads.len() { reads[pc as int] } else { 2u8 };
    if uses == 1 {
        LiftView { pending: v.pending.update(dst.0 as int, Some(e)), declared: v.declared, out: v.out }
    } else if uses == 0 && effectful {
        emit_v(flush_v(names, v, 0, v.pending.len()), Statement::ExprStatement(e))
    } else {
        assign_v(names, flush_v(names, v, 0, v.pending.len()), dst, e)
    }
}

/// Whether register `r` of `f` has the type `Void`.
pub open spec fn void_reg(m: &Bytecode, f: Function, r: Reg) -> bool {
    &&& (r.0 as int) < f.regs@.len()
    &&& (f.regs@[r.0 as int].0 as int) < m.types@.len()
    &&& m.types@[f.regs@[r.0 as int].0 as int] is Void
}

/// The instructions of a straight line that lifting states exactly: constants, moves and
/// casts, arithmetic, negation, increments, returns, throws and the instructions that emit
/// nothing.
pub open spec fn straight_op(op: Opcode) -> bool {
    match op {
        Opcode::Int { .. } | Opcode::Float { .. } | Opcode::Bool { .. } | Opcode::String { .. }
        | Opcode::Null { .. } | Opcode::ToDyn { .. } | Opcode::ToSFloat { .. } | Opcode::ToUFloat { .. } | Opcode::ToInt { .. } | Opcode::SafeCast { .. } | Opcode::UnsafeCast { .. } | Opcode::ToVirtual { .. } | Opcode::Mov { .. } 
        | Opcode::Add { .. } | Opcode::Sub { .. } | Opcode::Mul { .. } | Opcode::SDiv { .. } | Opcode::UDiv { .. } | Opcode::SMod { .. } | Opcode::UMod { .. } | Opcode::Shl { .. } | Opcode::SShr { .. } | Opcode::UShr { .. } | Opcode::And { .. } | Opcode::Or { .. } | Opcode::Xor { .. } 
        | Opcode::Neg { .. } | Opcode::Not { .. } | Opcode::Incr { .. } | Opcode::Decr { .. }
        | Opcode::Ret { .. } | Opcode::Throw { .. } | Opcode::Rethrow { .. } | Opcode::NullCheck { .. }
        | Opcode::Assert | Opcode::Nop | Opcode::Label => true,
        _ => false,
    }
}

/// Whether the registers that a straight-line instruction names are below `n`.
pub open spec fn regs_in(op: Opcode, n: nat) -> bool {
    match op {
        Opcode::Int { dst, .. } | Opcode::Float { dst, .. } | Opcode::Bool { dst, .. }
        | Opcode::String { dst, .. } | Opcode::Null { dst } | Opcode::Incr { dst } | Opcode::Decr { dst } =>
            dst.0 < n,
        Opcode::ToDyn { dst, src } => dst.0 < n && src.0 < n,
        Opcode::ToSFloat { dst, src } => dst.0 < n && src.0 < n,
        Opcode::ToUFloat { dst, src } => dst.0 < n && src.0 < n,
        Opcode::ToInt { dst, src } => dst.0 < n && src.0 < n,
        Opcode::SafeCast { dst, src } => dst.0 < n && src.0 < n,
        Opcode::UnsafeCast { dst, src } => dst.0 < n && src.0 < n,
        Opcode::ToVirtual { dst, src } => dst.0 < n && src.0 < n,
        Opcode::Mov { dst, src } => dst.0 < n && src.0 < n,
        Opcode::Neg { dst, src } => dst.0 < n && src.0 < n,
        Opcode::Not { dst, src } => dst.0 < n && src.0 < n,
        Opcode::Add { dst, a, b } => dst.0 < n && a.0 < n && b.0 < n,
        Opcode::Sub { dst, a, b } => dst.0 < n && a.0 < n && b.0 < n,
        Opcode::Mul { dst, a, b } => dst.0 < n && a.0 < n && b.0 < n,
        Opcode::SDiv { dst, a, b } => dst.0 < n && a.0 < n && b.0 < n,
        Opcode::UDiv { dst, a, b } => dst.0 < n && a.0 < n && b.0 < n,
        Opcode::SMod { dst, a, b } => dst.0 < n && a.0 < n && b.0 < n,
        Opcode::UMod { dst, a, b } => dst.0 < n && a.0 < n && b.0 < n,
        Opcode::Shl { dst, a, b } => dst.0 < n && a.0 < n && b.0 < n,
        Opcode::SShr { dst, a, b } => dst.0 < n && a.0 < n && b.0 < n,
        Opcode::UShr { dst, a, b } => dst.0 < n && a.0 < n && b.0 < n,
        Opcode::And { dst, a, b } => dst.0 < n && a.0 < n && b.0 < n,
        Opcode::Or { dst, a, b } => dst.0 < n && a.0 < n && b.0 < n,
        Opcode::Xor { dst, a, b } => dst.0 < n && a.0 < n && b.0 < n,
        Opcode::Ret { ret } => ret.0 < n,
        Opcode::Throw { exc } | Opcode::Rethrow { exc } => exc.0 < n,
        _ => true,
    }
}

/// Lifting the straight-line instruction `op` at `pc` of `f`.
pub open spec fn step_v(
    m: &Bytecode,
    f: Function,
    names: Seq<Option<RefString>>,
    reads: Seq<u8>,
    v: LiftView,
    op: Opcode,
    pc: usize,
) -> LiftView {
    let n = v.pending.len();
    match op {
        Opcode::Int { dst, ptr } => define_v(names, reads, v, pc, dst, Expr::Constant(Constant::Int(ptr)), false),
        Opcode::Float { dst, ptr } => define_v(names, reads, v, pc, dst, Expr::Constant(Constant::Float(ptr)), false),
        Opcode::Bool { dst, value } => define_v(
            names,
            reads,
            v,
            pc,
            dst,
            Expr::Constant(Constant::Bool(value.0)),
            false,
        ),
        Opcode::String { dst, ptr } => define_v(
            names,
            reads,
            v,
            pc,
            dst,
            Expr::Constant(Constant::String(ptr)),
            false,
        ),
        Opcode::Null { dst } => define_v(names, reads, v, pc, dst, Expr::Constant(Constant::Null), false),
        Opcode::ToDyn { dst, src } => define_v(names, reads, taken_v(v, src), pc, dst, take_e(names, v, src), false),
        Opcode::ToSFloat { dst, src } => define_v(names, reads, taken_v(v, src), pc, dst, take_e(names, v, src), false),
        Opcode::ToUFloat { dst, src } => define_v(names, reads, taken_v(v, src), pc, dst, take_e(names, v, src), false),
        Opcode::ToInt { dst, src } => define_v(names, reads, taken_v(v, src), pc, dst, take_e(names, v, src), false),
        Opcode::SafeCast { dst, src } => define_v(names, reads, taken_v(v, src), pc, dst, take_e(names, v, src), false),
        Opcode::UnsafeCast { dst, src } => define_v(names, reads, taken_v(v, src), pc, dst, take_e(names, v, src), false),
        Opcode::ToVirtual { dst, src } => define_v(names, reads, taken_v(v, src), pc, dst, take_e(names, v, src), false),
        Opcode::Mov { dst, src } => define_v(names, reads, taken_v(v, src), pc, dst, take_e(names, v, src), false),
        Opcode::Add { dst, a, b } => {
            let v1 = taken_v(v, a);
            let e = Expr::Op(Operation::Add(Box::new(take_e(names, v, a)), Box::new(take_e(names, v1, b))));
            define_v(names, reads, taken_v(v1, b), pc, dst, e, false)
        },
        Opcode::Sub { dst, a, b } => {
            let v1 = taken_v(v, a);
            let e = Expr::Op(Operation::Sub(Box::new(take_e(names, v, a)), Box::new(take_e(names, v1, b))));
            define_v(names, reads, taken_v(v1, b), pc, dst, e, false)
        },
        Opcode::Mul { dst, a, b } => {
            let v1 = taken_v(v, a);
            let e = Expr::Op(Operation::Mul(Box::new(take_e(names, v, a)), Box::new(take_e(names, v1, b))));
            define_v(names, reads, taken_v(v1, b), pc, dst, e, false)
        },
        Opcode::SDiv { dst, a, b } => {
            let v1 = taken_v(v, a);
            let e = Expr::Op(Operation::Div(Box::new(take_e(names, v, a)), Box::new(take_e(names, v1, b))));
            define_v(names, reads, taken_v(v1, b), pc, dst, e, false)
        },
        Opcode::UDiv { dst, a, b } => {
            let v1 = taken_v(v, a);
            let e = Expr::Op(Operation::Div(Box::new(take_e(names, v, a)), Box::new(take_e(names, v1, b))));
            define_v(names, reads, taken_v(v1, b), pc, dst, e, false)
        },
        Opcode::SMod { dst, a, b } => {
            let v1 = taken_v(v, a);
            let e = Expr::Op(Operation::Mod(Box::new(take_e(names, v, a)), Box::new(take_e(names, v1, b))));
            define_v(names, reads, taken_v(v1, b), pc, dst, e, false)
        },
        Opcode::UMod { dst, a, b } => {
            let v1 = taken_v(v, a);
            let e = Expr::Op(Operation::Mod(Box::new(take_e(names, v, a)), Box::new(take_e(names, v1, b))));
            define_v(names, reads, taken_v(v1, b), pc, dst, e, false)
        },
        Opcode::Shl { dst, a, b } => {
            let v1 = taken_v(v, a);
            let e = Expr::Op(Operation::Shl(Box::new(take_e(names, v, a)), Box::new(take_e(names, v1, b))));
            define_v(names, reads, taken_v(v1, b), pc, dst, e, false)
        },
        Opcode::SShr { dst, a, b } => {
            let v1 = taken_v(v, a);
            let e = Expr::Op(Operation::Shr(Box::new(take_e(names, v, a)), Box::new(take_e(names, v1, b))));
            define_v(names, reads, taken_v(v1, b), pc, dst, e, false)
        },
        Opcode::UShr { dst, a, b } => {
            let v1 = taken_v(v, a);
            let e = Expr::Op(Operation::Shr(Box::new(take_e(names, v, a)), Box::new(take_e(names, v1, b))));
            define_v(names, reads, taken_v(v1, b), pc, dst, e, false)
        },
        Opcode::And { dst, a, b } => {
            let v1 = taken_v(v, a);
            let e = Expr::Op(Operation::And(Box::new(take_e(names, v, a)), Box::new(take_e(names, v1, b))));
            define_v(names, reads, taken_v(v1, b), pc, dst, e, false)
        },
        Opcode::Or { dst, a, b } => {
            let v1 = taken_v(v, a);
            let e = Expr::Op(Operation::Or(Box::new(take_e(names, v, a)), Box::new(take_e(names, v1, b))));
            define_v(names, reads, taken_v(v1, b), pc, dst, e, false)
        },
        Opcode::Xor { dst, a, b } => {
            let v1 = taken_v(v, a);
            let e = Expr::Op(Operation::Xor(Box::new(take_e(names, v, a)), Box::new(take_e(names, v1, b))));
            define_v(names, reads, taken_v(v1, b), pc, dst, e, false)
        },
        Opcode::Neg { dst, src } => define_v(
            names,
            reads,
            taken_v(v, src),
            pc,
            dst,
            Expr::Op(Operation::Neg(Box::new(take_e(names, v, src)))),
            false,
        ),
        Opcode::Not { dst, src } => define_v(
            names,
            reads,
            taken_v(v, src),
            pc,
            dst,
            Expr::Op(Operation::Not(Box::new(take_e(names, v, src)))),
            false,
        ),
        Opcode::Incr { dst } => emit_v(
            flush_v(names, taken_v(v, dst), 0, n),
            Statement::ExprStatement(Expr::Op(Operation::Incr(Box::new(var_v(names, dst))))),
        ),
        Opcode::Decr { dst } => emit_v(
            flush_v(names, taken_v(v, dst), 0, n),
            Statement::ExprStatement(Expr::Op(Operation::Decr(Box::new(var_v(names, dst))))),
        ),
        Opcode::Ret { ret } => if void_reg(m, f, ret) {
            emit_v(flush_v(names, v, 0, n), Statement::Return(None))
        } else {
            emit_v(flush_v(names, taken_v(v, ret), 0, n), Statement::Return(Some(take_e(names, v, ret))))
        },
        Opcode::Throw { exc } | Opcode::Rethrow { exc } => emit_v(
            flush_v(names, taken_v(v, exc), 0, n),
            Statement::Throw(take_e(names, v, exc)),
        ),
        _ => v,
    }
}

/// Lifting the instructions `start .. k` of `f` from the state `v`.
pub open spec fn run_v(
    m: &Bytecode,
    f: Function,
    names: Seq<Option<RefString>>,
    reads: Seq<u8>,
    v: LiftView,
    start: nat,
    k: nat,
) -> LiftView
    decreases k,
{
    if k <= start || k > f.ops@.len() {
        v
    } else {
        step_v(m, f, names, reads, run_v(m, f, names, reads, v, start, (k - 1) as nat), f.ops@[k - 1], (k - 1) as usize)
    }
}

/// The number of arguments of `f`.
pub open spec fn arg_count_v(m: &Bytecode, f: Function) -> nat {
    if (f.t.0 as int) < m.types@.len() {
        match m.types@[f.t.0 as int] {
            Type::Fun(tf) => tf.args@.len(),
            _ => 0,
        }
    } else {
        0
    }
}

/// The state lifting starts from: nothing pending, the argument registers declared.
pub open spec fn init_v(m: &Bytecode, f: Function) -> LiftView {
    LiftView {
        pending: Seq::new(f.regs@.len(), |i: int| None),
        declared: Seq::new(f.regs@.len(), |i: int| i < arg_count_v(m, f)),
        out: Seq::empty(),
    }
}

/// Whether `f` is a straight line: every instruction is one of `straight_op`.
pub open spec fn is_straight(f: Function) -> bool {
    forall|pc: int| 0 <= pc < f.ops@.len() ==> straight_op(#[trigger] f.ops@[pc])
}

/// Whether every register that the instructions of `f` name is a register of `f`.
pub open spec fn regs_all_in(f: Function) -> bool {
    forall|pc: int| 0 <= pc < f.ops@.len() ==> regs_in(#[trigger] f.ops@[pc], f.regs@.len())
}

/// The statements that lifting a straight line gives: each instruction lifted in turn, then
/// what is still pending materialised.
pub open spec fn lifted(m: &Bytecode, f: Function) -> Seq<Statement> {
    let n = f.regs@.len();
    flush_v(names_of(f, n), run_v(m, f, names_of(f, n), reads_of(f), init_v(m, f), 0, f.ops@.len()), 0, n).out
}

} // verus!
