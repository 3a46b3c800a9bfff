//! Lifting a function's instruction stream into statements.
//!
//! A use-count pass first counts, for each instruction that gives a register a value, how
//! often that value is read before the register is given another. A pure producer whose
//! value is read exactly once is folded into its reader when the reader stands in the same
//! block; any other producer is materialised as an assignment, and its readers see the
//! register as a variable. Jumps are turned into `if`, `while`, `switch` and `try`/`catch`
//! statements over the ranges of instructions they enclose.

use vstd::prelude::*;
use crate::ast::{Constant, Expr, Method, Operation, Statement};
use crate::opcode::Opcode;
use crate::types::{Bytecode, Function, RefField, RefFun, RefString, RefType, Reg, Type};
use crate::lift_model::{
    assign_v, count_v, def_of_v, define_v, emit_v, flush_v, note_list_v, note_v, run_v, step_v,
    straight_op, take_e, taken_v, var_v, void_reg, regs_in, arg_count_v, init_v, is_straight, lifted,
    reg_name, regs_all_in, CountView, LiftView,
};

verus! {

/// Why a function could not be lifted.
#[derive(Debug, PartialEq, Eq, Structural)]
pub enum LiftError {
    /// An instruction names a register that the function does not have.
    RegisterOutOfRange(Reg),
    /// The instruction at this position transfers control in a way that no structured
    /// statement expresses (a jump out of the enclosing constructs, an unmatched trap end).
    MalformedCfg(usize),
    /// The function reference leads nowhere.
    BadFunction(RefFun),
    /// The type reference does not lead to a class type.
    NotAClass(RefType),
}

/// Whether a lifted expression is well formed for a function of `n` registers: every
/// register that a variable names is below `n`, and every block inside it is well formed.
pub open spec fn expr_wf(e: Expr, n: nat) -> bool
    decreases e, 0nat,
{
    match e {
        Expr::Anonymous(_, vals) => values_wf(vals@, n),
        Expr::Array(a, i) => expr_wf(*a, n) && expr_wf(*i, n),
        Expr::Call { fun, args } => expr_wf(*fun, n) && exprs_wf(args@, n),
        Expr::Constant(_) => true,
        Expr::Constructor { ty, args } => exprs_wf(args@, n),
        Expr::Closure(_, stmts) => stmts_wf(stmts@, n),
        Expr::EnumConstr(_, _, args) => exprs_wf(args@, n),
        Expr::Field(r, _) => expr_wf(*r, n),
        Expr::FunRef(_) => true,
        Expr::IfElse { cond, if_, else_ } => expr_wf(*cond, n) && stmts_wf(if_@, n)
            && stmts_wf(else_@, n),
        Expr::Op(op) => op_wf(op, n),
        Expr::Unknown(_) => true,
        Expr::Variable(r, _) => r.0 < n,
    }
}

pub open spec fn op_wf(op: Operation, n: nat) -> bool
    decreases op, 0nat,
{
    match op {
        Operation::Add(a, b) => expr_wf(*a, n) && expr_wf(*b, n),
        Operation::Sub(a, b) => expr_wf(*a, n) && expr_wf(*b, n),
        Operation::Mul(a, b) => expr_wf(*a, n) && expr_wf(*b, n),
        Operation::Div(a, b) => expr_wf(*a, n) && expr_wf(*b, n),
        Operation::Mod(a, b) => expr_wf(*a, n) && expr_wf(*b, n),
        Operation::Shl(a, b) => expr_wf(*a, n) && expr_wf(*b, n),
        Operation::Shr(a, b) => expr_wf(*a, n) && expr_wf(*b, n),
        Operation::And(a, b) => expr_wf(*a, n) && expr_wf(*b, n),
        Operation::Or(a, b) => expr_wf(*a, n) && expr_wf(*b, n),
        Operation::Xor(a, b) => expr_wf(*a, n) && expr_wf(*b, n),
        Operation::Eq(a, b) => expr_wf(*a, n) && expr_wf(*b, n),
        Operation::NotEq(a, b) => expr_wf(*a, n) && expr_wf(*b, n),
        Operation::Gt(a, b) => expr_wf(*a, n) && expr_wf(*b, n),
        Operation::Gte(a, b) => expr_wf(*a, n) && expr_wf(*b, n),
        Operation::Lt(a, b) => expr_wf(*a, n) && expr_wf(*b, n),
        Operation::Lte(a, b) => expr_wf(*a, n) && expr_wf(*b, n),
        Operation::Neg(a) => expr_wf(*a, n),
        Operation::Not(a) => expr_wf(*a, n),
        Operation::Incr(a) => expr_wf(*a, n),
        Operation::Decr(a) => expr_wf(*a, n),
    }
}

/// Whether each expression of `es` is well formed.
pub open spec fn exprs_wf(es: Seq<Expr>, n: nat) -> bool
    decreases es, 0nat,
{
    if es.len() == 0 {
        true
    } else {
        exprs_wf(es.subrange(0, es.len() - 1), n) && expr_wf(es[es.len() - 1], n)
    }
}

pub open spec fn values_wf(vals: Seq<(RefField, Expr)>, n: nat) -> bool
    decreases vals, 0nat,
{
    if vals.len() == 0 {
        true
    } else {
        values_wf(vals.subrange(0, vals.len() - 1), n) && expr_wf(vals[vals.len() - 1].1, n)
    }
}

pub open spec fn cases_wf(cs: Seq<(Expr, Vec<Statement>)>, n: nat) -> bool
    decreases cs, 0nat,
{
    if cs.len() == 0 {
        true
    } else {
        let last = cs[cs.len() - 1];
        cases_wf(cs.subrange(0, cs.len() - 1), n) && expr_wf(last.0, n)
            && stmts_wf(last.1@, n)
    }
}

/// Whether a lifted statement is well formed: its variables name registers below `n`, and
/// its expressions and blocks are well formed.
pub open spec fn stmt_wf(s: Statement, n: nat) -> bool
    decreases s, 0nat,
{
    match s {
        Statement::Assign { declaration, variable, assign } => expr_wf(variable, n)
            && expr_wf(assign, n),
        Statement::ExprStatement(e) => expr_wf(e, n),
        Statement::Return(v) => match v {
            Some(e) => expr_wf(e, n),
            None => true,
        },
        Statement::IfElse { cond, if_, else_ } => expr_wf(cond, n) && stmts_wf(if_@, n)
            && stmts_wf(else_@, n),
        Statement::Switch { arg, default, cases } => expr_wf(arg, n) && stmts_wf(default@, n)
            && cases_wf(cases@, n),
        Statement::While { cond, stmts } => expr_wf(cond, n) && stmts_wf(stmts@, n),
        Statement::Break => true,
        Statement::Continue => true,
        Statement::Comment(_) => true,
        Statement::Throw(e) => expr_wf(e, n),
        Statement::Try { stmts } => stmts_wf(stmts@, n),
        Statement::Catch { stmts } => stmts_wf(stmts@, n),
    }
}

/// Whether a block is well formed: each statement is, and every `Try` statement is
/// followed at once by a `Catch` statement.
pub open spec fn stmts_wf(ss: Seq<Statement>, n: nat) -> bool
    decreases ss, 1nat,
{
    stmts_seq_wf(ss, n) && !(ss.len() > 0 && ss[ss.len() - 1] is Try)
}

/// Whether each statement of `ss` is well formed and each `Try` that has a successor in
/// `ss` is followed by a `Catch`.
pub open spec fn stmts_seq_wf(ss: Seq<Statement>, n: nat) -> bool
    decreases ss, 0nat,
{
    if ss.len() == 0 {
        true
    } else {
        let pre = ss.subrange(0, ss.len() - 1);
        stmts_seq_wf(pre, n) && stmt_wf(ss[ss.len() - 1], n) && (pre.len() > 0 && pre[pre.len() - 1] is Try
            ==> ss[ss.len() - 1] is Catch)
    }
}

proof fn lemma_stmts_push(ss: Seq<Statement>, s: Statement, n: nat)
    requires
        stmts_wf(ss, n),
        stmt_wf(s, n),
        !(s is Try),
    ensures
        stmts_wf(ss.push(s), n),
{
    assert(ss.push(s).subrange(0, ss.len() as int) =~= ss);
}

proof fn lemma_stmts_push_pair(ss: Seq<Statement>, t: Statement, c: Statement, n: nat)
    requires
        stmts_wf(ss, n),
        stmt_wf(t, n),
        stmt_wf(c, n),
        t is Try,
        c is Catch,
    ensures
        stmts_wf(ss.push(t).push(c), n),
{
    assert(ss.push(t).subrange(0, ss.len() as int) =~= ss);
    assert(ss.push(t).push(c).subrange(0, ss.len() as int + 1) =~= ss.push(t));
}

proof fn lemma_cases_push(cs: Seq<(Expr, Vec<Statement>)>, c: (Expr, Vec<Statement>), n: nat)
    ensures
        cases_wf(cs.push(c), n) == (cases_wf(cs, n) && expr_wf(c.0, n)
            && stmts_wf(c.1@, n)),
{
    assert(cs.push(c).subrange(0, cs.len() as int) =~= cs);
}

proof fn lemma_exprs_push(es: Seq<Expr>, e: Expr, n: nat)
    ensures
        exprs_wf(es.push(e), n) == (exprs_wf(es, n) && expr_wf(e, n)),
{
    assert(es.push(e).subrange(0, es.len() as int) =~= es);
}

/// In a well-formed block, every statement is well formed: every variable in it names a
/// register below `n`.
pub proof fn lemma_wf_block_statements(ss: Seq<Statement>, n: nat)
    requires
        stmts_wf(ss, n),
    ensures
        forall|i: int| 0 <= i < ss.len() ==> #[trigger] stmt_wf(ss[i], n),
{
    lemma_seq_wf_each(ss, n);
}

proof fn lemma_seq_wf_each(ss: Seq<Statement>, n: nat)
    requires
        stmts_seq_wf(ss, n),
    ensures
        forall|i: int| 0 <= i < ss.len() ==> #[trigger] stmt_wf(ss[i], n),
        forall|i: int| 0 <= i < ss.len() - 1 && (#[trigger] ss[i]) is Try ==> ss[i + 1] is Catch,
    decreases ss.len(),
{
    if ss.len() > 0 {
        let pre = ss.subrange(0, ss.len() - 1);
        lemma_seq_wf_each(pre, n);
        assert forall|i: int| 0 <= i < ss.len() implies #[trigger] stmt_wf(ss[i], n) by {
            if i < ss.len() - 1 {
                assert(pre[i] == ss[i]);
            }
        }
        assert forall|i: int| 0 <= i < ss.len() - 1 && (#[trigger] ss[i]) is Try implies ss[i + 1] is Catch by {
            assert(pre[i] == ss[i]);
            if i < ss.len() - 2 {
                assert(pre[i + 1] == ss[i + 1]);
            }
        }
    }
}

/// In a well-formed block, every `Try` statement is immediately followed by a `Catch`
/// statement of the same block; the blocks nested in its statements are well formed too.
pub proof fn lemma_wf_try_followed_by_catch(ss: Seq<Statement>, n: nat)
    requires
        stmts_wf(ss, n),
    ensures
        forall|i: int| 0 <= i < ss.len() && (#[trigger] ss[i]) is Try ==> i + 1 < ss.len() && ss[i + 1] is Catch,
{
    lemma_seq_wf_each(ss, n);
}

/// Adds `k` to the read count of the value that register `r` last received, if any.
fn note_read(reads: &mut Vec<u8>, last_def: &Vec<Option<usize>>, r: Reg, k: u8)
    requires
        k <= 2,
    ensures
        (CountView { reads: final(reads)@, last_def: last_def@ }) == note_v(
            CountView { reads: old(reads)@, last_def: last_def@ },
            r,
            k,
        ),
{
    let i = r.0 as usize;
    if i < last_def.len() {
        match last_def[i] {
            Some(d) => if d < reads.len() {
                let t: u16 = reads[d] as u16 + k as u16;
                let next: u8 = if t >= 2 { 2 } else { t as u8 };
                reads.set(d, next);
            },
            None => {},
        }
    }
}

fn note_reads(reads: &mut Vec<u8>, last_def: &Vec<Option<usize>>, regs: &Vec<Reg>)
    ensures
        (CountView { reads: final(reads)@, last_def: last_def@ }) == note_list_v(
            CountView { reads: old(reads)@, last_def: last_def@ },
            regs@,
        ),
{
    let ghost c0 = CountView { reads: reads@, last_def: last_def@ };
    let mut i: usize = 0;
    while i < regs.len()
        invariant
            i <= regs@.len(),
            (CountView { reads: reads@, last_def: last_def@ }) == note_list_v(c0, regs@.subrange(0, i as int)),
        decreases regs@.len() - i,
    {
        note_read(reads, last_def, regs[i], 1);
        assert(regs@.subrange(0, i + 1).drop_last() =~= regs@.subrange(0, i as int));
        i = i + 1;
    }
    assert(regs@.subrange(0, regs@.len() as int) =~= regs@);
}

/// The register that an instruction gives a folded value, if it is one that lifting folds.
fn def_of(op: &Opcode) -> (r: Option<Reg>)
    ensures
        r == def_of_v(*op),
{
    match op {
        Opcode::Int { dst, .. } | Opcode::Float { dst, .. } | Opcode::Bool { dst, .. } | Opcode::String { dst, .. } | Opcode::Null { dst, .. } | Opcode::ToDyn { dst, .. } | Opcode::ToSFloat { dst, .. } | Opcode::ToUFloat { dst, .. } | Opcode::ToInt { dst, .. } | Opcode::SafeCast { dst, .. } | Opcode::UnsafeCast { dst, .. } | Opcode::ToVirtual { dst, .. } | Opcode::Mov { dst, .. } | Opcode::Add { dst, .. } | Opcode::Sub { dst, .. } | Opcode::Mul { dst, .. } | Opcode::SDiv { dst, .. } | Opcode::UDiv { dst, .. } | Opcode::SMod { dst, .. } | Opcode::UMod { dst, .. } | Opcode::Shl { dst, .. } | Opcode::SShr { dst, .. } | Opcode::UShr { dst, .. } | Opcode::And { dst, .. } | Opcode::Or { dst, .. } | Opcode::Xor { dst, .. } | Opcode::Neg { dst, .. } | Opcode::Not { dst, .. } | Opcode::Call0 { dst, .. } | Opcode::Call1 { dst, .. } | Opcode::Call2 { dst, .. } | Opcode::Call3 { dst, .. } | Opcode::Call4 { dst, .. } | Opcode::CallN { dst, .. } | Opcode::CallClosure { dst, .. } | Opcode::GetArray { dst, .. } | Opcode::Field { dst, .. } | Opcode::GetThis { dst, .. } | Opcode::StaticClosure { dst, .. } | Opcode::MakeEnum { dst, .. } | Opcode::EnumAlloc { dst, .. } | Opcode::New { dst } => Some(*dst),
        _ => None,
    }
}

/// For each instruction that gives a register a value, how often that value is read
/// before the register is given another, counted up to 2.
fn count_reads(ops: &Vec<Opcode>, nregs: usize) -> (reads: Vec<u8>)
    ensures
        reads@ == count_v(ops@, nregs as nat, ops@.len()).reads,
{
    let mut reads: Vec<u8> = Vec::new();
    let mut last_def: Vec<Option<usize>> = Vec::new();
    let mut i: usize = 0;
    while i < ops.len()
        invariant
            reads@ == Seq::new(i as nat, |j: int| 0u8),
            i <= ops@.len(),
        decreases ops@.len() - i,
    {
        reads.push(0);
        i = i + 1;
        assert(reads@ =~= Seq::new(i as nat, |j: int| 0u8));
    }
    let mut r: usize = 0;
    while r < nregs
        invariant
            r <= nregs,
            last_def@ == Seq::new(r as nat, |j: int| None::<usize>),
        decreases nregs - r,
    {
        last_def.push(None);
        r = r + 1;
        assert(last_def@ =~= Seq::new(r as nat, |j: int| None::<usize>));
    }
    let mut pc: usize = 0;
    assert((CountView { reads: reads@, last_def: last_def@ }) == count_v(ops@, nregs as nat, 0));
    while pc < ops.len()
        invariant
            pc <= ops@.len(),
            (CountView { reads: reads@, last_def: last_def@ }) == count_v(ops@, nregs as nat, pc as nat),
        decreases ops@.len() - pc,
    {
        match &ops[pc] {
            Opcode::Add { a, b, .. } => {
                note_read(&mut reads, &last_def, *a, 1);
                note_read(&mut reads, &last_def, *b, 1);
            },
            Opcode::Sub { a, b, .. } => {
                note_read(&mut reads, &last_def, *a, 1);
                note_read(&mut reads, &last_def, *b, 1);
            },
            Opcode::Mul { a, b, .. } => {
                note_read(&mut reads, &last_def, *a, 1);
                note_read(&mut reads, &last_def, *b, 1);
            },
            Opcode::SDiv { a, b, .. } => {
                note_read(&mut reads, &last_def, *a, 1);
                note_read(&mut reads, &last_def, *b, 1);
            },
            Opcode::UDiv { a, b, .. } => {
                note_read(&mut reads, &last_def, *a, 1);
                note_read(&mut reads, &last_def, *b, 1);
            },
            Opcode::SMod { a, b, .. } => {
                note_read(&mut reads, &last_def, *a, 1);
                note_read(&mut reads, &last_def, *b, 1);
            },
            Opcode::UMod { a, b, .. } => {
                note_read(&mut reads, &last_def, *a, 1);
                note_read(&mut reads, &last_def, *b, 1);
            },
            Opcode::Shl { a, b, .. } => {
                note_read(&mut reads, &last_def, *a, 1);
                note_read(&mut reads, &last_def, *b, 1);
            },
            Opcode::SShr { a, b, .. } => {
                note_read(&mut reads, &last_def, *a, 1);
                note_read(&mut reads, &last_def, *b, 1);
            },
            Opcode::UShr { a, b, .. } => {
                note_read(&mut reads, &last_def, *a, 1);
                note_read(&mut reads, &last_def, *b, 1);
            },
            Opcode::And { a, b, .. } => {
                note_read(&mut reads, &last_def, *a, 1);
                note_read(&mut reads, &last_def, *b, 1);
            },
            Opcode::Or { a, b, .. } => {
                note_read(&mut reads, &last_def, *a, 1);
                note_read(&mut reads, &last_def, *b, 1);
            },
            Opcode::Xor { a, b, .. } => {
                note_read(&mut reads, &last_def, *a, 1);
                note_read(&mut reads, &last_def, *b, 1);
            },
            Opcode::JSLt { a, b, .. } => {
                note_read(&mut reads, &last_def, *a, 1);
                note_read(&mut reads, &last_def, *b, 1);
            },
            Opcode::JSGte { a, b, .. } => {
                note_read(&mut reads, &last_def, *a, 1);
                note_read(&mut reads, &last_def, *b, 1);
            },
            Opcode::JSGt { a, b, .. } => {
                note_read(&mut reads, &last_def, *a, 1);
                note_read(&mut reads, &last_def, *b, 1);
            },
            Opcode::JSLte { a, b, .. } => {
                note_read(&mut reads, &last_def, *a, 1);
                note_read(&mut reads, &last_def, *b, 1);
            },
            Opcode::JULt { a, b, .. } => {
                note_read(&mut reads, &last_def, *a, 1);
                note_read(&mut reads, &last_def, *b, 1);
            },
            Opcode::JUGte { a, b, .. } => {
                note_read(&mut reads, &last_def, *a, 1);
                note_read(&mut reads, &last_def, *b, 1);
            },
            Opcode::JNotLt { a, b, .. } => {
                note_read(&mut reads, &last_def, *a, 1);
                note_read(&mut reads, &last_def, *b, 1);
            },
            Opcode::JNotGte { a, b, .. } => {
                note_read(&mut reads, &last_def, *a, 1);
                note_read(&mut reads, &last_def, *b, 1);
            },
            Opcode::JEq { a, b, .. } => {
                note_read(&mut reads, &last_def, *a, 1);
                note_read(&mut reads, &last_def, *b, 1);
            },
            Opcode::JNotEq { a, b, .. } => {
                note_read(&mut reads, &last_def, *a, 1);
                note_read(&mut reads, &last_def, *b, 1);
            },
            Opcode::ToDyn { src, .. } => {
                note_read(&mut reads, &last_def, *src, 1);
            },
            Opcode::ToSFloat { src, .. } => {
                note_read(&mut reads, &last_def, *src, 1);
            },
            Opcode::ToUFloat { src, .. } => {
                note_read(&mut reads, &last_def, *src, 1);
            },
            Opcode::ToInt { src, .. } => {
                note_read(&mut reads, &last_def, *src, 1);
            },
            Opcode::SafeCast { src, .. } => {
                note_read(&mut reads, &last_def, *src, 1);
            },
            Opcode::UnsafeCast { src, .. } => {
                note_read(&mut reads, &last_def, *src, 1);
            },
            Opcode::ToVirtual { src, .. } => {
                note_read(&mut reads, &last_def, *src, 1);
            },
            Opcode::Mov { src, .. } => {
                note_read(&mut reads, &last_def, *src, 1);
            },
            Opcode::Neg { src, .. } => {
                note_read(&mut reads, &last_def, *src, 1);
            },
            Opcode::Not { src, .. } => {
                note_read(&mut reads, &last_def, *src, 1);
            },
            Opcode::Incr { dst } | Opcode::Decr { dst } => {
                note_read(&mut reads, &last_def, *dst, 2);
            },
            Opcode::Call1 { arg0, .. } => {
                note_read(&mut reads, &last_def, *arg0, 1);
            },
            Opcode::Call2 { arg0, arg1, .. } => {
                note_read(&mut reads, &last_def, *arg0, 1);
                note_read(&mut reads, &last_def, *arg1, 1);
            },
            Opcode::Call3 { arg0, arg1, arg2, .. } => {
                note_read(&mut reads, &last_def, *arg0, 1);
                note_read(&mut reads, &last_def, *arg1, 1);
                note_read(&mut reads, &last_def, *arg2, 1);
            },
            Opcode::Call4 { arg0, arg1, arg2, arg3, .. } => {
                note_read(&mut reads, &last_def, *arg0, 1);
                note_read(&mut reads, &last_def, *arg1, 1);
                note_read(&mut reads, &last_def, *arg2, 1);
                note_read(&mut reads, &last_def, *arg3, 1);
            },
            Opcode::CallN { args, .. } => {
                note_reads(&mut reads, &last_def, args);
            },
            Opcode::CallClosure { fun, args, .. } => {
                note_read(&mut reads, &last_def, *fun, 1);
                note_reads(&mut reads, &last_def, args);
            },
            Opcode::Ret { ret } => {
                note_read(&mut reads, &last_def, *ret, 1);
            },
            Opcode::Throw { exc } | Opcode::Rethrow { exc } => {
                note_read(&mut reads, &last_def, *exc, 1);
            },
            Opcode::JTrue { cond, .. } | Opcode::JFalse { cond, .. } => {
                note_read(&mut reads, &last_def, *cond, 1);
            },
            Opcode::JNull { reg, .. } | Opcode::JNotNull { reg, .. } | Opcode::Switch { reg, .. } => {
                note_read(&mut reads, &last_def, *reg, 1);
            },
            Opcode::GetArray { array, index, .. } => {
                note_read(&mut reads, &last_def, *array, 1);
                note_read(&mut reads, &last_def, *index, 1);
            },
            Opcode::SetArray { array, index, src } => {
                note_read(&mut reads, &last_def, *array, 1);
                note_read(&mut reads, &last_def, *index, 1);
                note_read(&mut reads, &last_def, *src, 1);
            },
            Opcode::Field { obj, .. } => {
                note_read(&mut reads, &last_def, *obj, 1);
            },
            Opcode::SetField { obj, src, .. } => {
                note_read(&mut reads, &last_def, *obj, 1);
                note_read(&mut reads, &last_def, *src, 1);
            },
            Opcode::SetThis { src, .. } => {
                note_read(&mut reads, &last_def, *src, 1);
            },
            Opcode::MakeEnum { args, .. } => {
                note_reads(&mut reads, &last_def, args);
            },
            _ => {},
        }
        match def_of(&ops[pc]) {
            Some(d) => if (d.0 as usize) < last_def.len() {
                last_def.set(d.0 as usize, Some(pc));
            },
            None => {},
        }
        pc = pc + 1;
    }
    reads
}

/// The working state of lifting one function.
struct LiftState {
    /// The expression waiting to be folded into the next read of each register.
    pending: Vec<Option<Expr>>,
    /// Whether each register has been declared by an assignment.
    declared: Vec<bool>,
    /// The read count of the value each instruction produces.
    reads: Vec<u8>,
    /// The debug name of each register, if any.
    names: Vec<Option<RefString>>,
}

/// The state of the lifter as the model sees it, with `out` the statements emitted so far.
spec fn view_of(st: LiftState, out: Seq<Statement>) -> LiftView {
    LiftView { pending: st.pending@, declared: st.declared@, out }
}

impl LiftState {
    spec fn wf(&self, n: nat) -> bool {
        &&& self.pending@.len() == n
        &&& self.declared@.len() == n
        &&& self.names@.len() == n
        &&& forall|i: int| 0 <= i < n && (#[trigger] self.pending@[i]) is Some
            ==> expr_wf(self.pending@[i]->0, n)
    }

    /// The variable that stands for register `r`.
    fn var(&self, r: Reg) -> (e: Expr)
        requires
            r.0 < self.names@.len(),
        ensures
            e is Variable && e->Variable_0 == r,
            e == var_v(self.names@, r),
    {
        Expr::Variable(r, self.names[r.0 as usize])
    }

    /// The value of register `r` for its reader: the pending expression, or the variable.
    fn take(&mut self, r: Reg) -> (e: Expr)
        requires
            old(self).wf(old(self).pending@.len()),
            r.0 < old(self).pending@.len(),
        ensures
            final(self).wf(old(self).pending@.len()),
            final(self).reads == old(self).reads,
            final(self).names == old(self).names,
            final(self).declared == old(self).declared,
            final(self).pending@ == old(self).pending@.update(r.0 as int, None),
            e == take_e(old(self).names@, view_of(*old(self), Seq::empty()), r),
            expr_wf(e, old(self).pending@.len()),
    {
        let ghost n = self.pending@.len();
        let mut slot: Option<Expr> = None;
        self.pending.set_and_swap(r.0 as usize, &mut slot);
        assert(forall|i: int| 0 <= i < n && i != r.0 ==> self.pending@[i] == old(self).pending@[i]);
        match slot {
            Some(e) => e,
            None => self.var(r),
        }
    }

    /// Emits `r = e`, a declaration the first time.
    fn assign_now(&mut self, r: Reg, e: Expr, out: &mut Vec<Statement>)
        requires
            old(self).wf(old(self).pending@.len()),
            r.0 < old(self).pending@.len(),
            expr_wf(e, old(self).pending@.len()),
            stmts_wf(old(out)@, old(self).pending@.len()),
        ensures
            final(self).wf(old(self).pending@.len()),
            final(self).reads == old(self).reads,
            final(self).names == old(self).names,
            stmts_wf(final(out)@, old(self).pending@.len()),
            view_of(*final(self), final(out)@) == assign_v(old(self).names@, view_of(*old(self), old(out)@), r, e),
    {
        let ghost n = self.pending@.len();
        let i = r.0 as usize;
        let declaration = !self.declared[i];
        self.declared.set(i, true);
        let v = self.var(r);
        assert(expr_wf(v, n));
        let s = Statement::Assign { declaration, variable: v, assign: e };
        emit(out, s, Ghost(n));
    }

    /// Gives register `dst` the value `e` computed by the instruction at `pc`: folded into
    /// its only reader, and otherwise assigned (or, when unread and effectful, kept as a
    /// statement).
    fn define(&mut self, dst: Reg, e: Expr, effectful: bool, pc: usize, out: &mut Vec<Statement>)
        requires
            old(self).wf(old(self).pending@.len()),
            dst.0 < old(self).pending@.len(),
            expr_wf(e, old(self).pending@.len()),
            stmts_wf(old(out)@, old(self).pending@.len()),
        ensures
            final(self).wf(old(self).pending@.len()),
            final(self).reads == old(self).reads,
            final(self).names == old(self).names,
            stmts_wf(final(out)@, old(self).pending@.len()),
            view_of(*final(self), final(out)@) == define_v(
                old(self).names@,
                old(self).reads@,
                view_of(*old(self), old(out)@),
                pc,
                dst,
                e,
                effectful,
            ),
    {
        let ghost n = self.pending@.len();
        let i = dst.0 as usize;
        let uses: u8 = if pc < self.reads.len() { self.reads[pc] } else { 2 };
        if uses == 1 {
            self.pending.set(i, Some(e));
            assert(forall|j: int| 0 <= j < n && j != i ==> self.pending@[j] == old(self).pending@[j]);
        } else if uses == 0 && effectful {
            self.flush(out);
            emit(out, Statement::ExprStatement(e), Ghost(n));
        } else {
            self.flush(out);
            self.assign_now(dst, e, out);
        }
    }

    /// Materialises every pending expression as an assignment, at a block boundary.
    fn flush(&mut self, out: &mut Vec<Statement>)
        requires
            old(self).wf(old(self).pending@.len()),
            stmts_wf(old(out)@, old(self).pending@.len()),
        ensures
            final(self).wf(old(self).pending@.len()),
            final(self).reads == old(self).reads,
            final(self).names == old(self).names,
            stmts_wf(final(out)@, old(self).pending@.len()),
            view_of(*final(self), final(out)@) == flush_v(
                old(self).names@,
                view_of(*old(self), old(out)@),
                0,
                old(self).pending@.len(),
            ),
    {
        let ghost n = self.pending@.len();
        let ghost goal = flush_v(self.names@, view_of(*self, out@), 0, n);
        let mut r: usize = 0;
        while r < self.pending.len()
            invariant
                self.wf(n),
                self.pending@.len() == n,
                r <= n,
                self.reads == old(self).reads,
                self.names == old(self).names,
                stmts_wf(out@, n),
                flush_v(self.names@, view_of(*self, out@), r as nat, n) == goal,
            decreases n - r,
        {
            if r <= u32::MAX as usize {
                let mut slot: Option<Expr> = None;
                let ghost prev = self.pending@;
                self.pending.set_and_swap(r, &mut slot);
                assert(forall|i: int| 0 <= i < n && i != r ==> self.pending@[i] == prev[i]);
                match slot {
                    Some(e) => self.assign_now(Reg(r as u32), e, out),
                    None => {},
                }
            }
            r = r + 1;
        }
    }

    /// The values of the registers `args`, in order.
    fn call_args(&mut self, args: &Vec<Reg>) -> (r: Vec<Expr>)
        requires
            old(self).wf(old(self).pending@.len()),
            forall|i: int| 0 <= i < args@.len() ==> (#[trigger] args@[i]).0 < old(self).pending@.len(),
        ensures
            final(self).wf(old(self).pending@.len()),
            final(self).pending@.len() == old(self).pending@.len(),
            final(self).reads == old(self).reads,
            final(self).names == old(self).names,
            exprs_wf(r@, old(self).pending@.len()),
    {
        let ghost n = self.pending@.len();
        let mut r: Vec<Expr> = Vec::new();
        let mut i: usize = 0;
        while i < args.len()
            invariant
                self.wf(n),
                self.pending@.len() == n,
                self.reads == old(self).reads,
                self.names == old(self).names,
                forall|k: int| 0 <= k < args@.len() ==> (#[trigger] args@[k]).0 < n,
                exprs_wf(r@, n),
            decreases args@.len() - i,
        {
            let e = self.take(args[i]);
            push_arg(&mut r, e, Ghost(n));
            i = i + 1;
        }
        r
    }
}

fn emit(out: &mut Vec<Statement>, s: Statement, Ghost(n): Ghost<nat>)
    requires
        stmts_wf(old(out)@, n),
        stmt_wf(s, n),
        !(s is Try),
    ensures
        stmts_wf(final(out)@, n),
        final(out)@ == old(out)@.push(s),
{
    proof {
        lemma_stmts_push(out@, s, n);
    }
    out.push(s);
}

/// Emits a `Try` statement and the `Catch` statement that goes with it.
fn emit_try_catch(out: &mut Vec<Statement>, t: Statement, c: Statement, Ghost(n): Ghost<nat>)
    requires
        stmts_wf(old(out)@, n),
        stmt_wf(t, n),
        stmt_wf(c, n),
        t is Try,
        c is Catch,
    ensures
        stmts_wf(final(out)@, n),
{
    proof {
        lemma_stmts_push_pair(out@, t, c, n);
    }
    out.push(t);
    out.push(c);
}

/// The error names a register at or above `n`.
pub open spec fn out_of_range(e: LiftError, n: nat) -> bool {
    e matches LiftError::RegisterOutOfRange(r) && r.0 >= n
}

fn check(r: Reg, n: usize) -> (res: Result<(), LiftError>)
    ensures
        res is Ok <==> r.0 < n,
        res matches Err(e) ==> out_of_range(e, n as nat),
{
    if (r.0 as usize) < n {
        Ok(())
    } else {
        Err(LiftError::RegisterOutOfRange(r))
    }
}

fn check2(a: Reg, b: Reg, n: usize) -> (res: Result<(), LiftError>)
    ensures
        res is Ok <==> a.0 < n && b.0 < n,
        res matches Err(e) ==> out_of_range(e, n as nat),
{
    check(a, n)?;
    check(b, n)
}

fn check3(a: Reg, b: Reg, c: Reg, n: usize) -> (res: Result<(), LiftError>)
    ensures
        res is Ok <==> a.0 < n && b.0 < n && c.0 < n,
        res matches Err(e) ==> out_of_range(e, n as nat),
{
    check(a, n)?;
    check2(b, c, n)
}

fn check_all(regs: &Vec<Reg>, n: usize) -> (res: Result<(), LiftError>)
    ensures
        res is Ok <==> forall|i: int| 0 <= i < regs@.len() ==> (#[trigger] regs@[i]).0 < n,
        res matches Err(e) ==> out_of_range(e, n as nat),
{
    let mut i: usize = 0;
    while i < regs.len()
        invariant
            i <= regs@.len(),
            forall|k: int| 0 <= k < i ==> (#[trigger] regs@[k]).0 < n,
        decreases regs@.len() - i,
    {
        check(regs[i], n)?;
        i = i + 1;
    }
    Ok(())
}

/// Appends a lifted argument to an argument list.
fn push_arg(args: &mut Vec<Expr>, e: Expr, Ghost(n): Ghost<nat>)
    requires
        exprs_wf(old(args)@, n),
        expr_wf(e, n),
    ensures
        exprs_wf(final(args)@, n),
{
    proof {
        lemma_exprs_push(args@, e, n);
    }
    args.push(e);
}

/// The call of `callee` on `args`.
fn make_call(callee: Expr, args: Vec<Expr>, Ghost(n): Ghost<nat>) -> (e: Expr)
    requires
        expr_wf(callee, n),
        exprs_wf(args@, n),
    ensures
        expr_wf(e, n),
{
    let ghost a = args@;
    let e = Expr::Call { fun: Box::new(callee), args };
    assert(e->Call_args@ == a);
    assert(expr_wf(*e->Call_fun, n));
    e
}

/// Whether the instruction transfers control.
pub open spec fn is_control(op: Opcode) -> bool {
    match op {
        Opcode::JTrue { .. } | Opcode::JFalse { .. } | Opcode::JNull { .. } | Opcode::JNotNull { .. }
        | Opcode::JSLt { .. } | Opcode::JSGte { .. } | Opcode::JSGt { .. } | Opcode::JSLte { .. }
        | Opcode::JULt { .. } | Opcode::JUGte { .. } | Opcode::JNotLt { .. } | Opcode::JNotGte { .. }
        | Opcode::JEq { .. } | Opcode::JNotEq { .. } | Opcode::JAlways { .. } | Opcode::Switch { .. }
        | Opcode::Trap { .. } | Opcode::EndTrap { .. } => true,
        _ => false,
    }
}

/// The number of arguments of `f`, whose values arrive in its first registers.
fn arg_count(m: &Bytecode, f: &Function) -> (r: usize)
    ensures
        r == arg_count_v(m, *f),
{
    if f.t.0 < m.types.len() {
        match &m.types[f.t.0] {
            Type::Fun(tf) => tf.args.len(),
            _ => 0,
        }
    } else {
        0
    }
}

/// The type of register `r` of `f`, or the first type when `r` is not a register of `f`.
fn reg_type(f: &Function, r: Reg) -> RefType {
    let i = r.0 as usize;
    if i < f.regs.len() {
        f.regs[i]
    } else {
        RefType(0)
    }
}

/// The name of field `field` of the class or structural type of register `r`.
fn field_name(m: &Bytecode, f: &Function, r: Reg, field: RefField) -> String {
    let t = reg_type(f, r);
    match m.resolve_field(t, field.0) {
        Ok(fd) => match m.resolve_string(fd.name) {
            Ok(s) => s.clone(),
            Err(_) => String::from_str("[invalid reference]"),
        },
        Err(_) => String::from_str("[invalid reference]"),
    }
}

/// Whether register `r` of `f` has the type `Void`.
fn is_void_reg(m: &Bytecode, f: &Function, r: Reg) -> (b: bool)
    ensures
        b == void_reg(m, *f, r),
{
    let i = r.0 as usize;
    if i < f.regs.len() {
        let t = f.regs[i];
        t.0 < m.types.len() && match &m.types[t.0] {
            Type::Void => true,
            _ => false,
        }
    } else {
        false
    }
}

/// The position that a jump at `pc` by `offset` leads to, if it lies within `0..=len`.
fn jump_target(pc: usize, offset: i32, len: usize) -> (r: Option<usize>)
    requires
        pc < len,
    ensures
        r matches Some(t) ==> t <= len && t == pc + 1 + offset,
{
    if offset >= 0 {
        let o = offset as usize;
        if o <= len - pc - 1 {
            Some(pc + 1 + o)
        } else {
            None
        }
    } else {
        let back: usize = (-(offset as i64)) as usize;
        if back <= pc + 1 {
            Some(pc + 1 - back)
        } else {
            None
        }
    }
}

/// The offset of a conditional jump.
fn cond_offset(op: &Opcode) -> Option<i32> {
    match op {
        Opcode::JTrue { offset, .. } => Some(*offset),
        Opcode::JFalse { offset, .. } => Some(*offset),
        Opcode::JNull { offset, .. } => Some(*offset),
        Opcode::JNotNull { offset, .. } => Some(*offset),
        Opcode::JSLt { offset, .. } => Some(*offset),
        Opcode::JSGte { offset, .. } => Some(*offset),
        Opcode::JSGt { offset, .. } => Some(*offset),
        Opcode::JSLte { offset, .. } => Some(*offset),
        Opcode::JULt { offset, .. } => Some(*offset),
        Opcode::JUGte { offset, .. } => Some(*offset),
        Opcode::JNotLt { offset, .. } => Some(*offset),
        Opcode::JNotGte { offset, .. } => Some(*offset),
        Opcode::JEq { offset, .. } => Some(*offset),
        Opcode::JNotEq { offset, .. } => Some(*offset),
        _ => None,
    }
}

/// The condition under which a conditional jump is taken (or, with `taken` false, not
/// taken), built from the values of its operands.
fn jump_condition(st: &mut LiftState, op: &Opcode, taken: bool, n: usize) -> (res: Result<Expr, LiftError>)
    requires
        old(st).wf(n as nat),
        old(st).pending@.len() == n,
    ensures
        final(st).wf(n as nat),
        final(st).reads == old(st).reads,
        res matches Ok(e) ==> expr_wf(e, n as nat),
        res matches Err(e) ==> out_of_range(e, n as nat),
{
    let ghost gn = n as nat;
    match op {
        Opcode::JTrue { cond, .. } | Opcode::JFalse { cond, .. } => {
            check(*cond, n)?;
            let c = st.take(*cond);
            let positive = match op {
                Opcode::JTrue { .. } => taken,
                _ => !taken,
            };
            if positive {
                Ok(c)
            } else {
                let e = Expr::Op(Operation::Not(Box::new(c)));
                assert(op_wf(e->Op_0, gn));
                Ok(e)
            }
        },
        Opcode::JNull { reg, .. } | Opcode::JNotNull { reg, .. } => {
            check(*reg, n)?;
            let c = st.take(*reg);
            let null = Expr::Constant(Constant::Null);
            let is_null = match op {
                Opcode::JNull { .. } => taken,
                _ => !taken,
            };
            let e = if is_null {
                Expr::Op(Operation::Eq(Box::new(c), Box::new(null)))
            } else {
                Expr::Op(Operation::NotEq(Box::new(c), Box::new(null)))
            };
            assert(op_wf(e->Op_0, gn));
            Ok(e)
        },
        Opcode::JSLt { a, b, .. } => {
            check2(*a, *b, n)?;
            let ea = st.take(*a);
            let eb = st.take(*b);
            let e = if taken {
                Expr::Op(Operation::Lt(Box::new(ea), Box::new(eb)))
            } else {
                Expr::Op(Operation::Gte(Box::new(ea), Box::new(eb)))
            };
            assert(op_wf(e->Op_0, gn));
            Ok(e)
        },
        Opcode::JSGte { a, b, .. } => {
            check2(*a, *b, n)?;
            let ea = st.take(*a);
            let eb = st.take(*b);
            let e = if taken {
                Expr::Op(Operation::Gte(Box::new(ea), Box::new(eb)))
            } else {
                Expr::Op(Operation::Lt(Box::new(ea), Box::new(eb)))
            };
            assert(op_wf(e->Op_0, gn));
            Ok(e)
        },
        Opcode::JSGt { a, b, .. } => {
            check2(*a, *b, n)?;
            let ea = st.take(*a);
            let eb = st.take(*b);
            let e = if taken {
                Expr::Op(Operation::Gt(Box::new(ea), Box::new(eb)))
            } else {
                Expr::Op(Operation::Lte(Box::new(ea), Box::new(eb)))
            };
            assert(op_wf(e->Op_0, gn));
            Ok(e)
        },
        Opcode::JSLte { a, b, .. } => {
            check2(*a, *b, n)?;
            let ea = st.take(*a);
            let eb = st.take(*b);
            let e = if taken {
                Expr::Op(Operation::Lte(Box::new(ea), Box::new(eb)))
            } else {
                Expr::Op(Operation::Gt(Box::new(ea), Box::new(eb)))
            };
            assert(op_wf(e->Op_0, gn));
            Ok(e)
        },
        Opcode::JULt { a, b, .. } => {
            check2(*a, *b, n)?;
            let ea = st.take(*a);
            let eb = st.take(*b);
            let e = if taken {
                Expr::Op(Operation::Lt(Box::new(ea), Box::new(eb)))
            } else {
                Expr::Op(Operation::Gte(Box::new(ea), Box::new(eb)))
            };
            assert(op_wf(e->Op_0, gn));
            Ok(e)
        },
        Opcode::JUGte { a, b, .. } => {
            check2(*a, *b, n)?;
            let ea = st.take(*a);
            let eb = st.take(*b);
            let e = if taken {
                Expr::Op(Operation::Gte(Box::new(ea), Box::new(eb)))
            } else {
                Expr::Op(Operation::Lt(Box::new(ea), Box::new(eb)))
            };
            assert(op_wf(e->Op_0, gn));
            Ok(e)
        },
        Opcode::JNotLt { a, b, .. } => {
            check2(*a, *b, n)?;
            let ea = st.take(*a);
            let eb = st.take(*b);
            let e = if taken {
                Expr::Op(Operation::Gte(Box::new(ea), Box::new(eb)))
            } else {
                Expr::Op(Operation::Lt(Box::new(ea), Box::new(eb)))
            };
            assert(op_wf(e->Op_0, gn));
            Ok(e)
        },
        Opcode::JNotGte { a, b, .. } => {
            check2(*a, *b, n)?;
            let ea = st.take(*a);
            let eb = st.take(*b);
            let e = if taken {
                Expr::Op(Operation::Lt(Box::new(ea), Box::new(eb)))
            } else {
                Expr::Op(Operation::Gte(Box::new(ea), Box::new(eb)))
            };
            assert(op_wf(e->Op_0, gn));
            Ok(e)
        },
        Opcode::JEq { a, b, .. } => {
            check2(*a, *b, n)?;
            let ea = st.take(*a);
            let eb = st.take(*b);
            let e = if taken {
                Expr::Op(Operation::Eq(Box::new(ea), Box::new(eb)))
            } else {
                Expr::Op(Operation::NotEq(Box::new(ea), Box::new(eb)))
            };
            assert(op_wf(e->Op_0, gn));
            Ok(e)
        },
        Opcode::JNotEq { a, b, .. } => {
            check2(*a, *b, n)?;
            let ea = st.take(*a);
            let eb = st.take(*b);
            let e = if taken {
                Expr::Op(Operation::NotEq(Box::new(ea), Box::new(eb)))
            } else {
                Expr::Op(Operation::Eq(Box::new(ea), Box::new(eb)))
            };
            assert(op_wf(e->Op_0, gn));
            Ok(e)
        },
        _ => {
            let e = Expr::Constant(Constant::Bool(true));
            Ok(e)
        },
    }
}

/// The last jump in `start+1 .. end` back to `start`, which makes `start` a loop header.
fn back_edge(ops: &Vec<Opcode>, start: usize, end: usize) -> (r: Option<usize>)
    requires
        start < end <= ops@.len(),
    ensures
        r matches Some(j) ==> start < j < end && ops@[j as int] is JAlways,
{
    let mut j: usize = end - 1;
    while j > start
        invariant
            start <= j < end,
            end <= ops@.len(),
        decreases j,
    {
        match &ops[j] {
            Opcode::JAlways { offset } => {
                if jump_target(j, *offset, ops.len()) == Some(start) {
                    return Some(j);
                }
            },
            _ => {},
        }
        j = j - 1;
    }
    None
}

/// Whether control never falls through the instruction.
fn ends_flow(op: &Opcode) -> bool {
    match op {
        Opcode::Ret { .. } | Opcode::Throw { .. } | Opcode::Rethrow { .. } => true,
        _ => false,
    }
}

/// The target of an unconditional forward jump at `pc`, if `ops[pc]` is one.
fn always_target(ops: &Vec<Opcode>, pc: usize) -> (r: Option<usize>)
    requires
        pc < ops@.len(),
    ensures
        r matches Some(t) ==> t <= ops@.len(),
{
    match &ops[pc] {
        Opcode::JAlways { offset } => jump_target(pc, *offset, ops.len()),
        _ => None,
    }
}

/// What an error from lifting says of the function.
pub open spec fn lift_error_ok(e: LiftError, f: Function) -> bool {
    match e {
        LiftError::RegisterOutOfRange(r) => r.0 >= f.regs@.len(),
        LiftError::MalformedCfg(pc) => pc < f.ops@.len() && is_control(f.ops@[pc as int]),
        LiftError::BadFunction(_) => false,
        LiftError::NotAClass(_) => false,
    }
}

/// Lifts one instruction that does not transfer control.
#[verifier::rlimit(100)]
fn lift_op(st: &mut LiftState, m: &Bytecode, f: &Function, pc: usize, out: &mut Vec<Statement>) -> (res: Result<(), LiftError>)
    requires
        pc < f.ops@.len(),
        old(st).wf(f.regs@.len() as nat),
        old(st).pending@.len() == f.regs@.len(),
        stmts_wf(old(out)@, f.regs@.len() as nat),
    ensures
        final(st).wf(f.regs@.len() as nat),
        final(st).reads == old(st).reads,
        final(st).names == old(st).names,
        stmts_wf(final(out)@, f.regs@.len() as nat),
        res matches Err(e) ==> out_of_range(e, f.regs@.len() as nat),
        straight_op(f.ops@[pc as int]) && regs_in(f.ops@[pc as int], f.regs@.len() as nat) ==> res is Ok
            && view_of(*final(st), final(out)@) == step_v(
            m,
            *f,
            old(st).names@,
            old(st).reads@,
            view_of(*old(st), old(out)@),
            f.ops@[pc as int],
            pc,
        ),
        straight_op(f.ops@[pc as int]) && !regs_in(f.ops@[pc as int], f.regs@.len() as nat) ==> res is Err,
{
    let n = f.regs.len();
    let ghost gn = n as nat;
    match &f.ops[pc] {
        Opcode::Int { dst, ptr } => {
            check(*dst, n)?;
            st.define(*dst, Expr::Constant(Constant::Int(*ptr)), false, pc, out);
        },
        Opcode::Float { dst, ptr } => {
            check(*dst, n)?;
            st.define(*dst, Expr::Constant(Constant::Float(*ptr)), false, pc, out);
        },
        Opcode::Bool { dst, value } => {
            check(*dst, n)?;
            st.define(*dst, Expr::Constant(Constant::Bool(value.0)), false, pc, out);
        },
        Opcode::String { dst, ptr } => {
            check(*dst, n)?;
            st.define(*dst, Expr::Constant(Constant::String(*ptr)), false, pc, out);
        },
        Opcode::Null { dst } => {
            check(*dst, n)?;
            st.define(*dst, Expr::Constant(Constant::Null), false, pc, out);
        },
        Opcode::ToDyn { dst, src } => {
            check2(*dst, *src, n)?;
            let e = st.take(*src);
            st.define(*dst, e, false, pc, out);
        },
        Opcode::ToSFloat { dst, src } => {
            check2(*dst, *src, n)?;
            let e = st.take(*src);
            st.define(*dst, e, false, pc, out);
        },
        Opcode::ToUFloat { dst, src } => {
            check2(*dst, *src, n)?;
            let e = st.take(*src);
            st.define(*dst, e, false, pc, out);
        },
        Opcode::ToInt { dst, src } => {
            check2(*dst, *src, n)?;
            let e = st.take(*src);
            st.define(*dst, e, false, pc, out);
        },
        Opcode::SafeCast { dst, src } => {
            check2(*dst, *src, n)?;
            let e = st.take(*src);
            st.define(*dst, e, false, pc, out);
        },
        Opcode::UnsafeCast { dst, src } => {
            check2(*dst, *src, n)?;
            let e = st.take(*src);
            st.define(*dst, e, false, pc, out);
        },
        Opcode::ToVirtual { dst, src } => {
            check2(*dst, *src, n)?;
            let e = st.take(*src);
            st.define(*dst, e, false, pc, out);
        },
        Opcode::Mov { dst, src } => {
            check2(*dst, *src, n)?;
            let e = st.take(*src);
            st.define(*dst, e, false, pc, out);
        },
        Opcode::Add { dst, a, b } => {
            check3(*dst, *a, *b, n)?;
            let ea = st.take(*a);
            let eb = st.take(*b);
            let e = Expr::Op(Operation::Add(Box::new(ea), Box::new(eb)));
            assert(op_wf(e->Op_0, gn));
            st.define(*dst, e, false, pc, out);
        },
        Opcode::Sub { dst, a, b } => {
            check3(*dst, *a, *b, n)?;
            let ea = st.take(*a);
            let eb = st.take(*b);
            let e = Expr::Op(Operation::Sub(Box::new(ea), Box::new(eb)));
            assert(op_wf(e->Op_0, gn));
            st.define(*dst, e, false, pc, out);
        },
        Opcode::Mul { dst, a, b } => {
            check3(*dst, *a, *b, n)?;
            let ea = st.take(*a);
            let eb = st.take(*b);
            let e = Expr::Op(Operation::Mul(Box::new(ea), Box::new(eb)));
            assert(op_wf(e->Op_0, gn));
            st.define(*dst, e, false, pc, out);
        },
        Opcode::SDiv { dst, a, b } => {
            check3(*dst, *a, *b, n)?;
            let ea = st.take(*a);
            let eb = st.take(*b);
            let e = Expr::Op(Operation::Div(Box::new(ea), Box::new(eb)));
            assert(op_wf(e->Op_0, gn));
            st.define(*dst, e, false, pc, out);
        },
        Opcode::UDiv { dst, a, b } => {
            check3(*dst, *a, *b, n)?;
            let ea = st.take(*a);
            let eb = st.take(*b);
            let e = Expr::Op(Operation::Div(Box::new(ea), Box::new(eb)));
            assert(op_wf(e->Op_0, gn));
            st.define(*dst, e, false, pc, out);
        },
        Opcode::SMod { dst, a, b } => {
            check3(*dst, *a, *b, n)?;
            let ea = st.take(*a);
            let eb = st.take(*b);
            let e = Expr::Op(Operation::Mod(Box::new(ea), Box::new(eb)));
            assert(op_wf(e->Op_0, gn));
            st.define(*dst, e, false, pc, out);
        },
        Opcode::UMod { dst, a, b } => {
            check3(*dst, *a, *b, n)?;
            let ea = st.take(*a);
            let eb = st.take(*b);
            let e = Expr::Op(Operation::Mod(Box::new(ea), Box::new(eb)));
            assert(op_wf(e->Op_0, gn));
            st.define(*dst, e, false, pc, out);
        },
        Opcode::Shl { dst, a, b } => {
            check3(*dst, *a, *b, n)?;
            let ea = st.take(*a);
            let eb = st.take(*b);
            let e = Expr::Op(Operation::Shl(Box::new(ea), Box::new(eb)));
            assert(op_wf(e->Op_0, gn));
            st.define(*dst, e, false, pc, out);
        },
        Opcode::SShr { dst, a, b } => {
            check3(*dst, *a, *b, n)?;
            let ea = st.take(*a);
            let eb = st.take(*b);
            let e = Expr::Op(Operation::Shr(Box::new(ea), Box::new(eb)));
            assert(op_wf(e->Op_0, gn));
            st.define(*dst, e, false, pc, out);
        },
        Opcode::UShr { dst, a, b } => {
            check3(*dst, *a, *b, n)?;
            let ea = st.take(*a);
            let eb = st.take(*b);
            let e = Expr::Op(Operation::Shr(Box::new(ea), Box::new(eb)));
            assert(op_wf(e->Op_0, gn));
            st.define(*dst, e, false, pc, out);
        },
        Opcode::And { dst, a, b } => {
            check3(*dst, *a, *b, n)?;
            let ea = st.take(*a);
            let eb = st.take(*b);
            let e = Expr::Op(Operation::And(Box::new(ea), Box::new(eb)));
            assert(op_wf(e->Op_0, gn));
            st.define(*dst, e, false, pc, out);
        },
        Opcode::Or { dst, a, b } => {
            check3(*dst, *a, *b, n)?;
            let ea = st.take(*a);
            let eb = st.take(*b);
            let e = Expr::Op(Operation::Or(Box::new(ea), Box::new(eb)));
            assert(op_wf(e->Op_0, gn));
            st.define(*dst, e, false, pc, out);
        },
        Opcode::Xor { dst, a, b } => {
            check3(*dst, *a, *b, n)?;
            let ea = st.take(*a);
            let eb = st.take(*b);
            let e = Expr::Op(Operation::Xor(Box::new(ea), Box::new(eb)));
            assert(op_wf(e->Op_0, gn));
            st.define(*dst, e, false, pc, out);
        },
        Opcode::Neg { dst, src } => {
            check2(*dst, *src, n)?;
            let x = st.take(*src);
            let e = Expr::Op(Operation::Neg(Box::new(x)));
            assert(op_wf(e->Op_0, gn));
            st.define(*dst, e, false, pc, out);
        },
        Opcode::Not { dst, src } => {
            check2(*dst, *src, n)?;
            let x = st.take(*src);
            let e = Expr::Op(Operation::Not(Box::new(x)));
            assert(op_wf(e->Op_0, gn));
            st.define(*dst, e, false, pc, out);
        },
        Opcode::Incr { dst } | Opcode::Decr { dst } => {
            check(*dst, n)?;
            let _ = st.take(*dst);
            let v = st.var(*dst);
            assert(expr_wf(v, gn));
            let e = match &f.ops[pc] {
                Opcode::Incr { .. } => Expr::Op(Operation::Incr(Box::new(v))),
                _ => Expr::Op(Operation::Decr(Box::new(v))),
            };
            assert(op_wf(e->Op_0, gn));
            assert(expr_wf(e, gn));
            st.flush(out);
            emit(out, Statement::ExprStatement(e), Ghost(gn));
        },
        Opcode::Call0 { dst, fun } => {
            check(*dst, n)?;
            let call = make_call(Expr::FunRef(*fun), Vec::new(), Ghost(gn));
            st.define(*dst, call, true, pc, out);
        },
        Opcode::Call1 { dst, fun, arg0 } => {
            check2(*dst, *arg0, n)?;
            let mut args: Vec<Expr> = Vec::new();
            let x = st.take(*arg0);
            push_arg(&mut args, x, Ghost(gn));
            let call = make_call(Expr::FunRef(*fun), args, Ghost(gn));
            st.define(*dst, call, true, pc, out);
        },
        Opcode::Call2 { dst, fun, arg0, arg1 } => {
            check3(*dst, *arg0, *arg1, n)?;
            let mut args: Vec<Expr> = Vec::new();
            let x = st.take(*arg0);
            push_arg(&mut args, x, Ghost(gn));
            let x = st.take(*arg1);
            push_arg(&mut args, x, Ghost(gn));
            let call = make_call(Expr::FunRef(*fun), args, Ghost(gn));
            st.define(*dst, call, true, pc, out);
        },
        Opcode::Call3 { dst, fun, arg0, arg1, arg2 } => {
            check3(*dst, *arg0, *arg1, n)?;
            check(*arg2, n)?;
            let mut args: Vec<Expr> = Vec::new();
            let x = st.take(*arg0);
            push_arg(&mut args, x, Ghost(gn));
            let x = st.take(*arg1);
            push_arg(&mut args, x, Ghost(gn));
            let x = st.take(*arg2);
            push_arg(&mut args, x, Ghost(gn));
            let call = make_call(Expr::FunRef(*fun), args, Ghost(gn));
            st.define(*dst, call, true, pc, out);
        },
        Opcode::Call4 { dst, fun, arg0, arg1, arg2, arg3 } => {
            check3(*dst, *arg0, *arg1, n)?;
            check2(*arg2, *arg3, n)?;
            let mut args: Vec<Expr> = Vec::new();
            let x = st.take(*arg0);
            push_arg(&mut args, x, Ghost(gn));
            let x = st.take(*arg1);
            push_arg(&mut args, x, Ghost(gn));
            let x = st.take(*arg2);
            push_arg(&mut args, x, Ghost(gn));
            let x = st.take(*arg3);
            push_arg(&mut args, x, Ghost(gn));
            let call = make_call(Expr::FunRef(*fun), args, Ghost(gn));
            st.define(*dst, call, true, pc, out);
        },
        Opcode::CallN { dst, fun, args } => {
            check(*dst, n)?;
            check_all(args, n)?;
            let es = st.call_args(args);
            let call = make_call(Expr::FunRef(*fun), es, Ghost(gn));
            st.define(*dst, call, true, pc, out);
        },
        Opcode::CallClosure { dst, fun, args } => {
            check2(*dst, *fun, n)?;
            check_all(args, n)?;
            let callee = st.take(*fun);
            let es = st.call_args(args);
            let call = make_call(callee, es, Ghost(gn));
            st.define(*dst, call, true, pc, out);
        },
        Opcode::Ret { ret } => {
            check(*ret, n)?;
            if is_void_reg(m, f, *ret) {
                st.flush(out);
                emit(out, Statement::Return(None), Ghost(gn));
            } else {
                let e = st.take(*ret);
                st.flush(out);
                emit(out, Statement::Return(Some(e)), Ghost(gn));
            }
        },
        Opcode::Throw { exc } | Opcode::Rethrow { exc } => {
            check(*exc, n)?;
            let e = st.take(*exc);
            st.flush(out);
            emit(out, Statement::Throw(e), Ghost(gn));
        },
        Opcode::GetArray { dst, array, index } => {
            check3(*dst, *array, *index, n)?;
            let a = st.take(*array);
            let i = st.take(*index);
            let e = Expr::Array(Box::new(a), Box::new(i));
            assert(expr_wf(e, gn));
            st.define(*dst, e, false, pc, out);
        },
        Opcode::SetArray { array, index, src } => {
            check3(*array, *index, *src, n)?;
            let a = st.take(*array);
            let i = st.take(*index);
            let v = st.take(*src);
            let target = Expr::Array(Box::new(a), Box::new(i));
            assert(expr_wf(target, gn));
            st.flush(out);
            emit(out, Statement::Assign { declaration: false, variable: target, assign: v }, Ghost(gn));
        },
        Opcode::Field { dst, obj, field } => {
            check2(*dst, *obj, n)?;
            let name = field_name(m, f, *obj, *field);
            let o = st.take(*obj);
            let e = Expr::Field(Box::new(o), name);
            assert(expr_wf(e, gn));
            st.define(*dst, e, false, pc, out);
        },
        Opcode::SetField { obj, field, src } => {
            check2(*obj, *src, n)?;
            let name = field_name(m, f, *obj, *field);
            let o = st.take(*obj);
            let v = st.take(*src);
            let target = Expr::Field(Box::new(o), name);
            assert(expr_wf(target, gn));
            st.flush(out);
            emit(out, Statement::Assign { declaration: false, variable: target, assign: v }, Ghost(gn));
        },
        Opcode::GetThis { dst, field } => {
            check(*dst, n)?;
            let name = field_name(m, f, Reg(0), *field);
            let this = Expr::Constant(Constant::This);
            assert(expr_wf(this, gn));
            let e = Expr::Field(Box::new(this), name);
            assert(expr_wf(e, gn));
            st.define(*dst, e, false, pc, out);
        },
        Opcode::SetThis { field, src } => {
            check(*src, n)?;
            let name = field_name(m, f, Reg(0), *field);
            let v = st.take(*src);
            let this = Expr::Constant(Constant::This);
            assert(expr_wf(this, gn));
            let target = Expr::Field(Box::new(this), name);
            assert(expr_wf(target, gn));
            st.flush(out);
            emit(out, Statement::Assign { declaration: false, variable: target, assign: v }, Ghost(gn));
        },
        Opcode::New { dst } => {
            check(*dst, n)?;
            let e = Expr::Constructor { ty: reg_type(f, *dst), args: Vec::new() };
            assert(exprs_wf(Seq::<Expr>::empty(), gn));
            assert(expr_wf(e, gn));
            st.define(*dst, e, true, pc, out);
        },
        Opcode::StaticClosure { dst, fun } => {
            check(*dst, n)?;
            st.define(*dst, Expr::FunRef(*fun), false, pc, out);
        },
        Opcode::MakeEnum { dst, construct, args } => {
            check(*dst, n)?;
            check_all(args, n)?;
            let es = st.call_args(args);
            let e = Expr::EnumConstr(reg_type(f, *dst), *construct, es);
            assert(expr_wf(e, gn));
            st.define(*dst, e, false, pc, out);
        },
        Opcode::EnumAlloc { dst, construct } => {
            check(*dst, n)?;
            let e = Expr::EnumConstr(reg_type(f, *dst), *construct, Vec::new());
            assert(exprs_wf(Seq::<Expr>::empty(), gn));
            assert(expr_wf(e, gn));
            st.define(*dst, e, false, pc, out);
        },
        Opcode::NullCheck { .. } | Opcode::Assert | Opcode::Nop | Opcode::Label => {},
        _ => {
            let e = Expr::Unknown(String::from_str(f.ops[pc].name()));
            assert(expr_wf(e, gn));
            st.flush(out);
            emit(out, Statement::ExprStatement(e), Ghost(gn));
        },
    }
    Ok(())
}

fn is_control_op(op: &Opcode) -> (r: bool)
    ensures
        r == is_control(*op),
{
    match op {
        Opcode::JTrue { .. } | Opcode::JFalse { .. } | Opcode::JNull { .. } | Opcode::JNotNull { .. }
        | Opcode::JSLt { .. } | Opcode::JSGte { .. } | Opcode::JSGt { .. } | Opcode::JSLte { .. }
        | Opcode::JULt { .. } | Opcode::JUGte { .. } | Opcode::JNotLt { .. } | Opcode::JNotGte { .. }
        | Opcode::JEq { .. } | Opcode::JNotEq { .. } | Opcode::JAlways { .. } | Opcode::Switch { .. }
        | Opcode::Trap { .. } | Opcode::EndTrap { .. } => true,
        _ => false,
    }
}

/// The end of the range `a .. b` without a final jump to `target`.
fn strip_jump(ops: &Vec<Opcode>, a: usize, b: usize, target: usize) -> (r: usize)
    requires
        a <= b <= ops@.len(),
    ensures
        a <= r <= b,
{
    if b > a && always_target(ops, b - 1) == Some(target) {
        b - 1
    } else {
        b
    }
}

/// The last trap end in `pc+1 .. c`.
fn find_end_trap(ops: &Vec<Opcode>, pc: usize, c: usize) -> (r: Option<usize>)
    requires
        pc < c <= ops@.len(),
    ensures
        r matches Some(q) ==> pc < q < c,
{
    let mut q: usize = c - 1;
    while q > pc
        invariant
            pc <= q < c,
            c <= ops@.len(),
        decreases q,
    {
        match &ops[q] {
            Opcode::EndTrap { .. } => {
                return Some(q);
            },
            _ => {},
        }
        q = q - 1;
    }
    None
}

/// Lifts the instructions `start .. end` into a block. A jump to `brk` is a `break` and a
/// jump to `cont` a `continue`; a jump to `end` falls to the end of the block.
fn lift_block(
    st: &mut LiftState,
    m: &Bytecode,
    f: &Function,
    start: usize,
    end: usize,
    brk: Option<usize>,
    cont: Option<usize>,
) -> (res: Result<Vec<Statement>, LiftError>)
    requires
        start <= end <= f.ops@.len(),
        old(st).wf(f.regs@.len() as nat),
        old(st).pending@.len() == f.regs@.len(),
    ensures
        final(st).wf(f.regs@.len() as nat),
        final(st).pending@.len() == f.regs@.len(),
        res matches Ok(ss) ==> stmts_wf(ss@, f.regs@.len() as nat),
        res matches Err(e) ==> lift_error_ok(e, *f),
        straight_range(*f, start, end) ==> (res is Ok <==> regs_in_range(*f, start, end)),
        straight_range(*f, start, end) && regs_in_range(*f, start, end) ==> (res matches Ok(ss) && ss@
            == flush_v(
            old(st).names@,
            run_v(m, *f, old(st).names@, old(st).reads@, view_of(*old(st), Seq::empty()), start as nat, end as nat),
            0,
            f.regs@.len() as nat,
        ).out),
    decreases end - start, 1nat,
{
    let n = f.regs.len();
    let ghost gn = n as nat;
    let len = f.ops.len();
    let ghost straight = straight_range(*f, start, end);
    let ghost names0 = st.names@;
    let ghost reads0 = st.reads@;
    let ghost v0 = view_of(*st, Seq::empty());
    let mut out: Vec<Statement> = Vec::new();
    let mut pc: usize = start;
    while pc < end
        invariant
            straight == straight_range(*f, start, end),
            straight ==> st.names@ == names0 && st.reads@ == reads0 && view_of(*st, out@) == run_v(
                m,
                *f,
                names0,
                reads0,
                v0,
                start as nat,
                pc as nat,
            ) && regs_in_range(*f, start, pc),
            start <= pc <= end,
            end <= f.ops@.len(),
            n == f.regs@.len(),
            gn == n as nat,
            len == f.ops@.len(),
            st.wf(gn),
            st.pending@.len() == n,
            stmts_wf(out@, gn),
        decreases end - pc,
    {
        match back_edge(&f.ops, pc, end) {
            Some(j) => {
                st.flush(&mut out);
                let exit = j + 1;
                let body_start = match &f.ops[pc] {
                    Opcode::Label => pc + 1,
                    _ => pc,
                };
                let mut from = body_start;
                let mut cond = Expr::Constant(Constant::Bool(true));
                assert(expr_wf(cond, gn));
                if body_start < j {
                    match cond_offset(&f.ops[body_start]) {
                        Some(off) => if jump_target(body_start, off, len) == Some(exit) {
                            match jump_condition(st, &f.ops[body_start], false, n) {
                                Ok(c) => {
                                    cond = c;
                                    from = body_start + 1;
                                },
                                Err(e) => {
                                    return Err(e);
                                },
                            }
                        },
                        None => {},
                    }
                }
                let body = match lift_block(st, m, f, from, j, Some(exit), Some(pc)) {
                    Ok(b) => b,
                    Err(e) => {
                        return Err(e);
                    },
                };
                let s = Statement::While { cond, stmts: body };
                assert(stmt_wf(s, gn));
                emit(&mut out, s, Ghost(gn));
                pc = exit;
            },
            None => {
                if is_control_op(&f.ops[pc]) {
                    match lift_control(st, m, f, pc, end, brk, cont, &mut out) {
                        Ok(next) => {
                            pc = next;
                        },
                        Err(e) => {
                            return Err(e);
                        },
                    }
                } else {
                    match lift_op(st, m, f, pc, &mut out) {
                        Ok(()) => {},
                        Err(e) => {
                            return Err(e);
                        },
                    }
                    pc = pc + 1;
                }
            },
        }
    }
    st.flush(&mut out);
    Ok(out)
}

/// Whether the instructions `start .. end` of `f` are all straight-line instructions.
pub open spec fn straight_range(f: Function, start: usize, end: usize) -> bool {
    forall|pc: int| start <= pc < end && pc < f.ops@.len() ==> straight_op(#[trigger] f.ops@[pc])
}

/// Whether the registers that the instructions `start .. end` of `f` name are registers of `f`.
pub open spec fn regs_in_range(f: Function, start: usize, end: usize) -> bool {
    forall|pc: int| start <= pc < end && pc < f.ops@.len() ==> regs_in(#[trigger] f.ops@[pc], f.regs@.len() as nat)
}

/// Lifts the jump, switch or trap at `pc`, with what it encloses, and returns where lifting
/// goes on.
#[verifier::rlimit(100)]
fn lift_control(
    st: &mut LiftState,
    m: &Bytecode,
    f: &Function,
    pc: usize,
    end: usize,
    brk: Option<usize>,
    cont: Option<usize>,
    out: &mut Vec<Statement>,
) -> (res: Result<usize, LiftError>)
    requires
        pc < end <= f.ops@.len(),
        is_control(f.ops@[pc as int]),
        old(st).wf(f.regs@.len() as nat),
        old(st).pending@.len() == f.regs@.len(),
        stmts_wf(old(out)@, f.regs@.len() as nat),
    ensures
        final(st).wf(f.regs@.len() as nat),
        final(st).pending@.len() == f.regs@.len(),
        stmts_wf(final(out)@, f.regs@.len() as nat),
        res matches Ok(next) ==> pc < next <= end,
        res matches Err(e) ==> lift_error_ok(e, *f),
    decreases end - pc, 0nat,
{
    let n = f.regs.len();
    let ghost gn = n as nat;
    let len = f.ops.len();
    match &f.ops[pc] {
        Opcode::JAlways { offset } => {
            let t = jump_target(pc, *offset, len);
            if t == Some(end) {
                Ok(pc + 1)
            } else if t.is_some() && t == brk {
                st.flush(out);
                emit(out, Statement::Break, Ghost(gn));
                Ok(pc + 1)
            } else if t.is_some() && t == cont {
                st.flush(out);
                emit(out, Statement::Continue, Ghost(gn));
                Ok(pc + 1)
            } else {
                Err(LiftError::MalformedCfg(pc))
            }
        },
        Opcode::EndTrap { .. } => Err(LiftError::MalformedCfg(pc)),
        Opcode::Switch { reg, offsets, end: end_offset } => {
            let te = match jump_target(pc, *end_offset, len) {
                Some(t) => t,
                None => {
                    return Err(LiftError::MalformedCfg(pc));
                },
            };
            if te <= pc || te > end || offsets.len() >= 0x7fff_ffff {
                return Err(LiftError::MalformedCfg(pc));
            }
            let mut targets: Vec<usize> = Vec::new();
            let mut prev: usize = pc + 1;
            let mut i: usize = 0;
            while i < offsets.len()
                invariant
                    pc + 1 <= prev <= te,
                    te <= end,
                    end <= len,
                    len == f.ops@.len(),
                    pc < len,
                    targets@.len() == i,
                    i <= offsets@.len(),
                    forall|k: int| 0 <= k < i ==> pc + 1 <= #[trigger] targets@[k] <= prev,
                    forall|k: int, l: int| 0 <= k <= l < i ==> targets@[k] <= targets@[l],
                    i > 0 ==> targets@[i - 1] == prev,
                    n == f.regs@.len(),
                    gn == n as nat,
                    st.wf(gn),
                    st.pending@.len() == n,
                    stmts_wf(out@, gn),
                    is_control(f.ops@[pc as int]),
                decreases offsets@.len() - i,
            {
                let t = match jump_target(pc, offsets[i], len) {
                    Some(t) => t,
                    None => {
                        return Err(LiftError::MalformedCfg(pc));
                    },
                };
                if t < prev || t > te {
                    return Err(LiftError::MalformedCfg(pc));
                }
                targets.push(t);
                prev = t;
                i = i + 1;
            }
            if let Err(e) = check(*reg, n) {
                return Err(e);
            }
            let arg = st.take(*reg);
            st.flush(out);
            let first = if targets.len() > 0 { targets[0] } else { te };
            let default = match lift_block(st, m, f, pc + 1, strip_jump(&f.ops, pc + 1, first, te), Some(te), cont) {
                Ok(b) => b,
                Err(e) => {
                    return Err(e);
                },
            };
            let mut cases: Vec<(Expr, Vec<Statement>)> = Vec::new();
            let mut k: usize = 0;
            while k < targets.len()
                invariant
                    targets@.len() == offsets@.len(),
                    offsets@.len() < 0x7fff_ffff,
                    forall|x: int| 0 <= x < targets@.len() ==> pc + 1 <= #[trigger] targets@[x] <= te,
                    forall|x: int, y: int| 0 <= x <= y < targets@.len() ==> targets@[x] <= targets@[y],
                    pc < te <= end,
                    end <= f.ops@.len(),
                    n == f.regs@.len(),
                    gn == n as nat,
                    st.wf(gn),
                    st.pending@.len() == n,
                    cases_wf(cases@, gn),
                    stmts_wf(out@, gn),
                    expr_wf(arg, gn),
                    stmts_wf(default@, gn),
                decreases targets@.len() - k,
            {
                let a = targets[k];
                let b = if k + 1 < targets.len() { targets[k + 1] } else { te };
                let body = match lift_block(st, m, f, a, strip_jump(&f.ops, a, b, te), Some(te), cont) {
                    Ok(b) => b,
                    Err(e) => {
                        return Err(e);
                    },
                };
                let pattern = Expr::Constant(Constant::InlineInt(k as i32));
                assert(expr_wf(pattern, gn));
                proof {
                    lemma_cases_push(cases@, (pattern, body), gn);
                }
                cases.push((pattern, body));
                k = k + 1;
            }
            let s = Statement::Switch { arg, default, cases };
            assert(stmt_wf(s, gn));
            emit(out, s, Ghost(gn));
            Ok(te)
        },
        Opcode::Trap { offset, .. } => {
            let c = match jump_target(pc, *offset, len) {
                Some(c) => c,
                None => {
                    return Err(LiftError::MalformedCfg(pc));
                },
            };
            if c <= pc || c > end {
                return Err(LiftError::MalformedCfg(pc));
            }
            let q = match find_end_trap(&f.ops, pc, c) {
                Some(q) => q,
                None => {
                    return Err(LiftError::MalformedCfg(pc));
                },
            };
            let mut catch_end = end;
            if q + 1 < c {
                match always_target(&f.ops, q + 1) {
                    Some(e) => if c <= e && e <= end && q + 2 == c {
                        catch_end = e;
                    } else {
                        return Err(LiftError::MalformedCfg(pc));
                    },
                    None => {
                        return Err(LiftError::MalformedCfg(pc));
                    },
                }
            }
            st.flush(out);
            let body = match lift_block(st, m, f, pc + 1, q, brk, cont) {
                Ok(b) => b,
                Err(e) => {
                    return Err(e);
                },
            };
            let handler = match lift_block(st, m, f, c, catch_end, brk, cont) {
                Ok(b) => b,
                Err(e) => {
                    return Err(e);
                },
            };
            let t = Statement::Try { stmts: body };
            assert(stmt_wf(t, gn));
            let h = Statement::Catch { stmts: handler };
            assert(stmt_wf(h, gn));
            emit_try_catch(out, t, h, Ghost(gn));
            Ok(catch_end)
        },
        op => {
            let t = match cond_offset(op) {
                Some(off) => jump_target(pc, off, len),
                None => None,
            };
            let t = match t {
                Some(t) => t,
                None => {
                    return Err(LiftError::MalformedCfg(pc));
                },
            };
            if Some(t) == brk || Some(t) == cont {
                let cond = match jump_condition(st, op, true, n) {
                    Ok(c) => c,
                    Err(e) => {
                        return Err(e);
                    },
                };
                st.flush(out);
                let mut body: Vec<Statement> = Vec::new();
                let jump = if Some(t) == brk { Statement::Break } else { Statement::Continue };
                emit(&mut body, jump, Ghost(gn));
                let s = Statement::IfElse { cond, if_: body, else_: Vec::new() };
                assert(stmts_wf(Seq::<Statement>::empty(), gn));
                assert(stmt_wf(s, gn));
                emit(out, s, Ghost(gn));
                return Ok(pc + 1);
            }
            if t <= pc || t > end {
                return Err(LiftError::MalformedCfg(pc));
            }
            let cond = match jump_condition(st, op, false, n) {
                Ok(c) => c,
                Err(e) => {
                    return Err(e);
                },
            };
            st.flush(out);
            let mut then_end = t;
            let mut else_end = t;
            if t - 1 > pc {
                match always_target(&f.ops, t - 1) {
                    Some(e) => if t <= e && e <= end && Some(e) != brk && Some(e) != cont {
                        then_end = t - 1;
                        else_end = e;
                    },
                    None => if ends_flow(&f.ops[t - 1]) && t < end {
                        else_end = end;
                    },
                }
            }
            let if_ = match lift_block(st, m, f, pc + 1, then_end, brk, cont) {
                Ok(b) => b,
                Err(e) => {
                    return Err(e);
                },
            };
            let else_ = match lift_block(st, m, f, t, else_end, brk, cont) {
                Ok(b) => b,
                Err(e) => {
                    return Err(e);
                },
            };
            let s = Statement::IfElse { cond, if_, else_ };
            assert(stmt_wf(s, gn));
            emit(out, s, Ghost(gn));
            Ok(else_end)
        },
    }
}

/// Lifts the instruction stream of `f` into statements.
///
/// A register named outside the function's registers is refused with that register; a
/// jump that no structured statement expresses is refused with its position. The result is
/// well formed: every variable in it names a register of the function, and in every block
/// each `Try` statement is followed at once by its `Catch` statement.
pub fn lift_function(m: &Bytecode, f: &Function) -> (res: Result<Vec<Statement>, LiftError>)
    ensures
        res matches Ok(stmts) ==> stmts_wf(stmts@, f.regs@.len() as nat),
        res matches Err(e) ==> lift_error_ok(e, *f),
        is_straight(*f) ==> (res is Ok <==> regs_all_in(*f)),
        is_straight(*f) && regs_all_in(*f) ==> (res matches Ok(stmts) && stmts@ == lifted(m, *f)),
{
    let n = f.regs.len();
    let nargs = arg_count(m, f);
    let mut pending: Vec<Option<Expr>> = Vec::new();
    let mut declared: Vec<bool> = Vec::new();
    let mut names: Vec<Option<RefString>> = Vec::new();
    let mut i: usize = 0;
    while i < n
        invariant
            i <= n,
            n == f.regs@.len(),
            pending@.len() == i,
            declared@.len() == i,
            names@.len() == i,
            forall|k: int| 0 <= k < i ==> (#[trigger] pending@[k]) is None,
            nargs == arg_count_v(m, *f),
            declared@ == Seq::new(i as nat, |k: int| k < arg_count_v(m, *f)),
            names@ == Seq::new(i as nat, |k: int| reg_name(*f, k)),
        decreases n - i,
    {
        pending.push(None);
        declared.push(i < nargs);
        let name = if i < f.reg_names.len() {
            f.reg_names[i]
        } else {
            None
        };
        names.push(name);
        i = i + 1;
        assert(declared@ =~= Seq::new(i as nat, |k: int| k < arg_count_v(m, *f)));
        assert(names@ =~= Seq::new(i as nat, |k: int| reg_name(*f, k)));
    }
    assert(pending@ =~= Seq::new(n as nat, |k: int| None::<Expr>));
    let reads = count_reads(&f.ops, n);
    let mut st = LiftState { pending, declared, reads, names };
    assert(view_of(st, Seq::empty()) == init_v(m, *f));
    let len = f.ops.len();
    assert(straight_range(*f, 0, len) == is_straight(*f));
    assert(regs_in_range(*f, 0, len) == regs_all_in(*f));
    lift_block(&mut st, m, f, 0, len, None, None)
}

/// Lifts function `fun` of the module into a method with the given flags.
pub fn decompile_method(m: &Bytecode, fun: RefFun, static_: bool, dynamic: bool) -> (res: Result<Method, LiftError>)
    ensures
        fun.0 >= m.functions@.len() <==> res == Err::<Method, LiftError>(LiftError::BadFunction(fun)),
        res matches Ok(meth) ==> meth.fun == fun && meth.static_ == static_ && meth.dynamic == dynamic
            && stmts_wf(meth.statements@, m.functions@[fun.0 as int].regs@.len()),
        fun.0 < m.functions@.len() && is_straight(m.functions@[fun.0 as int]) ==> (res is Ok <==> regs_all_in(
            m.functions@[fun.0 as int],
        )),
        fun.0 < m.functions@.len() && is_straight(m.functions@[fun.0 as int]) && regs_all_in(
            m.functions@[fun.0 as int],
        ) ==> (res matches Ok(meth) && meth.statements@ == lifted(m, m.functions@[fun.0 as int])),
{
    if fun.0 >= m.functions.len() {
        return Err(LiftError::BadFunction(fun));
    }
    let statements = match lift_function(m, &m.functions[fun.0]) {
        Ok(s) => s,
        Err(e) => {
            return Err(e);
        },
    };
    Ok(Method { fun, static_, dynamic, statements })
}

} // verus!
