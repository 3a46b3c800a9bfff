//! The binary form of instructions.
//!
//! An instruction is its tag byte (the variant's position in the instruction set)
//! followed by its operands in declaration order. Every integer operand, and the length
//! that prefixes each operand list, is a variable-length integer of one, two or four
//! bytes: `0xxxxxxx` holds 0..=127; `10sxxxxx xxxxxxxx` and
//! `11sxxxxx xxxxxxxx xxxxxxxx xxxxxxxx` hold a magnitude of 13 or 29 bits, negated
//! when `s` is set.

use vstd::prelude::*;
use crate::opcode::Opcode;
use crate::types::{
    RefBytes, RefField, RefFloat, RefFun, RefGlobal, RefInt, RefString, RefType, Reg, ValBool,
};

verus! {

/// The magnitudes that a variable-length integer can hold: below 2^29.
pub open spec fn encodable(v: int) -> bool {
    -0x2000_0000 < v < 0x2000_0000
}

/// The bytes of the variable-length integer `v`.
pub open spec fn var_bytes(v: int) -> Seq<u8> {
    let neg = v < 0;
    let a: int = if neg { -v } else { v };
    let s: int = if neg { 0x20 } else { 0 };
    if 0 <= v < 0x80 {
        seq![v as u8]
    } else if a < 0x2000 {
        seq![(0x80 + s + a / 0x100) as u8, (a % 0x100) as u8]
    } else {
        seq![
            (0xc0 + s + a / 0x100_0000) as u8,
            (a / 0x1_0000 % 0x100) as u8,
            (a / 0x100 % 0x100) as u8,
            (a % 0x100) as u8,
        ]
    }
}

/// The variable-length integer at the start of `b` and the number of bytes it takes,
/// if `b` is long enough to hold it.
pub open spec fn var_decode(b: Seq<u8>) -> Option<(int, nat)> {
    if b.len() == 0 {
        None
    } else {
        let b0 = b[0] as int;
        if b0 < 0x80 {
            Some((b0, 1))
        } else if b0 < 0xc0 {
            if b.len() < 2 {
                None
            } else {
                let a = (b0 - 0x80) % 0x20 * 0x100 + b[1] as int;
                Some((if b0 - 0x80 >= 0x20 { -a } else { a }, 2))
            }
        } else if b.len() < 4 {
            None
        } else {
            let a = (b0 - 0xc0) % 0x20 * 0x100_0000 + b[1] as int * 0x1_0000 + b[2] as int * 0x100
                + b[3] as int;
            Some((if b0 - 0xc0 >= 0x20 { -a } else { a }, 4))
        }
    }
}

/// Decoding the bytes of an encodable integer gives it back, whatever follows them.
pub proof fn lemma_var_round_trip(v: int, rest: Seq<u8>)
    requires
        encodable(v),
    ensures
        var_decode(var_bytes(v) + rest) == Some((v, var_bytes(v).len())),
{
    let b = var_bytes(v) + rest;
    let a: int = if v < 0 { -v } else { v };
    if 0 <= v < 0x80 {
        assert(b[0] == v as u8);
    } else if a < 0x2000 {
        assert(b[0] == var_bytes(v)[0] && b[1] == var_bytes(v)[1]);
        assert(((a / 0x100) + 0x20) % 0x20 == a / 0x100 % 0x20);
    } else {
        assert(b[0] == var_bytes(v)[0] && b[1] == var_bytes(v)[1] && b[2] == var_bytes(v)[2]
            && b[3] == var_bytes(v)[3]);
        assert(a / 0x100_0000 < 0x20);
        assert(a == a / 0x100_0000 * 0x100_0000 + a / 0x1_0000 % 0x100 * 0x1_0000 + a / 0x100 % 0x100
            * 0x100 + a % 0x100);
    }
}

proof fn lemma_var_decode_bounds(b: Seq<u8>)
    ensures
        var_decode(b) matches Some((v, n)) ==> encodable(v) && 1 <= n <= b.len() && n <= 4,
{
    if b.len() > 0 {
        let b0 = b[0] as int;
        if b0 >= 0xc0 && b.len() >= 4 {
            assert((b0 - 0xc0) % 0x20 <= 0x1f);
            assert((b0 - 0xc0) % 0x20 * 0x100_0000 <= 0x1f * 0x100_0000);
            assert(b[1] as int * 0x1_0000 <= 0xff * 0x1_0000);
            assert(b[2] as int * 0x100 <= 0xff * 0x100);
        } else if b0 >= 0x80 && b.len() >= 2 {
            assert((b0 - 0x80) % 0x20 * 0x100 <= 0x1f * 0x100);
        }
    }
}

/// Appends the variable-length integer `v`.
pub fn write_var(out: &mut Vec<u8>, v: i64)
    requires
        encodable(v as int),
    ensures
        final(out)@ == old(out)@ + var_bytes(v as int),
{
    let neg = v < 0;
    let a: i64 = if neg { -v } else { v };
    let s: i64 = if neg { 0x20 } else { 0 };
    if 0 <= v && v < 0x80 {
        out.push(v as u8);
    } else if a < 0x2000 {
        out.push((0x80 + s + a / 0x100) as u8);
        out.push((a % 0x100) as u8);
    } else {
        out.push((0xc0 + s + a / 0x100_0000) as u8);
        out.push((a / 0x1_0000 % 0x100) as u8);
        out.push((a / 0x100 % 0x100) as u8);
        out.push((a % 0x100) as u8);
    }
    assert(out@ =~= old(out)@ + var_bytes(v as int));
}

/// Reads the variable-length integer at `pos`.
pub fn read_var(bytes: &[u8], pos: usize) -> (r: Option<(i64, usize)>)
    requires
        pos <= bytes@.len(),
    ensures
        r is Some <==> var_decode(bytes@.subrange(pos as int, bytes@.len() as int)) is Some,
        r matches Some((x, q)) ==> var_decode(bytes@.subrange(pos as int, bytes@.len() as int)) == Some(
            (x as int, (q - pos) as nat),
        ) && pos < q <= bytes@.len() && encodable(x as int),
{
    proof {
        lemma_var_decode_bounds(bytes@.subrange(pos as int, bytes@.len() as int));
    }
    let ghost b = bytes@.subrange(pos as int, bytes@.len() as int);
    let len = bytes.len();
    if pos >= len {
        return None;
    }
    let b0 = bytes[pos] as i64;
    assert(b[0] == bytes@[pos as int]);
    if b0 < 0x80 {
        Some((b0, pos + 1))
    } else if b0 < 0xc0 {
        if len - pos < 2 {
            return None;
        }
        assert(b[1] == bytes@[pos + 1]);
        let a = (b0 - 0x80) % 0x20 * 0x100 + bytes[pos + 1] as i64;
        Some((if b0 - 0x80 >= 0x20 { -a } else { a }, pos + 2))
    } else {
        if len - pos < 4 {
            return None;
        }
        assert(b[1] == bytes@[pos + 1] && b[2] == bytes@[pos + 2] && b[3] == bytes@[pos + 3]);
        let a = (b0 - 0xc0) % 0x20 * 0x100_0000 + bytes[pos + 1] as i64 * 0x1_0000 + bytes[pos + 2] as i64
            * 0x100 + bytes[pos + 3] as i64;
        Some((if b0 - 0xc0 >= 0x20 { -a } else { a }, pos + 4))
    }
}

/// The kind of one operand of an instruction.
#[derive(Clone, Copy, Debug, PartialEq, Eq, Structural)]
pub enum OperandKind {
    /// A register.
    Reg,
    /// An index into a pool or table, or another unsigned count.
    Index,
    /// A signed jump offset.
    Offset,
    /// A boolean, written as 0 or 1.
    Flag,
    /// A length-prefixed list of registers.
    RegList,
    /// A length-prefixed list of jump offsets.
    OffsetList,
}

/// One operand as the binary form carries it.
#[derive(Debug)]
pub enum Operand {
    Scalar(i64),
    List(Vec<i64>),
}

/// The mathematical value of an operand.
pub enum OperandValue {
    Scalar(int),
    List(Seq<int>),
}

pub open spec fn operand_view(o: Operand) -> OperandValue {
    match o {
        Operand::Scalar(v) => OperandValue::Scalar(v as int),
        Operand::List(l) => OperandValue::List(l@.map_values(|x: i64| x as int)),
    }
}

pub open spec fn operands_view(os: Seq<Operand>) -> Seq<OperandValue> {
    os.map_values(|o: Operand| operand_view(o))
}

pub open spec fn is_list_kind(k: OperandKind) -> bool {
    k == OperandKind::RegList || k == OperandKind::OffsetList
}

/// Whether a scalar value is acceptable for a scalar kind, or an element for a list kind.
pub open spec fn scalar_fits(v: int, k: OperandKind) -> bool {
    match k {
        OperandKind::Reg | OperandKind::Index | OperandKind::RegList => 0 <= v < 0x2000_0000,
        OperandKind::Offset | OperandKind::OffsetList => encodable(v),
        OperandKind::Flag => v == 0 || v == 1,
    }
}

/// Whether an operand has the form of its kind: a scalar or a list.
pub open spec fn has_form(x: OperandValue, k: OperandKind) -> bool {
    match x {
        OperandValue::Scalar(_) => !is_list_kind(k),
        OperandValue::List(_) => is_list_kind(k),
    }
}

/// Whether an operand has the form of its kind and values that the binary form can hold.
pub open spec fn fits(x: OperandValue, k: OperandKind) -> bool {
    match x {
        OperandValue::Scalar(v) => !is_list_kind(k) && scalar_fits(v, k),
        OperandValue::List(l) => is_list_kind(k) && l.len() < 0x2000_0000 && forall|j: int|
            0 <= j < l.len() ==> scalar_fits(#[trigger] l[j], k),
    }
}

/// The operands match the kinds one for one in number and form.
pub open spec fn shaped(items: Seq<OperandValue>, kinds: Seq<OperandKind>) -> bool {
    items.len() == kinds.len() && forall|i: int| 0 <= i < items.len() ==> has_form(#[trigger] items[i], kinds[i])
}

/// The operands match the kinds and every value can be written.
pub open spec fn fitting(items: Seq<OperandValue>, kinds: Seq<OperandKind>) -> bool {
    items.len() == kinds.len() && forall|i: int| 0 <= i < items.len() ==> fits(#[trigger] items[i], kinds[i])
}

pub open spec fn list_bytes(l: Seq<int>) -> Seq<u8>
    decreases l.len(),
{
    if l.len() == 0 {
        Seq::empty()
    } else {
        list_bytes(l.drop_last()) + var_bytes(l.last())
    }
}

pub open spec fn operand_bytes(x: OperandValue) -> Seq<u8> {
    match x {
        OperandValue::Scalar(v) => var_bytes(v),
        OperandValue::List(l) => var_bytes(l.len() as int) + list_bytes(l),
    }
}

pub open spec fn operands_bytes(items: Seq<OperandValue>) -> Seq<u8>
    decreases items.len(),
{
    if items.len() == 0 {
        Seq::empty()
    } else {
        operands_bytes(items.drop_last()) + operand_bytes(items.last())
    }
}

/// Why bytes could not be read as an instruction.
#[derive(Clone, Copy, Debug, PartialEq, Eq, Structural)]
pub enum DecodeError {
    /// The bytes end inside an instruction.
    Truncated,
    /// The tag byte names no instruction.
    UnknownOpcode(u8),
    /// An operand holds a value that its kind does not allow, such as a negative index.
    BadReference(i64),
}

/// Reading `count` list elements of kind `k` from the start of `b`: the elements and the
/// number of bytes they take.
pub open spec fn list_decode(b: Seq<u8>, count: nat, k: OperandKind) -> Result<(Seq<int>, nat), DecodeError>
    decreases count,
{
    if count == 0 {
        Ok((Seq::empty(), 0))
    } else {
        match list_decode(b, (count - 1) as nat, k) {
            Ok((l, n)) => match var_decode(b.subrange(n as int, b.len() as int)) {
                Some((v, m)) => if scalar_fits(v, k) {
                    Ok((l.push(v), n + m))
                } else {
                    Err(DecodeError::BadReference(v as i64))
                },
                None => Err(DecodeError::Truncated),
            },
            Err(e) => Err(e),
        }
    }
}

/// Reading one operand of kind `k` from the start of `b`.
pub open spec fn operand_decode(b: Seq<u8>, k: OperandKind) -> Result<(OperandValue, nat), DecodeError> {
    match var_decode(b) {
        None => Err(DecodeError::Truncated),
        Some((v, m)) => if !is_list_kind(k) {
            if scalar_fits(v, k) {
                Ok((OperandValue::Scalar(v), m))
            } else {
                Err(DecodeError::BadReference(v as i64))
            }
        } else if 0 <= v < 0x2000_0000 {
            match list_decode(b.subrange(m as int, b.len() as int), v as nat, k) {
                Ok((l, n)) => Ok((OperandValue::List(l), m + n)),
                Err(e) => Err(e),
            }
        } else {
            Err(DecodeError::BadReference(v as i64))
        },
    }
}

/// Reading operands of the given kinds, in order, from the start of `b`.
pub open spec fn operands_decode(b: Seq<u8>, kinds: Seq<OperandKind>) -> Result<(Seq<OperandValue>, nat), DecodeError>
    decreases kinds.len(),
{
    if kinds.len() == 0 {
        Ok((Seq::empty(), 0))
    } else {
        match operands_decode(b, kinds.drop_last()) {
            Ok((items, n)) => match operand_decode(b.subrange(n as int, b.len() as int), kinds.last()) {
                Ok((x, m)) => Ok((items.push(x), n + m)),
                Err(e) => Err(e),
            },
            Err(e) => Err(e),
        }
    }
}

proof fn lemma_list_round_trip(l: Seq<int>, k: OperandKind, rest: Seq<u8>)
    requires
        forall|j: int| 0 <= j < l.len() ==> scalar_fits(#[trigger] l[j], k),
        k == OperandKind::RegList || k == OperandKind::OffsetList,
    ensures
        list_decode(list_bytes(l) + rest, l.len(), k) == Ok::<(Seq<int>, nat), DecodeError>((l, list_bytes(l).len())),
    decreases l.len(),
{
    if l.len() > 0 {
        let pre = l.drop_last();
        let tail = var_bytes(l.last()) + rest;
        assert(forall|j: int| 0 <= j < pre.len() ==> pre[j] == l[j]);
        lemma_list_round_trip(pre, k, tail);
        let b = list_bytes(l) + rest;
        assert(b =~= list_bytes(pre) + tail);
        let n = list_bytes(pre).len();
        assert(b.subrange(n as int, b.len() as int) =~= var_bytes(l.last()) + rest);
        assert(scalar_fits(l[l.len() - 1], k));
        lemma_var_round_trip(l.last(), rest);
        assert(pre.push(l.last()) =~= l);
    } else {
        assert(l =~= Seq::<int>::empty());
        assert(list_bytes(l) + rest =~= rest);
    }
}

proof fn lemma_operand_round_trip(x: OperandValue, k: OperandKind, rest: Seq<u8>)
    requires
        fits(x, k),
    ensures
        operand_decode(operand_bytes(x) + rest, k) == Ok::<(OperandValue, nat), DecodeError>((x, operand_bytes(x).len())),
{
    match x {
        OperandValue::Scalar(v) => {
            lemma_var_round_trip(v, rest);
        },
        OperandValue::List(l) => {
            let b = operand_bytes(x) + rest;
            let tail = list_bytes(l) + rest;
            assert(b =~= var_bytes(l.len() as int) + tail);
            lemma_var_round_trip(l.len() as int, tail);
            let m = var_bytes(l.len() as int).len();
            assert(b.subrange(m as int, b.len() as int) =~= tail);
            lemma_list_round_trip(l, k, rest);
        },
    }
}

/// Decoding the bytes of operands that fit their kinds gives them back, whatever follows.
pub proof fn lemma_operands_round_trip(items: Seq<OperandValue>, kinds: Seq<OperandKind>, rest: Seq<u8>)
    requires
        fitting(items, kinds),
    ensures
        operands_decode(operands_bytes(items) + rest, kinds) == Ok::<(Seq<OperandValue>, nat), DecodeError>(
            (items, operands_bytes(items).len()),
        ),
    decreases items.len(),
{
    if items.len() > 0 {
        let pre = items.drop_last();
        let last = items.last();
        let tail = operand_bytes(last) + rest;
        assert(fitting(pre, kinds.drop_last())) by {
            assert forall|i: int| 0 <= i < pre.len() implies fits(#[trigger] pre[i], kinds.drop_last()[i]) by {
                assert(pre[i] == items[i]);
            }
        }
        lemma_operands_round_trip(pre, kinds.drop_last(), tail);
        let b = operands_bytes(items) + rest;
        assert(b =~= operands_bytes(pre) + tail);
        let n = operands_bytes(pre).len();
        assert(b.subrange(n as int, b.len() as int) =~= operand_bytes(last) + rest);
        assert(fits(items[items.len() - 1], kinds[kinds.len() - 1]));
        lemma_operand_round_trip(last, kinds.last(), rest);
        assert(pre.push(last) =~= items);
    } else {
        assert(items =~= Seq::<OperandValue>::empty());
    }
}

/// Whether every value of an operand can be written.
pub open spec fn writable(x: OperandValue) -> bool {
    match x {
        OperandValue::Scalar(v) => encodable(v),
        OperandValue::List(l) => l.len() < 0x2000_0000 && forall|j: int| 0 <= j < l.len() ==> encodable(#[trigger] l[j]),
    }
}

fn write_list(out: &mut Vec<u8>, l: &Vec<i64>)
    requires
        forall|j: int| 0 <= j < l@.len() ==> encodable(#[trigger] l@[j] as int),
    ensures
        final(out)@ == old(out)@ + list_bytes(l@.map_values(|x: i64| x as int)),
{
    let ghost start = out@;
    let ghost lv = l@.map_values(|x: i64| x as int);
    let mut i: usize = 0;
    while i < l.len()
        invariant
            i <= l@.len(),
            lv == l@.map_values(|x: i64| x as int),
            forall|j: int| 0 <= j < l@.len() ==> encodable(#[trigger] l@[j] as int),
            out@ == start + list_bytes(lv.subrange(0, i as int)),
        decreases l@.len() - i,
    {
        write_var(out, l[i]);
        assert(lv.subrange(0, i + 1).drop_last() =~= lv.subrange(0, i as int));
        assert(out@ =~= start + list_bytes(lv.subrange(0, i + 1)));
        i = i + 1;
    }
    assert(lv.subrange(0, l@.len() as int) =~= lv);
}

/// Appends the binary form of the operands.
pub fn write_operands(out: &mut Vec<u8>, items: &Vec<Operand>)
    requires
        forall|i: int| 0 <= i < items@.len() ==> writable(#[trigger] operand_view(items@[i])),
    ensures
        final(out)@ == old(out)@ + operands_bytes(operands_view(items@)),
{
    let ghost start = out@;
    let ghost iv = operands_view(items@);
    let mut i: usize = 0;
    while i < items.len()
        invariant
            i <= items@.len(),
            iv == operands_view(items@),
            forall|k: int| 0 <= k < items@.len() ==> writable(#[trigger] operand_view(items@[k])),
            out@ == start + operands_bytes(iv.subrange(0, i as int)),
        decreases items@.len() - i,
    {
        assert(writable(operand_view(items@[i as int])));
        match &items[i] {
            Operand::Scalar(v) => write_var(out, *v),
            Operand::List(l) => {
                let ghost before = out@;
                assert forall|j: int| 0 <= j < l@.len() implies encodable(#[trigger] l@[j] as int) by {
                    assert(l@.map_values(|x: i64| x as int)[j] == l@[j] as int);
                }
                write_var(out, l.len() as i64);
                write_list(out, l);
                assert(out@ =~= before + operand_bytes(operand_view(items@[i as int])));
            },
        }
        assert(iv.subrange(0, i + 1).drop_last() =~= iv.subrange(0, i as int));
        assert(out@ =~= start + operands_bytes(iv.subrange(0, i + 1)));
        i = i + 1;
    }
    assert(iv.subrange(0, items@.len() as int) =~= iv);
}

proof fn lemma_list_err(b: Seq<u8>, i: nat, j: nat, k: OperandKind)
    requires
        i <= j,
        list_decode(b, i, k) is Err,
    ensures
        list_decode(b, j, k) == list_decode(b, i, k),
    decreases j,
{
    if j > i {
        lemma_list_err(b, i, (j - 1) as nat, k);
    }
}

proof fn lemma_operands_err(b: Seq<u8>, kinds: Seq<OperandKind>, i: int)
    requires
        0 <= i <= kinds.len(),
        operands_decode(b, kinds.subrange(0, i)) is Err,
    ensures
        operands_decode(b, kinds) == operands_decode(b, kinds.subrange(0, i)),
    decreases kinds.len() - i,
{
    if i < kinds.len() {
        assert(kinds.subrange(0, i + 1).drop_last() =~= kinds.subrange(0, i));
        lemma_operands_err(b, kinds, i + 1);
    } else {
        assert(kinds.subrange(0, i) =~= kinds);
    }
}

fn read_list(bytes: &[u8], pos: usize, count: usize, k: OperandKind) -> (r: Result<(Vec<i64>, usize), DecodeError>)
    requires
        pos <= bytes@.len(),
    ensures
        match list_decode(bytes@.subrange(pos as int, bytes@.len() as int), count as nat, k) {
            Ok((l, n)) => r matches Ok((v, end)) && v@.map_values(|x: i64| x as int) == l && end == pos + n
                && end <= bytes@.len(),
            Err(e) => r == Err::<(Vec<i64>, usize), DecodeError>(e),
        },
{
    let ghost b = bytes@.subrange(pos as int, bytes@.len() as int);
    let mut v: Vec<i64> = Vec::new();
    let mut p: usize = pos;
    let mut i: usize = 0;
    assert(v@.map_values(|x: i64| x as int) =~= Seq::<int>::empty());
    while i < count
        invariant
            i <= count,
            pos <= p <= bytes@.len(),
            b == bytes@.subrange(pos as int, bytes@.len() as int),
            list_decode(b, i as nat, k) == Ok::<(Seq<int>, nat), DecodeError>(
                (v@.map_values(|x: i64| x as int), (p - pos) as nat),
            ),
        decreases count - i,
    {
        assert(b.subrange(p - pos, b.len() as int) =~= bytes@.subrange(p as int, bytes@.len() as int));
        match read_var(bytes, p) {
            None => {
                proof {
                    lemma_list_err(b, (i + 1) as nat, count as nat, k);
                }
                return Err(DecodeError::Truncated);
            },
            Some((x, next)) => {
                let ok = match k {
                    OperandKind::Reg | OperandKind::Index | OperandKind::RegList => 0 <= x && x < 0x2000_0000,
                    OperandKind::Offset | OperandKind::OffsetList => -0x2000_0000 < x && x < 0x2000_0000,
                    OperandKind::Flag => x == 0 || x == 1,
                };
                if !ok {
                    proof {
                        lemma_list_err(b, (i + 1) as nat, count as nat, k);
                    }
                    return Err(DecodeError::BadReference(x));
                }
                let ghost old_v = v@;
                v.push(x);
                assert(v@.map_values(|y: i64| y as int) =~= old_v.map_values(|y: i64| y as int).push(x as int));
                p = next;
            },
        }
        i = i + 1;
    }
    Ok((v, p))
}

/// Reads operands of the given kinds, in order, starting at `pos`.
pub fn read_operands(bytes: &[u8], pos: usize, kinds: &Vec<OperandKind>) -> (r: Result<(Vec<Operand>, usize), DecodeError>)
    requires
        pos <= bytes@.len(),
    ensures
        match operands_decode(bytes@.subrange(pos as int, bytes@.len() as int), kinds@) {
            Ok((items, n)) => r matches Ok((os, end)) && operands_view(os@) == items && end == pos + n
                && end <= bytes@.len(),
            Err(e) => r == Err::<(Vec<Operand>, usize), DecodeError>(e),
        },
{
    let ghost b = bytes@.subrange(pos as int, bytes@.len() as int);
    let mut os: Vec<Operand> = Vec::new();
    let mut p: usize = pos;
    let mut i: usize = 0;
    assert(operands_view(os@) =~= Seq::<OperandValue>::empty());
    while i < kinds.len()
        invariant
            i <= kinds@.len(),
            pos <= p <= bytes@.len(),
            b == bytes@.subrange(pos as int, bytes@.len() as int),
            operands_decode(b, kinds@.subrange(0, i as int)) == Ok::<(Seq<OperandValue>, nat), DecodeError>(
                (operands_view(os@), (p - pos) as nat),
            ),
        decreases kinds@.len() - i,
    {
        let k = kinds[i];
        let ghost rest = bytes@.subrange(p as int, bytes@.len() as int);
        assert(b.subrange(p - pos, b.len() as int) =~= rest);
        assert(kinds@.subrange(0, i + 1).drop_last() =~= kinds@.subrange(0, i as int));
        let (x, next) = match read_var(bytes, p) {
            None => {
                proof {
                    lemma_operands_err(b, kinds@, i + 1);
                }
                return Err(DecodeError::Truncated);
            },
            Some((v, q)) => {
                let is_list = match k {
                    OperandKind::RegList | OperandKind::OffsetList => true,
                    _ => false,
                };
                if !is_list {
                    let ok = match k {
                        OperandKind::Reg | OperandKind::Index => 0 <= v && v < 0x2000_0000,
                        OperandKind::Flag => v == 0 || v == 1,
                        _ => -0x2000_0000 < v && v < 0x2000_0000,
                    };
                    if !ok {
                        proof {
                            lemma_operands_err(b, kinds@, i + 1);
                        }
                        return Err(DecodeError::BadReference(v));
                    }
                    (Operand::Scalar(v), q)
                } else {
                    if !(0 <= v && v < 0x2000_0000) {
                        proof {
                            lemma_operands_err(b, kinds@, i + 1);
                        }
                        return Err(DecodeError::BadReference(v));
                    }
                    assert(rest.subrange((q - p) as int, rest.len() as int) =~= bytes@.subrange(
                        q as int,
                        bytes@.len() as int,
                    ));
                    match read_list(bytes, q, v as usize, k) {
                        Ok((l, end)) => (Operand::List(l), end),
                        Err(e) => {
                            proof {
                                lemma_operands_err(b, kinds@, i + 1);
                            }
                            return Err(e);
                        },
                    }
                }
            },
        };
        let ghost old_os = os@;
        os.push(x);
        assert(operands_view(os@) =~= operands_view(old_os).push(operand_view(x)));
        p = next;
        i = i + 1;
    }
    assert(kinds@.subrange(0, kinds@.len() as int) =~= kinds@);
    Ok((os, p))
}

/// The tag byte of an instruction: its variant's position in the instruction set.
pub open spec fn opcode_tag(op: Opcode) -> u8 {
    match op {
        Opcode::Mov { .. } => 0,
        Opcode::Int { .. } => 1,
        Opcode::Float { .. } => 2,
        Opcode::Bool { .. } => 3,
        Opcode::Bytes { .. } => 4,
        Opcode::String { .. } => 5,
        Opcode::Null { .. } => 6,
        Opcode::Add { .. } => 7,
        Opcode::Sub { .. } => 8,
        Opcode::Mul { .. } => 9,
        Opcode::SDiv { .. } => 10,
        Opcode::UDiv { .. } => 11,
        Opcode::SMod { .. } => 12,
        Opcode::UMod { .. } => 13,
        Opcode::Shl { .. } => 14,
        Opcode::SShr { .. } => 15,
        Opcode::UShr { .. } => 16,
        Opcode::And { .. } => 17,
        Opcode::Or { .. } => 18,
        Opcode::Xor { .. } => 19,
        Opcode::Neg { .. } => 20,
        Opcode::Not { .. } => 21,
        Opcode::Incr { .. } => 22,
        Opcode::Decr { .. } => 23,
        Opcode::Call0 { .. } => 24,
        Opcode::Call1 { .. } => 25,
        Opcode::Call2 { .. } => 26,
        Opcode::Call3 { .. } => 27,
        Opcode::Call4 { .. } => 28,
        Opcode::CallN { .. } => 29,
        Opcode::CallMethod { .. } => 30,
        Opcode::CallThis { .. } => 31,
        Opcode::CallClosure { .. } => 32,
        Opcode::StaticClosure { .. } => 33,
        Opcode::InstanceClosure { .. } => 34,
        Opcode::VirtualClosure { .. } => 35,
        Opcode::GetGlobal { .. } => 36,
        Opcode::SetGlobal { .. } => 37,
        Opcode::Field { .. } => 38,
        Opcode::SetField { .. } => 39,
        Opcode::GetThis { .. } => 40,
        Opcode::SetThis { .. } => 41,
        Opcode::DynGet { .. } => 42,
        Opcode::DynSet { .. } => 43,
        Opcode::JTrue { .. } => 44,
        Opcode::JFalse { .. } => 45,
        Opcode::JNull { .. } => 46,
        Opcode::JNotNull { .. } => 47,
        Opcode::JSLt { .. } => 48,
        Opcode::JSGte { .. } => 49,
        Opcode::JSGt { .. } => 50,
        Opcode::JSLte { .. } => 51,
        Opcode::JULt { .. } => 52,
        Opcode::JUGte { .. } => 53,
        Opcode::JNotLt { .. } => 54,
        Opcode::JNotGte { .. } => 55,
        Opcode::JEq { .. } => 56,
        Opcode::JNotEq { .. } => 57,
        Opcode::JAlways { .. } => 58,
        Opcode::ToDyn { .. } => 59,
        Opcode::ToSFloat { .. } => 60,
        Opcode::ToUFloat { .. } => 61,
        Opcode::ToInt { .. } => 62,
        Opcode::SafeCast { .. } => 63,
        Opcode::UnsafeCast { .. } => 64,
        Opcode::ToVirtual { .. } => 65,
        Opcode::Label => 66,
        Opcode::Ret { .. } => 67,
        Opcode::Throw { .. } => 68,
        Opcode::Rethrow { .. } => 69,
        Opcode::Switch { .. } => 70,
        Opcode::NullCheck { .. } => 71,
        Opcode::Trap { .. } => 72,
        Opcode::EndTrap { .. } => 73,
        Opcode::GetI8 { .. } => 74,
        Opcode::GetI16 { .. } => 75,
        Opcode::GetMem { .. } => 76,
        Opcode::GetArray { .. } => 77,
        Opcode::SetI8 { .. } => 78,
        Opcode::SetI16 { .. } => 79,
        Opcode::SetMem { .. } => 80,
        Opcode::SetArray { .. } => 81,
        Opcode::New { .. } => 82,
        Opcode::ArraySize { .. } => 83,
        Opcode::Type { .. } => 84,
        Opcode::GetType { .. } => 85,
        Opcode::GetTID { .. } => 86,
        Opcode::Ref { .. } => 87,
        Opcode::Unref { .. } => 88,
        Opcode::Setref { .. } => 89,
        Opcode::MakeEnum { .. } => 90,
        Opcode::EnumAlloc { .. } => 91,
        Opcode::EnumIndex { .. } => 92,
        Opcode::EnumField { .. } => 93,
        Opcode::SetEnumField { .. } => 94,
        Opcode::Assert => 95,
        Opcode::RefData { .. } => 96,
        Opcode::RefOffset { .. } => 97,
        Opcode::Nop => 98,
    }
}

/// The operands of an instruction, in declaration order.
pub open spec fn opcode_operands(op: Opcode) -> Seq<OperandValue> {
    match op {
        Opcode::Mov { dst, src } => seq![OperandValue::Scalar(dst.0 as int), OperandValue::Scalar(src.0 as int)],
        Opcode::Int { dst, ptr } => seq![OperandValue::Scalar(dst.0 as int), OperandValue::Scalar(ptr.0 as int)],
        Opcode::Float { dst, ptr } => seq![OperandValue::Scalar(dst.0 as int), OperandValue::Scalar(ptr.0 as int)],
        Opcode::Bool { dst, value } => seq![OperandValue::Scalar(dst.0 as int), OperandValue::Scalar(if value.0 { 1 } else { 0 })],
        Opcode::Bytes { dst, ptr } => seq![OperandValue::Scalar(dst.0 as int), OperandValue::Scalar(ptr.0 as int)],
        Opcode::String { dst, ptr } => seq![OperandValue::Scalar(dst.0 as int), OperandValue::Scalar(ptr.0 as int)],
        Opcode::Null { dst } => seq![OperandValue::Scalar(dst.0 as int)],
        Opcode::Add { dst, a, b } => seq![OperandValue::Scalar(dst.0 as int), OperandValue::Scalar(a.0 as int), OperandValue::Scalar(b.0 as int)],
        Opcode::Sub { dst, a, b } => seq![OperandValue::Scalar(dst.0 as int), OperandValue::Scalar(a.0 as int), OperandValue::Scalar(b.0 as int)],
        Opcode::Mul { dst, a, b } => seq![OperandValue::Scalar(dst.0 as int), OperandValue::Scalar(a.0 as int), OperandValue::Scalar(b.0 as int)],
        Opcode::SDiv { dst, a, b } => seq![OperandValue::Scalar(dst.0 as int), OperandValue::Scalar(a.0 as int), OperandValue::Scalar(b.0 as int)],
        Opcode::UDiv { dst, a, b } => seq![OperandValue::Scalar(dst.0 as int), OperandValue::Scalar(a.0 as int), OperandValue::Scalar(b.0 as int)],
        Opcode::SMod { dst, a, b } => seq![OperandValue::Scalar(dst.0 as int), OperandValue::Scalar(a.0 as int), OperandValue::Scalar(b.0 as int)],
        Opcode::UMod { dst, a, b } => seq![OperandValue::Scalar(dst.0 as int), OperandValue::Scalar(a.0 as int), OperandValue::Scalar(b.0 as int)],
        Opcode::Shl { dst, a, b } => seq![OperandValue::Scalar(dst.0 as int), OperandValue::Scalar(a.0 as int), OperandValue::Scalar(b.0 as int)],
        Opcode::SShr { dst, a, b } => seq![OperandValue::Scalar(dst.0 as int), OperandValue::Scalar(a.0 as int), OperandValue::Scalar(b.0 as int)],
        Opcode::UShr { dst, a, b } => seq![OperandValue::Scalar(dst.0 as int), OperandValue::Scalar(a.0 as int), OperandValue::Scalar(b.0 as int)],
        Opcode::And { dst, a, b } => seq![OperandValue::Scalar(dst.0 as int), OperandValue::Scalar(a.0 as int), OperandValue::Scalar(b.0 as int)],
        Opcode::Or { dst, a, b } => seq![OperandValue::Scalar(dst.0 as int), OperandValue::Scalar(a.0 as int), OperandValue::Scalar(b.0 as int)],
        Opcode::Xor { dst, a, b } => seq![OperandValue::Scalar(dst.0 as int), OperandValue::Scalar(a.0 as int), OperandValue::Scalar(b.0 as int)],
        Opcode::Neg { dst, src } => seq![OperandValue::Scalar(dst.0 as int), OperandValue::Scalar(src.0 as int)],
        Opcode::Not { dst, src } => seq![OperandValue::Scalar(dst.0 as int), OperandValue::Scalar(src.0 as int)],
        Opcode::Incr { dst } => seq![OperandValue::Scalar(dst.0 as int)],
        Opcode::Decr { dst } => seq![OperandValue::Scalar(dst.0 as int)],
        Opcode::Call0 { dst, fun } => seq![OperandValue::Scalar(dst.0 as int), OperandValue::Scalar(fun.0 as int)],
        Opcode::Call1 { dst, fun, arg0 } => seq![OperandValue::Scalar(dst.0 as int), OperandValue::Scalar(fun.0 as int), OperandValue::Scalar(arg0.0 as int)],
        Opcode::Call2 { dst, fun, arg0, arg1 } => seq![OperandValue::Scalar(dst.0 as int), OperandValue::Scalar(fun.0 as int), OperandValue::Scalar(arg0.0 as int), OperandValue::Scalar(arg1.0 as int)],
        Opcode::Call3 { dst, fun, arg0, arg1, arg2 } => seq![OperandValue::Scalar(dst.0 as int), OperandValue::Scalar(fun.0 as int), OperandValue::Scalar(arg0.0 as int), OperandValue::Scalar(arg1.0 as int), OperandValue::Scalar(arg2.0 as int)],
        Opcode::Call4 { dst, fun, arg0, arg1, arg2, arg3 } => seq![OperandValue::Scalar(dst.0 as int), OperandValue::Scalar(fun.0 as int), OperandValue::Scalar(arg0.0 as int), OperandValue::Scalar(arg1.0 as int), OperandValue::Scalar(arg2.0 as int), OperandValue::Scalar(arg3.0 as int)],
        Opcode::CallN { dst, fun, args } => seq![OperandValue::Scalar(dst.0 as int), OperandValue::Scalar(fun.0 as int), OperandValue::List(args@.map_values(|r: Reg| r.0 as int))],
        Opcode::CallMethod { dst, obj, field, args } => seq![OperandValue::Scalar(dst.0 as int), OperandValue::Scalar(obj.0 as int), OperandValue::Scalar(field.0 as int), OperandValue::List(args@.map_values(|r: Reg| r.0 as int))],
        Opcode::CallThis { dst, field, args } => seq![OperandValue::Scalar(dst.0 as int), OperandValue::Scalar(field.0 as int), OperandValue::List(args@.map_values(|r: Reg| r.0 as int))],
        Opcode::CallClosure { dst, fun, args } => seq![OperandValue::Scalar(dst.0 as int), OperandValue::Scalar(fun.0 as int), OperandValue::List(args@.map_values(|r: Reg| r.0 as int))],
        Opcode::StaticClosure { dst, fun } => seq![OperandValue::Scalar(dst.0 as int), OperandValue::Scalar(fun.0 as int)],
        Opcode::InstanceClosure { dst, fun, obj } => seq![OperandValue::Scalar(dst.0 as int), OperandValue::Scalar(fun.0 as int), OperandValue::Scalar(obj.0 as int)],
        Opcode::VirtualClosure { dst, obj, field } => seq![OperandValue::Scalar(dst.0 as int), OperandValue::Scalar(obj.0 as int), OperandValue::Scalar(field.0 as int)],
        Opcode::GetGlobal { dst, global } => seq![OperandValue::Scalar(dst.0 as int), OperandValue::Scalar(global.0 as int)],
        Opcode::SetGlobal { global, src } => seq![OperandValue::Scalar(global.0 as int), OperandValue::Scalar(src.0 as int)],
        Opcode::Field { dst, obj, field } => seq![OperandValue::Scalar(dst.0 as int), OperandValue::Scalar(obj.0 as int), OperandValue::Scalar(field.0 as int)],
        Opcode::SetField { obj, field, src } => seq![OperandValue::Scalar(obj.0 as int), OperandValue::Scalar(field.0 as int), OperandValue::Scalar(src.0 as int)],
        Opcode::GetThis { dst, field } => seq![OperandValue::Scalar(dst.0 as int), OperandValue::Scalar(field.0 as int)],
        Opcode::SetThis { field, src } => seq![OperandValue::Scalar(field.0 as int), OperandValue::Scalar(src.0 as int)],
        Opcode::DynGet { dst, obj, field } => seq![OperandValue::Scalar(dst.0 as int), OperandValue::Scalar(obj.0 as int), OperandValue::Scalar(field.0 as int)],
        Opcode::DynSet { obj, field, src } => seq![OperandValue::Scalar(obj.0 as int), OperandValue::Scalar(field.0 as int), OperandValue::Scalar(src.0 as int)],
        Opcode::JTrue { cond, offset } => seq![OperandValue::Scalar(cond.0 as int), OperandValue::Scalar(offset as int)],
        Opcode::JFalse { cond, offset } => seq![OperandValue::Scalar(cond.0 as int), OperandValue::Scalar(offset as int)],
        Opcode::JNull { reg, offset } => seq![OperandValue::Scalar(reg.0 as int), OperandValue::Scalar(offset as int)],
        Opcode::JNotNull { reg, offset } => seq![OperandValue::Scalar(reg.0 as int), OperandValue::Scalar(offset as int)],
        Opcode::JSLt { a, b, offset } => seq![OperandValue::Scalar(a.0 as int), OperandValue::Scalar(b.0 as int), OperandValue::Scalar(offset as int)],
        Opcode::JSGte { a, b, offset } => seq![OperandValue::Scalar(a.0 as int), OperandValue::Scalar(b.0 as int), OperandValue::Scalar(offset as int)],
        Opcode::JSGt { a, b, offset } => seq![OperandValue::Scalar(a.0 as int), OperandValue::Scalar(b.0 as int), OperandValue::Scalar(offset as int)],
        Opcode::JSLte { a, b, offset } => seq![OperandValue::Scalar(a.0 as int), OperandValue::Scalar(b.0 as int), OperandValue::Scalar(offset as int)],
        Opcode::JULt { a, b, offset } => seq![OperandValue::Scalar(a.0 as int), OperandValue::Scalar(b.0 as int), OperandValue::Scalar(offset as int)],
        Opcode::JUGte { a, b, offset } => seq![OperandValue::Scalar(a.0 as int), OperandValue::Scalar(b.0 as int), OperandValue::Scalar(offset as int)],
        Opcode::JNotLt { a, b, offset } => seq![OperandValue::Scalar(a.0 as int), OperandValue::Scalar(b.0 as int), OperandValue::Scalar(offset as int)],
        Opcode::JNotGte { a, b, offset } => seq![OperandValue::Scalar(a.0 as int), OperandValue::Scalar(b.0 as int), OperandValue::Scalar(offset as int)],
        Opcode::JEq { a, b, offset } => seq![OperandValue::Scalar(a.0 as int), OperandValue::Scalar(b.0 as int), OperandValue::Scalar(offset as int)],
        Opcode::JNotEq { a, b, offset } => seq![OperandValue::Scalar(a.0 as int), OperandValue::Scalar(b.0 as int), OperandValue::Scalar(offset as int)],
        Opcode::JAlways { offset } => seq![OperandValue::Scalar(offset as int)],
        Opcode::ToDyn { dst, src } => seq![OperandValue::Scalar(dst.0 as int), OperandValue::Scalar(src.0 as int)],
        Opcode::ToSFloat { dst, src } => seq![OperandValue::Scalar(dst.0 as int), OperandValue::Scalar(src.0 as int)],
        Opcode::ToUFloat { dst, src } => seq![OperandValue::Scalar(dst.0 as int), OperandValue::Scalar(src.0 as int)],
        Opcode::ToInt { dst, src } => seq![OperandValue::Scalar(dst.0 as int), OperandValue::Scalar(src.0 as int)],
        Opcode::SafeCast { dst, src } => seq![OperandValue::Scalar(dst.0 as int), OperandValue::Scalar(src.0 as int)],
        Opcode::UnsafeCast { dst, src } => seq![OperandValue::Scalar(dst.0 as int), OperandValue::Scalar(src.0 as int)],
        Opcode::ToVirtual { dst, src } => seq![OperandValue::Scalar(dst.0 as int), OperandValue::Scalar(src.0 as int)],
        Opcode::Label => seq![],
        Opcode::Ret { ret } => seq![OperandValue::Scalar(ret.0 as int)],
        Opcode::Throw { exc } => seq![OperandValue::Scalar(exc.0 as int)],
        Opcode::Rethrow { exc } => seq![OperandValue::Scalar(exc.0 as int)],
        Opcode::Switch { reg, offsets, end } => seq![OperandValue::Scalar(reg.0 as int), OperandValue::List(offsets@.map_values(|o: i32| o as int)), OperandValue::Scalar(end as int)],
        Opcode::NullCheck { reg } => seq![OperandValue::Scalar(reg.0 as int)],
        Opcode::Trap { exc, offset } => seq![OperandValue::Scalar(exc.0 as int), OperandValue::Scalar(offset as int)],
        Opcode::EndTrap { exc } => seq![OperandValue::Scalar(exc.0 as int)],
        Opcode::GetI8 { dst, bytes, index } => seq![OperandValue::Scalar(dst.0 as int), OperandValue::Scalar(bytes.0 as int), OperandValue::Scalar(index.0 as int)],
        Opcode::GetI16 { dst, bytes, index } => seq![OperandValue::Scalar(dst.0 as int), OperandValue::Scalar(bytes.0 as int), OperandValue::Scalar(index.0 as int)],
        Opcode::GetMem { dst, bytes, index } => seq![OperandValue::Scalar(dst.0 as int), OperandValue::Scalar(bytes.0 as int), OperandValue::Scalar(index.0 as int)],
        Opcode::GetArray { dst, array, index } => seq![OperandValue::Scalar(dst.0 as int), OperandValue::Scalar(array.0 as int), OperandValue::Scalar(index.0 as int)],
        Opcode::SetI8 { bytes, index, src } => seq![OperandValue::Scalar(bytes.0 as int), OperandValue::Scalar(index.0 as int), OperandValue::Scalar(src.0 as int)],
        Opcode::SetI16 { bytes, index, src } => seq![OperandValue::Scalar(bytes.0 as int), OperandValue::Scalar(index.0 as int), OperandValue::Scalar(src.0 as int)],
        Opcode::SetMem { bytes, index, src } => seq![OperandValue::Scalar(bytes.0 as int), OperandValue::Scalar(index.0 as int), OperandValue::Scalar(src.0 as int)],
        Opcode::SetArray { array, index, src } => seq![OperandValue::Scalar(array.0 as int), OperandValue::Scalar(index.0 as int), OperandValue::Scalar(src.0 as int)],
        Opcode::New { dst } => seq![OperandValue::Scalar(dst.0 as int)],
        Opcode::ArraySize { dst, array } => seq![OperandValue::Scalar(dst.0 as int), OperandValue::Scalar(array.0 as int)],
        Opcode::Type { dst, ty } => seq![OperandValue::Scalar(dst.0 as int), OperandValue::Scalar(ty.0 as int)],
        Opcode::GetType { dst, src } => seq![OperandValue::Scalar(dst.0 as int), OperandValue::Scalar(src.0 as int)],
        Opcode::GetTID { dst, src } => seq![OperandValue::Scalar(dst.0 as int), OperandValue::Scalar(src.0 as int)],
        Opcode::Ref { dst, src } => seq![OperandValue::Scalar(dst.0 as int), OperandValue::Scalar(src.0 as int)],
        Opcode::Unref { dst, src } => seq![OperandValue::Scalar(dst.0 as int), OperandValue::Scalar(src.0 as int)],
        Opcode::Setref { dst, value } => seq![OperandValue::Scalar(dst.0 as int), OperandValue::Scalar(value.0 as int)],
        Opcode::MakeEnum { dst, construct, args } => seq![OperandValue::Scalar(dst.0 as int), OperandValue::Scalar(construct as int), OperandValue::List(args@.map_values(|r: Reg| r.0 as int))],
        Opcode::EnumAlloc { dst, construct } => seq![OperandValue::Scalar(dst.0 as int), OperandValue::Scalar(construct as int)],
        Opcode::EnumIndex { dst, construct } => seq![OperandValue::Scalar(dst.0 as int), OperandValue::Scalar(construct.0 as int)],
        Opcode::EnumField { dst, enum_, construct, field } => seq![OperandValue::Scalar(dst.0 as int), OperandValue::Scalar(enum_.0 as int), OperandValue::Scalar(construct as int), OperandValue::Scalar(field.0 as int)],
        Opcode::SetEnumField { enum_, field, src } => seq![OperandValue::Scalar(enum_.0 as int), OperandValue::Scalar(field.0 as int), OperandValue::Scalar(src.0 as int)],
        Opcode::Assert => seq![],
        Opcode::RefData { dst, src } => seq![OperandValue::Scalar(dst.0 as int), OperandValue::Scalar(src.0 as int)],
        Opcode::RefOffset { dst, reg, offset } => seq![OperandValue::Scalar(dst.0 as int), OperandValue::Scalar(reg.0 as int), OperandValue::Scalar(offset as int)],
        Opcode::Nop => seq![],
    }
}

/// The operand kinds that the instruction with this tag declares, if the tag names one.
pub open spec fn opcode_shape(tag: u8) -> Option<Seq<OperandKind>> {
    match tag {
        0 => Some(seq![OperandKind::Reg, OperandKind::Reg]),
        1 => Some(seq![OperandKind::Reg, OperandKind::Index]),
        2 => Some(seq![OperandKind::Reg, OperandKind::Index]),
        3 => Some(seq![OperandKind::Reg, OperandKind::Flag]),
        4 => Some(seq![OperandKind::Reg, OperandKind::Index]),
        5 => Some(seq![OperandKind::Reg, OperandKind::Index]),
        6 => Some(seq![OperandKind::Reg]),
        7 => Some(seq![OperandKind::Reg, OperandKind::Reg, OperandKind::Reg]),
        8 => Some(seq![OperandKind::Reg, OperandKind::Reg, OperandKind::Reg]),
        9 => Some(seq![OperandKind::Reg, OperandKind::Reg, OperandKind::Reg]),
        10 => Some(seq![OperandKind::Reg, OperandKind::Reg, OperandKind::Reg]),
        11 => Some(seq![OperandKind::Reg, OperandKind::Reg, OperandKind::Reg]),
        12 => Some(seq![OperandKind::Reg, OperandKind::Reg, OperandKind::Reg]),
        13 => Some(seq![OperandKind::Reg, OperandKind::Reg, OperandKind::Reg]),
        14 => Some(seq![OperandKind::Reg, OperandKind::Reg, OperandKind::Reg]),
        15 => Some(seq![OperandKind::Reg, OperandKind::Reg, OperandKind::Reg]),
        16 => Some(seq![OperandKind::Reg, OperandKind::Reg, OperandKind::Reg]),
        17 => Some(seq![OperandKind::Reg, OperandKind::Reg, OperandKind::Reg]),
        18 => Some(seq![OperandKind::Reg, OperandKind::Reg, OperandKind::Reg]),
        19 => Some(seq![OperandKind::Reg, OperandKind::Reg, OperandKind::Reg]),
        20 => Some(seq![OperandKind::Reg, OperandKind::Reg]),
        21 => Some(seq![OperandKind::Reg, OperandKind::Reg]),
        22 => Some(seq![OperandKind::Reg]),
        23 => Some(seq![OperandKind::Reg]),
        24 => Some(seq![OperandKind::Reg, OperandKind::Index]),
        25 => Some(seq![OperandKind::Reg, OperandKind::Index, OperandKind::Reg]),
        26 => Some(seq![OperandKind::Reg, OperandKind::Index, OperandKind::Reg, OperandKind::Reg]),
        27 => Some(seq![OperandKind::Reg, OperandKind::Index, OperandKind::Reg, OperandKind::Reg, OperandKind::Reg]),
        28 => Some(seq![OperandKind::Reg, OperandKind::Index, OperandKind::Reg, OperandKind::Reg, OperandKind::Reg, OperandKind::Reg]),
        29 => Some(seq![OperandKind::Reg, OperandKind::Index, OperandKind::RegList]),
        30 => Some(seq![OperandKind::Reg, OperandKind::Reg, OperandKind::Reg, OperandKind::RegList]),
        31 => Some(seq![OperandKind::Reg, OperandKind::Reg, OperandKind::RegList]),
        32 => Some(seq![OperandKind::Reg, OperandKind::Reg, OperandKind::RegList]),
        33 => Some(seq![OperandKind::Reg, OperandKind::Index]),
        34 => Some(seq![OperandKind::Reg, OperandKind::Index, OperandKind::Reg]),
        35 => Some(seq![OperandKind::Reg, OperandKind::Reg, OperandKind::Reg]),
        36 => Some(seq![OperandKind::Reg, OperandKind::Index]),
        37 => Some(seq![OperandKind::Index, OperandKind::Reg]),
        38 => Some(seq![OperandKind::Reg, OperandKind::Reg, OperandKind::Index]),
        39 => Some(seq![OperandKind::Reg, OperandKind::Index, OperandKind::Reg]),
        40 => Some(seq![OperandKind::Reg, OperandKind::Index]),
        41 => Some(seq![OperandKind::Index, OperandKind::Reg]),
        42 => Some(seq![OperandKind::Reg, OperandKind::Reg, OperandKind::Reg]),
        43 => Some(seq![OperandKind::Reg, OperandKind::Reg, OperandKind::Reg]),
        44 => Some(seq![OperandKind::Reg, OperandKind::Offset]),
        45 => Some(seq![OperandKind::Reg, OperandKind::Offset]),
        46 => Some(seq![OperandKind::Reg, OperandKind::Offset]),
        47 => Some(seq![OperandKind::Reg, OperandKind::Offset]),
        48 => Some(seq![OperandKind::Reg, OperandKind::Reg, OperandKind::Offset]),
        49 => Some(seq![OperandKind::Reg, OperandKind::Reg, OperandKind::Offset]),
        50 => Some(seq![OperandKind::Reg, OperandKind::Reg, OperandKind::Offset]),
        51 => Some(seq![OperandKind::Reg, OperandKind::Reg, OperandKind::Offset]),
        52 => Some(seq![OperandKind::Reg, OperandKind::Reg, OperandKind::Offset]),
        53 => Some(seq![OperandKind::Reg, OperandKind::Reg, OperandKind::Offset]),
        54 => Some(seq![OperandKind::Reg, OperandKind::Reg, OperandKind::Offset]),
        55 => Some(seq![OperandKind::Reg, OperandKind::Reg, OperandKind::Offset]),
        56 => Some(seq![OperandKind::Reg, OperandKind::Reg, OperandKind::Offset]),
        57 => Some(seq![OperandKind::Reg, OperandKind::Reg, OperandKind::Offset]),
        58 => Some(seq![OperandKind::Offset]),
        59 => Some(seq![OperandKind::Reg, OperandKind::Reg]),
        60 => Some(seq![OperandKind::Reg, OperandKind::Reg]),
        61 => Some(seq![OperandKind::Reg, OperandKind::Reg]),
        62 => Some(seq![OperandKind::Reg, OperandKind::Reg]),
        63 => Some(seq![OperandKind::Reg, OperandKind::Reg]),
        64 => Some(seq![OperandKind::Reg, OperandKind::Reg]),
        65 => Some(seq![OperandKind::Reg, OperandKind::Reg]),
        66 => Some(seq![]),
        67 => Some(seq![OperandKind::Reg]),
        68 => Some(seq![OperandKind::Reg]),
        69 => Some(seq![OperandKind::Reg]),
        70 => Some(seq![OperandKind::Reg, OperandKind::OffsetList, OperandKind::Offset]),
        71 => Some(seq![OperandKind::Reg]),
        72 => Some(seq![OperandKind::Reg, OperandKind::Offset]),
        73 => Some(seq![OperandKind::Reg]),
        74 => Some(seq![OperandKind::Reg, OperandKind::Reg, OperandKind::Reg]),
        75 => Some(seq![OperandKind::Reg, OperandKind::Reg, OperandKind::Reg]),
        76 => Some(seq![OperandKind::Reg, OperandKind::Reg, OperandKind::Reg]),
        77 => Some(seq![OperandKind::Reg, OperandKind::Reg, OperandKind::Reg]),
        78 => Some(seq![OperandKind::Reg, OperandKind::Reg, OperandKind::Reg]),
        79 => Some(seq![OperandKind::Reg, OperandKind::Reg, OperandKind::Reg]),
        80 => Some(seq![OperandKind::Reg, OperandKind::Reg, OperandKind::Reg]),
        81 => Some(seq![OperandKind::Reg, OperandKind::Reg, OperandKind::Reg]),
        82 => Some(seq![OperandKind::Reg]),
        83 => Some(seq![OperandKind::Reg, OperandKind::Reg]),
        84 => Some(seq![OperandKind::Reg, OperandKind::Index]),
        85 => Some(seq![OperandKind::Reg, OperandKind::Reg]),
        86 => Some(seq![OperandKind::Reg, OperandKind::Reg]),
        87 => Some(seq![OperandKind::Reg, OperandKind::Reg]),
        88 => Some(seq![OperandKind::Reg, OperandKind::Reg]),
        89 => Some(seq![OperandKind::Reg, OperandKind::Reg]),
        90 => Some(seq![OperandKind::Reg, OperandKind::Index, OperandKind::RegList]),
        91 => Some(seq![OperandKind::Reg, OperandKind::Index]),
        92 => Some(seq![OperandKind::Reg, OperandKind::Reg]),
        93 => Some(seq![OperandKind::Reg, OperandKind::Reg, OperandKind::Index, OperandKind::Index]),
        94 => Some(seq![OperandKind::Reg, OperandKind::Index, OperandKind::Reg]),
        95 => Some(seq![]),
        96 => Some(seq![OperandKind::Reg, OperandKind::Reg]),
        97 => Some(seq![OperandKind::Reg, OperandKind::Reg, OperandKind::Index]),
        98 => Some(seq![]),
        _ => None,
    }
}

/// The operand kinds of the instruction with this tag.
pub fn shape_of(tag: u8) -> (r: Option<Vec<OperandKind>>)
    ensures
        r is Some <==> opcode_shape(tag) is Some,
        r matches Some(v) ==> opcode_shape(tag) == Some(v@),
{
    match tag {
        0 => Some(vec![OperandKind::Reg, OperandKind::Reg]),
        1 => Some(vec![OperandKind::Reg, OperandKind::Index]),
        2 => Some(vec![OperandKind::Reg, OperandKind::Index]),
        3 => Some(vec![OperandKind::Reg, OperandKind::Flag]),
        4 => Some(vec![OperandKind::Reg, OperandKind::Index]),
        5 => Some(vec![OperandKind::Reg, OperandKind::Index]),
        6 => Some(vec![OperandKind::Reg]),
        7 => Some(vec![OperandKind::Reg, OperandKind::Reg, OperandKind::Reg]),
        8 => Some(vec![OperandKind::Reg, OperandKind::Reg, OperandKind::Reg]),
        9 => Some(vec![OperandKind::Reg, OperandKind::Reg, OperandKind::Reg]),
        10 => Some(vec![OperandKind::Reg, OperandKind::Reg, OperandKind::Reg]),
        11 => Some(vec![OperandKind::Reg, OperandKind::Reg, OperandKind::Reg]),
        12 => Some(vec![OperandKind::Reg, OperandKind::Reg, OperandKind::Reg]),
        13 => Some(vec![OperandKind::Reg, OperandKind::Reg, OperandKind::Reg]),
        14 => Some(vec![OperandKind::Reg, OperandKind::Reg, OperandKind::Reg]),
        15 => Some(vec![OperandKind::Reg, OperandKind::Reg, OperandKind::Reg]),
        16 => Some(vec![OperandKind::Reg, OperandKind::Reg, OperandKind::Reg]),
        17 => Some(vec![OperandKind::Reg, OperandKind::Reg, OperandKind::Reg]),
        18 => Some(vec![OperandKind::Reg, OperandKind::Reg, OperandKind::Reg]),
        19 => Some(vec![OperandKind::Reg, OperandKind::Reg, OperandKind::Reg]),
        20 => Some(vec![OperandKind::Reg, OperandKind::Reg]),
        21 => Some(vec![OperandKind::Reg, OperandKind::Reg]),
        22 => Some(vec![OperandKind::Reg]),
        23 => Some(vec![OperandKind::Reg]),
        24 => Some(vec![OperandKind::Reg, OperandKind::Index]),
        25 => Some(vec![OperandKind::Reg, OperandKind::Index, OperandKind::Reg]),
        26 => Some(vec![OperandKind::Reg, OperandKind::Index, OperandKind::Reg, OperandKind::Reg]),
        27 => Some(vec![OperandKind::Reg, OperandKind::Index, OperandKind::Reg, OperandKind::Reg, OperandKind::Reg]),
        28 => Some(vec![OperandKind::Reg, OperandKind::Index, OperandKind::Reg, OperandKind::Reg, OperandKind::Reg, OperandKind::Reg]),
        29 => Some(vec![OperandKind::Reg, OperandKind::Index, OperandKind::RegList]),
        30 => Some(vec![OperandKind::Reg, OperandKind::Reg, OperandKind::Reg, OperandKind::RegList]),
        31 => Some(vec![OperandKind::Reg, OperandKind::Reg, OperandKind::RegList]),
        32 => Some(vec![OperandKind::Reg, OperandKind::Reg, OperandKind::RegList]),
        33 => Some(vec![OperandKind::Reg, OperandKind::Index]),
        34 => Some(vec![OperandKind::Reg, OperandKind::Index, OperandKind::Reg]),
        35 => Some(vec![OperandKind::Reg, OperandKind::Reg, OperandKind::Reg]),
        36 => Some(vec![OperandKind::Reg, OperandKind::Index]),
        37 => Some(vec![OperandKind::Index, OperandKind::Reg]),
        38 => Some(vec![OperandKind::Reg, OperandKind::Reg, OperandKind::Index]),
        39 => Some(vec![OperandKind::Reg, OperandKind::Index, OperandKind::Reg]),
        40 => Some(vec![OperandKind::Reg, OperandKind::Index]),
        41 => Some(vec![OperandKind::Index, OperandKind::Reg]),
        42 => Some(vec![OperandKind::Reg, OperandKind::Reg, OperandKind::Reg]),
        43 => Some(vec![OperandKind::Reg, OperandKind::Reg, OperandKind::Reg]),
        44 => Some(vec![OperandKind::Reg, OperandKind::Offset]),
        45 => Some(vec![OperandKind::Reg, OperandKind::Offset]),
        46 => Some(vec![OperandKind::Reg, OperandKind::Offset]),
        47 => Some(vec![OperandKind::Reg, OperandKind::Offset]),
        48 => Some(vec![OperandKind::Reg, OperandKind::Reg, OperandKind::Offset]),
        49 => Some(vec![OperandKind::Reg, OperandKind::Reg, OperandKind::Offset]),
        50 => Some(vec![OperandKind::Reg, OperandKind::Reg, OperandKind::Offset]),
        51 => Some(vec![OperandKind::Reg, OperandKind::Reg, OperandKind::Offset]),
        52 => Some(vec![OperandKind::Reg, OperandKind::Reg, OperandKind::Offset]),
        53 => Some(vec![OperandKind::Reg, OperandKind::Reg, OperandKind::Offset]),
        54 => Some(vec![OperandKind::Reg, OperandKind::Reg, OperandKind::Offset]),
        55 => Some(vec![OperandKind::Reg, OperandKind::Reg, OperandKind::Offset]),
        56 => Some(vec![OperandKind::Reg, OperandKind::Reg, OperandKind::Offset]),
        57 => Some(vec![OperandKind::Reg, OperandKind::Reg, OperandKind::Offset]),
        58 => Some(vec![OperandKind::Offset]),
        59 => Some(vec![OperandKind::Reg, OperandKind::Reg]),
        60 => Some(vec![OperandKind::Reg, OperandKind::Reg]),
        61 => Some(vec![OperandKind::Reg, OperandKind::Reg]),
        62 => Some(vec![OperandKind::Reg, OperandKind::Reg]),
        63 => Some(vec![OperandKind::Reg, OperandKind::Reg]),
        64 => Some(vec![OperandKind::Reg, OperandKind::Reg]),
        65 => Some(vec![OperandKind::Reg, OperandKind::Reg]),
        66 => Some(vec![]),
        67 => Some(vec![OperandKind::Reg]),
        68 => Some(vec![OperandKind::Reg]),
        69 => Some(vec![OperandKind::Reg]),
        70 => Some(vec![OperandKind::Reg, OperandKind::OffsetList, OperandKind::Offset]),
        71 => Some(vec![OperandKind::Reg]),
        72 => Some(vec![OperandKind::Reg, OperandKind::Offset]),
        73 => Some(vec![OperandKind::Reg]),
        74 => Some(vec![OperandKind::Reg, OperandKind::Reg, OperandKind::Reg]),
        75 => Some(vec![OperandKind::Reg, OperandKind::Reg, OperandKind::Reg]),
        76 => Some(vec![OperandKind::Reg, OperandKind::Reg, OperandKind::Reg]),
        77 => Some(vec![OperandKind::Reg, OperandKind::Reg, OperandKind::Reg]),
        78 => Some(vec![OperandKind::Reg, OperandKind::Reg, OperandKind::Reg]),
        79 => Some(vec![OperandKind::Reg, OperandKind::Reg, OperandKind::Reg]),
        80 => Some(vec![OperandKind::Reg, OperandKind::Reg, OperandKind::Reg]),
        81 => Some(vec![OperandKind::Reg, OperandKind::Reg, OperandKind::Reg]),
        82 => Some(vec![OperandKind::Reg]),
        83 => Some(vec![OperandKind::Reg, OperandKind::Reg]),
        84 => Some(vec![OperandKind::Reg, OperandKind::Index]),
        85 => Some(vec![OperandKind::Reg, OperandKind::Reg]),
        86 => Some(vec![OperandKind::Reg, OperandKind::Reg]),
        87 => Some(vec![OperandKind::Reg, OperandKind::Reg]),
        88 => Some(vec![OperandKind::Reg, OperandKind::Reg]),
        89 => Some(vec![OperandKind::Reg, OperandKind::Reg]),
        90 => Some(vec![OperandKind::Reg, OperandKind::Index, OperandKind::RegList]),
        91 => Some(vec![OperandKind::Reg, OperandKind::Index]),
        92 => Some(vec![OperandKind::Reg, OperandKind::Reg]),
        93 => Some(vec![OperandKind::Reg, OperandKind::Reg, OperandKind::Index, OperandKind::Index]),
        94 => Some(vec![OperandKind::Reg, OperandKind::Index, OperandKind::Reg]),
        95 => Some(vec![]),
        96 => Some(vec![OperandKind::Reg, OperandKind::Reg]),
        97 => Some(vec![OperandKind::Reg, OperandKind::Reg, OperandKind::Index]),
        98 => Some(vec![]),
        _ => None,
    }
}

/// Whether every operand of the instruction fits the kind its variant declares.
pub open spec fn opcode_fits(op: Opcode) -> bool {
    fitting(opcode_operands(op), opcode_shape(opcode_tag(op))->0)
}

fn regs_to_values(regs: &Vec<Reg>) -> (r: Vec<i64>)
    ensures
        r@.map_values(|x: i64| x as int) == regs@.map_values(|x: Reg| x.0 as int),
{
    let mut r: Vec<i64> = Vec::new();
    let mut i: usize = 0;
    while i < regs.len()
        invariant
            i <= regs@.len(),
            r@.len() == i,
            forall|k: int| 0 <= k < i ==> #[trigger] r@[k] as int == regs@[k].0 as int,
        decreases regs@.len() - i,
    {
        r.push(regs[i].0 as i64);
        i = i + 1;
    }
    assert(r@.map_values(|x: i64| x as int) =~= regs@.map_values(|x: Reg| x.0 as int));
    r
}

fn offsets_to_values(offsets: &Vec<i32>) -> (r: Vec<i64>)
    ensures
        r@.map_values(|x: i64| x as int) == offsets@.map_values(|x: i32| x as int),
{
    let mut r: Vec<i64> = Vec::new();
    let mut i: usize = 0;
    while i < offsets.len()
        invariant
            i <= offsets@.len(),
            r@.len() == i,
            forall|k: int| 0 <= k < i ==> #[trigger] r@[k] as int == offsets@[k] as int,
        decreases offsets@.len() - i,
    {
        r.push(offsets[i] as i64);
        i = i + 1;
    }
    assert(r@.map_values(|x: i64| x as int) =~= offsets@.map_values(|x: i32| x as int));
    r
}

fn scalar_at(items: &Vec<Operand>, i: usize, Ghost(kinds): Ghost<Seq<OperandKind>>) -> (v: i64)
    requires
        fitting(operands_view(items@), kinds),
        i < kinds.len(),
        !is_list_kind(kinds[i as int]),
    ensures
        operands_view(items@)[i as int] == OperandValue::Scalar(v as int),
        scalar_fits(v as int, kinds[i as int]),
{
    assert(fits(operands_view(items@)[i as int], kinds[i as int]));
    match &items[i] {
        Operand::Scalar(v) => *v,
        Operand::List(_) => 0,
    }
}

fn reg_list_at(items: &Vec<Operand>, i: usize, Ghost(kinds): Ghost<Seq<OperandKind>>) -> (r: Vec<Reg>)
    requires
        fitting(operands_view(items@), kinds),
        i < kinds.len(),
        kinds[i as int] == OperandKind::RegList,
    ensures
        operands_view(items@)[i as int] == OperandValue::List(r@.map_values(|x: Reg| x.0 as int)),
{
    assert(fits(operands_view(items@)[i as int], kinds[i as int]));
    let mut r: Vec<Reg> = Vec::new();
    match &items[i] {
        Operand::Scalar(_) => {},
        Operand::List(l) => {
            let ghost lv = l@.map_values(|x: i64| x as int);
            let mut j: usize = 0;
            while j < l.len()
                invariant
                    j <= l@.len(),
                    lv == l@.map_values(|x: i64| x as int),
                    forall|k: int| 0 <= k < lv.len() ==> scalar_fits(#[trigger] lv[k], OperandKind::RegList),
                    r@.len() == j,
                    forall|k: int| 0 <= k < j ==> #[trigger] r@[k].0 as int == lv[k],
                decreases l@.len() - j,
            {
                assert(scalar_fits(lv[j as int], OperandKind::RegList));
                r.push(Reg(l[j] as u32));
                j = j + 1;
            }
            assert(r@.map_values(|x: Reg| x.0 as int) =~= lv);
        },
    }
    r
}

fn offset_list_at(items: &Vec<Operand>, i: usize, Ghost(kinds): Ghost<Seq<OperandKind>>) -> (r: Vec<i32>)
    requires
        fitting(operands_view(items@), kinds),
        i < kinds.len(),
        kinds[i as int] == OperandKind::OffsetList,
    ensures
        operands_view(items@)[i as int] == OperandValue::List(r@.map_values(|x: i32| x as int)),
{
    assert(fits(operands_view(items@)[i as int], kinds[i as int]));
    let mut r: Vec<i32> = Vec::new();
    match &items[i] {
        Operand::Scalar(_) => {},
        Operand::List(l) => {
            let ghost lv = l@.map_values(|x: i64| x as int);
            let mut j: usize = 0;
            while j < l.len()
                invariant
                    j <= l@.len(),
                    lv == l@.map_values(|x: i64| x as int),
                    forall|k: int| 0 <= k < lv.len() ==> scalar_fits(#[trigger] lv[k], OperandKind::OffsetList),
                    r@.len() == j,
                    forall|k: int| 0 <= k < j ==> #[trigger] r@[k] as int == lv[k],
                decreases l@.len() - j,
            {
                assert(scalar_fits(lv[j as int], OperandKind::OffsetList));
                r.push(l[j] as i32);
                j = j + 1;
            }
            assert(r@.map_values(|x: i32| x as int) =~= lv);
        },
    }
    r
}

/// The tag and operands of an instruction whose operands fit their kinds.
#[verifier::rlimit(100)]
pub fn to_operands(op: &Opcode) -> (r: (u8, Vec<Operand>))
    requires
        opcode_fits(*op),
    ensures
        r.0 == opcode_tag(*op),
        operands_view(r.1@) == opcode_operands(*op),
{
    let r = match op {
        Opcode::Mov { dst, src } => (0, vec![Operand::Scalar(dst.0 as i64), Operand::Scalar(src.0 as i64)]),
        Opcode::Int { dst, ptr } => (1, vec![Operand::Scalar(dst.0 as i64), Operand::Scalar(ptr.0 as i64)]),
        Opcode::Float { dst, ptr } => (2, vec![Operand::Scalar(dst.0 as i64), Operand::Scalar(ptr.0 as i64)]),
        Opcode::Bool { dst, value } => (3, vec![Operand::Scalar(dst.0 as i64), Operand::Scalar(if value.0 { 1 } else { 0 })]),
        Opcode::Bytes { dst, ptr } => (4, vec![Operand::Scalar(dst.0 as i64), Operand::Scalar(ptr.0 as i64)]),
        Opcode::String { dst, ptr } => (5, vec![Operand::Scalar(dst.0 as i64), Operand::Scalar(ptr.0 as i64)]),
        Opcode::Null { dst } => (6, vec![Operand::Scalar(dst.0 as i64)]),
        Opcode::Add { dst, a, b } => (7, vec![Operand::Scalar(dst.0 as i64), Operand::Scalar(a.0 as i64), Operand::Scalar(b.0 as i64)]),
        Opcode::Sub { dst, a, b } => (8, vec![Operand::Scalar(dst.0 as i64), Operand::Scalar(a.0 as i64), Operand::Scalar(b.0 as i64)]),
        Opcode::Mul { dst, a, b } => (9, vec![Operand::Scalar(dst.0 as i64), Operand::Scalar(a.0 as i64), Operand::Scalar(b.0 as i64)]),
        Opcode::SDiv { dst, a, b } => (10, vec![Operand::Scalar(dst.0 as i64), Operand::Scalar(a.0 as i64), Operand::Scalar(b.0 as i64)]),
        Opcode::UDiv { dst, a, b } => (11, vec![Operand::Scalar(dst.0 as i64), Operand::Scalar(a.0 as i64), Operand::Scalar(b.0 as i64)]),
        Opcode::SMod { dst, a, b } => (12, vec![Operand::Scalar(dst.0 as i64), Operand::Scalar(a.0 as i64), Operand::Scalar(b.0 as i64)]),
        Opcode::UMod { dst, a, b } => (13, vec![Operand::Scalar(dst.0 as i64), Operand::Scalar(a.0 as i64), Operand::Scalar(b.0 as i64)]),
        Opcode::Shl { dst, a, b } => (14, vec![Operand::Scalar(dst.0 as i64), Operand::Scalar(a.0 as i64), Operand::Scalar(b.0 as i64)]),
        Opcode::SShr { dst, a, b } => (15, vec![Operand::Scalar(dst.0 as i64), Operand::Scalar(a.0 as i64), Operand::Scalar(b.0 as i64)]),
        Opcode::UShr { dst, a, b } => (16, vec![Operand::Scalar(dst.0 as i64), Operand::Scalar(a.0 as i64), Operand::Scalar(b.0 as i64)]),
        Opcode::And { dst, a, b } => (17, vec![Operand::Scalar(dst.0 as i64), Operand::Scalar(a.0 as i64), Operand::Scalar(b.0 as i64)]),
        Opcode::Or { dst, a, b } => (18, vec![Operand::Scalar(dst.0 as i64), Operand::Scalar(a.0 as i64), Operand::Scalar(b.0 as i64)]),
        Opcode::Xor { dst, a, b } => (19, vec![Operand::Scalar(dst.0 as i64), Operand::Scalar(a.0 as i64), Operand::Scalar(b.0 as i64)]),
        Opcode::Neg { dst, src } => (20, vec![Operand::Scalar(dst.0 as i64), Operand::Scalar(src.0 as i64)]),
        Opcode::Not { dst, src } => (21, vec![Operand::Scalar(dst.0 as i64), Operand::Scalar(src.0 as i64)]),
        Opcode::Incr { dst } => (22, vec![Operand::Scalar(dst.0 as i64)]),
        Opcode::Decr { dst } => (23, vec![Operand::Scalar(dst.0 as i64)]),
        Opcode::Call0 { dst, fun } => (24, vec![Operand::Scalar(dst.0 as i64), Operand::Scalar(fun.0 as i64)]),
        Opcode::Call1 { dst, fun, arg0 } => (25, vec![Operand::Scalar(dst.0 as i64), Operand::Scalar(fun.0 as i64), Operand::Scalar(arg0.0 as i64)]),
        Opcode::Call2 { dst, fun, arg0, arg1 } => (26, vec![Operand::Scalar(dst.0 as i64), Operand::Scalar(fun.0 as i64), Operand::Scalar(arg0.0 as i64), Operand::Scalar(arg1.0 as i64)]),
        Opcode::Call3 { dst, fun, arg0, arg1, arg2 } => (27, vec![Operand::Scalar(dst.0 as i64), Operand::Scalar(fun.0 as i64), Operand::Scalar(arg0.0 as i64), Operand::Scalar(arg1.0 as i64), Operand::Scalar(arg2.0 as i64)]),
        Opcode::Call4 { dst, fun, arg0, arg1, arg2, arg3 } => (28, vec![Operand::Scalar(dst.0 as i64), Operand::Scalar(fun.0 as i64), Operand::Scalar(arg0.0 as i64), Operand::Scalar(arg1.0 as i64), Operand::Scalar(arg2.0 as i64), Operand::Scalar(arg3.0 as i64)]),
        Opcode::CallN { dst, fun, args } => (29, vec![Operand::Scalar(dst.0 as i64), Operand::Scalar(fun.0 as i64), Operand::List(regs_to_values(args))]),
        Opcode::CallMethod { dst, obj, field, args } => (30, vec![Operand::Scalar(dst.0 as i64), Operand::Scalar(obj.0 as i64), Operand::Scalar(field.0 as i64), Operand::List(regs_to_values(args))]),
        Opcode::CallThis { dst, field, args } => (31, vec![Operand::Scalar(dst.0 as i64), Operand::Scalar(field.0 as i64), Operand::List(regs_to_values(args))]),
        Opcode::CallClosure { dst, fun, args } => (32, vec![Operand::Scalar(dst.0 as i64), Operand::Scalar(fun.0 as i64), Operand::List(regs_to_values(args))]),
        Opcode::StaticClosure { dst, fun } => (33, vec![Operand::Scalar(dst.0 as i64), Operand::Scalar(fun.0 as i64)]),
        Opcode::InstanceClosure { dst, fun, obj } => (34, vec![Operand::Scalar(dst.0 as i64), Operand::Scalar(fun.0 as i64), Operand::Scalar(obj.0 as i64)]),
        Opcode::VirtualClosure { dst, obj, field } => (35, vec![Operand::Scalar(dst.0 as i64), Operand::Scalar(obj.0 as i64), Operand::Scalar(field.0 as i64)]),
        Opcode::GetGlobal { dst, global } => (36, vec![Operand::Scalar(dst.0 as i64), Operand::Scalar(global.0 as i64)]),
        Opcode::SetGlobal { global, src } => (37, vec![Operand::Scalar(global.0 as i64), Operand::Scalar(src.0 as i64)]),
        Opcode::Field { dst, obj, field } => (38, vec![Operand::Scalar(dst.0 as i64), Operand::Scalar(obj.0 as i64), Operand::Scalar(field.0 as i64)]),
        Opcode::SetField { obj, field, src } => (39, vec![Operand::Scalar(obj.0 as i64), Operand::Scalar(field.0 as i64), Operand::Scalar(src.0 as i64)]),
        Opcode::GetThis { dst, field } => (40, vec![Operand::Scalar(dst.0 as i64), Operand::Scalar(field.0 as i64)]),
        Opcode::SetThis { field, src } => (41, vec![Operand::Scalar(field.0 as i64), Operand::Scalar(src.0 as i64)]),
        Opcode::DynGet { dst, obj, field } => (42, vec![Operand::Scalar(dst.0 as i64), Operand::Scalar(obj.0 as i64), Operand::Scalar(field.0 as i64)]),
        Opcode::DynSet { obj, field, src } => (43, vec![Operand::Scalar(obj.0 as i64), Operand::Scalar(field.0 as i64), Operand::Scalar(src.0 as i64)]),
        Opcode::JTrue { cond, offset } => (44, vec![Operand::Scalar(cond.0 as i64), Operand::Scalar(*offset as i64)]),
        Opcode::JFalse { cond, offset } => (45, vec![Operand::Scalar(cond.0 as i64), Operand::Scalar(*offset as i64)]),
        Opcode::JNull { reg, offset } => (46, vec![Operand::Scalar(reg.0 as i64), Operand::Scalar(*offset as i64)]),
        Opcode::JNotNull { reg, offset } => (47, vec![Operand::Scalar(reg.0 as i64), Operand::Scalar(*offset as i64)]),
        Opcode::JSLt { a, b, offset } => (48, vec![Operand::Scalar(a.0 as i64), Operand::Scalar(b.0 as i64), Operand::Scalar(*offset as i64)]),
        Opcode::JSGte { a, b, offset } => (49, vec![Operand::Scalar(a.0 as i64), Operand::Scalar(b.0 as i64), Operand::Scalar(*offset as i64)]),
        Opcode::JSGt { a, b, offset } => (50, vec![Operand::Scalar(a.0 as i64), Operand::Scalar(b.0 as i64), Operand::Scalar(*offset as i64)]),
        Opcode::JSLte { a, b, offset } => (51, vec![Operand::Scalar(a.0 as i64), Operand::Scalar(b.0 as i64), Operand::Scalar(*offset as i64)]),
        Opcode::JULt { a, b, offset } => (52, vec![Operand::Scalar(a.0 as i64), Operand::Scalar(b.0 as i64), Operand::Scalar(*offset as i64)]),
        Opcode::JUGte { a, b, offset } => (53, vec![Operand::Scalar(a.0 as i64), Operand::Scalar(b.0 as i64), Operand::Scalar(*offset as i64)]),
        Opcode::JNotLt { a, b, offset } => (54, vec![Operand::Scalar(a.0 as i64), Operand::Scalar(b.0 as i64), Operand::Scalar(*offset as i64)]),
        Opcode::JNotGte { a, b, offset } => (55, vec![Operand::Scalar(a.0 as i64), Operand::Scalar(b.0 as i64), Operand::Scalar(*offset as i64)]),
        Opcode::JEq { a, b, offset } => (56, vec![Operand::Scalar(a.0 as i64), Operand::Scalar(b.0 as i64), Operand::Scalar(*offset as i64)]),
        Opcode::JNotEq { a, b, offset } => (57, vec![Operand::Scalar(a.0 as i64), Operand::Scalar(b.0 as i64), Operand::Scalar(*offset as i64)]),
        Opcode::JAlways { offset } => (58, vec![Operand::Scalar(*offset as i64)]),
        Opcode::ToDyn { dst, src } => (59, vec![Operand::Scalar(dst.0 as i64), Operand::Scalar(src.0 as i64)]),
        Opcode::ToSFloat { dst, src } => (60, vec![Operand::Scalar(dst.0 as i64), Operand::Scalar(src.0 as i64)]),
        Opcode::ToUFloat { dst, src } => (61, vec![Operand::Scalar(dst.0 as i64), Operand::Scalar(src.0 as i64)]),
        Opcode::ToInt { dst, src } => (62, vec![Operand::Scalar(dst.0 as i64), Operand::Scalar(src.0 as i64)]),
        Opcode::SafeCast { dst, src } => (63, vec![Operand::Scalar(dst.0 as i64), Operand::Scalar(src.0 as i64)]),
        Opcode::UnsafeCast { dst, src } => (64, vec![Operand::Scalar(dst.0 as i64), Operand::Scalar(src.0 as i64)]),
        Opcode::ToVirtual { dst, src } => (65, vec![Operand::Scalar(dst.0 as i64), Operand::Scalar(src.0 as i64)]),
        Opcode::Label => (66, vec![]),
        Opcode::Ret { ret } => (67, vec![Operand::Scalar(ret.0 as i64)]),
        Opcode::Throw { exc } => (68, vec![Operand::Scalar(exc.0 as i64)]),
        Opcode::Rethrow { exc } => (69, vec![Operand::Scalar(exc.0 as i64)]),
        Opcode::Switch { reg, offsets, end } => (70, vec![Operand::Scalar(reg.0 as i64), Operand::List(offsets_to_values(offsets)), Operand::Scalar(*end as i64)]),
        Opcode::NullCheck { reg } => (71, vec![Operand::Scalar(reg.0 as i64)]),
        Opcode::Trap { exc, offset } => (72, vec![Operand::Scalar(exc.0 as i64), Operand::Scalar(*offset as i64)]),
        Opcode::EndTrap { exc } => (73, vec![Operand::Scalar(exc.0 as i64)]),
        Opcode::GetI8 { dst, bytes, index } => (74, vec![Operand::Scalar(dst.0 as i64), Operand::Scalar(bytes.0 as i64), Operand::Scalar(index.0 as i64)]),
        Opcode::GetI16 { dst, bytes, index } => (75, vec![Operand::Scalar(dst.0 as i64), Operand::Scalar(bytes.0 as i64), Operand::Scalar(index.0 as i64)]),
        Opcode::GetMem { dst, bytes, index } => (76, vec![Operand::Scalar(dst.0 as i64), Operand::Scalar(bytes.0 as i64), Operand::Scalar(index.0 as i64)]),
        Opcode::GetArray { dst, array, index } => (77, vec![Operand::Scalar(dst.0 as i64), Operand::Scalar(array.0 as i64), Operand::Scalar(index.0 as i64)]),
        Opcode::SetI8 { bytes, index, src } => (78, vec![Operand::Scalar(bytes.0 as i64), Operand::Scalar(index.0 as i64), Operand::Scalar(src.0 as i64)]),
        Opcode::SetI16 { bytes, index, src } => (79, vec![Operand::Scalar(bytes.0 as i64), Operand::Scalar(index.0 as i64), Operand::Scalar(src.0 as i64)]),
        Opcode::SetMem { bytes, index, src } => (80, vec![Operand::Scalar(bytes.0 as i64), Operand::Scalar(index.0 as i64), Operand::Scalar(src.0 as i64)]),
        Opcode::SetArray { array, index, src } => (81, vec![Operand::Scalar(array.0 as i64), Operand::Scalar(index.0 as i64), Operand::Scalar(src.0 as i64)]),
        Opcode::New { dst } => (82, vec![Operand::Scalar(dst.0 as i64)]),
        Opcode::ArraySize { dst, array } => (83, vec![Operand::Scalar(dst.0 as i64), Operand::Scalar(array.0 as i64)]),
        Opcode::Type { dst, ty } => (84, vec![Operand::Scalar(dst.0 as i64), Operand::Scalar(ty.0 as i64)]),
        Opcode::GetType { dst, src } => (85, vec![Operand::Scalar(dst.0 as i64), Operand::Scalar(src.0 as i64)]),
        Opcode::GetTID { dst, src } => (86, vec![Operand::Scalar(dst.0 as i64), Operand::Scalar(src.0 as i64)]),
        Opcode::Ref { dst, src } => (87, vec![Operand::Scalar(dst.0 as i64), Operand::Scalar(src.0 as i64)]),
        Opcode::Unref { dst, src } => (88, vec![Operand::Scalar(dst.0 as i64), Operand::Scalar(src.0 as i64)]),
        Opcode::Setref { dst, value } => (89, vec![Operand::Scalar(dst.0 as i64), Operand::Scalar(value.0 as i64)]),
        Opcode::MakeEnum { dst, construct, args } => (90, vec![Operand::Scalar(dst.0 as i64), Operand::Scalar(*construct as i64), Operand::List(regs_to_values(args))]),
        Opcode::EnumAlloc { dst, construct } => (91, vec![Operand::Scalar(dst.0 as i64), Operand::Scalar(*construct as i64)]),
        Opcode::EnumIndex { dst, construct } => (92, vec![Operand::Scalar(dst.0 as i64), Operand::Scalar(construct.0 as i64)]),
        Opcode::EnumField { dst, enum_, construct, field } => (93, vec![Operand::Scalar(dst.0 as i64), Operand::Scalar(enum_.0 as i64), Operand::Scalar(*construct as i64), Operand::Scalar(field.0 as i64)]),
        Opcode::SetEnumField { enum_, field, src } => (94, vec![Operand::Scalar(enum_.0 as i64), Operand::Scalar(field.0 as i64), Operand::Scalar(src.0 as i64)]),
        Opcode::Assert => (95, vec![]),
        Opcode::RefData { dst, src } => (96, vec![Operand::Scalar(dst.0 as i64), Operand::Scalar(src.0 as i64)]),
        Opcode::RefOffset { dst, reg, offset } => (97, vec![Operand::Scalar(dst.0 as i64), Operand::Scalar(reg.0 as i64), Operand::Scalar(*offset as i64)]),
        Opcode::Nop => (98, vec![]),
    };
    assert(operands_view(r.1@) =~= opcode_operands(*op));
    r
}

/// The instruction with this tag and these operands.
#[verifier::rlimit(100)]
pub fn from_operands(tag: u8, items: Vec<Operand>) -> (op: Opcode)
    requires
        opcode_shape(tag) is Some,
        fitting(operands_view(items@), opcode_shape(tag)->0),
    ensures
        opcode_tag(op) == tag,
        opcode_operands(op) == operands_view(items@),
{
    let ghost kinds = opcode_shape(tag)->0;
    let op = match tag {
        0 => Opcode::Mov { dst: Reg(scalar_at(&items, 0, Ghost(kinds)) as u32), src: Reg(scalar_at(&items, 1, Ghost(kinds)) as u32) },
        1 => Opcode::Int { dst: Reg(scalar_at(&items, 0, Ghost(kinds)) as u32), ptr: RefInt(scalar_at(&items, 1, Ghost(kinds)) as usize) },
        2 => Opcode::Float { dst: Reg(scalar_at(&items, 0, Ghost(kinds)) as u32), ptr: RefFloat(scalar_at(&items, 1, Ghost(kinds)) as usize) },
        3 => Opcode::Bool { dst: Reg(scalar_at(&items, 0, Ghost(kinds)) as u32), value: ValBool(scalar_at(&items, 1, Ghost(kinds)) == 1) },
        4 => Opcode::Bytes { dst: Reg(scalar_at(&items, 0, Ghost(kinds)) as u32), ptr: RefBytes(scalar_at(&items, 1, Ghost(kinds)) as usize) },
        5 => Opcode::String { dst: Reg(scalar_at(&items, 0, Ghost(kinds)) as u32), ptr: RefString(scalar_at(&items, 1, Ghost(kinds)) as usize) },
        6 => Opcode::Null { dst: Reg(scalar_at(&items, 0, Ghost(kinds)) as u32) },
        7 => Opcode::Add { dst: Reg(scalar_at(&items, 0, Ghost(kinds)) as u32), a: Reg(scalar_at(&items, 1, Ghost(kinds)) as u32), b: Reg(scalar_at(&items, 2, Ghost(kinds)) as u32) },
        8 => Opcode::Sub { dst: Reg(scalar_at(&items, 0, Ghost(kinds)) as u32), a: Reg(scalar_at(&items, 1, Ghost(kinds)) as u32), b: Reg(scalar_at(&items, 2, Ghost(kinds)) as u32) },
        9 => Opcode::Mul { dst: Reg(scalar_at(&items, 0, Ghost(kinds)) as u32), a: Reg(scalar_at(&items, 1, Ghost(kinds)) as u32), b: Reg(scalar_at(&items, 2, Ghost(kinds)) as u32) },
        10 => Opcode::SDiv { dst: Reg(scalar_at(&items, 0, Ghost(kinds)) as u32), a: Reg(scalar_at(&items, 1, Ghost(kinds)) as u32), b: Reg(scalar_at(&items, 2, Ghost(kinds)) as u32) },
        11 => Opcode::UDiv { dst: Reg(scalar_at(&items, 0, Ghost(kinds)) as u32), a: Reg(scalar_at(&items, 1, Ghost(kinds)) as u32), b: Reg(scalar_at(&items, 2, Ghost(kinds)) as u32) },
        12 => Opcode::SMod { dst: Reg(scalar_at(&items, 0, Ghost(kinds)) as u32), a: Reg(scalar_at(&items, 1, Ghost(kinds)) as u32), b: Reg(scalar_at(&items, 2, Ghost(kinds)) as u32) },
        13 => Opcode::UMod { dst: Reg(scalar_at(&items, 0, Ghost(kinds)) as u32), a: Reg(scalar_at(&items, 1, Ghost(kinds)) as u32), b: Reg(scalar_at(&items, 2, Ghost(kinds)) as u32) },
        14 => Opcode::Shl { dst: Reg(scalar_at(&items, 0, Ghost(kinds)) as u32), a: Reg(scalar_at(&items, 1, Ghost(kinds)) as u32), b: Reg(scalar_at(&items, 2, Ghost(kinds)) as u32) },
        15 => Opcode::SShr { dst: Reg(scalar_at(&items, 0, Ghost(kinds)) as u32), a: Reg(scalar_at(&items, 1, Ghost(kinds)) as u32), b: Reg(scalar_at(&items, 2, Ghost(kinds)) as u32) },
        16 => Opcode::UShr { dst: Reg(scalar_at(&items, 0, Ghost(kinds)) as u32), a: Reg(scalar_at(&items, 1, Ghost(kinds)) as u32), b: Reg(scalar_at(&items, 2, Ghost(kinds)) as u32) },
        17 => Opcode::And { dst: Reg(scalar_at(&items, 0, Ghost(kinds)) as u32), a: Reg(scalar_at(&items, 1, Ghost(kinds)) as u32), b: Reg(scalar_at(&items, 2, Ghost(kinds)) as u32) },
        18 => Opcode::Or { dst: Reg(scalar_at(&items, 0, Ghost(kinds)) as u32), a: Reg(scalar_at(&items, 1, Ghost(kinds)) as u32), b: Reg(scalar_at(&items, 2, Ghost(kinds)) as u32) },
        19 => Opcode::Xor { dst: Reg(scalar_at(&items, 0, Ghost(kinds)) as u32), a: Reg(scalar_at(&items, 1, Ghost(kinds)) as u32), b: Reg(scalar_at(&items, 2, Ghost(kinds)) as u32) },
        20 => Opcode::Neg { dst: Reg(scalar_at(&items, 0, Ghost(kinds)) as u32), src: Reg(scalar_at(&items, 1, Ghost(kinds)) as u32) },
        21 => Opcode::Not { dst: Reg(scalar_at(&items, 0, Ghost(kinds)) as u32), src: Reg(scalar_at(&items, 1, Ghost(kinds)) as u32) },
        22 => Opcode::Incr { dst: Reg(scalar_at(&items, 0, Ghost(kinds)) as u32) },
        23 => Opcode::Decr { dst: Reg(scalar_at(&items, 0, Ghost(kinds)) as u32) },
        24 => Opcode::Call0 { dst: Reg(scalar_at(&items, 0, Ghost(kinds)) as u32), fun: RefFun(scalar_at(&items, 1, Ghost(kinds)) as usize) },
        25 => Opcode::Call1 { dst: Reg(scalar_at(&items, 0, Ghost(kinds)) as u32), fun: RefFun(scalar_at(&items, 1, Ghost(kinds)) as usize), arg0: Reg(scalar_at(&items, 2, Ghost(kinds)) as u32) },
        26 => Opcode::Call2 { dst: Reg(scalar_at(&items, 0, Ghost(kinds)) as u32), fun: RefFun(scalar_at(&items, 1, Ghost(kinds)) as usize), arg0: Reg(scalar_at(&items, 2, Ghost(kinds)) as u32), arg1: Reg(scalar_at(&items, 3, Ghost(kinds)) as u32) },
        27 => Opcode::Call3 { dst: Reg(scalar_at(&items, 0, Ghost(kinds)) as u32), fun: RefFun(scalar_at(&items, 1, Ghost(kinds)) as usize), arg0: Reg(scalar_at(&items, 2, Ghost(kinds)) as u32), arg1: Reg(scalar_at(&items, 3, Ghost(kinds)) as u32), arg2: Reg(scalar_at(&items, 4, Ghost(kinds)) as u32) },
        28 => Opcode::Call4 { dst: Reg(scalar_at(&items, 0, Ghost(kinds)) as u32), fun: RefFun(scalar_at(&items, 1, Ghost(kinds)) as usize), arg0: Reg(scalar_at(&items, 2, Ghost(kinds)) as u32), arg1: Reg(scalar_at(&items, 3, Ghost(kinds)) as u32), arg2: Reg(scalar_at(&items, 4, Ghost(kinds)) as u32), arg3: Reg(scalar_at(&items, 5, Ghost(kinds)) as u32) },
        29 => Opcode::CallN { dst: Reg(scalar_at(&items, 0, Ghost(kinds)) as u32), fun: RefFun(scalar_at(&items, 1, Ghost(kinds)) as usize), args: reg_list_at(&items, 2, Ghost(kinds)) },
        30 => Opcode::CallMethod { dst: Reg(scalar_at(&items, 0, Ghost(kinds)) as u32), obj: Reg(scalar_at(&items, 1, Ghost(kinds)) as u32), field: Reg(scalar_at(&items, 2, Ghost(kinds)) as u32), args: reg_list_at(&items, 3, Ghost(kinds)) },
        31 => Opcode::CallThis { dst: Reg(scalar_at(&items, 0, Ghost(kinds)) as u32), field: Reg(scalar_at(&items, 1, Ghost(kinds)) as u32), args: reg_list_at(&items, 2, Ghost(kinds)) },
        32 => Opcode::CallClosure { dst: Reg(scalar_at(&items, 0, Ghost(kinds)) as u32), fun: Reg(scalar_at(&items, 1, Ghost(kinds)) as u32), args: reg_list_at(&items, 2, Ghost(kinds)) },
        33 => Opcode::StaticClosure { dst: Reg(scalar_at(&items, 0, Ghost(kinds)) as u32), fun: RefFun(scalar_at(&items, 1, Ghost(kinds)) as usize) },
        34 => Opcode::InstanceClosure { dst: Reg(scalar_at(&items, 0, Ghost(kinds)) as u32), fun: RefFun(scalar_at(&items, 1, Ghost(kinds)) as usize), obj: Reg(scalar_at(&items, 2, Ghost(kinds)) as u32) },
        35 => Opcode::VirtualClosure { dst: Reg(scalar_at(&items, 0, Ghost(kinds)) as u32), obj: Reg(scalar_at(&items, 1, Ghost(kinds)) as u32), field: Reg(scalar_at(&items, 2, Ghost(kinds)) as u32) },
        36 => Opcode::GetGlobal { dst: Reg(scalar_at(&items, 0, Ghost(kinds)) as u32), global: RefGlobal(scalar_at(&items, 1, Ghost(kinds)) as usize) },
        37 => Opcode::SetGlobal { global: RefGlobal(scalar_at(&items, 0, Ghost(kinds)) as usize), src: Reg(scalar_at(&items, 1, Ghost(kinds)) as u32) },
        38 => Opcode::Field { dst: Reg(scalar_at(&items, 0, Ghost(kinds)) as u32), obj: Reg(scalar_at(&items, 1, Ghost(kinds)) as u32), field: RefField(scalar_at(&items, 2, Ghost(kinds)) as usize) },
        39 => Opcode::SetField { obj: Reg(scalar_at(&items, 0, Ghost(kinds)) as u32), field: RefField(scalar_at(&items, 1, Ghost(kinds)) as usize), src: Reg(scalar_at(&items, 2, Ghost(kinds)) as u32) },
        40 => Opcode::GetThis { dst: Reg(scalar_at(&items, 0, Ghost(kinds)) as u32), field: RefField(scalar_at(&items, 1, Ghost(kinds)) as usize) },
        41 => Opcode::SetThis { field: RefField(scalar_at(&items, 0, Ghost(kinds)) as usize), src: Reg(scalar_at(&items, 1, Ghost(kinds)) as u32) },
        42 => Opcode::DynGet { dst: Reg(scalar_at(&items, 0, Ghost(kinds)) as u32), obj: Reg(scalar_at(&items, 1, Ghost(kinds)) as u32), field: Reg(scalar_at(&items, 2, Ghost(kinds)) as u32) },
        43 => Opcode::DynSet { obj: Reg(scalar_at(&items, 0, Ghost(kinds)) as u32), field: Reg(scalar_at(&items, 1, Ghost(kinds)) as u32), src: Reg(scalar_at(&items, 2, Ghost(kinds)) as u32) },
        44 => Opcode::JTrue { cond: Reg(scalar_at(&items, 0, Ghost(kinds)) as u32), offset: scalar_at(&items, 1, Ghost(kinds)) as i32 },
        45 => Opcode::JFalse { cond: Reg(scalar_at(&items, 0, Ghost(kinds)) as u32), offset: scalar_at(&items, 1, Ghost(kinds)) as i32 },
        46 => Opcode::JNull { reg: Reg(scalar_at(&items, 0, Ghost(kinds)) as u32), offset: scalar_at(&items, 1, Ghost(kinds)) as i32 },
        47 => Opcode::JNotNull { reg: Reg(scalar_at(&items, 0, Ghost(kinds)) as u32), offset: scalar_at(&items, 1, Ghost(kinds)) as i32 },
        48 => Opcode::JSLt { a: Reg(scalar_at(&items, 0, Ghost(kinds)) as u32), b: Reg(scalar_at(&items, 1, Ghost(kinds)) as u32), offset: scalar_at(&items, 2, Ghost(kinds)) as i32 },
        49 => Opcode::JSGte { a: Reg(scalar_at(&items, 0, Ghost(kinds)) as u32), b: Reg(scalar_at(&items, 1, Ghost(kinds)) as u32), offset: scalar_at(&items, 2, Ghost(kinds)) as i32 },
        50 => Opcode::JSGt { a: Reg(scalar_at(&items, 0, Ghost(kinds)) as u32), b: Reg(scalar_at(&items, 1, Ghost(kinds)) as u32), offset: scalar_at(&items, 2, Ghost(kinds)) as i32 },
        51 => Opcode::JSLte { a: Reg(scalar_at(&items, 0, Ghost(kinds)) as u32), b: Reg(scalar_at(&items, 1, Ghost(kinds)) as u32), offset: scalar_at(&items, 2, Ghost(kinds)) as i32 },
        52 => Opcode::JULt { a: Reg(scalar_at(&items, 0, Ghost(kinds)) as u32), b: Reg(scalar_at(&items, 1, Ghost(kinds)) as u32), offset: scalar_at(&items, 2, Ghost(kinds)) as i32 },
        53 => Opcode::JUGte { a: Reg(scalar_at(&items, 0, Ghost(kinds)) as u32), b: Reg(scalar_at(&items, 1, Ghost(kinds)) as u32), offset: scalar_at(&items, 2, Ghost(kinds)) as i32 },
        54 => Opcode::JNotLt { a: Reg(scalar_at(&items, 0, Ghost(kinds)) as u32), b: Reg(scalar_at(&items, 1, Ghost(kinds)) as u32), offset: scalar_at(&items, 2, Ghost(kinds)) as i32 },
        55 => Opcode::JNotGte { a: Reg(scalar_at(&items, 0, Ghost(kinds)) as u32), b: Reg(scalar_at(&items, 1, Ghost(kinds)) as u32), offset: scalar_at(&items, 2, Ghost(kinds)) as i32 },
        56 => Opcode::JEq { a: Reg(scalar_at(&items, 0, Ghost(kinds)) as u32), b: Reg(scalar_at(&items, 1, Ghost(kinds)) as u32), offset: scalar_at(&items, 2, Ghost(kinds)) as i32 },
        57 => Opcode::JNotEq { a: Reg(scalar_at(&items, 0, Ghost(kinds)) as u32), b: Reg(scalar_at(&items, 1, Ghost(kinds)) as u32), offset: scalar_at(&items, 2, Ghost(kinds)) as i32 },
        58 => Opcode::JAlways { offset: scalar_at(&items, 0, Ghost(kinds)) as i32 },
        59 => Opcode::ToDyn { dst: Reg(scalar_at(&items, 0, Ghost(kinds)) as u32), src: Reg(scalar_at(&items, 1, Ghost(kinds)) as u32) },
        60 => Opcode::ToSFloat { dst: Reg(scalar_at(&items, 0, Ghost(kinds)) as u32), src: Reg(scalar_at(&items, 1, Ghost(kinds)) as u32) },
        61 => Opcode::ToUFloat { dst: Reg(scalar_at(&items, 0, Ghost(kinds)) as u32), src: Reg(scalar_at(&items, 1, Ghost(kinds)) as u32) },
        62 => Opcode::ToInt { dst: Reg(scalar_at(&items, 0, Ghost(kinds)) as u32), src: Reg(scalar_at(&items, 1, Ghost(kinds)) as u32) },
        63 => Opcode::SafeCast { dst: Reg(scalar_at(&items, 0, Ghost(kinds)) as u32), src: Reg(scalar_at(&items, 1, Ghost(kinds)) as u32) },
        64 => Opcode::UnsafeCast { dst: Reg(scalar_at(&items, 0, Ghost(kinds)) as u32), src: Reg(scalar_at(&items, 1, Ghost(kinds)) as u32) },
        65 => Opcode::ToVirtual { dst: Reg(scalar_at(&items, 0, Ghost(kinds)) as u32), src: Reg(scalar_at(&items, 1, Ghost(kinds)) as u32) },
        66 => Opcode::Label,
        67 => Opcode::Ret { ret: Reg(scalar_at(&items, 0, Ghost(kinds)) as u32) },
        68 => Opcode::Throw { exc: Reg(scalar_at(&items, 0, Ghost(kinds)) as u32) },
        69 => Opcode::Rethrow { exc: Reg(scalar_at(&items, 0, Ghost(kinds)) as u32) },
        70 => Opcode::Switch { reg: Reg(scalar_at(&items, 0, Ghost(kinds)) as u32), offsets: offset_list_at(&items, 1, Ghost(kinds)), end: scalar_at(&items, 2, Ghost(kinds)) as i32 },
        71 => Opcode::NullCheck { reg: Reg(scalar_at(&items, 0, Ghost(kinds)) as u32) },
        72 => Opcode::Trap { exc: Reg(scalar_at(&items, 0, Ghost(kinds)) as u32), offset: scalar_at(&items, 1, Ghost(kinds)) as i32 },
        73 => Opcode::EndTrap { exc: Reg(scalar_at(&items, 0, Ghost(kinds)) as u32) },
        74 => Opcode::GetI8 { dst: Reg(scalar_at(&items, 0, Ghost(kinds)) as u32), bytes: Reg(scalar_at(&items, 1, Ghost(kinds)) as u32), index: Reg(scalar_at(&items, 2, Ghost(kinds)) as u32) },
        75 => Opcode::GetI16 { dst: Reg(scalar_at(&items, 0, Ghost(kinds)) as u32), bytes: Reg(scalar_at(&items, 1, Ghost(kinds)) as u32), index: Reg(scalar_at(&items, 2, Ghost(kinds)) as u32) },
        76 => Opcode::GetMem { dst: Reg(scalar_at(&items, 0, Ghost(kinds)) as u32), bytes: Reg(scalar_at(&items, 1, Ghost(kinds)) as u32), index: Reg(scalar_at(&items, 2, Ghost(kinds)) as u32) },
        77 => Opcode::GetArray { dst: Reg(scalar_at(&items, 0, Ghost(kinds)) as u32), array: Reg(scalar_at(&items, 1, Ghost(kinds)) as u32), index: Reg(scalar_at(&items, 2, Ghost(kinds)) as u32) },
        78 => Opcode::SetI8 { bytes: Reg(scalar_at(&items, 0, Ghost(kinds)) as u32), index: Reg(scalar_at(&items, 1, Ghost(kinds)) as u32), src: Reg(scalar_at(&items, 2, Ghost(kinds)) as u32) },
        79 => Opcode::SetI16 { bytes: Reg(scalar_at(&items, 0, Ghost(kinds)) as u32), index: Reg(scalar_at(&items, 1, Ghost(kinds)) as u32), src: Reg(scalar_at(&items, 2, Ghost(kinds)) as u32) },
        80 => Opcode::SetMem { bytes: Reg(scalar_at(&items, 0, Ghost(kinds)) as u32), index: Reg(scalar_at(&items, 1, Ghost(kinds)) as u32), src: Reg(scalar_at(&items, 2, Ghost(kinds)) as u32) },
        81 => Opcode::SetArray { array: Reg(scalar_at(&items, 0, Ghost(kinds)) as u32), index: Reg(scalar_at(&items, 1, Ghost(kinds)) as u32), src: Reg(scalar_at(&items, 2, Ghost(kinds)) as u32) },
        82 => Opcode::New { dst: Reg(scalar_at(&items, 0, Ghost(kinds)) as u32) },
        83 => Opcode::ArraySize { dst: Reg(scalar_at(&items, 0, Ghost(kinds)) as u32), array: Reg(scalar_at(&items, 1, Ghost(kinds)) as u32) },
        84 => Opcode::Type { dst: Reg(scalar_at(&items, 0, Ghost(kinds)) as u32), ty: RefType(scalar_at(&items, 1, Ghost(kinds)) as usize) },
        85 => Opcode::GetType { dst: Reg(scalar_at(&items, 0, Ghost(kinds)) as u32), src: Reg(scalar_at(&items, 1, Ghost(kinds)) as u32) },
        86 => Opcode::GetTID { dst: Reg(scalar_at(&items, 0, Ghost(kinds)) as u32), src: Reg(scalar_at(&items, 1, Ghost(kinds)) as u32) },
        87 => Opcode::Ref { dst: Reg(scalar_at(&items, 0, Ghost(kinds)) as u32), src: Reg(scalar_at(&items, 1, Ghost(kinds)) as u32) },
        88 => Opcode::Unref { dst: Reg(scalar_at(&items, 0, Ghost(kinds)) as u32), src: Reg(scalar_at(&items, 1, Ghost(kinds)) as u32) },
        89 => Opcode::Setref { dst: Reg(scalar_at(&items, 0, Ghost(kinds)) as u32), value: Reg(scalar_at(&items, 1, Ghost(kinds)) as u32) },
        90 => Opcode::MakeEnum { dst: Reg(scalar_at(&items, 0, Ghost(kinds)) as u32), construct: scalar_at(&items, 1, Ghost(kinds)) as usize, args: reg_list_at(&items, 2, Ghost(kinds)) },
        91 => Opcode::EnumAlloc { dst: Reg(scalar_at(&items, 0, Ghost(kinds)) as u32), construct: scalar_at(&items, 1, Ghost(kinds)) as usize },
        92 => Opcode::EnumIndex { dst: Reg(scalar_at(&items, 0, Ghost(kinds)) as u32), construct: Reg(scalar_at(&items, 1, Ghost(kinds)) as u32) },
        93 => Opcode::EnumField { dst: Reg(scalar_at(&items, 0, Ghost(kinds)) as u32), enum_: Reg(scalar_at(&items, 1, Ghost(kinds)) as u32), construct: scalar_at(&items, 2, Ghost(kinds)) as usize, field: RefField(scalar_at(&items, 3, Ghost(kinds)) as usize) },
        94 => Opcode::SetEnumField { enum_: Reg(scalar_at(&items, 0, Ghost(kinds)) as u32), field: RefField(scalar_at(&items, 1, Ghost(kinds)) as usize), src: Reg(scalar_at(&items, 2, Ghost(kinds)) as u32) },
        95 => Opcode::Assert,
        96 => Opcode::RefData { dst: Reg(scalar_at(&items, 0, Ghost(kinds)) as u32), src: Reg(scalar_at(&items, 1, Ghost(kinds)) as u32) },
        97 => Opcode::RefOffset { dst: Reg(scalar_at(&items, 0, Ghost(kinds)) as u32), reg: Reg(scalar_at(&items, 1, Ghost(kinds)) as u32), offset: scalar_at(&items, 2, Ghost(kinds)) as usize },
        98 => Opcode::Nop,
        _ => Opcode::Nop,
    };
    assert(opcode_operands(op) =~= operands_view(items@));
    op
}

/// The binary form of an instruction: its tag byte, then its operands.
pub open spec fn opcode_bytes(op: Opcode) -> Seq<u8> {
    seq![opcode_tag(op)] + operands_bytes(opcode_operands(op))
}

/// What an instruction is up to the identity of its lists: its tag and operand values.
pub open spec fn opcode_view(op: Opcode) -> (u8, Seq<OperandValue>) {
    (opcode_tag(op), opcode_operands(op))
}

/// Reading one instruction from the start of `b`: its tag, its operands and the number of
/// bytes it takes.
pub open spec fn opcode_decode(b: Seq<u8>) -> Result<(u8, Seq<OperandValue>, nat), DecodeError> {
    if b.len() == 0 {
        Err(DecodeError::Truncated)
    } else {
        match opcode_shape(b[0]) {
            None => Err(DecodeError::UnknownOpcode(b[0])),
            Some(kinds) => match operands_decode(b.subrange(1, b.len() as int), kinds) {
                Ok((items, n)) => Ok((b[0], items, n + 1)),
                Err(e) => Err(e),
            },
        }
    }
}

/// Every instruction has the number and form of operands that its variant's shape declares.
pub proof fn lemma_opcode_shape(op: Opcode)
    ensures
        opcode_shape(opcode_tag(op)) is Some,
        shaped(opcode_operands(op), opcode_shape(opcode_tag(op))->0),
{
}

proof fn lemma_fitting_shaped(items: Seq<OperandValue>, kinds: Seq<OperandKind>)
    requires
        fitting(items, kinds),
    ensures
        shaped(items, kinds),
        forall|i: int| 0 <= i < items.len() ==> writable(#[trigger] items[i]),
{
    assert forall|i: int| 0 <= i < items.len() implies has_form(#[trigger] items[i], kinds[i]) && writable(items[i]) by {
        assert(fits(items[i], kinds[i]));
        match items[i] {
            OperandValue::Scalar(v) => {},
            OperandValue::List(l) => {
                assert forall|j: int| 0 <= j < l.len() implies encodable(#[trigger] l[j]) by {
                    assert(scalar_fits(l[j], kinds[i]));
                }
            },
        }
    }
}

proof fn lemma_list_decode_fits(b: Seq<u8>, count: nat, k: OperandKind)
    requires
        list_decode(b, count, k) is Ok,
    ensures
        list_decode(b, count, k) matches Ok((l, n)) && l.len() == count && n <= b.len() && forall|j: int|
            0 <= j < l.len() ==> scalar_fits(#[trigger] l[j], k),
    decreases count,
{
    if count > 0 {
        lemma_list_decode_fits(b, (count - 1) as nat, k);
        let (l, n) = list_decode(b, (count - 1) as nat, k)->Ok_0;
        lemma_var_decode_bounds(b.subrange(n as int, b.len() as int));
    }
}

/// Whatever the decoder reads fits the kinds it was asked for.
proof fn lemma_operands_decode_fits(b: Seq<u8>, kinds: Seq<OperandKind>)
    requires
        operands_decode(b, kinds) is Ok,
    ensures
        operands_decode(b, kinds) matches Ok((items, n)) && fitting(items, kinds) && n <= b.len(),
    decreases kinds.len(),
{
    if kinds.len() > 0 {
        lemma_operands_decode_fits(b, kinds.drop_last());
        let (items, n) = operands_decode(b, kinds.drop_last())->Ok_0;
        let rest = b.subrange(n as int, b.len() as int);
        let k = kinds.last();
        lemma_var_decode_bounds(rest);
        let (v, m) = var_decode(rest)->0;
        if is_list_kind(k) {
            lemma_var_decode_bounds(rest);
            lemma_list_decode_fits(rest.subrange(m as int, rest.len() as int), v as nat, k);
        }
        let (x, m2) = operand_decode(rest, k)->Ok_0;
        assert(fits(x, k));
        let all = items.push(x);
        assert forall|i: int| 0 <= i < all.len() implies fits(#[trigger] all[i], kinds[i]) by {
            if i < items.len() {
                assert(all[i] == items[i]);
                assert(kinds.drop_last()[i] == kinds[i]);
            }
        }
    }
}

/// Decoding the binary form of an instruction whose operands fit their kinds gives back the
/// same instruction, whatever bytes follow it.
pub proof fn lemma_opcode_round_trip(op: Opcode, rest: Seq<u8>)
    requires
        opcode_fits(op),
    ensures
        opcode_decode(opcode_bytes(op) + rest) == Ok::<(u8, Seq<OperandValue>, nat), DecodeError>(
            (opcode_tag(op), opcode_operands(op), opcode_bytes(op).len()),
        ),
{
    lemma_opcode_shape(op);
    let b = opcode_bytes(op) + rest;
    let kinds = opcode_shape(opcode_tag(op))->0;
    lemma_operands_round_trip(opcode_operands(op), kinds, rest);
    assert(b.subrange(1, b.len() as int) =~= operands_bytes(opcode_operands(op)) + rest);
}

/// Appends the binary form of an instruction whose operands fit their kinds.
pub fn encode(op: &Opcode, out: &mut Vec<u8>)
    requires
        opcode_fits(*op),
    ensures
        final(out)@ == old(out)@ + opcode_bytes(*op),
{
    let (tag, items) = to_operands(op);
    proof {
        lemma_opcode_shape(*op);
        lemma_fitting_shaped(opcode_operands(*op), opcode_shape(opcode_tag(*op))->0);
        assert forall|i: int| 0 <= i < items@.len() implies writable(#[trigger] operand_view(items@[i])) by {
            assert(operands_view(items@)[i] == operand_view(items@[i]));
        }
    }
    let ghost start = out@;
    out.push(tag);
    write_operands(out, &items);
    assert(out@ =~= start + opcode_bytes(*op));
}

/// Reads the instruction that starts at `pos`, and the position after it.
pub fn decode(bytes: &[u8], pos: usize) -> (r: Result<(Opcode, usize), DecodeError>)
    requires
        pos <= bytes@.len(),
    ensures
        match opcode_decode(bytes@.subrange(pos as int, bytes@.len() as int)) {
            Ok((tag, items, n)) => r matches Ok((op, end)) && opcode_view(op) == (tag, items) && end == pos + n
                && end <= bytes@.len(),
            Err(e) => r == Err::<(Opcode, usize), DecodeError>(e),
        },
        r matches Ok((op, _)) ==> shaped(opcode_operands(op), opcode_shape(opcode_tag(op))->0),
{
    let ghost b = bytes@.subrange(pos as int, bytes@.len() as int);
    if pos >= bytes.len() {
        return Err(DecodeError::Truncated);
    }
    let tag = bytes[pos];
    assert(b[0] == tag);
    let kinds = match shape_of(tag) {
        Some(k) => k,
        None => {
            return Err(DecodeError::UnknownOpcode(tag));
        },
    };
    assert(b.subrange(1, b.len() as int) =~= bytes@.subrange(pos + 1, bytes@.len() as int));
    match read_operands(bytes, pos + 1, &kinds) {
        Ok((items, end)) => {
            proof {
                lemma_operands_decode_fits(b.subrange(1, b.len() as int), kinds@);
            }
            let op = from_operands(tag, items);
            proof {
                lemma_opcode_shape(op);
            }
            Ok((op, end))
        },
        Err(e) => Err(e),
    }
}

/// The binary form of an instruction stream: each instruction's form, in order.
pub open spec fn ops_bytes(ops: Seq<Opcode>) -> Seq<u8>
    decreases ops.len(),
{
    if ops.len() == 0 {
        Seq::empty()
    } else {
        ops_bytes(ops.drop_last()) + opcode_bytes(ops.last())
    }
}

pub open spec fn ops_view(ops: Seq<Opcode>) -> Seq<(u8, Seq<OperandValue>)> {
    ops.map_values(|op: Opcode| opcode_view(op))
}

/// Reading `count` instructions from the start of `b`: their views and the bytes they take.
pub open spec fn ops_decode(b: Seq<u8>, count: nat) -> Result<(Seq<(u8, Seq<OperandValue>)>, nat), DecodeError>
    decreases count,
{
    if count == 0 {
        Ok((Seq::empty(), 0))
    } else {
        match ops_decode(b, (count - 1) as nat) {
            Ok((views, n)) => match opcode_decode(b.subrange(n as int, b.len() as int)) {
                Ok((tag, items, m)) => Ok((views.push((tag, items)), n + m)),
                Err(e) => Err(e),
            },
            Err(e) => Err(e),
        }
    }
}

/// Decoding the binary form of an instruction stream whose instructions all fit their
/// shapes gives back the same instructions, whatever bytes follow.
pub proof fn lemma_ops_round_trip(ops: Seq<Opcode>, rest: Seq<u8>)
    requires
        forall|i: int| 0 <= i < ops.len() ==> opcode_fits(#[trigger] ops[i]),
    ensures
        ops_decode(ops_bytes(ops) + rest, ops.len()) == Ok::<(Seq<(u8, Seq<OperandValue>)>, nat), DecodeError>(
            (ops_view(ops), ops_bytes(ops).len()),
        ),
    decreases ops.len(),
{
    if ops.len() > 0 {
        let pre = ops.drop_last();
        let last = ops.last();
        let tail = opcode_bytes(last) + rest;
        assert(forall|i: int| 0 <= i < pre.len() ==> pre[i] == ops[i]);
        lemma_ops_round_trip(pre, tail);
        let b = ops_bytes(ops) + rest;
        assert(b =~= ops_bytes(pre) + tail);
        let n = ops_bytes(pre).len();
        assert(b.subrange(n as int, b.len() as int) =~= opcode_bytes(last) + rest);
        assert(opcode_fits(ops[ops.len() - 1]));
        lemma_opcode_round_trip(last, rest);
        assert(ops_view(pre).push(opcode_view(last)) =~= ops_view(ops));
    } else {
        assert(ops_view(ops) =~= Seq::empty());
    }
}

proof fn lemma_ops_err(b: Seq<u8>, i: nat, j: nat)
    requires
        i <= j,
        ops_decode(b, i) is Err,
    ensures
        ops_decode(b, j) == ops_decode(b, i),
    decreases j,
{
    if j > i {
        lemma_ops_err(b, i, (j - 1) as nat);
    }
}

/// The binary form of an instruction stream whose instructions all fit their shapes.
pub fn encode_function(ops: &Vec<Opcode>) -> (r: Vec<u8>)
    requires
        forall|i: int| 0 <= i < ops@.len() ==> opcode_fits(#[trigger] ops@[i]),
    ensures
        r@ == ops_bytes(ops@),
{
    let mut r: Vec<u8> = Vec::new();
    let mut i: usize = 0;
    while i < ops.len()
        invariant
            i <= ops@.len(),
            forall|k: int| 0 <= k < ops@.len() ==> opcode_fits(#[trigger] ops@[k]),
            r@ == ops_bytes(ops@.subrange(0, i as int)),
        decreases ops@.len() - i,
    {
        encode(&ops[i], &mut r);
        assert(ops@.subrange(0, i + 1).drop_last() =~= ops@.subrange(0, i as int));
        i = i + 1;
    }
    assert(ops@.subrange(0, ops@.len() as int) =~= ops@);
    r
}

/// Reads `count` instructions starting at `pos`, and the position after the last.
pub fn decode_function(bytes: &[u8], pos: usize, count: usize) -> (r: Result<(Vec<Opcode>, usize), DecodeError>)
    requires
        pos <= bytes@.len(),
    ensures
        match ops_decode(bytes@.subrange(pos as int, bytes@.len() as int), count as nat) {
            Ok((views, n)) => r matches Ok((ops, end)) && ops_view(ops@) == views && end == pos + n,
            Err(e) => r == Err::<(Vec<Opcode>, usize), DecodeError>(e),
        },
{
    let ghost b = bytes@.subrange(pos as int, bytes@.len() as int);
    let mut ops: Vec<Opcode> = Vec::new();
    let mut p: usize = pos;
    let mut i: usize = 0;
    assert(ops_view(ops@) =~= Seq::empty());
    while i < count
        invariant
            i <= count,
            pos <= p <= bytes@.len(),
            b == bytes@.subrange(pos as int, bytes@.len() as int),
            ops_decode(b, i as nat) == Ok::<(Seq<(u8, Seq<OperandValue>)>, nat), DecodeError>(
                (ops_view(ops@), (p - pos) as nat),
            ),
        decreases count - i,
    {
        assert(b.subrange(p - pos, b.len() as int) =~= bytes@.subrange(p as int, bytes@.len() as int));
        match decode(bytes, p) {
            Ok((op, end)) => {
                let ghost old_ops = ops@;
                ops.push(op);
                assert(ops_view(ops@) =~= ops_view(old_ops).push(opcode_view(op)));
                p = end;
            },
            Err(e) => {
                proof {
                    lemma_ops_err(b, (i + 1) as nat, count as nat);
                }
                return Err(e);
            },
        }
        i = i + 1;
    }
    Ok((ops, p))
}

} // verus!
