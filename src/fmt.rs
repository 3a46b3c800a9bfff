//! The pretty printer: what each node of the tree renders to, and the code that renders it.

use vstd::prelude::*;
use crate::ast::{Class, ClassField, Constant, Expr, Method, Operation, Statement};
use crate::text::{
    escape_quotes, int_text, spaces, write_escaped, write_i64, write_spaces, write_u64, nat_text,
};
use crate::types::{Bytecode, Function, ObjField, RefField, RefFun, RefString, RefType, Type, TypeFun};

verus! {

/// Indentation state: the current indentation width and how much each nesting level adds.
#[derive(Clone, Copy, Debug, PartialEq, Eq, Structural)]
pub struct FormatOptions {
    pub indent: usize,
    pub inc_indent: usize,
}

impl FormatOptions {
    /// The options one nesting level deeper (the width saturates at `usize::MAX`).
    pub open spec fn nested(self) -> FormatOptions {
        FormatOptions {
            indent: if self.indent + self.inc_indent <= usize::MAX {
                (self.indent + self.inc_indent) as usize
            } else {
                usize::MAX
            },
            inc_indent: self.inc_indent,
        }
    }

    pub fn new(inc_indent: usize) -> (r: Self)
        ensures
            r.indent == 0,
            r.inc_indent == inc_indent,
    {
        FormatOptions { indent: 0, inc_indent }
    }

    pub fn inc_nesting(&self) -> (r: Self)
        ensures
            r == self.nested(),
    {
        FormatOptions { indent: self.indent.saturating_add(self.inc_indent), inc_indent: self.inc_indent }
    }

    /// The indentation itself: `indent` spaces.
    pub fn to_string(&self) -> (r: String)
        ensures
            r@ == spaces(self.indent as nat),
    {
        let mut out = String::new();
        write_spaces(&mut out, self.indent);
        out
    }
}

/// What a reference that leads nowhere renders to.
pub open spec fn invalid_text() -> Seq<char> {
    "[invalid reference]"@
}

pub open spec fn string_text(m: &Bytecode, r: RefString) -> Seq<char> {
    if r.0 < m.strings@.len() {
        m.strings@[r.0 as int]@
    } else {
        invalid_text()
    }
}

pub open spec fn type_at(m: &Bytecode, r: RefType) -> Option<Type> {
    if r.0 < m.types@.len() {
        Some(m.types@[r.0 as int])
    } else {
        None
    }
}

pub open spec fn fun_at(m: &Bytecode, r: RefFun) -> Option<Function> {
    if r.0 < m.functions@.len() {
        Some(m.functions@[r.0 as int])
    } else {
        None
    }
}

/// How a type is written in a signature.
pub open spec fn haxe_text(m: &Bytecode, t: Type) -> Seq<char> {
    match t {
        Type::Void => "Void"@,
        Type::I32 => "Int"@,
        Type::F64 => "Float"@,
        Type::Bool => "Bool"@,
        Type::Bytes => "hl.Bytes"@,
        Type::Dyn => "Dynamic"@,
        Type::Fun(_) => "Function"@,
        Type::Obj(o) => string_text(m, o.name),
        _ => "other"@,
    }
}

/// How a type reference is written in a signature; an unknown one is `other`.
pub open spec fn haxe_ref_text(m: &Bytecode, r: RefType) -> Seq<char> {
    match type_at(m, r) {
        Some(t) => haxe_text(m, t),
        None => "other"@,
    }
}

pub open spec fn fun_name_text(m: &Bytecode, r: RefFun) -> Seq<char> {
    match fun_at(m, r) {
        Some(f) => match f.name {
            Some(n) => string_text(m, n),
            None => "_"@,
        },
        None => invalid_text(),
    }
}

/// The signature of a function, when the function exists and its type entry is a function type.
pub open spec fn fn_sig(m: &Bytecode, r: RefFun) -> Option<TypeFun> {
    match fun_at(m, r) {
        Some(f) => match type_at(m, f.t) {
            Some(Type::Fun(tf)) => Some(tf),
            _ => None,
        },
        None => None,
    }
}

/// The argument types of a function, empty when its signature cannot be found.
pub open spec fn sig_args(m: &Bytecode, r: RefFun) -> Seq<RefType> {
    match fn_sig(m, r) {
        Some(tf) => tf.args@,
        None => Seq::empty(),
    }
}

/// The debug name of argument `i`, or `_` when there is none.
pub open spec fn arg_name_text(m: &Bytecode, r: RefFun, i: int) -> Seq<char> {
    match fun_at(m, r) {
        Some(f) => if 0 <= i < f.reg_names@.len() {
            match f.reg_names@[i] {
                Some(n) => string_text(m, n),
                None => "_"@,
            }
        } else {
            "_"@
        },
        None => "_"@,
    }
}

/// `name: Type` for the argument at position `i`.
pub open spec fn param_text(m: &Bytecode, r: RefFun, i: int) -> Seq<char> {
    arg_name_text(m, r, i) + ": "@ + haxe_ref_text(m, sig_args(m, r)[i])
}

/// The parameters at positions `start .. end`, separated by `", "`.
pub open spec fn params_text(m: &Bytecode, r: RefFun, start: int, end: int) -> Seq<char>
    decreases end - start,
{
    if end <= start {
        Seq::empty()
    } else if end == start + 1 {
        param_text(m, r, start)
    } else {
        params_text(m, r, start, end - 1) + ", "@ + param_text(m, r, end - 1)
    }
}

pub open spec fn constant_text(m: &Bytecode, c: Constant) -> Seq<char> {
    match c {
        Constant::InlineInt(i) => int_text(i as int),
        Constant::Int(r) => if r.0 < m.ints@.len() {
            int_text(m.ints@[r.0 as int] as int)
        } else {
            invalid_text()
        },
        Constant::Float(r) => if r.0 < m.floats@.len() {
            m.floats@[r.0 as int]@
        } else {
            invalid_text()
        },
        Constant::String(r) => if r.0 < m.strings@.len() {
            "\""@ + escape_quotes(m.strings@[r.0 as int]@) + "\""@
        } else {
            invalid_text()
        },
        Constant::Bool(b) => if b { "true"@ } else { "false"@ },
        Constant::Null => "null"@,
        Constant::This => "this"@,
    }
}

/// The name of constructor `c` of the enum type `ty`.
pub open spec fn construct_text(m: &Bytecode, ty: RefType, c: usize) -> Seq<char> {
    match type_at(m, ty) {
        Some(Type::Enum { name, constructs }) => if c < constructs@.len() {
            string_text(m, constructs@[c as int].name)
        } else {
            invalid_text()
        },
        _ => invalid_text(),
    }
}

/// The text of a register without a recovered name: `reg` and its index.
pub open spec fn reg_text(r: u32) -> Seq<char> {
    "reg"@ + nat_text(r as nat)
}

/// What an anonymous value renders to when its type is not a structural type.
pub open spec fn invalid_anonymous_text() -> Seq<char> {
    "[invalid anonymous type]"@
}

/// What a field of an anonymous value that holds no value renders to.
pub open spec fn missing_value_text() -> Seq<char> {
    "[missing value]"@
}

pub open spec fn op_text(m: &Bytecode, op: Operation, o: FormatOptions) -> Seq<char>
    decreases op, 0nat,
{
    match op {
        Operation::Add(a, b) => expr_text(m, *a, o) + " + "@ + expr_text(m, *b, o),
        Operation::Sub(a, b) => expr_text(m, *a, o) + " - "@ + expr_text(m, *b, o),
        Operation::Mul(a, b) => expr_text(m, *a, o) + " * "@ + expr_text(m, *b, o),
        Operation::Div(a, b) => expr_text(m, *a, o) + " / "@ + expr_text(m, *b, o),
        Operation::Mod(a, b) => expr_text(m, *a, o) + " % "@ + expr_text(m, *b, o),
        Operation::Shl(a, b) => expr_text(m, *a, o) + " << "@ + expr_text(m, *b, o),
        Operation::Shr(a, b) => expr_text(m, *a, o) + " >> "@ + expr_text(m, *b, o),
        Operation::And(a, b) => expr_text(m, *a, o) + " && "@ + expr_text(m, *b, o),
        Operation::Or(a, b) => expr_text(m, *a, o) + " || "@ + expr_text(m, *b, o),
        Operation::Xor(a, b) => expr_text(m, *a, o) + " ^ "@ + expr_text(m, *b, o),
        Operation::Neg(a) => "-"@ + expr_text(m, *a, o),
        Operation::Not(a) => "!"@ + expr_text(m, *a, o),
        Operation::Incr(a) => expr_text(m, *a, o) + "++"@,
        Operation::Decr(a) => expr_text(m, *a, o) + "--"@,
        Operation::Eq(a, b) => expr_text(m, *a, o) + " == "@ + expr_text(m, *b, o),
        Operation::NotEq(a, b) => expr_text(m, *a, o) + " != "@ + expr_text(m, *b, o),
        Operation::Gt(a, b) => expr_text(m, *a, o) + " > "@ + expr_text(m, *b, o),
        Operation::Gte(a, b) => expr_text(m, *a, o) + " >= "@ + expr_text(m, *b, o),
        Operation::Lt(a, b) => expr_text(m, *a, o) + " < "@ + expr_text(m, *b, o),
        Operation::Lte(a, b) => expr_text(m, *a, o) + " <= "@ + expr_text(m, *b, o),
    }
}

/// The expressions of `es`, separated by `", "`.
pub open spec fn exprs_text(m: &Bytecode, es: Seq<Expr>, o: FormatOptions) -> Seq<char>
    decreases es, 0nat,
{
    if es.len() == 0 {
        Seq::empty()
    } else if es.len() == 1 {
        expr_text(m, es[0], o)
    } else {
        exprs_text(m, es.subrange(0, es.len() - 1), o) + ", "@ + expr_text(m, es[es.len() - 1], o)
    }
}

/// The text of the value given for field `k` of an anonymous value: the first entry for it.
pub open spec fn anon_value_text(m: &Bytecode, vals: Seq<(RefField, Expr)>, k: int, o: FormatOptions) -> Seq<char>
    decreases vals, 0nat,
{
    if vals.len() == 0 {
        missing_value_text()
    } else if vals[0].0.0 == k {
        expr_text(m, vals[0].1, o)
    } else {
        anon_value_text(m, vals.subrange(1, vals.len() as int), k, o)
    }
}

/// The first `n` fields of a structural type with their values, as `name: value`
/// separated by `", "`.
pub open spec fn anon_fields_text(
    m: &Bytecode,
    fields: Seq<ObjField>,
    vals: Seq<(RefField, Expr)>,
    n: nat,
    o: FormatOptions,
) -> Seq<char>
    decreases vals, n,
{
    if n == 0 {
        Seq::empty()
    } else if n == 1 {
        string_text(m, fields[0].name) + ": "@ + anon_value_text(m, vals, 0, o)
    } else {
        anon_fields_text(m, fields, vals, (n - 1) as nat, o) + ", "@ + string_text(m, fields[n - 1].name)
            + ": "@ + anon_value_text(m, vals, n - 1, o)
    }
}

pub open spec fn expr_text(m: &Bytecode, e: Expr, o: FormatOptions) -> Seq<char>
    decreases e, 0nat,
{
    match e {
        Expr::Anonymous(ty, vals) => match type_at(m, ty) {
            Some(Type::Virtual { fields }) => "{"@ + anon_fields_text(m, fields@, vals@, fields@.len(), o)
                + "}"@,
            _ => invalid_anonymous_text(),
        },
        Expr::Array(a, i) => expr_text(m, *a, o) + "["@ + expr_text(m, *i, o) + "]"@,
        Expr::Call { fun, args } => expr_text(m, *fun, o) + "("@ + exprs_text(m, args@, o) + ")"@,
        Expr::Constant(c) => constant_text(m, c),
        Expr::Constructor { ty, args } => "new "@ + haxe_ref_text(m, ty) + "("@ + exprs_text(m, args@, o)
            + ")"@,
        Expr::Closure(f, stmts) => "("@ + params_text(m, f, 0, sig_args(m, f).len() as int)
            + ") -> {\n"@ + block_text(m, stmts@, o.nested()) + spaces(o.indent as nat) + "}"@,
        Expr::EnumConstr(ty, c, args) => construct_text(m, ty, c) + "("@ + exprs_text(m, args@, o) + ")"@,
        Expr::Field(r, name) => expr_text(m, *r, o) + "."@ + name@,
        Expr::FunRef(f) => fun_name_text(m, f),
        Expr::IfElse { cond, if_, else_ } => "if ("@ + expr_text(m, *cond, o) + ") {\n"@
            + block_text(m, if_@, o.nested()) + spaces(o.indent as nat) + "} else {\n"@
            + block_text(m, else_@, o.nested()) + spaces(o.indent as nat) + "}"@,
        Expr::Op(op) => op_text(m, op, o),
        Expr::Unknown(msg) => "["@ + msg@ + "]"@,
        Expr::Variable(r, name) => match name {
            Some(n) => string_text(m, n),
            None => reg_text(r.0),
        },
    }
}

/// The statements of a block, each on its own line at the indentation of `o`.
pub open spec fn block_text(m: &Bytecode, ss: Seq<Statement>, o: FormatOptions) -> Seq<char>
    decreases ss, 0nat,
{
    if ss.len() == 0 {
        Seq::empty()
    } else {
        block_text(m, ss.subrange(0, ss.len() - 1), o) + spaces(o.indent as nat)
            + stmt_text(m, ss[ss.len() - 1], o) + "\n"@
    }
}

/// The `case` arms of a switch statement written at the indentation of `o`.
pub open spec fn cases_text(m: &Bytecode, cs: Seq<(Expr, Vec<Statement>)>, o: FormatOptions) -> Seq<char>
    decreases cs, 0nat,
{
    if cs.len() == 0 {
        Seq::empty()
    } else {
        let last = cs[cs.len() - 1];
        cases_text(m, cs.subrange(0, cs.len() - 1), o) + spaces(o.nested().indent as nat) + "case "@
            + expr_text(m, last.0, o) + ":\n"@ + block_text(m, last.1@, o.nested().nested())
    }
}

/// The text of a statement that starts at the indentation of `o`.
pub open spec fn stmt_text(m: &Bytecode, s: Statement, o: FormatOptions) -> Seq<char>
    decreases s, 0nat,
{
    match s {
        Statement::Assign { declaration, variable, assign } => (if declaration {
            "var "@
        } else {
            Seq::empty()
        }) + expr_text(m, variable, o) + " = "@ + expr_text(m, assign, o) + ";"@,
        Statement::ExprStatement(e) => expr_text(m, e, o) + ";"@,
        Statement::Return(v) => match v {
            Some(e) => "return"@ + " "@ + expr_text(m, e, o) + ";"@,
            None => "return"@ + ";"@,
        },
        Statement::IfElse { cond, if_, else_ } => "if ("@ + expr_text(m, cond, o) + ") {\n"@
            + block_text(m, if_@, o.nested()) + spaces(o.indent as nat) + "}"@ + (if else_@.len() == 0 {
            Seq::empty()
        } else {
            " else {\n"@ + block_text(m, else_@, o.nested()) + spaces(o.indent as nat) + "}"@
        }),
        Statement::Switch { arg, default, cases } => "switch ("@ + expr_text(m, arg, o) + ") {\n"@
            + (if default@.len() == 0 {
            Seq::empty()
        } else {
            spaces(o.nested().indent as nat) + "default:\n"@ + block_text(m, default@, o.nested().nested())
        }) + cases_text(m, cases@, o) + spaces(o.indent as nat) + "}"@,
        Statement::While { cond, stmts } => "while ("@ + expr_text(m, cond, o) + ") {\n"@
            + block_text(m, stmts@, o.nested()) + spaces(o.indent as nat) + "}"@,
        Statement::Break => "break;"@,
        Statement::Continue => "continue;"@,
        Statement::Throw(e) => "throw "@ + expr_text(m, e, o),
        Statement::Try { stmts } => "try {\n"@ + block_text(m, stmts@, o.nested()) + spaces(o.indent as nat)
            + "}"@,
        Statement::Catch { stmts } => "catch () {\n"@ + block_text(m, stmts@, o.nested())
            + spaces(o.indent as nat) + "}"@,
        Statement::Comment(c) => "// "@ + c@,
    }
}

/// Whether a method signature shows its return type: the signature is known and the
/// return type is not `Void`.
pub open spec fn shows_ret(m: &Bytecode, r: RefFun) -> bool {
    match fn_sig(m, r) {
        Some(tf) => match type_at(m, tf.ret) {
            Some(Type::Void) => false,
            _ => true,
        },
        None => false,
    }
}

/// The signature line of a method up to and including the opening brace of its body.
pub open spec fn signature_text(m: &Bytecode, meth: Method, o: FormatOptions) -> Seq<char> {
    let skip: int = if meth.static_ { 0 } else { 1 };
    spaces(o.indent as nat) + (if meth.static_ { "static "@ } else { Seq::empty() }) + (if meth.dynamic {
        "dynamic "@
    } else {
        Seq::empty()
    }) + "function "@ + fun_name_text(m, meth.fun) + "("@ + params_text(
        m,
        meth.fun,
        skip,
        sig_args(m, meth.fun).len() as int,
    ) + ")"@ + (if shows_ret(m, meth.fun) {
        ": "@ + haxe_ref_text(m, fn_sig(m, meth.fun)->0.ret)
    } else {
        Seq::empty()
    }) + " {"@
}

/// A method: its signature, then `}` at once when the body is empty, else the body's
/// statements one level deeper and a closing brace; always ending with a newline.
pub open spec fn method_text(m: &Bytecode, meth: Method, o: FormatOptions) -> Seq<char> {
    signature_text(m, meth, o) + (if meth.statements@.len() == 0 {
        "}"@
    } else {
        "\n"@ + block_text(m, meth.statements@, o.nested()) + spaces(o.indent as nat) + "}"@
    }) + "\n"@
}

/// The first `n` fields of a class, one declaration per line.
pub open spec fn fields_text(m: &Bytecode, fields: Seq<ClassField>, n: nat, o: FormatOptions) -> Seq<char>
    decreases n,
{
    if n == 0 || n > fields.len() {
        Seq::empty()
    } else {
        let f = fields[n - 1];
        fields_text(m, fields, (n - 1) as nat, o) + spaces(o.indent as nat) + (if f.static_ {
            "static "@
        } else {
            Seq::empty()
        }) + "var "@ + f.name@ + ": "@ + haxe_ref_text(m, f.ty) + ";\n"@
    }
}

/// The first `n` methods of a class, each preceded by an empty line.
pub open spec fn methods_text(m: &Bytecode, methods: Seq<Method>, n: nat, o: FormatOptions) -> Seq<char>
    decreases n,
{
    if n == 0 || n > methods.len() {
        Seq::empty()
    } else {
        methods_text(m, methods, (n - 1) as nat, o) + "\n"@ + method_text(m, methods[n - 1], o)
    }
}

/// A class: its header, its fields and its methods one level deeper, and a closing brace.
pub open spec fn class_text(m: &Bytecode, c: Class, o: FormatOptions) -> Seq<char> {
    spaces(o.indent as nat) + "class "@ + c.name@ + (match c.parent {
        Some(p) => " extends "@ + p@,
        None => Seq::empty(),
    }) + " {\n"@ + fields_text(m, c.fields@, c.fields@.len(), o.nested()) + methods_text(
        m,
        c.methods@,
        c.methods@.len(),
        o.nested(),
    ) + spaces(o.indent as nat) + "}"@
}

fn write_invalid(out: &mut String)
    ensures
        final(out)@ == old(out)@ + invalid_text(),
{
    out.append("[invalid reference]");
}

fn write_string_ref(out: &mut String, m: &Bytecode, r: RefString)
    ensures
        final(out)@ == old(out)@ + string_text(m, r),
{
    if r.0 < m.strings.len() {
        out.append(m.strings[r.0].as_str());
    } else {
        write_invalid(out);
    }
}

fn write_haxe(out: &mut String, m: &Bytecode, t: &Type)
    ensures
        final(out)@ == old(out)@ + haxe_text(m, *t),
{
    match t {
        Type::Void => out.append("Void"),
        Type::I32 => out.append("Int"),
        Type::F64 => out.append("Float"),
        Type::Bool => out.append("Bool"),
        Type::Bytes => out.append("hl.Bytes"),
        Type::Dyn => out.append("Dynamic"),
        Type::Fun(_) => out.append("Function"),
        Type::Obj(o) => write_string_ref(out, m, o.name),
        _ => out.append("other"),
    }
}

/// How a type is written in a method signature.
pub fn to_haxe_type(ty: &Type, ctx: &Bytecode) -> (r: String)
    ensures
        r@ == haxe_text(ctx, *ty),
{
    let mut out = String::new();
    write_haxe(&mut out, ctx, ty);
    out
}

fn write_haxe_ref(out: &mut String, m: &Bytecode, r: RefType)
    ensures
        final(out)@ == old(out)@ + haxe_ref_text(m, r),
{
    if r.0 < m.types.len() {
        write_haxe(out, m, &m.types[r.0]);
    } else {
        out.append("other");
    }
}

fn write_fun_name(out: &mut String, m: &Bytecode, r: RefFun)
    ensures
        final(out)@ == old(out)@ + fun_name_text(m, r),
{
    if r.0 < m.functions.len() {
        match m.functions[r.0].name {
            Some(n) => write_string_ref(out, m, n),
            None => out.append("_"),
        }
    } else {
        write_invalid(out);
    }
}

fn lookup_sig<'a>(m: &'a Bytecode, r: RefFun) -> (res: Option<&'a TypeFun>)
    ensures
        match res {
            Some(tf) => fn_sig(m, r) == Some(*tf),
            None => fn_sig(m, r) is None,
        },
{
    if r.0 < m.functions.len() {
        let t = m.functions[r.0].t;
        if t.0 < m.types.len() {
            match &m.types[t.0] {
                Type::Fun(tf) => Some(tf),
                _ => None,
            }
        } else {
            None
        }
    } else {
        None
    }
}

fn write_arg_name(out: &mut String, m: &Bytecode, r: RefFun, i: usize)
    ensures
        final(out)@ == old(out)@ + arg_name_text(m, r, i as int),
{
    if r.0 < m.functions.len() && i < m.functions[r.0].reg_names.len() {
        match m.functions[r.0].reg_names[i] {
            Some(n) => write_string_ref(out, m, n),
            None => out.append("_"),
        }
    } else {
        out.append("_");
    }
}

/// Writes the parameters `start .. sig_args(m, r).len()` of function `r`.
fn write_params(out: &mut String, m: &Bytecode, r: RefFun, start: usize)
    ensures
        final(out)@ == old(out)@ + params_text(m, r, start as int, sig_args(m, r).len() as int),
{
    let ghost begin = out@;
    match lookup_sig(m, r) {
        None => {
            assert(params_text(m, r, start as int, 0) =~= Seq::<char>::empty());
            assert(out@ =~= begin + params_text(m, r, start as int, sig_args(m, r).len() as int));
        },
        Some(tf) => {
            let n = tf.args.len();
            if n <= start {
                assert(out@ =~= begin + params_text(m, r, start as int, n as int));
                return;
            }
            let mut i: usize = start;
            while i < n
                invariant
                    start <= i <= n,
                    n == tf.args@.len(),
                    sig_args(m, r) == tf.args@,
                    out@ == begin + params_text(m, r, start as int, i as int),
                decreases n - i,
            {
                if i > start {
                    out.append(", ");
                }
                write_arg_name(out, m, r, i);
                out.append(": ");
                write_haxe_ref(out, m, tf.args[i]);
                assert(out@ =~= begin + params_text(m, r, start as int, i + 1));
                i = i + 1;
            }
        },
    }
}

fn write_constant(out: &mut String, m: &Bytecode, c: Constant)
    ensures
        final(out)@ == old(out)@ + constant_text(m, c),
{
    match c {
        Constant::InlineInt(i) => write_i64(out, i as i64),
        Constant::Int(r) => if r.0 < m.ints.len() {
            write_i64(out, m.ints[r.0] as i64);
        } else {
            write_invalid(out);
        },
        Constant::Float(r) => if r.0 < m.floats.len() {
            out.append(m.floats[r.0].as_str());
        } else {
            write_invalid(out);
        },
        Constant::String(r) => if r.0 < m.strings.len() {
            let ghost begin = out@;
            out.append("\"");
            write_escaped(out, m.strings[r.0].as_str());
            out.append("\"");
            assert(out@ =~= begin + constant_text(m, c));
        } else {
            write_invalid(out);
        },
        Constant::Bool(b) => if b {
            out.append("true");
        } else {
            out.append("false");
        },
        Constant::Null => out.append("null"),
        Constant::This => out.append("this"),
    }
}

fn write_construct(out: &mut String, m: &Bytecode, ty: RefType, c: usize)
    ensures
        final(out)@ == old(out)@ + construct_text(m, ty, c),
{
    if ty.0 < m.types.len() {
        match &m.types[ty.0] {
            Type::Enum { name, constructs } => if c < constructs.len() {
                write_string_ref(out, m, constructs[c].name);
            } else {
                write_invalid(out);
            },
            _ => write_invalid(out),
        }
    } else {
        write_invalid(out);
    }
}

fn write_op(out: &mut String, m: &Bytecode, op: &Operation, o: FormatOptions)
    ensures
        final(out)@ == old(out)@ + op_text(m, *op, o),
    decreases op,
{
    let ghost begin = out@;
    match op {
        Operation::Add(a, b) => {
            write_expr(out, m, a, o);
            out.append(" + ");
            write_expr(out, m, b, o);
        },
        Operation::Sub(a, b) => {
            write_expr(out, m, a, o);
            out.append(" - ");
            write_expr(out, m, b, o);
        },
        Operation::Mul(a, b) => {
            write_expr(out, m, a, o);
            out.append(" * ");
            write_expr(out, m, b, o);
        },
        Operation::Div(a, b) => {
            write_expr(out, m, a, o);
            out.append(" / ");
            write_expr(out, m, b, o);
        },
        Operation::Mod(a, b) => {
            write_expr(out, m, a, o);
            out.append(" % ");
            write_expr(out, m, b, o);
        },
        Operation::Shl(a, b) => {
            write_expr(out, m, a, o);
            out.append(" << ");
            write_expr(out, m, b, o);
        },
        Operation::Shr(a, b) => {
            write_expr(out, m, a, o);
            out.append(" >> ");
            write_expr(out, m, b, o);
        },
        Operation::And(a, b) => {
            write_expr(out, m, a, o);
            out.append(" && ");
            write_expr(out, m, b, o);
        },
        Operation::Or(a, b) => {
            write_expr(out, m, a, o);
            out.append(" || ");
            write_expr(out, m, b, o);
        },
        Operation::Xor(a, b) => {
            write_expr(out, m, a, o);
            out.append(" ^ ");
            write_expr(out, m, b, o);
        },
        Operation::Eq(a, b) => {
            write_expr(out, m, a, o);
            out.append(" == ");
            write_expr(out, m, b, o);
        },
        Operation::NotEq(a, b) => {
            write_expr(out, m, a, o);
            out.append(" != ");
            write_expr(out, m, b, o);
        },
        Operation::Gt(a, b) => {
            write_expr(out, m, a, o);
            out.append(" > ");
            write_expr(out, m, b, o);
        },
        Operation::Gte(a, b) => {
            write_expr(out, m, a, o);
            out.append(" >= ");
            write_expr(out, m, b, o);
        },
        Operation::Lt(a, b) => {
            write_expr(out, m, a, o);
            out.append(" < ");
            write_expr(out, m, b, o);
        },
        Operation::Lte(a, b) => {
            write_expr(out, m, a, o);
            out.append(" <= ");
            write_expr(out, m, b, o);
        },
        Operation::Neg(a) => {
            out.append("-");
            write_expr(out, m, a, o);
        },
        Operation::Not(a) => {
            out.append("!");
            write_expr(out, m, a, o);
        },
        Operation::Incr(a) => {
            write_expr(out, m, a, o);
            out.append("++");
        },
        Operation::Decr(a) => {
            write_expr(out, m, a, o);
            out.append("--");
        },
    }
    assert(out@ =~= begin + op_text(m, *op, o));
}

fn write_exprs(out: &mut String, m: &Bytecode, es: &Vec<Expr>, o: FormatOptions)
    ensures
        final(out)@ == old(out)@ + exprs_text(m, es@, o),
    decreases es,
{
    let ghost begin = out@;
    let mut i: usize = 0;
    assert(es@.subrange(0, 0) =~= Seq::<Expr>::empty());
    while i < es.len()
        invariant
            i <= es@.len(),
            out@ == begin + exprs_text(m, es@.subrange(0, i as int), o),
        decreases es@.len() - i,
    {
        if i > 0 {
            out.append(", ");
        }
        write_expr(out, m, &es[i], o);
        proof {
            let next = es@.subrange(0, i + 1);
            assert(next.subrange(0, i as int) =~= es@.subrange(0, i as int));
            assert(next[i as int] == es@[i as int]);
        }
        assert(out@ =~= begin + exprs_text(m, es@.subrange(0, i + 1), o));
        i = i + 1;
    }
    assert(es@.subrange(0, es@.len() as int) =~= es@);
}

/// The position of the first entry of `vals` for field `k`, if any.
fn find_value(
    m: &Bytecode,
    vals: &Vec<(RefField, Expr)>,
    k: usize,
    Ghost(o): Ghost<FormatOptions>,
) -> (r: Option<usize>)
    ensures
        match r {
            Some(j) => j < vals@.len() && anon_value_text(m, vals@, k as int, o) == expr_text(
                m,
                vals@[j as int].1,
                o,
            ),
            None => anon_value_text(m, vals@, k as int, o) == missing_value_text(),
        },
{
    let mut j: usize = 0;
    assert(vals@.subrange(0, vals@.len() as int) =~= vals@);
    while j < vals.len()
        invariant
            j <= vals@.len(),
            anon_value_text(m, vals@, k as int, o) == anon_value_text(
                m,
                vals@.subrange(j as int, vals@.len() as int),
                k as int,
                o,
            ),
        decreases vals@.len() - j,
    {
        let ghost rest = vals@.subrange(j as int, vals@.len() as int);
        assert(rest[0] == vals@[j as int]);
        if vals[j].0.0 == k {
            return Some(j);
        }
        assert(rest.subrange(1, rest.len() as int) =~= vals@.subrange(j + 1, vals@.len() as int));
        j = j + 1;
    }
    None
}

fn write_anon_fields(
    out: &mut String,
    m: &Bytecode,
    fields: &Vec<ObjField>,
    vals: &Vec<(RefField, Expr)>,
    o: FormatOptions,
)
    ensures
        final(out)@ == old(out)@ + anon_fields_text(m, fields@, vals@, fields@.len(), o),
    decreases vals,
{
    let ghost begin = out@;
    let mut i: usize = 0;
    while i < fields.len()
        invariant
            i <= fields@.len(),
            out@ == begin + anon_fields_text(m, fields@, vals@, i as nat, o),
        decreases fields@.len() - i,
    {
        if i > 0 {
            out.append(", ");
        }
        write_string_ref(out, m, fields[i].name);
        out.append(": ");
        match find_value(m, vals, i, Ghost(o)) {
            Some(j) => write_expr(out, m, &vals[j].1, o),
            None => out.append("[missing value]"),
        }
        assert(out@ =~= begin + anon_fields_text(m, fields@, vals@, (i + 1) as nat, o));
        i = i + 1;
    }
}

fn write_expr(out: &mut String, m: &Bytecode, e: &Expr, o: FormatOptions)
    ensures
        final(out)@ == old(out)@ + expr_text(m, *e, o),
    decreases e,
{
    let ghost begin = out@;
    match e {
        Expr::Anonymous(ty, vals) => {
            if ty.0 < m.types.len() {
                match &m.types[ty.0] {
                    Type::Virtual { fields } => {
                        out.append("{");
                        write_anon_fields(out, m, fields, vals, o);
                        out.append("}");
                    },
                    _ => out.append("[invalid anonymous type]"),
                }
            } else {
                out.append("[invalid anonymous type]");
            }
        },
        Expr::Array(a, i) => {
            write_expr(out, m, a, o);
            out.append("[");
            write_expr(out, m, i, o);
            out.append("]");
        },
        Expr::Call { fun, args } => {
            write_expr(out, m, fun, o);
            out.append("(");
            write_exprs(out, m, args, o);
            out.append(")");
        },
        Expr::Constant(c) => write_constant(out, m, *c),
        Expr::Constructor { ty, args } => {
            out.append("new ");
            write_haxe_ref(out, m, *ty);
            out.append("(");
            write_exprs(out, m, args, o);
            out.append(")");
        },
        Expr::Closure(f, stmts) => {
            out.append("(");
            write_params(out, m, *f, 0);
            out.append(") -> {\n");
            write_block(out, m, stmts, o.inc_nesting());
            write_spaces(out, o.indent);
            out.append("}");
        },
        Expr::EnumConstr(ty, c, args) => {
            write_construct(out, m, *ty, *c);
            out.append("(");
            write_exprs(out, m, args, o);
            out.append(")");
        },
        Expr::Field(r, name) => {
            write_expr(out, m, r, o);
            out.append(".");
            out.append(name.as_str());
        },
        Expr::FunRef(f) => write_fun_name(out, m, *f),
        Expr::IfElse { cond, if_, else_ } => {
            out.append("if (");
            write_expr(out, m, cond, o);
            out.append(") {\n");
            write_block(out, m, if_, o.inc_nesting());
            write_spaces(out, o.indent);
            out.append("} else {\n");
            write_block(out, m, else_, o.inc_nesting());
            write_spaces(out, o.indent);
            out.append("}");
        },
        Expr::Op(op) => write_op(out, m, op, o),
        Expr::Unknown(msg) => {
            out.append("[");
            out.append(msg.as_str());
            out.append("]");
        },
        Expr::Variable(r, name) => match name {
            Some(n) => write_string_ref(out, m, *n),
            None => {
                out.append("reg");
                write_u64(out, r.0 as u64);
            },
        },
    }
    assert(out@ =~= begin + expr_text(m, *e, o));
}

fn write_block(out: &mut String, m: &Bytecode, ss: &Vec<Statement>, o: FormatOptions)
    ensures
        final(out)@ == old(out)@ + block_text(m, ss@, o),
    decreases ss,
{
    let ghost begin = out@;
    let mut i: usize = 0;
    assert(ss@.subrange(0, 0) =~= Seq::<Statement>::empty());
    while i < ss.len()
        invariant
            i <= ss@.len(),
            out@ == begin + block_text(m, ss@.subrange(0, i as int), o),
        decreases ss@.len() - i,
    {
        write_spaces(out, o.indent);
        write_stmt(out, m, &ss[i], o);
        out.append("\n");
        proof {
            let next = ss@.subrange(0, i + 1);
            assert(next.subrange(0, i as int) =~= ss@.subrange(0, i as int));
            assert(next[i as int] == ss@[i as int]);
        }
        assert(out@ =~= begin + block_text(m, ss@.subrange(0, i + 1), o));
        i = i + 1;
    }
    assert(ss@.subrange(0, ss@.len() as int) =~= ss@);
}

fn write_cases(out: &mut String, m: &Bytecode, cs: &Vec<(Expr, Vec<Statement>)>, o: FormatOptions)
    ensures
        final(out)@ == old(out)@ + cases_text(m, cs@, o),
    decreases cs,
{
    let ghost begin = out@;
    let o2 = o.inc_nesting();
    let o3 = o2.inc_nesting();
    let mut i: usize = 0;
    assert(cs@.subrange(0, 0) =~= Seq::<(Expr, Vec<Statement>)>::empty());
    while i < cs.len()
        invariant
            i <= cs@.len(),
            o2 == o.nested(),
            o3 == o.nested().nested(),
            out@ == begin + cases_text(m, cs@.subrange(0, i as int), o),
        decreases cs@.len() - i,
    {
        write_spaces(out, o2.indent);
        out.append("case ");
        write_expr(out, m, &cs[i].0, o);
        out.append(":\n");
        write_block(out, m, &cs[i].1, o3);
        proof {
            let next = cs@.subrange(0, i + 1);
            assert(next.subrange(0, i as int) =~= cs@.subrange(0, i as int));
            assert(next[i as int] == cs@[i as int]);
        }
        assert(out@ =~= begin + cases_text(m, cs@.subrange(0, i + 1), o));
        i = i + 1;
    }
    assert(cs@.subrange(0, cs@.len() as int) =~= cs@);
}

#[verifier::rlimit(60)]
fn write_stmt(out: &mut String, m: &Bytecode, s: &Statement, o: FormatOptions)
    ensures
        final(out)@ == old(out)@ + stmt_text(m, *s, o),
    decreases s,
{
    let ghost begin = out@;
    match s {
        Statement::Assign { declaration, variable, assign } => {
            if *declaration {
                out.append("var ");
            }
            write_expr(out, m, variable, o);
            out.append(" = ");
            write_expr(out, m, assign, o);
            out.append(";");
        },
        Statement::ExprStatement(e) => {
            write_expr(out, m, e, o);
            out.append(";");
        },
        Statement::Return(v) => {
            out.append("return");
            match v {
                Some(e) => {
                    out.append(" ");
                    write_expr(out, m, e, o);
                },
                None => {},
            }
            out.append(";");
        },
        Statement::IfElse { cond, if_, else_ } => {
            out.append("if (");
            write_expr(out, m, cond, o);
            out.append(") {\n");
            write_block(out, m, if_, o.inc_nesting());
            write_spaces(out, o.indent);
            out.append("}");
            if else_.len() > 0 {
                out.append(" else {\n");
                write_block(out, m, else_, o.inc_nesting());
                write_spaces(out, o.indent);
                out.append("}");
            }
        },
        Statement::Switch { arg, default, cases } => {
            out.append("switch (");
            write_expr(out, m, arg, o);
            out.append(") {\n");
            let o2 = o.inc_nesting();
            if default.len() > 0 {
                write_spaces(out, o2.indent);
                out.append("default:\n");
                write_block(out, m, default, o2.inc_nesting());
            }
            write_cases(out, m, cases, o);
            write_spaces(out, o.indent);
            out.append("}");
        },
        Statement::While { cond, stmts } => {
            out.append("while (");
            write_expr(out, m, cond, o);
            out.append(") {\n");
            write_block(out, m, stmts, o.inc_nesting());
            write_spaces(out, o.indent);
            out.append("}");
        },
        Statement::Break => out.append("break;"),
        Statement::Continue => out.append("continue;"),
        Statement::Throw(e) => {
            out.append("throw ");
            write_expr(out, m, e, o);
        },
        Statement::Try { stmts } => {
            out.append("try {\n");
            write_block(out, m, stmts, o.inc_nesting());
            write_spaces(out, o.indent);
            out.append("}");
        },
        Statement::Catch { stmts } => {
            out.append("catch () {\n");
            write_block(out, m, stmts, o.inc_nesting());
            write_spaces(out, o.indent);
            out.append("}");
        },
        Statement::Comment(c) => {
            out.append("// ");
            out.append(c.as_str());
        },
    }
    assert(out@ =~= begin + stmt_text(m, *s, o));
}

fn write_ret(out: &mut String, m: &Bytecode, r: RefFun)
    ensures
        final(out)@ == old(out)@ + (if shows_ret(m, r) {
            ": "@ + haxe_ref_text(m, fn_sig(m, r)->0.ret)
        } else {
            Seq::empty()
        }),
{
    let ghost begin = out@;
    match lookup_sig(m, r) {
        Some(tf) => {
            let void = tf.ret.0 < m.types.len() && match &m.types[tf.ret.0] {
                Type::Void => true,
                _ => false,
            };
            if !void {
                out.append(": ");
                write_haxe_ref(out, m, tf.ret);
            }
        },
        None => {},
    }
    assert(out@ =~= begin + (if shows_ret(m, r) {
        ": "@ + haxe_ref_text(m, fn_sig(m, r)->0.ret)
    } else {
        Seq::empty()
    }));
}

#[verifier::rlimit(50)]
fn write_signature(out: &mut String, m: &Bytecode, meth: &Method, o: FormatOptions)
    ensures
        final(out)@ == old(out)@ + signature_text(m, *meth, o),
{
    let ghost begin = out@;
    write_spaces(out, o.indent);
    if meth.static_ {
        out.append("static ");
    }
    if meth.dynamic {
        out.append("dynamic ");
    }
    out.append("function ");
    write_fun_name(out, m, meth.fun);
    out.append("(");
    write_params(out, m, meth.fun, if meth.static_ { 0 } else { 1 });
    out.append(")");
    write_ret(out, m, meth.fun);
    out.append(" {");
    assert(out@ =~= begin + signature_text(m, *meth, o));
}

fn write_method(out: &mut String, m: &Bytecode, meth: &Method, o: FormatOptions)
    ensures
        final(out)@ == old(out)@ + method_text(m, *meth, o),
{
    let ghost begin = out@;
    write_signature(out, m, meth, o);
    if meth.statements.len() == 0 {
        out.append("}");
    } else {
        out.append("\n");
        write_block(out, m, &meth.statements, o.inc_nesting());
        write_spaces(out, o.indent);
        out.append("}");
    }
    out.append("\n");
    assert(out@ =~= begin + method_text(m, *meth, o));
}

fn write_class(out: &mut String, m: &Bytecode, c: &Class, o: FormatOptions)
    ensures
        final(out)@ == old(out)@ + class_text(m, *c, o),
{
    let ghost begin = out@;
    let o2 = o.inc_nesting();
    write_spaces(out, o.indent);
    out.append("class ");
    out.append(c.name.as_str());
    match &c.parent {
        Some(p) => {
            out.append(" extends ");
            out.append(p.as_str());
        },
        None => {},
    }
    out.append(" {\n");
    let ghost head = out@;
    let mut i: usize = 0;
    while i < c.fields.len()
        invariant
            i <= c.fields@.len(),
            o2 == o.nested(),
            out@ == head + fields_text(m, c.fields@, i as nat, o2),
        decreases c.fields@.len() - i,
    {
        let f = &c.fields[i];
        write_spaces(out, o2.indent);
        if f.static_ {
            out.append("static ");
        }
        out.append("var ");
        out.append(f.name.as_str());
        out.append(": ");
        write_haxe_ref(out, m, f.ty);
        out.append(";\n");
        assert(out@ =~= head + fields_text(m, c.fields@, (i + 1) as nat, o2));
        i = i + 1;
    }
    let ghost mid = out@;
    let mut j: usize = 0;
    while j < c.methods.len()
        invariant
            j <= c.methods@.len(),
            o2 == o.nested(),
            out@ == mid + methods_text(m, c.methods@, j as nat, o2),
        decreases c.methods@.len() - j,
    {
        out.append("\n");
        write_method(out, m, &c.methods[j], o2);
        assert(out@ =~= mid + methods_text(m, c.methods@, (j + 1) as nat, o2));
        j = j + 1;
    }
    write_spaces(out, o.indent);
    out.append("}");
    assert(out@ =~= begin + class_text(m, *c, o));
}

impl Class {
    /// Renders the class at the indentation of `opts`.
    pub fn display(&self, ctx: &Bytecode, opts: &FormatOptions) -> (r: String)
        ensures
            r@ == class_text(ctx, *self, *opts),
    {
        let mut out = String::new();
        write_class(&mut out, ctx, self, *opts);
        out
    }
}

impl Method {
    /// Renders the method at the indentation of `opts`.
    pub fn display(&self, ctx: &Bytecode, opts: &FormatOptions) -> (r: String)
        ensures
            r@ == method_text(ctx, *self, *opts),
    {
        let mut out = String::new();
        write_method(&mut out, ctx, self, *opts);
        out
    }
}

impl Operation {
    /// Renders the operation; nested blocks are indented relative to `indent`.
    pub fn display(&self, indent: &FormatOptions, code: &Bytecode, f: &Function) -> (r: String)
        ensures
            r@ == op_text(code, *self, *indent),
    {
        let mut out = String::new();
        write_op(&mut out, code, self, *indent);
        out
    }
}

impl Expr {
    /// Renders the expression; nested blocks are indented relative to `indent`.
    pub fn display(&self, indent: &FormatOptions, code: &Bytecode, f: &Function) -> (r: String)
        ensures
            r@ == expr_text(code, *self, *indent),
    {
        let mut out = String::new();
        write_expr(&mut out, code, self, *indent);
        out
    }
}

impl Statement {
    /// Renders the statement as it stands at the indentation of `indent`; the first line
    /// carries no indentation of its own.
    pub fn display(&self, indent: &FormatOptions, code: &Bytecode, f: &Function) -> (r: String)
        ensures
            r@ == stmt_text(code, *self, *indent),
    {
        let mut out = String::new();
        write_stmt(&mut out, code, self, *indent);
        out
    }
}

} // verus!
