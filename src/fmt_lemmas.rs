//! Facts about rendered text, proved from the printer's specification.

use vstd::prelude::*;
use crate::ast::{Class, Expr, Method, Statement};
use crate::fmt::{
    block_text, cases_text, class_text, expr_text, fields_text, method_text, methods_text,
    signature_text, stmt_text, type_at, FormatOptions,
};
use crate::text::spaces;
use crate::types::{Bytecode, Type};

verus! {

/// Rendering is a function of the module, the tree and the options: structurally equal
/// statements render to identical text, so rendering one statement twice gives the same text.
pub proof fn lemma_statement_render_deterministic(m: &Bytecode, a: Statement, b: Statement, o: FormatOptions)
    requires
        a == b,
    ensures
        stmt_text(m, a, o) == stmt_text(m, b, o),
{
}

/// Structurally equal classes render to identical text, so rendering one class twice gives
/// the same text.
pub proof fn lemma_class_render_deterministic(m: &Bytecode, a: Class, b: Class, o: FormatOptions)
    requires
        a == b,
    ensures
        class_text(m, a, o) == class_text(m, b, o),
{
}

/// The lines of the first `n` methods when each has an empty body: an empty line, then the
/// signature closed by `}` on the same line.
pub open spec fn empty_methods_text(m: &Bytecode, methods: Seq<Method>, n: nat, o: FormatOptions) -> Seq<char>
    decreases n,
{
    if n == 0 || n > methods.len() {
        Seq::empty()
    } else {
        empty_methods_text(m, methods, (n - 1) as nat, o) + "\n"@ + signature_text(m, methods[n - 1], o)
            + "}"@ + "\n"@
    }
}

/// A method with no statements renders its body as `{}` on the signature's line, followed
/// by a newline.
pub proof fn lemma_empty_method(m: &Bytecode, meth: Method, o: FormatOptions)
    requires
        meth.statements@.len() == 0,
    ensures
        method_text(m, meth, o) == signature_text(m, meth, o) + "}"@ + "\n"@,
{
}

proof fn lemma_empty_methods(m: &Bytecode, methods: Seq<Method>, n: nat, o: FormatOptions)
    requires
        forall|i: int| 0 <= i < methods.len() ==> (#[trigger] methods[i]).statements@.len() == 0,
    ensures
        methods_text(m, methods, n, o) == empty_methods_text(m, methods, n, o),
    decreases n,
{
    if n > 0 && n <= methods.len() {
        lemma_empty_methods(m, methods, (n - 1) as nat, o);
        lemma_empty_method(m, methods[n - 1], o);
        assert(methods_text(m, methods, n, o) =~= empty_methods_text(m, methods, n, o));
    }
}

/// A class whose methods all have empty bodies renders as its header, its fields, one
/// signature line `... {}` per method and the closing brace: no method has a body block.
pub proof fn lemma_class_with_empty_methods(m: &Bytecode, c: Class, o: FormatOptions)
    requires
        forall|i: int| 0 <= i < c.methods@.len() ==> (#[trigger] c.methods@[i]).statements@.len() == 0,
    ensures
        class_text(m, c, o) == spaces(o.indent as nat) + "class "@ + c.name@ + (match c.parent {
            Some(p) => " extends "@ + p@,
            None => Seq::empty(),
        }) + " {\n"@ + fields_text(m, c.fields@, c.fields@.len(), o.nested()) + empty_methods_text(
            m,
            c.methods@,
            c.methods@.len(),
            o.nested(),
        ) + spaces(o.indent as nat) + "}"@,
{
    lemma_empty_methods(m, c.methods@, c.methods@.len(), o.nested());
}

/// A switch with no cases and no default renders as `switch (ARG) {`, a newline, and the
/// closing brace at the statement's indentation.
pub proof fn lemma_empty_switch(m: &Bytecode, s: Statement, o: FormatOptions)
    requires
        s is Switch,
        s->default@.len() == 0,
        s->cases@.len() == 0,
    ensures
        stmt_text(m, s, o) == "switch ("@ + expr_text(m, s->arg, o) + ") {\n"@ + spaces(o.indent as nat)
            + "}"@,
{
    assert(cases_text(m, s->cases@, o) =~= Seq::<char>::empty());
    assert(stmt_text(m, s, o) =~= "switch ("@ + expr_text(m, s->arg, o) + ") {\n"@ + spaces(
        o.indent as nat,
    ) + "}"@);
}

/// An if statement with an empty else branch renders without an `else` clause.
pub proof fn lemma_if_without_else(m: &Bytecode, s: Statement, o: FormatOptions)
    requires
        s is IfElse,
        s->IfElse_else_@.len() == 0,
    ensures
        stmt_text(m, s, o) == "if ("@ + expr_text(m, s->IfElse_cond, o) + ") {\n"@ + block_text(
            m,
            s->IfElse_if_@,
            o.nested(),
        ) + spaces(o.indent as nat) + "}"@,
{
    assert(stmt_text(m, s, o) =~= "if ("@ + expr_text(m, s->IfElse_cond, o) + ") {\n"@ + block_text(
        m,
        s->IfElse_if_@,
        o.nested(),
    ) + spaces(o.indent as nat) + "}"@);
}

/// A return without a value renders as exactly `return;`.
pub proof fn lemma_bare_return(m: &Bytecode, s: Statement, o: FormatOptions)
    requires
        s is Return,
        s->Return_0 is None,
    ensures
        stmt_text(m, s, o) == "return;"@,
{
    reveal_strlit("return");
    reveal_strlit(";");
    reveal_strlit("return;");
    assert(stmt_text(m, s, o) =~= "return;"@);
}

/// An anonymous value whose type is not a structural type renders as
/// `[invalid anonymous type]`.
pub proof fn lemma_invalid_anonymous(m: &Bytecode, e: Expr, o: FormatOptions)
    requires
        e is Anonymous,
        !(type_at(m, e->Anonymous_0) matches Some(Type::Virtual { .. })),
    ensures
        expr_text(m, e, o) == "[invalid anonymous type]"@,
{
}

} // verus!
