//! Gathering a class type's fields and lifted methods into a class.

use vstd::prelude::*;
use crate::ast::{Class, ClassField, Method, Statement};
use crate::fmt::{string_text, type_at};
use crate::lift::{lift_function, stmts_wf, LiftError};
use crate::lift_model::{is_straight, lifted, regs_all_in};
use crate::types::{Bytecode, ObjField, RefFun, RefString, RefType, Type, TypeObj};

verus! {

/// The name of the parent of a class type, when the parent is itself a class type.
pub open spec fn parent_name(m: &Bytecode, o: TypeObj) -> Option<Seq<char>> {
    match o.super_ {
        Some(p) => match type_at(m, p) {
            Some(Type::Obj(po)) => Some(string_text(m, po.name)),
            _ => None,
        },
        None => None,
    }
}

/// The class type that holds the static members of `o`, when it is a class type.
pub open spec fn statics_of(m: &Bytecode, o: TypeObj) -> Option<TypeObj> {
    match o.statics {
        Some(t) => match type_at(m, t) {
            Some(Type::Obj(so)) => Some(so),
            _ => None,
        },
        None => None,
    }
}

pub open spec fn static_fields(m: &Bytecode, o: TypeObj) -> Seq<ObjField> {
    match statics_of(m, o) {
        Some(so) => so.fields@,
        None => Seq::empty(),
    }
}

/// The functions of the static methods of `o`.
pub open spec fn static_methods(m: &Bytecode, o: TypeObj) -> Seq<RefFun> {
    match statics_of(m, o) {
        Some(so) => so.protos@.map_values(|p: crate::types::ObjProto| p.findex),
        None => Seq::empty(),
    }
}

/// The statements of a method whose function could not be lifted.
pub open spec fn failed_body(ss: Seq<Statement>) -> bool {
    ss.len() == 1 && ss[0] is Comment
}

/// A field of the class built from the type field `of`.
pub open spec fn field_from(m: &Bytecode, cf: ClassField, of: ObjField, static_: bool) -> bool {
    cf.name@ == string_text(m, of.name) && cf.ty == of.t && cf.static_ == static_
}

/// A method of the class built from function `fun` with the given tags: lifted when it can
/// be, exactly so when the function is a straight line, and otherwise one failure comment.
pub open spec fn method_from(m: &Bytecode, meth: Method, fun: RefFun, static_: bool, dynamic: bool) -> bool {
    &&& meth.fun == fun
    &&& meth.static_ == static_
    &&& meth.dynamic == dynamic
    &&& (fun.0 < m.functions@.len() ==> (stmts_wf(
        meth.statements@,
        m.functions@[fun.0 as int].regs@.len() as nat,
    ) || failed_body(meth.statements@)))
    &&& (fun.0 < m.functions@.len() && is_straight(m.functions@[fun.0 as int]) && regs_all_in(
        m.functions@[fun.0 as int],
    ) ==> meth.statements@ == lifted(m, m.functions@[fun.0 as int]))
}

/// The string at `r` of the pool, or the text of an invalid reference.
fn pool_string(m: &Bytecode, r: RefString) -> (s: String)
    ensures
        s@ == string_text(m, r),
{
    if r.0 < m.strings.len() {
        m.strings[r.0].clone()
    } else {
        String::from_str("[invalid reference]")
    }
}

fn lift_method(m: &Bytecode, fun: RefFun, static_: bool, dynamic: bool) -> (meth: Method)
    ensures
        method_from(m, meth, fun, static_, dynamic),
{
    let lifted = if fun.0 < m.functions.len() {
        lift_function(m, &m.functions[fun.0])
    } else {
        Err(LiftError::BadFunction(fun))
    };
    let statements = match lifted {
        Ok(s) => s,
        Err(_) => {
            let mut s: Vec<Statement> = Vec::new();
            s.push(Statement::Comment(String::from_str("this method could not be decompiled")));
            s
        },
    };
    Method { fun, static_, dynamic, statements }
}

fn push_fields(m: &Bytecode, fields: &mut Vec<ClassField>, from: &Vec<ObjField>, static_: bool)
    ensures
        final(fields)@.len() == old(fields)@.len() + from@.len(),
        forall|k: int| 0 <= k < old(fields)@.len() ==> final(fields)@[k] == old(fields)@[k],
        forall|k: int| 0 <= k < from@.len() ==> field_from(m, #[trigger] final(fields)@[old(fields)@.len() + k], from@[k], static_),
{
    let ghost start = fields@;
    let mut i: usize = 0;
    while i < from.len()
        invariant
            i <= from@.len(),
            fields@.len() == start.len() + i,
            forall|k: int| 0 <= k < start.len() ==> fields@[k] == start[k],
            forall|k: int| 0 <= k < i ==> field_from(m, #[trigger] fields@[start.len() + k], from@[k], static_),
        decreases from@.len() - i,
    {
        let f = &from[i];
        fields.push(ClassField { name: pool_string(m, f.name), static_, ty: f.t });
        i = i + 1;
    }
}

/// Builds the class of the class type `ty`: its name and its parent's name; its own fields,
/// then the static fields, in declaration order; its methods, then its rebindable methods
/// (tagged dynamic), then its static methods (tagged static), each lifted from the function
/// that implements it. A method whose function cannot be lifted keeps a body of one comment
/// that says so; a method whose function is a straight line has exactly the lifted
/// statements.
pub fn decompile_class(m: &Bytecode, ty: RefType) -> (res: Result<Class, LiftError>)
    ensures
        res is Err <==> !(type_at(m, ty) matches Some(Type::Obj(_))),
        res is Err ==> res == Err::<Class, LiftError>(LiftError::NotAClass(ty)),
        res matches Ok(c) ==> type_at(m, ty) matches Some(Type::Obj(o)) && {
            let nf = o.fields@.len();
            let np = o.protos@.len();
            let nb = o.bindings@.len();
            &&& c.name@ == string_text(m, o.name)
            &&& match parent_name(m, o) {
                Some(p) => c.parent matches Some(q) && q@ == p,
                None => c.parent is None,
            }
            &&& c.fields@.len() == nf + static_fields(m, o).len()
            &&& forall|i: int| 0 <= i < nf ==> field_from(m, #[trigger] c.fields@[i], o.fields@[i], false)
            &&& forall|i: int|
                0 <= i < static_fields(m, o).len() ==> field_from(
                    m,
                    #[trigger] c.fields@[nf + i],
                    static_fields(m, o)[i],
                    true,
                )
            &&& c.methods@.len() == np + nb + static_methods(m, o).len()
            &&& forall|i: int|
                0 <= i < np ==> method_from(m, #[trigger] c.methods@[i], o.protos@[i].findex, false, false)
            &&& forall|i: int|
                0 <= i < nb ==> method_from(m, #[trigger] c.methods@[np + i], o.bindings@[i].findex, false, true)
            &&& forall|i: int|
                0 <= i < static_methods(m, o).len() ==> method_from(
                    m,
                    #[trigger] c.methods@[np + nb + i],
                    static_methods(m, o)[i],
                    true,
                    false,
                )
        },
{
    if ty.0 >= m.types.len() {
        return Err(LiftError::NotAClass(ty));
    }
    let o = match &m.types[ty.0] {
        Type::Obj(o) => o,
        _ => {
            return Err(LiftError::NotAClass(ty));
        },
    };
    let name = pool_string(m, o.name);
    let parent = match o.super_ {
        Some(p) => if p.0 < m.types.len() {
            match &m.types[p.0] {
                Type::Obj(po) => Some(pool_string(m, po.name)),
                _ => None,
            }
        } else {
            None
        },
        None => None,
    };
    let statics: Option<&TypeObj> = match o.statics {
        Some(t) => if t.0 < m.types.len() {
            match &m.types[t.0] {
                Type::Obj(so) => Some(so),
                _ => None,
            }
        } else {
            None
        },
        None => None,
    };
    assert(match statics {
        Some(so) => statics_of(m, *o) == Some(*so),
        None => statics_of(m, *o) is None,
    });
    let mut fields: Vec<ClassField> = Vec::new();
    push_fields(m, &mut fields, &o.fields, false);
    let ghost nf = o.fields@.len();
    assert forall|i: int| 0 <= i < nf implies field_from(m, #[trigger] fields@[i], o.fields@[i], false) by {
        assert(fields@[0 + i] == fields@[i]);
    }
    match statics {
        Some(so) => push_fields(m, &mut fields, &so.fields, true),
        None => {},
    }
    assert(forall|i: int| 0 <= i < nf ==> field_from(m, #[trigger] fields@[i], o.fields@[i], false));
    assert(fields@.len() == nf + static_fields(m, *o).len());
    let mut methods: Vec<Method> = Vec::new();
    let np = o.protos.len();
    let nb = o.bindings.len();
    let mut j: usize = 0;
    while j < np
        invariant
            j <= np,
            np == o.protos@.len(),
            methods@.len() == j,
            forall|k: int| 0 <= k < j ==> method_from(m, #[trigger] methods@[k], o.protos@[k].findex, false, false),
        decreases np - j,
    {
        methods.push(lift_method(m, o.protos[j].findex, false, false));
        j = j + 1;
    }
    let mut j: usize = 0;
    while j < nb
        invariant
            j <= nb,
            np == o.protos@.len(),
            nb == o.bindings@.len(),
            methods@.len() == np + j,
            forall|k: int| 0 <= k < np ==> method_from(m, #[trigger] methods@[k], o.protos@[k].findex, false, false),
            forall|k: int| 0 <= k < j ==> method_from(m, #[trigger] methods@[np + k], o.bindings@[k].findex, false, true),
        decreases nb - j,
    {
        methods.push(lift_method(m, o.bindings[j].findex, false, true));
        j = j + 1;
    }
    let ghost sm = static_methods(m, *o);
    match statics {
        Some(so) => {
            let ns = so.protos.len();
            let mut j: usize = 0;
            while j < ns
                invariant
                    j <= ns,
                    ns == so.protos@.len(),
                    sm == so.protos@.map_values(|p: crate::types::ObjProto| p.findex),
                    methods@.len() == np + nb + j,
                    forall|k: int| 0 <= k < np ==> method_from(m, #[trigger] methods@[k], o.protos@[k].findex, false, false),
                    forall|k: int|
                        0 <= k < nb ==> method_from(m, #[trigger] methods@[np + k], o.bindings@[k].findex, false, true),
                    forall|k: int| 0 <= k < j ==> method_from(m, #[trigger] methods@[np + nb + k], sm[k], true, false),
                decreases ns - j,
            {
                methods.push(lift_method(m, so.protos[j].findex, true, false));
                j = j + 1;
            }
        },
        None => {},
    }
    assert(methods@.len() == np + nb + sm.len());
    assert(forall|i: int| 0 <= i < sm.len() ==> method_from(m, #[trigger] methods@[np + nb + i], sm[i], true, false));
    Ok(Class { name, parent, fields, methods })
}

} // verus!
