//! Casts between types at run time, after "Refined Criteria for Gradual
//! Typing" by Siek et al.: a value moves into `?` through its ground type and
//! out of `?` only to the type it went in with.
use vstd::prelude::*;

use crate::ast::{
    copy_type, ground_of, is_ground_type, t_arrow, t_product, t_sum, types_equal, value_type, AlfaType,
    AlfaValue, KnownType,
};
use crate::text::{push_type, type_text};
use crate::typechecking::result_is;

verus! {

/// What a cast gives back: the result, or a message.
pub type CastResult<T> = Result<T, String>;

/// The argument and result types that a function of the given type is used
/// at: those of a function type, `?` and `?` for `?`.
pub open spec fn fun_cast_of(t: AlfaType) -> Result<(AlfaType, AlfaType), Seq<char>> {
    match t {
        AlfaType::Dyn => Ok((AlfaType::Dyn, AlfaType::Dyn)),
        AlfaType::Arrow(a, r) => Ok((*a, *r)),
        _ => Err("Cannot cast "@ + type_text(t) + " to Arrow type"@),
    }
}

/// The two sides that a sum of the given type is used at.
pub open spec fn sum_cast_of(t: AlfaType) -> Result<(AlfaType, AlfaType), Seq<char>> {
    match t {
        AlfaType::Dyn => Ok((AlfaType::Dyn, AlfaType::Dyn)),
        AlfaType::Sum(l, r) => Ok((*l, *r)),
        _ => Err("Cannot cast "@ + type_text(t) + " to Sum type"@),
    }
}

/// The two components that a pair of the given type is used at.
pub open spec fn prod_cast_of(t: AlfaType) -> Result<(AlfaType, AlfaType), Seq<char>> {
    match t {
        AlfaType::Dyn => Ok((AlfaType::Dyn, AlfaType::Dyn)),
        AlfaType::Product(f, s) => Ok((*f, *s)),
        _ => Err("Cannot cast "@ + type_text(t) + " to Product type"@),
    }
}

/// The message that a value of type `t` cannot be cast to `what`.
fn cannot_cast(t: &AlfaType, what: &str) -> (m: String)
    ensures
        m@ == "Cannot cast "@ + type_text(*t) + what@,
{
    let mut m = "Cannot cast ".to_string();
    push_type(&mut m, t);
    m.append(what);
    m
}

/// The argument and result types of a function of type `typ`.
pub fn fun_cast(typ: &AlfaType) -> (r: CastResult<(AlfaType, AlfaType)>)
    ensures
        result_is(r, fun_cast_of(*typ)),
{
    match typ {
        AlfaType::Dyn => Ok((AlfaType::Dyn, AlfaType::Dyn)),
        AlfaType::Arrow(arg, ret) => Ok((copy_type(arg), copy_type(ret))),
        _ => Err(cannot_cast(typ, " to Arrow type")),
    }
}

/// The two sides of a sum of type `typ`.
pub fn sum_cast(typ: &AlfaType) -> (r: CastResult<(AlfaType, AlfaType)>)
    ensures
        result_is(r, sum_cast_of(*typ)),
{
    match typ {
        AlfaType::Dyn => Ok((AlfaType::Dyn, AlfaType::Dyn)),
        AlfaType::Sum(l, r) => Ok((copy_type(l), copy_type(r))),
        _ => Err(cannot_cast(typ, " to Sum type")),
    }
}

/// The two components of a pair of type `typ`.
pub fn prod_cast(typ: &AlfaType) -> (r: CastResult<(AlfaType, AlfaType)>)
    ensures
        result_is(r, prod_cast_of(*typ)),
{
    match typ {
        AlfaType::Dyn => Ok((AlfaType::Dyn, AlfaType::Dyn)),
        AlfaType::Product(fst, snd) => Ok((copy_type(fst), copy_type(snd))),
        _ => Err(cannot_cast(typ, " to Product type")),
    }
}

/// A cast of a value of type `from` to type `to` has a rule: the types are
/// equal, or one of them is `?`.
pub open spec fn cast_defined(from: AlfaType, to: AlfaType) -> bool {
    from == to || to == AlfaType::Dyn || from == AlfaType::Dyn
}

/// Whether a value is a value of some type injected into `?`.
pub open spec fn is_dyn_injection(v: AlfaValue) -> bool {
    v matches AlfaValue::Cast(_, t) && t == AlfaType::Dyn
}

/// The value inside a cast; the value itself for any other value.
pub open spec fn cast_body(v: AlfaValue) -> AlfaValue {
    match v {
        AlfaValue::Cast(inner, _) => *inner,
        _ => v,
    }
}

/// The cast rules, tried in order: a value already of type `typ` stays as it
/// is; a value of ground type goes into `?` by one cast; a value injected into
/// `?` comes out only at the type it went in with, else the cast fails;
/// a value of any other type goes into `?` through its ground type; and a
/// value of type `?` goes to `typ` through the ground type of `typ`.
pub open spec fn cast_of(val: AlfaValue, typ: AlfaType) -> Result<AlfaValue, Seq<char>> {
    let from = value_type(val);
    if from == typ {
        Ok(val)
    } else if is_ground_type(from) && typ == AlfaType::Dyn {
        Ok(AlfaValue::Cast(Box::new(val), AlfaType::Dyn))
    } else if is_dyn_injection(val) {
        if value_type(cast_body(val)) == typ {
            Ok(cast_body(val))
        } else {
            Err("Cannot cast "@ + type_text(value_type(cast_body(val))) + " to "@ + type_text(typ))
        }
    } else if typ == AlfaType::Dyn {
        Ok(
            AlfaValue::Cast(
                Box::new(AlfaValue::Cast(Box::new(val), ground_of(from))),
                AlfaType::Dyn,
            ),
        )
    } else {
        Ok(AlfaValue::Cast(Box::new(AlfaValue::Cast(Box::new(val), ground_of(typ))), typ))
    }
}

/// Casts `val` to type `typ`.
pub fn cast(val: AlfaValue, typ: AlfaType) -> (r: CastResult<AlfaValue>)
    requires
        cast_defined(value_type(val), typ),
    ensures
        result_is(r, cast_of(val, typ)),
{
    if types_equal(val.get_type(), &typ) {
        return Ok(val);
    }
    let to_dyn = types_equal(&typ, &AlfaType::Dyn);
    if val.get_type().is_ground() && to_dyn {
        return Ok(AlfaValue::Cast(Box::new(val), AlfaType::Dyn));
    }
    let val = match val {
        AlfaValue::Cast(inner, t) => {
            if types_equal(&t, &AlfaType::Dyn) {
                if types_equal(inner.get_type(), &typ) {
                    return Ok(*inner);
                } else {
                    let mut m = cannot_cast(inner.get_type(), " to ");
                    push_type(&mut m, &typ);
                    assert(m@ =~= "Cannot cast "@ + type_text(value_type(*inner)) + " to "@ + type_text(typ));
                    return Err(m);
                }
            }
            AlfaValue::Cast(inner, t)
        },
        other => other,
    };
    if to_dyn {
        let ground_type = val.get_type().get_ground();
        let grounded = AlfaValue::Cast(Box::new(val), ground_type);
        return Ok(AlfaValue::Cast(Box::new(grounded), AlfaType::Dyn));
    }
    let ground_type = typ.get_ground();
    let grounded = AlfaValue::Cast(Box::new(val), ground_type);
    Ok(AlfaValue::Cast(Box::new(grounded), typ))
}

/// A successful cast gives a value of the type cast to.
pub proof fn lemma_cast_has_target_type(val: AlfaValue, typ: AlfaType)
    ensures
        cast_of(val, typ) matches Ok(r) ==> value_type(r) == typ,
{
}

/// Casting a value to its own type gives it back unchanged.
pub proof fn lemma_cast_to_own_type(val: AlfaValue)
    ensures
        cast_of(val, value_type(val)) == Ok::<AlfaValue, Seq<char>>(val),
{
}

/// A value of ground type goes into `?` by one cast and comes back out of it
/// at its own type unchanged.
pub proof fn lemma_cast_ground_round_trip(val: AlfaValue)
    requires
        is_ground_type(value_type(val)),
    ensures
        cast_of(val, AlfaType::Dyn) == Ok::<AlfaValue, Seq<char>>(AlfaValue::Cast(Box::new(val), AlfaType::Dyn)),
        cast_of(AlfaValue::Cast(Box::new(val), AlfaType::Dyn), value_type(val)) == Ok::<AlfaValue, Seq<char>>(val),
{
}

/// A cast fails only when it takes a value out of `?` at a type other than the
/// one it went in with.
pub proof fn lemma_cast_fails_only_out_of_dyn(val: AlfaValue, typ: AlfaType)
    ensures
        cast_of(val, typ) is Err ==> is_dyn_injection(val) && value_type(cast_body(val)) != typ,
{
}

} // verus!
