use vstd::prelude::*;

use crate::ast::Type;
use crate::error::{agrees, message3, CompileError};
use crate::text::{decimal, push_decimal, push_str};

verus! {

/// Whether values of a type can be written and read as text: integers,
/// booleans and strings.
pub open spec fn is_printable(ty: Type) -> bool {
    ty is Integer || ty is Boolean || ty is String
}

/// Requires an integer type; `ctx` names the place that requires it.
pub open spec fn spec_expect_int(ty: Type, ctx: Seq<char>) -> Result<(), Seq<char>> {
    if ty is Integer {
        Ok(())
    } else {
        Err("type error in "@ + ctx + ": expected integer"@)
    }
}

/// Requires a boolean type; `ctx` names the place that requires it.
pub open spec fn spec_expect_bool(ty: Type, ctx: Seq<char>) -> Result<(), Seq<char>> {
    if ty is Boolean {
        Ok(())
    } else {
        Err("type error in "@ + ctx + ": expected boolean"@)
    }
}

/// Requires a printable type; `ctx` names the place that requires it.
pub open spec fn spec_expect_printable(ty: Type, ctx: Seq<char>) -> Result<(), Seq<char>> {
    if is_printable(ty) {
        Ok(())
    } else {
        Err("type error in "@ + ctx + ": expected integer, boolean, or string"@)
    }
}

/// Checks that a type is `integer`.
pub fn expect_int(ty: &Type, ctx: &str) -> (r: Result<(), CompileError>)
    ensures
        agrees(r, spec_expect_int(*ty, ctx@)),
{
    match ty {
        Type::Integer => Ok(()),
        _ => Err(CompileError::new_simple(message3("type error in ", ctx, ": expected integer"))),
    }
}

/// Checks that a type is `boolean`.
pub fn expect_bool(ty: &Type, ctx: &str) -> (r: Result<(), CompileError>)
    ensures
        agrees(r, spec_expect_bool(*ty, ctx@)),
{
    match ty {
        Type::Boolean => Ok(()),
        _ => Err(CompileError::new_simple(message3("type error in ", ctx, ": expected boolean"))),
    }
}

/// Checks that a type is `integer`, `boolean` or `string`.
pub fn expect_printable(ty: &Type, ctx: &str) -> (r: Result<(), CompileError>)
    ensures
        agrees(r, spec_expect_printable(*ty, ctx@)),
{
    match ty {
        Type::Integer | Type::Boolean | Type::String => Ok(()),
        _ => Err(
            CompileError::new_simple(
                message3("type error in ", ctx, ": expected integer, boolean, or string"),
            ),
        ),
    }
}

/// The debugging text of a type, as its derived `Debug` form prints it.
pub open spec fn type_text(ty: Type) -> Seq<char>
    decreases ty,
{
    match ty {
        Type::Integer => "Integer"@,
        Type::Boolean => "Boolean"@,
        Type::String => "String"@,
        Type::Array { elem, len } => "Array { elem: "@ + type_text(*elem) + ", len: "@ + decimal(
            len as nat,
        ) + " }"@,
        Type::Option(t) => "Option("@ + type_text(*t) + ")"@,
        Type::Result(t) => "Result("@ + type_text(*t) + ")"@,
        Type::Vector(t) => "Vector("@ + type_text(*t) + ")"@,
        Type::StackInt => "StackInt"@,
        Type::MapStrStr => "MapStrStr"@,
        Type::SetStr => "SetStr"@,
    }
}

/// Appends the debugging text of a type.
pub fn push_type_text(out: &mut String, ty: &Type)
    ensures
        final(out)@ == old(out)@ + type_text(*ty),
    decreases ty,
{
    match ty {
        Type::Integer => push_str(out, "Integer"),
        Type::Boolean => push_str(out, "Boolean"),
        Type::String => push_str(out, "String"),
        Type::Array { elem, len } => {
            push_str(out, "Array { elem: ");
            push_type_text(out, elem);
            push_str(out, ", len: ");
            push_decimal(out, *len as u64);
            push_str(out, " }");
        },
        Type::Option(t) => {
            push_str(out, "Option(");
            push_type_text(out, t);
            push_str(out, ")");
        },
        Type::Result(t) => {
            push_str(out, "Result(");
            push_type_text(out, t);
            push_str(out, ")");
        },
        Type::Vector(t) => {
            push_str(out, "Vector(");
            push_type_text(out, t);
            push_str(out, ")");
        },
        Type::StackInt => push_str(out, "StackInt"),
        Type::MapStrStr => push_str(out, "MapStrStr"),
        Type::SetStr => push_str(out, "SetStr"),
    }
    assert(out@ =~= old(out)@ + type_text(*ty));
}

} // verus!
