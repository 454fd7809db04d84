//! The field classifier and wrapper: decides each field's slot strategy from
//! the shape of its declared type and rewrites the type for the shadow
//! struct, and builds the per-field resolution expressions.

use crate::attribute::{attrs_have_path, find_path_of_attribute};
use crate::syntax::{
    decimal_text, render_type, str_eq, type_text, FieldDef, Member, RecordFields, TypeExpr,
};
use vstd::prelude::*;

verus! {

use vstd::string::StringExecFns;

/// The per-field slot strategy.
pub enum Strategy {
    /// The field becomes an optional of its original type; absence is an
    /// error at resolution.
    Required,
    /// The field was already an optional; it becomes a single-level
    /// flattening slot, never an optional of an optional.
    FlattenOptional,
    /// A field of exactly boolean type stays unwrapped: `false` is already a
    /// valid empty default.
    Boolean,
}

/// Whether a declared type is textually exactly `bool`.
pub open spec fn is_bool_type(t: TypeExpr) -> bool {
    type_text(t) == "bool"@
}

/// Whether a declared type's outer shape is "optional of U": a path type
/// whose last segment is `Option`.
pub open spec fn is_optional_type(t: TypeExpr) -> bool {
    t matches TypeExpr::Path(segs) && segs@.len() > 0 && segs@.last().ident@ == "Option"@
}

/// The slot strategy chosen for a field of the given declared type.
pub open spec fn strategy_of(t: TypeExpr) -> Strategy {
    if is_bool_type(t) {
        Strategy::Boolean
    } else if is_optional_type(t) {
        Strategy::FlattenOptional
    } else {
        Strategy::Required
    }
}

/// The angle-bracket arguments of an optional type's last segment, verbatim.
pub open spec fn optional_args_text(t: TypeExpr) -> Seq<char> {
    match t {
        TypeExpr::Path(segs) => if segs@.len() > 0 {
            match segs@.last().arguments {
                Some(a) => a@,
                None => Seq::empty(),
            }
        } else {
            Seq::empty()
        },
        TypeExpr::Verbatim(_) => Seq::empty(),
    }
}

/// The slot type's source text for a field of the given declared type,
/// before any fail-soft wrapping: a boolean stays itself, an optional is
/// flattened, anything else is wrapped in a plain optional.
pub open spec fn option_wrapped_text(t: TypeExpr) -> Seq<char> {
    if is_bool_type(t) {
        type_text(t)
    } else if is_optional_type(t) {
        "empty_type::Optional"@ + optional_args_text(t)
    } else {
        "std::option::Option<"@ + type_text(t) + ">"@
    }
}

/// The fail-soft slot type's source text around an already-wrapped slot.
pub open spec fn fallible_wrapped_text(t: Seq<char>) -> Seq<char> {
    "empty_type::Fallible<"@ + t + ">"@
}

/// Structurally equivalent types classify and wrap identically.
pub proof fn lemma_wrap_respects_equiv(a: TypeExpr, b: TypeExpr)
    requires
        crate::syntax::type_equiv(a, b),
    ensures
        is_bool_type(a) == is_bool_type(b),
        is_optional_type(a) == is_optional_type(b),
        optional_args_text(a) == optional_args_text(b),
        option_wrapped_text(a) == option_wrapped_text(b),
        (is_optional_type(a) && a->Path_0@.last().arguments is Some) == (is_optional_type(b)
            && b->Path_0@.last().arguments is Some),
{
    crate::syntax::lemma_type_equiv_same_text(a, b);
    match (a, b) {
        (TypeExpr::Path(x), TypeExpr::Path(y)) => {
            if x@.len() > 0 {
                assert(crate::syntax::segment_equiv(x@[x@.len() - 1], y@[y@.len() - 1]));
            }
        },
        _ => {},
    }
}

/// Whether a field's declared type renders to exactly the given source text.
pub fn field_type_is_literally(field: &FieldDef, literally: &str) -> (r: bool)
    ensures
        r == (type_text(field.ty) == literally@),
{
    let rendered = render_type(&field.ty);
    str_eq(rendered.as_str(), literally)
}

/// Wraps a field's (already rewritten) type in the fail-soft slot type.
pub fn wrap_option_in_fallable(field: &mut FieldDef)
    ensures
        final(field).ident == old(field).ident,
        final(field).attrs == old(field).attrs,
        type_text(final(field).ty) == fallible_wrapped_text(type_text(old(field).ty)),
{
    let inner = render_type(&field.ty);
    let mut s = "empty_type::Fallible<".to_owned();
    s.append(inner.as_str());
    s.append(">");
    field.ty = TypeExpr::Verbatim(s);
}

/// Rewrites a field's declared type into its slot type: a boolean is left
/// alone, an optional becomes the flattening slot with the same argument
/// list, and any other type is wrapped in a plain optional.
///
/// An optional whose last segment carries no angle-bracket arguments is a
/// malformed declaration; callers must rule it out.
pub fn wrap_field_in_option(field: &mut FieldDef)
    requires
        is_optional_type(old(field).ty) ==> (old(field).ty matches TypeExpr::Path(segs)
            && segs@.last().arguments is Some),
    ensures
        final(field).ident == old(field).ident,
        final(field).attrs == old(field).attrs,
        type_text(final(field).ty) == option_wrapped_text(old(field).ty),
{
    // we don't do anything to bools: an optional boolean adds no information
    if field_type_is_literally(field, "bool") {
        return ;
    }
    // a field that is already an optional becomes the flattening slot, which
    // never introduces a second level of optionality
    let flatten_args: Option<String> = match &field.ty {
        TypeExpr::Path(segs) => {
            if segs.len() > 0 && str_eq(segs[segs.len() - 1].ident.as_str(), "Option") {
                match &segs[segs.len() - 1].arguments {
                    Some(a) => Some(a.clone()),
                    None => unreached(),
                }
            } else {
                None
            }
        },
        TypeExpr::Verbatim(_) => None,
    };
    match flatten_args {
        Some(args) => {
            let mut s = "empty_type::Optional".to_owned();
            s.append(args.as_str());
            field.ty = TypeExpr::Verbatim(s);
        },
        None => {
            let inner = render_type(&field.ty);
            let mut s = "std::option::Option<".to_owned();
            s.append(inner.as_str());
            s.append(">");
            field.ty = TypeExpr::Verbatim(s);
        },
    }
}

/// How the resolution expressions of a record's fields are chosen.
pub enum UnwrapStyle {
    /// Honor each field's own annotations: a fail-soft field resolves through
    /// the default-substituting path, every other field through the strict
    /// path that names the field on failure.
    Selective,
    /// Resolve every field through the default-substituting path.
    AlwaysDefault,
}

/// One rendered field of the record-construction expression: the member it
/// fills, whether the member name is printed before the expression, and the
/// resolution expression itself.
pub struct FieldValueDef {
    pub member: Member,
    pub colon: bool,
    pub expr: String,
}

/// Whether a field is marked fail-soft by its own annotations.
pub open spec fn field_fail_soft(f: FieldDef) -> bool {
    attrs_have_path(f.attrs@, "default"@) || attrs_have_path(f.attrs@, "fail_safe"@)
}

/// The source text of the strict resolution expression for a member: open
/// the slot, reporting the member's name on failure.
pub open spec fn strict_expr_text(member: Seq<char>) -> Seq<char> {
    "empty_type::Container::try_open_with_meta(&mut self."@ + member + ", \""@ + member + "\")?"@
}

/// The source text of the default-substituting resolution expression.
pub open spec fn default_expr_text(member: Seq<char>) -> Seq<char> {
    "empty_type::Container::open_or_default(&mut self."@ + member + ")"@
}

/// The member text of the record's field at an index: its name for a named
/// field, its position in decimal for a positional one.
pub open spec fn member_name_text(fields: RecordFields, i: int) -> Seq<char> {
    match fields {
        RecordFields::Named(v) => match v@[i].ident {
            Some(n) => n@,
            None => Seq::empty(),
        },
        RecordFields::Unnamed(_) => decimal_text(i as nat),
        RecordFields::Unit => Seq::empty(),
    }
}

/// The resolution expression chosen for a record's field at an index.
pub open spec fn value_expr_text(fields: RecordFields, i: int, style: UnwrapStyle) -> Seq<char> {
    match style {
        UnwrapStyle::AlwaysDefault => default_expr_text(member_name_text(fields, i)),
        UnwrapStyle::Selective => if field_fail_soft(crate::syntax::fields_list(fields)[i]) {
            default_expr_text(member_name_text(fields, i))
        } else {
            strict_expr_text(member_name_text(fields, i))
        },
    }
}

/// The source text of a member on its own.
pub open spec fn member_text(m: Member) -> Seq<char> {
    match m {
        Member::Named(n) => n@,
        Member::Unnamed(i) => decimal_text(i as nat),
    }
}

fn strict_expr(member: &str) -> (r: String)
    ensures
        r@ == strict_expr_text(member@),
{
    let mut s = "empty_type::Container::try_open_with_meta(&mut self.".to_owned();
    s.append(member);
    s.append(", \"");
    s.append(member);
    s.append("\")?");
    s
}

fn default_expr(member: &str) -> (r: String)
    ensures
        r@ == default_expr_text(member@),
{
    let mut s = "empty_type::Container::open_or_default(&mut self.".to_owned();
    s.append(member);
    s.append(")");
    s
}

/// Builds the record-construction expression's members and per-field
/// resolution expressions, in declaration order.
///
/// Named fields must all carry a name; a nameless entry in a named record is
/// a malformed declaration that callers rule out.
pub fn map_fields_to_values(fields: &RecordFields, style: UnwrapStyle) -> (r: Vec<FieldValueDef>)
    requires
        fields matches RecordFields::Named(v) ==> forall|i: int|
            0 <= i < v@.len() ==> (#[trigger] v@[i].ident) is Some,
    ensures
        r@.len() == crate::syntax::fields_list(*fields).len(),
        forall|i: int|
            0 <= i < r@.len() ==> member_text(#[trigger] r@[i].member) == member_name_text(
                *fields,
                i,
            ),
        forall|i: int|
            0 <= i < r@.len() ==> (((#[trigger] r@[i].member) matches Member::Named(_)) <==> (
            *fields matches RecordFields::Named(_))),
        forall|i: int|
            0 <= i < r@.len() ==> #[trigger] r@[i].colon == (*fields matches RecordFields::Named(
                _,
            )),
        forall|i: int| 0 <= i < r@.len() ==> (#[trigger] r@[i].expr)@ == value_expr_text(
            *fields,
            i,
            style,
        ),
{
    let mut out: Vec<FieldValueDef> = Vec::new();
    match fields {
        RecordFields::Unit => {},
        RecordFields::Named(v) => {
            let mut i: usize = 0;
            while i < v.len()
                invariant
                    i <= v.len(),
                    out@.len() == i,
                    *fields matches RecordFields::Named(vv) && vv@ == v@,
                    forall|j: int| 0 <= j < v@.len() ==> (#[trigger] v@[j].ident) is Some,
                    forall|j: int|
                        0 <= j < i ==> member_text(#[trigger] out@[j].member) == member_name_text(
                            *fields,
                            j,
                        ),
                    forall|j: int|
                        0 <= j < i ==> (#[trigger] out@[j].member) matches Member::Named(_),
                    forall|j: int| 0 <= j < i ==> #[trigger] out@[j].colon == true,
                    forall|j: int| 0 <= j < i ==> (#[trigger] out@[j].expr)@ == value_expr_text(
                        *fields,
                        j,
                        style,
                    ),
                decreases v.len() - i,
            {
                let name: String = match &v[i].ident {
                    Some(n) => n.clone(),
                    None => unreached(),
                };
                let use_default: bool = match style {
                    UnwrapStyle::AlwaysDefault => true,
                    UnwrapStyle::Selective => {
                        let a = find_path_of_attribute(&v[i].attrs, "default");
                        let b = find_path_of_attribute(&v[i].attrs, "fail_safe");
                        a.is_some() || b.is_some()
                    },
                };
                let expr = if use_default {
                    default_expr(name.as_str())
                } else {
                    strict_expr(name.as_str())
                };
                out.push(FieldValueDef { member: Member::Named(name), colon: true, expr });
                i = i + 1;
            }
        },
        RecordFields::Unnamed(v) => {
            let mut i: usize = 0;
            while i < v.len()
                invariant
                    i <= v.len(),
                    out@.len() == i,
                    *fields matches RecordFields::Unnamed(vv) && vv@ == v@,
                    forall|j: int|
                        0 <= j < i ==> member_text(#[trigger] out@[j].member) == member_name_text(
                            *fields,
                            j,
                        ),
                    forall|j: int|
                        0 <= j < i ==> (#[trigger] out@[j].member) matches Member::Unnamed(_),
                    forall|j: int| 0 <= j < i ==> #[trigger] out@[j].colon == false,
                    forall|j: int| 0 <= j < i ==> (#[trigger] out@[j].expr)@ == value_expr_text(
                        *fields,
                        j,
                        style,
                    ),
                decreases v.len() - i,
            {
                let name = crate::syntax::render_decimal(i);
                let use_default: bool = match style {
                    UnwrapStyle::AlwaysDefault => true,
                    UnwrapStyle::Selective => {
                        let a = find_path_of_attribute(&v[i].attrs, "default");
                        let b = find_path_of_attribute(&v[i].attrs, "fail_safe");
                        a.is_some() || b.is_some()
                    },
                };
                let expr = if use_default {
                    default_expr(name.as_str())
                } else {
                    strict_expr(name.as_str())
                };
                out.push(FieldValueDef { member: Member::Unnamed(i), colon: false, expr });
                i = i + 1;
            }
        },
    }
    out
}

/// Builds the resolution expressions that honor each field's annotations:
/// fail-soft fields substitute their default, all others resolve strictly
/// and name the field on failure.
pub fn create_unwraped_fields(fields: &RecordFields) -> (r: Vec<FieldValueDef>)
    requires
        fields matches RecordFields::Named(v) ==> forall|i: int|
            0 <= i < v@.len() ==> (#[trigger] v@[i].ident) is Some,
    ensures
        r@.len() == crate::syntax::fields_list(*fields).len(),
        forall|i: int|
            0 <= i < r@.len() ==> member_text(#[trigger] r@[i].member) == member_name_text(
                *fields,
                i,
            ),
        forall|i: int|
            0 <= i < r@.len() ==> #[trigger] r@[i].colon == (*fields matches RecordFields::Named(
                _,
            )),
        forall|i: int| 0 <= i < r@.len() ==> (#[trigger] r@[i].expr)@ == value_expr_text(
            *fields,
            i,
            UnwrapStyle::Selective,
        ),
{
    map_fields_to_values(fields, UnwrapStyle::Selective)
}

/// Builds the resolution expressions of whole-record fail-soft mode: every
/// field substitutes its default instead of failing.
pub fn create_unwrapped_default_fields(fields: &RecordFields) -> (r: Vec<FieldValueDef>)
    requires
        fields matches RecordFields::Named(v) ==> forall|i: int|
            0 <= i < v@.len() ==> (#[trigger] v@[i].ident) is Some,
    ensures
        r@.len() == crate::syntax::fields_list(*fields).len(),
        forall|i: int|
            0 <= i < r@.len() ==> member_text(#[trigger] r@[i].member) == member_name_text(
                *fields,
                i,
            ),
        forall|i: int|
            0 <= i < r@.len() ==> #[trigger] r@[i].colon == (*fields matches RecordFields::Named(
                _,
            )),
        forall|i: int| 0 <= i < r@.len() ==> (#[trigger] r@[i].expr)@ == value_expr_text(
            *fields,
            i,
            UnwrapStyle::AlwaysDefault,
        ),
{
    map_fields_to_values(fields, UnwrapStyle::AlwaysDefault)
}

} // verus!
