//! The top of the derivation engine: reads the record-level annotations,
//! synthesizes the shadow struct declaration, and renders the two conversion
//! impls as Rust source text.
//!
//! Every rendering function is pinned to a spec-level text function over the
//! record's structured view, so the whole generated output is determined by
//! the input declaration.

use crate::attribute::{attrs_have_path, find_path_of_attribute};
use crate::fields::{member_name_text, member_text, value_expr_text, FieldValueDef, UnwrapStyle};
use crate::syntax::{
    fields_list, generics_text, lemma_meta_equiv_text, lemma_params_equiv_text, meta_text,
    metas_equiv, opt_string_equiv, params_text, where_text, FieldDef, Member, Meta, RecordData,
    RecordFields, RecordInput,
};
use crate::type_information::{
    lemma_params_stripped_text, non_own_metas, record_fields_wf, serde_metas,
    stripped_generics_text, wrapped_field_text, TypeInformation,
};
use vstd::prelude::*;

verus! {

use vstd::string::StringExecFns;

/// The record-level options read from the record's annotations.
pub struct ContainerFlags {
    /// Whole-record fail-soft mode, asked for by `default` or `fail_safe`:
    /// every field resolves through the default-substituting path.
    pub fail_safe: bool,
    /// Externally-pluggable deserialization is requested for the shadow.
    pub deserialize: bool,
}

/// Reads the record-level options from the record's annotations.  The
/// `default` and `fail_safe` annotations are synonyms: either one puts the
/// whole record in fail-soft mode.
pub fn read_container_flags(input: &RecordInput) -> (r: ContainerFlags)
    ensures
        r.fail_safe == (attrs_have_path(input.attrs@, "fail_safe"@) || attrs_have_path(
            input.attrs@,
            "default"@,
        )),
        r.deserialize == attrs_have_path(input.attrs@, "deserialize"@),
{
    let fail_safe = find_path_of_attribute(&input.attrs, "fail_safe").is_some()
        || find_path_of_attribute(&input.attrs, "default").is_some();
    let deserialize = find_path_of_attribute(&input.attrs, "deserialize").is_some();
    ContainerFlags { fail_safe, deserialize }
}

/// Whether the record asks for whole-record fail-soft resolution, under
/// either of its two synonymous annotations.
pub open spec fn record_fail_safe(input: RecordInput) -> bool {
    attrs_have_path(input.attrs@, "fail_safe"@) || attrs_have_path(input.attrs@, "default"@)
}

/// Whether the record asks for deserialization-capable construction.
pub open spec fn record_deserialize(input: RecordInput) -> bool {
    attrs_have_path(input.attrs@, "deserialize"@)
}

/// The resolution style the record's flags select.
pub open spec fn unwrap_style_of(fail_safe: bool) -> UnwrapStyle {
    if fail_safe {
        UnwrapStyle::AlwaysDefault
    } else {
        UnwrapStyle::Selective
    }
}

/// The derive attribute placed on the shadow struct.
pub open spec fn derive_text(deserialize: bool) -> Seq<char> {
    if deserialize {
        "#[derive(serde::Deserialize, Default)]\n"@
    } else {
        "#[derive(Default)]\n"@
    }
}

/// A block of whole attributes, one per line.
pub open spec fn attr_lines_text(s: Seq<Meta>) -> Seq<char>
    decreases s.len(),
{
    if s.len() == 0 {
        Seq::empty()
    } else {
        attr_lines_text(s.drop_last()) + "#["@ + meta_text(s.last()) + "]\n"@
    }
}

/// A run of attributes rendered inline before a field, each followed by a
/// space.
pub open spec fn attrs_inline_text(s: Seq<Meta>) -> Seq<char>
    decreases s.len(),
{
    if s.len() == 0 {
        Seq::empty()
    } else {
        attrs_inline_text(s.drop_last()) + "#["@ + meta_text(s.last()) + "] "@
    }
}

/// Equivalent annotation lists render to the same attribute block.
pub proof fn lemma_metas_equiv_attr_lines(x: Seq<Meta>, y: Seq<Meta>)
    requires
        metas_equiv(x, y),
    ensures
        attr_lines_text(x) == attr_lines_text(y),
    decreases x.len(),
{
    if x.len() > 0 {
        assert(crate::syntax::meta_equiv(x[x.len() - 1], y[y.len() - 1]));
        lemma_meta_equiv_text(x.last(), y.last());
        assert(forall|j: int|
            0 <= j < x.len() - 1 ==> crate::syntax::meta_equiv(
                #[trigger] x.drop_last()[j],
                y.drop_last()[j],
            ));
        lemma_metas_equiv_attr_lines(x.drop_last(), y.drop_last());
    }
}

/// Equivalent annotation lists render to the same inline run.
pub proof fn lemma_metas_equiv_attrs_inline(x: Seq<Meta>, y: Seq<Meta>)
    requires
        metas_equiv(x, y),
    ensures
        attrs_inline_text(x) == attrs_inline_text(y),
    decreases x.len(),
{
    if x.len() > 0 {
        assert(crate::syntax::meta_equiv(x[x.len() - 1], y[y.len() - 1]));
        lemma_meta_equiv_text(x.last(), y.last());
        assert(forall|j: int|
            0 <= j < x.len() - 1 ==> crate::syntax::meta_equiv(
                #[trigger] x.drop_last()[j],
                y.drop_last()[j],
            ));
        lemma_metas_equiv_attrs_inline(x.drop_last(), y.drop_last());
    }
}

/// The visibility prefix of the shadow struct's declaration.
pub open spec fn vis_prefix_text(vis: Seq<char>) -> Seq<char> {
    if vis.len() == 0 {
        Seq::empty()
    } else {
        vis + " "@
    }
}

/// The generics of a parameter list in declaration position: empty, or the
/// angle-bracketed list with bounds kept.
pub open spec fn full_generics_text(s: Seq<crate::syntax::GenericParam>) -> Seq<char> {
    if s.len() == 0 {
        Seq::empty()
    } else {
        "<"@ + params_text(s) + ">"@
    }
}

/// The attributes a shadow field carries, by the record's options.
pub open spec fn shadow_field_attrs_text(f: FieldDef, deserialize: bool) -> Seq<char> {
    if deserialize {
        attrs_inline_text(non_own_metas(f.attrs@))
    } else {
        Seq::empty()
    }
}

/// One line of a named shadow struct's field block.
pub open spec fn named_line_text(f: FieldDef, fail_safe: bool, deserialize: bool) -> Seq<char> {
    "    "@ + shadow_field_attrs_text(f, deserialize) + (match f.ident {
        Some(n) => n@,
        None => Seq::empty(),
    }) + ": "@ + wrapped_field_text(f, fail_safe) + ",\n"@
}

/// The first `n` lines of a named shadow struct's field block.
pub open spec fn named_lines_text(
    fs: Seq<FieldDef>,
    fail_safe: bool,
    deserialize: bool,
    n: int,
) -> Seq<char>
    decreases n,
{
    if n <= 0 {
        Seq::empty()
    } else {
        named_lines_text(fs, fail_safe, deserialize, n - 1) + named_line_text(
            fs[n - 1],
            fail_safe,
            deserialize,
        )
    }
}

/// One entry of a tuple-style shadow struct's field list.
pub open spec fn unnamed_item_text(f: FieldDef, fail_safe: bool, deserialize: bool) -> Seq<char> {
    shadow_field_attrs_text(f, deserialize) + wrapped_field_text(f, fail_safe)
}

/// The first `n` entries of a tuple-style shadow struct's field list,
/// comma-separated.
pub open spec fn unnamed_items_text(
    fs: Seq<FieldDef>,
    fail_safe: bool,
    deserialize: bool,
    n: int,
) -> Seq<char>
    decreases n,
{
    if n <= 0 {
        Seq::empty()
    } else if n == 1 {
        unnamed_item_text(fs[0], fail_safe, deserialize)
    } else {
        unnamed_items_text(fs, fail_safe, deserialize, n - 1) + ", "@ + unnamed_item_text(
            fs[n - 1],
            fail_safe,
            deserialize,
        )
    }
}

/// The field block of the shadow struct's declaration: braced lines for a
/// named record, a parenthesized list for a tuple-style one, nothing for a
/// unit-like one.
pub open spec fn shadow_body_text(
    fields: RecordFields,
    fail_safe: bool,
    deserialize: bool,
) -> Seq<char> {
    match fields {
        RecordFields::Named(v) => " {\n"@ + named_lines_text(
            v@,
            fail_safe,
            deserialize,
            v@.len() as int,
        ) + "}"@,
        RecordFields::Unnamed(v) => "("@ + unnamed_items_text(
            v@,
            fail_safe,
            deserialize,
            v@.len() as int,
        ) + ")"@,
        RecordFields::Unit => Seq::empty(),
    }
}

/// The trailing punctuation of the shadow struct's declaration: tuple-style
/// and unit-like declarations take a semicolon.
pub open spec fn end_punct_text(fields: RecordFields) -> Seq<char> {
    match fields {
        RecordFields::Named(_) => Seq::empty(),
        RecordFields::Unnamed(_) => ";"@,
        RecordFields::Unit => ";"@,
    }
}

/// The whole shadow struct declaration.
pub open spec fn shadow_decl_text(input: RecordInput) -> Seq<char> {
    derive_text(record_deserialize(input)) + (if record_deserialize(input) {
        attr_lines_text(serde_metas(input.attrs@))
    } else {
        Seq::<char>::empty()
    }) + vis_prefix_text(input.vis@) + "struct ___Empty"@ + input.ident@ + stripped_generics_text(
        input.generics.params@,
    ) + shadow_body_text(input.data->Struct_0, record_fail_safe(input), record_deserialize(input))
        + end_punct_text(input.data->Struct_0) + "\n"@
}

/// The impl that links the record type to its shadow type, so that generic
/// code can look the shadow up mechanically.
pub open spec fn input_impls_text(input: RecordInput) -> Seq<char> {
    "impl"@ + full_generics_text(input.generics.params@) + " empty_type::EmptyType for "@
        + input.ident@ + stripped_generics_text(input.generics.params@) + where_text(
        input.generics.where_clause,
    ) + " {\n    type Container = ___Empty"@ + input.ident@ + stripped_generics_text(
        input.generics.params@,
    ) + ";\n}\n"@
}

/// One entry of the record-construction expression.
pub open spec fn unwrap_item_text(fields: RecordFields, i: int, style: UnwrapStyle) -> Seq<char> {
    if fields matches RecordFields::Unnamed(_) {
        value_expr_text(fields, i, style)
    } else {
        member_name_text(fields, i) + ": "@ + value_expr_text(fields, i, style)
    }
}

/// The first `n` entries of the record-construction expression,
/// comma-separated.
pub open spec fn unwrap_items_text(fields: RecordFields, style: UnwrapStyle, n: int) -> Seq<char>
    decreases n,
{
    if n <= 0 {
        Seq::empty()
    } else if n == 1 {
        unwrap_item_text(fields, 0, style)
    } else {
        unwrap_items_text(fields, style, n - 1) + ", "@ + unwrap_item_text(fields, n - 1, style)
    }
}

/// The record-construction expression that resolution returns: braced
/// member-by-member for a named record, parenthesized for a tuple-style one.
pub open spec fn unwrap_body_text(fields: RecordFields, style: UnwrapStyle) -> Seq<char> {
    match fields {
        RecordFields::Unnamed(v) => "("@ + unwrap_items_text(fields, style, v@.len() as int)
            + ")"@,
        RecordFields::Named(v) => if v@.len() == 0 {
            " { }"@
        } else {
            " { "@ + unwrap_items_text(fields, style, v@.len() as int) + " }"@
        },
        RecordFields::Unit => " { }"@,
    }
}

/// The impl that resolves the shadow struct back into the record.
pub open spec fn output_impls_text(input: RecordInput) -> Seq<char> {
    "impl"@ + full_generics_text(input.generics.params@) + " empty_type::Container for ___Empty"@
        + input.ident@ + stripped_generics_text(input.generics.params@) + where_text(
        input.generics.where_clause,
    ) + " {\n    type Value = "@ + input.ident@ + stripped_generics_text(input.generics.params@)
        + ";\n\n    fn try_open(&mut self) -> Result<Self::Value, empty_type::ResolveError> {\n        return Ok("@
        + input.ident@ + unwrap_body_text(
        input.data->Struct_0,
        unwrap_style_of(record_fail_safe(input)),
    ) + ")\n    }\n}\n"@
}

/// Everything the derivation emits for one record.
pub open spec fn struct_tokens_text(input: RecordInput) -> Seq<char> {
    shadow_decl_text(input) + "\n"@ + input_impls_text(input) + "\n"@ + output_impls_text(input)
}

/// Renders a block of whole attributes, one per line.
fn render_attr_lines(attrs: &Vec<Meta>) -> (r: String)
    ensures
        r@ == attr_lines_text(attrs@),
{
    let mut out = String::new();
    let mut i: usize = 0;
    proof {
        assert(attrs@.take(0) =~= Seq::<Meta>::empty());
    }
    while i < attrs.len()
        invariant
            i <= attrs.len(),
            out@ == attr_lines_text(attrs@.take(i as int)),
        decreases attrs.len() - i,
    {
        out.append("#[");
        let m = crate::syntax::render_meta(&attrs[i]);
        out.append(m.as_str());
        out.append("]\n");
        proof {
            assert(attrs@.take(i + 1).drop_last() =~= attrs@.take(i as int));
            assert(attrs@.take(i + 1).last() == attrs@[i as int]);
        }
        i = i + 1;
    }
    proof {
        assert(attrs@.take(attrs@.len() as int) =~= attrs@);
    }
    out
}

/// Renders a run of attributes inline before a field.
fn render_attrs_inline(attrs: &Vec<Meta>) -> (r: String)
    ensures
        r@ == attrs_inline_text(attrs@),
{
    let mut out = String::new();
    let mut i: usize = 0;
    proof {
        assert(attrs@.take(0) =~= Seq::<Meta>::empty());
    }
    while i < attrs.len()
        invariant
            i <= attrs.len(),
            out@ == attrs_inline_text(attrs@.take(i as int)),
        decreases attrs.len() - i,
    {
        out.append("#[");
        let m = crate::syntax::render_meta(&attrs[i]);
        out.append(m.as_str());
        out.append("] ");
        proof {
            assert(attrs@.take(i + 1).drop_last() =~= attrs@.take(i as int));
            assert(attrs@.take(i + 1).last() == attrs@[i as int]);
        }
        i = i + 1;
    }
    proof {
        assert(attrs@.take(attrs@.len() as int) =~= attrs@);
    }
    out
}

/// Renders the shadow struct's field block from the wrapped fields, pinned
/// to the source fields they were wrapped from.
fn render_shadow_body(
    source: &RecordFields,
    wrapped: &RecordFields,
    flags: &ContainerFlags,
) -> (r: String)
    requires
        record_fields_wf(*source),
        *wrapped is Named <==> *source is Named,
        *wrapped is Unnamed <==> *source is Unnamed,
        fields_list(*wrapped).len() == fields_list(*source).len(),
        forall|i: int|
            0 <= i < fields_list(*wrapped).len() ==> opt_string_equiv(
                fields_list(*source)[i].ident,
                (#[trigger] fields_list(*wrapped)[i]).ident,
            ),
        forall|i: int|
            0 <= i < fields_list(*wrapped).len() ==> crate::syntax::type_text(
                (#[trigger] fields_list(*wrapped)[i]).ty,
            ) == wrapped_field_text(fields_list(*source)[i], flags.fail_safe),
        forall|i: int|
            0 <= i < fields_list(*wrapped).len() ==> if flags.deserialize {
                metas_equiv(
                    non_own_metas(fields_list(*source)[i].attrs@),
                    (#[trigger] fields_list(*wrapped)[i]).attrs@,
                )
            } else {
                fields_list(*wrapped)[i].attrs@.len() == 0
            },
    ensures
        r@ == shadow_body_text(*source, flags.fail_safe, flags.deserialize),
{
    match wrapped {
        RecordFields::Unit => String::new(),
        RecordFields::Named(v) => {
            let ghost sv = fields_list(*source);
            let mut out = " {\n".to_owned();
            let mut i: usize = 0;
            while i < v.len()
                invariant
                    i <= v.len(),
                    record_fields_wf(*source),
                    *source is Named,
                    *wrapped matches RecordFields::Named(vv) && vv@ == v@,
                    sv == fields_list(*source),
                    v@.len() == sv.len(),
                    forall|j: int|
                        0 <= j < v@.len() ==> opt_string_equiv(
                            sv[j].ident,
                            (#[trigger] v@[j]).ident,
                        ),
                    forall|j: int|
                        0 <= j < v@.len() ==> crate::syntax::type_text((#[trigger] v@[j]).ty)
                            == wrapped_field_text(sv[j], flags.fail_safe),
                    forall|j: int|
                        0 <= j < v@.len() ==> if flags.deserialize {
                            metas_equiv(non_own_metas(sv[j].attrs@), (#[trigger] v@[j]).attrs@)
                        } else {
                            v@[j].attrs@.len() == 0
                        },
                    out@ == " {\n"@ + named_lines_text(
                        sv,
                        flags.fail_safe,
                        flags.deserialize,
                        i as int,
                    ),
                decreases v.len() - i,
            {
                out.append("    ");
                if flags.deserialize {
                    let a = render_attrs_inline(&v[i].attrs);
                    out.append(a.as_str());
                    proof {
                        lemma_metas_equiv_attrs_inline(
                            non_own_metas(sv[i as int].attrs@),
                            v@[i as int].attrs@,
                        );
                    }
                } else {
                    proof {
                        assert(v@[i as int].attrs@ =~= Seq::<Meta>::empty());
                    }
                }
                match &v[i].ident {
                    Some(n) => out.append(n.as_str()),
                    None => unreached(),
                }
                out.append(": ");
                let t = crate::syntax::render_type(&v[i].ty);
                out.append(t.as_str());
                out.append(",\n");
                i = i + 1;
            }
            out.append("}");
            out
        },
        RecordFields::Unnamed(v) => {
            let ghost sv = fields_list(*source);
            let mut out = "(".to_owned();
            let mut i: usize = 0;
            while i < v.len()
                invariant
                    i <= v.len(),
                    *source is Unnamed,
                    *wrapped matches RecordFields::Unnamed(vv) && vv@ == v@,
                    sv == fields_list(*source),
                    v@.len() == sv.len(),
                    forall|j: int|
                        0 <= j < v@.len() ==> crate::syntax::type_text((#[trigger] v@[j]).ty)
                            == wrapped_field_text(sv[j], flags.fail_safe),
                    forall|j: int|
                        0 <= j < v@.len() ==> if flags.deserialize {
                            metas_equiv(non_own_metas(sv[j].attrs@), (#[trigger] v@[j]).attrs@)
                        } else {
                            v@[j].attrs@.len() == 0
                        },
                    out@ == "("@ + unnamed_items_text(
                        sv,
                        flags.fail_safe,
                        flags.deserialize,
                        i as int,
                    ),
                decreases v.len() - i,
            {
                if i > 0 {
                    out.append(", ");
                }
                if flags.deserialize {
                    let a = render_attrs_inline(&v[i].attrs);
                    out.append(a.as_str());
                    proof {
                        lemma_metas_equiv_attrs_inline(
                            non_own_metas(sv[i as int].attrs@),
                            v@[i as int].attrs@,
                        );
                    }
                } else {
                    proof {
                        assert(v@[i as int].attrs@ =~= Seq::<Meta>::empty());
                    }
                }
                let t = crate::syntax::render_type(&v[i].ty);
                out.append(t.as_str());
                i = i + 1;
            }
            out.append(")");
            out
        },
    }
}

/// Renders the record-construction expression from the per-field resolution
/// expressions.
fn render_unwrap_body(
    values: &Vec<FieldValueDef>,
    tuple: bool,
    fields: Ghost<RecordFields>,
    style: Ghost<UnwrapStyle>,
) -> (r: String)
    requires
        values@.len() == fields_list(fields@).len(),
        tuple == (fields@ matches RecordFields::Unnamed(_)),
        forall|i: int|
            0 <= i < values@.len() ==> member_text((#[trigger] values@[i]).member)
                == member_name_text(fields@, i),
        forall|i: int|
            0 <= i < values@.len() ==> ((#[trigger] values@[i]).expr)@ == value_expr_text(
                fields@,
                i,
                style@,
            ),
    ensures
        r@ == unwrap_body_text(fields@, style@),
{
    let n = values.len();
    if tuple {
        let mut out = "(".to_owned();
        let mut i: usize = 0;
        while i < n
            invariant
                i <= n,
                n == values@.len(),
                values@.len() == fields_list(fields@).len(),
                fields@ matches RecordFields::Unnamed(_),
                forall|j: int|
                    0 <= j < values@.len() ==> ((#[trigger] values@[j]).expr)@ == value_expr_text(
                        fields@,
                        j,
                        style@,
                    ),
                out@ == "("@ + unwrap_items_text(fields@, style@, i as int),
            decreases n - i,
        {
            if i > 0 {
                out.append(", ");
            }
            out.append(values[i].expr.as_str());
            i = i + 1;
        }
        out.append(")");
        out
    } else {
        if n == 0 {
            return " { }".to_owned();
        }
        let mut out = " { ".to_owned();
        let mut i: usize = 0;
        while i < n
            invariant
                i <= n,
                n == values@.len(),
                n > 0,
                values@.len() == fields_list(fields@).len(),
                !(fields@ matches RecordFields::Unnamed(_)),
                forall|j: int|
                    0 <= j < values@.len() ==> member_text((#[trigger] values@[j]).member)
                        == member_name_text(fields@, j),
                forall|j: int|
                    0 <= j < values@.len() ==> ((#[trigger] values@[j]).expr)@ == value_expr_text(
                        fields@,
                        j,
                        style@,
                    ),
                out@ == " { "@ + unwrap_items_text(fields@, style@, i as int),
            decreases n - i,
        {
            if i > 0 {
                out.append(", ");
            }
            match &values[i].member {
                Member::Named(name) => out.append(name.as_str()),
                Member::Unnamed(k) => {
                    let d = crate::syntax::render_decimal(*k);
                    out.append(d.as_str());
                },
            }
            out.append(": ");
            out.append(values[i].expr.as_str());
            i = i + 1;
        }
        out.append(" }");
        proof {
            assert(fields@ matches RecordFields::Named(v) && v@.len() > 0);
        }
        out
    }
}

/// Renders the impl that links the record type to its shadow type.
pub fn create_input_impls(type_information: &TypeInformation) -> (r: String)
    ensures
        r@ == "impl"@ + generics_text(type_information.prefix_generics)
            + " empty_type::EmptyType for "@ + type_information.wrapped_struct_name@
            + generics_text(type_information.postfix_generics) + where_text(
            type_information.where_clause,
        ) + " {\n    type Container = ___Empty"@ + type_information.wrapped_struct_name@
            + generics_text(type_information.postfix_generics) + ";\n}\n"@,
{
    let prefix = crate::syntax::render_generics(&type_information.prefix_generics);
    let full_known_name = type_information.fully_qualified_wrapped_struct_name();
    let full_maybe_name = type_information.fully_qualified_derived_struct_name();
    let mut out = "impl".to_owned();
    out.append(prefix.as_str());
    out.append(" empty_type::EmptyType for ");
    out.append(full_known_name.as_str());
    match &type_information.where_clause {
        Some(w) => {
            out.append(" ");
            out.append(w.as_str());
        },
        None => {},
    }
    out.append(" {\n    type Container = ");
    out.append(full_maybe_name.as_str());
    out.append(";\n}\n");
    proof {
        assert(out@ =~= "impl"@ + generics_text(type_information.prefix_generics)
            + " empty_type::EmptyType for "@ + type_information.wrapped_struct_name@
            + generics_text(type_information.postfix_generics) + where_text(
            type_information.where_clause,
        ) + " {\n    type Container = ___Empty"@ + type_information.wrapped_struct_name@
            + generics_text(type_information.postfix_generics) + ";\n}\n"@) by {
            reveal_strlit(" {\n    type Container = ");
            reveal_strlit(" {\n    type Container = ___Empty");
            reveal_strlit("___Empty");
        }
    }
    out
}

/// Renders the impl that resolves the shadow struct back into the record:
/// fail-soft mode substitutes every field's default, otherwise each field
/// resolves by its own annotations.
pub fn create_impl_for_output(
    type_information: &TypeInformation,
    container_flags: &ContainerFlags,
) -> (r: String)
    requires
        record_fields_wf(type_information.fields),
    ensures
        r@ == "impl"@ + generics_text(type_information.prefix_generics)
            + " empty_type::Container for ___Empty"@ + type_information.wrapped_struct_name@
            + generics_text(type_information.postfix_generics) + where_text(
            type_information.where_clause,
        ) + " {\n    type Value = "@ + type_information.wrapped_struct_name@ + generics_text(
            type_information.postfix_generics,
        )
            + ";\n\n    fn try_open(&mut self) -> Result<Self::Value, empty_type::ResolveError> {\n        return Ok("@
            + type_information.wrapped_struct_name@ + unwrap_body_text(
            type_information.fields,
            unwrap_style_of(container_flags.fail_safe),
        ) + ")\n    }\n}\n"@,
{
    let field_unwrapping = if container_flags.fail_safe {
        type_information.fields_uwnrapped_default()
    } else {
        type_information.fields_unwrapped()
    };
    let tuple = type_information.is_tuple_struct();
    let body = render_unwrap_body(
        &field_unwrapping,
        tuple,
        Ghost(type_information.fields),
        Ghost(unwrap_style_of(container_flags.fail_safe)),
    );
    let prefix = crate::syntax::render_generics(&type_information.prefix_generics);
    let fully_qualified_derive_name = type_information.fully_qualified_derived_struct_name();
    let fully_qualified_wrapped_name = type_information.fully_qualified_wrapped_struct_name();
    let mut out = "impl".to_owned();
    out.append(prefix.as_str());
    out.append(" empty_type::Container for ");
    out.append(fully_qualified_derive_name.as_str());
    match &type_information.where_clause {
        Some(w) => {
            out.append(" ");
            out.append(w.as_str());
        },
        None => {},
    }
    out.append(" {\n    type Value = ");
    out.append(fully_qualified_wrapped_name.as_str());
    out.append(";\n\n    fn try_open(&mut self) -> Result<Self::Value, empty_type::ResolveError> {\n        return Ok(");
    out.append(type_information.wrapped_struct_name.as_str());
    out.append(body.as_str());
    out.append(")\n    }\n}\n");
    proof {
        assert(out@ =~= "impl"@ + generics_text(type_information.prefix_generics)
            + " empty_type::Container for ___Empty"@ + type_information.wrapped_struct_name@
            + generics_text(type_information.postfix_generics) + where_text(
            type_information.where_clause,
        ) + " {\n    type Value = "@ + type_information.wrapped_struct_name@ + generics_text(
            type_information.postfix_generics,
        )
            + ";\n\n    fn try_open(&mut self) -> Result<Self::Value, empty_type::ResolveError> {\n        return Ok("@
            + type_information.wrapped_struct_name@ + unwrap_body_text(
            type_information.fields,
            unwrap_style_of(container_flags.fail_safe),
        ) + ")\n    }\n}\n"@) by {
            reveal_strlit(" empty_type::Container for ");
            reveal_strlit(" empty_type::Container for ___Empty");
            reveal_strlit("___Empty");
        }
    }
    out
}

/// Renders everything the derivation emits for one record: the shadow
/// struct's declaration, the impl linking the record to it, and the impl
/// resolving it back.
#[verifier::rlimit(60)]
pub fn create_struct_tokens(input: RecordInput) -> (r: String)
    requires
        input.data matches RecordData::Struct(_),
        record_fields_wf(input.data->Struct_0),
    ensures
        r@ == struct_tokens_text(input),
{
    let viz = input.vis.clone();
    let container_attributes = read_container_flags(&input);
    let ghost gi = input;

    let type_information = TypeInformation::new(input);

    proof {
        lemma_params_equiv_text(gi.generics.params@, type_information.prefix_generics.params@);
        lemma_params_stripped_text(gi.generics.params@, type_information.postfix_generics.params@);
        assert(generics_text(type_information.prefix_generics) == full_generics_text(
            gi.generics.params@,
        ));
        assert(generics_text(type_information.postfix_generics) == stripped_generics_text(
            gi.generics.params@,
        ));
    }

    let output_impls = create_impl_for_output(&type_information, &container_attributes);
    let input_impls = create_input_impls(&type_information);

    let derive: &str = if container_attributes.deserialize {
        "#[derive(serde::Deserialize, Default)]\n"
    } else {
        "#[derive(Default)]\n"
    };

    let attrs: Vec<Meta> = if container_attributes.deserialize {
        type_information.only_serde_attributes()
    } else {
        Vec::new()
    };
    let attr_block = render_attr_lines(&attrs);
    proof {
        if container_attributes.deserialize {
            lemma_metas_equiv_attr_lines(serde_metas(gi.attrs@), attrs@);
        } else {
            assert(attrs@ =~= Seq::<Meta>::empty());
        }
    }

    let fields = type_information.fields_wrapped_in_options(&container_attributes);
    let body = render_shadow_body(&type_information.fields, &fields, &container_attributes);

    let mut out = derive.to_owned();
    out.append(attr_block.as_str());
    if !viz.as_str().is_empty() {
        out.append(viz.as_str());
        out.append(" ");
    }
    out.append("struct ___Empty");
    out.append(type_information.wrapped_struct_name.as_str());
    let postfix = crate::syntax::render_generics(&type_information.postfix_generics);
    out.append(postfix.as_str());
    out.append(body.as_str());
    match &type_information.fields {
        RecordFields::Named(_) => {},
        RecordFields::Unnamed(_) => out.append(";"),
        RecordFields::Unit => out.append(";"),
    }
    out.append("\n");
    out.append("\n");
    out.append(input_impls.as_str());
    out.append("\n");
    out.append(output_impls.as_str());
    out
}

/// The derivation's entry point: reads one record declaration and produces
/// the generated companion source text.
pub fn empty_type(input: RecordInput) -> (r: String)
    requires
        input.data matches RecordData::Struct(_),
        record_fields_wf(input.data->Struct_0),
    ensures
        r@ == struct_tokens_text(input),
{
    create_struct_tokens(input)
}

} // verus!
