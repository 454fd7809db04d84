//! The shadow-type synthesizer's working state: the record's name, its two
//! generics renderings, its fields, and the record-level annotations, with
//! the transformations that produce the shadow struct's pieces.

use crate::codegen::ContainerFlags;
use crate::fields::{
    create_unwraped_fields, create_unwrapped_default_fields, fallible_wrapped_text,
    field_type_is_literally, is_bool_type, is_optional_type, lemma_wrap_respects_equiv,
    option_wrapped_text, value_expr_text, wrap_field_in_option, wrap_option_in_fallable,
    FieldValueDef, UnwrapStyle,
};
use crate::attribute::{attrs_have_path, find_path_of_attribute};
use crate::syntax::{
    duplicate_field, duplicate_meta, duplicate_params, fields_list, generics_text, meta_name,
    opt_string_equiv, param_equiv, type_text, FieldDef, GenericParam, GenericsDef, Meta,
    RecordData, RecordFields, RecordInput, TypeExpr,
};
use vstd::prelude::*;

verus! {

use vstd::string::StringExecFns;

/// Well-formedness of a record's field list: a named record names every
/// field, and a field whose type is an optional carries its angle-bracket
/// arguments.  Records read from real declarations always satisfy this.
pub open spec fn record_fields_wf(fields: RecordFields) -> bool {
    &&& (fields matches RecordFields::Named(v) ==> forall|i: int|
        0 <= i < v@.len() ==> (#[trigger] v@[i].ident) is Some)
    &&& forall|i: int|
        0 <= i < fields_list(fields).len() ==> (is_optional_type(
            #[trigger] fields_list(fields)[i].ty,
        ) ==> (fields_list(fields)[i].ty matches TypeExpr::Path(segs) && segs@.last().arguments
            is Some))
}

/// Whether a field's slot is wrapped in the fail-soft slot type: asked for
/// by the whole record or by the field's own `default` or `fail_safe`
/// annotation, and never applied to a bare boolean field.
pub open spec fn field_wants_fallible(f: FieldDef, record_fail_safe: bool) -> bool {
    (record_fail_safe || attrs_have_path(f.attrs@, "fail_safe"@) || attrs_have_path(
        f.attrs@,
        "default"@,
    )) && !is_bool_type(f.ty)
}

/// The shadow struct's field type for one source field.
pub open spec fn wrapped_field_text(f: FieldDef, record_fail_safe: bool) -> Seq<char> {
    if field_wants_fallible(f, record_fail_safe) {
        fallible_wrapped_text(option_wrapped_text(f.ty))
    } else {
        option_wrapped_text(f.ty)
    }
}

/// The attributes that are kept on a shadow field: everything outside this
/// system's own annotation namespace, in order.
pub open spec fn non_own_metas(s: Seq<Meta>) -> Seq<Meta>
    decreases s.len(),
{
    if s.len() == 0 {
        Seq::empty()
    } else {
        let rest = non_own_metas(s.drop_last());
        if meta_name(s.last()) == "empty"@ {
            rest
        } else {
            rest.push(s.last())
        }
    }
}

/// The record-level attributes that are forwarded to the shadow struct when
/// deserialization is requested: those of the `serde` namespace, in order.
pub open spec fn serde_metas(s: Seq<Meta>) -> Seq<Meta>
    decreases s.len(),
{
    if s.len() == 0 {
        Seq::empty()
    } else {
        let rest = serde_metas(s.drop_last());
        if meta_name(s.last()) == "serde"@ {
            rest.push(s.last())
        } else {
            rest
        }
    }
}

/// A generic parameter stripped for use in type position: the bare name,
/// bounds and defaults dropped, a const parameter standing as a type
/// parameter of the same name.
pub open spec fn param_stripped(p: GenericParam, q: GenericParam) -> bool {
    match p {
        GenericParam::Lifetime { ident, .. } => q matches GenericParam::Lifetime {
            ident: qi,
            bounds: None,
        } && qi@ == ident@,
        GenericParam::TypeParam { ident, .. } => q matches GenericParam::TypeParam {
            ident: qi,
            bounds: None,
            default_ty: None,
        } && qi@ == ident@,
        GenericParam::ConstParam { ident, .. } => q matches GenericParam::TypeParam {
            ident: qi,
            bounds: None,
            default_ty: None,
        } && qi@ == ident@,
    }
}

/// The source text a generic parameter keeps in type position: its bare
/// name, a const parameter standing as a type parameter.
pub open spec fn stripped_param_text(p: GenericParam) -> Seq<char> {
    match p {
        GenericParam::Lifetime { ident, .. } => ident@,
        GenericParam::TypeParam { ident, .. } => ident@,
        GenericParam::ConstParam { ident, .. } => ident@,
    }
}

/// The comma-separated bare names of a parameter list.
pub open spec fn stripped_params_text(s: Seq<GenericParam>) -> Seq<char>
    decreases s.len(),
{
    if s.len() == 0 {
        Seq::empty()
    } else if s.len() == 1 {
        stripped_param_text(s[0])
    } else {
        stripped_params_text(s.drop_last()) + ", "@ + stripped_param_text(s.last())
    }
}

/// The source text of a generics skeleton stripped for type position.
pub open spec fn stripped_generics_text(s: Seq<GenericParam>) -> Seq<char> {
    if s.len() == 0 {
        Seq::empty()
    } else {
        "<"@ + stripped_params_text(s) + ">"@
    }
}

/// A stripped parameter list renders to the bare names of the original.
pub proof fn lemma_params_stripped_text(x: Seq<GenericParam>, y: Seq<GenericParam>)
    requires
        x.len() == y.len(),
        forall|i: int| 0 <= i < x.len() ==> param_stripped(#[trigger] x[i], y[i]),
    ensures
        crate::syntax::params_text(y) == stripped_params_text(x),
    decreases x.len(),
{
    if x.len() > 0 {
        assert(param_stripped(x[x.len() - 1], y[y.len() - 1]));
        if x.len() > 1 {
            lemma_params_stripped_text(x.drop_last(), y.drop_last());
        }
    }
}

/// Everything the synthesizer needs of one record declaration.
pub struct TypeInformation {
    /// The original record's name.
    pub wrapped_struct_name: String,
    /// The generics with bounds kept, for `impl<...>` position.
    pub prefix_generics: GenericsDef,
    /// The generics stripped to bare names, for type position.
    pub postfix_generics: GenericsDef,
    /// The record's where-clause, verbatim, rendered as its own clause.
    pub where_clause: Option<String>,
    /// The record's fields as declared.
    pub fields: RecordFields,
    /// The record-level attributes.
    pub container_attributes: Vec<Meta>,
}

impl TypeInformation {
    /// Splits a record declaration into the synthesizer's working pieces.
    /// Only struct records are supported; an enum or union is a definition
    /// error that callers rule out.
    pub fn new(input: RecordInput) -> (r: TypeInformation)
        requires
            input.data matches RecordData::Struct(_),
        ensures
            r.wrapped_struct_name == input.ident,
            r.where_clause == input.generics.where_clause,
            r.fields == input.data->Struct_0,
            r.container_attributes == input.attrs,
            r.prefix_generics.where_clause is None,
            r.prefix_generics.params@.len() == input.generics.params@.len(),
            forall|i: int|
                0 <= i < input.generics.params@.len() ==> param_equiv(
                    #[trigger] input.generics.params@[i],
                    r.prefix_generics.params@[i],
                ),
            r.postfix_generics.where_clause is None,
            r.postfix_generics.params@.len() == input.generics.params@.len(),
            forall|i: int|
                0 <= i < input.generics.params@.len() ==> param_stripped(
                    #[trigger] input.generics.params@[i],
                    r.postfix_generics.params@[i],
                ),
    {
        let RecordInput { vis: _, ident, generics, attrs, data } = input;
        let GenericsDef { params, where_clause } = generics;
        // Prefix generics carry the declared bounds, as an impl block wants
        // them; the where-clause is rendered separately.
        let prefix_generics = GenericsDef { params: duplicate_params(&params), where_clause: None };
        let postfix_generics = Self::create_postfix_generics(GenericsDef {
            params,
            where_clause: None,
        });
        let fields = Self::extract_fields(data);
        TypeInformation {
            prefix_generics,
            postfix_generics,
            wrapped_struct_name: ident,
            fields,
            where_clause,
            container_attributes: attrs,
        }
    }

    /// The record-level attributes of the `serde` namespace, kept in order.
    pub fn only_serde_attributes(&self) -> (r: Vec<Meta>)
        ensures
            crate::syntax::metas_equiv(serde_metas(self.container_attributes@), r@),
    {
        let attrs = &self.container_attributes;
        let mut out: Vec<Meta> = Vec::new();
        let mut i: usize = 0;
        proof {
            assert(attrs@.take(0) =~= Seq::<Meta>::empty());
        }
        while i < attrs.len()
            invariant
                i <= attrs.len(),
                crate::syntax::metas_equiv(serde_metas(attrs@.take(i as int)), out@),
            decreases attrs.len() - i,
        {
            let keep = match &attrs[i] {
                Meta::Path(p) => crate::syntax::str_eq(p.as_str(), "serde"),
                Meta::List(p, _) => crate::syntax::str_eq(p.as_str(), "serde"),
                Meta::NameValue(p, _) => crate::syntax::str_eq(p.as_str(), "serde"),
            };
            if keep {
                let d = duplicate_meta(&attrs[i]);
                out.push(d);
            }
            proof {
                assert(attrs@.take(i + 1).drop_last() =~= attrs@.take(i as int));
                assert(attrs@.take(i + 1).last() == attrs@[i as int]);
            }
            i = i + 1;
        }
        proof {
            assert(attrs@.take(attrs@.len() as int) =~= attrs@);
        }
        out
    }

    fn extract_fields(data: RecordData) -> (r: RecordFields)
        requires
            data matches RecordData::Struct(_),
        ensures
            r == data->Struct_0,
    {
        match data {
            RecordData::Struct(fields) => fields,
            RecordData::Enum => unreached(),
            RecordData::Union => unreached(),
        }
    }

    /// The resolution expressions that honor each field's own annotations.
    pub fn fields_unwrapped(&self) -> (r: Vec<FieldValueDef>)
        requires
            record_fields_wf(self.fields),
        ensures
            r@.len() == fields_list(self.fields).len(),
            forall|i: int|
                0 <= i < r@.len() ==> crate::fields::member_text(#[trigger] r@[i].member)
                    == crate::fields::member_name_text(self.fields, i),
            forall|i: int|
                0 <= i < r@.len() ==> #[trigger] r@[i].colon == (self.fields matches
                RecordFields::Named(_)),
            forall|i: int| 0 <= i < r@.len() ==> (#[trigger] r@[i].expr)@ == value_expr_text(
                self.fields,
                i,
                UnwrapStyle::Selective,
            ),
    {
        create_unwraped_fields(&self.fields)
    }

    /// The resolution expressions of whole-record fail-soft mode.
    pub fn fields_uwnrapped_default(&self) -> (r: Vec<FieldValueDef>)
        requires
            record_fields_wf(self.fields),
        ensures
            r@.len() == fields_list(self.fields).len(),
            forall|i: int|
                0 <= i < r@.len() ==> crate::fields::member_text(#[trigger] r@[i].member)
                    == crate::fields::member_name_text(self.fields, i),
            forall|i: int|
                0 <= i < r@.len() ==> #[trigger] r@[i].colon == (self.fields matches
                RecordFields::Named(_)),
            forall|i: int| 0 <= i < r@.len() ==> (#[trigger] r@[i].expr)@ == value_expr_text(
                self.fields,
                i,
                UnwrapStyle::AlwaysDefault,
            ),
    {
        create_unwrapped_default_fields(&self.fields)
    }

    /// The shadow struct's fields: each field's type rewritten per its slot
    /// strategy, fail-soft wrapping applied where asked for, this system's
    /// own annotations dropped, and every annotation dropped unless
    /// deserialization is requested.
    pub fn fields_wrapped_in_options(&self, container_attributes: &ContainerFlags) -> (r:
        RecordFields)
        requires
            record_fields_wf(self.fields),
        ensures
            r is Named <==> self.fields is Named,
            r is Unnamed <==> self.fields is Unnamed,
            fields_list(r).len() == fields_list(self.fields).len(),
            forall|i: int|
                0 <= i < fields_list(r).len() ==> opt_string_equiv(
                    fields_list(self.fields)[i].ident,
                    #[trigger] fields_list(r)[i].ident,
                ),
            forall|i: int|
                0 <= i < fields_list(r).len() ==> type_text(#[trigger] fields_list(r)[i].ty)
                    == wrapped_field_text(
                    fields_list(self.fields)[i],
                    container_attributes.fail_safe,
                ),
            forall|i: int|
                0 <= i < fields_list(r).len() ==> if container_attributes.deserialize {
                    crate::syntax::metas_equiv(
                        non_own_metas(fields_list(self.fields)[i].attrs@),
                        (#[trigger] fields_list(r)[i].attrs)@,
                    )
                } else {
                    fields_list(r)[i].attrs@.len() == 0
                },
    {
        match &self.fields {
            RecordFields::Unit => RecordFields::Unit,
            RecordFields::Named(v) => RecordFields::Named(
                wrap_fields_vec(v, container_attributes),
            ),
            RecordFields::Unnamed(v) => RecordFields::Unnamed(
                wrap_fields_vec(v, container_attributes),
            ),
        }
    }

    /// Whether the record is tuple-style.
    pub fn is_tuple_struct(&self) -> (r: bool)
        ensures
            r == (self.fields matches RecordFields::Unnamed(_)),
    {
        match &self.fields {
            RecordFields::Unnamed(_) => true,
            _ => false,
        }
    }

    /// The original record's name followed by the stripped generics, for
    /// type position.
    pub fn fully_qualified_wrapped_struct_name(&self) -> (r: String)
        ensures
            r@ == self.wrapped_struct_name@ + generics_text(self.postfix_generics),
    {
        let mut s = self.wrapped_struct_name.clone();
        let g = crate::syntax::render_generics(&self.postfix_generics);
        s.append(g.as_str());
        s
    }

    /// The shadow struct's name, derived from the record's.
    pub fn derived_struct_name(&self) -> (r: String)
        ensures
            r@ == "___Empty"@ + self.wrapped_struct_name@,
    {
        let mut s = "___Empty".to_owned();
        s.append(self.wrapped_struct_name.as_str());
        s
    }

    /// The shadow struct's name followed by the stripped generics, for type
    /// position.
    pub fn fully_qualified_derived_struct_name(&self) -> (r: String)
        ensures
            r@ == "___Empty"@ + self.wrapped_struct_name@ + generics_text(self.postfix_generics),
    {
        let mut s = self.derived_struct_name();
        let g = crate::syntax::render_generics(&self.postfix_generics);
        s.append(g.as_str());
        s
    }

    /// Strips a generics skeleton for type position: bounds and defaults
    /// dropped, a const parameter standing as a type parameter of the same
    /// name, attributes of each parameter preserved in its identity.
    fn create_postfix_generics(generics: GenericsDef) -> (r: GenericsDef)
        ensures
            r.where_clause == generics.where_clause,
            r.params@.len() == generics.params@.len(),
            forall|i: int|
                0 <= i < generics.params@.len() ==> param_stripped(
                    #[trigger] generics.params@[i],
                    r.params@[i],
                ),
    {
        let GenericsDef { params, where_clause } = generics;
        let mut out: Vec<GenericParam> = Vec::new();
        let mut i: usize = 0;
        while i < params.len()
            invariant
                i <= params.len(),
                out@.len() == i,
                forall|j: int| 0 <= j < i ==> param_stripped(#[trigger] params@[j], out@[j]),
            decreases params.len() - i,
        {
            let stripped = match &params[i] {
                GenericParam::Lifetime { ident, .. } => GenericParam::Lifetime {
                    ident: ident.clone(),
                    bounds: None,
                },
                GenericParam::TypeParam { ident, .. } => GenericParam::TypeParam {
                    ident: ident.clone(),
                    bounds: None,
                    default_ty: None,
                },
                GenericParam::ConstParam { ident, .. } => GenericParam::TypeParam {
                    ident: ident.clone(),
                    bounds: None,
                    default_ty: None,
                },
            };
            out.push(stripped);
            i = i + 1;
        }
        GenericsDef { params: out, where_clause }
    }
}

/// The attributes of a field that survive onto the shadow struct: those
/// outside this system's own namespace.
fn filter_non_own(attrs: &Vec<Meta>) -> (r: Vec<Meta>)
    ensures
        crate::syntax::metas_equiv(non_own_metas(attrs@), r@),
{
    let mut out: Vec<Meta> = Vec::new();
    let mut i: usize = 0;
    proof {
        assert(attrs@.take(0) =~= Seq::<Meta>::empty());
    }
    while i < attrs.len()
        invariant
            i <= attrs.len(),
            crate::syntax::metas_equiv(non_own_metas(attrs@.take(i as int)), out@),
        decreases attrs.len() - i,
    {
        if !crate::attribute::filter_attrs_by_own(&attrs[i]) {
            let d = duplicate_meta(&attrs[i]);
            out.push(d);
        }
        proof {
            assert(attrs@.take(i + 1).drop_last() =~= attrs@.take(i as int));
            assert(attrs@.take(i + 1).last() == attrs@[i as int]);
        }
        i = i + 1;
    }
    proof {
        assert(attrs@.take(attrs@.len() as int) =~= attrs@);
    }
    out
}

/// Rewrites one field list for the shadow struct.
fn wrap_fields_vec(v: &Vec<FieldDef>, flags: &ContainerFlags) -> (r: Vec<FieldDef>)
    requires
        forall|i: int|
            0 <= i < v@.len() ==> (is_optional_type(#[trigger] v@[i].ty) ==> (v@[i].ty matches
            TypeExpr::Path(segs) && segs@.last().arguments is Some)),
    ensures
        r@.len() == v@.len(),
        forall|i: int|
            0 <= i < v@.len() ==> opt_string_equiv(v@[i].ident, (#[trigger] r@[i]).ident),
        forall|i: int|
            0 <= i < v@.len() ==> type_text((#[trigger] r@[i]).ty) == wrapped_field_text(
                v@[i],
                flags.fail_safe,
            ),
        forall|i: int|
            0 <= i < v@.len() ==> if flags.deserialize {
                crate::syntax::metas_equiv(non_own_metas(v@[i].attrs@), (#[trigger] r@[i]).attrs@)
            } else {
                r@[i].attrs@.len() == 0
            },
{
    let mut out: Vec<FieldDef> = Vec::new();
    let mut i: usize = 0;
    while i < v.len()
        invariant
            i <= v.len(),
            out@.len() == i,
            forall|j: int|
                0 <= j < v@.len() ==> (is_optional_type(#[trigger] v@[j].ty) ==> (v@[j].ty matches
                TypeExpr::Path(segs) && segs@.last().arguments is Some)),
            forall|j: int|
                0 <= j < i ==> opt_string_equiv(v@[j].ident, (#[trigger] out@[j]).ident),
            forall|j: int|
                0 <= j < i ==> type_text((#[trigger] out@[j]).ty) == wrapped_field_text(
                    v@[j],
                    flags.fail_safe,
                ),
            forall|j: int|
                0 <= j < i ==> if flags.deserialize {
                    crate::syntax::metas_equiv(
                        non_own_metas(v@[j].attrs@),
                        (#[trigger] out@[j]).attrs@,
                    )
                } else {
                    out@[j].attrs@.len() == 0
                },
        decreases v.len() - i,
    {
        // the fail-soft decision and the boolean test are made on the
        // declared field, before any rewriting
        let wants_fallible = (flags.fail_safe || find_path_of_attribute(
            &v[i].attrs,
            "fail_safe",
        ).is_some() || find_path_of_attribute(&v[i].attrs, "default").is_some())
            && !field_type_is_literally(&v[i], "bool");
        let mut f = duplicate_field(&v[i]);
        proof {
            lemma_wrap_respects_equiv(v@[i as int].ty, f.ty);
        }
        wrap_field_in_option(&mut f);
        if wants_fallible {
            wrap_option_in_fallable(&mut f);
        }
        f.attrs = if flags.deserialize {
            filter_non_own(&v[i].attrs)
        } else {
            Vec::new()
        };
        out.push(f);
        i = i + 1;
    }
    out
}

} // verus!
