//! The structured view of a record declaration that the derivation engine
//! works on: types, annotations, generics, fields, and the whole record.
//!
//! Parsing source text into this view is a collaborator's job; the engine
//! only reads the shape.  Pieces the engine never inspects (angle-bracket
//! arguments, bounds, where-clauses, literals) are carried verbatim as source
//! text.  Every rendering function is pinned to a spec-level text function
//! over the view of its input.

use vstd::prelude::*;

verus! {

use vstd::string::StringExecFns;

/// Compares two string slices by contents.
pub fn str_eq(a: &str, b: &str) -> (r: bool)
    ensures
        r == (a@ == b@),
{
    let left = a.to_owned();
    let right = b.to_owned();
    left == right
}

/// One segment of a path type: an identifier, optionally followed by its
/// angle-bracketed arguments kept verbatim (brackets included, e.g. `<u8>`).
pub struct PathSegment {
    pub ident: String,
    pub arguments: Option<String>,
}

/// A field's declared type: a path type whose segments are inspectable, or
/// any other shape kept verbatim.
pub enum TypeExpr {
    Path(Vec<PathSegment>),
    Verbatim(String),
}

/// The source text of one path segment.
pub open spec fn segment_text(s: PathSegment) -> Seq<char> {
    match s.arguments {
        Some(a) => s.ident@ + a@,
        None => s.ident@,
    }
}

/// The source text of a segment path, `::`-separated.
pub open spec fn segments_text(segs: Seq<PathSegment>) -> Seq<char>
    decreases segs.len(),
{
    if segs.len() == 0 {
        Seq::empty()
    } else if segs.len() == 1 {
        segment_text(segs[0])
    } else {
        segments_text(segs.drop_last()) + "::"@ + segment_text(segs.last())
    }
}

/// The source text of a declared type.
pub open spec fn type_text(t: TypeExpr) -> Seq<char> {
    match t {
        TypeExpr::Path(segs) => segments_text(segs@),
        TypeExpr::Verbatim(s) => s@,
    }
}

/// Renders a segment path back to source text.
pub fn render_segments(segs: &Vec<PathSegment>) -> (r: String)
    ensures
        r@ == segments_text(segs@),
{
    let mut out = String::new();
    let mut i: usize = 0;
    while i < segs.len()
        invariant
            i <= segs.len(),
            out@ == segments_text(segs@.take(i as int)),
        decreases segs.len() - i,
    {
        if i > 0 {
            out.append("::");
        }
        out.append(segs[i].ident.as_str());
        match &segs[i].arguments {
            Some(a) => out.append(a.as_str()),
            None => {},
        }
        proof {
            assert(segs@.take(i + 1).drop_last() =~= segs@.take(i as int));
            assert(segs@.take(i + 1).last() == segs@[i as int]);
            assert(segs@.take(i + 1)[0] == segs@[0]);
        }
        i = i + 1;
    }
    proof {
        assert(segs@.take(segs@.len() as int) =~= segs@);
    }
    out
}

/// Renders a declared type back to source text.
pub fn render_type(t: &TypeExpr) -> (r: String)
    ensures
        r@ == type_text(*t),
{
    match t {
        TypeExpr::Path(segs) => render_segments(segs),
        TypeExpr::Verbatim(s) => s.clone(),
    }
}

/// Structural equality of two path segments up to string contents.
pub open spec fn segment_equiv(a: PathSegment, b: PathSegment) -> bool {
    &&& a.ident@ == b.ident@
    &&& match (a.arguments, b.arguments) {
        (Some(p), Some(q)) => p@ == q@,
        (None, None) => true,
        _ => false,
    }
}

/// Structural equality of types up to string contents; duplication preserves
/// exactly this.
pub open spec fn type_equiv(a: TypeExpr, b: TypeExpr) -> bool {
    match (a, b) {
        (TypeExpr::Path(x), TypeExpr::Path(y)) => {
            &&& x@.len() == y@.len()
            &&& forall|i: int| 0 <= i < x@.len() ==> segment_equiv(#[trigger] x@[i], y@[i])
        },
        (TypeExpr::Verbatim(x), TypeExpr::Verbatim(y)) => x@ == y@,
        _ => false,
    }
}

/// Equivalent types render to the same source text.
pub proof fn lemma_type_equiv_same_text(a: TypeExpr, b: TypeExpr)
    requires
        type_equiv(a, b),
    ensures
        type_text(a) == type_text(b),
{
    match (a, b) {
        (TypeExpr::Path(x), TypeExpr::Path(y)) => {
            lemma_segments_equiv_same_text(x@, y@);
        },
        _ => {},
    }
}

proof fn lemma_segments_equiv_same_text(x: Seq<PathSegment>, y: Seq<PathSegment>)
    requires
        x.len() == y.len(),
        forall|i: int| 0 <= i < x.len() ==> segment_equiv(#[trigger] x[i], y[i]),
    ensures
        segments_text(x) == segments_text(y),
    decreases x.len(),
{
    if x.len() > 1 {
        lemma_segments_equiv_same_text(x.drop_last(), y.drop_last());
    }
}

/// The character for one decimal digit.
pub open spec fn decimal_digit(d: nat) -> char {
    if d == 0 {
        '0'
    } else if d == 1 {
        '1'
    } else if d == 2 {
        '2'
    } else if d == 3 {
        '3'
    } else if d == 4 {
        '4'
    } else if d == 5 {
        '5'
    } else if d == 6 {
        '6'
    } else if d == 7 {
        '7'
    } else if d == 8 {
        '8'
    } else {
        '9'
    }
}

/// The decimal source text of a number, as it names a positional field.
pub open spec fn decimal_text(n: nat) -> Seq<char>
    decreases n,
{
    if n < 10 {
        seq![decimal_digit(n)]
    } else {
        decimal_text(n / 10) + seq![decimal_digit(n % 10)]
    }
}

fn digit_str(d: usize) -> (r: &'static str)
    requires
        d < 10,
    ensures
        r@ == seq![decimal_digit(d as nat)],
{
    proof {
        reveal_strlit("0");
        reveal_strlit("1");
        reveal_strlit("2");
        reveal_strlit("3");
        reveal_strlit("4");
        reveal_strlit("5");
        reveal_strlit("6");
        reveal_strlit("7");
        reveal_strlit("8");
        reveal_strlit("9");
    }
    match d {
        0 => "0",
        1 => "1",
        2 => "2",
        3 => "3",
        4 => "4",
        5 => "5",
        6 => "6",
        7 => "7",
        8 => "8",
        _ => "9",
    }
}

/// Renders a number as decimal source text.
pub fn render_decimal(n: usize) -> (r: String)
    ensures
        r@ == decimal_text(n as nat),
    decreases n,
{
    if n < 10 {
        digit_str(n).to_owned()
    } else {
        let mut s = render_decimal(n / 10);
        s.append(digit_str(n % 10));
        s
    }
}

/// One annotation, or one entry of a parenthesized annotation list: a bare
/// name, a name with a nested list, or a name-value pair whose literal is
/// kept verbatim (quotes included).  A whole attribute is modelled by the
/// annotation it parses to, whose name is the attribute's path.
pub enum Meta {
    Path(String),
    List(String, Vec<Meta>),
    NameValue(String, String),
}

/// The name (outermost path) of an annotation.
pub open spec fn meta_name(m: Meta) -> Seq<char> {
    match m {
        Meta::Path(p) => p@,
        Meta::List(p, _) => p@,
        Meta::NameValue(p, _) => p@,
    }
}

/// Structural equality of annotations up to string contents.
pub open spec fn meta_equiv(a: Meta, b: Meta) -> bool
    decreases a,
{
    match (a, b) {
        (Meta::Path(x), Meta::Path(y)) => x@ == y@,
        (Meta::NameValue(x, v), Meta::NameValue(y, w)) => x@ == y@ && v@ == w@,
        (Meta::List(x, xs), Meta::List(y, ys)) => x@ == y@ && xs@.len() == ys@.len() && forall|
            i: int,
        |
            0 <= i < xs@.len() ==> meta_equiv(#[trigger] xs@[i], ys@[i]),
        _ => false,
    }
}

/// Structural equality of annotation lists up to string contents.
pub open spec fn metas_equiv(a: Seq<Meta>, b: Seq<Meta>) -> bool {
    a.len() == b.len() && forall|i: int| 0 <= i < a.len() ==> meta_equiv(#[trigger] a[i], b[i])
}

/// Copies an annotation; the copy is structurally equivalent.
#[verifier::loop_isolation(false)]
pub fn duplicate_meta(m: &Meta) -> (r: Meta)
    ensures
        meta_equiv(*m, r),
    decreases *m,
{
    match m {
        Meta::Path(p) => Meta::Path(p.clone()),
        Meta::NameValue(p, v) => Meta::NameValue(p.clone(), v.clone()),
        Meta::List(p, xs) => {
            let mut out: Vec<Meta> = Vec::new();
            let mut i: usize = 0;
            while i < xs.len()
                invariant
                    i <= xs.len(),
                    out@.len() == i,
                    forall|j: int| 0 <= j < i ==> meta_equiv(#[trigger] xs@[j], out@[j]),
                decreases xs.len() - i,
            {
                proof {
                    assert(decreases_to!(*xs => xs@));
                    assert(decreases_to!(xs@ => xs@[i as int]));
                    assert(decreases_to!(*m => xs@[i as int]));
                }
                let d = duplicate_meta(&xs[i]);
                out.push(d);
                i = i + 1;
            }
            Meta::List(p.clone(), out)
        },
    }
}

/// The source text of one annotation, as it appears inside an attribute.
pub open spec fn meta_text(m: Meta) -> Seq<char>
    decreases m, 0int,
{
    match m {
        Meta::Path(p) => p@,
        Meta::NameValue(p, lit) => p@ + " = "@ + lit@,
        Meta::List(p, xs) => p@ + "("@ + meta_list_text(xs@) + ")"@,
    }
}

/// The source text of a comma-separated annotation list.
pub open spec fn meta_list_text(s: Seq<Meta>) -> Seq<char>
    decreases s, 1int,
{
    if s.len() == 0 {
        Seq::empty()
    } else if s.len() == 1 {
        meta_text(s[0])
    } else {
        meta_list_text(s.drop_last()) + ", "@ + meta_text(s.last())
    }
}

/// Renders an annotation back to source text.
#[verifier::loop_isolation(false)]
pub fn render_meta(m: &Meta) -> (r: String)
    ensures
        r@ == meta_text(*m),
    decreases *m,
{
    match m {
        Meta::Path(p) => p.clone(),
        Meta::NameValue(p, lit) => {
            let mut s = p.clone();
            s.append(" = ");
            s.append(lit.as_str());
            s
        },
        Meta::List(p, xs) => {
            let mut s = p.clone();
            s.append("(");
            let mut i: usize = 0;
            while i < xs.len()
                invariant
                    i <= xs.len(),
                    s@ == p@ + "("@ + meta_list_text(xs@.take(i as int)),
                decreases xs.len() - i,
            {
                if i > 0 {
                    s.append(", ");
                }
                proof {
                    assert(decreases_to!(*xs => xs@));
                    assert(decreases_to!(xs@ => xs@[i as int]));
                    assert(decreases_to!(*m => xs@[i as int]));
                }
                let piece = render_meta(&xs[i]);
                s.append(piece.as_str());
                proof {
                    assert(xs@.take(i + 1).drop_last() =~= xs@.take(i as int));
                    assert(xs@.take(i + 1).last() == xs@[i as int]);
                    assert(xs@.take(i + 1)[0] == xs@[0]);
                }
                i = i + 1;
            }
            s.append(")");
            proof {
                assert(xs@.take(xs@.len() as int) =~= xs@);
            }
            s
        },
    }
}

/// One generic parameter of a record declaration.  Idents of lifetime
/// parameters include the apostrophe; bounds and defaults are verbatim source
/// text without the introducing `:` or `=`.
pub enum GenericParam {
    Lifetime { ident: String, bounds: Option<String> },
    TypeParam { ident: String, bounds: Option<String>, default_ty: Option<String> },
    ConstParam { ident: String, const_ty: String },
}

/// The generics skeleton of a record declaration.  The where-clause is
/// verbatim source text including the `where` keyword; it never takes part in
/// rendering the parameter list itself.
pub struct GenericsDef {
    pub params: Vec<GenericParam>,
    pub where_clause: Option<String>,
}

/// The text a bounds or default part contributes to a parameter.
pub open spec fn opt_part_text(part: Option<String>, sep: Seq<char>) -> Seq<char> {
    match part {
        Some(x) => sep + x@,
        None => Seq::empty(),
    }
}

/// The source text of one generic parameter.
pub open spec fn param_text(p: GenericParam) -> Seq<char> {
    match p {
        GenericParam::Lifetime { ident, bounds } => ident@ + opt_part_text(bounds, ": "@),
        GenericParam::TypeParam { ident, bounds, default_ty } => ident@ + opt_part_text(
            bounds,
            ": "@,
        ) + opt_part_text(default_ty, " = "@),
        GenericParam::ConstParam { ident, const_ty } => "const "@ + ident@ + ": "@ + const_ty@,
    }
}

/// The source text of a comma-separated parameter list.
pub open spec fn params_text(s: Seq<GenericParam>) -> Seq<char>
    decreases s.len(),
{
    if s.len() == 0 {
        Seq::empty()
    } else if s.len() == 1 {
        param_text(s[0])
    } else {
        params_text(s.drop_last()) + ", "@ + param_text(s.last())
    }
}

/// The source text of a generics skeleton in parameter-list position: empty
/// when there are no parameters, else the angle-bracketed list.
pub open spec fn generics_text(g: GenericsDef) -> Seq<char> {
    if g.params.len() == 0 {
        Seq::empty()
    } else {
        "<"@ + params_text(g.params@) + ">"@
    }
}

/// The text a where-clause contributes when rendered after a type: nothing,
/// or a space followed by the verbatim clause.
pub open spec fn where_text(w: Option<String>) -> Seq<char> {
    match w {
        Some(x) => " "@ + x@,
        None => Seq::empty(),
    }
}

fn render_opt_part(out: &mut String, part: &Option<String>, sep: &str)
    ensures
        final(out)@ == old(out)@ + opt_part_text(*part, sep@),
{
    match part {
        Some(x) => {
            out.append(sep);
            out.append(x.as_str());
        },
        None => {},
    }
}

fn render_param(out: &mut String, p: &GenericParam)
    ensures
        final(out)@ == old(out)@ + param_text(*p),
{
    match p {
        GenericParam::Lifetime { ident, bounds } => {
            out.append(ident.as_str());
            render_opt_part(out, bounds, ": ");
        },
        GenericParam::TypeParam { ident, bounds, default_ty } => {
            out.append(ident.as_str());
            render_opt_part(out, bounds, ": ");
            render_opt_part(out, default_ty, " = ");
        },
        GenericParam::ConstParam { ident, const_ty } => {
            out.append("const ");
            out.append(ident.as_str());
            out.append(": ");
            out.append(const_ty.as_str());
        },
    }
}

/// Renders a generics skeleton in parameter-list position.
pub fn render_generics(g: &GenericsDef) -> (r: String)
    ensures
        r@ == generics_text(*g),
{
    if g.params.len() == 0 {
        return String::new();
    }
    let mut out = "<".to_owned();
    let mut i: usize = 0;
    while i < g.params.len()
        invariant
            i <= g.params.len(),
            g.params.len() > 0,
            out@ == "<"@ + params_text(g.params@.take(i as int)),
        decreases g.params.len() - i,
    {
        if i > 0 {
            out.append(", ");
        }
        render_param(&mut out, &g.params[i]);
        proof {
            assert(g.params@.take(i + 1).drop_last() =~= g.params@.take(i as int));
            assert(g.params@.take(i + 1).last() == g.params@[i as int]);
            assert(g.params@.take(i + 1)[0] == g.params@[0]);
        }
        i = i + 1;
    }
    out.append(">");
    proof {
        assert(g.params@.take(g.params@.len() as int) =~= g.params@);
    }
    out
}

/// Structural equality of generic parameters up to string contents.
pub open spec fn param_equiv(a: GenericParam, b: GenericParam) -> bool {
    match (a, b) {
        (
            GenericParam::Lifetime { ident: ai, bounds: ab },
            GenericParam::Lifetime { ident: bi, bounds: bb },
        ) => ai@ == bi@ && opt_string_equiv(ab, bb),
        (
            GenericParam::TypeParam { ident: ai, bounds: ab, default_ty: ad },
            GenericParam::TypeParam { ident: bi, bounds: bb, default_ty: bd },
        ) => ai@ == bi@ && opt_string_equiv(ab, bb) && opt_string_equiv(ad, bd),
        (
            GenericParam::ConstParam { ident: ai, const_ty: at },
            GenericParam::ConstParam { ident: bi, const_ty: bt },
        ) => ai@ == bi@ && at@ == bt@,
        _ => false,
    }
}

/// Equality of optional verbatim text up to string contents.
pub open spec fn opt_string_equiv(a: Option<String>, b: Option<String>) -> bool {
    match (a, b) {
        (Some(p), Some(q)) => p@ == q@,
        (None, None) => true,
        _ => false,
    }
}

/// Copies a parameter list; the copy is structurally equivalent, element for
/// element.
pub fn duplicate_params(params: &Vec<GenericParam>) -> (r: Vec<GenericParam>)
    ensures
        r@.len() == params@.len(),
        forall|i: int| 0 <= i < params@.len() ==> param_equiv(#[trigger] params@[i], r@[i]),
{
    let mut out: Vec<GenericParam> = Vec::new();
    let mut i: usize = 0;
    while i < params.len()
        invariant
            i <= params.len(),
            out@.len() == i,
            forall|j: int| 0 <= j < i ==> param_equiv(#[trigger] params@[j], out@[j]),
        decreases params.len() - i,
    {
        let d = match &params[i] {
            GenericParam::Lifetime { ident, bounds } => GenericParam::Lifetime {
                ident: ident.clone(),
                bounds: duplicate_opt_string(bounds),
            },
            GenericParam::TypeParam { ident, bounds, default_ty } => GenericParam::TypeParam {
                ident: ident.clone(),
                bounds: duplicate_opt_string(bounds),
                default_ty: duplicate_opt_string(default_ty),
            },
            GenericParam::ConstParam { ident, const_ty } => GenericParam::ConstParam {
                ident: ident.clone(),
                const_ty: const_ty.clone(),
            },
        };
        proof {
            assert(param_equiv(params@[i as int], d));
        }
        out.push(d);
        i = i + 1;
    }
    out
}

/// Copies optional verbatim text.
pub fn duplicate_opt_string(s: &Option<String>) -> (r: Option<String>)
    ensures
        opt_string_equiv(*s, r),
{
    match s {
        Some(x) => Some(x.clone()),
        None => None,
    }
}

/// One field of a record: its name (absent for positional fields), its
/// declared type, and its annotations.
pub struct FieldDef {
    pub ident: Option<String>,
    pub ty: TypeExpr,
    pub attrs: Vec<Meta>,
}

/// The fields of a record, in declaration order, keeping the distinction
/// between named, positional (tuple-style) and unit-like records.
pub enum RecordFields {
    Named(Vec<FieldDef>),
    Unnamed(Vec<FieldDef>),
    Unit,
}

/// The field list of a record in declaration order, whatever its shape.
pub open spec fn fields_list(f: RecordFields) -> Seq<FieldDef> {
    match f {
        RecordFields::Named(v) => v@,
        RecordFields::Unnamed(v) => v@,
        RecordFields::Unit => Seq::empty(),
    }
}

/// Equivalent annotations render to the same source text.
pub proof fn lemma_meta_equiv_text(a: Meta, b: Meta)
    requires
        meta_equiv(a, b),
    ensures
        meta_text(a) == meta_text(b),
    decreases a, 0int,
{
    match (a, b) {
        (Meta::List(x, xs), Meta::List(y, ys)) => {
            lemma_meta_list_equiv_text(xs@, ys@);
        },
        _ => {},
    }
}

/// Equivalent annotation lists render to the same source text.
pub proof fn lemma_meta_list_equiv_text(x: Seq<Meta>, y: Seq<Meta>)
    requires
        metas_equiv(x, y),
    ensures
        meta_list_text(x) == meta_list_text(y),
    decreases x, 1int,
{
    if x.len() > 0 {
        assert(meta_equiv(x[x.len() - 1], y[y.len() - 1]));
        lemma_meta_equiv_text(x.last(), y.last());
        if x.len() > 1 {
            assert(x.drop_last() =~= x.subrange(0, x.len() - 1));
            assert(forall|j: int|
                0 <= j < x.len() - 1 ==> meta_equiv(#[trigger] x.drop_last()[j], y.drop_last()[j]));
            lemma_meta_list_equiv_text(x.drop_last(), y.drop_last());
        }
    }
}

/// Equivalent parameter lists render to the same source text.
pub proof fn lemma_params_equiv_text(x: Seq<GenericParam>, y: Seq<GenericParam>)
    requires
        x.len() == y.len(),
        forall|i: int| 0 <= i < x.len() ==> param_equiv(#[trigger] x[i], y[i]),
    ensures
        params_text(x) == params_text(y),
    decreases x.len(),
{
    if x.len() > 0 {
        assert(param_equiv(x[x.len() - 1], y[y.len() - 1]));
        if x.len() > 1 {
            lemma_params_equiv_text(x.drop_last(), y.drop_last());
        }
    }
}

/// Copies an annotation list; the copy is structurally equivalent, element
/// for element.
pub fn duplicate_metas(attrs: &Vec<Meta>) -> (r: Vec<Meta>)
    ensures
        metas_equiv(attrs@, r@),
{
    let mut out: Vec<Meta> = Vec::new();
    let mut i: usize = 0;
    while i < attrs.len()
        invariant
            i <= attrs.len(),
            out@.len() == i,
            forall|j: int| 0 <= j < i ==> meta_equiv(#[trigger] attrs@[j], out@[j]),
        decreases attrs.len() - i,
    {
        let d = duplicate_meta(&attrs[i]);
        out.push(d);
        i = i + 1;
    }
    out
}

/// A member of a record in expression position: a field's name, or its
/// position for tuple-style records.
pub enum Member {
    Named(String),
    Unnamed(usize),
}

/// Copies a field; name, type and annotations of the copy are structurally
/// equivalent to the original's.
pub fn duplicate_field(f: &FieldDef) -> (r: FieldDef)
    ensures
        opt_string_equiv(f.ident, r.ident),
        type_equiv(f.ty, r.ty),
        type_text(f.ty) == type_text(r.ty),
        metas_equiv(f.attrs@, r.attrs@),
{
    let ty = duplicate_type(&f.ty);
    FieldDef {
        ident: duplicate_opt_string(&f.ident),
        ty,
        attrs: duplicate_metas(&f.attrs),
    }
}

/// The body of a record declaration: its fields, or the unsupported shapes.
pub enum RecordData {
    Struct(RecordFields),
    Enum,
    Union,
}

/// The structured view of a whole record declaration: visibility (verbatim,
/// possibly empty), name, generics skeleton, attached annotations, and body.
pub struct RecordInput {
    pub vis: String,
    pub ident: String,
    pub generics: GenericsDef,
    pub attrs: Vec<Meta>,
    pub data: RecordData,
}

/// Copies a type; the copy is structurally equivalent to the original.
pub fn duplicate_type(t: &TypeExpr) -> (r: TypeExpr)
    ensures
        type_equiv(*t, r),
        type_text(*t) == type_text(r),
{
    let r = match t {
        TypeExpr::Verbatim(s) => TypeExpr::Verbatim(s.clone()),
        TypeExpr::Path(segs) => {
            let mut out: Vec<PathSegment> = Vec::new();
            let mut i: usize = 0;
            while i < segs.len()
                invariant
                    i <= segs.len(),
                    out@.len() == i,
                    forall|j: int| 0 <= j < i ==> segment_equiv(#[trigger] segs@[j], out@[j]),
                decreases segs.len() - i,
            {
                let arguments = match &segs[i].arguments {
                    Some(a) => Some(a.clone()),
                    None => None,
                };
                let seg = PathSegment { ident: segs[i].ident.clone(), arguments };
                proof {
                    assert(segment_equiv(segs@[i as int], seg));
                }
                out.push(seg);
                i = i + 1;
            }
            TypeExpr::Path(out)
        },
    };
    proof {
        lemma_type_equiv_same_text(*t, r);
    }
    r
}

} // verus!
