//! The annotation reader: pure lookup of named annotations, and of their
//! associated literal values, inside the crate's own `empty` attribute
//! namespace.

use crate::syntax::{meta_name, str_eq, Meta};
use vstd::prelude::*;

verus! {

/// Whether an annotation, anywhere inside it, carries the given name: as a
/// bare path, as a name-value pair, or nested in a parenthesized list.
pub open spec fn meta_has_path(m: Meta, name: Seq<char>) -> bool
    decreases m, 0int,
{
    match m {
        Meta::Path(p) => p@ == name,
        Meta::NameValue(p, _) => p@ == name,
        Meta::List(_, nested) => list_has_path(nested@, name),
    }
}

/// Whether some annotation of the list carries the given name.
pub open spec fn list_has_path(s: Seq<Meta>, name: Seq<char>) -> bool
    decreases s, 1int,
{
    if s.len() == 0 {
        false
    } else {
        meta_has_path(s[0], name) || list_has_path(s.subrange(1, s.len() as int), name)
    }
}

/// Whether some attribute of the crate's own namespace carries the name.
pub open spec fn attrs_have_path(attrs: Seq<Meta>, name: Seq<char>) -> bool {
    exists|i: int|
        0 <= i < attrs.len() && meta_name(#[trigger] attrs[i]) == "empty"@ && meta_has_path(
            attrs[i],
            name,
        )
}

/// Whether an attribute belongs to this system's own annotation namespace.
pub fn filter_attrs_by_own(attribute: &Meta) -> (r: bool)
    ensures
        r == (meta_name(*attribute) == "empty"@),
{
    match attribute {
        Meta::Path(p) => str_eq(p.as_str(), "empty"),
        Meta::List(p, _) => str_eq(p.as_str(), "empty"),
        Meta::NameValue(p, _) => str_eq(p.as_str(), "empty"),
    }
}

/// Looks for the name anywhere inside one parsed annotation, returning the
/// matched path.
#[verifier::loop_isolation(false)]
fn find_path_in_meta(meta: &Meta, name: &str) -> (r: Option<String>)
    ensures
        r is Some <==> meta_has_path(*meta, name@),
        r matches Some(p) ==> p@ == name@,
    decreases *meta,
{
    match meta {
        Meta::Path(p) => {
            if str_eq(p.as_str(), name) {
                Some(p.clone())
            } else {
                None
            }
        },
        Meta::NameValue(p, _) => {
            if str_eq(p.as_str(), name) {
                Some(p.clone())
            } else {
                None
            }
        },
        Meta::List(_, nested) => {
            proof {
                assert(nested@.subrange(0, nested@.len() as int) =~= nested@);
            }
            let mut i: usize = 0;
            while i < nested.len()
                invariant
                    i <= nested.len(),
                    list_has_path(nested@, name@) == list_has_path(
                        nested@.subrange(i as int, nested@.len() as int),
                        name@,
                    ),
                decreases nested.len() - i,
            {
                proof {
                    assert(decreases_to!(*nested => nested@));
                    assert(decreases_to!(nested@ => nested@[i as int]));
                    assert(decreases_to!(*meta => nested@[i as int]));
                }
                let found = find_path_in_meta(&nested[i], name);
                proof {
                    let tail = nested@.subrange(i as int, nested@.len() as int);
                    assert(tail[0] == nested@[i as int]);
                    assert(tail.subrange(1, tail.len() as int) =~= nested@.subrange(
                        i + 1,
                        nested@.len() as int,
                    ));
                }
                match found {
                    Some(p) => {
                        return Some(p);
                    },
                    None => {},
                }
                i = i + 1;
            }
            proof {
                assert(nested@.subrange(nested@.len() as int, nested@.len() as int)
                    =~= Seq::<Meta>::empty());
            }
            None
        },
    }
}

/// Locates the first annotation of the crate's own namespace that carries the
/// name, and returns the matched path.
pub fn find_path_of_attribute(attributes: &Vec<Meta>, name: &str) -> (r: Option<String>)
    ensures
        r is Some <==> attrs_have_path(attributes@, name@),
        r matches Some(p) ==> p@ == name@,
{
    let mut i: usize = 0;
    while i < attributes.len()
        invariant
            i <= attributes.len(),
            forall|j: int|
                0 <= j < i ==> !(meta_name(#[trigger] attributes@[j]) == "empty"@ && meta_has_path(
                    attributes@[j],
                    name@,
                )),
        decreases attributes.len() - i,
    {
        if filter_attrs_by_own(&attributes[i]) {
            match find_path_in_meta(&attributes[i], name) {
                Some(p) => {
                    return Some(p);
                },
                None => {},
            }
        }
        i = i + 1;
    }
    None
}

/// The literal associated with the first name-value pair for the key inside
/// one annotation, searching nested lists in order.
pub open spec fn find_meta_value(m: Meta, key: Seq<char>) -> Option<Seq<char>>
    decreases m, 0int,
{
    match m {
        Meta::Path(_) => None,
        Meta::NameValue(p, lit) => if p@ == key {
            Some(lit@)
        } else {
            None
        },
        Meta::List(_, nested) => find_meta_value_in_list(nested@, key),
    }
}

/// The first value for the key over a list of annotations, in order.
pub open spec fn find_meta_value_in_list(s: Seq<Meta>, key: Seq<char>) -> Option<Seq<char>>
    decreases s, 1int,
{
    if s.len() == 0 {
        None
    } else {
        match find_meta_value(s[0], key) {
            Some(v) => Some(v),
            None => find_meta_value_in_list(s.subrange(1, s.len() as int), key),
        }
    }
}

/// Looks for the first name-value pair for the key inside one annotation and
/// returns its literal.
#[verifier::loop_isolation(false)]
fn get_meta_value(meta: &Meta, key: &str) -> (r: Option<String>)
    ensures
        match find_meta_value(*meta, key@) {
            Some(v) => r matches Some(x) && x@ == v,
            None => r is None,
        },
    decreases *meta,
{
    match meta {
        Meta::Path(_) => None,
        Meta::NameValue(p, lit) => {
            if str_eq(p.as_str(), key) {
                Some(lit.clone())
            } else {
                None
            }
        },
        Meta::List(_, nested) => {
            proof {
                assert(nested@.subrange(0, nested@.len() as int) =~= nested@);
            }
            let mut i: usize = 0;
            while i < nested.len()
                invariant
                    i <= nested.len(),
                    find_meta_value_in_list(nested@, key@) == find_meta_value_in_list(
                        nested@.subrange(i as int, nested@.len() as int),
                        key@,
                    ),
                decreases nested.len() - i,
            {
                proof {
                    assert(decreases_to!(*nested => nested@));
                    assert(decreases_to!(nested@ => nested@[i as int]));
                    assert(decreases_to!(*meta => nested@[i as int]));
                }
                let found = get_meta_value(&nested[i], key);
                proof {
                    let tail = nested@.subrange(i as int, nested@.len() as int);
                    assert(tail[0] == nested@[i as int]);
                    assert(tail.subrange(1, tail.len() as int) =~= nested@.subrange(
                        i + 1,
                        nested@.len() as int,
                    ));
                }
                match found {
                    Some(v) => {
                        return Some(v);
                    },
                    None => {},
                }
                i = i + 1;
            }
            proof {
                assert(nested@.subrange(nested@.len() as int, nested@.len() as int)
                    =~= Seq::<Meta>::empty());
            }
            None
        },
    }
}

/// The first value for the key over the attributes of the crate's own
/// namespace, in order.
pub open spec fn find_value_in_attrs(attrs: Seq<Meta>, key: Seq<char>) -> Option<Seq<char>>
    decreases attrs.len(),
{
    if attrs.len() == 0 {
        None
    } else {
        let head = if meta_name(attrs[0]) == "empty"@ {
            find_meta_value(attrs[0], key)
        } else {
            Option::<Seq<char>>::None
        };
        match head {
            Some(v) => Some(v),
            None => find_value_in_attrs(attrs.subrange(1, attrs.len() as int), key),
        }
    }
}

/// Locates the named annotation and returns its associated literal value.
///
/// A name that is present only as a bare path, with no value anywhere, is a
/// definition error; callers must rule it out, which is why a match on the
/// name demands that a value exist.
pub fn get_attribute_value(attributes: &Vec<Meta>, name: &str) -> (r: Option<String>)
    requires
        attrs_have_path(attributes@, name@) ==> find_value_in_attrs(attributes@, name@) is Some,
    ensures
        !attrs_have_path(attributes@, name@) ==> r is None,
        attrs_have_path(attributes@, name@) ==> (r matches Some(v) && find_value_in_attrs(
            attributes@,
            name@,
        ) == Some(v@)),
{
    match find_path_of_attribute(attributes, name) {
        None => None,
        Some(_) => {
            proof {
                assert(attributes@.subrange(0, attributes@.len() as int) =~= attributes@);
            }
            let mut i: usize = 0;
            while i < attributes.len()
                invariant
                    i <= attributes.len(),
                    attrs_have_path(attributes@, name@),
                    find_value_in_attrs(attributes@, name@) is Some,
                    find_value_in_attrs(attributes@, name@) == find_value_in_attrs(
                        attributes@.subrange(i as int, attributes@.len() as int),
                        name@,
                    ),
                decreases attributes.len() - i,
            {
                let found = if filter_attrs_by_own(&attributes[i]) {
                    get_meta_value(&attributes[i], name)
                } else {
                    None
                };
                proof {
                    let tail = attributes@.subrange(i as int, attributes@.len() as int);
                    assert(tail[0] == attributes@[i as int]);
                    assert(tail.subrange(1, tail.len() as int) =~= attributes@.subrange(
                        i + 1,
                        attributes@.len() as int,
                    ));
                }
                match found {
                    Some(v) => {
                        return Some(v);
                    },
                    None => {},
                }
                i = i + 1;
            }
            proof {
                assert(attributes@.subrange(attributes@.len() as int, attributes@.len() as int)
                    =~= Seq::<Meta>::empty());
            }
            unreached()
        },
    }
}

} // verus!
