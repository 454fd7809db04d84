//! A value-level model of one record instance at resolution time.
//!
//! The generated resolution code walks the shadow struct's slots in
//! declaration order through the shared [`Container`] contract.  Here that
//! walk is itself a verified function: a record instance is a list of named
//! slots, every field value drawn from one type so that records of any width
//! can be described, and resolution aggregates the slots exactly as the
//! generated `try_open` body does — fail-fast with the first missing field's
//! name on the strict path, default substitution on the fail-soft path.

use crate::fields::Strategy;
use crate::{Container, DefaultValue, Fallible, Optional, ResolveError};
use vstd::prelude::*;

verus! {

/// One field's slot, with every field value drawn from a single type `V`.
pub enum Slot<V> {
    /// A plain required slot.
    Required(Option<V>),
    /// A flattening slot for a field that was already optional.
    Flattening(Optional<V>),
    /// A bare boolean field.
    Boolean(bool),
    /// A fail-soft wrapper around a required slot.
    SoftRequired(Fallible<Option<V>>),
    /// A fail-soft wrapper around a flattening slot.
    SoftFlattening(Fallible<Optional<V>>),
}

/// One field of a record instance: its name and its slot.
pub struct SlotField<V> {
    pub name: String,
    pub slot: Slot<V>,
}

/// The value one field contributes to the resolved record.
#[derive(Debug, PartialEq)]
pub enum FieldOutcome<V> {
    /// A required field's value.
    Single(V),
    /// An originally-optional field's value, at a single optional level.
    Maybe(Option<V>),
    /// A boolean field's value.
    Flag(bool),
}

/// Whether a slot opens successfully: only a plain required slot can fail,
/// and it fails exactly when it is empty.
pub open spec fn slot_ok<V>(s: Slot<V>) -> bool {
    match s {
        Slot::Required(o) => o is Some,
        _ => true,
    }
}

/// Which values a slot yields when opened by the generated resolution code.
pub open spec fn slot_yields<V: DefaultValue>(s: Slot<V>, out: FieldOutcome<V>) -> bool {
    match s {
        Slot::Required(o) => o matches Some(x) && out == FieldOutcome::Single(x),
        Slot::Flattening(f) => out == FieldOutcome::Maybe(f.0),
        Slot::Boolean(b) => out == FieldOutcome::<V>::Flag(b),
        Slot::SoftRequired(f) => match f.0 {
            Some(x) => out == FieldOutcome::Single(x),
            None => out matches FieldOutcome::Single(d) && d.is_default(),
        },
        Slot::SoftFlattening(f) => out == FieldOutcome::Maybe(f.0.0),
    }
}

/// Whether every slot of a record instance opens successfully.
pub open spec fn all_ok<V>(fields: Seq<SlotField<V>>) -> bool {
    forall|i: int| 0 <= i < fields.len() ==> slot_ok((#[trigger] fields[i]).slot)
}

/// The position of the first slot, in declaration order, that fails to open.
pub open spec fn first_missing<V>(fields: Seq<SlotField<V>>) -> int
    decreases fields.len(),
{
    if fields.len() == 0 {
        0
    } else if !slot_ok(fields[0].slot) {
        0
    } else {
        1 + first_missing(fields.subrange(1, fields.len() as int))
    }
}

/// The plan of one field of a record: its name, its classified strategy,
/// and whether fail-soft resolution was asked for.
pub struct FieldPlan {
    pub name: String,
    pub strategy: Strategy,
    pub fail_soft: bool,
}

/// The all-empty slot a plan entry starts from: required and flattening
/// slots start empty (fail-soft or not), a boolean field starts at `false`
/// and takes no fail-soft wrapper.
pub open spec fn empty_slot_for<V>(strategy: Strategy, fail_soft: bool, s: Slot<V>) -> bool {
    match strategy {
        Strategy::Required => if fail_soft {
            s == Slot::SoftRequired(Fallible(Option::<V>::None))
        } else {
            s == Slot::Required(Option::<V>::None)
        },
        Strategy::FlattenOptional => if fail_soft {
            s == Slot::SoftFlattening(Fallible(Optional(Option::<V>::None)))
        } else {
            s == Slot::Flattening(Optional(Option::<V>::None))
        },
        Strategy::Boolean => s == Slot::<V>::Boolean(false),
    }
}

/// Builds the freshly constructed, all-empty shadow instance of a record
/// plan.
pub fn empty_shadow<V>(plan: &Vec<FieldPlan>) -> (r: Vec<SlotField<V>>)
    ensures
        r@.len() == plan@.len(),
        forall|i: int| 0 <= i < plan@.len() ==> (#[trigger] r@[i]).name@ == plan@[i].name@,
        forall|i: int|
            0 <= i < plan@.len() ==> empty_slot_for(
                plan@[i].strategy,
                plan@[i].fail_soft,
                (#[trigger] r@[i]).slot,
            ),
{
    let mut out: Vec<SlotField<V>> = Vec::new();
    let mut i: usize = 0;
    while i < plan.len()
        invariant
            i <= plan.len(),
            out@.len() == i,
            forall|j: int| 0 <= j < i ==> (#[trigger] out@[j]).name@ == plan@[j].name@,
            forall|j: int|
                0 <= j < i ==> empty_slot_for(
                    plan@[j].strategy,
                    plan@[j].fail_soft,
                    (#[trigger] out@[j]).slot,
                ),
        decreases plan.len() - i,
    {
        let slot: Slot<V> = match plan[i].strategy {
            Strategy::Required => {
                if plan[i].fail_soft {
                    Slot::SoftRequired(Fallible(None))
                } else {
                    Slot::Required(None)
                }
            },
            Strategy::FlattenOptional => {
                if plan[i].fail_soft {
                    Slot::SoftFlattening(Fallible(Optional(None)))
                } else {
                    Slot::Flattening(Optional(None))
                }
            },
            Strategy::Boolean => Slot::Boolean(false),
        };
        out.push(SlotField { name: plan[i].name.clone(), slot });
        i = i + 1;
    }
    out
}

/// The first slot that fails to open is the one the walk stops at: if the
/// slots before `k` open and the slot at `k` does not, `k` is the first
/// missing position.
proof fn lemma_first_missing_at<V>(fields: Seq<SlotField<V>>, k: int)
    requires
        0 <= k < fields.len(),
        forall|j: int| 0 <= j < k ==> slot_ok((#[trigger] fields[j]).slot),
        !slot_ok(fields[k].slot),
    ensures
        !all_ok(fields),
        first_missing(fields) == k,
    decreases k,
{
    if k > 0 {
        let tail = fields.subrange(1, fields.len() as int);
        assert(forall|j: int| 0 <= j < k - 1 ==> tail[j] == fields[j + 1]);
        assert(tail[k - 1] == fields[k]);
        lemma_first_missing_at(tail, k - 1);
    }
}

/// Resolves a whole record instance, consuming it: the walk the generated
/// `try_open` body performs.  Strict slots short-circuit on the first field
/// that fails to open, reporting that field's name; fail-soft slots always
/// produce a value.  On success every field's value is pinned by its slot.
pub fn resolve_slots<V: DefaultValue>(shadow: Vec<SlotField<V>>) -> (r: Result<
    Vec<FieldOutcome<V>>,
    ResolveError,
>)
    ensures
        all_ok(shadow@) ==> (r matches Ok(vs) && vs@.len() == shadow@.len() && forall|i: int|
            0 <= i < shadow@.len() ==> slot_yields((#[trigger] shadow@[i]).slot, vs@[i])),
        !all_ok(shadow@) ==> (r matches Err(e) && e.field matches Some(f) && f@ == shadow@.index(
            first_missing(shadow@),
        ).name@),
{
    let ghost orig = shadow@;
    let mut rest = shadow;
    let mut out: Vec<FieldOutcome<V>> = Vec::new();
    proof {
        assert(rest@ =~= orig.subrange(0, orig.len() as int));
    }
    while rest.len() > 0
        invariant
            orig == shadow@,
            out@.len() + rest@.len() == orig.len(),
            rest@ =~= orig.subrange(out@.len() as int, orig.len() as int),
            forall|j: int| 0 <= j < out@.len() ==> slot_ok((#[trigger] orig[j]).slot),
            forall|j: int|
                0 <= j < out@.len() ==> slot_yields((#[trigger] orig[j]).slot, out@[j]),
        decreases rest.len(),
    {
        let ghost k = out@.len() as int;
        proof {
            assert(rest@[0] == orig[k]);
        }
        let f = rest.remove(0);
        let outcome: FieldOutcome<V> = match f.slot {
            Slot::Required(mut o) => {
                match o.try_open_with_meta(f.name.as_str()) {
                    Ok(v) => FieldOutcome::Single(v),
                    Err(e) => {
                        proof {
                            lemma_first_missing_at(orig, k);
                        }
                        return Err(e);
                    },
                }
            },
            Slot::Flattening(mut fl) => {
                match fl.try_open_with_meta(f.name.as_str()) {
                    Ok(v) => FieldOutcome::Maybe(v),
                    Err(_) => unreached(),
                }
            },
            Slot::Boolean(mut b) => {
                match b.try_open_with_meta(f.name.as_str()) {
                    Ok(v) => FieldOutcome::Flag(v),
                    Err(_) => unreached(),
                }
            },
            Slot::SoftRequired(mut fb) => FieldOutcome::Single(fb.open_or_default()),
            Slot::SoftFlattening(mut fb) => FieldOutcome::Maybe(fb.open_or_default()),
        };
        out.push(outcome);
        proof {
            assert(rest@ =~= orig.subrange(out@.len() as int, orig.len() as int));
        }
    }
    proof {
        assert(rest@.len() == 0);
        assert(out@.len() == orig.len());
    }
    Ok(out)
}

/// For a record with at least one field whose slots are all plain required
/// slots — no optional-typed, boolean, or fail-soft fields — the freshly
/// constructed empty shadow fails strict resolution, and the failure is
/// charged to the first declared field.
pub proof fn lemma_empty_required_shadow_fails<V>(fields: Seq<SlotField<V>>)
    requires
        fields.len() > 0,
        forall|i: int|
            0 <= i < fields.len() ==> (#[trigger] fields[i]).slot == Slot::Required(
                Option::<V>::None,
            ),
    ensures
        !all_ok(fields),
        first_missing(fields) == 0,
{
    assert(fields[0].slot == Slot::Required(Option::<V>::None));
}

/// Filling every required slot with a value and resolving strictly succeeds,
/// and yields exactly the filled values: the record one would construct
/// directly from them.
pub proof fn lemma_filled_shadow_resolves<V: DefaultValue>(
    fields: Seq<SlotField<V>>,
    outs: Seq<FieldOutcome<V>>,
)
    requires
        forall|i: int|
            0 <= i < fields.len() ==> ((#[trigger] fields[i]).slot matches Slot::Required(o) ==> o
                is Some),
        outs.len() == fields.len(),
        forall|i: int| 0 <= i < fields.len() ==> slot_yields((#[trigger] fields[i]).slot, outs[i]),
    ensures
        all_ok(fields),
        forall|i: int|
            0 <= i < fields.len() ==> ((#[trigger] fields[i]).slot matches Slot::Required(o)
                ==> outs[i] == FieldOutcome::Single(o->0)),
{
}

/// Opening a slot consumes it: a plain optional slot is empty after being
/// opened, so a second opening of the same slot cannot succeed.  Resolution
/// is therefore single-shot; a shadow instance, once resolved, holds no
/// stale data to resolve again.
pub proof fn lemma_open_consumes<V>(o: Option<V>)
    ensures
        o.after_open() is None,
        !o.after_open().open_ok(),
{
}

/// The flattening slot is consumed the same way: after being opened it
/// holds nothing, so a second opening yields only the explicit absence,
/// never the stale value.
pub proof fn lemma_flattening_open_consumes<V>(f: Optional<V>)
    ensures
        f.after_open().0 is None,
        forall|v: Option<V>| f.after_open().yields(v) ==> v is None,
{
}

/// The flattening invariant: a flattening slot set to a value yields exactly
/// that value at a single optional level — never a doubly-wrapped optional —
/// and yields nothing else.
pub proof fn lemma_flattening_yields_exactly<V: DefaultValue>(u: V, out: FieldOutcome<V>)
    ensures
        slot_yields(Slot::Flattening(Optional(Some(u))), FieldOutcome::Maybe(Some(u))),
        slot_yields(Slot::Flattening(Optional(Some(u))), out) ==> out == FieldOutcome::Maybe(
            Some(u),
        ),
{
}

/// The fail-soft invariant: an empty fail-soft required slot resolves — it
/// does not error — and the value it yields is the field type's default.
/// Record-level and field-level fail-soft marking build this same slot, so
/// both are covered.
pub proof fn lemma_fail_soft_defaults<V: DefaultValue>(out: FieldOutcome<V>)
    ensures
        slot_ok(Slot::SoftRequired(Fallible(Option::<V>::None))),
        slot_yields(Slot::SoftRequired(Fallible(Option::<V>::None)), out) ==> (out matches
            FieldOutcome::Single(d) && d.is_default()),
{
}

/// The boolean invariant: a boolean field's slot in a freshly constructed
/// empty shadow holds the default boolean value, opens successfully without
/// being set, and yields exactly that value.
pub proof fn lemma_boolean_field_resolves<V: DefaultValue>(s: Slot<V>, out: FieldOutcome<V>)
    requires
        empty_slot_for(Strategy::Boolean, false, s),
    ensures
        slot_ok(s),
        slot_yields(s, out) <==> out == FieldOutcome::<V>::Flag(false),
{
}

} // verus!
