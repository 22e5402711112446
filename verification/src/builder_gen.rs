//! The builder generator: turns a type description into a plan for the
//! derived builder, or into a blocking diagnostic when a structural
//! precondition is violated.
//!
//! The plan is the semantic content of the generated code: one slot per
//! field in declaration order, each with the method through which values
//! arrive and the rule applied to it at build time.  Rendering the plan as
//! source text is the host toolchain's concern.

use vstd::prelude::*;

use crate::attrs::{expected_each_message, spec_each};
use crate::classify::{
    classify_err_post, classify_fields, notes_up_to, no_blocking_before, ClassifiedField,
    FieldRole,
};
use crate::diag::Diagnostic;
use crate::model::{FieldDescriptor, TypeDescriptor, TypeExpr};

verus! {

/// How a planned builder slot is laid out and checked at build time.
#[derive(Debug, PartialEq, Eq, Clone, Copy)]
pub enum SlotKind {
    /// An initially empty single-value slot; still empty at build time is an
    /// error naming the field.
    RequiredSingle,
    /// An initially empty single-value slot; still empty at build time
    /// yields an empty optional in the instance.
    OptionalSingle,
    /// An initially empty sequence slot filled one element per accumulator
    /// call; the instance receives the accumulated sequence.
    Many,
}

/// One field of the planned builder.
#[derive(Debug)]
pub struct BuilderFieldPlan {
    /// The record field the slot feeds.
    pub field_name: String,
    /// The builder method that fills the slot: the field's own name for a
    /// single-value slot, the declared accumulator name for a sequence slot.
    pub method_name: String,
    /// The element type stored in the slot, after unwrapping.
    pub elem: TypeExpr,
    pub kind: SlotKind,
}

/// The planned builder for one record type.
#[derive(Debug)]
pub struct BuilderPlan {
    pub record_name: String,
    /// The builder type's name: the record's name followed by `Builder`.
    pub builder_name: String,
    pub fields: Vec<BuilderFieldPlan>,
}

/// The generator's result: the plan, absent when a blocking diagnostic
/// abandoned generation, plus all diagnostics gathered on the way.
#[derive(Debug)]
pub struct BuilderOutcome {
    pub plan: Option<BuilderPlan>,
    pub diagnostics: Vec<Diagnostic>,
}

/// The slot a field of the description must receive in the plan.
pub open spec fn plan_field_for(f: FieldDescriptor, p: BuilderFieldPlan) -> bool {
    &&& p.field_name@ == f.name@
    &&& match spec_each(f.attrs@) {
        Some(acc) => p.kind is Many && p.elem == f.ty.args@[0] && p.method_name@ == acc,
        None => if f.ty.is_option_shape() {
            p.kind is OptionalSingle && p.elem == f.ty.args@[0] && p.method_name@ == f.name@
        } else {
            p.kind is RequiredSingle && p.elem == f.ty && p.method_name@ == f.name@
        },
    }
}

/// Everything the builder generator guarantees of its result.
pub open spec fn builder_gen_post(td: TypeDescriptor, r: BuilderOutcome) -> bool {
    &&& (r.plan is Some) <==> no_blocking_before(td.fields@, td.fields@.len() as int)
    &&& (r.plan matches Some(plan) ==> {
        &&& plan.record_name@ == td.name@
        &&& plan.builder_name@ == td.name@ + "Builder"@
        &&& plan.fields@.len() == td.fields@.len()
        &&& forall|i: int|
            0 <= i < td.fields@.len() ==> plan_field_for(td.fields@[i], #[trigger] plan.fields@[i])
        &&& r.diagnostics@.map_values(|n: Diagnostic| n.span as int) == notes_up_to(
            td.fields@,
            td.fields@.len() as int,
        )
        &&& forall|j: int|
            0 <= j < r.diagnostics@.len() ==> !(#[trigger] r.diagnostics@[j]).is_blocking()
                && r.diagnostics@[j].message@ == expected_each_message()
    })
    &&& (r.plan is None ==> {
        &&& r.diagnostics@.len() > 0
        &&& exists|i: int| #[trigger] classify_err_post(
            td.fields@,
            r.diagnostics@.last(),
            r.diagnostics@.drop_last(),
            i,
        )
        &&& forall|j: int|
            0 <= j < r.diagnostics@.len() - 1 ==> !(#[trigger] r.diagnostics@[j]).is_blocking()
                && r.diagnostics@[j].message@ == expected_each_message()
    })
}

/// Derives the builder plan for one record type.  Fields are processed in
/// declaration order; the first configuration error (a Repeated+Optional
/// conflict, or a wrapper of unexpected arity) abandons generation and is
/// returned as the final, blocking diagnostic.  The description is consumed:
/// the plan takes over the fields' element type expressions.
pub fn generate_builder(td: TypeDescriptor) -> (r: BuilderOutcome)
    ensures
        builder_gen_post(td, r),
{
    let TypeDescriptor { name, generics: _, fields } = td;
    let ghost fv = fields@;
    let outcome = classify_fields(fields);
    let mut notes = outcome.notes;
    match outcome.classified {
        Err(d) => {
            let ghost pre = notes@;
            let ghost gd = d;
            notes.push(d);
            proof {
                let i0 = choose|i: int| classify_err_post(fv, gd, pre, i);
                assert(notes@.drop_last() =~= pre);
                assert(notes@.last() == gd);
                assert(classify_err_post(fv, notes@.last(), notes@.drop_last(), i0));
            }
            BuilderOutcome { plan: None, diagnostics: notes }
        },
        Ok(cs) => {
            let builder_name = name.clone().concat("Builder");
            let ghost gcs = cs@;
            let mut rest = cs;
            let mut pfs: Vec<BuilderFieldPlan> = Vec::new();
            while rest.len() > 0
                invariant
                    gcs.len() == fv.len(),
                    forall|i: int|
                        0 <= i < fv.len() ==> crate::classify::role_matches(
                            fv[i],
                            #[trigger] gcs[i],
                        ),
                    pfs@.len() + rest@.len() == gcs.len(),
                    rest@ =~= gcs.skip(pfs@.len() as int),
                    forall|i: int|
                        0 <= i < pfs@.len() ==> plan_field_for(fv[i], #[trigger] pfs@[i]),
                decreases rest@.len(),
            {
                let ghost k = pfs@.len() as int;
                let c = rest.remove(0);
                proof {
                    assert(c == gcs[k]);
                    assert(rest@ =~= gcs.skip(k + 1));
                }
                let ClassifiedField { name: fname, span: _, role } = c;
                match role {
                    FieldRole::Required(t) => {
                        let method_name = fname.clone();
                        pfs.push(
                            BuilderFieldPlan {
                                field_name: fname,
                                method_name,
                                elem: t,
                                kind: SlotKind::RequiredSingle,
                            },
                        );
                    },
                    FieldRole::Optional(t) => {
                        let method_name = fname.clone();
                        pfs.push(
                            BuilderFieldPlan {
                                field_name: fname,
                                method_name,
                                elem: t,
                                kind: SlotKind::OptionalSingle,
                            },
                        );
                    },
                    FieldRole::Repeated(t, acc) => {
                        pfs.push(
                            BuilderFieldPlan {
                                field_name: fname,
                                method_name: acc,
                                elem: t,
                                kind: SlotKind::Many,
                            },
                        );
                    },
                }
            }
            BuilderOutcome {
                plan: Some(BuilderPlan { record_name: name, builder_name, fields: pfs }),
                diagnostics: notes,
            }
        },
    }
}

/// Conflict detection: a field whose declared type has the optional-wrapper
/// shape and which also carries an `each` accumulator always yields a
/// blocking diagnostic and no generated builder.
pub proof fn lemma_conflict_yields_blocking(td: TypeDescriptor, r: BuilderOutcome, i: int)
    requires
        builder_gen_post(td, r),
        0 <= i < td.fields@.len(),
        spec_each(td.fields@[i].attrs@) is Some,
        td.fields@[i].ty.is_option_shape(),
    ensures
        r.plan is None,
        r.diagnostics@.len() > 0,
        r.diagnostics@.last().is_blocking(),
{
    assert(crate::classify::field_conflict(td.fields@[i]));
    assert(crate::classify::field_blocking(td.fields@[i]));
    assert(!no_blocking_before(td.fields@, td.fields@.len() as int));
    let j = choose|j: int|
        classify_err_post(td.fields@, r.diagnostics@.last(), r.diagnostics@.drop_last(), j);
    assert(classify_err_post(td.fields@, r.diagnostics@.last(), r.diagnostics@.drop_last(), j));
}

} // verus!
