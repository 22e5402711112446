//! The debug generator: turns a type description and the inferred bounds
//! into a plan for the derived textual-debug rendering.
//!
//! The plan carries, per declared generic parameter, whether the generated
//! implementation must demand the debug capability of the parameter itself;
//! the qualified paths that instead need where-clause predicates; and, per
//! field, the format-template override if one was declared.

use vstd::prelude::*;

use crate::attrs::{spec_template, template_of};
use crate::bounds::{
    copy_path, distinct_params, infer_bounds, param_names, preds_nodup, preds_set, sat_add,
    td_direct_uses, td_qual_paths,
};
use crate::model::TypeDescriptor;

verus! {

/// One generic parameter in the debug plan.
#[derive(Debug, PartialEq, Eq, Clone)]
pub struct DebugParamPlan {
    /// The parameter's identifier.
    pub name: String,
    /// The rendered text of the bounds already on the declaration, carried
    /// through unchanged.
    pub carried_bounds: Vec<String>,
    /// Whether the generated implementation adds a debug-capability bound
    /// directly on this parameter.
    pub needs_debug_bound: bool,
}

/// One field in the debug plan.
#[derive(Debug, PartialEq, Eq, Clone)]
pub struct DebugFieldPlan {
    pub name: String,
    /// The declared format template, if the field carries one.
    pub template: Option<String>,
}

/// The planned debug rendering for one record type.
#[derive(Debug, PartialEq, Eq, Clone)]
pub struct DebugPlan {
    pub record_name: String,
    pub params: Vec<DebugParamPlan>,
    /// The qualified paths that must support the debug capability, as
    /// where-clause predicates, deduplicated by path identity.
    pub where_paths: Vec<Vec<String>>,
    pub fields: Vec<DebugFieldPlan>,
}

/// Everything the debug generator guarantees of its result.
pub open spec fn debug_gen_post(td: TypeDescriptor, r: DebugPlan) -> bool {
    &&& r.record_name@ == td.name@
    &&& r.params@.len() == td.generics@.len()
    &&& forall|i: int|
        0 <= i < td.generics@.len() ==> (#[trigger] r.params@[i]).name@ == td.generics@[i].name@
    &&& forall|i: int|
        0 <= i < td.generics@.len() ==> crate::bounds::path_view(
            (#[trigger] r.params@[i]).carried_bounds@,
        ) == crate::bounds::path_view(td.generics@[i].bounds@)
    &&& forall|i: int|
        0 <= i < td.generics@.len() ==> ((#[trigger] r.params@[i]).needs_debug_bound
            <==> td_direct_uses(
            td.fields@,
            param_names(td.generics@)[i],
            td.fields@.len() as int,
        ) > 0)
    &&& preds_nodup(r.where_paths@)
    &&& preds_set(r.where_paths@) == td_qual_paths(
        td.fields@,
        param_names(td.generics@),
        td.fields@.len() as int,
    )
    &&& r.fields@.len() == td.fields@.len()
    &&& forall|i: int|
        0 <= i < td.fields@.len() ==> (#[trigger] r.fields@[i]).name@ == td.fields@[i].name@
    &&& forall|i: int|
        0 <= i < td.fields@.len() ==> match (#[trigger] r.fields@[i]).template {
            Some(t) => spec_template(td.fields@[i].attrs@) matches Some(v) && t@ == v,
            None => spec_template(td.fields@[i].attrs@) is None,
        }
}

/// Derives the debug plan for one record type: field order and templates,
/// and the minimal bound set — a direct debug-capability bound exactly on
/// the parameters with at least one direct use outside the marker wrapper,
/// and one where-clause predicate per distinct qualified path.
pub fn generate_debug(td: &TypeDescriptor) -> (r: DebugPlan)
    requires
        distinct_params(td.generics@),
    ensures
        debug_gen_post(*td, r),
{
    let inferred = infer_bounds(td);
    let mut params: Vec<DebugParamPlan> = Vec::new();
    let gn = td.generics.len();
    for i in 0..gn
        invariant
            gn == td.generics@.len(),
            inferred.counts@.len() == gn,
            forall|j: int|
                0 <= j < gn ==> (#[trigger] inferred.counts@[j]) as nat == sat_add(
                    0,
                    td_direct_uses(
                        td.fields@,
                        param_names(td.generics@)[j],
                        td.fields@.len() as int,
                    ),
                ),
            params@.len() == i,
            forall|j: int|
                0 <= j < i ==> (#[trigger] params@[j]).name@ == td.generics@[j].name@,
            forall|j: int|
                0 <= j < i ==> crate::bounds::path_view((#[trigger] params@[j]).carried_bounds@)
                    == crate::bounds::path_view(td.generics@[j].bounds@),
            forall|j: int|
                0 <= j < i ==> ((#[trigger] params@[j]).needs_debug_bound <==> td_direct_uses(
                    td.fields@,
                    param_names(td.generics@)[j],
                    td.fields@.len() as int,
                ) > 0),
    {
        let g = &td.generics[i];
        params.push(
            DebugParamPlan {
                name: g.name.clone(),
                carried_bounds: copy_path(&g.bounds),
                needs_debug_bound: inferred.counts[i] > 0,
            },
        );
    }
    let mut fields: Vec<DebugFieldPlan> = Vec::new();
    let n = td.fields.len();
    for i in 0..n
        invariant
            n == td.fields@.len(),
            fields@.len() == i,
            forall|j: int|
                0 <= j < i ==> (#[trigger] fields@[j]).name@ == td.fields@[j].name@,
            forall|j: int|
                0 <= j < i ==> match (#[trigger] fields@[j]).template {
                    Some(t) => spec_template(td.fields@[j].attrs@) matches Some(v) && t@ == v,
                    None => spec_template(td.fields@[j].attrs@) is None,
                },
    {
        let f = &td.fields[i];
        fields.push(DebugFieldPlan { name: f.name.clone(), template: template_of(f) });
    }
    DebugPlan {
        record_name: td.name.clone(),
        params,
        where_paths: inferred.predicates,
        fields,
    }
}

/// Bound-inference exactness: the marker wrapper's contents never count, a
/// qualified use never adds a direct bound, and a parameter receives the
/// direct debug-capability bound exactly when it has a direct use.
pub proof fn lemma_bound_inference_exact(td: TypeDescriptor, r: DebugPlan, i: int)
    requires
        debug_gen_post(td, r),
        0 <= i < td.generics@.len(),
    ensures
        td_direct_uses(td.fields@, param_names(td.generics@)[i], td.fields@.len() as int) == 0
            ==> !r.params@[i].needs_debug_bound,
        td_direct_uses(td.fields@, param_names(td.generics@)[i], td.fields@.len() as int) > 0
            ==> r.params@[i].needs_debug_bound,
        preds_set(r.where_paths@) == td_qual_paths(
            td.fields@,
            param_names(td.generics@),
            td.fields@.len() as int,
        ),
{
}

/// A marker-shaped expression contributes no direct use and no predicate:
/// its whole subtree is excluded from the walk.
pub proof fn lemma_marker_excluded(
    t: crate::model::TypeExpr,
    p: Seq<char>,
    params: Seq<Seq<char>>,
)
    requires
        t.is_marker_shape(),
    ensures
        crate::bounds::direct_uses(t, p) == 0,
        crate::bounds::qual_paths(t, params) =~= Set::<Seq<Seq<char>>>::empty(),
{
}

/// A qualified use of a parameter is recorded as a predicate on the exact
/// path and never increments the parameter's direct-use count.
pub proof fn lemma_qual_use_not_direct(t: crate::model::TypeExpr, p: Seq<char>)
    requires
        t.path@.len() > 1,
    ensures
        crate::bounds::self_use(t, p) == 0,
{
}

} // verus!
