//! Classification of each field into one of the three builder roles.
//!
//! A field is Repeated when it carries a `builder(each = "...")` attribute,
//! Optional when its declared type has the optional-wrapper shape, and
//! Required otherwise.  A field that is both optional-shaped and carries an
//! `each` attribute is a configuration error: an empty accumulator already
//! represents "no values supplied".  Wrappers that are unwrapped must take
//! exactly one generic argument; any other arity is a configuration error.

use vstd::prelude::*;

use crate::attrs::{
    each_name_of, expected_each_message, spec_each, spec_note_spans,
};
use crate::diag::{Diagnostic, Severity};
use crate::model::{ident_is, FieldDescriptor, TypeExpr};

verus! {

/// The role a field plays in the generated builder, together with the
/// element type after unwrapping.
#[derive(Debug)]
pub enum FieldRole {
    /// The final instance needs a value; leaving it unset is a build-time
    /// error.
    Required(TypeExpr),
    /// Leaving the field unset yields an empty optional in the instance.
    Optional(TypeExpr),
    /// Values are accumulated one by one through a method with the given
    /// name; the instance receives the accumulated sequence.
    Repeated(TypeExpr, String),
}

/// One classified field: its name, source location, and computed role.
#[derive(Debug)]
pub struct ClassifiedField {
    pub name: String,
    pub span: usize,
    pub role: FieldRole,
}

/// The message reported when a field is both optional-shaped and carries an
/// `each` attribute.
pub open spec fn conflict_message() -> Seq<char> {
    "`each` on an optional field: a repeated field is never also optional"@
}

/// The message reported when a wrapper that must be unwrapped does not take
/// exactly one generic argument.
pub open spec fn arity_message() -> Seq<char> {
    "a wrapper must take exactly one generic argument"@
}

/// The Repeated+Optional conflict: an `each` attribute on a field whose
/// declared type has the optional-wrapper shape.
pub open spec fn field_conflict(f: FieldDescriptor) -> bool {
    spec_each(f.attrs@) is Some && f.ty.is_option_shape()
}

/// A wrapper with an unexpected argument count: an `each` field whose type
/// is not a single-segment one-argument wrapper, or an optional-shaped
/// field with other than one argument.
pub open spec fn field_arity_bad(f: FieldDescriptor) -> bool {
    if spec_each(f.attrs@) is Some {
        !f.ty.is_option_shape() && !f.ty.is_unary_wrapper()
    } else {
        f.ty.is_option_shape() && f.ty.args@.len() != 1
    }
}

/// Whether classifying this field abandons generation for the whole type.
pub open spec fn field_blocking(f: FieldDescriptor) -> bool {
    field_conflict(f) || field_arity_bad(f)
}

/// No field before index `k` is blocking.
pub open spec fn no_blocking_before(fields: Seq<FieldDescriptor>, k: int) -> bool {
    forall|j: int| 0 <= j < k ==> !field_blocking(#[trigger] fields[j])
}

/// The classified field a non-blocking field must produce.
pub open spec fn role_matches(f: FieldDescriptor, c: ClassifiedField) -> bool {
    &&& c.name@ == f.name@
    &&& c.span == f.span
    &&& match spec_each(f.attrs@) {
        Some(acc) => c.role matches FieldRole::Repeated(elem, name) && elem == f.ty.args@[0]
            && name@ == acc,
        None => if f.ty.is_option_shape() {
            c.role matches FieldRole::Optional(elem) && elem == f.ty.args@[0]
        } else {
            c.role matches FieldRole::Required(elem) && elem == f.ty
        },
    }
}

/// The source locations of the non-blocking diagnostics owed for the first
/// `k` fields, in occurrence order.
pub open spec fn notes_up_to(fields: Seq<FieldDescriptor>, k: int) -> Seq<int>
    decreases k,
{
    if k <= 0 {
        Seq::empty()
    } else {
        notes_up_to(fields, k - 1) + spec_note_spans(fields[k - 1].attrs@)
    }
}

/// What classification guarantees when it stops at the blocking field `i`.
pub open spec fn classify_err_post(
    fields: Seq<FieldDescriptor>,
    d: Diagnostic,
    notes: Seq<Diagnostic>,
    i: int,
) -> bool {
    &&& 0 <= i < fields.len()
    &&& field_blocking(fields[i])
    &&& no_blocking_before(fields, i)
    &&& d.is_blocking()
    &&& d.span == fields[i].span
    &&& d.message@ == if field_conflict(fields[i]) {
        conflict_message()
    } else {
        arity_message()
    }
    &&& notes.map_values(|n: Diagnostic| n.span as int) == notes_up_to(fields, i + 1)
}

/// The result of classifying a type's fields: the classified list, or the
/// blocking diagnostic of the first offending field; plus the non-blocking
/// diagnostics gathered from malformed `builder` attributes along the way.
#[derive(Debug)]
pub struct ClassifyOutcome {
    pub classified: Result<Vec<ClassifiedField>, Diagnostic>,
    pub notes: Vec<Diagnostic>,
}

/// Classifies every field in declaration order, stopping at the first
/// configuration error.
pub fn classify_fields(fields: Vec<FieldDescriptor>) -> (r: ClassifyOutcome)
    ensures
        match r.classified {
            Ok(cs) => {
                &&& no_blocking_before(fields@, fields@.len() as int)
                &&& cs@.len() == fields@.len()
                &&& forall|i: int|
                    0 <= i < fields@.len() ==> role_matches(fields@[i], #[trigger] cs@[i])
                &&& r.notes@.map_values(|n: Diagnostic| n.span as int) == notes_up_to(
                    fields@,
                    fields@.len() as int,
                )
            },
            Err(d) => exists|i: int| #[trigger]
                classify_err_post(fields@, d, r.notes@, i),
        },
        forall|j: int|
            0 <= j < r.notes@.len() ==> !(#[trigger] r.notes@[j]).is_blocking()
                && r.notes@[j].message@ == expected_each_message(),
{
    let ghost orig = fields@;
    let mut rest = fields;
    let mut out: Vec<ClassifiedField> = Vec::new();
    let mut notes: Vec<Diagnostic> = Vec::new();
    while rest.len() > 0
        invariant
            orig == fields@,
            out@.len() + rest@.len() == orig.len(),
            rest@ =~= orig.skip(out@.len() as int),
            no_blocking_before(orig, out@.len() as int),
            forall|i: int| 0 <= i < out@.len() ==> role_matches(orig[i], #[trigger] out@[i]),
            notes@.map_values(|n: Diagnostic| n.span as int) == notes_up_to(
                orig,
                out@.len() as int,
            ),
            forall|j: int|
                0 <= j < notes@.len() ==> !(#[trigger] notes@[j]).is_blocking()
                    && notes@[j].message@ == expected_each_message(),
        decreases rest@.len(),
    {
        let ghost k = out@.len() as int;
        let f = rest.remove(0);
        proof {
            assert(f == orig[k]);
            assert(rest@ =~= orig.skip(k + 1));
        }
        let (each, field_notes) = each_name_of(&f);
        let mut field_notes = field_notes;
        notes.append(&mut field_notes);
        proof {
            assert(notes@.map_values(|n: Diagnostic| n.span as int) =~= notes_up_to(orig, k + 1));
        }
        let option_shape = f.ty.path.len() == 1 && ident_is(&f.ty.path[0], "Option");
        match each {
            Some(acc) => {
                if option_shape {
                    let d = Diagnostic {
                        severity: Severity::Blocking,
                        message: "`each` on an optional field: a repeated field is never also optional".to_owned(),
                        span: f.span,
                    };
                    proof {
                        assert(classify_err_post(orig, d, notes@, k));
                    }
                    return ClassifyOutcome { classified: Err(d), notes };
                } else if !(f.ty.path.len() == 1 && f.ty.args.len() == 1) {
                    let d = Diagnostic {
                        severity: Severity::Blocking,
                        message: "a wrapper must take exactly one generic argument".to_owned(),
                        span: f.span,
                    };
                    proof {
                        assert(classify_err_post(orig, d, notes@, k));
                    }
                    return ClassifyOutcome { classified: Err(d), notes };
                } else {
                    let FieldDescriptor { name, ty, attrs: _, span } = f;
                    let TypeExpr { path: _, mut args } = ty;
                    let elem = args.remove(0);
                    out.push(ClassifiedField { name, span, role: FieldRole::Repeated(elem, acc) });
                }
            },
            None => {
                if option_shape {
                    if f.ty.args.len() != 1 {
                        let d = Diagnostic {
                            severity: Severity::Blocking,
                            message: "a wrapper must take exactly one generic argument".to_owned(),
                            span: f.span,
                        };
                        proof {
                            assert(classify_err_post(orig, d, notes@, k));
                        }
                        return ClassifyOutcome { classified: Err(d), notes };
                    } else {
                        let FieldDescriptor { name, ty, attrs: _, span } = f;
                        let TypeExpr { path: _, mut args } = ty;
                        let elem = args.remove(0);
                        out.push(ClassifiedField { name, span, role: FieldRole::Optional(elem) });
                    }
                } else {
                    let FieldDescriptor { name, ty, attrs: _, span } = f;
                    out.push(ClassifiedField { name, span, role: FieldRole::Required(ty) });
                }
            },
        }
    }
    proof {
        assert(out@.len() == orig.len());
    }
    ClassifyOutcome { classified: Ok(out), notes }
}

} // verus!
