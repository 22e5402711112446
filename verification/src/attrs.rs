//! Parsing of the two recognized field attributes.
//!
//! A `builder` attribute must carry the exact payload `(each = "<name>")`;
//! any other payload yields a non-blocking diagnostic and the field proceeds
//! as if the attribute were absent.  A `debug` attribute must carry the
//! exact payload `= "<template>"`; any other payload is silently ignored,
//! since only that one key is recognized for this attribute family.

use vstd::prelude::*;

use crate::diag::{Diagnostic, Severity};
use crate::model::{ident_is, FieldDescriptor, RawAttr, Token};

verus! {

/// One recognized attribute occurrence on a field: a key identifier, its
/// string-literal value, and the attribute's source location.
#[derive(Debug, PartialEq, Eq, Clone)]
pub struct AttributeSpec {
    pub key: String,
    pub value: String,
    pub span: usize,
}

/// The message reported for a `builder` attribute with any payload other
/// than `(each = "...")`.
pub open spec fn expected_each_message() -> Seq<char> {
    "expected `builder(each = \"...\")`"@
}

/// The exact accepted shape of a `builder` attribute payload:
/// `( <ident> = "<literal>" )` with nothing trailing.
pub open spec fn builder_payload_wf(toks: Seq<Token>) -> bool {
    &&& toks.len() == 5
    &&& toks[0] is LParen
    &&& toks[1] is Ident
    &&& toks[2] is Equals
    &&& toks[3] is StrLit
    &&& toks[4] is RParen
}

/// A well-formed `builder` payload whose key is `each`.
pub open spec fn builder_payload_each(toks: Seq<Token>) -> bool {
    builder_payload_wf(toks) && toks[1]->Ident_0@ == "each"@
}

/// The accumulator name carried by a well-formed `builder(each = "...")`
/// payload.
pub open spec fn builder_payload_value(toks: Seq<Token>) -> Seq<char> {
    toks[3]->StrLit_0@
}

/// Whether an attribute occurrence belongs to the builder pass.
pub open spec fn is_builder_attr(a: RawAttr) -> bool {
    a.path@ == "builder"@
}

/// A `builder` attribute whose payload is not exactly `(each = "...")`:
/// the one form that draws a non-blocking diagnostic.
pub open spec fn attr_malformed(a: RawAttr) -> bool {
    is_builder_attr(a) && !builder_payload_each(a.tokens@)
}

/// The accumulator name a field's attribute list selects: the value of the
/// last `builder` attribute with a well-formed `each` payload, if any.
pub open spec fn spec_each(attrs: Seq<RawAttr>) -> Option<Seq<char>>
    decreases attrs.len(),
{
    if attrs.len() == 0 {
        None
    } else {
        let last = attrs[attrs.len() - 1];
        if is_builder_attr(last) && builder_payload_each(last.tokens@) {
            Some(builder_payload_value(last.tokens@))
        } else {
            spec_each(attrs.drop_last())
        }
    }
}

/// The source locations, in occurrence order, of the malformed `builder`
/// attributes in a field's attribute list: one diagnostic is owed for each.
pub open spec fn spec_note_spans(attrs: Seq<RawAttr>) -> Seq<int>
    decreases attrs.len(),
{
    if attrs.len() == 0 {
        Seq::empty()
    } else {
        let rest = spec_note_spans(attrs.drop_last());
        let last = attrs[attrs.len() - 1];
        if attr_malformed(last) {
            rest.push(last.span as int)
        } else {
            rest
        }
    }
}

/// Parses the payload of one `builder` attribute.  The only accepted form
/// is `(each = "<name>")`; any other payload is reported as a non-blocking
/// diagnostic tied to the attribute's location.
pub fn parse_builder_attr(a: &RawAttr) -> (r: Result<AttributeSpec, Diagnostic>)
    ensures
        builder_payload_each(a.tokens@) <==> r is Ok,
        r matches Ok(spec) ==> {
            &&& spec.key@ == "each"@
            &&& spec.value@ == builder_payload_value(a.tokens@)
            &&& spec.span == a.span
        },
        r matches Err(d) ==> {
            &&& !d.is_blocking()
            &&& d.message@ == expected_each_message()
            &&& d.span == a.span
        },
{
    if a.tokens.len() == 5 {
        let shape_ok = match (&a.tokens[0], &a.tokens[1], &a.tokens[2], &a.tokens[3], &a.tokens[4]) {
            (
                Token::LParen,
                Token::Ident(key),
                Token::Equals,
                Token::StrLit(_),
                Token::RParen,
            ) => ident_is(key, "each"),
            _ => false,
        };
        if shape_ok {
            let value = match &a.tokens[3] {
                Token::StrLit(v) => v.clone(),
                _ => String::new(),
            };
            return Ok(AttributeSpec { key: "each".to_owned(), value, span: a.span });
        }
    }
    Err(Diagnostic {
        severity: Severity::NonBlocking,
        message: "expected `builder(each = \"...\")`".to_owned(),
        span: a.span,
    })
}

/// Scans a field's attributes for the builder pass: returns the accumulator
/// name selected by the last well-formed `builder(each = "...")` attribute,
/// and one non-blocking diagnostic for every `builder` attribute with any
/// other payload, in occurrence order.
pub fn each_name_of(f: &FieldDescriptor) -> (r: (Option<String>, Vec<Diagnostic>))
    ensures
        match r.0 {
            Some(name) => spec_each(f.attrs@) matches Some(v) && name@ == v,
            None => spec_each(f.attrs@) is None,
        },
        r.1@.map_values(|d: Diagnostic| d.span as int) == spec_note_spans(f.attrs@),
        forall|j: int|
            0 <= j < r.1@.len() ==> !(#[trigger] r.1@[j]).is_blocking()
                && r.1@[j].message@ == expected_each_message(),
{
    let mut found: Option<String> = None;
    let mut notes: Vec<Diagnostic> = Vec::new();
    let n = f.attrs.len();
    for i in 0..n
        invariant
            n == f.attrs@.len(),
            match found {
                Some(name) => spec_each(f.attrs@.take(i as int)) matches Some(v) && name@ == v,
                None => spec_each(f.attrs@.take(i as int)) is None,
            },
            notes@.map_values(|d: Diagnostic| d.span as int) == spec_note_spans(
                f.attrs@.take(i as int),
            ),
            forall|j: int|
                0 <= j < notes@.len() ==> !(#[trigger] notes@[j]).is_blocking()
                    && notes@[j].message@ == expected_each_message(),
    {
        let a = &f.attrs[i];
        proof {
            assert(f.attrs@.take(i + 1).drop_last() =~= f.attrs@.take(i as int));
            assert(f.attrs@.take(i + 1)[i as int] == f.attrs@[i as int]);
        }
        if ident_is(&a.path, "builder") {
            match parse_builder_attr(a) {
                Ok(spec) => {
                    found = Some(spec.value);
                },
                Err(d) => {
                    notes.push(d);
                },
            }
        }
        proof {
            assert(notes@.map_values(|d: Diagnostic| d.span as int) =~= spec_note_spans(
                f.attrs@.take(i + 1),
            ));
        }
    }
    proof {
        assert(f.attrs@.take(n as int) =~= f.attrs@);
    }
    (found, notes)
}

/// Whether an attribute occurrence belongs to the debug pass.
pub open spec fn is_debug_attr(a: RawAttr) -> bool {
    a.path@ == "debug"@
}

/// The exact accepted shape of a `debug` attribute payload:
/// `= "<template>"` with nothing trailing.
pub open spec fn debug_payload_wf(toks: Seq<Token>) -> bool {
    &&& toks.len() == 2
    &&& toks[0] is Equals
    &&& toks[1] is StrLit
}

/// The format template carried by a well-formed `debug` payload.
pub open spec fn debug_payload_value(toks: Seq<Token>) -> Seq<char> {
    toks[1]->StrLit_0@
}

/// The format template a field's attribute list selects: the value of the
/// last `debug` attribute with a well-formed payload, if any.  A `debug`
/// attribute of any other form is silently ignored.
pub open spec fn spec_template(attrs: Seq<RawAttr>) -> Option<Seq<char>>
    decreases attrs.len(),
{
    if attrs.len() == 0 {
        None
    } else {
        let last = attrs[attrs.len() - 1];
        if is_debug_attr(last) && debug_payload_wf(last.tokens@) {
            Some(debug_payload_value(last.tokens@))
        } else {
            spec_template(attrs.drop_last())
        }
    }
}

/// Scans a field's attributes for the debug pass: returns the format
/// template of the last well-formed `debug = "..."` attribute, if any.
pub fn template_of(f: &FieldDescriptor) -> (r: Option<String>)
    ensures
        match r {
            Some(t) => spec_template(f.attrs@) matches Some(v) && t@ == v,
            None => spec_template(f.attrs@) is None,
        },
{
    let mut found: Option<String> = None;
    let n = f.attrs.len();
    for i in 0..n
        invariant
            n == f.attrs@.len(),
            match found {
                Some(t) => spec_template(f.attrs@.take(i as int)) matches Some(v) && t@ == v,
                None => spec_template(f.attrs@.take(i as int)) is None,
            },
    {
        let a = &f.attrs[i];
        proof {
            assert(f.attrs@.take(i + 1).drop_last() =~= f.attrs@.take(i as int));
            assert(f.attrs@.take(i + 1)[i as int] == f.attrs@[i as int]);
        }
        if ident_is(&a.path, "debug") && a.tokens.len() == 2 {
            let payload_ok = match (&a.tokens[0], &a.tokens[1]) {
                (Token::Equals, Token::StrLit(_)) => true,
                _ => false,
            };
            if payload_ok {
                let value = match &a.tokens[1] {
                    Token::StrLit(v) => v.clone(),
                    _ => String::new(),
                };
                found = Some(value);
            }
        }
    }
    proof {
        assert(f.attrs@.take(n as int) =~= f.attrs@);
    }
    found
}

} // verus!
