//! An executable model of the planned debug rendering.
//!
//! The generated rendering is ordinary code of the host toolchain; its
//! semantic content — the struct-style layout, the per-field template
//! overrides, and the default representation of each field value — is
//! modelled here.  The model's formatting facility renders plain word values
//! in decimal, and supports single-placeholder templates whose placeholder
//! asks for the default or the binary form; a template on a wrapper-shaped
//! value keeps the default rendering.

use vstd::prelude::*;

use crate::builder_run::{FieldValue, FieldValueV, Instance};
use crate::debug_gen::{DebugFieldPlan, DebugPlan};

verus! {

/// The character for one digit value below ten.
pub open spec fn digit_char(d: nat) -> char {
    if d == 0 {
        '0'
    } else if d == 1 {
        '1'
    } else if d == 2 {
        '2'
    } else if d == 3 {
        '3'
    } else if d == 4 {
        '4'
    } else if d == 5 {
        '5'
    } else if d == 6 {
        '6'
    } else if d == 7 {
        '7'
    } else if d == 8 {
        '8'
    } else {
        '9'
    }
}

/// The decimal digits of a value, most significant first.
pub open spec fn dec_chars(v: nat) -> Seq<char>
    decreases v,
{
    if v < 10 {
        seq![digit_char(v)]
    } else {
        dec_chars(v / 10).push(digit_char(v % 10))
    }
}

/// The binary digits of a value, most significant first.
pub open spec fn bin_chars(v: nat) -> Seq<char>
    decreases v,
{
    if v < 2 {
        seq![digit_char(v)]
    } else {
        bin_chars(v / 2).push(digit_char(v % 2))
    }
}

/// The first position at or after `from` holding the character `c`.
pub open spec fn first_index_of(s: Seq<char>, c: char, from: int) -> Option<int>
    decreases s.len() - from,
{
    if from < 0 || from >= s.len() {
        None
    } else if s[from] == c {
        Some(from)
    } else {
        first_index_of(s, c, from + 1)
    }
}

/// A single-placeholder template applied to a word value: the text before
/// the first `{`, then the value — binary when the placeholder is `{:b}`,
/// decimal otherwise — then the text after the matching `}`.  A template
/// without a placeholder renders as itself.
pub open spec fn spec_apply_template(t: Seq<char>, v: nat) -> Seq<char> {
    match first_index_of(t, '{', 0) {
        None => t,
        Some(i) => match first_index_of(t, '}', i + 1) {
            None => t,
            Some(j) => {
                let form = t.subrange(i + 1, j);
                let rendered = if form == ":b"@ {
                    bin_chars(v)
                } else {
                    dec_chars(v)
                };
                t.subrange(0, i) + rendered + t.subrange(j + 1, t.len() as int)
            },
        },
    }
}

/// The default representation of one field value.
pub open spec fn spec_render_value(v: FieldValueV) -> Seq<char> {
    match v {
        FieldValueV::OneV(x) => dec_chars(x as nat),
        FieldValueV::MaybeOneV(o) => match o {
            None => "None"@,
            Some(x) => "Some("@ + dec_chars(x as nat) + ")"@,
        },
        FieldValueV::ManyV(s) => "["@ + spec_list_chars(s, s.len() as int) + "]"@,
    }
}

/// The comma-separated renderings of the first `k` sequence elements.
pub open spec fn spec_list_chars(s: Seq<u64>, k: int) -> Seq<char>
    decreases k,
{
    if k <= 0 {
        Seq::empty()
    } else if k == 1 {
        dec_chars(s[0] as nat)
    } else {
        spec_list_chars(s, k - 1) + ", "@ + dec_chars(s[k - 1] as nat)
    }
}

/// One rendered field value: through the declared template when the field
/// carries one and holds a plain word, with the default representation
/// otherwise.
pub open spec fn spec_render_field(template: Option<Seq<char>>, v: FieldValueV) -> Seq<char> {
    match template {
        None => spec_render_value(v),
        Some(t) => match v {
            FieldValueV::OneV(x) => spec_apply_template(t, x as nat),
            _ => spec_render_value(v),
        },
    }
}

/// One `name: value` entry of the rendered record.
pub open spec fn spec_field_entry(f: DebugFieldPlan, v: FieldValueV) -> Seq<char> {
    f.name@ + ": "@ + spec_render_field(
        match f.template {
            Some(t) => Some(t@),
            None => None,
        },
        v,
    )
}

/// The comma-separated entries of the first `k` fields.
pub open spec fn spec_entries(fields: Seq<DebugFieldPlan>, values: Seq<FieldValueV>, k: int) -> Seq<
    char,
>
    decreases k,
{
    if k <= 0 {
        Seq::empty()
    } else if k == 1 {
        spec_field_entry(fields[0], values[0])
    } else {
        spec_entries(fields, values, k - 1) + ", "@ + spec_field_entry(fields[k - 1], values[k - 1])
    }
}

/// The rendered record: the name alone when it has no fields, and the
/// conventional named-struct layout otherwise.
pub open spec fn spec_render_instance(plan: DebugPlan, values: Seq<FieldValueV>) -> Seq<char> {
    if plan.fields@.len() == 0 {
        plan.record_name@
    } else {
        plan.record_name@ + " { "@ + spec_entries(
            plan.fields@,
            values,
            plan.fields@.len() as int,
        ) + " }"@
    }
}

/// One digit as text.
fn digit_str(d: u64) -> (r: String)
    requires
        d < 10,
    ensures
        r@ =~= seq![digit_char(d as nat)],
{
    let r: String = if d == 0 {
        "0".to_owned()
    } else if d == 1 {
        "1".to_owned()
    } else if d == 2 {
        "2".to_owned()
    } else if d == 3 {
        "3".to_owned()
    } else if d == 4 {
        "4".to_owned()
    } else if d == 5 {
        "5".to_owned()
    } else if d == 6 {
        "6".to_owned()
    } else if d == 7 {
        "7".to_owned()
    } else if d == 8 {
        "8".to_owned()
    } else {
        "9".to_owned()
    };
    proof {
        reveal_strlit("0");
        reveal_strlit("1");
        reveal_strlit("2");
        reveal_strlit("3");
        reveal_strlit("4");
        reveal_strlit("5");
        reveal_strlit("6");
        reveal_strlit("7");
        reveal_strlit("8");
        reveal_strlit("9");
    }
    r
}

/// The decimal rendering of a word value.
pub fn render_dec(v: u64) -> (r: String)
    ensures
        r@ == dec_chars(v as nat),
    decreases v,
{
    if v < 10 {
        digit_str(v)
    } else {
        proof {
            assert(v / 10 < v) by (nonlinear_arith)
                requires
                    v >= 10,
            ;
        }
        let high = render_dec(v / 10);
        let low = digit_str(v % 10);
        let r = high.concat(low.as_str());
        proof {
            assert(r@ =~= dec_chars((v / 10) as nat).push(digit_char((v % 10) as nat)));
        }
        r
    }
}

/// The binary rendering of a word value.
pub fn render_bin(v: u64) -> (r: String)
    ensures
        r@ == bin_chars(v as nat),
    decreases v,
{
    if v < 2 {
        digit_str(v)
    } else {
        proof {
            assert(v / 2 < v) by (nonlinear_arith)
                requires
                    v >= 2,
            ;
        }
        let high = render_bin(v / 2);
        let low = digit_str(v % 2);
        let r = high.concat(low.as_str());
        proof {
            assert(r@ =~= bin_chars((v / 2) as nat).push(digit_char((v % 2) as nat)));
        }
        r
    }
}

/// The scan behind the exec search: nothing found up to the first hit.
proof fn lemma_first_index_found(s: Seq<char>, c: char, from: int, i: int)
    requires
        0 <= from <= i < s.len(),
        s[i] == c,
        forall|k: int| from <= k < i ==> s[k] != c,
    ensures
        first_index_of(s, c, from) == Some(i),
    decreases i - from,
{
    if from < i {
        lemma_first_index_found(s, c, from + 1, i);
    }
}

/// The scan finds nothing exactly when the character does not occur.
proof fn lemma_first_index_none(s: Seq<char>, c: char, from: int)
    requires
        0 <= from,
        forall|k: int| from <= k < s.len() ==> s[k] != c,
    ensures
        first_index_of(s, c, from) is None,
    decreases s.len() - from,
{
    if from < s.len() {
        lemma_first_index_none(s, c, from + 1);
    }
}

/// The position of the first occurrence of `c` at or after `from`.
fn find_char(s: &str, c: char, from: usize) -> (r: Option<usize>)
    requires
        from <= s@.len(),
    ensures
        match r {
            Some(i) => from <= i && i < s@.len() && first_index_of(s@, c, from as int) == Some(
                i as int,
            ),
            None => first_index_of(s@, c, from as int) is None,
        },
{
    let n = s.unicode_len();
    let mut i = from;
    while i < n
        invariant
            from <= i <= n,
            n == s@.len(),
            forall|k: int| from <= k < i ==> s@[k] != c,
        decreases n - i,
    {
        if s.get_char(i) == c {
            proof {
                lemma_first_index_found(s@, c, from as int, i as int);
            }
            return Some(i);
        }
        i += 1;
    }
    proof {
        lemma_first_index_none(s@, c, from as int);
    }
    None
}

/// Applies a single-placeholder template to a word value.
pub fn apply_template(t: &str, v: u64) -> (r: String)
    ensures
        r@ == spec_apply_template(t@, v as nat),
{
    let n = t.unicode_len();
    let i = match find_char(t, '{', 0) {
        Some(i) => i,
        None => {
            return t.to_owned();
        },
    };
    let j = match find_char(t, '}', i + 1) {
        Some(j) => j,
        None => {
            return t.to_owned();
        },
    };
    let form = t.substring_char(i + 1, j);
    let binary = {
        let owned: String = form.to_owned();
        owned.eq(&":b".to_owned())
    };
    let rendered = if binary {
        render_bin(v)
    } else {
        render_dec(v)
    };
    let prefix = t.substring_char(0, i);
    let suffix = t.substring_char(j + 1, n);
    let r = prefix.to_owned().concat(rendered.as_str()).concat(suffix);
    proof {
        assert(r@ =~= spec_apply_template(t@, v as nat));
    }
    r
}

/// The default rendering of one field value.
pub fn render_value(v: &FieldValue) -> (r: String)
    ensures
        r@ == spec_render_value(crate::builder_run::fv_view(*v)),
{
    match v {
        FieldValue::One(x) => render_dec(*x),
        FieldValue::MaybeOne(o) => match o {
            None => "None".to_owned(),
            Some(x) => {
                let r = "Some(".to_owned().concat(render_dec(*x).as_str()).concat(")");
                proof {
                    assert(r@ =~= "Some("@ + dec_chars(*x as nat) + ")"@);
                }
                r
            },
        },
        FieldValue::Many(vs) => {
            let mut body: String = String::new();
            let n = vs.len();
            for k in 0..n
                invariant
                    n == vs@.len(),
                    body@ == spec_list_chars(vs@, k as int),
            {
                if k == 0 {
                    let d = render_dec(vs[0]);
                    body.append(d.as_str());
                } else {
                    body.append(", ");
                    let d = render_dec(vs[k]);
                    body.append(d.as_str());
                }
                proof {
                    assert(body@ =~= spec_list_chars(vs@, k + 1));
                }
            }
            let r = "[".to_owned().concat(body.as_str()).concat("]");
            proof {
                assert(r@ =~= "["@ + spec_list_chars(vs@, vs@.len() as int) + "]"@);
            }
            r
        },
    }
}

/// One rendered field value, with the template override when it applies.
pub fn render_field(f: &DebugFieldPlan, v: &FieldValue) -> (r: String)
    ensures
        r@ == spec_render_field(
            match f.template {
                Some(t) => Some(t@),
                None => None,
            },
            crate::builder_run::fv_view(*v),
        ),
{
    match (&f.template, v) {
        (Some(t), FieldValue::One(x)) => apply_template(t.as_str(), *x),
        _ => render_value(v),
    }
}

/// Renders a built instance in the conventional named-struct debug layout:
/// the record name, then every `field: value` entry in declaration order.
pub fn render_instance(plan: &DebugPlan, inst: &Instance) -> (r: String)
    requires
        inst.values@.len() == plan.fields@.len(),
    ensures
        r@ == spec_render_instance(
            *plan,
            inst.values@.map_values(|v: FieldValue| crate::builder_run::fv_view(v)),
        ),
{
    let ghost vals = inst.values@.map_values(|v: FieldValue| crate::builder_run::fv_view(v));
    let n = plan.fields.len();
    if n == 0 {
        return plan.record_name.clone();
    }
    let mut body: String = String::new();
    for k in 0..n
        invariant
            n == plan.fields@.len(),
            n == inst.values@.len(),
            vals == inst.values@.map_values(|v: FieldValue| crate::builder_run::fv_view(v)),
            body@ == spec_entries(plan.fields@, vals, k as int),
    {
        if k > 0 {
            body.append(", ");
        }
        let f = &plan.fields[k];
        body.append(f.name.as_str());
        body.append(": ");
        let rv = render_field(f, &inst.values[k]);
        body.append(rv.as_str());
        proof {
            assert(vals[k as int] == crate::builder_run::fv_view(inst.values@[k as int]));
            assert(body@ =~= spec_entries(plan.fields@, vals, k + 1));
        }
    }
    let r = plan.record_name.clone().concat(" { ").concat(body.as_str()).concat(" }");
    proof {
        assert(r@ =~= spec_render_instance(*plan, vals));
    }
    r
}

/// A field with the pass-through template renders exactly as the bare value
/// does with the default facility.
pub proof fn lemma_plain_template_is_default(v: u64)
    ensures
        spec_apply_template("{}"@, v as nat) == spec_render_value(FieldValueV::OneV(v)),
{
    reveal_strlit("{}");
    reveal_strlit(":b");
    let t = "{}"@;
    assert(first_index_of(t, '{', 0) == Some(0int));
    assert(first_index_of(t, '}', 1) == Some(1int));
    assert(t.subrange(1, 1).len() == 0);
    assert(t.subrange(1, 1) != ":b"@);
    assert(spec_apply_template(t, v as nat) =~= dec_chars(v as nat));
}

/// With a binary template the rendering is the literal prefix followed by
/// the facility's binary digits of the value.
pub proof fn lemma_binary_template(v: u64)
    ensures
        spec_apply_template("0b{:b}"@, v as nat) == "0b"@ + bin_chars(v as nat),
{
    reveal_strlit("0b{:b}");
    reveal_strlit("0b");
    reveal_strlit(":b");
    let t = "0b{:b}"@;
    assert(first_index_of(t, '{', 2) == Some(2int));
    assert(first_index_of(t, '{', 1) == Some(2int));
    assert(first_index_of(t, '{', 0) == Some(2int));
    assert(first_index_of(t, '}', 5) == Some(5int));
    assert(first_index_of(t, '}', 4) == Some(5int));
    assert(first_index_of(t, '}', 3) == Some(5int));
    assert(t.subrange(3, 5) =~= ":b"@);
    assert(t.subrange(6, 6).len() == 0);
    assert(spec_apply_template(t, v as nat) =~= "0b"@ + bin_chars(v as nat));
}

} // verus!
