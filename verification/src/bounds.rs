//! Inference of the generic-parameter bounds the debug rendering needs.
//!
//! The engine walks every field's type expression.  A direct use of a
//! declared parameter — the parameter's name as a whole single-segment path,
//! at any nesting depth outside the marker wrapper — asks for a
//! debug-capability bound on the parameter itself.  A qualified use — a
//! multi-segment path whose leading segment is a parameter — asks instead
//! for a where-clause predicate on that exact path.  Anything nested inside
//! the marker wrapper is excluded: the marker tags a field with a parameter
//! without holding a value of it.

use vstd::prelude::*;

use crate::model::{ident_is, FieldDescriptor, GenericParam, TypeDescriptor, TypeExpr};

verus! {

/// One when the expression is, as a whole, a direct mention of the
/// parameter named `p`.
pub open spec fn self_use(t: TypeExpr, p: Seq<char>) -> nat {
    if t.path@.len() == 1 && t.path@[0]@ == p {
        1nat
    } else {
        0nat
    }
}

/// How often the parameter named `p` is used directly inside `t`, marker
/// contents excluded.
pub open spec fn direct_uses(t: TypeExpr, p: Seq<char>) -> nat
    decreases t,
{
    if t.is_marker_shape() {
        0nat
    } else {
        self_use(t, p) + direct_uses_seq(t.args@, p)
    }
}

/// The direct uses of `p` summed over a sequence of type expressions.
pub open spec fn direct_uses_seq(s: Seq<TypeExpr>, p: Seq<char>) -> nat
    decreases s,
{
    if s.len() == 0 {
        0nat
    } else {
        direct_uses(s[0], p) + direct_uses_seq(s.drop_first(), p)
    }
}

/// The view of a path: its segments as character sequences.
pub open spec fn path_view(p: Seq<String>) -> Seq<Seq<char>> {
    p.map_values(|s: String| s@)
}

/// The names of the declared generic parameters, in declaration order.
pub open spec fn param_names(gs: Seq<GenericParam>) -> Seq<Seq<char>> {
    gs.map_values(|g: GenericParam| g.name@)
}

/// A qualified use: a multi-segment path whose leading segment is one of
/// the declared parameters.
pub open spec fn is_qual_use(t: TypeExpr, params: Seq<Seq<char>>) -> bool {
    t.path@.len() > 1 && params.contains(t.path@[0]@)
}

/// The qualified paths collected from `t`, marker contents excluded.
pub open spec fn qual_paths(t: TypeExpr, params: Seq<Seq<char>>) -> Set<Seq<Seq<char>>>
    decreases t,
{
    if t.is_marker_shape() {
        Set::empty()
    } else {
        let here: Set<Seq<Seq<char>>> = if is_qual_use(t, params) {
            Set::empty().insert(path_view(t.path@))
        } else {
            Set::empty()
        };
        here + qual_paths_seq(t.args@, params)
    }
}

/// The qualified paths collected over a sequence of type expressions.
pub open spec fn qual_paths_seq(s: Seq<TypeExpr>, params: Seq<Seq<char>>) -> Set<Seq<Seq<char>>>
    decreases s,
{
    if s.len() == 0 {
        Set::empty()
    } else {
        qual_paths(s[0], params) + qual_paths_seq(s.drop_first(), params)
    }
}

/// The direct uses of `p` summed over the types of the first `k` fields.
pub open spec fn td_direct_uses(fields: Seq<FieldDescriptor>, p: Seq<char>, k: int) -> nat
    decreases k,
{
    if k <= 0 {
        0nat
    } else {
        td_direct_uses(fields, p, k - 1) + direct_uses(fields[k - 1].ty, p)
    }
}

/// The qualified paths collected over the types of the first `k` fields.
pub open spec fn td_qual_paths(
    fields: Seq<FieldDescriptor>,
    params: Seq<Seq<char>>,
    k: int,
) -> Set<Seq<Seq<char>>>
    decreases k,
{
    if k <= 0 {
        Set::empty()
    } else {
        td_qual_paths(fields, params, k - 1) + qual_paths(fields[k - 1].ty, params)
    }
}

/// Addition capped at the counter's width.
pub open spec fn sat_add(a: nat, b: nat) -> nat {
    if a + b > u64::MAX {
        u64::MAX as nat
    } else {
        a + b
    }
}

/// Extending a walked prefix by one more expression adds that expression's
/// direct uses.
pub proof fn lemma_direct_uses_seq_snoc(s: Seq<TypeExpr>, p: Seq<char>, k: int)
    requires
        0 <= k < s.len(),
    ensures
        direct_uses_seq(s.take(k + 1), p) == direct_uses_seq(s.take(k), p) + direct_uses(s[k], p),
    decreases k,
{
    if k == 0 {
        assert(s.take(1).drop_first() =~= s.take(0));
        assert(s.take(1)[0] == s[0]);
    } else {
        assert(s.take(k + 1).drop_first() =~= s.drop_first().take(k));
        assert(s.take(k).drop_first() =~= s.drop_first().take(k - 1));
        lemma_direct_uses_seq_snoc(s.drop_first(), p, k - 1);
        assert(s.drop_first()[k - 1] == s[k]);
        assert(s.take(k + 1)[0] == s[0]);
        assert(s.take(k)[0] == s[0]);
    }
}

/// Extending a walked prefix by one more expression adds that expression's
/// qualified paths.
pub proof fn lemma_qual_paths_seq_snoc(s: Seq<TypeExpr>, params: Seq<Seq<char>>, k: int)
    requires
        0 <= k < s.len(),
    ensures
        qual_paths_seq(s.take(k + 1), params) == qual_paths_seq(s.take(k), params) + qual_paths(
            s[k],
            params,
        ),
    decreases k,
{
    if k == 0 {
        assert(s.take(1).drop_first() =~= s.take(0));
        assert(s.take(1)[0] == s[0]);
        assert(qual_paths_seq(s.take(0), params) =~= Set::empty());
        assert(qual_paths_seq(s.take(1), params) =~= qual_paths_seq(s.take(0), params)
            + qual_paths(s[0], params));
    } else {
        assert(s.take(k + 1).drop_first() =~= s.drop_first().take(k));
        assert(s.take(k).drop_first() =~= s.drop_first().take(k - 1));
        lemma_qual_paths_seq_snoc(s.drop_first(), params, k - 1);
        assert(s.drop_first()[k - 1] == s[k]);
        assert(s.take(k + 1)[0] == s[0]);
        assert(s.take(k)[0] == s[0]);
        assert(qual_paths_seq(s.take(k + 1), params) =~= qual_paths_seq(s.take(k), params)
            + qual_paths(s[k], params));
    }
}

/// Capped addition composes like plain addition.
pub proof fn lemma_sat_add_assoc(a: nat, m: nat, n: nat)
    ensures
        sat_add(sat_add(a, m), n) == sat_add(a, m + n),
{
}

/// Declared generic parameters carry pairwise distinct names, as they do in
/// any well-formed declaration.
pub open spec fn distinct_params(gs: Seq<GenericParam>) -> bool {
    forall|i: int, j: int|
        0 <= i < j < gs.len() ==> param_names(gs)[i] != param_names(gs)[j]
}

/// No two recorded predicate paths are the same.
pub open spec fn preds_nodup(ps: Seq<Vec<String>>) -> bool {
    forall|i: int, j: int|
        0 <= i < j < ps.len() ==> path_view(ps[i]@) != path_view(ps[j]@)
}

/// The set of recorded predicate paths.
pub open spec fn preds_set(ps: Seq<Vec<String>>) -> Set<Seq<Seq<char>>> {
    ps.map_values(|p: Vec<String>| path_view(p@)).to_set()
}

/// The index of the declared parameter a lone path segment names, if any.
fn find_param(params: &Vec<String>, seg: &String) -> (r: Option<usize>)
    ensures
        match r {
            Some(i) => i < params@.len() && params@[i as int]@ == seg@,
            None => forall|j: int| 0 <= j < params@.len() ==> (#[trigger] params@[j])@ != seg@,
        },
{
    let n = params.len();
    for i in 0..n
        invariant
            n == params@.len(),
            forall|j: int| 0 <= j < i ==> (#[trigger] params@[j])@ != seg@,
    {
        if params[i].eq(seg) {
            return Some(i);
        }
    }
    None
}

/// Whether two paths spell the same segments.
fn path_eq(a: &Vec<String>, b: &Vec<String>) -> (r: bool)
    ensures
        r == (path_view(a@) == path_view(b@)),
{
    if a.len() != b.len() {
        proof {
            assert(path_view(a@).len() != path_view(b@).len());
        }
        return false;
    }
    let n = a.len();
    for i in 0..n
        invariant
            n == a@.len() && n == b@.len(),
            forall|j: int| 0 <= j < i ==> (#[trigger] a@[j])@ == b@[j]@,
    {
        if !a[i].eq(&b[i]) {
            proof {
                assert(path_view(a@)[i as int] != path_view(b@)[i as int]);
            }
            return false;
        }
    }
    proof {
        assert(path_view(a@) =~= path_view(b@));
    }
    true
}

/// A copy of a path, segment by segment.
pub(crate) fn copy_path(p: &Vec<String>) -> (r: Vec<String>)
    ensures
        path_view(r@) == path_view(p@),
{
    let mut out: Vec<String> = Vec::new();
    let n = p.len();
    for i in 0..n
        invariant
            n == p@.len(),
            out@.len() == i,
            forall|j: int| 0 <= j < i ==> (#[trigger] out@[j])@ == p@[j]@,
    {
        out.push(p[i].clone());
    }
    proof {
        assert(path_view(out@) =~= path_view(p@));
    }
    out
}

/// Whether a path is already recorded.
fn contains_path(ps: &Vec<Vec<String>>, p: &Vec<String>) -> (r: bool)
    ensures
        r == preds_set(ps@).contains(path_view(p@)),
{
    let n = ps.len();
    let ghost mapped = ps@.map_values(|q: Vec<String>| path_view(q@));
    for i in 0..n
        invariant
            n == ps@.len(),
            mapped == ps@.map_values(|q: Vec<String>| path_view(q@)),
            forall|j: int| 0 <= j < i ==> #[trigger] mapped[j] != path_view(p@),
    {
        if path_eq(&ps[i], p) {
            proof {
                assert(mapped[i as int] == path_view(p@));
                assert(mapped.contains(path_view(p@)));
            }
            return true;
        }
    }
    proof {
        if preds_set(ps@).contains(path_view(p@)) {
            assert(mapped.contains(path_view(p@)));
            let w = choose|w: int| 0 <= w < mapped.len() && mapped[w] == path_view(p@);
            assert(mapped[w] != path_view(p@));
        }
    }
    false
}

/// The inference result: per declared parameter, how often it is used
/// directly (counted up to the counter's width), and the set of qualified
/// paths that need where-clause predicates, recorded without duplicates.
#[derive(Debug, PartialEq, Eq, Clone)]
pub struct BoundInferenceResult {
    pub counts: Vec<u64>,
    pub predicates: Vec<Vec<String>>,
}

/// One step of the walk: adds the uses and paths found in `t` to the
/// running counters and predicate list.
fn walk_expr(t: &TypeExpr, params: &Vec<String>, counts: &mut Vec<u64>, preds: &mut Vec<Vec<String>>)
    requires
        old(counts)@.len() == params@.len(),
        forall|i: int, j: int|
            0 <= i < j < params@.len() ==> (#[trigger] params@[i])@ != (#[trigger] params@[j])@,
        preds_nodup(old(preds)@),
    ensures
        final(counts)@.len() == params@.len(),
        forall|i: int|
            0 <= i < params@.len() ==> (#[trigger] final(counts)@[i]) as nat == sat_add(
                old(counts)@[i] as nat,
                direct_uses(*t, params@[i]@),
            ),
        preds_nodup(final(preds)@),
        preds_set(final(preds)@) == preds_set(old(preds)@) + qual_paths(
            *t,
            path_view(params@),
        ),
    decreases *t,
{
    let ghost pv = path_view(params@);
    if t.path.len() == 1 && ident_is(&t.path[0], "PhantomData") {
        proof {
            assert(t.is_marker_shape());
            assert(preds_set(preds@) =~= preds_set(preds@) + qual_paths(*t, pv));
            assert forall|i: int| 0 <= i < params@.len() implies (#[trigger] counts@[i]) as nat
                == sat_add(counts@[i] as nat, direct_uses(*t, params@[i]@)) by {
                assert(direct_uses(*t, params@[i]@) == 0);
            }
        }
        return;
    }
    let fp = if t.path.len() >= 1 {
        find_param(params, &t.path[0])
    } else {
        None
    };
    if t.path.len() >= 1 {
        proof {
            match fp {
                Some(i) => {
                    assert(pv[i as int] == t.path@[0]@);
                    assert(pv.contains(t.path@[0]@));
                },
                None => {
                    if pv.contains(t.path@[0]@) {
                        let w = choose|w: int| 0 <= w < pv.len() && pv[w] == t.path@[0]@;
                        assert(params@[w]@ == t.path@[0]@);
                        assert(false);
                    }
                },
            }
        }
    }
    if t.path.len() == 1 {
        match fp {
            Some(i) => {
                let c = counts[i];
                counts[i] = c.saturating_add(1);
                proof {
                    assert forall|j: int| 0 <= j < params@.len() implies (#[trigger] counts@[j])
                        as nat == sat_add(
                        old(counts)@[j] as nat,
                        self_use(*t, params@[j]@),
                    ) by {
                        if j != i as int {
                            assert(params@[j]@ != params@[i as int]@);
                            assert(self_use(*t, params@[j]@) == 0);
                        }
                    }
                }
            },
            None => {
                proof {
                    assert forall|j: int| 0 <= j < params@.len() implies (#[trigger] counts@[j])
                        as nat == sat_add(
                        old(counts)@[j] as nat,
                        self_use(*t, params@[j]@),
                    ) by {
                        assert(params@[j]@ != t.path@[0]@);
                    }
                }
            },
        }
    } else {
        let qualified = match fp {
            Some(_) => true,
            None => false,
        };
        if qualified {
            let path = copy_path(&t.path);
            if !contains_path(preds, &path) {
                let ghost pre = preds@;
                preds.push(path);
                proof {
                    assert(preds@.map_values(|q: Vec<String>| path_view(q@)) =~= pre.map_values(
                        |q: Vec<String>| path_view(q@),
                    ).push(path_view(t.path@)));
                    pre.map_values(|q: Vec<String>| path_view(q@)).lemma_push_to_set_commute(
                        path_view(t.path@),
                    );
                    assert(preds_set(preds@) =~= preds_set(pre).insert(path_view(t.path@)));
                    assert forall|a: int, b: int| 0 <= a < b < preds@.len() implies path_view(
                        (#[trigger] preds@[a])@,
                    ) != path_view((#[trigger] preds@[b])@) by {
                        if b == preds@.len() - 1 {
                            assert(pre.map_values(|q: Vec<String>| path_view(q@))[a] == path_view(
                                pre[a]@,
                            ));
                            assert(!pre.map_values(|q: Vec<String>| path_view(q@)).contains(
                                path_view(t.path@),
                            ));
                        }
                    }
                }
            } else {
                proof {
                    assert(preds_set(preds@) =~= preds_set(preds@).insert(path_view(t.path@)));
                }
            }
        }
    }
    let ghost mid_counts = counts@;
    let ghost mid_preds = preds@;
    proof {
        assert(!t.is_marker_shape());
        assert forall|i: int| 0 <= i < params@.len() implies (#[trigger] mid_counts[i]) as nat
            == sat_add(old(counts)@[i] as nat, self_use(*t, params@[i]@)) by {
            if t.path@.len() != 1 {
                assert(self_use(*t, params@[i]@) == 0);
            }
        }
        assert(preds_set(mid_preds) =~= preds_set(old(preds)@) + (if is_qual_use(*t, pv) {
            Set::empty().insert(path_view(t.path@))
        } else {
            Set::<Seq<Seq<char>>>::empty()
        }));
    }
    let n = t.args.len();
    for j in 0..n
        invariant
            n == t.args@.len(),
            counts@.len() == params@.len(),
            forall|i: int, jj: int|
                0 <= i < jj < params@.len() ==> (#[trigger] params@[i])@ != (#[trigger] params@[jj])@,
            forall|i: int|
                0 <= i < params@.len() ==> (#[trigger] counts@[i]) as nat == sat_add(
                    mid_counts[i] as nat,
                    direct_uses_seq(t.args@.take(j as int), params@[i]@),
                ),
            preds_nodup(preds@),
            preds_set(preds@) == preds_set(mid_preds) + qual_paths_seq(
                t.args@.take(j as int),
                path_view(params@),
            ),
    {
        walk_expr(&t.args[j], params, counts, preds);
        proof {
            lemma_qual_paths_seq_snoc(t.args@, path_view(params@), j as int);
            assert forall|i: int| 0 <= i < params@.len() implies (#[trigger] counts@[i]) as nat
                == sat_add(
                mid_counts[i] as nat,
                direct_uses_seq(t.args@.take(j + 1), params@[i]@),
            ) by {
                lemma_direct_uses_seq_snoc(t.args@, params@[i]@, j as int);
                lemma_sat_add_assoc(
                    mid_counts[i] as nat,
                    direct_uses_seq(t.args@.take(j as int), params@[i]@),
                    direct_uses(t.args@[j as int], params@[i]@),
                );
            }
        }
    }
    proof {
        assert(t.args@.take(n as int) =~= t.args@);
        assert forall|i: int| 0 <= i < params@.len() implies (#[trigger] counts@[i]) as nat
            == sat_add(mid_counts[i] as nat, direct_uses_seq(t.args@, params@[i]@)) by {
            assert(counts@[i] as nat == sat_add(
                mid_counts[i] as nat,
                direct_uses_seq(t.args@.take(n as int), params@[i]@),
            ));
        }
    }
}

/// Walks every field of the description and returns, for each declared
/// generic parameter in order, its direct-use counter, together with the
/// deduplicated qualified-path predicates.
pub fn infer_bounds(td: &TypeDescriptor) -> (r: BoundInferenceResult)
    requires
        distinct_params(td.generics@),
    ensures
        r.counts@.len() == td.generics@.len(),
        forall|i: int|
            0 <= i < td.generics@.len() ==> (#[trigger] r.counts@[i]) as nat == sat_add(
                0,
                td_direct_uses(td.fields@, param_names(td.generics@)[i], td.fields@.len() as int),
            ),
        preds_nodup(r.predicates@),
        preds_set(r.predicates@) == td_qual_paths(
            td.fields@,
            param_names(td.generics@),
            td.fields@.len() as int,
        ),
{
    let mut params: Vec<String> = Vec::new();
    let gn = td.generics.len();
    for i in 0..gn
        invariant
            gn == td.generics@.len(),
            params@.len() == i,
            forall|j: int| 0 <= j < i ==> (#[trigger] params@[j])@ == td.generics@[j].name@,
    {
        params.push(td.generics[i].name.clone());
    }
    proof {
        assert(path_view(params@) =~= param_names(td.generics@));
        assert forall|i: int, j: int|
            0 <= i < j < params@.len() implies (#[trigger] params@[i])@ != (
        #[trigger] params@[j])@ by {
            assert(param_names(td.generics@)[i] == params@[i]@);
            assert(param_names(td.generics@)[j] == params@[j]@);
        }
    }
    let mut counts: Vec<u64> = Vec::new();
    for i in 0..gn
        invariant
            counts@.len() == i,
            forall|j: int| 0 <= j < i ==> (#[trigger] counts@[j]) == 0u64,
    {
        counts.push(0);
    }
    let mut preds: Vec<Vec<String>> = Vec::new();
    let fn_ = td.fields.len();
    for k in 0..fn_
        invariant
            fn_ == td.fields@.len(),
            gn == td.generics@.len(),
            params@.len() == gn,
            path_view(params@) == param_names(td.generics@),
            forall|i: int, j: int|
                0 <= i < j < params@.len() ==> (#[trigger] params@[i])@ != (#[trigger] params@[j])@,
            counts@.len() == gn,
            forall|i: int|
                0 <= i < gn ==> (#[trigger] counts@[i]) as nat == sat_add(
                    0,
                    td_direct_uses(td.fields@, params@[i]@, k as int),
                ),
            preds_nodup(preds@),
            preds_set(preds@) == td_qual_paths(td.fields@, path_view(params@), k as int),
    {
        walk_expr(&td.fields[k].ty, &params, &mut counts, &mut preds);
        proof {
            assert forall|i: int| 0 <= i < gn implies (#[trigger] counts@[i]) as nat == sat_add(
                0,
                td_direct_uses(td.fields@, params@[i]@, k + 1),
            ) by {
                lemma_sat_add_assoc(
                    0,
                    td_direct_uses(td.fields@, params@[i]@, k as int),
                    direct_uses(td.fields@[k as int].ty, params@[i]@),
                );
            }
        }
    }
    proof {
        assert forall|i: int| 0 <= i < gn implies (#[trigger] counts@[i]) as nat == sat_add(
            0,
            td_direct_uses(td.fields@, param_names(td.generics@)[i], fn_ as int),
        ) by {
            assert(param_names(td.generics@)[i] == params@[i]@);
        }
    }
    BoundInferenceResult { counts, predicates: preds }
}

} // verus!
