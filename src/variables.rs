//! Variables: the `variables` table of a document is taken out, its `$name`
//! references are resolved to literal tokens, its expressions evaluated, and
//! every `$name` and expression in the rest of the document is replaced.
use vstd::prelude::*;

use crate::color::{canonical_hex, upper_digits};
use crate::expr::{evaluate_chars, expr_value, ExprError, ExprFault};
use crate::table::{
    find_key, key_at, key_index, lemma_key_index, lemma_same_keys_index, lookup, same_keys,
    table_view,
};
use crate::text::{append_str, chars_equal, chars_of, find_char, find_char_in, slice_chars};
use crate::expr::{expr_fault_text, quoted};
use crate::value::{lemma_array_view, lemma_table_view, Doc, Value};

verus! {

broadcast use {vstd::seq::axiom_seq_index_decreases, vstd::seq::axiom_seq_subrange_decreases};

/// A resolution problem, with its text as characters.
pub enum ResolveFault {
    NotATable,
    NonString(Seq<char>),
    Undefined(Seq<char>, Option<Seq<char>>),
    Cyclic(Seq<Seq<char>>),
    InVariable(Seq<char>, ExprFault),
    InExpression(Seq<char>, ExprFault),
}

/// Why the variables of a document could not be resolved.
#[derive(Clone, Debug, PartialEq, Eq)]
pub enum ResolveError {
    /// The `variables` entry is not a table.
    NotATable,
    /// This variable's value is not a string.
    NonString(String),
    /// `$name` names no variable; `from` is the variable that refers to it,
    /// when the reference stands in the variables table.
    Undefined { name: String, from: Option<String> },
    /// These variables are still references after resolution: they lie on
    /// or lead into a cycle.
    Cyclic(Vec<String>),
    /// The expression held by this variable failed.
    InVariable { name: String, error: ExprError },
    /// This expression, written in the document body, failed.
    InExpression { text: String, error: ExprError },
}

pub open spec fn names_view(names: Seq<String>) -> Seq<Seq<char>> {
    names.map_values(|s: String| s@)
}

impl View for ResolveError {
    type V = ResolveFault;

    open spec fn view(&self) -> ResolveFault {
        match self {
            ResolveError::NotATable => ResolveFault::NotATable,
            ResolveError::NonString(k) => ResolveFault::NonString(k@),
            ResolveError::Undefined { name, from } => ResolveFault::Undefined(
                name@,
                match from {
                    Some(f) => Some(f@),
                    None => None,
                },
            ),
            ResolveError::Cyclic(names) => ResolveFault::Cyclic(names_view(names@)),
            ResolveError::InVariable { name, error } => ResolveFault::InVariable(name@, error@),
            ResolveError::InExpression { text, error } => ResolveFault::InExpression(
                text@,
                error@,
            ),
        }
    }
}

/// A table of variables: names and values, as characters.
pub type Vars = Seq<(Seq<char>, Seq<char>)>;

/// A value of the form `$name`.
pub open spec fn is_ref(v: Seq<char>) -> bool {
    v.len() > 0 && v[0] == '$'
}

/// One resolution step: a reference to a known variable becomes that
/// variable's value; anything else stays.
pub open spec fn step(t: Vars, v: Seq<char>) -> Seq<char> {
    if is_ref(v) {
        match lookup(t, v.drop_first()) {
            Some(w) => w,
            None => v,
        }
    } else {
        v
    }
}

/// `v` after `n` resolution steps.
pub open spec fn chase(t: Vars, v: Seq<char>, n: nat) -> Seq<char>
    decreases n,
{
    if n == 0 {
        v
    } else {
        chase(t, step(t, v), (n - 1) as nat)
    }
}

/// `v` after as many steps as the table has entries.
pub open spec fn settled(t: Vars, v: Seq<char>) -> Seq<char> {
    chase(t, v, t.len())
}

/// Entry `i` refers to a name that no entry has.
pub open spec fn dangling(t: Vars, i: int) -> bool {
    is_ref(t[i].1) && lookup(t, t[i].1.drop_first()) is None
}

/// Every reference in the table names an entry.
pub open spec fn closed(t: Vars) -> bool {
    forall|i: int| 0 <= i < t.len() ==> !#[trigger] dangling(t, i)
}

pub open spec fn first_dangling(t: Vars, i: int) -> bool {
    &&& 0 <= i < t.len()
    &&& dangling(t, i)
    &&& forall|j: int| 0 <= j < i ==> !#[trigger] dangling(t, j)
}

/// Names of the first `n` entries that settle to a reference.
pub open spec fn cyclic_upto(t: Vars, n: nat) -> Seq<Seq<char>>
    decreases n,
{
    if n == 0 {
        Seq::empty()
    } else {
        let prev = cyclic_upto(t, (n - 1) as nat);
        if is_ref(settled(t, t[n - 1].1)) {
            prev.push(t[n - 1].0)
        } else {
            prev
        }
    }
}

pub open spec fn settled_table(t: Vars) -> Vars {
    Seq::new(t.len(), |i: int| (t[i].0, settled(t, t[i].1)))
}

pub open spec fn is_ascii_alpha(c: char) -> bool {
    ('a' <= c <= 'z') || ('A' <= c <= 'Z')
}

/// The expression heuristic: a `(` somewhere and an ASCII letter first.
pub open spec fn looks_like_call(s: Seq<char>) -> bool {
    find_char(s, '(') >= 0 && s.len() > 0 && is_ascii_alpha(s[0])
}

/// Entry `i` of a resolved table after expression evaluation.
pub open spec fn evaluated(r: Vars, i: int) -> Result<Seq<char>, ExprFault> {
    if looks_like_call(r[i].1) {
        expr_value(r[i].1, r)
    } else {
        Ok(r[i].1)
    }
}

pub open spec fn first_failing(r: Vars, i: int) -> bool {
    &&& 0 <= i < r.len()
    &&& evaluated(r, i) is Err
    &&& forall|j: int| 0 <= j < i ==> #[trigger] evaluated(r, j) is Ok
}

/// Expression results of a resolved table, each read against the table.
#[verifier::opaque]
pub open spec fn expressions_result(r: Vars) -> Result<Vars, ResolveFault> {
    if exists|i: int| first_failing(r, i) {
        let i = choose|i: int| first_failing(r, i);
        Err(ResolveFault::InVariable(r[i].0, evaluated(r, i)->Err_0))
    } else {
        Ok(Seq::new(r.len(), |i: int| (r[i].0, evaluated(r, i)->Ok_0)))
    }
}

/// The outcome of resolving a variables table: a reference to an unknown
/// name fails first; then every variable that settles to a reference is
/// reported as cyclic; then expressions are evaluated.
pub open spec fn variables_result(t: Vars) -> Result<Vars, ResolveFault> {
    if exists|i: int| first_dangling(t, i) {
        let i = choose|i: int| first_dangling(t, i);
        Err(ResolveFault::Undefined(t[i].1.drop_first(), Some(t[i].0)))
    } else if cyclic_upto(t, t.len()).len() > 0 {
        Err(ResolveFault::Cyclic(cyclic_upto(t, t.len())))
    } else {
        expressions_result(settled_table(t))
    }
}

pub open spec fn vars_result(r: Result<Vec<(String, String)>, ResolveError>) -> Result<
    Vars,
    ResolveFault,
> {
    match r {
        Ok(v) => Ok(table_view(v@)),
        Err(e) => Err(e@),
    }
}

fn is_ref_exec(cs: &[char]) -> (r: bool)
    ensures
        r == is_ref(cs@),
{
    cs.len() > 0 && cs[0] == '$'
}

/// Checks that every `$name` value names a variable.
fn check_references(vars: &Vec<(String, String)>) -> (r: Result<(), ResolveError>)
    ensures
        r is Ok <==> closed(table_view(vars@)),
        r is Err ==> exists|i: int|
            first_dangling(table_view(vars@), i) && r->Err_0@ == ResolveFault::Undefined(
                table_view(vars@)[i].1.drop_first(),
                Some(table_view(vars@)[i].0),
            ),
{
    let ghost t = table_view(vars@);
    let mut i: usize = 0;
    while i < vars.len()
        invariant
            i <= vars@.len(),
            t == table_view(vars@),
            forall|j: int| 0 <= j < i ==> !#[trigger] dangling(t, j),
        decreases vars@.len() - i,
    {
        let value = chars_of(vars[i].1.as_str());
        if is_ref_exec(&value) {
            let name = slice_chars(&value, 1, value.len());
            assert(name@ == t[i as int].1.drop_first());
            if find_key(vars, &name).is_none() {
                proof {
                    lemma_key_index(t, name@);
                    assert(dangling(t, i as int));
                    assert(first_dangling(t, i as int));
                }
                return Err(
                    ResolveError::Undefined {
                        name: crate::text::string_of(&name),
                        from: Some(vars[i].0.clone()),
                    },
                );
            }
        }
        i = i + 1;
    }
    Ok(())
}

/// One pass: every reference is replaced by the current value of the
/// variable it names, read from `cur`; the result is a new table.
fn pass(cur: &Vec<(String, String)>) -> (r: (Vec<(String, String)>, bool))
    ensures
        same_keys(table_view(r.0@), table_view(cur@)),
        forall|i: int|
            0 <= i < cur@.len() ==> #[trigger] table_view(r.0@)[i].1 == step(
                table_view(cur@),
                table_view(cur@)[i].1,
            ),
        !r.1 ==> table_view(r.0@) == table_view(cur@),
{
    let ghost c = table_view(cur@);
    let mut next: Vec<(String, String)> = Vec::new();
    let mut changed = false;
    let mut i: usize = 0;
    while i < cur.len()
        invariant
            i <= cur@.len(),
            c == table_view(cur@),
            next@.len() == i,
            forall|j: int| 0 <= j < i ==> #[trigger] next@[j].0@ == c[j].0,
            forall|j: int| 0 <= j < i ==> #[trigger] next@[j].1@ == step(c, c[j].1),
            !changed ==> forall|j: int| 0 <= j < i ==> #[trigger] next@[j].1@ == c[j].1,
        decreases cur@.len() - i,
    {
        let value = chars_of(cur[i].1.as_str());
        let replaced: String = if is_ref_exec(&value) {
            let name = slice_chars(&value, 1, value.len());
            assert(name@ == c[i as int].1.drop_first());
            match find_key(cur, &name) {
                Some(j) => cur[j].1.clone(),
                None => cur[i].1.clone(),
            }
        } else {
            cur[i].1.clone()
        };
        assert(replaced@ == step(c, c[i as int].1));
        if !(replaced == cur[i].1) {
            changed = true;
        }
        next.push((cur[i].0.clone(), replaced));
        i = i + 1;
    }
    proof {
        assert forall|j: int| 0 <= j < next@.len() implies #[trigger] table_view(next@)[j] == (
        next@[j].0@, next@[j].1@) by {}
        if !changed {
            assert(table_view(next@) =~= c);
        }
    }
    (next, changed)
}

/// Replaces references by the values they lead to, in passes over a stable
/// snapshot, at most one pass more than there are variables.
fn resolve_references(vars: Vec<(String, String)>) -> (r: Vec<(String, String)>)
    requires
        closed(table_view(vars@)),
    ensures
        same_keys(table_view(r@), table_view(vars@)),
        forall|i: int|
            0 <= i < vars@.len() ==> (is_ref(#[trigger] table_view(r@)[i].1) <==> is_ref(
                settled(table_view(vars@), table_view(vars@)[i].1),
            )),
        forall|i: int|
            0 <= i < vars@.len() && !is_ref(#[trigger] table_view(r@)[i].1) ==> table_view(
                r@,
            )[i].1 == settled(table_view(vars@), table_view(vars@)[i].1),
{
    let ghost t = table_view(vars@);
    let n = vars.len();
    let mut cur = vars;
    let ghost mut s: nat = 0;
    let mut p: usize = 0;
    proof {
        assert forall|i: int| 0 <= i < n implies #[trigger] table_view(cur@)[i].1 == chase(
            t,
            t[i].1,
            s,
        ) by {}
    }
    loop
        invariant
            closed(t),
            n == t.len(),
            p <= n,
            s >= p,
            same_keys(table_view(cur@), t),
            forall|i: int| 0 <= i < n ==> #[trigger] table_view(cur@)[i].1 == chase(t, t[i].1, s),
        ensures
            closed(t),
            n == t.len(),
            same_keys(table_view(cur@), t),
            forall|i: int| 0 <= i < n ==> #[trigger] table_view(cur@)[i].1 == chase(t, t[i].1, s),
            s > n || forall|i: int|
                0 <= i < n ==> step(table_view(cur@), #[trigger] table_view(cur@)[i].1)
                    == table_view(cur@)[i].1,
        decreases n - p,
    {
        let (next, changed) = pass(&cur);
        proof {
            let c = table_view(cur@);
            assert forall|i: int| 0 <= i < n implies #[trigger] table_view(next@)[i].1 == chase(
                t,
                t[i].1,
                2 * s + 1,
            ) by {
                lemma_pass_doubles(t, c, s, i);
            }
            if !changed {
                assert forall|i: int| 0 <= i < n implies step(
                    table_view(next@),
                    #[trigger] table_view(next@)[i].1,
                ) == table_view(next@)[i].1 by {
                    assert(table_view(next@)[i].1 == step(c, c[i].1));
                }
            }
            assert forall|i: int| 0 <= i < n implies #[trigger] table_view(next@)[i].0 == t[i].0 by {
                assert(table_view(next@)[i].0 == c[i].0);
            }
        }
        cur = next;
        proof {
            s = 2 * s + 1;
        }
        if !changed {
            break;
        }
        if p == n {
            break;
        }
        p = p + 1;
    }
    proof {
        assert forall|i: int| 0 <= i < n implies (is_ref(#[trigger] table_view(cur@)[i].1)
            <==> is_ref(settled(t, t[i].1))) && (!is_ref(table_view(cur@)[i].1) ==> table_view(
            cur@,
        )[i].1 == settled(t, t[i].1)) by {
            lemma_final_value(t, table_view(cur@), s, i);
        }
    }
    cur
}

/// Names of the variables that settled to a reference.
fn cyclic_names(cur: &Vec<(String, String)>, Ghost(t): Ghost<Vars>) -> (r: Vec<String>)
    requires
        cur@.len() == t.len(),
        forall|i: int|
            0 <= i < t.len() ==> (is_ref(#[trigger] table_view(cur@)[i].1) <==> is_ref(
                settled(t, t[i].1),
            )),
        same_keys(table_view(cur@), t),
    ensures
        names_view(r@) == cyclic_upto(t, t.len()),
{
    let mut names: Vec<String> = Vec::new();
    let mut i: usize = 0;
    while i < cur.len()
        invariant
            i <= cur@.len(),
            cur@.len() == t.len(),
            forall|k: int|
                0 <= k < t.len() ==> (is_ref(#[trigger] table_view(cur@)[k].1) <==> is_ref(
                    settled(t, t[k].1),
                )),
            same_keys(table_view(cur@), t),
            names@.len() == cyclic_upto(t, i as nat).len(),
            forall|k: int| 0 <= k < names@.len() ==> #[trigger] names@[k]@ == cyclic_upto(t, i as nat)[k],
        decreases cur@.len() - i,
    {
        let value = chars_of(cur[i].1.as_str());
        assert(table_view(cur@)[i as int].0 == t[i as int].0);
        assert(table_view(cur@)[i as int].1 == value@);
        if is_ref_exec(&value) {
            names.push(cur[i].0.clone());
        }
        i = i + 1;
    }
    assert(names_view(names@) =~= cyclic_upto(t, t.len()));
    names
}

fn looks_like_call_exec(cs: &[char]) -> (r: bool)
    ensures
        r == looks_like_call(cs@),
{
    let has_paren = find_char_in(cs, '(').is_some();
    has_paren && cs.len() > 0 && (('a' <= cs[0] && cs[0] <= 'z') || ('A' <= cs[0] && cs[0] <= 'Z'))
}

/// Returns true if `s` looks like a color expression: it holds a `(` and
/// starts with an ASCII letter.
pub fn is_expr(s: &str) -> (r: bool)
    ensures
        r == looks_like_call(s@),
{
    let cs = chars_of(s);
    looks_like_call_exec(&cs)
}

/// Evaluates the expressions of a resolved table, each against the table.
fn evaluate_expressions(r: &Vec<(String, String)>) -> (out: Result<
    Vec<(String, String)>,
    ResolveError,
>)
    ensures
        vars_result(out) == expressions_result(table_view(r@)),
{
    proof {
        reveal(expressions_result);
    }
    let ghost t = table_view(r@);
    let mut out: Vec<(String, String)> = Vec::new();
    let mut i: usize = 0;
    while i < r.len()
        invariant
            i <= r@.len(),
            t == table_view(r@),
            out@.len() == i,
            forall|j: int| 0 <= j < i ==> #[trigger] evaluated(t, j) is Ok,
            forall|j: int| 0 <= j < i ==> #[trigger] out@[j].0@ == t[j].0,
            forall|j: int| 0 <= j < i ==> #[trigger] out@[j].1@ == evaluated(t, j)->Ok_0,
        decreases r@.len() - i,
    {
        let value = chars_of(r[i].1.as_str());
        assert(t[i as int] == (r@[i as int].0@, r@[i as int].1@));
        if looks_like_call_exec(&value) {
            match evaluate_chars(&value, r) {
                Ok(w) => {
                    out.push((r[i].0.clone(), w));
                },
                Err(e) => {
                    proof {
                        assert(value@ == t[i as int].1);
                        assert(evaluated(t, i as int) == Err::<Seq<char>, ExprFault>(e@));
                        assert(first_failing(t, i as int));
                        lemma_first_failing_unique(t, i as int);
                    }
                    let name = r[i].0.clone();
                    let err = ResolveError::InVariable { name, error: e };
                    proof {
                        reveal(expressions_result);
                        assert(name@ == t[i as int].0);
                        assert(err@ == ResolveFault::InVariable(t[i as int].0, evaluated(t, i as int)->Err_0));
                        assert(expressions_result(t) == Err::<Vars, ResolveFault>(err@));
                    }
                    return Err(err);
                },
            }
        } else {
            out.push((r[i].0.clone(), r[i].1.clone()));
        }
        i = i + 1;
    }
    proof {
        assert forall|i: int| !first_failing(t, i) by {
            if 0 <= i < t.len() {
                assert(evaluated(t, i) is Ok);
            }
        }
        assert(table_view(out@) =~= Seq::new(t.len(), |i: int| (t[i].0, evaluated(t, i)->Ok_0)));
    }
    Ok(out)
}

/// Resolves a variables table: references to other variables are replaced
/// by the literal they lead to, then expressions are evaluated.
pub fn evaluate(vars: Vec<(String, String)>) -> (r: Result<Vec<(String, String)>, ResolveError>)
    ensures
        vars_result(r) == variables_result(table_view(vars@)),
{
    let ghost t = table_view(vars@);
    match check_references(&vars) {
        Ok(()) => {},
        Err(e) => {
            proof {
                lemma_first_dangling_unique(t);
            }
            return Err(e);
        },
    }
    proof {
        assert forall|i: int| !first_dangling(t, i) by {
            if 0 <= i < t.len() {
                assert(!dangling(t, i));
            }
        }
    }
    let resolved = resolve_references(vars);
    let names = cyclic_names(&resolved, Ghost(t));
    if names.len() > 0 {
        return Err(ResolveError::Cyclic(names));
    }
    proof {
        assert forall|i: int| 0 <= i < t.len() implies #[trigger] table_view(resolved@)[i]
            == settled_table(t)[i] by {
            lemma_cyclic_upto_contains(t, t.len(), i);
            assert(table_view(resolved@)[i].0 == t[i].0);
            assert(!is_ref(table_view(resolved@)[i].1));
        }
        assert(table_view(resolved@) =~= settled_table(t));
    }
    evaluate_expressions(&resolved)
}

/// What substitution makes of a document node: a `$name` string becomes the
/// variable's value, an expression string its result; arrays and tables are
/// walked in order and the first failure is reported.
pub open spec fn substituted(d: Doc, vars: Vars) -> Result<Doc, ResolveFault>
    decreases d,
{
    match d {
        Doc::Str(s) => if is_ref(s) {
            match lookup(vars, s.drop_first()) {
                Some(w) => Ok(Doc::Str(w)),
                None => Err(ResolveFault::Undefined(s.drop_first(), None)),
            }
        } else if looks_like_call(s) {
            match expr_value(s, vars) {
                Ok(w) => Ok(Doc::Str(w)),
                Err(e) => Err(ResolveFault::InExpression(s, e)),
            }
        } else {
            Ok(d)
        },
        Doc::Array(a) => match substituted_items(a, vars) {
            Ok(b) => Ok(Doc::Array(b)),
            Err(e) => Err(e),
        },
        Doc::Table(t) => match substituted_entries(t, vars) {
            Ok(u) => Ok(Doc::Table(u)),
            Err(e) => Err(e),
        },
        _ => Ok(d),
    }
}

pub open spec fn substituted_items(a: Seq<Doc>, vars: Vars) -> Result<Seq<Doc>, ResolveFault>
    decreases a,
{
    if a.len() == 0 {
        Ok(Seq::empty())
    } else {
        match substituted_items(a.subrange(0, a.len() - 1), vars) {
            Err(e) => Err(e),
            Ok(p) => match substituted(a[a.len() - 1], vars) {
                Err(e) => Err(e),
                Ok(x) => Ok(p.push(x)),
            },
        }
    }
}

pub open spec fn substituted_entries(t: Seq<(Seq<char>, Doc)>, vars: Vars) -> Result<
    Seq<(Seq<char>, Doc)>,
    ResolveFault,
>
    decreases t,
{
    if t.len() == 0 {
        Ok(Seq::empty())
    } else {
        match substituted_entries(t.subrange(0, t.len() - 1), vars) {
            Err(e) => Err(e),
            Ok(p) => match substituted(t[t.len() - 1].1, vars) {
                Err(e) => Err(e),
                Ok(x) => Ok(p.push((t[t.len() - 1].0, x))),
            },
        }
    }
}

proof fn lemma_items_error_spreads(a: Seq<Doc>, m: int, vars: Vars)
    requires
        0 <= m <= a.len(),
        substituted_items(a.subrange(0, m), vars) is Err,
    ensures
        substituted_items(a, vars) == substituted_items(a.subrange(0, m), vars),
    decreases a.len() - m,
{
    if m < a.len() {
        let b = a.subrange(0, m + 1);
        assert(b.subrange(0, m) =~= a.subrange(0, m));
        lemma_items_error_spreads(a, m + 1, vars);
    } else {
        assert(a.subrange(0, m) =~= a);
    }
}

proof fn lemma_entries_error_spreads(t: Seq<(Seq<char>, Doc)>, m: int, vars: Vars)
    requires
        0 <= m <= t.len(),
        substituted_entries(t.subrange(0, m), vars) is Err,
    ensures
        substituted_entries(t, vars) == substituted_entries(t.subrange(0, m), vars),
    decreases t.len() - m,
{
    if m < t.len() {
        let b = t.subrange(0, m + 1);
        assert(b.subrange(0, m) =~= t.subrange(0, m));
        lemma_entries_error_spreads(t, m + 1, vars);
    } else {
        assert(t.subrange(0, m) =~= t);
    }
}

pub open spec fn doc_result(r: Result<Value, ResolveError>) -> Result<Doc, ResolveFault> {
    match r {
        Ok(v) => Ok(v@),
        Err(e) => Err(e@),
    }
}

/// A copy of `v` with references and expressions replaced.
fn substituted_value(v: &Value, vars: &Vec<(String, String)>) -> (r: Result<Value, ResolveError>)
    ensures
        doc_result(r) == substituted(v@, table_view(vars@)),
    decreases v,
{
    let ghost tv = table_view(vars@);
    match v {
        Value::String(s) => {
            let cs = chars_of(s.as_str());
            if is_ref_exec(&cs) {
                let name = slice_chars(&cs, 1, cs.len());
                assert(name@ == s@.drop_first());
                match find_key(vars, &name) {
                    Some(j) => Ok(Value::String(vars[j].1.clone())),
                    None => {
                        proof {
                            lemma_key_index(tv, name@);
                        }
                        Err(ResolveError::Undefined { name: crate::text::string_of(&name), from: None })
                    },
                }
            } else if looks_like_call_exec(&cs) {
                match evaluate_chars(&cs, vars) {
                    Ok(w) => Ok(Value::String(w)),
                    Err(e) => Err(ResolveError::InExpression { text: s.clone(), error: e }),
                }
            } else {
                Ok(Value::String(s.clone()))
            }
        },
        Value::Integer(n) => Ok(Value::Integer(*n)),
        Value::Float(x) => Ok(Value::Float(*x)),
        Value::Boolean(b) => Ok(Value::Boolean(*b)),
        Value::Datetime(s) => Ok(Value::Datetime(s.clone())),
        Value::Array(items) => {
            proof {
                lemma_array_view(*v);
            }
            let ghost a = v@->Array_0;
            let mut out: Vec<Value> = Vec::new();
            let mut i: usize = 0;
            assert(a.subrange(0, 0) =~= Seq::<Doc>::empty());
            while i < items.len()
                invariant
                    i <= items@.len(),
                    *v == Value::Array(*items),
                    tv == table_view(vars@),
                    a == v@->Array_0,
                    a.len() == items@.len(),
                    forall|k: int| 0 <= k < items@.len() ==> #[trigger] a[k] == items@[k]@,
                    out@.len() == i,
                    substituted_items(a.subrange(0, i as int), tv) is Ok,
                    substituted_items(a.subrange(0, i as int), tv)->Ok_0.len() == i,
                    forall|k: int|
                        0 <= k < i ==> #[trigger] out@[k]@ == substituted_items(
                            a.subrange(0, i as int),
                            tv,
                        )->Ok_0[k],
                decreases items@.len() - i,
            {
                let ghost prev = substituted_items(a.subrange(0, i as int), tv)->Ok_0;
                let ghost next = a.subrange(0, i + 1);
                assert(next.subrange(0, i as int) =~= a.subrange(0, i as int));
                assert(next[i as int] == items@[i as int]@);
                proof {
                    vstd::std_specs::vec::axiom_vec_index_decreases(*items, i as int);
                }
                match substituted_value(&items[i], vars) {
                    Ok(w) => {
                        out.push(w);
                        assert(substituted_items(next, tv) == Ok::<Seq<Doc>, ResolveFault>(
                            prev.push(w@),
                        ));
                    },
                    Err(e) => {
                        proof {
                            lemma_items_error_spreads(a, i + 1, tv);
                        }
                        return Err(e);
                    },
                }
                i = i + 1;
            }
            let r = Value::Array(out);
            proof {
                lemma_array_view(r);
                assert(a.subrange(0, a.len() as int) =~= a);
                assert(r@->Array_0 =~= substituted_items(a, tv)->Ok_0);
            }
            Ok(r)
        },
        Value::Table(entries) => {
            proof {
                lemma_table_view(*v);
            }
            let ghost t = v@->Table_0;
            let mut out: Vec<(String, Value)> = Vec::new();
            let mut i: usize = 0;
            assert(t.subrange(0, 0) =~= Seq::<(Seq<char>, Doc)>::empty());
            while i < entries.len()
                invariant
                    i <= entries@.len(),
                    *v == Value::Table(*entries),
                    tv == table_view(vars@),
                    t == v@->Table_0,
                    t.len() == entries@.len(),
                    forall|k: int|
                        0 <= k < entries@.len() ==> #[trigger] t[k] == (
                            entries@[k].0@,
                            entries@[k].1@,
                        ),
                    out@.len() == i,
                    substituted_entries(t.subrange(0, i as int), tv) is Ok,
                    substituted_entries(t.subrange(0, i as int), tv)->Ok_0.len() == i,
                    forall|k: int|
                        0 <= k < i ==> (#[trigger] out@[k].0@, out@[k].1@) == substituted_entries(
                            t.subrange(0, i as int),
                            tv,
                        )->Ok_0[k],
                decreases entries@.len() - i,
            {
                let ghost prev = substituted_entries(t.subrange(0, i as int), tv)->Ok_0;
                let ghost next = t.subrange(0, i + 1);
                assert(next.subrange(0, i as int) =~= t.subrange(0, i as int));
                assert(next[i as int] == (entries@[i as int].0@, entries@[i as int].1@));
                proof {
                    vstd::std_specs::vec::axiom_vec_index_decreases(*entries, i as int);
                }
                match substituted_value(&entries[i].1, vars) {
                    Ok(w) => {
                        out.push((entries[i].0.clone(), w));
                        assert(substituted_entries(next, tv) == Ok::<
                            Seq<(Seq<char>, Doc)>,
                            ResolveFault,
                        >(prev.push((entries@[i as int].0@, w@))));
                    },
                    Err(e) => {
                        proof {
                            lemma_entries_error_spreads(t, i + 1, tv);
                        }
                        return Err(e);
                    },
                }
                i = i + 1;
            }
            let r = Value::Table(out);
            proof {
                lemma_table_view(r);
                assert(t.subrange(0, t.len() as int) =~= t);
                assert(r@->Table_0 =~= substituted_entries(t, tv)->Ok_0);
            }
            Ok(r)
        },
    }
}

/// Replaces, throughout `value`, every `$name` string by the variable's
/// value and every expression string by its result.
pub fn substitute(value: &mut Value, vars: &Vec<(String, String)>) -> (r: Result<(), ResolveError>)
    ensures
        match r {
            Ok(()) => substituted(old(value)@, table_view(vars@)) == Ok::<Doc, ResolveFault>(
                final(value)@,
            ),
            Err(e) => substituted(old(value)@, table_view(vars@)) == Err::<Doc, ResolveFault>(
                e@,
            ),
        },
{
    let w = substituted_value(value, vars)?;
    *value = w;
    Ok(())
}

pub open spec fn variables_key() -> Seq<char> {
    seq!['v', 'a', 'r', 'i', 'a', 'b', 'l', 'e', 's']
}

/// The document without its `variables` entry.
pub open spec fn without_variables(d: Doc) -> Doc {
    match d {
        Doc::Table(t) => {
            let i = key_index(t, variables_key());
            if 0 <= i < t.len() {
                Doc::Table(t.remove(i))
            } else {
                d
            }
        },
        _ => d,
    }
}

pub open spec fn first_non_string(vt: Seq<(Seq<char>, Doc)>, j: int) -> bool {
    &&& 0 <= j < vt.len()
    &&& !(vt[j].1 is Str)
    &&& forall|k: int| 0 <= k < j ==> #[trigger] vt[k].1 is Str
}

/// The entries of a variables table, each of which must hold a string.
pub open spec fn vars_of_table(vt: Seq<(Seq<char>, Doc)>) -> Result<Vars, ResolveFault> {
    if exists|j: int| first_non_string(vt, j) {
        let j = choose|j: int| first_non_string(vt, j);
        Err(ResolveFault::NonString(vt[j].0))
    } else {
        Ok(Seq::new(vt.len(), |j: int| (vt[j].0, vt[j].1->Str_0)))
    }
}

/// The variables table of a document: empty when there is none; every
/// entry must hold a string.
pub open spec fn extracted(d: Doc) -> Result<Vars, ResolveFault> {
    match d {
        Doc::Table(t) => {
            let i = key_index(t, variables_key());
            if 0 <= i < t.len() {
                match t[i].1 {
                    Doc::Table(vt) => vars_of_table(vt),
                    _ => Err(ResolveFault::NotATable),
                }
            } else {
                Ok(Seq::empty())
            }
        },
        _ => Ok(Seq::empty()),
    }
}

fn variables_table(vt: &Vec<(String, Value)>) -> (r: Result<Vec<(String, String)>, ResolveError>)
    ensures
        vars_result(r) == vars_of_table(Seq::new(vt@.len(), |j: int| (vt@[j].0@, vt@[j].1@))),
{
    let ghost s = Seq::new(vt@.len(), |j: int| (vt@[j].0@, vt@[j].1@));
    let mut out: Vec<(String, String)> = Vec::new();
    let mut i: usize = 0;
    while i < vt.len()
        invariant
            i <= vt@.len(),
            s == Seq::new(vt@.len(), |j: int| (vt@[j].0@, vt@[j].1@)),
            out@.len() == i,
            forall|k: int| 0 <= k < i ==> #[trigger] s[k].1 is Str,
            forall|k: int| 0 <= k < i ==> (#[trigger] out@[k].0@, out@[k].1@) == (s[k].0, s[k].1->Str_0),
        decreases vt@.len() - i,
    {
        match &vt[i].1 {
            Value::String(text) => {
                out.push((vt[i].0.clone(), text.clone()));
            },
            _ => {
                proof {
                    assert(first_non_string(s, i as int));
                    let k = choose|j: int| first_non_string(s, j);
                    if k < i {
                        assert(s[k].1 is Str);
                    } else if k > i {
                        assert(s[i as int].1 is Str);
                    }
                }
                return Err(ResolveError::NonString(vt[i].0.clone()));
            },
        }
        i = i + 1;
    }
    proof {
        assert forall|j: int| !first_non_string(s, j) by {
            if 0 <= j < s.len() {
                assert(s[j].1 is Str);
            }
        }
        assert(table_view(out@) =~= Seq::new(s.len(), |j: int| (s[j].0, s[j].1->Str_0)));
    }
    Ok(out)
}

fn is_variables_key(cs: &[char]) -> (r: bool)
    ensures
        r == (cs@ == variables_key()),
{
    let key = ['v', 'a', 'r', 'i', 'a', 'b', 'l', 'e', 's'];
    assert(key@ == variables_key());
    chars_equal(cs, &key)
}

fn split_variables(v: Value) -> (r: (Value, Result<Vec<(String, String)>, ResolveError>))
    ensures
        r.0@ == without_variables(v@),
        vars_result(r.1) == extracted(v@),
{
    let ghost gv = v;
    match v {
        Value::Table(mut entries) => {
            proof {
                lemma_table_view(gv);
            }
            let ghost t = gv@->Table_0;
            let mut i: usize = 0;
            proof {
                lemma_key_index(t, variables_key());
            }
            while i < entries.len()
                invariant
                    i <= entries@.len(),
                    t.len() == entries@.len(),
                    forall|k: int|
                        0 <= k < entries@.len() ==> #[trigger] t[k] == (
                            entries@[k].0@,
                            entries@[k].1@,
                        ),
                    forall|k: int| 0 <= k < i ==> t[k].0 != variables_key(),
                ensures
                    i <= entries@.len(),
                    t.len() == entries@.len(),
                    forall|k: int|
                        0 <= k < entries@.len() ==> #[trigger] t[k] == (
                            entries@[k].0@,
                            entries@[k].1@,
                        ),
                    forall|k: int| 0 <= k < i ==> t[k].0 != variables_key(),
                    i < entries@.len() ==> t[i as int].0 == variables_key(),
                decreases entries@.len() - i,
            {
                let key = chars_of(entries[i].0.as_str());
                if is_variables_key(&key) {
                    break;
                }
                i = i + 1;
            }
            if i == entries.len() {
                let none: Vec<(String, String)> = Vec::new();
                proof {
                    lemma_key_index(t, variables_key());
                    assert(gv@ == Doc::Table(t));
                    assert(key_index(t, variables_key()) == -1);
                    assert(table_view(none@) =~= Seq::<(Seq<char>, Seq<char>)>::empty());
                }
                return (Value::Table(entries), Ok(none));
            }
            proof {
                lemma_key_index(t, variables_key());
            }
            assert(key_at(t, variables_key(), i as int));
            let ghost before = entries@;
            let removed = entries.remove(i);
            let rest = Value::Table(entries);
            proof {
                lemma_table_view(rest);
                assert(rest@->Table_0 =~= t.remove(i as int));
                assert(removed.1@ == t[i as int].1);
            }
            proof {
                assert(key_index(t, variables_key()) == i);
                assert(gv@ == Doc::Table(t));
            }
            let res = match removed.1 {
                Value::Table(vt) => {
                    proof {
                        lemma_table_view(Value::Table(vt));
                        assert(t[i as int].1->Table_0 =~= Seq::new(
                            vt@.len(),
                            |j: int| (vt@[j].0@, vt@[j].1@),
                        ));
                    }
                    variables_table(&vt)
                },
                _ => Err(ResolveError::NotATable),
            };
            (rest, res)
        },
        other => {
            let none: Vec<(String, String)> = Vec::new();
            proof {
                assert(table_view(none@) =~= Seq::<(Seq<char>, Seq<char>)>::empty());
            }
            (other, Ok(none))
        },
    }
}

/// Removes the `variables` table from `root` and returns its entries.
pub fn extract(root: &mut Value) -> (r: Result<Vec<(String, String)>, ResolveError>)
    ensures
        final(root)@ == without_variables(old(root)@),
        vars_result(r) == extracted(old(root)@),
{
    let mut taken = Value::Boolean(false);
    std::mem::swap(root, &mut taken);
    let (rest, r) = split_variables(taken);
    *root = rest;
    r
}

/// The outcome of resolving a whole document.
pub open spec fn resolved(d: Doc) -> Result<Doc, ResolveFault> {
    match extracted(d) {
        Err(e) => Err(e),
        Ok(t) => if t.len() == 0 {
            Ok(without_variables(d))
        } else {
            match variables_result(t) {
                Err(e) => Err(e),
                Ok(r) => substituted(without_variables(d), r),
            }
        },
    }
}

/// Takes the `variables` table out of `root`, resolves it, and substitutes
/// its values throughout the rest of the document.
pub fn resolve(root: &mut Value) -> (r: Result<(), ResolveError>)
    ensures
        match r {
            Ok(()) => resolved(old(root)@) == Ok::<Doc, ResolveFault>(final(root)@),
            Err(e) => resolved(old(root)@) == Err::<Doc, ResolveFault>(e@),
        },
{
    let vars = extract(root)?;
    if vars.len() == 0 {
        return Ok(());
    }
    let vars = evaluate(vars)?;
    substitute(root, &vars)
}

// ---------------------------------------------------------------------------
// Lemmas on resolution steps.
// ---------------------------------------------------------------------------

proof fn lemma_first_dangling_unique(t: Vars)
    ensures
        forall|i: int, k: int| first_dangling(t, i) && first_dangling(t, k) ==> i == k,
{
    assert forall|i: int, k: int| first_dangling(t, i) && first_dangling(t, k) implies i == k by {
        if i < k {
            assert(!dangling(t, i));
        } else if k < i {
            assert(!dangling(t, k));
        }
    }
}

proof fn lemma_first_failing_unique(r: Vars, i: int)
    requires
        first_failing(r, i),
    ensures
        (choose|k: int| first_failing(r, k)) == i,
{
    let k = choose|k: int| first_failing(r, k);
    if k < i {
        assert(evaluated(r, k) is Ok);
    } else if i < k {
        assert(evaluated(r, i) is Ok);
    }
}

proof fn lemma_chase_compose(t: Vars, v: Seq<char>, a: nat, b: nat)
    ensures
        chase(t, v, a + b) == chase(t, chase(t, v, a), b),
    decreases a,
{
    if a > 0 {
        lemma_chase_compose(t, step(t, v), (a - 1) as nat, b);
        assert((a + b - 1) as nat == (a - 1) as nat + b);
    }
}

proof fn lemma_chase_fixed(t: Vars, x: Seq<char>, n: nat)
    requires
        step(t, x) == x,
    ensures
        chase(t, x, n) == x,
    decreases n,
{
    if n > 0 {
        lemma_chase_fixed(t, x, (n - 1) as nat);
    }
}

/// Once a literal is reached, further steps keep it.
proof fn lemma_literal_stays(t: Vars, v: Seq<char>, a: nat, b: nat)
    requires
        !is_ref(chase(t, v, a)),
    ensures
        chase(t, v, a + b) == chase(t, v, a),
{
    lemma_chase_compose(t, v, a, b);
    lemma_chase_fixed(t, chase(t, v, a), b);
}

proof fn lemma_ref_before(t: Vars, v: Seq<char>, a: nat, b: nat)
    requires
        a <= b,
        is_ref(chase(t, v, b)),
    ensures
        is_ref(chase(t, v, a)),
{
    if !is_ref(chase(t, v, a)) {
        lemma_literal_stays(t, v, a, (b - a) as nat);
        assert(a + (b - a) as nat == b);
    }
}

pub open spec fn is_value(t: Vars, v: Seq<char>) -> bool {
    exists|j: int| 0 <= j < t.len() && t[j].1 == v
}

proof fn lemma_chase_values(t: Vars, v: Seq<char>, n: nat)
    requires
        is_value(t, v),
    ensures
        is_value(t, chase(t, v, n)),
    decreases n,
{
    if n > 0 {
        if is_ref(v) {
            lemma_key_index(t, v.drop_first());
            if let Some(w) = lookup(t, v.drop_first()) {
                let j = key_index(t, v.drop_first());
                assert(t[j].1 == w);
            }
        }
        lemma_chase_values(t, step(t, v), (n - 1) as nat);
    }
}

/// In a closed table a reference reached from a value names an entry.
proof fn lemma_value_ref_known(t: Vars, x: Seq<char>)
    requires
        closed(t),
        is_value(t, x),
        is_ref(x),
    ensures
        lookup(t, x.drop_first()) is Some,
{
    let j = choose|j: int| 0 <= j < t.len() && t[j].1 == x;
    assert(!dangling(t, j));
}

/// A repeated reference repeats forever, so the value never settles.
proof fn lemma_repeat_never_settles(t: Vars, v: Seq<char>, a: nat, b: nat)
    requires
        a < b,
        chase(t, v, a) == chase(t, v, b),
        is_ref(chase(t, v, a)),
    ensures
        forall|m: nat| is_ref(#[trigger] chase(t, v, m)),
{
    assert forall|m: nat| is_ref(#[trigger] chase(t, v, m)) by {
        lemma_periodic(t, v, a, b, m);
        assert(a + m * (b - a) >= m) by (nonlinear_arith)
            requires
                a < b,
        ;
        lemma_ref_before(t, v, m, (a + m * (b - a)) as nat);
    }
}

proof fn lemma_periodic(t: Vars, v: Seq<char>, a: nat, b: nat, q: nat)
    requires
        a < b,
        chase(t, v, a) == chase(t, v, b),
    ensures
        chase(t, v, (a + q * (b - a)) as nat) == chase(t, v, a),
    decreases q,
{
    let d = (b - a) as nat;
    if q > 0 {
        lemma_periodic(t, v, a, b, (q - 1) as nat);
        let prev = (a + (q - 1) * (b - a)) as nat;
        assert(a + (q - 1) * (b - a) >= 0) by (nonlinear_arith)
            requires
                q > 0,
                a < b,
        ;
        assert(a + q * (b - a) == prev + d) by (nonlinear_arith)
            requires
                prev == a + (q - 1) * (b - a),
                d == b - a,
        ;
        assert(chase(t, v, prev) == chase(t, v, a));
        lemma_chase_compose(t, v, prev, d);
        lemma_chase_compose(t, v, a, d);
        assert(a + d == b);
        assert(chase(t, v, prev + d) == chase(t, v, a));
    } else {
        assert(a + q * (b - a) == a) by (nonlinear_arith)
            requires
                q == 0,
        ;
    }
}

/// A chain of more references than there are names must repeat one.
proof fn lemma_chain_repeats(t: Vars, v: Seq<char>)
    requires
        closed(t),
        is_value(t, v),
        forall|k: nat| k <= t.len() ==> is_ref(#[trigger] chase(t, v, k)),
    ensures
        exists|a: nat, b: nat|
            a < b <= t.len() && #[trigger] chase(t, v, a) == #[trigger] chase(t, v, b),
{
    let n = t.len();
    let names = Seq::new(n + 1, |k: int| chase(t, v, k as nat).drop_first());
    let keys = t.map_values(|e: (Seq<char>, Seq<char>)| e.0);
    assert forall|x: Seq<char>| names.to_set().contains(x) implies keys.to_set().contains(x) by {
        let k = choose|k: int| 0 <= k < names.len() && names[k] == x;
        let y = chase(t, v, k as nat);
        assert(is_ref(y));
        lemma_chase_values(t, v, k as nat);
        lemma_value_ref_known(t, y);
        lemma_key_index(t, y.drop_first());
        let j = key_index(t, y.drop_first());
        assert(keys[j] == x);
    }
    keys.lemma_cardinality_of_set();
    vstd::set_lib::lemma_len_subset(names.to_set(), keys.to_set());
    if names.no_duplicates() {
        names.unique_seq_to_set();
        assert(false);
    }
    let (a, b) = choose|a: int, b: int|
        0 <= a < names.len() && 0 <= b < names.len() && a != b && names[a] == names[b];
    let (lo, hi) = if a < b {
        (a, b)
    } else {
        (b, a)
    };
    let x = chase(t, v, lo as nat);
    let y = chase(t, v, hi as nat);
    assert(x =~= seq!['$'] + x.drop_first());
    assert(y =~= seq!['$'] + y.drop_first());
    assert(chase(t, v, lo as nat) == chase(t, v, hi as nat));
}

/// If a value is still a reference after as many steps as there are
/// names, it never settles.
proof fn lemma_unsettled_forever(t: Vars, v: Seq<char>)
    requires
        closed(t),
        is_value(t, v),
        is_ref(chase(t, v, t.len())),
    ensures
        forall|m: nat| is_ref(#[trigger] chase(t, v, m)),
{
    assert forall|k: nat| k <= t.len() implies is_ref(#[trigger] chase(t, v, k)) by {
        lemma_ref_before(t, v, k, t.len());
    }
    lemma_chain_repeats(t, v);
    let (a, b) = choose|a: nat, b: nat|
        a < b <= t.len() && #[trigger] chase(t, v, a) == #[trigger] chase(t, v, b);
    lemma_repeat_never_settles(t, v, a, b);
}

/// A pass over a table that holds every value after `s` steps holds every
/// value after `2s + 1` steps.
proof fn lemma_pass_doubles(t: Vars, c: Vars, s: nat, i: int)
    requires
        same_keys(c, t),
        c.len() == t.len(),
        0 <= i < t.len(),
        forall|k: int| 0 <= k < t.len() ==> #[trigger] c[k].1 == chase(t, t[k].1, s),
    ensures
        step(c, c[i].1) == chase(t, t[i].1, 2 * s + 1),
{
    let v = t[i].1;
    let x = chase(t, v, s);
    lemma_chase_compose(t, v, s, s + 1);
    assert(s + (s + 1) == 2 * s + 1);
    if is_ref(x) {
        let k = x.drop_first();
        lemma_same_keys_index(c, t, k);
        lemma_key_index(t, k);
        match lookup(t, k) {
            Some(w) => {
                let j = key_index(t, k);
                assert(c[j].1 == chase(t, t[j].1, s));
                assert(chase(t, x, s + 1) == chase(t, step(t, x), s));
            },
            None => {
                lemma_chase_fixed(t, x, s + 1);
            },
        }
    } else {
        lemma_chase_fixed(t, x, s + 1);
    }
}

/// What the passes leave behind: a literal exactly where the value settles,
/// and then the settled literal.
proof fn lemma_final_value(t: Vars, c: Vars, s: nat, i: int)
    requires
        closed(t),
        same_keys(c, t),
        0 <= i < t.len(),
        forall|k: int| 0 <= k < t.len() ==> #[trigger] c[k].1 == chase(t, t[k].1, s),
        s > t.len() || forall|k: int|
            0 <= k < t.len() ==> step(c, #[trigger] c[k].1) == c[k].1,
    ensures
        is_ref(c[i].1) <==> is_ref(settled(t, t[i].1)),
        !is_ref(c[i].1) ==> c[i].1 == settled(t, t[i].1),
{
    let v = t[i].1;
    let n = t.len();
    let x = c[i].1;
    assert(is_value(t, v));
    if !is_ref(x) {
        if s <= n {
            lemma_literal_stays(t, v, s, (n - s) as nat);
            assert(s + (n - s) as nat == n);
        } else {
            if is_ref(chase(t, v, n)) {
                lemma_unsettled_forever(t, v);
                assert(is_ref(chase(t, v, s)));
            }
            lemma_literal_stays(t, v, n, (s - n) as nat);
            assert(n + (s - n) as nat == s);
        }
    } else {
        if s >= n {
            if !is_ref(chase(t, v, n)) {
                lemma_literal_stays(t, v, n, (s - n) as nat);
                assert(n + (s - n) as nat == s);
            }
        } else {
            let k = x.drop_first();
            lemma_chase_values(t, v, s);
            lemma_value_ref_known(t, x);
            lemma_same_keys_index(c, t, k);
            lemma_key_index(t, k);
            let j = key_index(t, k);
            assert(step(c, x) == x);
            assert(c[j].1 == x);
            assert(chase(t, t[j].1, s) == x);
            assert(chase(t, x, 1) == t[j].1) by {
                assert(chase(t, step(t, x), 0) == step(t, x));
            }
            lemma_chase_compose(t, x, 1, s);
            assert(1 + s == s + 1);
            assert(chase(t, x, 0) == chase(t, x, s + 1));
            lemma_repeat_never_settles(t, x, 0, s + 1);
            lemma_chase_compose(t, v, s, n);
            assert(is_ref(chase(t, x, n)));
            lemma_ref_before(t, v, n, s + n);
        }
    }
}

proof fn lemma_cyclic_upto_contains(t: Vars, m: nat, i: int)
    requires
        0 <= i < m <= t.len(),
    ensures
        is_ref(settled(t, t[i].1)) ==> cyclic_upto(t, m).contains(t[i].0),
        cyclic_upto(t, m).len() == 0 ==> !is_ref(settled(t, t[i].1)),
    decreases m,
{
    let prev = cyclic_upto(t, (m - 1) as nat);
    if i < m - 1 {
        lemma_cyclic_upto_contains(t, (m - 1) as nat, i);
        if is_ref(settled(t, t[i].1)) {
            let k = choose|k: int| 0 <= k < prev.len() && prev[k] == t[i].0;
            if is_ref(settled(t, t[m - 1].1)) {
                assert(cyclic_upto(t, m)[k] == t[i].0);
            }
        }
    } else {
        if is_ref(settled(t, t[i].1)) {
            assert(cyclic_upto(t, m)[prev.len() as int] == t[i].0);
        }
    }
}

/// No name lies on a cycle: following references from `$k` never leads
/// back to `$k`.
pub open spec fn acyclic(t: Vars) -> bool {
    forall|k: Seq<char>, n: nat|
        n >= 1 && lookup(t, k) is Some ==> #[trigger] chase(t, seq!['$'] + k, n) != seq!['$'] + k
}

pub open spec fn has_no_dollar(s: Seq<char>) -> bool {
    forall|i: int| 0 <= i < s.len() ==> s[i] != '$'
}

proof fn lemma_canonical_has_no_dollar(c: crate::color::HexColor)
    ensures
        has_no_dollar(canonical_hex(c)),
{
    let d = upper_digits();
    assert forall|i: int| 0 <= i < 16 implies d[i] != '$' by {}
    let h = canonical_hex(c);
    assert forall|i: int| 0 <= i < h.len() implies h[i] != '$' by {
        if i > 0 {
            assert(d[(c.r / 16) as int] != '$');
            assert(d[(c.r % 16) as int] != '$');
            assert(d[(c.g / 16) as int] != '$');
            assert(d[(c.g % 16) as int] != '$');
            assert(d[(c.b / 16) as int] != '$');
            assert(d[(c.b % 16) as int] != '$');
            assert(d[(c.a / 16) as int] != '$');
            assert(d[(c.a % 16) as int] != '$');
        }
    }
}

proof fn lemma_expr_result_has_no_dollar(s: Seq<char>, vars: Vars)
    ensures
        expr_value(s, vars) is Ok ==> has_no_dollar(expr_value(s, vars)->Ok_0),
{
    reveal(crate::expr::apply_spec);
    assert forall|c: crate::color::HexColor| #[trigger] has_no_dollar(canonical_hex(c)) by {
        lemma_canonical_has_no_dollar(c);
    }
}

/// A table whose references all name variables and form no cycle:
/// every variable reaches a literal within as many steps as there are
/// variables (so the passes, at most one more than that, resolve it), no
/// variable is reported cyclic, and when its literals hold no `$`, neither
/// does any value it resolves to.
pub proof fn lemma_acyclic_tables_resolve(t: Vars)
    requires
        closed(t),
        acyclic(t),
    ensures
        forall|i: int| 0 <= i < t.len() ==> !is_ref(#[trigger] settled(t, t[i].1)),
        cyclic_upto(t, t.len()).len() == 0,
        (forall|i: int| 0 <= i < t.len() && !is_ref(t[i].1) ==> has_no_dollar(#[trigger] t[i].1))
            ==> (variables_result(t) is Ok ==> forall|i: int|
            0 <= i < t.len() ==> has_no_dollar(#[trigger] variables_result(t)->Ok_0[i].1)),
{
    assert forall|i: int| 0 <= i < t.len() implies !is_ref(#[trigger] settled(t, t[i].1)) by {
        let v = t[i].1;
        assert(is_value(t, v));
        if is_ref(settled(t, v)) {
            assert forall|k: nat| k <= t.len() implies is_ref(#[trigger] chase(t, v, k)) by {
                lemma_ref_before(t, v, k, t.len());
            }
            lemma_chain_repeats(t, v);
            let (a, b) = choose|a: nat, b: nat|
                a < b <= t.len() && #[trigger] chase(t, v, a) == #[trigger] chase(t, v, b);
            let y = chase(t, v, a);
            let k = y.drop_first();
            lemma_chase_values(t, v, a);
            lemma_value_ref_known(t, y);
            assert(y =~= seq!['$'] + k);
            lemma_chase_compose(t, v, a, (b - a) as nat);
            assert(a + (b - a) as nat == b);
            assert(chase(t, seq!['$'] + k, (b - a) as nat) == seq!['$'] + k);
        }
    }
    if cyclic_upto(t, t.len()).len() > 0 {
        let names = cyclic_upto(t, t.len());
        lemma_cyclic_names_come_from_refs(t, t.len());
    }
    if forall|i: int| 0 <= i < t.len() && !is_ref(t[i].1) ==> has_no_dollar(#[trigger] t[i].1) {
        let r = settled_table(t);
        assert forall|i: int| 0 <= i < t.len() implies has_no_dollar(#[trigger] r[i].1) by {
            let v = t[i].1;
            assert(is_value(t, v));
            lemma_chase_values(t, v, t.len());
            let j = choose|j: int| 0 <= j < t.len() && t[j].1 == settled(t, v);
            assert(!is_ref(t[j].1));
        }
        assert forall|i: int| 0 <= i < t.len() implies !first_dangling(t, i) by {
            assert(!dangling(t, i));
        }
        reveal(expressions_result);
        if variables_result(t) is Ok {
            assert forall|i: int| 0 <= i < t.len() implies has_no_dollar(
                #[trigger] variables_result(t)->Ok_0[i].1,
            ) by {
                lemma_expr_result_has_no_dollar(r[i].1, r);
                assert(!first_failing(r, i));
                if !(evaluated(r, i) is Ok) {
                    lemma_first_failing_exists(r, i);
                }
            }
        }
    }
}

proof fn lemma_first_failing_exists(r: Vars, i: int)
    requires
        0 <= i < r.len(),
        evaluated(r, i) is Err,
    ensures
        exists|k: int| first_failing(r, k),
    decreases i,
{
    if exists|q: int| 0 <= q < i && evaluated(r, q) is Err {
        let q = choose|q: int| 0 <= q < i && evaluated(r, q) is Err;
        lemma_first_failing_exists(r, q);
    } else {
        assert(first_failing(r, i));
    }
}

proof fn lemma_cyclic_names_come_from_refs(t: Vars, m: nat)
    requires
        m <= t.len(),
        cyclic_upto(t, m).len() > 0,
    ensures
        exists|i: int| 0 <= i < m && is_ref(#[trigger] settled(t, t[i].1)),
    decreases m,
{
    if m > 0 {
        if !is_ref(settled(t, t[m - 1].1)) {
            lemma_cyclic_names_come_from_refs(t, (m - 1) as nat);
        }
    }
}

/// A variable whose references lead back to itself makes resolution fail
/// with a cyclic error that names it (references must all name variables;
/// otherwise the undefined one is reported first).
pub proof fn lemma_cycle_reported(t: Vars, k: Seq<char>, n: nat)
    requires
        closed(t),
        lookup(t, k) is Some,
        n >= 1,
        chase(t, seq!['$'] + k, n) == seq!['$'] + k,
    ensures
        variables_result(t) matches Err(ResolveFault::Cyclic(names)) && names.contains(k),
{
    let x = seq!['$'] + k;
    assert(x.drop_first() =~= k);
    lemma_repeat_never_settles(t, x, 0, n);
    lemma_key_index(t, k);
    let j = key_index(t, k);
    assert(chase(t, x, 1) == t[j].1) by {
        assert(chase(t, step(t, x), 0) == step(t, x));
    }
    lemma_chase_compose(t, x, 1, t.len());
    assert(is_ref(chase(t, x, 1 + t.len())));
    assert(is_ref(settled(t, t[j].1)));
    lemma_cyclic_upto_contains(t, t.len(), j);
    assert forall|i: int| !first_dangling(t, i) by {
        if 0 <= i < t.len() {
            assert(!dangling(t, i));
        }
    }
}

/// `` `$a`, `$b` `` for the names `a` and `b`.
pub open spec fn joined_refs(names: Seq<Seq<char>>) -> Seq<char>
    decreases names.len(),
{
    if names.len() == 0 {
        Seq::empty()
    } else if names.len() == 1 {
        quoted("$"@ + names[0])
    } else {
        joined_refs(names.subrange(0, names.len() - 1)) + ", "@ + quoted("$"@ + names.last())
    }
}

pub open spec fn resolve_fault_text(f: ResolveFault) -> Seq<char> {
    match f {
        ResolveFault::NotATable => "[variables] must be a table"@,
        ResolveFault::NonString(k) => "variable "@ + quoted(k) + " must be a string value"@,
        ResolveFault::Undefined(n, from) => match from {
            Some(k) => "undefined variable "@ + quoted("$"@ + n) + " (referenced from "@ + quoted(
                "$"@ + k,
            ) + ")"@,
            None => "undefined variable "@ + quoted("$"@ + n),
        },
        ResolveFault::Cyclic(names) => "cyclic variable references: "@ + joined_refs(names),
        ResolveFault::InVariable(k, e) => "variable "@ + quoted(k) + ": "@ + expr_fault_text(e),
        ResolveFault::InExpression(s, e) => "in expression "@ + quoted(s) + ": "@ + expr_fault_text(
            e,
        ),
    }
}

fn append_ref(out: &mut String, name: &str)
    ensures
        final(out)@ == old(out)@ + quoted("$"@ + name@),
{
    append_str(out, "`$");
    append_str(out, name);
    append_str(out, "`");
    proof {
        reveal_strlit("`$");
        reveal_strlit("`");
        reveal_strlit("$");
    }
    assert(old(out)@ + "`$"@ + name@ + "`"@ =~= old(out)@ + quoted("$"@ + name@));
}

fn append_quoted_text(out: &mut String, s: &str)
    ensures
        final(out)@ == old(out)@ + quoted(s@),
{
    append_str(out, "`");
    append_str(out, s);
    append_str(out, "`");
    assert(old(out)@ + "`"@ + s@ + "`"@ =~= old(out)@ + quoted(s@));
}

impl ResolveError {
    /// A sentence describing the error, naming the variables concerned.
    pub fn message(&self) -> (r: String)
        ensures
            r@ == resolve_fault_text(self@),
    {
        let mut out = String::new();
        match self {
            ResolveError::NotATable => {
                append_str(&mut out, "[variables] must be a table");
            },
            ResolveError::NonString(k) => {
                append_str(&mut out, "variable ");
                append_quoted_text(&mut out, k.as_str());
                append_str(&mut out, " must be a string value");
            },
            ResolveError::Undefined { name, from } => {
                append_str(&mut out, "undefined variable ");
                append_ref(&mut out, name.as_str());
                match from {
                    Some(k) => {
                        append_str(&mut out, " (referenced from ");
                        append_ref(&mut out, k.as_str());
                        append_str(&mut out, ")");
                    },
                    None => {},
                }
            },
            ResolveError::Cyclic(names) => {
                append_str(&mut out, "cyclic variable references: ");
                let ghost start = out@;
                let mut i: usize = 0;
                while i < names.len()
                    invariant
                        i <= names@.len(),
                        out@ == start + joined_refs(names_view(names@).subrange(0, i as int)),
                    decreases names@.len() - i,
                {
                    let ghost before = out@;
                    if i > 0 {
                        append_str(&mut out, ", ");
                    }
                    append_ref(&mut out, names[i].as_str());
                    proof {
                        let ns = names_view(names@);
                        assert(ns.subrange(0, i + 1).subrange(0, i as int) =~= ns.subrange(0, i as int));
                        assert(ns[i as int] == names@[i as int]@);
                        if i == 0 {
                            assert(joined_refs(Seq::<Seq<char>>::empty()) == Seq::<char>::empty());
                            assert(ns.subrange(0, 0) =~= Seq::<Seq<char>>::empty());
                        }
                        assert(out@ =~= start + joined_refs(ns.subrange(0, i + 1)));
                    }
                    i = i + 1;
                }
                assert(names_view(names@).subrange(0, names@.len() as int) =~= names_view(names@));
            },
            ResolveError::InVariable { name, error } => {
                append_str(&mut out, "variable ");
                append_quoted_text(&mut out, name.as_str());
                append_str(&mut out, ": ");
                let m = error.message();
                append_str(&mut out, m.as_str());
            },
            ResolveError::InExpression { text, error } => {
                append_str(&mut out, "in expression ");
                append_quoted_text(&mut out, text.as_str());
                append_str(&mut out, ": ");
                let m = error.message();
                append_str(&mut out, m.as_str());
            },
        }
        out
    }
}

} // verus!
