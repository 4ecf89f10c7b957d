//! Filters that websocket subscribers send: a path into an event's JSON
//! value and a condition on what the path leads to.
use vstd::prelude::*;
use crate::json::{
    double_eq, double_equal, double_le, double_less, double_lt, item_views, json_view,
    lemma_item_views, lemma_member_views, member_get, member_lookup, member_views, JsonValue,
    JsonView,
};
use crate::text::{
    chars_of, contains_text, decimal_text, has_char, is_prefix, is_suffix, parse_usize,
    parse_usize_spec, split_on, split_text, text_contains, text_ends_with, text_starts_with, usize_to_text,
};

verus! {

broadcast use vstd::std_specs::vec::group_vec_axioms;

/// The condition that a filter checks on the value its path leads to.
/// Numeric bounds are binary64 bit patterns.
#[derive(Debug)]
pub enum Operator {
    GreaterThan(u64),
    LessThan(u64),
    GreaterOrEqual(u64),
    LessOrEqual(u64),
    Equals(JsonValue),
    NotEqual(JsonValue),
    StartsWith(String),
    EndsWith(String),
    Contains(String),
    ArrayContains(JsonValue),
    HasKey(String),
    And(Vec<Filter>),
    Or(Vec<Filter>),
}

/// A path (`.` for the whole value; otherwise dot-separated segments, each a
/// member key optionally followed by `[index]`) and an operator.
#[derive(Debug)]
pub struct Filter {
    pub path: String,
    pub operator: Operator,
}

/// Why a filter could not be evaluated on a value. `TypeMismatch` carries the
/// value that had the wrong type.
#[derive(Debug)]
pub enum FilterError {
    PathNotFound(String),
    TypeMismatch { expected: String, got: JsonValue },
    InvalidArrayIndex(String),
    InvalidPath(String),
}

/// The content of a `FilterError`.
pub enum FilterFailure {
    PathNotFound(Seq<char>),
    TypeMismatch { expected: Seq<char>, got: JsonView },
    InvalidArrayIndex(Seq<char>),
    InvalidPath(Seq<char>),
}

impl View for FilterError {
    type V = FilterFailure;

    open spec fn view(&self) -> FilterFailure {
        match self {
            FilterError::PathNotFound(s) => FilterFailure::PathNotFound(s@),
            FilterError::TypeMismatch { expected, got } => FilterFailure::TypeMismatch {
                expected: expected@,
                got: got@,
            },
            FilterError::InvalidArrayIndex(s) => FilterFailure::InvalidArrayIndex(s@),
            FilterError::InvalidPath(s) => FilterFailure::InvalidPath(s@),
        }
    }
}

/// The content of an evaluation outcome.
pub open spec fn outcome_view(r: Result<bool, FilterError>) -> Result<bool, FilterFailure> {
    match r {
        Ok(b) => Ok(b),
        Err(e) => Err(e@),
    }
}

/// The content of a path resolution outcome.
pub open spec fn resolved_view(r: Result<&JsonValue, FilterError>) -> Result<JsonView, FilterFailure> {
    match r {
        Ok(v) => Ok(v@),
        Err(e) => Err(e@),
    }
}

// ---------------------------------------------------------------------------
// Paths
// ---------------------------------------------------------------------------

/// The index of the first `c` in `s` at or after `i`, or `s.len()`.
pub open spec fn index_of_from(s: Seq<char>, c: char, i: int) -> int
    decreases s.len() - i,
{
    if i >= s.len() {
        s.len() as int
    } else if s[i] == c {
        i
    } else {
        index_of_from(s, c, i + 1)
    }
}

/// The member stored under `key` when `v` is an object.
pub open spec fn view_get(v: JsonView, key: Seq<char>) -> Option<JsonView> {
    match v {
        JsonView::Object(members) => member_lookup(members, key),
        _ => None,
    }
}

/// What splitting a segment `field[index]` gives: the field and the index.
pub open spec fn parse_array_segment_spec(seg: Seq<char>) -> Result<(Seq<char>, usize), FilterFailure> {
    if !has_char(seg, '[') {
        Err(FilterFailure::InvalidPath(seg))
    } else {
        let b = index_of_from(seg, '[', 0);
        let index_text = seg.subrange(b + 1, seg.len() - 1);
        match parse_usize_spec(index_text) {
            Some(n) => Ok((seg.subrange(0, b), n)),
            None => Err(FilterFailure::InvalidArrayIndex(index_text)),
        }
    }
}

/// A segment of the form `field[index]`.
pub open spec fn is_array_segment(seg: Seq<char>) -> bool {
    has_char(seg, '[') && seg.len() > 0 && seg.last() == ']'
}

/// One step of path resolution: from `cur` through one segment.
pub open spec fn resolve_step(cur: JsonView, seg: Seq<char>) -> Result<JsonView, FilterFailure> {
    if is_array_segment(seg) {
        match parse_array_segment_spec(seg) {
            Err(e) => Err(e),
            Ok((field, index)) => {
                let base = if field.len() > 0 {
                    match view_get(cur, field) {
                        Some(v) => Ok(v),
                        None => Err(FilterFailure::PathNotFound(field)),
                    }
                } else {
                    Ok(cur)
                };
                match base {
                    Err(e) => Err(e),
                    Ok(b) => match b {
                        JsonView::Array(items) => if index < items.len() {
                            Ok(items[index as int])
                        } else {
                            Err(FilterFailure::InvalidArrayIndex(decimal_text(index as nat)))
                        },
                        _ => Err(FilterFailure::TypeMismatch { expected: "array"@, got: b }),
                    },
                }
            },
        }
    } else {
        match view_get(cur, seg) {
            Some(v) => Ok(v),
            None => Err(FilterFailure::PathNotFound(seg)),
        }
    }
}

/// Resolution through the first `n` segments.
pub open spec fn resolve_segments(v: JsonView, segs: Seq<Seq<char>>, n: nat) -> Result<JsonView, FilterFailure>
    decreases n,
{
    if n == 0 || n > segs.len() {
        Ok(v)
    } else {
        match resolve_segments(v, segs, (n - 1) as nat) {
            Err(e) => Err(e),
            Ok(cur) => resolve_step(cur, segs[n - 1]),
        }
    }
}

/// What a path leads to inside `v`.
pub open spec fn resolve_path_spec(v: JsonView, path: Seq<char>) -> Result<JsonView, FilterFailure> {
    if path == seq!['.'] {
        Ok(v)
    } else {
        let segs = split_on(path, '.');
        resolve_segments(v, segs, segs.len())
    }
}

// ---------------------------------------------------------------------------
// Evaluation
// ---------------------------------------------------------------------------

/// The outcome of checking filter `f` on a value: resolve the path, then
/// check the operator on the value found.
pub open spec fn eval_filter(f: Filter, v: JsonView) -> Result<bool, FilterFailure>
    decreases f, 2nat,
{
    match resolve_path_spec(v, f.path@) {
        Err(e) => Err(e),
        Ok(t) => eval_operator(f, t),
    }
}

/// The type error for a value that is not of the expected kind.
pub open spec fn mismatch(expected: Seq<char>, got: JsonView) -> Result<bool, FilterFailure> {
    Err(FilterFailure::TypeMismatch { expected, got })
}

/// Some item of `items` equals `target`.
pub open spec fn items_contain(items: Seq<JsonView>, target: JsonView) -> bool {
    exists|i: int| 0 <= i < items.len() && crate::json::view_eq(#[trigger] items[i], target)
}

/// The outcome of the operator of `f` on the value `t` that its path led to.
pub open spec fn eval_operator(f: Filter, t: JsonView) -> Result<bool, FilterFailure>
    decreases f, 1nat,
{
    match f.operator {
        Operator::GreaterThan(n) => match t {
            JsonView::Number(x) => Ok(double_lt(n, x.double_bits)),
            _ => mismatch("number"@, t),
        },
        Operator::LessThan(n) => match t {
            JsonView::Number(x) => Ok(double_lt(x.double_bits, n)),
            _ => mismatch("number"@, t),
        },
        Operator::GreaterOrEqual(n) => match t {
            JsonView::Number(x) => Ok(double_le(n, x.double_bits)),
            _ => mismatch("number"@, t),
        },
        Operator::LessOrEqual(n) => match t {
            JsonView::Number(x) => Ok(double_le(x.double_bits, n)),
            _ => mismatch("number"@, t),
        },
        Operator::Equals(target) => Ok(crate::json::view_eq(t, target@)),
        Operator::NotEqual(target) => Ok(!crate::json::view_eq(t, target@)),
        Operator::StartsWith(s) => match t {
            JsonView::Str(x) => Ok(is_prefix(s@, x)),
            _ => mismatch("string"@, t),
        },
        Operator::EndsWith(s) => match t {
            JsonView::Str(x) => Ok(is_suffix(s@, x)),
            _ => mismatch("string"@, t),
        },
        Operator::Contains(s) => match t {
            JsonView::Str(x) => Ok(contains_text(x, s@)),
            _ => mismatch("string"@, t),
        },
        Operator::ArrayContains(target) => match t {
            JsonView::Array(items) => Ok(items_contain(items, target@)),
            _ => mismatch("array"@, t),
        },
        Operator::HasKey(k) => match t {
            JsonView::Object(members) => Ok(member_lookup(members, k@) is Some),
            _ => mismatch("object"@, t),
        },
        Operator::And(fs) => eval_all(fs@, t, fs@.len()),
        Operator::Or(fs) => eval_any(fs@, t, fs@.len()),
    }
}

/// Checks the first `n` filters in order; the first error stops the check,
/// otherwise the outcome is whether all of them hold.
pub open spec fn eval_all(fs: Seq<Filter>, t: JsonView, n: nat) -> Result<bool, FilterFailure>
    decreases fs, n,
{
    if n == 0 || n > fs.len() {
        Ok(true)
    } else {
        match eval_all(fs, t, (n - 1) as nat) {
            Err(e) => Err(e),
            Ok(b) => match eval_filter(fs[n - 1], t) {
                Err(e) => Err(e),
                Ok(c) => Ok(b && c),
            },
        }
    }
}

/// Checks the first `n` filters in order; the first error stops the check,
/// otherwise the outcome is whether any of them holds.
pub open spec fn eval_any(fs: Seq<Filter>, t: JsonView, n: nat) -> Result<bool, FilterFailure>
    decreases fs, n,
{
    if n == 0 || n > fs.len() {
        Ok(false)
    } else {
        match eval_any(fs, t, (n - 1) as nat) {
            Err(e) => Err(e),
            Ok(b) => match eval_filter(fs[n - 1], t) {
                Err(e) => Err(e),
                Ok(c) => Ok(b || c),
            },
        }
    }
}


// ---------------------------------------------------------------------------
// Lemmas
// ---------------------------------------------------------------------------

pub proof fn lemma_index_of_from(s: Seq<char>, c: char, i: int)
    requires
        0 <= i <= s.len(),
    ensures
        i <= index_of_from(s, c, i) <= s.len(),
        forall|j: int| i <= j < index_of_from(s, c, i) ==> s[j] != c,
        index_of_from(s, c, i) < s.len() ==> s[index_of_from(s, c, i)] == c,
    decreases s.len() - i,
{
    if i < s.len() && s[i] != c {
        lemma_index_of_from(s, c, i + 1);
    }
}

pub proof fn lemma_has_char_index(s: Seq<char>, c: char)
    ensures
        has_char(s, c) <==> index_of_from(s, c, 0) < s.len(),
{
    lemma_index_of_from(s, c, 0);
    if has_char(s, c) {
        let k = choose|k: int| 0 <= k < s.len() && s[k] == c;
        assert(index_of_from(s, c, 0) <= k);
    }
}

/// Once the checks of an `And` fail with an error, later filters do not change the outcome.
pub proof fn lemma_eval_all_err_stays(fs: Seq<Filter>, t: JsonView, n: nat, m: nat)
    requires
        n <= m <= fs.len(),
        eval_all(fs, t, n) is Err,
    ensures
        eval_all(fs, t, m) == eval_all(fs, t, n),
    decreases m,
{
    if m > n {
        lemma_eval_all_err_stays(fs, t, n, (m - 1) as nat);
    }
}

/// Once the checks of an `Or` fail with an error, later filters do not change the outcome.
pub proof fn lemma_eval_any_err_stays(fs: Seq<Filter>, t: JsonView, n: nat, m: nat)
    requires
        n <= m <= fs.len(),
        eval_any(fs, t, n) is Err,
    ensures
        eval_any(fs, t, m) == eval_any(fs, t, n),
    decreases m,
{
    if m > n {
        lemma_eval_any_err_stays(fs, t, n, (m - 1) as nat);
    }
}

pub proof fn lemma_resolve_err_stays(v: JsonView, segs: Seq<Seq<char>>, n: nat, m: nat)
    requires
        n <= m <= segs.len(),
        resolve_segments(v, segs, n) is Err,
    ensures
        resolve_segments(v, segs, m) == resolve_segments(v, segs, n),
    decreases m,
{
    if m > n {
        lemma_resolve_err_stays(v, segs, n, (m - 1) as nat);
    }
}

// ---------------------------------------------------------------------------
// Executable parts
// ---------------------------------------------------------------------------

/// The index of the first `c` in `s`, or `s.len()`.
pub fn index_of(s: &Vec<char>, c: char) -> (r: usize)
    ensures
        r == index_of_from(s@, c, 0),
{
    let mut i: usize = 0;
    while i < s.len()
        invariant
            0 <= i <= s.len(),
            index_of_from(s@, c, i as int) == index_of_from(s@, c, 0),
        decreases s.len() - i,
    {
        if s[i] == c {
            return i;
        }
        i = i + 1;
    }
    i
}

/// The member stored under `key` when `v` is an object.
pub fn value_get<'a>(v: &'a JsonValue, key: &String) -> (r: Option<&'a JsonValue>)
    ensures
        match r {
            Some(x) => view_get(v@, key@) == Some(x@),
            None => view_get(v@, key@) is None,
        },
{
    match v {
        JsonValue::Object(members) => member_get(members, key),
        _ => None,
    }
}

fn text_of(s: &str) -> (r: String)
    ensures
        r@ == s@,
{
    String::from_str(s)
}

impl Filter {
    /// A filter with the given path and operator.
    pub fn new(path: &str, operator: Operator) -> (r: Filter)
        ensures
            r.path@ == path@,
            r.operator == operator,
    {
        Filter { path: String::from_str(path), operator }
    }

    /// Splits a path segment `field[index]` into its field and index.
    pub fn parse_array_segment(&self, segment: &str) -> (r: Result<(String, usize), FilterError>)
        requires
            has_char(segment@, '[') ==> index_of_from(segment@, '[', 0) < segment@.len() - 1
                && (segment@.last() as int) < 128,
        ensures
            match (r, parse_array_segment_spec(segment@)) {
                (Ok((field, index)), Ok((f, i))) => field@ == f && index == i,
                (Err(e), Err(x)) => e@ == x,
                _ => false,
            },
    {
        let sc = chars_of(segment);
        let b = index_of(&sc, '[');
        proof {
            lemma_has_char_index(segment@, '[');
            lemma_index_of_from(segment@, '[', 0);
        }
        if b == sc.len() {
            return Err(FilterError::InvalidPath(text_of(segment)));
        }
        let field = text_of(segment.substring_char(0, b));
        let index_text = segment.substring_char(b + 1, sc.len() - 1);
        match parse_usize(index_text) {
            Some(index) => Ok((field, index)),
            None => Err(FilterError::InvalidArrayIndex(text_of(index_text))),
        }
    }

    /// Resolves one path segment from `cur`.
    fn resolve_segment<'a>(&self, cur: &'a JsonValue, segment: &str) -> (r: Result<&'a JsonValue, FilterError>)
        ensures
            resolved_view(r) == resolve_step(cur@, segment@),
    {
        let sc = chars_of(segment);
        let has_bracket = crate::text::text_has_char(segment, '[');
        if has_bracket && sc.len() > 0 && sc[sc.len() - 1] == ']' {
            proof {
                lemma_has_char_index(segment@, '[');
                lemma_index_of_from(segment@, '[', 0);
            }
            let (field, index) = match self.parse_array_segment(segment) {
                Ok(p) => p,
                Err(e) => return Err(e),
            };
            let mut base: &JsonValue = cur;
            if field.unicode_len() > 0 {
                match value_get(cur, &field) {
                    Some(v) => {
                        base = v;
                    },
                    None => return Err(FilterError::PathNotFound(field)),
                }
            }
            match base {
                JsonValue::Array(items) => {
                    proof {
                        lemma_item_views(items@, items@.len());
                    }
                    if index < items.len() {
                        Ok(&items[index])
                    } else {
                        Err(FilterError::InvalidArrayIndex(usize_to_text(index)))
                    }
                },
                _ => Err(
                    FilterError::TypeMismatch {
                        expected: String::from_str("array"),
                        got: base.deep_copy(),
                    },
                ),
            }
        } else {
            let key = text_of(segment);
            match value_get(cur, &key) {
                Some(v) => Ok(v),
                None => Err(FilterError::PathNotFound(key)),
            }
        }
    }

    /// Follows the filter's path inside `value`.
    pub fn resolve_path<'a>(&self, value: &'a JsonValue) -> (r: Result<&'a JsonValue, FilterError>)
        ensures
            resolved_view(r) == resolve_path_spec(value@, self.path@),
    {
        let pc = chars_of(self.path.as_str());
        if pc.len() == 1 && pc[0] == '.' {
            assert(self.path@ =~= seq!['.']);
            return Ok(value);
        }
        assert(self.path@ != seq!['.']);
        let segs = split_text(self.path.as_str(), '.');
        let ghost sv = split_on(self.path@, '.');
        let mut current: &JsonValue = value;
        let mut i: usize = 0;
        while i < segs.len()
            invariant
                self.path@ != seq!['.'],
                sv == split_on(self.path@, '.'),
                segs.len() == sv.len(),
                forall|j: int| 0 <= j < segs.len() ==> #[trigger] segs@[j]@ == sv[j],
                0 <= i <= segs.len(),
                resolve_segments(value@, sv, i as nat) == Ok::<JsonView, FilterFailure>(
                    current@,
                ),
            decreases segs.len() - i,
        {
            let step = self.resolve_segment(current, segs[i].as_str());
            assert(segs@[i as int]@ == sv[i as int]);
            match step {
                Ok(next) => {
                    current = next;
                },
                Err(e) => {
                    proof {
                        assert(resolve_segments(value@, sv, (i + 1) as nat) == resolve_step(
                            current@,
                            sv[i as int],
                        ));
                        lemma_resolve_err_stays(value@, sv, (i + 1) as nat, sv.len());
                    }
                    return Err(e);
                },
            }
            i = i + 1;
        }
        Ok(current)
    }

    /// Checks the filter on `value`: resolves the path, then checks the
    /// operator on what it leads to.
    pub fn check(&self, value: &JsonValue) -> (r: Result<bool, FilterError>)
        ensures
            outcome_view(r) == eval_filter(*self, value@),
        decreases *self, 1nat,
    {
        let target = match self.resolve_path(value) {
            Ok(t) => t,
            Err(e) => return Err(e),
        };
        self.check_operator(target)
    }

    /// Checks the filter's operator on `value`.
    #[verifier::loop_isolation(false)]
    pub fn check_operator(&self, value: &JsonValue) -> (r: Result<bool, FilterError>)
        ensures
            outcome_view(r) == eval_operator(*self, value@),
        decreases *self, 0nat,
    {
        match &self.operator {
            Operator::GreaterThan(n) => match value {
                JsonValue::Number(x) => Ok(double_less(*n, x.double_bits)),
                _ => Err(self.mismatch_error("number", value)),
            },
            Operator::LessThan(n) => match value {
                JsonValue::Number(x) => Ok(double_less(x.double_bits, *n)),
                _ => Err(self.mismatch_error("number", value)),
            },
            Operator::GreaterOrEqual(n) => match value {
                JsonValue::Number(x) => Ok(
                    double_less(*n, x.double_bits) || double_equal(*n, x.double_bits),
                ),
                _ => Err(self.mismatch_error("number", value)),
            },
            Operator::LessOrEqual(n) => match value {
                JsonValue::Number(x) => Ok(
                    double_less(x.double_bits, *n) || double_equal(x.double_bits, *n),
                ),
                _ => Err(self.mismatch_error("number", value)),
            },
            Operator::Equals(target) => Ok(value.equals(target)),
            Operator::NotEqual(target) => Ok(!value.equals(target)),
            Operator::StartsWith(s) => match value {
                JsonValue::String(x) => Ok(text_starts_with(x.as_str(), s.as_str())),
                _ => Err(self.mismatch_error("string", value)),
            },
            Operator::EndsWith(s) => match value {
                JsonValue::String(x) => Ok(text_ends_with(x.as_str(), s.as_str())),
                _ => Err(self.mismatch_error("string", value)),
            },
            Operator::Contains(s) => match value {
                JsonValue::String(x) => Ok(text_contains(x.as_str(), s.as_str())),
                _ => Err(self.mismatch_error("string", value)),
            },
            Operator::ArrayContains(target) => match value {
                JsonValue::Array(items) => {
                    proof {
                        lemma_item_views(items@, items@.len());
                    }
                    let ghost iv = item_views(items@, items@.len());
                    let mut i: usize = 0;
                    let mut found = false;
                    while i < items.len()
                        invariant
                            0 <= i <= items.len(),
                            iv == item_views(items@, items@.len()),
                            found == exists|j: int|
                                0 <= j < i && crate::json::view_eq(#[trigger] iv[j], target@),
                        decreases items.len() - i,
                    {
                        assert(iv[i as int] == items@[i as int]@);
                        if items[i].equals(target) {
                            found = true;
                        }
                        i = i + 1;
                    }
                    Ok(found)
                },
                _ => Err(self.mismatch_error("array", value)),
            },
            Operator::HasKey(k) => match value {
                JsonValue::Object(members) => Ok(member_get(members, k).is_some()),
                _ => Err(self.mismatch_error("object", value)),
            },
            Operator::And(filters) => {
                let mut i: usize = 0;
                let mut all = true;
                while i < filters.len()
                    invariant
                        0 <= i <= filters.len(),
                        eval_all(filters@, value@, i as nat) == Ok::<bool, FilterFailure>(all),
                    decreases filters.len() - i,
                {
                    assert(decreases_to!(*self => self.operator));
                    assert(decreases_to!(self.operator => *filters));
                    assert(decreases_to!(*filters => filters[i as int]));
                    match filters[i].check(value) {
                        Ok(b) => {
                            all = all && b;
                        },
                        Err(e) => {
                            proof {
                                lemma_eval_all_err_stays(
                                    filters@,
                                    value@,
                                    (i + 1) as nat,
                                    filters@.len(),
                                );
                            }
                            return Err(e);
                        },
                    }
                    i = i + 1;
                }
                Ok(all)
            },
            Operator::Or(filters) => {
                let mut i: usize = 0;
                let mut any = false;
                while i < filters.len()
                    invariant
                        0 <= i <= filters.len(),
                        eval_any(filters@, value@, i as nat) == Ok::<bool, FilterFailure>(any),
                    decreases filters.len() - i,
                {
                    assert(decreases_to!(*self => self.operator));
                    assert(decreases_to!(self.operator => *filters));
                    assert(decreases_to!(*filters => filters[i as int]));
                    match filters[i].check(value) {
                        Ok(b) => {
                            any = any || b;
                        },
                        Err(e) => {
                            proof {
                                lemma_eval_any_err_stays(
                                    filters@,
                                    value@,
                                    (i + 1) as nat,
                                    filters@.len(),
                                );
                            }
                            return Err(e);
                        },
                    }
                    i = i + 1;
                }
                Ok(any)
            },
        }
    }

    fn mismatch_error(&self, expected: &str, got: &JsonValue) -> (r: FilterError)
        ensures
            r@ == (FilterFailure::TypeMismatch { expected: expected@, got: got@ }),
    {
        FilterError::TypeMismatch { expected: String::from_str(expected), got: got.deep_copy() }
    }
}


// ---------------------------------------------------------------------------
// Laws
// ---------------------------------------------------------------------------

/// The path `.` leads to the whole value.
pub proof fn law_root_path_is_identity(v: JsonView)
    ensures
        resolve_path_spec(v, seq!['.']) == Ok::<JsonView, FilterFailure>(v),
{
}

/// A filter `And []` on the whole value holds on every value: it is the
/// subscription that receives every event.
pub proof fn law_empty_and_matches_everything(f: Filter, v: JsonView)
    requires
        f.path@ == seq!['.'],
        f.operator matches Operator::And(fs) && fs@.len() == 0,
    ensures
        eval_filter(f, v) == Ok::<bool, FilterFailure>(true),
{
}

/// A filter `Or []` on the whole value holds on no value.
pub proof fn law_empty_or_matches_nothing(f: Filter, v: JsonView)
    requires
        f.path@ == seq!['.'],
        f.operator matches Operator::Or(fs) && fs@.len() == 0,
    ensures
        eval_filter(f, v) == Ok::<bool, FilterFailure>(false),
{
}

/// `NotEqual t` is the negation of `Equals t` on the same path: both fail
/// with the same error, or their outcomes are opposite.
pub proof fn law_not_equal_negates_equals(eq: Filter, ne: Filter, v: JsonView)
    requires
        eq.path@ == ne.path@,
        eq.operator matches Operator::Equals(a) && ne.operator matches Operator::NotEqual(b) && a@
            == b@,
    ensures
        match (eval_filter(eq, v), eval_filter(ne, v)) {
            (Ok(x), Ok(y)) => x == !y,
            (Err(x), Err(y)) => x == y,
            _ => false,
        },
{
}

/// `And [g]` on the whole value has the outcome of `g`.
pub proof fn law_single_and_is_the_filter(f: Filter, v: JsonView)
    requires
        f.path@ == seq!['.'],
        f.operator matches Operator::And(fs) && fs@.len() == 1,
    ensures
        f.operator matches Operator::And(fs) && eval_filter(f, v) == eval_filter(fs@[0], v),
{
    if let Operator::And(fs) = f.operator {
        assert(eval_all(fs@, v, 0) == Ok::<bool, FilterFailure>(true));
        assert(eval_all(fs@, v, 1) == match eval_filter(fs@[0], v) {
            Err(e) => Err(e),
            Ok(c) => Ok::<bool, FilterFailure>(true && c),
        });
    }
}

/// On the same path, `GreaterThan n` and `LessOrEqual n` have opposite
/// outcomes whenever neither the bound nor the number found is a NaN.
pub proof fn law_greater_than_complements_less_or_equal(gt: Filter, le: Filter, v: JsonView)
    requires
        gt.path@ == le.path@,
        gt.operator matches Operator::GreaterThan(a) && le.operator matches Operator::LessOrEqual(b)
            && a == b && !crate::json::double_is_nan(a),
        resolve_path_spec(v, gt.path@) matches Ok(JsonView::Number(x)) && !crate::json::double_is_nan(x.double_bits),
    ensures
        match (eval_filter(gt, v), eval_filter(le, v)) {
            (Ok(x), Ok(y)) => x == !y,
            _ => false,
        },
{
}

/// A value whose path cannot be followed makes every operator fail with the
/// same error.
pub proof fn law_path_error_is_the_outcome(f: Filter, v: JsonView)
    requires
        resolve_path_spec(v, f.path@) is Err,
    ensures
        eval_filter(f, v) == match resolve_path_spec(v, f.path@) {
            Err(e) => Err::<bool, FilterFailure>(e),
            Ok(_) => Ok(true),
        },
{
}

/// `Equals v` on the whole value holds of `v` itself (for a value that a
/// parser can produce).
pub proof fn law_equals_matches_itself(f: Filter, v: JsonView)
    requires
        f.path@ == seq!['.'],
        f.operator matches Operator::Equals(target) && target@ == v,
        crate::json::view_wf(v),
    ensures
        eval_filter(f, v) == Ok::<bool, FilterFailure>(true),
{
    crate::json::law_equality_is_reflexive(v);
}

/// `ArrayContains x` on the whole value holds of every array that has `x`
/// among its items (for an `x` that a parser can produce).
pub proof fn law_array_contains_its_items(f: Filter, items: Seq<JsonView>, i: int)
    requires
        f.path@ == seq!['.'],
        0 <= i < items.len(),
        f.operator matches Operator::ArrayContains(target) && target@ == items[i],
        crate::json::view_wf(items[i]),
    ensures
        eval_filter(f, JsonView::Array(items)) == Ok::<bool, FilterFailure>(true),
{
    crate::json::law_equality_is_reflexive(items[i]);
    assert(items_contain(items, items[i]));
}

/// `Equals a` holds of `b` exactly when `Equals b` holds of `a` (for values
/// that a parser can produce).
pub proof fn law_equals_is_symmetric(f: Filter, g: Filter, a: JsonView, b: JsonView)
    requires
        f.path@ == seq!['.'],
        g.path@ == seq!['.'],
        f.operator matches Operator::Equals(x) && x@ == a,
        g.operator matches Operator::Equals(y) && y@ == b,
        crate::json::view_wf(a),
        crate::json::view_wf(b),
    ensures
        eval_filter(f, b) == eval_filter(g, a),
{
    if crate::json::view_eq(b, a) {
        crate::json::law_equality_is_symmetric(b, a);
    }
    if crate::json::view_eq(a, b) {
        crate::json::law_equality_is_symmetric(a, b);
    }
}

/// On a number that is not a NaN, compared with a bound that is not a NaN:
/// `GreaterOrEqual n` holds exactly when `LessThan n` does not, and it holds
/// whenever the number lies above the bound or equals it; `GreaterThan n`
/// holds exactly when the number lies above the bound.
pub proof fn law_numeric_bounds_order_numbers(ge: Filter, lt: Filter, gt: Filter, v: JsonView)
    requires
        ge.path@ == lt.path@,
        ge.path@ == gt.path@,
        ge.operator matches Operator::GreaterOrEqual(a) && lt.operator matches Operator::LessThan(b)
            && gt.operator matches Operator::GreaterThan(c) && a == b && a == c
            && !crate::json::double_is_nan(a),
        resolve_path_spec(v, ge.path@) matches Ok(JsonView::Number(x)) && !crate::json::double_is_nan(
            x.double_bits,
        ),
    ensures
        ({
            let n = match ge.operator {
                Operator::GreaterOrEqual(a) => a,
                _ => 0,
            };
            let x = match resolve_path_spec(v, ge.path@) {
                Ok(JsonView::Number(x)) => x.double_bits,
                _ => 0,
            };
            &&& eval_filter(ge, v) is Ok && eval_filter(lt, v) is Ok && eval_filter(gt, v) is Ok
            &&& eval_filter(ge, v) == Ok::<bool, FilterFailure>(!(eval_filter(lt, v) == Ok::<bool, FilterFailure>(true)))
            &&& (crate::json::double_rank(x) >= crate::json::double_rank(n) <==> eval_filter(ge, v) == Ok::<bool, FilterFailure>(true))
            &&& (crate::json::double_rank(x) > crate::json::double_rank(n) <==> eval_filter(gt, v) == Ok::<bool, FilterFailure>(true))
        }),
{
}

/// A numeric operator on a number compares the number with the bound as
/// numbers on the number line (neither being a NaN): `GreaterThan` above,
/// `LessThan` below, `GreaterOrEqual` above or equal, `LessOrEqual` below or
/// equal; `0.0` and `-0.0` are equal.
pub proof fn law_numeric_operator_compares_values(f: Filter, v: JsonView, n: u64, x: u64)
    requires
        resolve_path_spec(v, f.path@) matches Ok(JsonView::Number(num)) && num.double_bits == x,
        !crate::json::double_is_nan(x),
        !crate::json::double_is_nan(n),
    ensures
        f.operator == Operator::GreaterThan(n) ==> eval_filter(f, v) == Ok::<bool, FilterFailure>(
            crate::json::double_rank(x) > crate::json::double_rank(n),
        ),
        f.operator == Operator::LessThan(n) ==> eval_filter(f, v) == Ok::<bool, FilterFailure>(
            crate::json::double_rank(x) < crate::json::double_rank(n),
        ),
        f.operator == Operator::GreaterOrEqual(n) ==> eval_filter(f, v) == Ok::<bool, FilterFailure>(
            crate::json::double_rank(x) >= crate::json::double_rank(n),
        ),
        f.operator == Operator::LessOrEqual(n) ==> eval_filter(f, v) == Ok::<bool, FilterFailure>(
            crate::json::double_rank(x) <= crate::json::double_rank(n),
        ),
{
}

} // verus!
