//! A JSON document model: the values that event payloads and filter
//! targets are made of, with the equality and lookups that filters use.
use vstd::prelude::*;

verus! {

broadcast use vstd::std_specs::vec::group_vec_axioms;

/// The bit of an IEEE-754 binary64 pattern that holds the sign.
pub const DOUBLE_SIGN_BIT: u64 = 0x8000_0000_0000_0000;

/// The bit pattern of positive infinity; every larger magnitude is a NaN.
pub const DOUBLE_INFINITY_BITS: u64 = 0x7ff0_0000_0000_0000;

/// The magnitude part (all bits but the sign) of a binary64 pattern.
pub open spec fn double_magnitude(bits: u64) -> int {
    if bits >= DOUBLE_SIGN_BIT {
        bits - DOUBLE_SIGN_BIT
    } else {
        bits as int
    }
}

/// Whether a binary64 pattern encodes a NaN.
pub open spec fn double_is_nan(bits: u64) -> bool {
    double_magnitude(bits) > DOUBLE_INFINITY_BITS
}

/// The position of a non-NaN binary64 value on the number line: patterns
/// order like their magnitudes, negated for the sign; both zeros sit at 0.
pub open spec fn double_rank(bits: u64) -> int {
    if bits >= DOUBLE_SIGN_BIT {
        -double_magnitude(bits)
    } else {
        double_magnitude(bits)
    }
}

/// IEEE-754 `a < b` on two binary64 patterns (false when either is NaN).
pub open spec fn double_lt(a: u64, b: u64) -> bool {
    !double_is_nan(a) && !double_is_nan(b) && double_rank(a) < double_rank(b)
}

/// IEEE-754 `a == b` on two binary64 patterns (false when either is NaN).
pub open spec fn double_eq(a: u64, b: u64) -> bool {
    !double_is_nan(a) && !double_is_nan(b) && double_rank(a) == double_rank(b)
}

/// IEEE-754 `a <= b` on two binary64 patterns.
pub open spec fn double_le(a: u64, b: u64) -> bool {
    double_lt(a, b) || double_eq(a, b)
}

fn double_is_nan_exec(bits: u64) -> (r: bool)
    ensures
        r == double_is_nan(bits),
{
    let magnitude = if bits >= DOUBLE_SIGN_BIT {
        bits - DOUBLE_SIGN_BIT
    } else {
        bits
    };
    magnitude > DOUBLE_INFINITY_BITS
}

/// Compares two binary64 patterns as IEEE-754 doubles: `a < b`.
pub fn double_less(a: u64, b: u64) -> (r: bool)
    ensures
        r == double_lt(a, b),
{
    if double_is_nan_exec(a) || double_is_nan_exec(b) {
        return false;
    }
    let a_negative = a >= DOUBLE_SIGN_BIT;
    let b_negative = b >= DOUBLE_SIGN_BIT;
    let a_magnitude = if a_negative {
        a - DOUBLE_SIGN_BIT
    } else {
        a
    };
    let b_magnitude = if b_negative {
        b - DOUBLE_SIGN_BIT
    } else {
        b
    };
    if !a_negative && !b_negative {
        a_magnitude < b_magnitude
    } else if a_negative && b_negative {
        a_magnitude > b_magnitude
    } else if a_negative {
        !(a_magnitude == 0 && b_magnitude == 0)
    } else {
        false
    }
}

/// Compares two binary64 patterns as IEEE-754 doubles: `a == b`.
pub fn double_equal(a: u64, b: u64) -> (r: bool)
    ensures
        r == double_eq(a, b),
{
    if double_is_nan_exec(a) || double_is_nan_exec(b) {
        return false;
    }
    let a_negative = a >= DOUBLE_SIGN_BIT;
    let b_negative = b >= DOUBLE_SIGN_BIT;
    let a_magnitude = if a_negative {
        a - DOUBLE_SIGN_BIT
    } else {
        a
    };
    let b_magnitude = if b_negative {
        b - DOUBLE_SIGN_BIT
    } else {
        b
    };
    if a_negative == b_negative {
        a_magnitude == b_magnitude
    } else {
        a_magnitude == 0 && b_magnitude == 0
    }
}

/// The exact form in which a JSON number was written.
#[derive(Clone, Copy, Debug, PartialEq, Eq, Structural)]
pub enum NumberKind {
    /// A non-negative integer.
    PosInt(u64),
    /// A negative integer.
    NegInt(i64),
    /// A number with a fraction or an exponent; its value is `double_bits`.
    Float,
}

/// A JSON number: its exact form, and its value as a binary64 double
/// (bit pattern), which is what the numeric comparisons of a filter use.
#[derive(Clone, Copy, Debug, PartialEq, Eq, Structural)]
pub struct JsonNumber {
    pub kind: NumberKind,
    pub double_bits: u64,
}

/// Equality of two JSON numbers: integers compare exactly and only with
/// integers of the same sign class; fractional numbers compare as doubles.
pub open spec fn number_eq(a: JsonNumber, b: JsonNumber) -> bool {
    match (a.kind, b.kind) {
        (NumberKind::PosInt(x), NumberKind::PosInt(y)) => x == y,
        (NumberKind::NegInt(x), NumberKind::NegInt(y)) => x == y,
        (NumberKind::Float, NumberKind::Float) => double_eq(a.double_bits, b.double_bits),
        _ => false,
    }
}

impl JsonNumber {
    /// A non-negative integer together with its value as a double.
    pub fn pos_int(value: u64, double_bits: u64) -> (r: JsonNumber)
        ensures
            r.kind == NumberKind::PosInt(value),
            r.double_bits == double_bits,
    {
        JsonNumber { kind: NumberKind::PosInt(value), double_bits }
    }

    /// A negative integer together with its value as a double.
    pub fn neg_int(value: i64, double_bits: u64) -> (r: JsonNumber)
        ensures
            r.kind == NumberKind::NegInt(value),
            r.double_bits == double_bits,
    {
        JsonNumber { kind: NumberKind::NegInt(value), double_bits }
    }

    /// A fractional number given by its double bit pattern.
    pub fn float(double_bits: u64) -> (r: JsonNumber)
        ensures
            r.kind == NumberKind::Float,
            r.double_bits == double_bits,
    {
        JsonNumber { kind: NumberKind::Float, double_bits }
    }

    /// Equality of two JSON numbers.
    pub fn equals(&self, other: &JsonNumber) -> (r: bool)
        ensures
            r == number_eq(*self, *other),
    {
        match (self.kind, other.kind) {
            (NumberKind::PosInt(x), NumberKind::PosInt(y)) => x == y,
            (NumberKind::NegInt(x), NumberKind::NegInt(y)) => x == y,
            (NumberKind::Float, NumberKind::Float) => double_equal(
                self.double_bits,
                other.double_bits,
            ),
            _ => false,
        }
    }
}

/// A JSON value. Object members are kept in a vector of key/value pairs.
#[derive(Debug)]
pub enum JsonValue {
    Null,
    Bool(bool),
    Number(JsonNumber),
    String(String),
    Array(Vec<JsonValue>),
    Object(Vec<(String, JsonValue)>),
}

/// The mathematical content of a JSON value: strings as character sequences.
pub enum JsonView {
    Null,
    Bool(bool),
    Number(JsonNumber),
    Str(Seq<char>),
    Array(Seq<JsonView>),
    Object(Seq<(Seq<char>, JsonView)>),
}

pub open spec fn json_view(v: JsonValue) -> JsonView
    decreases v, 0nat,
{
    match v {
        JsonValue::Null => JsonView::Null,
        JsonValue::Bool(b) => JsonView::Bool(b),
        JsonValue::Number(n) => JsonView::Number(n),
        JsonValue::String(s) => JsonView::Str(s@),
        JsonValue::Array(items) => JsonView::Array(item_views(items@, items@.len())),
        JsonValue::Object(members) => JsonView::Object(member_views(members@, members@.len())),
    }
}

/// The views of the first `n` items.
pub open spec fn item_views(items: Seq<JsonValue>, n: nat) -> Seq<JsonView>
    decreases items, n,
{
    if n == 0 || n > items.len() {
        Seq::empty()
    } else {
        item_views(items, (n - 1) as nat).push(json_view(items[n - 1]))
    }
}

/// The views of the first `n` members.
pub open spec fn member_views(members: Seq<(String, JsonValue)>, n: nat) -> Seq<(Seq<char>, JsonView)>
    decreases members, n,
{
    if n == 0 || n > members.len() {
        Seq::empty()
    } else {
        member_views(members, (n - 1) as nat).push(
            (members[n - 1].0@, json_view(members[n - 1].1)),
        )
    }
}

impl View for JsonValue {
    type V = JsonView;

    open spec fn view(&self) -> JsonView {
        json_view(*self)
    }
}

pub proof fn lemma_item_views(items: Seq<JsonValue>, n: nat)
    requires
        n <= items.len(),
    ensures
        item_views(items, n).len() == n,
        forall|i: int| 0 <= i < n ==> #[trigger] item_views(items, n)[i] == json_view(items[i]),
    decreases n,
{
    if n > 0 {
        lemma_item_views(items, (n - 1) as nat);
    }
}

pub proof fn lemma_member_views(members: Seq<(String, JsonValue)>, n: nat)
    requires
        n <= members.len(),
    ensures
        member_views(members, n).len() == n,
        forall|i: int|
            0 <= i < n ==> #[trigger] member_views(members, n)[i] == (
                members[i].0@,
                json_view(members[i].1),
            ),
    decreases n,
{
    if n > 0 {
        lemma_member_views(members, (n - 1) as nat);
    }
}

/// The value stored under `key` among `members` (the first member with that key).
pub open spec fn member_lookup(members: Seq<(Seq<char>, JsonView)>, key: Seq<char>) -> Option<JsonView>
    decreases members.len(),
{
    if members.len() == 0 {
        None
    } else if members[0].0 == key {
        Some(members[0].1)
    } else {
        member_lookup(members.drop_first(), key)
    }
}

/// Equality of JSON values: arrays element by element, objects as maps
/// (same number of members, and each member found under its key with an
/// equal value).
pub open spec fn view_eq(a: JsonView, b: JsonView) -> bool
    decreases a, 0nat,
{
    match (a, b) {
        (JsonView::Null, JsonView::Null) => true,
        (JsonView::Bool(x), JsonView::Bool(y)) => x == y,
        (JsonView::Number(x), JsonView::Number(y)) => number_eq(x, y),
        (JsonView::Str(x), JsonView::Str(y)) => x == y,
        (JsonView::Array(x), JsonView::Array(y)) => x.len() == y.len() && items_eq(
            x,
            y,
            x.len(),
        ),
        (JsonView::Object(x), JsonView::Object(y)) => x.len() == y.len() && members_found(
            x,
            y,
            x.len(),
        ),
        _ => false,
    }
}

/// The first `n` items of `x` equal those of `y`.
pub open spec fn items_eq(x: Seq<JsonView>, y: Seq<JsonView>, n: nat) -> bool
    decreases x, n,
{
    if n == 0 || n > x.len() {
        true
    } else {
        items_eq(x, y, (n - 1) as nat) && view_eq(x[n - 1], y[n - 1])
    }
}

/// Each of the first `n` members of `x` is found in `y` with an equal value.
pub open spec fn members_found(x: Seq<(Seq<char>, JsonView)>, y: Seq<(Seq<char>, JsonView)>, n: nat) -> bool
    decreases x, n,
{
    if n == 0 || n > x.len() {
        true
    } else {
        members_found(x, y, (n - 1) as nat) && match member_lookup(y, x[n - 1].0) {
            Some(v) => view_eq(x[n - 1].1, v),
            None => false,
        }
    }
}


pub proof fn lemma_member_lookup_at(s: Seq<(Seq<char>, JsonView)>, key: Seq<char>, i: int)
    requires
        0 <= i <= s.len(),
        forall|j: int| 0 <= j < i ==> #[trigger] s[j].0 != key,
    ensures
        i < s.len() && s[i].0 == key ==> member_lookup(s, key) == Some(s[i].1),
        i == s.len() ==> member_lookup(s, key) is None,
    decreases i,
{
    if i > 0 {
        let t = s.drop_first();
        assert forall|j: int| 0 <= j < i - 1 implies #[trigger] t[j].0 != key by {
            assert(t[j] == s[j + 1]);
        }
        lemma_member_lookup_at(t, key, i - 1);
    }
}

pub proof fn lemma_items_eq_prefix(x: Seq<JsonView>, y: Seq<JsonView>, n: nat, m: nat)
    requires
        m <= n <= x.len(),
        items_eq(x, y, n),
    ensures
        items_eq(x, y, m),
    decreases n,
{
    if m < n {
        lemma_items_eq_prefix(x, y, (n - 1) as nat, m);
    }
}

pub proof fn lemma_members_found_prefix(
    x: Seq<(Seq<char>, JsonView)>,
    y: Seq<(Seq<char>, JsonView)>,
    n: nat,
    m: nat,
)
    requires
        m <= n <= x.len(),
        members_found(x, y, n),
    ensures
        members_found(x, y, m),
    decreases n,
{
    if m < n {
        lemma_members_found_prefix(x, y, (n - 1) as nat, m);
    }
}

/// A JSON value as a parser produces it: no number is a NaN, and no object
/// holds a key twice.
pub open spec fn view_wf(v: JsonView) -> bool
    decreases v, 0nat,
{
    match v {
        JsonView::Number(n) => !double_is_nan(n.double_bits),
        JsonView::Array(x) => items_wf(x, x.len()),
        JsonView::Object(x) => keys_distinct(x) && members_wf(x, x.len()),
        _ => true,
    }
}

/// The first `n` items are well formed.
pub open spec fn items_wf(x: Seq<JsonView>, n: nat) -> bool
    decreases x, n,
{
    if n == 0 || n > x.len() {
        true
    } else {
        items_wf(x, (n - 1) as nat) && view_wf(x[n - 1])
    }
}

/// The values of the first `n` members are well formed.
pub open spec fn members_wf(x: Seq<(Seq<char>, JsonView)>, n: nat) -> bool
    decreases x, n,
{
    if n == 0 || n > x.len() {
        true
    } else {
        members_wf(x, (n - 1) as nat) && view_wf(x[n - 1].1)
    }
}

/// No two members have the same key.
pub open spec fn keys_distinct(x: Seq<(Seq<char>, JsonView)>) -> bool {
    forall|i: int, j: int| 0 <= i < j < x.len() ==> #[trigger] x[i].0 != #[trigger] x[j].0
}

/// Every well-formed JSON value equals itself.
pub proof fn law_equality_is_reflexive(v: JsonView)
    requires
        view_wf(v),
    ensures
        view_eq(v, v),
    decreases v, 0nat,
{
    match v {
        JsonView::Array(x) => lemma_items_eq_refl(x, x.len()),
        JsonView::Object(x) => lemma_members_found_refl(x, x.len()),
        _ => {},
    }
}

proof fn lemma_items_eq_refl(x: Seq<JsonView>, n: nat)
    requires
        items_wf(x, n),
    ensures
        items_eq(x, x, n),
    decreases x, n,
{
    if n > 0 && n <= x.len() {
        lemma_items_eq_refl(x, (n - 1) as nat);
        law_equality_is_reflexive(x[n - 1]);
    }
}

proof fn lemma_members_found_refl(x: Seq<(Seq<char>, JsonView)>, n: nat)
    requires
        keys_distinct(x),
        members_wf(x, n),
    ensures
        members_found(x, x, n),
    decreases x, n,
{
    if n > 0 && n <= x.len() {
        lemma_members_found_refl(x, (n - 1) as nat);
        let key = x[n - 1].0;
        assert forall|j: int| 0 <= j < n - 1 implies #[trigger] x[j].0 != key by {
            assert(x[j].0 != x[n - 1].0);
        }
        lemma_member_lookup_at(x, key, n - 1);
        assert(decreases_to!(x => x[n - 1]));
        law_equality_is_reflexive(x[n - 1].1);
    }
}

/// JSON equality is symmetric on well-formed values.
pub proof fn law_equality_is_symmetric(a: JsonView, b: JsonView)
    requires
        view_wf(a),
        view_wf(b),
        view_eq(a, b),
    ensures
        view_eq(b, a),
    decreases a, 0nat,
{
    match (a, b) {
        (JsonView::Array(x), JsonView::Array(y)) => lemma_items_eq_sym(x, y, x.len()),
        (JsonView::Object(x), JsonView::Object(y)) => lemma_members_found_sym(x, y, x.len()),
        _ => {},
    }
}

proof fn lemma_items_eq_sym(x: Seq<JsonView>, y: Seq<JsonView>, n: nat)
    requires
        x.len() == y.len(),
        n <= x.len(),
        items_wf(x, n),
        items_wf(y, n),
        items_eq(x, y, n),
    ensures
        items_eq(y, x, n),
    decreases x, n,
{
    if n > 0 {
        lemma_items_eq_sym(x, y, (n - 1) as nat);
        law_equality_is_symmetric(x[n - 1], y[n - 1]);
    }
}

proof fn lemma_members_wf_at(x: Seq<(Seq<char>, JsonView)>, n: nat, i: int)
    requires
        n <= x.len(),
        0 <= i < n,
        members_wf(x, n),
    ensures
        view_wf(x[i].1),
    decreases n,
{
    if i < n - 1 {
        lemma_members_wf_at(x, (n - 1) as nat, i);
    }
}

proof fn lemma_members_found_at(x: Seq<(Seq<char>, JsonView)>, y: Seq<(Seq<char>, JsonView)>, n: nat, i: int)
    requires
        n <= x.len(),
        0 <= i < n,
        members_found(x, y, n),
    ensures
        member_lookup(y, x[i].0) matches Some(v) && view_eq(x[i].1, v),
{
    lemma_members_found_prefix(x, y, n, (i + 1) as nat);
}

proof fn lemma_member_lookup_some(s: Seq<(Seq<char>, JsonView)>, key: Seq<char>)
    requires
        member_lookup(s, key) is Some,
    ensures
        exists|j: int| 0 <= j < s.len() && (#[trigger] s[j]).0 == key,
    decreases s.len(),
{
    if s[0].0 != key {
        let t = s.drop_first();
        lemma_member_lookup_some(t, key);
        let j = choose|j: int| 0 <= j < t.len() && (#[trigger] t[j]).0 == key;
        assert(s[j + 1] == t[j]);
    }
}

/// The keys of an object's members, in order.
pub open spec fn member_keys(x: Seq<(Seq<char>, JsonView)>) -> Seq<Seq<char>> {
    x.map_values(|m: (Seq<char>, JsonView)| m.0)
}

proof fn lemma_member_keys_set(x: Seq<(Seq<char>, JsonView)>)
    requires
        keys_distinct(x),
    ensures
        member_keys(x).to_set().len() == x.len(),
        member_keys(x).to_set().finite(),
        forall|k: Seq<char>|
            #[trigger] member_keys(x).to_set().contains(k) <==> exists|i: int|
                0 <= i < x.len() && (#[trigger] x[i]).0 == k,
{
    let keys = member_keys(x);
    assert forall|i: int, j: int| 0 <= i < keys.len() && 0 <= j < keys.len() && i != j implies keys[i]
        != keys[j] by {
        if i < j {
            assert(x[i].0 != x[j].0);
        } else {
            assert(x[j].0 != x[i].0);
        }
    }
    keys.unique_seq_to_set();
    vstd::seq_lib::seq_to_set_is_finite(keys);
    assert forall|k: Seq<char>| #[trigger] keys.to_set().contains(k) <==> exists|i: int|
        0 <= i < x.len() && (#[trigger] x[i]).0 == k by {
        if keys.to_set().contains(k) {
            let i = choose|i: int| 0 <= i < keys.len() && keys[i] == k;
            assert(x[i].0 == k);
        }
        if exists|i: int| 0 <= i < x.len() && (#[trigger] x[i]).0 == k {
            let i = choose|i: int| 0 <= i < x.len() && (#[trigger] x[i]).0 == k;
            assert(keys[i] == k);
        }
    }
}

proof fn lemma_members_found_from_each(x: Seq<(Seq<char>, JsonView)>, y: Seq<(Seq<char>, JsonView)>, n: nat)
    requires
        n <= x.len(),
        forall|j: int|
            0 <= j < n ==> (member_lookup(y, (#[trigger] x[j]).0) matches Some(v) && view_eq(
                x[j].1,
                v,
            )),
    ensures
        members_found(x, y, n),
    decreases n,
{
    if n > 0 {
        lemma_members_found_from_each(x, y, (n - 1) as nat);
        assert(member_lookup(y, x[n - 1].0) matches Some(v) && view_eq(x[n - 1].1, v));
    }
}

proof fn lemma_members_found_sym(x: Seq<(Seq<char>, JsonView)>, y: Seq<(Seq<char>, JsonView)>, n: nat)
    requires
        n == x.len(),
        x.len() == y.len(),
        keys_distinct(x),
        keys_distinct(y),
        members_wf(x, n),
        members_wf(y, n),
        members_found(x, y, n),
    ensures
        members_found(y, x, n),
    decreases x, n,
{
    let kx = member_keys(x).to_set();
    let ky = member_keys(y).to_set();
    lemma_member_keys_set(x);
    lemma_member_keys_set(y);
    assert forall|k: Seq<char>| kx.contains(k) implies ky.contains(k) by {
        let i = choose|i: int| 0 <= i < x.len() && (#[trigger] x[i]).0 == k;
        lemma_members_found_at(x, y, n, i);
        lemma_member_lookup_some(y, k);
    }
    vstd::set_lib::lemma_subset_equality(kx, ky);
    assert forall|j: int| 0 <= j < n implies (member_lookup(x, (#[trigger] y[j]).0) matches Some(v)
        && view_eq(y[j].1, v)) by {
        let k = y[j].0;
        assert(ky.contains(k));
        assert(kx.contains(k));
        let i = choose|i: int| 0 <= i < x.len() && (#[trigger] x[i]).0 == k;
        assert forall|l: int| 0 <= l < i implies #[trigger] x[l].0 != k by {
            assert(x[l].0 != x[i].0);
        }
        lemma_member_lookup_at(x, k, i);
        assert forall|l: int| 0 <= l < j implies #[trigger] y[l].0 != k by {
            assert(y[l].0 != y[j].0);
        }
        lemma_member_lookup_at(y, k, j);
        lemma_members_found_at(x, y, n, i);
        lemma_members_wf_at(x, n, i);
        lemma_members_wf_at(y, n, j);
        assert(decreases_to!(x => x[i]));
        law_equality_is_symmetric(x[i].1, y[j].1);
    }
    lemma_members_found_from_each(y, x, n);
}

/// The value stored under `key` among an object's members (the first
/// member with that key), if any.
pub fn member_get<'a>(members: &'a Vec<(String, JsonValue)>, key: &String) -> (r: Option<&'a JsonValue>)
    ensures
        match r {
            Some(v) => member_lookup(member_views(members@, members@.len()), key@) == Some(v@),
            None => member_lookup(member_views(members@, members@.len()), key@) is None,
        },
{
    let ghost views = member_views(members@, members@.len());
    proof {
        lemma_member_views(members@, members@.len());
    }
    let mut i: usize = 0;
    while i < members.len()
        invariant
            0 <= i <= members.len(),
            views == member_views(members@, members@.len()),
            views.len() == members.len(),
            forall|j: int| 0 <= j < members.len() ==> #[trigger] views[j] == (
                members@[j].0@,
                json_view(members@[j].1),
            ),
            forall|j: int| 0 <= j < i ==> #[trigger] views[j].0 != key@,
        decreases members.len() - i,
    {
        if members[i].0 == *key {
            proof {
                lemma_member_lookup_at(views, key@, i as int);
            }
            return Some(&members[i].1);
        }
        assert(views[i as int].0 != key@);
        i = i + 1;
    }
    proof {
        lemma_member_lookup_at(views, key@, i as int);
    }
    None
}

impl JsonValue {
    /// Equality of JSON values (see `view_eq`).
    #[verifier::loop_isolation(false)]
    pub fn equals(&self, other: &JsonValue) -> (r: bool)
        ensures
            r == view_eq(self@, other@),
        decreases self,
    {
        match (self, other) {
            (JsonValue::Null, JsonValue::Null) => true,
            (JsonValue::Bool(x), JsonValue::Bool(y)) => *x == *y,
            (JsonValue::Number(x), JsonValue::Number(y)) => x.equals(y),
            (JsonValue::String(x), JsonValue::String(y)) => *x == *y,
            (JsonValue::Array(x), JsonValue::Array(y)) => {
                let ghost xv = item_views(x@, x@.len());
                let ghost yv = item_views(y@, y@.len());
                proof {
                    lemma_item_views(x@, x@.len());
                    lemma_item_views(y@, y@.len());
                }
                if x.len() != y.len() {
                    return false;
                }
                let mut i: usize = 0;
                while i < x.len()
                    invariant
                        0 <= i <= x.len(),
                        x.len() == y.len(),
                        xv == item_views(x@, x@.len()),
                        yv == item_views(y@, y@.len()),
                        xv.len() == x.len(),
                        yv.len() == y.len(),
                        forall|j: int| 0 <= j < x.len() ==> #[trigger] xv[j] == json_view(x@[j]),
                        forall|j: int| 0 <= j < y.len() ==> #[trigger] yv[j] == json_view(y@[j]),
                        items_eq(xv, yv, i as nat),
                    decreases x.len() - i,
                {
                    assert(decreases_to!(*self => *x));
                    assert(decreases_to!(*x => x[i as int]));
                    let same = x[i].equals(&y[i]);
                    if !same {
                        proof {
                            if items_eq(xv, yv, xv.len()) {
                                lemma_items_eq_prefix(xv, yv, xv.len(), (i + 1) as nat);
                            }
                        }
                        return false;
                    }
                    i = i + 1;
                }
                true
            },
            (JsonValue::Object(x), JsonValue::Object(y)) => {
                let ghost xv = member_views(x@, x@.len());
                let ghost yv = member_views(y@, y@.len());
                proof {
                    lemma_member_views(x@, x@.len());
                    lemma_member_views(y@, y@.len());
                }
                if x.len() != y.len() {
                    return false;
                }
                let mut i: usize = 0;
                while i < x.len()
                    invariant
                        0 <= i <= x.len(),
                        x.len() == y.len(),
                        xv == member_views(x@, x@.len()),
                        yv == member_views(y@, y@.len()),
                        xv.len() == x.len(),
                        forall|j: int|
                            0 <= j < x.len() ==> #[trigger] xv[j] == (
                                x@[j].0@,
                                json_view(x@[j].1),
                            ),
                        members_found(xv, yv, i as nat),
                    decreases x.len() - i,
                {
                    let found = member_get(y, &x[i].0);
                    let same = match found {
                        Some(v) => {
                            assert(decreases_to!(*self => *x));
                    assert(decreases_to!(*x => x[i as int]));
                            x[i].1.equals(v)
                        },
                        None => false,
                    };
                    if !same {
                        proof {
                            if members_found(xv, yv, xv.len()) {
                                lemma_members_found_prefix(xv, yv, xv.len(), (i + 1) as nat);
                            }
                        }
                        return false;
                    }
                    i = i + 1;
                }
                true
            },
            _ => false,
        }
    }

    /// A copy of this value with the same content.
    #[verifier::loop_isolation(false)]
    pub fn deep_copy(&self) -> (r: JsonValue)
        ensures
            r@ == self@,
        decreases self,
    {
        match self {
            JsonValue::Null => JsonValue::Null,
            JsonValue::Bool(b) => JsonValue::Bool(*b),
            JsonValue::Number(n) => JsonValue::Number(*n),
            JsonValue::String(s) => JsonValue::String(s.clone()),
            JsonValue::Array(x) => {
                let mut out: Vec<JsonValue> = Vec::new();
                let mut i: usize = 0;
                while i < x.len()
                    invariant
                        0 <= i <= x.len(),
                        out.len() == i,
                        forall|j: int| 0 <= j < i ==> #[trigger] json_view(out@[j]) == json_view(x@[j]),
                    decreases x.len() - i,
                {
                    assert(decreases_to!(*self => *x));
                    assert(decreases_to!(*x => x[i as int]));
                    let c = x[i].deep_copy();
                    out.push(c);
                    i = i + 1;
                }
                proof {
                    lemma_item_views(x@, x@.len());
                    lemma_item_views(out@, out@.len());
                    assert(item_views(out@, out@.len()) =~= item_views(x@, x@.len()));
                }
                JsonValue::Array(out)
            },
            JsonValue::Object(x) => {
                let mut out: Vec<(String, JsonValue)> = Vec::new();
                let mut i: usize = 0;
                while i < x.len()
                    invariant
                        0 <= i <= x.len(),
                        out.len() == i,
                        forall|j: int|
                            0 <= j < i ==> #[trigger] out@[j].0@ == x@[j].0@ && json_view(out@[j].1)
                                == json_view(x@[j].1),
                    decreases x.len() - i,
                {
                    assert(decreases_to!(*self => *x));
                    assert(decreases_to!(*x => x[i as int]));
                    let c = x[i].1.deep_copy();
                    let k = x[i].0.clone();
                    out.push((k, c));
                    i = i + 1;
                }
                proof {
                    lemma_member_views(x@, x@.len());
                    lemma_member_views(out@, out@.len());
                    assert(member_views(out@, out@.len()) =~= member_views(x@, x@.len()));
                }
                JsonValue::Object(out)
            },
        }
    }
}

} // verus!
