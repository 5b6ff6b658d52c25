//! Search queries: two incompatible serialization schemes, one per API
//! generation. The legacy scheme numbers criteria and nutrient insertions
//! with 1-based counters and appends fixed trailer parameters; the V2
//! scheme tags parameter names with suffixes and folds non-equality
//! comparisons into the key name.

use vstd::prelude::*;
use vstd::string::*;

use crate::locale::lc_ref_view;
use crate::text::{dec_str, decimal_string, str_eq};
use crate::types::{params_view, Params};

verus! {

/// Sorting criteria for search results.
#[derive(Clone, Copy, Debug)]
pub enum SortBy {
    /// Number of unique scans.
    Popularity,
    /// Product name, alphabetical.
    ProductName,
    /// Add date.
    CreatedDate,
    /// Last edit date.
    LastModifiedDate,
    /// Eco score.
    EcoScore,
}

/// The query-string token of a sorting criterion.
pub open spec fn sort_token(s: SortBy) -> Seq<char> {
    match s {
        SortBy::Popularity => "unique_scans_n"@,
        SortBy::ProductName => "product_name"@,
        SortBy::CreatedDate => "created_t"@,
        SortBy::LastModifiedDate => "last_modified_t"@,
        SortBy::EcoScore => "ecoscore_score"@,
    }
}

impl SortBy {
    /// The token sent as the `sort_by` value.
    pub fn to_string(&self) -> (r: String)
        ensures
            r@ == sort_token(*self),
    {
        match self {
            SortBy::Popularity => "unique_scans_n".to_owned(),
            SortBy::ProductName => "product_name".to_owned(),
            SortBy::CreatedDate => "created_t".to_owned(),
            SortBy::LastModifiedDate => "last_modified_t".to_owned(),
            SortBy::EcoScore => "ecoscore_score".to_owned(),
        }
    }
}

/// The internal representation of one stored query parameter value.
#[derive(Debug)]
pub enum Value {
    /// A textual value.
    Text(String),
    /// A numeric value, emitted in decimal.
    Number(u32),
    /// No value: skipped by the legacy scheme, emitted as the empty
    /// string by the V2 scheme.
    Empty,
}

/// The mathematical model of a stored value.
pub enum ValueModel {
    Text(Seq<char>),
    Number(u32),
    Empty,
}

/// The model of one stored value.
pub open spec fn value_model(v: Value) -> ValueModel {
    match v {
        Value::Text(s) => ValueModel::Text(s@),
        Value::Number(n) => ValueModel::Number(n),
        Value::Empty => ValueModel::Empty,
    }
}

/// The model of the stored parameter list.
pub open spec fn entries_view(s: Seq<(String, Value)>) -> Seq<(Seq<char>, ValueModel)> {
    s.map(|i: int, e: (String, Value)| (e.0@, value_model(e.1)))
}

/// The pairs one stored entry emits in the legacy scheme: an entry
/// without a value emits nothing.
pub open spec fn emit_entry_v0(e: (Seq<char>, ValueModel)) -> Seq<(Seq<char>, Seq<char>)> {
    match e.1 {
        ValueModel::Text(s) => seq![(e.0, s)],
        ValueModel::Number(n) => seq![(e.0, dec_str(n as nat))],
        ValueModel::Empty => Seq::empty(),
    }
}

/// The pairs a stored parameter list emits in the legacy scheme.
pub open spec fn emit_entries_v0(s: Seq<(Seq<char>, ValueModel)>) -> Seq<(Seq<char>, Seq<char>)>
    decreases s.len(),
{
    if s.len() == 0 {
        Seq::empty()
    } else {
        emit_entries_v0(s.drop_last()) + emit_entry_v0(s.last())
    }
}

/// The pair one stored entry emits in the V2 scheme: an entry without a
/// value is emitted with the empty string.
pub open spec fn emit_entry_v2(e: (Seq<char>, ValueModel)) -> (Seq<char>, Seq<char>) {
    match e.1 {
        ValueModel::Text(s) => (e.0, s),
        ValueModel::Number(n) => (e.0, dec_str(n as nat)),
        ValueModel::Empty => (e.0, Seq::empty()),
    }
}

/// The pairs a stored parameter list emits in the V2 scheme.
pub open spec fn emit_entries_v2(s: Seq<(Seq<char>, ValueModel)>) -> Seq<(Seq<char>, Seq<char>)> {
    s.map(|i: int, e: (Seq<char>, ValueModel)| emit_entry_v2(e))
}

/// The trailing `sort_by` pair, present when a sorting order is set.
pub open spec fn sort_pairs(s: Option<SortBy>) -> Seq<(Seq<char>, Seq<char>)> {
    match s {
        Some(t) => seq![("sort_by"@, sort_token(t))],
        None => Seq::empty(),
    }
}

/// The fixed trailer pairs of the legacy scheme.
pub open spec fn trailer_pairs() -> Seq<(Seq<char>, Seq<char>)> {
    seq![("action"@, "process"@), ("json"@, "true"@)]
}

/// Everything a legacy query emits: the stored entries, the optional
/// sorting order, and the two fixed trailer pairs.
pub open spec fn emit_v0(entries: Seq<(Seq<char>, ValueModel)>, sort: Option<SortBy>) -> Seq<
    (Seq<char>, Seq<char>),
> {
    emit_entries_v0(entries) + sort_pairs(sort) + trailer_pairs()
}

/// Everything a V2 query emits: the stored entries and the optional
/// sorting order. The V2 scheme has no trailer pairs.
pub open spec fn emit_v2(entries: Seq<(Seq<char>, ValueModel)>, sort: Option<SortBy>) -> Seq<
    (Seq<char>, Seq<char>),
> {
    emit_entries_v2(entries) + sort_pairs(sort)
}

/// Build a search query. The concrete types implement the
/// [`SearchParams`] trait expected by the search endpoints.
#[derive(Debug)]
pub struct SearchQuery<S> {
    pub params: Vec<(String, Value)>,
    pub state: S,
}

/// Conversion of a search query into the flat, order-preserving parameter
/// list handed to the HTTP layer.
pub trait SearchParams {
    /// The pairs the query emits.
    spec fn spec_params(&self) -> Seq<(Seq<char>, Seq<char>)>;

    /// Performs the conversion.
    fn params(&self) -> (r: Params)
        ensures
            params_view(r@) == self.spec_params(),
    ;
}

// ----------------------------------------------------------------------
// Legacy search scheme
// ----------------------------------------------------------------------

/// Builder state of the legacy search scheme: the two insertion counters
/// and the sorting order.
#[derive(Debug)]
pub struct QueryStateV0 {
    pub criteria_index: u32,
    pub nutrient_index: u32,
    pub sort_by: Option<SortBy>,
}

/// A search query builder for the legacy search API.
pub type SearchQueryV0 = SearchQuery<QueryStateV0>;

/// The three stored entries one criteria insertion adds at index `idx`.
pub open spec fn criteria_model(name: Seq<char>, op: Seq<char>, value: Seq<char>, idx: nat) -> Seq<
    (Seq<char>, ValueModel),
> {
    seq![
        ("tagtype_"@ + dec_str(idx), ValueModel::Text(name)),
        ("tag_contains_"@ + dec_str(idx), ValueModel::Text(op)),
        ("tag_"@ + dec_str(idx), ValueModel::Text(value)),
    ]
}

/// The three stored entries one nutrient insertion adds at index `idx`.
pub open spec fn nutrient_model_v0(name: Seq<char>, op: Seq<char>, value: u32, idx: nat) -> Seq<
    (Seq<char>, ValueModel),
> {
    seq![
        ("nutriment_"@ + dec_str(idx), ValueModel::Text(name)),
        ("nutriment_compare_"@ + dec_str(idx), ValueModel::Text(op)),
        ("nutriment_value_"@ + dec_str(idx), ValueModel::Number(value)),
    ]
}

/// The entry one ingredient insertion adds: for the `"additives"`
/// ingredient the value is rewritten to `"{value}_additives"`.
pub open spec fn ingredient_model(name: Seq<char>, value: Seq<char>) -> (Seq<char>, ValueModel) {
    if name == "additives"@ {
        (name, ValueModel::Text(value + "_additives"@))
    } else {
        (name, ValueModel::Text(value))
    }
}

/// A key made of a fixed prefix and a 1-based decimal index.
fn indexed_key(prefix: &str, idx: u32) -> (r: String)
    ensures
        r@ == prefix@ + dec_str(idx as nat),
{
    let mut s = prefix.to_owned();
    let d = decimal_string(idx as u64);
    s.append(d.as_str());
    s
}

impl SearchQueryV0 {
    /// An empty legacy query: no parameters, counters at zero, no
    /// sorting order.
    pub fn new() -> (r: SearchQueryV0)
        ensures
            r.params@.len() == 0,
            r.state.criteria_index == 0,
            r.state.nutrient_index == 0,
            r.state.sort_by is None,
    {
        SearchQuery {
            params: Vec::new(),
            state: QueryStateV0 { criteria_index: 0, nutrient_index: 0, sort_by: None },
        }
    }

    /// Adds a criteria parameter: the triplet `tagtype_N`,
    /// `tag_contains_N`, `tag_N` at the next criteria index.
    pub fn criteria(self, criteria: &str, op: &str, value: &str) -> (r: SearchQueryV0)
        requires
            self.state.criteria_index < u32::MAX,
        ensures
            entries_view(r.params@) == entries_view(self.params@) + criteria_model(
                criteria@,
                op@,
                value@,
                (self.state.criteria_index + 1) as nat,
            ),
            r.state.criteria_index == self.state.criteria_index + 1,
            r.state.nutrient_index == self.state.nutrient_index,
            r.state.sort_by == self.state.sort_by,
    {
        let mut q = self;
        let idx = q.state.criteria_index + 1;
        q.state.criteria_index = idx;
        q.params.push((indexed_key("tagtype_", idx), Value::Text(criteria.to_owned())));
        q.params.push((indexed_key("tag_contains_", idx), Value::Text(op.to_owned())));
        q.params.push((indexed_key("tag_", idx), Value::Text(value.to_owned())));
        proof {
            assert(entries_view(q.params@) =~= entries_view(self.params@) + criteria_model(
                criteria@,
                op@,
                value@,
                idx as nat,
            ));
        }
        q
    }

    /// Adds an ingredient parameter: a single `{ingredient}={value}`
    /// pair, with the value rewritten to `"{value}_additives"` when the
    /// ingredient is `"additives"`.
    pub fn ingredient(self, ingredient: &str, value: &str) -> (r: SearchQueryV0)
        ensures
            entries_view(r.params@) == entries_view(self.params@).push(
                ingredient_model(ingredient@, value@),
            ),
            r.state.criteria_index == self.state.criteria_index,
            r.state.nutrient_index == self.state.nutrient_index,
            r.state.sort_by == self.state.sort_by,
    {
        let mut q = self;
        let v = if str_eq(ingredient, "additives") {
            let mut s = value.to_owned();
            s.append("_additives");
            s
        } else {
            value.to_owned()
        };
        q.params.push((ingredient.to_owned(), Value::Text(v)));
        proof {
            assert(entries_view(q.params@) =~= entries_view(self.params@).push(
                ingredient_model(ingredient@, value@),
            ));
        }
        q
    }

    /// Adds a nutrient condition: the triplet `nutriment_N`,
    /// `nutriment_compare_N`, `nutriment_value_N` at the next nutrient
    /// index.
    pub fn nutrient(self, nutriment: &str, op: &str, value: u32) -> (r: SearchQueryV0)
        requires
            self.state.nutrient_index < u32::MAX,
        ensures
            entries_view(r.params@) == entries_view(self.params@) + nutrient_model_v0(
                nutriment@,
                op@,
                value,
                (self.state.nutrient_index + 1) as nat,
            ),
            r.state.criteria_index == self.state.criteria_index,
            r.state.nutrient_index == self.state.nutrient_index + 1,
            r.state.sort_by == self.state.sort_by,
    {
        let mut q = self;
        let idx = q.state.nutrient_index + 1;
        q.state.nutrient_index = idx;
        q.params.push((indexed_key("nutriment_", idx), Value::Text(nutriment.to_owned())));
        q.params.push((indexed_key("nutriment_compare_", idx), Value::Text(op.to_owned())));
        q.params.push((indexed_key("nutriment_value_", idx), Value::Number(value)));
        proof {
            assert(entries_view(q.params@) =~= entries_view(self.params@) + nutrient_model_v0(
                nutriment@,
                op@,
                value,
                idx as nat,
            ));
        }
        q
    }

    /// Sets or clears the sorting order.
    pub fn sort_by(self, sort_by: Option<SortBy>) -> (r: SearchQueryV0)
        ensures
            r.params@ == self.params@,
            r.state.criteria_index == self.state.criteria_index,
            r.state.nutrient_index == self.state.nutrient_index,
            r.state.sort_by == sort_by,
    {
        let mut q = self;
        q.state.sort_by = sort_by;
        q
    }
}

impl SearchParams for SearchQueryV0 {
    open spec fn spec_params(&self) -> Seq<(Seq<char>, Seq<char>)> {
        emit_v0(entries_view(self.params@), self.state.sort_by)
    }

    /// Serializes the stored parameters, the optional `sort_by` pair, and
    /// the fixed `action=process` and `json=true` trailers.
    fn params(&self) -> (r: Params) {
        let mut out: Params = Vec::new();
        let n = self.params.len();
        let mut i: usize = 0;
        while i < n
            invariant
                i <= n,
                n == self.params@.len(),
                params_view(out@) == emit_entries_v0(entries_view(self.params@).take(i as int)),
            decreases n - i,
        {
            let (name, value) = &self.params[i];
            match value {
                Value::Text(s) => {
                    out.push((name.clone(), s.clone()));
                },
                Value::Number(v) => {
                    out.push((name.clone(), decimal_string(*v as u64)));
                },
                Value::Empty => {},
            }
            proof {
                let ev = entries_view(self.params@);
                assert(ev.take(i as int + 1).drop_last() =~= ev.take(i as int));
                assert(params_view(out@) =~= emit_entries_v0(ev.take(i as int + 1)));
            }
            i = i + 1;
        }
        proof {
            assert(entries_view(self.params@).take(n as int) =~= entries_view(self.params@));
        }
        match &self.state.sort_by {
            Some(s) => {
                out.push(("sort_by".to_owned(), s.to_string()));
            },
            None => {},
        }
        out.push(("action".to_owned(), "process".to_owned()));
        out.push(("json".to_owned(), "true".to_owned()));
        proof {
            assert(params_view(out@) =~= emit_v0(entries_view(self.params@), self.state.sort_by));
        }
        out
    }
}

// ----------------------------------------------------------------------
// V2 search scheme
// ----------------------------------------------------------------------

/// Builder state of the V2 search scheme: only the sorting order.
#[derive(Debug)]
pub struct QueryStateV2 {
    pub sort_by: Option<SortBy>,
}

/// A search query builder for the search API V2.
pub type SearchQueryV2 = SearchQuery<QueryStateV2>;

/// The entry one V2 criteria insertion adds: `{name}_tags` or, with a
/// language code, `{name}_tags_{lc}`.
pub open spec fn criteria_model_v2(name: Seq<char>, value: Seq<char>, lc: Option<Seq<char>>) -> (
    Seq<char>,
    ValueModel,
) {
    match lc {
        Some(l) => (name + "_tags_"@ + l, ValueModel::Text(value)),
        None => (name + "_tags"@, ValueModel::Text(value)),
    }
}

/// The key of a V2 nutrient condition with a non-equality operator: the
/// comparison is folded into the key name.
pub open spec fn nutrient_key_v2(name: Seq<char>, unit: Seq<char>, op: Seq<char>, value: u32) -> Seq<
    char,
> {
    name + "_"@ + unit + op + dec_str(value as nat)
}

/// The entry one V2 nutrient condition adds: for the equality operator a
/// `{name}_{unit}={value}` pair, otherwise a valueless pair whose key
/// embeds the comparison.
pub open spec fn nutrient_model_v2(name: Seq<char>, unit: Seq<char>, op: Seq<char>, value: u32) -> (
    Seq<char>,
    ValueModel,
) {
    if op == "="@ {
        (name + "_"@ + unit, ValueModel::Number(value))
    } else {
        (nutrient_key_v2(name, unit, op, value), ValueModel::Empty)
    }
}

impl SearchQueryV2 {
    /// An empty V2 query: no parameters and no sorting order.
    pub fn new() -> (r: SearchQueryV2)
        ensures
            r.params@.len() == 0,
            r.state.sort_by is None,
    {
        SearchQuery { params: Vec::new(), state: QueryStateV2 { sort_by: None } }
    }

    /// Adds a criteria parameter: `{criteria}_tags={value}` or, when a
    /// language code is given, `{criteria}_tags_{lc}={value}`.
    pub fn criteria(self, criteria: &str, value: &str, lc: Option<&str>) -> (r: SearchQueryV2)
        ensures
            entries_view(r.params@) == entries_view(self.params@).push(
                criteria_model_v2(criteria@, value@, lc_ref_view(lc)),
            ),
            r.state.sort_by == self.state.sort_by,
    {
        let mut q = self;
        let mut key = criteria.to_owned();
        match lc {
            Some(l) => {
                key.append("_tags_");
                key.append(l);
            },
            None => {
                key.append("_tags");
            },
        }
        q.params.push((key, Value::Text(value.to_owned())));
        proof {
            assert(entries_view(q.params@) =~= entries_view(self.params@).push(
                criteria_model_v2(criteria@, value@, lc_ref_view(lc)),
            ));
        }
        q
    }

    /// Adds a nutrient condition: `{nutrient}_{unit}={value}` when `op`
    /// is `"="`, otherwise the valueless `{nutrient}_{unit}{op}{value}`.
    pub fn nutrient(self, nutrient: &str, unit: &str, op: &str, value: u32) -> (r: SearchQueryV2)
        ensures
            entries_view(r.params@) == entries_view(self.params@).push(
                nutrient_model_v2(nutrient@, unit@, op@, value),
            ),
            r.state.sort_by == self.state.sort_by,
    {
        let mut q = self;
        let mut key = nutrient.to_owned();
        key.append("_");
        key.append(unit);
        if str_eq(op, "=") {
            q.params.push((key, Value::Number(value)));
        } else {
            key.append(op);
            let d = decimal_string(value as u64);
            key.append(d.as_str());
            q.params.push((key, Value::Empty));
        }
        proof {
            assert(entries_view(q.params@) =~= entries_view(self.params@).push(
                nutrient_model_v2(nutrient@, unit@, op@, value),
            ));
        }
        q
    }

    /// Adds a nutrient condition per 100 grams.
    pub fn nutrient_100g(self, nutrient: &str, op: &str, value: u32) -> (r: SearchQueryV2)
        ensures
            entries_view(r.params@) == entries_view(self.params@).push(
                nutrient_model_v2(nutrient@, "100g"@, op@, value),
            ),
            r.state.sort_by == self.state.sort_by,
    {
        self.nutrient(nutrient, "100g", op, value)
    }

    /// Adds a nutrient condition per serving.
    pub fn nutrient_serving(self, nutrient: &str, op: &str, value: u32) -> (r: SearchQueryV2)
        ensures
            entries_view(r.params@) == entries_view(self.params@).push(
                nutrient_model_v2(nutrient@, "serving"@, op@, value),
            ),
            r.state.sort_by == self.state.sort_by,
    {
        self.nutrient(nutrient, "serving", op, value)
    }

    /// Sets or clears the sorting order.
    pub fn sort_by(self, sort_by: Option<SortBy>) -> (r: SearchQueryV2)
        ensures
            r.params@ == self.params@,
            r.state.sort_by == sort_by,
    {
        let mut q = self;
        q.state.sort_by = sort_by;
        q
    }
}

impl SearchParams for SearchQueryV2 {
    open spec fn spec_params(&self) -> Seq<(Seq<char>, Seq<char>)> {
        emit_v2(entries_view(self.params@), self.state.sort_by)
    }

    /// Serializes the stored parameters and the optional `sort_by` pair.
    /// The V2 scheme appends no trailer parameters.
    fn params(&self) -> (r: Params) {
        let mut out: Params = Vec::new();
        let n = self.params.len();
        let mut i: usize = 0;
        while i < n
            invariant
                i <= n,
                n == self.params@.len(),
                params_view(out@) == emit_entries_v2(entries_view(self.params@).take(i as int)),
            decreases n - i,
        {
            let ghost prev = out@;
            let (name, value) = &self.params[i];
            match value {
                Value::Text(s) => {
                    out.push((name.clone(), s.clone()));
                },
                Value::Number(v) => {
                    out.push((name.clone(), decimal_string(*v as u64)));
                },
                Value::Empty => {
                    out.push((name.clone(), String::new()));
                },
            }
            proof {
                let ev = entries_view(self.params@);
                assert(ev[i as int] == (
                    self.params@[i as int].0@,
                    value_model(self.params@[i as int].1),
                ));
                assert(params_view(out@) =~= params_view(prev).push(emit_entry_v2(ev[i as int])));
                assert(emit_entries_v2(ev.take(i as int + 1)) =~= emit_entries_v2(
                    ev.take(i as int),
                ).push(emit_entry_v2(ev[i as int])));
            }
            i = i + 1;
        }
        proof {
            assert(entries_view(self.params@).take(n as int) =~= entries_view(self.params@));
        }
        match &self.state.sort_by {
            Some(s) => {
                out.push(("sort_by".to_owned(), s.to_string()));
            },
            None => {},
        }
        proof {
            assert(params_view(out@) =~= emit_v2(entries_view(self.params@), self.state.sort_by));
        }
        out
    }
}

// ----------------------------------------------------------------------
// Laws of the legacy scheme
// ----------------------------------------------------------------------

/// One legacy-scheme insertion, abstractly: the inputs of one criteria or
/// nutrient call.
pub enum SchemeAOp {
    Criteria { name: Seq<char>, op: Seq<char>, value: Seq<char> },
    Nutrient { name: Seq<char>, op: Seq<char>, value: u32 },
}

/// The stored entries and counters after one insertion, mirroring the
/// contracts of [`SearchQueryV0::criteria`] and [`SearchQueryV0::nutrient`].
pub open spec fn apply_op_a(
    entries: Seq<(Seq<char>, ValueModel)>,
    ci: nat,
    ni: nat,
    op: SchemeAOp,
) -> (Seq<(Seq<char>, ValueModel)>, nat, nat) {
    match op {
        SchemeAOp::Criteria { name, op: cmp, value } => (
            entries + criteria_model(name, cmp, value, ci + 1),
            ci + 1,
            ni,
        ),
        SchemeAOp::Nutrient { name, op: cmp, value } => (
            entries + nutrient_model_v0(name, cmp, value, ni + 1),
            ci,
            ni + 1,
        ),
    }
}

/// The stored entries and counters after a sequence of insertions.
pub open spec fn apply_ops_a(
    entries: Seq<(Seq<char>, ValueModel)>,
    ci: nat,
    ni: nat,
    ops: Seq<SchemeAOp>,
) -> (Seq<(Seq<char>, ValueModel)>, nat, nat)
    decreases ops.len(),
{
    if ops.len() == 0 {
        (entries, ci, ni)
    } else {
        let s = apply_op_a(entries, ci, ni, ops.first());
        apply_ops_a(s.0, s.1, s.2, ops.drop_first())
    }
}

/// How many of the insertions are criteria insertions.
pub open spec fn count_criteria(ops: Seq<SchemeAOp>) -> nat
    decreases ops.len(),
{
    if ops.len() == 0 {
        0
    } else {
        (match ops.first() {
            SchemeAOp::Criteria { .. } => 1 as nat,
            SchemeAOp::Nutrient { .. } => 0 as nat,
        }) + count_criteria(ops.drop_first())
    }
}

/// How many of the insertions are nutrient insertions.
pub open spec fn count_nutrient(ops: Seq<SchemeAOp>) -> nat
    decreases ops.len(),
{
    if ops.len() == 0 {
        0
    } else {
        (match ops.first() {
            SchemeAOp::Criteria { .. } => 0 as nat,
            SchemeAOp::Nutrient { .. } => 1 as nat,
        }) + count_nutrient(ops.drop_first())
    }
}

/// The indexed keys the insertions emit, in order, when the criteria
/// counter starts at `ci` and the nutrient counter at `ni`: each insertion
/// contributes its three keys at the next counter value.
pub open spec fn scheme_a_keys(ci: nat, ni: nat, ops: Seq<SchemeAOp>) -> Seq<Seq<char>>
    decreases ops.len(),
{
    if ops.len() == 0 {
        Seq::empty()
    } else {
        match ops.first() {
            SchemeAOp::Criteria { .. } => seq![
                "tagtype_"@ + dec_str(ci + 1),
                "tag_contains_"@ + dec_str(ci + 1),
                "tag_"@ + dec_str(ci + 1),
            ] + scheme_a_keys(ci + 1, ni, ops.drop_first()),
            SchemeAOp::Nutrient { .. } => seq![
                "nutriment_"@ + dec_str(ni + 1),
                "nutriment_compare_"@ + dec_str(ni + 1),
                "nutriment_value_"@ + dec_str(ni + 1),
            ] + scheme_a_keys(ci, ni + 1, ops.drop_first()),
        }
    }
}

/// The keys of a pair list.
pub open spec fn keys_of(pairs: Seq<(Seq<char>, Seq<char>)>) -> Seq<Seq<char>> {
    pairs.map(|i: int, p: (Seq<char>, Seq<char>)| p.0)
}

/// Legacy emission distributes over concatenation of the stored entries.
proof fn lemma_emit_v0_concat(a: Seq<(Seq<char>, ValueModel)>, b: Seq<(Seq<char>, ValueModel)>)
    ensures
        emit_entries_v0(a + b) == emit_entries_v0(a) + emit_entries_v0(b),
    decreases b.len(),
{
    if b.len() == 0 {
        assert(a + b =~= a);
        assert(emit_entries_v0(b) =~= Seq::empty());
        assert(emit_entries_v0(a) + emit_entries_v0(b) =~= emit_entries_v0(a));
    } else {
        lemma_emit_v0_concat(a, b.drop_last());
        assert((a + b).drop_last() =~= a + b.drop_last());
        assert((a + b).last() == b.last());
        assert(emit_entries_v0(a + b) =~= emit_entries_v0(a) + emit_entries_v0(b));
    }
}

/// A three-entry model with a value in every entry emits exactly its
/// three pairs.
proof fn lemma_emit_v0_three(m: Seq<(Seq<char>, ValueModel)>)
    requires
        m.len() == 3,
        !(m[0].1 is Empty),
        !(m[1].1 is Empty),
        !(m[2].1 is Empty),
    ensures
        emit_entries_v0(m).len() == 3,
        keys_of(emit_entries_v0(m)) == seq![m[0].0, m[1].0, m[2].0],
{
    let m2 = m.drop_last();
    let m1 = m2.drop_last();
    let m0 = m1.drop_last();
    assert(m0 =~= Seq::<(Seq<char>, ValueModel)>::empty());
    assert(emit_entries_v0(m0) =~= Seq::empty());
    assert(m1.last() == m[0]);
    assert(emit_entries_v0(m1) =~= emit_entry_v0(m[0]));
    assert(m2.last() == m[1]);
    assert(emit_entries_v0(m2) =~= emit_entry_v0(m[0]) + emit_entry_v0(m[1]));
    assert(emit_entries_v0(m) =~= emit_entry_v0(m[0]) + emit_entry_v0(m[1]) + emit_entry_v0(m[2]));
    assert(keys_of(emit_entries_v0(m)) =~= seq![m[0].0, m[1].0, m[2].0]);
}

/// Census of one run of insertions, generalized over the starting entries
/// and counter values: the counters advance by the respective insertion
/// counts, each insertion emits exactly three pairs, and the new keys are
/// exactly the indexed keys at consecutive counter values.
proof fn lemma_scheme_a_census(
    entries: Seq<(Seq<char>, ValueModel)>,
    ci: nat,
    ni: nat,
    ops: Seq<SchemeAOp>,
)
    ensures
        ({
            let s = apply_ops_a(entries, ci, ni, ops);
            &&& s.1 == ci + count_criteria(ops)
            &&& s.2 == ni + count_nutrient(ops)
            &&& emit_entries_v0(s.0).len() == emit_entries_v0(entries).len() + 3 * ops.len()
            &&& keys_of(emit_entries_v0(s.0)) == keys_of(emit_entries_v0(entries))
                + scheme_a_keys(ci, ni, ops)
        }),
    decreases ops.len(),
{
    let s = apply_ops_a(entries, ci, ni, ops);
    if ops.len() == 0 {
        assert(keys_of(emit_entries_v0(entries)) + scheme_a_keys(ci, ni, ops) =~= keys_of(
            emit_entries_v0(entries),
        ));
    } else {
        let step = apply_op_a(entries, ci, ni, ops.first());
        let m = (match ops.first() {
            SchemeAOp::Criteria { name, op: cmp, value } => criteria_model(name, cmp, value, ci + 1),
            SchemeAOp::Nutrient { name, op: cmp, value } => nutrient_model_v0(
                name,
                cmp,
                value,
                ni + 1,
            ),
        });
        assert(step.0 == entries + m);
        lemma_emit_v0_concat(entries, m);
        lemma_emit_v0_three(m);
        assert(keys_of(emit_entries_v0(entries + m)) =~= keys_of(emit_entries_v0(entries))
            + keys_of(emit_entries_v0(m)));
        lemma_scheme_a_census(step.0, step.1, step.2, ops.drop_first());
        assert(scheme_a_keys(ci, ni, ops) =~= keys_of(emit_entries_v0(m)) + scheme_a_keys(
            step.1,
            step.2,
            ops.drop_first(),
        ));
        assert(keys_of(emit_entries_v0(s.0)) =~= keys_of(emit_entries_v0(entries))
            + scheme_a_keys(ci, ni, ops));
    }
}

/// Every counter value between its starting and its final value is
/// represented among the emitted indexed keys.
proof fn lemma_scheme_a_keys_contain(ci: nat, ni: nat, ops: Seq<SchemeAOp>)
    ensures
        forall|m: int|
            ci < m <= ci + count_criteria(ops) ==> #[trigger] scheme_a_keys(ci, ni, ops).contains(
                "tagtype_"@ + dec_str(m as nat),
            ),
        forall|m: int|
            ni < m <= ni + count_nutrient(ops) ==> #[trigger] scheme_a_keys(ci, ni, ops).contains(
                "nutriment_"@ + dec_str(m as nat),
            ),
    decreases ops.len(),
{
    if ops.len() == 0 {
    } else {
        let keys = scheme_a_keys(ci, ni, ops);
        match ops.first() {
            SchemeAOp::Criteria { .. } => {
                let rest = scheme_a_keys(ci + 1, ni, ops.drop_first());
                lemma_scheme_a_keys_contain(ci + 1, ni, ops.drop_first());
                assert forall|m: int| ci < m <= ci + count_criteria(ops) implies #[trigger] keys
                    .contains("tagtype_"@ + dec_str(m as nat)) by {
                    if m == ci + 1 {
                        assert(keys[0] == "tagtype_"@ + dec_str(m as nat));
                    } else {
                        assert(rest.contains("tagtype_"@ + dec_str(m as nat)));
                        let j = choose|j: int|
                            0 <= j < rest.len() && rest[j] == "tagtype_"@ + dec_str(m as nat);
                        assert(keys[3 + j] == "tagtype_"@ + dec_str(m as nat));
                    }
                }
                assert forall|m: int| ni < m <= ni + count_nutrient(ops) implies #[trigger] keys
                    .contains("nutriment_"@ + dec_str(m as nat)) by {
                    assert(rest.contains("nutriment_"@ + dec_str(m as nat)));
                    let j = choose|j: int|
                        0 <= j < rest.len() && rest[j] == "nutriment_"@ + dec_str(m as nat);
                    assert(keys[3 + j] == "nutriment_"@ + dec_str(m as nat));
                }
            },
            SchemeAOp::Nutrient { .. } => {
                let rest = scheme_a_keys(ci, ni + 1, ops.drop_first());
                lemma_scheme_a_keys_contain(ci, ni + 1, ops.drop_first());
                assert forall|m: int| ni < m <= ni + count_nutrient(ops) implies #[trigger] keys
                    .contains("nutriment_"@ + dec_str(m as nat)) by {
                    if m == ni + 1 {
                        assert(keys[0] == "nutriment_"@ + dec_str(m as nat));
                    } else {
                        assert(rest.contains("nutriment_"@ + dec_str(m as nat)));
                        let j = choose|j: int|
                            0 <= j < rest.len() && rest[j] == "nutriment_"@ + dec_str(m as nat);
                        assert(keys[3 + j] == "nutriment_"@ + dec_str(m as nat));
                    }
                }
                assert forall|m: int| ci < m <= ci + count_criteria(ops) implies #[trigger] keys
                    .contains("tagtype_"@ + dec_str(m as nat)) by {
                    assert(rest.contains("tagtype_"@ + dec_str(m as nat)));
                    let j = choose|j: int|
                        0 <= j < rest.len() && rest[j] == "tagtype_"@ + dec_str(m as nat);
                    assert(keys[3 + j] == "tagtype_"@ + dec_str(m as nat));
                }
            },
        }
    }
}

/// Key census of the legacy scheme: after `k` criteria and nutrient
/// insertions into an empty query, the emitted list holds exactly `3·k`
/// indexed pairs followed by the two trailer pairs `action` and `json`,
/// and the criteria and nutrient indices each form a contiguous run from
/// 1 up to the number of insertions of that kind.
pub proof fn lemma_scheme_a_key_census(ops: Seq<SchemeAOp>)
    ensures
        ({
            let s = apply_ops_a(Seq::empty(), 0, 0, ops);
            let pairs = emit_v0(s.0, None);
            &&& s.1 == count_criteria(ops)
            &&& s.2 == count_nutrient(ops)
            &&& pairs.len() == 3 * ops.len() + 2
            &&& keys_of(pairs) == scheme_a_keys(0, 0, ops) + seq!["action"@, "json"@]
            &&& forall|m: int|
                0 < m <= count_criteria(ops) ==> #[trigger] keys_of(pairs).contains(
                    "tagtype_"@ + dec_str(m as nat),
                )
            &&& forall|m: int|
                0 < m <= count_nutrient(ops) ==> #[trigger] keys_of(pairs).contains(
                    "nutriment_"@ + dec_str(m as nat),
                )
        }),
{
    let s = apply_ops_a(Seq::empty(), 0, 0, ops);
    let pairs = emit_v0(s.0, None);
    lemma_scheme_a_census(Seq::empty(), 0, 0, ops);
    lemma_scheme_a_keys_contain(0, 0, ops);
    assert(emit_entries_v0(Seq::empty()) =~= Seq::empty());
    assert(keys_of(Seq::empty()) =~= Seq::<Seq<char>>::empty());
    assert(keys_of(emit_entries_v0(s.0)) =~= scheme_a_keys(0, 0, ops));
    assert(pairs =~= emit_entries_v0(s.0) + trailer_pairs());
    assert(keys_of(pairs) =~= scheme_a_keys(0, 0, ops) + seq!["action"@, "json"@]);
    let keys = scheme_a_keys(0, 0, ops);
    assert forall|m: int| 0 < m <= count_criteria(ops) implies #[trigger] keys_of(pairs).contains(
        "tagtype_"@ + dec_str(m as nat),
    ) by {
        assert(keys.contains("tagtype_"@ + dec_str(m as nat)));
        let j = choose|j: int| 0 <= j < keys.len() && keys[j] == "tagtype_"@ + dec_str(m as nat);
        assert(keys_of(pairs)[j] == "tagtype_"@ + dec_str(m as nat));
    }
    assert forall|m: int| 0 < m <= count_nutrient(ops) implies #[trigger] keys_of(pairs).contains(
        "nutriment_"@ + dec_str(m as nat),
    ) by {
        assert(keys.contains("nutriment_"@ + dec_str(m as nat)));
        let j = choose|j: int| 0 <= j < keys.len() && keys[j] == "nutriment_"@ + dec_str(m as nat);
        assert(keys_of(pairs)[j] == "nutriment_"@ + dec_str(m as nat));
    }
}

/// V2 nutrient conditions with a non-equality operator: the appended
/// entry has no value, so its pair is emitted with the empty string, and
/// the comparison operator appears embedded in the key name.
pub proof fn lemma_scheme_b_inequality(
    entries: Seq<(Seq<char>, ValueModel)>,
    sort: Option<SortBy>,
    name: Seq<char>,
    unit: Seq<char>,
    op: Seq<char>,
    value: u32,
)
    requires
        op != "="@,
    ensures
        ({
            let e = nutrient_model_v2(name, unit, op, value);
            &&& e.0 == name + "_"@ + unit + op + dec_str(value as nat)
            &&& e.1 is Empty
            &&& emit_v2(entries.push(e), sort) == emit_entries_v2(entries).push(
                (e.0, Seq::<char>::empty()),
            ) + sort_pairs(sort)
        }),
{
    let e = nutrient_model_v2(name, unit, op, value);
    assert(emit_entries_v2(entries.push(e)) =~= emit_entries_v2(entries).push(emit_entry_v2(e)));
    assert(emit_v2(entries.push(e), sort) =~= emit_entries_v2(entries).push(
        (e.0, Seq::<char>::empty()),
    ) + sort_pairs(sort));
}

} // verus!
