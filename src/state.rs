//! State summaries and shallow state deltas.
use vstd::prelude::*;
use vstd::utf8::encode_utf8;
use crate::json::{opt_view, JsonValue, JsonView, Member, keys_of, value_text, unique_keys};

verus! {

/// Size and shape of a state snapshot.
#[derive(Clone, Debug)]
pub struct StateSummary {
    /// Length in bytes of the state's compact JSON text.
    pub size_bytes: usize,
    /// Number of top-level properties.
    pub property_count: usize,
    /// Names of the top-level properties, in order.
    pub properties: Vec<String>,
}

/// The top-level keys of a value: those of an object, none otherwise.
pub open spec fn top_level_keys(v: JsonView) -> Seq<Seq<char>> {
    match v {
        JsonView::Object(ms) => keys_of(ms),
        JsonView::Other(_) => Seq::empty(),
    }
}

/// Whether `s` summarizes the state `v`: the byte length of its compact
/// text, and its top-level keys with their count.
pub open spec fn summarizes(s: StateSummary, v: JsonView) -> bool {
    &&& s.size_bytes == encode_utf8(value_text(v)).len() as usize
    &&& s.properties@.map_values(|p: String| p@) == top_level_keys(v)
    &&& s.property_count == s.properties@.len()
}

/// Summarizes a state: its text's byte length and its top-level keys.
pub fn create_state_summary(state: &JsonValue) -> (r: Option<StateSummary>)
    ensures
        r matches Some(s) && summarizes(s, state@),
{
    let text = match state.to_text() {
        Ok(t) => t,
        Err(_) => return None,
    };
    let size_bytes = text.as_str().len();
    let mut properties: Vec<String> = Vec::new();
    match state {
        JsonValue::Object(ms) => {
            let mut i: usize = 0;
            while i < ms.len()
                invariant
                    i <= ms.len(),
                    properties@.len() == i,
                    forall|k: int| 0 <= k < i ==> (#[trigger] properties@[k])@ == ms@[k].key@,
                decreases ms.len() - i,
            {
                properties.push(ms[i].key.clone());
                i += 1;
            }
            assert(properties@.map_values(|p: String| p@) =~= top_level_keys(state@));
        },
        JsonValue::Other(_) => {
            assert(properties@.map_values(|p: String| p@) =~= top_level_keys(state@));
        },
    }
    let property_count = properties.len();
    Some(StateSummary { size_bytes, property_count, properties })
}

/// The members of `cur` that are new or changed with respect to `prev`.
pub open spec fn changed_members(
    prev: Seq<(Seq<char>, Seq<char>)>,
    cur: Seq<(Seq<char>, Seq<char>)>,
) -> Seq<(Seq<char>, Seq<char>)> {
    cur.filter(|m: (Seq<char>, Seq<char>)| !prev.contains(m))
}

/// The shallow delta from `prev` to `cur`: defined only when both are
/// objects, holding each member of `cur` whose key is new or whose value
/// differs; `None` when nothing changed.
pub open spec fn state_delta(prev: Option<JsonView>, cur: JsonView) -> Option<JsonView> {
    match (prev, cur) {
        (Some(JsonView::Object(p)), JsonView::Object(c)) => {
            let d = changed_members(p, c);
            if d.len() == 0 {
                None
            } else {
                Some(JsonView::Object(d))
            }
        },
        _ => None,
    }
}

fn contains_member(ms: &Vec<Member>, m: &Member) -> (r: bool)
    ensures
        r == ms@.map_values(|x: Member| x@).contains(m@),
{
    let ghost mv = ms@.map_values(|x: Member| x@);
    let mut i: usize = 0;
    while i < ms.len()
        invariant
            i <= ms.len(),
            mv == ms@.map_values(|x: Member| x@),
            forall|k: int| 0 <= k < i ==> mv[k] != m@,
        decreases ms.len() - i,
    {
        if ms[i].key == m.key && ms[i].value == m.value {
            assert(mv[i as int] == m@);
            return true;
        }
        i += 1;
    }
    false
}

/// Computes the shallow delta from `prev` to `cur` (see [`state_delta`]).
pub fn calculate_state_delta(prev: &Option<JsonValue>, cur: &JsonValue) -> (r: Option<JsonValue>)
    ensures
        opt_view(r) == state_delta(opt_view(*prev), cur@),
{
    let (p, c) = match (prev, cur) {
        (Some(JsonValue::Object(p)), JsonValue::Object(c)) => (p, c),
        _ => return None,
    };
    let ghost pv = p@.map_values(|x: Member| x@);
    let ghost cv = c@.map_values(|x: Member| x@);
    let ghost f = |m: (Seq<char>, Seq<char>)| !pv.contains(m);
    let mut delta: Vec<Member> = Vec::new();
    let mut i: usize = 0;
    while i < c.len()
        invariant
            i <= c.len(),
            pv == p@.map_values(|x: Member| x@),
            cv == c@.map_values(|x: Member| x@),
            f == (|m: (Seq<char>, Seq<char>)| !pv.contains(m)),
            delta@.map_values(|x: Member| x@) == cv.subrange(0, i as int).filter(f),
        decreases c.len() - i,
    {
        proof {
            reveal(Seq::filter);
            assert(cv.subrange(0, i as int + 1).drop_last() =~= cv.subrange(0, i as int));
            assert(cv.subrange(0, i as int + 1).last() == c@[i as int]@);
        }
        if !contains_member(p, &c[i]) {
            delta.push(c[i].copy_of());
            assert(delta@.map_values(|x: Member| x@) =~= cv.subrange(0, i as int + 1).filter(f));
        }
        i += 1;
    }
    assert(cv.subrange(0, c@.len() as int) =~= cv);
    assert(changed_members(pv, cv) == cv.filter(f));
    if delta.len() == 0 {
        None
    } else {
        Some(JsonValue::Object(delta))
    }
}

proof fn lemma_filter_single<A>(s: Seq<A>, f: spec_fn(A) -> bool, i: int)
    requires
        0 <= i < s.len(),
        forall|k: int| 0 <= k < s.len() ==> (f(#[trigger] s[k]) <==> k == i),
    ensures
        s.filter(f) == seq![s[i]],
    decreases s.len(),
{
    reveal(Seq::filter);
    let d = s.drop_last();
    if i == s.len() - 1 {
        lemma_filter_none(d, f);
        assert(d.filter(f).push(s.last()) =~= seq![s[i]]);
    } else {
        assert forall|k: int| 0 <= k < d.len() implies (f(#[trigger] d[k]) <==> k == i) by {
            assert(d[k] == s[k]);
        }
        lemma_filter_single(d, f, i);
        assert(!f(s[s.len() - 1]));
    }
}

proof fn lemma_filter_none<A>(s: Seq<A>, f: spec_fn(A) -> bool)
    requires
        forall|k: int| 0 <= k < s.len() ==> !f(#[trigger] s[k]),
    ensures
        s.filter(f) == Seq::<A>::empty(),
    decreases s.len(),
{
    reveal(Seq::filter);
    if s.len() > 0 {
        let d = s.drop_last();
        assert forall|k: int| 0 <= k < d.len() implies !f(#[trigger] d[k]) by {
            assert(d[k] == s[k]);
        }
        lemma_filter_none(d, f);
        assert(!f(s[s.len() - 1]));
    }
}

/// Diffing an object state against itself yields no delta.
pub proof fn lemma_identical_states_have_no_delta(ms: Seq<(Seq<char>, Seq<char>)>)
    ensures
        state_delta(Some(JsonView::Object(ms)), JsonView::Object(ms)) is None,
{
    let f = |m: (Seq<char>, Seq<char>)| !ms.contains(m);
    assert forall|k: int| 0 <= k < ms.len() implies !f(#[trigger] ms[k]) by {
        assert(ms.contains(ms[k]));
    }
    lemma_filter_none(ms, f);
}

/// Changing the value of exactly one top-level key of an object state
/// yields a delta that holds exactly that key with its new value.
pub proof fn lemma_one_changed_key_delta(
    ms: Seq<(Seq<char>, Seq<char>)>,
    i: int,
    value: Seq<char>,
)
    requires
        unique_keys(ms),
        0 <= i < ms.len(),
        value != ms[i].1,
    ensures
        state_delta(
            Some(JsonView::Object(ms)),
            JsonView::Object(ms.update(i, (ms[i].0, value))),
        ) == Some(JsonView::Object(seq![(ms[i].0, value)])),
{
    let cur = ms.update(i, (ms[i].0, value));
    let f = |m: (Seq<char>, Seq<char>)| !ms.contains(m);
    assert forall|k: int| 0 <= k < cur.len() implies (f(#[trigger] cur[k]) <==> k == i) by {
        if k == i {
            if ms.contains(cur[i]) {
                let j = choose|j: int| 0 <= j < ms.len() && ms[j] == cur[i];
                assert(ms[j].0 == ms[i].0);
                assert(j == i);
            }
        } else {
            assert(cur[k] == ms[k]);
            assert(ms.contains(ms[k]));
        }
    }
    lemma_filter_single(cur, f, i);
    assert(changed_members(ms, cur) == seq![(ms[i].0, value)]);
}

} // verus!
