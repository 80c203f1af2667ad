//! The default rule by which an action is merged into the shared state when
//! no application reducer is supplied.
use vstd::prelude::*;
use crate::action::Action;
use crate::error::Error;
use crate::json::{json_string, quoted_of, unique_keys, JsonValue, JsonView, Member};
use crate::text::{colons_to_underscores, lower_of, lowercase, replace_colons};

verus! {

/// The state key under which a non-object payload of an action of type `ty`
/// is stored.
pub open spec fn payload_key(ty: Seq<char>) -> Seq<char> {
    lower_of(colons_to_underscores(ty))
}

/// The key under which a payload-less action's type is recorded.
pub open spec fn last_action_key() -> Seq<char> {
    seq!['l', 'a', 's', 't', '_', 'a', 'c', 't', 'i', 'o', 'n']
}

/// Whether some member has key `k`.
pub open spec fn has_key(ms: Seq<(Seq<char>, Seq<char>)>, k: Seq<char>) -> bool {
    exists|i: int| 0 <= i < ms.len() && (#[trigger] ms[i]).0 == k
}

/// The position of the member with key `k` (meaningful when `has_key`).
pub open spec fn key_index(ms: Seq<(Seq<char>, Seq<char>)>, k: Seq<char>) -> int {
    choose|i: int| 0 <= i < ms.len() && (#[trigger] ms[i]).0 == k
}

/// `ms` with key `k` set to `v`: replaced in place when present, appended
/// otherwise.
pub open spec fn insert_member(
    ms: Seq<(Seq<char>, Seq<char>)>,
    k: Seq<char>,
    v: Seq<char>,
) -> Seq<(Seq<char>, Seq<char>)> {
    if has_key(ms, k) {
        ms.update(key_index(ms, k), (k, v))
    } else {
        ms.push((k, v))
    }
}

/// `ms` with every member of `pm` inserted, in order.
pub open spec fn merge_members(
    ms: Seq<(Seq<char>, Seq<char>)>,
    pm: Seq<(Seq<char>, Seq<char>)>,
) -> Seq<(Seq<char>, Seq<char>)>
    decreases pm.len(),
{
    if pm.len() == 0 {
        ms
    } else {
        let m = pm.last();
        insert_member(merge_members(ms, pm.drop_last()), m.0, m.1)
    }
}

/// Sets `k` to `v` in a state: an object gets the member, any other state
/// becomes an object with that single member.
pub open spec fn set_key(state: JsonView, k: Seq<char>, v: Seq<char>) -> JsonView {
    match state {
        JsonView::Object(ms) => JsonView::Object(insert_member(ms, k, v)),
        JsonView::Other(_) => JsonView::Object(seq![(k, v)]),
    }
}

/// The state after the default merge of an action of type `ty` with the
/// given payload: an object payload is merged key by key into an object state
/// (other states are left alone); any other payload is stored under the
/// sanitized action type; without payload the action type is recorded, as a
/// JSON string, under `last_action`.
pub open spec fn reduce(state: JsonView, ty: Seq<char>, payload: Option<JsonView>) -> JsonView {
    match payload {
        Some(JsonView::Object(pm)) => match state {
            JsonView::Object(ms) => JsonView::Object(merge_members(ms, pm)),
            JsonView::Other(_) => state,
        },
        Some(JsonView::Other(t)) => set_key(state, payload_key(ty), t),
        None => set_key(state, last_action_key(), quoted_of(ty)),
    }
}

proof fn lemma_insert_keeps_unique(ms: Seq<(Seq<char>, Seq<char>)>, k: Seq<char>, v: Seq<char>)
    requires
        unique_keys(ms),
    ensures
        unique_keys(insert_member(ms, k, v)),
{
    if has_key(ms, k) {
        let p = key_index(ms, k);
        let r = ms.update(p, (k, v));
        assert forall|a: int, b: int| 0 <= a < r.len() && 0 <= b < r.len() && a != b implies
            (#[trigger] r[a]).0 != (#[trigger] r[b]).0 by {
            assert(ms[a].0 != ms[b].0);
        }
    } else {
        let r = ms.push((k, v));
        assert forall|a: int, b: int| 0 <= a < r.len() && 0 <= b < r.len() && a != b implies
            (#[trigger] r[a]).0 != (#[trigger] r[b]).0 by {
            if a < ms.len() && b < ms.len() {
                assert(ms[a].0 != ms[b].0);
            } else if a < ms.len() {
                assert(ms[a].0 != k);
            } else {
                assert(ms[b].0 != k);
            }
        }
    }
}

/// Sets `key` to `value` in an object's member list.
fn insert_into(ms: &mut Vec<Member>, key: String, value: String)
    requires
        unique_keys(old(ms)@.map_values(|m: Member| m@)),
    ensures
        unique_keys(final(ms)@.map_values(|m: Member| m@)),
        final(ms)@.map_values(|m: Member| m@)
            == insert_member(old(ms)@.map_values(|m: Member| m@), key@, value@),
{
    let ghost mv = ms@.map_values(|m: Member| m@);
    proof {
        lemma_insert_keeps_unique(mv, key@, value@);
    }
    let mut i: usize = 0;
    while i < ms.len()
        invariant
            i <= ms.len(),
            ms@ == old(ms)@,
            mv == ms@.map_values(|m: Member| m@),
            unique_keys(mv),
            unique_keys(insert_member(mv, key@, value@)),
            forall|k: int| 0 <= k < i ==> (#[trigger] mv[k]).0 != key@,
        decreases ms.len() - i,
    {
        if ms[i].key == key {
            proof {
                assert(mv[i as int].0 == key@);
                assert(has_key(mv, key@));
                let p = key_index(mv, key@);
                assert(mv[p].0 == key@);
                assert(p == i);
            }
            let ghost kv = (key@, value@);
            let ghost pos = i as int;
            ms.set(i, Member { key, value });
            assert(ms@.map_values(|m: Member| m@) =~= mv.update(pos, kv));
            return;
        }
        i += 1;
    }
    ms.push(Member { key, value });
    assert(ms@.map_values(|m: Member| m@) =~= insert_member(mv, key@, value@));
}

/// Sets `key` to `value` in a state (see [`set_key`]).
pub fn set_state_key(state: &mut JsonValue, key: String, value: String)
    requires
        old(state)@.wf(),
    ensures
        final(state)@.wf(),
        final(state)@ == set_key(old(state)@, key@, value@),
{
    match state {
        JsonValue::Object(ms) => {
            insert_into(ms, key, value);
        },
        JsonValue::Other(_) => {
            let mut ms: Vec<Member> = Vec::new();
            ms.push(Member { key, value });
            assert(ms@.map_values(|m: Member| m@) =~= seq![(key@, value@)]);
            *state = JsonValue::Object(ms);
        },
    }
}

/// Merges an action into the state by the default rule (see [`reduce`]).
pub fn apply_default_reducer(state: &mut JsonValue, action: &Action) -> (r: Result<(), Error>)
    requires
        old(state)@.wf(),
    ensures
        r is Ok,
        final(state)@.wf(),
        final(state)@ == reduce(old(state)@, action@.action_type, action@.payload),
{
    match &action.payload {
        Some(JsonValue::Object(pm)) => {
            match state {
                JsonValue::Object(ms) => {
                    let ghost base = ms@.map_values(|m: Member| m@);
                    let ghost pv = pm@.map_values(|m: Member| m@);
                    let mut i: usize = 0;
                    while i < pm.len()
                        invariant
                            i <= pm.len(),
                            pv == pm@.map_values(|m: Member| m@),
                            unique_keys(ms@.map_values(|m: Member| m@)),
                            ms@.map_values(|m: Member| m@) == merge_members(base, pv.subrange(0, i as int)),
                        decreases pm.len() - i,
                    {
                        let key = pm[i].key.clone();
                        let value = pm[i].value.clone();
                        insert_into(ms, key, value);
                        proof {
                            let sub = pv.subrange(0, i as int + 1);
                            assert(sub.drop_last() =~= pv.subrange(0, i as int));
                            assert(sub.last() == pm@[i as int]@);
                        }
                        i += 1;
                    }
                    assert(pv.subrange(0, pm@.len() as int) =~= pv);
                },
                JsonValue::Other(_) => {},
            }
            Ok(())
        },
        Some(JsonValue::Other(t)) => {
            let key = lowercase(replace_colons(action.action_type.as_str()).as_str());
            set_state_key(state, key, t.clone());
            Ok(())
        },
        None => {
            let value = json_string(action.action_type.as_str())?;
            proof {
                reveal_strlit("last_action");
            }
            let key = "last_action".to_owned();
            assert(key@ =~= last_action_key());
            set_state_key(state, key, value);
            Ok(())
        },
    }
}

} // verus!
