//! A shallow model of structured values: an object as its top-level members,
//! each member's value kept as its compact JSON text, or any other value as
//! its compact JSON text.
use vstd::prelude::*;
use crate::error::Error;

verus! {

/// What `serde_json` writes for a string: the quoted, escaped literal.
pub uninterp spec fn quoted_of(s: Seq<char>) -> Seq<char>;

/// Writes a string as a JSON string literal.
///
/// Relies on `serde_json::to_string` on a `str`: the quoted, escaped literal,
/// a function of the characters alone. Its only failures are I/O errors of
/// the writer, and the writer is an in-memory `Vec<u8>`, which never fails.
#[verifier::external_body]
pub fn json_string(s: &str) -> (r: Result<String, Error>)
    ensures
        r is Ok,
        r matches Ok(t) ==> t@ == quoted_of(s@),
{
    serde_json::to_string(s).map_err(|e| Error::Json(e.to_string()))
}

/// One top-level member of an object: its key and its value's JSON text.
#[derive(Clone, Debug, PartialEq, Eq)]
pub struct Member {
    pub key: String,
    pub value: String,
}

/// A structured value, modelled to the depth the telemetry core reads.
#[derive(Clone, Debug, PartialEq, Eq)]
pub enum JsonValue {
    /// An object, by its members in order.
    Object(Vec<Member>),
    /// Any value that is not an object, by its compact JSON text.
    Other(String),
}

/// The mathematical content of a [`JsonValue`].
pub enum JsonView {
    Object(Seq<(Seq<char>, Seq<char>)>),
    Other(Seq<char>),
}

impl View for Member {
    type V = (Seq<char>, Seq<char>);

    open spec fn view(&self) -> (Seq<char>, Seq<char>) {
        (self.key@, self.value@)
    }
}

impl View for JsonValue {
    type V = JsonView;

    open spec fn view(&self) -> JsonView {
        match self {
            JsonValue::Object(ms) => JsonView::Object(ms@.map_values(|m: Member| m@)),
            JsonValue::Other(t) => JsonView::Other(t@),
        }
    }
}

/// The view of an optional value.
pub open spec fn opt_view(o: Option<JsonValue>) -> Option<JsonView> {
    match o {
        Some(v) => Some(v@),
        None => None,
    }
}

/// The keys of a member list, in order.
pub open spec fn keys_of(ms: Seq<(Seq<char>, Seq<char>)>) -> Seq<Seq<char>> {
    ms.map_values(|m: (Seq<char>, Seq<char>)| m.0)
}

/// No two members share a key.
pub open spec fn unique_keys(ms: Seq<(Seq<char>, Seq<char>)>) -> bool {
    forall|i: int, j: int|
        0 <= i < ms.len() && 0 <= j < ms.len() && i != j ==> (#[trigger] ms[i]).0 != (#[trigger] ms[j]).0
}

impl JsonView {
    /// An object has distinct keys.
    pub open spec fn wf(self) -> bool {
        match self {
            JsonView::Object(ms) => unique_keys(ms),
            JsonView::Other(_) => true,
        }
    }
}

/// The compact text of a member: quoted key, colon, value text.
pub open spec fn member_text(m: (Seq<char>, Seq<char>)) -> Seq<char> {
    quoted_of(m.0) + seq![':'] + m.1
}

/// The member texts joined by commas.
pub open spec fn members_text(ms: Seq<(Seq<char>, Seq<char>)>) -> Seq<char>
    decreases ms.len(),
{
    if ms.len() == 0 {
        Seq::empty()
    } else if ms.len() == 1 {
        member_text(ms[0])
    } else {
        members_text(ms.drop_last()) + seq![','] + member_text(ms.last())
    }
}

/// The compact JSON text of a value.
pub open spec fn value_text(v: JsonView) -> Seq<char> {
    match v {
        JsonView::Object(ms) => seq!['{'] + members_text(ms) + seq!['}'],
        JsonView::Other(t) => t,
    }
}

impl Member {
    /// An independent copy.
    pub fn copy_of(&self) -> (r: Member)
        ensures
            r@ == self@,
    {
        Member { key: self.key.clone(), value: self.value.clone() }
    }
}

/// An independent copy of a member list.
pub fn copy_members(ms: &Vec<Member>) -> (r: Vec<Member>)
    ensures
        r@.map_values(|m: Member| m@) == ms@.map_values(|m: Member| m@),
{
    let mut r: Vec<Member> = Vec::new();
    let mut i: usize = 0;
    while i < ms.len()
        invariant
            i <= ms.len(),
            r@.len() == i,
            forall|k: int| 0 <= k < i ==> (#[trigger] r@[k])@ == ms@[k]@,
        decreases ms.len() - i,
    {
        r.push(ms[i].copy_of());
        i += 1;
    }
    assert(r@.map_values(|m: Member| m@) =~= ms@.map_values(|m: Member| m@));
    r
}

impl JsonValue {
    /// An independent copy.
    pub fn copy_of(&self) -> (r: JsonValue)
        ensures
            r@ == self@,
    {
        match self {
            JsonValue::Object(ms) => JsonValue::Object(copy_members(ms)),
            JsonValue::Other(t) => JsonValue::Other(t.clone()),
        }
    }

    /// Writes the value as compact JSON text.
    pub fn to_text(&self) -> (r: Result<String, Error>)
        ensures
            r matches Ok(t) && t@ == value_text(self@),
    {
        match self {
            JsonValue::Other(t) => Ok(t.clone()),
            JsonValue::Object(ms) => {
                let ghost mv = ms@.map_values(|m: Member| m@);
                proof {
                    reveal_strlit("{");
                    reveal_strlit("}");
                    assert(mv.subrange(0, 0) =~= Seq::<(Seq<char>, Seq<char>)>::empty());
                }
                let mut out = "{".to_owned();
                assert(out@ =~= seq!['{'] + members_text(mv.subrange(0, 0)));
                let mut i: usize = 0;
                while i < ms.len()
                    invariant
                        i <= ms.len(),
                        mv == ms@.map_values(|m: Member| m@),
                        out@ == seq!['{'] + members_text(mv.subrange(0, i as int)),
                    decreases ms.len() - i,
                {
                    let key = json_string(ms[i].key.as_str())?;
                    let ghost before = out@;
                    proof {
                        reveal_strlit(",");
                        reveal_strlit(":");
                    }
                    if i > 0 {
                        out.append(",");
                        assert(out@ =~= before + seq![',']);
                    }
                    let ghost mid = out@;
                    out.append(key.as_str());
                    assert(out@ == mid + key@);
                    out.append(":");
                    assert(out@ =~= mid + key@ + seq![':']);
                    out.append(ms[i].value.as_str());
                    assert(out@ =~= mid + key@ + seq![':'] + ms@[i as int].value@);
                    proof {
                        let sub = mv.subrange(0, i as int + 1);
                        assert(sub.drop_last() =~= mv.subrange(0, i as int));
                        assert(sub.last() == ms@[i as int]@);
                        assert(mv[i as int] == ms@[i as int]@);
                        assert(key@ == quoted_of(ms@[i as int].key@));
                        if i == 0 {
                            assert(before =~= seq!['{']);
                            assert(out@ =~= seq!['{'] + member_text(mv[0]));
                        } else {
                            assert(out@ =~= before + seq![','] + member_text(mv[i as int]));
                        }
                    }
                    i += 1;
                    proof {
                        assert(out@ =~= seq!['{'] + members_text(mv.subrange(0, i as int)));
                    }
                }
                out.append("}");
                proof {
                    assert(mv.subrange(0, ms@.len() as int) =~= mv);
                    assert(out@ =~= value_text(self@));
                }
                Ok(out)
            },
        }
    }
}

} // verus!
