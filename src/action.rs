//! Actions: identified requests to change the state.
use vstd::prelude::*;
use crate::json::{JsonValue, JsonView};

verus! {

/// An action dispatched to change the state.
#[derive(Clone, Debug)]
pub struct Action {
    /// The type of the action.
    pub action_type: String,
    /// Optional payload.
    pub payload: Option<JsonValue>,
    /// Identifier used to track the action across processes.
    pub id: Option<String>,
    /// The window the action came from.
    pub source_window_id: Option<u32>,
}

/// The mathematical content of an [`Action`].
pub struct ActionView {
    pub action_type: Seq<char>,
    pub payload: Option<JsonView>,
    pub id: Option<Seq<char>>,
    pub source_window_id: Option<u32>,
}

impl View for Action {
    type V = ActionView;

    open spec fn view(&self) -> ActionView {
        ActionView {
            action_type: self.action_type@,
            payload: match self.payload {
                Some(p) => Some(p@),
                None => None,
            },
            id: match self.id {
                Some(s) => Some(s@),
                None => None,
            },
            source_window_id: self.source_window_id,
        }
    }
}

impl Action {
    /// An independent copy.
    pub fn copy_of(&self) -> (r: Action)
        ensures
            r@ == self@,
    {
        let payload = match &self.payload {
            Some(p) => Some(p.copy_of()),
            None => None,
        };
        let id = match &self.id {
            Some(s) => Some(s.clone()),
            None => None,
        };
        Action {
            action_type: self.action_type.clone(),
            payload,
            id,
            source_window_id: self.source_window_id,
        }
    }
}

} // verus!
