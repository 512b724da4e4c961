//! Search queries understood by the remote service, and the shape shared by
//! every decoded response.

use vstd::prelude::*;

verus! {

/// A search query for finding notes.
#[derive(Clone, Copy, Debug)]
pub enum AnkiQuery {
    CardState(CardState),
}

/// The card-state searches the service understands.
#[derive(Clone, Copy, Debug)]
pub enum CardState {
    IsDue,
    IsNew,
    IsLearn,
    IsReview,
    IsSuspended,
}

/// The textual search query a card state stands for.
pub open spec fn spec_card_state_text(state: CardState) -> Seq<char> {
    match state {
        CardState::IsDue => "is:due"@,
        CardState::IsNew => "is:new"@,
        CardState::IsLearn => "is:learn"@,
        CardState::IsReview => "is:review"@,
        CardState::IsSuspended => "is:suspended"@,
    }
}

/// The textual search query a query value stands for.
pub open spec fn spec_query_text(q: AnkiQuery) -> Seq<char> {
    match q {
        AnkiQuery::CardState(state) => spec_card_state_text(state),
    }
}

impl CardState {
    /// The textual search query for this card state.
    pub fn to_query(&self) -> (r: String)
        ensures
            r@ == spec_card_state_text(*self),
    {
        match self {
            CardState::IsDue => "is:due".to_owned(),
            CardState::IsNew => "is:new".to_owned(),
            CardState::IsLearn => "is:learn".to_owned(),
            CardState::IsReview => "is:review".to_owned(),
            CardState::IsSuspended => "is:suspended".to_owned(),
        }
    }
}

impl AnkiQuery {
    /// The textual search query this value stands for.
    pub fn to_query(&self) -> (r: String)
        ensures
            r@ == spec_query_text(*self),
    {
        match self {
            AnkiQuery::CardState(state) => state.to_query(),
        }
    }
}

/// The two halves of a decoded response: a result payload and an error
/// string, each of which may be absent.
pub trait AnkiConnectResult<T> {
    /// Takes the result payload out of the response.
    fn result(&mut self) -> T;

    /// Takes the error string out of the response.
    fn error(&mut self) -> Option<String>;
}

} // verus!
