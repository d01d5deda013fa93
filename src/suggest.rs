//! The suggestion adapter: a table of suggested texts, their magic keys and
//! whether each is a collection.
use vstd::prelude::*;
use crate::envelope::{fallback, outcome_of, Decoded, Outcome};
use crate::json::{field, get_field, is_json, lemma_array_views, parse_json, parsed, views, Json, JsonView};

verus! {

/// One suggestion.
#[derive(Debug, PartialEq)]
pub struct Suggestion {
    pub text: String,
    pub magic_key: String,
    pub is_collection: bool,
}

pub struct SuggestionView {
    pub text: Seq<char>,
    pub magic_key: Seq<char>,
    pub is_collection: bool,
}

impl View for Suggestion {
    type V = SuggestionView;

    open spec fn view(&self) -> SuggestionView {
        SuggestionView { text: self.text@, magic_key: self.magic_key@, is_collection: self.is_collection }
    }
}

/// The suggestions of one response, in the order given.
#[derive(Debug, PartialEq)]
pub struct Suggestions {
    pub suggestions: Vec<Suggestion>,
}

impl View for Suggestions {
    type V = Seq<SuggestionView>;

    open spec fn view(&self) -> Seq<SuggestionView> {
        suggestion_views(self.suggestions@)
    }
}

/// What a list of suggestions holds.
pub open spec fn suggestion_views(s: Seq<Suggestion>) -> Seq<SuggestionView> {
    s.map_values(|x: Suggestion| x@)
}

/// A suggestion decodes: an object with text `text`, text `magicKey` and
/// boolean `isCollection`.
pub open spec fn suggestion_of(j: JsonView) -> Option<SuggestionView> {
    match (field(j, "text"@), field(j, "magicKey"@), field(j, "isCollection"@)) {
        (Some(JsonView::Str(text)), Some(JsonView::Str(magic_key)), Some(JsonView::Bool(is_collection))) => Some(
            SuggestionView { text, magic_key, is_collection },
        ),
        _ => None,
    }
}

/// The suggestions of a response whose member `suggestions` is an array of
/// suggestions that all decode; none where it is not one.
pub open spec fn suggestions_of(j: JsonView) -> Option<Seq<SuggestionView>> {
    match field(j, "suggestions"@) {
        Some(JsonView::Array(items)) => if forall|i: int| 0 <= i < items.len() ==> suggestion_of(#[trigger] items[i]) is Some {
            Some(Seq::new(items.len(), |i: int| suggestion_of(items[i])->0))
        } else {
            None
        },
        _ => None,
    }
}

fn decode_suggestion(j: &Json) -> (r: Option<Suggestion>)
    ensures
        match r {
            Some(s) => suggestion_of(j@) == Some(s@),
            None => suggestion_of(j@) is None,
        },
{
    match (get_field(j, "text"), get_field(j, "magicKey"), get_field(j, "isCollection")) {
        (Some(Json::Str(text)), Some(Json::Str(magic_key)), Some(Json::Bool(is_collection))) => Some(
            Suggestion { text: text.clone(), magic_key: magic_key.clone(), is_collection: *is_collection },
        ),
        _ => None,
    }
}

/// The suggestions of a decoded response, in order; where it does not have
/// that shape, reads it as an error envelope.
pub fn decode_suggestions(j: &Json) -> (r: Decoded<Suggestions>)
    ensures
        r@ == outcome_of(suggestions_of(j@), j@),
{
    let items = match get_field(j, "suggestions") {
        Some(Json::Array(items)) => items,
        _ => return fallback(j),
    };
    proof {
        lemma_array_views(*items);
    }
    let mut out: Vec<Suggestion> = Vec::new();
    let mut i: usize = 0;
    while i < items.len()
        invariant
            field(j@, "suggestions"@) == Some(JsonView::Array(views(items@))),
            i <= items@.len(),
            out@.len() == i,
            forall|k: int| 0 <= k < i ==> suggestion_of(#[trigger] views(items@)[k]) is Some,
            forall|k: int| 0 <= k < i ==> suggestion_of(views(items@)[k]) == Some(#[trigger] out@[k]@),
        decreases items@.len() - i,
    {
        assert(views(items@)[i as int] == items@[i as int]@);
        match decode_suggestion(&items[i]) {
            Some(s) => out.push(s),
            None => {
                assert(suggestion_of(views(items@)[i as int]) is None);
                return fallback(j);
            },
        }
        i = i + 1;
    }
    assert(suggestion_views(out@) =~= Seq::new(items@.len(), |k: int| suggestion_of(views(items@)[k])->0));
    Decoded::Parsed(Suggestions { suggestions: out })
}

/// The suggestions in the text of a suggestion response: the outcome of the
/// value it parses to, or unparsable where it is not JSON.
pub fn parse_suggestions(x: &str) -> (r: Decoded<Suggestions>)
    ensures
        r@ == if is_json(x@) {
            outcome_of(suggestions_of(parsed(x@)), parsed(x@))
        } else {
            Outcome::Unparsable
        },
{
    match parse_json(x) {
        Some(j) => decode_suggestions(&j),
        None => Decoded::Unparsable,
    }
}

} // verus!
