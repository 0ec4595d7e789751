//! The data of the page fragments that are rendered and pushed.
use vstd::prelude::*;
use crate::cards::{join_cards, joined};

verus! {

/// The whole application view: the entry form and the card list, each
/// already rendered.
pub struct App {
    pub joy_form: String,
    pub joy_cards: String,
}

impl App {
    pub fn new(joy_form: String, joy_cards: String) -> (a: Self)
        ensures
            a.joy_form == joy_form,
            a.joy_cards == joy_cards,
    {
        App { joy_form, joy_cards }
    }
}

/// The card list: the rendered cards, one after the other.
pub struct JoyCards {
    pub joy_cards: String,
}

impl JoyCards {
    /// The list of the cards rendered one by one, in order; one failed card
    /// fails the list with the first error.
    pub fn assemble(rendered: &Vec<Result<String, String>>) -> (r: Result<JoyCards, String>)
        ensures
            match joined(rendered@) {
                Ok(s) => r is Ok && r->Ok_0.joy_cards@ == s,
                Err(e) => r is Err && r->Err_0@ == e,
            },
    {
        match join_cards(rendered) {
            Ok(s) => Ok(JoyCards { joy_cards: s }),
            Err(e) => Err(e),
        }
    }
}

} // verus!
