//! The candidate of a profile list: what the user has typed so far.

use vstd::prelude::*;
use crate::models::oid::{decode_hex, is_oid_hex, ObjectId};

verus! {

/// The text in the entry field, and the identifier that it names, if it
/// names one.
#[derive(Debug, PartialEq, Eq)]
pub struct Input {
    id: Option<ObjectId>,
    hex: String,
}

/// What happens to the entry field.
#[derive(Debug, PartialEq, Eq)]
pub enum InputMsg {
    /// The user changed the text.
    Input(String),
    /// The candidate was taken into the list.
    Submit,
}

/// What the entry field shows: its text, and whether the button beside it is
/// switched off.
#[derive(Debug, PartialEq, Eq)]
pub struct InputView {
    pub value: String,
    pub disabled: bool,
}

/// The bytes of the identifier that a text names, if it names one.
pub open spec fn named_id(raw: Seq<char>) -> Option<Seq<u8>> {
    if is_oid_hex(raw) {
        Some(decode_hex(raw))
    } else {
        None
    }
}

impl Input {
    #[verifier::type_invariant]
    spec fn id_is_parsed(self) -> bool {
        match self.id {
            Some(id) => named_id(self.hex@) == Some(id@),
            None => named_id(self.hex@) is None,
        }
    }

    /// The text in the entry field.
    pub closed spec fn raw(self) -> Seq<char> {
        self.hex@
    }

    /// An empty entry field.
    pub fn create() -> (r: Self)
        ensures
            r.raw() == Seq::<char>::empty(),
    {
        Input { id: None, hex: String::new() }
    }

    /// An entry field that holds the text `val`.
    pub fn typed(val: String) -> (r: Self)
        ensures
            r.raw() == val@,
    {
        let id = ObjectId::parse_str(val.as_str());
        Input { id, hex: val }
    }

    /// Takes the text that the user typed and reads an identifier from it, or
    /// empties the field once its candidate was taken. The field is drawn
    /// again either way.
    pub fn update(&mut self, msg: InputMsg) -> (render: bool)
        ensures
            render,
            final(self).raw() == match msg {
                InputMsg::Input(val) => val@,
                InputMsg::Submit => Seq::<char>::empty(),
            },
    {
        match msg {
            InputMsg::Input(val) => {
                *self = Input::typed(val);
            },
            InputMsg::Submit => {
                *self = Input { id: None, hex: String::new() };
            },
        }
        true
    }

    /// The identifier that the text names, if it names one.
    pub fn id(&self) -> (r: Option<ObjectId>)
        ensures
            match r {
                Some(id) => named_id(self.raw()) == Some(id@),
                None => named_id(self.raw()) is None,
            },
    {
        proof {
            use_type_invariant(self);
        }
        self.id
    }

    /// What the field shows. The button is switched off unless the text names
    /// an identifier and the owner of the field finds that identifier
    /// `valid`.
    pub fn view(&self, valid: bool) -> (v: InputView)
        ensures
            v.value@ == self.raw(),
            v.disabled == !(named_id(self.raw()) is Some && valid),
    {
        proof {
            use_type_invariant(self);
        }
        let disabled = match self.id {
            Some(_) => !valid,
            None => true,
        };
        InputView { value: self.hex.clone(), disabled }
    }
}

impl Default for Input {
    fn default() -> (r: Self)
        ensures
            r.raw() == Seq::<char>::empty(),
    {
        Input::create()
    }
}

} // verus!
