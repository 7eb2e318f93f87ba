//! The routes below `/theses`.

use vstd::prelude::*;
use vstd::string::StringExecFns;
use crate::models::oid::{encode_hex, ObjectId};

verus! {

/// Where the address bar points, below `/theses`.
#[derive(Clone, Debug, PartialEq, Eq)]
pub enum Route {
    List,
    New,
    View { id: ObjectId },
}

/// What is drawn for a route below `/theses`.
#[derive(Debug, PartialEq, Eq)]
pub enum Screen {
    /// The form for a new thesis.
    Post,
    /// The thesis `id`, loaded by its identifier; `fallback` is shown while
    /// it loads.
    Get { id: ObjectId, fallback: String },
    /// Nothing.
    Nothing,
}

/// The words shown while the thesis `id` loads.
pub open spec fn loading_thesis(id: ObjectId) -> Seq<char> {
    "Loading thesis "@ + encode_hex(id@) + "..."@
}

impl Route {
    /// The screen that a route leads to.
    pub fn switch(&self) -> (screen: Screen)
        ensures
            match *self {
                Route::New => screen is Post,
                Route::View { id } => screen matches Screen::Get { id: shown, fallback }
                    && shown == id && fallback@ == loading_thesis(id),
                Route::List => screen is Nothing,
            },
    {
        match self {
            Route::New => Screen::Post,
            Route::View { id } => {
                let mut fallback = String::from_str("Loading thesis ");
                let hex = id.to_hex();
                fallback.append(hex.as_str());
                fallback.append("...");
                Screen::Get { id: *id, fallback }
            },
            Route::List => Screen::Nothing,
        }
    }
}

} // verus!
