//! The screens of the portal and the routes that lead to them.

use vstd::prelude::*;
use crate::models::oid::ObjectId;

verus! {

/// Where the address bar points.
#[derive(Clone, Debug, PartialEq, Eq)]
pub enum Route {
    Home,
    Signup,
    Login,
    ThesesRoot,
    Theses,
    Versions { id: ObjectId },
}

/// What is drawn for a route.
#[derive(Clone, Debug, PartialEq, Eq)]
pub enum Screen {
    /// The front page.
    Home,
    Signup,
    Login,
    /// One of the screens for theses; the routes below `/theses` say which.
    Theses,
    /// The version `id`, loaded by its identifier.
    Version { id: ObjectId },
}

impl Route {
    /// The screen that a route leads to.
    pub fn switch(&self) -> (screen: Screen)
        ensures
            screen == match *self {
                Route::ThesesRoot | Route::Theses => Screen::Theses,
                Route::Home => Screen::Home,
                Route::Signup => Screen::Signup,
                Route::Login => Screen::Login,
                Route::Versions { id } => Screen::Version { id },
            },
    {
        match self {
            Route::ThesesRoot | Route::Theses => Screen::Theses,
            Route::Home => Screen::Home,
            Route::Signup => Screen::Signup,
            Route::Login => Screen::Login,
            Route::Versions { id } => Screen::Version { id: *id },
        }
    }
}

} // verus!
