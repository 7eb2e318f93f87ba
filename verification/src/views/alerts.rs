//! The alert surface: the one place where an answer that was not a success
//! is shown.

use vstd::prelude::*;
use crate::models::common::FetchOther;

verus! {

/// Holds at most one alert. A new one takes the place of the one before it;
/// the surface never asks the server for anything.
#[derive(Debug, PartialEq, Eq)]
pub struct AlertBox {
    content: Option<FetchOther>,
}

/// What the owner of an alert surface hands down to it.
#[derive(Debug, PartialEq, Eq)]
pub struct AlertBoxProps {
    pub refresh: Option<FetchOther>,
}

impl AlertBox {
    /// The alert on show, if any.
    pub closed spec fn content(&self) -> Option<FetchOther> {
        self.content
    }
}

impl Default for AlertBox {
    fn default() -> (r: Self)
        ensures
            r.content() is None,
    {
        AlertBox { content: None }
    }
}

/// A copy of an alert, if there is one.
fn copy_alert(alert: &Option<FetchOther>) -> (r: Option<FetchOther>)
    ensures
        r == *alert,
{
    match alert {
        Some(other) => Some(other.clone()),
        None => None,
    }
}

impl AlertBox {
    /// A surface that shows what its owner handed down.
    pub fn create(props: &AlertBoxProps) -> (r: Self)
        ensures
            r.content() == props.refresh,
    {
        AlertBox { content: copy_alert(&props.refresh) }
    }

    /// Takes what the owner handed down anew, in place of whatever was on
    /// show. The surface is always drawn again.
    pub fn changed(&mut self, props: &AlertBoxProps) -> (render: bool)
        ensures
            final(self).content() == props.refresh,
            render,
    {
        self.content = copy_alert(&props.refresh);
        true
    }

    /// Shows `other` in place of whatever was on show.
    pub fn report(&mut self, other: FetchOther)
        ensures
            final(self).content() == Some(other),
    {
        self.content = Some(other);
    }

    /// Clears the surface: the user dismissed the alert, or an action
    /// succeeded.
    pub fn dismiss(&mut self)
        ensures
            final(self).content() is None,
    {
        self.content = None;
    }

    /// The alert to draw as an open dialog with its status and its message,
    /// or nothing to draw.
    pub fn view(&self) -> (r: Option<&FetchOther>)
        ensures
            match r {
                Some(other) => self.content() == Some(*other),
                None => self.content() is None,
            },
    {
        match &self.content {
            Some(other) => Some(other),
            None => None,
        }
    }
}

} // verus!
