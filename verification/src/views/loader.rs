//! Loading one remote entity by its identifier.
//!
//! A screen that shows an entity keeps a [`Loader`]. The application sends
//! one request when the loader is made and one more each time
//! [`Loader::set_id`] says so, and hands every answer to [`Loader::settle`]
//! together with the identifier that the request was made for. An answer
//! that comes too late, for an identifier that the screen has left, changes
//! nothing.

use vstd::prelude::*;
use crate::models::common::{AppResult, FetchOther, FetchRes, REPORT_ADVICE};
use crate::models::oid::ObjectId;
use crate::views::errs::ErrorView;

verus! {

/// How far a load has come.
#[derive(Debug, PartialEq, Eq)]
pub enum Loaded<T> {
    /// The request is on its way; a placeholder is shown. Nothing ends the
    /// wait but the answer.
    Pending,
    /// The request has settled.
    Ready(AppResult<FetchRes<T>>),
}

/// The load of the entity that one screen shows.
#[derive(Debug)]
pub struct Loader<T> {
    id: ObjectId,
    state: Loaded<T>,
}

/// What a screen shows for a load.
#[derive(Debug, PartialEq, Eq)]
pub enum LoaderView<'a, T> {
    /// Still loading.
    Placeholder,
    /// The entity.
    Entity(&'a T),
    /// An answer that was not a success: it goes to the alert surface, and
    /// the screen stays.
    Alert(&'a FetchOther),
    /// A failure: its panel takes the place of the screen, and nothing is
    /// tried again.
    Fatal(ErrorView),
}

impl<T> Loader<T> {
    /// The identifier that the screen shows now.
    pub closed spec fn id(self) -> ObjectId {
        self.id
    }

    /// How far the load for that identifier has come.
    pub closed spec fn state(self) -> Loaded<T> {
        self.state
    }

    /// Whether `after` is `before` once the screen was asked to show `id`:
    /// a new identifier starts a new load, the same identifier changes
    /// nothing.
    pub open spec fn retargeted(before: Self, id: ObjectId, after: Self) -> bool {
        &&& after.id() == id
        &&& after.state() == if id == before.id() {
            before.state()
        } else {
            Loaded::Pending
        }
    }

    /// Whether `after` is `before` once the answer `outcome` to a request for
    /// `id` has come in: it is taken where the screen still waits for that
    /// identifier, and dropped otherwise.
    pub open spec fn settled(
        before: Self,
        id: ObjectId,
        outcome: AppResult<FetchRes<T>>,
        after: Self,
    ) -> bool {
        &&& after.id() == before.id()
        &&& after.state() == if id == before.id() && before.state() is Pending {
            Loaded::Ready(outcome)
        } else {
            before.state()
        }
    }

    /// A load for `id` that waits for its answer. The caller sends the
    /// request.
    pub fn new(id: ObjectId) -> (r: Self)
        ensures
            r.id() == id,
            r.state() is Pending,
    {
        Loader { id, state: Loaded::Pending }
    }

    /// The identifier that the screen shows now.
    pub fn current(&self) -> (id: ObjectId)
        ensures
            id == self.id(),
    {
        self.id
    }

    /// Whether the screen still waits for its answer.
    pub fn is_pending(&self) -> (r: bool)
        ensures
            r == (self.state() is Pending),
    {
        match &self.state {
            Loaded::Pending => true,
            Loaded::Ready(_) => false,
        }
    }

    /// Tells the loader which identifier the screen shows. The result says
    /// whether the caller has to send a request for it: only where the
    /// identifier differs from the one before. Drawing the screen again with
    /// the same identifier sends nothing and keeps what was loaded.
    pub fn set_id(&mut self, id: ObjectId) -> (fetch: bool)
        ensures
            fetch == (id != old(self).id()),
            Self::retargeted(*old(self), id, *final(self)),
    {
        proof {
            id.lemma_view_injective(self.id);
        }
        if id == self.id {
            false
        } else {
            self.id = id;
            self.state = Loaded::Pending;
            true
        }
    }

    /// Hands in the answer to a request that was sent for `id`. The result
    /// says whether it was taken: only where `id` is still the identifier on
    /// show and no answer for it has been taken before. Otherwise the answer
    /// is dropped and nothing changes.
    pub fn settle(&mut self, id: ObjectId, outcome: AppResult<FetchRes<T>>) -> (applied: bool)
        ensures
            applied == (id == old(self).id() && old(self).state() is Pending),
            Self::settled(*old(self), id, outcome, *final(self)),
            !applied ==> *final(self) == *old(self),
    {
        proof {
            id.lemma_view_injective(self.id);
        }
        if id == self.id && self.is_pending() {
            self.state = Loaded::Ready(outcome);
            true
        } else {
            false
        }
    }

    /// What the screen shows.
    pub fn view(&self) -> (v: LoaderView<'_, T>)
        ensures
            match self.state() {
                Loaded::Pending => v is Placeholder,
                Loaded::Ready(Ok(FetchRes::Body(entity))) => v == LoaderView::Entity(&entity),
                Loaded::Ready(Ok(FetchRes::Other(other))) => v == LoaderView::<T>::Alert(&other),
                Loaded::Ready(Err(e)) => v matches LoaderView::Fatal(panel) && panel.text@
                    == e.message() && panel.advice@ == REPORT_ADVICE@,
            },
    {
        match &self.state {
            Loaded::Pending => LoaderView::Placeholder,
            Loaded::Ready(Ok(FetchRes::Body(entity))) => LoaderView::Entity(entity),
            Loaded::Ready(Ok(FetchRes::Other(other))) => LoaderView::Alert(other),
            Loaded::Ready(Err(e)) => LoaderView::Fatal(e.view()),
        }
    }

    /// An answer for an identifier that the screen has left is dropped: when
    /// the screen moves from `a`'s identifier to another one, `id`, before
    /// the first request has settled, the late answer to that first request
    /// changes nothing of what the screen holds for `id`.
    pub proof fn lemma_stale_answer_is_dropped(
        a: Self,
        b: Self,
        c: Self,
        id: ObjectId,
        outcome: AppResult<FetchRes<T>>,
    )
        requires
            a.id() != id,
            Self::retargeted(a, id, b),
            Self::settled(b, a.id(), outcome, c),
        ensures
            c == b,
            c.id() == id,
    {
    }

    /// Whatever answers come in for other identifiers, and in whatever
    /// order, the answer that the screen ends up with is one that was sent
    /// for the identifier on show.
    pub proof fn lemma_only_current_answer_is_taken(
        before: Self,
        id: ObjectId,
        outcome: AppResult<FetchRes<T>>,
        after: Self,
    )
        requires
            Self::settled(before, id, outcome, after),
        ensures
            after.state() != before.state() ==> id == after.id() && after.state()
                == Loaded::Ready(outcome),
    {
    }
}

} // verus!
