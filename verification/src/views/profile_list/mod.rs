//! An ordered list of profiles without repeats, built one identifier at a
//! time: the editor behind a thesis's authors and a version's referees.
//!
//! The user types an identifier, the application fetches the profile, and a
//! profile that came back takes its place at the end of the list. The list
//! hands a copy of itself up to its owner after every change; it never talks
//! to the server about the thesis or the version itself.

pub mod entity;
pub mod input;

use vstd::prelude::*;
use crate::models::address::url_joined;
use crate::models::common::{AppConfig, AppError, AppResult, FetchOther, FetchRes};
use crate::models::oid::{encode_hex, ObjectId};
use crate::models::profile::PublicProfile;
use crate::models::request::{is_request, Method, Payload, Request};
use crate::views::collection::{apply, lemma_apply_keeps_unique, Op};
use crate::views::profile_list::entity::{is_entity, view_entity, Entity};
use crate::views::profile_list::input::{named_id, Input, InputView};

verus! {

/// The accepted profiles, in the order in which they were accepted, and the
/// candidate.
#[derive(Debug)]
pub struct ProfileList {
    vals: Vec<PublicProfile>,
    input: Input,
}

/// What happens to a profile list.
#[derive(Debug, PartialEq, Eq)]
pub enum ProfileListMsg {
    /// The fetch of the candidate failed.
    Failure(AppError),
    /// The fetch of the candidate was answered, but not with a profile.
    Alert(FetchOther),
    /// The fetch of the candidate brought this profile.
    Push(PublicProfile),
    /// The user struck out the line at this place.
    Remove(usize),
    /// The user emptied the list.
    New,
    /// The user changed the text of the candidate.
    Input(String),
}

/// What a profile list hands up to its owner after a message.
#[derive(Debug, PartialEq, Eq)]
pub enum ProfileListEffect {
    /// Nothing.
    Nothing,
    /// A failure, for the failure panel.
    Failure(AppError),
    /// An answer that was not a success, for the alert surface.
    Alert(FetchOther),
    /// A copy of the accepted profiles as they now are.
    Vals(Vec<PublicProfile>),
}

/// What a profile list shows: one line for each accepted profile, then the
/// entry field. The button that empties the list is always there.
#[derive(Debug, PartialEq, Eq)]
pub struct ProfileListView {
    pub entities: Vec<Entity>,
    pub input: InputView,
}

/// The identifiers of some profiles, in their order.
pub open spec fn ids_of(vals: Seq<PublicProfile>) -> Seq<Seq<u8>> {
    vals.map_values(|p: PublicProfile| p._id@)
}

impl ProfileList {
    #[verifier::type_invariant]
    spec fn no_repeats(self) -> bool {
        ids_of(self.vals@).no_duplicates()
    }

    /// The accepted profiles, in the order in which they were accepted.
    pub closed spec fn accepted(self) -> Seq<PublicProfile> {
        self.vals@
    }

    /// The text of the candidate.
    pub closed spec fn raw(self) -> Seq<char> {
        self.input.raw()
    }

    /// The keys of the accepted profiles: their identifiers.
    pub open spec fn keys(self) -> Seq<Seq<u8>> {
        ids_of(self.accepted())
    }

    /// Whether the candidate can be submitted: its text is not empty, names
    /// an identifier, and that identifier is not in the list yet.
    pub open spec fn candidate_is_valid(self) -> bool {
        &&& self.raw().len() > 0
        &&& named_id(self.raw()) matches Some(id)
        &&& !self.keys().contains(id)
    }

    /// Whether `after` is `before` once `msg` was taken in.
    ///
    /// A profile that was fetched goes to the end of the list and empties
    /// the candidate, unless its identifier is in the list already: then
    /// nothing changes. Striking out a line removes it and moves nothing
    /// else. Emptying the list empties the candidate too. A failure or an
    /// alert leaves both the list and the candidate as they are.
    pub open spec fn updated(before: Self, msg: ProfileListMsg, after: Self) -> bool {
        match msg {
            ProfileListMsg::Failure(_) | ProfileListMsg::Alert(_) => {
                &&& after.accepted() == before.accepted()
                &&& after.raw() == before.raw()
            },
            ProfileListMsg::Push(profile) => if before.keys().contains(profile._id@) {
                &&& after.accepted() == before.accepted()
                &&& after.raw() == before.raw()
            } else {
                &&& after.accepted() == before.accepted().push(profile)
                &&& after.raw() == Seq::<char>::empty()
            },
            ProfileListMsg::Remove(index) => {
                &&& after.accepted() == before.accepted().remove(index as int)
                &&& after.raw() == before.raw()
            },
            ProfileListMsg::New => {
                &&& after.accepted() == Seq::<PublicProfile>::empty()
                &&& after.raw() == Seq::<char>::empty()
            },
            ProfileListMsg::Input(val) => {
                &&& after.accepted() == before.accepted()
                &&& after.raw() == val@
            },
        }
    }

    /// The change that a message makes to the keys of the list, if it makes
    /// one.
    pub open spec fn op_of(msg: ProfileListMsg) -> Option<Op<Seq<u8>>> {
        match msg {
            ProfileListMsg::Push(profile) => Some(Op::Push(profile._id@)),
            ProfileListMsg::Remove(index) => Some(Op::Remove(index as int)),
            ProfileListMsg::New => Some(Op::Reset),
            _ => None,
        }
    }

    /// An empty list with an empty candidate.
    pub fn create() -> (r: Self)
        ensures
            r.accepted() == Seq::<PublicProfile>::empty(),
            r.raw() == Seq::<char>::empty(),
    {
        let vals: Vec<PublicProfile> = Vec::new();
        assert(ids_of(vals@) =~= Seq::<Seq<u8>>::empty());
        ProfileList { vals, input: Input::create() }
    }

    /// How many profiles are accepted.
    pub fn len(&self) -> (n: usize)
        ensures
            n == self.accepted().len(),
    {
        self.vals.len()
    }

    /// The accepted profiles; no identifier occurs twice among them.
    pub fn vals(&self) -> (r: &Vec<PublicProfile>)
        ensures
            r@ == self.accepted(),
            self.keys().no_duplicates(),
    {
        proof {
            use_type_invariant(self);
        }
        &self.vals
    }

    /// Whether `id` may still be added: it is not in the list yet.
    pub fn validate(&self, id: ObjectId) -> (ok: bool)
        ensures
            ok == !self.keys().contains(id@),
    {
        let mut i: usize = 0;
        while i < self.vals.len()
            invariant
                i <= self.vals.len(),
                forall|j: int| 0 <= j < i ==> ids_of(self.vals@)[j] != id@,
            decreases self.vals.len() - i,
        {
            if self.vals[i]._id == id {
                assert(ids_of(self.vals@)[i as int] == id@);
                return false;
            }
            i += 1;
        }
        true
    }

    /// Takes the accepted profiles out, leaving none behind for the moment.
    fn take_vals(&mut self) -> (vals: Vec<PublicProfile>)
        ensures
            vals@ == old(self).accepted(),
            final(self).accepted() == Seq::<PublicProfile>::empty(),
            final(self).raw() == old(self).raw(),
    {
        let mut vals: Vec<PublicProfile> = Vec::new();
        proof {
            assert(ids_of(vals@) =~= Seq::<Seq<u8>>::empty());
        }
        core::mem::swap(&mut self.vals, &mut vals);
        vals
    }

    /// A copy of the accepted profiles.
    pub fn snapshot(&self) -> (r: Vec<PublicProfile>)
        ensures
            r@ == self.accepted(),
    {
        let mut out: Vec<PublicProfile> = Vec::new();
        let mut i: usize = 0;
        while i < self.vals.len()
            invariant
                i <= self.vals.len(),
                out@ == self.vals@.take(i as int),
            decreases self.vals.len() - i,
        {
            out.push(self.vals[i].clone());
            assert(out@ =~= self.vals@.take(i + 1));
            i += 1;
        }
        assert(self.vals@.take(self.vals.len() as int) =~= self.vals@);
        out
    }

    /// The request that a click on the button sends: the fetch of the
    /// candidate's profile. There is none while the candidate is not valid,
    /// since the button is then switched off.
    pub fn submit(&self, cfg: &AppConfig) -> (r: Option<AppResult<Request>>)
        ensures
            match r {
                Some(req) => self.candidate_is_valid() && is_request(
                    req,
                    Method::Get,
                    url_joined(cfg@, "profiles/"@ + encode_hex(named_id(self.raw())->0)),
                    false,
                    Payload::Empty,
                ),
                None => !self.candidate_is_valid(),
            },
    {
        match self.input.id() {
            Some(id) => {
                if self.validate(id) {
                    assert(self.raw().len() > 0);
                    Some(PublicProfile::try_get(cfg, id))
                } else {
                    None
                }
            },
            None => None,
        }
    }

    /// The message that the outcome of the candidate's fetch stands for.
    pub fn fetched(outcome: AppResult<FetchRes<PublicProfile>>) -> (msg: ProfileListMsg)
        ensures
            msg == match outcome {
                Ok(FetchRes::Body(profile)) => ProfileListMsg::Push(profile),
                Ok(FetchRes::Other(other)) => ProfileListMsg::Alert(other),
                Err(e) => ProfileListMsg::Failure(e),
            },
    {
        match outcome {
            Ok(FetchRes::Body(profile)) => ProfileListMsg::Push(profile),
            Ok(FetchRes::Other(other)) => ProfileListMsg::Alert(other),
            Err(e) => ProfileListMsg::Failure(e),
        }
    }

    /// Takes in one message. The first result says whether the list is to be
    /// drawn again, the second what goes up to the owner: a failure or an
    /// alert as it came, and after every message that is a change to the
    /// list, a copy of the list as it now is.
    pub fn update(&mut self, msg: ProfileListMsg) -> (r: (bool, ProfileListEffect))
        requires
            msg matches ProfileListMsg::Remove(index) ==> index < old(self).accepted().len(),
        ensures
            Self::updated(*old(self), msg, *final(self)),
            Self::op_of(msg) matches Some(op) ==> final(self).keys() == apply(
                old(self).keys(),
                op,
            ),
            final(self).keys().no_duplicates(),
            r.0 == !(msg is Failure || msg is Alert),
            match msg {
                ProfileListMsg::Failure(e) => r.1 == ProfileListEffect::Failure(e),
                ProfileListMsg::Alert(other) => r.1 == ProfileListEffect::Alert(other),
                ProfileListMsg::Input(_) => r.1 is Nothing,
                _ => r.1 matches ProfileListEffect::Vals(copy) && copy@ == final(self).accepted(),
            },
    {
        proof {
            use_type_invariant(&*self);
        }
        match msg {
            ProfileListMsg::Failure(e) => (false, ProfileListEffect::Failure(e)),
            ProfileListMsg::Alert(other) => (false, ProfileListEffect::Alert(other)),
            ProfileListMsg::Push(profile) => {
                if self.validate(profile._id) {
                    proof {
                        lemma_apply_keeps_unique(
                            self.keys(),
                            Op::Push(profile._id@),
                        );
                        assert(ids_of(self.vals@.push(profile)) =~= ids_of(self.vals@).push(
                            profile._id@,
                        ));
                    }
                    let mut vals = self.take_vals();
                    vals.push(profile);
                    self.vals = vals;
                    self.input = Input::create();
                }
                (true, ProfileListEffect::Vals(self.snapshot()))
            },
            ProfileListMsg::Remove(index) => {
                proof {
                    lemma_apply_keeps_unique(
                        self.keys(),
                        Op::Remove(index as int),
                    );
                    assert(ids_of(self.vals@.remove(index as int)) =~= ids_of(self.vals@).remove(
                        index as int,
                    ));
                }
                let mut vals = self.take_vals();
                vals.remove(index);
                self.vals = vals;
                (true, ProfileListEffect::Vals(self.snapshot()))
            },
            ProfileListMsg::New => {
                proof {
                    assert(ids_of(Seq::<PublicProfile>::empty()) =~= Seq::<Seq<u8>>::empty());
                }
                self.vals = Vec::new();
                self.input = Input::create();
                (true, ProfileListEffect::Vals(self.snapshot()))
            },
            ProfileListMsg::Input(val) => {
                self.input = Input::typed(val);
                (true, ProfileListEffect::Nothing)
            },
        }
    }

    /// What the list shows: a line for each accepted profile, each with the
    /// place that its delete mark removes, and the entry field with its
    /// button switched on only while the candidate is valid. Every place
    /// that a delete mark names is in the list, so an empty list offers
    /// nothing to remove.
    pub fn view(&self, cfg: &AppConfig) -> (v: ProfileListView)
        ensures
            v.entities@.len() == self.accepted().len(),
            forall|i: int|
                0 <= i < self.accepted().len() ==> is_entity(
                    #[trigger] v.entities@[i],
                    self.accepted()[i],
                    i,
                    cfg@,
                ),
            v.input.value@ == self.raw(),
            v.input.disabled == !self.candidate_is_valid(),
    {
        let mut entities: Vec<Entity> = Vec::new();
        let mut i: usize = 0;
        while i < self.vals.len()
            invariant
                i <= self.vals.len(),
                entities@.len() == i,
                forall|j: int|
                    0 <= j < i ==> is_entity(#[trigger] entities@[j], self.vals@[j], j, cfg@),
            decreases self.vals.len() - i,
        {
            entities.push(view_entity(&self.vals[i], i, cfg));
            i += 1;
        }
        let valid = match self.input.id() {
            Some(id) => self.validate(id),
            None => false,
        };
        ProfileListView { entities, input: self.input.view(valid) }
    }
}

impl Default for ProfileList {
    fn default() -> (r: Self)
        ensures
            r.accepted() == Seq::<PublicProfile>::empty(),
            r.raw() == Seq::<char>::empty(),
    {
        ProfileList::create()
    }
}

} // verus!
