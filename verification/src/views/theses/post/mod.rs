//! The form for a new thesis: title, abstract, authors and keywords.
//!
//! The form owns what the two editors hand up to it. The editors themselves
//! never send a thesis anywhere.

pub mod authors;

use vstd::prelude::*;
use crate::models::address::{byte_len, url_joined};
use crate::models::common::{AppConfig, AppResult};
use crate::models::oid::ObjectId;
use crate::models::profile::{profile_ids, PublicProfile};
use crate::models::request::{is_request_with, Method, Payload, Request};
use crate::views::collection::{apply, lemma_apply_keeps_unique, Op};

verus! {

/// The shortest abstract that the form marks as good, in bytes.
pub const MIN_ABSTRACTION_LEN: usize = 140;

/// What the user has entered so far.
#[derive(Debug, PartialEq, Eq)]
pub struct Post {
    title: String,
    abstraction: String,
    authors: Vec<PublicProfile>,
    keywords: Vec<String>,
}

/// What happens to the form.
#[derive(Debug, PartialEq, Eq)]
pub enum PostMsg {
    /// The user changed the title.
    InputTitle(String),
    /// The user changed the abstract.
    InputAbstraction(String),
    /// The authors editor handed up its list.
    Authors(Vec<PublicProfile>),
    /// The keywords editor handed up its list.
    Keywords(Vec<String>),
}

/// What the form shows beside its two editors: both texts, each with the
/// mark that says whether it is good.
#[derive(Debug, PartialEq, Eq)]
pub struct PostView {
    pub title: String,
    pub title_ok: bool,
    pub abstraction: String,
    pub abstraction_ok: bool,
}

/// The characters of some texts, in their order.
pub open spec fn texts_of(vals: Seq<String>) -> Seq<Seq<char>> {
    vals.map_values(|s: String| s@)
}

/// A copy of some texts.
pub fn copy_texts(vals: &Vec<String>) -> (r: Vec<String>)
    ensures
        r@ == vals@,
{
    let mut out: Vec<String> = Vec::new();
    let mut i: usize = 0;
    while i < vals.len()
        invariant
            i <= vals.len(),
            out@ == vals@.take(i as int),
        decreases vals.len() - i,
    {
        out.push(vals[i].clone());
        assert(out@ =~= vals@.take(i + 1));
        i += 1;
    }
    assert(vals@.take(vals.len() as int) =~= vals@);
    out
}

/// Whether `p` carries a new thesis with this title and abstract, these
/// authors and these keywords, each list in its order.
pub open spec fn is_thesis_payload(
    p: Payload,
    title: Seq<char>,
    abstraction: Seq<char>,
    author_ids: Seq<ObjectId>,
    keywords: Seq<Seq<char>>,
) -> bool {
    &&& p matches Payload::Thesis { title: t, abstraction: a, author_ids: ids, keywords: ks }
    &&& t@ == title
    &&& a@ == abstraction
    &&& ids@ == author_ids
    &&& texts_of(ks@) == keywords
}

impl Post {
    /// The title as the user last typed it.
    pub closed spec fn title(self) -> Seq<char> {
        self.title@
    }

    /// The abstract as the user last typed it.
    pub closed spec fn abstraction(self) -> Seq<char> {
        self.abstraction@
    }

    /// The authors as the authors editor last handed them up.
    pub closed spec fn authors(self) -> Seq<PublicProfile> {
        self.authors@
    }

    /// The keywords as the keywords editor last handed them up.
    pub closed spec fn keywords(self) -> Seq<String> {
        self.keywords@
    }

    /// Whether `after` is `before` once `msg` was taken in: the part that
    /// the message names is replaced as a whole, the rest stays.
    pub open spec fn updated(before: Self, msg: PostMsg, after: Self) -> bool {
        &&& after.title() == if let PostMsg::InputTitle(t) = msg {
            t@
        } else {
            before.title()
        }
        &&& after.abstraction() == if let PostMsg::InputAbstraction(a) = msg {
            a@
        } else {
            before.abstraction()
        }
        &&& after.authors() == if let PostMsg::Authors(list) = msg {
            list@
        } else {
            before.authors()
        }
        &&& after.keywords() == if let PostMsg::Keywords(list) = msg {
            list@
        } else {
            before.keywords()
        }
    }

    /// An empty form.
    pub fn create() -> (r: Self)
        ensures
            r.title() == Seq::<char>::empty(),
            r.abstraction() == Seq::<char>::empty(),
            r.authors() == Seq::<PublicProfile>::empty(),
            r.keywords() == Seq::<String>::empty(),
    {
        Post {
            title: String::new(),
            abstraction: String::new(),
            authors: Vec::new(),
            keywords: Vec::new(),
        }
    }

    /// Takes in one message. The form is always drawn again.
    pub fn update(&mut self, msg: PostMsg) -> (render: bool)
        ensures
            render,
            Self::updated(*old(self), msg, *final(self)),
    {
        match msg {
            PostMsg::InputTitle(title) => {
                self.title = title;
            },
            PostMsg::InputAbstraction(abstraction) => {
                self.abstraction = abstraction;
            },
            PostMsg::Authors(list) => {
                self.authors = list;
            },
            PostMsg::Keywords(list) => {
                self.keywords = list;
            },
        }
        true
    }

    /// Whether the title field takes the focus after the form was drawn:
    /// only after it was drawn for the first time.
    pub fn rendered(&self, first_render: bool) -> (focus_title: bool)
        ensures
            focus_title == first_render,
    {
        first_render
    }

    /// What the form shows: a title is good when it is not empty, an
    /// abstract when it is at least [`MIN_ABSTRACTION_LEN`] bytes long.
    pub fn view(&self) -> (v: PostView)
        ensures
            v.title@ == self.title(),
            v.title_ok == (self.title().len() > 0),
            v.abstraction@ == self.abstraction(),
            v.abstraction_ok == (byte_len(self.abstraction()) >= MIN_ABSTRACTION_LEN),
    {
        let title_ok = !self.title.as_str().is_empty();
        let abstraction_ok = self.abstraction.as_str().len() >= MIN_ABSTRACTION_LEN;
        PostView {
            title: self.title.clone(),
            title_ok,
            abstraction: self.abstraction.clone(),
            abstraction_ok,
        }
    }

    /// The request that creates the thesis: what the user has entered and
    /// what the two editors last handed up go to the collection of theses,
    /// with the user's credentials.
    pub fn submit(&self, cfg: &AppConfig) -> (r: AppResult<Request>)
        ensures
            is_request_with(
                r,
                Method::Post,
                url_joined(cfg@, "theses"@),
                true,
                |p: Payload|
                    is_thesis_payload(
                        p,
                        self.title(),
                        self.abstraction(),
                        profile_ids(self.authors()),
                        texts_of(self.keywords()),
                    ),
            ),
    {
        let payload = Payload::Thesis {
            title: self.title.clone(),
            abstraction: self.abstraction.clone(),
            author_ids: PublicProfile::ids(&self.authors),
            keywords: copy_texts(&self.keywords),
        };
        Request::to_path(cfg, Method::Post, "theses", true, payload)
    }

    /// The authors as the authors editor last handed them up.
    pub fn author_list(&self) -> (r: &Vec<PublicProfile>)
        ensures
            r@ == self.authors(),
    {
        &self.authors
    }

    /// The keywords as the keywords editor last handed them up.
    pub fn keyword_list(&self) -> (r: &Vec<String>)
        ensures
            r@ == self.keywords(),
    {
        &self.keywords
    }
}

impl Default for Post {
    fn default() -> (r: Self)
        ensures
            r.title() == Seq::<char>::empty(),
            r.abstraction() == Seq::<char>::empty(),
            r.authors() == Seq::<PublicProfile>::empty(),
            r.keywords() == Seq::<String>::empty(),
    {
        Post::create()
    }
}

/// The text in the keyword entry field.
#[derive(Debug, PartialEq, Eq)]
pub struct KeywordInput {
    val: String,
}

/// What happens to the keyword entry field.
#[derive(Debug, PartialEq, Eq)]
pub enum KeywordInputMsg {
    /// The user changed the text.
    Input(String),
    /// The user clicked the button beside the field.
    Submit,
}

/// What the keyword entry field shows: its text, and whether the button
/// beside it is switched off.
#[derive(Debug, PartialEq, Eq)]
pub struct KeywordInputView {
    pub value: String,
    pub disabled: bool,
}

impl KeywordInput {
    /// The text in the entry field.
    pub closed spec fn raw(self) -> Seq<char> {
        self.val@
    }

    /// An empty entry field.
    pub fn create() -> (r: Self)
        ensures
            r.raw() == Seq::<char>::empty(),
    {
        KeywordInput { val: String::new() }
    }

    /// Takes the text that the user typed, or empties the field after a
    /// click on its button. The field is drawn again either way.
    pub fn update(&mut self, msg: KeywordInputMsg) -> (render: bool)
        ensures
            render,
            final(self).raw() == match msg {
                KeywordInputMsg::Input(val) => val@,
                KeywordInputMsg::Submit => Seq::<char>::empty(),
            },
    {
        match msg {
            KeywordInputMsg::Input(val) => {
                self.val = val;
            },
            KeywordInputMsg::Submit => {
                self.val = String::new();
            },
        }
        true
    }

    /// What the field shows; the button is switched off unless the owner of
    /// the field finds its text `valid`.
    pub fn view(&self, valid: bool) -> (v: KeywordInputView)
        ensures
            v.value@ == self.raw(),
            v.disabled == !valid,
    {
        KeywordInputView { value: self.val.clone(), disabled: !valid }
    }
}

impl Default for KeywordInput {
    fn default() -> (r: Self)
        ensures
            r.raw() == Seq::<char>::empty(),
    {
        KeywordInput::create()
    }
}

/// One line of the keywords editor: the keyword, and the place in the list
/// that its delete mark removes.
#[derive(Debug, PartialEq, Eq)]
pub struct KeywordEntity {
    pub val: String,
    pub delete: usize,
}

impl KeywordEntity {
    /// The line of `val` at place `index`.
    pub fn create(val: &String, index: usize) -> (e: Self)
        ensures
            e.val@ == val@,
            e.delete == index,
    {
        KeywordEntity { val: val.clone(), delete: index }
    }
}

/// The accepted keywords, in the order in which they were accepted, and the
/// candidate.
#[derive(Debug)]
pub struct Keywords {
    vals: Vec<String>,
    input: KeywordInput,
}

/// What happens to the keywords editor.
#[derive(Debug, PartialEq, Eq)]
pub enum KeywordsMsg {
    /// Add this keyword.
    Push(String),
    /// The user struck out the line at this place.
    Remove(usize),
    /// The user emptied the list.
    New,
    /// Something happened to the entry field; a click on its button adds
    /// the candidate.
    Input(KeywordInputMsg),
}

/// What the keywords editor shows: one line for each accepted keyword, then
/// the entry field. The button that empties the list is always there.
#[derive(Debug, PartialEq, Eq)]
pub struct KeywordsView {
    pub entities: Vec<KeywordEntity>,
    pub input: KeywordInputView,
}

/// Whether `val` can be added to a list with these keys: it is not empty and
/// not in the list yet.
pub open spec fn is_valid_keyword(keys: Seq<Seq<char>>, val: Seq<char>) -> bool {
    val.len() > 0 && !keys.contains(val)
}

/// The keys after an attempt to add `val`: it goes to the end where it is
/// valid, and nothing changes where it is not.
pub open spec fn keys_with(keys: Seq<Seq<char>>, val: Seq<char>) -> Seq<Seq<char>> {
    if is_valid_keyword(keys, val) {
        keys.push(val)
    } else {
        keys
    }
}

impl Keywords {
    #[verifier::type_invariant]
    spec fn no_repeats(self) -> bool {
        texts_of(self.vals@).no_duplicates()
    }

    /// The accepted keywords, in the order in which they were accepted.
    pub closed spec fn accepted(self) -> Seq<String> {
        self.vals@
    }

    /// The keys of the accepted keywords: their texts.
    pub open spec fn keys(self) -> Seq<Seq<char>> {
        texts_of(self.accepted())
    }

    /// The text of the candidate.
    pub closed spec fn raw(self) -> Seq<char> {
        self.input.raw()
    }

    /// Whether the candidate can be submitted.
    pub open spec fn candidate_is_valid(self) -> bool {
        is_valid_keyword(self.keys(), self.raw())
    }

    /// The keyword that a message tries to add, if it tries to add one.
    pub open spec fn pushed(before: Self, msg: KeywordsMsg) -> Option<Seq<char>> {
        match msg {
            KeywordsMsg::Push(val) => Some(val@),
            KeywordsMsg::Input(KeywordInputMsg::Submit) => Some(before.raw()),
            _ => None,
        }
    }

    /// Whether `after` is `before` once `msg` was taken in.
    ///
    /// A keyword that is added, by itself or as the candidate, goes to the
    /// end of the list and empties the candidate; one that is empty or in
    /// the list already changes nothing. Striking out a line removes it and
    /// moves nothing else. Emptying the list empties the candidate too.
    pub open spec fn updated(before: Self, msg: KeywordsMsg, after: Self) -> bool {
        match msg {
            KeywordsMsg::Push(_) | KeywordsMsg::Input(KeywordInputMsg::Submit) => {
                let val = Self::pushed(before, msg)->0;
                &&& after.keys() == keys_with(before.keys(), val)
                &&& after.raw() == if is_valid_keyword(before.keys(), val) {
                    Seq::<char>::empty()
                } else {
                    before.raw()
                }
            },
            KeywordsMsg::Remove(index) => {
                &&& after.keys() == before.keys().remove(index as int)
                &&& after.raw() == before.raw()
            },
            KeywordsMsg::New => {
                &&& after.keys() == Seq::<Seq<char>>::empty()
                &&& after.raw() == Seq::<char>::empty()
            },
            KeywordsMsg::Input(KeywordInputMsg::Input(val)) => {
                &&& after.keys() == before.keys()
                &&& after.raw() == val@
            },
        }
    }

    /// An empty list with an empty candidate.
    pub fn create() -> (r: Self)
        ensures
            r.keys() == Seq::<Seq<char>>::empty(),
            r.raw() == Seq::<char>::empty(),
    {
        let vals: Vec<String> = Vec::new();
        assert(texts_of(vals@) =~= Seq::<Seq<char>>::empty());
        Keywords { vals, input: KeywordInput::create() }
    }

    /// How many keywords are accepted.
    pub fn len(&self) -> (n: usize)
        ensures
            n == self.keys().len(),
    {
        self.vals.len()
    }

    /// The accepted keywords; no text occurs twice among them.
    pub fn vals(&self) -> (r: &Vec<String>)
        ensures
            r@ == self.accepted(),
            self.keys().no_duplicates(),
    {
        proof {
            use_type_invariant(self);
        }
        &self.vals
    }

    /// Whether `val` may be added: it is not empty and not in the list yet.
    pub fn validate(&self, val: &String) -> (ok: bool)
        ensures
            ok == is_valid_keyword(self.keys(), val@),
    {
        if val.as_str().is_empty() {
            return false;
        }
        let mut i: usize = 0;
        while i < self.vals.len()
            invariant
                i <= self.vals.len(),
                forall|j: int| 0 <= j < i ==> texts_of(self.vals@)[j] != val@,
            decreases self.vals.len() - i,
        {
            if self.vals[i] == *val {
                assert(texts_of(self.vals@)[i as int] == val@);
                return false;
            }
            i += 1;
        }
        true
    }

    /// Takes the accepted keywords out, leaving none behind for the moment.
    fn take_vals(&mut self) -> (vals: Vec<String>)
        ensures
            vals@ == old(self).accepted(),
            final(self).accepted() == Seq::<String>::empty(),
            final(self).raw() == old(self).raw(),
    {
        let mut vals: Vec<String> = Vec::new();
        proof {
            assert(texts_of(vals@) =~= Seq::<Seq<char>>::empty());
        }
        core::mem::swap(&mut self.vals, &mut vals);
        vals
    }

    /// A copy of the accepted keywords.
    pub fn snapshot(&self) -> (r: Vec<String>)
        ensures
            r@ == self.accepted(),
    {
        copy_texts(&self.vals)
    }

    /// Adds `val` at the end and empties the candidate, where `val` is
    /// valid.
    fn push(&mut self, val: String)
        ensures
            final(self).keys() == keys_with(old(self).keys(), val@),
            final(self).raw() == if is_valid_keyword(old(self).keys(), val@) {
                Seq::<char>::empty()
            } else {
                old(self).raw()
            },
    {
        proof {
            use_type_invariant(&*self);
        }
        if self.validate(&val) {
            proof {
                lemma_apply_keeps_unique(self.keys(), Op::Push(val@));
                assert(texts_of(self.vals@.push(val)) =~= texts_of(self.vals@).push(val@));
            }
            let mut vals = self.take_vals();
            vals.push(val);
            self.vals = vals;
            self.input = KeywordInput::create();
        }
    }

    /// Takes in one message. The first result says whether the editor is to
    /// be drawn again, which it always is; the second is what goes up to the
    /// form: a copy of the list as it now is, after every message but a
    /// change of the candidate's text.
    pub fn update(&mut self, msg: KeywordsMsg) -> (r: (bool, Option<Vec<String>>))
        requires
            msg matches KeywordsMsg::Remove(index) ==> index < old(self).keys().len(),
        ensures
            Self::updated(*old(self), msg, *final(self)),
            final(self).keys().no_duplicates(),
            r.0,
            match r.1 {
                Some(copy) => !(msg is Input && msg->Input_0 is Input) && copy@
                    == final(self).accepted(),
                None => msg is Input && msg->Input_0 is Input,
            },
    {
        proof {
            use_type_invariant(&*self);
        }
        match msg {
            KeywordsMsg::Push(val) => {
                self.push(val);
            },
            KeywordsMsg::Remove(index) => {
                proof {
                    lemma_apply_keeps_unique(
                        self.keys(),
                        Op::Remove(index as int),
                    );
                    assert(texts_of(self.vals@.remove(index as int)) =~= texts_of(
                        self.vals@,
                    ).remove(index as int));
                }
                let mut vals = self.take_vals();
                vals.remove(index);
                self.vals = vals;
            },
            KeywordsMsg::New => {
                proof {
                    assert(texts_of(Seq::<String>::empty()) =~= Seq::<Seq<char>>::empty());
                }
                self.vals = Vec::new();
                self.input = KeywordInput::create();
            },
            KeywordsMsg::Input(KeywordInputMsg::Input(val)) => {
                self.input = KeywordInput { val };
                return (true, None);
            },
            KeywordsMsg::Input(KeywordInputMsg::Submit) => {
                let val = self.input.val.clone();
                self.push(val);
            },
        }
        proof {
            use_type_invariant(&*self);
        }
        (true, Some(self.snapshot()))
    }

    /// What the editor shows: a line for each accepted keyword, each with
    /// the place that its delete mark removes, and the entry field with its
    /// button switched on only while the candidate is valid. Every place
    /// that a delete mark names is in the list, so an empty list offers
    /// nothing to remove.
    pub fn view(&self) -> (v: KeywordsView)
        ensures
            v.entities@.len() == self.keys().len(),
            forall|i: int|
                0 <= i < self.keys().len() ==> (#[trigger] v.entities@[i]).delete == i
                    && v.entities@[i].val@ == self.keys()[i],
            v.input.value@ == self.raw(),
            v.input.disabled == !self.candidate_is_valid(),
    {
        let mut entities: Vec<KeywordEntity> = Vec::new();
        let mut i: usize = 0;
        while i < self.vals.len()
            invariant
                i <= self.vals.len(),
                entities@.len() == i,
                forall|j: int|
                    0 <= j < i ==> (#[trigger] entities@[j]).delete == j && entities@[j].val@
                        == self.vals@[j]@,
            decreases self.vals.len() - i,
        {
            entities.push(KeywordEntity::create(&self.vals[i], i));
            i += 1;
        }
        let valid = self.validate(&self.input.val);
        KeywordsView { entities, input: self.input.view(valid) }
    }

    /// What a message does to the keys is one change of the list, as the
    /// list's mathematics has it: an addition, a removal or a reset.
    pub proof fn lemma_update_is_one_change(before: Self, msg: KeywordsMsg, after: Self)
        requires
            Self::updated(before, msg, after),
            msg matches KeywordsMsg::Remove(index) ==> index < before.keys().len(),
        ensures
            match msg {
                KeywordsMsg::Push(_) | KeywordsMsg::Input(KeywordInputMsg::Submit) => {
                    let val = Self::pushed(before, msg)->0;
                    after.keys() == if val.len() > 0 {
                        apply(before.keys(), Op::Push(val))
                    } else {
                        before.keys()
                    }
                },
                KeywordsMsg::Remove(index) => after.keys() == apply(
                    before.keys(),
                    Op::Remove(index as int),
                ),
                KeywordsMsg::New => after.keys() == apply(before.keys(), Op::Reset),
                KeywordsMsg::Input(KeywordInputMsg::Input(_)) => after.keys() == before.keys(),
            },
    {
    }
}

impl Default for Keywords {
    fn default() -> (r: Self)
        ensures
            r.keys() == Seq::<Seq<char>>::empty(),
            r.raw() == Seq::<char>::empty(),
    {
        Keywords::create()
    }
}

} // verus!
