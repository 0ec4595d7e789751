//! An in-memory store of questions, kept per user in the order they were
//! asked.
use std::collections::HashMap;
use vstd::prelude::*;
use crate::joy::{empty_field_message, is_blank, is_blank_text};

verus! {

broadcast use vstd::std_specs::hash::group_hash_axioms;

/// One question asked by a user.
pub struct Question {
    pub id: u128,
    pub user_id: u128,
    pub title: String,
}

impl Clone for Question {
    fn clone(&self) -> (r: Self)
        ensures
            r == *self,
    {
        Question { id: self.id, user_id: self.user_id, title: self.title.clone() }
    }
}

/// A version 4 (random) UUID of the RFC 4122 variant.
pub open spec fn is_random_uuid(id: u128) -> bool {
    (id >> 76u128) & 0xf == 4 && (id >> 62u128) & 0x3 == 2
}

/// Relies on `uuid::Uuid::new_v4` and `Uuid::as_u128`: a random UUID whose
/// version and variant bits are set.
#[verifier::external_body]
fn random_uuid() -> (id: u128)
    ensures
        is_random_uuid(id),
{
    uuid::Uuid::new_v4().as_u128()
}

/// The questions of `user` in `m`, none if the user has asked none.
pub open spec fn questions_of(m: Map<u128, Seq<Question>>, user: u128) -> Seq<Question> {
    if m.contains_key(user) {
        m[user]
    } else {
        Seq::empty()
    }
}

/// The questions that users have asked, by user id.
pub struct QuestionsService {
    inner: HashMap<u128, Vec<Question>>,
}

impl View for QuestionsService {
    type V = Map<u128, Seq<Question>>;

    closed spec fn view(&self) -> Map<u128, Seq<Question>> {
        self.inner@.map_values(|v: Vec<Question>| v@)
    }
}

impl QuestionsService {
    /// Every question is filed under the user who asked it.
    pub open spec fn wf(&self) -> bool {
        forall|u: u128, i: int|
            #![trigger self@[u][i]]
            self@.contains_key(u) && 0 <= i < self@[u].len() ==> self@[u][i].user_id == u
    }

    /// An empty store.
    pub fn new() -> (s: Self)
        ensures
            s@ == Map::<u128, Seq<Question>>::empty(),
            s.wf(),
    {
        let s = QuestionsService { inner: HashMap::new() };
        assert(s@ =~= Map::<u128, Seq<Question>>::empty());
        s
    }

    /// The questions of `user_id`, oldest first.
    pub fn list_for_user(&self, user_id: u128) -> (r: Vec<Question>)
        requires
            self.wf(),
        ensures
            r@ == questions_of(self@, user_id),
            forall|i: int| 0 <= i < r@.len() ==> (#[trigger] r@[i]).user_id == user_id,
    {
        let mut out: Vec<Question> = Vec::new();
        match self.inner.get(&user_id) {
            Some(list) => {
                let mut i: usize = 0;
                while i < list.len()
                    invariant
                        i <= list@.len(),
                        out@ == list@.subrange(0, i as int),
                    decreases list@.len() - i,
                {
                    out.push(list[i].clone());
                    i = i + 1;
                    assert(out@ =~= list@.subrange(0, i as int));
                }
                assert(out@ =~= list@);
            },
            None => {},
        }
        proof {
            assert(out@ == questions_of(self@, user_id));
            assert forall|i: int| 0 <= i < out@.len() implies (#[trigger] out@[i]).user_id
                == user_id by {
                assert(self@[user_id][i].user_id == user_id);
            }
        }
        out
    }

    /// Files a new question with a fresh random id under `user_id`, after the
    /// ones the user already asked; the other users' questions stay as they
    /// are.
    pub fn create(&mut self, user_id: u128, title: String)
        requires
            old(self).wf(),
        ensures
            final(self).wf(),
            final(self)@ == old(self)@.insert(
                user_id,
                questions_of(old(self)@, user_id).push(final(self)@[user_id].last()),
            ),
            final(self)@[user_id].last().user_id == user_id,
            final(self)@[user_id].last().title == title,
            is_random_uuid(final(self)@[user_id].last().id),
    {
        let mut list = match self.inner.remove(&user_id) {
            Some(v) => v,
            None => Vec::new(),
        };
        let ghost before = list@;
        assert(before == questions_of(old(self)@, user_id));
        let id = random_uuid();
        list.push(Question { id, user_id, title });
        self.inner.insert(user_id, list);
        proof {
            assert(self@ =~= old(self)@.insert(user_id, before.push(self@[user_id].last())));
            assert forall|u: u128, i: int|
                self@.contains_key(u) && 0 <= i < self@[u].len() implies #[trigger] self@[u][i].user_id
                == u by {
                if u == user_id {
                    if i < before.len() {
                        assert(old(self)@[u][i].user_id == u);
                    }
                } else {
                    assert(old(self)@[u][i].user_id == u);
                }
            }
        }
    }
}

/// Checks the title of a new question: it must hold more than white space.
pub fn check_title(title: &str) -> (r: Result<(), String>)
    ensures
        is_blank(title@) ==> r is Err && r->Err_0@ == empty_field_message("title"@),
        !is_blank(title@) ==> r is Ok,
{
    if is_blank_text(title) {
        let mut m = String::from_str("title");
        m.append(" cannot be empty");
        Err(m)
    } else {
        Ok(())
    }
}

} // verus!
