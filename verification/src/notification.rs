//! Who is told of a new comment.

use crate::context::{find_comment, find_person, IbisContext, Store};
use crate::newtypes::PersonId;
use crate::records::{Comment, Person};
use vstd::prelude::*;

verus! {

/// Who is told of a comment, given the author of the comment that it
/// answers: that author, if the account is on this instance and did not
/// write the comment itself. A comment that answers the article directly, or
/// a comment whose author is not known, is told to nobody.
pub open spec fn recipients_of(comment: Comment, parent_author: Option<Person>) -> Seq<PersonId> {
    match parent_author {
        Some(author) => if author.local && author.id != comment.creator_id {
            seq![author.id]
        } else {
            Seq::empty()
        },
        None => Seq::empty(),
    }
}

impl Store {
    /// The author of the comment that a comment answers, where both are stored.
    pub open spec fn parent_author(self, comment: Comment) -> Option<Person> {
        match comment.parent_id {
            Some(parent_id) => match self.comment(parent_id) {
                Some(parent) => self.person(parent.creator_id),
                None => None,
            },
            None => None,
        }
    }

    /// Who is told of a comment.
    pub open spec fn comment_recipients(self, comment: Comment) -> Seq<PersonId> {
        recipients_of(comment, self.parent_author(comment))
    }
}

/// Who is told of a comment, given the author of the comment that it
/// answers, where there is one: that author, if the account is on this
/// instance and did not write the comment itself.
pub fn notification_recipients(comment: &Comment, parent_author: Option<&Person>) -> (r: Vec<
    PersonId,
>)
    ensures
        r@ == recipients_of(
            *comment,
            match parent_author {
                Some(author) => Some(*author),
                None => None,
            },
        ),
{
    let mut recipients: Vec<PersonId> = Vec::new();
    match parent_author {
        Some(author) => {
            if author.local && author.id != comment.creator_id {
                recipients.push(author.id);
            }
        },
        None => {},
    }
    recipients
}

impl Comment {
    /// Who is told of this comment: the author of the comment that it
    /// answers, looked up among the stored records, if that account is on
    /// this instance and did not write the comment itself. Reads the store
    /// and writes nothing.
    pub fn notification_recipients(&self, context: &IbisContext) -> (r: Vec<PersonId>)
        ensures
            r@ == context@.comment_recipients(*self),
    {
        let author = match self.parent_id {
            Some(parent_id) => match find_comment(&context.comments, parent_id) {
                Some(k) => match find_person(&context.persons, context.comments[k].creator_id) {
                    Some(p) => Some(&context.persons[p]),
                    None => None,
                },
                None => None,
            },
            None => None,
        };
        notification_recipients(self, author)
    }
}

/// A comment is never told to the one who wrote it, nor to an account of
/// another instance, and to one person at most.
pub proof fn lemma_recipients(comment: Comment, parent_author: Option<Person>)
    ensures
        recipients_of(comment, parent_author).len() <= 1,
        forall|i: int|
            0 <= i < recipients_of(comment, parent_author).len() ==> {
                &&& parent_author matches Some(author)
                &&& author.local
                &&& #[trigger] recipients_of(comment, parent_author)[i] == author.id
                &&& recipients_of(comment, parent_author)[i] != comment.creator_id
            },
{
}

} // verus!
