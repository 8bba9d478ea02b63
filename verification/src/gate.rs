//! What stands before a reply cycle: the list of users who may talk to the
//! relay, and the decision on what to do with a message that came in.

use vstd::prelude::*;
use vstd::string::StrSliceExecFns;

use crate::domain::chat::{ChatMessage, ChatMessageSender, ChatMessageView};
use crate::domain::user::{User, UserView};

verus! {

/// What a user gets to read who is not on the list.
pub const FORBIDDEN_NOTICE: &'static str = "FORBIDDEN";

/// The index of the first `separator` in `text`; the length of `text` where
/// there is none.
pub open spec fn first_index_of(text: Seq<char>, separator: char) -> int
    decreases text.len(),
{
    if text.len() == 0 {
        0
    } else if text[0] == separator {
        0
    } else {
        1 + first_index_of(text.drop_first(), separator)
    }
}

/// The pieces of `text` between its separators, in order. A text without a
/// separator is one piece, the empty text too; a separator at either end
/// has an empty piece beside it.
pub open spec fn split_on(text: Seq<char>, separator: char) -> Seq<Seq<char>>
    decreases text.len(),
{
    let at = first_index_of(text, separator);
    if 0 <= at < text.len() {
        seq![text.take(at)] + split_on(text.skip(at + 1), separator)
    } else {
        seq![text]
    }
}

/// The values of the texts of a list, in the same order.
pub open spec fn texts_view(texts: Seq<String>) -> Seq<Seq<char>> {
    Seq::new(texts.len(), |i: int| texts[i]@)
}

proof fn lemma_first_index_of(text: Seq<char>, separator: char, at: int)
    requires
        0 <= at <= text.len(),
        forall|j: int| 0 <= j < at ==> text[j] != separator,
        at < text.len() ==> text[at] == separator,
    ensures
        first_index_of(text, separator) == at,
    decreases at,
{
    if at > 0 {
        lemma_first_index_of(text.drop_first(), separator, at - 1);
    }
}

/// The pieces of `text` between its commas.
pub fn split_commas(text: &str) -> (pieces: Vec<String>)
    ensures
        texts_view(pieces@) == split_on(text@, ','),
{
    let n = text.unicode_len();
    let mut pieces: Vec<String> = Vec::new();
    let mut start: usize = 0;
    let mut i: usize = 0;
    assert(text@.skip(0) =~= text@);
    while i < n
        invariant
            n == text@.len(),
            start <= i <= n,
            forall|j: int| start <= j < i ==> text@[j] != ',',
            split_on(text@, ',') == texts_view(pieces@) + split_on(text@.skip(start as int), ','),
        decreases n - i,
    {
        if text.get_char(i) == ',' {
            let piece = text.substring_char(start, i).to_owned();
            proof {
                let rest = text@.skip(start as int);
                lemma_first_index_of(rest, ',', i - start);
                assert(rest.take(i - start) =~= piece@);
                assert(rest.skip(i - start + 1) =~= text@.skip(i + 1));
                assert(texts_view(pieces@) + (seq![piece@] + split_on(text@.skip(i + 1), ','))
                    =~= texts_view(pieces@.push(piece)) + split_on(text@.skip(i + 1), ','));
            }
            pieces.push(piece);
            start = i + 1;
        }
        i += 1;
    }
    let piece = text.substring_char(start, n).to_owned();
    proof {
        let rest = text@.skip(start as int);
        lemma_first_index_of(rest, ',', rest.len() as int);
    }
    pieces.push(piece);
    pieces
}

/// The users on a list that is written as identifiers with commas between
/// them. No list at all names nobody.
pub open spec fn allowed_users_of(list: Option<Seq<char>>) -> Seq<Seq<char>> {
    match list {
        Some(text) => split_on(text, ','),
        None => Seq::empty(),
    }
}

/// The identifiers of the users who may talk to the relay, read from the
/// configured list.
pub fn allowed_users(list: &Option<String>) -> (users: Vec<String>)
    ensures
        texts_view(users@) == allowed_users_of(
            match *list {
                Some(text) => Some(text@),
                None => None,
            },
        ),
{
    match list {
        Some(text) => split_commas(text.as_str()),
        None => Vec::new(),
    }
}

/// Whether `user_id` is one of `allowed`.
pub fn is_allowed(allowed: &Vec<String>, user_id: &String) -> (listed: bool)
    ensures
        listed == texts_view(allowed@).contains(user_id@),
{
    let mut i: usize = 0;
    while i < allowed.len()
        invariant
            i <= allowed.len(),
            forall|j: int| 0 <= j < i ==> texts_view(allowed@)[j] != user_id@,
        decreases allowed.len() - i,
    {
        if allowed[i] == *user_id {
            assert(texts_view(allowed@)[i as int] == user_id@);
            return true;
        }
        i += 1;
    }
    false
}

/// Why a message that came in cannot be answered.
#[derive(Clone, Copy, Debug, PartialEq, Eq, Structural)]
pub enum InboundFault {
    /// The message names no sender.
    MissingSender,
    /// The message holds no text.
    MissingText,
}

/// The mathematical value of an [`Admission`].
pub enum AdmissionView {
    Reply { user: UserView, message: ChatMessageView },
    Forbidden,
    Rejected(InboundFault),
}

/// What is to be done with a message that came in.
#[derive(Debug, PartialEq, Eq)]
pub enum Admission {
    /// Run a reply cycle for `user` on `message`.
    Reply { user: User, message: ChatMessage },
    /// The sender is not on the list: answer with [`FORBIDDEN_NOTICE`] and
    /// run no cycle.
    Forbidden,
    /// The message cannot be answered at all.
    Rejected(InboundFault),
}

impl View for Admission {
    type V = AdmissionView;

    open spec fn view(&self) -> AdmissionView {
        match *self {
            Admission::Reply { user, message } => AdmissionView::Reply {
                user: user@,
                message: message@,
            },
            Admission::Forbidden => AdmissionView::Forbidden,
            Admission::Rejected(fault) => AdmissionView::Rejected(fault),
        }
    }
}

/// The decision on a message: a message without a sender is rejected; a
/// sender who is not on the list is forbidden, whatever they sent; a
/// message without text is rejected; any other is answered, its text
/// taken as a message of the user.
pub open spec fn admission(
    sender: Option<UserView>,
    text: Option<Seq<char>>,
    allowed: Seq<Seq<char>>,
) -> AdmissionView {
    match sender {
        None => AdmissionView::Rejected(InboundFault::MissingSender),
        Some(user) => if !allowed.contains(user.id) {
            AdmissionView::Forbidden
        } else {
            match text {
                None => AdmissionView::Rejected(InboundFault::MissingText),
                Some(text) => AdmissionView::Reply {
                    user,
                    message: ChatMessageView { sender: ChatMessageSender::User, content: text },
                },
            }
        },
    }
}

/// Decides what is to be done with a message that came in from `sender`
/// with `text`, given the users who may talk to the relay.
pub fn screen(sender: Option<User>, text: Option<String>, allowed: &Vec<String>) -> (decision: Admission)
    ensures
        decision@ == admission(
            match sender {
                Some(user) => Some(user@),
                None => None,
            },
            match text {
                Some(text) => Some(text@),
                None => None,
            },
            texts_view(allowed@),
        ),
{
    match sender {
        None => Admission::Rejected(InboundFault::MissingSender),
        Some(user) => {
            if !is_allowed(allowed, &user.id) {
                Admission::Forbidden
            } else {
                match text {
                    None => Admission::Rejected(InboundFault::MissingText),
                    Some(text) => Admission::Reply { user, message: ChatMessage::new_from_user(text) },
                }
            }
        },
    }
}

} // verus!
