use vstd::prelude::*;
use vstd::string::StringSliceAdditionalSpecFns;
use vstd::utf8::encode_utf8;

use super::chat::{ChatHistory, ChatHistoryView, ChatMessageView};

verus! {

/// The most content, in bytes, that a history may hold before it counts as
/// too long.
pub const MAX_CONTENT_LEN: usize = 10000;

/// The length of a message's content: the number of bytes of its UTF-8
/// encoding.
pub open spec fn content_len(message: ChatMessageView) -> nat {
    encode_utf8(message.content).len()
}

/// The sum of the content lengths of `messages`.
pub open spec fn total_content_len(messages: Seq<ChatMessageView>) -> nat
    decreases messages.len(),
{
    if messages.len() == 0 {
        0
    } else {
        total_content_len(messages.drop_last()) + content_len(messages.last())
    }
}

impl ChatHistoryView {
    /// Whether the messages together hold more content than
    /// [`MAX_CONTENT_LEN`]. The system prompt does not count.
    pub open spec fn too_long(self) -> bool {
        total_content_len(self.messages) > MAX_CONTENT_LEN
    }
}

/// One more message adds its content length to the total.
pub proof fn lemma_total_content_len_push(messages: Seq<ChatMessageView>, message: ChatMessageView)
    ensures
        total_content_len(messages.push(message)) == total_content_len(messages) + content_len(
            message,
        ),
{
    assert(messages.push(message).drop_last() =~= messages);
}

/// A prefix of a list holds no more content than the list.
pub proof fn lemma_total_content_len_prefix(messages: Seq<ChatMessageView>, n: int)
    requires
        0 <= n <= messages.len(),
    ensures
        total_content_len(messages.take(n)) <= total_content_len(messages),
    decreases messages.len() - n,
{
    if n == messages.len() {
        assert(messages.take(n) =~= messages);
    } else {
        lemma_total_content_len_prefix(messages, n + 1);
        assert(messages.take(n + 1) =~= messages.take(n).push(messages[n]));
        lemma_total_content_len_push(messages.take(n), messages[n]);
    }
}

impl ChatHistory {
    /// Whether the contents of the messages add up to more than
    /// [`MAX_CONTENT_LEN`] bytes. A total of exactly that many is not too
    /// long.
    pub fn is_too_long(&self) -> (too_long: bool)
        ensures
            too_long == self@.too_long(),
    {
        let ghost all = self@.messages;
        let mut total: usize = 0;
        let mut i: usize = 0;
        while i < self.messages.len()
            invariant
                all == self@.messages,
                all.len() == self.messages.len(),
                i <= self.messages.len(),
                total == total_content_len(all.take(i as int)),
                total <= MAX_CONTENT_LEN,
            decreases self.messages.len() - i,
        {
            let len = self.messages[i].content.as_str().as_bytes().len();
            proof {
                assert(all.take(i + 1) =~= all.take(i as int).push(all[i as int]));
                lemma_total_content_len_push(all.take(i as int), all[i as int]);
                lemma_total_content_len_prefix(all, i + 1);
            }
            if len > MAX_CONTENT_LEN - total {
                return true;
            }
            total = total + len;
            i += 1;
        }
        assert(all.take(i as int) =~= all);
        false
    }
}

} // verus!
