//! The conversation store: an ordered history of messages kept under a
//! character budget by evicting the oldest messages first.

use vstd::prelude::*;
use crate::message::{Message, MessageView, views_of};

verus! {

/// The number of characters that the messages of a history hold together.
pub open spec fn total_chars(history: Seq<MessageView>) -> nat
    decreases history.len(),
{
    if history.len() == 0 {
        0
    } else {
        total_chars(history.drop_last()) + history.last().content.len()
    }
}

/// The number of messages, counted from the oldest, that must leave a history
/// before what remains holds at most `max_chars` characters.
pub open spec fn evictions(history: Seq<MessageView>, max_chars: nat) -> nat
    decreases history.len(),
{
    if history.len() == 0 || total_chars(history) <= max_chars {
        0
    } else {
        1 + evictions(history.drop_first(), max_chars)
    }
}

/// What oldest-first eviction leaves of a history under a budget of
/// `max_chars` characters.
pub open spec fn trimmed(history: Seq<MessageView>, max_chars: nat) -> Seq<MessageView> {
    history.skip(evictions(history, max_chars) as int)
}

/// The characters of two histories put end to end add up.
pub proof fn total_chars_of_concat(a: Seq<MessageView>, b: Seq<MessageView>)
    ensures
        total_chars(a + b) == total_chars(a) + total_chars(b),
    decreases b.len(),
{
    if b.len() == 0 {
        assert(a + b =~= a);
    } else {
        assert((a + b).drop_last() =~= a + b.drop_last());
        assert((a + b).last() == b.last());
        total_chars_of_concat(a, b.drop_last());
    }
}

/// Appending a message adds its characters to the total.
pub proof fn total_chars_of_push(history: Seq<MessageView>, message: MessageView)
    ensures
        total_chars(history.push(message)) == total_chars(history) + message.content.len(),
{
    assert(history.push(message).drop_last() =~= history);
}

/// The total splits at any position into what lies before and what lies after.
pub proof fn total_chars_of_skip(history: Seq<MessageView>, k: int)
    requires
        0 <= k <= history.len(),
    ensures
        total_chars(history) == total_chars(history.take(k)) + total_chars(history.skip(k)),
{
    assert(history =~= history.take(k) + history.skip(k));
    total_chars_of_concat(history.take(k), history.skip(k));
}

/// Removing the oldest message takes exactly its characters off the total.
pub proof fn total_chars_of_drop_first(history: Seq<MessageView>)
    requires
        history.len() > 0,
    ensures
        total_chars(history) == history[0].content.len() + total_chars(history.drop_first()),
{
    total_chars_of_skip(history, 1);
    assert(history.skip(1) =~= history.drop_first());
    assert(history.take(1).drop_last() =~= Seq::<MessageView>::empty());
    assert(total_chars(history.take(1).drop_last()) == 0);
    assert(history.take(1).last() == history[0]);
}

/// Never more messages leave than the history holds.
pub proof fn evictions_bounded(history: Seq<MessageView>, max_chars: nat)
    ensures
        evictions(history, max_chars) <= history.len(),
    decreases history.len(),
{
    if !(history.len() == 0 || total_chars(history) <= max_chars) {
        evictions_bounded(history.drop_first(), max_chars);
    }
}

/// Trimming a history that is over budget is trimming it without its oldest
/// message; trimming one that is within budget changes nothing.
pub proof fn trimmed_unfolds(history: Seq<MessageView>, max_chars: nat)
    ensures
        trimmed(history, max_chars) == if history.len() == 0 || total_chars(history)
            <= max_chars {
            history
        } else {
            trimmed(history.drop_first(), max_chars)
        },
{
    if history.len() == 0 || total_chars(history) <= max_chars {
        assert(history.skip(0) =~= history);
    } else {
        let rest = history.drop_first();
        evictions_bounded(rest, max_chars);
        assert(history.skip(1 + evictions(rest, max_chars) as int) =~= rest.skip(
            evictions(rest, max_chars) as int,
        ));
    }
}

/// After trimming to a budget the history holds at most that many characters.
pub proof fn trimmed_within_budget(history: Seq<MessageView>, max_chars: nat)
    ensures
        total_chars(trimmed(history, max_chars)) <= max_chars,
    decreases history.len(),
{
    trimmed_unfolds(history, max_chars);
    if !(history.len() == 0 || total_chars(history) <= max_chars) {
        trimmed_within_budget(history.drop_first(), max_chars);
    }
}

/// Whether trimming a history to `max_chars` characters keeps the message at
/// position `i`.
pub open spec fn is_kept(history: Seq<MessageView>, max_chars: nat, i: int) -> bool {
    evictions(history, max_chars) <= i < history.len()
}

/// Eviction is oldest-first: once a message is kept, every later message is
/// kept too, and the kept messages are what is left, in the order that they
/// had.
pub proof fn trimmed_keeps_newest(history: Seq<MessageView>, max_chars: nat)
    ensures
        forall|i: int, j: int|
            0 <= i <= j < history.len() && #[trigger] is_kept(history, max_chars, i)
                ==> #[trigger] is_kept(history, max_chars, j),
        evictions(history, max_chars) <= history.len(),
        trimmed(history, max_chars).len() == history.len() - evictions(history, max_chars),
        forall|i: int|
            is_kept(history, max_chars, i) ==> trimmed(history, max_chars)[i - evictions(
                history,
                max_chars,
            )] == #[trigger] history[i],
{
    evictions_bounded(history, max_chars);
}

/// No message leaves without need: as long as fewer than `evictions` of the
/// oldest messages are gone, what remains is still over budget.
pub proof fn trimmed_evicts_no_more_than_needed(
    history: Seq<MessageView>,
    max_chars: nat,
    k: int,
)
    requires
        0 <= k < evictions(history, max_chars),
    ensures
        k < history.len(),
        total_chars(history.skip(k)) > max_chars,
    decreases history.len(),
{
    evictions_bounded(history, max_chars);
    if k == 0 {
        assert(history.skip(0) =~= history);
    } else {
        let rest = history.drop_first();
        trimmed_evicts_no_more_than_needed(rest, max_chars, k - 1);
        assert(rest.skip(k - 1) =~= history.skip(k));
    }
}

/// A history within budget is left as it is.
pub proof fn trimmed_within_budget_is_identity(history: Seq<MessageView>, max_chars: nat)
    requires
        total_chars(history) <= max_chars,
    ensures
        trimmed(history, max_chars) == history,
{
    trimmed_unfolds(history, max_chars);
}

/// An ordered history of messages; the order of insertion is the order of the
/// conversation.
#[derive(Debug)]
pub struct ConversationStore {
    messages: Vec<Message>,
}

impl View for ConversationStore {
    type V = Seq<MessageView>;

    closed spec fn view(&self) -> Seq<MessageView> {
        views_of(self.messages@)
    }
}

impl ConversationStore {
    /// Creates an empty store.
    pub fn new() -> (store: ConversationStore)
        ensures
            store@ == Seq::<MessageView>::empty(),
    {
        let store = ConversationStore { messages: Vec::new() };
        assert(store@ =~= Seq::<MessageView>::empty());
        store
    }

    /// The number of messages held.
    pub fn len(&self) -> (n: usize)
        ensures
            n == self@.len(),
    {
        self.messages.len()
    }

    /// Whether the store holds no message.
    pub fn is_empty(&self) -> (b: bool)
        ensures
            b == (self@.len() == 0),
    {
        self.messages.len() == 0
    }

    /// The number of characters that the held messages have together.
    pub fn char_count(&self) -> (n: u128)
        ensures
            n == total_chars(self@),
    {
        let mut total: u128 = 0;
        let mut i: usize = 0;
        while i < self.messages.len()
            invariant
                i <= self.messages.len(),
                total == total_chars(self@.take(i as int)),
                total <= i * usize::MAX,
            decreases self.messages.len() - i,
        {
            let n: usize = self.messages[i].char_len();
            proof {
                assert(self@.take(i + 1).drop_last() =~= self@.take(i as int));
                assert(self@.take(i + 1).last() == self.messages[i as int]@);
                assert(i * usize::MAX + usize::MAX <= usize::MAX * usize::MAX) by (nonlinear_arith)
                    requires
                        i < usize::MAX,
                ;
                assert(usize::MAX * usize::MAX < u128::MAX) by (nonlinear_arith)
                    requires
                        usize::MAX <= u64::MAX,
                ;
            }
            total = total + n as u128;
            i = i + 1;
        }
        assert(self@.take(i as int) =~= self@);
        total
    }

    /// Inserts a message at the end.
    pub fn append(&mut self, message: Message)
        ensures
            final(self)@ == old(self)@.push(message@),
    {
        self.messages.push(message);
        assert(self@ =~= old(self)@.push(message@));
    }

    /// Removes messages, oldest first, until the held messages have at most
    /// `max_chars` characters together or none is left.
    pub fn trim_to_budget(&mut self, max_chars: usize)
        ensures
            final(self)@ == trimmed(old(self)@, max_chars as nat),
            total_chars(final(self)@) <= max_chars,
            final(self)@ == old(self)@.skip(old(self)@.len() - final(self)@.len()),
    {
        let mut total: u128 = self.char_count();
        while total > max_chars as u128 && self.messages.len() > 0
            invariant
                total == total_chars(self@),
                trimmed(self@, max_chars as nat) == trimmed(old(self)@, max_chars as nat),
            decreases self.messages.len(),
        {
            let ghost before = self@;
            let removed = self.messages.remove(0);
            proof {
                assert(self@ =~= before.drop_first());
                assert(removed@ == before[0]);
                total_chars_of_drop_first(before);
                trimmed_unfolds(before, max_chars as nat);
            }
            total = total - removed.char_len() as u128;
        }
        proof {
            trimmed_unfolds(self@, max_chars as nat);
            trimmed_within_budget(old(self)@, max_chars as nat);
            trimmed_keeps_newest(old(self)@, max_chars as nat);
        }
    }

    /// Returns a copy of all messages, in order, as they are at the time of the
    /// call. The copy shares nothing with the store.
    pub fn snapshot(&self) -> (copy: Vec<Message>)
        ensures
            views_of(copy@) == self@,
    {
        let mut copy: Vec<Message> = Vec::new();
        let mut i: usize = 0;
        while i < self.messages.len()
            invariant
                i <= self.messages.len(),
                copy.len() == i,
                forall|j: int| 0 <= j < i ==> copy[j]@ == self.messages[j]@,
            decreases self.messages.len() - i,
        {
            copy.push(self.messages[i].clone());
            i = i + 1;
        }
        assert(views_of(copy@) =~= self@);
        copy
    }
}

} // verus!
