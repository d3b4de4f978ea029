//! The order of chat rows and of messages.

use crate::lists::{Ranked, law_ranked_is_sorted, law_ranked_keeps_rows, ranked};
use crate::protocol::{ChatMessage, Conversation, ConversationModel, MessageModel, Text};
use crate::state::message_rank;
use crate::state::model::rank_of;
use crate::text::{
    all_digits, chars_of, decimal, law_after_last_is_the_tail, law_decimal_reads_back,
    law_integer_reads_back, signed_decimal,
};
use vstd::prelude::*;
use vstd::string::*;

verus! {

/// `a` stands before `b` in a dictionary of characters, or is `b`.
pub open spec fn text_le(a: Text, b: Text) -> bool
    decreases a.len(),
{
    a.len() == 0 || (b.len() > 0 && (a[0] < b[0] || (a[0] == b[0] && text_le(
        a.drop_first(),
        b.drop_first(),
    ))))
}

/// True when `a` stands before `b` in a dictionary of characters, or is `b`.
pub fn text_at_most(a: &str, b: &str) -> (r: bool)
    ensures
        r == text_le(a@, b@),
{
    let x = chars_of(a);
    let y = chars_of(b);
    let mut i: usize = 0;
    proof {
        assert(a@.skip(0) =~= a@);
        assert(b@.skip(0) =~= b@);
    }
    while i < x.len()
        invariant
            i <= x.len(),
            i <= y.len(),
            x@ == a@,
            y@ == b@,
            text_le(a@, b@) == text_le(a@.skip(i as int), b@.skip(i as int)),
        decreases x.len() - i,
    {
        proof {
            let s = a@.skip(i as int);
            let t = b@.skip(i as int);
            assert(s[0] == a@[i as int]);
            assert(i < b@.len() ==> t[0] == b@[i as int]);
            assert(s.drop_first() =~= a@.skip(i + 1));
            if i < b@.len() {
                assert(t.drop_first() =~= b@.skip(i + 1));
            }
        }
        if i >= y.len() {
            return false;
        }
        if x[i] < y[i] {
            return true;
        }
        if x[i] > y[i] {
            return false;
        }
        i = i + 1;
    }
    assert(a@.skip(i as int).len() == 0);
    true
}

/// Rows with a higher order stand first; rows of one order stand by id.
pub open spec fn chat_le(a: ConversationModel, b: ConversationModel) -> bool {
    a.order > b.order || (a.order == b.order && text_le(a.id, b.id))
}

impl Ranked for Conversation {
    open spec fn ranks(a: ConversationModel, b: ConversationModel) -> bool {
        chat_le(a, b)
    }

    fn may_precede(&self, other: &Self) -> (r: bool) {
        self.order > other.order || (self.order == other.order && text_at_most(
            self.id.as_str(),
            other.id.as_str(),
        ))
    }
}

/// Older messages stand first. Some protocols use ids with no order, so the
/// time decides; the number in the id ranks messages of one time.
pub open spec fn message_le(a: MessageModel, b: MessageModel) -> bool {
    a.sent_at < b.sent_at || (a.sent_at == b.sent_at && rank_of(a.id) <= rank_of(b.id))
}

impl Ranked for ChatMessage {
    open spec fn ranks(a: MessageModel, b: MessageModel) -> bool {
        message_le(a, b)
    }

    fn may_precede(&self, other: &Self) -> (r: bool) {
        self.sent_at < other.sent_at || (self.sent_at == other.sent_at && message_rank(
            self.id.as_str(),
        ) <= message_rank(other.id.as_str()))
    }
}

/// Of two texts, one may stand before the other.
pub proof fn law_text_order_is_total(a: Text, b: Text)
    ensures
        text_le(a, b) || text_le(b, a),
    decreases a.len(),
{
    if a.len() > 0 && b.len() > 0 && a[0] == b[0] {
        law_text_order_is_total(a.drop_first(), b.drop_first());
    }
}

/// A text before a second one stands before all that the second one precedes.
pub proof fn law_text_order_is_transitive(a: Text, b: Text, c: Text)
    requires
        text_le(a, b),
        text_le(b, c),
    ensures
        text_le(a, c),
    decreases a.len(),
{
    if a.len() > 0 && b.len() > 0 && c.len() > 0 && a[0] == b[0] && b[0] == c[0] {
        law_text_order_is_transitive(a.drop_first(), b.drop_first(), c.drop_first());
    }
}

/// Texts that may each stand before the other are one text.
pub proof fn law_text_order_is_strict(a: Text, b: Text)
    requires
        text_le(a, b),
        text_le(b, a),
    ensures
        a == b,
    decreases a.len(),
{
    if a.len() > 0 {
        law_text_order_is_strict(a.drop_first(), b.drop_first());
        assert(seq![a[0]] + a.drop_first() =~= a);
        assert(seq![b[0]] + b.drop_first() =~= b);
    } else {
        assert(a =~= b);
    }
}

/// A chat list stands in its order, and holds the rows that it held before.
pub proof fn law_chat_lists_are_sorted(rows: Seq<ConversationModel>)
    ensures
        ranked::<Conversation>(rows).to_multiset() == rows.to_multiset(),
        forall|i: int, j: int|
            0 <= i < j < ranked::<Conversation>(rows).len() ==> chat_le(
                #[trigger] ranked::<Conversation>(rows)[i],
                #[trigger] ranked::<Conversation>(rows)[j],
            ),
{
    assert forall|a: ConversationModel, b: ConversationModel| #[trigger]
        Conversation::ranks(a, b) || Conversation::ranks(b, a) by {
        law_text_order_is_total(a.id, b.id);
    }
    assert forall|a: ConversationModel, b: ConversationModel, c: ConversationModel|
        #![trigger Conversation::ranks(a, b), Conversation::ranks(b, c)]
        Conversation::ranks(a, b) && Conversation::ranks(b, c) implies Conversation::ranks(a, c) by {
        if a.order == b.order && b.order == c.order {
            law_text_order_is_transitive(a.id, b.id, c.id);
        }
    }
    law_ranked_keeps_rows::<Conversation>(rows);
    law_ranked_is_sorted::<Conversation>(rows);
}

/// A thread stands in its order, and holds the messages that it held before.
pub proof fn law_threads_are_sorted(rows: Seq<MessageModel>)
    ensures
        ranked::<ChatMessage>(rows).to_multiset() == rows.to_multiset(),
        forall|i: int, j: int|
            0 <= i < j < ranked::<ChatMessage>(rows).len() ==> message_le(
                #[trigger] ranked::<ChatMessage>(rows)[i],
                #[trigger] ranked::<ChatMessage>(rows)[j],
            ),
{
    assert forall|a: MessageModel, b: MessageModel| #[trigger]
        ChatMessage::ranks(a, b) || ChatMessage::ranks(b, a) by {}
    law_ranked_keeps_rows::<ChatMessage>(rows);
    law_ranked_is_sorted::<ChatMessage>(rows);
}

/// Two texts stand by their first difference, and a text stands before every
/// longer one that starts with it.
pub proof fn law_first_difference_decides(a: Text, b: Text, n: int)
    requires
        0 <= n <= a.len(),
        n <= b.len(),
        a.take(n) == b.take(n),
    ensures
        n < a.len() && n < b.len() && a[n] < b[n] ==> text_le(a, b) && !text_le(b, a),
        n == a.len() ==> text_le(a, b),
        n == a.len() && n < b.len() ==> !text_le(b, a),
    decreases n,
{
    if n > 0 {
        assert(a.take(n)[0] == a[0] && b.take(n)[0] == b[0]);
        assert(a.drop_first().take(n - 1) =~= a.take(n).drop_first());
        assert(b.drop_first().take(n - 1) =~= b.take(n).drop_first());
        law_first_difference_decides(a.drop_first(), b.drop_first(), n - 1);
    }
}

/// The rank of a message id is the number behind its last colon.
pub proof fn law_rank_is_the_last_number(front: Text, n: int)
    requires
        i64::MIN <= n <= i64::MAX,
    ensures
        rank_of(front.push(':') + signed_decimal(n)) == n,
        rank_of(signed_decimal(n)) == n,
{
    let end = signed_decimal(n);
    reveal_strlit("-");
    assert forall|k: int| 0 <= k < end.len() implies #[trigger] end[k] != ':' by {
        if n < 0 {
            law_decimal_reads_back((-n) as nat);
            if k > 0 {
                assert(end[k] == decimal((-n) as nat)[k - 1]);
            }
        } else {
            law_decimal_reads_back(n as nat);
        }
    }
    law_after_last_is_the_tail(front, ':', end);
    law_integer_reads_back(n);
}

/// An id that ends in no number has rank zero.
pub proof fn law_other_ids_have_no_rank(front: Text, end: Text, at: int)
    requires
        forall|k: int| 0 <= k < end.len() ==> #[trigger] end[k] != ':',
        0 < at < end.len(),
        !('0' <= end[at] <= '9'),
    ensures
        rank_of(front.push(':') + end) == 0,
{
    law_after_last_is_the_tail(front, ':', end);
    let digits = end.drop_first();
    assert(digits[at - 1] == end[at]);
    assert(!all_digits(digits));
    assert(!all_digits(end));
}

/// Sorted messages stand by the time they were sent, and those of one time by
/// the number in their id. This holds of every protocol.
pub proof fn law_messages_stand_by_time(rows: Seq<MessageModel>)
    ensures
        forall|i: int, j: int|
            #![trigger ranked::<ChatMessage>(rows)[i], ranked::<ChatMessage>(rows)[j]]
            0 <= i < j < ranked::<ChatMessage>(rows).len() ==> {
                let a = ranked::<ChatMessage>(rows)[i];
                let b = ranked::<ChatMessage>(rows)[j];
                &&& a.sent_at <= b.sent_at
                &&& a.sent_at == b.sent_at ==> rank_of(a.id) <= rank_of(b.id)
            },
{
    law_threads_are_sorted(rows);
}

/// Sorted chat rows stand by their order number, the highest first, and those of
/// one number by their id.
pub proof fn law_chats_stand_by_order(rows: Seq<ConversationModel>)
    ensures
        forall|i: int, j: int|
            #![trigger ranked::<Conversation>(rows)[i], ranked::<Conversation>(rows)[j]]
            0 <= i < j < ranked::<Conversation>(rows).len() ==> {
                let a = ranked::<Conversation>(rows)[i];
                let b = ranked::<Conversation>(rows)[j];
                &&& a.order >= b.order
                &&& a.order == b.order ==> text_le(a.id, b.id)
            },
{
    law_chat_lists_are_sorted(rows);
}

/// A message may stand before another exactly when it was sent earlier, or at
/// the same time with no higher number in its id.
pub proof fn law_time_decides_between_messages(a: MessageModel, b: MessageModel)
    ensures
        a.sent_at < b.sent_at ==> ChatMessage::ranks(a, b) && !ChatMessage::ranks(b, a),
        a.sent_at == b.sent_at && rank_of(a.id) < rank_of(b.id) ==> ChatMessage::ranks(a, b)
            && !ChatMessage::ranks(b, a),
        a.sent_at == b.sent_at && rank_of(a.id) == rank_of(b.id) ==> ChatMessage::ranks(a, b)
            && ChatMessage::ranks(b, a),
{
}

/// A chat row may stand before another exactly when it has the higher order
/// number, or the same one and an id that is not later.
pub proof fn law_order_decides_between_chats(a: ConversationModel, b: ConversationModel)
    ensures
        a.order > b.order ==> Conversation::ranks(a, b) && !Conversation::ranks(b, a),
        a.order == b.order ==> Conversation::ranks(a, b) == text_le(a.id, b.id),
{
}

} // verus!
