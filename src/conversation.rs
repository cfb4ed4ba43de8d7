//! Conversation memory: the ordered history of one owner's conversation with
//! one character, and the only ways it may change.

use vstd::prelude::*;
use std::collections::HashMap;
use crate::message::{HistoryMessage, MessageRole};

verus! {

broadcast use vstd::std_specs::hash::group_hash_axioms;

/// Why a conversation refused a change.
#[derive(Debug, Clone, Copy, PartialEq, Eq, Structural)]
pub enum ConversationError {
    /// The history holds no assistant message to regenerate.
    NothingToRegenerate,
}

/// The index of the most recent assistant message of a history, or -1 where
/// it holds none.
pub open spec fn last_assistant_index(h: Seq<HistoryMessage>) -> int
    decreases h.len(),
{
    if h.len() == 0 {
        -1
    } else if h.last().role == MessageRole::Assistant {
        h.len() - 1
    } else {
        last_assistant_index(h.drop_last())
    }
}

pub proof fn lemma_last_assistant_index(h: Seq<HistoryMessage>)
    ensures
        -1 <= last_assistant_index(h) < h.len(),
        last_assistant_index(h) >= 0 ==> h[last_assistant_index(h)].role == MessageRole::Assistant,
        forall|j: int| last_assistant_index(h) < j < h.len() ==> h[j].role != MessageRole::Assistant,
    decreases h.len(),
{
    if h.len() > 0 && h.last().role != MessageRole::Assistant {
        let t = h.drop_last();
        lemma_last_assistant_index(t);
        assert forall|j: int| last_assistant_index(h) < j < h.len() implies h[j].role != MessageRole::Assistant by {
            if j < h.len() - 1 {
                assert(t[j] == h[j]);
            }
        }
    }
}

/// The history after a regeneration: the most recent assistant message is
/// replaced by the new reply.
pub open spec fn regenerated(h: Seq<HistoryMessage>, reply: HistoryMessage) -> Seq<HistoryMessage> {
    h.update(last_assistant_index(h), reply)
}

/// The identifiers of the first `limit` conversations of `s` between
/// `owner` and `character`, in the order of `s`.
pub open spec fn first_ids_of(s: Seq<RoleplayMemory>, owner: u128, character: u128, limit: nat) -> Seq<u128>
    decreases s.len(),
{
    if s.len() == 0 {
        Seq::empty()
    } else {
        let before = first_ids_of(s.drop_last(), owner, character, limit);
        if s.last().owner == owner && s.last().character == character && before.len() < limit {
            before.push(s.last().id)
        } else {
            before
        }
    }
}

pub proof fn lemma_first_ids_len(s: Seq<RoleplayMemory>, owner: u128, character: u128, limit: nat)
    ensures
        first_ids_of(s, owner, character, limit).len() <= limit,
    decreases s.len(),
{
    if s.len() > 0 {
        lemma_first_ids_len(s.drop_last(), owner, character, limit);
    }
}

/// One conversation between an owner and a character.
#[derive(Debug, Clone)]
pub struct RoleplayMemory {
    pub id: u128,
    pub public: bool,
    pub owner: u128,
    pub character: u128,
    pub history: Vec<HistoryMessage>,
    pub updated_at: u64,
    pub created_at: u64,
}

impl RoleplayMemory {
    /// Whether `caller` may read and extend this conversation: its owner may,
    /// and anyone may where it is public.
    pub open spec fn spec_can_access(&self, caller: u128) -> bool {
        self.public || self.owner == caller
    }

    /// A new private conversation with an empty history, created at `now`.
    pub fn new(id: u128, owner: u128, character: u128, now: u64) -> (r: Self)
        ensures
            r.id == id,
            !r.public,
            r.owner == owner,
            r.character == character,
            r.history@.len() == 0,
            r.updated_at == now,
            r.created_at == now,
    {
        RoleplayMemory {
            id,
            public: false,
            owner,
            character,
            history: Vec::new(),
            updated_at: now,
            created_at: now,
        }
    }

    /// The identifiers of at most `limit` conversations of `user_id` with
    /// `character_id`, taken from `conversations` in their order (the store
    /// hands them over most recently updated first).
    pub fn find_latest_conversations_id_only(
        conversations: &Vec<RoleplayMemory>,
        user_id: u128,
        character_id: u128,
        limit: u64,
    ) -> (r: Vec<u128>)
        ensures
            r@ == first_ids_of(conversations@, user_id, character_id, limit as nat),
    {
        let mut ids: Vec<u128> = Vec::new();
        let mut taken: u64 = 0;
        let mut i: usize = 0;
        while i < conversations.len()
            invariant
                i <= conversations@.len(),
                taken == ids@.len(),
                taken <= limit,
                ids@ == first_ids_of(conversations@.subrange(0, i as int), user_id, character_id, limit as nat),
            decreases conversations@.len() - i,
        {
            let ghost before = conversations@.subrange(0, i as int);
            let ghost after = conversations@.subrange(0, i + 1);
            proof {
                assert(after.drop_last() == before);
                assert(after.last() == conversations@[i as int]);
                lemma_first_ids_len(before, user_id, character_id, limit as nat);
            }
            let c = &conversations[i];
            if c.owner == user_id && c.character == character_id && taken < limit {
                ids.push(c.id);
                taken = taken + 1;
            }
            i = i + 1;
        }
        proof {
            assert(conversations@.subrange(0, conversations@.len() as int) == conversations@);
        }
        ids
    }

    pub fn can_access(&self, caller: u128) -> (r: bool)
        ensures
            r == self.spec_can_access(caller),
    {
        self.public || self.owner == caller
    }

    /// Appends messages to the end of the history, in their order, at `now`.
    pub fn append_messages(&mut self, messages: Vec<HistoryMessage>, now: u64)
        ensures
            final(self).history@ == old(self).history@ + messages@,
            final(self).updated_at == now,
            final(self).id == old(self).id,
            final(self).public == old(self).public,
            final(self).owner == old(self).owner,
            final(self).character == old(self).character,
            final(self).created_at == old(self).created_at,
    {
        let mut messages = messages;
        self.history.append(&mut messages);
        self.updated_at = now;
    }

    /// Replaces the most recent assistant message by `reply`, at `now`. Where
    /// the history holds no assistant message nothing changes.
    pub fn regenerate_last_message(&mut self, reply: HistoryMessage, now: u64) -> (r: Result<(), ConversationError>)
        ensures
            r is Err <==> last_assistant_index(old(self).history@) < 0,
            r is Err ==> *final(self) == *old(self),
            r is Ok ==> {
                &&& final(self).history@ == regenerated(old(self).history@, reply)
                &&& final(self).updated_at == now
            },
            final(self).history@.len() == old(self).history@.len(),
            final(self).id == old(self).id,
            final(self).public == old(self).public,
            final(self).owner == old(self).owner,
            final(self).character == old(self).character,
            final(self).created_at == old(self).created_at,
    {
        proof {
            lemma_last_assistant_index(self.history@);
        }
        let mut i: usize = self.history.len();
        while i > 0
            invariant
                *self == *old(self),
                -1 <= last_assistant_index(self.history@) < self.history@.len(),
                last_assistant_index(self.history@) >= 0
                    ==> self.history@[last_assistant_index(self.history@)].role == MessageRole::Assistant,
                forall|j: int| last_assistant_index(self.history@) < j < self.history@.len()
                    ==> self.history@[j].role != MessageRole::Assistant,
                i <= self.history@.len(),
                last_assistant_index(self.history@) < i,
                forall|j: int| i <= j < self.history@.len() ==> self.history@[j].role != MessageRole::Assistant,
            decreases i,
        {
            if self.history[i - 1].role == MessageRole::Assistant {
                let ghost h = self.history@;
                proof {
                    assert(last_assistant_index(h) == i - 1);
                }
                self.history.set(i - 1, reply);
                self.updated_at = now;
                return Ok(());
            }
            i = i - 1;
        }
        Err(ConversationError::NothingToRegenerate)
    }
}

/// The history after appending batches of messages one after the other, in
/// the order in which the store serialized them.
pub open spec fn after_appends(h: Seq<HistoryMessage>, batches: Seq<Seq<HistoryMessage>>) -> Seq<HistoryMessage>
    decreases batches.len(),
{
    if batches.len() == 0 {
        h
    } else {
        after_appends(h + batches[0], batches.drop_first())
    }
}

/// The number of messages in all batches together.
pub open spec fn total_len(batches: Seq<Seq<HistoryMessage>>) -> nat
    decreases batches.len(),
{
    if batches.len() == 0 {
        0
    } else {
        batches[0].len() + total_len(batches.drop_first())
    }
}

/// Appends that the store serializes lose no message: whatever the order in
/// which concurrent batches are applied, the history ends with every batch,
/// each in its own order, and grows by the sum of their lengths.
pub proof fn lemma_appends_lose_no_message(h: Seq<HistoryMessage>, batches: Seq<Seq<HistoryMessage>>)
    ensures
        after_appends(h, batches) == h + batches.flatten(),
        after_appends(h, batches).len() == h.len() + total_len(batches),
    decreases batches.len(),
{
    if batches.len() > 0 {
        lemma_appends_lose_no_message(h + batches[0], batches.drop_first());
        assert(h + batches[0] + batches.drop_first().flatten() =~= h + batches.flatten());
    }
}

/// Appending messages one at a time yields the old history followed by
/// exactly those messages, in append order.
pub proof fn lemma_sequential_appends_keep_order(h: Seq<HistoryMessage>, msgs: Seq<HistoryMessage>)
    ensures
        after_appends(h, msgs.map_values(|m: HistoryMessage| seq![m])) == h + msgs,
        after_appends(h, msgs.map_values(|m: HistoryMessage| seq![m])).len() == h.len() + msgs.len(),
    decreases msgs.len(),
{
    let singles = msgs.map_values(|m: HistoryMessage| seq![m]);
    if msgs.len() > 0 {
        lemma_sequential_appends_keep_order(h.push(msgs[0]), msgs.drop_first());
        assert(singles.drop_first() =~= msgs.drop_first().map_values(|m: HistoryMessage| seq![m]));
        assert(h + singles[0] =~= h.push(msgs[0]));
        assert(h.push(msgs[0]) + msgs.drop_first() =~= h + msgs);
    } else {
        assert(h + msgs =~= h);
    }
}

/// Regenerating keeps the length of the history and changes only the most
/// recent assistant message, which becomes the new reply.
pub proof fn lemma_regenerate_replaces_only_last_reply(h: Seq<HistoryMessage>, reply: HistoryMessage)
    requires
        last_assistant_index(h) >= 0,
    ensures
        regenerated(h, reply).len() == h.len(),
        regenerated(h, reply)[last_assistant_index(h)] == reply,
        forall|j: int| 0 <= j < h.len() && j != last_assistant_index(h) ==> #[trigger] regenerated(h, reply)[j] == h[j],
{
    lemma_last_assistant_index(h);
}

/// How many conversations of a list are with `character`.
pub open spec fn count_with_character(convos: Seq<RoleplayMemory>, character: u128) -> nat
    decreases convos.len(),
{
    if convos.len() == 0 {
        0
    } else {
        count_with_character(convos.drop_last(), character)
            + if convos.last().character == character { 1nat } else { 0nat }
    }
}

/// For each character that a list of conversations is with, how many of them
/// are with it.
pub fn count_conversations_by_character(convos: &Vec<RoleplayMemory>) -> (r: HashMap<u128, usize>)
    ensures
        forall|c: u128| #[trigger] r@.contains_key(c) <==> count_with_character(convos@, c) > 0,
        forall|c: u128| #[trigger] r@.contains_key(c) ==> r@[c] == count_with_character(convos@, c),
{
    let mut counts: HashMap<u128, usize> = HashMap::new();
    let mut i: usize = 0;
    while i < convos.len()
        invariant
            i <= convos@.len(),
            forall|c: u128| #[trigger] counts@.contains_key(c)
                <==> count_with_character(convos@.subrange(0, i as int), c) > 0,
            forall|c: u128| #[trigger] counts@.contains_key(c)
                ==> counts@[c] == count_with_character(convos@.subrange(0, i as int), c),
            forall|c: u128| count_with_character(convos@.subrange(0, i as int), c) <= i,
        decreases convos@.len() - i,
    {
        let ghost before = convos@.subrange(0, i as int);
        let ghost after = convos@.subrange(0, i + 1);
        proof {
            assert(after.drop_last() == before);
            assert(after.last() == convos@[i as int]);
        }
        let character = convos[i].character;
        let current: usize = match counts.get(&character) {
            Some(n) => *n,
            None => 0,
        };
        counts.insert(character, current + 1);
        i = i + 1;
        proof {
            assert forall|c: u128| count_with_character(convos@.subrange(0, i as int), c) <= i by {
                assert(count_with_character(after, c) == count_with_character(before, c)
                    + if after.last().character == c { 1nat } else { 0nat });
            }
            assert forall|c: u128| #[trigger] counts@.contains_key(c)
                <==> count_with_character(convos@.subrange(0, i as int), c) > 0 by {
                assert(count_with_character(after, c) == count_with_character(before, c)
                    + if after.last().character == c { 1nat } else { 0nat });
            }
            assert forall|c: u128| #[trigger] counts@.contains_key(c)
                implies counts@[c] == count_with_character(convos@.subrange(0, i as int), c) by {
                assert(count_with_character(after, c) == count_with_character(before, c)
                    + if after.last().character == c { 1nat } else { 0nat });
            }
        }
    }
    proof {
        assert(convos@.subrange(0, convos@.len() as int) == convos@);
    }
    counts
}

/// A conversation whose history is kept as message identifiers.
#[derive(Debug, Clone)]
pub struct RoleplaySession {
    pub id: u128,
    pub public: bool,
    pub owner: u128,
    pub character: u128,
    pub system_config: u128,
    pub history: Vec<u128>,
    pub updated_at: i64,
    pub created_at: i64,
}

impl RoleplaySession {
    /// Records that the message `message_id_to_add` was appended to the
    /// stored history: it becomes the last entry.
    pub fn append_message_to_history(&mut self, message_id_to_add: u128)
        ensures
            final(self).history@ == old(self).history@.push(message_id_to_add),
            final(self).id == old(self).id,
            final(self).public == old(self).public,
            final(self).owner == old(self).owner,
            final(self).character == old(self).character,
            final(self).system_config == old(self).system_config,
            final(self).updated_at == old(self).updated_at,
            final(self).created_at == old(self).created_at,
    {
        self.history.push(message_id_to_add);
    }
}

} // verus!
