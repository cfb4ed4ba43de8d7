//! The memory store: the capability through which conversation turns are
//! appended, read page by page, searched, replaced and removed.

use vstd::prelude::*;
use crate::message::{HistoryMessage, Message};

verus! {

/// The failures of a memory store.
#[derive(Debug, Clone, Copy, PartialEq, Eq, Structural)]
pub enum MemoryError {
    NotFound,
    ConflictError,
    StorageUnavailable,
    SearchUnavailable,
}

/// The position of the first message of `s` with identifier `id`, or -1.
pub open spec fn index_of_id<M: Message>(s: Seq<M>, id: u128) -> int
    decreases s.len(),
{
    if s.len() == 0 {
        -1
    } else if index_of_id(s.drop_last(), id) >= 0 {
        index_of_id(s.drop_last(), id)
    } else if s.last().spec_id() == id {
        s.len() - 1
    } else {
        -1
    }
}

/// Whether appending `batch` to `stored` would give two messages one
/// identifier.
pub open spec fn has_id_conflict<M: Message>(stored: Seq<M>, batch: Seq<M>) -> bool {
    ||| exists|i: int, j: int| 0 <= i < batch.len() && 0 <= j < stored.len()
            && #[trigger] batch[i].spec_id() == #[trigger] stored[j].spec_id()
    ||| exists|i: int, j: int| 0 <= i < j < batch.len()
            && #[trigger] batch[i].spec_id() == #[trigger] batch[j].spec_id()
}

/// The messages of `s` that `p` selects, newest (last appended) first.
pub open spec fn newest_first_where<M>(s: Seq<M>, p: spec_fn(M) -> bool) -> Seq<M>
    decreases s.len(),
{
    if s.len() == 0 {
        Seq::empty()
    } else {
        newest_first_where(s.drop_first(), p) + if p(s[0]) { seq![s[0]] } else { Seq::empty() }
    }
}

pub open spec fn min_of(a: int, b: int) -> int {
    if a <= b { a } else { b }
}

/// The page of `s` that skips `offset` entries and holds at most `limit`.
pub open spec fn page<M>(s: Seq<M>, offset: nat, limit: nat) -> Seq<M> {
    s.subrange(min_of(offset as int, s.len() as int), min_of((offset + limit) as int, s.len() as int))
}

/// A stored message after a batch of replacements: the last one of the batch
/// with its identifier, where there is one.
pub open spec fn replaced<M: Message>(m: M, batch: Seq<M>) -> M
    decreases batch.len(),
{
    if batch.len() == 0 {
        m
    } else if batch.last().spec_id() == m.spec_id() {
        batch.last()
    } else {
        replaced(m, batch.drop_last())
    }
}

/// The messages of `s` that `p` keeps, in their order.
pub open spec fn kept<M>(s: Seq<M>, p: spec_fn(M) -> bool) -> Seq<M>
    decreases s.len(),
{
    if s.len() == 0 {
        Seq::empty()
    } else if p(s.last()) {
        kept(s.drop_last(), p).push(s.last())
    } else {
        kept(s.drop_last(), p)
    }
}

/// A store of conversation turns.
pub trait Memory: Sized {
    type MessageType: Message;

    /// The stored messages, in append order.
    spec fn spec_messages(&self) -> Seq<Self::MessageType>;

    /// Prepares the backend.
    fn initialize(&mut self) -> (r: Result<(), MemoryError>)
        ensures
            final(self).spec_messages() == old(self).spec_messages(),
            r matches Err(e) ==> e == MemoryError::StorageUnavailable,
    ;

    /// Appends the messages, all or none: where one of them would share an
    /// identifier with a stored one or with another of the batch, nothing is
    /// appended.
    fn add_messages(&mut self, messages: &[Self::MessageType]) -> (r: Result<(), MemoryError>)
        ensures
            r is Err <==> has_id_conflict(old(self).spec_messages(), messages@),
            r is Ok ==> final(self).spec_messages() == old(self).spec_messages() + messages@,
            r is Err ==> r == Err::<(), MemoryError>(MemoryError::ConflictError)
                && final(self).spec_messages() == old(self).spec_messages(),
    ;

    /// The message with the given identifier.
    fn get_one(&self, message_id: u128) -> (r: Option<Self::MessageType>)
        ensures
            r is None <==> index_of_id(self.spec_messages(), message_id) < 0,
            r matches Some(m) ==> m == self.spec_messages()[index_of_id(self.spec_messages(), message_id)],
    ;

    /// A page of the messages of `user_id`, newest first.
    fn get_all(&self, user_id: u128, limit: u64, offset: u64) -> (r: Vec<Self::MessageType>)
        ensures
            r@ == page(
                newest_first_where(self.spec_messages(), |m: Self::MessageType| m.spec_owner() == user_id),
                offset as nat,
                limit as nat,
            ),
    ;

    /// A page, newest first, of the stored messages whose text is that of
    /// `message`.
    fn search(&self, message: &Self::MessageType, limit: u64, offset: u64) -> (r: Result<Vec<Self::MessageType>, MemoryError>)
        ensures
            r matches Err(e) ==> e == MemoryError::SearchUnavailable,
            r matches Ok(v) ==> v@ == page(
                newest_first_where(self.spec_messages(), |m: Self::MessageType| m.spec_text() == message.spec_text()),
                offset as nat,
                limit as nat,
            ),
    ;

    /// Replaces stored messages by the ones of the batch with the same
    /// identifier. Where one of the batch matches no stored message, nothing
    /// changes.
    fn update(&mut self, messages: &[Self::MessageType]) -> (r: Result<(), MemoryError>)
        ensures
            r is Err <==> exists|i: int| 0 <= i < messages@.len()
                && index_of_id(old(self).spec_messages(), #[trigger] messages@[i].spec_id()) < 0,
            r is Err ==> r == Err::<(), MemoryError>(MemoryError::NotFound)
                && final(self).spec_messages() == old(self).spec_messages(),
            r is Ok ==> final(self).spec_messages() == old(self).spec_messages().map_values(
                |m: Self::MessageType| replaced(m, messages@),
            ),
    ;

    /// Removes the messages with the given identifiers.
    fn delete(&mut self, message_ids: &[u128]) -> (r: Result<(), MemoryError>)
        ensures
            r is Ok,
            final(self).spec_messages() == kept(
                old(self).spec_messages(),
                |m: Self::MessageType| !message_ids@.contains(m.spec_id()),
            ),
    ;

    /// Removes every message of `user_id`.
    fn reset(&mut self, user_id: u128) -> (r: Result<(), MemoryError>)
        ensures
            r is Ok,
            final(self).spec_messages() == kept(
                old(self).spec_messages(),
                |m: Self::MessageType| m.spec_owner() != user_id,
            ),
    ;
}

pub proof fn lemma_index_of_id<M: Message>(s: Seq<M>, id: u128)
    ensures
        -1 <= index_of_id(s, id) < s.len(),
        index_of_id(s, id) >= 0 ==> s[index_of_id(s, id)].spec_id() == id,
        forall|j: int| 0 <= j < s.len() && (index_of_id(s, id) < 0 || j < index_of_id(s, id))
            ==> s[j].spec_id() != id,
    decreases s.len(),
{
    if s.len() > 0 {
        let t = s.drop_last();
        lemma_index_of_id(t, id);
        assert forall|j: int| 0 <= j < s.len() && (index_of_id(s, id) < 0 || j < index_of_id(s, id))
            implies s[j].spec_id() != id by {
            if j < s.len() - 1 {
                assert(t[j] == s[j]);
            }
        }
    }
}

pub proof fn lemma_replaced_keeps_id<M: Message>(m: M, batch: Seq<M>)
    ensures
        replaced(m, batch).spec_id() == m.spec_id(),
    decreases batch.len(),
{
    if batch.len() > 0 && batch.last().spec_id() != m.spec_id() {
        lemma_replaced_keeps_id(m, batch.drop_last());
    }
}

/// What a page scan selects: the messages of an owner, or those with a
/// given text (or with none, where it is `None`).
enum Selector {
    Owner(u128),
    Text(Option<String>),
}

impl Selector {
    spec fn spec_selects(&self, m: HistoryMessage) -> bool {
        match self {
            Selector::Owner(u) => m.spec_owner() == *u,
            Selector::Text(t) => match t {
                Some(q) => m.spec_text() == Some(q@),
                None => m.spec_text() is None,
            },
        }
    }

    fn selects(&self, m: &HistoryMessage) -> (r: bool)
        ensures
            r == self.spec_selects(*m),
    {
        match self {
            Selector::Owner(u) => m.owner == *u,
            Selector::Text(t) => {
                let mt = m.text_content();
                match (t, mt) {
                    (Some(q), Some(x)) => *q == x,
                    (None, None) => true,
                    _ => false,
                }
            },
        }
    }
}

fn listed(ids: &[u128], id: u128) -> (r: bool)
    ensures
        r == ids@.contains(id),
{
    let mut k: usize = 0;
    while k < ids.len()
        invariant
            k <= ids@.len(),
            forall|a: int| 0 <= a < k ==> ids@[a] != id,
        decreases ids@.len() - k,
    {
        if ids[k] == id {
            proof {
                assert(ids@[k as int] == id);
            }
            return true;
        }
        k = k + 1;
    }
    false
}

/// A memory store that keeps the messages in the process, in append order.
#[derive(Debug)]
pub struct InMemoryStore {
    messages: Vec<HistoryMessage>,
}

impl InMemoryStore {
    pub fn new() -> (r: Self)
        ensures
            r.spec_messages().len() == 0,
    {
        InMemoryStore { messages: Vec::new() }
    }

    /// The page, newest first, of the stored messages that `sel` selects.
    fn scan_page(&self, sel: &Selector, p: Ghost<spec_fn(HistoryMessage) -> bool>, limit: u64, offset: u64) -> (r: Vec<HistoryMessage>)
        requires
            forall|m: HistoryMessage| #[trigger] p@(m) == sel.spec_selects(m),
        ensures
            r@ == page(newest_first_where(self.messages@, p@), offset as nat, limit as nat),
    {
        let ghost s = self.messages@;
        let n = self.messages.len();
        let mut out: Vec<HistoryMessage> = Vec::new();
        let mut skipped: u64 = 0;
        let mut taken: u64 = 0;
        let mut i: usize = n;
        while i > 0
            invariant
                s == self.messages@,
                n == s.len(),
                i <= n,
                forall|m: HistoryMessage| #[trigger] p@(m) == sel.spec_selects(m),
                skipped == min_of(newest_first_where(s.subrange(i as int, n as int), p@).len() as int, offset as int),
                taken == out@.len(),
                taken <= limit,
                out@ == page(newest_first_where(s.subrange(i as int, n as int), p@), offset as nat, limit as nat),
            decreases i,
        {
            let ghost t = newest_first_where(s.subrange(i as int, n as int), p@);
            proof {
                let u = s.subrange(i - 1, n as int);
                assert(u.drop_first() == s.subrange(i as int, n as int));
                assert(u[0] == s[i - 1]);
            }
            if sel.selects(&self.messages[i - 1]) {
                let ghost t2 = t + seq![s[i - 1]];
                proof {
                    assert(newest_first_where(s.subrange(i - 1, n as int), p@) == t2);
                }
                if skipped < offset {
                    skipped = skipped + 1;
                    proof {
                        assert(page(t2, offset as nat, limit as nat) =~= Seq::<HistoryMessage>::empty());
                        assert(out@ =~= Seq::<HistoryMessage>::empty());
                    }
                } else if taken < limit {
                    proof {
                        assert(page(t2, offset as nat, limit as nat) =~= page(t, offset as nat, limit as nat).push(s[i - 1]));
                    }
                    out.push(self.messages[i - 1].clone());
                    taken = taken + 1;
                } else {
                    proof {
                        assert(page(t2, offset as nat, limit as nat) =~= page(t, offset as nat, limit as nat));
                    }
                }
            } else {
                proof {
                    assert(newest_first_where(s.subrange(i - 1, n as int), p@) =~= t);
                }
            }
            i = i - 1;
        }
        proof {
            assert(s.subrange(0, n as int) == s);
        }
        out
    }

    /// The position of the first stored message with identifier `id`.
    fn position(&self, id: u128) -> (r: Option<usize>)
        ensures
            r is None <==> index_of_id(self.messages@, id) < 0,
            r matches Some(i) ==> i == index_of_id(self.messages@, id),
    {
        proof {
            lemma_index_of_id(self.messages@, id);
        }
        let mut i: usize = 0;
        while i < self.messages.len()
            invariant
                i <= self.messages@.len(),
                forall|j: int| 0 <= j < i ==> self.messages@[j].spec_id() != id,
                -1 <= index_of_id(self.messages@, id) < self.messages@.len(),
                index_of_id(self.messages@, id) >= 0 ==> self.messages@[index_of_id(self.messages@, id)].spec_id() == id,
                forall|j: int| 0 <= j < self.messages@.len() && (index_of_id(self.messages@, id) < 0 || j < index_of_id(self.messages@, id))
                    ==> self.messages@[j].spec_id() != id,
            decreases self.messages@.len() - i,
        {
            if self.messages[i].id == id {
                return Some(i);
            }
            i = i + 1;
        }
        None
    }
}

impl Memory for InMemoryStore {
    type MessageType = HistoryMessage;

    closed spec fn spec_messages(&self) -> Seq<HistoryMessage> {
        self.messages@
    }

    fn initialize(&mut self) -> (r: Result<(), MemoryError>) {
        Ok(())
    }

    fn add_messages(&mut self, messages: &[HistoryMessage]) -> (r: Result<(), MemoryError>) {
        let mut i: usize = 0;
        while i < messages.len()
            invariant
                i <= messages@.len(),
                forall|a: int, j: int| 0 <= a < i && 0 <= j < self.messages@.len()
                    ==> #[trigger] messages@[a].spec_id() != #[trigger] self.messages@[j].spec_id(),
                forall|a: int, b: int| 0 <= a < b < i
                    ==> #[trigger] messages@[a].spec_id() != #[trigger] messages@[b].spec_id(),
            decreases messages@.len() - i,
        {
            let id = messages[i].id;
            proof {
                lemma_index_of_id(self.messages@, id);
            }
            match self.position(id) {
                Some(p) => {
                    proof {
                        assert(messages@[i as int].spec_id() == self.messages@[p as int].spec_id());
                    }
                    return Err(MemoryError::ConflictError);
                },
                None => {},
            }
            let mut k: usize = 0;
            while k < i
                invariant
                    k <= i < messages@.len(),
                    id == messages@[i as int].spec_id(),
                    forall|a: int| 0 <= a < k ==> messages@[a].spec_id() != id,
                decreases i - k,
            {
                if messages[k].id == id {
                    proof {
                        assert(messages@[k as int].spec_id() == messages@[i as int].spec_id());
                    }
                    return Err(MemoryError::ConflictError);
                }
                k = k + 1;
            }
            i = i + 1;
        }
        let mut j: usize = 0;
        let ghost start = self.messages@;
        while j < messages.len()
            invariant
                j <= messages@.len(),
                self.messages@ == start + messages@.subrange(0, j as int),
            decreases messages@.len() - j,
        {
            let m = messages[j].clone();
            self.messages.push(m);
            proof {
                assert(messages@.subrange(0, j + 1) == messages@.subrange(0, j as int).push(messages@[j as int]));
            }
            j = j + 1;
        }
        proof {
            assert(messages@.subrange(0, messages@.len() as int) == messages@);
        }
        Ok(())
    }

    fn get_all(&self, user_id: u128, limit: u64, offset: u64) -> (r: Vec<HistoryMessage>) {
        let sel = Selector::Owner(user_id);
        let r = self.scan_page(&sel, Ghost(|m: HistoryMessage| m.spec_owner() == user_id), limit, offset);
        r
    }

    fn search(&self, message: &HistoryMessage, limit: u64, offset: u64) -> (r: Result<Vec<HistoryMessage>, MemoryError>) {
        let sel = Selector::Text(message.text_content());
        let r = self.scan_page(&sel, Ghost(|m: HistoryMessage| m.spec_text() == message.spec_text()), limit, offset);
        Ok(r)
    }

    fn update(&mut self, messages: &[HistoryMessage]) -> (r: Result<(), MemoryError>) {
        let mut i: usize = 0;
        while i < messages.len()
            invariant
                i <= messages@.len(),
                forall|a: int| 0 <= a < i ==> index_of_id(self.messages@, #[trigger] messages@[a].spec_id()) >= 0,
            decreases messages@.len() - i,
        {
            if self.position(messages[i].id).is_none() {
                proof {
                    assert(index_of_id(self.messages@, messages@[i as int].spec_id()) < 0);
                }
                return Err(MemoryError::NotFound);
            }
            i = i + 1;
        }
        let ghost start = self.messages@;
        let mut k: usize = 0;
        while k < messages.len()
            invariant
                k <= messages@.len(),
                self.messages@.len() == start.len(),
                forall|j: int| 0 <= j < start.len()
                    ==> #[trigger] self.messages@[j] == replaced(start[j], messages@.subrange(0, k as int)),
            decreases messages@.len() - k,
        {
            let ghost before = messages@.subrange(0, k as int);
            let ghost after = messages@.subrange(0, k + 1);
            proof {
                assert(after.drop_last() == before);
                assert(after.last() == messages@[k as int]);
            }
            let mut j: usize = 0;
            while j < self.messages.len()
                invariant
                    k < messages@.len(),
                    j <= self.messages@.len(),
                    self.messages@.len() == start.len(),
                    before == messages@.subrange(0, k as int),
                    after == messages@.subrange(0, k + 1),
                    after.drop_last() == before,
                    after.last() == messages@[k as int],
                    forall|jj: int| 0 <= jj < j ==> #[trigger] self.messages@[jj] == replaced(start[jj], after),
                    forall|jj: int| j <= jj < start.len() ==> #[trigger] self.messages@[jj] == replaced(start[jj], before),
                decreases self.messages@.len() - j,
            {
                proof {
                    lemma_replaced_keeps_id(start[j as int], before);
                }
                if self.messages[j].id == messages[k].id {
                    let m = messages[k].clone();
                    self.messages.set(j, m);
                }
                j = j + 1;
            }
            k = k + 1;
        }
        proof {
            assert(messages@.subrange(0, messages@.len() as int) == messages@);
            assert(self.messages@ =~= start.map_values(|m: HistoryMessage| replaced(m, messages@)));
        }
        Ok(())
    }

    fn delete(&mut self, message_ids: &[u128]) -> (r: Result<(), MemoryError>) {
        let mut out: Vec<HistoryMessage> = Vec::new();
        let mut i: usize = 0;
        while i < self.messages.len()
            invariant
                i <= self.messages@.len(),
                out@ == kept(self.messages@.subrange(0, i as int), |m: HistoryMessage| !message_ids@.contains(m.spec_id())),
            decreases self.messages@.len() - i,
        {
            proof {
                assert(self.messages@.subrange(0, i + 1).drop_last() == self.messages@.subrange(0, i as int));
            }
            if !listed(message_ids, self.messages[i].id) {
                out.push(self.messages[i].clone());
            }
            i = i + 1;
        }
        proof {
            assert(self.messages@.subrange(0, self.messages@.len() as int) == self.messages@);
        }
        self.messages = out;
        Ok(())
    }

    fn reset(&mut self, user_id: u128) -> (r: Result<(), MemoryError>) {
        let mut out: Vec<HistoryMessage> = Vec::new();
        let mut i: usize = 0;
        while i < self.messages.len()
            invariant
                i <= self.messages@.len(),
                out@ == kept(self.messages@.subrange(0, i as int), |m: HistoryMessage| m.spec_owner() != user_id),
            decreases self.messages@.len() - i,
        {
            proof {
                assert(self.messages@.subrange(0, i + 1).drop_last() == self.messages@.subrange(0, i as int));
            }
            if self.messages[i].owner != user_id {
                out.push(self.messages[i].clone());
            }
            i = i + 1;
        }
        proof {
            assert(self.messages@.subrange(0, self.messages@.len() as int) == self.messages@);
        }
        self.messages = out;
        Ok(())
    }

    fn get_one(&self, message_id: u128) -> (r: Option<HistoryMessage>) {
        proof {
            lemma_index_of_id(self.messages@, message_id);
        }
        match self.position(message_id) {
            Some(i) => Some(self.messages[i].clone()),
            None => None,
        }
    }
}

} // verus!
