//! The decisions of one chat turn: who may chat or regenerate, what the turn
//! writes into the conversation, and which function calls reach the queue.
//! Loading, the LLM call and persisting are done around these by the caller.

use vstd::prelude::*;
use crate::conversation::{last_assistant_index, regenerated, ConversationError, RoleplayMemory};
use crate::executor::FunctionCallRequest;
use crate::message::{HistoryMessage, MessageRole, MessageType};
use crate::queue::ExecutionQueue;
use crate::registry::{position_of, FunctionRegistry};

verus! {

/// What a lookup did not find.
#[derive(Debug, Clone, Copy, PartialEq, Eq, Structural)]
pub enum Missing {
    Conversation,
    Character,
}

/// The errors of the synchronous chat and regenerate paths.
#[derive(Debug, Clone, Copy, PartialEq, Eq, Structural)]
pub enum RuntimeError {
    NotFound(Missing),
    Forbidden,
    BadRequest,
    UpstreamError,
    QueueSaturated,
    UnknownFunction,
}

/// The body of a chat request: the user's message.
#[derive(Debug, Clone)]
pub struct ChatRequest {
    pub message: String,
}

/// The verdict on a chat request, in the order the checks are made: the
/// conversation must exist, the caller must own it or it must be public,
/// and its character must exist.
pub open spec fn chat_verdict(conversation: Option<RoleplayMemory>, caller: u128, character_found: bool) -> Result<(), RuntimeError> {
    match conversation {
        None => Err(RuntimeError::NotFound(Missing::Conversation)),
        Some(c) => if !c.spec_can_access(caller) {
            Err(RuntimeError::Forbidden)
        } else if !character_found {
            Err(RuntimeError::NotFound(Missing::Character))
        } else {
            Ok(())
        },
    }
}

/// The verdict on a regenerate request: as for a chat, and the history must
/// not be empty, which is checked before the character.
pub open spec fn regenerate_verdict(conversation: Option<RoleplayMemory>, caller: u128, character_found: bool) -> Result<(), RuntimeError> {
    match conversation {
        None => Err(RuntimeError::NotFound(Missing::Conversation)),
        Some(c) => if !c.spec_can_access(caller) {
            Err(RuntimeError::Forbidden)
        } else if c.history@.len() == 0 {
            Err(RuntimeError::BadRequest)
        } else if !character_found {
            Err(RuntimeError::NotFound(Missing::Character))
        } else {
            Ok(())
        },
    }
}

/// Validates a chat request on a loaded conversation (`None` where none has
/// the requested identifier) by `caller`.
pub fn check_chat(conversation: Option<&RoleplayMemory>, caller: u128, character_found: bool) -> (r: Result<(), RuntimeError>)
    ensures
        r == chat_verdict(
            match conversation { Some(c) => Some(*c), None => None },
            caller,
            character_found,
        ),
{
    match conversation {
        None => Err(RuntimeError::NotFound(Missing::Conversation)),
        Some(c) => {
            if !c.can_access(caller) {
                Err(RuntimeError::Forbidden)
            } else if !character_found {
                Err(RuntimeError::NotFound(Missing::Character))
            } else {
                Ok(())
            }
        },
    }
}

/// Validates a regenerate request on a loaded conversation by `caller`.
pub fn check_regenerate(conversation: Option<&RoleplayMemory>, caller: u128, character_found: bool) -> (r: Result<(), RuntimeError>)
    ensures
        r == regenerate_verdict(
            match conversation { Some(c) => Some(*c), None => None },
            caller,
            character_found,
        ),
{
    match conversation {
        None => Err(RuntimeError::NotFound(Missing::Conversation)),
        Some(c) => {
            if !c.can_access(caller) {
                Err(RuntimeError::Forbidden)
            } else if c.history.len() == 0 {
                Err(RuntimeError::BadRequest)
            } else if !character_found {
                Err(RuntimeError::NotFound(Missing::Character))
            } else {
                Ok(())
            }
        },
    }
}

/// The user's turn: a text message from `caller` to the conversation's
/// character, with the request's text.
pub fn new_user_message(request: ChatRequest, id: u128, caller: u128, conversation: &RoleplayMemory, now: i64) -> (r: HistoryMessage)
    ensures
        r.id == id,
        r.role == MessageRole::User,
        r.content_type is Text,
        r.owner == caller,
        r.character_id == conversation.character,
        r.content@ == request.message@,
        r.created_at == now,
{
    HistoryMessage {
        id,
        role: MessageRole::User,
        content_type: MessageType::Text,
        owner: caller,
        character_id: conversation.character,
        content: request.message,
        created_at: now,
    }
}

/// What submitting one call gives: an unregistered name is refused before
/// the queue is looked at; a full queue reports saturation.
pub open spec fn submission_result(names: Seq<Seq<char>>, queued: nat, capacity: nat, call: FunctionCallRequest) -> Result<(), RuntimeError> {
    if position_of(names, call.function_name@) < 0 {
        Err(RuntimeError::UnknownFunction)
    } else if queued >= capacity {
        Err(RuntimeError::QueueSaturated)
    } else {
        Ok(())
    }
}

/// The queue after submitting calls in order.
pub open spec fn queue_after(names: Seq<Seq<char>>, capacity: nat, q: Seq<FunctionCallRequest>, calls: Seq<FunctionCallRequest>) -> Seq<FunctionCallRequest>
    decreases calls.len(),
{
    if calls.len() == 0 {
        q
    } else {
        let next = if submission_result(names, q.len(), capacity, calls[0]) is Ok { q.push(calls[0]) } else { q };
        queue_after(names, capacity, next, calls.drop_first())
    }
}

/// The result of each submission of calls made in order.
pub open spec fn results_of(names: Seq<Seq<char>>, capacity: nat, q: Seq<FunctionCallRequest>, calls: Seq<FunctionCallRequest>) -> Seq<Result<(), RuntimeError>>
    decreases calls.len(),
{
    if calls.len() == 0 {
        Seq::empty()
    } else {
        let res = submission_result(names, q.len(), capacity, calls[0]);
        let next = if res is Ok { q.push(calls[0]) } else { q };
        seq![res] + results_of(names, capacity, next, calls.drop_first())
    }
}

/// Submits one function call: it is enqueued where its name is registered
/// and the queue has room; otherwise the queue is unchanged.
pub fn submit_function_call(registry: &FunctionRegistry, queue: &mut ExecutionQueue, call: FunctionCallRequest) -> (r: Result<(), RuntimeError>)
    requires
        old(queue).wf(),
    ensures
        final(queue).wf(),
        final(queue).spec_capacity() == old(queue).spec_capacity(),
        r == submission_result(registry@, old(queue)@.len(), old(queue).spec_capacity(), call),
        r is Ok ==> final(queue)@ == old(queue)@.push(call),
        r is Err ==> final(queue)@ == old(queue)@,
{
    match registry.lookup(&call.function_name) {
        None => Err(RuntimeError::UnknownFunction),
        Some(_) => match queue.try_enqueue(call) {
            Ok(()) => Ok(()),
            Err(_) => Err(RuntimeError::QueueSaturated),
        },
    }
}

/// Ends a chat turn: the user's message and the reply are appended, in that
/// order, and the function calls the reply asked for are submitted in order.
/// A call that cannot be submitted does not undo the reply; each call's
/// result is returned at its position.
pub fn complete_chat_turn(
    conversation: &mut RoleplayMemory,
    registry: &FunctionRegistry,
    queue: &mut ExecutionQueue,
    user_message: HistoryMessage,
    reply: HistoryMessage,
    calls: Vec<FunctionCallRequest>,
    now: u64,
) -> (r: Vec<Result<(), RuntimeError>>)
    requires
        old(queue).wf(),
    ensures
        final(conversation).history@ == old(conversation).history@.push(user_message).push(reply),
        final(conversation).updated_at == now,
        final(conversation).id == old(conversation).id,
        final(conversation).public == old(conversation).public,
        final(conversation).owner == old(conversation).owner,
        final(conversation).character == old(conversation).character,
        final(conversation).created_at == old(conversation).created_at,
        final(queue).wf(),
        final(queue).spec_capacity() == old(queue).spec_capacity(),
        final(queue)@ == queue_after(registry@, old(queue).spec_capacity(), old(queue)@, calls@),
        r@ == results_of(registry@, old(queue).spec_capacity(), old(queue)@, calls@),
{
    let ghost names = registry@;
    let ghost cap = queue.spec_capacity();
    let mut results: Vec<Result<(), RuntimeError>> = Vec::new();
    let mut rest = calls;
    let ghost all = rest@;
    let n: usize = rest.len();
    let mut i: usize = 0;
    while rest.len() > 0
        invariant
            queue.wf(),
            queue.spec_capacity() == cap,
            cap == old(queue).spec_capacity(),
            names == registry@,
            all == calls@,
            all.len() == n,
            i <= n,
            rest@ == all.subrange(i as int, n as int),
            queue_after(names, cap, old(queue)@, all) == queue_after(names, cap, queue@, rest@),
            results_of(names, cap, old(queue)@, all) == results@ + results_of(names, cap, queue@, rest@),
        decreases rest@.len(),
    {
        let call = rest.remove(0);
        proof {
            assert(call == all[i as int]);
            assert(rest@ =~= all.subrange(i + 1, n as int));
            assert(rest@ == all.subrange(i as int, n as int).drop_first());
        }
        let res = submit_function_call(registry, queue, call);
        results.push(res);
        proof {
            assert(results@ + results_of(names, cap, queue@, rest@)
                =~= results@.drop_last() + (seq![res] + results_of(names, cap, queue@, rest@)));
        }
        i = i + 1;
    }
    proof {
        assert(results@ + Seq::<Result<(), RuntimeError>>::empty() =~= results@);
    }
    conversation.append_messages(vec![user_message, reply], now);
    proof {
        assert(old(conversation).history@ + seq![user_message, reply]
            =~= old(conversation).history@.push(user_message).push(reply));
    }
    results
}

/// Ends a regenerate turn: the most recent assistant message is replaced by
/// the new reply. Where there is none, the request was bad and nothing
/// changes.
pub fn complete_regeneration(conversation: &mut RoleplayMemory, reply: HistoryMessage, now: u64) -> (r: Result<(), RuntimeError>)
    ensures
        r is Err <==> last_assistant_index(old(conversation).history@) < 0,
        r is Err ==> r == Err::<(), RuntimeError>(RuntimeError::BadRequest) && *final(conversation) == *old(conversation),
        r is Ok ==> final(conversation).history@ == regenerated(old(conversation).history@, reply)
            && final(conversation).updated_at == now,
        final(conversation).history@.len() == old(conversation).history@.len(),
        final(conversation).id == old(conversation).id,
        final(conversation).owner == old(conversation).owner,
        final(conversation).character == old(conversation).character,
{
    match conversation.regenerate_last_message(reply, now) {
        Ok(()) => Ok(()),
        Err(ConversationError::NothingToRegenerate) => Err(RuntimeError::BadRequest),
    }
}

} // verus!
