//! The input of signing and verification: a payload under a
//! domain-separation tag.

use vstd::prelude::*;
use vstd::slice::slice_to_vec;

verus! {

/// A payload together with the domain-separation tag under which it is
/// signed. The tag is part of what is signed even when it is empty.
pub struct Message {
    context: Vec<u8>,
    payload: Vec<u8>,
}

/// What a message is to a contract: its tag and its payload.
pub ghost struct MessageView {
    pub context: Seq<u8>,
    pub payload: Seq<u8>,
}

impl View for Message {
    type V = MessageView;

    closed spec fn view(&self) -> MessageView {
        MessageView { context: self.context@, payload: self.payload@ }
    }
}

/// The message that the function table signs and verifies for a payload:
/// the payload under the empty tag.
pub open spec fn exposed_message(payload: Seq<u8>) -> MessageView {
    MessageView { context: Seq::empty(), payload }
}

impl Message {
    /// The message with the given tag and payload.
    pub fn new(context: &[u8], payload: &[u8]) -> (message: Self)
        ensures
            message@ == (MessageView { context: context@, payload: payload@ }),
    {
        Message { context: slice_to_vec(context), payload: slice_to_vec(payload) }
    }

    /// The message that holds the payload under the empty tag.
    pub fn untagged(payload: &[u8]) -> (message: Self)
        ensures
            message@ == exposed_message(payload@),
    {
        let message = Message { context: Vec::new(), payload: slice_to_vec(payload) };
        assert(message.context@ =~= Seq::<u8>::empty());
        message
    }

    /// The domain-separation tag.
    pub fn context(&self) -> (context: &[u8])
        ensures
            context@ == self@.context,
    {
        self.context.as_slice()
    }

    /// The payload.
    pub fn payload(&self) -> (payload: &[u8])
        ensures
            payload@ == self@.payload,
    {
        self.payload.as_slice()
    }
}

/// Messages are told apart by tag and by payload: the same payload under
/// two tags gives two signing inputs, and so do two payloads under one tag.
pub proof fn lemma_message_inputs_differ(a: MessageView, b: MessageView)
    requires
        a.context != b.context || a.payload != b.payload,
    ensures
        a != b,
{
}

/// The function table hands the primitive the same message for the same
/// payload, and different messages for different payloads.
pub proof fn lemma_exposed_message_injective(p: Seq<u8>, q: Seq<u8>)
    ensures
        exposed_message(p) == exposed_message(q) <==> p == q,
{
}

/// Changing any one byte of a payload changes the message that is signed or
/// verified for it.
pub proof fn lemma_changed_byte_changes_message(payload: Seq<u8>, position: int, byte: u8)
    requires
        0 <= position < payload.len(),
        byte != payload[position],
    ensures
        exposed_message(payload.update(position, byte)) != exposed_message(payload),
{
    assert(payload.update(position, byte)[position] != payload[position]);
}

} // verus!
