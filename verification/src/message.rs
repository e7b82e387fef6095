//! The messages that nodes exchange.

use vstd::prelude::*;

verus! {

/// The kind of a message.
#[allow(non_camel_case_types)]
#[derive(Clone, Copy, Debug, PartialEq, Eq, Structural)]
pub enum MsgType {
    /// A key-generation message.
    KEYGEN,
    /// A coordination message.
    CO,
}

/// A message from one node to another. Its fields are fixed when it is made.
#[derive(Clone, Debug)]
pub struct Message {
    sender: String,
    receiver: String,
    msg_type: MsgType,
}

/// What a message holds.
pub struct MessageView {
    pub sender: Seq<char>,
    pub receiver: Seq<char>,
    pub msg_type: MsgType,
}

impl View for Message {
    type V = MessageView;

    closed spec fn view(&self) -> MessageView {
        MessageView { sender: self.sender@, receiver: self.receiver@, msg_type: self.msg_type }
    }
}

impl Message {
    /// A message from `sender` to `receiver` of the given kind.
    pub fn new(sender: String, receiver: String, msg_type: MsgType) -> (msg: Message)
        ensures
            msg@ == (MessageView { sender: sender@, receiver: receiver@, msg_type }),
    {
        Message { sender, receiver, msg_type }
    }

    /// The node that sends the message.
    pub fn sender(&self) -> (sender: &String)
        ensures
            sender@ == self@.sender,
    {
        &self.sender
    }

    /// The node that the message is for.
    pub fn receiver(&self) -> (receiver: &String)
        ensures
            receiver@ == self@.receiver,
    {
        &self.receiver
    }

    /// The kind of the message.
    pub fn msg_type(&self) -> (msg_type: MsgType)
        ensures
            msg_type == self@.msg_type,
    {
        self.msg_type
    }
}

/// A message tagged with the numeric identity of the node that wrote it.
#[derive(Clone, Debug)]
pub struct Idmsg {
    identity: u32,
    text: String,
}

impl Idmsg {
    /// The message `text` from the node numbered `identity`.
    pub fn new(identity: u32, text: String) -> (msg: Idmsg)
        ensures
            msg.identity_spec() == identity,
            msg.text_spec() == text@,
    {
        Idmsg { identity, text }
    }

    /// The number of the node that wrote the message.
    pub closed spec fn identity_spec(&self) -> u32 {
        self.identity
    }

    /// The text of the message.
    pub closed spec fn text_spec(&self) -> Seq<char> {
        self.text@
    }

    /// The number of the node that wrote the message.
    pub fn identity(&self) -> (identity: u32)
        ensures
            identity == self.identity_spec(),
    {
        self.identity
    }

    /// The text of the message.
    pub fn text(&self) -> (text: &String)
        ensures
            text@ == self.text_spec(),
    {
        &self.text
    }
}

} // verus!
