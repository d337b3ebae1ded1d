//! The wire message model: control codes, endpoints, members, groups and
//! messages, each with the mathematical view that the contracts speak of.

use vstd::prelude::*;
use crate::clock::{timestamp_in_range, unix_now};

verus! {

/// The discriminator of a message: it selects what the message means and
/// which handler processes it.
#[derive(Clone, Copy, Debug, PartialEq, Eq, Structural)]
pub enum ControlCode {
    SendMessage,
    JoinGroup,
    LeaveGroup,
    ExitServer,
    Error,
}

/// A network endpoint in its standard textual `host:port` form. Two endpoints
/// are the same participant exactly when their texts are equal.
#[derive(Clone, Debug)]
pub struct Endpoint {
    text: String,
}

impl View for Endpoint {
    type V = Seq<char>;

    closed spec fn view(&self) -> Seq<char> {
        self.text@
    }
}

impl Endpoint {
    /// An endpoint from its textual form.
    pub fn new(text: String) -> (endpoint: Endpoint)
        ensures
            endpoint@ == text@,
    {
        Endpoint { text }
    }

    /// The textual form.
    pub fn as_text(&self) -> (text: &String)
        ensures
            text@ == self@,
    {
        &self.text
    }

    /// Whether two endpoints name the same participant.
    pub fn same(&self, other: &Endpoint) -> (same: bool)
        ensures
            same == (self@ == other@),
    {
        self.text == other.text
    }

    /// A copy with the same text.
    pub fn duplicate(&self) -> (copy: Endpoint)
        ensures
            copy@ == self@,
    {
        Endpoint { text: self.text.clone() }
    }
}

/// What a member is: a display name and the endpoint it is reached at.
pub struct MemberView {
    pub nickname: Seq<char>,
    pub address: Seq<char>,
}

/// A participant. Nicknames are neither unique nor verified: the endpoint is
/// the identity.
#[derive(Clone, Debug)]
pub struct Member {
    nickname: String,
    address: Endpoint,
}

impl View for Member {
    type V = MemberView;

    closed spec fn view(&self) -> MemberView {
        MemberView { nickname: self.nickname@, address: self.address@ }
    }
}

impl Member {
    pub fn new(nickname: String, address: Endpoint) -> (member: Member)
        ensures
            member@ == (MemberView { nickname: nickname@, address: address@ }),
    {
        Member { nickname, address }
    }

    pub fn get_nickname(&self) -> (nickname: &String)
        ensures
            nickname@ == self@.nickname,
    {
        &self.nickname
    }

    pub fn set_nickname(&mut self, nickname: String)
        ensures
            final(self)@ == (MemberView { nickname: nickname@, ..old(self)@ }),
    {
        self.nickname = nickname;
    }

    pub fn get_address(&self) -> (address: &Endpoint)
        ensures
            address@ == self@.address,
    {
        &self.address
    }

    pub fn set_address(&mut self, address: Endpoint)
        ensures
            final(self)@ == (MemberView { address: address@, ..old(self)@ }),
    {
        self.address = address;
    }

    /// A copy with the same nickname and endpoint.
    pub fn duplicate(&self) -> (copy: Member)
        ensures
            copy@ == self@,
    {
        Member { nickname: self.nickname.clone(), address: self.address.duplicate() }
    }
}

/// What a group is: its name and a number that no rule reads.
pub struct GroupView {
    pub name: Seq<char>,
    pub id: u64,
}

/// A named broadcast scope.
#[derive(Clone, Debug)]
pub struct Group {
    name: String,
    id: u64,
}

impl View for Group {
    type V = GroupView;

    closed spec fn view(&self) -> GroupView {
        GroupView { name: self.name@, id: self.id }
    }
}

impl Group {
    pub fn new(name: String, id: u64) -> (group: Group)
        ensures
            group@ == (GroupView { name: name@, id }),
    {
        Group { name, id }
    }

    pub fn get_name(&self) -> (name: &String)
        ensures
            name@ == self@.name,
    {
        &self.name
    }

    pub fn set_name(&mut self, name: String)
        ensures
            final(self)@ == (GroupView { name: name@, ..old(self)@ }),
    {
        self.name = name;
    }

    pub fn get_id(&self) -> (id: u64)
        ensures
            id == self@.id,
    {
        self.id
    }

    pub fn set_id(&mut self, id: u64)
        ensures
            final(self)@ == (GroupView { id, ..old(self)@ }),
    {
        self.id = id;
    }

    /// A copy with the same name and id.
    pub fn duplicate(&self) -> (copy: Group)
        ensures
            copy@ == self@,
    {
        Group { name: self.name.clone(), id: self.id }
    }
}

/// What a message is: the sole unit of transmission.
pub struct MessageView {
    pub code: ControlCode,
    pub timestamp: i64,
    pub group: GroupView,
    pub sender: MemberView,
    pub text: Seq<char>,
}

impl MessageView {
    /// The message as the server relays it: the sender's address replaced by
    /// the endpoint the datagram really came from, and the time set anew.
    pub open spec fn stamped(self, source: Seq<char>, now: i64) -> MessageView {
        MessageView {
            timestamp: now,
            sender: MemberView { address: source, ..self.sender },
            ..self
        }
    }
}

/// A chat message.
#[derive(Clone, Debug)]
pub struct Message {
    code: ControlCode,
    timestamp: i64,
    group: Group,
    sender: Member,
    msg: String,
}

impl View for Message {
    type V = MessageView;

    closed spec fn view(&self) -> MessageView {
        MessageView {
            code: self.code,
            timestamp: self.timestamp,
            group: self.group@,
            sender: self.sender@,
            text: self.msg@,
        }
    }
}

impl Message {
    pub fn new(code: ControlCode, timestamp: i64, group: Group, sender: Member, msg: String) -> (message: Message)
        ensures
            message@ == (MessageView {
                code,
                timestamp,
                group: group@,
                sender: sender@,
                text: msg@,
            }),
    {
        Message { code, timestamp, group, sender, msg }
    }

    /// A message stamped with the current wall-clock time. Every field but
    /// the timestamp is as given; the timestamp is what the clock said, and
    /// so names an instant that can be shown.
    pub fn new_default(code: ControlCode, group: Group, sender: Member, msg: String) -> (message: Message)
        ensures
            timestamp_in_range(message@.timestamp),
            message@ == (MessageView {
                code,
                timestamp: message@.timestamp,
                group: group@,
                sender: sender@,
                text: msg@,
            }),
    {
        let now: i64 = unix_now();
        Message::new(code, now, group, sender, msg)
    }

    /// Sets the timestamp to the current wall-clock time and leaves the rest.
    /// Whatever the timestamp was before, even one that named no instant, the
    /// new one is the clock's and so names an instant that can be shown.
    pub fn update_timestamp(&mut self)
        ensures
            final(self)@ == (MessageView { timestamp: final(self)@.timestamp, ..old(self)@ }),
            timestamp_in_range(final(self)@.timestamp),
    {
        let now: i64 = unix_now();
        self.set_timestamp(now);
    }

    /// Replaces the sender's endpoint and leaves the nickname.
    pub fn update_sender_address(&mut self, address: Endpoint)
        ensures
            final(self)@ == (MessageView {
                sender: MemberView { address: address@, ..old(self)@.sender },
                ..old(self)@
            }),
    {
        self.sender.set_address(address);
    }

    pub fn set_timestamp(&mut self, timestamp: i64)
        ensures
            final(self)@ == (MessageView { timestamp, ..old(self)@ }),
    {
        self.timestamp = timestamp;
    }

    pub fn get_timestamp(&self) -> (timestamp: i64)
        ensures
            timestamp == self@.timestamp,
    {
        self.timestamp
    }

    pub fn set_code(&mut self, code: ControlCode)
        ensures
            final(self)@ == (MessageView { code, ..old(self)@ }),
    {
        self.code = code;
    }

    pub fn get_code(&self) -> (code: &ControlCode)
        ensures
            *code == self@.code,
    {
        &self.code
    }

    pub fn set_message(&mut self, msg: String)
        ensures
            final(self)@ == (MessageView { text: msg@, ..old(self)@ }),
    {
        self.msg = msg;
    }

    pub fn get_message(&self) -> (msg: &String)
        ensures
            msg@ == self@.text,
    {
        &self.msg
    }

    pub fn get_sender(&self) -> (sender: &Member)
        ensures
            sender@ == self@.sender,
    {
        &self.sender
    }

    pub fn get_group(&self) -> (group: &Group)
        ensures
            group@ == self@.group,
    {
        &self.group
    }

    /// A copy equal in every field.
    pub fn duplicate(&self) -> (copy: Message)
        ensures
            copy@ == self@,
    {
        Message {
            code: self.code,
            timestamp: self.timestamp,
            group: self.group.duplicate(),
            sender: self.sender.duplicate(),
            msg: self.msg.clone(),
        }
    }
}

} // verus!
