//! The client's side: who the client is, and what its three background
//! stages decide. The receive stage classifies what the socket gave, the
//! render stage turns messages into display lines, and the send stage turns
//! what the user did into the next datagram.

use vstd::prelude::*;
use vstd::string::StringExecFns;
use crate::clock::{local_time_text, timestamp_in_range};
use crate::message::{ControlCode, Endpoint, Group, GroupView, Member, MemberView, Message, MessageView};

verus! {

/// What an event on one of the client's queues is about.
#[derive(Clone, Copy, Debug, PartialEq, Eq, Structural)]
pub enum ClientCode {
    SendMessage,
    ReceiveMessage,
    ClientShutdown,
}

/// What an event on one of the client's queues is.
pub struct InternalMessageView {
    pub code: ClientCode,
    pub text: Seq<char>,
}

/// An event on one of the client's queues: a tag and a text. The shutdown
/// signal travels through the same queue as the work, so it is seen after
/// everything submitted before it.
#[derive(Clone, Debug)]
pub struct InternalMessage {
    code: ClientCode,
    msg: String,
}

impl View for InternalMessage {
    type V = InternalMessageView;

    closed spec fn view(&self) -> InternalMessageView {
        InternalMessageView { code: self.code, text: self.msg@ }
    }
}

impl InternalMessage {
    pub fn new(code: ClientCode, msg: String) -> (event: InternalMessage)
        ensures
            event@ == (InternalMessageView { code, text: msg@ }),
    {
        InternalMessage { code, msg }
    }

    pub fn get_code(&self) -> (code: &ClientCode)
        ensures
            *code == self@.code,
    {
        &self.code
    }

    pub fn get_message(&self) -> (msg: &String)
        ensures
            msg@ == self@.text,
    {
        &self.msg
    }
}

/// What a client is: its nickname, the group it last asked to join (empty
/// before the first request) and the endpoint it sends from.
pub struct ClientView {
    pub nickname: Seq<char>,
    pub group: Seq<char>,
    pub address: Seq<char>,
}

/// The client's identity.
#[derive(Debug)]
pub struct Client {
    nickname: String,
    group: String,
    address: Endpoint,
}

impl View for Client {
    type V = ClientView;

    closed spec fn view(&self) -> ClientView {
        ClientView { nickname: self.nickname@, group: self.group@, address: self.address@ }
    }
}

impl Client {
    /// A client that has not asked to join any group yet.
    pub fn new(nickname: String, address: Endpoint) -> (client: Client)
        ensures
            client@ == (ClientView { nickname: nickname@, group: Seq::empty(), address: address@ }),
    {
        Client { nickname, group: String::new(), address }
    }

    pub fn current_group(&self) -> (group: &String)
        ensures
            group@ == self@.group,
    {
        &self.group
    }

    /// The current group as a message carries it. Its id is always 0.
    pub fn get_group(&self) -> (group: Group)
        ensures
            group@ == (GroupView { name: self@.group, id: 0 }),
    {
        Group::new(self.group.clone(), 0)
    }

    /// The client as the sender of a message.
    pub fn get_member(&self) -> (member: Member)
        ensures
            member@ == (MemberView { nickname: self@.nickname, address: self@.address }),
    {
        Member::new(self.nickname.clone(), self.address.duplicate())
    }

    /// Makes the request to join `group` and records the group as current.
    /// The request names the group in its text; its group field still holds
    /// the group that was current before. Its timestamp is the clock's.
    pub fn try_login(&mut self, group: &str) -> (request: Message)
        ensures
            timestamp_in_range(request@.timestamp),
            final(self)@ == (ClientView { group: group@, ..old(self)@ }),
            request@ == (MessageView {
                code: ControlCode::JoinGroup,
                timestamp: request@.timestamp,
                group: GroupView { name: old(self)@.group, id: 0 },
                sender: MemberView { nickname: old(self)@.nickname, address: old(self)@.address },
                text: group@,
            }),
    {
        let g = self.get_group();
        let m = self.get_member();
        let request = Message::new_default(ControlCode::JoinGroup, g, m, String::from_str(group));
        self.group = String::from_str(group);
        request
    }
}

/// What one receive on the socket gave.
#[derive(Debug)]
pub enum Arrival {
    /// The socket is closed or failed for good.
    Failed,
    /// A datagram that is not text, or not a message.
    Garbled,
    /// A datagram that decodes to a message, as the text it came as.
    Datagram(String),
}

/// What the receive stage does with an arrival.
#[derive(Debug)]
pub enum ReceiverStep {
    /// End the stage.
    Stop,
    /// Drop the datagram and receive the next.
    Skip,
    /// Put the event on the render queue and receive the next.
    Forward(InternalMessage),
}

/// Decides what the receive stage does with one arrival. Only a failed
/// socket ends the stage: a datagram that does not decode is dropped and the
/// stage goes on. No message ends it either, whatever its code: a farewell
/// that arrives is forwarded like any other message and shown as a line.
pub fn forward_udp(arrival: Arrival) -> (step: ReceiverStep)
    ensures
        match arrival {
            Arrival::Failed => step is Stop,
            Arrival::Garbled => step is Skip,
            Arrival::Datagram(raw) => step matches ReceiverStep::Forward(event) && event@ == (
                InternalMessageView { code: ClientCode::ReceiveMessage, text: raw@ }
            ),
        },
{
    match arrival {
        Arrival::Failed => ReceiverStep::Stop,
        Arrival::Garbled => ReceiverStep::Skip,
        Arrival::Datagram(raw) => ReceiverStep::Forward(
            InternalMessage::new(ClientCode::ReceiveMessage, raw),
        ),
    }
}

/// The display line of a message, given its time rendered as text.
pub open spec fn display_line(message: MessageView, time: Seq<char>) -> Seq<char> {
    let who = message.sender.nickname + "@"@ + message.sender.address;
    match message.code {
        ControlCode::Error => "server error: "@ + message.text,
        ControlCode::ExitServer => "👋 "@ + who + " has exit the server -- "@ + time,
        ControlCode::JoinGroup => "😊 "@ + who + " has joined the group -- "@ + time,
        ControlCode::LeaveGroup => "👋 "@ + who + " has left the group -- "@ + time,
        ControlCode::SendMessage => "~> "@ + who + " -- "@ + time + " <~\n"@ + message.text,
    }
}

/// Renders a message as a display line, with `time` as the text of its time.
pub fn render_line(message: &Message, time: &str) -> (line: String)
    ensures
        line@ == display_line(message@, time@),
{
    let from = message.get_sender();
    let who = from.get_nickname().clone().concat("@").concat(from.get_address().as_text().as_str());
    let text = message.get_message().as_str();
    match message.get_code() {
        ControlCode::Error => String::from_str("server error: ").concat(text),
        ControlCode::ExitServer => String::from_str("👋 ").concat(who.as_str()).concat(
            " has exit the server -- ",
        ).concat(time),
        ControlCode::JoinGroup => String::from_str("😊 ").concat(who.as_str()).concat(
            " has joined the group -- ",
        ).concat(time),
        ControlCode::LeaveGroup => String::from_str("👋 ").concat(who.as_str()).concat(
            " has left the group -- ",
        ).concat(time),
        ControlCode::SendMessage => String::from_str("~> ").concat(who.as_str()).concat(" -- ").concat(
            time,
        ).concat(" <~\n").concat(text),
    }
}

/// Renders a message as a display line with its time in the machine's local
/// time zone. A message whose timestamp names no representable instant gives
/// no line, whatever its code.
pub fn message_prerender(message: &Message) -> (line: Option<String>)
    ensures
        line.is_some() == timestamp_in_range(message@.timestamp),
        line matches Some(l) ==> exists|time: Seq<char>| l@ == #[trigger] display_line(message@, time),
{
    match local_time_text(message.get_timestamp()) {
        Some(time) => {
            let line = render_line(message, time.as_str());
            assert(line@ == display_line(message@, time@));
            Some(line)
        },
        None => None,
    }
}

/// What the render stage does with an event.
#[derive(Debug)]
pub enum RenderStep {
    /// End the stage.
    Stop,
    /// Show nothing for this event.
    Skip,
    /// Hand the line to the window.
    Show(String),
}

/// Decides what the render stage does with one event from its queue.
/// `decoded` is the message that the event's text decodes to, if it does.
/// The shutdown signal ends the stage. A received text is shown as its
/// display line; one that does not decode, or whose timestamp names no
/// representable instant, is dropped, and so is any other event.
pub fn forward_prerender(event: &InternalMessage, decoded: Option<&Message>) -> (step: RenderStep)
    ensures
        (step is Stop) == (event@.code == ClientCode::ClientShutdown),
        (step is Show) == (event@.code == ClientCode::ReceiveMessage && decoded is Some
            && timestamp_in_range(decoded.unwrap()@.timestamp)),
        (step is Skip) == !(step is Stop || step is Show),
        step matches RenderStep::Show(l) ==> exists|time: Seq<char>|
            l@ == #[trigger] display_line(decoded.unwrap()@, time),
{
    match event.get_code() {
        ClientCode::ReceiveMessage => match decoded {
            Some(m) => match message_prerender(m) {
                Some(line) => RenderStep::Show(line),
                None => RenderStep::Skip,
            },
            None => RenderStep::Skip,
        },
        ClientCode::ClientShutdown => RenderStep::Stop,
        ClientCode::SendMessage => RenderStep::Skip,
    }
}

/// What the send stage does after an event.
#[derive(Clone, Copy, Debug, PartialEq, Eq, Structural)]
pub enum SenderStep {
    /// Send nothing and take the next event.
    Ignore,
    /// Send the template as it now is and take the next event.
    Transmit,
    /// Send the template as it now is, the farewell, and end the stage.
    TransmitAndStop,
}

/// The send stage's decision: the template after the event, and the step.
/// Submitted text goes out as a chat line; the shutdown signal goes out as
/// the farewell; any other event leaves the template alone.
pub open spec fn sender_step(template: MessageView, event: InternalMessageView) -> (MessageView, SenderStep) {
    match event.code {
        ClientCode::ClientShutdown => (
            MessageView { code: ControlCode::ExitServer, text: event.text, ..template },
            SenderStep::TransmitAndStop,
        ),
        ClientCode::SendMessage => (
            MessageView { code: ControlCode::SendMessage, text: event.text, ..template },
            SenderStep::Transmit,
        ),
        ClientCode::ReceiveMessage => (template, SenderStep::Ignore),
    }
}

/// The template that the send stage rewrites for each event: a chat line
/// with no text, from `member` in `group`, stamped by the clock.
pub fn outbound_template(member: &Member, group: &Group) -> (template: Message)
    ensures
        timestamp_in_range(template@.timestamp),
        template@ == (MessageView {
            code: ControlCode::SendMessage,
            timestamp: template@.timestamp,
            group: group@,
            sender: member@,
            text: Seq::empty(),
        }),
{
    Message::new_default(ControlCode::SendMessage, group.duplicate(), member.duplicate(), String::new())
}

/// Handles one event of the send stage: rewrites the template's code and
/// text and says whether to send it and whether to go on.
pub fn forward_client_message(template: &mut Message, event: &InternalMessage) -> (step: SenderStep)
    ensures
        (final(template)@, step) == sender_step(old(template)@, event@),
{
    match event.get_code() {
        ClientCode::ClientShutdown => template.set_code(ControlCode::ExitServer),
        ClientCode::SendMessage => template.set_code(ControlCode::SendMessage),
        ClientCode::ReceiveMessage => {
            return SenderStep::Ignore;
        },
    }
    template.set_message(event.get_message().clone());
    match event.get_code() {
        ClientCode::ClientShutdown => SenderStep::TransmitAndStop,
        _ => SenderStep::Transmit,
    }
}

/// The messages that the send stage transmits, in order, when it is given
/// `events` one after the other: it stops after the first farewell.
pub open spec fn transmissions(template: MessageView, events: Seq<InternalMessageView>) -> Seq<MessageView>
    decreases events.len(),
{
    if events.len() == 0 {
        Seq::empty()
    } else {
        let (next, step) = sender_step(template, events[0]);
        match step {
            SenderStep::Ignore => transmissions(next, events.drop_first()),
            SenderStep::Transmit => seq![next] + transmissions(next, events.drop_first()),
            SenderStep::TransmitAndStop => seq![next],
        }
    }
}

/// Once the shutdown signal is on the queue, the farewell is transmitted
/// exactly once, and it is the last thing the send stage transmits: every
/// transmission before it is a chat line, and nothing queued after the signal
/// goes out.
pub proof fn farewell_is_sent_once_and_last(template: MessageView, events: Seq<InternalMessageView>, quit: int)
    requires
        0 <= quit < events.len(),
        events[quit].code == ClientCode::ClientShutdown,
        forall|j: int| 0 <= j < quit ==> events[j].code != ClientCode::ClientShutdown,
    ensures
        transmissions(template, events).len() >= 1,
        transmissions(template, events).last().code == ControlCode::ExitServer,
        transmissions(template, events).last().text == events[quit].text,
        forall|i: int| 0 <= i < transmissions(template, events).len() - 1 ==>
            (#[trigger] transmissions(template, events)[i]).code == ControlCode::SendMessage,
        transmissions(template, events) == transmissions(template, events.take(quit + 1)),
    decreases quit,
{
    let (next, step) = sender_step(template, events[0]);
    let cut = events.take(quit + 1);
    assert(cut[0] == events[0]);
    if quit > 0 {
        let rest = events.drop_first();
        assert(rest[quit - 1] == events[quit]);
        assert forall|j: int| 0 <= j < quit - 1 implies rest[j].code != ClientCode::ClientShutdown by {
            assert(rest[j] == events[j + 1]);
        }
        farewell_is_sent_once_and_last(next, rest, quit - 1);
        assert(rest.take(quit) =~= cut.drop_first());
    }
}

/// Without the shutdown signal no farewell is transmitted.
pub proof fn no_farewell_without_the_signal(template: MessageView, events: Seq<InternalMessageView>)
    requires
        forall|j: int| 0 <= j < events.len() ==> events[j].code != ClientCode::ClientShutdown,
    ensures
        forall|i: int| 0 <= i < transmissions(template, events).len() ==>
            (#[trigger] transmissions(template, events)[i]).code == ControlCode::SendMessage,
    decreases events.len(),
{
    if events.len() > 0 {
        let (next, step) = sender_step(template, events[0]);
        let rest = events.drop_first();
        assert forall|j: int| 0 <= j < rest.len() implies rest[j].code != ClientCode::ClientShutdown by {
            assert(rest[j] == events[j + 1]);
        }
        no_farewell_without_the_signal(next, rest);
    }
}

} // verus!
