//! The server's membership and broadcast engine: a state of known groups and
//! joined endpoints, and for each inbound message the next state and the
//! datagrams to send.

use vstd::hash_set::StringHashSet;
use vstd::prelude::*;
use vstd::string::StringExecFns;
use crate::clock::{timestamp_in_range, unix_now};
use crate::message::{ControlCode, Endpoint, Message, MessageView};

verus! {

/// One datagram to send: a message and the endpoint it goes to.
pub struct OutboundView {
    pub to: Seq<char>,
    pub message: MessageView,
}

/// One datagram to send.
#[derive(Clone, Debug)]
pub struct Outbound {
    pub to: Endpoint,
    pub message: Message,
}

impl View for Outbound {
    type V = OutboundView;

    open spec fn view(&self) -> OutboundView {
        OutboundView { to: self.to@, message: self.message@ }
    }
}

/// The datagrams of a batch, in the order in which they are sent.
pub open spec fn outbound_views(out: Seq<Outbound>) -> Seq<OutboundView> {
    out.map_values(|o: Outbound| o@)
}

/// The server's state: the set of the names of the groups it knows, and the
/// endpoints that have joined, in the order in which they joined. Membership
/// is flat: it is not kept per group.
pub struct ServerView {
    pub groups: Set<Seq<char>>,
    pub members: Seq<Seq<char>>,
}

impl ServerView {
    /// The members are a set too: no endpoint occurs twice.
    pub open spec fn wf(self) -> bool {
        self.members.no_duplicates()
    }

    /// One datagram per member, each carrying the same message.
    pub open spec fn fan_out(self, message: MessageView) -> Seq<OutboundView> {
        Seq::new(self.members.len(), |i: int| OutboundView { to: self.members[i], message })
    }

    /// The state with `address` among the members.
    pub open spec fn with_member(self, address: Seq<char>) -> ServerView {
        if self.members.contains(address) {
            self
        } else {
            ServerView { members: self.members.push(address), ..self }
        }
    }

    /// The state with `address` not among the members.
    pub open spec fn without_member(self, address: Seq<char>) -> ServerView {
        if self.members.contains(address) {
            ServerView { members: self.members.remove(self.members.index_of(address)), ..self }
        } else {
            self
        }
    }

    /// The state with `name` among the groups.
    pub open spec fn with_group(self, name: Seq<char>) -> ServerView {
        ServerView { groups: self.groups.insert(name), ..self }
    }

    /// The answer to a request to join a group that does not exist: the
    /// request turned into an error that names the group. Like everything the
    /// server sends, it carries the time of sending and, as the sender's
    /// address, the endpoint the request really came from.
    pub open spec fn refusal(message: MessageView, source: Seq<char>, now: i64) -> MessageView {
        MessageView {
            code: ControlCode::Error,
            text: "group "@ + message.text + " not exist"@,
            ..message.stamped(source, now)
        }
    }

    /// A chat line is relayed to every member, the sender included.
    pub open spec fn on_send(self, message: MessageView, source: Seq<char>, now: i64) -> (ServerView, Seq<OutboundView>) {
        (self, self.fan_out(message.stamped(source, now)))
    }

    /// A request to join names the group in its text. For a known group the
    /// source becomes a member and the announcement goes to every member;
    /// otherwise only the requester hears of it, and nothing changes.
    pub open spec fn on_join(self, message: MessageView, source: Seq<char>, now: i64) -> (ServerView, Seq<OutboundView>) {
        if self.groups.contains(message.text) {
            let next = self.with_member(source);
            (next, next.fan_out(message.stamped(source, now)))
        } else {
            (self, seq![OutboundView { to: source, message: Self::refusal(message, source, now) }])
        }
    }

    /// The source stops being a member, and the announcement goes to those
    /// that remain.
    pub open spec fn on_leave(self, message: MessageView, source: Seq<char>, now: i64) -> (ServerView, Seq<OutboundView>) {
        let next = self.without_member(source);
        (next, next.fan_out(message.stamped(source, now)))
    }

    /// The whole transition: the next state and the datagrams to send for a
    /// message that arrived from `source` at time `now`.
    pub open spec fn step(self, message: MessageView, source: Seq<char>, now: i64) -> (ServerView, Seq<OutboundView>) {
        match message.code {
            ControlCode::SendMessage => self.on_send(message, source, now),
            ControlCode::JoinGroup => self.on_join(message, source, now),
            ControlCode::LeaveGroup => self.on_leave(message, source, now),
            ControlCode::ExitServer => (self, Seq::empty()),
            ControlCode::Error => (self, Seq::empty()),
        }
    }
}

/// The server's state, owned by its single event loop. The groups are a
/// hash set; the members are kept in a vector, because a relay walks them in
/// a stated order.
pub struct Server {
    groups: StringHashSet,
    members: Vec<Endpoint>,
}

impl View for Server {
    type V = ServerView;

    closed spec fn view(&self) -> ServerView {
        ServerView {
            groups: self.groups@,
            members: self.members@.map_values(|e: Endpoint| e@),
        }
    }
}

impl Server {
    /// Validity of the state: see [`ServerView::wf`].
    pub open spec fn wf(&self) -> bool {
        self@.wf()
    }

    /// A server that knows the group `global` and has no members.
    pub fn new() -> (server: Server)
        ensures
            server.wf(),
            server@.groups == set!["global"@],
            server@.members == Seq::<Seq<char>>::empty(),
    {
        let mut groups = StringHashSet::new();
        groups.insert(String::from_str("global"));
        let server = Server { groups, members: Vec::new() };
        assert(server@.groups =~= set!["global"@]);
        assert(server@.members =~= Seq::<Seq<char>>::empty());
        server
    }

    /// Whether a group of that name is known.
    pub fn group_exist(&self, name: &String) -> (known: bool)
        ensures
            known == self@.groups.contains(name@),
    {
        self.groups.contains(name.as_str())
    }

    /// Makes a group known. Returns whether it was new.
    pub fn add_group(&mut self, name: String) -> (added: bool)
        requires
            old(self).wf(),
        ensures
            final(self).wf(),
            final(self)@ == old(self)@.with_group(name@),
            added == !old(self)@.groups.contains(name@),
    {
        self.groups.insert(name)
    }

    /// Where among the members an endpoint stands, if it is one.
    fn position(&self, address: &Endpoint) -> (at: Option<usize>)
        ensures
            match at {
                Some(i) => i < self@.members.len() && self@.members[i as int] == address@,
                None => !self@.members.contains(address@),
            },
    {
        let mut i: usize = 0;
        while i < self.members.len()
            invariant
                i <= self.members.len(),
                forall|j: int| 0 <= j < i ==> self@.members[j] != address@,
            decreases self.members.len() - i,
        {
            if self.members[i].same(address) {
                return Some(i);
            }
            i += 1;
        }
        None
    }

    /// Makes an endpoint a member. Returns whether it was not one before.
    pub fn add_member(&mut self, address: Endpoint) -> (added: bool)
        requires
            old(self).wf(),
        ensures
            final(self).wf(),
            final(self)@ == old(self)@.with_member(address@),
            added == !old(self)@.members.contains(address@),
    {
        match self.position(&address) {
            Some(_) => false,
            None => {
                self.members.push(address);
                assert(self@.members =~= old(self)@.members.push(address@));
                true
            },
        }
    }

    /// Takes an endpoint out of the members. Returns whether it was one;
    /// taking out one that was not is no error and changes nothing.
    pub fn remove_member(&mut self, address: &Endpoint) -> (removed: bool)
        requires
            old(self).wf(),
        ensures
            final(self).wf(),
            final(self)@ == old(self)@.without_member(address@),
            removed == old(self)@.members.contains(address@),
    {
        match self.position(address) {
            Some(i) => {
                let _gone = self.members.remove(i);
                proof {
                    let before = old(self)@.members;
                    assert(before.contains(address@));
                    assert(before.index_of(address@) == i);
                    assert(self@.members =~= before.remove(i as int));
                }
                true
            },
            None => false,
        }
    }

    /// One datagram for each member, each with a copy of `msg`.
    pub fn send_to_all(&self, msg: &Message) -> (out: Vec<Outbound>)
        ensures
            outbound_views(out@) == self@.fan_out(msg@),
    {
        let mut out: Vec<Outbound> = Vec::new();
        let mut i: usize = 0;
        while i < self.members.len()
            invariant
                i <= self.members.len(),
                out@.len() == i,
                forall|j: int| 0 <= j < i ==> (#[trigger] out@[j])@ == (OutboundView { to: self@.members[j], message: msg@ }),
            decreases self.members.len() - i,
        {
            out.push(Outbound { to: self.members[i].duplicate(), message: msg.duplicate() });
            i += 1;
        }
        assert(outbound_views(out@) =~= self@.fan_out(msg@));
        out
    }

    /// One datagram to `to`, with a copy of `msg`.
    pub fn send_to(&self, msg: &Message, to: &Endpoint) -> (out: Vec<Outbound>)
        ensures
            outbound_views(out@) == seq![OutboundView { to: to@, message: msg@ }],
    {
        let mut out: Vec<Outbound> = Vec::new();
        out.push(Outbound { to: to.duplicate(), message: msg.duplicate() });
        assert(outbound_views(out@) =~= seq![OutboundView { to: to@, message: msg@ }]);
        out
    }

    /// An error message from a client is dropped: the server answers none.
    pub fn handle_msg_error(&mut self, msg: Message, src: Endpoint) -> (out: Vec<Outbound>)
        ensures
            *final(self) == *old(self),
            out@.len() == 0,
    {
        Vec::new()
    }

    /// Relays a chat line to every member.
    pub fn handle_msg_send_message(&mut self, msg: Message, src: Endpoint, now: i64) -> (out: Vec<Outbound>)
        ensures
            *final(self) == *old(self),
            (final(self)@, outbound_views(out@)) == old(self)@.on_send(msg@, src@, now),
    {
        let mut msg = msg;
        msg.update_sender_address(src);
        msg.set_timestamp(now);
        self.send_to_all(&msg)
    }

    /// Handles a request to join the group that the message's text names.
    pub fn handle_msg_join_group(&mut self, msg: Message, src: Endpoint, now: i64) -> (out: Vec<Outbound>)
        requires
            old(self).wf(),
        ensures
            final(self).wf(),
            (final(self)@, outbound_views(out@)) == old(self)@.on_join(msg@, src@, now),
    {
        let mut msg = msg;
        if !self.group_exist(msg.get_message()) {
            let text = String::from_str("group ").concat(msg.get_message().as_str()).concat(" not exist");
            msg.set_message(text);
            msg.set_code(ControlCode::Error);
            msg.update_sender_address(src.duplicate());
            msg.set_timestamp(now);
            return self.send_to(&msg, &src);
        }
        self.add_member(src.duplicate());
        msg.update_sender_address(src);
        msg.set_timestamp(now);
        self.send_to_all(&msg)
    }

    /// Handles a notice of leaving.
    pub fn handle_msg_leave_group(&mut self, msg: Message, src: Endpoint, now: i64) -> (out: Vec<Outbound>)
        requires
            old(self).wf(),
        ensures
            final(self).wf(),
            (final(self)@, outbound_views(out@)) == old(self)@.on_leave(msg@, src@, now),
    {
        let mut msg = msg;
        self.remove_member(&src);
        msg.update_sender_address(src);
        msg.set_timestamp(now);
        self.send_to_all(&msg)
    }

    /// Handles one decoded message that arrived from `src` at time `now`:
    /// updates the state and returns the datagrams to send, in order.
    pub fn dispatch(&mut self, msg: Message, src: Endpoint, now: i64) -> (out: Vec<Outbound>)
        requires
            old(self).wf(),
        ensures
            final(self).wf(),
            (final(self)@, outbound_views(out@)) == old(self)@.step(msg@, src@, now),
    {
        match msg.get_code() {
            ControlCode::Error => {
                let out = self.handle_msg_error(msg, src);
                assert(outbound_views(out@) =~= Seq::<OutboundView>::empty());
                out
            },
            ControlCode::SendMessage => self.handle_msg_send_message(msg, src, now),
            ControlCode::JoinGroup => self.handle_msg_join_group(msg, src, now),
            ControlCode::LeaveGroup => self.handle_msg_leave_group(msg, src, now),
            ControlCode::ExitServer => {
                let out: Vec<Outbound> = Vec::new();
                assert(outbound_views(out@) =~= Seq::<OutboundView>::empty());
                out
            },
        }
    }

    /// Handles one decoded message that arrived from `src` just now. The time
    /// is read from the clock, so the contract holds for some time `now`, one
    /// that names a representable instant: whatever goes out can be shown
    /// with its time.
    pub fn receive(&mut self, msg: Message, src: Endpoint) -> (out: Vec<Outbound>)
        requires
            old(self).wf(),
        ensures
            final(self).wf(),
            exists|now: i64| timestamp_in_range(now)
                && (final(self)@, outbound_views(out@)) == #[trigger] old(self)@.step(msg@, src@, now),
            forall|i: int| 0 <= i < out@.len() ==> timestamp_in_range((#[trigger] out@[i])@.message.timestamp),
    {
        let now: i64 = unix_now();
        let out = self.dispatch(msg, src, now);
        proof {
            every_step_keeps_validity_and_stamps(old(self)@, msg@, src@, now);
            assert forall|i: int| 0 <= i < out@.len() implies timestamp_in_range(
                (#[trigger] out@[i])@.message.timestamp,
            ) by {
                assert(out@[i]@ == outbound_views(out@)[i]);
            }
        }
        out
    }

    /// Handles what one receive on the socket decoded to. A datagram that
    /// holds no message is skipped: the state stays as it is and nothing is
    /// sent. A message is handled as [`Server::receive`] says.
    pub fn receive_decoded(&mut self, decoded: Option<Message>, src: Endpoint) -> (out: Vec<Outbound>)
        requires
            old(self).wf(),
        ensures
            final(self).wf(),
            match decoded {
                None => final(self)@ == old(self)@ && out@.len() == 0,
                Some(msg) => exists|now: i64| timestamp_in_range(now)
                    && (final(self)@, outbound_views(out@)) == #[trigger] old(self)@.step(msg@, src@, now),
            },
            forall|i: int| 0 <= i < out@.len() ==> timestamp_in_range((#[trigger] out@[i])@.message.timestamp),
    {
        match decoded {
            Some(msg) => self.receive(msg, src),
            None => Vec::new(),
        }
    }
}

/// A notice of leaving from an endpoint that is not a member is no error and
/// changes nothing: the state, and so the number of members, stays as it was,
/// and what goes out is the notice itself, never an error.
pub proof fn leave_of_a_stranger_changes_nothing(state: ServerView, message: MessageView, source: Seq<char>, now: i64)
    requires
        state.wf(),
        message.code == ControlCode::LeaveGroup,
        !state.members.contains(source),
    ensures
        state.step(message, source, now).0 == state,
        state.step(message, source, now).0.members.len() == state.members.len(),
        state.step(message, source, now).1 == state.fan_out(message.stamped(source, now)),
        forall|i: int| 0 <= i < state.step(message, source, now).1.len() ==>
            (#[trigger] state.step(message, source, now).1[i]).message.code == ControlCode::LeaveGroup,
{
}

/// Leaving is idempotent: after a notice of leaving the source is no member,
/// and a second notice finds the state as the first one left it.
pub proof fn leave_is_idempotent(state: ServerView, message: MessageView, source: Seq<char>, now: i64, later: i64)
    requires
        state.wf(),
        message.code == ControlCode::LeaveGroup,
    ensures
        !state.step(message, source, now).0.members.contains(source),
        state.step(message, source, now).0.step(message, source, later).0
            == state.step(message, source, now).0,
{
    let next = state.without_member(source);
    if state.members.contains(source) {
        let at: int = state.members.index_of(source);
        assert forall|j: int| 0 <= j < next.members.len() implies next.members[j] != source by {
            if j < at {
                assert(next.members[j] == state.members[j]);
            } else {
                assert(next.members[j] == state.members[j + 1]);
            }
        }
    }
}

/// A request to join a group that is not known is answered by exactly one
/// datagram, an error that names the group and goes to the requester; no
/// member is added and nothing is broadcast.
pub proof fn join_of_unknown_group_is_refused(state: ServerView, message: MessageView, source: Seq<char>, now: i64)
    requires
        state.wf(),
        message.code == ControlCode::JoinGroup,
        !state.groups.contains(message.text),
    ensures
        state.step(message, source, now).0 == state,
        state.step(message, source, now).1.len() == 1,
        state.step(message, source, now).1[0].to == source,
        state.step(message, source, now).1[0].message.code == ControlCode::Error,
        state.step(message, source, now).1[0].message.text == "group "@ + message.text + " not exist"@,
        state.step(message, source, now).1[0].message.sender.address == source,
        state.step(message, source, now).1[0].message.timestamp == now,
{
}

/// A request to join a known group makes the source a member, keeps every
/// earlier member, and announces the join to every member, the source
/// included.
pub proof fn join_of_known_group_is_announced(state: ServerView, message: MessageView, source: Seq<char>, now: i64)
    requires
        state.wf(),
        message.code == ControlCode::JoinGroup,
        state.groups.contains(message.text),
    ensures
        state.step(message, source, now).0.members.contains(source),
        forall|a: Seq<char>| state.members.contains(a) ==> state.step(message, source, now).0.members.contains(a),
        state.step(message, source, now).1
            == state.step(message, source, now).0.fan_out(message.stamped(source, now)),
{
    let next = state.with_member(source);
    if !state.members.contains(source) {
        assert(next.members[state.members.len() as int] == source);
        assert forall|a: Seq<char>| state.members.contains(a) implies next.members.contains(a) by {
            let i: int = state.members.index_of(a);
            assert(next.members[i] == a);
        }
    }
}

/// A chat line received while there are N members goes out as exactly N
/// datagrams, one to each member. All carry the same message: the one
/// received, with the time set anew and the sender's address replaced by the
/// endpoint the datagram came from, whatever address the payload claimed.
pub proof fn send_fans_out_to_every_member(state: ServerView, message: MessageView, source: Seq<char>, now: i64)
    requires
        state.wf(),
        message.code == ControlCode::SendMessage,
    ensures
        state.step(message, source, now).0 == state,
        state.step(message, source, now).1.len() == state.members.len(),
        forall|i: int| 0 <= i < state.members.len() ==>
            (#[trigger] state.step(message, source, now).1[i]).to == state.members[i],
        forall|i: int| 0 <= i < state.members.len() ==>
            (#[trigger] state.step(message, source, now).1[i]).message == message.stamped(source, now),
        message.stamped(source, now).sender.address == source,
        message.stamped(source, now).sender.nickname == message.sender.nickname,
        message.stamped(source, now).text == message.text,
        message.stamped(source, now).group == message.group,
        message.stamped(source, now).code == message.code,
{
}

/// Whatever arrives, the state stays valid, and every datagram that goes out
/// carries the time of sending and, as the sender's address, the endpoint
/// the message really came from, whatever address the payload claimed. The
/// sender's nickname and the group are as received, and every datagram that
/// is not an error carries the received code and text too.
pub proof fn every_step_keeps_validity_and_stamps(state: ServerView, message: MessageView, source: Seq<char>, now: i64)
    requires
        state.wf(),
    ensures
        state.step(message, source, now).0.wf(),
        state.step(message, source, now).0.groups == state.groups,
        forall|i: int| 0 <= i < state.step(message, source, now).1.len() ==>
            (#[trigger] state.step(message, source, now).1[i]).message.timestamp == now,
        forall|i: int| 0 <= i < state.step(message, source, now).1.len() ==>
            (#[trigger] state.step(message, source, now).1[i]).message.sender.address == source,
        forall|i: int| 0 <= i < state.step(message, source, now).1.len() ==>
            (#[trigger] state.step(message, source, now).1[i]).message.sender.nickname
                == message.sender.nickname,
        forall|i: int| 0 <= i < state.step(message, source, now).1.len() ==>
            (#[trigger] state.step(message, source, now).1[i]).message.group == message.group,
        forall|i: int| 0 <= i < state.step(message, source, now).1.len()
            && (#[trigger] state.step(message, source, now).1[i]).message.code != ControlCode::Error ==>
            state.step(message, source, now).1[i].message == message.stamped(source, now),
{
    if message.code == ControlCode::LeaveGroup && state.members.contains(source) {
        let at: int = state.members.index_of(source);
        let next = state.without_member(source);
        assert forall|i: int, j: int| 0 <= i < next.members.len() && 0 <= j < next.members.len() && i != j
            implies next.members[i] != next.members[j] by {
            let oi: int = if i < at { i } else { i + 1 };
            let oj: int = if j < at { j } else { j + 1 };
            assert(next.members[i] == state.members[oi]);
            assert(next.members[j] == state.members[oj]);
        }
    }
}

} // verus!
