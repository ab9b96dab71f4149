use vstd::prelude::*;
use crate::models::{MessageResource, UserResource};
use crate::registry::{SessionRegistry, UserConnection};

verus! {

/// Names of the events a client sends.
pub const SEND_CHAT_MESSAGE: &'static str = "sendChatMessage";
pub const SEND_POKE: &'static str = "sendPoke";
pub const SEND_KICK: &'static str = "sendKick";
pub const SEND_USER_IS_TYPING: &'static str = "sendUserIsTyping";
pub const SEND_USER_MICROPHONE_STATUS_CHANGED: &'static str = "sendUserMicrophoneStatusChanged";
pub const SEND_USER_AUDIO_MUTE_STATUS_CHANGED: &'static str = "sendUserAudioMuteStatusChanged";

/// Names of the events the server sends.
pub const AUTH: &'static str = "auth";
pub const RECEIVE_CHAT_MESSAGE: &'static str = "receiveChatMessage";
pub const RECEIVE_POKE: &'static str = "receivePoke";
pub const RECEIVE_KICK: &'static str = "receiveKick";
pub const UPDATE_USER: &'static str = "updateUser";
pub const UPDATE_MESSAGE: &'static str = "updateMessage";
pub const UPDATE_CHANNELS: &'static str = "updateChannels";
pub const RECEIVE_USER_IS_TYPING: &'static str = "receiveUserIsTyping";
pub const RECEIVE_USER_MICROPHONE_STATUS_CHANGED: &'static str = "receiveUserMicrophoneStatusChanged";
pub const RECEIVE_USER_AUDIO_MUTE_STATUS_CHANGED: &'static str = "receiveUserAudioMuteStatusChanged";

/// The handler an inbound event is routed to.
#[derive(Debug, Clone, Copy, PartialEq, Eq, Structural)]
pub enum InboundKind {
    SendChatMessage,
    SendPoke,
    SendKick,
    SendUserIsTyping,
    SendUserMicrophoneStatusChanged,
    SendUserAudioMuteStatusChanged,
}

/// The handler that serves an event name; unknown names are served by none.
pub open spec fn inbound_kind_spec(name: Seq<char>) -> Option<InboundKind> {
    if name == SEND_CHAT_MESSAGE@ {
        Some(InboundKind::SendChatMessage)
    } else if name == SEND_POKE@ {
        Some(InboundKind::SendPoke)
    } else if name == SEND_KICK@ {
        Some(InboundKind::SendKick)
    } else if name == SEND_USER_IS_TYPING@ {
        Some(InboundKind::SendUserIsTyping)
    } else if name == SEND_USER_MICROPHONE_STATUS_CHANGED@ {
        Some(InboundKind::SendUserMicrophoneStatusChanged)
    } else if name == SEND_USER_AUDIO_MUTE_STATUS_CHANGED@ {
        Some(InboundKind::SendUserAudioMuteStatusChanged)
    } else {
        None
    }
}

/// Routes an inbound event by name. An unknown name yields `None`: such an
/// event is dropped, not treated as a protocol error.
pub fn dispatch(name: &str) -> (r: Option<InboundKind>)
    ensures
        r == inbound_kind_spec(name@),
{
    let n = name.to_string();
    if n == SEND_CHAT_MESSAGE.to_string() {
        Some(InboundKind::SendChatMessage)
    } else if n == SEND_POKE.to_string() {
        Some(InboundKind::SendPoke)
    } else if n == SEND_KICK.to_string() {
        Some(InboundKind::SendKick)
    } else if n == SEND_USER_IS_TYPING.to_string() {
        Some(InboundKind::SendUserIsTyping)
    } else if n == SEND_USER_MICROPHONE_STATUS_CHANGED.to_string() {
        Some(InboundKind::SendUserMicrophoneStatusChanged)
    } else if n == SEND_USER_AUDIO_MUTE_STATUS_CHANGED.to_string() {
        Some(InboundKind::SendUserAudioMuteStatusChanged)
    } else {
        None
    }
}

/// What a new chat message notification carries.
#[derive(Debug, Clone)]
pub struct ReceiveChatMessagePayload {
    pub message: MessageResource,
}

/// What a poke notification carries: the poking user's public profile, the
/// text, and the time the poke was sent.
#[derive(Debug, Clone)]
pub struct PokeNotice {
    pub user: UserResource,
    pub message: String,
    pub created_at: String,
}

/// Who is typing, and where.
#[derive(Debug, Clone)]
pub struct TypingNotice {
    pub user_id: String,
    pub channel_id: String,
}

/// A user's new mute state.
#[derive(Debug, Clone)]
pub struct MuteNotice {
    pub user_id: String,
    pub muted: bool,
}

/// An event the server sends to clients.
#[derive(Debug, Clone)]
pub enum OutboundEvent {
    ReceiveChatMessage(ReceiveChatMessagePayload),
    ReceivePoke(PokeNotice),
    ReceiveUserIsTyping(TypingNotice),
    ReceiveUserMicrophoneStatusChanged(MuteNotice),
    ReceiveUserAudioMuteStatusChanged(MuteNotice),
}

impl OutboundEvent {
    pub open spec fn name_spec(&self) -> Seq<char> {
        match self {
            OutboundEvent::ReceiveChatMessage(_) => RECEIVE_CHAT_MESSAGE@,
            OutboundEvent::ReceivePoke(_) => RECEIVE_POKE@,
            OutboundEvent::ReceiveUserIsTyping(_) => RECEIVE_USER_IS_TYPING@,
            OutboundEvent::ReceiveUserMicrophoneStatusChanged(_) => RECEIVE_USER_MICROPHONE_STATUS_CHANGED@,
            OutboundEvent::ReceiveUserAudioMuteStatusChanged(_) => RECEIVE_USER_AUDIO_MUTE_STATUS_CHANGED@,
        }
    }

    /// The name under which the event is sent.
    pub fn name(&self) -> (r: &'static str)
        ensures
            r@ == self.name_spec(),
    {
        match self {
            OutboundEvent::ReceiveChatMessage(_) => RECEIVE_CHAT_MESSAGE,
            OutboundEvent::ReceivePoke(_) => RECEIVE_POKE,
            OutboundEvent::ReceiveUserIsTyping(_) => RECEIVE_USER_IS_TYPING,
            OutboundEvent::ReceiveUserMicrophoneStatusChanged(_) => RECEIVE_USER_MICROPHONE_STATUS_CHANGED,
            OutboundEvent::ReceiveUserAudioMuteStatusChanged(_) => RECEIVE_USER_AUDIO_MUTE_STATUS_CHANGED,
        }
    }
}

/// One connection an event is sent on, with the user it belongs to.
#[derive(Debug, Clone)]
pub struct Recipient {
    pub user_id: String,
    pub connection_id: String,
}

/// One event and the connections it goes to.
#[derive(Debug, Clone)]
pub struct Delivery {
    pub recipients: Vec<Recipient>,
    pub event: OutboundEvent,
}

/// The users online of whom `pred` holds.
pub open spec fn users_where(
    reg: Map<Seq<char>, UserConnection>,
    pred: spec_fn(Seq<char>, UserConnection) -> bool,
) -> Set<Seq<char>> {
    Set::new(|k: Seq<char>| reg.contains_key(k) && pred(k, reg[k]))
}

/// `rs` reaches exactly the users in `users`, each once, each on the
/// connection the registry holds for them.
pub open spec fn reaches(
    rs: Seq<Recipient>,
    reg: Map<Seq<char>, UserConnection>,
    users: Set<Seq<char>>,
) -> bool {
    &&& forall|i: int|
        0 <= i < rs.len() ==> users.contains(#[trigger] rs[i].user_id@) && reg.contains_key(
            rs[i].user_id@,
        ) && reg[rs[i].user_id@].connection_id == rs[i].connection_id
    &&& forall|u: Seq<char>|
        #[trigger] users.contains(u) ==> exists|i: int| 0 <= i < rs.len() && rs[i].user_id@ == u
    &&& forall|i: int, j: int| 0 <= i < j < rs.len() ==> rs[i].user_id@ != rs[j].user_id@
}

/// Which of the online users an event goes to.
#[derive(Debug, Clone)]
pub enum Audience {
    /// Every user online.
    Everyone,
    /// Every user online but one.
    EveryoneExcept(String),
    /// The users online whose current channel is `channel_id`, but one.
    ChannelExcept { channel_id: String, except: String },
}

impl Audience {
    pub open spec fn includes_spec(self, user_id: Seq<char>, conn: UserConnection) -> bool {
        match self {
            Audience::Everyone => true,
            Audience::EveryoneExcept(x) => user_id != x@,
            Audience::ChannelExcept { channel_id, except } => user_id != except@ && match conn.current_channel_id {
                Some(c) => c@ == channel_id@,
                None => false,
            },
        }
    }

    pub open spec fn users(self, reg: Map<Seq<char>, UserConnection>) -> Set<Seq<char>> {
        users_where(reg, |k: Seq<char>, c: UserConnection| self.includes_spec(k, c))
    }

    /// Whether the connection of `user_id` belongs to this audience.
    pub fn includes(&self, user_id: &String, conn: &UserConnection) -> (r: bool)
        ensures
            r == self.includes_spec(user_id@, *conn),
    {
        match self {
            Audience::Everyone => true,
            Audience::EveryoneExcept(x) => !(*user_id == *x),
            Audience::ChannelExcept { channel_id, except } => {
                if *user_id == *except {
                    false
                } else {
                    match &conn.current_channel_id {
                        Some(c) => *c == *channel_id,
                        None => false,
                    }
                }
            },
        }
    }
}

/// The connections, at the time of the call, of every user online in
/// `audience`: each such user once, on the connection the registry holds.
/// Users who register later are not reached.
pub fn recipients(reg: &SessionRegistry, audience: &Audience) -> (r: Vec<Recipient>)
    requires
        reg.wf(),
    ensures
        reaches(r@, reg@, audience.users(reg@)),
{
    let entries = reg.entries();
    let ghost users = audience.users(reg@);
    let mut out: Vec<Recipient> = Vec::new();
    let mut i: usize = 0;
    while i < entries.len()
        invariant
            0 <= i <= entries@.len(),
            entries@.len() == reg@.len(),
            users == audience.users(reg@),
            forall|t: int|
                0 <= t < entries@.len() ==> reg@.contains_key(#[trigger] entries@[t].0@)
                    && reg@[entries@[t].0@] == entries@[t].1,
            forall|t: int, s: int| 0 <= t < s < entries@.len() ==> entries@[t].0@ != entries@[s].0@,
            forall|k: Seq<char>| #[trigger]
                reg@.contains_key(k) ==> exists|t: int| 0 <= t < entries@.len() && entries@[t].0@ == k,
            forall|j: int|
                0 <= j < out@.len() ==> users.contains(#[trigger] out@[j].user_id@) && reg@.contains_key(
                    out@[j].user_id@,
                ) && reg@[out@[j].user_id@].connection_id == out@[j].connection_id
                    && exists|t: int| 0 <= t < i && entries@[t].0@ == out@[j].user_id@,
            forall|t: int|
                0 <= t < i && users.contains(#[trigger] entries@[t].0@) ==> exists|j: int|
                    0 <= j < out@.len() && out@[j].user_id@ == entries@[t].0@,
            forall|j1: int, j2: int|
                0 <= j1 < j2 < out@.len() ==> out@[j1].user_id@ != out@[j2].user_id@,
        decreases entries@.len() - i,
    {
        let entry = &entries[i];
        if audience.includes(&entry.0, &entry.1) {
            let rec = Recipient { user_id: entry.0.clone(), connection_id: entry.1.connection_id.clone() };
            let ghost old_out = out@;
            out.push(rec);
            proof {
                assert(users.contains(entries@[i as int].0@));
                assert forall|j: int| 0 <= j < old_out.len() implies old_out[j].user_id@ != entries@[i as int].0@ by {
                    let t = choose|t: int| 0 <= t < i && entries@[t].0@ == old_out[j].user_id@;
                    assert(entries@[t].0@ != entries@[i as int].0@);
                }
                assert forall|t: int| 0 <= t < i + 1 && users.contains(#[trigger] entries@[t].0@) implies exists|j: int|
                    0 <= j < out@.len() && out@[j].user_id@ == entries@[t].0@ by {
                    if t == i {
                        assert(out@[old_out.len() as int].user_id@ == entries@[t].0@);
                    } else {
                        let j = choose|j: int| 0 <= j < old_out.len() && old_out[j].user_id@ == entries@[t].0@;
                        assert(out@[j] == old_out[j]);
                    }
                }
            }
        } else {
            proof {
                assert(!users.contains(entries@[i as int].0@));
            }
        }
        i += 1;
    }
    proof {
        assert forall|u: Seq<char>| #[trigger] users.contains(u) implies exists|j: int|
            0 <= j < out@.len() && out@[j].user_id@ == u by {
            assert(reg@.contains_key(u));
            let t = choose|t: int| 0 <= t < entries@.len() && entries@[t].0@ == u;
            assert(users.contains(entries@[t].0@));
        }
    }
    out
}

/// The connection of `user_id`, as a list of at most one recipient: empty
/// when the user is offline, which is no error.
pub fn emit_to(reg: &SessionRegistry, user_id: &str) -> (r: Vec<Recipient>)
    ensures
        reaches(
            r@,
            reg@,
            if reg@.contains_key(user_id@) {
                set![user_id@]
            } else {
                Set::empty()
            },
        ),
        r@.len() == (if reg@.contains_key(user_id@) { 1int } else { 0int }),
{
    let mut out: Vec<Recipient> = Vec::new();
    match reg.lookup(user_id) {
        Some(conn) => {
            out.push(Recipient { user_id: user_id.to_string(), connection_id: conn.connection_id });
            assert(out@[0].user_id@ == user_id@);
            assert(set![user_id@].contains(out@[0].user_id@));
        },
        None => {},
    }
    out
}

/// Every user online, at the time of the call.
pub fn broadcast(reg: &SessionRegistry) -> (r: Vec<Recipient>)
    requires
        reg.wf(),
    ensures
        reaches(r@, reg@, reg@.dom()),
{
    let r = recipients(reg, &Audience::Everyone);
    assert(Audience::Everyone.users(reg@) =~= reg@.dom());
    r
}

/// Every user online but `user_id`, at the time of the call.
pub fn broadcast_except(reg: &SessionRegistry, user_id: &str) -> (r: Vec<Recipient>)
    requires
        reg.wf(),
    ensures
        reaches(r@, reg@, reg@.dom().remove(user_id@)),
{
    let aud = Audience::EveryoneExcept(user_id.to_string());
    let r = recipients(reg, &aud);
    assert(aud.users(reg@) =~= reg@.dom().remove(user_id@));
    r
}

} // verus!
