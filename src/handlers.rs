use vstd::prelude::*;
use crate::clock::{now, rfc3339};
use crate::models::{Message, Timestamp, User};
use crate::registry::{SessionRegistry, SessionUpdate};
use crate::router::{
    broadcast, broadcast_except, emit_to, reaches, recipients, Audience, Delivery, MuteNotice,
    OutboundEvent, PokeNotice, ReceiveChatMessagePayload, TypingNotice,
};

verus! {

/// The acknowledgment a request that asks for one receives.
#[derive(Debug, Clone)]
pub struct Ack {
    pub success: bool,
    pub error: Option<String>,
}

/// Why a poke was not delivered.
#[derive(Debug, Clone, Copy, PartialEq, Eq, Structural)]
pub enum PokeError {
    /// The request named no user.
    NoTarget,
    /// The user named has no live connection.
    TargetNotConnected,
}

pub open spec fn poke_error_text(e: PokeError) -> Seq<char> {
    match e {
        PokeError::NoTarget => "no target"@,
        PokeError::TargetNotConnected => "target not connected"@,
    }
}

impl PokeError {
    /// The error text of the acknowledgment.
    pub fn message(&self) -> (r: String)
        ensures
            r@ == poke_error_text(*self),
    {
        match self {
            PokeError::NoTarget => "no target".to_string(),
            PokeError::TargetNotConnected => "target not connected".to_string(),
        }
    }
}

/// A poke as a client sends it: whom to poke, an optional text, and an
/// optional time of sending, taken as given.
#[derive(Debug, Clone)]
pub struct PokeRequest {
    pub user_id: Option<String>,
    pub message: Option<String>,
    pub created_at: Option<String>,
}

/// The acknowledgment for the poking client and, on success, the
/// notification for the poked one.
#[derive(Debug, Clone)]
pub struct PokeOutcome {
    pub ack: Ack,
    pub delivery: Option<Delivery>,
}

pub open spec fn opt_text(s: Option<String>, default: Seq<char>) -> Seq<char> {
    match s {
        Some(t) => t@,
        None => default,
    }
}

/// What a poke by `sender` yields when the registry is `reg` and a missing
/// time of sending is taken to be `default_at`.
pub open spec fn poke_spec(
    reg: Map<Seq<char>, crate::registry::UserConnection>,
    sender: User,
    req: PokeRequest,
    default_at: Seq<char>,
    out: PokeOutcome,
) -> bool {
    match req.user_id {
        None => {
            &&& !out.ack.success
            &&& out.ack.error.is_some()
            &&& out.ack.error.unwrap()@ == poke_error_text(PokeError::NoTarget)
            &&& out.delivery.is_none()
        },
        Some(target) => if !reg.contains_key(target@) {
            &&& !out.ack.success
            &&& out.ack.error.is_some()
            &&& out.ack.error.unwrap()@ == poke_error_text(PokeError::TargetNotConnected)
            &&& out.delivery.is_none()
        } else {
            &&& out.ack.success
            &&& out.ack.error.is_none()
            &&& out.delivery.is_some()
            &&& out.delivery.unwrap().recipients@.len() == 1
            &&& reaches(out.delivery.unwrap().recipients@, reg, set![target@])
            &&& match out.delivery.unwrap().event {
                OutboundEvent::ReceivePoke(n) => {
                    &&& n.user == sender.resource_spec()
                    &&& n.message@ == opt_text(req.message, Seq::empty())
                    &&& n.created_at@ == opt_text(req.created_at, default_at)
                },
                _ => false,
            }
        },
    }
}

/// Decides a poke. A request without a target, or whose target is offline,
/// is acknowledged as failed and notifies nobody. Otherwise exactly the
/// target is notified, with the sender's public profile, the text (empty by
/// default) and the time of sending (`default_at` by default), and the
/// sender's acknowledgment is a success.
pub fn poke(reg: &SessionRegistry, sender: &User, req: PokeRequest, default_at: String) -> (r:
    PokeOutcome)
    ensures
        poke_spec(reg@, *sender, req, default_at@, r),
{
    match req.user_id {
        None => PokeOutcome {
            ack: Ack { success: false, error: Some(PokeError::NoTarget.message()) },
            delivery: None,
        },
        Some(target) => {
            let rs = emit_to(reg, target.as_str());
            if rs.len() == 0 {
                PokeOutcome {
                    ack: Ack { success: false, error: Some(PokeError::TargetNotConnected.message()) },
                    delivery: None,
                }
            } else {
                let message = match req.message {
                    Some(m) => m,
                    None => String::new(),
                };
                let created_at = match req.created_at {
                    Some(c) => c,
                    None => default_at,
                };
                let notice = PokeNotice { user: sender.to_resource(), message, created_at };
                PokeOutcome {
                    ack: Ack { success: true, error: None },
                    delivery: Some(Delivery { recipients: rs, event: OutboundEvent::ReceivePoke(notice) }),
                }
            }
        },
    }
}

/// Handles a poke at the current time: a poke without a time of sending is
/// stamped with the current time.
pub fn send_poke_handler(reg: &SessionRegistry, sender: &User, req: PokeRequest) -> (r: PokeOutcome)
    ensures
        exists|default_at: Seq<char>| poke_spec(reg@, *sender, req, default_at, r),
{
    let default_at = if req.created_at.is_some() {
        String::new()
    } else {
        match rfc3339(now()) {
            Some(s) => s,
            None => String::new(),
        }
    };
    let ghost d = default_at@;
    let r = poke(reg, sender, req, default_at);
    assert(poke_spec(reg@, *sender, req, d, r));
    r
}

/// A typing signal as a client sends it.
#[derive(Debug, Clone)]
pub struct TypingRequest {
    pub channel_id: Option<String>,
}

/// Relays that `sender_id` is typing to the other users online in the same
/// channel: the one the request names, else the sender's current channel.
/// With neither there is nobody to tell.
pub fn send_user_is_typing_handler(reg: &SessionRegistry, sender_id: &String, req: TypingRequest) -> (r:
    Option<Delivery>)
    requires
        reg.wf(),
    ensures
        ({
            let channel = match req.channel_id {
                Some(c) => Some(c),
                None => if reg@.contains_key(sender_id@) {
                    reg@[sender_id@].current_channel_id
                } else {
                    None
                },
            };
            match channel {
                None => r.is_none(),
                Some(c) => {
                    &&& r.is_some()
                    &&& reaches(
                        r.unwrap().recipients@,
                        reg@,
                        (Audience::ChannelExcept { channel_id: c, except: *sender_id }).users(reg@),
                    )
                    &&& r.unwrap().event == OutboundEvent::ReceiveUserIsTyping(
                        TypingNotice { user_id: *sender_id, channel_id: c },
                    )
                },
            }
        }),
{
    let channel = match req.channel_id {
        Some(c) => Some(c),
        None => match reg.lookup(sender_id.as_str()) {
            Some(conn) => conn.current_channel_id,
            None => None,
        },
    };
    match channel {
        None => None,
        Some(c) => {
            let audience = Audience::ChannelExcept { channel_id: c.clone(), except: sender_id.clone() };
            let rs = recipients(reg, &audience);
            let notice = TypingNotice { user_id: sender_id.clone(), channel_id: c };
            Some(Delivery { recipients: rs, event: OutboundEvent::ReceiveUserIsTyping(notice) })
        },
    }
}

/// A mute-state change as a client sends it.
#[derive(Debug, Clone)]
pub struct MuteRequest {
    pub muted: Option<bool>,
}

/// The connection with its microphone (`mic`) or audio mute flag set.
pub open spec fn mute_update(mic: bool, muted: bool) -> SessionUpdate {
    if mic {
        SessionUpdate::MicMuted(muted)
    } else {
        SessionUpdate::AudioMuted(muted)
    }
}

/// What changing a mute flag of `sender_id` to the requested state yields:
/// a request without a state, or from a user no longer online, changes
/// nothing and tells nobody; otherwise the flag is set on the sender's
/// connection and every other user online is told.
pub open spec fn mute_spec(
    old_reg: Map<Seq<char>, crate::registry::UserConnection>,
    new_reg: Map<Seq<char>, crate::registry::UserConnection>,
    sender_id: String,
    req: MuteRequest,
    mic: bool,
    r: Option<Delivery>,
) -> bool {
    match req.muted {
        Some(m) if old_reg.contains_key(sender_id@) => {
            &&& new_reg == old_reg.insert(sender_id@, mute_update(mic, m).apply_spec(old_reg[sender_id@]))
            &&& r.is_some()
            &&& reaches(r.unwrap().recipients@, new_reg, new_reg.dom().remove(sender_id@))
            &&& r.unwrap().event == (if mic {
                OutboundEvent::ReceiveUserMicrophoneStatusChanged(MuteNotice { user_id: sender_id, muted: m })
            } else {
                OutboundEvent::ReceiveUserAudioMuteStatusChanged(MuteNotice { user_id: sender_id, muted: m })
            })
        },
        _ => new_reg == old_reg && r.is_none(),
    }
}

fn mute_changed(reg: &mut SessionRegistry, sender_id: &String, req: MuteRequest, mic: bool) -> (r:
    Option<Delivery>)
    requires
        old(reg).wf(),
    ensures
        final(reg).wf(),
        mute_spec(old(reg)@, final(reg)@, *sender_id, req, mic, r),
{
    match req.muted {
        None => None,
        Some(m) => {
            let update = if mic {
                SessionUpdate::MicMuted(m)
            } else {
                SessionUpdate::AudioMuted(m)
            };
            if reg.update_in_place(sender_id.as_str(), update) {
                let rs = broadcast_except(reg, sender_id.as_str());
                let notice = MuteNotice { user_id: sender_id.clone(), muted: m };
                let event = if mic {
                    OutboundEvent::ReceiveUserMicrophoneStatusChanged(notice)
                } else {
                    OutboundEvent::ReceiveUserAudioMuteStatusChanged(notice)
                };
                Some(Delivery { recipients: rs, event })
            } else {
                None
            }
        },
    }
}

/// Sets whether the sender's microphone is muted, and tells every other
/// user online.
pub fn send_user_microphone_status_changed(
    reg: &mut SessionRegistry,
    sender_id: &String,
    req: MuteRequest,
) -> (r: Option<Delivery>)
    requires
        old(reg).wf(),
    ensures
        final(reg).wf(),
        mute_spec(old(reg)@, final(reg)@, *sender_id, req, true, r),
{
    mute_changed(reg, sender_id, req, true)
}

/// Sets whether the sender's audio is muted, and tells every other user
/// online.
pub fn send_user_audio_mute_status_changed(
    reg: &mut SessionRegistry,
    sender_id: &String,
    req: MuteRequest,
) -> (r: Option<Delivery>)
    requires
        old(reg).wf(),
    ensures
        final(reg).wf(),
        mute_spec(old(reg)@, final(reg)@, *sender_id, req, false, r),
{
    mute_changed(reg, sender_id, req, false)
}

/// A chat message as a client sends it.
#[derive(Debug, Clone)]
pub struct SendMessageRequest {
    pub channel_id: Option<String>,
    pub content: Option<String>,
    pub attachment_ids: Option<Vec<String>>,
}

/// A chat message ready to be stored.
#[derive(Debug, Clone)]
pub struct NewMessage {
    pub id: String,
    pub user_id: String,
    pub channel_id: String,
    pub content: Option<String>,
    pub created_at: Timestamp,
}

/// Why a chat message was dropped.
#[derive(Debug, Clone, Copy, PartialEq, Eq, Structural)]
pub enum ChatError {
    /// The request named no channel.
    ValidationFailed,
    /// The store did not take the message.
    PersistenceFailed,
}

/// Relies on `uuid::Uuid::new_v4` and its `to_string`: a random UUID in
/// its hyphenated form, 36 characters long.
#[verifier::external_body]
fn new_message_id() -> (r: String)
    ensures
        r@.len() == 36,
{
    uuid::Uuid::new_v4().to_string()
}

/// Validates a chat message of `author_id` and makes it ready to store
/// under `id` at `now`. A request whose channel id is missing or empty is
/// refused with `ValidationFailed`; the content is free text, possibly none.
pub fn prepare_chat_message(author_id: &String, req: SendMessageRequest, id: String, now: Timestamp) -> (r:
    Result<NewMessage, ChatError>)
    ensures
        match req.channel_id {
            Some(c) if c@.len() > 0 => r == Ok::<NewMessage, ChatError>(
                NewMessage { id, user_id: *author_id, channel_id: c, content: req.content, created_at: now },
            ),
            _ => r == Err::<NewMessage, ChatError>(ChatError::ValidationFailed),
        },
{
    match req.channel_id {
        Some(c) => {
            if c.as_str().unicode_len() > 0 {
                Ok(
                    NewMessage {
                        id,
                        user_id: author_id.clone(),
                        channel_id: c,
                        content: req.content,
                        created_at: now,
                    },
                )
            } else {
                Err(ChatError::ValidationFailed)
            }
        },
        None => Err(ChatError::ValidationFailed),
    }
}

/// The first half of handling a chat message: validate it and make it
/// ready to store, under a fresh random id at the current time.
pub fn send_chat_message_handler(author_id: &String, req: SendMessageRequest) -> (r: Result<
    NewMessage,
    ChatError,
>)
    ensures
        match req.channel_id {
            Some(c) if c@.len() > 0 => {
                &&& r.is_ok()
                &&& r.unwrap().id@.len() == 36
                &&& r.unwrap().user_id == *author_id
                &&& r.unwrap().channel_id == c
                &&& r.unwrap().content == req.content
            },
            _ => r == Err::<NewMessage, ChatError>(ChatError::ValidationFailed),
        },
{
    let id = new_message_id();
    let t = now();
    prepare_chat_message(author_id, req, id, t)
}

/// The second half of handling a chat message: once the store has the
/// message, every user online is notified of the stored record, with its
/// author's public profile. Without a stored record nobody is notified:
/// a notification never precedes the write it reports.
pub fn chat_message_saved(reg: &SessionRegistry, author: &User, saved: Option<Message>) -> (r: Result<
    Delivery,
    ChatError,
>)
    requires
        reg.wf(),
    ensures
        saved.is_none() ==> r == Err::<Delivery, ChatError>(ChatError::PersistenceFailed),
        saved.is_some() ==> {
            let m = saved.unwrap();
            &&& r.is_ok()
            &&& reaches(r.unwrap().recipients@, reg@, reg@.dom())
            &&& match r.unwrap().event {
                OutboundEvent::ReceiveChatMessage(p) => {
                    &&& p.message.id == m.id
                    &&& p.message.userId == m.user_id
                    &&& p.message.channelId == m.channel_id
                    &&& p.message.content == m.content
                    &&& p.message.createdAt == m.created_at
                    &&& p.message.updatedAt == m.updated_at
                    &&& p.message.deletedAt == m.deleted_at
                    &&& p.message.deletedByUserId == m.deleted_by_user_id
                    &&& p.message.user == author.resource_spec()
                    &&& p.message.attachments@.len() == 0
                },
                _ => false,
            }
        },
{
    match saved {
        None => Err(ChatError::PersistenceFailed),
        Some(m) => {
            let rs = broadcast(reg);
            let message = m.to_resource(author.to_resource());
            Ok(
                Delivery {
                    recipients: rs,
                    event: OutboundEvent::ReceiveChatMessage(ReceiveChatMessagePayload { message }),
                },
            )
        },
    }
}

} // verus!
