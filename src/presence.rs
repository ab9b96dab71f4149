use vstd::prelude::*;
use crate::models::{clone_opt_string, Timestamp, User, UserResource};
use crate::registry::{SessionRegistry, SessionUpdate, UserConnection};

verus! {

/// Whether a user is online and, if so, since when, where, and what is muted.
#[allow(non_snake_case)]
#[derive(Debug, Clone)]
pub struct ConnectionStateResource {
    pub isOnline: bool,
    pub connectedAt: Option<Timestamp>,
    pub currentChannelId: Option<String>,
    pub isAudioMuted: Option<bool>,
    pub isMicrophoneMuted: Option<bool>,
}

/// A user's public profile with their connection state.
#[allow(non_snake_case)]
#[derive(Debug, Clone)]
pub struct UserListResource {
    pub user: UserResource,
    pub connectionState: ConnectionStateResource,
}

/// The presence of `user_id` as the registry `reg` shows it.
pub open spec fn connection_state_spec(
    reg: Map<Seq<char>, UserConnection>,
    user_id: Seq<char>,
) -> ConnectionStateResource {
    if reg.contains_key(user_id) {
        let c = reg[user_id];
        ConnectionStateResource {
            isOnline: true,
            connectedAt: Some(c.connected_at),
            currentChannelId: c.current_channel_id,
            isAudioMuted: Some(c.is_audio_muted),
            isMicrophoneMuted: Some(c.is_mic_muted),
        }
    } else {
        ConnectionStateResource {
            isOnline: false,
            connectedAt: None,
            currentChannelId: None,
            isAudioMuted: None,
            isMicrophoneMuted: None,
        }
    }
}

/// The presence of `user_id` at the time of the call.
pub fn connection_state(reg: &SessionRegistry, user_id: &str) -> (r: ConnectionStateResource)
    ensures
        r == connection_state_spec(reg@, user_id@),
{
    match reg.lookup(user_id) {
        Some(c) => ConnectionStateResource {
            isOnline: true,
            connectedAt: Some(c.connected_at),
            currentChannelId: c.current_channel_id,
            isAudioMuted: Some(c.is_audio_muted),
            isMicrophoneMuted: Some(c.is_mic_muted),
        },
        None => ConnectionStateResource {
            isOnline: false,
            connectedAt: None,
            currentChannelId: None,
            isAudioMuted: None,
            isMicrophoneMuted: None,
        },
    }
}

/// The presence of every user online, at the time of the call: each user
/// once, with the state the registry holds for them. Later changes do not
/// show in the copy.
pub fn presence_snapshot(reg: &SessionRegistry) -> (r: Vec<(String, ConnectionStateResource)>)
    requires
        reg.wf(),
    ensures
        r@.len() == reg@.len(),
        forall|i: int|
            0 <= i < r@.len() ==> reg@.contains_key(#[trigger] r@[i].0@) && r@[i].1
                == connection_state_spec(reg@, r@[i].0@),
        forall|k: Seq<char>| #[trigger]
            reg@.contains_key(k) ==> exists|i: int| 0 <= i < r@.len() && r@[i].0@ == k,
        forall|i: int, j: int| 0 <= i < j < r@.len() ==> r@[i].0@ != r@[j].0@,
{
    let entries = reg.entries();
    let mut out: Vec<(String, ConnectionStateResource)> = Vec::new();
    let mut i: usize = 0;
    while i < entries.len()
        invariant
            0 <= i <= entries@.len(),
            out@.len() == i,
            entries@.len() == reg@.len(),
            forall|t: int|
                0 <= t < entries@.len() ==> reg@.contains_key(#[trigger] entries@[t].0@)
                    && reg@[entries@[t].0@] == entries@[t].1,
            forall|t: int| 0 <= t < i ==> (#[trigger] out@[t]).0 == entries@[t].0 && out@[t].1
                == connection_state_spec(reg@, entries@[t].0@),
        decreases entries@.len() - i,
    {
        let e = &entries[i];
        let c = &e.1;
        let state = ConnectionStateResource {
            isOnline: true,
            connectedAt: Some(c.connected_at),
            currentChannelId: clone_opt_string(&c.current_channel_id),
            isAudioMuted: Some(c.is_audio_muted),
            isMicrophoneMuted: Some(c.is_mic_muted),
        };
        out.push((e.0.clone(), state));
        i += 1;
    }
    proof {
        assert forall|k: Seq<char>| #[trigger] reg@.contains_key(k) implies exists|i: int|
            0 <= i < out@.len() && out@[i].0@ == k by {
            let t = choose|t: int| 0 <= t < entries@.len() && entries@[t].0@ == k;
            assert(out@[t].0@ == k);
        }
        assert forall|i: int, j: int| 0 <= i < j < out@.len() implies out@[i].0@ != out@[j].0@ by {
            assert(out@[i].0 == entries@[i].0);
            assert(out@[j].0 == entries@[j].0);
        }
    }
    out
}

/// Each user's public profile with their presence, in the order given.
pub fn user_list(reg: &SessionRegistry, users: &Vec<User>) -> (r: Vec<UserListResource>)
    ensures
        r@.len() == users@.len(),
        forall|i: int|
            0 <= i < users@.len() ==> (#[trigger] r@[i]).user == users@[i].resource_spec()
                && r@[i].connectionState == connection_state_spec(reg@, users@[i].id@),
{
    let mut out: Vec<UserListResource> = Vec::new();
    let mut i: usize = 0;
    while i < users.len()
        invariant
            0 <= i <= users@.len(),
            out@.len() == i,
            forall|j: int|
                0 <= j < i ==> (#[trigger] out@[j]).user == users@[j].resource_spec()
                    && out@[j].connectionState == connection_state_spec(reg@, users@[j].id@),
        decreases users@.len() - i,
    {
        let u = &users[i];
        let entry = UserListResource {
            user: u.to_resource(),
            connectionState: connection_state(reg, u.id.as_str()),
        };
        out.push(entry);
        i += 1;
    }
    out
}

/// A mute change is seen by the next presence read: once a user's
/// microphone or audio mute flag has been set in place, their presence
/// shows the new flag, the user still online, with no reconnect.
pub proof fn lemma_mute_change_visible(
    before: Map<Seq<char>, UserConnection>,
    user_id: Seq<char>,
    update: SessionUpdate,
    muted: bool,
)
    requires
        before.contains_key(user_id),
        update == SessionUpdate::MicMuted(muted) || update == SessionUpdate::AudioMuted(muted),
    ensures
        ({
            let after = before.insert(user_id, update.apply_spec(before[user_id]));
            let s = connection_state_spec(after, user_id);
            &&& s.isOnline
            &&& update == SessionUpdate::MicMuted(muted) ==> s.isMicrophoneMuted == Some(muted)
                && s.isAudioMuted == connection_state_spec(before, user_id).isAudioMuted
            &&& update == SessionUpdate::AudioMuted(muted) ==> s.isAudioMuted == Some(muted)
                && s.isMicrophoneMuted == connection_state_spec(before, user_id).isMicrophoneMuted
        }),
{
}

} // verus!
