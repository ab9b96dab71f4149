use vstd::prelude::*;
use crate::auth::AuthError;
use crate::clock::now;
use crate::models::{Timestamp, User};
use crate::registry::{SessionRegistry, UserConnection};

verus! {

/// What a connection knows of itself once admitted: the token it presented
/// and the user it belongs to, loaded once at handshake.
#[derive(Debug, Clone)]
pub struct ConnectionInfo {
    pub token: String,
    pub user: User,
}

/// An admitted connection, and the older connection of the same user that
/// it displaced, which the caller must close.
#[derive(Debug, Clone)]
pub struct Admission {
    pub info: ConnectionInfo,
    pub evicted: Option<UserConnection>,
}

/// Completes a handshake whose token named a user, given what looking that
/// user up found. Without a user the connection is refused with
/// `UnknownUser` and nothing is registered. With one, a fresh connection is
/// registered under the user's id at `now`, displacing any older one.
pub fn admit_connection(
    reg: &mut SessionRegistry,
    token: String,
    found: Option<User>,
    connection_id: String,
    now: Timestamp,
) -> (r: Result<Admission, AuthError>)
    requires
        old(reg).wf(),
    ensures
        final(reg).wf(),
        found.is_none() ==> r == Err::<Admission, AuthError>(AuthError::UnknownUser)
            && final(reg)@ == old(reg)@,
        found.is_some() ==> {
            let u = found.unwrap();
            &&& r.is_ok()
            &&& r.unwrap().info == (ConnectionInfo { token, user: u })
            &&& final(reg)@ == old(reg)@.insert(
                u.id@,
                UserConnection::fresh_spec(u, connection_id, now),
            )
            &&& r.unwrap().evicted == (if old(reg)@.contains_key(u.id@) {
                Some(old(reg)@[u.id@])
            } else {
                None::<UserConnection>
            })
        },
{
    match found {
        None => Err(AuthError::UnknownUser),
        Some(user) => {
            let conn = UserConnection::fresh(user.duplicate(), connection_id, now);
            let evicted = reg.register(conn);
            Ok(Admission { info: ConnectionInfo { token, user }, evicted })
        },
    }
}

/// `admit_connection` at the current time.
pub fn on_connect(
    reg: &mut SessionRegistry,
    token: String,
    found: Option<User>,
    connection_id: String,
) -> (r: Result<Admission, AuthError>)
    requires
        old(reg).wf(),
    ensures
        final(reg).wf(),
        found.is_none() ==> r == Err::<Admission, AuthError>(AuthError::UnknownUser)
            && final(reg)@ == old(reg)@,
        found.is_some() ==> {
            let u = found.unwrap();
            &&& r.is_ok()
            &&& r.unwrap().info == (ConnectionInfo { token, user: u })
            &&& final(reg)@.dom() == old(reg)@.dom().insert(u.id@)
            &&& final(reg)@[u.id@].user == u
            &&& final(reg)@[u.id@].connection_id == connection_id
            &&& final(reg)@[u.id@].current_channel_id.is_none()
            &&& !final(reg)@[u.id@].is_audio_muted
            &&& !final(reg)@[u.id@].is_mic_muted
            &&& forall|k: Seq<char>| k != u.id@ && #[trigger] old(reg)@.contains_key(k)
                ==> final(reg)@[k] == old(reg)@[k]
            &&& r.unwrap().evicted == (if old(reg)@.contains_key(u.id@) {
                Some(old(reg)@[u.id@])
            } else {
                None::<UserConnection>
            })
        },
{
    let t = now();
    admit_connection(reg, token, found, connection_id, t)
}

/// Tears down the connection `connection_id` of `user_id`. Its entry is
/// removed only while the registry still holds that very connection: once a
/// newer connection of the same user displaced it, the newer one stays.
/// Removing what is already gone changes nothing.
pub fn on_disconnect(reg: &mut SessionRegistry, user_id: &str, connection_id: &String) -> (r:
    Option<UserConnection>)
    requires
        old(reg).wf(),
    ensures
        final(reg).wf(),
        (old(reg)@.contains_key(user_id@) && old(reg)@[user_id@].connection_id@ == connection_id@)
            ==> final(reg)@ == old(reg)@.remove(user_id@) && r == Some(old(reg)@[user_id@]),
        !(old(reg)@.contains_key(user_id@) && old(reg)@[user_id@].connection_id@ == connection_id@)
            ==> final(reg)@ == old(reg)@ && r.is_none(),
{
    match reg.lookup(user_id) {
        Some(current) => {
            if current.connection_id == *connection_id {
                reg.remove(user_id)
            } else {
                None
            }
        },
        None => None,
    }
}

} // verus!
