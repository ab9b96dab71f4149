use vstd::prelude::*;

verus! {

/// An instant, as whole seconds since the Unix epoch plus a sub-second part.
#[derive(Debug, Clone, Copy, PartialEq, Eq, Structural)]
pub struct Timestamp {
    pub secs: i64,
    pub nanos: u32,
}

/// Clones an optional string, keeping it equal to the original.
pub fn clone_opt_string(s: &Option<String>) -> (r: Option<String>)
    ensures
        r == *s,
{
    match s {
        Some(v) => Some(v.clone()),
        None => None,
    }
}

/// A stored channel.
#[derive(Debug, Clone)]
pub struct Channel {
    pub id: String,
    pub name: String,
    pub sort_order: i32,
    pub is_default: i8,
    pub created_at: Timestamp,
    pub updated_at: Timestamp,
    pub deleted_at: Option<Timestamp>,
}

/// A stored chat message.
#[derive(Debug, Clone)]
pub struct Message {
    pub id: String,
    pub user_id: String,
    pub channel_id: String,
    pub content: Option<String>,
    pub created_at: Timestamp,
    pub updated_at: Timestamp,
    pub deleted_at: Option<Timestamp>,
    pub deleted_by_user_id: Option<String>,
}

/// A stored user account.
#[derive(Debug, Clone)]
pub struct User {
    pub id: String,
    pub username: String,
    pub display_name: String,
    pub password: String,
    pub is_system_user: i8,
    pub created_at: Timestamp,
    pub updated_at: Timestamp,
}

/// A file attached to a message, as clients see it.
#[allow(non_snake_case)]
#[derive(Debug, Clone)]
pub struct AttachmentResource {
    pub id: String,
    pub type_: Option<String>,
    pub modelId: Option<String>,
    pub modelType: Option<String>,
    pub mimeType: Option<String>,
    pub filename: Option<String>,
    pub createdAt: Timestamp,
    pub updatedAt: Timestamp,
}

/// A channel as clients see it.
#[allow(non_snake_case)]
#[derive(Debug, Clone)]
pub struct ChannelResource {
    pub id: String,
    pub name: String,
    pub sortOrder: i32,
    pub isDefault: bool,
    pub createdAt: Timestamp,
    pub updatedAt: Timestamp,
    pub deletedAt: Option<Timestamp>,
}

/// The public profile of a user: no password and no internal fields.
#[allow(non_snake_case)]
#[derive(Debug, Clone)]
pub struct UserResource {
    pub id: String,
    pub username: String,
    pub displayName: String,
    pub isSystemUser: bool,
    pub profilePicture: Option<String>,
    pub isOnline: bool,
    pub currentChannelId: Option<String>,
    pub connectedAt: Option<Timestamp>,
    pub createdAt: Timestamp,
    pub updatedAt: Timestamp,
}

/// A message enriched with its author's public profile.
#[allow(non_snake_case)]
#[derive(Debug, Clone)]
pub struct MessageResource {
    pub id: String,
    pub userId: String,
    pub channelId: String,
    pub content: Option<String>,
    pub createdAt: Timestamp,
    pub updatedAt: Timestamp,
    pub deletedAt: Option<Timestamp>,
    pub deletedByUserId: Option<String>,
    pub user: UserResource,
    pub attachments: Vec<AttachmentResource>,
}

/// The profile a user reads about themselves.
#[allow(non_snake_case)]
#[derive(Debug, Clone)]
pub struct AuthMeUserResource {
    pub id: String,
    pub username: String,
    pub displayName: String,
    pub isSystemUser: bool,
    pub profilePicture: Option<String>,
    pub isOnline: bool,
    pub currentChannelId: Option<String>,
    pub connectedAt: Option<Timestamp>,
    pub createdAt: Timestamp,
    pub updatedAt: Timestamp,
    pub permissions: Vec<String>,
}

/// Public facts about the server, and its channels.
#[allow(non_snake_case)]
#[derive(Debug, Clone)]
pub struct ServerInfoResource {
    pub id: String,
    pub name: String,
    pub description: String,
    pub createdAt: String,
    pub updatedAt: String,
    pub channels: Vec<ChannelResource>,
}

/// Each channel as clients see it, in the order given.
pub fn channel_resources(channels: &Vec<Channel>) -> (r: Vec<ChannelResource>)
    ensures
        r@.len() == channels@.len(),
        forall|i: int| 0 <= i < channels@.len() ==> #[trigger] r@[i] == channels@[i].resource_spec(),
{
    let mut out: Vec<ChannelResource> = Vec::new();
    let mut i: usize = 0;
    while i < channels.len()
        invariant
            0 <= i <= channels@.len(),
            out@.len() == i,
            forall|j: int| 0 <= j < i ==> #[trigger] out@[j] == channels@[j].resource_spec(),
        decreases channels@.len() - i,
    {
        out.push(channels[i].to_resource());
        i += 1;
    }
    out
}

/// The description of this server, listing `channels` as clients see them.
pub fn server_info(channels: &Vec<Channel>) -> (r: ServerInfoResource)
    ensures
        r.channels@.len() == channels@.len(),
        forall|i: int| 0 <= i < channels@.len() ==> #[trigger] r.channels@[i] == channels@[i].resource_spec(),
        r.id@ == "27551e8f-8e8d-4c54-b8e8-4c005a56076b"@,
        r.name@ == "Testing Server"@,
{
    ServerInfoResource {
        id: "27551e8f-8e8d-4c54-b8e8-4c005a56076b".to_string(),
        name: "Testing Server".to_string(),
        description: "Lorem Ipsum ...".to_string(),
        createdAt: "2023-06-15 19:25:40".to_string(),
        updatedAt: "2023-06-15 19:25:40".to_string(),
        channels: channel_resources(channels),
    }
}

impl User {
    /// A field-by-field copy.
    pub fn duplicate(&self) -> (r: User)
        ensures
            r == *self,
    {
        User {
            id: self.id.clone(),
            username: self.username.clone(),
            display_name: self.display_name.clone(),
            password: self.password.clone(),
            is_system_user: self.is_system_user,
            created_at: self.created_at,
            updated_at: self.updated_at,
        }
    }

    /// The public profile of this user, as seen by someone who does not know
    /// whether the user is connected.
    pub open spec fn resource_spec(self) -> UserResource {
        UserResource {
            id: self.id,
            username: self.username,
            displayName: self.display_name,
            isSystemUser: self.is_system_user == 1,
            profilePicture: None,
            isOnline: false,
            currentChannelId: None,
            connectedAt: None,
            createdAt: self.created_at,
            updatedAt: self.updated_at,
        }
    }

    pub fn to_resource(&self) -> (r: UserResource)
        ensures
            r == self.resource_spec(),
    {
        UserResource {
            id: self.id.clone(),
            username: self.username.clone(),
            displayName: self.display_name.clone(),
            isSystemUser: self.is_system_user == 1,
            profilePicture: None,
            isOnline: false,
            currentChannelId: None,
            connectedAt: None,
            createdAt: self.created_at,
            updatedAt: self.updated_at,
        }
    }

    pub fn to_auth_me_resource(&self) -> (r: AuthMeUserResource)
        ensures
            r.id == self.id,
            r.username == self.username,
            r.displayName == self.display_name,
            r.isSystemUser == (self.is_system_user == 1),
            r.profilePicture.is_none(),
            !r.isOnline,
            r.currentChannelId.is_none(),
            r.connectedAt.is_none(),
            r.createdAt == self.created_at,
            r.updatedAt == self.updated_at,
            r.permissions@.len() == 0,
    {
        AuthMeUserResource {
            id: self.id.clone(),
            username: self.username.clone(),
            displayName: self.display_name.clone(),
            isSystemUser: self.is_system_user == 1,
            profilePicture: None,
            isOnline: false,
            currentChannelId: None,
            connectedAt: None,
            createdAt: self.created_at,
            updatedAt: self.updated_at,
            permissions: Vec::new(),
        }
    }
}

impl Channel {
    pub open spec fn resource_spec(self) -> ChannelResource {
        ChannelResource {
            id: self.id,
            name: self.name,
            sortOrder: self.sort_order,
            isDefault: self.is_default != 0,
            createdAt: self.created_at,
            updatedAt: self.updated_at,
            deletedAt: self.deleted_at,
        }
    }

    pub fn to_resource(&self) -> (r: ChannelResource)
        ensures
            r == self.resource_spec(),
    {
        ChannelResource {
            id: self.id.clone(),
            name: self.name.clone(),
            sortOrder: self.sort_order,
            isDefault: self.is_default != 0,
            createdAt: self.created_at,
            updatedAt: self.updated_at,
            deletedAt: self.deleted_at,
        }
    }
}

impl Message {
    /// A field-by-field copy.
    pub fn duplicate(&self) -> (r: Message)
        ensures
            r == *self,
    {
        Message {
            id: self.id.clone(),
            user_id: self.user_id.clone(),
            channel_id: self.channel_id.clone(),
            content: clone_opt_string(&self.content),
            created_at: self.created_at,
            updated_at: self.updated_at,
            deleted_at: self.deleted_at,
            deleted_by_user_id: clone_opt_string(&self.deleted_by_user_id),
        }
    }

    /// This message with `user` as its author's profile and no attachments.
    pub fn to_resource(&self, user: UserResource) -> (r: MessageResource)
        ensures
            r.id == self.id,
            r.userId == self.user_id,
            r.channelId == self.channel_id,
            r.content == self.content,
            r.createdAt == self.created_at,
            r.updatedAt == self.updated_at,
            r.deletedAt == self.deleted_at,
            r.deletedByUserId == self.deleted_by_user_id,
            r.user == user,
            r.attachments@.len() == 0,
    {
        MessageResource {
            id: self.id.clone(),
            userId: self.user_id.clone(),
            channelId: self.channel_id.clone(),
            content: clone_opt_string(&self.content),
            createdAt: self.created_at,
            updatedAt: self.updated_at,
            deletedAt: self.deleted_at,
            deletedByUserId: clone_opt_string(&self.deleted_by_user_id),
            user,
            attachments: Vec::new(),
        }
    }
}

} // verus!
