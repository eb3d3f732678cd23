//! Data model of the emote-sharing platform: users and their roles,
//! emotes, emote sets, and colors.
//!
//! Identifiers are 64-bit integers minted by the allocator in
//! [`crate::snowflake`]; they are serialized as decimal strings at the
//! API boundary, which is the host application's concern.

use vstd::prelude::*;

verus! {

/// A capability tier assigned to a user, drawn from a fixed closed set.
/// No role is implicitly hierarchical beyond the single `Admin` override
/// applied by the authorization gate.
#[derive(Clone, Copy, Debug, PartialEq, Eq, Structural)]
pub enum Role {
    Verified,
    Subscriber,
    Founder,
    Contributor,
    Maintainer,
    Moderator,
    Admin,
}

/// A registered user.  Every user references exactly one "channel" emote
/// set; the set of roles may be empty.
#[derive(Clone, Debug)]
pub struct User {
    pub id: i64,
    pub twitch_id: i32,
    pub username: String,
    pub avatar_url: String,
    pub roles: Vec<Role>,
    pub badge_url: Option<String>,
    pub color_id: Option<i64>,
    pub channel_set_id: i64,
}

impl User {
    /// Whether the user holds the given role.
    pub fn has_role(&self, role: Role) -> (held: bool)
        ensures
            held == self.roles@.contains(role),
    {
        let mut i: usize = 0;
        while i < self.roles.len()
            invariant
                0 <= i <= self.roles@.len(),
                forall|j: int| 0 <= j < i ==> self.roles@[j] != role,
            decreases self.roles@.len() - i,
        {
            if self.roles[i] == role {
                return true;
            }
            i = i + 1;
        }
        false
    }

    /// Whether the user holds the `Admin` role.
    pub fn is_admin(&self) -> (admin: bool)
        ensures
            admin == self.roles@.contains(Role::Admin),
    {
        self.has_role(Role::Admin)
    }
}

/// An uploaded emote with its version history.
#[derive(Clone, Debug)]
pub struct Emote {
    pub id: i64,
    pub name: String,
    pub tags: Vec<String>,
    pub width: i32,
    pub height: i32,
    pub approved: bool,
    pub public: bool,
    pub animated: bool,
    pub modifier: bool,
    pub nsfw: bool,
    pub user_id: i64,
    pub versions: Vec<i64>,
}

/// An emote together with its owning user's record.
#[derive(Clone, Debug)]
pub struct EmoteWithUser {
    pub id: i64,
    pub name: String,
    pub tags: Vec<String>,
    pub width: i32,
    pub height: i32,
    pub approved: bool,
    pub public: bool,
    pub animated: bool,
    pub modifier: bool,
    pub nsfw: bool,
    pub versions: Vec<i64>,
    pub user: User,
}

/// One uploaded revision of an emote.
#[derive(Clone, Debug)]
pub struct EmoteVersion {
    pub id: i64,
    pub name: String,
    pub description: String,
    pub emote_id: i64,
}

/// Query parameters of an emote fetch: an optional version to pick.
#[derive(Clone, Debug)]
pub struct GetEmoteQuery {
    pub version: Option<i64>,
}

/// Query parameters of an emote search.
#[derive(Clone, Debug)]
pub struct SearchEmotesQuery {
    pub query: Option<String>,
}

/// Payload for creating an emote.
#[derive(Clone, Debug)]
pub struct CreateEmote {
    pub name: String,
    pub tags: Vec<String>,
    pub width: i32,
    pub height: i32,
    pub public: bool,
    pub animated: bool,
    pub modifier: bool,
    pub nsfw: bool,
}

/// Payload for updating an emote's moderation flags.
#[derive(Clone, Debug)]
pub struct UpdateEmote {
    pub approved: Option<bool>,
    pub nsfw: Option<bool>,
}

/// A named collection of emotes with a capacity, owned by a user.
#[derive(Clone, Debug)]
pub struct EmoteSet {
    pub id: i64,
    pub name: String,
    pub capacity: i32,
    pub user_id: i64,
    pub parent_id: Option<i64>,
}

/// An emote set together with the emotes it contains.
#[derive(Clone, Debug)]
pub struct EmoteSetWithEmotes {
    pub id: i64,
    pub name: String,
    pub capacity: i32,
    pub user_id: i64,
    pub parent_id: Option<i64>,
    pub emotes: Vec<Emote>,
}

/// Payload for creating an emote set.
#[derive(Clone, Debug)]
pub struct CreateEmoteSet {
    pub name: String,
    pub capacity: i32,
}

/// Payload for renaming or resizing an emote set.
#[derive(Clone, Debug)]
pub struct UpdateEmoteSet {
    pub name: Option<String>,
    pub capacity: Option<i32>,
}

/// An emote set as listed under a user.
#[derive(Clone, Debug)]
pub struct UserEmoteSet {
    pub id: i64,
    pub name: String,
    pub capacity: i32,
    pub user_id: i64,
    pub parent_id: Option<i64>,
}

/// A username color preset.
#[derive(Clone, Debug)]
pub struct Color {
    pub id: i64,
    pub name: String,
    pub gradient: String,
    pub shadow: String,
}

/// Payload for creating a color preset; only administrators may do so.
#[derive(Clone, Debug)]
pub struct CreateColor {
    pub name: String,
    pub gradient: String,
    pub shadow: String,
}

/// Credentials of the OAuth client used by the login route.
#[derive(Clone, Debug)]
pub struct AuthState {
    pub twitch_client_id: String,
    pub twitch_client_secret: String,
}

} // verus!
