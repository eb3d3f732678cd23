//! Bearer-token session resolution and role-gated authorization.
//!
//! An inbound request carries an `Authorization` header.  [`resolve`]
//! strips the bearer scheme and maps the token to the owning user through
//! a session store, failing with [`JsonError::Unauthorized`] for missing
//! or malformed credentials and [`JsonError::InvalidToken`] for a token
//! that matches no session.  [`authorize`] then checks the resolved user
//! against the requirement the route declares, failing with
//! [`JsonError::Forbidden`].
//!
//! Expired sessions are expected to be absent from the store already;
//! expiry enforcement is the collaborator that owns the sessions table,
//! not this resolver, which checks no expiry field.

use crate::error::JsonError;
use crate::models::{Role, User};
use vstd::prelude::*;
use vstd::string::StrSliceExecFns;
use vstd::utf8::is_ascii_chars;

verus! {

/// The capability a route declares for an operation, checked by
/// [`authorize`] against the resolved user.
#[derive(Clone, Copy, Debug, PartialEq, Eq, Structural)]
pub enum Requirement {
    /// Only a user holding the `Admin` role may proceed.
    AdminOnly,
    /// Only the named user, or an administrator, may proceed.
    SelfOrAdmin(i64),
    /// Only the owner of the resource may proceed, with no override.
    OwnerOnly(i64),
}

/// When a user meets a requirement: `AdminOnly` needs the `Admin` role;
/// `SelfOrAdmin(target)` is met by the target user themselves or by any
/// administrator; `OwnerOnly(owner)` is met by the owner alone.
pub open spec fn requirement_met(user: User, requirement: Requirement) -> bool {
    match requirement {
        Requirement::AdminOnly => user.roles@.contains(Role::Admin),
        Requirement::SelfOrAdmin(target) => user.id == target || user.roles@.contains(Role::Admin),
        Requirement::OwnerOnly(owner) => user.id == owner,
    }
}

/// The authorization gate: accepts exactly when the user meets the
/// declared requirement and fails with `Forbidden` otherwise.
pub fn authorize(user: &User, requirement: Requirement) -> (r: Result<(), JsonError>)
    ensures
        match r {
            Ok(_) => requirement_met(*user, requirement),
            Err(e) => !requirement_met(*user, requirement) && e == JsonError::Forbidden,
        },
{
    let allowed = match requirement {
        Requirement::AdminOnly => user.is_admin(),
        Requirement::SelfOrAdmin(target) => user.id == target || user.is_admin(),
        Requirement::OwnerOnly(owner) => user.id == owner,
    };
    if allowed {
        Ok(())
    } else {
        Err(JsonError::Forbidden)
    }
}

/// A well-formed `Authorization` header value: ASCII (the HTTP layer
/// hands over only visible-ASCII header values) and carrying the
/// case-sensitive `"Bearer "` scheme prefix.
pub open spec fn has_bearer_scheme(header: Seq<char>) -> bool {
    &&& is_ascii_chars(header)
    &&& header.len() >= 7
    &&& header.subrange(0, 7) == "Bearer "@
}

/// The token a well-formed header carries: everything after the scheme
/// prefix.
pub open spec fn bearer_token(header: Seq<char>) -> Seq<char> {
    header.subrange(7, header.len() as int)
}

/// Extracts the token by stripping the case-sensitive `"Bearer "` prefix;
/// a header without that scheme counts as missing credentials.  No lookup
/// happens here: the caller takes the token to the session store.
pub fn parse_bearer(header: &str) -> (r: Result<String, JsonError>)
    ensures
        match r {
            Ok(token) => has_bearer_scheme(header@) && token@ == bearer_token(header@),
            Err(e) => e == JsonError::Unauthorized && !has_bearer_scheme(header@),
        },
{
    let ascii = header.is_ascii();
    if !ascii {
        return Err(JsonError::Unauthorized);
    }
    let len = header.unicode_len();
    if len < 7 {
        return Err(JsonError::Unauthorized);
    }
    let prefix = header.substring_ascii(0, 7);
    let scheme: String = prefix.to_owned();
    let expected: String = "Bearer ".to_owned();
    if scheme == expected {
        Ok(header.substring_ascii(7, len).to_owned())
    } else {
        Err(JsonError::Unauthorized)
    }
}

/// An authenticated login: an opaque token (the primary key), the owning
/// user, and an expiry timestamp in milliseconds since the Unix epoch.
/// Sessions are created at login and deleted on logout or expiry by
/// collaborators; the resolver only reads them.
#[derive(Clone, Debug)]
pub struct Session {
    pub token: String,
    pub user_id: i64,
    pub expires_at: i64,
}

/// Pairwise distinct tokens: each token appears at most once.
spec fn tokens_unique(s: Seq<Session>) -> bool {
    forall|i: int, j: int|
        0 <= i < j < s.len() ==> (#[trigger] s[i].token@) != (#[trigger] s[j].token@)
}

/// The token-to-user map a sequence of sessions represents.
spec fn session_map(s: Seq<Session>) -> Map<Seq<char>, i64>
    decreases s.len(),
{
    if s.len() == 0 {
        Map::empty()
    } else {
        session_map(s.drop_last()).insert(s.last().token@, s.last().user_id)
    }
}

/// A key is in the map exactly when some session carries it as token.
proof fn lemma_session_map_contains(s: Seq<Session>, k: Seq<char>)
    ensures
        session_map(s).contains_key(k) <==> exists|i: int|
            0 <= i < s.len() && (#[trigger] s[i].token@) == k,
    decreases s.len(),
{
    if s.len() == 0 {
    } else {
        let prefix = s.drop_last();
        lemma_session_map_contains(prefix, k);
        if s.last().token@ == k {
            assert(s[s.len() - 1].token@ == k);
        } else {
            if session_map(s).contains_key(k) {
                let i = choose|i: int| 0 <= i < prefix.len() && (#[trigger] prefix[i].token@) == k;
                assert(s[i].token@ == k);
            }
            if exists|i: int| 0 <= i < s.len() && (#[trigger] s[i].token@) == k {
                let i = choose|i: int| 0 <= i < s.len() && (#[trigger] s[i].token@) == k;
                assert(i < s.len() - 1);
                assert(prefix[i].token@ == k);
            }
        }
    }
}

/// With pairwise distinct tokens, the map sends each session's token to
/// that session's user.
proof fn lemma_session_map_value(s: Seq<Session>, i: int)
    requires
        tokens_unique(s),
        0 <= i < s.len(),
    ensures
        session_map(s).contains_key(s[i].token@),
        session_map(s)[s[i].token@] == s[i].user_id,
    decreases s.len(),
{
    if i == s.len() - 1 {
    } else {
        let prefix = s.drop_last();
        assert(tokens_unique(prefix)) by {
            assert forall|a: int, b: int| 0 <= a < b < prefix.len() implies (#[trigger] prefix[a].token@)
                != (#[trigger] prefix[b].token@) by {
                assert(s[a].token@ != s[b].token@);
            }
        }
        assert(prefix[i] == s[i]);
        lemma_session_map_value(prefix, i);
        assert(s[i].token@ != s.last().token@);
    }
}

/// The session store the resolver queries: an in-memory table of
/// sessions keyed by token.  Viewed as the map from each token to the
/// owning user's identifier.
pub struct SessionStore {
    sessions: Vec<Session>,
}

impl View for SessionStore {
    type V = Map<Seq<char>, i64>;

    closed spec fn view(&self) -> Map<Seq<char>, i64> {
        session_map(self.sessions@)
    }
}

impl SessionStore {
    /// Tokens are primary keys: no two sessions share one.
    pub closed spec fn wf(&self) -> bool {
        tokens_unique(self.sessions@)
    }

    /// An empty store.
    pub fn new() -> (store: SessionStore)
        ensures
            store.wf(),
            store@ == Map::<Seq<char>, i64>::empty(),
    {
        let store = SessionStore { sessions: Vec::new() };
        proof {
            assert(store.sessions@.len() == 0);
        }
        store
    }

    /// Whether some session carries this token.
    pub fn contains_token(&self, token: &str) -> (found: bool)
        requires
            self.wf(),
        ensures
            found == self@.contains_key(token@),
    {
        self.lookup(token).is_some()
    }

    /// Adds a session, refusing a token that is already present (tokens
    /// are primary keys).  Returns whether the session was added.
    pub fn insert(&mut self, session: Session) -> (added: bool)
        requires
            old(self).wf(),
        ensures
            final(self).wf(),
            added == !old(self)@.contains_key(session.token@),
            added ==> final(self)@ == old(self)@.insert(session.token@, session.user_id),
            !added ==> final(self)@ == old(self)@,
    {
        if self.contains_token(session.token.as_str()) {
            return false;
        }
        proof {
            lemma_session_map_contains(self.sessions@, session.token@);
        }
        let ghost s0 = self.sessions@;
        self.sessions.push(session);
        proof {
            assert(self.sessions@.drop_last() =~= s0);
            assert(tokens_unique(self.sessions@)) by {
                assert forall|a: int, b: int|
                    0 <= a < b < self.sessions@.len() implies (#[trigger] self.sessions@[a].token@)
                    != (#[trigger] self.sessions@[b].token@) by {
                    if b == self.sessions@.len() - 1 {
                        assert(self.sessions@[a] == s0[a]);
                    } else {
                        assert(self.sessions@[a] == s0[a] && self.sessions@[b] == s0[b]);
                    }
                }
            }
        }
        true
    }

    /// Looks the token up: the owning user's identifier for a live
    /// session, nothing for an unknown token.
    pub fn lookup(&self, token: &str) -> (r: Option<i64>)
        requires
            self.wf(),
        ensures
            match r {
                Some(user_id) => self@.contains_key(token@) && user_id == self@[token@],
                None => !self@.contains_key(token@),
            },
    {
        let owned = token.to_owned();
        let mut i: usize = 0;
        while i < self.sessions.len()
            invariant
                self.wf(),
                0 <= i <= self.sessions@.len(),
                owned@ == token@,
                forall|j: int| 0 <= j < i ==> (#[trigger] self.sessions@[j].token@) != token@,
            decreases self.sessions@.len() - i,
        {
            let session = &self.sessions[i];
            if session.token == owned {
                proof {
                    lemma_session_map_value(self.sessions@, i as int);
                }
                return Some(session.user_id);
            }
            i = i + 1;
        }
        proof {
            lemma_session_map_contains(self.sessions@, token@);
        }
        None
    }
}

/// A request carries credentials exactly when an `Authorization` header
/// is present and uses the bearer scheme.
pub open spec fn has_credentials(header: Option<&str>) -> bool {
    match header {
        Some(h) => has_bearer_scheme(h@),
        None => false,
    }
}

/// Resolves a raw `Authorization` header to the owning user: fails with
/// `Unauthorized` when no header is present or it does not use the bearer
/// scheme; otherwise strips the scheme and performs exactly one lookup
/// against the session store keyed by the raw token, failing with
/// `InvalidToken` when no session matches.  No token hashing and no
/// caching: every call re-queries the store.
pub fn resolve(store: &SessionStore, header: Option<&str>) -> (r: Result<i64, JsonError>)
    requires
        store.wf(),
    ensures
        match r {
            Ok(user_id) => (header matches Some(h) && has_bearer_scheme(h@)
                && store@.contains_key(bearer_token(h@)) && user_id == store@[bearer_token(h@)]),
            Err(e) => (e == JsonError::Unauthorized && !has_credentials(header)) || (e
                == JsonError::InvalidToken && (header matches Some(h) && has_bearer_scheme(h@)
                && !store@.contains_key(bearer_token(h@)))),
        },
{
    let raw = match header {
        Some(h) => h,
        None => {
            return Err(JsonError::Unauthorized);
        },
    };
    let token = match parse_bearer(raw) {
        Ok(token) => token,
        Err(e) => {
            return Err(e);
        },
    };
    match store.lookup(token.as_str()) {
        Some(user_id) => Ok(user_id),
        None => Err(JsonError::InvalidToken),
    }
}

/// The outcome of fetching the resolved user's own record: a missing row
/// means the session points at an unknown user.
pub fn user_or_unknown(user: Option<User>) -> (r: Result<User, JsonError>)
    ensures
        match r {
            Ok(u) => user == Some(u),
            Err(e) => user is None && e == JsonError::UnknownUser,
        },
{
    match user {
        Some(u) => Ok(u),
        None => Err(JsonError::UnknownUser),
    }
}

} // verus!
