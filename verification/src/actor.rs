//! The caller of an RPC: its normalised role and optional user id, and what
//! that role is allowed to do.

use vstd::prelude::*;

use crate::text::{
    ascii_lower, ascii_lower_equals, lemma_trim_idempotent, lemma_trim_window, text_equals,
    trim_text, trimmed,
};

verus! {

pub const ROLE_SYSTEM_ADMIN: &'static str = "system_admin";

pub const ROLE_ADMIN: &'static str = "admin";

pub const ROLE_MEMBER: &'static str = "member";

pub open spec fn system_admin_role() -> Seq<char> {
    seq!['s', 'y', 's', 't', 'e', 'm', '_', 'a', 'd', 'm', 'i', 'n']
}

pub open spec fn admin_role() -> Seq<char> {
    seq!['a', 'd', 'm', 'i', 'n']
}

pub open spec fn member_role() -> Seq<char> {
    seq!['m', 'e', 'm', 'b', 'e', 'r']
}

/// The view of an optional text argument.
pub open spec fn opt_text(t: Option<&str>) -> Option<Seq<char>> {
    match t {
        Some(s) => Some(s@),
        None => None,
    }
}

/// The view of an optional owned string.
pub open spec fn opt_string(t: Option<String>) -> Option<Seq<char>> {
    match t {
        Some(s) => Some(s@),
        None => None,
    }
}

/// The text a role is matched by: trimmed and ASCII lower-cased, empty when
/// no role was given.
pub open spec fn role_key(role: Option<Seq<char>>) -> Seq<char> {
    match role {
        Some(r) => ascii_lower(trimmed(r)),
        None => Seq::empty(),
    }
}

/// The role a caller ends up with: `admin` or `member` when the key names
/// one of them, and `system_admin` for every other input, missing and
/// unknown roles included.
pub open spec fn normalized_role(role: Option<Seq<char>>) -> Seq<char> {
    let key = role_key(role);
    if key == admin_role() {
        admin_role()
    } else if key == member_role() {
        member_role()
    } else {
        system_admin_role()
    }
}

/// The user id a caller ends up with: the trimmed id, or none when it is
/// missing or only white space.
pub open spec fn normalized_user_id(user_id: Option<Seq<char>>) -> Option<Seq<char>> {
    match user_id {
        Some(u) => if trimmed(u).len() == 0 {
            None
        } else {
            Some(trimmed(u))
        },
        None => None,
    }
}

pub open spec fn is_known_role(role: Seq<char>) -> bool {
    role == system_admin_role() || role == admin_role() || role == member_role()
}

pub open spec fn is_admin_role(role: Seq<char>) -> bool {
    role == system_admin_role() || role == admin_role()
}

/// The permission names granted to an administrator or to anyone else.
pub open spec fn permission_names(admin: bool) -> Seq<Seq<char>> {
    if admin {
        seq![seq!['s', 'y', 's', 't', 'e', 'm', ':', 'a', 'd', 'm', 'i', 'n']]
    } else {
        seq![
            seq!['a', 'p', 'i', 'k', 'e', 'y', ':', 's', 'e', 'l', 'f'],
            seq!['r', 'e', 'q', 'u', 'e', 's', 't', 'l', 'o', 'g', ':', 's', 'e', 'l', 'f'],
            seq!['m', 'o', 'd', 'e', 'l', 's', ':', 'r', 'e', 'a', 'd'],
            seq!['p', 'r', 'o', 'f', 'i', 'l', 'e', ':', 's', 'e', 'l', 'f'],
        ]
    }
}

proof fn lemma_role_literals()
    ensures
        ROLE_SYSTEM_ADMIN@ == system_admin_role(),
        ROLE_ADMIN@ == admin_role(),
        ROLE_MEMBER@ == member_role(),
{
    reveal_strlit("system_admin");
    reveal_strlit("admin");
    reveal_strlit("member");
    assert(ROLE_SYSTEM_ADMIN@ =~= system_admin_role());
    assert(ROLE_ADMIN@ =~= admin_role());
    assert(ROLE_MEMBER@ =~= member_role());
}

/// Maps a requested role to one of the three known roles.
pub fn normalize_role(role: Option<&str>) -> (r: &'static str)
    ensures
        r@ == normalized_role(opt_text(role)),
{
    proof {
        lemma_role_literals();
    }
    let trimmed_role: &str = match role {
        Some(r) => trim_text(r),
        None => "",
    };
    proof {
        reveal_strlit("");
        assert(ascii_lower(trimmed_role@) =~= role_key(opt_text(role)));
    }
    if ascii_lower_equals(trimmed_role, ROLE_ADMIN) {
        ROLE_ADMIN
    } else if ascii_lower_equals(trimmed_role, ROLE_MEMBER) {
        ROLE_MEMBER
    } else {
        ROLE_SYSTEM_ADMIN
    }
}

/// The identity of an RPC caller.
#[derive(Debug, Clone)]
pub struct RpcActor {
    pub role: String,
    pub user_id: Option<String>,
}

impl RpcActor {
    /// The built-in administrator, with no user id.
    pub fn system_admin() -> (r: Self)
        ensures
            r.role@ == system_admin_role(),
            r.user_id is None,
    {
        proof {
            lemma_role_literals();
        }
        RpcActor { role: String::from_str(ROLE_SYSTEM_ADMIN), user_id: None }
    }

    /// Builds a caller from an untrusted role and user id: the role is
    /// normalised, the user id trimmed and dropped when empty.
    pub fn from_parts(role: Option<&str>, user_id: Option<&str>) -> (r: Self)
        ensures
            r.role@ == normalized_role(opt_text(role)),
            opt_string(r.user_id) == normalized_user_id(opt_text(user_id)),
    {
        let normalized: &str = normalize_role(role);
        proof {
            lemma_role_literals();
        }
        let user: Option<String> = match user_id {
            Some(u) => {
                let t: &str = trim_text(u);
                if t.unicode_len() == 0 {
                    None
                } else {
                    Some(String::from_str(t))
                }
            },
            None => None,
        };
        RpcActor { role: String::from_str(normalized), user_id: user }
    }

    /// Whether the caller is `system_admin` or `admin`.
    pub fn is_admin(&self) -> (b: bool)
        ensures
            b == is_admin_role(self.role@),
    {
        proof {
            lemma_role_literals();
        }
        text_equals(self.role.as_str(), ROLE_SYSTEM_ADMIN) || text_equals(
            self.role.as_str(),
            ROLE_ADMIN,
        )
    }

    /// Whether the caller is `member`.
    pub fn is_member(&self) -> (b: bool)
        ensures
            b == (self.role@ == member_role()),
    {
        proof {
            lemma_role_literals();
        }
        text_equals(self.role.as_str(), ROLE_MEMBER)
    }

    /// The permission names of the caller's role.
    pub fn permissions(&self) -> (r: Vec<&'static str>)
        ensures
            r@.map_values(|p: &'static str| p@) == permission_names(is_admin_role(self.role@)),
    {
        if self.is_admin() {
            let r: Vec<&'static str> = vec!["system:admin"];
            proof {
                reveal_strlit("system:admin");
                assert(r@[0]@ =~= permission_names(true)[0]);
                assert(r@.map_values(|p: &'static str| p@) =~= permission_names(true));
            }
            return r;
        }
        let r: Vec<&'static str> = vec!["apikey:self", "requestlog:self", "models:read", "profile:self"];
        proof {
            reveal_strlit("apikey:self");
            reveal_strlit("requestlog:self");
            reveal_strlit("models:read");
            reveal_strlit("profile:self");
            assert(r@[0]@ =~= permission_names(false)[0]);
            assert(r@[1]@ =~= permission_names(false)[1]);
            assert(r@[2]@ =~= permission_names(false)[2]);
            assert(r@[3]@ =~= permission_names(false)[3]);
            assert(r@.map_values(|p: &'static str| p@) =~= permission_names(false));
        }
        r
    }
}

/// Every normalised role is one of the three known roles.
pub proof fn lemma_normalized_role_is_known(role: Option<Seq<char>>)
    ensures
        is_known_role(normalized_role(role)),
{
}

/// Normalising a role that is already normalised changes nothing.
pub proof fn lemma_normalize_role_idempotent(role: Option<Seq<char>>)
    ensures
        normalized_role(Some(normalized_role(role))) == normalized_role(role),
{
    let n = normalized_role(role);
    lemma_trim_window(n);
    assert(trimmed(n) =~= n);
    if n == admin_role() {
        assert(ascii_lower(n) =~= admin_role());
    } else if n == member_role() {
        assert(ascii_lower(n) =~= member_role());
    } else {
        assert(ascii_lower(n) =~= system_admin_role());
        assert(ascii_lower(n)[0] != admin_role()[0]);
        assert(ascii_lower(n).len() != member_role().len());
    }
}

/// A caller is an administrator exactly when its normalised role is not
/// `member`; in particular every role other than `admin` and `member`
/// grants administration.
pub proof fn lemma_admin_unless_member(role: Option<Seq<char>>)
    ensures
        is_admin_role(normalized_role(role)) <==> normalized_role(role) != member_role(),
{
    assert(admin_role() != member_role()) by {
        assert(admin_role().len() != member_role().len());
    }
    assert(system_admin_role() != member_role()) by {
        assert(system_admin_role().len() != member_role().len());
    }
}

/// The user id kept by `from_parts` is non-empty and trimming it again
/// changes nothing, so building a caller again from a built caller's role and
/// user id gives the same caller.
pub proof fn lemma_normalized_user_id_is_trimmed(user_id: Option<Seq<char>>)
    ensures
        normalized_user_id(user_id) matches Some(u) ==> u.len() > 0 && trimmed(u) == u,
        normalized_user_id(normalized_user_id(user_id)) == normalized_user_id(user_id),
{
    if let Some(u) = user_id {
        lemma_trim_idempotent(u);
    }
}

} // verus!
