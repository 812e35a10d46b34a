use crate::strings::{owned, str_eq};
use vstd::prelude::*;

verus! {

/// The role that an aggregator may take in a task.
#[derive(Debug, Clone, Copy, PartialEq, Eq, Structural)]
pub enum Role {
    Leader,
    Helper,
    Either,
}

/// A role name that is not one of `leader`, `helper` or `either`; it holds
/// the name in lower case.
#[derive(Debug)]
pub struct UnrecognizedRole(pub String);

/// What `str::to_lowercase` returns for a text.
pub uninterp spec fn spec_to_lowercase(s: Seq<char>) -> Seq<char>;

/// Calls `str::to_lowercase`. Its result is named by `spec_to_lowercase`; of
/// it this states only that a text made of lower-case ASCII letters stays as
/// it is.
#[verifier::external_body]
pub(crate) fn to_lowercase(s: &str) -> (r: String)
    ensures
        r@ == spec_to_lowercase(s@),
        (forall|i: int| 0 <= i < s@.len() ==> 'a' <= #[trigger] s@[i] <= 'z') ==> r@ == s@,
{
    s.to_lowercase()
}

/// The text of a role.
pub open spec fn role_text(r: Role) -> Seq<char> {
    match r {
        Role::Leader => "leader"@,
        Role::Helper => "helper"@,
        Role::Either => "either"@,
    }
}

/// The role that a lower-cased name stands for, if any.
pub open spec fn role_of_lowercase(l: Seq<char>) -> Option<Role> {
    if l == "leader"@ {
        Some(Role::Leader)
    } else if l == "helper"@ {
        Some(Role::Helper)
    } else if l == "either"@ {
        Some(Role::Either)
    } else {
        None
    }
}

impl Role {
    /// The text of the role.
    pub fn as_ref(&self) -> (r: &str)
        ensures
            r@ == role_text(*self),
            *self == Role::Leader ==> r@ == "leader"@,
            *self == Role::Helper ==> r@ == "helper"@,
            *self == Role::Either ==> r@ == "either"@,
    {
        match self {
            Role::Leader => "leader",
            Role::Helper => "helper",
            Role::Either => "either",
        }
    }

    /// Whether the role is `Leader`.
    pub fn is_leader(&self) -> (r: bool)
        ensures
            r == (*self == Role::Leader),
    {
        match self {
            Role::Leader => true,
            _ => false,
        }
    }

    /// The role named by a name that is already in lower case.
    pub fn from_lowercase(lower: &str) -> (r: Result<Role, UnrecognizedRole>)
        ensures
            match r {
                Ok(role) => role_of_lowercase(lower@) == Some(role),
                Err(UnrecognizedRole(name)) => role_of_lowercase(lower@).is_none() && name@
                    == lower@,
            },
    {
        if str_eq(lower, "leader") {
            Ok(Role::Leader)
        } else if str_eq(lower, "helper") {
            Ok(Role::Helper)
        } else if str_eq(lower, "either") {
            Ok(Role::Either)
        } else {
            Err(UnrecognizedRole(owned(lower)))
        }
    }

    /// The role named by `s`, in any letter case.
    pub fn from_str(s: &str) -> (r: Result<Role, UnrecognizedRole>)
        ensures
            match r {
                Ok(role) => role_of_lowercase(spec_to_lowercase(s@)) == Some(role),
                Err(UnrecognizedRole(name)) => role_of_lowercase(spec_to_lowercase(s@)).is_none()
                    && name@ == spec_to_lowercase(s@),
            },
            (forall|i: int| 0 <= i < s@.len() ==> 'a' <= #[trigger] s@[i] <= 'z')
                ==> spec_to_lowercase(s@) == s@,
    {
        let lower = to_lowercase(s);
        Role::from_lowercase(lower.as_str())
    }
}

/// Roles are written as "leader", "helper" and "either", and a lower-cased
/// name stands for a role exactly when it is one of these texts.
pub proof fn lemma_role_names(l: Seq<char>)
    ensures
        (role_of_lowercase(l) == Some(Role::Leader)) <==> l == "leader"@,
        (role_of_lowercase(l) == Some(Role::Helper)) <==> l == "helper"@,
        (role_of_lowercase(l) == Some(Role::Either)) <==> l == "either"@,
        role_of_lowercase(l) is None <==> (l != "leader"@ && l != "helper"@ && l != "either"@),
        role_text(Role::Leader) == "leader"@,
        role_text(Role::Helper) == "helper"@,
        role_text(Role::Either) == "either"@,
{
    reveal_strlit("leader");
    reveal_strlit("helper");
    reveal_strlit("either");
    assert("leader"@[0] == 'l');
    assert("helper"@[0] == 'h');
    assert("either"@[0] == 'e');
}

/// Reading a role back from the text it is written as gives the same role:
/// the text is in lower case already, and names the role.
pub proof fn lemma_role_roundtrip(r: Role)
    ensures
        role_of_lowercase(role_text(r)) == Some(r),
        forall|i: int| 0 <= i < role_text(r).len() ==> 'a' <= #[trigger] role_text(r)[i] <= 'z',
{
    reveal_strlit("leader");
    reveal_strlit("helper");
    reveal_strlit("either");
    assert("leader"@[0] == 'l');
    assert("helper"@[0] == 'h');
    assert("either"@[0] == 'e');
}

} // verus!
