use crate::clock::{new_random_id, now_unix_nanos};
use crate::validation::{add_if, error_if, field_error, finish, validation_result, ValidationErrors};
use ::validator::ValidateEmail;
use vstd::prelude::*;

verus! {

/// An account of the service. Times are nanoseconds since the Unix epoch.
#[derive(Debug)]
pub struct Account {
    pub id: u128,
    pub name: String,
    pub created_at: i128,
    pub updated_at: i128,
    pub admin: bool,
    pub intends_to_use_shared_aggregators: Option<bool>,
}

/// Whether an account name has an allowed length, 3 to 100 characters.
pub open spec fn account_name_fits(name: Seq<char>) -> bool {
    3 <= name.len() <= 100
}

/// A request to open an account.
#[derive(Debug)]
pub struct NewAccount {
    pub name: Option<String>,
}

/// The rules that a request to open an account breaks: a name is required,
/// of 3 to 100 characters.
pub open spec fn new_account_errors(n: NewAccount) -> Seq<(Seq<Seq<char>>, Seq<char>)> {
    match n.name {
        None => seq![field_error("name"@, "required"@)],
        Some(s) => error_if(!account_name_fits(s@), "name"@, "length"@),
    }
}

impl NewAccount {
    /// Checks the rules of the request.
    pub fn validate(&self) -> (r: Result<(), ValidationErrors>)
        ensures
            validation_result(r, new_account_errors(*self)),
    {
        let mut errors = ValidationErrors::new();
        match &self.name {
            None => errors.add("name", "required"),
            Some(s) => {
                let n = s.as_str().unicode_len();
                add_if(&mut errors, n < 3 || n > 100, "name", "length");
            },
        }
        proof {
            assert(errors@ =~= new_account_errors(*self));
        }
        finish(errors)
    }

    /// The account that the request opens: not an administrator, with no
    /// stated intent about shared aggregators, created now.
    pub fn build(self) -> (r: Result<Account, ValidationErrors>)
        ensures
            match r {
                Ok(a) => new_account_errors(self).len() == 0 && self.name == Some(a.name)
                    && !a.admin && a.intends_to_use_shared_aggregators is None && a.created_at
                    == a.updated_at,
                Err(e) => new_account_errors(self).len() > 0 && e@ == new_account_errors(self),
            },
    {
        match self.validate() {
            Err(e) => Err(e),
            Ok(()) => {
                let name = match self.name {
                    Some(n) => n,
                    None => String::new(),
                };
                let now = now_unix_nanos();
                Ok(
                    Account {
                        id: new_random_id(),
                        name,
                        created_at: now,
                        updated_at: now,
                        admin: false,
                        intends_to_use_shared_aggregators: None,
                    },
                )
            },
        }
    }
}

impl Account {
    /// Opens an account of the given name.
    pub fn build(name: String) -> (r: Result<Account, ValidationErrors>)
        ensures
            match r {
                Ok(a) => account_name_fits(name@) && a.name == name && !a.admin,
                Err(e) => !account_name_fits(name@) && e@ == seq![
                    field_error("name"@, "length"@),
                ],
            },
    {
        NewAccount { name: Some(name) }.build()
    }
}

/// A change to an account.
#[derive(Debug)]
pub struct UpdateAccount {
    pub name: Option<String>,
    pub intends_to_use_shared_aggregators: Option<bool>,
}

/// The rules that a change to an account breaks: a new name must have 3 to
/// 100 characters.
pub open spec fn update_account_errors(u: UpdateAccount) -> Seq<(Seq<Seq<char>>, Seq<char>)> {
    match u.name {
        None => seq![],
        Some(s) => error_if(!account_name_fits(s@), "name"@, "length"@),
    }
}

impl UpdateAccount {
    /// Checks the rules of the change.
    pub fn validate(&self) -> (r: Result<(), ValidationErrors>)
        ensures
            validation_result(r, update_account_errors(*self)),
    {
        let mut errors = ValidationErrors::new();
        match &self.name {
            None => {},
            Some(s) => {
                let n = s.as_str().unicode_len();
                add_if(&mut errors, n < 3 || n > 100, "name", "length");
            },
        }
        proof {
            assert(errors@ =~= update_account_errors(*self));
        }
        finish(errors)
    }

    /// The account with the change applied; it is marked updated only when
    /// something was set.
    pub fn build(self, account: Account) -> (r: Result<Account, ValidationErrors>)
        ensures
            match r {
                Ok(a) => {
                    &&& update_account_errors(self).len() == 0
                    &&& a.name == (match self.name {
                        Some(n) => n,
                        None => account.name,
                    })
                    &&& a.intends_to_use_shared_aggregators == (match self.intends_to_use_shared_aggregators {
                        Some(b) => Some(b),
                        None => account.intends_to_use_shared_aggregators,
                    })
                    &&& a.id == account.id
                    &&& a.admin == account.admin
                    &&& a.created_at == account.created_at
                    &&& (self.name is None && self.intends_to_use_shared_aggregators is None)
                        ==> a.updated_at == account.updated_at
                },
                Err(e) => update_account_errors(self).len() > 0 && e@ == update_account_errors(
                    self,
                ),
            },
    {
        match self.validate() {
            Err(e) => {
                return Err(e);
            },
            Ok(()) => {},
        }
        let changed = self.name.is_some() || self.intends_to_use_shared_aggregators.is_some();
        let mut account = account;
        match self.name {
            Some(n) => {
                account.name = n;
            },
            None => {},
        }
        match self.intends_to_use_shared_aggregators {
            Some(b) => {
                account.intends_to_use_shared_aggregators = Some(b);
            },
            None => {},
        }
        if changed {
            account.updated_at = now_unix_nanos();
        }
        Ok(account)
    }
}

/// Whether the `validator` crate's e-mail check accepts a text.
pub uninterp spec fn spec_is_email(s: Seq<char>) -> bool;

/// `validator::ValidateEmail::validate_email` on a text, the HTML5 form of an
/// e-mail address. Its verdict is named `spec_is_email`.
#[verifier::external_body]
fn is_email(s: &str) -> (r: bool)
    ensures
        r == spec_is_email(s@),
{
    s.validate_email()
}

/// A user's membership in an account. Times are nanoseconds since the Unix
/// epoch.
#[derive(Debug)]
pub struct Membership {
    pub id: u128,
    pub account_id: u128,
    pub user_email: String,
    pub created_at: i128,
}

/// A request to add a user to an account.
#[derive(Debug)]
pub struct CreateMembership {
    pub user_email: Option<String>,
}

/// The rules that a request to add a user breaks: an e-mail address is
/// required.
pub open spec fn create_membership_errors(c: CreateMembership) -> Seq<
    (Seq<Seq<char>>, Seq<char>),
> {
    match c.user_email {
        None => seq![field_error("user_email"@, "required"@)],
        Some(e) => error_if(!spec_is_email(e@), "user_email"@, "email"@),
    }
}

impl CreateMembership {
    /// Checks the rules of the request.
    pub fn validate(&self) -> (r: Result<(), ValidationErrors>)
        ensures
            validation_result(r, create_membership_errors(*self)),
    {
        let mut errors = ValidationErrors::new();
        match &self.user_email {
            None => errors.add("user_email", "required"),
            Some(e) => add_if(&mut errors, !is_email(e.as_str()), "user_email", "email"),
        }
        proof {
            assert(errors@ =~= create_membership_errors(*self));
        }
        finish(errors)
    }

    /// The membership of the user in the account, created now.
    pub fn build(self, account_id: u128) -> (r: Result<Membership, ValidationErrors>)
        ensures
            match r {
                Ok(m) => create_membership_errors(self).len() == 0 && self.user_email == Some(
                    m.user_email,
                ) && m.account_id == account_id,
                Err(e) => create_membership_errors(self).len() > 0 && e@
                    == create_membership_errors(self),
            },
    {
        match self.validate() {
            Err(e) => Err(e),
            Ok(()) => {
                let user_email = match self.user_email {
                    Some(e) => e,
                    None => String::new(),
                };
                Ok(
                    Membership {
                        id: new_random_id(),
                        account_id,
                        user_email,
                        created_at: now_unix_nanos(),
                    },
                )
            },
        }
    }
}

impl Membership {
    /// The membership of a user, by e-mail address, in an account.
    pub fn build(email: String, account_id: u128) -> (r: Result<Membership, ValidationErrors>)
        ensures
            match r {
                Ok(m) => spec_is_email(email@) && m.user_email == email && m.account_id
                    == account_id,
                Err(e) => !spec_is_email(email@) && e@ == seq![
                    field_error("user_email"@, "email"@),
                ],
            },
    {
        CreateMembership { user_email: Some(email) }.build(account_id)
    }
}

} // verus!
