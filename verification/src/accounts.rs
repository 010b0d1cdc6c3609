use vstd::prelude::*;
use vstd::string::*;

use crate::shared::str_equal;

verus! {

/// Identifier of a user account.
#[derive(Debug, Clone, Copy, PartialEq, Eq, Hash, Structural)]
pub struct UserId {
    pub value: u128,
}

impl UserId {
    pub fn from_u128(value: u128) -> (r: Self)
        ensures
            r.value == value,
    {
        UserId { value }
    }

    pub fn as_u128(&self) -> (r: u128)
        ensures
            r == self.value,
    {
        self.value
    }
}

/// A text is an e-mail address when some '@' in it has text on both sides.
pub open spec fn is_email_text(s: Seq<char>) -> bool {
    exists|i: int| 0 < i < s.len() - 1 && #[trigger] s[i] == '@'
}

/// An e-mail address: only text that is an e-mail address makes one.
#[derive(Debug, PartialEq, Eq)]
pub struct Email {
    value: String,
}

impl View for Email {
    type V = Seq<char>;

    closed spec fn view(&self) -> Seq<char> {
        self.value@
    }
}

impl Clone for Email {
    fn clone(&self) -> (r: Self)
        ensures
            r == *self,
    {
        self.duplicate()
    }
}

/// The given text was not an e-mail address.
#[derive(Debug, Clone, Copy, PartialEq, Eq, Structural)]
pub enum EmailError {
    Invalid,
}

impl Email {
    /// Every address is e-mail text.
    #[verifier::type_invariant]
    pub open spec fn is_valid(self) -> bool {
        is_email_text(self@)
    }

    pub fn parse(value: &str) -> (r: Result<Self, EmailError>)
        ensures
            is_email_text(value@) ==> r is Ok && r->Ok_0@ == value@,
            !is_email_text(value@) ==> r == Err::<Self, EmailError>(EmailError::Invalid),
    {
        let n = value.unicode_len();
        if n < 3 {
            return Err(EmailError::Invalid);
        }
        let mut i: usize = 1;
        while i < n - 1
            invariant
                n == value@.len(),
                n >= 3,
                1 <= i <= n - 1,
                forall|j: int| 0 < j < i ==> value@[j] != '@',
            decreases n - i,
        {
            if value.get_char(i) == '@' {
                return Ok(Email { value: value.to_owned() });
            }
            i += 1;
        }
        Err(EmailError::Invalid)
    }

    pub fn as_str(&self) -> (r: &str)
        ensures
            r@ == self@,
            is_email_text(r@),
    {
        proof {
            use_type_invariant(self);
        }
        self.value.as_str()
    }

    /// A copy of the address.
    pub fn duplicate(&self) -> (r: Self)
        ensures
            r == *self,
    {
        proof {
            use_type_invariant(self);
        }
        Email { value: self.value.clone() }
    }
}

/// The name a user is shown under.
#[derive(Debug, Clone, PartialEq, Eq)]
pub struct DisplayName {
    pub value: String,
}

impl DisplayName {
    pub fn new(value: String) -> (r: Self)
        ensures
            r.value == value,
    {
        DisplayName { value }
    }

    pub fn as_str(&self) -> (r: &str)
        ensures
            r@ == self.value@,
    {
        self.value.as_str()
    }

    /// A copy of the name.
    pub fn duplicate(&self) -> (r: Self)
        ensures
            r == *self,
    {
        DisplayName { value: self.value.clone() }
    }
}

/// A user account, as far as households need to know it.
#[derive(Debug, Clone, PartialEq, Eq)]
pub struct User {
    pub id: UserId,
    pub email: Email,
    pub display_name: DisplayName,
}

impl User {
    pub fn id(&self) -> (r: UserId)
        ensures
            r == self.id,
    {
        self.id
    }

    pub fn display_name(&self) -> (r: &DisplayName)
        ensures
            *r == self.display_name,
    {
        &self.display_name
    }

    /// A copy of the account.
    pub fn duplicate(&self) -> (r: Self)
        ensures
            r == *self,
    {
        User { id: self.id, email: self.email.duplicate(), display_name: self.display_name.duplicate() }
    }
}

/// The first user in `users` whose e-mail address is `email`.
pub open spec fn user_with_email(users: Seq<User>, email: Seq<char>) -> Option<User>
    decreases users.len(),
{
    if users.len() == 0 {
        None
    } else if users[0].email@ == email {
        Some(users[0])
    } else {
        user_with_email(users.drop_first(), email)
    }
}

/// The lookup by e-mail address finds a user exactly when some listed user has that
/// address, and what it finds is a listed user with that address.
pub proof fn lemma_user_with_email(users: Seq<User>, email: Seq<char>)
    ensures
        user_with_email(users, email) is Some <==> exists|i: int|
            0 <= i < users.len() && #[trigger] users[i].email@ == email,
        user_with_email(users, email) matches Some(user) ==> users.contains(user) && user.email@
            == email,
    decreases users.len(),
{
    if users.len() > 0 {
        let rest = users.drop_first();
        lemma_user_with_email(rest, email);
        if users[0].email@ != email {
            if exists|i: int| 0 <= i < users.len() && #[trigger] users[i].email@ == email {
                let i = choose|i: int| 0 <= i < users.len() && #[trigger] users[i].email@ == email;
                assert(rest[i - 1] == users[i]);
            }
            if user_with_email(users, email) is Some {
                let user = user_with_email(users, email)->Some_0;
                let j = choose|j: int| 0 <= j < rest.len() && rest[j] == user;
                assert(users[j + 1] == user);
            }
        } else {
            assert(users[0] == users[0]);
        }
    }
}

/// Looks a user up by e-mail address in a list of accounts.
pub fn find_user_by_email(users: &Vec<User>, email: &str) -> (r: Option<User>)
    ensures
        r == user_with_email(users@, email@),
{
    let mut i: usize = 0;
    assert(users@.subrange(0, users@.len() as int) =~= users@);
    while i < users.len()
        invariant
            i <= users@.len(),
            user_with_email(users@, email@) == user_with_email(
                users@.subrange(i as int, users@.len() as int),
                email@,
            ),
        decreases users@.len() - i,
    {
        let ghost rest = users@.subrange(i as int, users@.len() as int);
        assert(rest[0] == users@[i as int]);
        if str_equal(users[i].email.as_str(), email) {
            return Some(users[i].duplicate());
        }
        assert(rest.drop_first() =~= users@.subrange(i + 1, users@.len() as int));
        i += 1;
    }
    assert(users@.subrange(i as int, users@.len() as int) =~= Seq::<User>::empty());
    None
}

} // verus!
