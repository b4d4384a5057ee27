use vstd::prelude::*;
use vstd::string::StringExecFns;

use crate::error::UserError;
use crate::user::{User, UserView, PLACEHOLDER_LOGIN, PLACEHOLDER_PASSWORD};

verus! {

/// The collection as a sequence of user values, in storage order.
pub open spec fn users_view(s: Seq<User>) -> Seq<UserView> {
    s.map_values(|u: User| u@)
}

/// Whether `u` carries the first and last name `f` and `l`.
pub open spec fn has_name(u: UserView, f: Seq<char>, l: Seq<char>) -> bool {
    u.firstname == f && u.lastname == l
}

/// Whether some user of `s` carries the first and last name `f` and `l`.
pub open spec fn name_taken(s: Seq<UserView>, f: Seq<char>, l: Seq<char>) -> bool {
    exists|i: int| 0 <= i < s.len() && #[trigger] has_name(s[i], f, l)
}

/// Whether `i` is the position of the first user of `s` named `f` `l`.
pub open spec fn first_with_name(s: Seq<UserView>, f: Seq<char>, l: Seq<char>, i: int) -> bool {
    &&& 0 <= i < s.len()
    &&& has_name(s[i], f, l)
    &&& forall|j: int| 0 <= j < i ==> !#[trigger] has_name(s[j], f, l)
}

/// Whether some user of `s` has the login `login`.
pub open spec fn login_taken(s: Seq<UserView>, login: Seq<char>) -> bool {
    exists|i: int| 0 <= i < s.len() && #[trigger] s[i].login == login
}

/// Whether `i` is the position of the first user of `s` with the login `login`.
pub open spec fn first_with_login(s: Seq<UserView>, login: Seq<char>, i: int) -> bool {
    &&& 0 <= i < s.len()
    &&& s[i].login == login
    &&& forall|j: int| 0 <= j < i ==> #[trigger] s[j].login != login
}

/// The user that creation adds: the given fields and the placeholder credentials.
pub open spec fn created_user(
    firstname: Seq<char>,
    lastname: Seq<char>,
    email: Seq<char>,
    burge: Seq<char>,
    si: Seq<char>,
) -> UserView {
    UserView {
        firstname,
        lastname,
        email,
        burge,
        si,
        login: PLACEHOLDER_LOGIN@,
        password: PLACEHOLDER_PASSWORD@,
    }
}

/// Position of the first user named `firstname` `lastname`, if any.
fn find_by_name(users: &Vec<User>, firstname: &str, lastname: &str) -> (r: Option<usize>)
    ensures
        match r {
            Some(i) => first_with_name(users_view(users@), firstname@, lastname@, i as int),
            None => !name_taken(users_view(users@), firstname@, lastname@),
        },
{
    let ghost s = users_view(users@);
    let mut i: usize = 0;
    while i < users.len()
        invariant
            i <= users@.len(),
            s == users_view(users@),
            forall|j: int| 0 <= j < i ==> !#[trigger] has_name(s[j], firstname@, lastname@),
        decreases users@.len() - i,
    {
        if users[i].has_name(firstname, lastname) {
            return Some(i);
        }
        i = i + 1;
    }
    None
}

/// Position of the first user with the login `login`, if any.
fn find_by_login(users: &Vec<User>, login: &str) -> (r: Option<usize>)
    ensures
        match r {
            Some(i) => first_with_login(users_view(users@), login@, i as int),
            None => !login_taken(users_view(users@), login@),
        },
{
    let ghost s = users_view(users@);
    let key = String::from_str(login);
    let mut i: usize = 0;
    while i < users.len()
        invariant
            i <= users@.len(),
            s == users_view(users@),
            key@ == login@,
            forall|j: int| 0 <= j < i ==> #[trigger] s[j].login != login@,
        decreases users@.len() - i,
    {
        if users[i].login == key {
            return Some(i);
        }
        i = i + 1;
    }
    None
}

/// What creation does: if a user named `f` `l` is stored, it fails with
/// `AlreadyExists` and changes nothing; otherwise it keeps every stored user
/// in place and appends the created user.
pub open spec fn creation(
    before: Seq<User>,
    after: Seq<User>,
    f: Seq<char>,
    l: Seq<char>,
    email: Seq<char>,
    burge: Seq<char>,
    si: Seq<char>,
    r: Result<(), UserError>,
) -> bool {
    if name_taken(users_view(before), f, l) {
        &&& r matches Err(UserError::AlreadyExists)
        &&& after == before
    } else {
        &&& r is Ok
        &&& after.len() == before.len() + 1
        &&& after.subrange(0, before.len() as int) == before
        &&& after.last()@ == created_user(f, l, email, burge, si)
    }
}

/// What an edit to the values `new` does: the first user whose first and last
/// name are those of `new` takes all seven fields of `new`, and every other
/// user stays; without such a user it fails with `NotFound` and changes nothing.
pub open spec fn edition(before: Seq<User>, after: Seq<User>, new: UserView, r: Result<(), UserError>) -> bool {
    if name_taken(users_view(before), new.firstname, new.lastname) {
        &&& r is Ok
        &&& after.len() == before.len()
        &&& exists|i: int|
            #[trigger] first_with_name(users_view(before), new.firstname, new.lastname, i) && {
                &&& after[i]@ == new
                &&& forall|j: int| 0 <= j < before.len() && j != i ==> after[j] == before[j]
            }
    } else {
        &&& r matches Err(UserError::NotFound)
        &&& after == before
    }
}

/// What deletion by `login` does: the first user with that login leaves and
/// the others keep their order; without such a user it fails with `NotFound`
/// and changes nothing.
pub open spec fn deletion(before: Seq<User>, after: Seq<User>, login: Seq<char>, r: Result<(), UserError>) -> bool {
    if login_taken(users_view(before), login) {
        &&& r is Ok
        &&& exists|i: int| #[trigger] first_with_login(users_view(before), login, i) && after == before.remove(i)
    } else {
        &&& r matches Err(UserError::NotFound)
        &&& after == before
    }
}

/// Adds a user with the given fields and the placeholder login and password,
/// unless a user with the same first and last name is already stored.
pub fn generate_user(
    users: &mut Vec<User>,
    firstname: String,
    lastname: String,
    email: String,
    burge: String,
    si: String,
) -> (r: Result<(), UserError>)
    ensures
        creation(old(users)@, final(users)@, firstname@, lastname@, email@, burge@, si@, r),
{
    if find_by_name(users, firstname.as_str(), lastname.as_str()).is_some() {
        return Err(UserError::AlreadyExists);
    }
    let user = User::new(
        firstname,
        lastname,
        email,
        burge,
        si,
        String::from_str(PLACEHOLDER_LOGIN),
        String::from_str(PLACEHOLDER_PASSWORD),
    );
    users.push(user);
    assert(users@.subrange(0, old(users)@.len() as int) =~= old(users)@);
    Ok(())
}

/// Overwrites all seven fields of the first user named `firstname` `lastname`.
pub fn edit_user(
    users: &mut Vec<User>,
    firstname: String,
    lastname: String,
    email: String,
    burge: String,
    si: String,
    login: String,
    password: String,
) -> (r: Result<(), UserError>)
    ensures
        edition(
            old(users)@,
            final(users)@,
            UserView {
                firstname: firstname@,
                lastname: lastname@,
                email: email@,
                burge: burge@,
                si: si@,
                login: login@,
                password: password@,
            },
            r,
        ),
{
    match find_by_name(users, firstname.as_str(), lastname.as_str()) {
        Some(i) => {
            let user = User::new(firstname, lastname, email, burge, si, login, password);
            users[i] = user;
            Ok(())
        },
        None => Err(UserError::NotFound),
    }
}

/// Removes the first user with the login `login`.
pub fn delete_user(users: &mut Vec<User>, login: &str) -> (r: Result<(), UserError>)
    ensures
        deletion(old(users)@, final(users)@, login@, r),
{
    match find_by_login(users, login) {
        Some(i) => {
            users.remove(i);
            Ok(())
        },
        None => Err(UserError::NotFound),
    }
}

/// The listing line of one user: names, email and login.
pub open spec fn user_line(u: UserView) -> Seq<char> {
    "User: "@ + u.firstname + " "@ + u.lastname + " - Email: "@ + u.email + " - Login "@ + u.login
}

/// What a listing of an empty collection reports.
pub open spec fn empty_listing() -> Seq<char> {
    "No users found"@
}

/// The lines of text as character sequences.
pub open spec fn lines_view(lines: Seq<String>) -> Seq<Seq<char>> {
    lines.map_values(|line: String| line@)
}

/// The listing of `s`: one line per user in order, or the single line of an
/// empty listing.
pub open spec fn listing(s: Seq<UserView>) -> Seq<Seq<char>> {
    if s.len() == 0 {
        seq![empty_listing()]
    } else {
        s.map_values(|u: UserView| user_line(u))
    }
}

impl User {
    /// The listing line of this user.
    pub fn line(&self) -> (r: String)
        ensures
            r@ == user_line(self@),
    {
        String::from_str("User: ")
            .concat(self.firstname.as_str())
            .concat(" ")
            .concat(self.lastname.as_str())
            .concat(" - Email: ")
            .concat(self.email.as_str())
            .concat(" - Login ")
            .concat(self.login.as_str())
    }
}

/// The lines that list the collection: one per user in storage order, or a
/// single line saying that there are none.
pub fn list_users(users: &Vec<User>) -> (r: Vec<String>)
    ensures
        lines_view(r@) == listing(users_view(users@)),
{
    let mut lines: Vec<String> = Vec::new();
    if users.len() == 0 {
        lines.push(String::from_str("No users found"));
        assert(lines_view(lines@) =~= listing(users_view(users@)));
        return lines;
    }
    let mut i: usize = 0;
    while i < users.len()
        invariant
            i <= users@.len(),
            lines@.len() == i,
            forall|j: int| 0 <= j < i ==> #[trigger] lines@[j]@ == user_line(users@[j]@),
        decreases users@.len() - i,
    {
        lines.push(users[i].line());
        i = i + 1;
    }
    assert(lines_view(lines@) =~= listing(users_view(users@)));
    lines
}

} // verus!
