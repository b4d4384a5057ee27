use vstd::prelude::*;
use vstd::string::StringExecFns;

verus! {

/// The login that a newly created user is given.
pub const PLACEHOLDER_LOGIN: &'static str = "login";

/// The password that a newly created user is given.
pub const PLACEHOLDER_PASSWORD: &'static str = "password";

/// One stored user.
#[derive(Clone, Debug, PartialEq, Eq)]
pub struct User {
    pub firstname: String,
    pub lastname: String,
    pub email: String,
    pub burge: String,
    pub si: String,
    pub login: String,
    pub password: String,
}

/// The mathematical value of a `User`: its seven fields as character sequences.
pub struct UserView {
    pub firstname: Seq<char>,
    pub lastname: Seq<char>,
    pub email: Seq<char>,
    pub burge: Seq<char>,
    pub si: Seq<char>,
    pub login: Seq<char>,
    pub password: Seq<char>,
}

impl View for User {
    type V = UserView;

    open spec fn view(&self) -> UserView {
        UserView {
            firstname: self.firstname@,
            lastname: self.lastname@,
            email: self.email@,
            burge: self.burge@,
            si: self.si@,
            login: self.login@,
            password: self.password@,
        }
    }
}

impl User {
    /// A user with the given seven fields.
    pub fn new(
        firstname: String,
        lastname: String,
        email: String,
        burge: String,
        si: String,
        login: String,
        password: String,
    ) -> (r: User)
        ensures
            r@ == (UserView {
                firstname: firstname@,
                lastname: lastname@,
                email: email@,
                burge: burge@,
                si: si@,
                login: login@,
                password: password@,
            }),
    {
        User { firstname, lastname, email, burge, si, login, password }
    }

    /// Whether this user carries the given first and last name.
    pub fn has_name(&self, firstname: &str, lastname: &str) -> (r: bool)
        ensures
            r == (self@.firstname == firstname@ && self@.lastname == lastname@),
    {
        let f = String::from_str(firstname);
        let l = String::from_str(lastname);
        self.firstname == f && self.lastname == l
    }
}

} // verus!
