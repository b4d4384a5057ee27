use vstd::prelude::*;
use vstd::string::StringExecFns;

use crate::error::UserError;
use crate::ops::{
    creation, deletion, delete_user, edit_user, edition, generate_user, lines_view, list_users,
    listing, users_view,
};
use crate::user::{User, UserView};

verus! {

/// One command on the user store.
#[derive(Clone, Debug, PartialEq, Eq)]
pub enum Command {
    /// Create a user with the placeholder login and password.
    GenerateUser { firstname: String, lastname: String, email: String, burge: String, si: String },
    /// Overwrite the first user with the given first and last name.
    EditUser {
        firstname: String,
        lastname: String,
        email: String,
        burge: String,
        si: String,
        login: String,
        password: String,
    },
    /// Remove the first user with the given login.
    DeleteUser { login: String },
    /// List the stored users.
    ListUsers,
}

/// What a command that succeeded asks of its caller.
#[derive(Clone, Debug, PartialEq, Eq)]
pub struct Outcome {
    /// Whether the collection must be written back to the store.
    pub save: bool,
    /// The lines to report, in order.
    pub messages: Vec<String>,
}

/// The result of an operation, with the outcome left out.
pub open spec fn status(r: Result<Outcome, UserError>) -> Result<(), UserError> {
    match r {
        Ok(_) => Ok(()),
        Err(e) => Err(e),
    }
}

/// Whether `r` succeeded with an outcome that asks for a save exactly when
/// `save` holds and reports `messages`.
pub open spec fn reports(r: Result<Outcome, UserError>, save: bool, messages: Seq<Seq<char>>) -> bool {
    r matches Ok(o) ==> o.save == save && lines_view(o.messages@) == messages
}

/// What each command does to the collection, and what it reports.
pub open spec fn command_effect(
    command: Command,
    before: Seq<User>,
    after: Seq<User>,
    r: Result<Outcome, UserError>,
) -> bool {
    match command {
        Command::GenerateUser { firstname, lastname, email, burge, si } => {
            &&& creation(before, after, firstname@, lastname@, email@, burge@, si@, status(r))
            &&& reports(r, true, seq!["User created successfully"@])
        },
        Command::EditUser { firstname, lastname, email, burge, si, login, password } => {
            &&& edition(
                before,
                after,
                UserView {
                    firstname: firstname@,
                    lastname: lastname@,
                    email: email@,
                    burge: burge@,
                    si: si@,
                    login: login@,
                    password: password@,
                },
                status(r),
            )
            &&& reports(r, true, seq!["User found. Updating..."@, "User updated successfully"@])
        },
        Command::DeleteUser { login } => {
            &&& deletion(before, after, login@, status(r))
            &&& reports(r, true, seq!["User deleted successfully"@])
        },
        Command::ListUsers => {
            &&& r is Ok
            &&& after == before
            &&& reports(r, false, listing(users_view(before)))
        },
    }
}

fn report(save: bool, message: &str) -> (r: Outcome)
    ensures
        r.save == save,
        lines_view(r.messages@) == seq![message@],
{
    let mut messages: Vec<String> = Vec::new();
    messages.push(String::from_str(message));
    assert(lines_view(messages@) =~= seq![message@]);
    Outcome { save, messages }
}

/// Applies `command` to the collection and says what to save and report.
pub fn run_command(users: &mut Vec<User>, command: Command) -> (r: Result<Outcome, UserError>)
    ensures
        command_effect(command, old(users)@, final(users)@, r),
{
    match command {
        Command::GenerateUser { firstname, lastname, email, burge, si } => {
            match generate_user(users, firstname, lastname, email, burge, si) {
                Ok(()) => Ok(report(true, "User created successfully")),
                Err(e) => Err(e),
            }
        },
        Command::EditUser { firstname, lastname, email, burge, si, login, password } => {
            match edit_user(users, firstname, lastname, email, burge, si, login, password) {
                Ok(()) => {
                    let mut messages: Vec<String> = Vec::new();
                    messages.push(String::from_str("User found. Updating..."));
                    messages.push(String::from_str("User updated successfully"));
                    assert(lines_view(messages@) =~= seq![
                        "User found. Updating..."@,
                        "User updated successfully"@,
                    ]);
                    Ok(Outcome { save: true, messages })
                },
                Err(e) => Err(e),
            }
        },
        Command::DeleteUser { login } => {
            match delete_user(users, login.as_str()) {
                Ok(()) => Ok(report(true, "User deleted successfully")),
                Err(e) => Err(e),
            }
        },
        Command::ListUsers => Ok(Outcome { save: false, messages: list_users(users) }),
    }
}

} // verus!
