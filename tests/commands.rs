use user_manager::command::{run_command, Command};
use user_manager::error::UserError;
use user_manager::user::User;

fn s(text: &str) -> String {
    text.to_string()
}

fn generate(first: &str, last: &str) -> Command {
    Command::GenerateUser { firstname: s(first), lastname: s(last), email: s("e@x"), burge: s("B"), si: s("S") }
}

#[test]
fn generate_command_asks_for_save_and_reports() {
    let mut users: Vec<User> = Vec::new();
    let o = run_command(&mut users, generate("Ann", "Lee")).unwrap();
    assert!(o.save);
    assert_eq!(o.messages, vec![s("User created successfully")]);
    assert_eq!(users.len(), 1);
}

#[test]
fn generate_command_duplicate_fails() {
    let mut users: Vec<User> = Vec::new();
    run_command(&mut users, generate("Ann", "Lee")).unwrap();
    assert_eq!(run_command(&mut users, generate("Ann", "Lee")), Err(UserError::AlreadyExists));
    assert_eq!(users.len(), 1);
}

#[test]
fn edit_command_reports_two_lines() {
    let mut users: Vec<User> = Vec::new();
    run_command(&mut users, generate("Ann", "Lee")).unwrap();
    let edit = Command::EditUser {
        firstname: s("Ann"),
        lastname: s("Lee"),
        email: s("new@x"),
        burge: s("B2"),
        si: s("S2"),
        login: s("ann"),
        password: s("pw"),
    };
    let o = run_command(&mut users, edit).unwrap();
    assert!(o.save);
    assert_eq!(o.messages, vec![s("User found. Updating..."), s("User updated successfully")]);
    assert_eq!(users[0].email, "new@x");
    assert_eq!(users[0].login, "ann");
    assert_eq!(users[0].password, "pw");
}

#[test]
fn delete_command_reports_and_missing_fails() {
    let mut users: Vec<User> = Vec::new();
    run_command(&mut users, generate("Ann", "Lee")).unwrap();
    let o = run_command(&mut users, Command::DeleteUser { login: s("login") }).unwrap();
    assert!(o.save);
    assert_eq!(o.messages, vec![s("User deleted successfully")]);
    assert!(users.is_empty());
    assert_eq!(run_command(&mut users, Command::DeleteUser { login: s("login") }), Err(UserError::NotFound));
}

#[test]
fn list_command_does_not_save() {
    let mut users: Vec<User> = Vec::new();
    let o = run_command(&mut users, Command::ListUsers).unwrap();
    assert!(!o.save);
    assert_eq!(o.messages, vec![s("No users found")]);
    run_command(&mut users, generate("Ann", "Lee")).unwrap();
    let o = run_command(&mut users, Command::ListUsers).unwrap();
    assert!(!o.save);
    assert_eq!(o.messages, vec![s("User: Ann Lee - Email: e@x - Login login")]);
}

#[test]
fn error_messages() {
    assert_eq!(UserError::AlreadyExists.message(), "User already exists");
    assert_eq!(UserError::NotFound.message(), "User not found");
    let read = UserError::ReadError { path: s("users.json"), cause: s("denied") };
    assert_eq!(read.message(), "Failed to read file users.json: denied");
    let write = UserError::WriteError { path: s("u.json"), cause: s("full") };
    assert_eq!(write.message(), "Failed to write file u.json: full");
    let decode = UserError::DecodeError { path: s("u.json"), cause: s("bad") };
    assert_eq!(decode.message(), "Failed to parse JSON in u.json: bad");
    let encode = UserError::EncodeError { path: s("u.json"), cause: s("oops") };
    assert_eq!(encode.message(), "Failed to serialize users for u.json: oops");
}
