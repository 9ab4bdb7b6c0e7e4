//! Display names of users and chats.

use vstd::prelude::*;

verus! {

/// A user's display name: the first name, with the last name appended when
/// both are present; a user without any name falls back to the username.
pub fn user_name(first_name: Option<&str>, last_name: Option<&str>, username: Option<&str>) -> (r:
    Option<String>)
    ensures
        match (first_name, last_name, username) {
            (Some(first), None, _) => r is Some && r->0@ == first@,
            (Some(first), Some(last), _) => r is Some && r->0@ == first@ + " "@ + last@,
            (None, _, Some(name)) => r is Some && r->0@ == name@,
            (None, _, None) => r is None,
        },
{
    match (first_name, last_name, username) {
        (Some(first), None, _) => Some(String::from_str(first)),
        (Some(first), Some(last), _) => {
            let mut out = String::from_str(first);
            out.append(" ");
            out.append(last);
            Some(out)
        },
        (None, _, Some(name)) => Some(String::from_str(name)),
        (None, _, None) => None,
    }
}

/// A chat's display name: its title, else its username, else nothing.
pub fn chat_name(title: Option<&str>, username: Option<&str>) -> (r: Option<String>)
    ensures
        match (title, username) {
            (Some(t), _) => r is Some && r->0@ == t@,
            (None, Some(u)) => r is Some && r->0@ == u@,
            (None, None) => r is None,
        },
{
    match (title, username) {
        (Some(t), _) => Some(String::from_str(t)),
        (None, Some(u)) => Some(String::from_str(u)),
        (None, None) => None,
    }
}

} // verus!
