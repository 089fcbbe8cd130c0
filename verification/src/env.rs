//! What is made of a look into the process environment.
//!
//! Reading the environment is left to the caller; what the reading gave is
//! turned into a value or a message here.

use vstd::prelude::*;
use vstd::string::*;

verus! {

/// What reading a variable from the environment gave.
#[derive(Debug)]
pub enum Lookup {
    /// The variable is set to this text.
    Present(String),
    /// The variable is not set.
    NotPresent,
    /// The variable is set to something that is not Unicode.
    NotUnicode,
}

/// The message for a variable that is required and not set.
pub open spec fn not_found_message(name: Seq<char>) -> Seq<char> {
    "Env var "@ + name + " not found"@
}

/// The message for a variable whose value is not Unicode.
pub open spec fn not_unicode_message(name: Seq<char>) -> Seq<char> {
    "Value for environment variable "@ + name + " was not Unicode"@
}

/// The value of an optional variable: a variable that is not set has none,
/// and one that is not Unicode is an error.
pub fn var_from(name: &str, lookup: Lookup) -> (value: Result<Option<String>, String>)
    ensures
        match lookup {
            Lookup::Present(text) => value == Ok::<Option<String>, String>(Some(text)),
            Lookup::NotPresent => value == Ok::<Option<String>, String>(None),
            Lookup::NotUnicode => value matches Err(message) && message@ == not_unicode_message(
                name@,
            ),
        },
{
    match lookup {
        Lookup::Present(text) => Ok(Some(text)),
        Lookup::NotPresent => Ok(None),
        Lookup::NotUnicode => {
            let mut message = String::from_str("Value for environment variable ");
            message.append(name);
            message.append(" was not Unicode");
            Err(message)
        },
    }
}

/// The value of a variable that has to be there: an error of the look-up
/// stays as it is, and a variable that is not set is an error too.
pub fn require_var_from(name: &str, value: Result<Option<String>, String>) -> (required: Result<
    String,
    String,
>)
    ensures
        match value {
            Ok(Some(text)) => required == Ok::<String, String>(text),
            Ok(None) => required matches Err(message) && message@ == not_found_message(name@),
            Err(message) => required == Err::<String, String>(message),
        },
{
    match value {
        Ok(Some(text)) => Ok(text),
        Ok(None) => {
            let mut message = String::from_str("Env var ");
            message.append(name);
            message.append(" not found");
            Err(message)
        },
        Err(message) => Err(message),
    }
}

} // verus!
