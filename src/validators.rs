//! Checks on what an operator types while registering an application. Where
//! a check depends on the file system, the caller looks and passes the answer.

use vstd::prelude::*;
use vstd::string::*;

use crate::text::port_of;

verus! {

/// The message of a failed check, or `None` where the check passed.
pub open spec fn failure(r: Result<(), String>) -> Option<Seq<char>> {
    match r {
        Ok(()) => None,
        Err(m) => Some(m@),
    }
}

/// A character allowed in an application name.
pub open spec fn is_name_char(c: char) -> bool {
    ||| ('0' <= c && c <= '9')
    ||| ('a' <= c && c <= 'z')
    ||| ('A' <= c && c <= 'Z')
    ||| c == '-'
    ||| c == '.'
}

/// Starts with an absolute path's root.
pub open spec fn is_absolute(s: Seq<char>) -> bool {
    s.len() > 0 && s[0] == '/'
}

/// The message for an application name that starts with `-`.
pub open spec fn leading_dash_message() -> Seq<char> {
    "Invalid app name. Service names must not start with `-`."@
}

/// The message for an application name with a character not allowed.
pub open spec fn name_chars_message() -> Seq<char> {
    "Invalid app name. Service names may contain only ascii-alphanumeric characters, '.', and '-'."@
}

/// The message for a service name that starts with `-`.
pub open spec fn service_leading_dash_message() -> Seq<char> {
    "Invalid service name. Service names must not start with `-`."@
}

/// The message for a service name with a character not allowed.
pub open spec fn service_name_chars_message() -> Seq<char> {
    "Invalid service name. Service names may contain only ascii-alphanumeric characters, '.', and '-'."@
}

/// The message for a location whose parent is no existing directory.
pub open spec fn not_directory_message() -> Seq<char> {
    "Invalid path. Must be a directory."@
}

/// The message for a path that names no existing file.
pub open spec fn not_file_message() -> Seq<char> {
    "Invalid path. Must be a file."@
}

/// The message for a path that is not absolute.
pub open spec fn not_absolute_message() -> Seq<char> {
    "Invalid path. Must be absolute."@
}

/// The message for text that is no port number.
pub open spec fn not_port_message() -> Seq<char> {
    "Could not parse into address. Only ports are supported."@
}

/// What a check of a name says of `s`: `leading` where it starts with `-`,
/// else `chars` where it holds a character not allowed in a name.
pub open spec fn name_failure(s: Seq<char>, leading: Seq<char>, chars: Seq<char>) -> Option<
    Seq<char>,
> {
    if s.len() > 0 && s[0] == '-' {
        Some(leading)
    } else if exists|i: int| 0 <= i < s.len() && !is_name_char(#[trigger] s[i]) {
        Some(chars)
    } else {
        None
    }
}

/// What the check of an application name says of `s`.
pub open spec fn app_name_failure(s: Seq<char>) -> Option<Seq<char>> {
    name_failure(s, leading_dash_message(), name_chars_message())
}

/// What the check of a service name says of `s`.
pub open spec fn service_name_failure(s: Seq<char>) -> Option<Seq<char>> {
    name_failure(s, service_leading_dash_message(), service_name_chars_message())
}

/// What the check of a location says of `s`, whose parent is an existing
/// directory exactly when `parent_is_dir`.
pub open spec fn location_failure(s: Seq<char>, parent_is_dir: bool) -> Option<Seq<char>> {
    if !parent_is_dir {
        Some(not_directory_message())
    } else if !is_absolute(s) {
        Some(not_absolute_message())
    } else {
        None
    }
}

/// What the check of a file path says of `s`, which names an existing file
/// exactly when `is_file`.
pub open spec fn file_failure(s: Seq<char>, is_file: bool) -> Option<Seq<char>> {
    if !is_file {
        Some(not_file_message())
    } else if !is_absolute(s) {
        Some(not_absolute_message())
    } else {
        None
    }
}

/// What the check of a port says of `s`.
pub open spec fn address_failure(s: Seq<char>) -> Option<Seq<char>> {
    if port_of(s) is Some {
        None
    } else {
        Some(not_port_message())
    }
}

fn starts_with_char(s: &String, c: char) -> (r: bool)
    ensures
        r == (s@.len() > 0 && s@[0] == c),
{
    let t = s.as_str();
    t.unicode_len() > 0 && t.get_char(0) == c
}

fn name_char(c: char) -> (r: bool)
    ensures
        r == is_name_char(c),
{
    ('0' <= c && c <= '9') || ('a' <= c && c <= 'z') || ('A' <= c && c <= 'Z') || c == '-' || c
        == '.'
}

fn check_name(s: &String, leading: &str, chars: &str) -> (r: Result<(), String>)
    ensures
        failure(r) == name_failure(s@, leading@, chars@),
{
    if starts_with_char(s, '-') {
        return Err(String::from_str(leading));
    }
    let t = s.as_str();
    let n = t.unicode_len();
    let mut i: usize = 0;
    while i < n
        invariant
            i <= n,
            n == s@.len(),
            t@ == s@,
            !(s@.len() > 0 && s@[0] == '-'),
            forall|j: int| 0 <= j < i ==> is_name_char(#[trigger] s@[j]),
        decreases n - i,
    {
        if !name_char(t.get_char(i)) {
            assert(!is_name_char(s@[i as int]));
            return Err(String::from_str(chars));
        }
        i = i + 1;
    }
    Ok(())
}

/// Checks the name of a new application.
pub struct AppNameValidator;

impl AppNameValidator {
    /// Fails where `s` starts with `-` or holds a character other than an
    /// ASCII letter or digit, `.` and `-`.
    pub fn validate(&mut self, s: &String) -> (r: Result<(), String>)
        ensures
            failure(r) == app_name_failure(s@),
    {
        check_name(
            s,
            "Invalid app name. Service names must not start with `-`.",
            "Invalid app name. Service names may contain only ascii-alphanumeric characters, '.', and '-'.",
        )
    }
}

/// Checks the name of a service.
pub struct ServiceNameValidator;

impl ServiceNameValidator {
    /// Fails where `s` starts with `-` or holds a character other than an
    /// ASCII letter or digit, `.` and `-`.
    pub fn validate(&mut self, s: &String) -> (r: Result<(), String>)
        ensures
            failure(r) == service_name_failure(s@),
    {
        check_name(
            s,
            "Invalid service name. Service names must not start with `-`.",
            "Invalid service name. Service names may contain only ascii-alphanumeric characters, '.', and '-'.",
        )
    }
}

/// Checks a directory location; its parent must exist.
pub struct LocationValidator;

impl LocationValidator {
    /// Fails where the parent of `s` is no existing directory
    /// (`parent_is_dir` is false), then where `s` is not absolute.
    pub fn validate(&mut self, s: &String, parent_is_dir: bool) -> (r: Result<(), String>)
        ensures
            failure(r) == location_failure(s@, parent_is_dir),
    {
        if !parent_is_dir {
            return Err(String::from_str("Invalid path. Must be a directory."));
        }
        if !starts_with_char(s, '/') {
            return Err(String::from_str("Invalid path. Must be absolute."));
        }
        Ok(())
    }
}

/// Checks the path of an existing file.
pub struct FileValidator;

impl FileValidator {
    /// Fails where `s` names no existing file (`is_file` is false), then where
    /// `s` is not absolute.
    pub fn validate(&mut self, s: &String, is_file: bool) -> (r: Result<(), String>)
        ensures
            failure(r) == file_failure(s@, is_file),
    {
        if !is_file {
            return Err(String::from_str("Invalid path. Must be a file."));
        }
        if !starts_with_char(s, '/') {
            return Err(String::from_str("Invalid path. Must be absolute."));
        }
        Ok(())
    }
}

/// Checks a port number.
pub struct AddressValidator;

impl AddressValidator {
    /// Fails where `s` is no port number.
    pub fn validate(&mut self, s: &String) -> (r: Result<(), String>)
        ensures
            failure(r) == address_failure(s@),
    {
        match crate::text::parse_port(s.as_str()) {
            Some(_) => Ok(()),
            None => Err(
                String::from_str("Could not parse into address. Only ports are supported."),
            ),
        }
    }
}

} // verus!
