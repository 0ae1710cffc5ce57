use vstd::prelude::*;

use crate::text::{trim, trimmed};

verus! {

/// Why an API key was not stored.
#[derive(Debug, Clone, Copy, PartialEq, Eq, Structural)]
pub enum KeyFileError {
    /// The key is empty once trimmed.
    EmptyKey,
    /// The credentials path has no parent directory.
    NoParent,
}

/// The text shown when an API key was not stored.
pub open spec fn key_file_error_text(e: KeyFileError) -> Seq<char> {
    match e {
        KeyFileError::EmptyKey => "API key cannot be empty"@,
        KeyFileError::NoParent => "credentials path has no parent"@,
    }
}

impl KeyFileError {
    /// The text shown for this error.
    pub fn message(&self) -> (text: String)
        ensures
            text@ == key_file_error_text(*self),
    {
        match self {
            KeyFileError::EmptyKey => String::from_str("API key cannot be empty"),
            KeyFileError::NoParent => String::from_str("credentials path has no parent"),
        }
    }
}

/// The key as stored: trimmed, and refused when nothing is left.
pub fn key_to_store(key: &str) -> (r: Result<String, KeyFileError>)
    ensures
        trimmed(key@).len() > 0 ==> (r matches Ok(k) && k@ == trimmed(key@)),
        trimmed(key@).len() == 0 ==> r == Err::<String, KeyFileError>(KeyFileError::EmptyKey),
{
    let k = trim(key);
    if k.as_str().unicode_len() > 0 {
        Ok(k)
    } else {
        Err(KeyFileError::EmptyKey)
    }
}

/// The decimal digit for `d` (less than ten).
pub open spec fn digit_char(d: nat) -> char {
    ('0' as u32 + d) as char
}

/// The decimal numeral of `n`.
pub open spec fn decimal(n: nat) -> Seq<char>
    decreases n,
{
    if n < 10 {
        seq![digit_char(n)]
    } else {
        decimal(n / 10).push(digit_char(n % 10))
    }
}

/// The decimal numeral of `n`.
pub fn decimal_digits(n: u32) -> (digits: Vec<char>)
    ensures
        digits@ == decimal(n as nat),
    decreases n,
{
    let d = (n % 10) as u8;
    let c = ((48u8 + d) as char);
    assert(c == digit_char((n % 10) as nat));
    if n < 10 {
        let mut digits = Vec::new();
        digits.push(c);
        digits
    } else {
        let mut digits = decimal_digits(n / 10);
        digits.push(c);
        digits
    }
}

/// The name of the file the key is first written to, in the key's
/// directory, for process `pid`.
pub open spec fn temporary_name(pid: u32) -> Seq<char> {
    ".api-key."@ + decimal(pid as nat) + ".tmp"@
}

/// The name of the file the key is first written to, for process `pid`.
pub fn temporary_key_name(pid: u32) -> (name: String)
    ensures
        name@ == temporary_name(pid),
{
    let digits = decimal_digits(pid);
    let mut name = String::from_str(".api-key.");
    let numeral = crate::text::string_of(digits.as_slice());
    name.append(numeral.as_str());
    name.append(".tmp");
    name
}

} // verus!
