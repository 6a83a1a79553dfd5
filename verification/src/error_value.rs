//! The error value that the user configures: an expression that mutants of
//! functions returning `Result` return inside `Err`.

use vstd::prelude::*;
use vstd::string::StringExecFns;

use crate::parse::{error_message, error_text, parse_expression, parsed_expression};
use crate::text::chars_of;

verus! {

/// An error expression that was checked to be a syntactically valid Rust
/// expression.
#[derive(Debug, PartialEq, Eq)]
pub struct ErrorValue {
    text: String,
}

impl View for ErrorValue {
    type V = Seq<char>;

    closed spec fn view(&self) -> Seq<char> {
        self.text@
    }
}

/// Why an error value was refused: its text, and what the parser said.
#[derive(Debug, PartialEq, Eq)]
pub struct ConfigError {
    /// The text that does not parse.
    pub text: String,
    /// The parser's diagnostic.
    pub cause: String,
}

/// The mathematical content of a [`ConfigError`].
pub struct ConfigErrorView {
    pub text: Seq<char>,
    pub cause: Seq<char>,
}

impl View for ConfigError {
    type V = ConfigErrorView;

    open spec fn view(&self) -> ConfigErrorView {
        ConfigErrorView { text: self.text@, cause: self.cause@ }
    }
}

impl ConfigError {
    /// The message of the error, which names the offending text:
    /// `Failed to parse error value "<text>"`.
    pub fn message(&self) -> (r: String)
        ensures
            r@ == "Failed to parse error value \""@ + self@.text + "\""@,
    {
        let mut s = String::from_str("Failed to parse error value \"");
        s.append(self.text.as_str());
        s.append("\"");
        s
    }

    /// The parser's diagnostic, the cause of the error.
    pub fn cause(&self) -> (r: &str)
        ensures
            r@ == self@.cause,
    {
        self.cause.as_str()
    }
}

/// What checking an error value gives: the text itself where it parses as an
/// expression, else the text with the parser's diagnostic.
pub open spec fn checked_error_value(text: Seq<char>) -> Result<Seq<char>, ConfigErrorView> {
    match parsed_expression(text) {
        Ok(_) => Ok(text),
        Err(e) => Err(ConfigErrorView { text, cause: error_text(e) }),
    }
}

/// Whether `text` starts with `Err(`.
pub open spec fn starts_with_err(text: Seq<char>) -> bool {
    text.len() >= 4 && text[0] == 'E' && text[1] == 'r' && text[2] == 'r' && text[3] == '('
}

/// The warning for an error value that starts with `Err(`, which is added
/// around the value anyway.
pub open spec fn warning_text(text: Seq<char>) -> Seq<char> {
    "error_value option gives the value of the error, and probably should not start with Err(: got "@
        + text
}

impl Clone for ErrorValue {
    fn clone(&self) -> (r: ErrorValue)
        ensures
            r@ == self@,
    {
        ErrorValue { text: self.text.clone() }
    }
}

impl ErrorValue {
    /// Check that `text` is a syntactically valid expression, and keep it
    /// verbatim if so.
    pub fn parse(text: &str) -> (r: Result<ErrorValue, ConfigError>)
        ensures
            match r {
                Ok(value) => checked_error_value(text@) == Ok::<Seq<char>, ConfigErrorView>(value@),
                Err(e) => checked_error_value(text@) == Err::<Seq<char>, ConfigErrorView>(e@),
            },
    {
        match parse_expression(text) {
            Ok(_) => Ok(ErrorValue { text: String::from_str(text) }),
            Err(e) => Err(ConfigError { text: String::from_str(text), cause: error_message(&e) }),
        }
    }

    /// The expression's source text, as the user gave it.
    pub fn text(&self) -> (r: &str)
        ensures
            r@ == self@,
    {
        self.text.as_str()
    }

    /// A warning if the value starts with `Err(`: the value is meant to be
    /// what stands inside `Err`. The value is used as it is either way.
    pub fn warning(&self) -> (r: Option<String>)
        ensures
            starts_with_err(self@) ==> r is Some && r->Some_0@ == warning_text(self@),
            !starts_with_err(self@) ==> r is None,
    {
        let chars = chars_of(self.text.as_str());
        if chars.len() >= 4 && chars[0] == 'E' && chars[1] == 'r' && chars[2] == 'r' && chars[3]
            == '(' {
            let mut s = String::from_str(
                "error_value option gives the value of the error, and probably should not start with Err(: got ",
            );
            s.append(self.text.as_str());
            Some(s)
        } else {
            None
        }
    }
}

} // verus!
