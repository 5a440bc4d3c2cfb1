//! The environments that the application runs in, and where it listens.
use vstd::prelude::*;
use vstd::string::StringExecFns;

verus! {

/// Where the application runs.
#[derive(Clone, Copy, Debug, PartialEq, Eq, Structural)]
pub enum Environment {
    Local,
    Production,
}

/// The name of an environment.
pub open spec fn environment_name(environment: Environment) -> Seq<char> {
    match environment {
        Environment::Local => "local"@,
        Environment::Production => "production"@,
    }
}

/// What `str::to_lowercase` returns for a text: its lower-case equivalent
/// by the rules of Unicode.
pub uninterp spec fn lowercased(text: Seq<char>) -> Seq<char>;

/// `str::to_lowercase`: the lower-case equivalent of the text, which depends
/// on the text alone.
#[verifier::external_body]
fn to_lowercase(text: &str) -> (lower: String)
    ensures
        lower@ == lowercased(text@),
{
    text.to_lowercase()
}

/// What follows the rejected name in the message for a name that is no
/// environment's.
pub open spec fn unsupported_suffix() -> Seq<char> {
    " is not a supported environment. Use either `local` or `production`."@
}

/// The environment with a name in lower case, or the message for a name
/// that is no environment's.
pub open spec fn named_environment(lower: Seq<char>) -> Result<Environment, Seq<char>> {
    if lower == environment_name(Environment::Local) {
        Ok(Environment::Local)
    } else if lower == environment_name(Environment::Production) {
        Ok(Environment::Production)
    } else {
        Err(lower + unsupported_suffix())
    }
}

/// The environment that a name stands for, whatever the case of its
/// letters, or the message for a name that stands for none.
pub open spec fn parse_environment(name: Seq<char>) -> Result<Environment, Seq<char>> {
    named_environment(lowercased(name))
}

/// The environment read from a text, or the message in its place, with the
/// message as a sequence of characters.
pub open spec fn parsed_view(parsed: Result<Environment, String>) -> Result<
    Environment,
    Seq<char>,
> {
    match parsed {
        Ok(environment) => Ok(environment),
        Err(message) => Err(message@),
    }
}

impl Environment {
    /// The name of the environment.
    pub fn as_str(&self) -> (name: &'static str)
        ensures
            name@ == environment_name(*self),
    {
        match self {
            Environment::Local => "local",
            Environment::Production => "production",
        }
    }

    /// The environment with a name in lower case.
    pub fn from_lowercase(lower: String) -> (parsed: Result<Environment, String>)
        ensures
            parsed_view(parsed) == named_environment(lower@),
    {
        if lower == String::from_str("local") {
            Ok(Environment::Local)
        } else if lower == String::from_str("production") {
            Ok(Environment::Production)
        } else {
            let mut message = lower;
            message.append(" is not a supported environment. Use either `local` or `production`.");
            Err(message)
        }
    }

    /// The environment that a name stands for, whatever the case of its
    /// letters.
    pub fn try_from(value: String) -> (parsed: Result<Environment, String>)
        ensures
            parsed_view(parsed) == parse_environment(value@),
    {
        Environment::from_lowercase(to_lowercase(value.as_str()))
    }
}

/// The character for a digit.
pub open spec fn digit(value: nat) -> char {
    "0123456789"@[value as int]
}

/// A number in decimal digits, without leading zeros.
pub open spec fn decimal(number: nat) -> Seq<char>
    decreases number,
{
    if number < 10 {
        seq![digit(number)]
    } else {
        decimal(number / 10).push(digit(number % 10))
    }
}

fn digit_text(value: u16) -> (text: &'static str)
    requires
        value < 10,
    ensures
        text@ == seq![digit(value as nat)],
{
    proof {
        reveal_strlit("0123456789");
        reveal_strlit("0");
        reveal_strlit("1");
        reveal_strlit("2");
        reveal_strlit("3");
        reveal_strlit("4");
        reveal_strlit("5");
        reveal_strlit("6");
        reveal_strlit("7");
        reveal_strlit("8");
        reveal_strlit("9");
    }
    let text = if value == 0 {
        "0"
    } else if value == 1 {
        "1"
    } else if value == 2 {
        "2"
    } else if value == 3 {
        "3"
    } else if value == 4 {
        "4"
    } else if value == 5 {
        "5"
    } else if value == 6 {
        "6"
    } else if value == 7 {
        "7"
    } else if value == 8 {
        "8"
    } else {
        "9"
    };
    text
}

/// Writes a number in decimal digits.
pub fn decimal_text(number: u16) -> (text: String)
    ensures
        text@ == decimal(number as nat),
    decreases number,
{
    if number < 10 {
        String::from_str(digit_text(number))
    } else {
        let mut text = decimal_text(number / 10);
        text.append(digit_text(number % 10));
        text
    }
}

/// Where the application listens and how it is reached.
#[derive(Debug, PartialEq, Eq)]
pub struct ApplicationSettings {
    pub port: u16,
    pub host: String,
    pub base_url: String,
}

impl ApplicationSettings {
    /// The address to listen on: the host, a colon, and the port in decimal
    /// digits.
    pub fn address(&self) -> (address: String)
        ensures
            address@ == self.host@ + ":"@ + decimal(self.port as nat),
    {
        let mut address = self.host.clone();
        address.append(":");
        let port = decimal_text(self.port);
        address.append(port.as_str());
        address
    }
}

} // verus!
