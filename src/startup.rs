use vstd::prelude::*;
use vstd::string::*;

verus! {

/// The environment variable that holds the bot's authentication token.
pub const TOKEN_VARIABLE: &'static str = "DISCORD_BOT_TOKEN";

/// A failure that stops the bot before it connects.
#[derive(Debug, Clone, Copy, PartialEq, Eq, Structural)]
pub enum StartupError {
    /// No authentication token was configured.
    MissingToken,
}

impl StartupError {
    /// The diagnostic shown to the operator.
    pub fn message(&self) -> (r: String)
        ensures
            *self == StartupError::MissingToken ==> r@
                == "DISCORD_BOT_TOKEN must be set in .env file."@,
    {
        match self {
            StartupError::MissingToken => {
                let r = String::from_str("DISCORD_BOT_TOKEN must be set in .env file.");
                proof {
                    reveal_strlit("DISCORD_BOT_TOKEN must be set in .env file.");
                }
                r
            },
        }
    }
}

/// The token to log in with, from the configured value: its absence is fatal.
pub fn bot_token(value: Option<String>) -> (r: Result<String, StartupError>)
    ensures
        value is None ==> r == Err::<String, StartupError>(StartupError::MissingToken),
        value is Some ==> r == Ok::<String, StartupError>(value->0),
{
    match value {
        Some(token) => Ok(token),
        None => Err(StartupError::MissingToken),
    }
}

} // verus!
