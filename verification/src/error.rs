//! Failure taxonomy and the plain description of the response each failure gets.

use vstd::prelude::*;

verus! {

/// Status of a request that the server could not serve as sent.
pub const STATUS_BAD_REQUEST: u16 = 400;

/// Status of a request that failed authorization.
pub const STATUS_UNAUTHORIZED: u16 = 401;

/// Everything that can go wrong in the authorization layer.
///
/// The three authorization failures are deliberately coarse: a caller cannot
/// tell an unknown client from a wrong secret, nor an expired token from a
/// forged one.
#[derive(Debug, Clone, PartialEq, Eq)]
pub enum BdfError {
    /// The listening socket could not be set up; holds the cause as text.
    SocketError(String),
    /// No bearer token, a malformed or forged one, or one outside its window.
    InvalidToken,
    /// Empty field, unknown client or wrong secret at login.
    InvalidCredentials,
    /// Signing the token failed.
    TokenCreationError,
}

/// What is sent back for a failure: the status, the message, and the JSON
/// body, an object whose only member `error` holds the message.
#[derive(Debug, Clone, PartialEq, Eq)]
pub struct ErrorResponse {
    pub status: u16,
    pub error: String,
    pub body: String,
}

/// The compact JSON text of the object whose only member is called `name` and
/// holds the string `text`.
pub uninterp spec fn json_object_text(name: Seq<char>, text: Seq<char>) -> Seq<char>;

/// Whether a text stands in a JSON string as it is: it holds no quote, no
/// backslash and no control character.
pub open spec fn is_plain_json_text(text: Seq<char>) -> bool {
    forall|i: int|
        0 <= i < text.len() ==> (#[trigger] text[i]) != '"' && text[i] != '\\' && text[i] as u32
            >= 32
}

/// Renders the JSON object with the single string member `name`.
///
/// Builds the object as a `serde_json::Value` and calls its `to_string`,
/// which writes the compact form and depends on the two texts alone. Of the
/// form this is claimed: `serde_json` escapes the quote, the backslash and the
/// control characters and nothing else, so a name and a text without them
/// stand between the brackets, quotes and colon as they are.
#[verifier::external_body]
fn json_object(name: &str, text: &str) -> (rendered: String)
    ensures
        rendered@ == json_object_text(name@, text@),
        is_plain_json_text(name@) && is_plain_json_text(text@) ==> rendered@ == "{\""@ + name@
            + "\":\""@ + text@ + "\"}"@,
{
    let mut members = serde_json::Map::new();
    members.insert(name.to_owned(), serde_json::Value::from(text));
    serde_json::Value::Object(members).to_string()
}

impl BdfError {
    /// The status a failure is answered with.
    pub open spec fn spec_status(self) -> u16 {
        match self {
            BdfError::SocketError(_) => 400u16,
            BdfError::InvalidToken => 401u16,
            BdfError::InvalidCredentials => 401u16,
            BdfError::TokenCreationError => 401u16,
        }
    }

    /// The message a failure is answered with.
    pub open spec fn spec_message(self) -> Seq<char> {
        match self {
            BdfError::SocketError(cause) => "Socket not available: "@ + cause@,
            BdfError::InvalidToken => "Invalid token"@,
            BdfError::InvalidCredentials => "Invalid credentials"@,
            BdfError::TokenCreationError => "creation of web token failed"@,
        }
    }

    /// The one-line description of a failure, as it is written to a log.
    pub open spec fn spec_describe(self) -> Seq<char> {
        match self {
            BdfError::SocketError(_) => "failed to read the key file"@,
            BdfError::InvalidToken => "invalid token"@,
            BdfError::InvalidCredentials => "wrong credentials"@,
            BdfError::TokenCreationError => "web token creation failed"@,
        }
    }

    /// The JSON body a failure is answered with.
    pub open spec fn spec_body(self) -> Seq<char> {
        json_object_text("error"@, self.spec_message())
    }

    pub fn status_code(&self) -> (status: u16)
        ensures
            status == self.spec_status(),
    {
        match self {
            BdfError::SocketError(_) => STATUS_BAD_REQUEST,
            _ => STATUS_UNAUTHORIZED,
        }
    }

    pub fn error_message(&self) -> (message: String)
        ensures
            message@ == self.spec_message(),
    {
        match self {
            BdfError::SocketError(cause) => {
                String::from_str("Socket not available: ").concat(cause.as_str())
            },
            BdfError::InvalidToken => String::from_str("Invalid token"),
            BdfError::InvalidCredentials => String::from_str("Invalid credentials"),
            BdfError::TokenCreationError => String::from_str("creation of web token failed"),
        }
    }

    pub fn describe(&self) -> (line: String)
        ensures
            line@ == self.spec_describe(),
    {
        match self {
            BdfError::SocketError(_) => String::from_str("failed to read the key file"),
            BdfError::InvalidToken => String::from_str("invalid token"),
            BdfError::InvalidCredentials => String::from_str("wrong credentials"),
            BdfError::TokenCreationError => String::from_str("web token creation failed"),
        }
    }

    /// Renders the failure as the response that is sent for it.
    pub fn into_response(self) -> (response: ErrorResponse)
        ensures
            response.status == self.spec_status(),
            response.error@ == self.spec_message(),
            response.body@ == self.spec_body(),
            is_plain_json_text(self.spec_message()) ==> response.body@ == "{\"error\":\""@
                + self.spec_message() + "\"}"@,
            self is InvalidToken ==> response.body@ == "{\"error\":\"Invalid token\"}"@,
            self is InvalidCredentials ==> response.body@
                == "{\"error\":\"Invalid credentials\"}"@,
            self is TokenCreationError ==> response.body@
                == "{\"error\":\"creation of web token failed\"}"@,
    {
        let status = self.status_code();
        let error = self.error_message();
        let body = json_object("error", error.as_str());
        proof {
            reveal_strlit("error");
            reveal_strlit("{\"");
            reveal_strlit("\":\"");
            reveal_strlit("\"}");
            reveal_strlit("Invalid token");
            reveal_strlit("Invalid credentials");
            reveal_strlit("creation of web token failed");
            reveal_strlit("{\"error\":\"Invalid token\"}");
            reveal_strlit("{\"error\":\"Invalid credentials\"}");
            reveal_strlit("{\"error\":\"creation of web token failed\"}");
            reveal_strlit("{\"error\":\"");
            let framed = "{\""@ + "error"@ + "\":\""@ + error@ + "\"}"@;
            assert("{\""@ + "error"@ + "\":\""@ =~= "{\"error\":\""@);
            assert(framed =~= "{\"error\":\""@ + error@ + "\"}"@);
            if self is InvalidToken {
                assert(framed =~= "{\"error\":\"Invalid token\"}"@);
            }
            if self is InvalidCredentials {
                assert(framed =~= "{\"error\":\"Invalid credentials\"}"@);
            }
            if self is TokenCreationError {
                assert(framed =~= "{\"error\":\"creation of web token failed\"}"@);
            }
        }
        ErrorResponse { status, error, body }
    }
}

/// Every authorization failure is answered with status 401, whatever its cause.
pub proof fn lemma_authorization_failures_are_unauthorized(e: BdfError)
    requires
        !(e is SocketError),
    ensures
        e.spec_status() == 401,
{
}

} // verus!
