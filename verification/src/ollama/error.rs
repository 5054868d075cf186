//! Failures of a call to the model server.

use vstd::prelude::*;
use vstd::string::StringExecFns;

verus! {

/// The text that reqwest shows for the status code `code`.
pub uninterp spec fn status_display(code: u16) -> Seq<char>;

/// Calls the `Display` impl of `reqwest::StatusCode` on the status that
/// `StatusCode::from_u16` makes of `code`, or that of the error it returns for
/// a code that is no status. The text depends on the code alone.
#[verifier::external_body]
fn status_text(code: u16) -> (text: String)
    ensures
        text@ == status_display(code),
{
    match reqwest::StatusCode::from_u16(code) {
        Ok(status) => status.to_string(),
        Err(invalid) => invalid.to_string(),
    }
}

/// Why a call to the model server failed.
#[derive(Debug, Clone, PartialEq, Eq)]
pub enum ClientError {
    /// The server could not be reached, or the connection broke.
    Transport { detail: String },
    /// The server answered, but not as agreed: with a failure status (then
    /// `status` holds it and `detail` the body of the answer), or with a line
    /// that cannot be decoded.
    Protocol { status: Option<u16>, detail: String },
}

/// A failure, with its texts as sequences of characters.
pub enum ClientErrorModel {
    Transport { detail: Seq<char> },
    Protocol { status: Option<u16>, detail: Seq<char> },
}

/// The text that describes a failure: for a failure status, the status and
/// the body of the answer; otherwise the detail alone.
pub open spec fn message_of(error: ClientErrorModel) -> Seq<char> {
    match error {
        ClientErrorModel::Transport { detail } => detail,
        ClientErrorModel::Protocol { status: Some(code), detail } => status_display(code) + ": "@
            + detail,
        ClientErrorModel::Protocol { status: None, detail } => detail,
    }
}

impl View for ClientError {
    type V = ClientErrorModel;

    open spec fn view(&self) -> ClientErrorModel {
        match *self {
            ClientError::Transport { detail } => ClientErrorModel::Transport { detail: detail@ },
            ClientError::Protocol { status, detail } => ClientErrorModel::Protocol {
                status,
                detail: detail@,
            },
        }
    }
}

impl ClientError {
    /// The failure of a call that got no answer.
    pub fn transport(detail: &str) -> (error: ClientError)
        ensures
            error@ == (ClientErrorModel::Transport { detail: detail@ }),
    {
        ClientError::Transport { detail: detail.to_owned() }
    }

    /// The failure of a call answered with the failure status `status` and
    /// `body`.
    pub fn rejected(status: u16, body: &str) -> (error: ClientError)
        ensures
            error@ == (ClientErrorModel::Protocol { status: Some(status), detail: body@ }),
    {
        ClientError::Protocol { status: Some(status), detail: body.to_owned() }
    }

    /// The failure to decode a line of the answer.
    pub fn malformed(detail: &str) -> (error: ClientError)
        ensures
            error@ == (ClientErrorModel::Protocol { status: None, detail: detail@ }),
    {
        ClientError::Protocol { status: None, detail: detail.to_owned() }
    }

    /// Whether the server could not be reached.
    pub fn is_transport(&self) -> (transport: bool)
        ensures
            transport == (self@ is Transport),
    {
        match self {
            ClientError::Transport { .. } => true,
            ClientError::Protocol { .. } => false,
        }
    }

    /// Describes the failure.
    pub fn message(&self) -> (message: String)
        ensures
            message@ == message_of(self@),
    {
        match self {
            ClientError::Transport { detail } => detail.clone(),
            ClientError::Protocol { status: Some(code), detail } => {
                let mut message = status_text(*code);
                message.append(": ");
                message.append(detail.as_str());
                message
            },
            ClientError::Protocol { status: None, detail } => detail.clone(),
        }
    }
}

} // verus!
