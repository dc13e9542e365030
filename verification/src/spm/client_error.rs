//! How talking to a worker can fail.

use vstd::prelude::*;

use crate::text;

use super::proto::Message;
use super::SessionId;

verus! {

/// Why an operation on a worker connection failed.
#[derive(Debug)]
pub enum ClientError {
    /// No connection to the worker.
    Connect { address: String, cause: String },
    /// No further connection for a session.
    OpenLane { address: String, cause: String },
    /// Writing or reading a handshake failed.
    Transport { cause: String },
    /// A topology probe was not answered with the worker's description.
    UnexpectedProbe { address: String, response: Message },
    /// The first handshake was not answered with the worker's description.
    UnexpectedWorkerInfo { response: Message },
    /// The handshake of a session lane was not answered with the worker's
    /// description.
    UnexpectedHandshake { address: String, response: Message },
    /// As many session lanes are open as are allowed.
    LaneLimit { address: String, active: usize, limit: usize },
    /// The end of a session could not be sent.
    SendRelease { session_id: SessionId, address: String, cause: String },
    /// The end of a session was not answered.
    ReceiveRelease { session_id: SessionId, address: String, cause: String },
    /// The end of a session was answered with something else.
    UnexpectedRelease { address: String, response: Message },
    /// The end of a session took too long.
    ReleaseTimeout { session_id: SessionId, address: String },
    /// A request could not be sent.
    Sending { summary: String, cause: String },
    /// A request was not answered.
    Receiving { summary: String, cause: String },
    /// The worker reports a failure.
    Worker { message: String },
    /// A request was answered with something that is neither result nor failure.
    UnexpectedResponse { response: Message },
    /// A client was asked to load a layer.
    LoadOnClient,
    /// A client was asked to run a layer in place.
    ForwardOnClient,
}

impl ClientError {
    /// The text of the error. A message that was not expected is given in its debug
    /// form.
    pub open spec fn spec_text(&self) -> Seq<char> {
        match self {
            ClientError::Connect { address, cause } => "can't connect to "@ + address@ + ": "@
                + cause@,
            ClientError::OpenLane { address, cause } => "can't open inference lane to "@ + address@
                + ": "@ + cause@,
            ClientError::Transport { cause } => cause@,
            ClientError::UnexpectedProbe { address, response } => {
                "unexpected topology probe response from "@ + address@ + ": "@
                    + response.spec_debug()
            },
            ClientError::UnexpectedWorkerInfo { response } => "unexpected worker info message: "@
                + response.spec_debug(),
            ClientError::UnexpectedHandshake { address, response } => {
                "unexpected inference-lane handshake from "@ + address@ + ": "@
                    + response.spec_debug()
            },
            ClientError::LaneLimit { address, active, limit } => {
                "concurrent session lane limit reached for "@ + address@ + ": "@ + text::decimal(
                    *active as nat,
                ) + " active lanes (DIAL_MAX_SESSION_LANES="@ + text::decimal(*limit as nat) + ")"@
            },
            ClientError::SendRelease { session_id, address, cause } => {
                "failed to send release_session "@ + text::decimal(*session_id as nat) + " to "@
                    + address@ + ": "@ + cause@
            },
            ClientError::ReceiveRelease { session_id, address, cause } => {
                "failed to receive release_session "@ + text::decimal(*session_id as nat)
                    + " ack from "@ + address@ + ": "@ + cause@
            },
            ClientError::UnexpectedRelease { address, response } => {
                "unexpected release_session response from "@ + address@ + ": "@
                    + response.spec_debug()
            },
            ClientError::ReleaseTimeout { session_id, address } => {
                "release_session "@ + text::decimal(*session_id as nat) + " to "@ + address@
                    + " timed out"@
            },
            ClientError::Sending { summary, cause } => "error sending "@ + summary@ + ": "@
                + cause@,
            ClientError::Receiving { summary, cause } => "error receiving response for "@ + summary@
                + ": "@ + cause@,
            ClientError::Worker { message } => "worker error: "@ + message@,
            ClientError::UnexpectedResponse { response } => "unexpected response "@
                + response.spec_debug(),
            ClientError::LoadOnClient => "load should never be called on spm::Client"@,
            ClientError::ForwardOnClient => {
                "immutable forward should never be called on spm::Client"@
            },
        }
    }

    /// The text of the error.
    pub fn to_string(&self) -> (res: String)
        ensures
            res@ == self.spec_text(),
    {
        match self {
            ClientError::Connect { address, cause } => joined(
                "can't connect to ",
                address.as_str(),
                ": ",
                cause.as_str(),
            ),
            ClientError::OpenLane { address, cause } => joined(
                "can't open inference lane to ",
                address.as_str(),
                ": ",
                cause.as_str(),
            ),
            ClientError::Transport { cause } => cause.clone(),
            ClientError::UnexpectedProbe { address, response } => {
                let shown = response.debug_text();
                joined(
                    "unexpected topology probe response from ",
                    address.as_str(),
                    ": ",
                    shown.as_str(),
                )
            },
            ClientError::UnexpectedWorkerInfo { response } => {
                let shown = response.debug_text();
                "unexpected worker info message: ".to_owned().concat(shown.as_str())
            },
            ClientError::UnexpectedHandshake { address, response } => {
                let shown = response.debug_text();
                joined(
                    "unexpected inference-lane handshake from ",
                    address.as_str(),
                    ": ",
                    shown.as_str(),
                )
            },
            ClientError::LaneLimit { address, active, limit } => {
                let active = text::decimal_text(*active as u128);
                let limit = text::decimal_text(*limit as u128);
                let mut s = joined(
                    "concurrent session lane limit reached for ",
                    address.as_str(),
                    ": ",
                    active.as_str(),
                );
                s.append(" active lanes (DIAL_MAX_SESSION_LANES=");
                s.append(limit.as_str());
                s.append(")");
                s
            },
            ClientError::SendRelease { session_id, address, cause } => {
                let id = text::decimal_text(*session_id as u128);
                let mut s = joined(
                    "failed to send release_session ",
                    id.as_str(),
                    " to ",
                    address.as_str(),
                );
                s.append(": ");
                s.append(cause.as_str());
                s
            },
            ClientError::ReceiveRelease { session_id, address, cause } => {
                let id = text::decimal_text(*session_id as u128);
                let mut s = joined(
                    "failed to receive release_session ",
                    id.as_str(),
                    " ack from ",
                    address.as_str(),
                );
                s.append(": ");
                s.append(cause.as_str());
                s
            },
            ClientError::UnexpectedRelease { address, response } => {
                let shown = response.debug_text();
                joined(
                    "unexpected release_session response from ",
                    address.as_str(),
                    ": ",
                    shown.as_str(),
                )
            },
            ClientError::ReleaseTimeout { session_id, address } => {
                let id = text::decimal_text(*session_id as u128);
                let mut s = joined("release_session ", id.as_str(), " to ", address.as_str());
                s.append(" timed out");
                s
            },
            ClientError::Sending { summary, cause } => joined(
                "error sending ",
                summary.as_str(),
                ": ",
                cause.as_str(),
            ),
            ClientError::Receiving { summary, cause } => joined(
                "error receiving response for ",
                summary.as_str(),
                ": ",
                cause.as_str(),
            ),
            ClientError::Worker { message } => "worker error: ".to_owned().concat(
                message.as_str(),
            ),
            ClientError::UnexpectedResponse { response } => {
                let shown = response.debug_text();
                "unexpected response ".to_owned().concat(shown.as_str())
            },
            ClientError::LoadOnClient => "load should never be called on spm::Client".to_owned(),
            ClientError::ForwardOnClient => {
                "immutable forward should never be called on spm::Client".to_owned()
            },
        }
    }
}

/// Four texts in a row.
fn joined(a: &str, b: &str, c: &str, d: &str) -> (res: String)
    ensures
        res@ == a@ + b@ + c@ + d@,
{
    a.to_owned().concat(b).concat(c).concat(d)
}

} // verus!
