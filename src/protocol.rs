//! Requests, responses and the rules that connect them.
use vstd::prelude::*;

verus! {

/// One inbound message, as decoded from a binary frame.
#[derive(Debug, PartialEq, Eq)]
pub enum Request {
    /// `Login.Credentials`: log in with a user name and a password.
    Credentials { username: String, password: String },
    /// `Login.Token`: renew an existing session token.
    Token { token: String },
    /// `Logout`: revoke a session token.
    Logout { token: String },
}

/// Why a binary frame could not be decoded into a [`Request`].
#[derive(PartialEq, Eq, Structural, Clone, Copy, Debug)]
pub enum DecodeError {
    /// The message envelope is malformed.
    Envelope,
    /// The top-level tag is absent or unknown.
    UnknownTag,
    /// The tag below `Login` is absent or unknown.
    UnknownLoginTag,
}

/// One outbound message.
#[derive(Debug, PartialEq, Eq)]
pub enum Response {
    /// `LoginResult { token }`: the login or renewal succeeded.
    LoginToken { token: String },
    /// `LoginResult { error }`: the renewal failed with this message.
    LoginError { error: String },
    /// `LogoutResult { success }`.
    Logout { success: bool },
}

/// A call the dispatcher asks the token store to make.
#[derive(Debug, PartialEq, Eq)]
pub enum StoreCall {
    /// `create(username)`: issue a token for an authenticated user.
    Create { username: String },
    /// `verify(token)`: check a token and renew it.
    Verify { token: String },
    /// `remove(token)`: revoke a token.
    Remove { token: String },
}

impl StoreCall {
    /// A copy of this call.
    pub fn duplicate(&self) -> (r: StoreCall)
        ensures
            r == *self,
    {
        match self {
            StoreCall::Create { username } => StoreCall::Create { username: username.clone() },
            StoreCall::Verify { token } => StoreCall::Verify { token: token.clone() },
            StoreCall::Remove { token } => StoreCall::Remove { token: token.clone() },
        }
    }
}

/// What the token store answered to a [`StoreCall`].
#[derive(Debug, PartialEq, Eq)]
pub enum StoreReply {
    /// `create` returned this token.
    Created { token: String },
    /// `create` failed with this message.
    CreateFailed { message: String },
    /// `verify` returned this renewed token.
    Verified { token: String },
    /// `verify` failed with this message.
    VerifyFailed { message: String },
    /// `remove` succeeded.
    Removed,
    /// `remove` failed with this message.
    RemoveFailed { message: String },
}

/// Why a frame gets no response.
#[derive(Debug, PartialEq, Eq)]
pub enum HandlerError {
    /// The frame could not be decoded.
    Decode { error: DecodeError },
    /// A credential login with an empty user name or password.
    WrongUsernamePassword,
    /// `create` or `remove` failed with this message.
    Store { message: String },
    /// The store's reply does not belong to the call that was made.
    MismatchedReply,
}

/// The store call that `req` asks for, or the validation error that stops it.
pub open spec fn plan_spec(req: Request) -> Result<StoreCall, HandlerError> {
    match req {
        Request::Credentials { username, password } => {
            if username@.len() == 0 || password@.len() == 0 {
                Err(HandlerError::WrongUsernamePassword)
            } else {
                Ok(StoreCall::Create { username })
            }
        },
        Request::Token { token } => Ok(StoreCall::Verify { token }),
        Request::Logout { token } => Ok(StoreCall::Remove { token }),
    }
}

/// The response that answers `call` once the store has replied `reply`.
///
/// Only a failed `verify` is turned into an in-band error; failures of
/// `create` and `remove` yield no response.
pub open spec fn respond_spec(call: StoreCall, reply: StoreReply) -> Result<Response, HandlerError> {
    match (call, reply) {
        (StoreCall::Create { .. }, StoreReply::Created { token }) => Ok(Response::LoginToken { token }),
        (StoreCall::Create { .. }, StoreReply::CreateFailed { message }) => Err(HandlerError::Store { message }),
        (StoreCall::Verify { .. }, StoreReply::Verified { token }) => Ok(Response::LoginToken { token }),
        (StoreCall::Verify { .. }, StoreReply::VerifyFailed { message }) => Ok(Response::LoginError { error: message }),
        (StoreCall::Remove { .. }, StoreReply::Removed) => Ok(Response::Logout { success: true }),
        (StoreCall::Remove { .. }, StoreReply::RemoveFailed { message }) => Err(HandlerError::Store { message }),
        _ => Err(HandlerError::MismatchedReply),
    }
}

/// Validates a request and names the store call it needs.
pub fn plan(req: Request) -> (r: Result<StoreCall, HandlerError>)
    ensures
        r == plan_spec(req),
{
    match req {
        Request::Credentials { username, password } => {
            if username.as_str().is_empty() || password.as_str().is_empty() {
                Err(HandlerError::WrongUsernamePassword)
            } else {
                Ok(StoreCall::Create { username })
            }
        },
        Request::Token { token } => Ok(StoreCall::Verify { token }),
        Request::Logout { token } => Ok(StoreCall::Remove { token }),
    }
}

/// Builds the response to `call` from the store's `reply`.
pub fn respond(call: &StoreCall, reply: StoreReply) -> (r: Result<Response, HandlerError>)
    ensures
        r == respond_spec(*call, reply),
{
    match (call, reply) {
        (StoreCall::Create { .. }, StoreReply::Created { token }) => Ok(Response::LoginToken { token }),
        (StoreCall::Create { .. }, StoreReply::CreateFailed { message }) => Err(HandlerError::Store { message }),
        (StoreCall::Verify { .. }, StoreReply::Verified { token }) => Ok(Response::LoginToken { token }),
        (StoreCall::Verify { .. }, StoreReply::VerifyFailed { message }) => Ok(Response::LoginError { error: message }),
        (StoreCall::Remove { .. }, StoreReply::Removed) => Ok(Response::Logout { success: true }),
        (StoreCall::Remove { .. }, StoreReply::RemoveFailed { message }) => Err(HandlerError::Store { message }),
        _ => Err(HandlerError::MismatchedReply),
    }
}

} // verus!
