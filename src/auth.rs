use vstd::prelude::*;
use crate::models::{Identity, NewIdentity, Person, Session, StoreError};
use crate::phone::{identifier_for, identifier_of, is_phone_number, phone_number_ok};
use crate::reply::{notice_of, success_of, Notice, Reply, ResponseStatus};

verus! {

/// The form of both steps of the phone verification.
#[derive(Clone, Debug, PartialEq, Eq)]
pub struct AuthForm {
    pub country_code: u16,
    pub phone_number: String,
    pub code: Option<String>,
}

/// How a call to the SMS verification provider failed.
#[derive(Clone, Copy, Debug, PartialEq, Eq, Structural)]
pub enum ProviderError {
    BadRequest,
    UnauthorizedKey,
    Forbidden,
    UserNotFound,
    TooManyRequests,
    InternalServerError,
    ServiceUnavailable,
    Io,
    JsonParse,
    Request,
    InvalidServerResponse,
    UnknownServerResponse,
}

/// What the first step of the verification does next.
#[derive(Clone, Debug, PartialEq, Eq)]
pub enum BeginCommand {
    /// Ask the provider to send a code by SMS to this number.
    SendCode { country_code: u16, phone_number: String },
    /// Answer at once.
    Respond(Reply<()>),
}

/// The first step of the verification: a number of the right shape is
/// handed to the provider, any other is refused.
pub fn begin_auth(form: AuthForm) -> (r: BeginCommand)
    ensures
        is_phone_number(form.phone_number@) ==> r == (BeginCommand::SendCode {
            country_code: form.country_code,
            phone_number: form.phone_number,
        }),
        !is_phone_number(form.phone_number@) ==> r == BeginCommand::Respond(
            notice_of(400, ResponseStatus::Fail, Notice::InvalidPhoneNumber),
        ),
{
    if !phone_number_ok(form.phone_number.as_str()) {
        return BeginCommand::Respond(Reply::notice(400, ResponseStatus::Fail, Notice::InvalidPhoneNumber));
    }
    BeginCommand::SendCode { country_code: form.country_code, phone_number: form.phone_number }
}

/// Whether a provider failure is one of transport or parsing: the server's
/// fault, not the caller's.
pub open spec fn is_transport_failure(e: ProviderError) -> bool {
    e == ProviderError::Request || e == ProviderError::Io || e == ProviderError::JsonParse
}

pub open spec fn begin_reply_of(sent: Result<String, ProviderError>) -> Reply<()> {
    match sent {
        Ok(m) => notice_of(200, ResponseStatus::Success, Notice::Provider(m)),
        Err(e) => if is_transport_failure(e) {
            notice_of(500, ResponseStatus::Error, Notice::InternalError)
        } else {
            notice_of(400, ResponseStatus::Error, Notice::PhoneNumberRejected)
        },
    }
}

/// The answer to the first step, from the provider's answer (its message,
/// or how it failed): a failure of transport or parsing is an internal
/// error, any other refusal of the number a bad request.
pub fn begin_auth_reply(sent: Result<String, ProviderError>) -> (r: Reply<()>)
    ensures
        r == begin_reply_of(sent),
{
    match sent {
        Ok(m) => Reply::notice(200, ResponseStatus::Success, Notice::Provider(m)),
        Err(ProviderError::Request) | Err(ProviderError::Io) | Err(ProviderError::JsonParse) => {
            Reply::notice(500, ResponseStatus::Error, Notice::InternalError)
        },
        Err(_) => Reply::notice(400, ResponseStatus::Error, Notice::PhoneNumberRejected),
    }
}

/// Where the second step of the verification stands.
#[derive(Clone, Copy, Debug, PartialEq, Eq, Structural)]
pub enum VerifyStep {
    CheckingCode,
    FindingIdentity,
    CreatingPerson,
    CreatingIdentity,
    OpeningSession,
    Finished,
}

/// The second step of the verification, under way.
#[derive(Clone, Debug, PartialEq, Eq)]
pub struct Verification {
    pub identifier: String,
    pub step: VerifyStep,
}

/// What the second step does next.
#[derive(Clone, Debug, PartialEq, Eq)]
pub enum VerifyCommand {
    /// Ask the provider whether `code` is the one sent to the number.
    CheckCode { country_code: u16, phone_number: String, code: String },
    /// Look up the identity with this identifier.
    FindIdentity { identifier: String },
    /// Insert a new person.
    CreatePerson,
    /// Insert this identity.
    CreateIdentity(NewIdentity),
    /// Open a new session for the person (see `session::new_session`).
    OpenSession { person_id: i32 },
    /// Answer, and stop.
    Respond(Reply<Session>),
}

/// What came back from the command last issued.
#[derive(Debug)]
pub enum VerifyEvent {
    /// Whether the provider accepted the code, or how the call failed.
    CodeChecked(Result<bool, ProviderError>),
    IdentityFound(Result<Option<Identity>, StoreError>),
    PersonCreated(Result<Person, StoreError>),
    IdentityCreated(Result<Identity, StoreError>),
    SessionOpened(Result<Session, StoreError>),
}

pub open spec fn internal_error() -> Reply<Session> {
    notice_of(500, ResponseStatus::Error, Notice::InternalError)
}

/// The answer to a code that the provider did not accept: a failure of
/// transport or parsing is the server's, input that the provider calls
/// malformed is a bad request, a wrong code is forbidden.
pub open spec fn check_failure_of(e: ProviderError) -> Reply<Session> {
    match e {
        ProviderError::Request | ProviderError::Io | ProviderError::JsonParse => internal_error(),
        ProviderError::UnauthorizedKey => notice_of(403, ResponseStatus::Fail, Notice::InvalidCode),
        ProviderError::BadRequest => notice_of(400, ResponseStatus::Fail, Notice::CodeNotVerified),
        _ => notice_of(403, ResponseStatus::Fail, Notice::CodeNotVerified),
    }
}

fn check_failure(e: ProviderError) -> (r: Reply<Session>)
    ensures
        r == check_failure_of(e),
{
    match e {
        ProviderError::Request | ProviderError::Io | ProviderError::JsonParse => {
            Reply::notice(500, ResponseStatus::Error, Notice::InternalError)
        },
        ProviderError::UnauthorizedKey => Reply::notice(403, ResponseStatus::Fail, Notice::InvalidCode),
        ProviderError::BadRequest => Reply::notice(400, ResponseStatus::Fail, Notice::CodeNotVerified),
        _ => Reply::notice(403, ResponseStatus::Fail, Notice::CodeNotVerified),
    }
}

pub open spec fn finish(identifier: String, reply: Reply<Session>) -> (Verification, VerifyCommand) {
    (Verification { identifier, step: VerifyStep::Finished }, VerifyCommand::Respond(reply))
}

pub open spec fn goto(identifier: String, step: VerifyStep, c: VerifyCommand) -> (Verification, VerifyCommand) {
    (Verification { identifier, step }, c)
}

/// The state and command that a verification moves to on an event.
pub open spec fn verify_transition(v: Verification, e: VerifyEvent) -> (Verification, VerifyCommand) {
    let id = v.identifier;
    match (v.step, e) {
        (VerifyStep::CheckingCode, VerifyEvent::CodeChecked(Ok(true))) =>
            goto(id, VerifyStep::FindingIdentity, VerifyCommand::FindIdentity { identifier: id }),
        (VerifyStep::CheckingCode, VerifyEvent::CodeChecked(Ok(false))) =>
            finish(id, notice_of(403, ResponseStatus::Fail, Notice::InvalidCode)),
        (VerifyStep::CheckingCode, VerifyEvent::CodeChecked(Err(pe))) => finish(id, check_failure_of(pe)),
        (VerifyStep::FindingIdentity, VerifyEvent::IdentityFound(Ok(Some(i)))) =>
            goto(id, VerifyStep::OpeningSession, VerifyCommand::OpenSession { person_id: i.person_id }),
        (VerifyStep::FindingIdentity, VerifyEvent::IdentityFound(Ok(None))) =>
            goto(id, VerifyStep::CreatingPerson, VerifyCommand::CreatePerson),
        (VerifyStep::CreatingPerson, VerifyEvent::PersonCreated(Ok(p))) =>
            goto(id, VerifyStep::CreatingIdentity, VerifyCommand::CreateIdentity(
                NewIdentity { identifier: id, person_id: p.id },
            )),
        (VerifyStep::CreatingIdentity, VerifyEvent::IdentityCreated(Ok(i))) =>
            goto(id, VerifyStep::OpeningSession, VerifyCommand::OpenSession { person_id: i.person_id }),
        (VerifyStep::OpeningSession, VerifyEvent::SessionOpened(Ok(s))) => finish(id, success_of(s)),
        _ => finish(id, internal_error()),
    }
}

impl Verification {
    /// Starts the second step of the verification: a code is required and
    /// the number must have the right shape, else the request is refused
    /// before the provider is asked anything.
    pub fn start(form: AuthForm) -> (r: (Verification, VerifyCommand))
        ensures
            form.code is None ==> r.1 == VerifyCommand::Respond(
                notice_of(400, ResponseStatus::Fail, Notice::MissingCode),
            ),
            form.code is Some && !is_phone_number(form.phone_number@) ==> r.1 == VerifyCommand::Respond(
                notice_of(400, ResponseStatus::Fail, Notice::InvalidPhoneNumberOnVerify),
            ),
            r.1 is Respond ==> r.0.step == VerifyStep::Finished,
            form.code is Some && is_phone_number(form.phone_number@) ==> {
                &&& r.1 == (VerifyCommand::CheckCode {
                    country_code: form.country_code,
                    phone_number: form.phone_number,
                    code: form.code->0,
                })
                &&& r.0.step == VerifyStep::CheckingCode
                &&& r.0.identifier@ == identifier_of(form.country_code, form.phone_number@)
            },
    {
        let identifier = identifier_for(form.country_code, form.phone_number.as_str());
        match form.code {
            None => (
                Verification { identifier, step: VerifyStep::Finished },
                VerifyCommand::Respond(Reply::notice(400, ResponseStatus::Fail, Notice::MissingCode)),
            ),
            Some(code) => {
                if !phone_number_ok(form.phone_number.as_str()) {
                    (
                        Verification { identifier, step: VerifyStep::Finished },
                        VerifyCommand::Respond(
                            Reply::notice(400, ResponseStatus::Fail, Notice::InvalidPhoneNumberOnVerify),
                        ),
                    )
                } else {
                    (
                        Verification { identifier, step: VerifyStep::CheckingCode },
                        VerifyCommand::CheckCode {
                            country_code: form.country_code,
                            phone_number: form.phone_number,
                            code,
                        },
                    )
                }
            },
        }
    }

    /// Moves the verification on by what the last command gave back.
    pub fn advance(self, e: VerifyEvent) -> (r: (Verification, VerifyCommand))
        ensures
            r == verify_transition(self, e),
    {
        let id = self.identifier;
        match (self.step, e) {
            (VerifyStep::CheckingCode, VerifyEvent::CodeChecked(Ok(ok))) => {
                if ok {
                    let c = VerifyCommand::FindIdentity { identifier: id.clone() };
                    (Verification { identifier: id, step: VerifyStep::FindingIdentity }, c)
                } else {
                    (
                        Verification { identifier: id, step: VerifyStep::Finished },
                        VerifyCommand::Respond(Reply::notice(403, ResponseStatus::Fail, Notice::InvalidCode)),
                    )
                }
            },
            (VerifyStep::CheckingCode, VerifyEvent::CodeChecked(Err(pe))) => {
                (Verification { identifier: id, step: VerifyStep::Finished }, VerifyCommand::Respond(check_failure(pe)))
            },
            (VerifyStep::FindingIdentity, VerifyEvent::IdentityFound(Ok(Some(i)))) => {
                (
                    Verification { identifier: id, step: VerifyStep::OpeningSession },
                    VerifyCommand::OpenSession { person_id: i.person_id },
                )
            },
            (VerifyStep::FindingIdentity, VerifyEvent::IdentityFound(Ok(None))) => {
                (Verification { identifier: id, step: VerifyStep::CreatingPerson }, VerifyCommand::CreatePerson)
            },
            (VerifyStep::CreatingPerson, VerifyEvent::PersonCreated(Ok(p))) => {
                let c = VerifyCommand::CreateIdentity(NewIdentity { identifier: id.clone(), person_id: p.id });
                (Verification { identifier: id, step: VerifyStep::CreatingIdentity }, c)
            },
            (VerifyStep::CreatingIdentity, VerifyEvent::IdentityCreated(Ok(i))) => {
                (
                    Verification { identifier: id, step: VerifyStep::OpeningSession },
                    VerifyCommand::OpenSession { person_id: i.person_id },
                )
            },
            (VerifyStep::OpeningSession, VerifyEvent::SessionOpened(Ok(s))) => {
                (Verification { identifier: id, step: VerifyStep::Finished }, VerifyCommand::Respond(Reply::success(s)))
            },
            _ => {
                (
                    Verification { identifier: id, step: VerifyStep::Finished },
                    VerifyCommand::Respond(Reply::notice(500, ResponseStatus::Error, Notice::InternalError)),
                )
            },
        }
    }
}

} // verus!
