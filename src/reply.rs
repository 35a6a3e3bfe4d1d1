use vstd::prelude::*;

verus! {

/// The `status` word of a response envelope.
#[derive(Clone, Copy, Debug, PartialEq, Eq, Structural)]
pub enum ResponseStatus {
    Success,
    Fail,
    Error,
}

/// A message that a response envelope carries for the client.
#[derive(Clone, Debug, PartialEq, Eq)]
pub enum Notice {
    HelloWorld,
    ThumbsUp,
    Hello { person_id: i32 },
    Deleted,
    DrinkNotFound,
    UnexpectedError,
    InvalidPhoneNumber,
    InvalidPhoneNumberOnVerify,
    PhoneNumberRejected,
    MissingCode,
    InvalidCode,
    CodeNotVerified,
    InternalError,
    EmptyQuery,
    /// A message passed on from the SMS verification provider.
    Provider(String),
}

pub open spec fn notice_text(n: Notice) -> Seq<char> {
    match n {
        Notice::HelloWorld => "Hello world!"@,
        Notice::ThumbsUp => "\u{1F44D}"@,
        Notice::Hello { person_id } => "Hello person "@ + crate::text::decimal(person_id as int),
        Notice::Deleted => "Deleted"@,
        Notice::DrinkNotFound => "Could not find that drink"@,
        Notice::UnexpectedError => "An unexpected error occurred"@,
        Notice::InvalidPhoneNumber => "Invalid phone number"@,
        Notice::InvalidPhoneNumberOnVerify => "Invalid phone number!"@,
        Notice::PhoneNumberRejected => "That phone number didn't work :("@,
        Notice::MissingCode => "Missing verification code!"@,
        Notice::InvalidCode => "Invalid verification code"@,
        Notice::CodeNotVerified => "Unable to verify the code"@,
        Notice::InternalError => "Internal server error"@,
        Notice::EmptyQuery => "Empty search query"@,
        Notice::Provider(m) => m@,
    }
}

impl Notice {
    /// The text that the client reads.
    pub fn text(&self) -> (r: String)
        ensures
            r@ == notice_text(*self),
    {
        match self {
            Notice::HelloWorld => String::from_str("Hello world!"),
            Notice::ThumbsUp => String::from_str("\u{1F44D}"),
            Notice::Hello { person_id } => {
                let mut s = String::from_str("Hello person ");
                let digits = crate::text::decimal_string(*person_id as i64);
                s.append(digits.as_str());
                s
            },
            Notice::Deleted => String::from_str("Deleted"),
            Notice::DrinkNotFound => String::from_str("Could not find that drink"),
            Notice::UnexpectedError => String::from_str("An unexpected error occurred"),
            Notice::InvalidPhoneNumber => String::from_str("Invalid phone number"),
            Notice::InvalidPhoneNumberOnVerify => String::from_str("Invalid phone number!"),
            Notice::PhoneNumberRejected => String::from_str("That phone number didn't work :("),
            Notice::MissingCode => String::from_str("Missing verification code!"),
            Notice::InvalidCode => String::from_str("Invalid verification code"),
            Notice::CodeNotVerified => String::from_str("Unable to verify the code"),
            Notice::InternalError => String::from_str("Internal server error"),
            Notice::EmptyQuery => String::from_str("Empty search query"),
            Notice::Provider(m) => m.clone(),
        }
    }
}

/// A response: the HTTP status code and the JSON envelope
/// `{ status, data?, messages? }`. A `bare` reply has a status code and no
/// body at all.
#[derive(Clone, Debug, PartialEq, Eq)]
pub struct Reply<T> {
    pub code: u16,
    pub status: ResponseStatus,
    pub data: Option<T>,
    pub notice: Option<Notice>,
    pub bare: bool,
}

pub open spec fn success_of<T>(data: T) -> Reply<T> {
    Reply { code: 200, status: ResponseStatus::Success, data: Some(data), notice: None, bare: false }
}

pub open spec fn notice_of<T>(code: u16, status: ResponseStatus, n: Notice) -> Reply<T> {
    Reply { code, status, data: None, notice: Some(n), bare: false }
}

pub open spec fn bare_of<T>(code: u16) -> Reply<T> {
    Reply { code, status: ResponseStatus::Error, data: None, notice: None, bare: true }
}

impl<T> Reply<T> {
    /// A 200 reply with status `success` that carries `data`.
    pub fn success(data: T) -> (r: Reply<T>)
        ensures
            r == success_of(data),
    {
        Reply { code: 200, status: ResponseStatus::Success, data: Some(data), notice: None, bare: false }
    }

    /// A reply without data that carries one message.
    pub fn notice(code: u16, status: ResponseStatus, n: Notice) -> (r: Reply<T>)
        ensures
            r == notice_of::<T>(code, status, n),
    {
        Reply { code, status, data: None, notice: Some(n), bare: false }
    }

    /// A reply with a status code and no body.
    pub fn bare(code: u16) -> (r: Reply<T>)
        ensures
            r == bare_of::<T>(code),
    {
        Reply { code, status: ResponseStatus::Error, data: None, notice: None, bare: true }
    }
}

/// The greeting of the root route.
pub fn index() -> (r: Reply<Notice>)
    ensures
        r == success_of(Notice::HelloWorld),
{
    Reply::success(Notice::HelloWorld)
}

/// The answer to a liveness ping; it changes nothing.
pub fn wakeup() -> (r: Reply<Notice>)
    ensures
        r == success_of(Notice::ThumbsUp),
{
    Reply::success(Notice::ThumbsUp)
}

/// The answer of the session test route: it names the caller.
pub fn test_auth(person_id: i32) -> (r: Reply<Notice>)
    ensures
        r == success_of(Notice::Hello { person_id }),
{
    Reply::success(Notice::Hello { person_id })
}

} // verus!
