use vstd::prelude::*;
use vstd::string::StringExecFns;

verus! {

/// Spec view of the HTTP status class each error maps to.
pub open spec fn status_of(e: Error) -> u16 {
    match e {
        Error::MalformedRequest | Error::IncorrectFilecount(_) | Error::MissingContentType => 400,
        Error::BadOrNoAuth | Error::LackPermissions => 401,
        Error::Encoding | Error::Read(_) => 422,
        Error::Write(_) | Error::Io(_) | Error::RemoteAuth(_) | Error::RemoteUpload(_)
        | Error::Database(_) | Error::InternalServerError(_) | Error::ExternalDependencyFailed(
            _,
        ) => 500,
    }
}

/// The decimal digit of a value below ten.
pub open spec fn digit(v: nat) -> char {
    seq!['0', '1', '2', '3', '4', '5', '6', '7', '8', '9'][v as int]
}

/// The decimal notation of `n`, without leading zeros.
pub open spec fn decimal(n: nat) -> Seq<char>
    decreases n,
{
    if n < 10 {
        seq![digit(n)]
    } else {
        decimal(n / 10) + seq![digit(n % 10)]
    }
}

/// The text that answers a request failing with `e`.
pub open spec fn message_of(e: Error) -> Seq<char> {
    match e {
        Error::MalformedRequest => "no multipart boundary in the request"@,
        Error::Encoding => "Data can not read as UTF-8"@,
        Error::Read(m) => m@,
        Error::Write(m) => m@,
        Error::Io(m) => "internal server error: "@ + m@,
        Error::IncorrectFilecount(n) => "incorrect number of files uploaded (wanted "@ + decimal(
            n as nat,
        ) + ")"@,
        Error::MissingContentType => "the uploaded file declares no content type"@,
        Error::RemoteAuth(m) => "b2 error: "@ + m@,
        Error::RemoteUpload(m) => "b2 error: "@ + m@,
        Error::Database(m) => m@,
        Error::BadOrNoAuth => "bad or no authorization"@,
        Error::LackPermissions => "you lack needed permissions"@,
        Error::InternalServerError(m) => m@,
        Error::ExternalDependencyFailed(m) => m@,
    }
}

/// The decimal digit of a value below ten, as text.
fn digit_text(v: usize) -> (r: &'static str)
    requires
        v < 10,
    ensures
        r@ == seq![digit(v as nat)],
{
    proof {
        reveal_strlit("0");
        reveal_strlit("1");
        reveal_strlit("2");
        reveal_strlit("3");
        reveal_strlit("4");
        reveal_strlit("5");
        reveal_strlit("6");
        reveal_strlit("7");
        reveal_strlit("8");
        reveal_strlit("9");
    }
    let r = match v {
        0 => "0",
        1 => "1",
        2 => "2",
        3 => "3",
        4 => "4",
        5 => "5",
        6 => "6",
        7 => "7",
        8 => "8",
        _ => "9",
    };
    assert(r@ =~= seq![digit(v as nat)]);
    r
}

/// The decimal notation of `n`.
fn decimal_string(n: usize) -> (r: String)
    ensures
        r@ == decimal(n as nat),
    decreases n,
{
    if n < 10 {
        String::from_str(digit_text(n))
    } else {
        let high = decimal_string(n / 10);
        high.concat(digit_text(n % 10))
    }
}

/// Everything that can go wrong while handling a request.
#[derive(Debug, Clone, PartialEq, Eq)]
pub enum Error {
    /// The request carries no multipart boundary.
    MalformedRequest,
    /// A text part is not valid UTF-8.
    Encoding,
    /// Reading the request body failed midway.
    Read(String),
    /// Creating or writing a staged file failed.
    Write(String),
    /// A local file could not be read while publishing it.
    Io(String),
    /// The request did not carry the wanted number of files.
    IncorrectFilecount(usize),
    /// The uploaded file declares no content type.
    MissingContentType,
    /// The blob store refused the stored credentials.
    RemoteAuth(String),
    /// The blob store refused to hand out an upload target or to take the file.
    RemoteUpload(String),
    /// The persistence collaborator failed.
    Database(String),
    BadOrNoAuth,
    LackPermissions,
    InternalServerError(String),
    ExternalDependencyFailed(String),
}

/// Why a request could not be tied to a user.
#[derive(Debug, Clone, PartialEq, Eq)]
pub enum AuthError {
    BadCount,
    Missing,
    Invaild,
}

impl Error {
    /// The HTTP status that answers a request failing with this error: client
    /// errors for malformed input, unprocessable entity for bytes that cannot
    /// be read or decoded, server errors for local writes and remote calls.
    pub fn status(&self) -> (r: u16)
        ensures
            r == status_of(*self),
    {
        match self {
            Error::MalformedRequest | Error::IncorrectFilecount(_) | Error::MissingContentType => 400,
            Error::BadOrNoAuth | Error::LackPermissions => 401,
            Error::Encoding | Error::Read(_) => 422,
            _ => 500,
        }
    }

    /// The text that answers a request failing with this error.
    pub fn message(&self) -> (r: String)
        ensures
            r@ == message_of(*self),
    {
        match self {
            Error::MalformedRequest => String::from_str("no multipart boundary in the request"),
            Error::Encoding => String::from_str("Data can not read as UTF-8"),
            Error::Read(m) => m.clone(),
            Error::Write(m) => m.clone(),
            Error::Io(m) => String::from_str("internal server error: ").concat(m.as_str()),
            Error::IncorrectFilecount(n) => {
                let digits = decimal_string(*n);
                String::from_str("incorrect number of files uploaded (wanted ").concat(
                    digits.as_str(),
                ).concat(")")
            },
            Error::MissingContentType => String::from_str("the uploaded file declares no content type"),
            Error::RemoteAuth(m) => String::from_str("b2 error: ").concat(m.as_str()),
            Error::RemoteUpload(m) => String::from_str("b2 error: ").concat(m.as_str()),
            Error::Database(m) => m.clone(),
            Error::BadOrNoAuth => String::from_str("bad or no authorization"),
            Error::LackPermissions => String::from_str("you lack needed permissions"),
            Error::InternalServerError(m) => m.clone(),
            Error::ExternalDependencyFailed(m) => m.clone(),
        }
    }
}

} // verus!
