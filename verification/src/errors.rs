//! The failure kinds of token resolution. A missing or unreadable source is a
//! `Read` failure carrying a user-actionable message; corrupt contents are a
//! `UnableToParseCredentials` failure; an authenticated identity without any
//! organization membership is the fatal `NoOrganization` condition.
use vstd::prelude::*;
use vstd::string::StringExecFns;

verus! {

#[derive(Debug)]
pub enum InfinyonCredentialError {
    /// A credential source could not be read at all; the message tells the
    /// user what to do about it.
    Read(String),
    /// A credential source was read but its contents are corrupt.
    UnableToParseCredentials,
    /// The helper reported an authenticated identity that belongs to no
    /// organization; resolution must fail loudly rather than hand back an
    /// empty token.
    NoOrganization,
}

/// The mathematical shadow of `InfinyonCredentialError`.
pub ghost enum ErrorView {
    Read(Seq<char>),
    UnableToParseCredentials,
    NoOrganization,
}

impl View for InfinyonCredentialError {
    type V = ErrorView;

    open spec fn view(&self) -> ErrorView {
        match self {
            InfinyonCredentialError::Read(m) => ErrorView::Read(m@),
            InfinyonCredentialError::UnableToParseCredentials => ErrorView::UnableToParseCredentials,
            InfinyonCredentialError::NoOrganization => ErrorView::NoOrganization,
        }
    }
}

/// The message shown when a credential file or the pointer file is absent.
pub open spec fn spec_no_access_message() -> Seq<char> {
    "no access credentials, try 'fluvio cloud login'"@
}

/// The message shown when the external helper could not be executed.
pub open spec fn spec_helper_failed_message() -> Seq<char> {
    "failed to execute v4"@
}

pub open spec fn spec_parse_message() -> Seq<char> {
    "unable to parse credentials"@
}

pub open spec fn spec_no_organization_message() -> Seq<char> {
    "no org access token found, please login or switch to an org with 'fluvio cloud org switch'"@
}

/// The user-visible wording of each failure.
pub open spec fn spec_error_message(e: ErrorView) -> Seq<char> {
    match e {
        ErrorView::Read(m) => m,
        ErrorView::UnableToParseCredentials => spec_parse_message(),
        ErrorView::NoOrganization => spec_no_organization_message(),
    }
}

impl InfinyonCredentialError {
    /// The user-visible message of this failure.
    pub fn message(&self) -> (r: String)
        ensures
            r@ == spec_error_message(self@),
    {
        match self {
            InfinyonCredentialError::Read(m) => m.clone(),
            InfinyonCredentialError::UnableToParseCredentials => String::from_str(
                "unable to parse credentials",
            ),
            InfinyonCredentialError::NoOrganization => String::from_str(
                "no org access token found, please login or switch to an org with 'fluvio cloud org switch'",
            ),
        }
    }
}

} // verus!
