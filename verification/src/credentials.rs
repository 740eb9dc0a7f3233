//! The credential record and its on-disk text format, and the legacy
//! single-profile resolution scheme: a pointer file named `current` inside a
//! base directory holds the file name of the active credential file, which in
//! turn holds one record.
//!
//! A credential file consists of exactly four lines, in this order:
//!
//! ```text
//! remote = "..."
//! email = "..."
//! id = "..."
//! token = "..."
//! ```
//!
//! Each value stands between double quotes with backslash, double quote and
//! newline escaped as `\\`, `\"` and `\n`. Rendering and parsing invert each
//! other; see [`lemma_credentials_round_trip`].
use vstd::prelude::*;
use vstd::string::StrSliceExecFns;
use vstd::string::StringExecFns;

use crate::errors::ErrorView;
use crate::errors::InfinyonCredentialError;
use crate::errors::spec_no_access_message;
use crate::text::escape_str;
use crate::text::join_path;
use crate::text::lemma_parse_lit_prefix;
use crate::text::lemma_parse_quoted_escape;
use crate::text::parse_lit;
use crate::text::parse_quoted;
use crate::text::spec_escape;
use crate::text::spec_join;
use crate::text::spec_parse_lit;
use crate::text::spec_parse_quoted;
use crate::text::spec_trim;
use crate::text::trim;

verus! {

/// One stored login: which remote it is for, who owns it, and the bearer
/// token itself. The token is opaque; nothing here inspects or logs it.
#[derive(Debug, Clone, PartialEq)]
pub struct Credentials {
    pub remote: String,
    pub email: String,
    pub id: String,
    pub token: String,
}

/// The mathematical shadow of [`Credentials`].
pub ghost struct CredentialsView {
    pub remote: Seq<char>,
    pub email: Seq<char>,
    pub id: Seq<char>,
    pub token: Seq<char>,
}

impl View for Credentials {
    type V = CredentialsView;

    open spec fn view(&self) -> CredentialsView {
        CredentialsView {
            remote: self.remote@,
            email: self.email@,
            id: self.id@,
            token: self.token@,
        }
    }
}

/// A `Result` of loading, viewed field by field.
pub open spec fn cred_result_view(r: Result<Credentials, InfinyonCredentialError>) -> Result<
    CredentialsView,
    ErrorView,
> {
    match r {
        Ok(c) => Ok(c@),
        Err(e) => Err(e@),
    }
}

// ---------------------------------------------------------------------------
// The file format.
// ---------------------------------------------------------------------------
/// One line: the given prefix (key, equals sign and opening quote), then the
/// escaped value, closing quote and newline.
pub open spec fn spec_render_line(lit: Seq<char>, v: Seq<char>) -> Seq<char> {
    lit + spec_escape(v) + "\"\n"@
}

pub open spec fn spec_render_credentials(c: CredentialsView) -> Seq<char> {
    spec_render_line("remote = \""@, c.remote) + spec_render_line("email = \""@, c.email)
        + spec_render_line("id = \""@, c.id) + spec_render_line("token = \""@, c.token)
}

/// Consumes one line: the expected prefix, a quoted value and the newline.
pub open spec fn spec_parse_field(s: Seq<char>, lit: Seq<char>) -> Option<(Seq<char>, Seq<char>)> {
    match spec_parse_lit(s, lit) {
        None => None,
        Some(r1) => match spec_parse_quoted(r1) {
            None => None,
            Some((v, r2)) => match spec_parse_lit(r2, "\n"@) {
                None => None,
                Some(r3) => Some((v, r3)),
            },
        },
    }
}

/// The whole file: the four lines in order, and nothing after them.
pub open spec fn spec_parse_credentials(s: Seq<char>) -> Option<CredentialsView> {
    match spec_parse_field(s, "remote = \""@) {
        None => None,
        Some((remote, s1)) => match spec_parse_field(s1, "email = \""@) {
            None => None,
            Some((email, s2)) => match spec_parse_field(s2, "id = \""@) {
                None => None,
                Some((id, s3)) => match spec_parse_field(s3, "token = \""@) {
                    None => None,
                    Some((token, s4)) => if s4.len() == 0 {
                        Some(CredentialsView { remote, email, id, token })
                    } else {
                        None
                    },
                },
            },
        },
    }
}

fn parse_field<'a>(s: &'a str, lit: &str) -> (r: Option<(String, &'a str)>)
    ensures
        match r {
            Some(p) => spec_parse_field(s@, lit@) == Some((p.0@, p.1@)),
            None => spec_parse_field(s@, lit@) is None,
        },
{
    match parse_lit(s, lit) {
        None => None,
        Some(r1) => match parse_quoted(r1) {
            None => None,
            Some((v, r2)) => match parse_lit(r2, "\n") {
                None => None,
                Some(r3) => Some((v, r3)),
            },
        },
    }
}

// ---------------------------------------------------------------------------
// Loading and rendering.
// ---------------------------------------------------------------------------
/// The outcome of loading a single credential file whose read produced
/// `file_read` (`None`: the read itself failed).
pub open spec fn spec_load(file_read: Option<Seq<char>>) -> Result<CredentialsView, ErrorView> {
    match file_read {
        None => Err(ErrorView::Read(spec_no_access_message())),
        Some(s) => match spec_parse_credentials(s) {
            Some(c) => Ok(c),
            None => Err(ErrorView::UnableToParseCredentials),
        },
    }
}

/// The outcome of the legacy scheme: `pointer_read` is the read of the
/// `current` pointer file, `record_read` the read of the credential file the
/// pointer named. A missing pointer or record is a `Read` failure; a record
/// that does not parse is an `UnableToParseCredentials` failure.
pub open spec fn spec_try_load(
    pointer_read: Option<Seq<char>>,
    record_read: Option<Seq<char>>,
) -> Result<CredentialsView, ErrorView> {
    match pointer_read {
        None => Err(ErrorView::Read(spec_no_access_message())),
        Some(_) => spec_load(record_read),
    }
}

impl Credentials {
    /// Parses the text of one credential file.
    pub fn parse(s: &str) -> (r: Result<Credentials, InfinyonCredentialError>)
        ensures
            match spec_parse_credentials(s@) {
                Some(cv) => r matches Ok(c) && c@ == cv,
                None => r matches Err(e) && e@ == ErrorView::UnableToParseCredentials,
            },
    {
        match parse_field(s, "remote = \"") {
            None => Err(InfinyonCredentialError::UnableToParseCredentials),
            Some((remote, s1)) => match parse_field(s1, "email = \"") {
                None => Err(InfinyonCredentialError::UnableToParseCredentials),
                Some((email, s2)) => match parse_field(s2, "id = \"") {
                    None => Err(InfinyonCredentialError::UnableToParseCredentials),
                    Some((id, s3)) => match parse_field(s3, "token = \"") {
                        None => Err(InfinyonCredentialError::UnableToParseCredentials),
                        Some((token, s4)) => if s4.unicode_len() == 0 {
                            Ok(Credentials { remote, email, id, token })
                        } else {
                            Err(InfinyonCredentialError::UnableToParseCredentials)
                        },
                    },
                },
            },
        }
    }

    /// Writes this record in the credential file format; [`Self::parse`]
    /// reads it back unchanged.
    pub fn render(&self) -> (r: String)
        ensures
            r@ == spec_render_credentials(self@),
    {
        let mut out = String::new();
        out.append("remote = \"");
        out.append(escape_str(self.remote.as_str()).as_str());
        out.append("\"\n");
        out.append("email = \"");
        out.append(escape_str(self.email.as_str()).as_str());
        out.append("\"\n");
        out.append("id = \"");
        out.append(escape_str(self.id.as_str()).as_str());
        out.append("\"\n");
        out.append("token = \"");
        out.append(escape_str(self.token.as_str()).as_str());
        out.append("\"\n");
        proof {
            assert(out@ =~= spec_render_credentials(self@));
        }
        out
    }

    /// Interprets the read of one credential file: a failed read is a `Read`
    /// failure with the login hint, unparsable contents are an
    /// `UnableToParseCredentials` failure.
    pub fn load(file_read: Option<String>) -> (r: Result<Credentials, InfinyonCredentialError>)
        ensures
            cred_result_view(r) == spec_load(match file_read {
                Some(s) => Some(s@),
                None => None,
            }),
    {
        match file_read {
            None => Err(
                InfinyonCredentialError::Read(
                    String::from_str("no access credentials, try 'fluvio cloud login'"),
                ),
            ),
            Some(s) => Self::parse(s.as_str()),
        }
    }

    /// Interprets the two reads of the legacy scheme: the pointer file, then
    /// the credential file it named.
    pub fn try_load(pointer_read: Option<String>, record_read: Option<String>) -> (r: Result<
        Credentials,
        InfinyonCredentialError,
    >)
        ensures
            cred_result_view(r) == spec_try_load(
                match pointer_read {
                    Some(s) => Some(s@),
                    None => None,
                },
                match record_read {
                    Some(s) => Some(s@),
                    None => None,
                },
            ),
    {
        match pointer_read {
            None => Err(
                InfinyonCredentialError::Read(
                    String::from_str("no access credentials, try 'fluvio cloud login'"),
                ),
            ),
            Some(_) => Self::load(record_read),
        }
    }
}

/// Where the `current` pointer file sits inside a base directory.
pub fn current_pointer_path(base: &str) -> (r: String)
    ensures
        r@ == spec_join(base@, "current"@),
{
    join_path(base, "current")
}

/// Where the active credential file sits, given the base directory and the
/// raw text of the pointer file: its trimmed content, joined onto the base.
pub fn current_record_path(base: &str, pointer_content: &str) -> (r: String)
    ensures
        r@ == spec_join(base@, spec_trim(pointer_content@)),
{
    join_path(base, trim(pointer_content))
}

// ---------------------------------------------------------------------------
// The round-trip law.
// ---------------------------------------------------------------------------
proof fn lemma_field_round_trip(lit: Seq<char>, v: Seq<char>, rest: Seq<char>)
    ensures
        spec_parse_field(spec_render_line(lit, v) + rest, lit) == Some((v, rest)),
{
    reveal_strlit("\"\n");
    reveal_strlit("\n");
    let s = spec_render_line(lit, v) + rest;
    let x = spec_escape(v) + "\"\n"@ + rest;
    assert(s =~= lit + x);
    lemma_parse_lit_prefix(lit, x);
    let tail = "\n"@ + rest;
    assert(x =~= spec_escape(v) + seq!['"'] + tail);
    lemma_parse_quoted_escape(v, tail);
    lemma_parse_lit_prefix("\n"@, rest);
}

/// A pointer file whose content names a file that could not be read fails as
/// a `Read` failure with the login hint, never as a parse failure.
pub proof fn lemma_missing_record_is_read_error(pointer: Seq<char>)
    ensures
        spec_try_load(Some(pointer), None) == Err::<CredentialsView, ErrorView>(
            ErrorView::Read(spec_no_access_message()),
        ),
{
}

/// An absent pointer file fails as a `Read` failure with the login hint,
/// whatever else the base directory holds.
pub proof fn lemma_missing_pointer_is_read_error(record_read: Option<Seq<char>>)
    ensures
        spec_try_load(None, record_read) == Err::<CredentialsView, ErrorView>(
            ErrorView::Read(spec_no_access_message()),
        ),
{
}

/// Writing a record and reading the result yields the record again, field
/// for field, whatever the fields hold.
pub proof fn lemma_credentials_round_trip(c: CredentialsView)
    ensures
        spec_parse_credentials(spec_render_credentials(c)) == Some(c),
{
    let l1 = spec_render_line("remote = \""@, c.remote);
    let l2 = spec_render_line("email = \""@, c.email);
    let l3 = spec_render_line("id = \""@, c.id);
    let l4 = spec_render_line("token = \""@, c.token);
    let s = spec_render_credentials(c);
    assert(s =~= l1 + (l2 + l3 + l4));
    lemma_field_round_trip("remote = \""@, c.remote, l2 + l3 + l4);
    assert(l2 + l3 + l4 =~= l2 + (l3 + l4));
    lemma_field_round_trip("email = \""@, c.email, l3 + l4);
    assert(l3 + l4 =~= l3 + (l4 + Seq::<char>::empty()));
    lemma_field_round_trip("id = \""@, c.id, l4 + Seq::<char>::empty());
    assert(l4 + Seq::<char>::empty() =~= l4 + Seq::<char>::empty());
    lemma_field_round_trip("token = \""@, c.token, Seq::<char>::empty());
    assert(spec_parse_credentials(s) == Some(CredentialsView { remote: c.remote, email: c.email, id: c.id, token: c.token }));
}

} // verus!
