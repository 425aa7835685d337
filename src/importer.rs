use vstd::prelude::*;
use vstd::string::*;

use crate::comment::Comment;

verus! {

/// The instant an RFC 3339 date and time denotes, in whole seconds since the
/// Unix epoch (fractions of a second dropped), or none if the text is not one.
pub uninterp spec fn rfc3339_seconds(s: Seq<char>) -> Option<i64>;

/// Relies on `chrono::DateTime::parse_from_rfc3339` and `DateTime::timestamp`:
/// the result depends on the text alone.
#[verifier::external_body]
fn parse_rfc3339_seconds(s: &str) -> (r: Option<i64>)
    ensures
        r == rfc3339_seconds(s@),
{
    match chrono::DateTime::parse_from_rfc3339(s) {
        Ok(t) => Some(t.timestamp()),
        Err(_) => None,
    }
}

/// Why a record of a bulk import was refused.
#[derive(Clone, Copy, Debug, PartialEq, Eq, Structural)]
pub enum ImportError {
    /// The time stamp is not an RFC 3339 date and time.
    InvalidTimestamp,
}

/// One row of a bulk import; an empty author field means none was given.
#[derive(Clone, Debug)]
pub struct CommentRecord {
    pub timestamp: String,
    pub path: String,
    pub author_name: String,
    pub author_email: String,
    pub text: String,
}

/// An empty field stands for a missing value.
pub open spec fn optional_spec(s: Seq<char>) -> Option<Seq<char>> {
    if s.len() == 0 {
        None
    } else {
        Some(s)
    }
}

/// The field, or none where it is empty.
pub fn optional_field(s: &str) -> (r: Option<&str>)
    ensures
        match r {
            Some(v) => v@ == s@ && optional_spec(s@) == Some(s@),
            None => optional_spec(s@) == None::<Seq<char>>,
        },
{
    if s.unicode_len() == 0 {
        None
    } else {
        Some(s)
    }
}

impl CommentRecord {
    /// The comment a record stands for, created at the record's time stamp.
    pub fn to_comment(&self) -> (r: Result<Comment, ImportError>)
        ensures
            match r {
                Ok(c) => {
                    &&& rfc3339_seconds(self.timestamp@) == Some(c.timestamp)
                    &&& c.is_made_from(
                        c.id,
                        c.timestamp,
                        self.path@,
                        self.text@,
                        optional_spec(self.author_name@),
                        optional_spec(self.author_email@),
                    )
                },
                Err(e) => {
                    &&& e == ImportError::InvalidTimestamp
                    &&& rfc3339_seconds(self.timestamp@) == None::<i64>
                },
            },
    {
        match parse_rfc3339_seconds(self.timestamp.as_str()) {
            Some(seconds) => {
                let author_name = optional_field(self.author_name.as_str());
                let author_email = optional_field(self.author_email.as_str());
                let mut comment = Comment::new(
                    self.path.as_str(),
                    self.text.as_str(),
                    author_name,
                    author_email,
                );
                comment.timestamp = seconds;
                Ok(comment)
            },
            None => Err(ImportError::InvalidTimestamp),
        }
    }
}

} // verus!
