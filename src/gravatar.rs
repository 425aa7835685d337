use vstd::prelude::*;

verus! {

/// The address the avatar of a comment without e-mail address is looked up by.
pub const FALLBACK_EMAIL: &'static str = "https://secure.gravatar.com/generic";

/// The hexadecimal MD5 digest of an e-mail address, trimmed and lowercased.
pub uninterp spec fn gravatar_digest(email: Seq<char>) -> Seq<char>;

/// The secure avatar address of the `gravatar` crate for an e-mail address.
pub open spec fn avatar_url(email: Seq<char>) -> Seq<char> {
    "https://secure.gravatar.com/avatar/"@ + gravatar_digest(email)
}

/// The avatar address that a comment with the given author e-mail shows.
pub open spec fn gravatar_url_spec(email: Option<Seq<char>>) -> Seq<char> {
    match email {
        Some(e) => avatar_url(e),
        None => avatar_url(FALLBACK_EMAIL@),
    }
}

/// Relies on `gravatar::Gravatar::new(email).image_url()`: with no size,
/// default, rating or forced default set and SSL on, the address is the secure
/// host's `/avatar/` followed by the digest of the trimmed, lowercased address.
#[verifier::external_body]
fn gravatar_image_url(email: &str) -> (r: String)
    ensures
        r@ == "https://secure.gravatar.com/avatar/"@ + gravatar_digest(email@),
{
    gravatar::Gravatar::new(email).image_url().to_string()
}

/// The avatar address for an optional e-mail address; without one, the
/// generic address stands in.
pub fn gravatar_url_for_email(email: Option<&str>) -> (r: String)
    ensures
        r@ == gravatar_url_spec(
            match email {
                Some(e) => Some(e@),
                None => None,
            },
        ),
{
    match email {
        Some(e) => gravatar_image_url(e),
        None => gravatar_image_url(FALLBACK_EMAIL),
    }
}

} // verus!
