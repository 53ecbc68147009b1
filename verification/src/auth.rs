use vstd::prelude::*;
use crate::decimal::{parse_u64, parse_u64_spec, decimal_text, lemma_parse_render};
use crate::text::{has_prefix, strip_text_prefix};

verus! {

/// Claims of a session ticket: audience, expiry and subject.
#[derive(Debug, Clone)]
pub struct TicketClaims {
    pub aud: String,
    pub exp: usize,
    pub sub: String,
}

/// The prefix of a subject that names a Farcaster user.
pub open spec fn fid_subject_prefix() -> Seq<char> {
    "fid:"@
}

/// The Farcaster id that a subject names: the decimal number after `fid:`.
pub open spec fn fid_of_subject(sub: Seq<char>) -> Option<u64> {
    if has_prefix(sub, fid_subject_prefix()) {
        match parse_u64_spec(sub.skip(fid_subject_prefix().len() as int)) {
            Ok(v) => Some(v),
            Err(_) => None,
        }
    } else {
        None
    }
}

impl TicketClaims {
    /// The Farcaster id of the ticket's subject, where the subject is `fid:`
    /// followed by a decimal `u64`.
    pub fn fid(&self) -> (r: Option<u64>)
        ensures
            r == fid_of_subject(self.sub@),
    {
        match strip_text_prefix(self.sub.as_str(), "fid:") {
            Some(rest) => match parse_u64(rest) {
                Ok(v) => Some(v),
                Err(_) => None,
            },
            None => None,
        }
    }
}

/// A subject made of `fid:` and the decimal form of an id names that id.
pub proof fn lemma_fid_of_rendered_subject(fid: u64)
    ensures
        fid_of_subject(fid_subject_prefix() + decimal_text(fid as nat)) == Some(fid),
{
    let sub = fid_subject_prefix() + decimal_text(fid as nat);
    let p = fid_subject_prefix();
    assert(sub.take(p.len() as int) =~= p);
    assert(sub.skip(p.len() as int) =~= decimal_text(fid as nat));
    lemma_parse_render(fid);
}

} // verus!
