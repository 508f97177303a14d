//! Reading the session token out of the address that a successful login
//! redirects to.

use crate::entities::WebToken;
use crate::text::{parse_i64, parsed_int};
use vstd::prelude::*;
use vstd::string::*;

verus! {

/// The pattern that the redirect address of a successful login matches. Its
/// five groups are the user id, the check sum of the id, the time of expiry,
/// the session data and the request token.
pub const TOKEN_PATTERN: &'static str =
    "^.+crossDomain\\?DedeUserID=(\\d+)&DedeUserID__ckMd5=([a-z0-9]+)&Expires=(\\d+)&SESSDATA=([^&]+)&bili_jct=([^&]+)&.+$";

/// Why an address gave no token.
#[derive(Debug, Clone, Copy, PartialEq, Eq, Structural)]
pub enum TokenError {
    /// The pattern could not be compiled.
    BadPattern,
    /// The address does not match the pattern.
    NoMatch,
    /// The group with this number took no part in the match.
    MissingGroup(usize),
    /// The group with this number is no integer that fits in 64 bits.
    BadNumber(usize),
}

/// The groups of the first match of the pattern `pattern` in `text`, the whole
/// match first; `None` where the pattern does not match. A group that took no
/// part in the match is `None`.
pub uninterp spec fn groups_of(pattern: Seq<char>, text: Seq<char>) -> Option<
    Seq<Option<Seq<char>>>,
>;

/// The model of a list of groups.
pub open spec fn groups_model(groups: Seq<Option<String>>) -> Seq<Option<Seq<char>>> {
    Seq::new(
        groups.len(),
        |i: int|
            match groups[i] {
                Some(s) => Some(s@),
                None => None,
            },
    )
}

/// Compiles `pattern` with `regex::Regex::new` and searches `text` with
/// `Regex::captures`. Where the pattern compiles, the result is the groups of
/// the first match, read with `Captures::iter` and `Match::as_str`, or `None`
/// where there is no match; they depend on the pattern and the text alone.
/// Nothing is said of when a pattern compiles.
#[verifier::external_body]
fn capture(pattern: &str, text: &str) -> (r: Result<Option<Vec<Option<String>>>, ()>)
    ensures
        r matches Ok(Some(groups)) ==> groups_of(pattern@, text@) == Some(groups_model(groups@)),
        r matches Ok(None) ==> groups_of(pattern@, text@) is None,
{
    match regex::Regex::new(pattern) {
        Err(_) => Err(()),
        Ok(re) => Ok(
            re.captures(text).map(
                |found| found.iter().map(|group| group.map(|m| m.as_str().to_string())).collect(),
            ),
        ),
    }
}

/// The model of a token.
pub struct TokenModel {
    pub dedeuserid: i64,
    pub dedeuserid_ckmd5: Seq<char>,
    pub sessdata: Seq<char>,
    pub bili_jct: Seq<char>,
    pub expires: i64,
}

/// Whether the group `n` of `groups` took part in the match.
pub open spec fn has_group(groups: Seq<Option<Seq<char>>>, n: int) -> bool {
    0 <= n < groups.len() && groups[n] is Some
}

/// The token that the groups of a match hold: all five groups must have taken
/// part in the match, and the first and the third must be integers.
pub open spec fn token_of(groups: Seq<Option<Seq<char>>>) -> Result<TokenModel, TokenError> {
    if !has_group(groups, 1) {
        Err(TokenError::MissingGroup(1))
    } else if !has_group(groups, 2) {
        Err(TokenError::MissingGroup(2))
    } else if !has_group(groups, 3) {
        Err(TokenError::MissingGroup(3))
    } else if !has_group(groups, 4) {
        Err(TokenError::MissingGroup(4))
    } else if !has_group(groups, 5) {
        Err(TokenError::MissingGroup(5))
    } else if parsed_int(groups[1].unwrap()) is None {
        Err(TokenError::BadNumber(1))
    } else if parsed_int(groups[3].unwrap()) is None {
        Err(TokenError::BadNumber(3))
    } else {
        Ok(
            TokenModel {
                dedeuserid: parsed_int(groups[1].unwrap()).unwrap(),
                dedeuserid_ckmd5: groups[2].unwrap(),
                sessdata: groups[4].unwrap(),
                bili_jct: groups[5].unwrap(),
                expires: parsed_int(groups[3].unwrap()).unwrap(),
            },
        )
    }
}

/// The model of `t`.
pub open spec fn token_model(t: WebToken) -> TokenModel {
    TokenModel {
        dedeuserid: t.dedeuserid,
        dedeuserid_ckmd5: t.dedeuserid_ckmd5@,
        sessdata: t.sessdata@,
        bili_jct: t.bili_jct@,
        expires: t.expires,
    }
}

/// The group `n` of `groups`, if it took part in the match.
fn group(groups: &Vec<Option<String>>, n: usize) -> (r: Option<&String>)
    ensures
        r is Some == has_group(groups_model(groups@), n as int),
        r matches Some(s) ==> groups_model(groups@)[n as int] == Some(s@),
{
    if n < groups.len() {
        match &groups[n] {
            Some(s) => Some(s),
            None => None,
        }
    } else {
        None
    }
}

/// The token that the groups of a match hold.
pub fn token_from_groups(groups: &Vec<Option<String>>) -> (r: Result<WebToken, TokenError>)
    ensures
        match r {
            Ok(t) => token_of(groups_model(groups@)) == Ok::<TokenModel, TokenError>(
                token_model(t),
            ),
            Err(e) => token_of(groups_model(groups@)) == Err::<TokenModel, TokenError>(e),
        },
{
    let uid: &String = match group(groups, 1) {
        Some(s) => s,
        None => {
            return Err(TokenError::MissingGroup(1));
        },
    };
    let md5: &String = match group(groups, 2) {
        Some(s) => s,
        None => {
            return Err(TokenError::MissingGroup(2));
        },
    };
    let exp: &String = match group(groups, 3) {
        Some(s) => s,
        None => {
            return Err(TokenError::MissingGroup(3));
        },
    };
    let sess: &String = match group(groups, 4) {
        Some(s) => s,
        None => {
            return Err(TokenError::MissingGroup(4));
        },
    };
    let jct: &String = match group(groups, 5) {
        Some(s) => s,
        None => {
            return Err(TokenError::MissingGroup(5));
        },
    };
    let dedeuserid: i64 = match parse_i64(uid.as_str()) {
        Some(n) => n,
        None => {
            return Err(TokenError::BadNumber(1));
        },
    };
    let expires: i64 = match parse_i64(exp.as_str()) {
        Some(n) => n,
        None => {
            return Err(TokenError::BadNumber(3));
        },
    };
    Ok(
        WebToken {
            dedeuserid,
            dedeuserid_ckmd5: md5.clone(),
            sessdata: sess.clone(),
            bili_jct: jct.clone(),
            expires,
        },
    )
}

/// Reads the session token out of the redirect address `url` of a successful
/// login.
///
/// An address that does not match `TOKEN_PATTERN` gives `NoMatch`; one that
/// matches gives what `token_from_groups` makes of the groups of the match.
pub fn login_qr_info_parse_token(url: &str) -> (r: Result<WebToken, TokenError>)
    ensures
        match r {
            Ok(t) => groups_of(TOKEN_PATTERN@, url@) is Some && token_of(
                groups_of(TOKEN_PATTERN@, url@).unwrap(),
            ) == Ok::<TokenModel, TokenError>(token_model(t)),
            Err(TokenError::BadPattern) => true,
            Err(TokenError::NoMatch) => groups_of(TOKEN_PATTERN@, url@) is None,
            Err(e) => groups_of(TOKEN_PATTERN@, url@) is Some && token_of(
                groups_of(TOKEN_PATTERN@, url@).unwrap(),
            ) == Err::<TokenModel, TokenError>(e),
        },
{
    match capture(TOKEN_PATTERN, url) {
        Err(_) => Err(TokenError::BadPattern),
        Ok(None) => Err(TokenError::NoMatch),
        Ok(Some(groups)) => token_from_groups(&groups),
    }
}

} // verus!
