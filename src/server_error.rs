//! Exceptions that the server reports in the body of a failed post: the
//! body names a Java exception class and its message.

use vstd::prelude::*;

verus! {

/// Pattern of a Java exception in a response body: the class name after
/// `java.lang.`, then the message up to the end of the line.
pub const EXCEPTION_PATTERN: &'static str = r"java.lang.([a-zA-Z]+): (.*)";

/// An exception that the server reported for a post
#[derive(Debug, Clone, PartialEq)]
pub enum ServerException {
    /// The server was in a state that did not allow the action
    IllegalState {
        /// Exception message
        message: String,
    },
    /// An argument of the action was refused
    IllegalArgument {
        /// Exception message
        message: String,
    },
}

/// The groups of the first match of a regular expression in a text (group
/// 0 the whole match), a group that took no part as empty text; nothing
/// when the expression does not match or does not compile.
pub uninterp spec fn first_match_groups(pattern: Seq<char>, hay: Seq<char>) -> Option<
    Seq<Seq<char>>,
>;

pub open spec fn texts(v: Seq<String>) -> Seq<Seq<char>> {
    v.map_values(|s: String| s@)
}

pub open spec fn group_texts(groups: Option<Vec<String>>) -> Option<Seq<Seq<char>>> {
    match groups {
        Some(v) => Some(texts(v@)),
        None => None,
    }
}

/// Relies on regex's `Regex::new` and `Regex::captures`: the groups of the
/// leftmost-first match of the pattern in the text.
#[verifier::external_body]
fn regex_groups(pattern: &str, hay: &str) -> (r: Option<Vec<String>>)
    ensures
        match r {
            Some(v) => first_match_groups(pattern@, hay@) == Some(texts(v@)),
            None => first_match_groups(pattern@, hay@) is None,
        },
{
    let caps = regex::Regex::new(pattern).ok()?.captures(hay)?;
    Some(caps.iter().map(|m| m.map_or(String::new(), |m| m.as_str().to_string())).collect())
}

/// The exception that the groups of a match name: `IllegalStateException`
/// and `IllegalArgumentException` are known, with the second group as the
/// message; any other class, or no match, is none.
pub open spec fn exception_of_groups(groups: Option<Seq<Seq<char>>>) -> Option<(bool, Seq<char>)> {
    match groups {
        Some(g) => if g.len() >= 3 && g[1] == "IllegalStateException"@ {
            Some((true, g[2]))
        } else if g.len() >= 3 && g[1] == "IllegalArgumentException"@ {
            Some((false, g[2]))
        } else {
            None
        },
        None => None,
    }
}

/// The value of an exception: whether it is an illegal state, and its
/// message.
pub open spec fn exception_view(e: ServerException) -> (bool, Seq<char>) {
    match e {
        ServerException::IllegalState { message } => (true, message@),
        ServerException::IllegalArgument { message } => (false, message@),
    }
}

/// The known exception that the groups of a match name, if any.
pub fn exception_from_groups(groups: Option<Vec<String>>) -> (r: Option<ServerException>)
    ensures
        match r {
            Some(e) => exception_of_groups(group_texts(groups)) == Some(
                exception_view(e),
            ),
            None => exception_of_groups(group_texts(groups)) is None,
        },
{
    match groups {
        Some(g) => {
            if g.len() < 3 {
                return None;
            }
            let class = g[1].as_str();
            let illegal_state = crate::text::str_eq(class, "IllegalStateException");
            let illegal_argument = crate::text::str_eq(class, "IllegalArgumentException");
            if illegal_state {
                Some(ServerException::IllegalState { message: g[2].clone() })
            } else if illegal_argument {
                Some(ServerException::IllegalArgument { message: g[2].clone() })
            } else {
                None
            }
        },
        None => None,
    }
}

/// The known exception that a failed post's body reports, if any.
pub fn exception_in_body(body: &str) -> (r: Option<ServerException>)
    ensures
        match r {
            Some(e) => exception_of_groups(first_match_groups(EXCEPTION_PATTERN@, body@)) == Some(
                exception_view(e),
            ),
            None => exception_of_groups(first_match_groups(EXCEPTION_PATTERN@, body@)) is None,
        },
{
    let groups = regex_groups(EXCEPTION_PATTERN, body);
    exception_from_groups(groups)
}

} // verus!
