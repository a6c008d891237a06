//! The HTTP verbs the relay is willing to forward.

use vstd::prelude::*;

verus! {

/// A recognized HTTP verb.
#[derive(Clone, Copy, Debug, PartialEq, Eq, Structural)]
pub enum Method {
    Get,
    Post,
    Put,
    Delete,
}

/// The upper-case form of a text, as `str::to_uppercase` computes it.
pub uninterp spec fn uppercase_of(text: Seq<char>) -> Seq<char>;

/// The verb that an already upper-cased token spells, if any.
pub open spec fn verb_of_token(token: Seq<char>) -> Option<Method> {
    if token == "GET"@ {
        Some(Method::Get)
    } else if token == "POST"@ {
        Some(Method::Post)
    } else if token == "PUT"@ {
        Some(Method::Put)
    } else if token == "DELETE"@ {
        Some(Method::Delete)
    } else {
        None
    }
}

/// The verb that a caller-supplied method text names, in any letter case.
pub open spec fn recognized_verb(text: Seq<char>) -> Option<Method> {
    verb_of_token(uppercase_of(text))
}

/// Calls `str::to_uppercase`. The contract only names the result: the
/// returned text is the upper-case form of the argument, a function of the
/// argument alone.
#[verifier::external_body]
fn to_upper(text: &str) -> (upper: String)
    ensures
        upper@ == uppercase_of(text@),
{
    text.to_uppercase()
}

impl Method {
    /// The canonical upper-case spelling of the verb.
    pub open spec fn token(self) -> Seq<char> {
        match self {
            Method::Get => "GET"@,
            Method::Post => "POST"@,
            Method::Put => "PUT"@,
            Method::Delete => "DELETE"@,
        }
    }

    /// The canonical upper-case spelling of the verb.
    pub fn as_str(self) -> (token: &'static str)
        ensures
            token@ == self.token(),
    {
        match self {
            Method::Get => "GET",
            Method::Post => "POST",
            Method::Put => "PUT",
            Method::Delete => "DELETE",
        }
    }

    /// Reads a token that is already in upper case: exactly the four
    /// canonical spellings are verbs.
    pub fn from_token(token: &str) -> (verb: Option<Method>)
        ensures
            verb == verb_of_token(token@),
    {
        let owned = token.to_owned();
        if owned == "GET".to_owned() {
            Some(Method::Get)
        } else if owned == "POST".to_owned() {
            Some(Method::Post)
        } else if owned == "PUT".to_owned() {
            Some(Method::Put)
        } else if owned == "DELETE".to_owned() {
            Some(Method::Delete)
        } else {
            None
        }
    }

    /// Reads a caller-supplied method text: it is upper-cased first, so any
    /// letter case of a recognized verb is accepted, and everything else is
    /// refused.
    pub fn parse(text: &str) -> (verb: Option<Method>)
        ensures
            verb == recognized_verb(text@),
    {
        let upper = to_upper(text);
        Method::from_token(upper.as_str())
    }
}

/// The four canonical spellings are pairwise different, so each verb is
/// read back from its own spelling.
pub proof fn lemma_token_roundtrip(verb: Method)
    ensures
        verb_of_token(verb.token()) == Some(verb),
{
    reveal_strlit("GET");
    reveal_strlit("POST");
    reveal_strlit("PUT");
    reveal_strlit("DELETE");
    assert("POST"@.len() == 4);
    assert("DELETE"@.len() == 6);
    assert("GET"@[0] == 'G');
    assert("PUT"@[0] == 'P');
}

} // verus!
