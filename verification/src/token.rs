use vstd::prelude::*;

verus! {

/// The raw token that a request presents in its `x-token` header.
pub struct Token(pub String);

impl Token {
    /// Reads the token from the values of a request's `x-token` headers: a
    /// request must carry exactly one; any other count is a bad request.
    pub fn from_headers(values: Vec<String>) -> (res: Option<Token>)
        ensures
            res is Some <==> values@.len() == 1,
            res matches Some(t) ==> t.0 == values@[0],
    {
        if values.len() != 1 {
            return None;
        }
        let mut values = values;
        Some(Token(values.swap_remove(0)))
    }
}

} // verus!
