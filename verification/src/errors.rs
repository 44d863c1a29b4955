use vstd::prelude::*;

verus! {

/// What can go wrong around a request: the transport failed (DNS, TLS,
/// connection, timeout), or the response body did not match the expected
/// shape. Semantic failures the API reports inside a well-shaped body are not
/// errors here; they stay in the decoded payload.
pub enum NetworkError {
    Transport(String),
    Decode(String),
}

impl NetworkError {
    /// Wraps a transport failure's description.
    pub fn transport(msg: String) -> (e: Self)
        ensures
            e == NetworkError::Transport(msg),
    {
        NetworkError::Transport(msg)
    }

    /// Wraps a description of a body that did not decode.
    pub fn decode(msg: String) -> (e: Self)
        ensures
            e == NetworkError::Decode(msg),
    {
        NetworkError::Decode(msg)
    }

    /// True of transport failures alone.
    pub fn is_transport(&self) -> (r: bool)
        ensures
            r == (self is Transport),
    {
        match self {
            NetworkError::Transport(_) => true,
            NetworkError::Decode(_) => false,
        }
    }

    /// True of decode failures alone.
    pub fn is_decode(&self) -> (r: bool)
        ensures
            r == (self is Decode),
    {
        match self {
            NetworkError::Transport(_) => false,
            NetworkError::Decode(_) => true,
        }
    }

    /// The carried description.
    pub fn message(&self) -> (m: &String)
        ensures
            self matches NetworkError::Transport(s) ==> m == s,
            self matches NetworkError::Decode(s) ==> m == s,
    {
        match self {
            NetworkError::Transport(s) => s,
            NetworkError::Decode(s) => s,
        }
    }
}

} // verus!
