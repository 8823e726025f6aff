use vstd::prelude::*;

verus! {

/// The two ways a fetch can fail: the request could not be sent or no
/// response was received (`Transport`), or a response arrived whose body is
/// not valid JSON text (`Parse`). Each kind carries a human-readable
/// description for top-level reporting; callers branch on the kind, not on
/// the description.
#[derive(Debug)]
pub enum FetchError {
    Transport { message: String },
    Parse { message: String },
}

impl FetchError {
    /// The human-readable description carried by either kind.
    pub open spec fn message_view(&self) -> Seq<char> {
        match self {
            FetchError::Transport { message } => message@,
            FetchError::Parse { message } => message@,
        }
    }

    /// True of a network-layer failure: the request was never answered.
    pub fn is_transport(&self) -> (r: bool)
        ensures
            r == (self is Transport),
    {
        match self {
            FetchError::Transport { .. } => true,
            FetchError::Parse { .. } => false,
        }
    }

    /// True of a body that was received but is not valid JSON.
    pub fn is_parse(&self) -> (r: bool)
        ensures
            r == (self is Parse),
    {
        match self {
            FetchError::Transport { .. } => false,
            FetchError::Parse { .. } => true,
        }
    }

    /// The description, for reporting to the user.
    pub fn describe(&self) -> (r: String)
        ensures
            r@ == self.message_view(),
    {
        match self {
            FetchError::Transport { message } => message.clone(),
            FetchError::Parse { message } => message.clone(),
        }
    }
}

} // verus!
