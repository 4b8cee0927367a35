use vstd::prelude::*;

verus! {

/// Why an exchange ended without a response.
#[derive(Debug)]
pub enum ExecutionError {
    /// The request named a method outside the recognised set; nothing was sent.
    InvalidMethod,
    /// The transport failed while sending or while reading the body; the text is
    /// the transport's own message.
    TransportError(String),
}

impl ExecutionError {
    /// The text shown to a caller for this error.
    pub open spec fn message_view(self) -> Seq<char> {
        match self {
            ExecutionError::InvalidMethod => "Invalid HTTP Method"@,
            ExecutionError::TransportError(m) => m@,
        }
    }

    pub fn message(&self) -> (r: String)
        ensures
            r@ == self.message_view(),
    {
        match self {
            ExecutionError::InvalidMethod => String::from_str("Invalid HTTP Method"),
            ExecutionError::TransportError(m) => m.clone(),
        }
    }
}

} // verus!
