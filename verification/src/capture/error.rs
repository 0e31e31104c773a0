//! What can go wrong while packets are captured.

use vstd::prelude::*;

verus! {

/// What can go wrong while packets are captured. The texts are what the system says.
#[derive(Debug)]
#[non_exhaustive]
pub enum CaptureError {
    /// The socket cannot be bound.
    Bind(String),
    /// A packet cannot be received.
    Recv(String),
}

/// The model of a [`CaptureError`].
#[verifier::ext_equal]
pub enum CaptureErrorView {
    /// See [`CaptureError::Bind`].
    Bind(Seq<char>),
    /// See [`CaptureError::Recv`].
    Recv(Seq<char>),
}

impl View for CaptureError {
    type V = CaptureErrorView;

    open spec fn view(&self) -> CaptureErrorView {
        match *self {
            CaptureError::Bind(s) => CaptureErrorView::Bind(s@),
            CaptureError::Recv(s) => CaptureErrorView::Recv(s@),
        }
    }
}

impl CaptureErrorView {
    /// The text that describes the error.
    pub open spec fn text(self) -> Seq<char> {
        match self {
            CaptureErrorView::Bind(s) => "failed to bind capture socket: "@ + s,
            CaptureErrorView::Recv(s) => "failed to receive packet: "@ + s,
        }
    }
}

impl CaptureError {
    /// The text that describes the error.
    pub fn to_string(&self) -> (r: String)
        ensures
            r@ == self@.text(),
    {
        let mut s = String::new();
        match self {
            CaptureError::Bind(e) => {
                s.append("failed to bind capture socket: ");
                s.append(e.as_str());
            },
            CaptureError::Recv(e) => {
                s.append("failed to receive packet: ");
                s.append(e.as_str());
            },
        }
        assert(s@ =~= self@.text());
        s
    }
}

/// What an error says: what happened, and behind it the cause that it carries.
pub proof fn law_texts_tell_the_cause(e: CaptureError, r: String)
    requires
        call_ensures(CaptureError::to_string, (&e,), r),
    ensures
        match e {
            CaptureError::Bind(s) => r@ == "failed to bind capture socket: "@ + s@,
            CaptureError::Recv(s) => r@ == "failed to receive packet: "@ + s@,
        },
{
}

} // verus!
