use vstd::prelude::*;

verus! {

/// Why a request to the chat service failed: what the transport or the
/// decoding of the answer said of it.
#[derive(Debug)]
pub enum OGptError {
    Reqwest(String),
    SerdeJsonError(String),
}

/// An `OGptError` with its text as a sequence of characters.
pub enum OGptErrorView {
    Reqwest(Seq<char>),
    SerdeJsonError(Seq<char>),
}

impl View for OGptError {
    type V = OGptErrorView;

    open spec fn view(&self) -> OGptErrorView {
        match self {
            OGptError::Reqwest(text) => OGptErrorView::Reqwest(text@),
            OGptError::SerdeJsonError(text) => OGptErrorView::SerdeJsonError(text@),
        }
    }
}

/// The text shown for an error of the chat service.
pub open spec fn service_error_text(error: OGptErrorView) -> Seq<char> {
    match error {
        OGptErrorView::Reqwest(text) => "Reqwest error: "@ + text,
        OGptErrorView::SerdeJsonError(text) => "Serde json error: "@ + text,
    }
}

impl OGptError {
    /// The text shown for this error.
    pub fn to_string(&self) -> (text: String)
        ensures
            text@ == service_error_text(self@),
    {
        match self {
            OGptError::Reqwest(cause) => {
                let mut text = "Reqwest error: ".to_owned();
                text.append(cause.as_str());
                text
            },
            OGptError::SerdeJsonError(cause) => {
                let mut text = "Serde json error: ".to_owned();
                text.append(cause.as_str());
                text
            },
        }
    }
}

} // verus!
