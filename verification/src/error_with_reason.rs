use vstd::prelude::*;

verus! {

/// An error type that contains a reason.
#[derive(Debug)]
pub struct ErrorWithReason(pub String);

/// `text` as `std` writes it for debugging: between quotes, with escapes
/// for what would not show.
pub uninterp spec fn debug_text(text: Seq<char>) -> Seq<char>;

/// `<str as Debug>::fmt`, as `format!` with `{:?}` writes it.
#[verifier::external_body]
fn debug_string(text: &str) -> (quoted: String)
    ensures
        quoted@ == debug_text(text@),
{
    format!("{:?}", text)
}

impl ErrorWithReason {
    /// Wraps a copy of `string` as the reason.
    pub fn from(string: &str) -> (error: Self)
        ensures
            error.0@ == string@,
    {
        ErrorWithReason(string.to_owned())
    }

    /// The reason this error carries.
    pub fn reason(&self) -> (reason: &str)
        ensures
            reason@ == self.0@,
    {
        self.0.as_str()
    }

    /// The text that shows the error: its name, and in brackets the reason
    /// as it is written for debugging.
    pub fn to_string(&self) -> (text: String)
        ensures
            text@ == "ErrorWithReason("@ + debug_text(self.0@) + ")"@,
    {
        String::from_str("ErrorWithReason(").concat(debug_string(self.0.as_str()).as_str()).concat(
            ")",
        )
    }
}

} // verus!
