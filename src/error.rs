use vstd::prelude::*;

verus! {

/// An error that stops the program before it starts watching, carrying
/// the message shown to the user.
#[derive(Debug)]
pub struct AppError {
    message: String,
}

impl AppError {
    /// The message shown to the user.
    pub closed spec fn message_view(&self) -> Seq<char> {
        self.message@
    }

    /// The message shown to the user.
    pub fn message(&self) -> (r: &String)
        ensures
            r@ == self.message_view(),
    {
        &self.message
    }
}

/// Builds an error with the given message.
pub fn app_error(message: String) -> (r: AppError)
    ensures
        r.message_view() == message@,
{
    AppError { message }
}

/// The message of the error for a watch directory that cannot be resolved.
pub open spec fn invalid_directory_message(directory: Seq<char>) -> Seq<char> {
    "invalid watch directory:"@ + directory
}

/// The error for a watch directory that cannot be resolved.
pub fn invalid_directory(directory: &str) -> (r: AppError)
    ensures
        r.message_view() == invalid_directory_message(directory@),
{
    let prefix = String::from_str("invalid watch directory:");
    proof {
        reveal_strlit("invalid watch directory:");
    }
    app_error(prefix.concat(directory))
}

} // verus!
