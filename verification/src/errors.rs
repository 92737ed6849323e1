//! The error taxonomy of the pipeline: filesystem failures and image
//! decode/encode failures, each carrying a diagnostic message.

use vstd::prelude::*;

verus! {

/// A failure of one unit of work. `Io` covers listing, reading, writing,
/// deleting and renaming; `Image` covers decode and encode failures.
#[derive(Debug)]
pub enum AppError {
    Io(String),
    Image(String),
}

impl AppError {
    /// True iff this error is a filesystem error.
    pub fn is_io(&self) -> (r: bool)
        ensures
            r == (self is Io),
    {
        match self {
            AppError::Io(_) => true,
            AppError::Image(_) => false,
        }
    }

    /// True iff this error is an image decode/encode error.
    pub fn is_image(&self) -> (r: bool)
        ensures
            r == (self is Image),
    {
        match self {
            AppError::Io(_) => false,
            AppError::Image(_) => true,
        }
    }

    /// The diagnostic message carried by the error.
    pub fn message(&self) -> (r: &String)
        ensures
            self is Io ==> r@ == self->Io_0@,
            self is Image ==> r@ == self->Image_0@,
    {
        match self {
            AppError::Io(m) => m,
            AppError::Image(m) => m,
        }
    }
}

} // verus!
