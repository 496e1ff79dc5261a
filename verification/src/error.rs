//! The one error type that reaches the server loop.
use vstd::prelude::*;

verus! {

/// An error with its concrete type erased: all that is left is a
/// human-readable description, and that description is never empty.
///
/// Every error type of a factory or of a service converts into this type, so
/// a server loop can report any failure without knowing where it came from.
#[derive(Debug)]
pub struct ErasedError {
    description: String,
}

impl View for ErasedError {
    type V = Seq<char>;

    /// The description that the error carries.
    closed spec fn view(&self) -> Seq<char> {
        self.description@
    }
}

impl ErasedError {
    #[verifier::type_invariant]
    spec fn described(&self) -> bool {
        self.description@.len() > 0
    }

    /// Erases an error down to `description`, which is kept as it is.
    ///
    /// An empty description would leave nothing of the error, so it is
    /// refused with `None`.
    pub fn new(description: String) -> (erased: Option<ErasedError>)
        ensures
            erased is Some <==> description@.len() > 0,
            erased matches Some(e) ==> e@ == description@,
    {
        if description.as_str().is_empty() {
            None
        } else {
            Some(ErasedError { description })
        }
    }

    /// What the error says.
    pub fn description(&self) -> (text: &str)
        ensures
            text@ == self@,
            text@.len() > 0,
    {
        proof {
            use_type_invariant(self);
        }
        self.description.as_str()
    }

    /// Gives up the error for its description.
    pub fn into_description(self) -> (text: String)
        ensures
            text@ == self@,
            text@.len() > 0,
    {
        proof {
            use_type_invariant(&self);
        }
        self.description
    }
}

/// Erases `error` by the conversion of its type.
///
/// Whatever that conversion does, what comes out is an erased error, and so
/// it says something.
pub fn erase<E: Into<ErasedError>>(error: E) -> (erased: ErasedError)
    ensures
        call_ensures(<E as Into<ErasedError>>::into, (error,), erased),
        erased@.len() > 0,
{
    let erased: ErasedError = error.into();
    proof {
        use_type_invariant(&erased);
    }
    erased
}

} // verus!
