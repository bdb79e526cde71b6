use vstd::prelude::*;

verus! {

/// What the library keeps of an underlying error: the text the error renders
/// to for users (its display form) and its diagnostic text (its debug form),
/// both captured at the moment the error is wrapped.
pub struct Cause {
    pub display: String,
    pub debug: String,
}

/// Relies on the `Display` impl that every `std::error::Error` carries,
/// reached through `ToString::to_string`: the error's user-facing text.
#[verifier::external_body]
fn display_text<E: std::error::Error + Send + Sync + 'static>(e: &E) -> String {
    e.to_string()
}

/// Relies on the `Debug` impl that every `std::error::Error` carries:
/// the error's diagnostic text.
#[verifier::external_body]
pub(crate) fn debug_text<E: std::error::Error + Send + Sync + 'static>(e: &E) -> String {
    format!("{:?}", e)
}

impl Cause {
    /// Capture an arbitrary caught error object.  The concrete type of the
    /// error is erased: only the two texts it renders to are kept, so nothing
    /// relates them to the argument at the specification level.
    pub fn from_error<E: std::error::Error + Send + Sync + 'static>(e: E) -> Cause {
        let display = display_text(&e);
        let debug = debug_text(&e);
        Cause { display, debug }
    }

    /// The cause's own user-facing text.
    pub fn render(&self) -> (r: String)
        ensures
            r@ == self.display@,
    {
        self.display.clone()
    }
}

} // verus!
