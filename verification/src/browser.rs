use vstd::prelude::*;

verus! {

/// The page's window, as web-sys hands it out.
#[verifier::external_type_specification]
#[verifier::external_body]
pub struct ExWindow(web_sys::Window);

/// `web_sys::window()`: the global object of the running code when it is a
/// `Window`, `None` otherwise. It returns only when the code runs as wasm32
/// in a JavaScript host; on other targets web-sys's imports panic. What comes
/// back depends on where the code runs, so nothing is stated of it.
#[verifier::external_body]
fn global_window() -> Option<web_sys::Window> {
    web_sys::window()
}

/// Why the page cannot be built.
#[derive(Clone, Copy, Debug, PartialEq, Eq, Structural)]
pub enum PageError {
    /// The code does not run in a window.
    NoWindow,
}

/// The text the page fails with for an error.
pub open spec fn error_message(e: PageError) -> Seq<char> {
    match e {
        PageError::NoWindow => "can't get window"@,
    }
}

impl PageError {
    /// The text the page fails with for this error.
    pub fn message(&self) -> (r: &'static str)
        ensures
            r@ == error_message(*self),
    {
        match self {
            PageError::NoWindow => "can't get window",
        }
    }
}

/// The page's window as web-sys found it, or `NoWindow` when it found none.
pub fn window_or_error(found: Option<web_sys::Window>) -> (r: Result<web_sys::Window, PageError>)
    ensures
        found matches Some(w) ==> r == Ok::<web_sys::Window, PageError>(w),
        found is None ==> r == Err::<web_sys::Window, PageError>(PageError::NoWindow),
{
    match found {
        Some(w) => Ok(w),
        None => Err(PageError::NoWindow),
    }
}

/// The page's window, or `NoWindow` when the code does not run in one.
/// Which of the two comes back is decided by the environment; an error is
/// always `NoWindow`. It returns only when the code runs as wasm32 in a
/// JavaScript host, as `web_sys::window()` does.
pub fn get_window() -> (r: Result<web_sys::Window, PageError>)
    ensures
        r matches Err(e) ==> e == PageError::NoWindow,
{
    window_or_error(global_window())
}

} // verus!
