//! The rules of a twenty-question quiz on logic gates and assembly, kept apart
//! from the page that shows it: scoring, the order of the screens, the visit
//! counter kept in the browser's storage, and the check that the final mark
//! shown on the page was not edited.

pub mod browser;
pub mod decimal;

pub mod content;
pub mod quiz;
pub mod display;
pub mod counter;
