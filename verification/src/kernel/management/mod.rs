//! The management API: configuration files read, changed and reported.
pub mod agents;
pub mod bundles;
pub mod config;
pub mod onboarding;
pub mod packages;
pub mod plugins;
pub mod presets;

use vstd::prelude::*;

verus! {

/// A refusal: the HTTP status and what is said.
pub struct HttpError {
    pub status: u16,
    pub message: String,
}

/// The mathematical content of a [`HttpError`].
pub struct HttpErrorView {
    pub status: u16,
    pub message: Seq<char>,
}

impl View for HttpError {
    type V = HttpErrorView;

    open spec fn view(&self) -> HttpErrorView {
        HttpErrorView {
            status: self.status,
            message: self.message@,
        }
    }
}

} // verus!
