//! A feedback-submission widget, modelled as verified state and request
//! construction: a status-bar button that toggles a popover holding a text
//! editor, and a submit path that turns the entered text plus diagnostic
//! metadata into a single JSON `POST` request for `<server_url>/api/feedback`.
//!
//! All I/O (the HTTP call, reading the environment, driving the UI) stays
//! outside this crate; callers hand in plain values and get plain values back.

pub mod feedback_popover;
pub mod json;
