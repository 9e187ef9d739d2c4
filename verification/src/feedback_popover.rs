//! The feedback widget: a status-bar button that toggles a popover, the
//! popover's editor model, and the submit path that turns the entered text
//! into one outbound JSON `POST` request.
//!
//! The surrounding UI toolkit, the HTTP transport and the environment are the
//! caller's business: this module works on plain values and states exactly
//! what each operation does to them.

use vstd::prelude::*;
use crate::json::{json_string, json_string_of};

verus! {

/// The fewest characters a feedback message is meant to have. The bound is
/// computed for diagnostics but never enforced: a shorter text still submits.
pub const FEEDBACK_CHAR_COUNT_MIN: usize = 5;

/// The most characters a feedback message is meant to have. The bound is
/// computed for diagnostics but never enforced before submission.
pub const FEEDBACK_CHAR_COUNT_MAX: usize = 1000;

/// How many characters of the allowed range remain once the editor buffer
/// holds `buffer_len` characters.
pub fn feedback_chars_remaining(buffer_len: usize) -> (r: usize)
    requires
        buffer_len <= FEEDBACK_CHAR_COUNT_MAX,
    ensures
        r == FEEDBACK_CHAR_COUNT_MAX - buffer_len,
{
    FEEDBACK_CHAR_COUNT_MAX - buffer_len
}

/// The view of an optional owned text value.
pub open spec fn opt_text_view(o: Option<String>) -> Option<Seq<char>> {
    match o {
        Some(s) => Some(s@),
        None => None,
    }
}

/// The server that feedback goes to when the environment gives no override.
pub open spec fn default_server_url() -> Seq<char> {
    "https://zed.dev"@
}

/// The base URL a process submits to, given the value of the
/// `ZED_SERVER_URL` environment variable: the override when one is set, the
/// default server otherwise.
pub open spec fn resolved_server_url(env_value: Option<Seq<char>>) -> Seq<char> {
    match env_value {
        Some(v) => v,
        None => default_server_url(),
    }
}

/// Picks the server base URL from the `ZED_SERVER_URL` override, falling back
/// to the default server. Reading the environment itself is I/O and stays
/// with the caller, which hands the variable's value in.
pub fn resolve_server_url(env_value: Option<String>) -> (r: String)
    ensures
        r@ == resolved_server_url(opt_text_view(env_value)),
{
    match env_value {
        Some(v) => v,
        None => String::from_str("https://zed.dev"),
    }
}

/// The path every submission posts to, appended to the base URL.
pub open spec fn feedback_endpoint_of(base_url: Seq<char>) -> Seq<char> {
    base_url + "/api/feedback"@
}

/// The full URL of the feedback endpoint under `server_url`.
pub fn feedback_endpoint(server_url: &str) -> (r: String)
    ensures
        r@ == feedback_endpoint_of(server_url@),
{
    let mut out = server_url.to_owned();
    out.append("/api/feedback");
    out
}

/// Law: overriding the server URL moves the submission target with it — the
/// endpoint under an override is that override followed by `/api/feedback`,
/// and without one it is the default server's feedback endpoint.
pub proof fn lemma_server_url_override(override_url: Seq<char>)
    ensures
        feedback_endpoint_of(resolved_server_url(Some(override_url))) == override_url
            + "/api/feedback"@,
        feedback_endpoint_of(resolved_server_url(None)) == "https://zed.dev/api/feedback"@,
{
    reveal_strlit("https://zed.dev");
    reveal_strlit("/api/feedback");
    reveal_strlit("https://zed.dev/api/feedback");
    assert(default_server_url() + "/api/feedback"@ =~= "https://zed.dev/api/feedback"@);
}

/// A snapshot of host diagnostics, produced by the system-specs collector and
/// already serialized as one JSON value. This crate carries it verbatim into
/// the request body.
#[derive(Clone, Debug, PartialEq)]
pub struct SystemSpecs {
    pub json: String,
}

/// The payload of one feedback submission.
#[derive(Clone, Debug, PartialEq)]
pub struct FeedbackRequestBody {
    pub feedback_text: String,
    pub metrics_id: Option<String>,
    pub system_specs: SystemSpecs,
    pub token: String,
}

/// The serialized request body: one JSON object holding the feedback text,
/// the metrics identifier where one exists (the field is absent otherwise),
/// the system-specs value verbatim, and the client token.
pub open spec fn feedback_body_of(
    text: Seq<char>,
    metrics_id: Option<Seq<char>>,
    system_specs: Seq<char>,
    token: Seq<char>,
) -> Seq<char> {
    "{\"feedback_text\":"@ + json_string_of(text) + (match metrics_id {
        Some(id) => ",\"metrics_id\":"@ + json_string_of(id),
        None => Seq::empty(),
    }) + ",\"system_specs\":"@ + system_specs + ",\"token\":"@ + json_string_of(token) + "}"@
}

impl FeedbackRequestBody {
    /// The body's serialized form.
    pub open spec fn spec_json(self) -> Seq<char> {
        feedback_body_of(
            self.feedback_text@,
            opt_text_view(self.metrics_id),
            self.system_specs.json@,
            self.token@,
        )
    }

    /// Serializes the payload as the JSON object of `feedback_body_of`.
    pub fn to_json(&self) -> (r: String)
        ensures
            r@ == self.spec_json(),
    {
        let mut out = String::from_str("{\"feedback_text\":");
        let text_literal = json_string(self.feedback_text.as_str());
        out.append(text_literal.as_str());
        match &self.metrics_id {
            Some(id) => {
                out.append(",\"metrics_id\":");
                let id_literal = json_string(id.as_str());
                out.append(id_literal.as_str());
            },
            None => {},
        }
        out.append(",\"system_specs\":");
        out.append(self.system_specs.json.as_str());
        out.append(",\"token\":");
        let token_literal = json_string(self.token.as_str());
        out.append(token_literal.as_str());
        out.append("}");
        proof {
            assert(out@ =~= self.spec_json());
        }
        out
    }
}

/// One prepared outbound request: everything the HTTP layer needs in order
/// to issue the `POST`, as plain values.
#[derive(Clone, Debug, PartialEq)]
pub struct FeedbackRequest {
    pub method: String,
    pub url: String,
    pub content_type: String,
    pub body: String,
}

/// What can go wrong on the way to the server. Every value stays internal to
/// the submission task: none of them reaches the visible UI state. Turning
/// the payload into JSON is total here, so no variant exists for it.
#[derive(Clone, Copy, Debug, PartialEq, Eq, Structural)]
pub enum FeedbackError {
    /// The HTTP request could not be constructed.
    RequestConstruction,
    /// The transport failed before a status arrived.
    Transport,
    /// The server answered with the non-2xx status carried here.
    UnsuccessfulStatus(u16),
}

/// Whether an HTTP status code counts as success: any 2xx status.
pub open spec fn is_success_status(status: u16) -> bool {
    200 <= status < 300
}

/// This crate's model of the multi-line text editor inside the popover: the
/// text it holds and whether it owns the input focus.
#[derive(Clone, Debug, PartialEq)]
pub struct EditorState {
    pub text: String,
    pub focused: bool,
}

/// The popover: owns one text editor.
#[derive(Clone, Debug, PartialEq)]
pub struct FeedbackPopover {
    pub feedback_editor: EditorState,
}

impl FeedbackPopover {
    /// A freshly created popover: an empty editor that holds the input focus.
    pub open spec fn is_fresh(self) -> bool {
        &&& self.feedback_editor.text@ == Seq::<char>::empty()
        &&& self.feedback_editor.focused
    }

    /// Creates the popover: one new, empty editor which takes the input
    /// focus as soon as it exists.
    pub fn new() -> (r: Self)
        ensures
            r.is_fresh(),
    {
        FeedbackPopover { feedback_editor: EditorState { text: String::new(), focused: true } }
    }

    /// Records an edit of the editor buffer: the model takes the new text and
    /// the focus is untouched. The diagnostic remaining-character count is
    /// `feedback_chars_remaining`; nothing here gates on the text's length.
    pub fn buffer_edited(&mut self, new_text: String)
        ensures
            final(self).feedback_editor.text@ == new_text@,
            final(self).feedback_editor.focused == old(self).feedback_editor.focused,
    {
        self.feedback_editor.text = new_text;
    }

    /// Builds the one outbound request of a submission: a `POST` of the JSON
    /// payload to `<server_url>/api/feedback` with a JSON content type. The
    /// text is taken as it stands — submission is never blocked by its
    /// length — and issuing the request is the HTTP layer's task.
    pub fn submit_feedback(
        &self,
        metrics_id: Option<String>,
        system_specs: SystemSpecs,
        token: &str,
        server_url: &str,
    ) -> (r: FeedbackRequest)
        ensures
            r.method@ == "POST"@,
            r.url@ == feedback_endpoint_of(server_url@),
            r.content_type@ == "application/json"@,
            r.body@ == feedback_body_of(
                self.feedback_editor.text@,
                opt_text_view(metrics_id),
                system_specs.json@,
                token@,
            ),
    {
        let url = feedback_endpoint(server_url);
        let body = FeedbackRequestBody {
            feedback_text: self.feedback_editor.text.clone(),
            metrics_id,
            system_specs,
            token: token.to_owned(),
        };
        let json = body.to_json();
        FeedbackRequest {
            method: String::from_str("POST"),
            url,
            content_type: String::from_str("application/json"),
            body: json,
        }
    }

    /// The view's name.
    pub fn ui_name() -> (r: &'static str)
        ensures
            r@ == "FeedbackPopover"@,
    {
        "FeedbackPopover"
    }
}

/// The status-bar button. It holds the popover while one is open; `None`
/// means closed, and at most one popover exists at a time.
#[derive(Clone, Debug, PartialEq)]
pub struct FeedbackButton {
    pub feedback_popover: Option<FeedbackPopover>,
}

impl FeedbackButton {
    /// Whether the popover is open.
    pub open spec fn is_open(self) -> bool {
        self.feedback_popover is Some
    }

    /// Creates the button with the popover closed.
    pub fn new() -> (r: Self)
        ensures
            !r.is_open(),
    {
        FeedbackButton { feedback_popover: None }
    }

    /// Whether the popover is open; the rendered button reflects this, and an
    /// open popover is drawn as an overlay child.
    pub fn popover_open(&self) -> (r: bool)
        ensures
            r == self.is_open(),
    {
        self.feedback_popover.is_some()
    }

    /// Toggles the popover. When closed, exactly one popover is created and
    /// its editor takes the input focus. When already open, nothing changes:
    /// re-invoking the toggle does not dismiss the popover — a known gap in
    /// the widget's behaviour, kept as it stands.
    pub fn toggle_feedback(&mut self)
        ensures
            !old(self).is_open() ==> (final(self).feedback_popover matches Some(p)
                && p.is_fresh()),
            old(self).is_open() ==> *final(self) == *old(self),
    {
        match &self.feedback_popover {
            Some(_) => {},
            None => {
                self.feedback_popover = Some(FeedbackPopover::new());
            },
        }
    }

    /// Takes the completion status of a submission's HTTP exchange. The
    /// visible state never changes, whatever the outcome: success passes
    /// through, and a non-2xx status yields only the internal error value —
    /// no retry, no user-visible report.
    pub fn on_submit_response(&mut self, status: u16) -> (r: Result<(), FeedbackError>)
        ensures
            *final(self) == *old(self),
            r is Ok <==> is_success_status(status),
            !is_success_status(status) ==> r == Result::<(), FeedbackError>::Err(
                FeedbackError::UnsuccessfulStatus(status),
            ),
    {
        if status >= 200 && status < 300 {
            Ok(())
        } else {
            Err(FeedbackError::UnsuccessfulStatus(status))
        }
    }

    /// The view's name.
    pub fn ui_name() -> (r: &'static str)
        ensures
            r@ == "FeedbackButton"@,
    {
        "FeedbackButton"
    }
}

} // verus!
