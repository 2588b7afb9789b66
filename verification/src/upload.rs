//! The upload of one atlas to the hosting service, as a state machine.
//!
//! The machine decides; its caller does the work. The caller reports what
//! happened as an event and gets back what to do next: to send a request,
//! to read the response that came, or to stop with a result. Requests are
//! repeated in two tiers: after a transport failure the next one follows a
//! short delay, after a response without a texture a longer one. Both
//! tiers end when the number of requests or the time allowed is spent.

use crate::json::json_string_at;
use crate::json::string_at;
use crate::part::ArmVariant;
use vstd::prelude::*;

verus! {

/// The number of characters of the name under which a request submits its
/// file.
pub const NAME_LENGTH: usize = 16;

/// The durable handle of a texture that the hosting service has taken.
#[derive(Debug)]
pub struct TextureHandle {
    pub signature: String,
    pub value: String,
}

/// The model of a handle: the characters of its two strings.
pub struct HandleModel {
    pub signature: Seq<char>,
    pub value: Seq<char>,
}

impl View for TextureHandle {
    type V = HandleModel;

    open spec fn view(&self) -> HandleModel {
        HandleModel { signature: self.signature@, value: self.value@ }
    }
}

/// How the upload of one part ended: with a handle, or without.
#[derive(Debug)]
pub enum UploadResult {
    Handle(TextureHandle),
    Failed,
}

impl View for UploadResult {
    type V = Option<HandleModel>;

    open spec fn view(&self) -> Option<HandleModel> {
        match self {
            UploadResult::Handle(handle) => Some(handle@),
            UploadResult::Failed => None,
        }
    }
}

impl UploadResult {
    /// The pair that stands for a result where strings alone can be
    /// passed on: signature and value, or two empty strings for a failure.
    pub open spec fn spec_pair(model: Option<HandleModel>) -> (Seq<char>, Seq<char>) {
        match model {
            Some(handle) => (handle.signature, handle.value),
            None => (Seq::empty(), Seq::empty()),
        }
    }

    /// The pair that stands for the result where strings alone can be
    /// passed on: signature and value, or two empty strings for a failure.
    pub fn into_pair(self) -> (pair: (String, String))
        ensures
            (pair.0@, pair.1@) == UploadResult::spec_pair(self@),
    {
        match self {
            UploadResult::Handle(handle) => (handle.signature, handle.value),
            UploadResult::Failed => (String::new(), String::new()),
        }
    }
}

/// What the caller found in a response of the hosting service: the text
/// at `data.texture.signature` and the text at `data.texture.value`, each
/// if the response holds it. A response that cannot be read at all holds
/// neither.
#[derive(Debug)]
pub struct ServiceReply {
    pub signature: Option<String>,
    pub value: Option<String>,
}

impl ServiceReply {
    /// The handle that the reply holds: both texts, if both are there.
    pub open spec fn spec_handle(self) -> Option<HandleModel> {
        match (self.signature, self.value) {
            (Some(signature), Some(value)) => Some(
                HandleModel { signature: signature@, value: value@ },
            ),
            _ => None,
        }
    }

    /// Where a response holds the signature of the texture.
    pub open spec fn signature_pointer() -> Seq<char> {
        "/data/texture/signature"@
    }

    /// Where a response holds the value of the texture.
    pub open spec fn value_pointer() -> Seq<char> {
        "/data/texture/value"@
    }

    /// What the body of a response holds.
    pub fn from_body(body: &str) -> (reply: ServiceReply)
        ensures
            reply.spec_handle() == ServiceReply::handle_in(body@),
            match reply.signature {
                Some(text) => json_string_at(body@, ServiceReply::signature_pointer()) == Some(
                    text@,
                ),
                None => json_string_at(body@, ServiceReply::signature_pointer()) is None,
            },
            match reply.value {
                Some(text) => json_string_at(body@, ServiceReply::value_pointer()) == Some(text@),
                None => json_string_at(body@, ServiceReply::value_pointer()) is None,
            },
    {
        ServiceReply {
            signature: string_at(body, "/data/texture/signature"),
            value: string_at(body, "/data/texture/value"),
        }
    }

    /// The handle that the body of a response holds: the texts at
    /// `data.texture.signature` and `data.texture.value`, if both are
    /// there.
    pub open spec fn handle_in(body: Seq<char>) -> Option<HandleModel> {
        match (
            json_string_at(body, ServiceReply::signature_pointer()),
            json_string_at(body, ServiceReply::value_pointer()),
        ) {
            (Some(signature), Some(value)) => Some(HandleModel { signature, value }),
            _ => None,
        }
    }

    /// The handle that the reply holds: both texts, if both are there.
    pub fn into_handle(self) -> (handle: Option<TextureHandle>)
        ensures
            match handle {
                Some(h) => self.spec_handle() == Some(h@),
                None => self.spec_handle() is None,
            },
    {
        match (self.signature, self.value) {
            (Some(signature), Some(value)) => Some(TextureHandle { signature, value }),
            _ => None,
        }
    }
}

/// How often and for how long an upload is tried.
#[derive(Clone, Copy, Debug, PartialEq, Eq, Structural)]
pub struct RetryPolicy {
    /// The largest number of requests that one upload may send.
    pub max_attempts: u32,
    /// The delay before the request that follows a transport failure.
    pub transport_delay_ms: u64,
    /// The delay before the request that follows a response without a
    /// texture.
    pub processing_delay_ms: u64,
    /// The time, counted from the start of the upload, after which no
    /// further request is sent.
    pub deadline_ms: u64,
}

impl RetryPolicy {
    /// The policy of an upload that is given eight requests and a minute.
    pub fn standard() -> (policy: RetryPolicy)
        ensures
            policy == (RetryPolicy {
                max_attempts: 8,
                transport_delay_ms: 37,
                processing_delay_ms: 150,
                deadline_ms: 60_000,
            }),
    {
        RetryPolicy {
            max_attempts: 8,
            transport_delay_ms: 37,
            processing_delay_ms: 150,
            deadline_ms: 60_000,
        }
    }
}

/// Where an upload stands.
#[derive(Clone, Copy, Debug, PartialEq, Eq, Structural)]
pub enum UploadPhase {
    /// Nothing has been sent yet.
    Ready,
    /// A request is under way.
    Sending,
    /// A response has come and is being read.
    AwaitingParse,
    /// The service has returned a handle.
    Succeeded,
    /// The requests or the time allowed are spent, or the caller has
    /// given the upload up.
    Exhausted,
}

/// What the caller reports to the machine.
#[derive(Debug)]
pub enum UploadEvent {
    /// The upload is to start.
    Begin,
    /// The request could not be completed.
    TransportFailure,
    /// The request was answered.
    ResponseReceived,
    /// The response was read.
    Parsed(ServiceReply),
    /// The caller gives the upload up.
    Cancel,
}

/// The model of an event.
pub enum EventModel {
    Begin,
    TransportFailure,
    ResponseReceived,
    Parsed(Option<HandleModel>),
    Cancel,
}

impl View for UploadEvent {
    type V = EventModel;

    open spec fn view(&self) -> EventModel {
        match self {
            UploadEvent::Begin => EventModel::Begin,
            UploadEvent::TransportFailure => EventModel::TransportFailure,
            UploadEvent::ResponseReceived => EventModel::ResponseReceived,
            UploadEvent::Parsed(reply) => EventModel::Parsed(reply.spec_handle()),
            UploadEvent::Cancel => EventModel::Cancel,
        }
    }
}

/// One request to the hosting service: a multipart form with the text
/// fields `variant`, `name` and `visibility` and the PNG image as the
/// field `file`. The caller holds the image.
#[derive(Debug)]
pub struct UploadRequest {
    /// How long to wait before the request is sent.
    pub delay_ms: u64,
    /// The arm geometry of the skin.
    pub variant: ArmVariant,
    /// The name under which the texture is submitted.
    pub name: String,
}

/// The model of a request.
pub struct RequestModel {
    pub delay_ms: u64,
    pub variant: ArmVariant,
    pub name: Seq<char>,
}

impl View for UploadRequest {
    type V = RequestModel;

    open spec fn view(&self) -> RequestModel {
        RequestModel { delay_ms: self.delay_ms, variant: self.variant, name: self.name@ }
    }
}

impl UploadRequest {
    /// The text fields of the form, as names and values in the order
    /// in which they are sent.
    pub open spec fn spec_text_fields(model: RequestModel) -> Seq<(Seq<char>, Seq<char>)> {
        seq![
            ("variant"@, model.variant.spec_name()),
            ("name"@, model.name),
            ("visibility"@, "1"@),
        ]
    }

    /// The text fields of the form, as names and values in the order
    /// in which they are sent.
    pub fn text_fields(&self) -> (fields: Vec<(&'static str, String)>)
        ensures
            fields.len() == 3,
            forall|i: int|
                0 <= i < 3 ==> ((#[trigger] fields[i]).0@, fields[i].1@)
                    == UploadRequest::spec_text_fields(self@)[i],
    {
        let mut fields: Vec<(&'static str, String)> = Vec::new();
        fields.push(("variant", self.variant.name().to_owned()));
        fields.push(("name", self.name.clone()));
        fields.push(("visibility", "1".to_owned()));
        fields
    }

    /// The name of the form field that holds the image.
    pub fn file_field() -> (word: &'static str)
        ensures
            word@ == "file"@,
    {
        "file"
    }

    /// The file name under which the image is sent.
    pub fn file_name() -> (word: &'static str)
        ensures
            word@ == "joebama_skin.png"@,
    {
        "joebama_skin.png"
    }

    /// The media type under which the image is sent.
    pub fn media_type() -> (word: &'static str)
        ensures
            word@ == "image/png"@,
    {
        "image/png"
    }
}

/// What the caller is to do next.
#[derive(Debug)]
pub enum UploadAction {
    /// Wait for the request's delay, send it, and report a transport
    /// failure or the receipt of a response.
    Send(UploadRequest),
    /// Read the response and report what it holds.
    Parse,
    /// Stop: the upload has ended with this result.
    Finish(UploadResult),
    /// Nothing: the event was not one that the upload waited for.
    Nothing,
}

/// The model of an action.
pub enum ActionModel {
    Send(RequestModel),
    Parse,
    Finish(Option<HandleModel>),
    Nothing,
}

impl View for UploadAction {
    type V = ActionModel;

    open spec fn view(&self) -> ActionModel {
        match self {
            UploadAction::Send(request) => ActionModel::Send(request@),
            UploadAction::Parse => ActionModel::Parse,
            UploadAction::Finish(result) => ActionModel::Finish(result@),
            UploadAction::Nothing => ActionModel::Nothing,
        }
    }
}

/// What the machine is told in one step: the event, the time since the
/// upload began, and the name for a request that the step may send.
pub struct Report {
    pub event: EventModel,
    pub elapsed_ms: u64,
    pub name: Seq<char>,
}

/// The state of one upload: its settings, its phase and the number of
/// requests that it has sent.
#[derive(Clone, Copy, Debug, PartialEq, Eq, Structural)]
pub struct UploadSession {
    pub policy: RetryPolicy,
    pub variant: ArmVariant,
    pub phase: UploadPhase,
    pub attempts: u32,
}

/// Whether `c` is an ASCII letter or digit.
pub open spec fn is_alphanumeric(c: char) -> bool {
    let n = c as u32;
    (0x30 <= n <= 0x39) || (0x41 <= n <= 0x5a) || (0x61 <= n <= 0x7a)
}

/// Whether `name` has `len` characters, each an ASCII letter or digit.
pub open spec fn is_random_name(name: Seq<char>, len: int) -> bool {
    name.len() == len && forall|i: int| 0 <= i < name.len() ==> is_alphanumeric(#[trigger] name[i])
}

/// Calls `rand::distributions::DistString::sample_string` on
/// `Alphanumeric` with the thread's generator. Trusted: the string has
/// `len` characters and each is an ASCII letter or digit. Which ones is
/// left open: two calls may differ.
#[verifier::external_body]
fn random_alphanumeric(len: usize) -> (name: String)
    ensures
        is_random_name(name@, len as int),
{
    let mut generator = rand::thread_rng();
    rand::distributions::DistString::sample_string(
        &rand::distributions::Alphanumeric,
        &mut generator,
        len,
    )
}

impl UploadSession {
    /// The session of an upload that has not begun.
    pub fn new(policy: RetryPolicy, variant: ArmVariant) -> (session: UploadSession)
        ensures
            session == (UploadSession { policy, variant, phase: UploadPhase::Ready, attempts: 0 }),
    {
        UploadSession { policy, variant, phase: UploadPhase::Ready, attempts: 0 }
    }

    /// Whether the upload has ended.
    pub open spec fn spec_is_over(self) -> bool {
        self.phase == UploadPhase::Succeeded || self.phase == UploadPhase::Exhausted
    }

    /// Whether the upload has ended.
    #[verifier::when_used_as_spec(spec_is_over)]
    pub fn is_over(self) -> (over: bool)
        ensures
            over == self.spec_is_over(),
    {
        match self.phase {
            UploadPhase::Succeeded | UploadPhase::Exhausted => true,
            _ => false,
        }
    }

    /// Whether a further request may be sent when `elapsed_ms` have
    /// passed since the upload began.
    pub open spec fn may_send(self, elapsed_ms: u64) -> bool {
        self.attempts < self.policy.max_attempts && elapsed_ms < self.policy.deadline_ms
    }

    /// The next request, `delay_ms` from now and under the name `name`, or
    /// the end of the upload where none may be sent.
    pub open spec fn attempt(self, delay_ms: u64, elapsed_ms: u64, name: Seq<char>) -> (
        UploadSession,
        ActionModel,
    ) {
        if self.may_send(elapsed_ms) {
            (
                UploadSession {
                    phase: UploadPhase::Sending,
                    attempts: (self.attempts + 1) as u32,
                    ..self
                },
                ActionModel::Send(RequestModel { delay_ms, variant: self.variant, name }),
            )
        } else {
            (UploadSession { phase: UploadPhase::Exhausted, ..self }, ActionModel::Finish(None))
        }
    }

    /// Whether the upload, in its phase, waits for the event.
    pub open spec fn awaits(self, event: EventModel) -> bool {
        match (self.phase, event) {
            (UploadPhase::Ready, EventModel::Begin) => true,
            (UploadPhase::Sending, EventModel::TransportFailure) => true,
            (UploadPhase::Sending, EventModel::ResponseReceived) => true,
            (UploadPhase::AwaitingParse, EventModel::Parsed(_)) => true,
            (UploadPhase::Ready, EventModel::Cancel) => true,
            (UploadPhase::Sending, EventModel::Cancel) => true,
            (UploadPhase::AwaitingParse, EventModel::Cancel) => true,
            _ => false,
        }
    }

    /// The transition of the machine: the session after `event`, reported
    /// when `elapsed_ms` have passed since the upload began, and what the
    /// caller is to do next. A request that is sent goes under `name`.
    pub open spec fn next(self, event: EventModel, elapsed_ms: u64, name: Seq<char>) -> (
        UploadSession,
        ActionModel,
    ) {
        match (self.phase, event) {
            (UploadPhase::Ready, EventModel::Begin) => self.attempt(0, elapsed_ms, name),
            (UploadPhase::Sending, EventModel::TransportFailure) => self.attempt(
                self.policy.transport_delay_ms,
                elapsed_ms,
                name,
            ),
            (UploadPhase::Sending, EventModel::ResponseReceived) => (
                UploadSession { phase: UploadPhase::AwaitingParse, ..self },
                ActionModel::Parse,
            ),
            (UploadPhase::AwaitingParse, EventModel::Parsed(Some(handle))) => (
                UploadSession { phase: UploadPhase::Succeeded, ..self },
                ActionModel::Finish(Some(handle)),
            ),
            (UploadPhase::AwaitingParse, EventModel::Parsed(None)) => self.attempt(
                self.policy.processing_delay_ms,
                elapsed_ms,
                name,
            ),
            (UploadPhase::Ready, EventModel::Cancel)
            | (UploadPhase::Sending, EventModel::Cancel)
            | (UploadPhase::AwaitingParse, EventModel::Cancel) => (
                UploadSession { phase: UploadPhase::Exhausted, ..self },
                ActionModel::Finish(None),
            ),
            _ => (self, ActionModel::Nothing),
        }
    }

    /// Whether the step that `event` brings about sends a request.
    pub open spec fn sends(self, event: EventModel, elapsed_ms: u64) -> bool {
        self.next(event, elapsed_ms, Seq::empty()).1 is Send
    }

    /// Whether no more requests have been sent than the policy allows.
    pub open spec fn within_cap(self) -> bool {
        self.attempts <= self.policy.max_attempts
    }

    /// A bound on the number of events that the upload can still wait for.
    pub open spec fn budget(self) -> int {
        let unsent = 2 * (self.policy.max_attempts - self.attempts);
        match self.phase {
            UploadPhase::Ready => unsent + 3,
            UploadPhase::Sending => unsent + 2,
            UploadPhase::AwaitingParse => unsent + 1,
            UploadPhase::Succeeded | UploadPhase::Exhausted => 0,
        }
    }

    /// The session after the reports, taken one after the other.
    pub open spec fn after(self, reports: Seq<Report>) -> UploadSession
        decreases reports.len(),
    {
        if reports.len() == 0 {
            self
        } else {
            let last = reports.last();
            self.after(reports.drop_last()).next(last.event, last.elapsed_ms, last.name).0
        }
    }

    /// The number of requests that the reports, taken one after the
    /// other, make the machine send.
    pub open spec fn requests(self, reports: Seq<Report>) -> nat
        decreases reports.len(),
    {
        if reports.len() == 0 {
            0
        } else {
            let last = reports.last();
            let before = self.after(reports.drop_last());
            let sent: nat = if before.next(last.event, last.elapsed_ms, last.name).1 is Send {
                1
            } else {
                0
            };
            self.requests(reports.drop_last()) + sent
        }
    }

    /// Whether each report brings an event that the upload waits for when
    /// the report comes.
    pub open spec fn all_awaited(self, reports: Seq<Report>) -> bool
        decreases reports.len(),
    {
        reports.len() == 0 || (self.all_awaited(reports.drop_last()) && self.after(
            reports.drop_last(),
        ).awaits(reports.last().event))
    }

    /// One step of the machine: settings stay; a request is sent exactly
    /// where the count of requests goes up, by one, and only while the
    /// policy allows one; the upload ends exactly where the caller is told
    /// to stop, with a handle only where the event brought that handle;
    /// an upload that has ended, or that waits for another event, answers
    /// with nothing and stays as it is.
    pub proof fn lemma_step(self, event: EventModel, elapsed_ms: u64, name: Seq<char>)
        ensures
            ({
                let (after, action) = self.next(event, elapsed_ms, name);
                &&& after.policy == self.policy
                &&& after.variant == self.variant
                &&& action is Send <==> after.attempts == self.attempts + 1
                &&& !(action is Send) ==> after.attempts == self.attempts
                &&& action is Send ==> self.may_send(elapsed_ms) && after.phase
                    == UploadPhase::Sending
                &&& action matches ActionModel::Send(request) ==> request.name == name
                    && request.variant == self.variant
                &&& action is Finish <==> after.is_over() && !self.is_over()
                &&& action matches ActionModel::Finish(Some(handle)) ==> event
                    == EventModel::Parsed(Some(handle)) && after.phase == UploadPhase::Succeeded
                &&& action is Nothing <==> !self.awaits(event)
                &&& action is Nothing ==> after == self
                &&& self.is_over() ==> action is Nothing
                &&& self.within_cap() ==> after.within_cap()
                &&& self.within_cap() && self.awaits(event) ==> after.budget() < self.budget()
            }),
    {
    }

    /// However the reports come, the machine sends no more requests than
    /// the policy allows, and counts each one that it sends.
    pub proof fn lemma_requests_are_capped(self, reports: Seq<Report>)
        requires
            self.within_cap(),
        ensures
            self.after(reports).within_cap(),
            self.after(reports).policy == self.policy,
            self.after(reports).variant == self.variant,
            self.after(reports).attempts == self.attempts + self.requests(reports),
            self.requests(reports) <= self.policy.max_attempts - self.attempts,
        decreases reports.len(),
    {
        if reports.len() > 0 {
            let last = reports.last();
            self.lemma_requests_are_capped(reports.drop_last());
            self.after(reports.drop_last()).lemma_step(last.event, last.elapsed_ms, last.name);
        }
    }

    /// An upload cannot go on for ever: the events that it waits for, one
    /// after the other, are no more than its budget, which is at most
    /// three more than twice the number of requests that are left to it.
    pub proof fn lemma_run_is_bounded(self, reports: Seq<Report>)
        requires
            self.within_cap(),
            self.all_awaited(reports),
        ensures
            reports.len() + self.after(reports).budget() <= self.budget(),
            reports.len() <= 2 * (self.policy.max_attempts - self.attempts) + 3,
        decreases reports.len(),
    {
        if reports.len() > 0 {
            let last = reports.last();
            self.lemma_run_is_bounded(reports.drop_last());
            self.lemma_requests_are_capped(reports.drop_last());
            self.after(reports.drop_last()).lemma_step(last.event, last.elapsed_ms, last.name);
        }
    }

    /// The next request under the name `name`, or the end of the upload.
    fn try_send(self, delay_ms: u64, elapsed_ms: u64, name: String) -> (r: (
        UploadSession,
        UploadAction,
    ))
        ensures
            (r.0, r.1@) == self.attempt(delay_ms, elapsed_ms, name@),
    {
        if self.attempts < self.policy.max_attempts && elapsed_ms < self.policy.deadline_ms {
            let session = UploadSession {
                policy: self.policy,
                variant: self.variant,
                phase: UploadPhase::Sending,
                attempts: self.attempts + 1,
            };
            (session, UploadAction::Send(UploadRequest { delay_ms, variant: self.variant, name }))
        } else {
            let session = UploadSession {
                policy: self.policy,
                variant: self.variant,
                phase: UploadPhase::Exhausted,
                attempts: self.attempts,
            };
            (session, UploadAction::Finish(UploadResult::Failed))
        }
    }

    /// Takes the machine one step: `event` is what happened, `elapsed_ms`
    /// the time since the upload began, and `name` the name under which a
    /// request goes out if the step sends one.
    pub fn step_named(self, event: UploadEvent, elapsed_ms: u64, name: String) -> (r: (
        UploadSession,
        UploadAction,
    ))
        ensures
            (r.0, r.1@) == self.next(event@, elapsed_ms, name@),
    {
        match (self.phase, event) {
            (UploadPhase::Ready, UploadEvent::Begin) => self.try_send(0, elapsed_ms, name),
            (UploadPhase::Sending, UploadEvent::TransportFailure) => self.try_send(
                self.policy.transport_delay_ms,
                elapsed_ms,
                name,
            ),
            (UploadPhase::Sending, UploadEvent::ResponseReceived) => {
                let session = UploadSession {
                    policy: self.policy,
                    variant: self.variant,
                    phase: UploadPhase::AwaitingParse,
                    attempts: self.attempts,
                };
                (session, UploadAction::Parse)
            },
            (UploadPhase::AwaitingParse, UploadEvent::Parsed(reply)) => {
                match reply.into_handle() {
                    Some(handle) => {
                        let session = UploadSession {
                            policy: self.policy,
                            variant: self.variant,
                            phase: UploadPhase::Succeeded,
                            attempts: self.attempts,
                        };
                        (session, UploadAction::Finish(UploadResult::Handle(handle)))
                    },
                    None => self.try_send(self.policy.processing_delay_ms, elapsed_ms, name),
                }
            },
            (UploadPhase::Ready, UploadEvent::Cancel)
            | (UploadPhase::Sending, UploadEvent::Cancel)
            | (UploadPhase::AwaitingParse, UploadEvent::Cancel) => {
                let session = UploadSession {
                    policy: self.policy,
                    variant: self.variant,
                    phase: UploadPhase::Exhausted,
                    attempts: self.attempts,
                };
                (session, UploadAction::Finish(UploadResult::Failed))
            },
            _ => (self, UploadAction::Nothing),
        }
    }

    /// Whether the step that `event` brings about sends a request.
    pub fn will_send(self, event: &UploadEvent, elapsed_ms: u64) -> (sends: bool)
        ensures
            sends == self.sends(event@, elapsed_ms),
    {
        let retried = match (self.phase, event) {
            (UploadPhase::Ready, UploadEvent::Begin) => true,
            (UploadPhase::Sending, UploadEvent::TransportFailure) => true,
            (UploadPhase::AwaitingParse, UploadEvent::Parsed(reply)) => reply.signature.is_none()
                || reply.value.is_none(),
            _ => false,
        };
        retried && self.attempts < self.policy.max_attempts && elapsed_ms
            < self.policy.deadline_ms
    }

    /// Takes the machine one step: `event` is what happened and
    /// `elapsed_ms` the time since the upload began. A request that the
    /// step sends goes under a name of `NAME_LENGTH` letters and digits,
    /// drawn at random for it.
    pub fn step(self, event: UploadEvent, elapsed_ms: u64) -> (r: (UploadSession, UploadAction))
        ensures
            exists|name: Seq<char>|
                #[trigger] is_random_name(name, NAME_LENGTH as int) && (r.0, r.1@) == self.next(
                    event@,
                    elapsed_ms,
                    name,
                ),
            r.1@ is Send <==> self.sends(event@, elapsed_ms),
            r.1@ matches ActionModel::Send(request) ==> is_random_name(
                request.name,
                NAME_LENGTH as int,
            ),
    {
        if self.will_send(&event, elapsed_ms) {
            let name = random_alphanumeric(NAME_LENGTH);
            self.step_named(event, elapsed_ms, name)
        } else {
            let ghost unused = Seq::new(NAME_LENGTH as nat, |i: int| 'a');
            assert(is_random_name(unused, NAME_LENGTH as int));
            assert(self.next(event@, elapsed_ms, unused) == self.next(
                event@,
                elapsed_ms,
                Seq::empty(),
            ));
            self.step_named(event, elapsed_ms, String::new())
        }
    }
}

} // verus!
