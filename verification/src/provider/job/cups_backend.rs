//! What the scheduler's answers mean.
//!
//! Requests go out as raw IPP rather than through the `cupsCreateDestJob`
//! family. The `Dest` wrappers delete the scheduler's response and return only
//! `cupsLastError()`, which cannot tell "the scheduler refused" from "no answer
//! arrived", the one distinction duplicate-print safety depends on. Here a
//! missing response means no answer, and a response's status code means the
//! scheduler's verdict.
//!
//! libcups re-sends a request by itself only when the POST could not be
//! written at all, or after HTTP 401, 417 or 426, answers cupsd gives before
//! it reads the IPP operation (`cupsSendRequest`, `cupsDoIORequest`). No
//! request that could have created or changed a job is ever repeated.

use vstd::prelude::*;
use vstd::string::*;

use crate::constants;
use crate::destination::{Destination, LookupFailure};
use crate::provider::api::{self, lookup};
use crate::provider::error::{ErrorView, ProviderError, ProviderResult};
use crate::provider::job::backend::{
    self, AcceptedView, CreateAccepted, FailureView, MutationFailure,
};
use crate::provider::job::types::{
    JobIdView, JobRejection, ProviderJobId, ProviderJobStatus,
};
use crate::provider::job::uri::{self, queue_name, resource_path};
use crate::text::{
    self, contains_char, hex, quoted, same_text_ignoring_ascii_case, signed_decimal,
};

verus! {

/// A scheduler-local queue, as a request needs it.
#[derive(Debug)]
pub struct Target {
    uri: String,
    resource: String,
}

/// What a [`Target`] says.
pub struct TargetView {
    pub uri: Seq<char>,
    pub resource: Seq<char>,
}

impl View for Target {
    type V = TargetView;

    closed spec fn view(&self) -> TargetView {
        TargetView { uri: self.uri@, resource: self.resource@ }
    }
}

impl Target {
    #[verifier::type_invariant]
    spec fn fits_c(self) -> bool {
        !self.uri@.contains('\0') && !self.resource@.contains('\0')
    }

    pub fn uri(&self) -> (uri: &str)
        ensures
            uri@ == self@.uri,
            !uri@.contains('\0'),
    {
        proof {
            use_type_invariant(self);
        }
        self.uri.as_str()
    }

    pub fn resource(&self) -> (resource: &str)
        ensures
            resource@ == self@.resource,
            !resource@.contains('\0'),
    {
        proof {
            use_type_invariant(self);
        }
        self.resource.as_str()
    }
}

/// A request that never left, with its reason.
pub open spec fn unsent(detail: Seq<char>) -> FailureView {
    FailureView::NotSent(ErrorView::InternalContractViolation { detail })
}

/// What looking up `printer` leads to: its queue on the local scheduler, or
/// why nothing may be sent.
pub open spec fn resolution(
    printer: Seq<char>,
    looked_up: Result<Destination, LookupFailure>,
) -> Result<TargetView, FailureView> {
    match looked_up {
        Err(failure) => Err(FailureView::NotSent(api::lookup_error(printer, failure))),
        Ok(destination) => match destination.option("printer-uri-supported"@) {
            None => Err(unsent(printer + " has no printer-uri-supported"@)),
            Some(address) => match uri::queue_of(address) {
                None => Err(unsent(printer + " has an unusable printer URI "@ + address)),
                Some(queue) => if !text::same_ignoring_ascii_case(queue, printer) {
                    Err(
                        unsent(
                            printer + " resolved to a URI for "@ + queue
                                + "; refusing to send elsewhere"@,
                        ),
                    )
                } else if address.contains('\0') {
                    Err(unsent("printer URI contains NUL"@))
                } else {
                    Ok(
                        TargetView {
                            uri: address,
                            resource: uri::resource_of(address)->Some_0,
                        },
                    )
                },
            },
        },
    }
}

/// What a resolution says.
pub open spec fn resolution_view(resolved: Result<Target, MutationFailure>) -> Result<
    TargetView,
    FailureView,
> {
    match resolved {
        Ok(target) => Ok(target@),
        Err(failure) => Err(failure@),
    }
}

/// Find exactly `printer` on the local scheduler.
///
/// Refuses anything that would send the request elsewhere: a destination
/// whose URI is not a local `/printers/` or `/classes/` queue of this very
/// name is an error, never a fallback.
pub fn resolve(printer: &str, looked_up: Result<Destination, LookupFailure>) -> (resolved: Result<
    Target,
    MutationFailure,
>)
    ensures
        resolution_view(resolved) == resolution(printer@, looked_up),
{
    let destination = match lookup(printer, looked_up) {
        Err(refusal) => return Err(MutationFailure::NotSent(refusal)),
        Ok(destination) => destination,
    };
    let address = match destination.get_option("printer-uri-supported") {
        None => {
            let detail = printer.to_string().concat(" has no printer-uri-supported");
            return Err(not_sent(detail.as_str()));
        },
        Some(address) => address,
    };
    let queue = match queue_name(address) {
        None => {
            let detail = printer.to_string().concat(" has an unusable printer URI ").concat(
                address,
            );
            return Err(not_sent(detail.as_str()));
        },
        Some(queue) => queue,
    };
    if !same_text_ignoring_ascii_case(queue.as_str(), printer) {
        let detail = printer.to_string().concat(" resolved to a URI for ").concat(
            queue.as_str(),
        ).concat("; refusing to send elsewhere");
        return Err(not_sent(detail.as_str()));
    }
    if contains_char(address, '\0') {
        return Err(not_sent("printer URI contains NUL"));
    }
    let resource = match resource_path(address) {
        Some(resource) => resource,
        None => "",
    };
    proof {
        lemma_path_is_part_of_uri(address@, '\0');
    }
    Ok(Target { uri: address.to_string(), resource: resource.to_string() })
}

/// Whether every character of `part` occurs in `whole`.
spec fn within(part: Seq<char>, whole: Seq<char>) -> bool {
    forall|c: char| #[trigger] part.contains(c) ==> whole.contains(c)
}

proof fn lemma_before_is_within(s: Seq<char>, c: char)
    ensures
        within(text::before(s, c), s),
    decreases s.len(),
{
    if s.len() > 0 && s[0] != c {
        let rest = s.skip(1);
        lemma_before_is_within(rest, c);
        lemma_skip_is_within(s, 1);
        let front = text::before(s, c);
        assert forall|d: char| #[trigger] front.contains(d) implies s.contains(d) by {
            let i = choose|i: int| 0 <= i < front.len() && front[i] == d;
            if i == 0 {
                assert(s[0] == d);
            } else {
                assert(text::before(rest, c)[i - 1] == d);
                assert(text::before(rest, c).contains(d));
            }
        }
    }
}

proof fn lemma_skip_is_within(s: Seq<char>, n: int)
    requires
        0 <= n <= s.len(),
    ensures
        within(s.skip(n), s),
{
    assert forall|d: char| #[trigger] s.skip(n).contains(d) implies s.contains(d) by {
        let i = choose|i: int| 0 <= i < s.skip(n).len() && s.skip(n)[i] == d;
        assert(s[i + n] == d);
    }
}

proof fn lemma_tail_is_within(s: Seq<char>, c: char)
    ensures
        text::from_first(s, c) matches Some(tail) ==> within(tail, s),
    decreases s.len(),
{
    if s.len() > 0 && s[0] != c {
        lemma_tail_is_within(s.skip(1), c);
        lemma_skip_is_within(s, 1);
    }
}

/// A character that is not in a URI is not in its path either.
proof fn lemma_path_is_part_of_uri(address: Seq<char>, c: char)
    requires
        !address.contains(c),
    ensures
        uri::resource_of(address) matches Some(path) ==> !path.contains(c),
{
    let scheme = "ipp://"@;
    let secure = "ipps://"@;
    if uri::resource_of(address) is Some {
        let rest = match text::after_prefix(address, scheme) {
            Some(rest) => rest,
            None => text::after_prefix(address, secure)->Some_0,
        };
        if text::after_prefix(address, scheme) is Some {
            lemma_skip_is_within(address, scheme.len() as int);
        } else {
            lemma_skip_is_within(address, secure.len() as int);
        }
        lemma_tail_is_within(rest, '/');
        let tail = text::from_first(rest, '/')->Some_0;
        lemma_before_is_within(tail, '?');
        lemma_before_is_within(text::before(tail, '?'), '#');
    }
}

/// Whether a status is one of IPP's successful ones: 0x0000 to 0x00FF.
pub open spec fn successful(status: i64) -> bool {
    0 <= status < 0x100
}

/// Anything in IPP's successful range means the operation was done, including
/// "ok, but some attributes were ignored". Treating only 0x0000 as success
/// would report a created job as a failure and invite a second one.
pub fn is_successful(status: i64) -> (done: bool)
    ensures
        done == successful(status),
{
    0 <= status && status < 0x100
}

/// Why the scheduler refused, by the status it answered with.
pub open spec fn reason_of(status: i64) -> JobRejection {
    if status == constants::IPP_STATUS_ERROR_NOT_FOUND || status
        == constants::IPP_STATUS_ERROR_GONE {
        JobRejection::NotFound
    } else if status == constants::IPP_STATUS_ERROR_NOT_ACCEPTING_JOBS {
        JobRejection::NotAccepting
    } else if status == constants::IPP_STATUS_ERROR_FORBIDDEN || status
        == constants::IPP_STATUS_ERROR_NOT_AUTHENTICATED || status
        == constants::IPP_STATUS_ERROR_NOT_AUTHORIZED {
        JobRejection::NotAuthorized
    } else if status == constants::IPP_STATUS_ERROR_NOT_POSSIBLE {
        JobRejection::NotPossible
    } else if status == constants::IPP_STATUS_ERROR_DOCUMENT_FORMAT_NOT_SUPPORTED {
        JobRejection::DocumentFormatNotSupported
    } else if status == constants::IPP_STATUS_ERROR_BAD_REQUEST || status
        == constants::IPP_STATUS_ERROR_ATTRIBUTES_OR_VALUES || status
        == constants::IPP_STATUS_ERROR_CONFLICTING {
        JobRejection::BadRequest
    } else {
        JobRejection::Other
    }
}

pub fn rejection_reason(status: i64) -> (reason: JobRejection)
    ensures
        reason == reason_of(status),
{
    if status == constants::IPP_STATUS_ERROR_NOT_FOUND || status
        == constants::IPP_STATUS_ERROR_GONE {
        JobRejection::NotFound
    } else if status == constants::IPP_STATUS_ERROR_NOT_ACCEPTING_JOBS {
        JobRejection::NotAccepting
    } else if status == constants::IPP_STATUS_ERROR_FORBIDDEN || status
        == constants::IPP_STATUS_ERROR_NOT_AUTHENTICATED || status
        == constants::IPP_STATUS_ERROR_NOT_AUTHORIZED {
        JobRejection::NotAuthorized
    } else if status == constants::IPP_STATUS_ERROR_NOT_POSSIBLE {
        JobRejection::NotPossible
    } else if status == constants::IPP_STATUS_ERROR_DOCUMENT_FORMAT_NOT_SUPPORTED {
        JobRejection::DocumentFormatNotSupported
    } else if status == constants::IPP_STATUS_ERROR_BAD_REQUEST || status
        == constants::IPP_STATUS_ERROR_ATTRIBUTES_OR_VALUES || status
        == constants::IPP_STATUS_ERROR_CONFLICTING {
        JobRejection::BadRequest
    } else {
        JobRejection::Other
    }
}

/// Whether a status that came with nothing found says that there is nothing to
/// find. Any other refusal says that the scheduler could not be asked.
pub open spec fn says_nothing_there(status: i64) -> bool {
    successful(status) || reason_of(status) is NotFound
}

/// Why a lookup found no destination, by the last status libcups saw and what
/// it says of it.
pub fn lookup_failure(status: i64, message: &str) -> (failure: LookupFailure)
    ensures
        says_nothing_there(status) ==> failure is NotFound,
        !says_nothing_there(status) ==> (failure matches LookupFailure::Failed(why) && why@
            == message@),
{
    if is_successful(status) || rejection_reason(status) == JobRejection::NotFound {
        LookupFailure::NotFound
    } else {
        LookupFailure::Failed(message.to_string())
    }
}

/// What listing the destinations came to, by the last status libcups saw. An
/// empty list from a scheduler that answered is an empty list; one from a
/// scheduler that could not be asked is a failure, and `Err` says why.
pub fn listing(found: Vec<Destination>, status: i64, message: &str) -> (listed: Result<
    Vec<Destination>,
    String,
>)
    ensures
        listed is Ok == (found@.len() > 0 || says_nothing_there(status)),
        listed matches Ok(list) ==> list == found,
        listed matches Err(why) ==> why@ == message@,
{
    if found.len() > 0 {
        return Ok(found);
    }
    match lookup_failure(status, message) {
        LookupFailure::NotFound => Ok(found),
        LookupFailure::Failed(why) => Err(why),
    }
}

/// A status as diagnostics show it: at least four hexadecimal digits, and a
/// negative one by its two's complement.
pub open spec fn status_chars(status: i64) -> Seq<char> {
    "0x"@ + text::hex_chars((status as u64) as nat, 4)
}

fn status_text(status: i64) -> (shown: String)
    ensures
        shown@ == status_chars(status),
{
    "0x".to_string().concat(hex(status as u64, 4).as_str())
}

/// The scheduler answered `status` and refused; `message` is what libcups adds.
pub open spec fn refusal(status: i64, message: Seq<char>) -> FailureView {
    FailureView::Rejected {
        reason: reason_of(status),
        detail: "scheduler answered "@ + status_chars(status) + ": "@ + message,
    }
}

/// No answer was read; `message` is what libcups adds.
pub open spec fn silence(context: Seq<char>, message: Seq<char>) -> FailureView {
    FailureView::NoAnswer { detail: context + ": "@ + message }
}

/// What a status says of a request that needs no more than a yes.
pub open spec fn verdict_of(status: i64, message: Seq<char>) -> Result<(), FailureView> {
    if successful(status) {
        Ok(())
    } else {
        Err(refusal(status, message))
    }
}

pub fn rejected(status: i64, message: &str) -> (failure: MutationFailure)
    ensures
        failure@ == refusal(status, message@),
{
    MutationFailure::Rejected {
        reason: rejection_reason(status),
        detail: "scheduler answered ".to_string().concat(status_text(status).as_str()).concat(
            ": ",
        ).concat(message),
    }
}

pub fn no_answer(context: &str, message: &str) -> (failure: MutationFailure)
    ensures
        failure@ == silence(context@, message@),
{
    MutationFailure::NoAnswer { detail: context.to_string().concat(": ").concat(message) }
}

pub fn not_sent(detail: &str) -> (failure: MutationFailure)
    ensures
        failure@ == unsent(detail@),
{
    MutationFailure::NotSent(
        ProviderError::InternalContractViolation { detail: detail.to_string() },
    )
}

/// What an answer comes to, or its absence, for which `missing` says what is
/// missing.
pub open spec fn answer_of(
    missing: Seq<char>,
    answered: Option<i64>,
    message: Seq<char>,
) -> Result<(), FailureView> {
    match answered {
        None => Err(silence(missing, message)),
        Some(status) => verdict_of(status, message),
    }
}

/// What a whole request came to. `None` is no answer: the request may or may
/// not have been processed.
pub fn verdict(answered: Option<i64>, message: &str) -> (answer: Result<(), MutationFailure>)
    ensures
        backend::answer_view(answer) == answer_of(
            "no answer from the scheduler"@,
            answered,
            message@,
        ),
{
    match answered {
        None => Err(no_answer("no answer from the scheduler", message)),
        Some(status) => if is_successful(status) {
            Ok(())
        } else {
            Err(rejected(status, message))
        },
    }
}

/// One attribute of an answer, as far as its group and name go. `None` when
/// libcups returned no name.
#[derive(Clone, Debug, PartialEq, Eq)]
pub struct AnswerAttribute {
    pub group: u32,
    pub name: Option<String>,
}

/// The names in the unsupported-attributes group, in order.
pub open spec fn unsupported_of(attributes: Seq<AnswerAttribute>) -> Seq<Seq<char>>
    decreases attributes.len(),
{
    if attributes.len() == 0 {
        seq![]
    } else {
        let earlier = unsupported_of(attributes.drop_last());
        let last = attributes.last();
        match last.name {
            Some(name) => if last.group == constants::IPP_TAG_UNSUPPORTED_GROUP {
                earlier.push(name@)
            } else {
                earlier
            },
            None => earlier,
        }
    }
}

/// Names in the unsupported-attributes group: what the scheduler ignored
/// or substituted.
pub fn unsupported_attribute_names(attributes: &[AnswerAttribute]) -> (names: Vec<String>)
    ensures
        text::texts(names@) == unsupported_of(attributes@),
{
    let mut names: Vec<String> = Vec::new();
    let mut at: usize = 0;
    assert(text::texts(names@) =~= unsupported_of(attributes@.take(0)));
    while at < attributes.len()
        invariant
            at <= attributes@.len(),
            text::texts(names@) == unsupported_of(attributes@.take(at as int)),
        decreases attributes@.len() - at,
    {
        let ghost earlier = text::texts(names@);
        assert(attributes@.take(at + 1).drop_last() == attributes@.take(at as int));
        if attributes[at].group == constants::IPP_TAG_UNSUPPORTED_GROUP {
            if let Some(name) = &attributes[at].name {
                let copy = name.clone();
                names.push(copy);
                assert(text::texts(names@) =~= earlier.push(copy@));
            }
        }
        at += 1;
    }
    assert(attributes@.take(at as int) == attributes@);
    names
}

/// The scheduler's answer to a Create-Job.
#[derive(Clone, Debug, PartialEq, Eq)]
pub struct CreateAnswer {
    pub status: i64,
    pub job_id: Option<i32>,
    pub attributes: Vec<AnswerAttribute>,
}

/// What a Create-Job came to.
pub open spec fn created(answered: Option<CreateAnswer>, message: Seq<char>) -> Result<
    AcceptedView,
    FailureView,
> {
    match answered {
        None => Err(silence("no answer from the scheduler"@, message)),
        Some(answer) => if successful(answer.status) {
            Ok(
                AcceptedView {
                    // A success without a usable id is recorded as an unknown
                    // outcome by the service; 0 is never a valid id.
                    job_id: match answer.job_id {
                        Some(id) => if id >= 0 {
                            id as u32
                        } else {
                            0
                        },
                        None => 0,
                    },
                    ignored_attributes: unsupported_of(answer.attributes@),
                },
            )
        } else if answer.job_id matches Some(id) && id > 0 {
            Err(
                FailureView::NoAnswer {
                    detail: "refusal "@ + status_chars(answer.status) + " carried a job-id"@,
                },
            )
        } else {
            Err(refusal(answer.status, message))
        },
    }
}

/// What a Create-Job came to. `None` is no answer.
///
/// IPP says a refused Create-Job creates nothing. A refusal that still names a
/// job is not something to trust either way.
pub fn create_verdict(answered: Option<CreateAnswer>, message: &str) -> (accepted: Result<
    CreateAccepted,
    MutationFailure,
>)
    ensures
        backend::created_view(accepted) == created(answered, message@),
{
    let answer = match answered {
        None => return Err(no_answer("no answer from the scheduler", message)),
        Some(answer) => answer,
    };
    let job_id: i32 = match answer.job_id {
        Some(id) => id,
        None => 0,
    };
    if !is_successful(answer.status) {
        if job_id > 0 {
            return Err(
                MutationFailure::NoAnswer {
                    detail: "refusal ".to_string().concat(
                        status_text(answer.status).as_str(),
                    ).concat(" carried a job-id"),
                },
            );
        }
        return Err(rejected(answer.status, message));
    }
    Ok(
        CreateAccepted {
            job_id: if job_id >= 0 {
                job_id as u32
            } else {
                0
            },
            ignored_attributes: unsupported_attribute_names(answer.attributes.as_slice()),
        },
    )
}

/// The Send-Document request in progress, if there is one, by the resource it
/// goes to.
#[derive(Debug)]
pub struct DocumentStream {
    open_document: Option<String>,
}

/// What starting a Send-Document came to, by the HTTP status and, if the
/// scheduler answered before any document data, by that answer.
pub open spec fn start_outcome(http: i32, early: Option<i64>, message: Seq<char>) -> Result<
    (),
    FailureView,
> {
    if http == constants::HTTP_STATUS_CONTINUE {
        Ok(())
    } else if http == constants::HTTP_STATUS_OK {
        if early matches Some(status) && !successful(status) {
            Err(refusal(early->Some_0, message))
        } else {
            Err(silence("scheduler answered Send-Document early"@, message))
        }
    } else {
        Err(
            silence(
                "Send-Document not started (HTTP "@ + text::signed_decimal_chars(http as int)
                    + ")"@,
                message,
            ),
        )
    }
}

/// What writing document data came to, by the HTTP status.
pub open spec fn write_outcome(http: i32, message: Seq<char>) -> Result<(), FailureView> {
    if http == constants::HTTP_STATUS_CONTINUE {
        Ok(())
    } else {
        Err(
            silence(
                "document write failed (HTTP "@ + text::signed_decimal_chars(http as int) + ")"@,
                message,
            ),
        )
    }
}

/// The document in progress after a start: the one that was started, if HTTP
/// said to go on.
pub open spec fn open_after_start(
    resource: Seq<char>,
    http: i32,
    early: Option<i64>,
    message: Seq<char>,
) -> Option<Seq<char>> {
    if start_outcome(http, early, message) is Ok {
        Some(resource)
    } else {
        None
    }
}

/// The document in progress after a write: none if the write failed.
pub open spec fn open_after_write(
    open: Option<Seq<char>>,
    http: i32,
    message: Seq<char>,
) -> Option<Seq<char>> {
    if write_outcome(http, message) is Ok {
        open
    } else {
        None
    }
}

impl View for DocumentStream {
    type V = Option<Seq<char>>;

    /// The resource of the document in progress.
    closed spec fn view(&self) -> Option<Seq<char>> {
        match self.open_document {
            Some(resource) => Some(resource@),
            None => None,
        }
    }
}

impl DocumentStream {
    /// No document in progress.
    pub fn new() -> (stream: Self)
        ensures
            stream@ is None,
    {
        DocumentStream { open_document: None }
    }

    /// Whether a document may be started: one at a time.
    pub fn may_start(&self) -> (allowed: Result<(), MutationFailure>)
        ensures
            allowed is Ok == (self@ is None),
            allowed matches Err(failure) ==> failure@ == unsent("a document is already open"@),
    {
        match &self.open_document {
            Some(_) => Err(not_sent("a document is already open")),
            None => Ok(()),
        }
    }

    /// Take what starting a document came to.
    pub fn started(&mut self, resource: &str, http: i32, early: Option<i64>, message: &str) -> (
    outcome: Result<(), MutationFailure>)
        requires
            old(self)@ is None,
        ensures
            backend::answer_view(outcome) == start_outcome(http, early, message@),
            final(self)@ == open_after_start(resource@, http, early, message@),
    {
        if http == constants::HTTP_STATUS_CONTINUE {
            self.open_document = Some(resource.to_string());
            return Ok(());
        }
        if http == constants::HTTP_STATUS_OK {
            // The scheduler answered before any document data: say why.
            return match early {
                Some(status) => if is_successful(status) {
                    Err(no_answer("scheduler answered Send-Document early", message))
                } else {
                    Err(rejected(status, message))
                },
                None => Err(no_answer("scheduler answered Send-Document early", message)),
            };
        }
        let context = "Send-Document not started (HTTP ".to_string().concat(
            signed_decimal(http).as_str(),
        ).concat(")");
        Err(no_answer(context.as_str(), message))
    }

    /// Whether document data may be written.
    pub fn may_write(&self) -> (allowed: Result<(), MutationFailure>)
        ensures
            allowed is Ok == (self@ is Some),
            allowed matches Err(failure) ==> failure@ == unsent("no document is open"@),
    {
        match &self.open_document {
            Some(_) => Ok(()),
            None => Err(not_sent("no document is open")),
        }
    }

    /// Take what writing document data came to.
    ///
    /// A write that failed ends the document: the request is dead. libcups
    /// flushes or reconnects the connection before the next request, so
    /// nothing needs sending to tidy it up.
    pub fn wrote(&mut self, http: i32, message: &str) -> (outcome: Result<(), MutationFailure>)
        ensures
            backend::answer_view(outcome) == write_outcome(http, message@),
            final(self)@ == open_after_write(old(self)@, http, message@),
    {
        if http == constants::HTTP_STATUS_CONTINUE {
            return Ok(());
        }
        self.open_document = None;
        let context = "document write failed (HTTP ".to_string().concat(
            signed_decimal(http).as_str(),
        ).concat(")");
        Err(no_answer(context.as_str(), message))
    }

    /// End the document: the resource to read the verdict from. Whatever the
    /// verdict, no document is in progress any more.
    pub fn finish(&mut self) -> (resource: Result<String, MutationFailure>)
        ensures
            final(self)@ is None,
            resource is Ok == (old(self)@ is Some),
            resource matches Ok(address) ==> Some(address@) == old(self)@,
            resource matches Err(failure) ==> failure@ == unsent("no document is open"@),
    {
        match self.open_document.take() {
            Some(resource) => Ok(resource),
            None => Err(not_sent("no document is open")),
        }
    }
}

/// The verdict on a finished document. `None` is no answer.
pub fn document_verdict(answered: Option<i64>, message: &str) -> (outcome: Result<
    (),
    MutationFailure,
>)
    ensures
        backend::answer_view(outcome) == answer_of(
            "no verdict on the document"@,
            answered,
            message@,
        ),
{
    match answered {
        None => Err(no_answer("no verdict on the document", message)),
        Some(status) => if is_successful(status) {
            Ok(())
        } else {
            Err(rejected(status, message))
        },
    }
}

/// What came of asking for a job's state.
#[derive(Clone, Debug, PartialEq, Eq)]
pub enum StatusAnswer {
    /// The request could not be built.
    NotBuilt { detail: String },
    /// No answer was read, and this is what libcups said.
    NoAnswer { message: String },
    /// The scheduler answered.
    Answered { status: i64, printer_uri: Option<String>, job_state: Option<i32> },
}

/// What the answer to a request for a job's state says of it.
pub open spec fn status_of(job: JobIdView, answer: StatusAnswer) -> Result<
    ProviderJobStatus,
    ErrorView,
> {
    match answer {
        StatusAnswer::NotBuilt { detail } => Err(
            ErrorView::JobStatusQueryFailed {
                job,
                detail: "NotSent(InternalContractViolation { detail: "@ + text::debug_chars(
                    detail@,
                ) + " })"@,
            },
        ),
        StatusAnswer::NoAnswer { message } => Err(
            ErrorView::JobStatusQueryFailed {
                job,
                detail: "no answer from the scheduler: "@ + message@,
            },
        ),
        StatusAnswer::Answered { status, printer_uri, job_state } => if status
            == constants::IPP_STATUS_ERROR_NOT_FOUND {
            Err(ErrorView::JobNotFound { job })
        } else if !successful(status) {
            Err(
                ErrorView::JobStatusQueryFailed {
                    job,
                    detail: "scheduler answered "@ + status_chars(status),
                },
            )
        } else {
            match printer_uri {
                None => Err(
                    ErrorView::JobStatusQueryFailed {
                        job,
                        detail: "no job-printer-uri in the answer"@,
                    },
                ),
                Some(owner) => match uri::queue_of(owner@) {
                    None => Err(
                        ErrorView::JobStatusQueryFailed {
                            job,
                            detail: "unrecognised job-printer-uri "@ + owner@,
                        },
                    ),
                    Some(queue) => if text::same_ignoring_ascii_case(queue, job.printer) {
                        Ok(
                            match job_state {
                                Some(state) => ProviderJobStatus::of_job_state(state),
                                None => ProviderJobStatus::Unknown,
                            },
                        )
                    } else {
                        Err(ErrorView::JobDestinationMismatch { job, reported_printer: queue })
                    },
                },
            }
        },
    }
}

/// A status, or why there is none, as what it says.
pub open spec fn status_view(status: ProviderResult<ProviderJobStatus>) -> Result<
    ProviderJobStatus,
    ErrorView,
> {
    match status {
        Ok(known) => Ok(known),
        Err(refusal) => Err(refusal@),
    }
}

fn query_failed(job: &ProviderJobId, detail: String) -> (failure: ProviderError)
    ensures
        failure@ == (ErrorView::JobStatusQueryFailed { job: job@, detail: detail@ }),
{
    ProviderError::JobStatusQueryFailed { job: job.clone(), detail }
}

/// Read a job's state from the answer, confirming it belongs to
/// `job.printer()`.
pub fn job_status(job: &ProviderJobId, answer: StatusAnswer) -> (status: ProviderResult<
    ProviderJobStatus,
>)
    ensures
        status_view(status) == status_of(job@, answer),
{
    let (status, printer_uri, job_state): (i64, Option<String>, Option<i32>) = match answer {
        StatusAnswer::NotBuilt { detail } => return Err(
            query_failed(
                job,
                "NotSent(InternalContractViolation { detail: ".to_string().concat(
                    quoted(detail.as_str()).as_str(),
                ).concat(" })"),
            ),
        ),
        StatusAnswer::NoAnswer { message } => return Err(
            query_failed(
                job,
                "no answer from the scheduler: ".to_string().concat(message.as_str()),
            ),
        ),
        StatusAnswer::Answered { status, printer_uri, job_state } => (
            status,
            printer_uri,
            job_state,
        ),
    };
    if status == constants::IPP_STATUS_ERROR_NOT_FOUND {
        return Err(ProviderError::JobNotFound { job: job.clone() });
    }
    if !is_successful(status) {
        return Err(
            query_failed(
                job,
                "scheduler answered ".to_string().concat(status_text(status).as_str()),
            ),
        );
    }
    let owner = match printer_uri {
        Some(owner) => owner,
        None => return Err(query_failed(job, "no job-printer-uri in the answer".to_string())),
    };
    let queue = match queue_name(owner.as_str()) {
        Some(queue) => queue,
        None => return Err(
            query_failed(
                job,
                "unrecognised job-printer-uri ".to_string().concat(owner.as_str()),
            ),
        ),
    };
    if !same_text_ignoring_ascii_case(queue.as_str(), job.printer()) {
        return Err(
            ProviderError::JobDestinationMismatch { job: job.clone(), reported_printer: queue },
        );
    }
    Ok(
        match job_state {
            Some(state) => ProviderJobStatus::from_ipp_job_state(state),
            None => ProviderJobStatus::Unknown,
        },
    )
}

/// A request never goes to another queue than the one it was asked for.
pub proof fn law_requests_go_to_the_named_queue(
    printer: Seq<char>,
    looked_up: Result<Destination, LookupFailure>,
)
    ensures
        resolution(printer, looked_up) matches Ok(target) ==> {
            &&& uri::queue_of(target.uri) matches Some(queue)
            &&& text::same_ignoring_ascii_case(queue, printer)
            &&& uri::resource_of(target.uri) == Some(target.resource)
        },
        resolution(printer, looked_up) matches Err(failure) ==> failure is NotSent,
{
}

/// A refused create is told apart from a lost one: only an answer that refuses
/// and names no job is a refusal, and no answer is never one.
pub proof fn law_refusal_is_not_silence(answered: Option<CreateAnswer>, message: Seq<char>)
    ensures
        created(answered, message) is Ok <==> (answered matches Some(answer) && successful(
            answer.status,
        )),
        created(answered, message) matches Err(failure) ==> (failure is Rejected <==> (answered
            matches Some(answer) && !(answer.job_id matches Some(id) && id > 0))),
        created(answered, message) matches Err(failure) ==> !(failure is NotSent),
{
}

/// A job's state is told only of a job on the printer it was asked for.
pub proof fn law_status_is_of_the_named_printer(job: JobIdView, answer: StatusAnswer)
    ensures
        status_of(job, answer) is Ok ==> {
            &&& answer matches StatusAnswer::Answered { printer_uri: Some(owner), .. }
            &&& uri::queue_of(owner@) matches Some(queue)
            &&& text::same_ignoring_ascii_case(queue, job.printer)
        },
{
}

/// What is told of a job follows from the scheduler's answer. If it succeeded
/// and names the job's own queue, the status is the one that IPP gives the
/// job-state it carries: 3 pending, 4 held, 5 processing, 6 stopped, 7
/// cancelled, 8 aborted, 9 completed, and unknown for any other number or
/// none. A job on another queue is a mismatch, one that the scheduler does not
/// know is not found, and every other answer is a failed query.
pub proof fn law_status_is_what_the_scheduler_answered(
    job: JobIdView,
    status: i64,
    printer_uri: Option<String>,
    job_state: Option<i32>,
)
    ensures
        ({
            let told = status_of(job, StatusAnswer::Answered { status, printer_uri, job_state });
            let queue = match printer_uri {
                Some(owner) => uri::queue_of(owner@),
                None => None,
            };
            let own = queue matches Some(name) && text::same_ignoring_ascii_case(
                name,
                job.printer,
            );
            let answered = 0 <= status <= 0xff;
            &&& answered && own ==> {
                &&& told matches Ok(state)
                &&& state is Pending <==> job_state == Some(3i32)
                &&& state is Held <==> job_state == Some(4i32)
                &&& state is Processing <==> job_state == Some(5i32)
                &&& state is Stopped <==> job_state == Some(6i32)
                &&& state is Canceled <==> job_state == Some(7i32)
                &&& state is Aborted <==> job_state == Some(8i32)
                &&& state is Completed <==> job_state == Some(9i32)
                &&& state is Unknown <==> !(job_state matches Some(number) && 3 <= number <= 9)
            }
            &&& told is Ok <==> answered && own
            &&& status == 0x0406 <==> told == Err::<ProviderJobStatus, ErrorView>(
                ErrorView::JobNotFound { job },
            )
            &&& answered && queue is Some && !own <==> (told matches Err(
                ErrorView::JobDestinationMismatch { job: named, reported_printer },
            ) && named == job && queue == Some(reported_printer))
            &&& (status != 0x0406 && !answered) || (answered && queue is None) <==> (told
                matches Err(ErrorView::JobStatusQueryFailed { job: named, .. }) && named == job)
        }),
{
}

/// A status query that was never sent or never answered tells no status, and
/// says why of this very job.
pub proof fn law_unanswered_query_tells_no_status(
    job: JobIdView,
    detail: String,
    message: String,
)
    ensures
        status_of(job, StatusAnswer::NotBuilt { detail }) matches Err(
            ErrorView::JobStatusQueryFailed { job: named, .. },
        ) && named == job,
        status_of(job, StatusAnswer::NoAnswer { message }) == Err::<ProviderJobStatus, ErrorView>(
            ErrorView::JobStatusQueryFailed {
                job,
                detail: "no answer from the scheduler: "@ + message@,
            },
        ),
{
}

/// The reason of a refusal, by the IPP status that was answered.
pub proof fn law_reasons_are_those_of_ipp(status: i64)
    ensures
        successful(status) <==> 0 <= status <= 255,
        reason_of(status) is NotFound <==> status == 0x0406 || status == 0x0407,
        reason_of(status) is NotAccepting <==> status == 0x0506,
        reason_of(status) is NotAuthorized <==> 0x0401 <= status <= 0x0403,
        reason_of(status) is NotPossible <==> status == 0x0404,
        reason_of(status) is DocumentFormatNotSupported <==> status == 0x040a,
        reason_of(status) is BadRequest <==> status == 0x0400 || status == 0x040b || status
            == 0x040e,
        says_nothing_there(status) <==> 0 <= status <= 255 || status == 0x0406 || status == 0x0407,
{
}

/// A verdict is a yes exactly for IPP's successful statuses, the ones with
/// ignored attributes among them, and otherwise a refusal with the reason of
/// the status and libcups' words at the end.
pub proof fn law_verdicts_follow_the_status(status: i64, message: Seq<char>)
    ensures
        verdict_of(status, message) is Ok <==> 0 <= status <= 255,
        verdict_of(status, message) matches Err(failure) ==> failure == refusal(status, message),
        refusal(status, message) matches FailureView::Rejected { reason, detail } && {
            &&& reason == reason_of(status)
            &&& detail == "scheduler answered "@ + status_chars(status) + ": "@ + message
        },
{
}

/// A request that was sent and not answered is no answer, one that never left
/// is not sent, and both keep what is known of them.
pub proof fn law_silence_is_not_a_refusal(
    context: Seq<char>,
    message: Seq<char>,
    detail: Seq<char>,
)
    ensures
        silence(context, message) == (FailureView::NoAnswer { detail: context + ": "@ + message }),
        unsent(detail) == FailureView::NotSent(ErrorView::InternalContractViolation { detail }),
{
}

/// A status reads as `0x` and its hexadecimal digits, four at least.
pub proof fn law_status_reads_in_hexadecimal(status: i64)
    requires
        0 <= status,
    ensures
        status_chars(status).len() >= 6,
        status_chars(status)[0] == '0',
        status_chars(status)[1] == 'x',
        status_chars(status).skip(2) == text::hex_chars(status as nat, 4),
{
    reveal_strlit("0x");
    text::law_hex_writes_the_number(status as nat, 4);
    assert(status_chars(status).skip(2) =~= text::hex_chars(status as nat, 4));
}

/// What a Create-Job was answered is passed on: an accepted job keeps its id,
/// or none if there is no usable one, and the names of everything that was
/// ignored; a refusal keeps the reason of its status.
pub proof fn law_create_answer_is_passed_on(answer: CreateAnswer, message: Seq<char>)
    ensures
        0 <= answer.status <= 255 ==> {
            &&& created(Some(answer), message) matches Ok(accepted)
            &&& accepted.ignored_attributes == unsupported_of(answer.attributes@)
            &&& answer.job_id matches Some(id) ==> (id >= 0 ==> accepted.job_id == id) && (id < 0
                ==> accepted.job_id == 0)
            &&& answer.job_id is None ==> accepted.job_id == 0
        },
        !(0 <= answer.status <= 255) ==> {
            &&& created(Some(answer), message) matches Err(failure)
            &&& (answer.job_id matches Some(id) && id > 0) ==> failure is NoAnswer
            &&& !(answer.job_id matches Some(id) && id > 0) ==> failure == refusal(
                answer.status,
                message,
            )
        },
        created(None, message) == Err::<AcceptedView, FailureView>(
            silence("no answer from the scheduler"@, message),
        ),
{
}

/// The ignored attributes are exactly the named ones of the unsupported group,
/// all of them and in order: two stretches of an answer give what each gives,
/// and a single attribute gives its name if it is of that group and has one.
pub proof fn law_ignored_attributes_are_all_reported(
    first: Seq<AnswerAttribute>,
    second: Seq<AnswerAttribute>,
    one: AnswerAttribute,
)
    ensures
        unsupported_of(first + second) == unsupported_of(first) + unsupported_of(second),
        unsupported_of(seq![one]) == (match one.name {
            Some(name) if one.group == 5 => seq![name@],
            _ => seq![],
        }),
        unsupported_of(seq![]) == Seq::<Seq<char>>::empty(),
    decreases second.len(),
{
    assert(seq![one].drop_last() =~= seq![]);
    assert(seq![one].last() == one);
    assert(unsupported_of(seq![]) =~= Seq::<Seq<char>>::empty());
    assert(Seq::<Seq<char>>::empty().push(one.name->Some_0@) =~= seq![one.name->Some_0@]);
    let whole = first + second;
    if second.len() > 0 {
        law_ignored_attributes_are_all_reported(first, second.drop_last(), one);
        assert(whole.drop_last() =~= first + second.drop_last());
        assert(whole.last() == second.last());
    } else {
        assert(whole =~= first);
    }
    assert(unsupported_of(whole) =~= unsupported_of(first) + unsupported_of(second));
}

/// A document is started exactly when HTTP says to go on. An answer before any
/// data is a refusal if it refuses, and anything else was not answered; data
/// that HTTP does not take was not answered either.
pub proof fn law_document_goes_on_only_when_told(
    http: i32,
    early: Option<i64>,
    message: Seq<char>,
)
    ensures
        start_outcome(http, early, message) is Ok <==> http == 100,
        write_outcome(http, message) is Ok <==> http == 100,
        start_outcome(http, early, message) matches Err(failure) ==> {
            let refused = http == 200 && (early matches Some(status) && !(0 <= status <= 255));
            &&& failure is Rejected <==> refused
            &&& failure is NoAnswer <==> !refused
            &&& refused ==> failure == refusal(early->Some_0, message)
        },
        write_outcome(http, message) matches Err(failure) ==> failure is NoAnswer,
{
}

/// A printer with a usable URI for its own name is found under that URI, and a
/// lookup that failed says so: missing when there is none, and not reachable
/// when the lookup itself failed.
pub proof fn law_own_queue_is_found(printer: Seq<char>, destination: Destination, why: String)
    ensures
        ({
            let resolved = resolution(printer, Ok(destination));
            let address = destination.option("printer-uri-supported"@);
            let own = address matches Some(uri) && !uri.contains('\0') && (uri::queue_of(uri)
                matches Some(queue) && text::same_ignoring_ascii_case(queue, printer));
            &&& resolved is Ok <==> own
            &&& resolved matches Ok(target) ==> address == Some(target.uri)
            &&& resolved matches Err(failure) ==> (failure matches FailureView::NotSent(cause)
                && cause is InternalContractViolation)
        }),
        resolution(printer, Err(LookupFailure::NotFound)) == Err::<TargetView, FailureView>(
            FailureView::NotSent(ErrorView::PrinterNotFound { printer }),
        ),
        resolution(printer, Err(LookupFailure::Failed(why))) == Err::<TargetView, FailureView>(
            FailureView::NotSent(
                ErrorView::ConnectionFailed {
                    detail: "could not look up "@ + printer + ": "@ + why@,
                },
            ),
        ),
{
}

/// The results of this module say what they are.
pub proof fn law_scheduler_results_say_what_they_are(
    resolved: Result<Target, MutationFailure>,
    status: ProviderResult<ProviderJobStatus>,
)
    ensures
        resolved matches Ok(target) ==> resolution_view(resolved) == Ok::<TargetView, FailureView>(
            target@,
        ),
        resolved matches Err(failure) ==> resolution_view(resolved) == Err::<
            TargetView,
            FailureView,
        >(failure@),
        status matches Ok(known) ==> status_view(status) == Ok::<ProviderJobStatus, ErrorView>(
            known,
        ),
        status matches Err(refusal) ==> status_view(status) == Err::<ProviderJobStatus, ErrorView>(
            refusal@,
        ),
{
}

/// A request fails without an answer exactly if there was none, and is refused
/// exactly if it was answered with a status that is not a success. It never
/// counts as unsent.
pub proof fn law_an_unanswered_request_is_not_refused(
    missing: Seq<char>,
    answered: Option<i64>,
    message: Seq<char>,
)
    ensures
        ({
            let told = answer_of(missing, answered, message);
            &&& told is Ok <==> (answered matches Some(status) && 0 <= status <= 255)
            &&& told matches Err(failure) ==> {
                &&& failure is NoAnswer <==> answered is None
                &&& failure is Rejected <==> answered is Some
                &&& failure matches FailureView::NoAnswer { detail } ==> detail == missing + ": "@
                    + message
                &&& failure matches FailureView::Rejected { reason, .. } ==> reason == reason_of(
                    answered->0,
                )
            }
        }),
{
}

/// A request goes to the path of the printer's own URI, and to nowhere else.
pub proof fn law_requests_go_to_the_path_of_the_uri(printer: Seq<char>, destination: Destination)
    ensures
        resolution(printer, Ok(destination)) matches Ok(target) ==> {
            &&& uri::resource_of(target.uri) == Some(target.resource)
            &&& uri::queue_of(target.uri) matches Some(queue)
            &&& text::same_ignoring_ascii_case(queue, printer)
        },
{
}

/// A printer to which nothing may be sent is told why: it has no URI, one that
/// names no queue, one that names another queue, or one that C cannot hold.
pub proof fn law_unusable_printers_are_told_why(printer: Seq<char>, destination: Destination)
    ensures
        resolution(printer, Ok(destination)) matches Err(failure) ==> failure == (match
            destination.option("printer-uri-supported"@) {
            None => unsent(printer + " has no printer-uri-supported"@),
            Some(address) => match uri::queue_of(address) {
                None => unsent(printer + " has an unusable printer URI "@ + address),
                Some(queue) => if text::same_ignoring_ascii_case(queue, printer) {
                    unsent("printer URI contains NUL"@)
                } else {
                    unsent(
                        printer + " resolved to a URI for "@ + queue
                            + "; refusing to send elsewhere"@,
                    )
                },
            },
        }),
{
}

/// A query that told no status says why: what could not be built, what the
/// scheduler answered, or what its answer lacked.
pub proof fn law_failed_queries_say_why(
    job: JobIdView,
    detail: String,
    status: i64,
    owner: String,
    job_state: Option<i32>,
)
    ensures
        status_of(job, StatusAnswer::NotBuilt { detail }) == Err::<ProviderJobStatus, ErrorView>(
            ErrorView::JobStatusQueryFailed {
                job,
                detail: "NotSent(InternalContractViolation { detail: "@ + text::debug_chars(detail@)
                    + " })"@,
            },
        ),
        !(0 <= status <= 255) && status != 0x0406 ==> status_of(
            job,
            StatusAnswer::Answered { status, printer_uri: Some(owner), job_state },
        ) == Err::<ProviderJobStatus, ErrorView>(
            ErrorView::JobStatusQueryFailed {
                job,
                detail: "scheduler answered "@ + status_chars(status),
            },
        ),
        0 <= status <= 255 ==> status_of(
            job,
            StatusAnswer::Answered { status, printer_uri: None, job_state },
        ) == Err::<ProviderJobStatus, ErrorView>(
            ErrorView::JobStatusQueryFailed { job, detail: "no job-printer-uri in the answer"@ },
        ),
        0 <= status <= 255 && uri::queue_of(owner@) is None ==> status_of(
            job,
            StatusAnswer::Answered { status, printer_uri: Some(owner), job_state },
        ) == Err::<ProviderJobStatus, ErrorView>(
            ErrorView::JobStatusQueryFailed {
                job,
                detail: "unrecognised job-printer-uri "@ + owner@,
            },
        ),
{
}

/// A transfer that stopped says at what: the HTTP status that came in place of
/// the go-ahead, or the answer that came too early. A refusal that names a job
/// is no refusal.
pub proof fn law_stopped_transfers_say_why(
    http: i32,
    early: Option<i64>,
    message: Seq<char>,
    answer: CreateAnswer,
)
    ensures
        http != 100 ==> write_outcome(http, message) == Err::<(), FailureView>(
            FailureView::NoAnswer {
                detail: "document write failed (HTTP "@ + text::signed_decimal_chars(http as int)
                    + ")"@ + ": "@ + message,
            },
        ),
        http != 100 && http != 200 ==> start_outcome(http, early, message) == Err::<
            (),
            FailureView,
        >(
            FailureView::NoAnswer {
                detail: "Send-Document not started (HTTP "@ + text::signed_decimal_chars(
                    http as int,
                ) + ")"@ + ": "@ + message,
            },
        ),
        http == 200 && (early is None || 0 <= early->0 <= 255) ==> start_outcome(
            http,
            early,
            message,
        ) == Err::<(), FailureView>(
            FailureView::NoAnswer {
                detail: "scheduler answered Send-Document early"@ + ": "@ + message,
            },
        ),
        !(0 <= answer.status <= 255) && answer.job_id is Some && answer.job_id->0 > 0 ==> created(
            Some(answer),
            message,
        ) == Err::<AcceptedView, FailureView>(
            FailureView::NoAnswer {
                detail: "refusal "@ + status_chars(answer.status) + " carried a job-id"@,
            },
        ),
{
}

/// A document is in progress exactly while HTTP says to go on: from a start
/// that it took, through every write that it took, under the resource that was
/// started.
pub proof fn law_a_document_is_open_while_http_goes_on(
    resource: Seq<char>,
    open: Option<Seq<char>>,
    http: i32,
    early: Option<i64>,
    message: Seq<char>,
)
    ensures
        http == 100 ==> open_after_start(resource, http, early, message) == Some(resource),
        http != 100 ==> open_after_start(resource, http, early, message) is None,
        http == 100 ==> open_after_write(open, http, message) == open,
        http != 100 ==> open_after_write(open, http, message) is None,
{
}

} // verus!
