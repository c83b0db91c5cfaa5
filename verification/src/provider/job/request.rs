//! The IPP requests of the job lifecycle, as plain data.
//!
//! Each request names its operation, the scheduler resource it goes to and its
//! attributes in order, typed. Whoever talks to the scheduler copies them into
//! an IPP message one for one.

use vstd::prelude::*;
use vstd::slice::slice_to_vec;
use vstd::string::*;

use crate::constants;
use crate::provider::error::ErrorView;
use crate::provider::job::backend::{FailureView, MutationFailure};
use crate::provider::job::cups_backend::{not_sent, Target, TargetView};
use crate::provider::job::options::{
    self, AttributeValue, JobAttribute, JobAttributeView, JobValueView,
};
use crate::provider::job::types::{JobIdView, ProviderJobId};
use crate::text::{self, contains_char, decimal};

verus! {

/// One attribute of a request, or one member of a collection.
#[derive(Debug, PartialEq, Eq)]
pub struct IppField {
    pub group: u32,
    pub tag: u32,
    pub name: String,
    pub value: FieldValue,
}

#[derive(Debug, PartialEq, Eq)]
pub enum FieldValue {
    Integer(i32),
    Boolean(bool),
    Text(String),
    /// Text in whatever encoding it came in.
    Octets(Vec<u8>),
    Collection(Vec<IppField>),
}

/// What an [`IppField`] says.
pub struct FieldView {
    pub group: u32,
    pub tag: u32,
    pub name: Seq<char>,
    pub value: FieldValueView,
}

/// What a [`FieldValue`] says.
pub enum FieldValueView {
    Integer(i32),
    Boolean(bool),
    Text(Seq<char>),
    Octets(Seq<u8>),
    Collection(Seq<FieldView>),
}

/// What a value says.
pub open spec fn field_value_of(value: FieldValue) -> FieldValueView
    decreases value,
{
    match value {
        FieldValue::Integer(number) => FieldValueView::Integer(number),
        FieldValue::Boolean(truth) => FieldValueView::Boolean(truth),
        FieldValue::Text(text) => FieldValueView::Text(text@),
        FieldValue::Octets(octets) => FieldValueView::Octets(octets@),
        FieldValue::Collection(members) => FieldValueView::Collection(
            Seq::new(
                members@.len(),
                |i: int|
                    if 0 <= i < members@.len() {
                        FieldView {
                            group: members@[i].group,
                            tag: members@[i].tag,
                            name: members@[i].name@,
                            value: field_value_of(members@[i].value),
                        }
                    } else {
                        arbitrary()
                    },
            ),
        ),
    }
}

impl View for IppField {
    type V = FieldView;

    open spec fn view(&self) -> FieldView {
        FieldView {
            group: self.group,
            tag: self.tag,
            name: self.name@,
            value: field_value_of(self.value),
        }
    }
}

/// What a list of fields says.
pub open spec fn field_views(list: Seq<IppField>) -> Seq<FieldView> {
    list.map_values(|field: IppField| field@)
}

/// A request to the scheduler.
#[derive(Debug, PartialEq, Eq)]
pub struct IppRequest {
    pub operation: u32,
    pub resource: String,
    pub fields: Vec<IppField>,
}

/// What an [`IppRequest`] says.
pub struct RequestView {
    pub operation: u32,
    pub resource: Seq<char>,
    pub fields: Seq<FieldView>,
}

impl View for IppRequest {
    type V = RequestView;

    open spec fn view(&self) -> RequestView {
        RequestView {
            operation: self.operation,
            resource: self.resource@,
            fields: field_views(self.fields@),
        }
    }
}

/// The failure of a request that C cannot hold.
pub open spec fn holds_nul() -> FailureView {
    FailureView::NotSent(ErrorView::InternalContractViolation { detail: "value contains NUL"@ })
}

/// Whether an attribute's name, or a keyword anywhere in it, contains a NUL.
pub open spec fn carries_nul(attribute: JobAttributeView) -> bool
    decreases attribute,
{
    ||| attribute.name.contains('\0')
    ||| match attribute.value {
        JobValueView::Keyword(keyword) => keyword.contains('\0'),
        JobValueView::Collection(members) => exists|i: int|
            0 <= i < members.len() && carries_nul(#[trigger] members[i]),
        _ => false,
    }
}

/// Whether any attribute of a list carries a NUL.
pub open spec fn any_carries_nul(attributes: Seq<JobAttributeView>) -> bool {
    exists|i: int| 0 <= i < attributes.len() && carries_nul(#[trigger] attributes[i])
}

/// A job attribute as a field of `group`. Collection members carry no group of
/// their own.
pub open spec fn field_of(group: u32, attribute: JobAttributeView) -> FieldView
    decreases attribute,
{
    let (tag, value) = match attribute.value {
        JobValueView::Integer(number) => (
            constants::IPP_TAG_INTEGER,
            FieldValueView::Integer(number),
        ),
        JobValueView::Enum(number) => (constants::IPP_TAG_ENUM, FieldValueView::Integer(number)),
        JobValueView::Keyword(keyword) => (
            constants::IPP_TAG_KEYWORD,
            FieldValueView::Text(keyword),
        ),
        JobValueView::Collection(members) => (
            constants::IPP_TAG_BEGIN_COLLECTION,
            FieldValueView::Collection(
                Seq::new(
                    members.len(),
                    |i: int|
                        if 0 <= i < members.len() {
                            field_of(constants::IPP_TAG_ZERO, members[i])
                        } else {
                            arbitrary()
                        },
                ),
            ),
        ),
    };
    FieldView { group, tag, name: attribute.name, value }
}

/// Job attributes as fields of the job group, in the same order.
pub open spec fn job_fields(attributes: Seq<JobAttributeView>) -> Seq<FieldView> {
    attributes.map_values(|attribute: JobAttributeView| field_of(constants::IPP_TAG_JOB, attribute))
}

/// A text field of the operation group.
pub open spec fn operation_text(tag: u32, name: Seq<char>, value: Seq<char>) -> FieldView {
    FieldView {
        group: constants::IPP_TAG_OPERATION,
        tag,
        name,
        value: FieldValueView::Text(value),
    }
}

/// `fields`, followed by the user the request is made for, if known. The name
/// is passed on byte for byte.
pub open spec fn with_user(fields: Seq<FieldView>, user: Option<Seq<u8>>) -> Seq<FieldView> {
    match user {
        Some(name) => fields.push(
            FieldView {
                group: constants::IPP_TAG_OPERATION,
                tag: constants::IPP_TAG_NAME,
                name: "requesting-user-name"@,
                value: FieldValueView::Octets(name),
            },
        ),
        None => fields,
    }
}

/// `printer-uri` plus `requesting-user-name`, as libcups' own requests carry
/// them.
pub open spec fn target_fields(uri: Seq<char>, user: Option<Seq<u8>>) -> Seq<FieldView> {
    with_user(seq![operation_text(constants::IPP_TAG_URI, "printer-uri"@, uri)], user)
}

/// The job itself. cupsd ignores the host part of a job URI.
pub open spec fn job_uri(job: JobIdView) -> Seq<char> {
    "ipp://localhost/jobs/"@ + text::decimal_chars(job.job_id as nat)
}

/// `job-uri` plus `requesting-user-name`.
pub open spec fn job_uri_fields(job: JobIdView, user: Option<Seq<u8>>) -> Seq<FieldView> {
    with_user(seq![operation_text(constants::IPP_TAG_URI, "job-uri"@, job_uri(job))], user)
}

/// The `job-id` field.
pub open spec fn job_id_field(job: JobIdView) -> FieldView {
    FieldView {
        group: constants::IPP_TAG_OPERATION,
        tag: constants::IPP_TAG_INTEGER,
        name: "job-id"@,
        value: FieldValueView::Integer(job.job_id as i32),
    }
}

/// Create-Job: the target, the title unless it is empty, and every attribute.
pub open spec fn create_view(
    target: TargetView,
    user: Option<Seq<u8>>,
    title: Seq<char>,
    attributes: Seq<JobAttributeView>,
) -> RequestView {
    let addressed = target_fields(target.uri, user);
    let titled = if title.len() > 0 {
        addressed.push(operation_text(constants::IPP_TAG_NAME, "job-name"@, title))
    } else {
        addressed
    };
    RequestView {
        operation: constants::IPP_OP_CREATE_JOB,
        resource: target.resource,
        fields: titled + job_fields(attributes),
    }
}

/// Send-Document of one PDF. It is never marked as the last document: the job
/// stays held until Close-Job, so a submission that fails part-way never
/// starts printing.
pub open spec fn send_document_view(
    target: TargetView,
    user: Option<Seq<u8>>,
    job: JobIdView,
) -> RequestView {
    RequestView {
        operation: constants::IPP_OP_SEND_DOCUMENT,
        resource: target.resource,
        fields: target_fields(target.uri, user).push(job_id_field(job)).push(
            operation_text(constants::IPP_TAG_MIMETYPE, "document-format"@, "application/pdf"@),
        ).push(
            FieldView {
                group: constants::IPP_TAG_OPERATION,
                tag: constants::IPP_TAG_BOOLEAN,
                name: "last-document"@,
                value: FieldValueView::Boolean(false),
            },
        ),
    }
}

/// Close-Job. cupsd accepts it only with `printer-uri` and `job-id`.
pub open spec fn close_view(
    target: TargetView,
    user: Option<Seq<u8>>,
    job: JobIdView,
) -> RequestView {
    RequestView {
        operation: constants::IPP_OP_CLOSE_JOB,
        resource: target.resource,
        fields: target_fields(target.uri, user).push(job_id_field(job)),
    }
}

/// A request about the job itself, sent to the scheduler's resource for jobs.
pub open spec fn about_job_view(
    operation: u32,
    user: Option<Seq<u8>>,
    job: JobIdView,
) -> RequestView {
    RequestView { operation, resource: "/jobs/"@, fields: job_uri_fields(job, user) }
}

/// The Cancel-Job request for a job.
pub open spec fn cancel_view(user: Option<Seq<u8>>, job: JobIdView) -> RequestView {
    about_job_view(constants::IPP_OP_CANCEL_JOB, user, job)
}

/// The Get-Job-Attributes request for a job.
pub open spec fn query_view(user: Option<Seq<u8>>, job: JobIdView) -> RequestView {
    about_job_view(constants::IPP_OP_GET_JOB_ATTRIBUTES, user, job)
}

/// What an optional user name says.
pub open spec fn user_view(user: Option<&[u8]>) -> Option<Seq<u8>> {
    match user {
        Some(name) => Some(name@),
        None => None,
    }
}

/// Whether an optional user name can be handed to C.
pub open spec fn user_fits(user: Option<&[u8]>) -> bool {
    user matches Some(name) ==> !name@.contains(0u8)
}

fn text_field(tag: u32, name: &str, value: &str) -> (field: IppField)
    ensures
        field@ == operation_text(tag, name@, value@),
{
    IppField {
        group: constants::IPP_TAG_OPERATION,
        tag,
        name: name.to_string(),
        value: FieldValue::Text(value.to_string()),
    }
}

fn job_id_of(job: &ProviderJobId) -> (field: IppField)
    ensures
        field@ == job_id_field(job@),
{
    IppField {
        group: constants::IPP_TAG_OPERATION,
        tag: constants::IPP_TAG_INTEGER,
        name: "job-id".to_string(),
        value: FieldValue::Integer(job.as_cups_id()),
    }
}

fn followed_by(fields: Vec<IppField>, field: IppField) -> (longer: Vec<IppField>)
    ensures
        field_views(longer@) == field_views(fields@).push(field@),
{
    let mut longer = fields;
    longer.push(field);
    assert(field_views(longer@) =~= field_views(fields@).push(field@));
    longer
}

fn has_nul(octets: &[u8]) -> (found: bool)
    ensures
        found == octets@.contains(0u8),
{
    let mut at: usize = 0;
    while at < octets.len()
        invariant
            at <= octets@.len(),
            forall|i: int| 0 <= i < at ==> octets@[i] != 0u8,
        decreases octets@.len() - at,
    {
        if octets[at] == 0 {
            assert(octets@[at as int] == 0u8);
            return true;
        }
        at += 1;
    }
    false
}

fn addressed_to(field: &str, uri: &str, user: Option<&[u8]>) -> (fields: Result<
    Vec<IppField>,
    MutationFailure,
>)
    ensures
        fields is Ok == user_fits(user),
        fields matches Ok(list) ==> field_views(list@) == with_user(
            seq![operation_text(constants::IPP_TAG_URI, field@, uri@)],
            user_view(user),
        ),
        fields matches Err(failure) ==> failure@ == holds_nul(),
{
    let fields = vec![text_field(constants::IPP_TAG_URI, field, uri)];
    assert(field_views(fields@) =~= seq![operation_text(constants::IPP_TAG_URI, field@, uri@)]);
    match user {
        None => Ok(fields),
        Some(name) => {
            if has_nul(name) {
                return Err(not_sent("value contains NUL"));
            }
            Ok(
                followed_by(
                    fields,
                    IppField {
                        group: constants::IPP_TAG_OPERATION,
                        tag: constants::IPP_TAG_NAME,
                        name: "requesting-user-name".to_string(),
                        value: FieldValue::Octets(slice_to_vec(name)),
                    },
                ),
            )
        },
    }
}

/// A job attribute as a field of `group`, refused if C cannot hold it.
pub fn add_attribute(group: u32, attribute: &JobAttribute) -> (field: Result<
    IppField,
    MutationFailure,
>)
    ensures
        field is Ok == !carries_nul(attribute@),
        field matches Ok(built) ==> built@ == field_of(group, attribute@),
        field matches Err(failure) ==> failure@ == holds_nul(),
{
    encode(group, attribute.name, &attribute.value)
}

fn encode(group: u32, name: &'static str, value: &AttributeValue) -> (field: Result<
    IppField,
    MutationFailure,
>)
    ensures
        ({
            let attribute = JobAttributeView { name: name@, value: options::value_of(*value) };
            &&& field is Ok == !carries_nul(attribute)
            &&& field matches Ok(built) ==> built@ == field_of(group, attribute)
        }),
        field matches Err(failure) ==> failure@ == holds_nul(),
    decreases *value,
{
    if contains_char(name, '\0') {
        return Err(not_sent("value contains NUL"));
    }
    let (tag, encoded): (u32, FieldValue) = match value {
        AttributeValue::Integer(number) => (
            constants::IPP_TAG_INTEGER,
            FieldValue::Integer(*number),
        ),
        AttributeValue::Enum(number) => (constants::IPP_TAG_ENUM, FieldValue::Integer(*number)),
        AttributeValue::Keyword(keyword) => {
            if contains_char(keyword.as_str(), '\0') {
                return Err(not_sent("value contains NUL"));
            }
            (constants::IPP_TAG_KEYWORD, FieldValue::Text(keyword.clone()))
        },
        AttributeValue::Collection(members) => {
            let ghost said = options::value_of(*value)->Collection_0;
            let mut fields: Vec<IppField> = Vec::new();
            let mut i: usize = 0;
            while i < members.len()
                invariant
                    *value == AttributeValue::Collection(*members),
                    said == options::value_of(*value)->Collection_0,
                    said.len() == members@.len(),
                    i <= members@.len(),
                    fields@.len() == i,
                    forall|j: int|
                        0 <= j < i ==> {
                            &&& !carries_nul(#[trigger] said[j])
                            &&& fields@[j]@ == field_of(constants::IPP_TAG_ZERO, said[j])
                        },
                decreases members@.len() - i,
            {
                proof {
                    let member = members@[i as int];
                    assert(decreases_to!(*value => value->Collection_0));
                    assert(decreases_to!(*members => members@));
                    assert(decreases_to!(members@ => members@[i as int]));
                    assert(decreases_to!(member => member.value));
                    assert(said[i as int] == member@);
                }
                match encode(constants::IPP_TAG_ZERO, members[i].name, &members[i].value) {
                    Ok(field) => {
                        fields.push(field);
                    },
                    Err(failure) => {
                        proof {
                            let whole = JobAttributeView {
                                name: name@,
                                value: options::value_of(*value),
                            };
                            assert(whole.value == JobValueView::Collection(said));
                            assert(carries_nul(said[i as int]));
                            assert(carries_nul(whole));
                        }
                        return Err(failure);
                    },
                }
                i += 1;
            }
            let collection = FieldValue::Collection(fields);
            proof {
                let attribute = JobAttributeView { name: name@, value: options::value_of(*value) };
                let made = field_value_of(collection)->Collection_0;
                assert forall|j: int| 0 <= j < made.len() implies #[trigger] made[j] == field_of(
                    group,
                    attribute,
                ).value->Collection_0[j] by {
                    assert(!carries_nul(said[j]));
                    assert(made[j] == fields@[j]@);
                }
                assert(made =~= field_of(group, attribute).value->Collection_0);
            }
            (constants::IPP_TAG_BEGIN_COLLECTION, collection)
        },
    };
    Ok(IppField { group, tag, name: name.to_string(), value: encoded })
}

/// The Create-Job request. Nothing is left out: an attribute that C cannot
/// hold refuses the whole request.
pub fn create_request(
    target: &Target,
    user: Option<&[u8]>,
    title: &str,
    attributes: &[JobAttribute],
) -> (request: Result<IppRequest, MutationFailure>)
    ensures
        request is Ok == (user_fits(user) && !title@.contains('\0') && !any_carries_nul(
            options::attribute_views(attributes@),
        )),
        request matches Ok(built) ==> built@ == create_view(
            target@,
            user_view(user),
            title@,
            options::attribute_views(attributes@),
        ),
        request matches Err(failure) ==> failure@ == holds_nul(),
{
    let ghost said = options::attribute_views(attributes@);
    let mut fields = match addressed_to("printer-uri", target.uri(), user) {
        Ok(fields) => fields,
        Err(failure) => return Err(failure),
    };
    if title.unicode_len() > 0 {
        if contains_char(title, '\0') {
            return Err(not_sent("value contains NUL"));
        }
        fields = followed_by(fields, text_field(constants::IPP_TAG_NAME, "job-name", title));
    }
    let ghost head = field_views(fields@);
    assert(!title@.contains('\0'));
    assert(head + job_fields(said.take(0)) =~= head);
    let mut i: usize = 0;
    while i < attributes.len()
        invariant
            i <= attributes@.len(),
            said == options::attribute_views(attributes@),
            forall|j: int| 0 <= j < i ==> !carries_nul(#[trigger] said[j]),
            field_views(fields@) == head + job_fields(said.take(i as int)),
        decreases attributes@.len() - i,
    {
        assert(said[i as int] == attributes@[i as int]@);
        match add_attribute(constants::IPP_TAG_JOB, &attributes[i]) {
            Ok(field) => {
                fields = followed_by(fields, field);
                assert(head + job_fields(said.take(i + 1)) =~= (head + job_fields(
                    said.take(i as int),
                )).push(field@));
            },
            Err(failure) => {
                assert(carries_nul(said[i as int]));
                return Err(failure);
            },
        }
        i += 1;
    }
    assert(said.take(i as int) == said);
    Ok(
        IppRequest {
            operation: constants::IPP_OP_CREATE_JOB,
            resource: target.resource().to_string(),
            fields,
        },
    )
}

/// The Send-Document request that begins the job's single PDF document.
pub fn send_document_request(target: &Target, user: Option<&[u8]>, job: &ProviderJobId) -> (request:
    Result<IppRequest, MutationFailure>)
    ensures
        request is Ok == user_fits(user),
        request matches Ok(built) ==> built@ == send_document_view(
            target@,
            user_view(user),
            job@,
        ),
        request matches Err(failure) ==> failure@ == holds_nul(),
{
    let addressed = match addressed_to("printer-uri", target.uri(), user) {
        Ok(fields) => fields,
        Err(failure) => return Err(failure),
    };
    let named = followed_by(addressed, job_id_of(job));
    let typed = followed_by(
        named,
        text_field(constants::IPP_TAG_MIMETYPE, "document-format", "application/pdf"),
    );
    let fields = followed_by(
        typed,
        IppField {
            group: constants::IPP_TAG_OPERATION,
            tag: constants::IPP_TAG_BOOLEAN,
            name: "last-document".to_string(),
            value: FieldValue::Boolean(false),
        },
    );
    Ok(
        IppRequest {
            operation: constants::IPP_OP_SEND_DOCUMENT,
            resource: target.resource().to_string(),
            fields,
        },
    )
}

/// The Close-Job request.
pub fn close_request(target: &Target, user: Option<&[u8]>, job: &ProviderJobId) -> (request: Result<
    IppRequest,
    MutationFailure,
>)
    ensures
        request is Ok == user_fits(user),
        request matches Ok(built) ==> built@ == close_view(target@, user_view(user), job@),
        request matches Err(failure) ==> failure@ == holds_nul(),
{
    let addressed = match addressed_to("printer-uri", target.uri(), user) {
        Ok(fields) => fields,
        Err(failure) => return Err(failure),
    };
    Ok(
        IppRequest {
            operation: constants::IPP_OP_CLOSE_JOB,
            resource: target.resource().to_string(),
            fields: followed_by(addressed, job_id_of(job)),
        },
    )
}

fn about_job(operation: u32, user: Option<&[u8]>, job: &ProviderJobId) -> (request: Result<
    IppRequest,
    MutationFailure,
>)
    ensures
        request is Ok == user_fits(user),
        request matches Ok(built) ==> built@ == about_job_view(operation, user_view(user), job@),
        request matches Err(failure) ==> failure@ == holds_nul(),
{
    let uri = "ipp://localhost/jobs/".to_string().concat(
        decimal(job.scheduler_job_id() as u64).as_str(),
    );
    match addressed_to("job-uri", uri.as_str(), user) {
        Ok(fields) => Ok(IppRequest { operation, resource: "/jobs/".to_string(), fields }),
        Err(failure) => Err(failure),
    }
}

/// The Cancel-Job request.
pub fn cancel_request(user: Option<&[u8]>, job: &ProviderJobId) -> (request: Result<
    IppRequest,
    MutationFailure,
>)
    ensures
        request is Ok == user_fits(user),
        request matches Ok(built) ==> built@ == cancel_view(user_view(user), job@),
        request matches Err(failure) ==> failure@ == holds_nul(),
{
    about_job(constants::IPP_OP_CANCEL_JOB, user, job)
}

/// The Get-Job-Attributes request. It changes nothing, so its error is only
/// why it could not be built.
pub fn status_request(user: Option<&[u8]>, job: &ProviderJobId) -> (request: Result<
    IppRequest,
    String,
>)
    ensures
        request is Ok == user_fits(user),
        request matches Ok(built) ==> built@ == query_view(user_view(user), job@),
        request matches Err(detail) ==> detail@ == "value contains NUL"@,
{
    match about_job(constants::IPP_OP_GET_JOB_ATTRIBUTES, user, job) {
        Ok(request) => Ok(request),
        Err(_) => Err("value contains NUL".to_string()),
    }
}

/// Every requested attribute reaches the request, once and in order, after the
/// fields that address it.
pub proof fn law_create_carries_every_attribute(
    target: TargetView,
    user: Option<Seq<u8>>,
    title: Seq<char>,
    attributes: Seq<JobAttributeView>,
    i: int,
)
    requires
        0 <= i < attributes.len(),
    ensures
        ({
            let fields = create_view(target, user, title, attributes).fields;
            let first = fields.len() - attributes.len();
            &&& 1 <= first <= 3
            &&& fields[first + i] == field_of(constants::IPP_TAG_JOB, attributes[i])
            &&& fields[first + i].name == attributes[i].name
        }),
{
}

/// A document is never sent as the last one, so sending it starts nothing.
pub proof fn law_document_is_never_the_last(
    target: TargetView,
    user: Option<Seq<u8>>,
    job: JobIdView,
)
    ensures
        send_document_view(target, user, job).fields.last() == (FieldView {
            group: constants::IPP_TAG_OPERATION,
            tag: constants::IPP_TAG_BOOLEAN,
            name: "last-document"@,
            value: FieldValueView::Boolean(false),
        }),
{
}

/// A job attribute becomes a field of the same name in the given group, with
/// the tag of its kind and its value unchanged. A collection keeps every
/// member: member by member, in order, each again the field of that member,
/// with no group of its own.
pub proof fn law_attribute_is_encoded_whole(group: u32, attribute: JobAttributeView)
    ensures
        ({
            let field = field_of(group, attribute);
            &&& field.group == group
            &&& field.name == attribute.name
            &&& attribute.value matches JobValueView::Integer(number) ==> field.tag == 0x21
                && field.value == FieldValueView::Integer(number)
            &&& attribute.value matches JobValueView::Enum(number) ==> field.tag == 0x23
                && field.value == FieldValueView::Integer(number)
            &&& attribute.value matches JobValueView::Keyword(keyword) ==> field.tag == 0x44
                && field.value == FieldValueView::Text(keyword)
            &&& attribute.value matches JobValueView::Collection(members) ==> {
                &&& field.tag == 0x34
                &&& field.value matches FieldValueView::Collection(fields)
                &&& fields.len() == members.len()
                &&& forall|i: int|
                    0 <= i < members.len() ==> {
                        let inner = #[trigger] fields[i];
                        let member = members[i];
                        &&& inner == field_of(0, member)
                        &&& inner.group == 0
                        &&& inner.name == member.name
                        &&& member.value matches JobValueView::Integer(number) ==> inner.tag
                            == 0x21 && inner.value == FieldValueView::Integer(number)
                        &&& member.value matches JobValueView::Enum(number) ==> inner.tag == 0x23
                            && inner.value == FieldValueView::Integer(number)
                        &&& member.value matches JobValueView::Keyword(keyword) ==> inner.tag
                            == 0x44 && inner.value == FieldValueView::Text(keyword)
                        &&& member.value matches JobValueView::Collection(deeper) ==> inner.tag
                            == 0x34 && (inner.value matches FieldValueView::Collection(below)
                            && below.len() == deeper.len())
                    }
            }
        }),
{
    if let JobValueView::Collection(members) = attribute.value {
        let fields = field_of(group, attribute).value->Collection_0;
        assert forall|i: int| 0 <= i < members.len() implies {
            let inner = #[trigger] fields[i];
            let member = members[i];
            &&& inner == field_of(0, member)
            &&& inner.group == 0
            &&& inner.name == member.name
            &&& member.value matches JobValueView::Collection(deeper) ==> inner.tag == 0x34 && (
            inner.value matches FieldValueView::Collection(below) && below.len() == deeper.len())
        } by {
            assert(fields[i] == field_of(0, members[i]));
            law_member_is_encoded(members[i]);
        }
        assert forall|i: int| 0 <= i < members.len() implies {
            let inner = #[trigger] fields[i];
            let member = members[i];
            &&& member.value matches JobValueView::Integer(number) ==> inner.tag == 0x21
                && inner.value == FieldValueView::Integer(number)
            &&& member.value matches JobValueView::Enum(number) ==> inner.tag == 0x23
                && inner.value == FieldValueView::Integer(number)
            &&& member.value matches JobValueView::Keyword(keyword) ==> inner.tag == 0x44
                && inner.value == FieldValueView::Text(keyword)
        } by {
            assert(fields[i] == field_of(0, members[i]));
            law_member_is_encoded(members[i]);
        }
    }
}

/// A member of a collection keeps its name, the tag of its kind, its value and
/// the number of its own members.
pub proof fn law_member_is_encoded(member: JobAttributeView)
    ensures
        ({
            let inner = field_of(0, member);
            &&& inner.group == 0
            &&& inner.name == member.name
            &&& member.value matches JobValueView::Integer(number) ==> inner.tag == 0x21
                && inner.value == FieldValueView::Integer(number)
            &&& member.value matches JobValueView::Enum(number) ==> inner.tag == 0x23
                && inner.value == FieldValueView::Integer(number)
            &&& member.value matches JobValueView::Keyword(keyword) ==> inner.tag == 0x44
                && inner.value == FieldValueView::Text(keyword)
            &&& member.value matches JobValueView::Collection(deeper) ==> inner.tag == 0x34 && (
            inner.value matches FieldValueView::Collection(below) && below.len() == deeper.len())
        }),
{
}

/// Different attributes make different fields: nothing that was asked for can
/// be lost or changed on the way, however deep it lies.
pub proof fn law_encoding_loses_nothing(
    group: u32,
    attribute: JobAttributeView,
    other: JobAttributeView,
)
    requires
        field_of(group, attribute) == field_of(group, other),
    ensures
        attribute == other,
    decreases attribute,
{
    law_attribute_is_encoded_whole(group, attribute);
    law_attribute_is_encoded_whole(group, other);
    if let JobValueView::Collection(members) = attribute.value {
        let others = other.value->Collection_0;
        let fields = field_of(group, attribute).value->Collection_0;
        assert(other.value is Collection);
        assert forall|i: int| 0 <= i < members.len() implies members[i] == others[i] by {
            assert(fields[i] == field_of(0, members[i]));
            assert(fields[i] == field_of(0, others[i]));
            law_encoding_loses_nothing(0, members[i], others[i]);
        }
        assert(members =~= others);
    }
}

/// A Create-Job is addressed to the target's URI, names the user if one is
/// known and the title if there is one, and then holds one field of the job
/// group for each attribute, and nothing else.
pub proof fn law_create_is_addressed_and_complete(
    target: TargetView,
    user: Option<Seq<u8>>,
    title: Seq<char>,
    attributes: Seq<JobAttributeView>,
)
    ensures
        ({
            let request = create_view(target, user, title, attributes);
            let fields = request.fields;
            let named = if user is Some { 1int } else { 0int };
            let titled = if title.len() > 0 { 1int } else { 0int };
            &&& request.operation == 0x0005
            &&& request.resource == target.resource
            &&& fields.len() == 1 + named + titled + attributes.len()
            &&& fields[0] == (FieldView {
                group: 1,
                tag: 0x45,
                name: "printer-uri"@,
                value: FieldValueView::Text(target.uri),
            })
            &&& user matches Some(name) ==> fields[1] == (FieldView {
                group: 1,
                tag: 0x42,
                name: "requesting-user-name"@,
                value: FieldValueView::Octets(name),
            })
            &&& title.len() > 0 ==> fields[1 + named] == (FieldView {
                group: 1,
                tag: 0x42,
                name: "job-name"@,
                value: FieldValueView::Text(title),
            })
            &&& forall|i: int|
                0 <= i < attributes.len() ==> {
                    let field = #[trigger] fields[1 + named + titled + i];
                    field.group == 2 && field.name == attributes[i].name && field == field_of(
                        2,
                        attributes[i],
                    )
                }
        }),
{
    let request = create_view(target, user, title, attributes);
    let named = if user is Some { 1int } else { 0int };
    let titled = if title.len() > 0 { 1int } else { 0int };
    assert forall|i: int| 0 <= i < attributes.len() implies {
        let field = #[trigger] request.fields[1 + named + titled + i];
        field.group == 2 && field.name == attributes[i].name && field == field_of(2, attributes[i])
    } by {
        law_create_carries_every_attribute(target, user, title, attributes, i);
    }
}

/// A Send-Document is addressed to the target, names the user if one is known
/// and the job by its id, announces a PDF that is not the last document, and
/// holds nothing else.
pub proof fn law_send_document_is_complete(
    target: TargetView,
    user: Option<Seq<u8>>,
    job: JobIdView,
)
    requires
        job.job_id <= i32::MAX,
    ensures
        ({
            let request = send_document_view(target, user, job);
            let fields = request.fields;
            let named = if user is Some { 1int } else { 0int };
            &&& request.operation == 0x0006
            &&& request.resource == target.resource
            &&& fields.len() == 4 + named
            &&& fields[0] == (FieldView {
                group: 1,
                tag: 0x45,
                name: "printer-uri"@,
                value: FieldValueView::Text(target.uri),
            })
            &&& user matches Some(name) ==> fields[1] == (FieldView {
                group: 1,
                tag: 0x42,
                name: "requesting-user-name"@,
                value: FieldValueView::Octets(name),
            })
            &&& fields[1 + named].group == 1 && fields[1 + named].tag == 0x21
            &&& fields[1 + named].name == "job-id"@
            &&& (fields[1 + named].value matches FieldValueView::Integer(id) && id == job.job_id)
            &&& fields[2 + named] == (FieldView {
                group: 1,
                tag: 0x49,
                name: "document-format"@,
                value: FieldValueView::Text("application/pdf"@),
            })
            &&& fields[3 + named] == (FieldView {
                group: 1,
                tag: 0x22,
                name: "last-document"@,
                value: FieldValueView::Boolean(false),
            })
        }),
{
}

/// A Close-Job is addressed to the target, names the user if one is known and
/// the job by its id, and holds nothing else.
pub proof fn law_close_names_the_job(target: TargetView, user: Option<Seq<u8>>, job: JobIdView)
    requires
        job.job_id <= i32::MAX,
    ensures
        ({
            let request = close_view(target, user, job);
            let fields = request.fields;
            let named = if user is Some { 1int } else { 0int };
            &&& request.operation == 0x003b
            &&& request.resource == target.resource
            &&& fields.len() == 2 + named
            &&& fields[0] == (FieldView {
                group: 1,
                tag: 0x45,
                name: "printer-uri"@,
                value: FieldValueView::Text(target.uri),
            })
            &&& user matches Some(name) ==> fields[1] == (FieldView {
                group: 1,
                tag: 0x42,
                name: "requesting-user-name"@,
                value: FieldValueView::Octets(name),
            })
            &&& fields.last().group == 1 && fields.last().tag == 0x21
            &&& fields.last().name == "job-id"@
            &&& (fields.last().value matches FieldValueView::Integer(id) && id == job.job_id)
        }),
{
}

/// A cancel and a status query name the job by its own URI, which ends in the
/// scheduler's number for it, and go to the resource for jobs. They differ only
/// in the operation.
pub proof fn law_job_requests_name_the_job(
    operation: u32,
    user: Option<Seq<u8>>,
    job: JobIdView,
)
    ensures
        ({
            let request = about_job_view(operation, user, job);
            let fields = request.fields;
            let named = if user is Some { 1int } else { 0int };
            &&& request.operation == operation
            &&& request.resource == "/jobs/"@
            &&& fields.len() == 1 + named
            &&& fields[0].group == 1 && fields[0].tag == 0x45
            &&& fields[0].name == "job-uri"@
            &&& fields[0].value == FieldValueView::Text(
                "ipp://localhost/jobs/"@ + text::decimal_chars(job.job_id as nat),
            )
            &&& user matches Some(name) ==> fields[1] == (FieldView {
                group: 1,
                tag: 0x42,
                name: "requesting-user-name"@,
                value: FieldValueView::Octets(name),
            })
        }),
        constants::IPP_OP_CANCEL_JOB == 0x0008,
        constants::IPP_OP_GET_JOB_ATTRIBUTES == 0x0009,
{
}

/// A request is refused for a NUL exactly when one lies in a name or a keyword,
/// at any depth.
pub proof fn law_nul_is_found_at_any_depth(attribute: JobAttributeView, list: Seq<JobAttributeView>)
    ensures
        attribute.name.contains('\0') ==> carries_nul(attribute),
        !attribute.name.contains('\0') ==> (carries_nul(attribute) <==> match attribute.value {
            JobValueView::Integer(_) => false,
            JobValueView::Enum(_) => false,
            JobValueView::Keyword(keyword) => keyword.contains('\0'),
            JobValueView::Collection(members) => any_carries_nul(members),
        }),
        any_carries_nul(list) <==> exists|i: int|
            0 <= i < list.len() && carries_nul(#[trigger] list[i]),
        holds_nul() is NotSent,
{
}

/// A field says what it is: where it stands, what it is called and what it
/// carries, member by member.
pub proof fn law_field_says_what_it_is(field: IppField)
    ensures
        field@.group == field.group,
        field@.tag == field.tag,
        field@.name == field.name@,
        field.value matches FieldValue::Integer(number) ==> field@.value
            == FieldValueView::Integer(number),
        field.value matches FieldValue::Boolean(truth) ==> field@.value
            == FieldValueView::Boolean(truth),
        field.value matches FieldValue::Text(text) ==> field@.value == FieldValueView::Text(text@),
        field.value matches FieldValue::Octets(octets) ==> field@.value
            == FieldValueView::Octets(octets@),
        field.value matches FieldValue::Collection(members) ==> {
            &&& field@.value matches FieldValueView::Collection(said)
            &&& said.len() == members@.len()
            &&& forall|i: int| 0 <= i < members@.len() ==> #[trigger] said[i] == members@[i]@
        },
{
}

/// A request says what it is: its operation, where it goes, and every field.
pub proof fn law_request_says_what_it_is(request: IppRequest)
    ensures
        request@.operation == request.operation,
        request@.resource == request.resource@,
        request@.fields.len() == request.fields@.len(),
        forall|i: int|
            0 <= i < request.fields@.len() ==> #[trigger] request@.fields[i]
                == request.fields@[i]@,
{
}

/// A cancel is Cancel-Job and a status query Get-Job-Attributes, both about the
/// same job: but for the operation they are the same request.
pub proof fn law_a_query_never_cancels(user: Option<Seq<u8>>, job: JobIdView)
    ensures
        cancel_view(user, job).operation == 0x0008,
        query_view(user, job).operation == 0x0009,
        cancel_view(user, job).resource == query_view(user, job).resource,
        cancel_view(user, job).fields == query_view(user, job).fields,
        cancel_view(user, job).fields[0].value == FieldValueView::Text(
            "ipp://localhost/jobs/"@ + text::decimal_chars(job.job_id as nat),
        ),
{
}

/// A user name is sent byte for byte, and can be sent exactly if no byte of it
/// is NUL. No name is no hindrance.
pub proof fn law_user_names_are_sent_as_they_are(user: Option<&[u8]>)
    ensures
        user is None ==> user_view(user) is None && user_fits(user),
        user matches Some(name) ==> {
            &&& user_view(user) == Some(name@)
            &&& user_fits(user) <==> forall|i: int| 0 <= i < name@.len() ==> #[trigger] name@[i]
                != 0
        },
        holds_nul() == FailureView::NotSent(
            ErrorView::InternalContractViolation { detail: "value contains NUL"@ },
        ),
{
    if let Some(name) = user {
        if name@.contains(0u8) {
            let i = choose|i: int| 0 <= i < name@.len() && name@[i] == 0u8;
            assert(name@[i] == 0);
        }
    }
}

} // verus!
