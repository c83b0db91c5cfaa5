use cups_rs::constants;
use cups_rs::destination::{Destination, DestinationOption};
use cups_rs::provider::job::backend::MutationFailure;
use cups_rs::provider::job::cups_backend::{resolve, Target};
use cups_rs::provider::job::options::{AttributeValue, JobAttribute};
use cups_rs::provider::job::request::{
    cancel_request, close_request, create_request, send_document_request, status_request,
    FieldValue, IppField, IppRequest,
};
use cups_rs::provider::job::types::ProviderJobId;

fn target() -> Target {
    resolve(
        "Canon",
        Ok(Destination {
            name: "Canon".into(),
            instance: None,
            is_default: false,
            options: vec![DestinationOption {
                name: "printer-uri-supported".into(),
                value: "ipp://localhost/printers/Canon".into(),
            }],
        }),
    )
    .expect("own queue")
}

fn job() -> ProviderJobId {
    ProviderJobId::new("Canon", 7).expect("valid")
}

fn text(tag: u32, name: &str, value: &str) -> IppField {
    IppField {
        group: constants::IPP_TAG_OPERATION,
        tag,
        name: name.into(),
        value: FieldValue::Text(value.into()),
    }
}

fn printer_uri() -> IppField {
    text(
        constants::IPP_TAG_URI,
        "printer-uri",
        "ipp://localhost/printers/Canon",
    )
}

fn user() -> IppField {
    IppField {
        group: constants::IPP_TAG_OPERATION,
        tag: constants::IPP_TAG_NAME,
        name: "requesting-user-name".into(),
        value: FieldValue::Octets(b"nenga".to_vec()),
    }
}

fn job_id() -> IppField {
    IppField {
        group: constants::IPP_TAG_OPERATION,
        tag: constants::IPP_TAG_INTEGER,
        name: "job-id".into(),
        value: FieldValue::Integer(7),
    }
}

fn refused<T>(request: Result<T, MutationFailure>) -> bool {
    matches!(request, Err(MutationFailure::NotSent(_)))
}

#[test]
fn a_create_carries_title_and_typed_attributes() {
    let attributes = vec![
        JobAttribute::new("copies", AttributeValue::Integer(1)),
        JobAttribute::new("print-quality", AttributeValue::Enum(5)),
        JobAttribute::new(
            "media-col",
            AttributeValue::Collection(vec![JobAttribute::new(
                "media-type",
                AttributeValue::Keyword("stationery".into()),
            )]),
        ),
    ];
    let field = |tag, name: &str, value| IppField {
        group: constants::IPP_TAG_JOB,
        tag,
        name: name.into(),
        value,
    };
    assert_eq!(
        create_request(&target(), Some(b"nenga".as_slice()), "postcard", &attributes),
        Ok(IppRequest {
            operation: constants::IPP_OP_CREATE_JOB,
            resource: "/printers/Canon".into(),
            fields: vec![
                printer_uri(),
                user(),
                text(constants::IPP_TAG_NAME, "job-name", "postcard"),
                field(constants::IPP_TAG_INTEGER, "copies", FieldValue::Integer(1)),
                field(
                    constants::IPP_TAG_ENUM,
                    "print-quality",
                    FieldValue::Integer(5)
                ),
                field(
                    constants::IPP_TAG_BEGIN_COLLECTION,
                    "media-col",
                    FieldValue::Collection(vec![IppField {
                        group: constants::IPP_TAG_ZERO,
                        tag: constants::IPP_TAG_KEYWORD,
                        name: "media-type".into(),
                        value: FieldValue::Text("stationery".into()),
                    }])
                ),
            ],
        })
    );
}

#[test]
fn an_empty_title_and_an_unknown_user_are_left_out() {
    assert_eq!(
        create_request(&target(), None, "", &[])
            .expect("built")
            .fields,
        vec![printer_uri()]
    );
}

#[test]
fn what_c_cannot_hold_refuses_the_whole_request() {
    assert!(refused(create_request(&target(), None, "a\0b", &[])));
    assert!(refused(create_request(&target(), Some(b"u\0".as_slice()), "t", &[])));
    let nested = JobAttribute::new(
        "media-col",
        AttributeValue::Collection(vec![JobAttribute::new(
            "media-type",
            AttributeValue::Keyword("st\0ry".into()),
        )]),
    );
    assert!(refused(create_request(&target(), None, "t", &[nested])));
    assert!(refused(close_request(&target(), Some(b"\0".as_slice()), &job())));
}

#[test]
fn a_document_is_a_pdf_and_not_the_last() {
    assert_eq!(
        send_document_request(&target(), Some(b"nenga".as_slice()), &job()),
        Ok(IppRequest {
            operation: constants::IPP_OP_SEND_DOCUMENT,
            resource: "/printers/Canon".into(),
            fields: vec![
                printer_uri(),
                user(),
                job_id(),
                text(
                    constants::IPP_TAG_MIMETYPE,
                    "document-format",
                    "application/pdf"
                ),
                IppField {
                    group: constants::IPP_TAG_OPERATION,
                    tag: constants::IPP_TAG_BOOLEAN,
                    name: "last-document".into(),
                    value: FieldValue::Boolean(false),
                },
            ],
        })
    );
}

#[test]
fn closing_names_the_printer_and_the_job() {
    assert_eq!(
        close_request(&target(), Some(b"nenga".as_slice()), &job()),
        Ok(IppRequest {
            operation: constants::IPP_OP_CLOSE_JOB,
            resource: "/printers/Canon".into(),
            fields: vec![printer_uri(), user(), job_id()],
        })
    );
}

#[test]
fn cancel_and_status_address_the_job_itself() {
    for (request, operation) in [
        (
            cancel_request(Some(b"nenga".as_slice()), &job()).ok(),
            constants::IPP_OP_CANCEL_JOB,
        ),
        (
            status_request(Some(b"nenga".as_slice()), &job()).ok(),
            constants::IPP_OP_GET_JOB_ATTRIBUTES,
        ),
    ] {
        assert_eq!(
            request,
            Some(IppRequest {
                operation,
                resource: "/jobs/".into(),
                fields: vec![
                    text(
                        constants::IPP_TAG_URI,
                        "job-uri",
                        "ipp://localhost/jobs/7"
                    ),
                    user()
                ],
            })
        );
    }
}

#[test]
fn a_user_name_in_another_encoding_is_passed_on_byte_for_byte() {
    let latin1 = b"m\xfcller".as_slice();
    let request = cancel_request(Some(latin1), &job()).expect("fits");
    assert_eq!(
        request.fields[1].value,
        FieldValue::Octets(latin1.to_vec())
    );
    assert_eq!(
        status_request(Some(b"\0".as_slice()), &job()),
        Err("value contains NUL".into())
    );
}
