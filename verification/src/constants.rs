//! Numbers fixed by CUPS and IPP, identical in CUPS 2 and CUPS 3.

use vstd::prelude::*;

verus! {

/// Media flags (`cups/cups.h`).
pub const MEDIA_FLAGS_DEFAULT: u32 = 0x00;
pub const MEDIA_FLAGS_BORDERLESS: u32 = 0x01;
pub const MEDIA_FLAGS_DUPLEX: u32 = 0x02;
pub const MEDIA_FLAGS_EXACT: u32 = 0x04;
pub const MEDIA_FLAGS_READY: u32 = 0x08;

/// Group tags of IPP messages (RFC 8010).
pub const IPP_TAG_ZERO: u32 = 0x00;
pub const IPP_TAG_OPERATION: u32 = 0x01;
pub const IPP_TAG_JOB: u32 = 0x02;
pub const IPP_TAG_UNSUPPORTED_GROUP: u32 = 0x05;

/// Value tags of IPP attributes (RFC 8010).
pub const IPP_TAG_UNSUPPORTED_VALUE: u32 = 0x10;
pub const IPP_TAG_UNKNOWN: u32 = 0x12;
pub const IPP_TAG_NOVALUE: u32 = 0x13;
pub const IPP_TAG_INTEGER: u32 = 0x21;
pub const IPP_TAG_BOOLEAN: u32 = 0x22;
pub const IPP_TAG_ENUM: u32 = 0x23;
pub const IPP_TAG_RESOLUTION: u32 = 0x32;
pub const IPP_TAG_RANGE: u32 = 0x33;
pub const IPP_TAG_BEGIN_COLLECTION: u32 = 0x34;
pub const IPP_TAG_TEXTLANG: u32 = 0x35;
pub const IPP_TAG_NAMELANG: u32 = 0x36;
pub const IPP_TAG_TEXT: u32 = 0x41;
pub const IPP_TAG_NAME: u32 = 0x42;
pub const IPP_TAG_KEYWORD: u32 = 0x44;
pub const IPP_TAG_URI: u32 = 0x45;
pub const IPP_TAG_CHARSET: u32 = 0x47;
pub const IPP_TAG_LANGUAGE: u32 = 0x48;
pub const IPP_TAG_MIMETYPE: u32 = 0x49;

/// Units of an IPP resolution.
pub const IPP_RES_PER_INCH: i32 = 3;
pub const IPP_RES_PER_CM: i32 = 4;

/// IPP `job-state` values (RFC 8011, 5.3.7).
pub const IPP_JSTATE_PENDING: i32 = 3;
pub const IPP_JSTATE_HELD: i32 = 4;
pub const IPP_JSTATE_PROCESSING: i32 = 5;
pub const IPP_JSTATE_STOPPED: i32 = 6;
pub const IPP_JSTATE_CANCELED: i32 = 7;
pub const IPP_JSTATE_ABORTED: i32 = 8;
pub const IPP_JSTATE_COMPLETED: i32 = 9;

/// IPP operations the job lifecycle uses.
pub const IPP_OP_CREATE_JOB: u32 = 0x0005;
pub const IPP_OP_SEND_DOCUMENT: u32 = 0x0006;
pub const IPP_OP_CANCEL_JOB: u32 = 0x0008;
pub const IPP_OP_GET_JOB_ATTRIBUTES: u32 = 0x0009;
pub const IPP_OP_CLOSE_JOB: u32 = 0x003b;

/// IPP status codes the provider tells apart (RFC 8011, appendix B).
pub const IPP_STATUS_ERROR_BAD_REQUEST: i64 = 0x0400;
pub const IPP_STATUS_ERROR_FORBIDDEN: i64 = 0x0401;
pub const IPP_STATUS_ERROR_NOT_AUTHENTICATED: i64 = 0x0402;
pub const IPP_STATUS_ERROR_NOT_AUTHORIZED: i64 = 0x0403;
pub const IPP_STATUS_ERROR_NOT_POSSIBLE: i64 = 0x0404;
pub const IPP_STATUS_ERROR_NOT_FOUND: i64 = 0x0406;
pub const IPP_STATUS_ERROR_GONE: i64 = 0x0407;
pub const IPP_STATUS_ERROR_DOCUMENT_FORMAT_NOT_SUPPORTED: i64 = 0x040a;
pub const IPP_STATUS_ERROR_ATTRIBUTES_OR_VALUES: i64 = 0x040b;
pub const IPP_STATUS_ERROR_CONFLICTING: i64 = 0x040e;
pub const IPP_STATUS_ERROR_NOT_ACCEPTING_JOBS: i64 = 0x0506;

/// HTTP answers to a streamed request.
pub const HTTP_STATUS_CONTINUE: i32 = 100;
pub const HTTP_STATUS_OK: i32 = 200;

} // verus!
