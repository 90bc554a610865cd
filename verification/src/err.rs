//! The boundary responder: a transport status with an optional described
//! error, rendered as the structured payload
//! `{"error":{"status":..,"details":[{"err_type":..,"desc":..}]}}`.
//! Rendering never fails; a responder with no attached error renders a
//! fixed fallback entry instead of an empty body.

use crate::define::DataBaseNotFound;
use crate::define::Error as StdError;
use crate::define::ExtraDescError;
use crate::define::InvalidMessageData;
use crate::define::UnexpectedErrorOccured;
use crate::define::is_registered;
use crate::define::spec_reason_en;
use crate::text::append_escaped;
use crate::text::spec_dec;
use crate::text::spec_escape;
use crate::text::u16_to_dec;
use vstd::prelude::*;

verus! {

/// The boundary responder. The status is set at construction; the
/// described error is attached afterwards through the setters.
#[derive(Debug)]
pub struct Error {
    pub real_error: Option<ExtraDescError>,
    pub status: u16,
}

/// One rendered entry of the payload: a classification string and the
/// free-form context.
#[derive(Debug, Clone)]
pub struct ErrorDetail {
    pub err_type: String,
    pub desc: String,
}

/// The inner wrapper of the payload: the transport status and the
/// rendered entries.
#[derive(Debug)]
pub struct ErrorWrapper {
    pub status: u16,
    pub details: Vec<ErrorDetail>,
}

/// The outermost payload shape: everything under one `error` key.
#[derive(Debug)]
pub struct ErrorOutTpl {
    pub error: ErrorWrapper,
}

/// The classification string the payload carries for a code: its English
/// reason, or a placeholder where an unregistered code reached rendering
/// (rendering must not fail at the boundary).
pub open spec fn spec_err_type(code: u16) -> Seq<char> {
    match spec_reason_en(code) {
        Some(s) => s,
        None => "unkown err"@,
    }
}

/// The rendered text of one entry.
pub open spec fn spec_detail_json(err_type: Seq<char>, desc: Seq<char>) -> Seq<char> {
    "{\"err_type\":\""@ + spec_escape(err_type) + "\",\"desc\":\""@ + spec_escape(desc) + "\"}"@
}

/// The rendered text of a sequence of entries, comma-separated.
pub open spec fn spec_details_json(ds: Seq<ErrorDetail>) -> Seq<char>
    decreases ds.len(),
{
    if ds.len() == 0 {
        Seq::empty()
    } else if ds.len() == 1 {
        spec_detail_json(ds[0].err_type@, ds[0].desc@)
    } else {
        spec_details_json(ds.drop_last()) + ","@ + spec_detail_json(
            ds.last().err_type@,
            ds.last().desc@,
        )
    }
}

/// The rendered text of the inner wrapper.
pub open spec fn spec_wrapper_json(status: u16, ds: Seq<ErrorDetail>) -> Seq<char> {
    "{\"status\":"@ + spec_dec(status as nat) + ",\"details\":["@ + spec_details_json(ds) + "]}"@
}

/// The rendered text of the whole payload.
pub open spec fn spec_tpl_json(status: u16, ds: Seq<ErrorDetail>) -> Seq<char> {
    "{\"error\":"@ + spec_wrapper_json(status, ds) + "}"@
}

/// The payload of a status with exactly one entry.
pub open spec fn spec_payload(status: u16, err_type: Seq<char>, desc: Seq<char>) -> Seq<char> {
    "{\"error\":"@ + ("{\"status\":"@ + spec_dec(status as nat) + ",\"details\":["@
        + spec_detail_json(err_type, desc) + "]}"@) + "}"@
}

/// What a responder renders to: the payload of its own status and its
/// attached entry, or of the fixed fallback entry when none is attached.
pub open spec fn spec_error_response(e: Error) -> Seq<char> {
    match e.real_error {
        Some(x) => spec_payload(e.status, spec_err_type(x.err.0), x.desc@),
        None => spec_payload(
            e.status,
            spec_err_type(UnexpectedErrorOccured),
            "发生意外错误"@,
        ),
    }
}

impl ErrorWrapper {
    /// Builds the wrapper of a responder: exactly one entry when a
    /// described error is attached — its English reason (or the
    /// placeholder) and its description — and none otherwise.
    pub fn new_from_error(err: &Error) -> (w: ErrorWrapper)
        ensures
            w.status == err.status,
            match err.real_error {
                Some(x) => w.details@.len() == 1 && w.details@[0].err_type@ == spec_err_type(
                    x.err.0,
                ) && w.details@[0].desc@ == x.desc@,
                None => w.details@.len() == 0,
            },
    {
        match &err.real_error {
            Some(real_error) => {
                let err_type = match real_error.err.reason_en() {
                    Some(s) => String::from_str(s),
                    None => String::from_str("unkown err"),
                };
                let err_detail = ErrorDetail { err_type, desc: real_error.desc.clone() };
                let mut details: Vec<ErrorDetail> = Vec::new();
                details.push(err_detail);
                ErrorWrapper { status: err.status, details }
            },
            None => ErrorWrapper { status: err.status, details: Vec::new() },
        }
    }
}

impl ErrorOutTpl {
    /// Builds the whole payload shape of a responder.
    pub fn new_from_error(err: &Error) -> (t: ErrorOutTpl)
        ensures
            t.error.status == err.status,
            match err.real_error {
                Some(x) => t.error.details@.len() == 1 && t.error.details@[0].err_type@
                    == spec_err_type(x.err.0) && t.error.details@[0].desc@ == x.desc@,
                None => t.error.details@.len() == 0,
            },
    {
        ErrorOutTpl { error: ErrorWrapper::new_from_error(err) }
    }

    /// Renders this payload to its JSON text.
    pub fn to_json(&self) -> (r: String)
        ensures
            r@ == spec_tpl_json(self.error.status, self.error.details@),
    {
        let mut out = String::new();
        out.append("{\"error\":");
        out.append("{\"status\":");
        let d = u16_to_dec(self.error.status);
        out.append(d.as_str());
        out.append(",\"details\":[");
        let ghost prefix: Seq<char> = out@;
        let n = self.error.details.len();
        let mut i: usize = 0;
        while i < n
            invariant
                i <= n,
                n == self.error.details@.len(),
                out@ == prefix + spec_details_json(self.error.details@.take(i as int)),
            decreases n - i,
        {
            if i > 0 {
                out.append(",");
            }
            append_detail_json(&mut out, &self.error.details[i]);
            proof {
                let ds = self.error.details@;
                assert(ds.take(i as int + 1).drop_last() =~= ds.take(i as int));
                assert(ds.take(i as int + 1).last() == ds[i as int]);
                if i > 0 {
                    assert(out@ =~= prefix + spec_details_json(ds.take(i as int + 1)));
                } else {
                    assert(ds.take(1).len() == 1);
                    assert(out@ =~= prefix + spec_details_json(ds.take(1)));
                }
            }
            i = i + 1;
        }
        out.append("]}");
        out.append("}");
        proof {
            assert(self.error.details@.take(n as int) =~= self.error.details@);
            assert(out@ =~= spec_tpl_json(self.error.status, self.error.details@));
        }
        out
    }
}

fn append_detail_json(out: &mut String, d: &ErrorDetail)
    ensures
        final(out)@ == old(out)@ + spec_detail_json(d.err_type@, d.desc@),
{
    out.append("{\"err_type\":\"");
    append_escaped(out, d.err_type.as_str());
    out.append("\",\"desc\":\"");
    append_escaped(out, d.desc.as_str());
    out.append("\"}");
    proof {
        assert(out@ =~= old(out)@ + spec_detail_json(d.err_type@, d.desc@));
    }
}

impl Error {
    /// A responder with this transport status and no attached error.
    pub fn new(code: u16) -> (r: Error)
        ensures
            r.status == code,
            r.real_error is None,
    {
        Error { real_error: None, status: code }
    }

    /// Attaches a described error.
    pub fn err(self, e: ExtraDescError) -> (r: Error)
        ensures
            r.status == self.status,
            r.real_error == Some(e),
    {
        Error { real_error: Some(e), status: self.status }
    }

    /// Attaches a "result not found" error with the given context.
    pub fn not_find(self, msg: &str) -> (r: Error)
        ensures
            r.status == self.status,
            r.real_error matches Some(x) && x.err.0 == DataBaseNotFound && x.desc@ == msg@,
    {
        Error { real_error: Some(StdError(DataBaseNotFound).from_desc(msg)), status: self.status }
    }

    /// Attaches an "invalid message data" error with the given context.
    pub fn invalid_data(self, msg: &str) -> (r: Error)
        ensures
            r.status == self.status,
            r.real_error matches Some(x) && x.err.0 == InvalidMessageData && x.desc@ == msg@,
    {
        Error { real_error: Some(StdError(InvalidMessageData).from_desc(msg)), status: self.status }
    }

    /// Adapter for failures of the transport layer itself (a malformed
    /// character encoding, a stream failure while building the
    /// response): a responder with the internal-server-class status and
    /// a generic "invalid message data" entry carrying the failure's
    /// rendered message.
    pub fn transport_failure(msg: &str) -> (r: Error)
        ensures
            r.status == 500,
            r.real_error matches Some(x) && x.err.0 == InvalidMessageData && x.desc@ == msg@,
    {
        Error::new(500).invalid_data(msg)
    }

    /// The transport status this responder was constructed with.
    pub fn status_code(&self) -> (s: u16)
        ensures
            s == self.status,
    {
        self.status
    }

    /// Renders the boundary payload. Rendering never fails: with no
    /// attached error it substitutes the fixed fallback entry, so every
    /// boundary failure yields a non-empty, schema-consistent body.
    pub fn error_response(&self) -> (r: String)
        ensures
            r@ == spec_error_response(*self),
    {
        match &self.real_error {
            Some(_) => {
                let tpl = ErrorOutTpl::new_from_error(self);
                let r = tpl.to_json();
                proof {
                    let ds = tpl.error.details@;
                    assert(spec_details_json(ds) == spec_detail_json(
                        ds[0].err_type@,
                        ds[0].desc@,
                    ));
                    assert(r@ =~= spec_error_response(*self));
                }
                r
            },
            None => {
                let err_ext = StdError(UnexpectedErrorOccured).from_desc("发生意外错误");
                let err = Error { status: self.status, real_error: Some(err_ext) };
                let tpl = ErrorOutTpl::new_from_error(&err);
                let r = tpl.to_json();
                proof {
                    let ds = tpl.error.details@;
                    assert(spec_details_json(ds) == spec_detail_json(
                        ds[0].err_type@,
                        ds[0].desc@,
                    ));
                    assert(r@ =~= spec_error_response(*self));
                }
                r
            },
        }
    }
}

/// Round trip: a responder with an attached described error renders to
/// the payload that carries exactly its own status, one entry, the
/// English reason of the attached code, and the attached description.
pub proof fn lemma_render_round_trip(e: Error, x: ExtraDescError)
    requires
        e.real_error == Some(x),
    ensures
        spec_error_response(e) == spec_payload(e.status, spec_err_type(x.err.0), x.desc@),
        is_registered(x.err.0) ==> spec_reason_en(x.err.0) == Some(spec_err_type(x.err.0)),
{
}

/// Idempotence: what a responder renders to is a function of the
/// responder alone, so two renderings of the same unmodified responder
/// are identical.
pub proof fn lemma_render_idempotent(e: Error, r1: Seq<char>, r2: Seq<char>)
    requires
        r1 == spec_error_response(e),
        r2 == spec_error_response(e),
    ensures
        r1 == r2,
{
}

} // verus!
