//! A centralized error taxonomy: stable numeric codes with bilingual
//! reasons, a two-layer error value model, adapters from foreign error
//! sources, and a boundary responder that renders a structured payload.

pub mod define;
pub mod err;
pub mod query;
pub mod text;

use crate::text::append_escaped;
use crate::text::spec_escape;
use vstd::prelude::*;

verus! {

/// The body that the request-body decode-failure path produces: a fixed
/// generic parse-error payload, independent of the registry-driven path,
/// with the decode failure's rendered message under `status_text`. Its
/// keys stand in alphabetical order, as the original payload's did.
pub open spec fn spec_json_config_error_body(msg: Seq<char>) -> Seq<char> {
    "{\"error\":{\"details\":{\"desc\":\""@ + "json解析错误"@ + "\",\"status_text\":\""@
        + spec_escape(msg) + "\"},\"status\":500}}"@
}

/// Renders the decode-failure body for a rendered decode-error message.
pub fn json_config_error_body(err_msg: &str) -> (r: String)
    ensures
        r@ == spec_json_config_error_body(err_msg@),
{
    let mut out = String::new();
    out.append("{\"error\":{\"details\":{\"desc\":\"");
    out.append("json解析错误");
    out.append("\",\"status_text\":\"");
    append_escaped(&mut out, err_msg);
    out.append("\"},\"status\":500}}");
    proof {
        assert(out@ =~= spec_json_config_error_body(err_msg@));
    }
    out
}

} // verus!
