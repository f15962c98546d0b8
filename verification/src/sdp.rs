//! Bridges between JSEP descriptions and str0m's SDP offers.
use vstd::prelude::*;
use vstd::string::StringExecFns;
use crate::types::{Jsep, JsepType};

verus! {

#[verifier::external_type_specification]
#[verifier::external_body]
pub struct ExSdpOffer(str0m::change::SdpOffer);

/// The error text with which str0m refuses `sdp` as an SDP offer; `None`
/// when it accepts it.
pub uninterp spec fn sdp_offer_error(sdp: Seq<char>) -> Option<Seq<char>>;

/// An SDP offer parsed by str0m.
///
/// Calls `str0m::change::SdpOffer::from_sdp_string` and, on failure, hands
/// out the error's text. The parse is a function of the text alone; the
/// contract names its outcome and says no more of what str0m accepts.
#[verifier::external_body]
pub(crate) fn str0m_offer(sdp: &str) -> (r: Result<str0m::change::SdpOffer, String>)
    ensures
        (r is Ok) == (sdp_offer_error(sdp@) is None),
        r matches Err(m) ==> sdp_offer_error(sdp@) == Some(m@),
{
    str0m::change::SdpOffer::from_sdp_string(sdp).map_err(|e| e.to_string())
}

/// Parses a browser's SDP offer.
pub fn parse_sdp_offer(sdp: &str) -> (r: Result<str0m::change::SdpOffer, String>)
    ensures
        (r is Ok) == (sdp_offer_error(sdp@) is None),
        r matches Err(m) ==> m@ == "Failed to parse SDP offer: "@ + sdp_offer_error(sdp@).unwrap(),
{
    match str0m_offer(sdp) {
        Ok(o) => Ok(o),
        Err(e) => Err("Failed to parse SDP offer: ".to_owned().concat(e.as_str())),
    }
}

/// The SDP offer of a JSEP offer; an answer is refused.
pub fn jsep_to_sdp_offer(jsep: &Jsep) -> (r: Result<str0m::change::SdpOffer, String>)
    ensures
        jsep.jsep_type != JsepType::Offer ==> (r matches Err(m) && m@ == "Expected JSEP offer, got answer"@),
        jsep.jsep_type == JsepType::Offer ==> (r is Ok) == (sdp_offer_error(jsep.sdp@) is None),
        jsep.jsep_type == JsepType::Offer ==> (r matches Err(m) ==> m@ == "Failed to parse SDP offer: "@ + sdp_offer_error(jsep.sdp@).unwrap()),
{
    if jsep.jsep_type != JsepType::Offer {
        return Err("Expected JSEP offer, got answer".to_owned());
    }
    parse_sdp_offer(jsep.sdp.as_str())
}

/// A JSEP answer with the given SDP.
pub fn sdp_answer_to_jsep(sdp: String, trickle: bool) -> (j: Jsep)
    ensures
        j == (Jsep { jsep_type: JsepType::Answer, sdp, trickle }),
{
    Jsep { jsep_type: JsepType::Answer, sdp, trickle }
}

/// A JSEP offer with the given SDP.
pub fn sdp_offer_to_jsep(sdp: String, trickle: bool) -> (j: Jsep)
    ensures
        j == (Jsep { jsep_type: JsepType::Offer, sdp, trickle }),
{
    Jsep { jsep_type: JsepType::Offer, sdp, trickle }
}

} // verus!
