//! Translation of inbound event notifications into queue requests: each
//! named channel maps to one request shape, and anything unrecognized is
//! ignored.

use vstd::prelude::*;
use vstd::string::StringExecFns;
use crate::queue::{RenderQueueRequest, RenderQueueRequestView};
use crate::strutil::str_eq;

verus! {

/// The queue effect of one notification, by channel name: a fresh
/// random animation, a persisted job re-rendered as an animation or as a
/// still, or nothing for a channel this core does not know.
pub open spec fn spec_dispatch(channel: Seq<char>, payload: Seq<char>) -> Option<
    RenderQueueRequestView,
> {
    if channel == "generate_random"@ {
        Some(RenderQueueRequestView::RandomAnimated)
    } else if channel == "queue_parameters"@ {
        Some(RenderQueueRequestView::ParameterizedAnimated(payload))
    } else if channel == "queue_still"@ {
        Some(RenderQueueRequestView::ParameterizedStill(payload))
    } else {
        None
    }
}

/// Turns one notification into the request it enqueues, or `None` for
/// an unrecognized channel, which the event loop logs and ignores.
pub fn dispatch_notification(channel: &str, payload: &str) -> (r: Option<RenderQueueRequest>)
    ensures
        r matches Some(q) ==> spec_dispatch(channel@, payload@) == Some(q@),
        r is None <==> spec_dispatch(channel@, payload@) is None,
{
    if str_eq(channel, "generate_random") {
        Some(RenderQueueRequest::RandomAnimated)
    } else if str_eq(channel, "queue_parameters") {
        Some(RenderQueueRequest::ParameterizedAnimated(String::from_str(payload)))
    } else if str_eq(channel, "queue_still") {
        Some(RenderQueueRequest::ParameterizedStill(String::from_str(payload)))
    } else {
        None
    }
}

} // verus!
