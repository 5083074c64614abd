//! Routing a resolved (or unresolved) request to its protocol renderer.
//!
//! Only a resolved domain reaches a renderer, and only a rendered request is
//! counted: an unconfigured domain is forwarded, a missing host is a client
//! error and an unreachable store is a service error.
use vstd::prelude::*;
use crate::autoconfig::{autoconfig, client_config_body, malformed_body};
use crate::autodiscover::{autodiscover, error_body, reply_body};
use crate::host::{views, HostInfo, Resolution};
use crate::mta_sts::{mta_sts, policy};
use crate::scan::{first_address_is, has_address};
use crate::service::{ContentKind, Protocol, ServiceStat};

verus! {

/// A request on one of the protocol routes, with what that protocol reads of it.
pub enum Route {
    MtaSts,
    Autodiscover { body: String, now_micros: u128 },
    Autoconfig { emailaddress: Option<String> },
}

impl Route {
    pub open spec fn protocol(self) -> Protocol {
        match self {
            Route::MtaSts => Protocol::MtaSts,
            Route::Autodiscover { .. } => Protocol::Autodiscover,
            Route::Autoconfig { .. } => Protocol::Autoconfig,
        }
    }
}

/// How a request on a protocol route ends.
pub enum Served {
    /// Not this domain: let another handler take the request.
    Forward,
    /// An HTTP error status with no body.
    Fail(u16),
    /// A rendered response: status, content type and body.
    Reply(u16, ContentKind, String),
}

/// The counts after a request of protocol `p`, rendered or not.
pub open spec fn step(stat: ServiceStat, p: Protocol, rendered: bool) -> ServiceStat {
    if rendered {
        stat.counted(p)
    } else {
        stat
    }
}

/// The counts after `reqs` (protocol, rendered) in order, from `stat`.
pub open spec fn run(stat: ServiceStat, reqs: Seq<(Protocol, bool)>) -> ServiceStat
    decreases reqs.len(),
{
    if reqs.len() == 0 {
        stat
    } else {
        step(run(stat, reqs.drop_last()), reqs.last().0, reqs.last().1)
    }
}

/// The number of requests of protocol `p` in `reqs` that were rendered.
pub open spec fn rendered_count(reqs: Seq<(Protocol, bool)>, p: Protocol) -> nat
    decreases reqs.len(),
{
    if reqs.len() == 0 {
        0
    } else {
        rendered_count(reqs.drop_last(), p) + if reqs.last().1 && reqs.last().0 == p {
            1nat
        } else {
            0nat
        }
    }
}

/// The response `r` is what the renderer of `route` gives for a resolved `info`.
pub open spec fn rendered_as(route: Route, info: HostInfo, r: Served) -> bool {
    match route {
        Route::MtaSts => r matches Served::Reply(s, k, b) && s == 200 && k == ContentKind::Text
            && b@ == policy(info.sts_mode@, views(info.sts_mx@)),
        Route::Autodiscover { body, now_micros } => r matches Served::Reply(s, k, b) && s == 200
            && k == ContentKind::Xml && (!has_address(body@) ==> b@ == error_body(now_micros)) && (
        has_address(body@) ==> exists|a: Seq<char>|
            first_address_is(body@, a) && b@ == reply_body(info, Some(a), now_micros)),
        Route::Autoconfig { emailaddress } => match emailaddress {
            None => r matches Served::Reply(s, k, b) && s == 400 && k == ContentKind::Xml && b@
                == malformed_body(),
            Some(a) => r matches Served::Reply(s, k, b) && s == 200 && k == ContentKind::Xml && b@
                == client_config_body(info, a@),
        },
    }
}

/// Serves `route` for the outcome `res` of resolving the request's domain.
/// An unconfigured domain is forwarded, a missing host fails with 400 and an
/// unreachable store with 503, none of them counted and none rendered; a
/// resolved domain is rendered by its protocol and counted under it alone.
pub fn serve(route: Route, res: Resolution, stat: &mut ServiceStat) -> (r: Served)
    ensures
        *final(stat) == step(*old(stat), route.protocol(), res is Resolved),
        res is Unconfigured ==> r is Forward,
        res is HostMissing ==> r == Served::Fail(400),
        res is StoreUnavailable ==> r == Served::Fail(503),
        res matches Resolution::Resolved(info) ==> rendered_as(route, info, r),
{
    match res {
        Resolution::Unconfigured => Served::Forward,
        Resolution::HostMissing => Served::Fail(400),
        Resolution::StoreUnavailable => Served::Fail(503),
        Resolution::Resolved(info) => {
            let (status, (kind, body)) = match route {
                Route::MtaSts => mta_sts(info, stat),
                Route::Autodiscover { body, now_micros } => autodiscover(
                    info,
                    body,
                    now_micros,
                    stat,
                ),
                Route::Autoconfig { emailaddress } => autoconfig(emailaddress, info, stat),
            };
            Served::Reply(status, kind, body)
        },
    }
}

/// However requests on the three protocols interleave, each count ends equal
/// to the number of requests of its protocol that were rendered, as long as
/// no count wraps.
pub proof fn lemma_counts_match_rendered(reqs: Seq<(Protocol, bool)>)
    requires
        reqs.len() < u64::MAX,
    ensures
        forall|p: Protocol|
            run(ServiceStat { mtasts: 0, autodiscover: 0, autoconfig: 0 }, reqs).count_of(p)
                == rendered_count(reqs, p),
    decreases reqs.len(),
{
    let zero = ServiceStat { mtasts: 0, autodiscover: 0, autoconfig: 0 };
    if reqs.len() > 0 {
        let prev = reqs.drop_last();
        lemma_counts_match_rendered(prev);
        lemma_rendered_count_bound(prev);
        assert forall|p: Protocol| run(zero, reqs).count_of(p) == rendered_count(reqs, p) by {
            lemma_rendered_count_bound(prev);
            assert(rendered_count(prev, p) <= prev.len());
        }
    }
}

/// No more requests are rendered than were made.
pub proof fn lemma_rendered_count_bound(reqs: Seq<(Protocol, bool)>)
    ensures
        forall|p: Protocol| rendered_count(reqs, p) <= reqs.len(),
    decreases reqs.len(),
{
    if reqs.len() > 0 {
        let prev = reqs.drop_last();
        lemma_rendered_count_bound(prev);
        assert forall|p: Protocol| rendered_count(reqs, p) <= reqs.len() by {
            assert(rendered_count(prev, p) <= prev.len());
        }
    }
}

} // verus!
