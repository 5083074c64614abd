//! The MTA-STS policy document.
use vstd::prelude::*;
use vstd::string::StringExecFns;
use crate::host::{views, HostInfo};
use crate::service::{ContentKind, Protocol, ServiceStat};

verus! {

/// One `mx: <host>` line per whitelisted host, in order.
pub open spec fn mx_lines(mxs: Seq<Seq<char>>) -> Seq<char>
    decreases mxs.len(),
{
    if mxs.len() == 0 {
        Seq::empty()
    } else {
        mx_lines(mxs.drop_last()) + "mx: "@ + mxs.last() + "\n"@
    }
}

/// The policy for mode `mode` and whitelist `mxs`.
pub open spec fn policy(mode: Seq<char>, mxs: Seq<Seq<char>>) -> Seq<char> {
    "version: STSv1\nmode: "@ + mode + "\n"@ + mx_lines(mxs) + "max-age: 86400\n"@
}

/// Renders the MTA-STS policy of `info` (status 200, plain text) and counts it.
pub fn mta_sts(info: HostInfo, stat: &mut ServiceStat) -> (r: (u16, (ContentKind, String)))
    ensures
        r.0 == 200,
        r.1.0 == ContentKind::Text,
        r.1.1@ == policy(info.sts_mode@, views(info.sts_mx@)),
        *final(stat) == old(stat).counted(Protocol::MtaSts),
{
    let ghost mxs = views(info.sts_mx@);
    let mut body = String::from_str("version: STSv1\nmode: ");
    body.append(info.sts_mode.as_str());
    body.append("\n");
    let ghost head = body@;
    let mut i: usize = 0;
    while i < info.sts_mx.len()
        invariant
            i <= info.sts_mx@.len(),
            mxs == views(info.sts_mx@),
            body@ == head + mx_lines(mxs.take(i as int)),
        decreases info.sts_mx@.len() - i,
    {
        body.append("mx: ");
        body.append(info.sts_mx[i].as_str());
        body.append("\n");
        proof {
            assert(mxs.take(i + 1).drop_last() =~= mxs.take(i as int));
        }
        i = i + 1;
    }
    assert(mxs.take(i as int) =~= mxs);
    body.append("max-age: 86400\n");
    stat.count(Protocol::MtaSts);
    (200, (ContentKind::Text, body))
}

} // verus!
