use vstd::prelude::*;

verus! {

/// What came back from a probe request: an HTTP status, or the error that
/// stopped the request.
pub enum ProbeReply {
    Status(u16),
    Unreachable(String),
}

/// An advisory line about the network; none of them stops an upload.
pub enum ProbeNotice {
    /// The outside site answered, so a proxy is likely in the way.
    ProxySuspected,
    /// The outside site answered with this unsuccessful status.
    ProbeStatus(u16),
    /// The outside site could not be reached: the network looks direct.
    NetworkOk,
    /// The storage host answered with this unexpected status.
    StorageStatus(u16),
    /// The storage host could not be reached.
    StorageError(String),
}

pub open spec fn is_success(status: u16) -> bool {
    200 <= status <= 299
}

/// The verdict on the probe of an outside site.
pub open spec fn external_notice(reply: ProbeReply) -> ProbeNotice {
    match reply {
        ProbeReply::Status(s) => if is_success(s) {
            ProbeNotice::ProxySuspected
        } else {
            ProbeNotice::ProbeStatus(s)
        },
        ProbeReply::Unreachable(_) => ProbeNotice::NetworkOk,
    }
}

/// The verdict on the probe of the storage host: a success or a 403 is the
/// healthy case and says nothing.
pub open spec fn storage_notices(reply: ProbeReply) -> Seq<ProbeNotice> {
    match reply {
        ProbeReply::Status(s) => if is_success(s) || s == 403 {
            Seq::empty()
        } else {
            seq![ProbeNotice::StorageStatus(s)]
        },
        ProbeReply::Unreachable(e) => seq![ProbeNotice::StorageError(e)],
    }
}

/// Turns the two probe replies into the notices to show, the outside site's
/// first.
pub fn check_proxy(external: &ProbeReply, storage: &ProbeReply) -> (r: Vec<ProbeNotice>)
    ensures
        r@ == seq![external_notice(*external)] + storage_notices(*storage),
{
    let mut notices: Vec<ProbeNotice> = Vec::new();
    match external {
        ProbeReply::Status(s) => {
            if 200 <= *s && *s <= 299 {
                notices.push(ProbeNotice::ProxySuspected);
            } else {
                notices.push(ProbeNotice::ProbeStatus(*s));
            }
        },
        ProbeReply::Unreachable(_) => notices.push(ProbeNotice::NetworkOk),
    }
    match storage {
        ProbeReply::Status(s) => {
            if !(200 <= *s && *s <= 299) && *s != 403 {
                notices.push(ProbeNotice::StorageStatus(*s));
            }
        },
        ProbeReply::Unreachable(e) => notices.push(ProbeNotice::StorageError(e.clone())),
    }
    proof {
        assert(notices@ =~= seq![external_notice(*external)] + storage_notices(*storage));
    }
    notices
}

} // verus!
