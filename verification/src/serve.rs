use vstd::prelude::*;

use crate::text::{strip_trailing_slashes, without_trailing_slashes};

verus! {

/// The address the server listens on unless told otherwise.
pub const DEFAULT_BIND: &'static str = "127.0.0.1:17811";

/// The adapter URL that `status` checks unless told otherwise.
pub const DEFAULT_STATUS_URL: &'static str = "http://127.0.0.1:17811";

/// The largest request body the server takes, in bytes.
pub const MAX_UPLOAD_BYTES: usize = 16 * 1024 * 1024;

/// The IP address of a bind address.
pub enum BindIp {
    /// An IPv4 address by its four octets.
    V4([u8; 4]),
    /// An IPv6 address by its eight 16-bit segments.
    V6([u16; 8]),
}

/// Whether an address is a loopback address (`IpAddr::is_loopback`): IPv4
/// `127.0.0.0/8`, or IPv6 `::1` alone.
pub open spec fn is_loopback(ip: BindIp) -> bool {
    match ip {
        BindIp::V4(octets) => octets@[0] == 127,
        BindIp::V6(segments) => segments@ =~= seq![0u16, 0u16, 0u16, 0u16, 0u16, 0u16, 0u16, 1u16],
    }
}

/// Why the server refuses to start.
pub open spec fn refusal_text(bind: Seq<char>) -> Seq<char> {
    "refusing to listen outside localhost: "@ + bind
}

/// Whether the server may listen on `ip`: only loopback addresses are
/// accepted. `bind` is the bind address as displayed; an address outside localhost is refused with a
/// message naming it.
pub fn check_bind(ip: &BindIp, bind: &str) -> (r: Result<(), String>)
    ensures
        r is Ok <==> is_loopback(*ip),
        r matches Err(text) ==> text@ == refusal_text(bind@),
{
    let loopback = match ip {
        BindIp::V4(octets) => octets[0] == 127,
        BindIp::V6(segments) => {
            let mut only_last = true;
            let mut i: usize = 0;
            while i < 7
                invariant
                    0 <= i <= 7,
                    only_last == forall|j: int| 0 <= j < i ==> segments@[j] == 0,
                decreases 7 - i,
            {
                if segments[i] != 0 {
                    only_last = false;
                }
                i = i + 1;
            }
            let loopback = only_last && segments[7] == 1;
            assert(loopback == (segments@ =~= seq![0u16, 0u16, 0u16, 0u16, 0u16, 0u16, 0u16, 1u16]));
            loopback
        },
    };
    if loopback {
        Ok(())
    } else {
        let mut text = String::from_str("refusing to listen outside localhost: ");
        text.append(bind);
        Err(text)
    }
}

/// The health endpoint of the adapter at `url`.
pub open spec fn health_endpoint(url: Seq<char>) -> Seq<char> {
    without_trailing_slashes(url) + "/health"@
}

/// The health endpoint of the adapter at `url`.
pub fn health_url(url: &str) -> (endpoint: String)
    ensures
        endpoint@ == health_endpoint(url@),
{
    let mut endpoint = strip_trailing_slashes(url);
    endpoint.append("/health");
    endpoint
}

} // verus!
