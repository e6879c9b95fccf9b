use vstd::prelude::*;

verus! {

/// The decimal digit for `d`, where `d < 10`.
pub open spec fn digit_char(d: nat) -> char {
    seq!['0', '1', '2', '3', '4', '5', '6', '7', '8', '9'][d as int]
}

/// The decimal rendering of `n`: no sign, no leading zeros, `"0"` for zero.
pub open spec fn decimal(n: nat) -> Seq<char>
    decreases n,
{
    if n < 10 {
        seq![digit_char(n)]
    } else {
        decimal(n / 10).push(digit_char(n % 10))
    }
}

/// A request of the device's control API.
#[derive(Clone, Copy, Debug, PartialEq, Eq, Structural)]
pub enum DeviceCall {
    /// Read whether blocking is enabled.
    Status,
    /// Turn blocking on.
    Enable,
    /// Turn blocking off for that many seconds; zero means until enabled again.
    Disable(u64),
}

/// The query word that selects a request, without the credential.
pub open spec fn call_query(call: DeviceCall) -> Seq<char> {
    match call {
        DeviceCall::Status => "status"@,
        DeviceCall::Enable => "enable"@,
        DeviceCall::Disable(seconds) => if seconds == 0 {
            "disable"@
        } else {
            "disable="@ + decimal(seconds as nat)
        },
    }
}

/// The full address of a request against `host`, authenticated with `key`.
pub open spec fn call_url(host: Seq<char>, key: Seq<char>, call: DeviceCall) -> Seq<char> {
    host + "/admin/api.php?"@ + call_query(call) + "&auth="@ + key
}

/// The address of the device's web console.
pub open spec fn dashboard_url(host: Seq<char>) -> Seq<char> {
    host + "/admin"@
}

/// What a client of the device is configured with.
pub struct EndpointView {
    pub host: Seq<char>,
    pub key: Seq<char>,
}

/// The device's base address and the shared secret that authenticates
/// requests. It is fixed once made.
#[derive(Clone)]
pub struct AuthPiHoleAPI {
    host: String,
    key: String,
}

impl View for AuthPiHoleAPI {
    type V = EndpointView;

    closed spec fn view(&self) -> EndpointView {
        EndpointView { host: self.host@, key: self.key@ }
    }
}

/// The one-character string for the digit `d`.
fn digit_str(d: u64) -> (r: &'static str)
    requires
        d < 10,
    ensures
        r@ == seq![digit_char(d as nat)],
{
    proof {
        reveal_strlit("0");
        reveal_strlit("1");
        reveal_strlit("2");
        reveal_strlit("3");
        reveal_strlit("4");
        reveal_strlit("5");
        reveal_strlit("6");
        reveal_strlit("7");
        reveal_strlit("8");
        reveal_strlit("9");
    }
    match d {
        0 => "0",
        1 => "1",
        2 => "2",
        3 => "3",
        4 => "4",
        5 => "5",
        6 => "6",
        7 => "7",
        8 => "8",
        _ => "9",
    }
}

/// Appends the decimal rendering of `n` to `out`.
pub fn push_decimal(out: &mut String, n: u64)
    ensures
        final(out)@ == old(out)@ + decimal(n as nat),
    decreases n,
{
    if n >= 10 {
        push_decimal(out, n / 10);
    }
    out.append(digit_str(n % 10));
    assert(final(out)@ =~= old(out)@ + decimal(n as nat));
}

impl AuthPiHoleAPI {
    /// A client for the device at `host` (scheme and authority, no trailing
    /// path) that authenticates with `key`.
    pub fn new(host: String, key: String) -> (r: Self)
        ensures
            r@.host == host@,
            r@.key == key@,
    {
        AuthPiHoleAPI { host, key }
    }

    /// The address that a request goes to.
    pub fn url(&self, call: DeviceCall) -> (r: String)
        ensures
            r@ == call_url(self@.host, self@.key, call),
    {
        let mut url = self.host.clone();
        url.append("/admin/api.php?");
        match call {
            DeviceCall::Status => url.append("status"),
            DeviceCall::Enable => url.append("enable"),
            DeviceCall::Disable(seconds) => {
                url.append("disable");
                if seconds != 0 {
                    url.append("=");
                    push_decimal(&mut url, seconds);
                }
            },
        }
        url.append("&auth=");
        url.append(self.key.as_str());
        proof {
            reveal_strlit("disable");
            reveal_strlit("=");
            reveal_strlit("disable=");
        }
        assert(url@ =~= call_url(self@.host, self@.key, call));
        url
    }

    /// The address of the status request.
    pub fn status_url(&self) -> (r: String)
        ensures
            r@ == call_url(self@.host, self@.key, DeviceCall::Status),
    {
        self.url(DeviceCall::Status)
    }

    /// The address of the request that turns blocking on.
    pub fn enable_url(&self) -> (r: String)
        ensures
            r@ == call_url(self@.host, self@.key, DeviceCall::Enable),
    {
        self.url(DeviceCall::Enable)
    }

    /// The address of the request that turns blocking off for `seconds`;
    /// with zero the address carries no duration at all, which the device
    /// reads as "until enabled again".
    pub fn disable_url(&self, seconds: u64) -> (r: String)
        ensures
            r@ == call_url(self@.host, self@.key, DeviceCall::Disable(seconds)),
            seconds == 0 ==> r@ == self@.host + "/admin/api.php?disable&auth="@ + self@.key,
    {
        proof {
            reveal_strlit("/admin/api.php?");
            reveal_strlit("disable");
            reveal_strlit("&auth=");
            reveal_strlit("/admin/api.php?disable&auth=");
        }
        let r = self.url(DeviceCall::Disable(seconds));
        assert(seconds == 0 ==> r@ =~= self@.host + "/admin/api.php?disable&auth="@ + self@.key);
        r
    }

    /// The address of the device's web console.
    pub fn dashboard_url(&self) -> (r: String)
        ensures
            r@ == dashboard_url(self@.host),
    {
        let mut url = self.host.clone();
        url.append("/admin");
        url
    }
}

} // verus!
