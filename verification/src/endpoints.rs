use vstd::prelude::*;
use vstd::string::*;

verus! {

/// The port the backend listens on.
pub const BACKEND_PORT: u16 = 8765;

/// The character that writes the digit `d`, for `d` from 0 to 9.
pub open spec fn digit_char(d: int) -> char {
    "0123456789"@[d]
}

/// The decimal numeral of `n`, without leading zeros.
pub open spec fn decimal(n: nat) -> Seq<char>
    decreases n,
{
    if n < 10 {
        seq![digit_char(n as int)]
    } else {
        decimal(n / 10) + seq![digit_char((n % 10) as int)]
    }
}

/// The base address of the backend's HTTP interface on `port`.
pub open spec fn http_url(port: u16) -> Seq<char> {
    "http://localhost:"@ + decimal(port as nat)
}

/// The base address of the backend's websocket interface on `port`.
pub open spec fn ws_url(port: u16) -> Seq<char> {
    "ws://localhost:"@ + decimal(port as nat)
}

/// The address of the backend's health endpoint on `port`.
pub open spec fn health_endpoint(port: u16) -> Seq<char> {
    http_url(port) + "/health"@
}

/// The numeral of the backend's port, digit by digit.
pub proof fn lemma_backend_port_numeral()
    ensures
        decimal(BACKEND_PORT as nat) == "8765"@,
{
    reveal_strlit("0123456789");
    reveal_strlit("8765");
    reveal_with_fuel(decimal, 4);
    assert(decimal(8765) =~= "8765"@);
}

fn digit_str(d: u16) -> (s: &'static str)
    requires
        d < 10,
    ensures
        s@ == seq![digit_char(d as int)],
{
    proof {
        reveal_strlit("0123456789");
    }
    let digits: &'static str = "0123456789";
    let s: &'static str = digits.substring_ascii(d as usize, d as usize + 1);
    assert(s@ =~= seq![digit_char(d as int)]);
    s
}

/// Writes `n` in decimal.
pub fn decimal_string(n: u16) -> (s: String)
    ensures
        s@ == decimal(n as nat),
    decreases n,
{
    if n < 10 {
        let s: String = String::from_str(digit_str(n));
        s
    } else {
        let mut s: String = decimal_string(n / 10);
        s.append(digit_str(n % 10));
        s
    }
}

/// The base address of the backend's HTTP interface: `http://localhost:8765`.
pub fn get_backend_url() -> (url: String)
    ensures
        url@ == http_url(BACKEND_PORT),
        url@ == "http://localhost:8765"@,
{
    let mut url: String = String::from_str("http://localhost:");
    let port: String = decimal_string(BACKEND_PORT);
    url.append(port.as_str());
    proof {
        lemma_backend_port_numeral();
        reveal_strlit("8765");
        reveal_strlit("http://localhost:");
        reveal_strlit("http://localhost:8765");
        assert(url@ =~= "http://localhost:8765"@);
    }
    url
}

/// The base address of the backend's websocket interface: `ws://localhost:8765`.
pub fn get_ws_url() -> (url: String)
    ensures
        url@ == ws_url(BACKEND_PORT),
        url@ == "ws://localhost:8765"@,
{
    let mut url: String = String::from_str("ws://localhost:");
    let port: String = decimal_string(BACKEND_PORT);
    url.append(port.as_str());
    proof {
        lemma_backend_port_numeral();
        reveal_strlit("8765");
        reveal_strlit("ws://localhost:");
        reveal_strlit("ws://localhost:8765");
        assert(url@ =~= "ws://localhost:8765"@);
    }
    url
}

/// The address that is asked whether the backend is up:
/// `http://localhost:8765/health`.
pub fn get_health_url() -> (url: String)
    ensures
        url@ == health_endpoint(BACKEND_PORT),
        url@ == "http://localhost:8765/health"@,
{
    let mut url: String = get_backend_url();
    url.append("/health");
    proof {
        reveal_strlit("/health");
        reveal_strlit("http://localhost:8765");
        reveal_strlit("http://localhost:8765/health");
        assert(url@ =~= "http://localhost:8765/health"@);
    }
    url
}

} // verus!
