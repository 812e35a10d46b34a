use crate::role::{spec_to_lowercase, to_lowercase};
use crate::url::{spec_parse_url, Url};
use vstd::prelude::*;

verus! {

/// The decimal digit of a number below ten.
pub open spec fn digit_char(d: nat) -> char {
    (48 + d) as char
}

/// The decimal text of a number, without leading zeros.
pub open spec fn decimal_text(n: nat) -> Seq<char>
    decreases n,
{
    if n < 10 {
        seq![digit_char(n)]
    } else {
        decimal_text(n / 10).push(digit_char(n % 10))
    }
}

/// `ToString::to_string` on a `u16`: as the documentation of its `Display`
/// says, the number in decimal, without leading zeros.
#[verifier::external_body]
fn decimal(n: u16) -> (r: String)
    ensures
        r@ == decimal_text(n as nat),
{
    n.to_string()
}

/// The host that a request to a URL names, as the `Host` header carries it:
/// the URL's host, with its port where it gives one; empty where the text is
/// not a URL with a host.
pub open spec fn host_header_text(url: Seq<char>) -> Seq<char> {
    match spec_parse_url(url) {
        Some(u) => match u.host_str {
            Some(h) => match u.port {
                Some(p) => h + seq![':'] + decimal_text(p as nat),
                None => h,
            },
            None => Seq::empty(),
        },
        None => Seq::empty(),
    }
}

/// The lower-cased host that a request to a URL names, by which requests
/// are routed to a mock service.
pub fn extract_host(url: &str) -> (r: String)
    ensures
        r@ == spec_to_lowercase(host_header_text(url@)),
{
    let text = match Url::parse(url) {
        Some(u) => match u.host_str {
            Some(h) => match u.port {
                Some(p) => {
                    let mut t = h;
                    let digits = decimal(p);
                    t.append(":");
                    t.append(digits.as_str());
                    proof {
                        reveal_strlit(":");
                    }
                    t
                },
                None => h,
            },
            None => String::new(),
        },
        None => String::new(),
    };
    proof {
        assert(text@ =~= host_header_text(url@));
    }
    to_lowercase(text.as_str())
}

} // verus!
