//! The checks that an inbound document has to pass before anything is written.

use crate::db_url::{DbUrl, UrlParts};
use crate::error::{BackendError, BackendResult};
use vstd::prelude::*;
use vstd::string::{StrSliceExecFns, StringExecFns};

verus! {

/// The character of a decimal digit.
pub open spec fn digit_char(d: int) -> char {
    if d == 0 {
        '0'
    } else if d == 1 {
        '1'
    } else if d == 2 {
        '2'
    } else if d == 3 {
        '3'
    } else if d == 4 {
        '4'
    } else if d == 5 {
        '5'
    } else if d == 6 {
        '6'
    } else if d == 7 {
        '7'
    } else if d == 8 {
        '8'
    } else {
        '9'
    }
}

/// A number in decimal digits, without leading zeros.
pub open spec fn decimal(n: nat) -> Seq<char>
    decreases n,
{
    if n < 10 {
        seq![digit_char(n as int)]
    } else {
        decimal(n / 10).push(digit_char((n % 10) as int))
    }
}

/// The host of a URL, followed by a colon and the port where the URL has one.
pub open spec fn host_with_port(u: UrlParts) -> Option<Seq<char>> {
    match u.host {
        Some(h) => Some(
            match u.port {
                Some(p) => h + seq![':'] + decimal(p as nat),
                None => h,
            },
        ),
        None => None,
    }
}

/// Whether a URL refers to the instance with this domain.
pub open spec fn is_local(u: UrlParts, domain: Seq<char>) -> bool {
    host_with_port(u) == Some(domain)
}

/// What the check of two domains answers.
pub open spec fn domains_match(a: UrlParts, b: UrlParts) -> BackendResult<()> {
    if a.domain == b.domain {
        Ok(())
    } else {
        Err(BackendError::DomainMismatch)
    }
}

/// What the check of a depth against the configured maximum answers.
pub open spec fn depth_allowed(depth: int, max: int) -> BackendResult<()> {
    if depth > max {
        Err(BackendError::MaxDepthExceeded)
    } else {
        Ok(())
    }
}

/// What the verification of a fetched or embedded object answers: its
/// identifier and the URL it is held against have to be consistent, each with
/// the host, domain and port of its own serialisation; the identifier has to
/// share the expected domain and to belong to another instance.
pub open spec fn object_verified(id: UrlParts, expected: UrlParts, domain: Seq<char>)
    -> BackendResult<()> {
    if !id.consistent() || !expected.consistent() {
        Err(BackendError::InvalidUrl)
    } else if domains_differ(id, expected) {
        Err(BackendError::DomainMismatch)
    } else if is_local(id, domain) {
        Err(BackendError::ObjectIsLocal)
    } else {
        Ok(())
    }
}

/// Whether two URLs differ in their domain.
pub open spec fn domains_differ(a: UrlParts, b: UrlParts) -> bool {
    a.domain != b.domain
}

fn digit(d: u16) -> (c: char)
    requires
        d < 10,
    ensures
        c == digit_char(d as int),
{
    if d == 0 {
        '0'
    } else if d == 1 {
        '1'
    } else if d == 2 {
        '2'
    } else if d == 3 {
        '3'
    } else if d == 4 {
        '4'
    } else if d == 5 {
        '5'
    } else if d == 6 {
        '6'
    } else if d == 7 {
        '7'
    } else if d == 8 {
        '8'
    } else {
        '9'
    }
}

/// The decimal digits of a port number.
pub fn decimal_digits(n: u16) -> (digits: Vec<char>)
    ensures
        digits@ == decimal(n as nat),
        1 <= digits@.len() <= 5,
    decreases n,
{
    if n < 10 {
        let mut digits: Vec<char> = Vec::new();
        digits.push(digit(n));
        assert(digits@ =~= seq![digit_char(n as int)]);
        digits
    } else {
        let mut digits = decimal_digits(n / 10);
        digits.push(digit(n % 10));
        proof {
            lemma_decimal_len(n as nat);
        }
        digits
    }
}

/// The text of one decimal digit.
fn digit_text(d: u32) -> (s: &'static str)
    requires
        d < 10,
    ensures
        s@ == seq![digit_char(d as int)],
{
    proof {
        reveal_strlit("0");
        reveal_strlit("1");
        reveal_strlit("2");
        reveal_strlit("3");
        reveal_strlit("4");
        reveal_strlit("5");
        reveal_strlit("6");
        reveal_strlit("7");
        reveal_strlit("8");
        reveal_strlit("9");
    }
    let s = if d == 0 {
        "0"
    } else if d == 1 {
        "1"
    } else if d == 2 {
        "2"
    } else if d == 3 {
        "3"
    } else if d == 4 {
        "4"
    } else if d == 5 {
        "5"
    } else if d == 6 {
        "6"
    } else if d == 7 {
        "7"
    } else if d == 8 {
        "8"
    } else {
        "9"
    };
    assert(s@ =~= seq![digit_char(d as int)]);
    s
}

/// A number written in decimal digits, without leading zeros.
pub fn decimal_text(n: u32) -> (s: String)
    ensures
        s@ == decimal(n as nat),
    decreases n,
{
    if n < 10 {
        String::from_str(digit_text(n))
    } else {
        let s = decimal_text(n / 10).concat(digit_text(n % 10));
        assert(s@ =~= decimal((n / 10) as nat).push(digit_char((n % 10) as int)));
        s
    }
}

/// A number below 100000 has at most five digits.
proof fn lemma_decimal_len(n: nat)
    requires
        n < 100000,
    ensures
        1 <= decimal(n).len() <= 5,
        n < 10000 ==> decimal(n).len() <= 4,
        n < 1000 ==> decimal(n).len() <= 3,
        n < 100 ==> decimal(n).len() <= 2,
        n < 10 ==> decimal(n).len() <= 1,
    decreases n,
{
    if n >= 10 {
        lemma_decimal_len(n / 10);
    }
}

/// Whether a text is a host, a colon and a port in decimal digits.
fn is_host_and_port(text: &str, host: &str, port: u16) -> (b: bool)
    ensures
        b == (text@ == host@ + seq![':'] + decimal(port as nat)),
{
    let digits = decimal_digits(port);
    let n = text.unicode_len();
    let h = host.unicode_len();
    let ghost want = host@ + seq![':'] + digits@;
    if n < h || n - h != digits.len() + 1 {
        assert(text@.len() != want.len());
        return false;
    }
    let mut i: usize = 0;
    while i < h
        invariant
            i <= h,
            h == host@.len(),
            n == text@.len(),
            n == h + 1 + digits@.len(),
            want == host@ + seq![':'] + digits@,
            digits@ == decimal(port as nat),
            forall|j: int| 0 <= j < i ==> text@[j] == want[j],
        decreases h - i,
    {
        if text.get_char(i) != host.get_char(i) {
            assert(want[i as int] == host@[i as int]);
            return false;
        }
        i += 1;
    }
    if text.get_char(h) != ':' {
        assert(want[h as int] == ':');
        return false;
    }
    let mut k: usize = 0;
    while k < digits.len()
        invariant
            k <= digits@.len(),
            h == host@.len(),
            n == text@.len(),
            n == h + 1 + digits@.len(),
            want == host@ + seq![':'] + digits@,
            digits@ == decimal(port as nat),
            forall|j: int| 0 <= j < h + 1 + k ==> text@[j] == want[j],
        decreases digits.len() - k,
    {
        if text.get_char(h + 1 + k) != digits[k] {
            assert(want[h + 1 + k] == digits@[k as int]);
            return false;
        }
        k += 1;
    }
    assert(text@ =~= want);
    true
}

/// Whether a URL refers to the instance with this domain: its host, with a
/// colon and the port where it has one, is the domain.
pub fn is_local_url(url: &DbUrl, domain: &String) -> (b: bool)
    ensures
        b == is_local(url@, domain@),
{
    match &url.host {
        Some(h) => match url.port {
            Some(p) => is_host_and_port(domain.as_str(), h.as_str(), p),
            None => *h == *domain,
        },
        None => false,
    }
}

/// Accepts two URLs with the same domain; two URLs without a domain count as the same.
pub fn verify_domains_match(a: &DbUrl, b: &DbUrl) -> (r: BackendResult<()>)
    ensures
        r == domains_match(a@, b@),
{
    let same = match (&a.domain, &b.domain) {
        (Some(x), Some(y)) => *x == *y,
        (None, None) => true,
        _ => false,
    };
    if same {
        Ok(())
    } else {
        Err(BackendError::DomainMismatch)
    }
}

/// Accepts an identifier of another instance, and refuses one of this instance
/// with `ObjectIsLocal`.
pub fn verify_is_remote_object(id: &DbUrl, domain: &String) -> (r: BackendResult<()>)
    ensures
        r == (if is_local(id@, domain@) {
            Err(BackendError::ObjectIsLocal)
        } else {
            Ok(())
        }),
{
    if is_local_url(id, domain) {
        Err(BackendError::ObjectIsLocal)
    } else {
        Ok(())
    }
}

/// What the check of two URLs answers that have to be consistent and to share
/// their domain.
pub open spec fn same_origin(a: UrlParts, b: UrlParts) -> BackendResult<()> {
    if !a.consistent() || !b.consistent() {
        Err(BackendError::InvalidUrl)
    } else {
        domains_match(a, b)
    }
}

/// Accepts two URLs that are consistent, each with the host, domain and port
/// of its own serialisation, and share their domain. Refuses with
/// `InvalidUrl` where one is not consistent, else with `DomainMismatch`.
pub fn verify_same_origin(a: &DbUrl, b: &DbUrl) -> (r: BackendResult<()>)
    ensures
        r == same_origin(a@, b@),
{
    if !a.is_consistent() || !b.is_consistent() {
        return Err(BackendError::InvalidUrl);
    }
    verify_domains_match(a, b)
}

/// Accepts the identifier of an object that is consistent, shares the
/// expected domain and belongs to another instance than the one with this
/// domain. Refuses with `InvalidUrl` where the identifier or the URL it is
/// held against carries a host, domain or port that is not that of its
/// serialisation.
pub fn verify_object_id(id: &DbUrl, expected_domain: &DbUrl, domain: &String) -> (r:
    BackendResult<()>)
    ensures
        r == object_verified(id@, expected_domain@, domain@),
{
    if !id.is_consistent() || !expected_domain.is_consistent() {
        return Err(BackendError::InvalidUrl);
    }
    match verify_domains_match(id, expected_domain) {
        Ok(()) => {},
        Err(e) => {
            return Err(e);
        },
    }
    verify_is_remote_object(id, domain)
}

/// Accepts a depth up to the maximum, and refuses a greater one with `MaxDepthExceeded`.
pub fn validate_comment_max_depth(depth: i32, max: i32) -> (r: BackendResult<()>)
    ensures
        r == depth_allowed(depth as int, max as int),
{
    if depth > max {
        Err(BackendError::MaxDepthExceeded)
    } else {
        Ok(())
    }
}

} // verus!
