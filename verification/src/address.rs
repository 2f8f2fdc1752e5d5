//! Addresses: where the gateway and the studio are, and what of them may be shown.
use vstd::prelude::*;
use crate::text::{
    before_first, before_first_v, before_last, before_last_v, cat, cat3, chars_of, contains, copy,
    find_text, holds_text, replace_once, replaced_once, skip_chars, stands_at, strip_ends,
    strip_suffix, text_place, trim, trim_end_matches, trimmed, ends,
};

verus! {

/// The gateway's address on the web, from that of its socket: without a query, without
/// the socket's path, and with the scheme of the web.
pub open spec fn rest_base(ws: Seq<char>) -> Seq<char> {
    let base = strip_ends(before_first_v(ws, '?'), "/ws"@);
    replaced_once(
        replaced_once(base, "ws://"@, "http://"@),
        "wss://"@,
        "https://"@,
    )
}

/// The gateway's address on the web, from that of its socket.
pub fn ws_to_http(ws_url: &str) -> (r: String)
    ensures
        r@ == rest_base(ws_url@),
{
    let base = trim_end_matches(before_first(ws_url, '?'), "/ws");
    let plain = replace_once(base, "ws://", "http://");
    replace_once(plain.as_str(), "wss://", "https://")
}

/// What follows a scheme, up to the next one.
pub open spec fn past_scheme(s: Seq<char>) -> Seq<char> {
    let i = text_place(s, "://"@, 0);
    if i >= 0 {
        let rest = s.skip(i + 3);
        let j = text_place(rest, "://"@, 0);
        if j >= 0 {
            rest.take(j)
        } else {
            rest
        }
    } else {
        s
    }
}

/// The host of an address: without scheme, port and path.
pub open spec fn host_v(base: Seq<char>) -> Seq<char> {
    let host_port = before_first_v(past_scheme(base), '/');
    match before_last_v(host_port, ':') {
        Some(h) => h,
        None => host_port,
    }
}

fn skip_scheme(s: &str) -> (r: &str)
    ensures
        r@ == past_scheme(s@),
{
    proof {
        reveal_strlit("://");
    }
    match find_text(s, "://") {
        Some(i) => {
            let n: usize = s.unicode_len();
            assert(i + 3 <= n);
            let rest = skip_chars(s, i + 3);
            match find_text(rest, "://") {
                Some(j) => {
                    assert(rest@.subrange(0, j as int) =~= rest@.take(j as int));
                    rest.substring_char(0, j)
                },
                None => rest,
            }
        },
        None => s,
    }
}

/// The host of an address: without scheme, port and path.
pub fn web_host(base: &str) -> (r: String)
    ensures
        r@ == host_v(base@),
{
    let host_port = before_first(skip_scheme(base), '/');
    match before_last(host_port, ':') {
        Some(h) => copy(h),
        None => copy(host_port),
    }
}

/// An address as a log may show it: what follows the name of the token is masked.
pub open spec fn redacted(url: Seq<char>) -> Seq<char> {
    let i = text_place(url, "token="@, 0);
    if i >= 0 {
        url.take(i) + "token=<redacted>"@
    } else {
        url
    }
}

/// An address as a log may show it.
pub fn redact_ws_url(url: &str) -> (r: String)
    ensures
        r@ == redacted(url@),
{
    match find_text(url, "token=") {
        Some(i) => {
            assert(url@.subrange(0, i as int) =~= url@.take(i as int));
            cat(url.substring_char(0, i), "token=<redacted>")
        },
        None => copy(url),
    }
}

/// An address with a token, where there is one.
pub open spec fn with_token(base: Seq<char>, token: Seq<char>) -> Seq<char> {
    if token.len() == 0 {
        base
    } else {
        base + "?token="@ + token
    }
}

/// The address of the gateway's socket.
pub fn socket_url(base: &str, token: &str) -> (r: String)
    ensures
        r@ == with_token(base@, token@),
{
    if token.is_empty() {
        copy(base)
    } else {
        cat3(base, "?token=", token)
    }
}

/// The address of the terminal's socket, beside the gateway's.
pub open spec fn terminal_v(base: Seq<char>, token: Seq<char>) -> Seq<char> {
    with_token(
        if ends(base, "/ws"@) {
            base.take(base.len() - "/ws"@.len()) + "/terminal-ws"@
        } else {
            base
        },
        token,
    )
}

/// The address of the terminal's socket, beside the gateway's.
pub fn terminal_url(base: &str, token: &str) -> (r: String)
    ensures
        r@ == terminal_v(base@, token@),
{
    let own = match strip_suffix(base, "/ws") {
        Some(b) => cat(b, "/terminal-ws"),
        None => copy(base),
    };
    socket_url(own.as_str(), token)
}

/// Where the studio is when nothing says otherwise.
pub const STUDIO: &'static str = "http://127.0.0.1:8791";

/// An address without white space around it and without slashes at its end.
pub open spec fn bare_address(raw: Seq<char>) -> Seq<char> {
    strip_ends(trimmed(raw), "/"@)
}

/// The studio's address from a setting; the usual one where it says nothing.
pub open spec fn studio_v(raw: Seq<char>) -> Seq<char> {
    if bare_address(raw).len() == 0 {
        STUDIO@
    } else {
        bare_address(raw)
    }
}

/// The studio's address from a setting.
pub fn imagine_base_url(raw: &str) -> (r: String)
    ensures
        r@ == studio_v(raw@),
{
    let t = trim_end_matches(trim(raw), "/");
    if t.is_empty() {
        copy(STUDIO)
    } else {
        copy(t)
    }
}

/// Whether a text stands between two of the same mark.
pub open spec fn between(t: Seq<char>, mark: char) -> bool {
    t.len() >= 2 && t[0] == mark && t.last() == mark
}

/// A token as it was meant: without white space around it, and without one pair of
/// quotation marks.
pub open spec fn clean_token(raw: Seq<char>) -> Seq<char> {
    let t = trimmed(raw);
    trimmed(
        if between(t, '"') || between(t, '\'') {
            t.subrange(1, t.len() - 1)
        } else {
            t
        },
    )
}

/// A token as it was meant.
pub fn imagine_token_clean(raw: &str) -> (r: String)
    ensures
        r@ == clean_token(raw@),
{
    let t = trim(raw);
    let v = chars_of(t);
    let n: usize = v.len();
    let inner = if n >= 2 && ((v[0] == '"' && v[n - 1] == '"') || (v[0] == '\'' && v[n - 1]
        == '\'')) {
        t.substring_char(1, n - 1)
    } else {
        t
    };
    copy(trim(inner))
}

/// The studio's address and token after the gateway has told them. A token is needed;
/// an address that was set by hand stays.
pub open spec fn reach_v(
    old_reach: (Seq<char>, Seq<char>),
    url: Seq<char>,
    token: Seq<char>,
    fixed: bool,
) -> (Seq<char>, Seq<char>) {
    if clean_token(token).len() == 0 {
        old_reach
    } else {
        (if bare_address(url).len() > 0 && !fixed {
            bare_address(url)
        } else {
            old_reach.0
        }, clean_token(token))
    }
}

/// Where the studio is, and the token that opens it.
#[derive(Debug)]
pub struct Reach {
    pub base: String,
    pub token: String,
}

impl View for Reach {
    type V = (Seq<char>, Seq<char>);

    open spec fn view(&self) -> (Seq<char>, Seq<char>) {
        (self.base@, self.token@)
    }
}

impl Reach {
    /// Takes in what the gateway tells; says whether it told a token.
    pub fn learn(&mut self, url: &str, token: &str, fixed: bool) -> (r: bool)
        ensures
            final(self)@ == reach_v(old(self)@, url@, token@, fixed),
            r == (clean_token(token@).len() > 0),
    {
        let t = imagine_token_clean(token);
        if t.as_str().is_empty() {
            return false;
        }
        let u = trim_end_matches(trim(url), "/");
        if !u.is_empty() && !fixed {
            self.base = copy(u);
        }
        self.token = t;
        true
    }
}

/// What a failed connection means: that a login is awaited, or a fault.
pub open spec fn awaits_login(error: Seq<char>, url: Seq<char>) -> bool {
    holds_text(error, "401"@) && !holds_text(url, "token="@)
}

/// Whether a failed connection means that a login is awaited.
pub fn login_awaited(error: &str, url: &str) -> (r: bool)
    ensures
        r == awaits_login(error@, url@),
{
    contains(error, "401") && !contains(url, "token=")
}

// ── Laws ────────────────────────────────────────────────────────────────────

proof fn text_place_bounds(s: Seq<char>, p: Seq<char>, i: int)
    requires
        0 <= i,
    ensures
        text_place(s, p, i) >= 0 ==> text_place(s, p, i) >= i && stands_at(
            s,
            p,
            text_place(s, p, i),
        ),
        forall|j: int|
            i <= j && (text_place(s, p, i) < 0 || j < text_place(s, p, i)) ==> !stands_at(s, p, j),
    decreases s.len() + 1 - i,
{
    if i + p.len() <= s.len() && !stands_at(s, p, i) {
        text_place_bounds(s, p, i + 1);
    }
}

proof fn text_place_is(s: Seq<char>, p: Seq<char>, i: int, k: int)
    requires
        0 <= i <= k,
        stands_at(s, p, k),
        forall|j: int| i <= j < k ==> !stands_at(s, p, j),
    ensures
        text_place(s, p, i) == k,
    decreases k - i,
{
    if i < k {
        text_place_is(s, p, i + 1, k);
    }
}

/// A token never reaches the log: two addresses that agree up to the token's name are
/// shown alike, whatever follows.
pub proof fn tokens_never_show(a: Seq<char>, b: Seq<char>, i: int)
    requires
        i == text_place(a, "token="@, 0),
        i >= 0,
        b.len() >= i + 6,
        a.take(i + 6) == b.take(i + 6),
    ensures
        redacted(a) == redacted(b),
        redacted(a).len() == i + 16,
{
    reveal_strlit("token=");
    reveal_strlit("token=<redacted>");
    let p = "token="@;
    text_place_bounds(a, p, 0);
    assert(stands_at(b, p, i)) by {
        assert(b.subrange(i, i + 6) =~= b.take(i + 6).subrange(i, i + 6));
        assert(a.subrange(i, i + 6) =~= a.take(i + 6).subrange(i, i + 6));
    }
    assert forall|j: int| 0 <= j < i implies !stands_at(b, p, j) by {
        assert(b.subrange(j, j + 6) =~= b.take(i + 6).subrange(j, j + 6));
        assert(a.subrange(j, j + 6) =~= a.take(i + 6).subrange(j, j + 6));
        assert(!stands_at(a, p, j));
    }
    text_place_is(b, p, 0, i);
    assert(a.take(i) =~= a.take(i + 6).take(i));
    assert(b.take(i) =~= b.take(i + 6).take(i));
}

/// An address without a token is shown as it is.
pub proof fn bare_addresses_show(url: Seq<char>)
    requires
        !holds_text(url, "token="@),
    ensures
        redacted(url) == url,
{
}

/// A token that is clean has no white space at its ends, so it can be told from none.
pub proof fn clean_tokens_are_tight(raw: Seq<char>)
    ensures
        trimmed(clean_token(raw)) == clean_token(raw),
{
    let t = trimmed(raw);
    let inner = if between(t, '"') || between(t, '\'') {
        t.subrange(1, t.len() - 1)
    } else {
        t
    };
    crate::text::trimmed_of_trimmed(inner);
}

} // verus!
