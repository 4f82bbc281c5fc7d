//! The two-step web-login handshake: the landing page's hidden `_STORED_`
//! field, the form that is posted back, and the session id in the reply.

use vstd::prelude::*;
use vstd::utf8::encode_utf8;
use crate::digest::{form_encode, form_encoded};
use crate::text::chars_of;

verus! {

broadcast use vstd::string::group_string_axioms;

/// Whether `lit` occurs in `t` at position `i`.
pub open spec fn has_at(t: Seq<char>, i: int, lit: Seq<char>) -> bool {
    0 <= i && i + lit.len() <= t.len() && t.subrange(i, i + lit.len()) == lit
}

/// Whether no line break lies in `t[a..b]`.
pub open spec fn line_free(t: Seq<char>, a: int, b: int) -> bool {
    forall|m: int| a <= m < b ==> t[m] != '\n'
}

pub open spec fn input_tag() -> Seq<char> {
    "<input"@
}

pub open spec fn stored_name() -> Seq<char> {
    "name=\"_STORED_\""@
}

pub open spec fn value_attr() -> Seq<char> {
    "value=\""@
}

pub open spec fn sid_open() -> Seq<char> {
    "sid,"@
}

pub open spec fn sid_close() -> Seq<char> {
    ",terms"@
}

/// An occurrence of the hidden field: `<input` at `i`, then on the same line
/// `name="_STORED_"` at `j` and `value="` at `k`, with the value closed by a
/// double quote.
pub open spec fn stored_match(t: Seq<char>, i: int, j: int, k: int) -> bool {
    &&& has_at(t, i, input_tag())
    &&& i + input_tag().len() <= j
    &&& has_at(t, j, stored_name())
    &&& line_free(t, i + input_tag().len(), j)
    &&& j + stored_name().len() <= k
    &&& has_at(t, k, value_attr())
    &&& line_free(t, j + stored_name().len(), k)
    &&& quote_after(t, k + value_attr().len())
}

/// The first occurrence: the earliest `<input`, and after it the earliest
/// name and then the earliest value attribute.
pub open spec fn first_stored_match(t: Seq<char>, i: int, j: int, k: int) -> bool {
    &&& stored_match(t, i, j, k)
    &&& forall|i2: int, j2: int, k2: int|
        #[trigger] stored_match(t, i2, j2, k2) ==> (i < i2 || (i == i2 && (j < j2 || (j == j2
            && k <= k2))))
}

/// `t[s..e]` is the run of characters up to the next double quote, which
/// stands at `e`.
pub open spec fn quote_run(t: Seq<char>, s: int, e: int) -> bool {
    &&& s <= e < t.len()
    &&& t[e] == '"'
    &&& forall|m: int| s <= m < e ==> t[m] != '"'
}

/// A double quote stands somewhere at or after `s`.
pub open spec fn quote_after(t: Seq<char>, s: int) -> bool {
    exists|m: int| s <= m < t.len() && t[m] == '"'
}

/// The attribute value that starts after `value="` at `k` ends at `e`.
pub open spec fn value_run(t: Seq<char>, k: int, e: int) -> bool {
    quote_run(t, k + value_attr().len(), e)
}

/// The stored value of a landing page, if it has the hidden field: the
/// characters after `value="` of the first occurrence, up to the next quote.
pub open spec fn stored_value_is(t: Seq<char>, v: Seq<char>) -> bool {
    exists|i: int, j: int, k: int, e: int|
        #![trigger first_stored_match(t, i, j, k), value_run(t, k, e)]
        first_stored_match(t, i, j, k) && value_run(t, k, e) && v == t.subrange(
            k + value_attr().len(),
            e,
        )
}

/// A session id between `sid,` at `i` and `,terms` at `e`, on one line.
pub open spec fn sid_match(t: Seq<char>, i: int, e: int) -> bool {
    &&& has_at(t, i, sid_open())
    &&& i + sid_open().len() <= e
    &&& has_at(t, e, sid_close())
    &&& line_free(t, i + sid_open().len(), e)
}

/// The first `sid,` that has a `,terms` after it on its line, with the last
/// such `,terms`.
pub open spec fn first_sid_match(t: Seq<char>, i: int, e: int) -> bool {
    &&& sid_match(t, i, e)
    &&& forall|i2: int, e2: int| #[trigger] sid_match(t, i2, e2) ==> (i < i2 || (i == i2 && e2 <= e))
}

/// The session id of a login reply.
pub open spec fn sid_value_is(t: Seq<char>, v: Seq<char>) -> bool {
    exists|i: int, e: int| first_sid_match(t, i, e) && v == t.subrange(i + sid_open().len(), e)
}

fn matches_at(t: &Vec<char>, i: usize, lit: &Vec<char>) -> (r: bool)
    ensures
        r == has_at(t@, i as int, lit@),
{
    if i > t.len() || lit.len() > t.len() - i {
        return false;
    }
    let n = t.len();
    let mut m: usize = 0;
    while m < lit.len()
        invariant
            n == t@.len(),
            i + lit@.len() <= t@.len(),
            m <= lit@.len(),
            forall|x: int| 0 <= x < m ==> t@[i + x] == lit@[x],
        decreases lit@.len() - m,
    {
        if t[i + m] != lit[m] {
            assert(t@.subrange(i as int, i + lit@.len())[m as int] != lit@[m as int]);
            return false;
        }
        m = m + 1;
    }
    assert(t@.subrange(i as int, i + lit@.len()) =~= lit@);
    true
}

/// The first occurrence of `lit` at or after `from` on the same line.
fn find_on_line(t: &Vec<char>, lit: &Vec<char>, from: usize) -> (r: Option<usize>)
    requires
        lit@.len() > 0,
        from <= t@.len(),
    ensures
        r matches Some(p) ==> from <= p && has_at(t@, p as int, lit@) && line_free(
            t@,
            from as int,
            p as int,
        ) && forall|q: int| from <= q < p ==> !has_at(t@, q, lit@),
        r is None ==> forall|q: int|
            from <= q && line_free(t@, from as int, q) ==> !has_at(t@, q, lit@),
{
    let mut q: usize = from;
    while q < t.len()
        invariant
            from <= q <= t@.len(),
            lit@.len() > 0,
            line_free(t@, from as int, q as int),
            forall|x: int| from <= x < q ==> !has_at(t@, x, lit@),
        decreases t@.len() - q,
    {
        if matches_at(t, q, lit) {
            return Some(q);
        }
        if t[q] == '\n' {
            assert forall|x: int| from <= x && line_free(t@, from as int, x) implies !has_at(
                t@,
                x,
                lit@,
            ) by {
                if x > q {
                    assert(t@[q as int] == '\n');
                }
            }
            return None;
        }
        q = q + 1;
    }
    None
}

/// The characters `t[s..e]` as a string.
fn substring(t: &Vec<char>, s: usize, e: usize) -> (r: String)
    requires
        s <= e <= t@.len(),
    ensures
        r@ == t@.subrange(s as int, e as int),
{
    let mut r = String::new();
    let mut m: usize = s;
    while m < e
        invariant
            s <= m <= e <= t@.len(),
            r@ == t@.subrange(s as int, m as int),
        decreases e - m,
    {
        r.push(t[m]);
        m = m + 1;
        assert(r@ =~= t@.subrange(s as int, m as int));
    }
    r
}

/// Extracts the stored value from a landing page: the value of the first
/// `<input ... name="_STORED_" ... value="...">` written on one line.
pub fn extract_stored(body: &str) -> (r: Option<String>)
    ensures
        r is None <==> !exists|i: int, j: int, k: int| stored_match(body@, i, j, k),
        r matches Some(v) ==> stored_value_is(body@, v@),
{
    proof {
        reveal_strlit("<input");
        reveal_strlit("name=\"_STORED_\"");
        reveal_strlit("value=\"");
    }
    let t = chars_of(body);
    let tag = chars_of("<input");
    let name = chars_of("name=\"_STORED_\"");
    let value = chars_of("value=\"");
    let n = t.len();
    let mut i: usize = 0;
    while i < n
        invariant
            i <= n == t@.len(),
            t@ == body@,
            tag@ == input_tag(),
            name@ == stored_name(),
            value@ == value_attr(),
            input_tag().len() == 6,
            stored_name().len() == 15,
            value_attr().len() == 7,
            forall|m: int| 0 <= m < 15 ==> stored_name()[m] != '\n',
            forall|i2: int, j2: int, k2: int| i2 < i ==> !#[trigger] stored_match(t@, i2, j2, k2),
        decreases n - i,
    {
        if matches_at(&t, i, &tag) {
            match find_on_line(&t, &name, i + 6) {
                None => {
                    assert forall|i2: int, j2: int, k2: int| i2 <= i implies !#[trigger] stored_match(
                        t@,
                        i2,
                        j2,
                        k2,
                    ) by {}
                },
                Some(j) => {
                    match find_on_line(&t, &value, j + 15) {
                        None => {
                            assert forall|i2: int, j2: int, k2: int| i2 <= i implies !#[trigger] stored_match(
                                t@,
                                i2,
                                j2,
                                k2,
                            ) by {
                                if i2 == i && stored_match(t@, i2, j2, k2) {
                                    assert(j <= j2);
                                    assert forall|m: int| j + 15 <= m < k2 implies t@[m] != '\n' by {
                                        if j2 <= m < j2 + 15 {
                                            assert(t@[m] == t@.subrange(j2, j2 + 15)[m - j2]);
                                        }
                                    }
                                    assert(line_free(t@, j + 15, k2));
                                }
                            }
                        },
                        Some(k) => {
                            let s = k + 7;
                            let mut e: usize = s;
                            while e < n && t[e] != '"'
                                invariant
                                    s <= e <= n == t@.len(),
                                    forall|m: int| s <= m < e ==> t@[m] != '"',
                                decreases n - e,
                            {
                                e = e + 1;
                            }
                            if e < n {
                                let v = substring(&t, s, e);
                                assert(stored_match(t@, i as int, j as int, k as int));
                                assert(first_stored_match(t@, i as int, j as int, k as int));
                                assert(value_run(t@, k as int, e as int));
                                return Some(v);
                            }
                            assert forall|i2: int, j2: int, k2: int| i2 <= i implies !#[trigger] stored_match(
                                t@,
                                i2,
                                j2,
                                k2,
                            ) by {
                                if i2 == i && stored_match(t@, i2, j2, k2) {
                                    assert(j <= j2);
                                    assert forall|m: int| j + 15 <= m < k2 implies t@[m] != '\n' by {
                                        if j2 <= m < j2 + 15 {
                                            assert(t@[m] == t@.subrange(j2, j2 + 15)[m - j2]);
                                        }
                                    }
                                    assert(line_free(t@, j + 15, k2));
                                    assert(k <= k2);
                                    let m = choose|m: int| k2 + 7 <= m < t@.len() && t@[m] == '"';
                                    assert(s <= m < e);
                                }
                            }
                        },
                    }
                },
            }
        }
        i = i + 1;
    }
    None
}

/// Extracts the session id from a login reply: what stands between the first
/// `sid,` and the last `,terms` after it on the same line.
pub fn extract_sid(body: &str) -> (r: Option<String>)
    ensures
        r is None <==> !exists|i: int, e: int| sid_match(body@, i, e),
        r matches Some(v) ==> sid_value_is(body@, v@),
{
    proof {
        reveal_strlit("sid,");
        reveal_strlit(",terms");
    }
    let t = chars_of(body);
    let open = chars_of("sid,");
    let close = chars_of(",terms");
    let n = t.len();
    let mut i: usize = 0;
    while i < n
        invariant
            i <= n == t@.len(),
            t@ == body@,
            open@ == sid_open(),
            close@ == sid_close(),
            sid_open().len() == 4,
            sid_close().len() == 6,
            sid_close()[0] == ',',
            forall|i2: int, e2: int| i2 < i ==> !#[trigger] sid_match(t@, i2, e2),
        decreases n - i,
    {
        if matches_at(&t, i, &open) {
            let mut last: Option<usize> = None;
            let mut q: usize = i + 4;
            while q < n && t[q] != '\n'
                invariant
                    i + 4 <= q <= n == t@.len(),
                    has_at(t@, i as int, sid_open()),
                    close@ == sid_close(),
                    sid_open().len() == 4,
                    sid_close().len() == 6,
                    line_free(t@, i + 4, q as int),
                    last matches Some(e) ==> sid_match(t@, i as int, e as int) && e < q,
                    forall|e2: int| i + 4 <= e2 < q && has_at(t@, e2, sid_close()) ==> (
                    last matches Some(e) && e2 <= e),
                decreases n - q,
            {
                if matches_at(&t, q, &close) {
                    last = Some(q);
                }
                q = q + 1;
            }
            assert forall|e2: int| sid_match(t@, i as int, e2) implies (last matches Some(e) && e2
                <= e) by {
                if e2 >= q {
                    if e2 == q {
                        assert(has_at(t@, e2, sid_close()));
                        assert(t@.subrange(e2, e2 + 6)[0] == t@[e2]);
                    } else {
                        assert(t@[q as int] == '\n');
                    }
                }
            }
            match last {
                Some(e) => {
                    let v = substring(&t, i + 4, e);
                    assert(first_sid_match(t@, i as int, e as int));
                    return Some(v);
                },
                None => {},
            }
        }
        i = i + 1;
    }
    None
}

/// How long the landing-page fetch may take, in seconds.
pub const LANDING_TIMEOUT_SECS: u64 = 30;

/// How long the login submission may take, in seconds: the service is slow
/// to answer.
pub const SUBMISSION_TIMEOUT_SECS: u64 = 200;

/// The landing page's address for the given storefront flag.
pub open spec fn landing_url_of(is_steam: bool) -> Seq<char> {
    "https://ffxiv-login.square-enix.com/oauth/ffxivarr/login/top?lng=en&rgn=3&isft=0&issteam="@
        + if is_steam {
        "1"@
    } else {
        "0"@
    }
}

/// The landing page's address; also the referer of the submission.
pub fn landing_url(is_steam: bool) -> (r: String)
    ensures
        r@ == landing_url_of(is_steam),
{
    let mut r = String::from_str(
        "https://ffxiv-login.square-enix.com/oauth/ffxivarr/login/top?lng=en&rgn=3&isft=0&issteam=",
    );
    if is_steam {
        r.append("1");
    } else {
        r.append("0");
    }
    r
}

pub open spec fn submission_url_of() -> Seq<char> {
    "https://ffxiv-login.square-enix.com/oauth/ffxivarr/login/login.send"@
}

/// Where the login form is posted.
pub fn submission_url() -> (r: String)
    ensures
        r@ == submission_url_of(),
{
    String::from_str("https://ffxiv-login.square-enix.com/oauth/ffxivarr/login/login.send")
}

/// One `key=value` pair of a url-encoded form, the value encoded as UTF-8
/// and then form-encoded.
pub open spec fn form_field(key: Seq<char>, value: Seq<char>) -> Seq<char> {
    key + "="@ + form_encoded(encode_utf8(value))
}

/// The login form: stored value, user name, password and one-time password.
pub open spec fn login_form_of(
    stored: Seq<char>,
    username: Seq<char>,
    password: Seq<char>,
    otp: Seq<char>,
) -> Seq<char> {
    form_field("_STORED_"@, stored) + "&"@ + form_field("sqexid"@, username) + "&"@ + form_field(
        "password"@,
        password,
    ) + "&"@ + form_field("otppw"@, otp)
}

/// The one-time password as sent: empty where there is none.
pub open spec fn otp_text(otp: Option<String>) -> Seq<char> {
    match otp {
        Some(o) => o@,
        None => Seq::empty(),
    }
}

fn append_field(body: &mut String, key: &str, value: &str)
    ensures
        final(body)@ == old(body)@ + form_field(key@, value@),
{
    body.append(key);
    body.append("=");
    let encoded = form_encode(value.as_bytes());
    body.append(encoded.as_str());
    assert(final(body)@ =~= old(body)@ + form_field(key@, value@));
}

/// The url-encoded body of the login submission.
pub fn login_form_body(stored: &str, username: &str, password: &str, otp: &Option<String>) -> (r:
    String)
    ensures
        r@ == login_form_of(stored@, username@, password@, otp_text(*otp)),
{
    let mut r = String::new();
    append_field(&mut r, "_STORED_", stored);
    r.append("&");
    append_field(&mut r, "sqexid", username);
    r.append("&");
    append_field(&mut r, "password", password);
    r.append("&");
    match otp {
        Some(o) => append_field(&mut r, "otppw", o.as_str()),
        None => {
            proof {
                reveal_strlit("");
            }
            append_field(&mut r, "otppw", "");
        },
    }
    assert(r@ =~= login_form_of(stored@, username@, password@, otp_text(*otp)));
    r
}

} // verus!
