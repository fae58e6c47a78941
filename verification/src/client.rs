//! Request construction: the lookup URL is composed from the fixed base
//! endpoint, an optional subject placed as a trailing path segment, and the
//! optional query parameters (language, field selection, access credential),
//! in that order. Inputs are restricted to characters that need no escaping in
//! a URL; anything else is rejected before any network activity.

use vstd::prelude::*;

use crate::GeoError;

verus! {

/// A character accepted verbatim in a path segment or a query value: an ASCII
/// letter or digit, or one of `. - _ :` (the colon admits IPv6 subjects).
pub open spec fn url_safe_char(c: char) -> bool {
    ||| ('a' as u32) <= (c as u32) && (c as u32) <= ('z' as u32)
    ||| ('A' as u32) <= (c as u32) && (c as u32) <= ('Z' as u32)
    ||| ('0' as u32) <= (c as u32) && (c as u32) <= ('9' as u32)
    ||| c == '.'
    ||| c == '-'
    ||| c == '_'
    ||| c == ':'
}

/// Every character of the text is accepted verbatim in a URL.
pub open spec fn safe_text(s: Seq<char>) -> bool {
    forall|i: int| 0 <= i < s.len() ==> url_safe_char(#[trigger] s[i])
}

/// A valid subject identifier: non-empty, URL-safe text.
pub open spec fn valid_segment(s: Seq<char>) -> bool {
    s.len() > 0 && safe_text(s)
}

fn is_url_safe_char(c: char) -> (r: bool)
    ensures
        r == url_safe_char(c),
{
    let u = c as u32;
    (('a' as u32) <= u && u <= ('z' as u32)) || (('A' as u32) <= u && u <= ('Z' as u32)) || ((
    '0' as u32) <= u && u <= ('9' as u32)) || c == '.' || c == '-' || c == '_' || c == ':'
}

fn all_url_safe(s: &str) -> (r: bool)
    ensures
        r == safe_text(s@),
{
    let n = s.unicode_len();
    let mut i: usize = 0;
    while i < n
        invariant
            n == s@.len(),
            i <= n,
            forall|j: int| 0 <= j < i ==> url_safe_char(#[trigger] s@[j]),
        decreases n - i,
    {
        if !is_url_safe_char(s.get_char(i)) {
            return false;
        }
        i += 1;
    }
    true
}

/// The comma-joined concatenation of the field names, in the order given,
/// without deduplication.
pub open spec fn csv_of(fs: Seq<Seq<char>>) -> Seq<char>
    decreases fs.len(),
{
    if fs.len() == 0 {
        Seq::empty()
    } else if fs.len() == 1 {
        fs[0]
    } else {
        csv_of(fs.drop_last()) + ","@ + fs.last()
    }
}

/// Join field names with commas, in the order given.
pub fn join_fields(fields: &Vec<String>) -> (r: String)
    ensures
        r@ == csv_of(fields@.map_values(|s: String| s@)),
{
    let ghost vs = fields@.map_values(|s: String| s@);
    let mut out = String::new();
    let mut i: usize = 0;
    while i < fields.len()
        invariant
            vs == fields@.map_values(|s: String| s@),
            i <= fields@.len(),
            out@ == csv_of(vs.take(i as int)),
        decreases fields@.len() - i,
    {
        if i > 0 {
            out.append(",");
        }
        out.append(fields[i].as_str());
        proof {
            assert(vs.take(i + 1).drop_last() =~= vs.take(i as int));
            assert(vs.take(i + 1).last() == vs[i as int]);
            if i == 0 {
                assert(out@ =~= vs.take(1)[0]);
            }
        }
        i += 1;
    }
    proof {
        assert(vs.take(fields@.len() as int) =~= vs);
    }
    out
}

/// One step of query composition: append a parameter behind `?` when it is
/// the first, behind `&` otherwise.
pub open spec fn qstep(q: Seq<char>, first: bool, p: Option<Seq<char>>) -> (Seq<char>, bool) {
    match p {
        Some(t) => (
            if first {
                q + "?"@ + t
            } else {
                q + "&"@ + t
            },
            false,
        ),
        None => (q, first),
    }
}

/// The constructed request URL: the base, then the subject as a trailing path
/// segment when one is given, then the present query parameters in the order
/// language, field selection, credential.
pub open spec fn url_spec(
    base: Seq<char>,
    subject: Option<Seq<char>>,
    lang: Option<Seq<char>>,
    fields: Option<Seq<Seq<char>>>,
    cred: Option<Seq<char>>,
) -> Seq<char> {
    let path = match subject {
        Some(s) => base + "/"@ + s,
        None => base,
    };
    let lp = match lang {
        Some(l) => Some("lang="@ + l),
        None => None,
    };
    let fp = match fields {
        Some(fs) => Some("fields="@ + csv_of(fs)),
        None => None,
    };
    let cp = match cred {
        Some(c) => Some("access_key="@ + c),
        None => None,
    };
    let a = qstep(path, true, lp);
    let b = qstep(a.0, a.1, fp);
    let c = qstep(b.0, b.1, cp);
    c.0
}

/// Every field name in the list is URL-safe text.
pub open spec fn fields_safe(fs: Seq<Seq<char>>) -> bool {
    forall|i: int| 0 <= i < fs.len() ==> safe_text(#[trigger] fs[i])
}

/// The inputs a request can be built from: a non-empty URL-safe subject, and
/// URL-safe language, field names and credential.
pub open spec fn inputs_ok(
    subject: Option<Seq<char>>,
    lang: Option<Seq<char>>,
    fields: Option<Seq<Seq<char>>>,
    cred: Option<Seq<char>>,
) -> bool {
    &&& (subject matches Some(s) ==> valid_segment(s))
    &&& (lang matches Some(l) ==> safe_text(l))
    &&& (fields matches Some(fs) ==> fields_safe(fs))
    &&& (cred matches Some(c) ==> safe_text(c))
}

/// The view of an optional string slice.
pub open spec fn vo_str(o: Option<&str>) -> Option<Seq<char>> {
    match o {
        Some(s) => Some(s@),
        None => None,
    }
}

/// The view of an optional list of field names.
pub open spec fn vo_fields(o: Option<&Vec<String>>) -> Option<Seq<Seq<char>>> {
    match o {
        Some(v) => Some(v@.map_values(|s: String| s@)),
        None => None,
    }
}

/// Build the request URL from the base endpoint and the present modifiers.
/// Succeeds exactly on valid inputs; a malformed input yields
/// `GeoError::InvalidRequest` before any network activity.
pub fn build_request_url(
    base: &str,
    subject: Option<&str>,
    lang: Option<&str>,
    fields: Option<&Vec<String>>,
    credential: Option<&str>,
) -> (r: Result<String, GeoError>)
    ensures
        r is Ok <==> inputs_ok(vo_str(subject), vo_str(lang), vo_fields(fields), vo_str(credential)),
        r matches Ok(u) ==> u@ == url_spec(
            base@,
            vo_str(subject),
            vo_str(lang),
            vo_fields(fields),
            vo_str(credential),
        ),
        r matches Err(e) ==> e is InvalidRequest,
{
    if let Some(s) = subject {
        if s.unicode_len() == 0 || !all_url_safe(s) {
            return Err(GeoError::InvalidRequest);
        }
    }
    if let Some(l) = lang {
        if !all_url_safe(l) {
            return Err(GeoError::InvalidRequest);
        }
    }
    if let Some(fs) = fields {
        let mut i: usize = 0;
        while i < fs.len()
            invariant
                fields == Some(fs),
                i <= fs@.len(),
                forall|j: int| 0 <= j < i ==> safe_text((#[trigger] fs@[j])@),
            decreases fs@.len() - i,
        {
            if !all_url_safe(fs[i].as_str()) {
                proof {
                    let vs = fs@.map_values(|s: String| s@);
                    assert(vs[i as int] == fs@[i as int]@);
                    assert(vo_fields(fields) == Some(vs));
                    assert(!fields_safe(vs)) by {
                        assert(0 <= i < vs.len() && !safe_text(vs[i as int]));
                    };
                }
                return Err(GeoError::InvalidRequest);
            }
            i += 1;
        }
        proof {
            let vs = fs@.map_values(|s: String| s@);
            assert forall|j: int| 0 <= j < vs.len() implies safe_text(#[trigger] vs[j]) by {
                assert(vs[j] == fs@[j]@);
            };
            assert(fields_safe(vs));
            assert(vo_fields(fields) == Some(vs));
        }
    }
    if let Some(c) = credential {
        if !all_url_safe(c) {
            return Err(GeoError::InvalidRequest);
        }
    }
    let mut url = base.to_owned();
    if let Some(s) = subject {
        url.append("/");
        url.append(s);
    }
    let mut first = true;
    if let Some(l) = lang {
        let mut p = String::from_str("lang=");
        p.append(l);
        if first {
            url.append("?");
        } else {
            url.append("&");
        }
        url.append(p.as_str());
        first = false;
    }
    if let Some(fs) = fields {
        let mut p = String::from_str("fields=");
        let joined = join_fields(fs);
        p.append(joined.as_str());
        if first {
            url.append("?");
        } else {
            url.append("&");
        }
        url.append(p.as_str());
        first = false;
    }
    if let Some(c) = credential {
        let mut p = String::from_str("access_key=");
        p.append(c);
        if first {
            url.append("?");
        } else {
            url.append("&");
        }
        url.append(p.as_str());
        first = false;
    }
    Ok(url)
}

/// For a subject lookup without modifiers, the URL is the base, one trailing
/// path segment equal to the subject, and no query parameter except the
/// credential when one is configured.
pub proof fn lemma_url_subject_only(
    base: Seq<char>,
    subject: Seq<char>,
    cred: Option<Seq<char>>,
)
    ensures
        cred is None ==> url_spec(base, Some(subject), None, None, cred) == base + "/"@ + subject,
        cred matches Some(c) ==> url_spec(base, Some(subject), None, None, cred) == base + "/"@
            + subject + "?access_key="@ + c,
{
    reveal_strlit("?");
    reveal_strlit("access_key=");
    reveal_strlit("?access_key=");
    match cred {
        Some(c) => {
            assert(url_spec(base, Some(subject), None, None, cred) =~= base + "/"@ + subject
                + "?access_key="@ + c);
        },
        None => {
        },
    }
}

/// Appending a field name to a non-empty list appends a comma and the name to
/// the joined text; a single name is joined to itself. Order is preserved and
/// nothing is deduplicated.
pub proof fn lemma_csv_append(fs: Seq<Seq<char>>, f: Seq<char>)
    ensures
        fs.len() == 0 ==> csv_of(fs.push(f)) == f,
        fs.len() > 0 ==> csv_of(fs.push(f)) == csv_of(fs) + ","@ + f,
{
    assert(fs.push(f).drop_last() =~= fs);
    assert(fs.push(f).last() == f);
    if fs.len() == 0 {
        assert(csv_of(fs.push(f)) == fs.push(f)[0]);
    }
}

/// The client: the fixed base endpoint of the vendor and the optional access
/// credential, immutable for the client's lifetime. No network activity
/// happens at construction.
pub struct IpApiClient {
    pub base_url: String,
    pub access_key: Option<String>,
}

impl IpApiClient {
    /// The credential's text, if one is configured.
    pub open spec fn key_view(&self) -> Option<Seq<char>> {
        match self.access_key {
            Some(k) => Some(k@),
            None => None,
        }
    }

    /// A client for the fixed vendor endpoint, storing the given credential.
    /// Never fails and performs no network activity.
    pub fn new(access_key: Option<String>) -> (r: Self)
        ensures
            r.base_url@ == "https://api.ipapi.com/api"@,
            r.access_key == access_key,
    {
        IpApiClient { base_url: String::from_str("https://api.ipapi.com/api"), access_key }
    }

    /// The URL for looking up `subject`: the base, the subject as a trailing
    /// path segment, and the credential as the sole query parameter when one
    /// is configured.
    pub fn lookup_url(&self, subject: &str) -> (r: Result<String, GeoError>)
        ensures
            r is Ok <==> inputs_ok(Some(subject@), None, None, self.key_view()),
            r matches Ok(u) ==> u@ == url_spec(
                self.base_url@,
                Some(subject@),
                None,
                None,
                self.key_view(),
            ),
            r matches Err(e) ==> e is InvalidRequest,
    {
        let cred: Option<&str> = match &self.access_key {
            Some(k) => Some(k.as_str()),
            None => None,
        };
        build_request_url(self.base_url.as_str(), Some(subject), None, None, cred)
    }
}

} // verus!
