//! Identity validation on the server: ARN allow-list matching, extraction
//! of the identity from the identity endpoint's XML reply, and the
//! handshake's answer. The HTTP call to the presigned URL is made by the
//! caller, which hands its outcome to `sts_reply_outcome`.
use crate::text::{
    eq_ignore_ascii_case, find_from, occurs_at, owned, push_str, split_commas_trimmed, split_on,
    str_eq_ignore_ascii_case, substring, trim,
};
use crate::types::{IamAuthRequest, IamAuthResponse, IamIdentity};
use vstd::prelude::*;

verus! {

/// Anchored glob matching: `*` matches any (possibly empty) run of
/// characters, every other character matches itself.
pub open spec fn glob_match(p: Seq<char>, s: Seq<char>) -> bool
    decreases p.len() + s.len(),
{
    if p.len() == 0 {
        s.len() == 0
    } else if p[0] == '*' {
        glob_match(p.skip(1), s) || (s.len() > 0 && glob_match(p, s.skip(1)))
    } else {
        s.len() > 0 && s[0] == p[0] && glob_match(p.skip(1), s.skip(1))
    }
}

/// An ARN is allowed when the allow-list is empty or one of its patterns
/// matches it.
pub open spec fn role_allowed(patterns: Seq<String>, arn: Seq<char>) -> bool {
    patterns.len() == 0 || exists|i: int| 0 <= i < patterns.len() && glob_match(patterns[i]@, arn)
}

/// The first position at or after `from` where `needle` occurs in `hay`.
#[verifier::opaque]
pub open spec fn first_occurrence(hay: Seq<char>, needle: Seq<char>, from: int) -> Option<int> {
    if exists|k: int| from <= k && occurs_at(hay, needle, k) {
        Some(
            choose|k: int|
                from <= k && occurs_at(hay, needle, k) && forall|j: int|
                    from <= j < k ==> !occurs_at(hay, needle, j),
        )
    } else {
        None
    }
}

/// The text between the first `<tag>` and the first `</tag>` after it.
pub open spec fn xml_field(xml: Seq<char>, tag: Seq<char>) -> Option<Seq<char>> {
    let open = "<"@ + tag + ">"@;
    let close = "</"@ + tag + ">"@;
    match first_occurrence(xml, open, 0) {
        None => None,
        Some(a) => match first_occurrence(xml, close, a + open.len()) {
            None => None,
            Some(b) => Some(xml.subrange(a + open.len(), b)),
        },
    }
}

/// A failed handshake answer carrying `message`.
pub open spec fn is_failure(r: IamAuthResponse, message: Seq<char>) -> bool {
    &&& !r.success
    &&& r.error matches Some(e) && e@ == message
    &&& r.identity is None
}

proof fn lemma_glob_step(p: Seq<char>, s: Seq<char>, i: int, j: int)
    requires
        0 <= i < p.len(),
        0 <= j <= s.len(),
    ensures
        glob_match(p.skip(i), s.skip(j)) == if p[i] == '*' {
            glob_match(p.skip(i + 1), s.skip(j)) || (j < s.len() && glob_match(p.skip(i), s.skip(j + 1)))
        } else {
            j < s.len() && s[j] == p[i] && glob_match(p.skip(i + 1), s.skip(j + 1))
        },
{
    assert(p.skip(i).skip(1) == p.skip(i + 1));
    if j < s.len() {
        assert(s.skip(j).skip(1) == s.skip(j + 1));
    }
}

fn first_position(hay: &str, needle: &str, from: usize) -> (r: Option<usize>)
    ensures
        match r {
            Some(k) => first_occurrence(hay@, needle@, from as int) == Some(k as int) && from <= k
                && occurs_at(hay@, needle@, k as int),
            None => first_occurrence(hay@, needle@, from as int) is None,
        },
{
    let found = find_from(hay, needle, from);
    proof {
        reveal(first_occurrence);
        if let Some(k) = found {
            let c = choose|c: int|
                from <= c && occurs_at(hay@, needle@, c) && forall|j: int|
                    from <= j < c ==> !occurs_at(hay@, needle@, j);
            if c < k {
                assert(!occurs_at(hay@, needle@, c));
            }
            if c > k {
                assert(!occurs_at(hay@, needle@, k as int));
            }
        }
    }
    found
}

/// The text of the first `<tag>…</tag>` element of `xml`.
pub fn extract_xml_field(xml: &str, tag: &str) -> (r: Option<String>)
    ensures
        match r {
            Some(v) => xml_field(xml@, tag@) == Some(v@),
            None => xml_field(xml@, tag@) is None,
        },
{
    let mut open = owned("<");
    push_str(&mut open, tag);
    push_str(&mut open, ">");
    let mut close = owned("</");
    push_str(&mut close, tag);
    push_str(&mut close, ">");
    assert(open@ == "<"@ + tag@ + ">"@);
    assert(close@ == "</"@ + tag@ + ">"@);
    match first_position(xml, open.as_str(), 0) {
        None => None,
        Some(a) => {
            let _total = xml.unicode_len();
            let si = a + open.unicode_len();
            match first_position(xml, close.as_str(), si) {
                None => None,
                Some(b) => Some(substring(xml, si, b)),
            }
        },
    }
}

/// Whether `arn` matches the glob `pattern`.
pub fn matches_arn_pattern(arn: &str, pattern: &str) -> (r: bool)
    ensures
        r == glob_match(pattern@, arn@),
{
    let n = pattern.unicode_len();
    let m = arn.unicode_len();
    // For the current i, row[j] holds whether pattern[i..] matches arn[j..]
    // (j < m) and at_end whether it matches the empty rest.
    let mut row: Vec<bool> = Vec::new();
    let mut at_end: bool = true;
    let mut j: usize = 0;
    assert(pattern@.skip(n as int).len() == 0);
    while j < m
        invariant
            m == arn@.len(),
            n == pattern@.len(),
            j <= m,
            row@.len() == j,
            pattern@.skip(n as int).len() == 0,
            forall|k: int| 0 <= k < j ==> row@[k] == glob_match(pattern@.skip(n as int), arn@.skip(k)),
        decreases m - j,
    {
        row.push(false);
        j = j + 1;
    }
    assert(at_end == glob_match(pattern@.skip(n as int), arn@.skip(m as int)));
    let mut i: usize = n;
    while i > 0
        invariant
            m == arn@.len(),
            n == pattern@.len(),
            i <= n,
            row@.len() == m,
            at_end == glob_match(pattern@.skip(i as int), arn@.skip(m as int)),
            forall|k: int| 0 <= k < m ==> row@[k] == glob_match(pattern@.skip(i as int), arn@.skip(k)),
        decreases i,
    {
        let pi = i - 1;
        let pc = pattern.get_char(pi);
        proof {
            lemma_glob_step(pattern@, arn@, pi as int, m as int);
        }
        let next_end = if pc == '*' {
            at_end
        } else {
            false
        };
        let mut next: Vec<bool> = Vec::new();
        let mut t: usize = 0;
        while t < m
            invariant
                next@.len() == t,
                t <= m,
            decreases m - t,
        {
            next.push(false);
            t = t + 1;
        }
        let mut k: usize = m;
        while k > 0
            invariant
                m == arn@.len(),
                n == pattern@.len(),
                pi < n,
                pc == pattern@[pi as int],
                k <= m,
                row@.len() == m,
                next@.len() == m,
                at_end == glob_match(pattern@.skip(pi + 1), arn@.skip(m as int)),
                next_end == glob_match(pattern@.skip(pi as int), arn@.skip(m as int)),
                forall|q: int| 0 <= q < m ==> row@[q] == glob_match(pattern@.skip(pi + 1), arn@.skip(q)),
                forall|q: int| k <= q < m ==> next@[q] == glob_match(pattern@.skip(pi as int), arn@.skip(q)),
            decreases k,
        {
            let q = k - 1;
            proof {
                lemma_glob_step(pattern@, arn@, pi as int, q as int);
            }
            let after_next = if q + 1 == m {
                next_end
            } else {
                next[q + 1]
            };
            let after_row = if q + 1 == m {
                at_end
            } else {
                row[q + 1]
            };
            let v = if pc == '*' {
                row[q] || after_next
            } else {
                arn.get_char(q) == pc && after_row
            };
            next.set(q, v);
            k = q;
        }
        row = next;
        at_end = next_end;
        i = pi;
    }
    assert(pattern@.skip(0) == pattern@);
    assert(arn@.skip(0) == arn@);
    if m == 0 {
        at_end
    } else {
        row[0]
    }
}

/// `"*"` matches every ARN.
pub proof fn lemma_star_matches_everything(arn: Seq<char>)
    ensures
        glob_match("*"@, arn),
    decreases arn.len(),
{
    reveal_strlit("*");
    let p = "*"@;
    assert(p.len() == 1 && p[0] == '*');
    assert(p.skip(1).len() == 0);
    if arn.len() > 0 {
        lemma_star_matches_everything(arn.skip(1));
        assert(glob_match(p, arn.skip(1)));
    } else {
        assert(glob_match(p.skip(1), arn));
    }
}

/// An empty allow-list allows every ARN, and so does one holding `"*"`.
pub proof fn lemma_wildcard_and_empty_allow_all(patterns: Seq<String>, arn: Seq<char>)
    ensures
        role_allowed(Seq::<String>::empty(), arn),
        (exists|i: int| 0 <= i < patterns.len() && patterns[i]@ == "*"@) ==> role_allowed(patterns, arn),
{
    lemma_star_matches_everything(arn);
}

/// Identity validation with an ARN allow-list; validation can be skipped
/// in development.
pub struct DefaultAuthService {
    pub allowed_role_patterns: Vec<String>,
    pub skip_validation: bool,
}

/// What to do with a handshake request.
pub enum AuthPlan {
    /// Answer at once.
    Respond(IamAuthResponse),
    /// Fetch the presigned identity URL and pass its reply to
    /// `sts_reply_outcome`.
    FetchIdentity(String),
}

fn failure(message: &str) -> (r: IamAuthResponse)
    ensures
        is_failure(r, message@),
{
    IamAuthResponse { success: false, error: Some(owned(message)), identity: None }
}

fn failure_with(prefix: &str, detail: &str) -> (r: IamAuthResponse)
    ensures
        is_failure(r, prefix@ + detail@),
{
    let mut m = owned(prefix);
    push_str(&mut m, detail);
    IamAuthResponse { success: false, error: Some(m), identity: None }
}

impl DefaultAuthService {
    pub fn new(allowed_role_patterns: Vec<String>, skip_validation: bool) -> (r: Self)
        ensures
            r.allowed_role_patterns == allowed_role_patterns,
            r.skip_validation == skip_validation,
    {
        DefaultAuthService { allowed_role_patterns, skip_validation }
    }

    /// Whether `arn` is allowed by the allow-list.
    pub fn matches_arn_pattern(&self, arn: &str, pattern: &str) -> (r: bool)
        ensures
            r == glob_match(pattern@, arn@),
    {
        matches_arn_pattern(arn, pattern)
    }

    /// Whether `arn` is allowed: the allow-list is empty or a pattern of it
    /// matches.
    pub fn is_role_allowed(&self, arn: &str) -> (r: bool)
        ensures
            r == role_allowed(self.allowed_role_patterns@, arn@),
    {
        let n = self.allowed_role_patterns.len();
        if n == 0 {
            return true;
        }
        let mut i: usize = 0;
        while i < n
            invariant
                n == self.allowed_role_patterns@.len(),
                i <= n,
                forall|k: int| 0 <= k < i ==> !glob_match(self.allowed_role_patterns@[k]@, arn@),
            decreases n - i,
        {
            if matches_arn_pattern(arn, self.allowed_role_patterns[i].as_str()) {
                return true;
            }
            i = i + 1;
        }
        false
    }

    /// The first step of a handshake: a synthetic identity when validation
    /// is skipped, a failure without a presigned URL, else the URL to fetch.
    pub fn authenticate(&self, auth_request: &IamAuthRequest) -> (r: AuthPlan)
        ensures
            if self.skip_validation {
                r matches AuthPlan::Respond(resp) && resp.success && resp.error is None && (
                resp.identity matches Some(id) && id.arn@
                    == "arn:aws:iam::000000000000:role/skipped-validation"@ && id.account_id@
                    == "000000000000"@ && id.user_id@ == "skipped-validation"@
                    && id.principal_type@ == "AssumedRole"@)
            } else {
                match auth_request.presigned_url {
                    Some(u) => r matches AuthPlan::FetchIdentity(v) && v@ == u@,
                    None => r matches AuthPlan::Respond(resp) && is_failure(
                        resp,
                        "No presigned URL provided"@,
                    ),
                }
            },
    {
        if self.skip_validation {
            return AuthPlan::Respond(
                IamAuthResponse {
                    success: true,
                    error: None,
                    identity: Some(
                        IamIdentity {
                            arn: owned("arn:aws:iam::000000000000:role/skipped-validation"),
                            account_id: owned("000000000000"),
                            user_id: owned("skipped-validation"),
                            principal_type: owned("AssumedRole"),
                        },
                    ),
                },
            );
        }
        match &auth_request.presigned_url {
            Some(u) => AuthPlan::FetchIdentity(u.clone()),
            None => AuthPlan::Respond(failure("No presigned URL provided")),
        }
    }

    /// The handshake answer for the identity endpoint's reply: a 2xx reply
    /// whose body names `Arn`, `Account` and `UserId` succeeds when the ARN
    /// is allowed. `status_text` is the status as displayed in messages.
    pub fn sts_reply_outcome(&self, status: u16, status_text: &str, body: &str) -> (r: IamAuthResponse)
        ensures
            if !(200 <= status < 300) {
                is_failure(r, "STS call failed with status: "@ + status_text@)
            } else {
                match (xml_field(body@, "Arn"@), xml_field(body@, "Account"@), xml_field(body@, "UserId"@)) {
                    (Some(arn), Some(account), Some(user)) => if role_allowed(self.allowed_role_patterns@, arn) {
                        &&& r.success
                        &&& r.error is None
                        &&& r.identity matches Some(id) && id.arn@ == arn && id.account_id@ == account
                            && id.user_id@ == user && id.principal_type@ == "AssumedRole"@
                    } else {
                        is_failure(r, "Role not allowed"@)
                    },
                    _ => is_failure(r, "Failed to parse STS identity"@),
                }
            },
    {
        if !(200 <= status && status < 300) {
            return failure_with("STS call failed with status: ", status_text);
        }
        let arn = extract_xml_field(body, "Arn");
        let account = extract_xml_field(body, "Account");
        let user_id = extract_xml_field(body, "UserId");
        match (arn, account, user_id) {
            (Some(arn), Some(account), Some(user_id)) => {
                if self.is_role_allowed(arn.as_str()) {
                    IamAuthResponse {
                        success: true,
                        error: None,
                        identity: Some(
                            IamIdentity {
                                arn,
                                account_id: account,
                                user_id,
                                principal_type: owned("AssumedRole"),
                            },
                        ),
                    }
                } else {
                    failure("Role not allowed")
                }
            },
            _ => failure("Failed to parse STS identity"),
        }
    }

    /// The handshake answer when the presigned URL does not parse.
    pub fn invalid_url_outcome(&self, detail: &str) -> (r: IamAuthResponse)
        ensures
            is_failure(r, "Invalid presigned URL: "@ + detail@),
    {
        failure_with("Invalid presigned URL: ", detail)
    }

    /// The handshake answer when the call to the identity endpoint failed.
    pub fn call_failed_outcome(&self, detail: &str) -> (r: IamAuthResponse)
        ensures
            is_failure(r, "STS call failed: "@ + detail@),
    {
        failure_with("STS call failed: ", detail)
    }
}

/// The allow-list configured by a comma-separated setting: its trimmed
/// pieces, or `"*"` alone when the setting is absent.
pub fn allowed_patterns_from(setting: Option<&str>) -> (r: Vec<String>)
    ensures
        match setting {
            Some(s) => r@.len() == split_on(s@, ',').len() && forall|i: int|
                0 <= i < r@.len() ==> #[trigger] r@[i]@ == trim(split_on(s@, ',')[i]),
            None => r@.len() == 1 && r@[0]@ == "*"@,
        },
{
    match setting {
        Some(s) => split_commas_trimmed(s),
        None => vec![owned("*")],
    }
}

/// Whether a setting turns identity validation off: `true` in any ASCII
/// case.
pub fn skip_validation_from(setting: Option<&str>) -> (r: bool)
    ensures
        r == match setting {
            Some(s) => eq_ignore_ascii_case(s@, "true"@),
            None => false,
        },
{
    match setting {
        Some(s) => str_eq_ignore_ascii_case(s, "true"),
        None => false,
    }
}

} // verus!
