//! Scrubbing error reports before they leave the machine: addresses, paths,
//! ids and tokens are replaced, and each report gets a stable signature.

use vstd::prelude::*;

use crate::hashing::{fnv1a_utf16, fnv1a_utf16_hash, hex8, to_hex8};
use crate::text::{chars_of, str_eq, string_from_chars, string_from_range, trim, trim_str};

verus! {

pub const MAX_SUMMARY_LENGTH: usize = 500;

pub const MAX_TOKEN_LENGTH: usize = 64;

pub const URL_PATTERN: &'static str = "\\bhttps?://[^\\s'\"`<>]+";

pub const WINDOWS_PATH_PATTERN: &'static str = "[A-Za-z]:\\\\[^\\s'\"`<>]+";

pub const SLASH_PATH_PATTERN: &'static str = "(?:^|\\s)/[^\\s'\"`<>]+(?:/[^\\s'\"`<>]+)+";

pub const VRCHAT_ID_PATTERN: &'static str =
    "\\b(?:usr|wrld|avtr|grp|file|vol|inst|auth|rgn|prn)_[A-Za-z0-9-]+\\b";

pub const NOTIFICATION_ID_PATTERN: &'static str = "\\bnot_[A-Za-z0-9-]+\\b";

pub const PROVIDER_ID_PATTERN: &'static str = "\\b(?:org|req|key|sk)[_-][A-Za-z0-9_-]{3,}\\b";

pub const UUID_PATTERN: &'static str =
    "(?i)\\b[0-9a-f]{8}-[0-9a-f]{4}-[1-5][0-9a-f]{3}-[89ab][0-9a-f]{3}-[0-9a-f]{12}\\b";

pub const LONG_HEX_PATTERN: &'static str = "(?i)\\b[0-9a-f]{24,}\\b";

pub const LONG_TOKEN_PATTERN: &'static str = "\\b[A-Za-z0-9_-]{48,}\\b";

pub const ISO_LINE_PREFIX_PATTERN: &'static str =
    "(?m)^\\s*\\d{4}-\\d{2}-\\d{2}T\\d{2}:\\d{2}:\\d{2}(?:\\.\\d+)?(?:Z|[+-]\\d{2}:\\d{2})?\\s*";

pub const WHITESPACE_PATTERN: &'static str = "\\s+";

pub const SAFE_TOKEN_PATTERN: &'static str = "[^A-Za-z0-9_.:-]+";

pub const SAFE_VERSION_PATTERN: &'static str = "[^A-Za-z0-9._+-]+";

/// A notification id that is left as it stands.
pub const NOT_FOUND_WORD: &'static str = "not_found";

/// An error report, scrubbed.
#[derive(Clone, Debug, PartialEq, Eq)]
pub struct TelemetryErrorDetail {
    pub kind: String,
    pub signature: String,
    pub source: Option<String>,
    pub code: Option<String>,
    pub name: Option<String>,
    pub summary: Option<String>,
    pub app_version: Option<String>,
    pub count: u32,
}

/// The text with every match of `pattern` replaced, as the `regex` crate
/// does it; a match equal to `keep` stays. `None` when the pattern does not
/// compile.
pub uninterp spec fn regex_replaced(
    pattern: Seq<char>,
    text: Seq<char>,
    replacement: Seq<char>,
    keep: Option<Seq<char>>,
) -> Option<Seq<char>>;

/// What a match becomes: itself when it is the kept word, else the
/// replacement.
pub fn replacement_for(matched: &str, replacement: &str, keep: Option<&str>) -> (r: String)
    ensures
        r@ == match keep {
            Some(k) => if matched@ == k@ {
                matched@
            } else {
                replacement@
            },
            None => replacement@,
        },
{
    match keep {
        Some(k) => {
            if str_eq(matched, k) {
                matched.to_string()
            } else {
                replacement.to_string()
            }
        },
        None => replacement.to_string(),
    }
}

/// Wrapper of `regex::Regex::new` and `Regex::replace_all`, each match
/// handed to `replacement_for`: the result is only named.
#[verifier::external_body]
fn regex_replace_all(pattern: &str, text: &str, replacement: &str, keep: Option<&str>) -> (r: Option<
    String,
>)
    ensures
        match r {
            Some(s) => regex_replaced(pattern@, text@, replacement@, opt_view(keep)) == Some(s@),
            None => regex_replaced(pattern@, text@, replacement@, opt_view(keep)) is None,
        },
{
    match regex::Regex::new(pattern) {
        Ok(re) => Some(
            re.replace_all(
                text,
                |c: &regex::Captures<'_>| replacement_for(&c[0], replacement, keep),
            ).into_owned(),
        ),
        Err(_) => None,
    }
}

pub open spec fn opt_view(o: Option<&str>) -> Option<Seq<char>> {
    match o {
        Some(s) => Some(s@),
        None => None,
    }
}

/// The first `n` characters.
pub open spec fn truncated(s: Seq<char>, n: int) -> Seq<char> {
    if s.len() <= n {
        s
    } else {
        s.take(n)
    }
}

/// `s.chars().take(max_len).collect()`.
pub fn truncate_chars(value: &str, max_len: usize) -> (r: String)
    ensures
        r@ == truncated(value@, max_len as int),
{
    let v = chars_of(value);
    let end = if v.len() <= max_len {
        v.len()
    } else {
        max_len
    };
    let r = string_from_range(&v, 0, end);
    proof {
        if v.len() <= max_len {
            assert(v@.subrange(0, end as int) =~= v@);
        } else {
            assert(v@.subrange(0, end as int) =~= v@.take(max_len as int));
        }
    }
    r
}

/// The steps of the summary scrub, one after the other.
pub open spec fn scrubbed(value: Seq<char>) -> Option<Seq<char>> {
    match regex_replaced(ISO_LINE_PREFIX_PATTERN@, value, ""@, None) {
        None => None,
        Some(a) => match regex_replaced(URL_PATTERN@, a, "<url>"@, None) {
            None => None,
            Some(b) => match regex_replaced(WINDOWS_PATH_PATTERN@, b, "<path>"@, None) {
                None => None,
                Some(c) => match regex_replaced(SLASH_PATH_PATTERN@, c, " <path>"@, None) {
                    None => None,
                    Some(d) => match regex_replaced(VRCHAT_ID_PATTERN@, d, "<id>"@, None) {
                        None => None,
                        Some(e) => match regex_replaced(
                            NOTIFICATION_ID_PATTERN@,
                            e,
                            "<id>"@,
                            Some(NOT_FOUND_WORD@),
                        ) {
                            None => None,
                            Some(f) => match regex_replaced(PROVIDER_ID_PATTERN@, f, "<id>"@, None) {
                                None => None,
                                Some(g) => match regex_replaced(UUID_PATTERN@, g, "<uuid>"@, None) {
                                    None => None,
                                    Some(h) => match regex_replaced(
                                        LONG_HEX_PATTERN@,
                                        h,
                                        "<hash>"@,
                                        None,
                                    ) {
                                        None => None,
                                        Some(i) => match regex_replaced(
                                            LONG_TOKEN_PATTERN@,
                                            i,
                                            "<token>"@,
                                            None,
                                        ) {
                                            None => None,
                                            Some(j) => regex_replaced(
                                                WHITESPACE_PATTERN@,
                                                j,
                                                " "@,
                                                None,
                                            ),
                                        },
                                    },
                                },
                            },
                        },
                    },
                },
            },
        },
    }
}

/// One step of a scrub: a pattern, what its matches become, and the match
/// that is left as it stands.
pub type ScrubStep = (Seq<char>, Seq<char>, Option<Seq<char>>);

/// The text after the steps, applied in order; `None` when a pattern does
/// not compile.
pub open spec fn after_steps(steps: Seq<ScrubStep>, text: Seq<char>) -> Option<Seq<char>>
    decreases steps.len(),
{
    if steps.len() == 0 {
        Some(text)
    } else {
        match regex_replaced(steps[0].0, text, steps[0].1, steps[0].2) {
            None => None,
            Some(t) => after_steps(steps.drop_first(), t),
        }
    }
}

/// A summary is scrubbed by these eleven steps, in this order: line
/// timestamps dropped, then URLs, Windows and slash paths, VRChat ids,
/// notification ids (but `not_found`), provider ids, UUIDs, long hex runs
/// and long tokens replaced by their placeholders, and whitespace runs made
/// one space.
pub proof fn law_summary_scrub_steps(value: Seq<char>)
    ensures
        scrubbed(value) == after_steps(
            seq![
                (ISO_LINE_PREFIX_PATTERN@, ""@, None::<Seq<char>>),
                (URL_PATTERN@, "<url>"@, None),
                (WINDOWS_PATH_PATTERN@, "<path>"@, None),
                (SLASH_PATH_PATTERN@, " <path>"@, None),
                (VRCHAT_ID_PATTERN@, "<id>"@, None),
                (NOTIFICATION_ID_PATTERN@, "<id>"@, Some(NOT_FOUND_WORD@)),
                (PROVIDER_ID_PATTERN@, "<id>"@, None),
                (UUID_PATTERN@, "<uuid>"@, None),
                (LONG_HEX_PATTERN@, "<hash>"@, None),
                (LONG_TOKEN_PATTERN@, "<token>"@, None),
                (WHITESPACE_PATTERN@, " "@, None),
            ],
            value,
        ),
{
    let steps: Seq<ScrubStep> = seq![
        (ISO_LINE_PREFIX_PATTERN@, ""@, None::<Seq<char>>),
        (URL_PATTERN@, "<url>"@, None),
        (WINDOWS_PATH_PATTERN@, "<path>"@, None),
        (SLASH_PATH_PATTERN@, " <path>"@, None),
        (VRCHAT_ID_PATTERN@, "<id>"@, None),
        (NOTIFICATION_ID_PATTERN@, "<id>"@, Some(NOT_FOUND_WORD@)),
        (PROVIDER_ID_PATTERN@, "<id>"@, None),
        (UUID_PATTERN@, "<uuid>"@, None),
        (LONG_HEX_PATTERN@, "<hash>"@, None),
        (LONG_TOKEN_PATTERN@, "<token>"@, None),
        (WHITESPACE_PATTERN@, " "@, None),
    ];
    reveal_with_fuel(after_steps, 12);
    assert(steps.drop_first() =~= steps.skip(1));
    assert(steps.skip(1).drop_first() =~= steps.skip(2));
    assert(steps.skip(2).drop_first() =~= steps.skip(3));
    assert(steps.skip(3).drop_first() =~= steps.skip(4));
    assert(steps.skip(4).drop_first() =~= steps.skip(5));
    assert(steps.skip(5).drop_first() =~= steps.skip(6));
    assert(steps.skip(6).drop_first() =~= steps.skip(7));
    assert(steps.skip(7).drop_first() =~= steps.skip(8));
    assert(steps.skip(8).drop_first() =~= steps.skip(9));
    assert(steps.skip(9).drop_first() =~= steps.skip(10));
    assert(steps.skip(10).drop_first() =~= steps.skip(11));
    assert(steps.skip(11).len() == 0);
}

/// A scrubbed summary: addresses, paths, ids, uuids, hashes and long tokens
/// replaced by placeholders, a leading timestamp of each line dropped,
/// whitespace runs made one space, trimmed and cut to
/// `MAX_SUMMARY_LENGTH` characters. Empty where a pattern does not compile.
pub fn sanitize_error_summary(value: &str) -> (r: String)
    ensures
        r@ == match scrubbed(value@) {
            Some(t) => truncated(trim(t), MAX_SUMMARY_LENGTH as int),
            None => Seq::<char>::empty(),
        },
{
    let a = match regex_replace_all(ISO_LINE_PREFIX_PATTERN, value, "", None) {
        Some(x) => x,
        None => {
            return String::new();
        },
    };
    let b = match regex_replace_all(URL_PATTERN, a.as_str(), "<url>", None) {
        Some(x) => x,
        None => {
            return String::new();
        },
    };
    let c = match regex_replace_all(WINDOWS_PATH_PATTERN, b.as_str(), "<path>", None) {
        Some(x) => x,
        None => {
            return String::new();
        },
    };
    let d = match regex_replace_all(SLASH_PATH_PATTERN, c.as_str(), " <path>", None) {
        Some(x) => x,
        None => {
            return String::new();
        },
    };
    let e = match regex_replace_all(VRCHAT_ID_PATTERN, d.as_str(), "<id>", None) {
        Some(x) => x,
        None => {
            return String::new();
        },
    };
    let f = match regex_replace_all(NOTIFICATION_ID_PATTERN, e.as_str(), "<id>", Some(NOT_FOUND_WORD)) {
        Some(x) => x,
        None => {
            return String::new();
        },
    };
    let g = match regex_replace_all(PROVIDER_ID_PATTERN, f.as_str(), "<id>", None) {
        Some(x) => x,
        None => {
            return String::new();
        },
    };
    let h = match regex_replace_all(UUID_PATTERN, g.as_str(), "<uuid>", None) {
        Some(x) => x,
        None => {
            return String::new();
        },
    };
    let i = match regex_replace_all(LONG_HEX_PATTERN, h.as_str(), "<hash>", None) {
        Some(x) => x,
        None => {
            return String::new();
        },
    };
    let j = match regex_replace_all(LONG_TOKEN_PATTERN, i.as_str(), "<token>", None) {
        Some(x) => x,
        None => {
            return String::new();
        },
    };
    let k = match regex_replace_all(WHITESPACE_PATTERN, j.as_str(), " ", None) {
        Some(x) => x,
        None => {
            return String::new();
        },
    };
    let t = trim_str(k.as_str());
    truncate_chars(t.as_str(), MAX_SUMMARY_LENGTH)
}

/// The text without leading and trailing underscores.
pub open spec fn underscores_trimmed(s: Seq<char>) -> Seq<char>
    decreases s.len(),
{
    if s.len() > 0 && s[0] == '_' {
        underscores_trimmed(s.drop_first())
    } else if s.len() > 0 && s.last() == '_' {
        underscores_trimmed(s.drop_last())
    } else {
        s
    }
}

/// `str::trim_matches('_')`.
pub fn trim_underscores(value: &str) -> (r: String)
    ensures
        r@ == underscores_trimmed(value@),
{
    let v = chars_of(value);
    let mut i: usize = 0;
    let mut j: usize = v.len();
    proof {
        assert(v@.subrange(0, v@.len() as int) =~= v@);
    }
    while i < j && v[i] == '_'
        invariant
            i <= j == v.len(),
            v@ == value@,
            underscores_trimmed(value@) == underscores_trimmed(v@.subrange(i as int, j as int)),
        decreases j - i,
    {
        proof {
            assert(v@.subrange(i as int, j as int).drop_first() =~= v@.subrange(i + 1, j as int));
        }
        i = i + 1;
    }
    while j > i && v[j - 1] == '_'
        invariant
            i <= j <= v.len(),
            v@ == value@,
            j > i ==> v@[i as int] != '_',
            underscores_trimmed(value@) == underscores_trimmed(v@.subrange(i as int, j as int)),
        decreases j - i,
    {
        proof {
            let s = v@.subrange(i as int, j as int);
            assert(s[0] != '_');
            assert(s.drop_last() =~= v@.subrange(i as int, j - 1));
        }
        j = j - 1;
    }
    proof {
        let s = v@.subrange(i as int, j as int);
        if s.len() > 0 {
            assert(s[0] == v@[i as int]);
            assert(s.last() == v@[j - 1]);
        }
    }
    string_from_range(&v, i, j)
}

/// A scrubbed token: trimmed, runs of characters outside the allowed set
/// made `_`, underscores trimmed, cut to `MAX_TOKEN_LENGTH`; none where
/// nothing is left (or the pattern does not compile).
pub open spec fn token_of(value: Option<Seq<char>>, pattern: Seq<char>) -> Option<Seq<char>> {
    let v = match value {
        Some(s) => trim(s),
        None => Seq::empty(),
    };
    match regex_replaced(pattern, v, "_"@, None) {
        Some(t) => {
            let u = underscores_trimmed(t);
            if u.len() > 0 {
                Some(truncated(u, MAX_TOKEN_LENGTH as int))
            } else {
                None
            }
        },
        None => None,
    }
}

fn sanitize_with(value: Option<&str>, pattern: &str) -> (r: Option<String>)
    ensures
        match r {
            Some(t) => token_of(opt_view(value), pattern@) == Some(t@),
            None => token_of(opt_view(value), pattern@) is None,
        },
{
    let v = match value {
        Some(s) => trim_str(s),
        None => String::new(),
    };
    let replaced = match regex_replace_all(pattern, v.as_str(), "_", None) {
        Some(x) => x,
        None => {
            return None;
        },
    };
    let u = trim_underscores(replaced.as_str());
    if u.as_str().is_empty() {
        None
    } else {
        Some(truncate_chars(u.as_str(), MAX_TOKEN_LENGTH))
    }
}

pub fn sanitize_error_token(value: Option<&str>) -> (r: Option<String>)
    ensures
        match r {
            Some(t) => token_of(opt_view(value), SAFE_TOKEN_PATTERN@) == Some(t@),
            None => token_of(opt_view(value), SAFE_TOKEN_PATTERN@) is None,
        },
{
    sanitize_with(value, SAFE_TOKEN_PATTERN)
}

pub fn sanitize_app_version(value: Option<&str>) -> (r: Option<String>)
    ensures
        match r {
            Some(t) => token_of(opt_view(value), SAFE_VERSION_PATTERN@) == Some(t@),
            None => token_of(opt_view(value), SAFE_VERSION_PATTERN@) is None,
        },
{
    sanitize_with(value, SAFE_VERSION_PATTERN)
}

/// The hash of a text, as eight lower-case hex digits.
pub fn hash_string(value: &str) -> (r: String)
    ensures
        r@ == hex8(fnv1a_utf16(value@)),
{
    to_hex8(fnv1a_utf16_hash(value))
}

pub open spec fn part_or_dash(o: Option<Seq<char>>) -> Seq<char> {
    match o {
        Some(s) => s,
        None => "-"@,
    }
}

pub open spec fn opt_string(o: Option<String>) -> Option<Seq<char>> {
    match o {
        Some(s) => Some(s@),
        None => None,
    }
}

/// The text the signature of a report hashes: kind, source, code, name and
/// summary joined by `|`, a dash for each one missing.
pub open spec fn signature_text(
    kind: Seq<char>,
    source: Option<Seq<char>>,
    code: Option<Seq<char>>,
    name: Option<Seq<char>>,
    summary: Option<Seq<char>>,
) -> Seq<char> {
    kind + "|"@ + part_or_dash(source) + "|"@ + part_or_dash(code) + "|"@ + part_or_dash(name)
        + "|"@ + part_or_dash(summary)
}

fn append_part(out: &mut String, part: &Option<String>)
    ensures
        final(out)@ == old(out)@ + "|"@ + part_or_dash(opt_string(*part)),
{
    out.append("|");
    match part {
        Some(p) => out.append(p.as_str()),
        None => out.append("-"),
    }
}

/// A scrubbed error report, counted once, with a signature that names its
/// kind and hashes its scrubbed parts.
pub fn build_error_detail(
    kind: &str,
    source: Option<&str>,
    code: Option<&str>,
    name: Option<&str>,
    summary: Option<&str>,
    app_version: Option<&str>,
) -> (r: TelemetryErrorDetail)
    ensures
        r.kind@ == kind@,
        opt_string(r.source) == token_of(opt_view(source), SAFE_TOKEN_PATTERN@),
        opt_string(r.code) == token_of(opt_view(code), SAFE_TOKEN_PATTERN@),
        opt_string(r.name) == token_of(opt_view(name), SAFE_TOKEN_PATTERN@),
        opt_string(r.app_version) == token_of(opt_view(app_version), SAFE_VERSION_PATTERN@),
        opt_string(r.summary) == match summary {
            Some(s) => {
                let t = match scrubbed(s@) {
                    Some(x) => truncated(trim(x), MAX_SUMMARY_LENGTH as int),
                    None => Seq::<char>::empty(),
                };
                if t.len() > 0 {
                    Some(t)
                } else {
                    None
                }
            },
            None => None,
        },
        r.signature@ == kind@ + ":"@ + hex8(
            fnv1a_utf16(
                signature_text(
                    kind@,
                    opt_string(r.source),
                    opt_string(r.code),
                    opt_string(r.name),
                    opt_string(r.summary),
                ),
            ),
        ),
        r.count == 1,
{
    let source = sanitize_error_token(source);
    let code = sanitize_error_token(code);
    let name = sanitize_error_token(name);
    let summary = match summary {
        Some(s) => {
            let t = sanitize_error_summary(s);
            if t.as_str().is_empty() {
                None
            } else {
                Some(t)
            }
        },
        None => None,
    };
    let app_version = sanitize_app_version(app_version);
    let mut stable = kind.to_string();
    append_part(&mut stable, &source);
    append_part(&mut stable, &code);
    append_part(&mut stable, &name);
    append_part(&mut stable, &summary);
    let mut signature = kind.to_string();
    signature.append(":");
    let h = hash_string(stable.as_str());
    signature.append(h.as_str());
    TelemetryErrorDetail {
        kind: kind.to_string(),
        signature,
        source,
        code,
        name,
        summary,
        app_version,
        count: 1,
    }
}

} // verus!
