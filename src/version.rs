//! Version tokens: parsing a requested version, printing it back, and the
//! major-version compatibility gate.

use vstd::prelude::*;
use vstd::string::StrSliceExecFns;
use vstd::string::StringExecFns;
use crate::text::{before_first, chars_of, find_char, text_eq};

verus! {

/// The components of a semantic version: major, minor, patch, pre-release
/// text and build-metadata text (the last two empty when absent).
pub type VersionParts = (u64, u64, u64, Seq<char>, Seq<char>);

/// A three-component semantic version with optional pre-release and build
/// metadata, held as plain values.
#[derive(Debug)]
pub struct Version {
    pub major: u64,
    pub minor: u64,
    pub patch: u64,
    pub pre: String,
    pub build: String,
}

impl View for Version {
    type V = VersionParts;

    open spec fn view(&self) -> VersionParts {
        (self.major, self.minor, self.patch, self.pre@, self.build@)
    }
}

/// The character for a decimal digit.
pub open spec fn digit_char(d: nat) -> char {
    if d == 0 { '0' }
    else if d == 1 { '1' }
    else if d == 2 { '2' }
    else if d == 3 { '3' }
    else if d == 4 { '4' }
    else if d == 5 { '5' }
    else if d == 6 { '6' }
    else if d == 7 { '7' }
    else if d == 8 { '8' }
    else { '9' }
}

pub open spec fn is_digit(c: char) -> bool {
    '0' <= c && c <= '9'
}

/// The decimal notation of `n`, without leading zeros.
pub open spec fn decimal(n: nat) -> Seq<char>
    decreases n,
{
    if n < 10 {
        seq![digit_char(n)]
    } else {
        decimal(n / 10).push(digit_char(n % 10))
    }
}

/// How a version is written: `major.minor.patch`, then `-pre` and `+build`
/// where those are not empty.
pub open spec fn version_text(v: VersionParts) -> Seq<char> {
    decimal(v.0 as nat) + seq!['.'] + decimal(v.1 as nat) + seq!['.'] + decimal(v.2 as nat)
        + (if v.3.len() > 0 { seq!['-'] + v.3 } else { Seq::empty() })
        + (if v.4.len() > 0 { seq!['+'] + v.4 } else { Seq::empty() })
}

/// What `semver::Version::parse` yields for a text: the parsed components, or
/// `None` where the text is not a strict semantic version.
pub uninterp spec fn semver_of(text: Seq<char>) -> Option<VersionParts>;

#[verifier::external_type_specification]
#[verifier::external_body]
pub struct ExSemverError(semver::Error);

/// Relies on `semver::Version::parse`, which accepts a strict
/// `major.minor.patch[-pre][+build]` with no surrounding text. Its numbers
/// carry no leading zeros and its pre-release and build identifiers are kept
/// as written, so the parsed version prints back as the input; and three
/// 64-bit numbers written without leading zeros and joined by dots parse to
/// those numbers.
#[verifier::external_body]
fn parse_semver(text: &str) -> (r: Result<Version, semver::Error>)
    ensures
        r is Ok <==> semver_of(text@) is Some,
        r matches Ok(v) ==> semver_of(text@) == Some(v@) && version_text(v@) == text@,
        forall|p: VersionParts|
            p.3.len() == 0 && p.4.len() == 0 && #[trigger] version_text(p) == text@
                ==> r is Ok && r->Ok_0@ == p,
{
    match semver::Version::parse(text) {
        Ok(v) => Ok(Version {
            major: v.major,
            minor: v.minor,
            patch: v.patch,
            pre: v.pre.as_str().to_owned(),
            build: v.build.as_str().to_owned(),
        }),
        Err(e) => Err(e),
    }
}

/// The one-character text of a decimal digit.
fn digit_text(d: u64) -> (r: &'static str)
    requires
        d < 10,
    ensures
        r@ == seq![digit_char(d as nat)],
{
    proof {
        reveal_strlit("0"); reveal_strlit("1"); reveal_strlit("2"); reveal_strlit("3");
        reveal_strlit("4"); reveal_strlit("5"); reveal_strlit("6"); reveal_strlit("7");
        reveal_strlit("8"); reveal_strlit("9");
    }
    let r = if d == 0 { "0" }
    else if d == 1 { "1" }
    else if d == 2 { "2" }
    else if d == 3 { "3" }
    else if d == 4 { "4" }
    else if d == 5 { "5" }
    else if d == 6 { "6" }
    else if d == 7 { "7" }
    else if d == 8 { "8" }
    else { "9" };
    assert(r@ =~= seq![digit_char(d as nat)]);
    r
}

/// Appends the decimal notation of `n`.
fn push_decimal(s: &mut String, n: u64)
    ensures
        final(s)@ == old(s)@ + decimal(n as nat),
    decreases n,
{
    if n >= 10 {
        push_decimal(s, n / 10);
    }
    s.append(digit_text(n % 10));
    assert(final(s)@ =~= old(s)@ + decimal(n as nat));
}

impl Version {
    /// Writes the version as `major.minor.patch[-pre][+build]`.
    pub fn to_string(&self) -> (r: String)
        ensures
            r@ == version_text(self@),
    {
        proof {
            reveal_strlit(".");
            reveal_strlit("-");
            reveal_strlit("+");
        }
        let mut r = String::new();
        push_decimal(&mut r, self.major);
        r.append(".");
        push_decimal(&mut r, self.minor);
        r.append(".");
        push_decimal(&mut r, self.patch);
        if self.pre.as_str().unicode_len() > 0 {
            r.append("-");
            r.append(self.pre.as_str());
        }
        if self.build.as_str().unicode_len() > 0 {
            r.append("+");
            r.append(self.build.as_str());
        }
        assert(r@ =~= version_text(self@));
        r
    }
}

/// A requested version: a specific release, or one of the two sentinels.
#[derive(Debug)]
pub enum VersionEnum {
    Version(Version),
    Latest,
    Nightly,
}

/// The mathematical value of a [`VersionEnum`].
pub enum VersionModel {
    Specific(VersionParts),
    Latest,
    Nightly,
}

impl View for VersionEnum {
    type V = VersionModel;

    open spec fn view(&self) -> VersionModel {
        match self {
            VersionEnum::Version(v) => VersionModel::Specific(v@),
            VersionEnum::Latest => VersionModel::Latest,
            VersionEnum::Nightly => VersionModel::Nightly,
        }
    }
}

/// A token that is neither a sentinel nor a semantic version.
#[derive(Debug)]
pub struct ParseError {
    /// The token as it was given.
    pub token: String,
}

/// The token without one leading `v` or `V`.
pub open spec fn strip_v(s: Seq<char>) -> Seq<char> {
    if s.len() > 0 && (s[0] == 'v' || s[0] == 'V') {
        s.drop_first()
    } else {
        s
    }
}

/// What a token denotes: `latest` and `nightly` (exactly so) are the
/// sentinels; anything else, after one optional `v`/`V`, must be a semantic
/// version.
pub open spec fn parse_model(s: Seq<char>) -> Option<VersionModel> {
    if s == "latest"@ {
        Some(VersionModel::Latest)
    } else if s == "nightly"@ {
        Some(VersionModel::Nightly)
    } else {
        match semver_of(strip_v(s)) {
            Some(p) => Some(VersionModel::Specific(p)),
            None => None,
        }
    }
}

/// How a requested version is written.
pub open spec fn model_text(m: VersionModel) -> Seq<char> {
    match m {
        VersionModel::Specific(p) => version_text(p),
        VersionModel::Latest => "latest"@,
        VersionModel::Nightly => "nightly"@,
    }
}

proof fn lemma_decimal_starts_with_digit(n: nat)
    ensures
        decimal(n).len() > 0,
        is_digit(decimal(n)[0]),
    decreases n,
{
    if n >= 10 {
        lemma_decimal_starts_with_digit(n / 10);
    }
}

/// A version's text starts with a digit, so it is no sentinel and carries no
/// `v` prefix.
proof fn lemma_version_text_is_plain(p: VersionParts)
    ensures
        version_text(p).len() > 0,
        is_digit(version_text(p)[0]),
        version_text(p) != "latest"@,
        version_text(p) != "nightly"@,
        strip_v(version_text(p)) == version_text(p),
{
    lemma_decimal_starts_with_digit(p.0 as nat);
    let t = version_text(p);
    assert(t[0] == decimal(p.0 as nat)[0]);
    reveal_strlit("latest");
    reveal_strlit("nightly");
    assert("latest"@[0] == 'l');
    assert("nightly"@[0] == 'n');
}

/// A text that starts with a digit reads the same with one leading `v` or
/// `V`.
proof fn lemma_prefix_forms(s: Seq<char>)
    requires
        semver_of(s) is Some,
        s.len() > 0,
        is_digit(s[0]),
    ensures
        parse_model(s) == Some(VersionModel::Specific(semver_of(s)->0)),
        parse_model(seq!['v'] + s) == parse_model(s),
        parse_model(seq!['V'] + s) == parse_model(s),
{
    reveal_strlit("latest");
    reveal_strlit("nightly");
    assert(s != "latest"@ && s != "nightly"@) by {
        assert("latest"@[0] == 'l');
        assert("nightly"@[0] == 'n');
    }
    let sv = seq!['v'] + s;
    let sV = seq!['V'] + s;
    assert(sv != "latest"@ && sv != "nightly"@) by {
        assert(sv[0] == 'v');
        assert("latest"@[0] == 'l');
        assert("nightly"@[0] == 'n');
    }
    assert(sV != "latest"@ && sV != "nightly"@) by {
        assert(sV[0] == 'V');
        assert("latest"@[0] == 'l');
        assert("nightly"@[0] == 'n');
    }
    assert(strip_v(sv) =~= s);
    assert(strip_v(sV) =~= s);
    assert(strip_v(s) == s);
}

/// `latest` and `nightly` are the sentinels; any other token is accepted
/// only where, without one leading `v` or `V`, it is a semantic version.
pub proof fn lemma_sentinels_and_rejection(s: Seq<char>)
    ensures
        parse_model("latest"@) == Some(VersionModel::Latest),
        parse_model("nightly"@) == Some(VersionModel::Nightly),
        s != "latest"@ && s != "nightly"@ && semver_of(strip_v(s)) is None ==> parse_model(s) is None,
{
    reveal_strlit("latest");
    reveal_strlit("nightly");
    assert("nightly"@ != "latest"@) by {
        assert("nightly"@.len() != "latest"@.len());
    }
}

impl VersionEnum {
    /// Parses a requested version. `latest` and `nightly` are taken as they
    /// stand; otherwise one leading `v` or `V` is dropped and the rest must
    /// be a strict semantic version. Nothing else is trimmed.
    pub fn from_str(s: &str) -> (r: Result<VersionEnum, ParseError>)
        ensures
            match r {
                Ok(v) => parse_model(s@) == Some(v@),
                Err(e) => parse_model(s@) is None && e.token@ == s@,
            },
            r matches Ok(VersionEnum::Version(v)) ==> version_text(v@) == strip_v(s@),
            r matches Ok(VersionEnum::Version(_)) ==> parse_model(strip_v(s@)) == parse_model(s@)
                && parse_model(seq!['v'] + strip_v(s@)) == parse_model(s@)
                && parse_model(seq!['V'] + strip_v(s@)) == parse_model(s@),
            forall|p: VersionParts|
                p.3.len() == 0 && p.4.len() == 0 && #[trigger] version_text(p) == strip_v(s@)
                    ==> (r matches Ok(VersionEnum::Version(v)) && v@ == p),
            r matches Ok(v) ==> parse_model(model_text(v@)) == Some(v@),
    {
        proof {
            reveal_strlit("latest");
            reveal_strlit("nightly");
        }
        if text_eq(s, "latest") || text_eq(s, "nightly") {
            proof {
                assert(strip_v(s@) == s@) by {
                    assert("latest"@[0] == 'l');
                    assert("nightly"@[0] == 'n');
                }
                assert forall|p: VersionParts| #[trigger] version_text(p) != strip_v(s@) by {
                    lemma_version_text_is_plain(p);
                }
            }
            if text_eq(s, "latest") {
                return Ok(VersionEnum::Latest);
            }
            return Ok(VersionEnum::Nightly);
        }
        let n = s.unicode_len();
        let rest = if n > 0 && (s.get_char(0) == 'v' || s.get_char(0) == 'V') {
            s.substring_char(1, n)
        } else {
            s
        };
        assert(rest@ =~= strip_v(s@));
        match parse_semver(rest) {
            Ok(v) => {
                proof {
                    lemma_version_text_is_plain(v@);
                    lemma_prefix_forms(rest@);
                }
                Ok(VersionEnum::Version(v))
            },
            Err(_) => Err(ParseError { token: s.to_owned() }),
        }
    }

    /// Writes the requested version back out: the version's own text, or the
    /// sentinel's name.
    pub fn to_string(&self) -> (r: String)
        ensures
            r@ == model_text(self@),
    {
        match self {
            VersionEnum::Version(v) => v.to_string(),
            VersionEnum::Latest => "latest".to_owned(),
            VersionEnum::Nightly => "nightly".to_owned(),
        }
    }
}

/// The value of a string of decimal digits.
pub open spec fn digits_value(s: Seq<char>) -> nat
    decreases s.len(),
{
    if s.len() == 0 {
        0
    } else {
        digits_value(s.drop_last()) * 10 + (s.last() as int - '0' as int) as nat
    }
}

pub open spec fn all_digits(s: Seq<char>) -> bool {
    forall|i: int| 0 <= i < s.len() ==> is_digit(s[i])
}

/// The leading dotted component of a version string read as a number: it
/// must be a non-empty run of decimal digits, of any length.
pub open spec fn major_component(s: Seq<char>) -> Option<nat> {
    let seg = before_first(s, '.');
    if seg.len() > 0 && all_digits(seg) {
        Some(digits_value(seg))
    } else {
        None
    }
}

/// Moving from `current` to `target` raises the major component. Where
/// either has no numeric major component there is no major bump.
pub open spec fn major_bump(current: Seq<char>, target: Seq<char>) -> bool {
    match (major_component(current), major_component(target)) {
        (Some(a), Some(b)) => a < b,
        _ => false,
    }
}

/// `k` zero digits.
pub open spec fn zeros(k: nat) -> Seq<char> {
    Seq::new(k, |i: int| '0')
}

proof fn lemma_zeros_value(k: nat)
    ensures
        digits_value(zeros(k)) == 0,
    decreases k,
{
    if k > 0 {
        assert(zeros(k).drop_last() =~= zeros((k - 1) as nat));
        lemma_zeros_value((k - 1) as nat);
    }
}

/// Leading zeros do not change a value.
proof fn lemma_padded_value(k: nat, s: Seq<char>)
    ensures
        digits_value(zeros(k) + s) == digits_value(s),
    decreases s.len(),
{
    if s.len() == 0 {
        assert(zeros(k) + s =~= zeros(k));
        lemma_zeros_value(k);
    } else {
        assert((zeros(k) + s).drop_last() =~= zeros(k) + s.drop_last());
        lemma_padded_value(k, s.drop_last());
    }
}

/// The digits of `s`, with leading zeros so that there are `n` of them.
fn pad_digits(s: &Vec<char>, n: usize) -> (r: Vec<char>)
    requires
        s.len() <= n,
    ensures
        r@ == zeros((n - s.len()) as nat) + s@,
{
    let k = n - s.len();
    let mut r: Vec<char> = Vec::new();
    let mut i: usize = 0;
    while i < k
        invariant
            i <= k,
            r@ == zeros(i as nat),
        decreases k - i,
    {
        r.push('0');
        assert(r@ =~= zeros((i + 1) as nat));
        i = i + 1;
    }
    let mut j: usize = 0;
    while j < s.len()
        invariant
            k == n - s.len(),
            j <= s.len(),
            r@ == zeros(k as nat) + s@.subrange(0, j as int),
        decreases s.len() - j,
    {
        r.push(s[j]);
        assert(r@ =~= zeros(k as nat) + s@.subrange(0, j + 1));
        j = j + 1;
    }
    assert(s@.subrange(0, s.len() as int) =~= s@);
    r
}

/// Whether the value of the digit run `a` is below that of `b`, for runs of
/// any length.
fn digits_less(a: &Vec<char>, b: &Vec<char>) -> (r: bool)
    requires
        all_digits(a@),
        all_digits(b@),
    ensures
        r == (digits_value(a@) < digits_value(b@)),
{
    let n = if a.len() < b.len() { b.len() } else { a.len() };
    let pa = pad_digits(a, n);
    let pb = pad_digits(b, n);
    proof {
        lemma_padded_value((n - a.len()) as nat, a@);
        lemma_padded_value((n - b.len()) as nat, b@);
        assert(pa@.subrange(0, n as int) =~= pa@);
        assert(pb@.subrange(0, n as int) =~= pb@);
    }
    assert(all_digits(pa@)) by {
        assert forall|i: int| 0 <= i < pa@.len() implies is_digit(pa@[i]) by {
            if i >= n - a.len() {
                assert(pa@[i] == a@[i - (n - a.len())]);
            }
        }
    }
    assert(all_digits(pb@)) by {
        assert forall|i: int| 0 <= i < pb@.len() implies is_digit(pb@[i]) by {
            if i >= n - b.len() {
                assert(pb@[i] == b@[i - (n - b.len())]);
            }
        }
    }
    let mut less = false;
    let mut greater = false;
    let mut i: usize = 0;
    while i < n
        invariant
            pa.len() == n,
            pb.len() == n,
            all_digits(pa@),
            all_digits(pb@),
            i <= n,
            less == (digits_value(pa@.subrange(0, i as int)) < digits_value(pb@.subrange(0, i as int))),
            greater == (digits_value(pa@.subrange(0, i as int)) > digits_value(pb@.subrange(0, i as int))),
        decreases n - i,
    {
        let x = pa[i];
        let y = pb[i];
        let ghost va = digits_value(pa@.subrange(0, i as int));
        let ghost vb = digits_value(pb@.subrange(0, i as int));
        assert(pa@.subrange(0, i + 1).drop_last() =~= pa@.subrange(0, i as int));
        assert(pb@.subrange(0, i + 1).drop_last() =~= pb@.subrange(0, i as int));
        assert(is_digit(x) && is_digit(y));
        assert(digits_value(pa@.subrange(0, i + 1)) == va * 10 + (x as int - '0' as int));
        assert(digits_value(pb@.subrange(0, i + 1)) == vb * 10 + (y as int - '0' as int));
        if !less && !greater {
            less = x < y;
            greater = x > y;
        }
        i = i + 1;
    }
    less
}

/// The leading dotted component of `s`, where it is a non-empty run of
/// digits.
fn major_digits(s: &str) -> (r: Option<Vec<char>>)
    ensures
        match major_component(s@) {
            Some(v) => r matches Some(d) && all_digits(d@) && digits_value(d@) == v,
            None => r is None,
        },
{
    let x = chars_of(s);
    let end = match find_char(&x, '.') {
        Some(i) => i,
        None => x.len(),
    };
    let ghost seg = before_first(s@, '.');
    assert(seg =~= x@.subrange(0, end as int));
    if end == 0 {
        return None;
    }
    let mut d: Vec<char> = Vec::new();
    let mut i: usize = 0;
    while i < end
        invariant
            x@ == s@,
            end <= x.len(),
            seg == x@.subrange(0, end as int),
            seg == before_first(s@, '.'),
            i <= end,
            d@ == seg.subrange(0, i as int),
            all_digits(d@),
        decreases end - i,
    {
        let c = x[i];
        assert(seg[i as int] == c);
        if c < '0' || c > '9' {
            assert(!is_digit(seg[i as int]));
            return None;
        }
        d.push(c);
        assert(d@ =~= seg.subrange(0, i + 1));
        i = i + 1;
    }
    assert(d@ =~= seg);
    Some(d)
}

/// Whether moving from `current_version` to `new_version` raises the major
/// component. The components are compared as numbers, whatever their length,
/// so `9` to `10` is a major bump.
pub fn is_major_bump(current_version: &str, new_version: &str) -> (r: bool)
    ensures
        r == major_bump(current_version@, new_version@),
{
    match (major_digits(current_version), major_digits(new_version)) {
        (Some(a), Some(b)) => digits_less(&a, &b),
        _ => false,
    }
}

} // verus!
