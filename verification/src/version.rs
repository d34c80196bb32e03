//! Semantic versions, parsed and compared by the `semver` crate.

use vstd::prelude::*;
use crate::text::{append_str, decimal, decimal_string, digit_char};

verus! {

/// A semantic version: `MAJOR.MINOR.PATCH`, with optional pre-release and
/// build metadata (empty when absent).
#[derive(Debug, PartialEq, Eq)]
pub struct Version {
    pub major: u64,
    pub minor: u64,
    pub patch: u64,
    pub pre: String,
    pub build: String,
}

impl View for Version {
    type V = (u64, u64, u64, Seq<char>, Seq<char>);

    open spec fn view(&self) -> (u64, u64, u64, Seq<char>, Seq<char>) {
        (self.major, self.minor, self.patch, self.pre@, self.build@)
    }
}

/// A version as `semver::Version`'s `Display` writes it:
/// `MAJOR.MINOR.PATCH`, then `-PRE` and `+BUILD` when they are not empty.
pub open spec fn version_text(v: (u64, u64, u64, Seq<char>, Seq<char>)) -> Seq<char> {
    decimal(v.0 as nat) + "."@ + decimal(v.1 as nat) + "."@ + decimal(v.2 as nat) + (if v.3.len()
        == 0 {
        Seq::<char>::empty()
    } else {
        "-"@ + v.3
    }) + (if v.4.len() == 0 {
        Seq::<char>::empty()
    } else {
        "+"@ + v.4
    })
}

/// The characters that pre-release and build identifiers are made of:
/// ASCII letters and digits, `-` and `.`.
pub open spec fn identifier_chars(s: Seq<char>) -> bool {
    forall|i: int|
        0 <= i < s.len() ==> {
            let c = #[trigger] s[i];
            ('0' <= c <= '9') || ('a' <= c <= 'z') || ('A' <= c <= 'Z') || c == '-' || c == '.'
        }
}

/// Whether the `semver` crate accepts `text` as a version
/// (`semver::Version::parse` succeeds).
pub uninterp spec fn semver_accepts(text: Seq<char>) -> bool;

/// Whether version `a` comes before or is equal to version `b` in the order
/// of `semver::Version` (`a <= b`).
pub uninterp spec fn semver_le(
    a: (u64, u64, u64, Seq<char>, Seq<char>),
    b: (u64, u64, u64, Seq<char>, Seq<char>),
) -> bool;

/// `(major, minor, patch)` of `a` is lexicographically below that of `b`.
pub open spec fn core_before(
    a: (u64, u64, u64, Seq<char>, Seq<char>),
    b: (u64, u64, u64, Seq<char>, Seq<char>),
) -> bool {
    a.0 < b.0 || (a.0 == b.0 && a.1 < b.1) || (a.0 == b.0 && a.1 == b.1 && a.2 < b.2)
}

/// `semver::Error`, the error of `semver::Version::parse`, carried as an
/// opaque value.
#[verifier::external_type_specification]
#[verifier::external_body]
pub struct ExSemverError(semver::Error);

/// `semver::Version::parse`. Claims: it succeeds exactly when the crate
/// accepts the text (left unnamed beyond `semver_accepts`), and the
/// version it gives, written back out, is the text itself, with pre-release
/// and build made of identifier characters only. This follows from the
/// parser consuming the whole text, refusing leading zeros, and keeping
/// the pre-release and build texts as they stand.
#[verifier::external_body]
fn parse_semver(text: &str) -> (r: Result<Version, semver::Error>)
    ensures
        r is Ok <==> semver_accepts(text@),
        r matches Ok(v) ==> version_text(v@) == text@ && identifier_chars(v.pre@)
            && identifier_chars(v.build@),
{
    match semver::Version::parse(text) {
        Ok(v) => Ok(
            Version {
                major: v.major,
                minor: v.minor,
                patch: v.patch,
                pre: v.pre.as_str().to_string(),
                build: v.build.as_str().to_string(),
            },
        ),
        Err(e) => Err(e),
    }
}

/// `<=` on `semver::Version` (the derived order: major, minor, patch,
/// pre-release, build). Claims: the result is `semver_le` of the two, and
/// it is decided by `(major, minor, patch)` where those differ, and true
/// for equal versions. How pre-release and build are ordered is left to
/// the name. The versions are rebuilt from their parts, which succeeds for
/// versions the crate accepted.
#[verifier::external_body]
fn semver_le_of(a: &Version, b: &Version) -> (r: bool)
    requires
        a.is_semver(),
        b.is_semver(),
    ensures
        r == semver_le(a@, b@),
        core_before(a@, b@) ==> r,
        core_before(b@, a@) ==> !r,
        a@ == b@ ==> r,
{
    let x = semver::Version {
        major: a.major,
        minor: a.minor,
        patch: a.patch,
        pre: semver::Prerelease::new(&a.pre).expect("pre-release accepted by semver"),
        build: semver::BuildMetadata::new(&a.build).expect("build accepted by semver"),
    };
    let y = semver::Version {
        major: b.major,
        minor: b.minor,
        patch: b.patch,
        pre: semver::Prerelease::new(&b.pre).expect("pre-release accepted by semver"),
        build: semver::BuildMetadata::new(&b.build).expect("build accepted by semver"),
    };
    x <= y
}

impl Version {
    /// This version is one that the `semver` crate gives for its own text.
    pub open spec fn is_semver(&self) -> bool {
        &&& semver_accepts(version_text(self@))
        &&& identifier_chars(self.pre@)
        &&& identifier_chars(self.build@)
    }

    /// Parses a semantic version; `None` where the `semver` crate refuses
    /// the text.
    pub fn parse(text: &str) -> (r: Option<Version>)
        ensures
            r is Some <==> semver_accepts(text@),
            r matches Some(v) ==> version_text(v@) == text@ && v.is_semver(),
    {
        match parse_semver(text) {
            Ok(v) => Some(v),
            Err(_) => None,
        }
    }

    /// The version written out, as `Display` writes it.
    pub fn text(&self) -> (r: String)
        ensures
            r@ == version_text(self@),
    {
        let mut r = decimal_string(self.major);
        append_str(&mut r, ".");
        let minor = decimal_string(self.minor);
        append_str(&mut r, minor.as_str());
        append_str(&mut r, ".");
        let patch = decimal_string(self.patch);
        append_str(&mut r, patch.as_str());
        let ghost core = r@;
        let pre_len = self.pre.as_str().unicode_len();
        if pre_len > 0 {
            append_str(&mut r, "-");
            append_str(&mut r, self.pre.as_str());
        }
        assert(r@ =~= core + (if self.pre@.len() == 0 {
            Seq::<char>::empty()
        } else {
            "-"@ + self.pre@
        }));
        let ghost with_pre = r@;
        let build_len = self.build.as_str().unicode_len();
        if build_len > 0 {
            append_str(&mut r, "+");
            append_str(&mut r, self.build.as_str());
        }
        assert(r@ =~= with_pre + (if self.build@.len() == 0 {
            Seq::<char>::empty()
        } else {
            "+"@ + self.build@
        }));
        r
    }
}

/// Whether the installed version `current` is at least the `latest`
/// released one, in the order of the `semver` crate (`latest <= current`).
pub fn is_up_to_date(current: &Version, latest: &Version) -> (r: bool)
    requires
        current.is_semver(),
        latest.is_semver(),
    ensures
        r == semver_le(latest@, current@),
        core_before(latest@, current@) ==> r,
        core_before(current@, latest@) ==> !r,
        latest@ == current@ ==> r,
{
    semver_le_of(latest, current)
}

/// Whether `c` is a decimal digit.
pub open spec fn is_digit(c: char) -> bool {
    '0' <= c <= '9'
}

/// A decimal rendering is made of digits.
proof fn lemma_decimal_digits(n: nat)
    ensures
        decimal(n).len() >= 1,
        forall|i: int| 0 <= i < decimal(n).len() ==> is_digit(#[trigger] decimal(n)[i]),
    decreases n,
{
    if n >= 10 {
        lemma_decimal_digits(n / 10);
    }
}

proof fn lemma_digit_char_injective(a: nat, b: nat)
    requires
        a < 10,
        b < 10,
        digit_char(a) == digit_char(b),
    ensures
        a == b,
{
}

/// Different numbers have different decimal renderings.
proof fn lemma_decimal_injective(n: nat, m: nat)
    requires
        decimal(n) == decimal(m),
    ensures
        n == m,
    decreases n,
{
    if n < 10 && m < 10 {
        assert(decimal(n)[0] == digit_char(n));
        assert(decimal(m)[0] == digit_char(m));
        lemma_digit_char_injective(n, m);
    } else if n >= 10 && m >= 10 {
        assert(decimal(n).last() == decimal(m).last());
        assert(decimal(n).last() == digit_char(n % 10));
        assert(decimal(m).last() == digit_char(m % 10));
        assert(decimal(n).drop_last() =~= decimal(n / 10));
        assert(decimal(m).drop_last() =~= decimal(m / 10));
        lemma_decimal_injective(n / 10, m / 10);
        lemma_digit_char_injective(n % 10, m % 10);
        assert(n == (n / 10) * 10 + n % 10);
        assert(m == (m / 10) * 10 + m % 10);
    } else if n >= 10 {
        lemma_decimal_digits(n / 10);
        assert(decimal(n).len() == decimal(n / 10).len() + 1);
        assert(decimal(m).len() == 1);
    } else {
        lemma_decimal_digits(m / 10);
        assert(decimal(m).len() == decimal(m / 10).len() + 1);
        assert(decimal(n).len() == 1);
    }
}

/// Where `a` and `c` hold no stop character and `b` and `d` are empty or
/// start with one, `a + b == c + d` splits the same way on both sides.
proof fn lemma_split_at_stop(
    a: Seq<char>,
    b: Seq<char>,
    c: Seq<char>,
    d: Seq<char>,
    stop: spec_fn(char) -> bool,
)
    requires
        a + b == c + d,
        forall|i: int| 0 <= i < a.len() ==> !stop(#[trigger] a[i]),
        forall|i: int| 0 <= i < c.len() ==> !stop(#[trigger] c[i]),
        b.len() == 0 || stop(b[0]),
        d.len() == 0 || stop(d[0]),
    ensures
        a == c,
        b == d,
{
    if a.len() < c.len() {
        if b.len() > 0 {
            assert((a + b)[a.len() as int] == b[0]);
            assert((c + d)[a.len() as int] == c[a.len() as int]);
        } else {
            assert((a + b).len() < (c + d).len());
        }
    } else if c.len() < a.len() {
        if d.len() > 0 {
            assert((c + d)[c.len() as int] == d[0]);
            assert((a + b)[c.len() as int] == a[c.len() as int]);
        } else {
            assert((c + d).len() < (a + b).len());
        }
    }
    assert(a =~= (a + b).take(a.len() as int));
    assert(c =~= (c + d).take(c.len() as int));
    assert(b =~= (a + b).skip(a.len() as int));
    assert(d =~= (c + d).skip(c.len() as int));
}

/// The pre-release and build part of a version's text.
pub open spec fn suffix_text(pre: Seq<char>, build: Seq<char>) -> Seq<char> {
    (if pre.len() == 0 {
        Seq::<char>::empty()
    } else {
        "-"@ + pre
    }) + (if build.len() == 0 {
        Seq::<char>::empty()
    } else {
        "+"@ + build
    })
}

proof fn lemma_suffix_injective(p: Seq<char>, b: Seq<char>, q: Seq<char>, c: Seq<char>)
    requires
        identifier_chars(p),
        identifier_chars(b),
        identifier_chars(q),
        identifier_chars(c),
        suffix_text(p, b) == suffix_text(q, c),
    ensures
        p == q,
        b == c,
{
    reveal_strlit("-");
    reveal_strlit("+");
    let bp = if b.len() == 0 {
        Seq::<char>::empty()
    } else {
        "+"@ + b
    };
    let cq = if c.len() == 0 {
        Seq::<char>::empty()
    } else {
        "+"@ + c
    };
    let plus = |x: char| x == '+';
    if p.len() > 0 && q.len() > 0 {
        assert(suffix_text(p, b) =~= seq!['-'] + (p + bp));
        assert(suffix_text(q, c) =~= seq!['-'] + (q + cq));
        assert((p + bp) =~= suffix_text(p, b).drop_first());
        assert((q + cq) =~= suffix_text(q, c).drop_first());
        lemma_split_at_stop(p, bp, q, cq, plus);
    } else if p.len() > 0 {
        assert(suffix_text(p, b)[0] == '-');
        assert(suffix_text(q, c) =~= cq);
    } else if q.len() > 0 {
        assert(suffix_text(q, c)[0] == '-');
        assert(suffix_text(p, b) =~= bp);
    } else {
        assert(suffix_text(p, b) =~= bp);
        assert(suffix_text(q, c) =~= cq);
    }
    if b.len() > 0 && c.len() > 0 {
        assert(b =~= bp.drop_first());
        assert(c =~= cq.drop_first());
    }
}

/// A version's text, grouped from the right.
proof fn lemma_text_shape(x: (u64, u64, u64, Seq<char>, Seq<char>))
    ensures
        version_text(x) == decimal(x.0 as nat) + (seq!['.'] + (decimal(x.1 as nat) + (seq!['.']
            + (decimal(x.2 as nat) + suffix_text(x.3, x.4))))),
{
    reveal_strlit(".");
    assert(version_text(x) =~= decimal(x.0 as nat) + (seq!['.'] + (decimal(x.1 as nat) + (
    seq!['.'] + (decimal(x.2 as nat) + suffix_text(x.3, x.4))))));
}

/// `seq![c] + s` without its first character is `s`.
proof fn lemma_after_first(c: char, s: Seq<char>)
    ensures
        (seq![c] + s).drop_first() == s,
        (seq![c] + s)[0] == c,
{
    assert((seq![c] + s).drop_first() =~= s);
}

/// A suffix text is empty or starts with `-` or `+`.
proof fn lemma_suffix_start(p: Seq<char>, b: Seq<char>)
    ensures
        suffix_text(p, b).len() == 0 || suffix_text(p, b)[0] == '-' || suffix_text(p, b)[0]
            == '+',
{
    reveal_strlit("-");
    reveal_strlit("+");
}

/// Versions are told apart by their texts: two versions whose pre-release
/// and build are made of identifier characters, and that are written out
/// the same, are the same version.
pub proof fn lemma_version_text_injective(
    x: (u64, u64, u64, Seq<char>, Seq<char>),
    y: (u64, u64, u64, Seq<char>, Seq<char>),
)
    requires
        identifier_chars(x.3),
        identifier_chars(x.4),
        identifier_chars(y.3),
        identifier_chars(y.4),
        version_text(x) == version_text(y),
    ensures
        x == y,
{
    let dot = |c: char| c == '.';
    let sign = |c: char| c == '-' || c == '+';
    let (x0, x1, x2) = (decimal(x.0 as nat), decimal(x.1 as nat), decimal(x.2 as nat));
    let (y0, y1, y2) = (decimal(y.0 as nat), decimal(y.1 as nat), decimal(y.2 as nat));
    let (sx, sy) = (suffix_text(x.3, x.4), suffix_text(y.3, y.4));
    lemma_decimal_digits(x.0 as nat);
    lemma_decimal_digits(x.1 as nat);
    lemma_decimal_digits(x.2 as nat);
    lemma_decimal_digits(y.0 as nat);
    lemma_decimal_digits(y.1 as nat);
    lemma_decimal_digits(y.2 as nat);
    lemma_text_shape(x);
    lemma_text_shape(y);
    let rx2 = x2 + sx;
    let ry2 = y2 + sy;
    let rx1 = x1 + (seq!['.'] + rx2);
    let ry1 = y1 + (seq!['.'] + ry2);
    lemma_after_first('.', rx1);
    lemma_after_first('.', ry1);
    lemma_split_at_stop(x0, seq!['.'] + rx1, y0, seq!['.'] + ry1, dot);
    lemma_after_first('.', rx2);
    lemma_after_first('.', ry2);
    lemma_split_at_stop(x1, seq!['.'] + rx2, y1, seq!['.'] + ry2, dot);
    lemma_suffix_start(x.3, x.4);
    lemma_suffix_start(y.3, y.4);
    lemma_split_at_stop(x2, sx, y2, sy, sign);
    lemma_decimal_injective(x.0 as nat, y.0 as nat);
    lemma_decimal_injective(x.1 as nat, y.1 as nat);
    lemma_decimal_injective(x.2 as nat, y.2 as nat);
    lemma_suffix_injective(x.3, x.4, y.3, y.4);
}

/// Two versions accepted by `semver` with the same text are equal.
pub proof fn lemma_same_text_same_version(a: Version, b: Version)
    requires
        a.is_semver(),
        b.is_semver(),
        version_text(a@) == version_text(b@),
    ensures
        a@ == b@,
{
    lemma_version_text_injective(a@, b@);
}

} // verus!
