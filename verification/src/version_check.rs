//! Host/plugin version compatibility.
//!
//! A plugin declares the host versions it supports as a comma-separated list
//! of semantic-version comparator clauses, e.g. `">=1.2.3, <1.8.0"`. The
//! range is satisfied by a host version iff every clause holds (logical AND);
//! no OR-grouping is supported.
//!
//! The grammar accepted here: each clause is optional whitespace, an optional
//! operator (`=`, `>`, `>=`, `<`, `<=`, `^`, `~`; a bare version means `^`),
//! optional whitespace, and a full `major.minor.patch` version whose numeric
//! components carry no leading zeros and fit in `u64`. This is deliberately
//! the whole grammar: partial versions (`>=1.2`), wildcards and pre-release
//! identifiers are not part of it and fail as a range parse error.

use vstd::prelude::*;
use vstd::string::StringExecFns;

use crate::error::PluginError;
use crate::text::str_to_chars;

verus! {

/// A semantic version, `major.minor.patch`.
#[derive(Clone, Copy, Debug, PartialEq, Eq, Structural)]
pub struct Version {
    pub major: u64,
    pub minor: u64,
    pub patch: u64,
}

/// The operator of one comparator clause.
#[derive(Clone, Copy, Debug, PartialEq, Eq, Structural)]
pub enum CompareOp {
    /// `=`: exactly the named version.
    Exact,
    /// `>`: strictly newer.
    Greater,
    /// `>=`: the named version or newer.
    GreaterEq,
    /// `<`: strictly older.
    Less,
    /// `<=`: the named version or older.
    LessEq,
    /// `^` (also a bare version): at least the named version, within the
    /// leftmost nonzero component.
    Caret,
    /// `~`: at least the named version, with the same major and minor.
    Tilde,
}

/// One comparator clause of a compatibility range.
#[derive(Clone, Copy, Debug, PartialEq, Eq, Structural)]
pub struct Comparator {
    pub op: CompareOp,
    pub ver: Version,
}

/// Strict lexicographic order on versions.
pub open spec fn version_lt(a: Version, b: Version) -> bool {
    a.major < b.major || (a.major == b.major && (a.minor < b.minor || (a.minor == b.minor
        && a.patch < b.patch)))
}

/// Whether `v` stays within the leftmost nonzero component of `base`,
/// the upper bound that `^` imposes.
pub open spec fn caret_compatible(base: Version, v: Version) -> bool {
    if base.major > 0 {
        v.major == base.major
    } else if base.minor > 0 {
        v.major == 0 && v.minor == base.minor
    } else {
        v == base
    }
}

/// Whether version `v` satisfies one comparator clause.
pub open spec fn comparator_matches(c: Comparator, v: Version) -> bool {
    match c.op {
        CompareOp::Exact => v == c.ver,
        CompareOp::Greater => version_lt(c.ver, v),
        CompareOp::GreaterEq => !version_lt(v, c.ver),
        CompareOp::Less => version_lt(v, c.ver),
        CompareOp::LessEq => !version_lt(c.ver, v),
        CompareOp::Caret => !version_lt(v, c.ver) && caret_compatible(c.ver, v),
        CompareOp::Tilde => v.major == c.ver.major && v.minor == c.ver.minor && v.patch
            >= c.ver.patch,
    }
}

/// Whether version `v` satisfies every clause of a range.
pub open spec fn range_matches(clauses: Seq<Comparator>, v: Version) -> bool {
    forall|k: int| 0 <= k < clauses.len() ==> comparator_matches(clauses[k], v)
}

pub open spec fn is_space(c: char) -> bool {
    c == ' ' || c == '\t'
}

pub open spec fn is_digit(c: char) -> bool {
    '0' <= c && c <= '9'
}

pub open spec fn digit_val(c: char) -> int {
    c as int - '0' as int
}

/// The first position in `[i, j)` holding a non-space character, or `j`.
pub open spec fn ws_end(s: Seq<char>, i: int, j: int) -> int
    decreases j - i,
{
    if i < j && is_space(s[i]) {
        ws_end(s, i + 1, j)
    } else {
        i
    }
}

/// The first position in `[i, j)` holding a non-digit character, or `j`.
pub open spec fn digits_end(s: Seq<char>, i: int, j: int) -> int
    decreases j - i,
{
    if i < j && is_digit(s[i]) {
        digits_end(s, i + 1, j)
    } else {
        i
    }
}

/// The first position in `[i, j)` holding a comma, or `j`.
pub open spec fn comma_end(s: Seq<char>, i: int, j: int) -> int
    decreases j - i,
{
    if i < j && s[i] != ',' {
        comma_end(s, i + 1, j)
    } else {
        i
    }
}

/// The numeric value of a digit string, most significant digit first.
pub open spec fn digits_val(s: Seq<char>) -> int
    decreases s.len(),
{
    if s.len() == 0 {
        0
    } else {
        10 * digits_val(s.drop_last()) + digit_val(s.last())
    }
}

/// A numeric component at `[i, ..)` bounded by `j`: a nonempty digit run with
/// no leading zero whose value fits in `u64`. Yields the value and the
/// position after the run.
pub open spec fn spec_parse_num(s: Seq<char>, i: int, j: int) -> Option<(u64, int)> {
    let e = digits_end(s, i, j);
    if e > i && (s[i] == '0' ==> e == i + 1) && digits_val(s.subrange(i, e)) <= u64::MAX as int {
        Some((digits_val(s.subrange(i, e)) as u64, e))
    } else {
        None
    }
}

/// A full `major.minor.patch` version at `[i, ..)` bounded by `j`.
pub open spec fn spec_parse_version_at(s: Seq<char>, i: int, j: int) -> Option<(Version, int)> {
    match spec_parse_num(s, i, j) {
        None => None,
        Some((major, i1)) => if i1 < j && s[i1] == '.' {
            match spec_parse_num(s, i1 + 1, j) {
                None => None,
                Some((minor, i2)) => if i2 < j && s[i2] == '.' {
                    match spec_parse_num(s, i2 + 1, j) {
                        None => None,
                        Some((patch, i3)) => Some((Version { major, minor, patch }, i3)),
                    }
                } else {
                    None
                },
            }
        } else {
            None
        },
    }
}

/// The comparator operator at `[i, ..)` bounded by `j`; a missing operator
/// means `^`.
pub open spec fn spec_parse_op(s: Seq<char>, i: int, j: int) -> (CompareOp, int) {
    if i < j && s[i] == '>' {
        if i + 1 < j && s[i + 1] == '=' {
            (CompareOp::GreaterEq, i + 2)
        } else {
            (CompareOp::Greater, i + 1)
        }
    } else if i < j && s[i] == '<' {
        if i + 1 < j && s[i + 1] == '=' {
            (CompareOp::LessEq, i + 2)
        } else {
            (CompareOp::Less, i + 1)
        }
    } else if i < j && s[i] == '=' {
        (CompareOp::Exact, i + 1)
    } else if i < j && s[i] == '^' {
        (CompareOp::Caret, i + 1)
    } else if i < j && s[i] == '~' {
        (CompareOp::Tilde, i + 1)
    } else {
        (CompareOp::Caret, i)
    }
}

/// One whole comparator clause spanning exactly `[i, j)`.
pub open spec fn spec_parse_clause(s: Seq<char>, i: int, j: int) -> Option<Comparator> {
    let i0 = ws_end(s, i, j);
    let (op, i1) = spec_parse_op(s, i0, j);
    let i2 = ws_end(s, i1, j);
    match spec_parse_version_at(s, i2, j) {
        None => None,
        Some((ver, i3)) => if ws_end(s, i3, j) == j {
            Some(Comparator { op, ver })
        } else {
            None
        },
    }
}

/// The comma-separated clauses starting at `i`. An empty clause (including a
/// trailing comma or a blank expression) makes the whole range invalid.
pub open spec fn spec_parse_range_at(s: Seq<char>, i: int) -> Option<Seq<Comparator>>
    decreases s.len() - i,
{
    let j = comma_end(s, i, s.len() as int);
    match spec_parse_clause(s, i, j) {
        None => None,
        Some(c) => if j == s.len() {
            Some(seq![c])
        } else if i <= j < s.len() {
            match spec_parse_range_at(s, j + 1) {
                None => None,
                Some(rest) => Some(seq![c] + rest),
            }
        } else {
            None
        },
    }
}

/// The parse of a whole compatibility range expression.
pub open spec fn spec_parse_range(s: Seq<char>) -> Option<Seq<Comparator>> {
    spec_parse_range_at(s, 0)
}

/// The parse of a whole version string: optional surrounding whitespace
/// around `major.minor.patch`.
pub open spec fn spec_parse_version(s: Seq<char>) -> Option<Version> {
    let n = s.len() as int;
    let i0 = ws_end(s, 0, n);
    match spec_parse_version_at(s, i0, n) {
        None => None,
        Some((v, i1)) => if ws_end(s, i1, n) == n {
            Some(v)
        } else {
            None
        },
    }
}

/// Whether a version string and a range expression both parse and the
/// version satisfies every clause of the range.
pub open spec fn spec_version_ok(version: Seq<char>, range: Seq<char>) -> bool {
    &&& spec_parse_range(range) is Some
    &&& spec_parse_version(version) is Some
    &&& range_matches(spec_parse_range(range)->Some_0, spec_parse_version(version)->Some_0)
}

proof fn lemma_digits_val_nonneg(s: Seq<char>)
    requires
        forall|k: int| 0 <= k < s.len() ==> is_digit(s[k]),
    ensures
        digits_val(s) >= 0,
    decreases s.len(),
{
    if s.len() > 0 {
        lemma_digits_val_nonneg(s.drop_last());
    }
}

/// Extending a digit run to the right never decreases its value.
proof fn lemma_digits_val_extend_ge(s: Seq<char>, i: int, k: int, e: int)
    requires
        0 <= i <= k <= e <= s.len(),
        forall|m: int| i <= m < e ==> is_digit(s[m]),
    ensures
        digits_val(s.subrange(i, e)) >= digits_val(s.subrange(i, k)),
    decreases e - k,
{
    if e > k {
        lemma_digits_val_extend_ge(s, i, k, e - 1);
        assert(s.subrange(i, e).drop_last() =~= s.subrange(i, e - 1));
        assert(forall|m: int| 0 <= m < s.subrange(i, e - 1).len() ==> is_digit(
            #[trigger] s.subrange(i, e - 1)[m],
        ));
        lemma_digits_val_nonneg(s.subrange(i, e - 1));
        assert(digits_val(s.subrange(i, e)) == 10 * digits_val(s.subrange(i, e - 1)) + digit_val(
            s[e - 1],
        ));
    }
}

fn scan_ws(v: &Vec<char>, i: usize, j: usize) -> (r: usize)
    requires
        i <= j <= v@.len(),
    ensures
        i <= r <= j,
        r as int == ws_end(v@, i as int, j as int),
{
    let mut cur = i;
    while cur < j && (v[cur] == ' ' || v[cur] == '\t')
        invariant
            i <= cur <= j,
            j <= v@.len(),
            ws_end(v@, i as int, j as int) == ws_end(v@, cur as int, j as int),
        decreases j - cur,
    {
        cur = cur + 1;
    }
    cur
}

fn scan_digits(v: &Vec<char>, i: usize, j: usize) -> (r: usize)
    requires
        i <= j <= v@.len(),
    ensures
        i <= r <= j,
        r as int == digits_end(v@, i as int, j as int),
        forall|m: int| i <= m < r ==> is_digit(v@[m]),
{
    let mut cur = i;
    while cur < j && '0' <= v[cur] && v[cur] <= '9'
        invariant
            i <= cur <= j,
            j <= v@.len(),
            digits_end(v@, i as int, j as int) == digits_end(v@, cur as int, j as int),
            forall|m: int| i <= m < cur ==> is_digit(v@[m]),
        decreases j - cur,
    {
        cur = cur + 1;
    }
    cur
}

fn scan_comma(v: &Vec<char>, i: usize, j: usize) -> (r: usize)
    requires
        i <= j <= v@.len(),
    ensures
        i <= r <= j,
        r as int == comma_end(v@, i as int, j as int),
        r < j ==> v@[r as int] == ',',
{
    let mut cur = i;
    while cur < j && v[cur] != ','
        invariant
            i <= cur <= j,
            j <= v@.len(),
            comma_end(v@, i as int, j as int) == comma_end(v@, cur as int, j as int),
        decreases j - cur,
    {
        cur = cur + 1;
    }
    cur
}

fn parse_num(v: &Vec<char>, i: usize, j: usize) -> (r: Option<(u64, usize)>)
    requires
        i <= j <= v@.len(),
    ensures
        match r {
            None => spec_parse_num(v@, i as int, j as int) is None,
            Some((val, e)) => spec_parse_num(v@, i as int, j as int) == Some((val, e as int)),
        },
{
    let e = scan_digits(v, i, j);
    if e == i {
        return None;
    }
    if v[i] == '0' && e > i + 1 {
        return None;
    }
    let mut val: u64 = 0;
    let mut k = i;
    while k < e
        invariant
            i <= k <= e <= j <= v@.len(),
            i < e,
            e as int == digits_end(v@, i as int, j as int),
            v@[i as int] == '0' ==> e == i + 1,
            forall|m: int| i <= m < e ==> is_digit(v@[m]),
            val as int == digits_val(v@.subrange(i as int, k as int)),
        decreases e - k,
    {
        let c = v[k];
        let d: u64 = (c as u32 - '0' as u32) as u64;
        proof {
            assert(v@.subrange(i as int, k + 1 as int).drop_last() =~= v@.subrange(
                i as int,
                k as int,
            ));
            assert(digits_val(v@.subrange(i as int, k + 1 as int)) == 10 * digits_val(
                v@.subrange(i as int, k as int),
            ) + digit_val(v@[k as int]));
        }
        if val > 1844674407370955161u64 || (val == 1844674407370955161u64 && d > 5) {
            proof {
                assert(is_digit(v@[k as int]));
                assert(d as int == digit_val(v@[k as int]));
                assert(0 <= d as int <= 9);
                assert(10 * (val as int) + d as int > u64::MAX as int);
                assert(digits_val(v@.subrange(i as int, k + 1 as int)) > u64::MAX as int);
                lemma_digits_val_extend_ge(v@, i as int, k + 1 as int, e as int);
                assert(digits_val(v@.subrange(i as int, e as int)) > u64::MAX as int);
            }
            return None;
        }
        val = val * 10 + d;
        k = k + 1;
    }
    Some((val, e))
}

fn parse_version_at(v: &Vec<char>, i: usize, j: usize) -> (r: Option<(Version, usize)>)
    requires
        i <= j <= v@.len(),
    ensures
        match r {
            None => spec_parse_version_at(v@, i as int, j as int) is None,
            Some((ver, e)) => spec_parse_version_at(v@, i as int, j as int) == Some((
                ver,
                e as int,
            )),
        },
{
    let (major, i1) = match parse_num(v, i, j) {
        None => {
            return None;
        },
        Some(p) => p,
    };
    if !(i1 < j) || v[i1] != '.' {
        return None;
    }
    let (minor, i2) = match parse_num(v, i1 + 1, j) {
        None => {
            return None;
        },
        Some(p) => p,
    };
    if !(i2 < j) || v[i2] != '.' {
        return None;
    }
    let (patch, i3) = match parse_num(v, i2 + 1, j) {
        None => {
            return None;
        },
        Some(p) => p,
    };
    Some((Version { major, minor, patch }, i3))
}

fn parse_op(v: &Vec<char>, i: usize, j: usize) -> (r: (CompareOp, usize))
    requires
        i <= j <= v@.len(),
    ensures
        (r.0, r.1 as int) == spec_parse_op(v@, i as int, j as int),
        i <= r.1 <= j,
{
    if i < j && v[i] == '>' {
        if i + 1 < j && v[i + 1] == '=' {
            (CompareOp::GreaterEq, i + 2)
        } else {
            (CompareOp::Greater, i + 1)
        }
    } else if i < j && v[i] == '<' {
        if i + 1 < j && v[i + 1] == '=' {
            (CompareOp::LessEq, i + 2)
        } else {
            (CompareOp::Less, i + 1)
        }
    } else if i < j && v[i] == '=' {
        (CompareOp::Exact, i + 1)
    } else if i < j && v[i] == '^' {
        (CompareOp::Caret, i + 1)
    } else if i < j && v[i] == '~' {
        (CompareOp::Tilde, i + 1)
    } else {
        (CompareOp::Caret, i)
    }
}

fn parse_clause(v: &Vec<char>, i: usize, j: usize) -> (r: Option<Comparator>)
    requires
        i <= j <= v@.len(),
    ensures
        r == spec_parse_clause(v@, i as int, j as int),
{
    let i0 = scan_ws(v, i, j);
    let (op, i1) = parse_op(v, i0, j);
    let i2 = scan_ws(v, i1, j);
    match parse_version_at(v, i2, j) {
        None => None,
        Some((ver, i3)) => {
            proof {
                lemma_version_at_bounds(v@, i2 as int, j as int);
            }
            if scan_ws(v, i3, j) == j {
                Some(Comparator { op, ver })
            } else {
                None
            }
        },
    }
}

/// A successfully parsed version always ends within bounds.
proof fn lemma_digits_end_bounds(s: Seq<char>, i: int, j: int)
    requires
        0 <= i <= j <= s.len(),
    ensures
        i <= digits_end(s, i, j) <= j,
    decreases j - i,
{
    if i < j && is_digit(s[i]) {
        lemma_digits_end_bounds(s, i + 1, j);
    }
}

proof fn lemma_version_at_bounds(s: Seq<char>, i: int, j: int)
    requires
        0 <= i <= j <= s.len(),
        spec_parse_version_at(s, i, j) is Some,
    ensures
        i <= spec_parse_version_at(s, i, j)->Some_0.1 <= j,
{
    lemma_digits_end_bounds(s, i, j);
    let i1 = spec_parse_num(s, i, j)->Some_0.1;
    lemma_digits_end_bounds(s, i1 + 1, j);
    let i2 = spec_parse_num(s, i1 + 1, j)->Some_0.1;
    lemma_digits_end_bounds(s, i2 + 1, j);
}

fn parse_range_chars(v: &Vec<char>, i: usize) -> (r: Option<Vec<Comparator>>)
    requires
        i <= v@.len(),
    ensures
        match r {
            None => spec_parse_range_at(v@, i as int) is None,
            Some(cs) => spec_parse_range_at(v@, i as int) == Some(cs@),
        },
    decreases v@.len() - i,
{
    let n = v.len();
    let j = scan_comma(v, i, n);
    match parse_clause(v, i, j) {
        None => None,
        Some(c) => {
            if j == n {
                let out = vec![c];
                proof {
                    assert(out@ =~= seq![c]);
                }
                Some(out)
            } else {
                match parse_range_chars(v, j + 1) {
                    None => None,
                    Some(mut rest) => {
                        let mut out: Vec<Comparator> = Vec::new();
                        out.push(c);
                        out.append(&mut rest);
                        proof {
                            assert(out@ =~= seq![c] + spec_parse_range_at(v@, j + 1 as int)
                                ->Some_0);
                        }
                        Some(out)
                    },
                }
            }
        },
    }
}

/// Parses a compatibility range expression into its comparator clauses.
pub fn parse_range(s: &str) -> (r: Option<Vec<Comparator>>)
    ensures
        match r {
            None => spec_parse_range(s@) is None,
            Some(cs) => spec_parse_range(s@) == Some(cs@),
        },
{
    let v = str_to_chars(s);
    parse_range_chars(&v, 0)
}

/// Parses a version string (optional surrounding whitespace allowed).
pub fn parse_version(s: &str) -> (r: Option<Version>)
    ensures
        r == spec_parse_version(s@),
{
    let v = str_to_chars(s);
    let n = v.len();
    let i0 = scan_ws(&v, 0, n);
    match parse_version_at(&v, i0, n) {
        None => None,
        Some((ver, i1)) => {
            proof {
                lemma_version_at_bounds(v@, i0 as int, n as int);
            }
            if scan_ws(&v, i1, n) == n {
                Some(ver)
            } else {
                None
            }
        },
    }
}

fn version_lt_exec(a: &Version, b: &Version) -> (r: bool)
    ensures
        r == version_lt(*a, *b),
{
    a.major < b.major || (a.major == b.major && (a.minor < b.minor || (a.minor == b.minor
        && a.patch < b.patch)))
}

/// Whether version `v` satisfies one comparator clause.
pub fn comparator_holds(c: &Comparator, v: &Version) -> (r: bool)
    ensures
        r == comparator_matches(*c, *v),
{
    match c.op {
        CompareOp::Exact => v.major == c.ver.major && v.minor == c.ver.minor && v.patch
            == c.ver.patch,
        CompareOp::Greater => version_lt_exec(&c.ver, v),
        CompareOp::GreaterEq => !version_lt_exec(v, &c.ver),
        CompareOp::Less => version_lt_exec(v, &c.ver),
        CompareOp::LessEq => !version_lt_exec(&c.ver, v),
        CompareOp::Caret => {
            let lower_ok = !version_lt_exec(v, &c.ver);
            let compat = if c.ver.major > 0 {
                v.major == c.ver.major
            } else if c.ver.minor > 0 {
                v.major == 0 && v.minor == c.ver.minor
            } else {
                v.major == c.ver.major && v.minor == c.ver.minor && v.patch == c.ver.patch
            };
            lower_ok && compat
        },
        CompareOp::Tilde => v.major == c.ver.major && v.minor == c.ver.minor && v.patch
            >= c.ver.patch,
    }
}

/// Whether version `v` satisfies every clause of a range.
pub fn range_holds(clauses: &Vec<Comparator>, v: &Version) -> (r: bool)
    ensures
        r == range_matches(clauses@, *v),
{
    let mut k: usize = 0;
    while k < clauses.len()
        invariant
            k <= clauses@.len(),
            forall|m: int| 0 <= m < k ==> comparator_matches(clauses@[m], *v),
        decreases clauses@.len() - k,
    {
        if !comparator_holds(&clauses[k], v) {
            return false;
        }
        k = k + 1;
    }
    true
}

/// Checks whether the running host version satisfies a plugin's declared
/// compatibility range. Succeeds exactly when both strings parse and every
/// comparator clause of `supported` holds of `spin_version`.
pub fn assert_supported_version(spin_version: &str, supported: &str) -> (r: Result<
    (),
    PluginError,
>)
    ensures
        r is Ok <==> spec_version_ok(spin_version@, supported@),
        spec_parse_range(supported@) is None ==> (r matches Err(
            PluginError::RangeParseError { expression },
        ) && expression@ == supported@),
        spec_parse_range(supported@) is Some && spec_parse_version(spin_version@) is None ==> (
        r matches Err(PluginError::RangeParseError { expression }) && expression@
            == spin_version@),
        spec_parse_range(supported@) is Some && spec_parse_version(spin_version@) is Some
            && !range_matches(
            spec_parse_range(supported@)->Some_0,
            spec_parse_version(spin_version@)->Some_0,
        ) ==> (r matches Err(PluginError::VersionIncompatible { required, actual }) && required@
            == supported@ && actual@ == spin_version@),
{
    let clauses = match parse_range(supported) {
        None => {
            return Err(PluginError::RangeParseError { expression: String::from_str(supported) });
        },
        Some(cs) => cs,
    };
    let ver = match parse_version(spin_version) {
        None => {
            return Err(
                PluginError::RangeParseError { expression: String::from_str(spin_version) },
            );
        },
        Some(v) => v,
    };
    if range_holds(&clauses, &ver) {
        Ok(())
    } else {
        Err(
            PluginError::VersionIncompatible {
                required: String::from_str(supported),
                actual: String::from_str(spin_version),
            },
        )
    }
}

/// Verifies that a plugin is compatible with the currently running host
/// version by assessing its manifest's declared compatibility range.
pub fn check_plugin_spin_compatibility(
    spin_version: &str,
    manifest: &crate::manifest::PluginManifest,
) -> (r: Result<(), PluginError>)
    ensures
        r is Ok <==> spec_version_ok(spin_version@, manifest.spin_compatibility@),
        r matches Err(e) ==> (e is RangeParseError || e is VersionIncompatible),
        spec_parse_range(manifest.spin_compatibility@) is Some && spec_parse_version(spin_version@)
            is Some && !range_matches(
            spec_parse_range(manifest.spin_compatibility@)->Some_0,
            spec_parse_version(spin_version@)->Some_0,
        ) ==> (r matches Err(PluginError::VersionIncompatible { required, actual }) && required@
            == manifest.spin_compatibility@ && actual@ == spin_version@),
{
    assert_supported_version(spin_version, manifest.spin_compatibility.as_str())
}

} // verus!
