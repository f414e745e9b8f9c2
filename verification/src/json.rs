//! The manifest wire format.
//!
//! A plugin manifest travels as a JSON object. The parser here maps the
//! document text to the raw manifest fields: the enclosing object is
//! permissive (unknown top-level fields are skipped for forward
//! compatibility), while package objects are strict (an unknown or repeated
//! field rejects the document). The serializer renders the canonical
//! installed-manifest record; parsing it back yields the original manifest.

use vstd::prelude::*;

use crate::manifest::{
    os_name, Os, PluginManifest, RawPackageDescriptor, RawPluginManifest, SpecManifest, SpecPackage,
    SpecRawManifest, SpecRawPackage,
};
use crate::text::{chars_eq_str, chars_to_string, push_char, str_to_chars};
use crate::version_check::is_digit;

verus! {

/// JSON insignificant whitespace.
pub open spec fn is_jws(c: char) -> bool {
    c == ' ' || c == '\t' || c == '\n' || c == '\r'
}

/// The first position at or after `i` holding a non-whitespace character,
/// or the end of the document.
pub open spec fn jws_end(s: Seq<char>, i: int) -> int
    decreases s.len() - i,
{
    if 0 <= i < s.len() && is_jws(s[i]) {
        jws_end(s, i + 1)
    } else {
        i
    }
}

/// The character an escape code stands for, for the escapes this format
/// uses.
pub open spec fn esc_code(c: char) -> Option<char> {
    if c == '"' {
        Some('"')
    } else if c == '\\' {
        Some('\\')
    } else if c == 'n' {
        Some('\n')
    } else if c == 't' {
        Some('\t')
    } else if c == 'r' {
        Some('\r')
    } else {
        None
    }
}

/// The body of a string literal starting just after the opening quote:
/// yields the unescaped content and the position after the closing quote.
pub open spec fn spec_jstr_body(s: Seq<char>, i: int) -> Option<(Seq<char>, int)>
    decreases s.len() - i,
{
    if i < 0 || i >= s.len() {
        None
    } else if s[i] == '"' {
        Some((Seq::empty(), i + 1))
    } else if s[i] == '\\' {
        if i + 1 < s.len() && esc_code(s[i + 1]) is Some {
            match spec_jstr_body(s, i + 2) {
                Some((t, e)) => Some((seq![esc_code(s[i + 1])->Some_0] + t, e)),
                None => None,
            }
        } else {
            None
        }
    } else {
        match spec_jstr_body(s, i + 1) {
            Some((t, e)) => Some((seq![s[i]] + t, e)),
            None => None,
        }
    }
}

/// A whole string literal at `i`.
pub open spec fn spec_parse_jstring(s: Seq<char>, i: int) -> Option<(Seq<char>, int)> {
    if 0 <= i < s.len() && s[i] == '"' {
        spec_jstr_body(s, i + 1)
    } else {
        None
    }
}

/// Characters a JSON number may contain; enough to skip one.
pub open spec fn is_jnum_char(c: char) -> bool {
    is_digit(c) || c == '-' || c == '+' || c == '.' || c == 'e' || c == 'E'
}

/// The first position at or after `i` holding no number character.
pub open spec fn jnum_end(s: Seq<char>, i: int) -> int
    decreases s.len() - i,
{
    if 0 <= i < s.len() && is_jnum_char(s[i]) {
        jnum_end(s, i + 1)
    } else {
        i
    }
}

/// Skips one JSON value of any shape at `i`, yielding the position after it.
pub open spec fn spec_skip_value(s: Seq<char>, i: int) -> Option<int>
    decreases s.len() - i, 0int,
{
    if i < 0 || i >= s.len() {
        None
    } else if s[i] == '"' {
        match spec_jstr_body(s, i + 1) {
            Some((t, e)) => Some(e),
            None => None,
        }
    } else if s[i] == '{' {
        spec_skip_obj_tail(s, i + 1)
    } else if s[i] == '[' {
        spec_skip_arr_tail(s, i + 1)
    } else if s[i] == 't' {
        if i + 4 <= s.len() && s[i + 1] == 'r' && s[i + 2] == 'u' && s[i + 3] == 'e' {
            Some(i + 4)
        } else {
            None
        }
    } else if s[i] == 'f' {
        if i + 5 <= s.len() && s[i + 1] == 'a' && s[i + 2] == 'l' && s[i + 3] == 's' && s[i + 4]
            == 'e' {
            Some(i + 5)
        } else {
            None
        }
    } else if s[i] == 'n' {
        if i + 4 <= s.len() && s[i + 1] == 'u' && s[i + 2] == 'l' && s[i + 3] == 'l' {
            Some(i + 4)
        } else {
            None
        }
    } else if is_jnum_char(s[i]) {
        Some(jnum_end(s, i + 1))
    } else {
        None
    }
}

/// Skips the remainder of an array, starting just after `[` or after a
/// comma-separated element boundary.
pub open spec fn spec_skip_arr_tail(s: Seq<char>, i: int) -> Option<int>
    decreases s.len() - i, 1int,
{
    let i0 = jws_end(s, i);
    if !(0 <= i <= i0 < s.len()) {
        None
    } else if s[i0] == ']' {
        Some(i0 + 1)
    } else {
        match spec_skip_value(s, i0) {
            None => None,
            Some(e) => {
                let i1 = jws_end(s, e);
                if !(i <= i1 < s.len()) {
                    None
                } else if s[i1] == ']' {
                    Some(i1 + 1)
                } else if s[i1] == ',' {
                    spec_skip_arr_tail(s, i1 + 1)
                } else {
                    None
                }
            },
        }
    }
}

/// Skips the remainder of an object, starting just after `{` or after a
/// comma-separated member boundary.
pub open spec fn spec_skip_obj_tail(s: Seq<char>, i: int) -> Option<int>
    decreases s.len() - i, 1int,
{
    let i0 = jws_end(s, i);
    if !(0 <= i <= i0 < s.len()) {
        None
    } else if s[i0] == '}' {
        Some(i0 + 1)
    } else {
        match spec_parse_jstring(s, i0) {
            None => None,
            Some((key, e1)) => {
                let i1 = jws_end(s, e1);
                if !(i <= i1 < s.len() && s[i1] == ':') {
                    None
                } else {
                    let i2 = jws_end(s, i1 + 1);
                    if !(i <= i2 <= s.len()) {
                        None
                    } else {
                    match spec_skip_value(s, i2) {
                        None => None,
                        Some(e2) => {
                            let i3 = jws_end(s, e2);
                            if !(i <= i3 < s.len()) {
                                None
                            } else if s[i3] == '}' {
                                Some(i3 + 1)
                            } else if s[i3] == ',' {
                                spec_skip_obj_tail(s, i3 + 1)
                            } else {
                                None
                            }
                        },
                    }
                    }
                }
            },
        }
    }
}

/// A raw manifest with every field absent.
pub open spec fn spec_empty_raw() -> SpecRawManifest {
    SpecRawManifest {
        schema_version: None,
        schema_version_deprecated: None,
        name: None,
        description: None,
        license: None,
        spin_compatibility: None,
        packages: None,
    }
}

/// The current schema tag name.
pub open spec fn key_schema() -> Seq<char> {
    "manifestVersion"@
}

/// The deprecated schema tag name.
pub open spec fn key_schema_deprecated() -> Seq<char> {
    "version"@
}

/// Whether `key` names one of the string-valued top-level manifest fields.
pub open spec fn is_scalar_field_key(key: Seq<char>) -> bool {
    ||| key == key_schema()
    ||| key == key_schema_deprecated()
    ||| key == "name"@
    ||| key == "description"@
    ||| key == "license"@
    ||| key == "spinCompatibility"@
}

/// Records a string-valued top-level field; a repeated field rejects the
/// document.
pub open spec fn spec_set_field(acc: SpecRawManifest, key: Seq<char>, val: Seq<char>) -> Option<
    SpecRawManifest,
> {
    if key == key_schema() {
        if acc.schema_version is Some {
            None
        } else {
            Some(SpecRawManifest { schema_version: Some(val), ..acc })
        }
    } else if key == key_schema_deprecated() {
        if acc.schema_version_deprecated is Some {
            None
        } else {
            Some(SpecRawManifest { schema_version_deprecated: Some(val), ..acc })
        }
    } else if key == "name"@ {
        if acc.name is Some {
            None
        } else {
            Some(SpecRawManifest { name: Some(val), ..acc })
        }
    } else if key == "description"@ {
        if acc.description is Some {
            None
        } else {
            Some(SpecRawManifest { description: Some(val), ..acc })
        }
    } else if key == "license"@ {
        if acc.license is Some {
            None
        } else {
            Some(SpecRawManifest { license: Some(val), ..acc })
        }
    } else if key == "spinCompatibility"@ {
        if acc.spin_compatibility is Some {
            None
        } else {
            Some(SpecRawManifest { spin_compatibility: Some(val), ..acc })
        }
    } else {
        None
    }
}

/// Records one package-object field; package objects are strict, so an
/// unknown or repeated key rejects the document.
pub open spec fn spec_set_pkg_field(acc: SpecRawPackage, key: Seq<char>, val: Seq<char>) -> Option<
    SpecRawPackage,
> {
    if key == "os"@ {
        if acc.os is Some {
            None
        } else {
            Some(SpecRawPackage { os: Some(val), ..acc })
        }
    } else if key == "url"@ {
        if acc.url is Some {
            None
        } else {
            Some(SpecRawPackage { url: Some(val), ..acc })
        }
    } else if key == "sha256"@ {
        if acc.sha256 is Some {
            None
        } else {
            Some(SpecRawPackage { sha256: Some(val), ..acc })
        }
    } else {
        None
    }
}

/// An empty raw package entry.
pub open spec fn spec_empty_pkg() -> SpecRawPackage {
    SpecRawPackage { os: None, url: None, sha256: None }
}

/// The members of one package object, starting at a key position; yields the
/// collected entry and the position after the closing `}`.
pub open spec fn spec_parse_pkg_fields(s: Seq<char>, i: int, acc: SpecRawPackage) -> Option<
    (SpecRawPackage, int),
>
    decreases s.len() - i,
{
    match spec_parse_jstring(s, i) {
        None => None,
        Some((key, e1)) => {
            let i1 = jws_end(s, e1);
            if !(i <= i1 < s.len() && s[i1] == ':') {
                None
            } else {
                let i2 = jws_end(s, i1 + 1);
                match spec_parse_jstring(s, i2) {
                    None => None,
                    Some((val, e2)) => match spec_set_pkg_field(acc, key, val) {
                        None => None,
                        Some(acc2) => {
                            let i3 = jws_end(s, e2);
                            if !(i <= i3 < s.len()) {
                                None
                            } else if s[i3] == '}' {
                                Some((acc2, i3 + 1))
                            } else if s[i3] == ',' {
                                let i4 = jws_end(s, i3 + 1);
                                if i < i4 && i4 <= s.len() {
                                    spec_parse_pkg_fields(s, i4, acc2)
                                } else {
                                    None
                                }
                            } else {
                                None
                            }
                        },
                    },
                }
            }
        },
    }
}

/// One package object at `i`.
pub open spec fn spec_parse_package(s: Seq<char>, i: int) -> Option<(SpecRawPackage, int)> {
    if !(0 <= i < s.len() && s[i] == '{') {
        None
    } else {
        let i0 = jws_end(s, i + 1);
        if !(i < i0 < s.len()) {
            None
        } else if s[i0] == '}' {
            Some((spec_empty_pkg(), i0 + 1))
        } else {
            spec_parse_pkg_fields(s, i0, spec_empty_pkg())
        }
    }
}

/// The elements of the packages array, starting at an element position;
/// yields all collected entries and the position after the closing `]`.
pub open spec fn spec_parse_pkg_items(s: Seq<char>, i: int, acc: Seq<SpecRawPackage>) -> Option<
    (Seq<SpecRawPackage>, int),
>
    decreases s.len() - i,
{
    match spec_parse_package(s, i) {
        None => None,
        Some((p, e)) => {
            let i1 = jws_end(s, e);
            if !(i <= i1 < s.len()) {
                None
            } else if s[i1] == ']' {
                Some((acc.push(p), i1 + 1))
            } else if s[i1] == ',' {
                let i2 = jws_end(s, i1 + 1);
                if i < i2 && i2 <= s.len() {
                    spec_parse_pkg_items(s, i2, acc.push(p))
                } else {
                    None
                }
            } else {
                None
            }
        },
    }
}

/// The packages array at `i`.
pub open spec fn spec_parse_packages(s: Seq<char>, i: int) -> Option<(Seq<SpecRawPackage>, int)> {
    if !(0 <= i < s.len() && s[i] == '[') {
        None
    } else {
        let i0 = jws_end(s, i + 1);
        if !(i < i0 < s.len()) {
            None
        } else if s[i0] == ']' {
            Some((Seq::empty(), i0 + 1))
        } else {
            spec_parse_pkg_items(s, i0, Seq::empty())
        }
    }
}

/// The members of the top-level manifest object, starting at a key position;
/// yields the collected raw manifest and the position after the closing `}`.
/// Unknown keys are skipped; known string fields and the packages array are
/// recorded; a repeated known field rejects the document.
pub open spec fn spec_parse_fields(s: Seq<char>, i: int, acc: SpecRawManifest) -> Option<
    (SpecRawManifest, int),
>
    decreases s.len() - i,
{
    match spec_parse_jstring(s, i) {
        None => None,
        Some((key, e1)) => {
            let i1 = jws_end(s, e1);
            if !(i <= i1 < s.len() && s[i1] == ':') {
                None
            } else {
                let i2 = jws_end(s, i1 + 1);
                let stepped = if is_scalar_field_key(key) {
                    match spec_parse_jstring(s, i2) {
                        None => None,
                        Some((val, e2)) => match spec_set_field(acc, key, val) {
                            None => None,
                            Some(acc2) => Some((acc2, e2)),
                        },
                    }
                } else if key == "packages"@ {
                    if acc.packages is Some {
                        None
                    } else {
                        match spec_parse_packages(s, i2) {
                            None => None,
                            Some((ps, e2)) => Some(
                                (SpecRawManifest { packages: Some(ps), ..acc }, e2),
                            ),
                        }
                    }
                } else {
                    match spec_skip_value(s, i2) {
                        None => None,
                        Some(e2) => Some((acc, e2)),
                    }
                };
                match stepped {
                    None => None,
                    Some((acc2, e2)) => {
                        let i3 = jws_end(s, e2);
                        if !(i <= i3 < s.len()) {
                            None
                        } else if s[i3] == '}' {
                            Some((acc2, i3 + 1))
                        } else if s[i3] == ',' {
                            let i4 = jws_end(s, i3 + 1);
                            if i < i4 && i4 <= s.len() {
                                spec_parse_fields(s, i4, acc2)
                            } else {
                                None
                            }
                        } else {
                            None
                        }
                    },
                }
            }
        },
    }
}

/// The parse of a whole manifest document: one top-level object, possibly
/// surrounded by whitespace.
pub open spec fn spec_parse_manifest_doc(s: Seq<char>) -> Option<SpecRawManifest> {
    let i0 = jws_end(s, 0);
    if !(0 <= i0 < s.len() && s[i0] == '{') {
        None
    } else {
        let i1 = jws_end(s, i0 + 1);
        if !(i0 < i1 < s.len()) {
            None
        } else if s[i1] == '}' {
            if jws_end(s, i1 + 1) == s.len() {
                Some(spec_empty_raw())
            } else {
                None
            }
        } else {
            match spec_parse_fields(s, i1, spec_empty_raw()) {
                None => None,
                Some((raw, e)) => if jws_end(s, e) == s.len() {
                    Some(raw)
                } else {
                    None
                },
            }
        }
    }
}

// ----------------------------------------------------------------------
// The executable parser, refining the specification above.
// ----------------------------------------------------------------------

fn scan_jws(v: &Vec<char>, i: usize) -> (r: usize)
    requires
        i <= v@.len(),
    ensures
        i <= r <= v@.len(),
        r as int == jws_end(v@, i as int),
{
    let mut cur = i;
    while cur < v.len() && (v[cur] == ' ' || v[cur] == '\t' || v[cur] == '\n' || v[cur] == '\r')
        invariant
            i <= cur <= v@.len(),
            jws_end(v@, i as int) == jws_end(v@, cur as int),
        decreases v@.len() - cur,
    {
        cur = cur + 1;
    }
    cur
}

fn esc_code_of(c: char) -> (r: Option<char>)
    ensures
        r == esc_code(c),
{
    if c == '"' {
        Some('"')
    } else if c == '\\' {
        Some('\\')
    } else if c == 'n' {
        Some('\n')
    } else if c == 't' {
        Some('\t')
    } else if c == 'r' {
        Some('\r')
    } else {
        None
    }
}

fn jstr_body(v: &Vec<char>, i: usize) -> (r: Option<(Vec<char>, usize)>)
    requires
        i <= v@.len(),
    ensures
        match r {
            None => spec_jstr_body(v@, i as int) is None,
            Some((t, e)) => spec_jstr_body(v@, i as int) == Some((t@, e as int)) && i < e
                <= v@.len(),
        },
    decreases v@.len() - i,
{
    if i >= v.len() {
        return None;
    }
    let c = v[i];
    if c == '"' {
        let t: Vec<char> = Vec::new();
        proof {
            assert(t@ =~= Seq::<char>::empty());
        }
        Some((t, i + 1))
    } else if c == '\\' {
        if i + 1 < v.len() {
            match esc_code_of(v[i + 1]) {
                None => None,
                Some(u) => {
                    match jstr_body(v, i + 2) {
                        None => None,
                        Some((mut t, e)) => {
                            t.insert(0, u);
                            proof {
                                assert(t@ =~= seq![u] + spec_jstr_body(v@, i + 2 as int)
                                    ->Some_0.0);
                            }
                            Some((t, e))
                        },
                    }
                },
            }
        } else {
            None
        }
    } else {
        match jstr_body(v, i + 1) {
            None => None,
            Some((mut t, e)) => {
                t.insert(0, c);
                proof {
                    assert(t@ =~= seq![c] + spec_jstr_body(v@, i + 1 as int)->Some_0.0);
                }
                Some((t, e))
            },
        }
    }
}

fn parse_jstring(v: &Vec<char>, i: usize) -> (r: Option<(Vec<char>, usize)>)
    requires
        i <= v@.len(),
    ensures
        match r {
            None => spec_parse_jstring(v@, i as int) is None,
            Some((t, e)) => spec_parse_jstring(v@, i as int) == Some((t@, e as int)) && i < e
                <= v@.len(),
        },
{
    if i < v.len() && v[i] == '"' {
        jstr_body(v, i + 1)
    } else {
        None
    }
}

fn scan_jnum(v: &Vec<char>, i: usize) -> (r: usize)
    requires
        i <= v@.len(),
    ensures
        i <= r <= v@.len(),
        r as int == jnum_end(v@, i as int),
{
    let mut cur = i;
    while cur < v.len() && (('0' <= v[cur] && v[cur] <= '9') || v[cur] == '-' || v[cur] == '+'
        || v[cur] == '.' || v[cur] == 'e' || v[cur] == 'E')
        invariant
            i <= cur <= v@.len(),
            jnum_end(v@, i as int) == jnum_end(v@, cur as int),
        decreases v@.len() - cur,
    {
        cur = cur + 1;
    }
    cur
}

fn skip_value(v: &Vec<char>, i: usize) -> (r: Option<usize>)
    requires
        i <= v@.len(),
    ensures
        match r {
            None => spec_skip_value(v@, i as int) is None,
            Some(e) => spec_skip_value(v@, i as int) == Some(e as int) && i < e <= v@.len(),
        },
    decreases v@.len() - i, 0int,
{
    if i >= v.len() {
        return None;
    }
    let c = v[i];
    if c == '"' {
        match jstr_body(v, i + 1) {
            None => None,
            Some((t, e)) => Some(e),
        }
    } else if c == '{' {
        skip_obj_tail(v, i + 1)
    } else if c == '[' {
        skip_arr_tail(v, i + 1)
    } else if c == 't' {
        if v.len() - i >= 4 && v[i + 1] == 'r' && v[i + 2] == 'u' && v[i + 3] == 'e' {
            Some(i + 4)
        } else {
            None
        }
    } else if c == 'f' {
        if v.len() - i >= 5 && v[i + 1] == 'a' && v[i + 2] == 'l' && v[i + 3] == 's' && v[i + 4]
            == 'e' {
            Some(i + 5)
        } else {
            None
        }
    } else if c == 'n' {
        if v.len() - i >= 4 && v[i + 1] == 'u' && v[i + 2] == 'l' && v[i + 3] == 'l' {
            Some(i + 4)
        } else {
            None
        }
    } else if ('0' <= c && c <= '9') || c == '-' || c == '+' || c == '.' || c == 'e' || c == 'E' {
        Some(scan_jnum(v, i + 1))
    } else {
        None
    }
}

fn skip_arr_tail(v: &Vec<char>, i: usize) -> (r: Option<usize>)
    requires
        i <= v@.len(),
    ensures
        match r {
            None => spec_skip_arr_tail(v@, i as int) is None,
            Some(e) => spec_skip_arr_tail(v@, i as int) == Some(e as int) && i < e <= v@.len(),
        },
    decreases v@.len() - i, 1int,
{
    let i0 = scan_jws(v, i);
    if i0 >= v.len() {
        return None;
    }
    if v[i0] == ']' {
        return Some(i0 + 1);
    }
    match skip_value(v, i0) {
        None => None,
        Some(e) => {
            let i1 = scan_jws(v, e);
            if i1 >= v.len() {
                None
            } else if v[i1] == ']' {
                Some(i1 + 1)
            } else if v[i1] == ',' {
                skip_arr_tail(v, i1 + 1)
            } else {
                None
            }
        },
    }
}

fn skip_obj_tail(v: &Vec<char>, i: usize) -> (r: Option<usize>)
    requires
        i <= v@.len(),
    ensures
        match r {
            None => spec_skip_obj_tail(v@, i as int) is None,
            Some(e) => spec_skip_obj_tail(v@, i as int) == Some(e as int) && i < e <= v@.len(),
        },
    decreases v@.len() - i, 1int,
{
    let i0 = scan_jws(v, i);
    if i0 >= v.len() {
        return None;
    }
    if v[i0] == '}' {
        return Some(i0 + 1);
    }
    match parse_jstring(v, i0) {
        None => None,
        Some((key, e1)) => {
            let i1 = scan_jws(v, e1);
            if !(i1 < v.len()) || v[i1] != ':' {
                return None;
            }
            let i2 = scan_jws(v, i1 + 1);
            match skip_value(v, i2) {
                None => None,
                Some(e2) => {
                    let i3 = scan_jws(v, e2);
                    if i3 >= v.len() {
                        None
                    } else if v[i3] == '}' {
                        Some(i3 + 1)
                    } else if v[i3] == ',' {
                        skip_obj_tail(v, i3 + 1)
                    } else {
                        None
                    }
                },
            }
        },
    }
}

fn empty_raw() -> (r: RawPluginManifest)
    ensures
        r@ == spec_empty_raw(),
{
    let r = RawPluginManifest {
        schema_version: None,
        schema_version_deprecated: None,
        name: None,
        description: None,
        license: None,
        spin_compatibility: None,
        packages: None,
    };
    proof {
        assert(r@ =~= spec_empty_raw());
    }
    r
}

fn parse_pkg_fields(v: &Vec<char>, i: usize, acc: RawPackageDescriptor) -> (r: Option<
    (RawPackageDescriptor, usize),
>)
    requires
        i <= v@.len(),
    ensures
        match r {
            None => spec_parse_pkg_fields(v@, i as int, acc@) is None,
            Some((p, e)) => spec_parse_pkg_fields(v@, i as int, acc@) == Some((p@, e as int)) && i
                < e <= v@.len(),
        },
    decreases v@.len() - i,
{
    let (key, e1) = match parse_jstring(v, i) {
        None => {
            return None;
        },
        Some(p) => p,
    };
    let i1 = scan_jws(v, e1);
    if !(i1 < v.len()) || v[i1] != ':' {
        return None;
    }
    let i2 = scan_jws(v, i1 + 1);
    let (val, e2) = match parse_jstring(v, i2) {
        None => {
            return None;
        },
        Some(p) => p,
    };
    let mut acc2 = acc;
    if chars_eq_str(&key, "os") {
        if acc2.os.is_some() {
            return None;
        }
        acc2.os = Some(chars_to_string(&val));
    } else if chars_eq_str(&key, "url") {
        if acc2.url.is_some() {
            return None;
        }
        acc2.url = Some(chars_to_string(&val));
    } else if chars_eq_str(&key, "sha256") {
        if acc2.sha256.is_some() {
            return None;
        }
        acc2.sha256 = Some(chars_to_string(&val));
    } else {
        return None;
    }
    proof {
        assert(Some(acc2@) =~= spec_set_pkg_field(acc@, key@, val@));
    }
    let i3 = scan_jws(v, e2);
    if i3 >= v.len() {
        return None;
    }
    if v[i3] == '}' {
        Some((acc2, i3 + 1))
    } else if v[i3] == ',' {
        let i4 = scan_jws(v, i3 + 1);
        if i < i4 {
            parse_pkg_fields(v, i4, acc2)
        } else {
            None
        }
    } else {
        None
    }
}

fn parse_package(v: &Vec<char>, i: usize) -> (r: Option<(RawPackageDescriptor, usize)>)
    requires
        i <= v@.len(),
    ensures
        match r {
            None => spec_parse_package(v@, i as int) is None,
            Some((p, e)) => spec_parse_package(v@, i as int) == Some((p@, e as int)) && i < e
                <= v@.len(),
        },
{
    if !(i < v.len()) || v[i] != '{' {
        return None;
    }
    let i0 = scan_jws(v, i + 1);
    if i0 >= v.len() {
        return None;
    }
    if v[i0] == '}' {
        let p = RawPackageDescriptor { os: None, url: None, sha256: None };
        proof {
            assert(p@ =~= spec_empty_pkg());
        }
        return Some((p, i0 + 1));
    }
    let p0 = RawPackageDescriptor { os: None, url: None, sha256: None };
    proof {
        assert(p0@ =~= spec_empty_pkg());
    }
    parse_pkg_fields(v, i0, p0)
}

fn parse_pkg_items(v: &Vec<char>, i: usize, acc: Vec<RawPackageDescriptor>) -> (r: Option<
    (Vec<RawPackageDescriptor>, usize),
>)
    requires
        i <= v@.len(),
    ensures
        match r {
            None => spec_parse_pkg_items(
                v@,
                i as int,
                acc@.map_values(|p: RawPackageDescriptor| p@),
            ) is None,
            Some((ps, e)) => spec_parse_pkg_items(
                v@,
                i as int,
                acc@.map_values(|p: RawPackageDescriptor| p@),
            ) == Some((ps@.map_values(|p: RawPackageDescriptor| p@), e as int)) && i < e
                <= v@.len(),
        },
    decreases v@.len() - i,
{
    let (p, e) = match parse_package(v, i) {
        None => {
            return None;
        },
        Some(x) => x,
    };
    let i1 = scan_jws(v, e);
    if i1 >= v.len() {
        return None;
    }
    let mut acc2 = acc;
    acc2.push(p);
    proof {
        assert(acc2@.map_values(|q: RawPackageDescriptor| q@) =~= acc2@.subrange(
            0,
            acc2@.len() - 1,
        ).map_values(|q: RawPackageDescriptor| q@).push(p@));
        assert(acc2@.subrange(0, acc2@.len() - 1) =~= acc@);
    }
    if v[i1] == ']' {
        Some((acc2, i1 + 1))
    } else if v[i1] == ',' {
        let i2 = scan_jws(v, i1 + 1);
        if i < i2 {
            parse_pkg_items(v, i2, acc2)
        } else {
            None
        }
    } else {
        None
    }
}

fn parse_packages(v: &Vec<char>, i: usize) -> (r: Option<(Vec<RawPackageDescriptor>, usize)>)
    requires
        i <= v@.len(),
    ensures
        match r {
            None => spec_parse_packages(v@, i as int) is None,
            Some((ps, e)) => spec_parse_packages(v@, i as int) == Some(
                (ps@.map_values(|p: RawPackageDescriptor| p@), e as int),
            ) && i < e <= v@.len(),
        },
{
    if !(i < v.len()) || v[i] != '[' {
        return None;
    }
    let i0 = scan_jws(v, i + 1);
    if i0 >= v.len() {
        return None;
    }
    if v[i0] == ']' {
        let ps: Vec<RawPackageDescriptor> = Vec::new();
        proof {
            assert(ps@.map_values(|p: RawPackageDescriptor| p@) =~= Seq::<SpecRawPackage>::empty());
        }
        return Some((ps, i0 + 1));
    }
    let acc: Vec<RawPackageDescriptor> = Vec::new();
    proof {
        assert(acc@.map_values(|p: RawPackageDescriptor| p@) =~= Seq::<SpecRawPackage>::empty());
    }
    parse_pkg_items(v, i0, acc)
}

fn parse_fields(v: &Vec<char>, i: usize, acc: RawPluginManifest) -> (r: Option<
    (RawPluginManifest, usize),
>)
    requires
        i <= v@.len(),
    ensures
        match r {
            None => spec_parse_fields(v@, i as int, acc@) is None,
            Some((m, e)) => spec_parse_fields(v@, i as int, acc@) == Some((m@, e as int)) && i < e
                <= v@.len(),
        },
    decreases v@.len() - i,
{
    let (key, e1) = match parse_jstring(v, i) {
        None => {
            return None;
        },
        Some(p) => p,
    };
    let i1 = scan_jws(v, e1);
    if !(i1 < v.len()) || v[i1] != ':' {
        return None;
    }
    let i2 = scan_jws(v, i1 + 1);
    let is_scalar = chars_eq_str(&key, "manifestVersion") || chars_eq_str(&key, "version")
        || chars_eq_str(&key, "name") || chars_eq_str(&key, "description") || chars_eq_str(
        &key,
        "license",
    ) || chars_eq_str(&key, "spinCompatibility");
    let mut acc2 = acc;
    let e2: usize;
    if is_scalar {
        let (val, ev) = match parse_jstring(v, i2) {
            None => {
                return None;
            },
            Some(p) => p,
        };
        if chars_eq_str(&key, "manifestVersion") {
            if acc2.schema_version.is_some() {
                return None;
            }
            acc2.schema_version = Some(chars_to_string(&val));
        } else if chars_eq_str(&key, "version") {
            if acc2.schema_version_deprecated.is_some() {
                return None;
            }
            acc2.schema_version_deprecated = Some(chars_to_string(&val));
        } else if chars_eq_str(&key, "name") {
            if acc2.name.is_some() {
                return None;
            }
            acc2.name = Some(chars_to_string(&val));
        } else if chars_eq_str(&key, "description") {
            if acc2.description.is_some() {
                return None;
            }
            acc2.description = Some(chars_to_string(&val));
        } else if chars_eq_str(&key, "license") {
            if acc2.license.is_some() {
                return None;
            }
            acc2.license = Some(chars_to_string(&val));
        } else {
            if acc2.spin_compatibility.is_some() {
                return None;
            }
            acc2.spin_compatibility = Some(chars_to_string(&val));
        }
        proof {
            assert(Some(acc2@) =~= spec_set_field(acc@, key@, val@));
        }
        e2 = ev;
    } else if chars_eq_str(&key, "packages") {
        if acc2.packages.is_some() {
            return None;
        }
        let (ps, ev) = match parse_packages(v, i2) {
            None => {
                return None;
            },
            Some(p) => p,
        };
        acc2.packages = Some(ps);
        proof {
            assert(acc2@ =~= SpecRawManifest {
                packages: Some(
                    spec_parse_packages(v@, i2 as int)->Some_0.0,
                ),
                ..acc@
            });
        }
        e2 = ev;
    } else {
        e2 = match skip_value(v, i2) {
            None => {
                return None;
            },
            Some(e) => e,
        };
    }
    let i3 = scan_jws(v, e2);
    if i3 >= v.len() {
        return None;
    }
    if v[i3] == '}' {
        Some((acc2, i3 + 1))
    } else if v[i3] == ',' {
        let i4 = scan_jws(v, i3 + 1);
        if i < i4 {
            parse_fields(v, i4, acc2)
        } else {
            None
        }
    } else {
        None
    }
}

/// Parses a whole manifest document.
pub fn parse_manifest_doc(s: &str) -> (r: Option<RawPluginManifest>)
    ensures
        match r {
            None => spec_parse_manifest_doc(s@) is None,
            Some(m) => spec_parse_manifest_doc(s@) == Some(m@),
        },
{
    let v = str_to_chars(s);
    let i0 = scan_jws(&v, 0);
    if !(i0 < v.len()) || v[i0] != '{' {
        return None;
    }
    let i1 = scan_jws(&v, i0 + 1);
    if i1 >= v.len() {
        return None;
    }
    if v[i1] == '}' {
        if scan_jws(&v, i1 + 1) == v.len() {
            return Some(empty_raw());
        } else {
            return None;
        }
    }
    match parse_fields(&v, i1, empty_raw()) {
        None => None,
        Some((raw, e)) => {
            if scan_jws(&v, e) == v.len() {
                Some(raw)
            } else {
                None
            }
        },
    }
}

// ----------------------------------------------------------------------
// The canonical serializer: the installed-manifest record.
// ----------------------------------------------------------------------

/// The escaped form of one character in a string literal.
pub open spec fn spec_jesc(c: char) -> Seq<char> {
    if c == '"' {
        seq!['\\', '"']
    } else if c == '\\' {
        seq!['\\', '\\']
    } else if c == '\n' {
        seq!['\\', 'n']
    } else if c == '\t' {
        seq!['\\', 't']
    } else if c == '\r' {
        seq!['\\', 'r']
    } else {
        seq![c]
    }
}

/// The escaped form of string content.
pub open spec fn spec_jesc_str(s: Seq<char>) -> Seq<char>
    decreases s.len(),
{
    if s.len() == 0 {
        Seq::empty()
    } else {
        spec_jesc(s[0]) + spec_jesc_str(s.drop_first())
    }
}

/// A rendered string literal: quotes around the escaped content.
pub open spec fn spec_jstring_of(s: Seq<char>) -> Seq<char> {
    seq!['"'] + spec_jesc_str(s) + seq!['"']
}

/// One rendered object member: the key literal, a colon, the value literal.
pub open spec fn spec_member_json(key: Seq<char>, val: Seq<char>) -> Seq<char> {
    spec_jstring_of(key) + seq![':'] + spec_jstring_of(val)
}

/// The rendering of one package entry.
pub open spec fn spec_package_json(p: SpecPackage) -> Seq<char> {
    seq!['{'] + spec_member_json("os"@, os_name(p.os)) + seq![','] + spec_member_json(
        "url"@,
        p.url,
    ) + seq![','] + spec_member_json("sha256"@, p.sha256) + seq!['}']
}

/// The comma-separated renderings of the package entries.
pub open spec fn spec_pkg_list_json(ps: Seq<SpecPackage>) -> Seq<char>
    decreases ps.len(),
{
    if ps.len() == 0 {
        Seq::empty()
    } else if ps.len() == 1 {
        spec_package_json(ps[0])
    } else {
        spec_package_json(ps[0]) + seq![','] + spec_pkg_list_json(ps.drop_first())
    }
}

/// The rendering of the packages array.
pub open spec fn spec_packages_json(ps: Seq<SpecPackage>) -> Seq<char> {
    seq!['['] + spec_pkg_list_json(ps) + seq![']']
}

/// The canonical rendering of a manifest: the current schema tag first, then
/// every field, in a fixed order with no insignificant whitespace.
pub open spec fn spec_manifest_json(m: SpecManifest) -> Seq<char> {
    seq!['{'] + spec_member_json(key_schema(), "1"@) + seq![','] + spec_member_json(
        "name"@,
        m.name,
    ) + seq![','] + spec_member_json("description"@, m.description) + seq![','] + spec_member_json(
        "license"@,
        m.license,
    ) + seq![','] + spec_member_json("spinCompatibility"@, m.spin_compatibility) + seq![',']
        + spec_jstring_of("packages"@) + seq![':'] + spec_packages_json(m.packages) + seq!['}']
}

/// Escaping distributes over extending the content by one character.
proof fn lemma_jesc_str_push(s: Seq<char>, c: char)
    ensures
        spec_jesc_str(s.push(c)) == spec_jesc_str(s) + spec_jesc(c),
    decreases s.len(),
{
    if s.len() == 0 {
        assert(s.push(c).drop_first() =~= Seq::<char>::empty());
        assert(s.push(c)[0] == c);
        assert(spec_jesc_str(Seq::<char>::empty()) =~= Seq::<char>::empty());
        assert(spec_jesc_str(s.push(c)) =~= spec_jesc(c));
        assert(spec_jesc_str(s) + spec_jesc(c) =~= spec_jesc(c));
    } else {
        lemma_jesc_str_push(s.drop_first(), c);
        assert(s.push(c).drop_first() =~= s.drop_first().push(c));
        assert(s.push(c)[0] == s[0]);
        assert(spec_jesc_str(s.push(c)) == spec_jesc(s[0]) + spec_jesc_str(s.drop_first().push(c)));
        assert(spec_jesc(s[0]) + (spec_jesc_str(s.drop_first()) + spec_jesc(c)) =~= (spec_jesc(
            s[0],
        ) + spec_jesc_str(s.drop_first())) + spec_jesc(c));
    }
}

/// Appends the rendered string literal for `t` to `out`.
fn append_jstring(out: &mut String, t: &str)
    ensures
        final(out)@ == old(out)@ + spec_jstring_of(t@),
{
    push_char(out, '"');
    let n = t.unicode_len();
    let mut i: usize = 0;
    while i < n
        invariant
            n == t@.len(),
            i <= n,
            out@ == old(out)@ + seq!['"'] + spec_jesc_str(t@.subrange(0, i as int)),
        decreases n - i,
    {
        let c = t.get_char(i);
        if c == '"' {
            push_char(out, '\\');
            push_char(out, '"');
        } else if c == '\\' {
            push_char(out, '\\');
            push_char(out, '\\');
        } else if c == '\n' {
            push_char(out, '\\');
            push_char(out, 'n');
        } else if c == '\t' {
            push_char(out, '\\');
            push_char(out, 't');
        } else if c == '\r' {
            push_char(out, '\\');
            push_char(out, 'r');
        } else {
            push_char(out, c);
        }
        proof {
            lemma_jesc_str_push(t@.subrange(0, i as int), t@[i as int]);
            assert(t@.subrange(0, i as int).push(t@[i as int]) =~= t@.subrange(0, i + 1 as int));
            assert(out@ =~= old(out)@ + seq!['"'] + spec_jesc_str(t@.subrange(0, i + 1 as int)));
        }
        i = i + 1;
    }
    push_char(out, '"');
    proof {
        assert(t@.subrange(0, n as int) =~= t@);
        assert(out@ =~= old(out)@ + spec_jstring_of(t@));
    }
}

/// Appends one rendered object member (`"key":"value"`) to `out`.
fn append_member(out: &mut String, key: &str, val: &str)
    ensures
        final(out)@ == old(out)@ + spec_member_json(key@, val@),
{
    append_jstring(out, key);
    push_char(out, ':');
    append_jstring(out, val);
    proof {
        assert(out@ =~= old(out)@ + spec_member_json(key@, val@));
    }
}

/// Appends the rendering of one package entry to `out`.
fn append_package_json(out: &mut String, p: &crate::manifest::PackageDescriptor)
    ensures
        final(out)@ == old(out)@ + spec_package_json(p@),
{
    push_char(out, '{');
    append_member(out, "os", p.os.name());
    push_char(out, ',');
    append_member(out, "url", p.url.as_str());
    push_char(out, ',');
    append_member(out, "sha256", p.sha256.as_str());
    push_char(out, '}');
    proof {
        assert(out@ =~= old(out)@ + spec_package_json(p@));
    }
}

/// One package more at the end extends the rendered list by a comma and the
/// entry (when the list was nonempty).
proof fn lemma_pkg_list_push(ps: Seq<SpecPackage>, p: SpecPackage)
    ensures
        ps.len() == 0 ==> spec_pkg_list_json(ps.push(p)) == spec_package_json(p),
        ps.len() > 0 ==> spec_pkg_list_json(ps.push(p)) == spec_pkg_list_json(ps) + seq![',']
            + spec_package_json(p),
    decreases ps.len(),
{
    if ps.len() == 0 {
        assert(ps.push(p)[0] == p);
        assert(spec_pkg_list_json(ps.push(p)) == spec_package_json(p));
    } else {
        lemma_pkg_list_push(ps.drop_first(), p);
        assert(ps.push(p).drop_first() =~= ps.drop_first().push(p));
        assert(ps.push(p)[0] == ps[0]);
        if ps.len() == 1 {
            assert(spec_pkg_list_json(ps.push(p)) == spec_package_json(ps[0]) + seq![',']
                + spec_pkg_list_json(ps.drop_first().push(p)));
            assert(spec_pkg_list_json(ps.drop_first().push(p)) == spec_package_json(p));
            assert(spec_pkg_list_json(ps) + seq![','] + spec_package_json(p) =~= spec_package_json(
                ps[0],
            ) + seq![','] + spec_package_json(p));
        } else {
            assert(spec_pkg_list_json(ps.push(p)) == spec_package_json(ps[0]) + seq![','] + (
            spec_pkg_list_json(ps.drop_first()) + seq![','] + spec_package_json(p)));
            assert(spec_pkg_list_json(ps) + seq![','] + spec_package_json(p) =~= spec_package_json(
                ps[0],
            ) + seq![','] + (spec_pkg_list_json(ps.drop_first()) + seq![','] + spec_package_json(p)));
        }
    }
}

/// Renders the canonical installed-manifest record for `m`.
pub fn manifest_to_json(m: &PluginManifest) -> (r: String)
    ensures
        r@ == spec_manifest_json(m@),
{
    let mut out = String::new();
    push_char(&mut out, '{');
    append_member(&mut out, "manifestVersion", "1");
    push_char(&mut out, ',');
    append_member(&mut out, "name", m.name.as_str());
    push_char(&mut out, ',');
    append_member(&mut out, "description", m.description.as_str());
    push_char(&mut out, ',');
    append_member(&mut out, "license", m.license.as_str());
    push_char(&mut out, ',');
    append_member(&mut out, "spinCompatibility", m.spin_compatibility.as_str());
    push_char(&mut out, ',');
    append_jstring(&mut out, "packages");
    push_char(&mut out, ':');
    push_char(&mut out, '[');
    let ghost prefix = out@;
    let mut k: usize = 0;
    while k < m.packages.len()
        invariant
            k <= m.packages@.len(),
            m@.packages == m.packages@.map_values(|q: crate::manifest::PackageDescriptor| q@),
            m@.packages.len() == m.packages@.len(),
            out@ == prefix + spec_pkg_list_json(m@.packages.subrange(0, k as int)),
        decreases m.packages@.len() - k,
    {
        if k > 0 {
            push_char(&mut out, ',');
        }
        append_package_json(&mut out, &m.packages[k]);
        proof {
            let sub = m@.packages.subrange(0, k as int);
            lemma_pkg_list_push(sub, m@.packages[k as int]);
            assert(sub.push(m@.packages[k as int]) =~= m@.packages.subrange(0, k + 1 as int));
            assert(m.packages@[k as int]@ == m@.packages[k as int]);
            if k > 0 {
                assert(out@ =~= prefix + (spec_pkg_list_json(sub) + seq![','] + spec_package_json(
                    m@.packages[k as int],
                )));
            } else {
                assert(sub.len() == 0);
                assert(out@ =~= prefix + spec_package_json(m@.packages[k as int]));
            }
        }
        k = k + 1;
    }
    push_char(&mut out, ']');
    push_char(&mut out, '}');
    proof {
        assert(m@.packages.subrange(0, m@.packages.len() as int) =~= m@.packages);
        assert(out@ =~= spec_manifest_json(m@));
    }
    out
}


// ----------------------------------------------------------------------
// The record round trip: parsing the canonical rendering gives back the
// manifest it was rendered from.
// ----------------------------------------------------------------------

/// Whether `frag` occurs in `s` at position `i`.
pub open spec fn at_frag(s: Seq<char>, i: int, frag: Seq<char>) -> bool {
    0 <= i && i + frag.len() <= s.len() && s.subrange(i, i + frag.len()) == frag
}

proof fn lemma_at_index(s: Seq<char>, i: int, frag: Seq<char>, k: int)
    requires
        at_frag(s, i, frag),
        0 <= k < frag.len(),
    ensures
        s[i + k] == frag[k],
{
    assert(s.subrange(i, i + frag.len())[k] == s[i + k]);
}

proof fn lemma_at_split(s: Seq<char>, i: int, f1: Seq<char>, f2: Seq<char>)
    requires
        at_frag(s, i, f1 + f2),
    ensures
        at_frag(s, i, f1),
        at_frag(s, i + f1.len(), f2),
{
    assert forall|k: int| 0 <= k < f1.len() implies s.subrange(i, i + f1.len())[k] == f1[k] by {
        lemma_at_index(s, i, f1 + f2, k);
        assert((f1 + f2)[k] == f1[k]);
    }
    assert(s.subrange(i, i + f1.len()) =~= f1);
    assert forall|k: int|
        0 <= k < f2.len() implies s.subrange(
        i + f1.len(),
        i + f1.len() + f2.len(),
    )[k] == f2[k] by {
        lemma_at_index(s, i, f1 + f2, f1.len() + k);
        assert((f1 + f2)[f1.len() + k] == f2[k]);
    }
    assert(s.subrange(i + f1.len(), i + f1.len() + f2.len()) =~= f2);
}

proof fn lemma_at_char(s: Seq<char>, i: int, c: char)
    requires
        at_frag(s, i, seq![c]),
    ensures
        0 <= i < s.len(),
        s[i] == c,
{
    lemma_at_index(s, i, seq![c], 0);
}

proof fn lemma_jstr_body_round(s: Seq<char>, i: int, content: Seq<char>)
    requires
        at_frag(s, i, spec_jesc_str(content) + seq!['"']),
    ensures
        spec_jstr_body(s, i) == Some((content, i + spec_jesc_str(content).len() + 1)),
    decreases content.len(),
{
    if content.len() == 0 {
        assert(spec_jesc_str(content) + seq!['"'] =~= seq!['"']);
        lemma_at_char(s, i, '"');
        assert(spec_jstr_body(s, i) == Some((Seq::<char>::empty(), i + 1)));
        assert(content =~= Seq::<char>::empty());
    } else {
        let c = content[0];
        let rest = content.drop_first();
        let ec = spec_jesc(c);
        assert(spec_jesc_str(content) == ec + spec_jesc_str(rest));
        assert(spec_jesc_str(content) + seq!['"'] =~= ec + (spec_jesc_str(rest) + seq!['"']));
        lemma_at_split(s, i, ec, spec_jesc_str(rest) + seq!['"']);
        let i2 = i + ec.len();
        lemma_jstr_body_round(s, i2, rest);
        if c == '"' || c == '\\' || c == '\n' || c == '\t' || c == '\r' {
            lemma_at_index(s, i, ec, 0);
            lemma_at_index(s, i, ec, 1);
            assert(s[i] == '\\');
            assert(esc_code(s[i + 1]) == Some(c));
            assert(spec_jstr_body(s, i) == Some(
                (seq![c] + rest, i2 + spec_jesc_str(rest).len() + 1),
            ));
        } else {
            lemma_at_index(s, i, ec, 0);
            assert(s[i] == c);
            assert(spec_jstr_body(s, i) == Some(
                (seq![c] + rest, i2 + spec_jesc_str(rest).len() + 1),
            ));
        }
        assert(seq![c] + rest =~= content);
    }
}

proof fn lemma_jstring_round(s: Seq<char>, i: int, content: Seq<char>)
    requires
        at_frag(s, i, spec_jstring_of(content)),
    ensures
        spec_parse_jstring(s, i) == Some((content, i + spec_jstring_of(content).len())),
        spec_jstring_of(content).len() >= 2,
        s[i] == '"',
{
    assert(spec_jstring_of(content) =~= seq!['"'] + (spec_jesc_str(content) + seq!['"']));
    lemma_at_split(s, i, seq!['"'], spec_jesc_str(content) + seq!['"']);
    lemma_at_char(s, i, '"');
    lemma_jstr_body_round(s, i + 1, content);
}

/// The raw form in which one package entry reappears after parsing the
/// canonical rendering.
pub open spec fn raw_pkg_of(p: SpecPackage) -> SpecRawPackage {
    SpecRawPackage { os: Some(os_name(p.os)), url: Some(p.url), sha256: Some(p.sha256) }
}

proof fn lemma_package_round(s: Seq<char>, i: int, p: SpecPackage)
    requires
        at_frag(s, i, spec_package_json(p)),
    ensures
        spec_parse_package(s, i) == Some((raw_pkg_of(p), i + spec_package_json(p).len())),
        spec_package_json(p).len() >= 2,
        s[i] == '{',
{
    reveal_strlit("os");
    reveal_strlit("url");
    reveal_strlit("sha256");
    let m1 = spec_member_json("os"@, os_name(p.os));
    let m2 = spec_member_json("url"@, p.url);
    let m3 = spec_member_json("sha256"@, p.sha256);
    let r1 = m1 + (seq![','] + (m2 + (seq![','] + (m3 + seq!['}']))));
    assert(spec_package_json(p) =~= seq!['{'] + r1);
    lemma_at_split(s, i, seq!['{'], r1);
    lemma_at_char(s, i, '{');
    let a1 = i + 1;
    lemma_at_split(s, a1, m1, seq![','] + (m2 + (seq![','] + (m3 + seq!['}']))));
    let b1 = a1 + m1.len();
    lemma_at_split(s, b1, seq![','], m2 + (seq![','] + (m3 + seq!['}'])));
    lemma_at_char(s, b1, ',');
    let a2 = b1 + 1;
    lemma_at_split(s, a2, m2, seq![','] + (m3 + seq!['}']));
    let b2 = a2 + m2.len();
    lemma_at_split(s, b2, seq![','], m3 + seq!['}']);
    lemma_at_char(s, b2, ',');
    let a3 = b2 + 1;
    lemma_at_split(s, a3, m3, seq!['}']);
    let b3 = a3 + m3.len();
    lemma_at_char(s, b3, '}');
    // first member: "os"
    assert(m1 =~= spec_jstring_of("os"@) + (seq![':'] + spec_jstring_of(os_name(p.os))));
    lemma_at_split(s, a1, spec_jstring_of("os"@), seq![':'] + spec_jstring_of(os_name(p.os)));
    lemma_jstring_round(s, a1, "os"@);
    let k1 = a1 + spec_jstring_of("os"@).len();
    lemma_at_split(s, k1, seq![':'], spec_jstring_of(os_name(p.os)));
    lemma_at_char(s, k1, ':');
    lemma_jstring_round(s, k1 + 1, os_name(p.os));
    assert(k1 + 1 + spec_jstring_of(os_name(p.os)).len() == b1);
    // second member: "url"
    assert(m2 =~= spec_jstring_of("url"@) + (seq![':'] + spec_jstring_of(p.url)));
    lemma_at_split(s, a2, spec_jstring_of("url"@), seq![':'] + spec_jstring_of(p.url));
    lemma_jstring_round(s, a2, "url"@);
    let k2 = a2 + spec_jstring_of("url"@).len();
    lemma_at_split(s, k2, seq![':'], spec_jstring_of(p.url));
    lemma_at_char(s, k2, ':');
    lemma_jstring_round(s, k2 + 1, p.url);
    assert(k2 + 1 + spec_jstring_of(p.url).len() == b2);
    // third member: "sha256"
    assert(m3 =~= spec_jstring_of("sha256"@) + (seq![':'] + spec_jstring_of(p.sha256)));
    lemma_at_split(s, a3, spec_jstring_of("sha256"@), seq![':'] + spec_jstring_of(p.sha256));
    lemma_jstring_round(s, a3, "sha256"@);
    let k3 = a3 + spec_jstring_of("sha256"@).len();
    lemma_at_split(s, k3, seq![':'], spec_jstring_of(p.sha256));
    lemma_at_char(s, k3, ':');
    lemma_jstring_round(s, k3 + 1, p.sha256);
    assert(k3 + 1 + spec_jstring_of(p.sha256).len() == b3);
    // now walk the parser
    assert(jws_end(s, a1) == a1);
    let acc0 = spec_empty_pkg();
    let acc1 = SpecRawPackage { os: Some(os_name(p.os)), ..acc0 };
    assert(spec_set_pkg_field(acc0, "os"@, os_name(p.os)) == Some(acc1));
    assert(jws_end(s, k1) == k1);
    assert(jws_end(s, b1) == b1);
    assert(jws_end(s, a2) == a2);
    let acc2 = SpecRawPackage { url: Some(p.url), ..acc1 };
    assert("url"@ != "os"@);
    assert(spec_set_pkg_field(acc1, "url"@, p.url) == Some(acc2));
    assert(jws_end(s, k2) == k2);
    assert(jws_end(s, b2) == b2);
    assert(jws_end(s, a3) == a3);
    let acc3 = SpecRawPackage { sha256: Some(p.sha256), ..acc2 };
    assert("sha256"@ != "os"@ && "sha256"@ != "url"@);
    assert(spec_set_pkg_field(acc2, "sha256"@, p.sha256) == Some(acc3));
    assert(jws_end(s, k3) == k3);
    assert(jws_end(s, b3) == b3);
    assert(spec_parse_pkg_fields(s, a3, acc2) == Some((acc3, b3 + 1)));
    assert(spec_parse_pkg_fields(s, a2, acc1) == Some((acc3, b3 + 1)));
    assert(spec_parse_pkg_fields(s, a1, acc0) == Some((acc3, b3 + 1)));
    assert(spec_parse_package(s, i) == Some((acc3, b3 + 1)));
    assert(acc3 =~= raw_pkg_of(p));
    assert(b3 + 1 == i + spec_package_json(p).len());
}

proof fn lemma_pkg_items_round(s: Seq<char>, i: int, ps: Seq<SpecPackage>, acc: Seq<SpecRawPackage>)
    requires
        ps.len() > 0,
        at_frag(s, i, spec_pkg_list_json(ps) + seq![']']),
    ensures
        spec_parse_pkg_items(s, i, acc) == Some(
            (
                acc + ps.map_values(|p: SpecPackage| raw_pkg_of(p)),
                i + spec_pkg_list_json(ps).len() + 1,
            ),
        ),
    decreases ps.len(),
{
    let p0 = ps[0];
    if ps.len() == 1 {
        assert(spec_pkg_list_json(ps) == spec_package_json(p0));
        lemma_at_split(s, i, spec_package_json(p0), seq![']']);
        lemma_package_round(s, i, p0);
        let e = i + spec_package_json(p0).len();
        lemma_at_char(s, e, ']');
        assert(jws_end(s, e) == e);
        assert(spec_parse_pkg_items(s, i, acc) == Some((acc.push(raw_pkg_of(p0)), e + 1)));
        assert(acc.push(raw_pkg_of(p0)) =~= acc + ps.map_values(|p: SpecPackage| raw_pkg_of(p)));
    } else {
        let rest = ps.drop_first();
        assert(spec_pkg_list_json(ps) == spec_package_json(p0) + seq![','] + spec_pkg_list_json(
            rest,
        ));
        assert(spec_pkg_list_json(ps) + seq![']'] =~= spec_package_json(p0) + (seq![','] + (
        spec_pkg_list_json(rest) + seq![']'])));
        lemma_at_split(s, i, spec_package_json(p0), seq![','] + (spec_pkg_list_json(rest)
            + seq![']']));
        lemma_package_round(s, i, p0);
        let e = i + spec_package_json(p0).len();
        lemma_at_split(s, e, seq![','], spec_pkg_list_json(rest) + seq![']']);
        lemma_at_char(s, e, ',');
        assert(jws_end(s, e) == e);
        lemma_pkg_items_round(s, e + 1, rest, acc.push(raw_pkg_of(p0)));
        // the element after the comma starts with the next package's brace
        assert(spec_pkg_list_json(rest)[0] == '{') by {
            assert(spec_pkg_list_json(rest) =~= spec_package_json(rest[0]) + (
            if rest.len() == 1 {
                Seq::<char>::empty()
            } else {
                seq![','] + spec_pkg_list_json(rest.drop_first())
            }));
            assert(spec_package_json(rest[0])[0] == '{');
        }
        lemma_at_index(s, e + 1, spec_pkg_list_json(rest) + seq![']'], 0);
        assert(s[e + 1] == '{');
        assert(jws_end(s, e + 1) == e + 1);
        assert(acc.push(raw_pkg_of(p0)) + rest.map_values(|p: SpecPackage| raw_pkg_of(p)) =~= acc
            + ps.map_values(|p: SpecPackage| raw_pkg_of(p)));
        assert(spec_parse_pkg_items(s, i, acc) == Some(
            (
                acc + ps.map_values(|p: SpecPackage| raw_pkg_of(p)),
                i + spec_pkg_list_json(ps).len() + 1,
            ),
        ));
    }
}

proof fn lemma_packages_round(s: Seq<char>, i: int, ps: Seq<SpecPackage>)
    requires
        at_frag(s, i, spec_packages_json(ps)),
    ensures
        spec_parse_packages(s, i) == Some(
            (ps.map_values(|p: SpecPackage| raw_pkg_of(p)), i + spec_packages_json(ps).len()),
        ),
        s[i] == '[',
{
    assert(spec_packages_json(ps) =~= seq!['['] + (spec_pkg_list_json(ps) + seq![']']));
    lemma_at_split(s, i, seq!['['], spec_pkg_list_json(ps) + seq![']']);
    lemma_at_char(s, i, '[');
    if ps.len() == 0 {
        assert(spec_pkg_list_json(ps) + seq![']'] =~= seq![']']);
        lemma_at_char(s, i + 1, ']');
        assert(jws_end(s, i + 1) == i + 1);
        assert(ps.map_values(|p: SpecPackage| raw_pkg_of(p)) =~= Seq::<SpecRawPackage>::empty());
        assert(spec_parse_packages(s, i) == Some((Seq::<SpecRawPackage>::empty(), i + 2)));
    } else {
        lemma_pkg_items_round(s, i + 1, ps, Seq::empty());
        assert(spec_pkg_list_json(ps)[0] == '{') by {
            assert(spec_pkg_list_json(ps) =~= spec_package_json(ps[0]) + (
            if ps.len() == 1 {
                Seq::<char>::empty()
            } else {
                seq![','] + spec_pkg_list_json(ps.drop_first())
            }));
            assert(spec_package_json(ps[0])[0] == '{');
        }
        lemma_at_index(s, i + 1, spec_pkg_list_json(ps) + seq![']'], 0);
        assert(s[i + 1] == '{');
        assert(jws_end(s, i + 1) == i + 1);
        assert(Seq::<SpecRawPackage>::empty() + ps.map_values(|p: SpecPackage| raw_pkg_of(p)) =~=
            ps.map_values(|p: SpecPackage| raw_pkg_of(p)));
    }
}

/// The raw manifest in which a manifest reappears after parsing its
/// canonical rendering.
pub open spec fn raw_of(m: SpecManifest) -> SpecRawManifest {
    SpecRawManifest {
        schema_version: Some("1"@),
        schema_version_deprecated: None,
        name: Some(m.name),
        description: Some(m.description),
        license: Some(m.license),
        spin_compatibility: Some(m.spin_compatibility),
        packages: Some(m.packages.map_values(|p: SpecPackage| raw_pkg_of(p))),
    }
}

/// One scalar member step of the top-level field walk: at `i` the document
/// holds `"key":"val"` followed by `,` (more fields) or `}` (the last one).
proof fn lemma_scalar_field_step(
    s: Seq<char>,
    i: int,
    key: Seq<char>,
    val: Seq<char>,
    acc: SpecRawManifest,
    acc2: SpecRawManifest,
    more: bool,
)
    requires
        at_frag(s, i, spec_member_json(key, val) + seq![if more { ',' } else { '}' }]),
        is_scalar_field_key(key),
        spec_set_field(acc, key, val) == Some(acc2),
        more ==> i + spec_member_json(key, val).len() + 1 < s.len() && s[i + spec_member_json(
            key,
            val,
        ).len() + 1] == '"',
    ensures
        !more ==> spec_parse_fields(s, i, acc) == Some(
            (acc2, i + spec_member_json(key, val).len() + 1),
        ),
        more ==> spec_parse_fields(s, i, acc) == spec_parse_fields(
            s,
            i + spec_member_json(key, val).len() + 1,
            acc2,
        ),
{
    let ce = if more { ',' } else { '}' };
    assert(spec_member_json(key, val) + seq![ce] =~= spec_jstring_of(key) + (seq![':'] + (
    spec_jstring_of(val) + seq![ce])));
    lemma_at_split(s, i, spec_jstring_of(key), seq![':'] + (spec_jstring_of(val) + seq![ce]));
    lemma_jstring_round(s, i, key);
    let k = i + spec_jstring_of(key).len();
    lemma_at_split(s, k, seq![':'], spec_jstring_of(val) + seq![ce]);
    lemma_at_char(s, k, ':');
    lemma_at_split(s, k + 1, spec_jstring_of(val), seq![ce]);
    lemma_jstring_round(s, k + 1, val);
    let b = k + 1 + spec_jstring_of(val).len();
    lemma_at_char(s, b, ce);
    assert(jws_end(s, k) == k);
    assert(jws_end(s, k + 1) == k + 1);
    assert(jws_end(s, b) == b);
    if more {
        assert(jws_end(s, b + 1) == b + 1);
    }
    assert(b + 1 == i + spec_member_json(key, val).len() + 1);
}

/// The final member step: at `i` the document holds `"packages":[...]`
/// followed by the closing `}` of the manifest object.
proof fn lemma_packages_field_step(
    s: Seq<char>,
    i: int,
    ps: Seq<SpecPackage>,
    acc: SpecRawManifest,
)
    requires
        at_frag(
            s,
            i,
            (spec_jstring_of("packages"@) + seq![':'] + spec_packages_json(ps)) + seq!['}'],
        ),
        acc.packages is None,
    ensures
        spec_parse_fields(s, i, acc) == Some(
            (
                SpecRawManifest {
                    packages: Some(ps.map_values(|p: SpecPackage| raw_pkg_of(p))),
                    ..acc
                },
                i + (spec_jstring_of("packages"@) + seq![':'] + spec_packages_json(ps)).len() + 1,
            ),
        ),
{
    reveal_strlit("packages");
    reveal_strlit("manifestVersion");
    reveal_strlit("version");
    reveal_strlit("name");
    reveal_strlit("description");
    reveal_strlit("license");
    reveal_strlit("spinCompatibility");
    assert(key_schema().len() == 15 && key_schema_deprecated().len() == 7 && "name"@.len() == 4
        && "description"@.len() == 11 && "license"@.len() == 7 && "spinCompatibility"@.len() == 17
        && "packages"@.len() == 8);
    assert(!is_scalar_field_key("packages"@));
    assert((spec_jstring_of("packages"@) + seq![':'] + spec_packages_json(ps)) + seq!['}'] =~=
        spec_jstring_of("packages"@) + (seq![':'] + (spec_packages_json(ps) + seq!['}'])));
    lemma_at_split(
        s,
        i,
        spec_jstring_of("packages"@),
        seq![':'] + (spec_packages_json(ps) + seq!['}']),
    );
    lemma_jstring_round(s, i, "packages"@);
    let k = i + spec_jstring_of("packages"@).len();
    lemma_at_split(s, k, seq![':'], spec_packages_json(ps) + seq!['}']);
    lemma_at_char(s, k, ':');
    lemma_at_split(s, k + 1, spec_packages_json(ps), seq!['}']);
    lemma_packages_round(s, k + 1, ps);
    let b = k + 1 + spec_packages_json(ps).len();
    lemma_at_char(s, b, '}');
    assert(jws_end(s, k) == k);
    assert(jws_end(s, k + 1) == k + 1);
    assert(jws_end(s, b) == b);
    assert(b + 1 == i + (spec_jstring_of("packages"@) + seq![':'] + spec_packages_json(
        ps,
    )).len() + 1);
}

/// Where each member group sits inside the canonical rendering.
#[verifier::rlimit(100)]
#[verifier::spinoff_prover]
proof fn lemma_doc_layout(m: SpecManifest)
    ensures
        ({
            let s = spec_manifest_json(m);
            let g1 = spec_member_json(key_schema(), "1"@) + seq![','];
            let g2 = spec_member_json("name"@, m.name) + seq![','];
            let g3 = spec_member_json("description"@, m.description) + seq![','];
            let g4 = spec_member_json("license"@, m.license) + seq![','];
            let g5 = spec_member_json("spinCompatibility"@, m.spin_compatibility) + seq![','];
            let g6 = (spec_jstring_of("packages"@) + seq![':'] + spec_packages_json(m.packages))
                + seq!['}'];
            let a1 = 1int;
            let a2 = a1 + g1.len();
            let a3 = a2 + g2.len();
            let a4 = a3 + g3.len();
            let a5 = a4 + g4.len();
            let a6 = a5 + g5.len();
            &&& 0 < s.len()
            &&& s[0] == '{'
            &&& a6 + g6.len() == s.len()
            &&& at_frag(s, a1, g1)
            &&& at_frag(s, a2, g2)
            &&& at_frag(s, a3, g3)
            &&& at_frag(s, a4, g4)
            &&& at_frag(s, a5, g5)
            &&& at_frag(s, a6, g6)
        }),
{
    let s = spec_manifest_json(m);
    let m1 = spec_member_json(key_schema(), "1"@);
    let m2 = spec_member_json("name"@, m.name);
    let m3 = spec_member_json("description"@, m.description);
    let m4 = spec_member_json("license"@, m.license);
    let m5 = spec_member_json("spinCompatibility"@, m.spin_compatibility);
    let m6 = spec_jstring_of("packages"@) + seq![':'] + spec_packages_json(m.packages);
    let g1 = m1 + seq![','];
    let g2 = m2 + seq![','];
    let g3 = m3 + seq![','];
    let g4 = m4 + seq![','];
    let g5 = m5 + seq![','];
    let g6 = m6 + seq!['}'];
    assert(s =~= seq!['{'] + (g1 + (g2 + (g3 + (g4 + (g5 + g6))))));
    assert(at_frag(s, 0, seq!['{'] + (g1 + (g2 + (g3 + (g4 + (g5 + g6))))))) by {
        assert(s.subrange(0, s.len() as int) =~= s);
    }
    lemma_at_split(s, 0, seq!['{'], g1 + (g2 + (g3 + (g4 + (g5 + g6)))));
    lemma_at_char(s, 0, '{');
    let a1 = 1int;
    lemma_at_split(s, a1, g1, g2 + (g3 + (g4 + (g5 + g6))));
    let a2 = a1 + g1.len();
    lemma_at_split(s, a2, g2, g3 + (g4 + (g5 + g6)));
    let a3 = a2 + g2.len();
    lemma_at_split(s, a3, g3, g4 + (g5 + g6));
    let a4 = a3 + g3.len();
    lemma_at_split(s, a4, g4, g5 + g6);
    let a5 = a4 + g4.len();
    lemma_at_split(s, a5, g5, g6);
}

#[verifier::rlimit(100)]
#[verifier::spinoff_prover]
proof fn lemma_manifest_doc_round(m: SpecManifest)
    ensures
        spec_parse_manifest_doc(spec_manifest_json(m)) == Some(raw_of(m)),
{
    reveal_strlit("manifestVersion");
    reveal_strlit("version");
    reveal_strlit("name");
    reveal_strlit("description");
    reveal_strlit("license");
    reveal_strlit("spinCompatibility");
    reveal_strlit("packages");
    reveal_strlit("1");
    let s = spec_manifest_json(m);
    let m1 = spec_member_json(key_schema(), "1"@);
    let m2 = spec_member_json("name"@, m.name);
    let m3 = spec_member_json("description"@, m.description);
    let m4 = spec_member_json("license"@, m.license);
    let m5 = spec_member_json("spinCompatibility"@, m.spin_compatibility);
    let m6 = spec_jstring_of("packages"@) + seq![':'] + spec_packages_json(m.packages);
    let g1 = m1 + seq![','];
    let g2 = m2 + seq![','];
    let g3 = m3 + seq![','];
    let g4 = m4 + seq![','];
    let g5 = m5 + seq![','];
    let g6 = m6 + seq!['}'];
    let a1 = 1int;
    let a2 = a1 + g1.len();
    let a3 = a2 + g2.len();
    let a4 = a3 + g3.len();
    let a5 = a4 + g4.len();
    let a6 = a5 + g5.len();
    let fin = a6 + g6.len();
    lemma_doc_layout(m);
    // each member group starts with the quote of its key literal
    assert(spec_jstring_of(key_schema())[0] == '"' && g1[0] == '"');
    assert(spec_jstring_of("name"@)[0] == '"' && g2[0] == '"');
    assert(spec_jstring_of("description"@)[0] == '"' && g3[0] == '"');
    assert(spec_jstring_of("license"@)[0] == '"' && g4[0] == '"');
    assert(spec_jstring_of("spinCompatibility"@)[0] == '"' && g5[0] == '"');
    assert(spec_jstring_of("packages"@)[0] == '"' && g6[0] == '"');
    lemma_at_index(s, a1, g1, 0);
    lemma_at_index(s, a2, g2, 0);
    lemma_at_index(s, a3, g3, 0);
    lemma_at_index(s, a4, g4, 0);
    lemma_at_index(s, a5, g5, 0);
    lemma_at_index(s, a6, g6, 0);
    // the keys are pairwise distinct, so each member lands in its own field
    assert(key_schema().len() == 15 && key_schema_deprecated().len() == 7 && "name"@.len() == 4
        && "description"@.len() == 11 && "license"@.len() == 7 && "spinCompatibility"@.len() == 17
        && "packages"@.len() == 8);
    assert("license"@[0] == 'l' && key_schema_deprecated()[0] == 'v');
    let acc0 = spec_empty_raw();
    let acc1 = SpecRawManifest { schema_version: Some("1"@), ..acc0 };
    let acc2 = SpecRawManifest { name: Some(m.name), ..acc1 };
    let acc3 = SpecRawManifest { description: Some(m.description), ..acc2 };
    let acc4 = SpecRawManifest { license: Some(m.license), ..acc3 };
    let acc5 = SpecRawManifest { spin_compatibility: Some(m.spin_compatibility), ..acc4 };
    let acc6 = SpecRawManifest {
        packages: Some(m.packages.map_values(|p: SpecPackage| raw_pkg_of(p))),
        ..acc5
    };
    assert(is_scalar_field_key(key_schema()) && spec_set_field(acc0, key_schema(), "1"@) == Some(
        acc1,
    ));
    lemma_scalar_field_step(s, a1, key_schema(), "1"@, acc0, acc1, true);
    assert(is_scalar_field_key("name"@) && spec_set_field(acc1, "name"@, m.name) == Some(acc2));
    lemma_scalar_field_step(s, a2, "name"@, m.name, acc1, acc2, true);
    assert(is_scalar_field_key("description"@) && spec_set_field(acc2, "description"@, m.description)
        == Some(acc3));
    lemma_scalar_field_step(s, a3, "description"@, m.description, acc2, acc3, true);
    assert(is_scalar_field_key("license"@) && spec_set_field(acc3, "license"@, m.license) == Some(
        acc4,
    ));
    lemma_scalar_field_step(s, a4, "license"@, m.license, acc3, acc4, true);
    assert(is_scalar_field_key("spinCompatibility"@) && spec_set_field(
        acc4,
        "spinCompatibility"@,
        m.spin_compatibility,
    ) == Some(acc5));
    lemma_scalar_field_step(s, a5, "spinCompatibility"@, m.spin_compatibility, acc4, acc5, true);
    lemma_packages_field_step(s, a6, m.packages, acc5);
    assert(spec_parse_fields(s, a6, acc5) == Some((acc6, fin)));
    assert(spec_parse_fields(s, a1, acc0) == Some((acc6, fin)));
    // the document-level walk
    assert(jws_end(s, 0) == 0);
    assert(s[a1] == '"');
    assert(jws_end(s, a1) == a1);
    assert(jws_end(s, fin) == s.len());
    assert(acc6 =~= raw_of(m));
    assert(spec_parse_manifest_doc(s) == Some(raw_of(m)));
}

proof fn lemma_parse_os_name(os: Os)
    ensures
        crate::manifest::spec_parse_os(os_name(os)) == Some(os),
{
    reveal_strlit("linux");
    reveal_strlit("macos");
    reveal_strlit("windows");
    assert("macos"@[0] == 'm' && "linux"@[0] == 'l' && "windows"@.len() == 7);
}

/// The record round trip: the canonical rendering of a well-formed manifest
/// parses back to a raw document that carries the supported schema tag,
/// resolves, and resolves to that very manifest.
pub proof fn lemma_manifest_record_round_trip(m: SpecManifest)
    requires
        crate::manifest::wf_manifest(m),
    ensures
        spec_parse_manifest_doc(spec_manifest_json(m)) is Some,
        crate::manifest::spec_schema_supported(spec_parse_manifest_doc(spec_manifest_json(m))->Some_0),
        crate::manifest::spec_raw_resolvable(spec_parse_manifest_doc(spec_manifest_json(m))->Some_0),
        crate::manifest::spec_resolved(spec_parse_manifest_doc(spec_manifest_json(m))->Some_0) == m,
{
    lemma_manifest_doc_round(m);
    let raw = raw_of(m);
    let f = |p: SpecPackage| raw_pkg_of(p);
    let rps = m.packages.map_values(f);
    assert forall|k: int| 0 <= k < rps.len() implies crate::manifest::spec_package_resolvable(
        #[trigger] rps[k],
    ) by {
        assert(rps[k] == raw_pkg_of(m.packages[k]));
        lemma_parse_os_name(m.packages[k].os);
        assert(crate::manifest::wf_package(m.packages[k]));
    }
    assert forall|a: int, b: int|
        0 <= a < b < rps.len() implies crate::manifest::spec_parse_os(
        (#[trigger] rps[a]).os->Some_0,
    ) != crate::manifest::spec_parse_os((#[trigger] rps[b]).os->Some_0) by {
        assert(rps[a] == raw_pkg_of(m.packages[a]));
        assert(rps[b] == raw_pkg_of(m.packages[b]));
        lemma_parse_os_name(m.packages[a].os);
        lemma_parse_os_name(m.packages[b].os);
        assert(m.packages[a].os != m.packages[b].os);
    }
    assert(crate::manifest::spec_raw_resolvable(raw));
    let resolved = crate::manifest::spec_resolved(raw);
    assert forall|k: int| 0 <= k < resolved.packages.len() implies resolved.packages[k]
        == m.packages[k] by {
        assert(resolved.packages[k] == crate::manifest::spec_resolved_package(rps[k]));
        assert(rps[k] == raw_pkg_of(m.packages[k]));
        lemma_parse_os_name(m.packages[k].os);
        assert(crate::manifest::spec_resolved_package(raw_pkg_of(m.packages[k])) =~= m.packages[k]);
    }
    assert(resolved.packages =~= m.packages);
    assert(resolved =~= m);
}


/// Parses and normalizes a remote manifest document for installation.
///
/// A document that does not parse, or that parses but does not normalize,
/// is a malformed manifest; an unrecognized schema version is reported
/// distinctly.
pub fn resolve_plugin_manifest(doc: &str) -> (r: Result<PluginManifest, crate::error::PluginError>)
    ensures
        match r {
            Ok(m) => {
                &&& spec_parse_manifest_doc(doc@) is Some
                &&& crate::manifest::spec_schema_supported(spec_parse_manifest_doc(doc@)->Some_0)
                &&& crate::manifest::spec_raw_resolvable(spec_parse_manifest_doc(doc@)->Some_0)
                &&& m@ == crate::manifest::spec_resolved(spec_parse_manifest_doc(doc@)->Some_0)
                &&& crate::manifest::wf_manifest(m@)
            },
            Err(e) => {
                if spec_parse_manifest_doc(doc@) is None {
                    e is MalformedManifest
                } else if !crate::manifest::spec_schema_supported(
                    spec_parse_manifest_doc(doc@)->Some_0,
                ) {
                    e is UnsupportedSchema
                } else {
                    !crate::manifest::spec_raw_resolvable(spec_parse_manifest_doc(doc@)->Some_0)
                        && e is MalformedManifest
                }
            },
        },
{
    match parse_manifest_doc(doc) {
        None => Err(crate::error::PluginError::MalformedManifest),
        Some(raw) => crate::manifest::resolve_manifest(&raw),
    }
}

} // verus!
