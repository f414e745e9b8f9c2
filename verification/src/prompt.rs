//! The consent prompt.
//!
//! Before any package download or filesystem write, the operator is shown
//! the plugin's name, license, manifest source and package URL, and asked
//! for an explicit yes/no decision. Rendering the prompt text and
//! interpreting the operator's reply are verified here; reading the reply
//! from the terminal is the unverified shell's job.

use vstd::prelude::*;
use vstd::string::StringExecFns;

use crate::error::PluginError;
use crate::store::spec_manifest_file_name;
use crate::text::str_to_chars;
use crate::urls::{join_url, url_join_of, url_joins};

verus! {

/// The characters trimming removes: the Unicode white-space characters
/// (those `char::is_whitespace` accepts).
pub open spec fn is_blank(c: char) -> bool {
    ||| c == ' '
    ||| c == '\t'
    ||| c == '\n'
    ||| c == '\u{000B}'
    ||| c == '\u{000C}'
    ||| c == '\r'
    ||| c == '\u{0085}'
    ||| c == '\u{00A0}'
    ||| c == '\u{1680}'
    ||| ('\u{2000}' <= c && c <= '\u{200A}')
    ||| c == '\u{2028}'
    ||| c == '\u{2029}'
    ||| c == '\u{202F}'
    ||| c == '\u{205F}'
    ||| c == '\u{3000}'
}

fn is_blank_char(c: char) -> (r: bool)
    ensures
        r == is_blank(c),
{
    c == ' ' || c == '\t' || c == '\n' || c == '\u{000B}' || c == '\u{000C}' || c == '\r'
        || c == '\u{0085}' || c == '\u{00A0}' || c == '\u{1680}' || ('\u{2000}' <= c && c
        <= '\u{200A}') || c == '\u{2028}' || c == '\u{2029}' || c == '\u{202F}' || c == '\u{205F}'
        || c == '\u{3000}'
}

/// The first position in `[i, j)` holding a non-blank character, or `j`.
pub open spec fn blank_end(s: Seq<char>, i: int, j: int) -> int
    decreases j - i,
{
    if i < j && is_blank(s[i]) {
        blank_end(s, i + 1, j)
    } else {
        i
    }
}

/// The position after the last non-blank character in `[i, j)`, or `i`.
pub open spec fn blank_start(s: Seq<char>, i: int, j: int) -> int
    decreases j - i,
{
    if i < j && is_blank(s[j - 1]) {
        blank_start(s, i, j - 1)
    } else {
        j
    }
}

/// Case folding for the three letters of the accepted answer.
pub open spec fn fold_yes(c: char) -> char {
    if c == 'Y' {
        'y'
    } else if c == 'E' {
        'e'
    } else if c == 'S' {
        's'
    } else {
        c
    }
}

/// Whether a reply means yes: after trimming surrounding white space, the
/// three characters `yes` in any case.
pub open spec fn spec_accepts_response(s: Seq<char>) -> bool {
    let a = blank_end(s, 0, s.len() as int);
    let b = blank_start(s, a, s.len() as int);
    &&& b - a == 3
    &&& fold_yes(s[a]) == 'y'
    &&& fold_yes(s[a + 1]) == 'e'
    &&& fold_yes(s[a + 2]) == 's'
}

fn fold_yes_of(c: char) -> (r: char)
    ensures
        r == fold_yes(c),
{
    if c == 'Y' {
        'y'
    } else if c == 'E' {
        'e'
    } else if c == 'S' {
        's'
    } else {
        c
    }
}

/// Whether the operator's reply means yes. Anything but a trimmed,
/// case-insensitive `yes` declines.
pub fn parse_response(resp: &str) -> (r: bool)
    ensures
        r == spec_accepts_response(resp@),
{
    let v = str_to_chars(resp);
    let n = v.len();
    let mut a: usize = 0;
    while a < n && is_blank_char(v[a])
        invariant
            a <= n,
            n == v@.len(),
            v@ == resp@,
            blank_end(v@, 0, n as int) == blank_end(v@, a as int, n as int),
        decreases n - a,
    {
        a = a + 1;
    }
    let mut b: usize = n;
    while b > a && is_blank_char(v[b - 1])
        invariant
            a <= b <= n,
            n == v@.len(),
            v@ == resp@,
            blank_start(v@, a as int, n as int) == blank_start(v@, a as int, b as int),
        decreases b,
    {
        b = b - 1;
    }
    if b - a != 3 {
        return false;
    }
    fold_yes_of(v[a]) == 'y' && fold_yes_of(v[a + 1]) == 'e' && fold_yes_of(v[a + 2]) == 's'
}

/// The text shown to the operator before the decision.
pub open spec fn spec_prompt_text(
    name: Seq<char>,
    license: Seq<char>,
    source_url: Seq<char>,
    repo_url: Seq<char>,
) -> Seq<char> {
    "Installing plugin "@ + name + " with license "@ + license + " from "@ + source_url
        + "\n\nFor more information, reference the plugin metadata at "@ + repo_url
        + "\n\nAre you sure you want to proceed? ('yes'/'no') (default: no)"@
}

/// The details shown to the operator when consent is requested.
pub struct Prompter {
    pub plugin_name: String,
    pub plugin_license: String,
    /// The location of the plugin's manifest within the repository.
    pub plugin_repo_url: String,
    /// The location the package would be downloaded from.
    pub source_url: String,
}

impl Prompter {
    /// Builds the prompt details, resolving the plugin's manifest location
    /// against the repository base URL. Succeeds exactly when that
    /// resolution does.
    pub fn new(
        plugin_name: &str,
        plugin_license: &str,
        plugins_repo_url: &str,
        source_url: &str,
    ) -> (r: Result<Prompter, PluginError>)
        ensures
            r is Ok <==> url_joins(plugins_repo_url@, spec_manifest_file_name(plugin_name@)),
            match r {
                Ok(p) => {
                    &&& p.plugin_name@ == plugin_name@
                    &&& p.plugin_license@ == plugin_license@
                    &&& p.plugin_repo_url@ == url_join_of(
                        plugins_repo_url@,
                        spec_manifest_file_name(plugin_name@),
                    )
                    &&& p.source_url@ == source_url@
                },
                Err(e) => e is FetchError,
            },
    {
        let fname = crate::store::PluginStore::manifest_file_name(plugin_name);
        match join_url(plugins_repo_url, fname.as_str()) {
            Some(joined) => Ok(
                Prompter {
                    plugin_name: String::from_str(plugin_name),
                    plugin_license: String::from_str(plugin_license),
                    plugin_repo_url: joined,
                    source_url: String::from_str(source_url),
                },
            ),
            None => Err(
                PluginError::FetchError {
                    url: String::from_str(plugins_repo_url),
                    cause: String::from_str("not a valid URL"),
                },
            ),
        }
    }

    /// The full prompt text for these details.
    pub fn prompt_text(&self) -> (r: String)
        ensures
            r@ == spec_prompt_text(
                self.plugin_name@,
                self.plugin_license@,
                self.source_url@,
                self.plugin_repo_url@,
            ),
    {
        let mut s = String::from_str("Installing plugin ");
        s.append(self.plugin_name.as_str());
        s.append(" with license ");
        s.append(self.plugin_license.as_str());
        s.append(" from ");
        s.append(self.source_url.as_str());
        s.append("\n\nFor more information, reference the plugin metadata at ");
        s.append(self.plugin_repo_url.as_str());
        s.append("\n\nAre you sure you want to proceed? ('yes'/'no') (default: no)");
        proof {
            assert(s@ =~= spec_prompt_text(
                self.plugin_name@,
                self.plugin_license@,
                self.source_url@,
                self.plugin_repo_url@,
            ));
        }
        s
    }
}

} // verus!
