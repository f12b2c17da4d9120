//! Parsing the compositor's configuration for the cursor theme.
//!
//! The configuration is a line-oriented text file; the first line whose
//! trimmed form starts with `xcursor-theme` decides: its value is the
//! double-quoted string after the keyword, or nothing when the value is
//! not quoted. Reading the file is the caller's; what the text means is
//! proved here.

use vstd::prelude::*;

use crate::platform::config_dir_path;
use crate::text::{spec_ends_with, spec_starts_with, spec_trim, starts_with, trim};

verus! {

/// Build the configuration file's path under a configuration directory.
pub fn config_file_path(dir: &str) -> (r: String)
    ensures
        r@ == dir@ + "/niri/config.kdl"@,
{
    let mut s = dir.to_owned();
    s.append("/niri/config.kdl");
    s
}

/// The configuration file the cursor theme is read from, if the user's
/// configuration directory is known: `niri/config.kdl` under it.
pub fn cursor_config_path() -> (r: Option<String>)
    ensures
        r matches Some(p) ==> spec_ends_with(p@, "/niri/config.kdl"@),
{
    match config_dir_path() {
        Some(d) => {
            let p = config_file_path(d.as_str());
            proof {
                reveal_strlit("/niri/config.kdl");
                assert(p@.subrange(p@.len() - 16, p@.len() as int) =~= "/niri/config.kdl"@);
            }
            Some(p)
        },
        None => None,
    }
}

/// The position of the first newline in `s`, or its length if none.
pub open spec fn first_newline(s: Seq<char>) -> nat
    decreases s.len(),
{
    if s.len() == 0 {
        0
    } else if s[0] == '\n' {
        0
    } else {
        1 + first_newline(s.drop_first())
    }
}

/// `s` split at its newlines. A trailing newline yields a final empty
/// line, which no keyword matches.
pub open spec fn spec_lines(s: Seq<char>) -> Seq<Seq<char>>
    decreases s.len(),
{
    let i = first_newline(s) as int;
    if i >= s.len() {
        seq![s]
    } else {
        seq![s.subrange(0, i)] + spec_lines(s.subrange(i + 1, s.len() as int))
    }
}

/// The theme named by the text after the keyword: the quoted string,
/// if the trimmed value is double-quoted.
pub open spec fn spec_theme_value(rest: Seq<char>) -> Option<Seq<char>> {
    let v = spec_trim(rest);
    if v.len() >= 2 && v[0] == '"' && v[v.len() - 1] == '"' {
        Some(v.subrange(1, v.len() - 1))
    } else {
        None
    }
}

/// The theme found in a sequence of lines: the first line whose trimmed
/// form starts with the keyword decides.
pub open spec fn spec_scan_lines(lines: Seq<Seq<char>>) -> Option<Seq<char>>
    decreases lines.len(),
{
    if lines.len() == 0 {
        None
    } else {
        let t = spec_trim(lines[0]);
        if spec_starts_with(t, "xcursor-theme"@) {
            spec_theme_value(t.subrange("xcursor-theme"@.len() as int, t.len() as int))
        } else {
            spec_scan_lines(lines.drop_first())
        }
    }
}

/// The cursor theme named in the configuration text, if any.
pub open spec fn spec_cursor_theme(s: Seq<char>) -> Option<Seq<char>> {
    spec_scan_lines(spec_lines(s))
}

/// The first newline is where the first `'\n'` character stands.
proof fn lemma_first_newline(s: Seq<char>, i: int)
    requires
        0 <= i <= s.len(),
        forall|k: int| 0 <= k < i ==> s[k] != '\n',
        i < s.len() ==> s[i] == '\n',
    ensures
        first_newline(s) == i,
    decreases i,
{
    if i == 0 {
    } else {
        let t = s.drop_first();
        assert(forall|k: int| 0 <= k < i - 1 ==> t[k] != '\n');
        lemma_first_newline(t, i - 1);
    }
}

/// Extract the theme from the text after the keyword on a matching line.
fn theme_value(rest: &str) -> (r: Option<String>)
    ensures
        r.deep_view() == spec_theme_value(rest@),
{
    let v = trim(rest);
    let m = v.as_str().unicode_len();
    if m >= 2 && v.as_str().get_char(0) == '"' && v.as_str().get_char(m - 1) == '"' {
        Some(v.as_str().substring_char(1, m - 1).to_owned())
    } else {
        None
    }
}

/// Find the cursor theme in the configuration text: on the first line
/// whose trimmed form starts with `xcursor-theme`, the double-quoted
/// value after the keyword — or nothing, if that line's value is not
/// quoted or no line matches.
pub fn parse_cursor_theme(content: &str) -> (r: Option<String>)
    ensures
        r.deep_view() == spec_cursor_theme(content@),
{
    let n = content.unicode_len();
    let mut start: usize = 0;
    proof {
        assert(content@.subrange(0, n as int) =~= content@);
    }
    loop
        invariant
            n == content@.len(),
            0 <= start <= n,
            spec_scan_lines(spec_lines(content@.subrange(start as int, n as int)))
                == spec_cursor_theme(content@),
        decreases n - start,
    {
        let ghost remaining = content@.subrange(start as int, n as int);
        let mut end: usize = start;
        while end < n && content.get_char(end) != '\n'
            invariant
                n == content@.len(),
                start <= end <= n,
                forall|k: int| start <= k < end ==> content@[k] != '\n',
            decreases n - end,
        {
            end += 1;
        }
        proof {
            assert(forall|k: int| 0 <= k < remaining.len() ==> remaining[k] == content@[
                start + k
            ]);
            lemma_first_newline(remaining, end - start);
        }
        let line = content.substring_char(start, end);
        let t = trim(line);
        proof {
            assert(line@ =~= remaining.subrange(0, end - start));
        }
        if starts_with(t.as_str(), "xcursor-theme") {
            let ghost lines = spec_lines(remaining);
            proof {
                reveal_strlit("xcursor-theme");
                if end < n {
                    assert(lines[0] == remaining.subrange(0, end - start));
                } else {
                    assert(remaining.subrange(0, end - start) =~= remaining);
                    assert(lines[0] == remaining);
                }
            }
            let tn = t.as_str().unicode_len();
            let rest = t.as_str().substring_char(13, tn);
            return theme_value(rest);
        }
        if end == n {
            proof {
                let lines = spec_lines(remaining);
                assert(remaining.subrange(0, end - start) =~= remaining);
                assert(lines =~~= seq![remaining]);
                assert(spec_trim(lines[0]) == t@);
                assert(lines.drop_first() =~= Seq::<Seq<char>>::empty());
                assert(spec_scan_lines(lines) == spec_scan_lines(lines.drop_first()));
                assert(spec_scan_lines(Seq::<Seq<char>>::empty()) is None);
                assert(spec_scan_lines(lines) is None);
            }
            return None;
        }
        proof {
            let lines = spec_lines(remaining);
            let i = (end - start) as int;
            assert(lines[0] == remaining.subrange(0, i));
            assert(lines.drop_first() =~= spec_lines(remaining.subrange(i + 1, remaining.len() as int)));
            assert(remaining.subrange(i + 1, remaining.len() as int) =~= content@.subrange(
                end + 1,
                n as int,
            ));
        }
        start = end + 1;
    }
}

} // verus!
