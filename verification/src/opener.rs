//! File-opener candidate selection for the open-file action.
//!
//! The candidates are tried in order: a user-configured override command
//! when one is set and non-blank, the well-known opener names found via
//! the search path, then well-known absolute fallback paths that exist
//! on this machine — each program at most once. A gio opener takes an
//! `open` subcommand before the file; every other opener takes the file
//! alone. Existence checks and spawning are the caller's; which commands
//! are tried, with which arguments and in which order, is proved here.

use vstd::prelude::*;

use crate::text::{ends_with, spec_ends_with, spec_trim, str_eq, trim};

verus! {

/// One command a caller may spawn to open the recorded file.
pub struct OpenCommand {
    pub program: String,
    pub args: Vec<String>,
}

impl DeepView for OpenCommand {
    type V = (Seq<char>, Seq<Seq<char>>);

    open spec fn deep_view(&self) -> Self::V {
        (self.program@, self.args.deep_view())
    }
}

impl OpenCommand {
    /// A command from its program and arguments.
    pub fn new(program: String, args: Vec<String>) -> (r: Self)
        ensures
            r.program == program,
            r.args == args,
    {
        OpenCommand { program, args }
    }
}

/// Whether a program is gio: the bare name, or a path whose file name
/// is gio.
pub open spec fn spec_is_gio(program: Seq<char>) -> bool {
    program == "gio"@ || spec_ends_with(program, "/gio"@)
}

/// The arguments an opener takes: gio opens through its `open`
/// subcommand, every other opener takes the file alone.
pub open spec fn spec_opener_args(program: Seq<char>, file: Seq<char>) -> Seq<Seq<char>> {
    if spec_is_gio(program) {
        seq!["open"@, file]
    } else {
        seq![file]
    }
}

/// The candidates contributed by the fallback paths, skipping any
/// program already seen.
pub open spec fn spec_fallback_candidates(
    fallbacks: Seq<Seq<char>>,
    seen: Seq<Seq<char>>,
    file: Seq<char>,
) -> Seq<(Seq<char>, Seq<Seq<char>>)>
    decreases fallbacks.len(),
{
    if fallbacks.len() == 0 {
        Seq::empty()
    } else {
        let p = fallbacks[0];
        if seen.contains(p) {
            spec_fallback_candidates(fallbacks.drop_first(), seen, file)
        } else {
            seq![(p, spec_opener_args(p, file))] + spec_fallback_candidates(
                fallbacks.drop_first(),
                seen.push(p),
                file,
            )
        }
    }
}

/// The full candidate list: the trimmed override when non-blank, the
/// two search-path names, then the existing fallback paths whose
/// programs were not already seen.
pub open spec fn spec_open_candidates(
    custom: Option<Seq<char>>,
    existing_fallbacks: Seq<Seq<char>>,
    file: Seq<char>,
) -> Seq<(Seq<char>, Seq<Seq<char>>)> {
    let custom_part: Seq<(Seq<char>, Seq<Seq<char>>)> = match custom {
        Some(c) => if spec_trim(c).len() > 0 {
            seq![(spec_trim(c), seq![file])]
        } else {
            Seq::empty()
        },
        None => Seq::empty(),
    };
    let base = seq![
        ("xdg-open"@, spec_opener_args("xdg-open"@, file)),
        ("gio"@, spec_opener_args("gio"@, file)),
    ];
    custom_part + base + spec_fallback_candidates(
        existing_fallbacks,
        seq!["xdg-open"@, "gio"@],
        file,
    )
}

/// Whether a program is gio.
pub fn is_gio(program: &str) -> (r: bool)
    ensures
        r == spec_is_gio(program@),
{
    str_eq(program, "gio") || ends_with(program, "/gio")
}

/// The arguments an opener takes for the recorded file.
pub fn opener_args(program: &str, file_path: &str) -> (r: Vec<String>)
    ensures
        r.deep_view() =~~= spec_opener_args(program@, file_path@),
{
    let mut v: Vec<String> = Vec::new();
    if is_gio(program) {
        v.push(String::from_str("open"));
        v.push(file_path.to_owned());
    } else {
        v.push(file_path.to_owned());
    }
    v
}

/// The absolute fallback paths tried after the search-path names, in
/// order; the caller keeps those that exist on this machine.
pub fn fallback_opener_paths() -> (r: Vec<String>)
    ensures
        r.deep_view() =~~= seq![
            "/run/current-system/sw/bin/xdg-open"@,
            "/usr/bin/xdg-open"@,
            "/bin/xdg-open"@,
            "/run/current-system/sw/bin/gio"@,
            "/usr/bin/gio"@,
            "/bin/gio"@,
        ],
{
    let mut v: Vec<String> = Vec::new();
    v.push(String::from_str("/run/current-system/sw/bin/xdg-open"));
    v.push(String::from_str("/usr/bin/xdg-open"));
    v.push(String::from_str("/bin/xdg-open"));
    v.push(String::from_str("/run/current-system/sw/bin/gio"));
    v.push(String::from_str("/usr/bin/gio"));
    v.push(String::from_str("/bin/gio"));
    v
}

/// Whether some element of `v` holds the characters of `s`.
fn contains_str(v: &Vec<String>, s: &str) -> (r: bool)
    ensures
        r == v.deep_view().contains(s@),
{
    let n = v.len();
    let mut i: usize = 0;
    while i < n
        invariant
            n == v.len(),
            0 <= i <= n,
            forall|j: int| 0 <= j < i ==> v.deep_view()[j] != s@,
        decreases n - i,
    {
        if str_eq(v[i].as_str(), s) {
            proof {
                assert(v.deep_view()[i as int] == s@);
            }
            return true;
        }
        i += 1;
    }
    proof {
        assert(!v.deep_view().contains(s@));
    }
    false
}

/// Build the ordered candidate list for opening the recorded file.
/// `custom` is the configured override command, if any;
/// `existing_fallbacks` are the absolute fallback paths that exist on
/// this machine, in order.
pub fn build_open_candidates(
    custom: Option<String>,
    existing_fallbacks: &Vec<String>,
    file_path: &str,
) -> (r: Vec<OpenCommand>)
    ensures
        r.deep_view() =~~= spec_open_candidates(
            custom.deep_view(),
            existing_fallbacks.deep_view(),
            file_path@,
        ),
{
    let ghost custom_v = custom.deep_view();
    let ghost fb = existing_fallbacks.deep_view();
    let mut r: Vec<OpenCommand> = Vec::new();
    let mut seen: Vec<String> = Vec::new();
    match custom {
        Some(c) => {
            let t = trim(c.as_str());
            if t.unicode_len() > 0 {
                let mut args: Vec<String> = Vec::new();
                args.push(file_path.to_owned());
                r.push(OpenCommand::new(t, args));
            }
        },
        None => {},
    }
    let mut base_args: Vec<String> = Vec::new();
    base_args.push(file_path.to_owned());
    r.push(OpenCommand::new(String::from_str("xdg-open"), base_args));
    let mut gio_args: Vec<String> = Vec::new();
    gio_args.push(String::from_str("open"));
    gio_args.push(file_path.to_owned());
    r.push(OpenCommand::new(String::from_str("gio"), gio_args));
    seen.push(String::from_str("xdg-open"));
    seen.push(String::from_str("gio"));
    proof {
        assert(seen.deep_view() =~= seq!["xdg-open"@, "gio"@]);
        assert(spec_is_gio("gio"@));
        assert(!spec_is_gio("xdg-open"@)) by {
            reveal_strlit("xdg-open");
            reveal_strlit("gio");
            reveal_strlit("/gio");
            assert("xdg-open"@.len() == 8);
            assert("/gio"@.len() == 4);
            assert("xdg-open"@.subrange(4, 8)[0] == "xdg-open"@[4]);
        }
        assert(fb.skip(0) =~= fb);
    }
    let n = existing_fallbacks.len();
    let mut k: usize = 0;
    while k < n
        invariant
            n == existing_fallbacks.len(),
            fb == existing_fallbacks.deep_view(),
            0 <= k <= n,
            r.deep_view() + spec_fallback_candidates(fb.skip(k as int), seen.deep_view(), file_path@)
                =~~= spec_open_candidates(custom_v, fb, file_path@),
        decreases n - k,
    {
        let p = &existing_fallbacks[k];
        let ghost rest = fb.skip(k as int);
        let ghost seen0 = seen.deep_view();
        let ghost r0 = r.deep_view();
        proof {
            assert(rest[0] == fb[k as int]);
            assert(fb[k as int] == p@);
            assert(rest.drop_first() =~= fb.skip(k as int + 1));
        }
        if !contains_str(&seen, p.as_str()) {
            let args = opener_args(p.as_str(), file_path);
            r.push(OpenCommand::new(p.clone(), args));
            seen.push(p.clone());
            proof {
                assert(seen.deep_view() =~= seen0.push(p@));
                assert(r.deep_view() =~~= r0 + seq![(p@, spec_opener_args(p@, file_path@))]);
                assert(spec_fallback_candidates(rest, seen0, file_path@) == seq![
                    (p@, spec_opener_args(p@, file_path@)),
                ] + spec_fallback_candidates(rest.drop_first(), seen0.push(p@), file_path@));
                assert(r.deep_view() + spec_fallback_candidates(
                    fb.skip(k as int + 1),
                    seen.deep_view(),
                    file_path@,
                ) =~~= r0 + spec_fallback_candidates(rest, seen0, file_path@));
            }
        }
        k += 1;
    }
    proof {
        assert(fb.skip(n as int) =~= Seq::<Seq<char>>::empty());
        assert(r.deep_view() + Seq::<(Seq<char>, Seq<Seq<char>>)>::empty() =~~= r.deep_view());
    }
    r
}

/// What one spawn attempt of a candidate decides.
pub enum LaunchOutcome {
    /// The opener launched; whether it then succeeds is not waited for.
    Launched,
    /// The program was not found: the next candidate is tried.
    ProgramMissing,
    /// The program failed to launch for another reason.
    LaunchFailed,
}

/// What the caller does after one spawn attempt.
#[derive(Clone, Copy, Debug, PartialEq, Eq, Structural)]
pub enum OpenStep {
    /// Done: the file was handed to an opener, fire-and-forget.
    Opened,
    /// Try the next candidate, if any is left.
    TryNext,
    /// Report failure: the chosen opener could not be launched.
    Fail,
}

/// The decision for one spawn attempt.
pub open spec fn spec_open_step(o: LaunchOutcome) -> OpenStep {
    match o {
        LaunchOutcome::Launched => OpenStep::Opened,
        LaunchOutcome::ProgramMissing => OpenStep::TryNext,
        LaunchOutcome::LaunchFailed => OpenStep::Fail,
    }
}

/// Decide what to do after one spawn attempt of a candidate. A missing
/// program moves on to the next candidate; any other launch failure is
/// reported; a launched opener ends the attempt, whether or not the
/// opener itself then succeeds. A caller that runs out of candidates
/// reports that no opener was found.
pub fn open_attempt_step(o: &LaunchOutcome) -> (s: OpenStep)
    ensures
        s == spec_open_step(*o),
{
    match o {
        LaunchOutcome::Launched => OpenStep::Opened,
        LaunchOutcome::ProgramMissing => OpenStep::TryNext,
        LaunchOutcome::LaunchFailed => OpenStep::Fail,
    }
}

} // verus!
