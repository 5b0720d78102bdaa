//! Turning what the user wrote (a path, or a pattern with variables and
//! wildcards) into paths of files.
use vstd::prelude::*;
use vstd::string::*;
use crate::client::error::{ErrorKind, MossError};

verus! {

/// One candidate that a pattern matched.
#[derive(Debug, Clone)]
pub enum GlobEntry {
    /// A path that matched and could be read.
    Readable(String),
    /// A path that matched in part but could not be read.
    Unreadable(String),
}

/// What looking up one input on this machine gave.
#[derive(Debug, Clone)]
pub enum Lookup {
    /// The input exists as written.
    Literal,
    /// The input does not exist as written and refers to a variable that is
    /// not defined; the name of the variable.
    UndefinedVariable(String),
    /// The input does not exist as written and, with its variables expanded,
    /// is no valid pattern.
    BadPattern { pattern: String, reason: String },
    /// The input does not exist as written; the candidates that the expanded
    /// pattern matched, in the order they were found.
    Matches(Vec<GlobEntry>),
}

/// The characters of each path of a list.
pub open spec fn paths_view(paths: Seq<String>) -> Seq<Seq<char>> {
    paths.map_values(|p: String| p@)
}

/// The readable candidates, in their order.
pub open spec fn readable_paths(entries: Seq<GlobEntry>) -> Seq<Seq<char>>
    decreases entries.len(),
{
    if entries.len() == 0 {
        Seq::empty()
    } else {
        let before = readable_paths(entries.drop_last());
        match entries.last() {
            GlobEntry::Readable(p) => before.push(p@),
            GlobEntry::Unreadable(_) => before,
        }
    }
}

/// How many candidates could not be read.
pub open spec fn unreadable_count(entries: Seq<GlobEntry>) -> nat
    decreases entries.len(),
{
    if entries.len() == 0 {
        0
    } else {
        let before = unreadable_count(entries.drop_last());
        match entries.last() {
            GlobEntry::Readable(_) => before,
            GlobEntry::Unreadable(_) => before + 1,
        }
    }
}

/// The paths that an input denotes, given what its lookup gave: itself if it
/// exists as written, else the readable matches of the pattern.
pub open spec fn resolved_paths(input: Seq<char>, lookup: Lookup) -> Seq<Seq<char>> {
    match lookup {
        Lookup::Literal => seq![input],
        Lookup::Matches(entries) => readable_paths(entries@),
        _ => Seq::empty(),
    }
}

/// The error that resolving an input ends with, if any.
pub open spec fn resolution_error(lookup: Lookup) -> Option<(ErrorKind, Seq<char>)> {
    match lookup {
        Lookup::Literal => None,
        Lookup::UndefinedVariable(name) => Some(
            (ErrorKind::PathResolution, "Unable to expand variable in path: "@ + name@),
        ),
        Lookup::BadPattern { pattern, reason } => Some(
            (
                ErrorKind::PathResolution,
                "Invalid glob pattern passed: "@ + pattern@ + ": "@ + reason@,
            ),
        ),
        Lookup::Matches(entries) => if unreadable_count(entries@) == 0 {
            None
        } else {
            Some((ErrorKind::PathResolution, "Some paths were invalid"@))
        },
    }
}

/// Expands `~` and variable references with `shellexpand::full`.  An error
/// carries the name of the variable that could not be looked up: the part of
/// the input that stands behind a `$` or `${`.  An input without `$` and
/// without `~` at its start is returned as it is.  What else is returned
/// depends on the environment, so nothing is claimed of it.
#[verifier::external_body]
pub(crate) fn expand(input: &str) -> (expanded: Result<String, String>)
    ensures
        match expanded {
            Ok(text) => is_plain(input@) ==> text@ == input@,
            Err(name) => names_variable_of(input@, name@),
        },
{
    match shellexpand::full(input) {
        Ok(text) => Ok(text.into_owned()),
        Err(err) => Err(err.var_name),
    }
}

/// Matches `pattern` against the file system with `glob::glob` and hands out
/// every item of the iterator it returns, in order, each path as text (what
/// is no valid text in a path is replaced).  An error carries the message of
/// the pattern error.  The matches depend on the disk: nothing is claimed.
#[verifier::external_body]
pub(crate) fn glob_entries(pattern: &str) -> (found: Result<Vec<GlobEntry>, String>) {
    match glob::glob(pattern) {
        Ok(paths) => Ok(
            paths.map(
                |item|
                    match item {
                        Ok(path) => GlobEntry::Readable(path.to_string_lossy().into_owned()),
                        Err(err) => GlobEntry::Unreadable(
                            err.path().to_string_lossy().into_owned(),
                        ),
                    },
            ).collect(),
        ),
        Err(err) => Err(err.msg.to_owned()),
    }
}

/// Looks one input up: first as a path, as written; only if nothing is there,
/// as a pattern, with its variables expanded first.  Which outcome comes
/// depends on the disk and the environment; what it may hold does not.
pub fn lookup(input: &str) -> (found: Lookup)
    ensures
        lookup_fits(input@, found),
{
    let present = path_exists(input);
    lookup_given(input, present)
}

/// Looks one input up, given whether it exists as written: if it does, it
/// stands for itself and nothing is expanded or matched; only if it does
/// not, it is taken as a pattern, with its variables expanded first.
pub fn lookup_given(input: &str, present: bool) -> (found: Lookup)
    ensures
        present <==> found is Literal,
        lookup_fits(input@, found),
{
    if present {
        Lookup::Literal
    } else {
        let expanded = expand(input);
        match_expanded(expanded)
    }
}

/// Matches what expanding an input gave: a variable that could not be looked
/// up is the outcome as it is; else the expanded pattern is matched against
/// the file system, and is reported where it is malformed.
pub fn match_expanded(expanded: Result<String, String>) -> (found: Lookup)
    ensures
        match expanded {
            Err(name) => found matches Lookup::UndefinedVariable(n) && n == name,
            Ok(pattern) => found is Matches || (found matches Lookup::BadPattern {
                pattern: p,
                ..
            } && p == pattern),
        },
{
    match expanded {
        Err(name) => Lookup::UndefinedVariable(name),
        Ok(pattern) => {
            let matched = glob_entries(pattern.as_str());
            pattern_outcome(pattern, matched)
        },
    }
}

/// The outcome for an expanded pattern, given what matching it gave: the
/// candidates in their order, or the pattern with the reason why it is
/// malformed.
pub fn pattern_outcome(pattern: String, matched: Result<Vec<GlobEntry>, String>) -> (found:
    Lookup)
    ensures
        match matched {
            Ok(entries) => found == Lookup::Matches(entries),
            Err(reason) => found == (Lookup::BadPattern { pattern, reason }),
        },
{
    match matched {
        Ok(entries) => Lookup::Matches(entries),
        Err(reason) => Lookup::BadPattern { pattern, reason },
    }
}

/// Asks the file system whether `path` exists, with `std::path::Path::exists`.
/// The answer depends on the disk, so nothing is claimed of it.
#[verifier::external_body]
pub(crate) fn path_exists(path: &str) -> (found: bool) {
    std::path::Path::new(path).exists()
}

/// The input holds nothing that expansion touches: no `$`, and no `~` at its
/// start.
pub open spec fn is_plain(input: Seq<char>) -> bool {
    !input.contains('$') && (input.len() == 0 || input[0] != '~')
}

/// `name` stands in `input` as the name of a variable: right behind a `$` or
/// a `${`.
pub open spec fn names_variable_of(input: Seq<char>, name: Seq<char>) -> bool {
    exists|i: int|
        {
            &&& 0 < i
            &&& i + name.len() <= input.len()
            &&& #[trigger] input.subrange(i, i + name.len()) == name
            &&& (input[i - 1] == '$' || (i >= 2 && input[i - 2] == '$' && input[i - 1] == '{'))
        }
}

/// What a lookup of `input` may give, whatever is on the disk and in the
/// environment: a variable that is reported as undefined is one that the
/// input names, and where the input holds nothing to expand, the pattern that
/// was matched, and is reported where it is malformed, is the input itself.
pub open spec fn lookup_fits(input: Seq<char>, found: Lookup) -> bool {
    match found {
        Lookup::UndefinedVariable(name) => names_variable_of(input, name@),
        Lookup::BadPattern { pattern, .. } => is_plain(input) ==> pattern@ == input,
        _ => true,
    }
}

/// An input without a `$` never fails for an undefined variable.
pub proof fn lemma_no_dollar_no_undefined_variable(input: Seq<char>, found: Lookup)
    requires
        lookup_fits(input, found),
        !input.contains('$'),
    ensures
        !(found is UndefinedVariable),
{
    if let Lookup::UndefinedVariable(name) = found {
        let i = choose|i: int|
            {
                &&& 0 < i
                &&& i + name@.len() <= input.len()
                &&& #[trigger] input.subrange(i, i + name@.len()) == name@
                &&& (input[i - 1] == '$' || (i >= 2 && input[i - 2] == '$' && input[i - 1]
                    == '{'))
            };
        if input[i - 1] == '$' {
            assert(input.contains(input[i - 1]));
        } else {
            assert(input.contains(input[i - 2]));
        }
    }
}

/// Appends the readable candidates to `files`, in their order, and counts
/// the others.
pub fn commit_matches(entries: &Vec<GlobEntry>, files: &mut Vec<String>) -> (unreadable: usize)
    ensures
        paths_view(final(files)@) == paths_view(old(files)@) + readable_paths(entries@),
        unreadable == unreadable_count(entries@),
{
    let mut unreadable: usize = 0;
    let mut i: usize = 0;
    assert(entries@.subrange(0, 0) =~= Seq::<GlobEntry>::empty());
    assert(paths_view(files@) =~= paths_view(old(files)@) + Seq::<Seq<char>>::empty());
    while i < entries.len()
        invariant
            i <= entries.len(),
            unreadable <= i,
            unreadable == unreadable_count(entries@.subrange(0, i as int)),
            paths_view(files@) == paths_view(old(files)@) + readable_paths(
                entries@.subrange(0, i as int),
            ),
        decreases entries.len() - i,
    {
        let ghost before = files@;
        proof {
            let next = entries@.subrange(0, i + 1);
            assert(next.drop_last() =~= entries@.subrange(0, i as int));
            assert(next.last() == entries@[i as int]);
        }
        match &entries[i] {
            GlobEntry::Readable(path) => {
                files.push(path.clone());
                assert(paths_view(files@) =~= paths_view(before).push(path@));
                assert(paths_view(files@) =~= paths_view(old(files)@) + readable_paths(
                    entries@.subrange(0, i + 1),
                ));
            },
            GlobEntry::Unreadable(_) => {
                unreadable += 1;
            },
        }
        i += 1;
    }
    assert(entries@.subrange(0, i as int) =~= entries@);
    unreadable
}

/// Commits what a lookup gave to `files`: the input itself where it exists as
/// written, else every readable match.  Readable matches are committed even
/// when the call then fails because others were unreadable.
pub fn commit_lookup(input: &str, found: Lookup, files: &mut Vec<String>) -> (r: Result<
    (),
    MossError,
>)
    ensures
        paths_view(final(files)@) == paths_view(old(files)@) + resolved_paths(input@, found),
        match resolution_error(found) {
            None => r is Ok,
            Some(e) => r is Err && r->Err_0@ == e,
        },
{
    let ghost before = files@;
    match found {
        Lookup::Literal => {
            files.push(input.to_owned());
            assert(paths_view(files@) =~= paths_view(before) + seq![input@]);
            Ok(())
        },
        Lookup::UndefinedVariable(name) => {
            assert(paths_view(files@) =~= paths_view(before) + Seq::<Seq<char>>::empty());
            let mut message = "Unable to expand variable in path: ".to_owned();
            message.append(name.as_str());
            Err(MossError { kind: ErrorKind::PathResolution, message })
        },
        Lookup::BadPattern { pattern, reason } => {
            assert(paths_view(files@) =~= paths_view(before) + Seq::<Seq<char>>::empty());
            let mut message = "Invalid glob pattern passed: ".to_owned();
            message.append(pattern.as_str());
            message.append(": ");
            message.append(reason.as_str());
            Err(MossError { kind: ErrorKind::PathResolution, message })
        },
        Lookup::Matches(entries) => {
            let unreadable = commit_matches(&entries, files);
            if unreadable == 0 {
                Ok(())
            } else {
                Err(
                    MossError {
                        kind: ErrorKind::PathResolution,
                        message: "Some paths were invalid".to_owned(),
                    },
                )
            }
        },
    }
}

/// Resolves one input and appends the files it denotes to `files`.
///
/// Whatever the lookup gave, `files` grows by exactly the paths that this
/// outcome denotes, and the call fails exactly when this outcome is an error.
pub fn resolve_into(input: &str, files: &mut Vec<String>) -> (r: Result<(), MossError>)
    ensures
        exists|found: Lookup|
            {
                &&& lookup_fits(input@, found)
                &&& paths_view(final(files)@) == paths_view(old(files)@)
                    + #[trigger] resolved_paths(input@, found)
                &&& match resolution_error(found) {
                    None => r is Ok,
                    Some(e) => r is Err && r->Err_0@ == e,
                }
            },
{
    let found = lookup(input);
    let ghost witness = found;
    let r = commit_lookup(input, found, files);
    assert(paths_view(files@) == paths_view(old(files)@) + resolved_paths(input@, witness));
    r
}

/// An input that exists as written denotes itself and nothing else, and
/// resolving it is no error.
pub proof fn lemma_literal_resolves_to_itself(input: Seq<char>)
    ensures
        resolved_paths(input, Lookup::Literal) == seq![input],
        resolution_error(Lookup::Literal) is None,
{
}

/// A pattern that matches nothing denotes no file, and that is no error.
pub proof fn lemma_no_match_is_empty(input: Seq<char>, entries: Vec<GlobEntry>)
    requires
        entries@.len() == 0,
    ensures
        resolved_paths(input, Lookup::Matches(entries)) == Seq::<Seq<char>>::empty(),
        resolution_error(Lookup::Matches(entries)) is None,
{
}

/// An undefined variable adds no path and is reported by its name.
pub proof fn lemma_undefined_variable_adds_nothing(input: Seq<char>, name: String)
    ensures
        resolved_paths(input, Lookup::UndefinedVariable(name)) == Seq::<Seq<char>>::empty(),
        resolution_error(Lookup::UndefinedVariable(name)) == Some(
            (ErrorKind::PathResolution, "Unable to expand variable in path: "@ + name@),
        ),
{
}

} // verus!
