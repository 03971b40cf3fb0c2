//! The origin check: was the running program found through the search path,
//! or was it named by an explicit path?
//!
//! The check looks for a file with the name of the program in each directory
//! of the search path, in order, and stops at the first it finds. Looking is
//! left to the caller: the check names one path at a time and is told whether
//! a file exists there.

use vstd::prelude::*;
use vstd::string::*;
use crate::paths::{
    file_name, is_relative, join, parent, path_file_name, path_is_relative, path_joined,
    path_parent,
};
use crate::text::texts;

verus! {

/// The pieces of `text` between the occurrences of `separator`. There is one
/// piece more than there are separators; a piece may be empty.
pub open spec fn split_on(text: Seq<char>, separator: char) -> Seq<Seq<char>>
    decreases text.len(),
{
    if text.len() == 0 {
        seq![Seq::<char>::empty()]
    } else {
        let before = split_on(text.drop_last(), separator);
        if text.last() == separator {
            before.push(Seq::<char>::empty())
        } else {
            before.drop_last().push(before.last().push(text.last()))
        }
    }
}

/// `pieces` put together again, with `separator` between each two.
pub open spec fn joined_with(pieces: Seq<Seq<char>>, separator: char) -> Seq<char>
    decreases pieces.len(),
{
    if pieces.len() == 0 {
        Seq::<char>::empty()
    } else if pieces.len() == 1 {
        pieces[0]
    } else {
        joined_with(pieces.drop_last(), separator).push(separator) + pieces.last()
    }
}

/// Splitting loses nothing and leaves no separator behind: there is at least
/// one piece, no piece holds the separator, and the pieces put together again
/// with the separator between them are the text.
pub proof fn lemma_split_on_joins_back(text: Seq<char>, separator: char)
    ensures
        split_on(text, separator).len() >= 1,
        forall|i: int|
            0 <= i < split_on(text, separator).len() ==> !(#[trigger] split_on(
                text,
                separator,
            )[i]).contains(separator),
        joined_with(split_on(text, separator), separator) == text,
    decreases text.len(),
{
    if text.len() > 0 {
        let pieces = split_on(text, separator);
        let shorter = text.drop_last();
        let before = split_on(shorter, separator);
        lemma_split_on_joins_back(shorter, separator);
        assert(text =~= shorter.push(text.last()));
        if text.last() == separator {
            assert(pieces.drop_last() =~= before);
        } else {
            let grown = before.last().push(text.last());
            assert forall|k: int| 0 <= k < grown.len() implies grown[k] != separator by {}
            if before.len() > 1 {
                assert(pieces.drop_last() =~= before.drop_last());
            }
        }
    }
}

/// The directories that a search path lists, separated by colons.
pub open spec fn search_directories(search_path: Seq<char>) -> Seq<Seq<char>> {
    split_on(search_path, ':')
}

/// The paths at which the program `exe_path` would be found through
/// `search_path`: its file name inside each directory listed, in order. There
/// are none for a program named by a relative path, nor for one without a
/// parent directory or a file name.
pub open spec fn candidates_of(exe_path: Seq<char>, search_path: Seq<char>) -> Seq<Seq<char>> {
    if path_is_relative(exe_path) || path_parent(exe_path) is None {
        Seq::empty()
    } else {
        match path_file_name(exe_path) {
            None => Seq::empty(),
            Some(name) => {
                let directories = search_directories(search_path);
                Seq::new(directories.len(), |i: int| path_joined(directories[i], name))
            },
        }
    }
}

/// Splits a search path into the directories it lists.
pub fn split_search_path(search_path: &str) -> (directories: Vec<String>)
    ensures
        texts(directories@) == search_directories(search_path@),
{
    let length = search_path.unicode_len();
    let mut directories: Vec<String> = Vec::new();
    let mut start: usize = 0;
    let mut i: usize = 0;
    assert(search_path@.take(0) =~= Seq::<char>::empty());
    while i < length
        invariant
            start <= i <= length,
            length == search_path@.len(),
            texts(directories@).push(search_path@.subrange(start as int, i as int)) == split_on(
                search_path@.take(i as int),
                ':',
            ),
        decreases length - i,
    {
        let ghost seen = search_path@.take(i as int);
        let ghost current = search_path@.subrange(start as int, i as int);
        assert(search_path@.take(i as int + 1).drop_last() =~= seen);
        if search_path.get_char(i) == ':' {
            let piece = search_path.substring_char(start, i);
            directories.push(piece.to_owned());
            start = i + 1;
            assert(search_path@.subrange(start as int, i as int + 1) =~= Seq::<char>::empty());
        } else {
            assert(search_path@.subrange(start as int, i as int + 1) =~= current.push(
                search_path@[i as int],
            ));
        }
        i += 1;
    }
    let piece = search_path.substring_char(start, length);
    assert(search_path@.take(length as int) =~= search_path@);
    directories.push(piece.to_owned());
    directories
}

/// Lists the paths at which the program `exe_path` would be found through
/// `search_path`.
pub fn search_path_candidates(exe_path: &str, search_path: &str) -> (candidates: Vec<String>)
    ensures
        texts(candidates@) == candidates_of(exe_path@, search_path@),
{
    let mut candidates: Vec<String> = Vec::new();
    if is_relative(exe_path) {
        return candidates;
    }
    if parent(exe_path).is_none() {
        return candidates;
    }
    let name = match file_name(exe_path) {
        Some(name) => name,
        None => {
            return candidates;
        },
    };
    let directories = split_search_path(search_path);
    let mut i: usize = 0;
    while i < directories.len()
        invariant
            i <= directories.len(),
            candidates.len() == i,
            forall|k: int|
                0 <= k < i ==> (#[trigger] candidates[k])@ == path_joined(directories[k]@, name@),
        decreases directories.len() - i,
    {
        candidates.push(join(directories[i].as_str(), name.as_str()));
        i += 1;
    }
    candidates
}

/// What the caller of an origin check has to do next.
#[derive(Debug, PartialEq, Eq)]
pub enum OriginAction {
    /// Find out whether a file exists at `path`.
    Probe { path: String },
    /// The check is over: the program was found through the search path, or
    /// it was not.
    Verdict { from_search_path: bool },
}

/// The mathematical content of an [`OriginAction`].
pub enum OriginActionView {
    Probe { path: Seq<char> },
    Verdict { from_search_path: bool },
}

impl View for OriginAction {
    type V = OriginActionView;

    open spec fn view(&self) -> OriginActionView {
        match *self {
            OriginAction::Probe { path } => OriginActionView::Probe { path: path@ },
            OriginAction::Verdict { from_search_path } => OriginActionView::Verdict {
                from_search_path,
            },
        }
    }
}

/// An origin check under way: the paths to look at, how many of them have
/// been looked at in vain, and whether the last look found a file.
#[derive(Debug, PartialEq, Eq)]
pub struct OriginCheck {
    candidates: Vec<String>,
    examined: usize,
    found: bool,
}

/// The mathematical content of an [`OriginCheck`].
pub struct OriginCheckView {
    pub candidates: Seq<Seq<char>>,
    pub examined: nat,
    pub found: bool,
}

impl View for OriginCheck {
    type V = OriginCheckView;

    closed spec fn view(&self) -> OriginCheckView {
        OriginCheckView {
            candidates: texts(self.candidates@),
            examined: self.examined as nat,
            found: self.found,
        }
    }
}

/// A check of `candidates` before any of them has been looked at.
pub open spec fn origin_initial(candidates: Seq<Seq<char>>) -> OriginCheckView {
    OriginCheckView { candidates, examined: 0, found: false }
}

/// The action that a check in state `c` waits for: the verdict once a file
/// was found or no path is left, else a look at the next path.
pub open spec fn origin_pending(c: OriginCheckView) -> OriginActionView {
    if c.found {
        OriginActionView::Verdict { from_search_path: true }
    } else if c.examined < c.candidates.len() {
        OriginActionView::Probe { path: c.candidates[c.examined as int] }
    } else {
        OriginActionView::Verdict { from_search_path: false }
    }
}

/// The state that follows `c` when the path it asked about is reported to
/// hold a file, or not to. A check that has reached its verdict stays as it is.
pub open spec fn origin_transition(c: OriginCheckView, exists: bool) -> OriginCheckView {
    if c.found || c.examined >= c.candidates.len() {
        c
    } else if exists {
        OriginCheckView { found: true, ..c }
    } else {
        OriginCheckView { examined: c.examined + 1, ..c }
    }
}

impl OriginCheck {
    /// Begins a check over `candidates`, to be looked at in order. Returns the
    /// check and its first action.
    pub fn over(candidates: Vec<String>) -> (begun: (OriginCheck, OriginAction))
        ensures
            begun.0@ == origin_initial(texts(candidates@)),
            begun.1@ == origin_pending(begun.0@),
    {
        let check = OriginCheck { candidates, examined: 0, found: false };
        let action = check.pending_action();
        (check, action)
    }

    /// The action that this check waits for.
    pub fn pending_action(&self) -> (action: OriginAction)
        ensures
            action@ == origin_pending(self@),
    {
        if self.found {
            OriginAction::Verdict { from_search_path: true }
        } else if self.examined < self.candidates.len() {
            OriginAction::Probe { path: self.candidates[self.examined].clone() }
        } else {
            OriginAction::Verdict { from_search_path: false }
        }
    }

    /// Takes in whether a file exists at the path that was asked about.
    /// Returns the check in its next state, and the action that is pending
    /// there.
    pub fn step(self, exists: bool) -> (next: (OriginCheck, OriginAction))
        ensures
            next.0@ == origin_transition(self@, exists),
            next.1@ == origin_pending(next.0@),
    {
        let OriginCheck { candidates, examined, found } = self;
        let check = if found || examined >= candidates.len() {
            OriginCheck { candidates, examined, found }
        } else if exists {
            OriginCheck { candidates, examined, found: true }
        } else {
            OriginCheck { candidates, examined: examined + 1, found }
        };
        let action = check.pending_action();
        (check, action)
    }
}

/// Begins the check of whether the program at `exe_path` was found through
/// `search_path`, the colon-separated list of directories that the system
/// searches for programs.
pub fn is_executed_from_path(exe_path: &str, search_path: &str) -> (begun: (
    OriginCheck,
    OriginAction,
))
    ensures
        begun.0@ == origin_initial(candidates_of(exe_path@, search_path@)),
        begun.1@ == origin_pending(begun.0@),
{
    OriginCheck::over(search_path_candidates(exe_path, search_path))
}

/// An upper bound on the looks that a check in state `c` still asks for,
/// counting its verdict.
pub open spec fn origin_steps_left(c: OriginCheckView) -> nat {
    if c.found || c.examined >= c.candidates.len() {
        0
    } else {
        (c.candidates.len() - c.examined + 1) as nat
    }
}

/// The verdict that a check in state `c` comes to when files exist at the
/// paths in `present` and nowhere else.
pub open spec fn origin_verdict(c: OriginCheckView, present: Set<Seq<char>>) -> bool
    decreases origin_steps_left(c),
{
    match origin_pending(c) {
        OriginActionView::Verdict { from_search_path } => from_search_path,
        OriginActionView::Probe { path } => origin_verdict(
            origin_transition(c, present.contains(path)),
            present,
        ),
    }
}

/// The paths that a check in state `c` looks at before its verdict, in order,
/// when files exist at the paths in `present` and nowhere else.
pub open spec fn origin_probes(c: OriginCheckView, present: Set<Seq<char>>) -> Seq<Seq<char>>
    decreases origin_steps_left(c),
{
    match origin_pending(c) {
        OriginActionView::Verdict { .. } => Seq::empty(),
        OriginActionView::Probe { path } => seq![path] + origin_probes(
            origin_transition(c, present.contains(path)),
            present,
        ),
    }
}

/// Whether a file exists at one of `candidates` from the one at `from` on.
pub open spec fn some_present(candidates: Seq<Seq<char>>, from: int, present: Set<Seq<char>>) -> bool {
    exists|i: int| from <= i < candidates.len() && present.contains(#[trigger] candidates[i])
}

/// One step of a check that has a path left to look at.
proof fn lemma_origin_unfold(c: OriginCheckView, present: Set<Seq<char>>)
    requires
        !c.found,
        c.examined < c.candidates.len(),
    ensures
        ({
            let path = c.candidates[c.examined as int];
            let after_miss = OriginCheckView { examined: c.examined + 1, ..c };
            &&& origin_verdict(c, present) == (present.contains(path) || origin_verdict(
                after_miss,
                present,
            ))
            &&& origin_probes(c, present) == if present.contains(path) {
                seq![path]
            } else {
                seq![path] + origin_probes(after_miss, present)
            }
        }),
{
    reveal_with_fuel(origin_verdict, 2);
    reveal_with_fuel(origin_probes, 2);
}

/// A check that has no path left says no and looks at nothing.
proof fn lemma_origin_exhausted(c: OriginCheckView, present: Set<Seq<char>>)
    requires
        !c.found,
        c.examined >= c.candidates.len(),
    ensures
        !origin_verdict(c, present),
        origin_probes(c, present) == Seq::<Seq<char>>::empty(),
{
}

proof fn lemma_origin_verdict_from(c: OriginCheckView, present: Set<Seq<char>>)
    requires
        !c.found,
        c.examined <= c.candidates.len(),
    ensures
        origin_verdict(c, present) == some_present(c.candidates, c.examined as int, present),
    decreases c.candidates.len() - c.examined,
{
    if c.examined < c.candidates.len() {
        lemma_origin_unfold(c, present);
        lemma_origin_verdict_from(OriginCheckView { examined: c.examined + 1, ..c }, present);
    } else {
        lemma_origin_exhausted(c, present);
    }
}

proof fn lemma_origin_probes_from(c: OriginCheckView, present: Set<Seq<char>>)
    requires
        !c.found,
        c.examined <= c.candidates.len(),
    ensures
        ({
            let probes = origin_probes(c, present);
            let n = probes.len() as int;
            &&& n <= c.candidates.len() - c.examined
            &&& probes == c.candidates.subrange(c.examined as int, c.examined + n)
            &&& forall|k: int| 0 <= k < n - 1 ==> !present.contains(#[trigger] probes[k])
            &&& origin_verdict(c, present) ==> n > 0 && present.contains(probes[n - 1])
            &&& !origin_verdict(c, present) ==> n == c.candidates.len() - c.examined
        }),
    decreases c.candidates.len() - c.examined,
{
    if c.examined < c.candidates.len() {
        lemma_origin_unfold(c, present);
        if !present.contains(c.candidates[c.examined as int]) {
            lemma_origin_probes_from(OriginCheckView { examined: c.examined + 1, ..c }, present);
        }
    } else {
        lemma_origin_exhausted(c, present);
    }
}

/// The check finds the program on the search path exactly when a file exists
/// at one of the candidate paths. It looks at the candidates in order, none
/// twice, and at none after the first at which a file exists.
pub proof fn lemma_origin_check_finds_first(candidates: Seq<Seq<char>>, present: Set<Seq<char>>)
    ensures
        ({
            let c = origin_initial(candidates);
            let probes = origin_probes(c, present);
            &&& origin_verdict(c, present) == some_present(candidates, 0, present)
            &&& probes.len() <= candidates.len()
            &&& probes == candidates.take(probes.len() as int)
            &&& forall|k: int| 0 <= k < probes.len() - 1 ==> !present.contains(#[trigger] probes[k])
            &&& origin_verdict(c, present) ==> probes.len() > 0 && present.contains(probes.last())
            &&& !origin_verdict(c, present) ==> probes == candidates
        }),
{
    let c = origin_initial(candidates);
    lemma_origin_verdict_from(c, present);
    lemma_origin_probes_from(c, present);
}

/// The check says no for a program that was named by a relative path, and
/// for one whose file name is found in no directory of the search path. In
/// the first case it looks at no path at all.
pub proof fn lemma_origin_check_rejects(
    exe_path: Seq<char>,
    search_path: Seq<char>,
    present: Set<Seq<char>>,
)
    ensures
        ({
            let c = origin_initial(candidates_of(exe_path, search_path));
            &&& path_is_relative(exe_path) ==> !origin_verdict(c, present) && origin_probes(
                c,
                present,
            ).len() == 0
            &&& path_parent(exe_path) is None ==> !origin_verdict(c, present)
            &&& path_file_name(exe_path) is None ==> !origin_verdict(c, present)
            &&& (forall|i: int|
                0 <= i < search_directories(search_path).len() ==> !present.contains(
                    path_joined(
                        #[trigger] search_directories(search_path)[i],
                        path_file_name(exe_path)->0,
                    ),
                )) ==> !origin_verdict(c, present)
        }),
{
    lemma_origin_check_finds_first(candidates_of(exe_path, search_path), present);
}

} // verus!
