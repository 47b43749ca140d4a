//! Change-set scoping: which files (and which lines of them) changed relative
//! to a base ref. The git invocations themselves are made by the caller; this
//! module turns their output into a [`DiffInfo`] and answers queries on it.
use vstd::prelude::*;

use crate::text::{
    after_first, all_digits, before_first, chars_eq, digits_value, is_digit, lemma_first_index_at, lemma_first_index_from, unsigned_part, lines, lines_spec, owned,
    parse_u32, parse_u32_spec, seq_starts_with, slice_to_vec, string_of, take_after, take_before,
};

verus! {

/// What a scan covers.
#[derive(Debug, Clone, Copy, PartialEq, Eq, Structural)]
pub enum ScanScope {
    /// Whole repository (default).
    Full,
    /// All issues in files changed vs the base ref (plus untracked files).
    ChangedFiles,
    /// Only issues on lines changed vs the base ref.
    ChangedLines,
}

/// The changed line ranges of one file; `None` means the whole file counts as
/// changed (untracked files, or the files-only scope).
pub type ChangedRanges = Option<Vec<(u32, u32)>>;

/// The plain value of a file's changed ranges.
pub open spec fn ranges_view(ranges: ChangedRanges) -> Option<Seq<(u32, u32)>> {
    match ranges {
        Some(v) => Some(v@),
        None => None,
    }
}

/// The change set as an ordered list of `(path, ranges)` entries.
pub type DiffEntries = Seq<(Seq<char>, Option<Seq<(u32, u32)>>)>;

/// No path occurs in two entries.
pub open spec fn unique_paths(entries: DiffEntries) -> bool {
    forall|i: int, j: int| 0 <= i < j < entries.len() ==> entries[i].0 != entries[j].0
}

/// Position of the entry for `path`, if any.
pub open spec fn entry_index(entries: DiffEntries, path: Seq<char>) -> Option<int> {
    if exists|i: int| 0 <= i < entries.len() && entries[i].0 == path {
        Some(choose|i: int| 0 <= i < entries.len() && entries[i].0 == path)
    } else {
        None
    }
}

/// The ranges recorded for `path`, if the path is in the change set.
pub open spec fn lookup(entries: DiffEntries, path: Seq<char>) -> Option<Option<Seq<(u32, u32)>>> {
    match entry_index(entries, path) {
        Some(i) => Some(entries[i].1),
        None => None,
    }
}

/// Record `value` for `path`, replacing an existing entry (`HashMap::insert`).
pub open spec fn insert_entry(entries: DiffEntries, path: Seq<char>, value: Option<Seq<(u32, u32)>>) -> DiffEntries {
    match entry_index(entries, path) {
        Some(i) => entries.update(i, (path, value)),
        None => entries.push((path, value)),
    }
}

/// Record `value` for `path` unless it is already present (`entry().or_insert`).
pub open spec fn insert_if_absent(entries: DiffEntries, path: Seq<char>, value: Option<Seq<(u32, u32)>>) -> DiffEntries {
    match entry_index(entries, path) {
        Some(i) => entries,
        None => entries.push((path, value)),
    }
}

/// Append a range to the ranges of `path` when it has a range list.
pub open spec fn add_range(entries: DiffEntries, path: Seq<char>, range: (u32, u32)) -> DiffEntries {
    match entry_index(entries, path) {
        Some(i) => match entries[i].1 {
            Some(ranges) => entries.update(i, (path, Some(ranges.push(range)))),
            None => entries,
        },
        None => entries,
    }
}

/// Some range of `ranges` holds `line` (both ends inclusive).
pub open spec fn covers(ranges: Seq<(u32, u32)>, line: u32) -> bool {
    exists|k: int| 0 <= k < ranges.len() && #[trigger] ranges[k].0 <= line && line <= ranges[k].1
}

/// Whether the change set marks `line` of `path` as changed: a path that is
/// absent marks nothing, a whole-file entry marks every line.
pub open spec fn line_changed(entries: DiffEntries, path: Seq<char>, line: u32) -> bool {
    match lookup(entries, path) {
        None => false,
        Some(None) => true,
        Some(Some(ranges)) => covers(ranges, line),
    }
}

/// Changed files relative to the repo root, each with its changed ranges.
pub struct DiffInfo {
    files: Vec<(String, ChangedRanges)>,
}

impl DiffInfo {
    /// The change set as plain values.
    pub closed spec fn entries(&self) -> DiffEntries {
        self.files@.map_values(|e: (String, ChangedRanges)| (e.0@, ranges_view(e.1)))
    }

    #[verifier::type_invariant]
    spec fn paths_unique(&self) -> bool {
        unique_paths(self.entries())
    }

    /// An empty change set.
    pub fn new() -> (d: DiffInfo)
        ensures
            d.entries() == Seq::<(Seq<char>, Option<Seq<(u32, u32)>>)>::empty(),
    {
        let d = DiffInfo { files: Vec::new() };
        assert(d.entries() =~= Seq::<(Seq<char>, Option<Seq<(u32, u32)>>)>::empty());
        d
    }

    fn position(&self, path: &[char]) -> (found: Option<usize>)
        ensures
            match found {
                Some(i) => entry_index(self.entries(), path@) == Some(i as int),
                None => entry_index(self.entries(), path@) == None::<int>,
            },
    {
        proof {
            use_type_invariant(self);
        }
        let mut i: usize = 0;
        while i < self.files.len()
            invariant
                i <= self.files@.len(),
                unique_paths(self.entries()),
                forall|j: int| 0 <= j < i ==> self.entries()[j].0 != path@,
            decreases self.files@.len() - i,
        {
            let name = crate::text::chars_of(self.files[i].0.as_str());
            if chars_eq(&name, path) {
                proof {
                    assert(self.entries()[i as int].0 == path@);
                    let k = choose|k: int| 0 <= k < self.entries().len() && self.entries()[k].0 == path@;
                    if k != i {
                        assert(self.entries()[k].0 != self.entries()[i as int].0);
                    }
                }
                return Some(i);
            }
            i += 1;
        }
        None
    }

    /// Is `relative_path` in the change set?
    pub fn contains_file(&self, relative_path: &str) -> (found: bool)
        ensures
            found == lookup(self.entries(), relative_path@).is_some(),
    {
        let path = crate::text::chars_of(relative_path);
        self.position(&path).is_some()
    }

    /// Does the change set cover `line` of `relative_path`?
    pub fn line_is_changed(&self, relative_path: &str, line: u32) -> (changed: bool)
        ensures
            changed == line_changed(self.entries(), relative_path@, line),
    {
        let path = crate::text::chars_of(relative_path);
        match self.position(&path) {
            None => false,
            Some(i) => match &self.files[i].1 {
                None => true,
                Some(ranges) => {
                    assert(self.entries()[i as int].1 == Some(ranges@));
                    let mut k: usize = 0;
                    while k < ranges.len()
                        invariant
                            k <= ranges@.len(),
                            lookup(self.entries(), relative_path@) == Some(Some(ranges@)),
                            forall|m: int| 0 <= m < k ==> !(ranges@[m].0 <= line && line <= ranges@[m].1),
                        decreases ranges@.len() - k,
                    {
                        if ranges[k].0 <= line && line <= ranges[k].1 {
                            assert(ranges@[k as int].0 <= line && line <= ranges@[k as int].1);
                            return true;
                        }
                        k += 1;
                    }
                    false
                },
            },
        }
    }

    /// Number of files in the change set.
    pub fn file_count(&self) -> (count: usize)
        ensures
            count == self.entries().len(),
    {
        self.files.len()
    }

    /// The changed paths, in the order they were recorded.
    pub fn changed_files(&self) -> (out: Vec<String>)
        ensures
            out@.len() == self.entries().len(),
            forall|k: int| 0 <= k < out@.len() ==> (#[trigger] out@[k])@ == self.entries()[k].0,
    {
        let mut out: Vec<String> = Vec::new();
        let mut k: usize = 0;
        while k < self.files.len()
            invariant
                k <= self.files@.len(),
                out@.len() == k,
                forall|m: int| 0 <= m < k ==> (#[trigger] out@[m])@ == self.entries()[m].0,
            decreases self.files@.len() - k,
        {
            out.push(self.files[k].0.clone());
            k += 1;
        }
        out
    }

    fn insert(&mut self, path: &[char], value: ChangedRanges)
        ensures
            final(self).entries() == insert_entry(old(self).entries(), path@, ranges_view(value)),
    {
        proof {
            use_type_invariant(&*self);
        }
        let found = self.position(path);
        let name = string_of(path);
        let ghost before = self.entries();
        match found {
            Some(i) => {
                let mut files: Vec<(String, ChangedRanges)> = Vec::new();
                std::mem::swap(&mut files, &mut self.files);
                files.set(i, (name, value));
                proof {
                    assert(files@.map_values(|e: (String, ChangedRanges)| (e.0@, ranges_view(e.1)))
                        =~= before.update(i as int, (path@, ranges_view(value))));
                }
                self.files = files;
            },
            None => {
                let mut files: Vec<(String, ChangedRanges)> = Vec::new();
                std::mem::swap(&mut files, &mut self.files);
                files.push((name, value));
                proof {
                    assert(files@.map_values(|e: (String, ChangedRanges)| (e.0@, ranges_view(e.1)))
                        =~= before.push((path@, ranges_view(value))));
                }
                self.files = files;
            },
        }
    }
}


impl DiffInfo {
    fn record_if_absent(&mut self, path: &[char], value: ChangedRanges)
        ensures
            final(self).entries() == insert_if_absent(old(self).entries(), path@, ranges_view(value)),
    {
        if self.position(path).is_none() {
            self.insert(path, value);
        }
    }

    fn push_range(&mut self, path: &[char], range: (u32, u32))
        ensures
            final(self).entries() == add_range(old(self).entries(), path@, range),
    {
        proof {
            use_type_invariant(&*self);
        }
        let ghost before = self.entries();
        match self.position(path) {
            None => {},
            Some(i) => {
                let mut files: Vec<(String, ChangedRanges)> = Vec::new();
                std::mem::swap(&mut files, &mut self.files);
                let mut entry: (String, ChangedRanges) = (String::new(), None);
                files.set_and_swap(i, &mut entry);
                proof {
                    assert(before[i as int] == (entry.0@, ranges_view(entry.1)));
                }
                match entry.1 {
                    None => {},
                    Some(mut ranges) => {
                        ranges.push(range);
                        entry.1 = Some(ranges);
                    },
                }
                files.set(i, entry);
                proof {
                    assert(files@.map_values(|e: (String, ChangedRanges)| (e.0@, ranges_view(e.1)))
                        =~= add_range(before, path@, range));
                }
                self.files = files;
            },
        }
    }
}

/// The range of new-file lines a `-U0` hunk header (`@@ -a,b +start,count @@`)
/// covers, `start..=start + count - 1`. The section after the first `+`, up to
/// the next `+` or space, gives `start` and an optional `count` (1 when
/// omitted). A zero count (a pure deletion), text that does not parse, and an
/// end past `u32::MAX` give `None`.
pub open spec fn hunk_range(line: Seq<char>) -> Option<(u32, u32)> {
    match after_first(line, '+') {
        None => None,
        Some(rest) => {
            let section = before_first(before_first(rest, '+'), ' ');
            match parse_u32_spec(before_first(section, ',')) {
                None => None,
                Some(start) => {
                    let count = match after_first(section, ',') {
                        None => Some(1u32),
                        Some(tail) => parse_u32_spec(before_first(tail, ',')),
                    };
                    match count {
                        None => None,
                        Some(count) => if count == 0 || start + count - 1 > u32::MAX {
                            None
                        } else {
                            Some((start, (start + count - 1) as u32))
                        },
                    }
                },
            }
        },
    }
}

/// Parse a `-U0` hunk header into the range of new-file lines it covers.
pub fn parse_hunk_header(line: &[char]) -> (range: Option<(u32, u32)>)
    ensures
        range == hunk_range(line@),
{
    let rest = match take_after(line, '+') {
        None => return None,
        Some(rest) => rest,
    };
    let upto_plus = take_before(&rest, '+');
    let section = take_before(&upto_plus, ' ');
    let start_text = take_before(&section, ',');
    let start = match parse_u32(&start_text) {
        None => return None,
        Some(start) => start,
    };
    let count = match take_after(&section, ',') {
        None => 1u32,
        Some(tail) => {
            let count_text = take_before(&tail, ',');
            match parse_u32(&count_text) {
                None => return None,
                Some(count) => count,
            }
        },
    };
    if count == 0 {
        return None;
    }
    let span = count - 1;
    if start > u32::MAX - span {
        return None;
    }
    Some((start, start + span))
}

/// The marker of a new-file path line in a unified diff: `+++ b/`.
pub open spec fn new_file_marker() -> Seq<char> {
    seq!['+', '+', '+', ' ', 'b', '/']
}

/// The marker of a hunk header: `@@`.
pub open spec fn hunk_marker() -> Seq<char> {
    seq!['@', '@']
}

fn starts_with_new_file_marker(line: &[char]) -> (found: bool)
    ensures
        found == seq_starts_with(line@, new_file_marker()),
{
    let found = line.len() >= 6 && line[0] == '+' && line[1] == '+' && line[2] == '+' && line[3] == ' '
        && line[4] == 'b' && line[5] == '/';
    proof {
        if line@.len() >= 6 {
            if found {
                assert(line@.take(6) =~= new_file_marker());
            } else {
                assert(line@.take(6) != new_file_marker()) by {
                    let t = line@.take(6);
                    if t == new_file_marker() {
                        assert(t[0] == '+' && t[1] == '+' && t[2] == '+' && t[3] == ' ' && t[4] == 'b' && t[5] == '/');
                    }
                }
            }
        }
    }
    found
}

fn starts_with_hunk_marker(line: &[char]) -> (found: bool)
    ensures
        found == seq_starts_with(line@, hunk_marker()),
{
    let found = line.len() >= 2 && line[0] == '@' && line[1] == '@';
    proof {
        if line@.len() >= 2 {
            if found {
                assert(line@.take(2) =~= hunk_marker());
            } else {
                assert(line@.take(2) != hunk_marker()) by {
                    let t = line@.take(2);
                    if t == hunk_marker() {
                        assert(t[0] == '@' && t[1] == '@');
                    }
                }
            }
        }
    }
    found
}

/// One line of `git diff -U0` output: a `+++ b/<path>` line makes `<path>` the
/// current file (recorded with no ranges yet); a hunk header adds its range to
/// the current file; other lines change nothing.
pub open spec fn hunk_step(state: (DiffEntries, Option<Seq<char>>), line: Seq<char>) -> (DiffEntries, Option<Seq<char>>) {
    if seq_starts_with(line, new_file_marker()) {
        let path = line.skip(6);
        (insert_if_absent(state.0, path, Some(Seq::empty())), Some(path))
    } else if !seq_starts_with(line, hunk_marker()) {
        state
    } else {
        match (state.1, hunk_range(line)) {
            (Some(path), Some(range)) => (add_range(state.0, path, range), state.1),
            _ => state,
        }
    }
}

/// The change set and current file after the given lines of `-U0` output.
pub open spec fn hunk_scan(lines: Seq<Seq<char>>) -> (DiffEntries, Option<Seq<char>>)
    decreases lines.len(),
{
    if lines.len() == 0 {
        (Seq::empty(), None)
    } else {
        hunk_step(hunk_scan(lines.drop_last()), lines.last())
    }
}

/// Each non-empty line of `git diff --name-only` output is a whole changed file.
pub open spec fn name_scan(lines: Seq<Seq<char>>) -> DiffEntries
    decreases lines.len(),
{
    if lines.len() == 0 {
        Seq::empty()
    } else if lines.last().len() == 0 {
        name_scan(lines.drop_last())
    } else {
        insert_entry(name_scan(lines.drop_last()), lines.last(), None)
    }
}

/// Mark each of `paths` as changed as a whole, in order.
pub open spec fn mark_whole(entries: DiffEntries, paths: Seq<Seq<char>>) -> DiffEntries
    decreases paths.len(),
{
    if paths.len() == 0 {
        entries
    } else {
        insert_entry(mark_whole(entries, paths.drop_last()), paths.last(), None)
    }
}

/// The change set that `git diff` output (`-U0` hunks when `with_lines`, else
/// `--name-only`) and the list of untracked files describe.
pub open spec fn diff_entries(diff_output: Seq<char>, untracked_output: Seq<char>, with_lines: bool) -> DiffEntries {
    let committed = if with_lines {
        hunk_scan(lines_spec(diff_output)).0
    } else {
        name_scan(lines_spec(diff_output))
    };
    mark_whole(committed, lines_spec(untracked_output))
}

/// Build the change set from the output of `git diff` against the base
/// (`-U0` form when `with_lines`, `--name-only` form otherwise) and of
/// `git ls-files --others --exclude-standard`.
pub fn collect_diff(diff_output: &str, untracked_output: &str, with_lines: bool) -> (info: DiffInfo)
    ensures
        info.entries() == diff_entries(diff_output@, untracked_output@, with_lines),
{
    let mut info = DiffInfo::new();
    let diff_lines = lines(diff_output);
    if with_lines {
        let mut current: Option<Vec<char>> = None;
        let mut i: usize = 0;
        while i < diff_lines.len()
            invariant
                i <= diff_lines@.len(),
                diff_lines@.len() == lines_spec(diff_output@).len(),
                forall|j: int| 0 <= j < diff_lines@.len() ==> (#[trigger] diff_lines@[j])@ == lines_spec(diff_output@)[j],
                hunk_scan(lines_spec(diff_output@).take(i as int)) == (info.entries(), match current {
                    Some(p) => Some(p@),
                    None => None::<Seq<char>>,
                }),
            decreases diff_lines@.len() - i,
        {
            let ghost all = lines_spec(diff_output@);
            assert(all.take(i + 1).drop_last() =~= all.take(i as int));
            assert(all.take(i + 1).last() == diff_lines@[i as int]@);
            let line = &diff_lines[i];
            if starts_with_new_file_marker(line) {
                let path = slice_to_vec(line, 6, line.len());
                assert(path@ =~= line@.skip(6));
                info.record_if_absent(&path, Some(Vec::new()));
                current = Some(path);
            } else if starts_with_hunk_marker(line) {
                match &current {
                    None => {},
                    Some(path) => match parse_hunk_header(line) {
                        None => {},
                        Some(range) => {
                            info.push_range(path, range);
                        },
                    },
                }
            }
            i += 1;
        }
        assert(lines_spec(diff_output@).take(i as int) =~= lines_spec(diff_output@));
    } else {
        let mut i: usize = 0;
        while i < diff_lines.len()
            invariant
                i <= diff_lines@.len(),
                diff_lines@.len() == lines_spec(diff_output@).len(),
                forall|j: int| 0 <= j < diff_lines@.len() ==> (#[trigger] diff_lines@[j])@ == lines_spec(diff_output@)[j],
                name_scan(lines_spec(diff_output@).take(i as int)) == info.entries(),
            decreases diff_lines@.len() - i,
        {
            let ghost all = lines_spec(diff_output@);
            assert(all.take(i + 1).drop_last() =~= all.take(i as int));
            assert(all.take(i + 1).last() == diff_lines@[i as int]@);
            let line = &diff_lines[i];
            if line.len() > 0 {
                info.insert(line, None);
            }
            i += 1;
        }
        assert(lines_spec(diff_output@).take(i as int) =~= lines_spec(diff_output@));
    }
    let ghost committed = info.entries();
    let untracked = lines(untracked_output);
    let mut k: usize = 0;
    while k < untracked.len()
        invariant
            k <= untracked@.len(),
            untracked@.len() == lines_spec(untracked_output@).len(),
            forall|j: int| 0 <= j < untracked@.len() ==> (#[trigger] untracked@[j])@ == lines_spec(untracked_output@)[j],
            mark_whole(committed, lines_spec(untracked_output@).take(k as int)) == info.entries(),
        decreases untracked@.len() - k,
    {
        let ghost all = lines_spec(untracked_output@);
        assert(all.take(k + 1).drop_last() =~= all.take(k as int));
        assert(all.take(k + 1).last() == untracked@[k as int]@);
        info.insert(&untracked[k], None);
        k += 1;
    }
    assert(lines_spec(untracked_output@).take(k as int) =~= lines_spec(untracked_output@));
    info
}


/// The branches tried, in order, when no base ref is given.
pub fn base_candidate(index: usize) -> (name: &'static str)
    requires
        index < 4,
    ensures
        index == 0 ==> name@ == "origin/main"@,
        index == 1 ==> name@ == "origin/master"@,
        index == 2 ==> name@ == "main"@,
        index == 3 ==> name@ == "master"@,
{
    if index == 0 {
        "origin/main"
    } else if index == 1 {
        "origin/master"
    } else if index == 2 {
        "main"
    } else {
        "master"
    }
}

/// The ref to take the merge-base with: the explicit ref when one is given,
/// else the first of `origin/main`, `origin/master`, `main`, `master` whose
/// entry in `exists` is true (a missing entry counts as false). With neither,
/// the error that asks for `--base`.
pub fn resolve_base(explicit: Option<&str>, exists: &[bool]) -> (base: Result<String, String>)
    ensures
        match explicit {
            Some(reference) => base is Ok && base->Ok_0@ == reference@,
            None => match base {
                Ok(name) => exists|i: int| 0 <= i < 4 && i < exists@.len() && exists@[i]
                    && (forall|j: int| 0 <= j < i ==> !exists@[j])
                    && name@ == candidate_name(i),
                Err(message) => (forall|i: int| 0 <= i < 4 && i < exists@.len() ==> !exists@[i])
                    && message@ == "no base branch found (tried origin/main, origin/master, main, master) — pass --base <ref>"@,
            },
        },
{
    match explicit {
        Some(reference) => Ok(owned(reference)),
        None => {
            let mut i: usize = 0;
            while i < 4 && i < exists.len()
                invariant
                    explicit is None,
                    i <= 4,
                    forall|j: int| 0 <= j < i && j < exists@.len() ==> !exists@[j],
                decreases 4 - i,
            {
                if exists[i] {
                    let name = base_candidate(i);
                    assert(name@ == candidate_name(i as int));
                    assert(exists@[i as int]);
                    return Ok(owned(name));
                }
                i += 1;
            }
            Err(owned("no base branch found (tried origin/main, origin/master, main, master) — pass --base <ref>"))
        },
    }
}

/// The name of the base candidate at `index`.
pub open spec fn candidate_name(index: int) -> Seq<char> {
    if index == 0 {
        "origin/main"@
    } else if index == 1 {
        "origin/master"@
    } else if index == 2 {
        "main"@
    } else {
        "master"@
    }
}

} // verus!

verus! {

proof fn lemma_entry_index(entries: DiffEntries, path: Seq<char>)
    ensures
        match entry_index(entries, path) {
            Some(i) => 0 <= i < entries.len() && entries[i].0 == path,
            None => forall|j: int| 0 <= j < entries.len() ==> entries[j].0 != path,
        },
{
}

proof fn lemma_unique_index(entries: DiffEntries, path: Seq<char>, i: int)
    requires
        unique_paths(entries),
        0 <= i < entries.len(),
        entries[i].0 == path,
    ensures
        entry_index(entries, path) == Some(i),
{
    lemma_entry_index(entries, path);
    let k = entry_index(entries, path)->0;
    if k < i {
        assert(entries[k].0 != entries[i].0);
    } else if k > i {
        assert(entries[i].0 != entries[k].0);
    }
}

proof fn lemma_insert_entry(entries: DiffEntries, path: Seq<char>, value: Option<Seq<(u32, u32)>>)
    requires
        unique_paths(entries),
    ensures
        unique_paths(insert_entry(entries, path, value)),
        lookup(insert_entry(entries, path, value), path) == Some(value),
        forall|q: Seq<char>| q != path ==> lookup(#[trigger] insert_entry(entries, path, value), q) == lookup(entries, q),
{
    lemma_entry_index(entries, path);
    let after = insert_entry(entries, path, value);
    match entry_index(entries, path) {
        Some(i) => {
            assert forall|a: int, b: int| 0 <= a < b < after.len() implies after[a].0 != after[b].0 by {
                assert(entries[a].0 != entries[b].0);
            }
            lemma_unique_index(after, path, i);
            assert forall|q: Seq<char>| q != path implies lookup(#[trigger] insert_entry(entries, path, value), q) == lookup(entries, q) by {
                lemma_entry_index(entries, q);
                match entry_index(entries, q) {
                    Some(j) => {
                        lemma_unique_index(after, q, j);
                    },
                    None => {
                        lemma_entry_index(after, q);
                    },
                }
            }
        },
        None => {
            assert forall|a: int, b: int| 0 <= a < b < after.len() implies after[a].0 != after[b].0 by {
                if b < entries.len() {
                    assert(entries[a].0 != entries[b].0);
                }
            }
            lemma_unique_index(after, path, entries.len() as int);
            assert forall|q: Seq<char>| q != path implies lookup(#[trigger] insert_entry(entries, path, value), q) == lookup(entries, q) by {
                lemma_entry_index(entries, q);
                match entry_index(entries, q) {
                    Some(j) => {
                        lemma_unique_index(after, q, j);
                    },
                    None => {
                        lemma_entry_index(after, q);
                    },
                }
            }
        },
    }
}

proof fn lemma_name_scan_unique(lines: Seq<Seq<char>>)
    ensures
        unique_paths(name_scan(lines)),
    decreases lines.len(),
{
    if lines.len() > 0 {
        lemma_name_scan_unique(lines.drop_last());
        if lines.last().len() > 0 {
            lemma_insert_entry(name_scan(lines.drop_last()), lines.last(), None);
        }
    }
}

proof fn lemma_hunk_scan_unique(lines: Seq<Seq<char>>)
    ensures
        unique_paths(hunk_scan(lines).0),
    decreases lines.len(),
{
    if lines.len() > 0 {
        lemma_hunk_scan_unique(lines.drop_last());
        let prior = hunk_scan(lines.drop_last()).0;
        let after = hunk_scan(lines).0;
        lemma_entry_index(prior, lines.last().skip(6));
        assert forall|a: int, b: int| 0 <= a < b < after.len() implies after[a].0 != after[b].0 by {
            if b < prior.len() {
                assert(prior[a].0 != prior[b].0);
            }
        }
    }
}

proof fn lemma_mark_whole(entries: DiffEntries, paths: Seq<Seq<char>>)
    requires
        unique_paths(entries),
    ensures
        unique_paths(mark_whole(entries, paths)),
        forall|k: int| 0 <= k < paths.len() ==> lookup(mark_whole(entries, paths), #[trigger] paths[k]) == Some(None::<Seq<(u32, u32)>>),
    decreases paths.len(),
{
    if paths.len() > 0 {
        lemma_mark_whole(entries, paths.drop_last());
        let prior = mark_whole(entries, paths.drop_last());
        lemma_insert_entry(prior, paths.last(), None);
        assert forall|k: int| 0 <= k < paths.len() implies lookup(mark_whole(entries, paths), #[trigger] paths[k]) == Some(
            None::<Seq<(u32, u32)>>,
        ) by {
            if k < paths.len() - 1 && paths[k] != paths.last() {
                assert(paths[k] == paths.drop_last()[k]);
            }
        }
    }
}

/// Untracked files count as changed as a whole: every line of every file in
/// the untracked list is a changed line, whatever the diff says.
pub proof fn lemma_untracked_files_wholly_changed(diff_output: Seq<char>, untracked_output: Seq<char>, with_lines: bool, k: int, line: u32)
    requires
        0 <= k < lines_spec(untracked_output).len(),
    ensures
        line_changed(diff_entries(diff_output, untracked_output, with_lines), lines_spec(untracked_output)[k], line),
{
    let committed = if with_lines {
        hunk_scan(lines_spec(diff_output)).0
    } else {
        name_scan(lines_spec(diff_output))
    };
    lemma_hunk_scan_unique(lines_spec(diff_output));
    lemma_name_scan_unique(lines_spec(diff_output));
    lemma_mark_whole(committed, lines_spec(untracked_output));
}

proof fn lemma_all_whole_insert(entries: DiffEntries, path: Seq<char>)
    requires
        forall|i: int| 0 <= i < entries.len() ==> (#[trigger] entries[i]).1 is None,
    ensures
        forall|i: int| 0 <= i < insert_entry(entries, path, None).len() ==> (#[trigger] insert_entry(entries, path, None)[i]).1 is None,
{
    lemma_entry_index(entries, path);
}

proof fn lemma_name_scan_whole(lines: Seq<Seq<char>>)
    ensures
        forall|i: int| 0 <= i < name_scan(lines).len() ==> (#[trigger] name_scan(lines)[i]).1 is None,
    decreases lines.len(),
{
    if lines.len() > 0 {
        lemma_name_scan_whole(lines.drop_last());
        if lines.last().len() > 0 {
            lemma_all_whole_insert(name_scan(lines.drop_last()), lines.last());
        }
    }
}

proof fn lemma_mark_whole_all(entries: DiffEntries, paths: Seq<Seq<char>>)
    requires
        forall|i: int| 0 <= i < entries.len() ==> (#[trigger] entries[i]).1 is None,
    ensures
        forall|i: int| 0 <= i < mark_whole(entries, paths).len() ==> (#[trigger] mark_whole(entries, paths)[i]).1 is None,
    decreases paths.len(),
{
    if paths.len() > 0 {
        lemma_mark_whole_all(entries, paths.drop_last());
        lemma_all_whole_insert(mark_whole(entries, paths.drop_last()), paths.last());
    }
}

/// In a changed-files scan (no line ranges), a file in the change set counts
/// as changed as a whole: every one of its lines is a changed line.
pub proof fn lemma_files_scope_whole_files(diff_output: Seq<char>, untracked_output: Seq<char>, path: Seq<char>, line: u32)
    requires
        lookup(diff_entries(diff_output, untracked_output, false), path) is Some,
    ensures
        line_changed(diff_entries(diff_output, untracked_output, false), path, line),
{
    lemma_name_scan_whole(lines_spec(diff_output));
    lemma_mark_whole_all(name_scan(lines_spec(diff_output)), lines_spec(untracked_output));
    lemma_entry_index(diff_entries(diff_output, untracked_output, false), path);
}

/// A changed line lies in a file of the change set.
pub proof fn lemma_changed_line_in_changed_file(entries: DiffEntries, path: Seq<char>, line: u32)
    requires
        line_changed(entries, path, line),
    ensures
        lookup(entries, path) is Some,
{
}


proof fn lemma_hunk_sections(pre: Seq<char>, start: Seq<char>, count: Seq<char>, post: Seq<char>)
    requires
        !pre.contains('+'),
        all_digits(start),
        all_digits(count),
    ensures
        ({
            let rest = start + seq![','] + count + seq![' '] + post;
            let section = start + seq![','] + count;
            &&& after_first(pre + seq!['+'] + start + seq![','] + count + seq![' '] + post, '+') == Some(rest)
            &&& before_first(before_first(rest, '+'), ' ') == section
            &&& before_first(section, ',') == start
            &&& after_first(section, ',') == Some(count)
            &&& before_first(count, ',') == count
        }),
{
    let line = pre + seq!['+'] + start + seq![','] + count + seq![' '] + post;
    let p = pre.len() as int;
    assert forall|j: int| 0 <= j < p implies line[j] != '+' by {
        assert(line[j] == pre[j]);
    }
    lemma_first_index_at(line, '+', p);
    let rest = line.skip(p + 1);
    assert(rest =~= start + seq![','] + count + seq![' '] + post);
    let k = (start.len() + 1 + count.len()) as int;
    let section = start + seq![','] + count;
    assert forall|j: int| 0 <= j < k implies rest[j] != '+' && rest[j] != ' ' && rest[j] == section[j] by {
        if j < start.len() {
            assert(rest[j] == start[j] && is_digit(start[j]));
        } else if j > start.len() {
            assert(rest[j] == count[j - start.len() - 1] && is_digit(count[j - start.len() - 1]));
        }
    }
    assert(rest[k] == ' ');
    lemma_first_index_from(rest, '+', k + 1);
    let upto = before_first(rest, '+');
    assert(upto.len() > k && forall|j: int| 0 <= j <= k ==> upto[j] == rest[j]);
    lemma_first_index_at(upto, ' ', k);
    assert(before_first(upto, ' ') =~= section);
    assert forall|j: int| 0 <= j < start.len() implies section[j] != ',' by {
        assert(is_digit(start[j]));
    }
    lemma_first_index_at(section, ',', start.len() as int);
    assert(before_first(section, ',') =~= start);
    assert(after_first(section, ',') == Some(count)) by {
        assert(section.skip(start.len() as int + 1) =~= count);
    }
    assert forall|j: int| 0 <= j < count.len() implies count[j] != ',' by {
        assert(is_digit(count[j]));
    }
    lemma_first_index_from(count, ',', count.len() as int);
    assert(before_first(count, ',') == count);
    assert(after_first(line, '+') == Some(rest));
}



/// A hunk header whose new-file section is `+start,count` (both decimal digit
/// strings, `count` at least one) covers the lines `start` to
/// `start + count - 1`, the whole value of each number counting.
pub proof fn lemma_hunk_header_range(pre: Seq<char>, start: Seq<char>, count: Seq<char>, post: Seq<char>)
    requires
        !pre.contains('+'),
        start.len() > 0,
        all_digits(start),
        digits_value(start) <= u32::MAX,
        count.len() > 0,
        all_digits(count),
        1 <= digits_value(count) <= u32::MAX,
        digits_value(start) + digits_value(count) - 1 <= u32::MAX,
    ensures
        hunk_range(pre + seq!['+'] + start + seq![','] + count + seq![' '] + post) == Some(
            (digits_value(start) as u32, (digits_value(start) + digits_value(count) - 1) as u32),
        ),
{
    lemma_hunk_sections(pre, start, count, post);
    assert(is_digit(start[0]) && is_digit(count[0]));
    assert(unsigned_part(start) == start);
    assert(unsigned_part(count) == count);
}

/// A hunk header whose new-file count is zero (a pure deletion) covers no
/// new-file line.
pub proof fn lemma_hunk_header_deletion(pre: Seq<char>, start: Seq<char>, count: Seq<char>, post: Seq<char>)
    requires
        !pre.contains('+'),
        all_digits(start),
        count.len() > 0,
        all_digits(count),
        digits_value(count) == 0,
    ensures
        hunk_range(pre + seq!['+'] + start + seq![','] + count + seq![' '] + post) is None,
{
    lemma_hunk_sections(pre, start, count, post);
    assert(is_digit(count[0]));
    assert(unsigned_part(count) == count);
}

/// A hunk header whose new-file section is `+start` alone (a decimal digit
/// string) covers the one line `start`.
pub proof fn lemma_hunk_header_single_line(pre: Seq<char>, start: Seq<char>, post: Seq<char>)
    requires
        !pre.contains('+'),
        start.len() > 0,
        all_digits(start),
        digits_value(start) <= u32::MAX,
    ensures
        hunk_range(pre + seq!['+'] + start + seq![' '] + post) == Some((digits_value(start) as u32, digits_value(start) as u32)),
{
    let line = pre + seq!['+'] + start + seq![' '] + post;
    let p = pre.len() as int;
    assert forall|j: int| 0 <= j < p implies line[j] != '+' by {
        assert(line[j] == pre[j]);
    }
    lemma_first_index_at(line, '+', p);
    let rest = line.skip(p + 1);
    assert(rest =~= start + seq![' '] + post);
    let k = start.len() as int;
    assert forall|j: int| 0 <= j < k implies rest[j] != '+' && rest[j] != ' ' && rest[j] != ',' && rest[j] == start[j] by {
        assert(rest[j] == start[j] && is_digit(start[j]));
    }
    assert(rest[k] == ' ');
    lemma_first_index_from(rest, '+', k + 1);
    let upto = before_first(rest, '+');
    assert(upto.len() > k && forall|j: int| 0 <= j <= k ==> upto[j] == rest[j]);
    lemma_first_index_at(upto, ' ', k);
    assert(before_first(upto, ' ') =~= start);
    lemma_first_index_from(start, ',', k);
    assert(before_first(start, ',') == start);
    assert(after_first(start, ',') is None);
    assert(is_digit(start[0]));
    assert(unsigned_part(start) == start);
}

} // verus!
