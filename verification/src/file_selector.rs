//! Choosing a file: which of the files found are offered for a filter that
//! the user has typed, and under which label.

use vstd::prelude::*;
use fuzzy_matcher::skim::SkimMatcher;
use fuzzy_matcher::FuzzyMatcher;

verus! {

/// A window that lies over the editor and asks the user for something.
#[derive(Debug, PartialEq, Eq)]
pub enum Modal {
    /// Asks for one of the files under the given directory.
    FileSelector(String),
}

/// A file that is offered to the user.
#[derive(Debug, PartialEq, Eq)]
pub struct Choice {
    /// What the user reads: the file's path without the directory that was searched.
    pub label: String,
    /// The file's path.
    pub file: String,
}

/// The score that the matcher gives to `choice` for `pattern`, if it finds
/// the pattern's characters in the choice at all.
pub uninterp spec fn skim_score(choice: Seq<char>, pattern: Seq<char>) -> Option<i64>;

/// `text` with every occurrence of `from` taken out.
pub uninterp spec fn without(text: Seq<char>, from: Seq<char>) -> Seq<char>;

/// Calls `fuzzy_match` of `fuzzy_matcher`'s first skim matcher. The score is
/// computed from the two strings alone; the contract gives it its name and
/// claims nothing else of it.
#[verifier::external_body]
fn fuzzy_match(choice: &str, pattern: &str) -> (score: Option<i64>)
    ensures
        score == skim_score(choice@, pattern@),
{
    SkimMatcher::default().fuzzy_match(choice, pattern)
}

/// Calls `str::replace` with an empty replacement: the text that is left when
/// every occurrence of `from` is taken out, found from the start on and not
/// overlapping. The contract gives the result its name.
#[verifier::external_body]
fn strip(text: &str, from: &str) -> (left: String)
    ensures
        left@ == without(text@, from@),
{
    text.replace(from, "")
}

/// Whether a score lets a choice pass for a pattern: an empty pattern lets
/// everything pass, any other only what scores above zero.
pub open spec fn passes(pattern: Seq<char>, score: Option<i64>) -> bool {
    pattern.len() == 0 || (score matches Some(value) && value > 0)
}

/// Whether `choice` is offered for `pattern`.
pub open spec fn is_match(choice: Seq<char>, pattern: Seq<char>) -> bool {
    passes(pattern, skim_score(choice, pattern))
}

/// Judges the score that the matcher gave for `pattern`.
pub fn accepts(pattern: &str, score: Option<i64>) -> (passed: bool)
    ensures
        passed == passes(pattern@, score),
{
    if pattern.is_empty() {
        return true;
    }
    match score {
        Some(value) => value > 0,
        None => false,
    }
}

/// Tells whether `choice` is offered for `pattern`.
pub fn matches(choice: &str, pattern: &str) -> (shown: bool)
    ensures
        shown == is_match(choice@, pattern@),
{
    let score = fuzzy_match(choice, pattern);
    accepts(pattern, score)
}

/// The choice under which `file` is offered when the directory `path` was searched.
pub open spec fn is_choice_for(choice: Choice, path: Seq<char>, file: String) -> bool {
    choice.file == file && choice.label@ == without(file@, path)
}

/// Of `files`, those that are offered for `filter`, in the order of `files`.
pub open spec fn offered(files: Seq<String>, filter: Seq<char>) -> Seq<String> {
    files.filter(|file: String| is_match(file@, filter))
}

/// Of the files found under `path`, those that are offered for `filter`: each
/// file that matches, once and in the order of `files`, labelled with its path
/// without `path`.
pub fn file_selector(path: &str, files: &Vec<String>, filter: &str) -> (choices: Vec<Choice>)
    ensures
        choices@.len() == offered(files@, filter@).len(),
        forall|k: int|
            0 <= k < choices@.len() ==> is_choice_for(
                #[trigger] choices@[k],
                path@,
                offered(files@, filter@)[k],
            ),
{
    let mut choices: Vec<Choice> = Vec::new();
    let mut i: usize = 0;
    assert(files@.take(0) =~= Seq::<String>::empty());
    assert(offered(files@.take(0), filter@).len() == 0) by {
        files@.take(0).lemma_filter_len(|file: String| is_match(file@, filter@));
    }
    while i < files.len()
        invariant
            i <= files@.len(),
            choices@.len() == offered(files@.take(i as int), filter@).len(),
            forall|k: int|
                0 <= k < choices@.len() ==> is_choice_for(
                    #[trigger] choices@[k],
                    path@,
                    offered(files@.take(i as int), filter@)[k],
                ),
        decreases files@.len() - i,
    {
        let file = &files[i];
        proof {
            assert(files@.take(i + 1) =~= files@.take(i as int).push(*file));
            files@.take(i as int).lemma_filter_push(
                *file,
                |file: String| is_match(file@, filter@),
            );
        }
        if matches(file.as_str(), filter) {
            let choice = Choice { label: strip(file.as_str(), path), file: file.clone() };
            choices.push(choice);
        }
        i += 1;
    }
    assert(files@.take(files@.len() as int) =~= files@);
    choices
}

/// One entry of a directory, as a search meets it.
#[derive(Debug, PartialEq, Eq)]
pub enum Entry {
    /// A directory: its own name and its path.
    Folder { name: String, path: String },
    /// A file, by its path.
    File(String),
    /// Anything else.
    Other,
}

/// Whether a directory of that name is left out of a search.
pub open spec fn is_excluded(name: String, excluded_list: Seq<String>) -> bool {
    exists|i: int| 0 <= i < excluded_list.len() && (#[trigger] excluded_list[i])@ == name@
}

/// The directory that a search goes into for an entry, if it goes into one.
pub open spec fn entered(entry: Entry, excluded_list: Seq<String>) -> Option<String> {
    match entry {
        Entry::Folder { name, path } => if is_excluded(name, excluded_list) {
            None
        } else {
            Some(path)
        },
        _ => None,
    }
}

/// The file that a search finds in an entry, if it finds one.
pub open spec fn found_in(entry: Entry) -> Option<String> {
    match entry {
        Entry::File(path) => Some(path),
        _ => None,
    }
}

/// A search for the files under a directory, breadth first: the directories
/// that wait to be read, the next one first, and the files found so far.
#[derive(Debug)]
pub struct Walk {
    folders: Vec<String>,
    files: Vec<String>,
}

impl Walk {
    /// The directories that wait to be read, the next one first.
    pub closed spec fn waiting(self) -> Seq<String> {
        self.folders@
    }

    /// The files found so far, in the order in which they were found.
    pub closed spec fn found(self) -> Seq<String> {
        self.files@
    }

    /// A search that is about to read `path`.
    pub fn new(path: String) -> (walk: Walk)
        ensures
            walk.waiting() == seq![path],
            walk.found() == Seq::<String>::empty(),
    {
        let mut folders: Vec<String> = Vec::new();
        folders.push(path);
        assert(folders@ =~= seq![path]);
        Walk { folders, files: Vec::new() }
    }

    /// The directory to read next, which then waits no longer; none when the
    /// search is over.
    pub fn next_folder(&mut self) -> (folder: Option<String>)
        ensures
            final(self).found() == old(self).found(),
            old(self).waiting().len() == 0 ==> {
                &&& folder is None
                &&& final(self).waiting() == old(self).waiting()
            },
            old(self).waiting().len() > 0 ==> {
                &&& folder == Some(old(self).waiting()[0])
                &&& final(self).waiting() == old(self).waiting().drop_first()
            },
    {
        if self.folders.len() == 0 {
            return None;
        }
        let folder = self.folders.remove(0);
        assert(self.folders@ =~= old(self).folders@.drop_first());
        Some(folder)
    }

    /// Takes what the directory that was read last holds, entry by entry:
    /// a directory waits behind those that wait already, unless its name is
    /// in the excluded list; a file is found; anything else is passed over.
    pub fn visit(&mut self, entries: Vec<Entry>, excluded_list: &Vec<String>)
        ensures
            final(self).waiting() == old(self).waiting() + entries@.filter_map(
                |entry: Entry| entered(entry, excluded_list@),
            ),
            final(self).found() == old(self).found() + entries@.filter_map(
                |entry: Entry| found_in(entry),
            ),
    {
        let ghost all = entries@;
        let ghost enter = |entry: Entry| entered(entry, excluded_list@);
        let ghost find = |entry: Entry| found_in(entry);
        let mut entries = entries;
        let mut done: usize = 0;
        let total = entries.len();
        assert(all.take(0) =~= Seq::<Entry>::empty());
        assert(self.folders@ =~= old(self).folders@ + all.take(0).filter_map(enter));
        assert(self.files@ =~= old(self).files@ + all.take(0).filter_map(find));
        while entries.len() > 0
            invariant
                total == all.len(),
                done + entries@.len() == total,
                entries@ == all.subrange(done as int, total as int),
                enter == |entry: Entry| entered(entry, excluded_list@),
                find == |entry: Entry| found_in(entry),
                self.folders@ == old(self).folders@ + all.take(done as int).filter_map(enter),
                self.files@ == old(self).files@ + all.take(done as int).filter_map(find),
            decreases entries@.len(),
        {
            let ghost folders = self.folders@;
            let ghost files = self.files@;
            let entry = entries.remove(0);
            proof {
                assert(entry == all[done as int]);
                all.lemma_filter_map_take_succ(enter, done as int);
                all.lemma_filter_map_take_succ(find, done as int);
            }
            match entry {
                Entry::Folder { name, path } => {
                    if !excluded(&name, excluded_list) {
                        self.folders.push(path);
                    }
                },
                Entry::File(path) => {
                    self.files.push(path);
                },
                Entry::Other => {},
            }
            done += 1;
            assert(entries@ =~= all.subrange(done as int, total as int));
            assert(self.folders@ =~= old(self).folders@ + all.take(done as int).filter_map(enter));
            assert(self.files@ =~= old(self).files@ + all.take(done as int).filter_map(find));
        }
        assert(all.take(total as int) =~= all);
    }

    /// Ends the search and hands out the files that it found.
    pub fn finish(self) -> (files: Vec<String>)
        ensures
            files@ == self.found(),
    {
        self.files
    }
}

/// Tells whether a directory of that name is left out of a search.
pub fn excluded(name: &String, excluded_list: &Vec<String>) -> (out: bool)
    ensures
        out == is_excluded(*name, excluded_list@),
{
    let mut i: usize = 0;
    while i < excluded_list.len()
        invariant
            i <= excluded_list@.len(),
            forall|k: int| 0 <= k < i ==> (#[trigger] excluded_list@[k])@ != name@,
        decreases excluded_list@.len() - i,
    {
        if excluded_list[i] == *name {
            return true;
        }
        i += 1;
    }
    false
}

} // verus!
