//! Navigable entries and the names they are shown under.

use vstd::prelude::*;
use vstd::string::*;

verus! {

/// Opaque to the verifier: the reason `regex` gives for rejecting a pattern.
#[verifier::external_type_specification]
#[verifier::external_body]
pub struct ExPatternError(regex::Error);

/// Whether `regex::Regex::new` accepts the pattern.
pub uninterp spec fn pattern_accepted(pattern: Seq<char>) -> bool;

/// The text of the first match that `regex::Regex::find` reports for an
/// accepted pattern in the haystack, if it reports one.
pub uninterp spec fn first_match(pattern: Seq<char>, haystack: Seq<char>) -> Option<Seq<char>>;

/// The views of an optional string.
pub open spec fn text_of(found: Option<String>) -> Option<Seq<char>> {
    match found {
        Some(s) => Some(s@),
        None => None,
    }
}

/// Compiles the pattern with `regex::Regex::new` and searches the haystack
/// with `regex::Regex::find`. Taken on trust: the call fails exactly when the
/// pattern is rejected, and otherwise yields the matched text that `find`
/// reports, which depends on pattern and haystack alone.
#[verifier::external_body]
fn find_first(pattern: &str, haystack: &str) -> (found: Result<Option<String>, regex::Error>)
    ensures
        found is Ok <==> pattern_accepted(pattern@),
        found matches Ok(m) ==> text_of(m) == first_match(pattern@, haystack@),
{
    Ok(regex::Regex::new(pattern)?.find(haystack).map(|m| m.as_str().to_string()))
}

/// The pattern that finds the last segment of a path together with the
/// separator in front of it: a slash or backslash followed by anything but
/// those, up to the end of the text.
pub open spec fn segment_pattern() -> Seq<char> {
    "[/\\\\][^/\\\\]*$"@
}

/// The shown name given what the search for the last separator found: the
/// match without its leading separator, or the whole path where nothing
/// matched.
pub open spec fn name_from_match(path: Seq<char>, found: Option<Seq<char>>) -> Seq<char> {
    match found {
        Some(m) => if m.len() > 0 {
            m.skip(1)
        } else {
            m
        },
        None => path,
    }
}

/// The name a path is shown under: its last segment. A path that the search
/// cannot be run on is shown whole.
pub open spec fn shown_name(path: Seq<char>) -> Seq<char> {
    if pattern_accepted(segment_pattern()) {
        name_from_match(path, first_match(segment_pattern(), path))
    } else {
        path
    }
}

/// Cuts the shown name out of what the search for the last separator found.
pub fn name_of_match(path: &str, found: Option<String>) -> (name: String)
    ensures
        name@ == name_from_match(path@, text_of(found)),
{
    match found {
        Some(m) => {
            let len: usize = m.as_str().unicode_len();
            if len > 0 {
                m.as_str().substring_char(1, len).to_owned()
            } else {
                m
            }
        },
        None => path.to_owned(),
    }
}

/// One navigable entry: an absolute path.
#[derive(Clone, Debug, PartialEq, Eq)]
pub struct Task {
    pub folder_name: String,
}

impl Task {
    /// The entry for the given path.
    pub fn new(folder_name: String) -> (task: Self)
        ensures
            task.folder_name@ == folder_name@,
    {
        Task { folder_name }
    }

    /// The name the entry is shown under: the last segment of its path.
    pub fn display_name(&self) -> (name: String)
        ensures
            name@ == shown_name(self.folder_name@),
    {
        match find_first("[/\\\\][^/\\\\]*$", self.folder_name.as_str()) {
            Ok(found) => name_of_match(self.folder_name.as_str(), found),
            Err(_) => self.folder_name.clone(),
        }
    }
}

/// The paths of the entries, in order.
pub open spec fn paths_of(tasks: Seq<Task>) -> Seq<Seq<char>> {
    Seq::new(tasks.len(), |i: int| tasks[i].folder_name@)
}

/// The views of a sequence of strings.
pub open spec fn texts_of(names: Seq<String>) -> Seq<Seq<char>> {
    Seq::new(names.len(), |i: int| names[i]@)
}

/// One line per path, each the shown name followed by a line feed.
pub open spec fn lines_of(paths: Seq<Seq<char>>) -> Seq<char>
    decreases paths.len(),
{
    if paths.len() == 0 {
        Seq::<char>::empty()
    } else {
        lines_of(paths.drop_last()) + shown_name(paths.last()) + seq!['\n']
    }
}

/// Wraps each path as an entry, in order.
pub fn tasks_from(paths: Vec<String>) -> (tasks: Vec<Task>)
    ensures
        paths_of(tasks@) == texts_of(paths@),
{
    let mut paths = paths;
    let mut tasks: Vec<Task> = Vec::new();
    let ghost all = paths@;
    let total: usize = paths.len();
    let mut moved: usize = 0;
    while moved < total
        invariant
            moved <= total,
            total == all.len(),
            paths@ == all.skip(moved as int),
            tasks@.len() == moved,
            forall|i: int| 0 <= i < moved ==> (#[trigger] tasks@[i]).folder_name@ == all[i]@,
        decreases total - moved,
    {
        let path = paths.remove(0);
        tasks.push(Task::new(path));
        moved = moved + 1;
        assert(paths@ =~= all.skip(moved as int));
    }
    assert(paths_of(tasks@) =~= texts_of(all));
    tasks
}

/// The text that persists the entries: their shown names, one per line.
pub fn lines_text(tasks: &Vec<Task>) -> (text: String)
    ensures
        text@ == lines_of(paths_of(tasks@)),
{
    let mut text = String::new();
    let mut done: usize = 0;
    while done < tasks.len()
        invariant
            done <= tasks@.len(),
            text@ == lines_of(paths_of(tasks@).take(done as int)),
        decreases tasks@.len() - done,
    {
        let name = tasks[done].display_name();
        text.append(name.as_str());
        text.append("\n");
        proof {
            reveal_strlit("\n");
            let upto = paths_of(tasks@).take(done + 1);
            assert(upto.drop_last() =~= paths_of(tasks@).take(done as int));
            assert(upto.last() == tasks@[done as int].folder_name@);
            assert("\n"@ =~= seq!['\n']);
        }
        done = done + 1;
    }
    assert(paths_of(tasks@).take(done as int) =~= paths_of(tasks@));
    text
}

} // verus!
