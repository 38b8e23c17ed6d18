//! The application source tree, as the planner and the providers see it.

use vstd::prelude::*;
use vstd::string::*;
use super::error::Error;

verus! {

/// One file of the tree: its name relative to the root and, where it could
/// be read as UTF-8, its text.
#[derive(Debug, PartialEq, Eq)]
pub struct AppFile {
    pub name: String,
    pub contents: Option<String>,
}

impl AppFile {
    /// A readable file.
    pub fn new(name: &str, contents: &str) -> (r: AppFile)
        ensures
            r.name@ == name@,
            r.contents.deep_view() == Some(contents@),
    {
        AppFile { name: String::from_str(name), contents: Some(String::from_str(contents)) }
    }

    /// A file that exists but holds no UTF-8 text.
    pub fn unreadable(name: &str) -> (r: AppFile)
        ensures
            r.name@ == name@,
            r.contents is None,
    {
        AppFile { name: String::from_str(name), contents: None }
    }
}

/// A read-only snapshot of an application source tree.
#[derive(Debug, PartialEq, Eq)]
pub struct App {
    pub source: String,
    pub files: Vec<AppFile>,
}

/// The mathematical content of an [`App`]: where it lies, and for each file
/// name its text, or `None` where the file cannot be read.
pub struct AppView {
    pub source: Seq<char>,
    pub files: Map<Seq<char>, Option<Seq<char>>>,
}

/// The first position at or after `from` whose file is called `name`, or
/// the length of `files` when there is none.
pub open spec fn first_named(files: Seq<AppFile>, name: Seq<char>, from: int) -> int
    decreases files.len() - from,
{
    if 0 <= from < files.len() && files[from].name@ != name {
        first_named(files, name, from + 1)
    } else {
        from
    }
}

/// The files by name; of two entries with one name the earlier stands.
pub open spec fn files_map(files: Seq<AppFile>) -> Map<Seq<char>, Option<Seq<char>>> {
    Map::new(
        |name: Seq<char>| first_named(files, name, 0) < files.len(),
        |name: Seq<char>| files[first_named(files, name, 0)].contents.deep_view(),
    )
}

/// The failure of reading `name`: its cause, then the file that was asked
/// for.
pub open spec fn read_failure(name: Seq<char>, present: bool) -> Seq<Seq<char>> {
    seq![
        if present {
            "stream did not contain valid UTF-8"@
        } else {
            "No such file or directory"@
        },
        "Error reading "@ + name,
    ]
}

impl View for App {
    type V = AppView;

    open spec fn view(&self) -> AppView {
        AppView { source: self.source@, files: files_map(self.files@) }
    }
}

impl App {
    /// The tree rooted at `source` that holds `files`.
    pub fn new(source: &str, files: Vec<AppFile>) -> (r: App)
        ensures
            r.source@ == source@,
            r.files == files,
    {
        App { source: String::from_str(source), files }
    }

    /// The position of the file called `name`, if the tree has one.
    fn find(&self, name: &str) -> (r: Option<usize>)
        ensures
            match r {
                Some(i) => i < self.files.len() && i == first_named(self.files@, name@, 0),
                None => first_named(self.files@, name@, 0) >= self.files.len(),
            },
    {
        let wanted = String::from_str(name);
        let mut i: usize = 0;
        while i < self.files.len()
            invariant
                i <= self.files.len(),
                wanted@ == name@,
                first_named(self.files@, name@, 0) == first_named(self.files@, name@, i as int),
            decreases self.files.len() - i,
        {
            if self.files[i].name == wanted {
                return Some(i);
            }
            i = i + 1;
        }
        None
    }

    /// Whether the tree holds a file called `name`.
    pub fn includes_file(&self, name: &str) -> (r: bool)
        ensures
            r == self@.files.contains_key(name@),
    {
        self.find(name).is_some()
    }

    /// The text of the file called `name`. Fails where the tree has no such
    /// file and where the file is not UTF-8 text.
    pub fn read_file(&self, name: &str) -> (r: Result<String, Error>)
        ensures
            match r {
                Ok(text) => self@.files.contains_key(name@) && self@.files[name@] == Some(text@),
                Err(e) => (!self@.files.contains_key(name@) || self@.files[name@] is None) && e@
                    == read_failure(name@, self@.files.contains_key(name@)),
            },
    {
        let found = self.find(name);
        let cause = match found {
            Some(i) => {
                match &self.files[i].contents {
                    Some(text) => {
                        return Ok(text.clone());
                    },
                    None => "stream did not contain valid UTF-8",
                }
            },
            None => "No such file or directory",
        };
        let mut context = String::from_str("Error reading ");
        context.append(name);
        Err(Error::new(cause).context(context.as_str()))
    }
}

} // verus!
