//! One fetch: where its file goes, what the fetcher is told, and how its
//! outcome is recorded.

use crate::report::{status_line, status_text, texts_view};
use vstd::prelude::*;
use vstd::string::StringExecFns;

verus! {

/// How the host writes paths.
#[derive(Clone, Copy, Debug, PartialEq, Eq, Structural)]
pub enum PathStyle {
    /// Components are separated by `/`.
    Unix,
    /// Components are separated by `\`.
    Windows,
}

/// The character that separates the components of a path.
pub open spec fn separator(style: PathStyle) -> char {
    match style {
        PathStyle::Unix => '/',
        PathStyle::Windows => '\\',
    }
}

/// The path of the file `name` in the directory `subject`.
pub open spec fn destination(subject: Seq<char>, name: Seq<char>, style: PathStyle) -> Seq<
    char,
> {
    subject.push(separator(style)) + name
}

/// The arguments that direct the fetcher to write what it gets from `url`
/// to `destination`.
pub open spec fn fetch_arguments(destination: Seq<char>, url: Seq<char>) -> Seq<Seq<char>> {
    seq!["-o"@, destination, url]
}

/// Joins the directory `subject` and the file name `name`.
pub fn destination_path(subject: &str, name: &str, style: PathStyle) -> (path: String)
    ensures
        path@ == destination(subject@, name@, style),
{
    let mut path = String::from_str(subject);
    match style {
        PathStyle::Unix => path.push('/'),
        PathStyle::Windows => path.push('\\'),
    }
    path.append(name);
    path
}

/// The mathematical form of a fetch request.
pub struct FetchRequestView {
    pub index: int,
    pub url: Seq<char>,
    pub destination: Seq<char>,
}

/// The order to fetch one item of the work list.
#[derive(Clone, Debug, PartialEq, Eq)]
pub struct FetchRequest {
    /// The item's index in the work list.
    pub index: usize,
    /// Where the file comes from.
    pub url: String,
    /// The path that the file is written to.
    pub destination: String,
}

impl View for FetchRequest {
    type V = FetchRequestView;

    open spec fn view(&self) -> FetchRequestView {
        FetchRequestView {
            index: self.index as int,
            url: self.url@,
            destination: self.destination@,
        }
    }
}

impl FetchRequest {
    /// The arguments to start the fetcher with.
    pub fn arguments(&self) -> (args: Vec<String>)
        ensures
            texts_view(args@) == fetch_arguments(self@.destination, self@.url),
    {
        let mut args: Vec<String> = Vec::new();
        args.push(String::from_str("-o"));
        args.push(self.destination.clone());
        args.push(self.url.clone());
        args
    }
}

/// The mathematical form of a fetch result.
pub struct FetchResultView {
    pub worker: nat,
    pub index: int,
    pub destination: Seq<char>,
    pub success: bool,
}

/// How one fetch ended.
#[derive(Clone, Debug, PartialEq, Eq)]
pub struct FetchResult {
    /// The worker that ran the fetch.
    pub worker: usize,
    /// The item's index in the work list.
    pub index: usize,
    /// The path that the file was to be written to.
    pub destination: String,
    /// Whether the fetcher reported success when it exited.
    pub success: bool,
}

impl View for FetchResult {
    type V = FetchResultView;

    open spec fn view(&self) -> FetchResultView {
        FetchResultView {
            worker: self.worker as nat,
            index: self.index as int,
            destination: self.destination@,
            success: self.success,
        }
    }
}

impl FetchResult {
    /// The line that reports this result.
    pub fn status_line(&self) -> (line: String)
        ensures
            line@ == status_text(self@.worker, self@.destination, self@.success),
    {
        status_line(self.worker, self.destination.as_str(), self.success)
    }
}

} // verus!
