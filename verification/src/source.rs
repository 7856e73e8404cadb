//! Where the payload comes from: one source for each request, picked in a
//! fixed order.

use vstd::prelude::*;
use crate::args::Args;
use crate::args::ArgsView;
use crate::text::texts;

verus! {

/// The one place a payload is taken from.
#[derive(Clone, Debug, PartialEq, Eq)]
pub enum Source {
    /// Standard input, read to its end.
    Stdin,
    /// A local file; it is read only when its bytes are needed.
    Path(String),
    /// A remote address, fetched with GET, or with POST when `post` is set.
    Url { url: String, post: bool },
}

/// Mathematical content of a [`Source`].
pub enum SourceView {
    Stdin,
    Path(Seq<char>),
    Url { url: Seq<char>, post: bool },
}

impl View for Source {
    type V = SourceView;

    open spec fn view(&self) -> SourceView {
        match self {
            Source::Stdin => SourceView::Stdin,
            Source::Path(p) => SourceView::Path(p@),
            Source::Url { url, post } => SourceView::Url { url: url@, post: *post },
        }
    }
}

/// The source of a request, by priority: standard input when asked for;
/// else the path given as an option; else the remote address; else the
/// first of the arguments, taken as a path. A request with none of these
/// has no source.
pub open spec fn source_of(a: ArgsView) -> Option<SourceView> {
    if a.stdin {
        Some(SourceView::Stdin)
    } else if a.file is Some {
        Some(SourceView::Path(a.file->0))
    } else if a.url is Some {
        Some(SourceView::Url { url: a.url->0, post: a.post })
    } else if a.exec_args.len() > 0 {
        Some(SourceView::Path(a.exec_args[0]))
    } else {
        None
    }
}

/// Whether the source of a request is the first of its arguments.
pub open spec fn takes_argument(a: ArgsView) -> bool {
    !a.stdin && a.file is None && a.url is None && a.exec_args.len() > 0
}

/// The request once its source is picked: an argument that became the
/// path of the payload is no longer handed on; nothing else changes.
pub open spec fn after_source(a: ArgsView) -> ArgsView {
    if takes_argument(a) {
        ArgsView { exec_args: a.exec_args.drop_first(), ..a }
    } else {
        a
    }
}

/// Picks the source of a request and takes it out of the arguments where
/// it stood among them. `None` means the request names no payload.
pub fn select_source(args: &mut Args) -> (r: Option<Source>)
    ensures
        match r {
            Some(source) => source_of(old(args)@) == Some(source@),
            None => source_of(old(args)@) is None,
        },
        final(args)@ == after_source(old(args)@),
{
    let ghost list = args.exec_args@;
    if args.stdin {
        return Some(Source::Stdin);
    }
    if let Some(path) = &args.file {
        return Some(Source::Path(path.clone()));
    }
    if let Some(url) = &args.url {
        return Some(Source::Url { url: url.clone(), post: args.post });
    }
    if args.exec_args.len() > 0 {
        let first = args.exec_args.remove(0);
        assert(texts(args.exec_args@) =~= texts(list).drop_first());
        return Some(Source::Path(first));
    }
    None
}

/// Whether the file at the payload's path still has to be read: there is
/// a path, and no bytes are in memory yet.
pub open spec fn wants_read(path: Seq<char>, payload: Seq<u8>) -> bool {
    path.len() > 0 && payload.len() == 0
}

/// Whether the file at the payload's path still has to be read.
pub fn needs_read(path: &str, payload: &Vec<u8>) -> (r: bool)
    ensures
        r == wants_read(path@, payload@),
{
    !path.is_empty() && payload.len() == 0
}

} // verus!
