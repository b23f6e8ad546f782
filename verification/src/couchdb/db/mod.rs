//! A database of the store: where its requests go, and how their failures
//! are read.

pub mod name;

use vstd::prelude::*;
use vstd::string::*;

use crate::couchdb::error::Error;
use crate::text::{join2, join3, lemma_split_pieces_lack_separator, split_char, split_on};

verus! {

/// The status of an answer that found nothing.
pub const NOT_FOUND: u16 = 404;

/// The status of an answer to a write that clashed with a stored document.
pub const CONFLICT: u16 = 409;

/// A database of the store, by name; partitioned databases group their
/// documents by the prefix of their ids.
#[derive(Debug)]
pub struct Database {
    name: String,
    partitioned: bool,
}

/// The abstract value of a [`Database`].
pub struct DatabaseView {
    pub name: Seq<char>,
    pub partitioned: bool,
}

impl View for Database {
    type V = DatabaseView;

    closed spec fn view(&self) -> DatabaseView {
        DatabaseView { name: self.name@, partitioned: self.partitioned }
    }
}

/// The outcome of reading a document: its content, or none when the store
/// did not find it; any other failure stands.
pub open spec fn found_outcome<R>(result: Result<R, Error>) -> Result<Option<R>, Error> {
    match result {
        Ok(doc) => Ok(Some(doc)),
        Err(e) => if e@.status == NOT_FOUND {
            Ok(None)
        } else {
            Err(e)
        },
    }
}

impl Database {
    /// The database with the given name.
    pub fn new(name: String, partitioned: bool) -> (r: Database)
        ensures
            r@.name == name@,
            r@.partitioned == partitioned,
    {
        Database { name, partitioned }
    }

    /// The name of the database.
    pub fn name(&self) -> (r: &String)
        ensures
            r@ == self@.name,
    {
        &self.name
    }

    /// Whether the database is partitioned.
    pub fn partitioned(&self) -> (r: bool)
        ensures
            r == self@.partitioned,
    {
        self.partitioned
    }

    /// Where the document with the given id lives: `<db>/<id>`.
    pub fn doc_path(&self, id: &str) -> (r: String)
        ensures
            r@ == self@.name + "/"@ + id@,
    {
        join3(self.name.as_str(), "/", id)
    }

    /// Where the indexes of the database are made: `<db>/_index`.
    pub fn index_path(&self) -> (r: String)
        ensures
            r@ == self@.name + "/_index"@,
    {
        join2(self.name.as_str(), "/_index")
    }

    /// Where the database is queried: `<db>/_find`.
    pub fn find_path(&self) -> (r: String)
        ensures
            r@ == self@.name + "/_find"@,
    {
        join2(self.name.as_str(), "/_find")
    }

    /// Where a partition of the database is queried:
    /// `<db>/_partition/<partition>/_find`.
    pub fn partition_find_path(&self, partition: &str) -> (r: String)
        ensures
            r@ == self@.name + "/_partition/"@ + partition@ + "/_find"@,
    {
        let head = join3(self.name.as_str(), "/_partition/", partition);
        join2(head.as_str(), "/_find")
    }

    /// Where the documents of one kind are listed:
    /// `<db>/_partition/<kind>/_all_docs`.
    pub fn all_docs_path(&self, kind: &str) -> (r: String)
        ensures
            r@ == self@.name + "/_partition/"@ + kind@ + "/_all_docs"@,
    {
        let head = join3(self.name.as_str(), "/_partition/", kind);
        join2(head.as_str(), "/_all_docs")
    }

    /// Where the changes of the database are followed: `<db>/_changes`.
    pub fn changes_path(&self) -> (r: String)
        ensures
            r@ == self@.name + "/_changes"@,
    {
        join2(self.name.as_str(), "/_changes")
    }

    /// The failure of storing the document `id`: a clash with a stored
    /// document is told as such; any other failure stands.
    pub fn put_error(&self, id: &str, err: Error) -> (r: Error)
        ensures
            r@.status == err@.status,
            r@.message == if err@.status == CONFLICT {
                "document "@ + id@ + " already exists in database "@ + self@.name
            } else {
                err@.message
            },
    {
        if err.status() == CONFLICT {
            let head = join3("document ", id, " already exists in database ");
            let message = join2(head.as_str(), self.name.as_str());
            err.map_message(message.as_str())
        } else {
            err
        }
    }
}

/// The outcome of reading a document: its content, or none when the store
/// did not find it; any other failure stands.
pub fn found<R>(result: Result<R, Error>) -> (r: Result<Option<R>, Error>)
    ensures
        r == found_outcome(result),
{
    match result {
        Ok(doc) => Ok(Some(doc)),
        Err(e) => {
            if e.status() == NOT_FOUND {
                Ok(None)
            } else {
                Err(e)
            }
        },
    }
}

/// A line without the carriage return that may end it.
pub open spec fn without_cr(line: Seq<char>) -> Seq<char> {
    if line.len() > 0 && line.last() == '\r' {
        line.drop_last()
    } else {
        line
    }
}

/// The lines of a text split at its line feeds: a carriage return is
/// dropped from the end of each piece that a line feed ended, and kept on
/// the last piece, which none ended (as `BufRead::lines` reads them).
pub open spec fn feed_pieces(pieces: Seq<Seq<char>>) -> Seq<Seq<char>> {
    Seq::new(pieces.len(), |i: int| if i + 1 < pieces.len() { without_cr(pieces[i]) } else { pieces[i] })
}

/// The lines among `lines` that are not empty, in order.
pub open spec fn nonempty_lines(lines: Seq<Seq<char>>) -> Seq<Seq<char>>
    decreases lines.len(),
{
    if lines.len() == 0 {
        Seq::empty()
    } else {
        let before = nonempty_lines(lines.drop_last());
        if lines.last().len() == 0 {
            before
        } else {
            before.push(lines.last())
        }
    }
}

/// The events of a chunk of the change feed: its lines, ended by `\n` or
/// `\r\n` (the last one, if no line feed ends it, as it stands), leaving out
/// the empty ones that keep the feed alive.
pub open spec fn feed_lines(payload: Seq<char>) -> Seq<Seq<char>> {
    nonempty_lines(feed_pieces(split_on(payload, '\n')))
}

/// The events of a chunk of the change feed, one text per line, empty
/// lines left out.
pub fn event_lines(payload: &str) -> (r: Vec<String>)
    ensures
        r.deep_view() == feed_lines(payload@),
{
    let pieces = split_char(payload, '\n');
    let ghost ls = feed_pieces(pieces.deep_view());
    let mut lines: Vec<String> = Vec::new();
    let mut i: usize = 0;
    while i < pieces.len()
        invariant
            i <= pieces.len(),
            pieces.deep_view() == split_on(payload@, '\n'),
            ls == feed_pieces(pieces.deep_view()),
            lines.deep_view() == nonempty_lines(ls.take(i as int)),
        decreases pieces.len() - i,
    {
        let piece = &pieces[i];
        let n = piece.unicode_len();
        let line = if i + 1 < pieces.len() && n > 0 && piece.get_char(n - 1) == '\r' {
            crate::text::substring(piece.as_str(), 0, n - 1)
        } else {
            piece.clone()
        };
        proof {
            assert(ls.take(i + 1).drop_last() =~= ls.take(i as int));
            assert(pieces.deep_view()[i as int] == piece@);
            if i + 1 < pieces.len() && n > 0 && piece@.last() == '\r' {
                assert(line@ =~= piece@.drop_last());
            }
            assert(ls.take(i + 1).last() == line@);
        }
        if line.unicode_len() > 0 {
            let ghost before = lines.deep_view();
            lines.push(line);
            assert(lines.deep_view() =~= before.push(line@));
        }
        i = i + 1;
    }
    assert(ls.take(pieces.len() as int) =~= ls);
    lines
}

/// Each line that `nonempty_lines` keeps is one of the lines, and not empty.
proof fn lemma_nonempty_lines_from_lines(lines: Seq<Seq<char>>)
    ensures
        forall|i: int|
            0 <= i < nonempty_lines(lines).len() ==> (#[trigger] nonempty_lines(lines)[i]).len() > 0
                && exists|j: int| 0 <= j < lines.len() && nonempty_lines(lines)[i] == lines[j],
    decreases lines.len(),
{
    if lines.len() > 0 {
        let before = lines.drop_last();
        lemma_nonempty_lines_from_lines(before);
        let kept = nonempty_lines(lines);
        assert forall|i: int| 0 <= i < kept.len() implies (#[trigger] kept[i]).len() > 0 && exists|j: int|
            0 <= j < lines.len() && kept[i] == lines[j] by {
            if i < nonempty_lines(before).len() {
                let j = choose|j: int| 0 <= j < before.len() && nonempty_lines(before)[i] == before[j];
                assert(kept[i] == nonempty_lines(before)[i]);
                assert(lines[j] == before[j]);
            } else {
                assert(kept[i] == lines[lines.len() - 1]);
            }
        }
    }
}

/// The events of the change feed are lines: none is empty, and none holds a
/// line feed.
pub proof fn lemma_feed_lines_are_lines(payload: Seq<char>)
    ensures
        forall|i: int|
            0 <= i < feed_lines(payload).len() ==> (#[trigger] feed_lines(payload)[i]).len() > 0
                && !feed_lines(payload)[i].contains('\n'),
{
    let pieces = split_on(payload, '\n');
    let ls = feed_pieces(pieces);
    lemma_split_pieces_lack_separator(payload, '\n');
    lemma_nonempty_lines_from_lines(ls);
    let lines = feed_lines(payload);
    assert forall|i: int| 0 <= i < lines.len() implies (#[trigger] lines[i]).len() > 0 && !lines[i].contains(
        '\n',
    ) by {
        let j = choose|j: int| 0 <= j < ls.len() && lines[i] == ls[j];
        assert(!pieces[j].contains('\n'));
        if lines[i].contains('\n') {
            let k = choose|k: int| 0 <= k < lines[i].len() && lines[i][k] == '\n';
            assert(pieces[j][k] == '\n');
        }
    }
}

} // verus!
