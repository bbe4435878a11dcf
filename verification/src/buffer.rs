//! A document: the rows of a text, in order, with the name it was read from
//! and the language tag taken from that name.

use crate::content::{grapheme_clusters, Data};
use vstd::prelude::*;
use vstd::std_specs::iter::IteratorSpec;

verus! {

/// `String::push` appends one character.
pub assume_specification[ String::push ](text: &mut String, ch: char)
    ensures
        final(text)@ == old(text)@.push(ch),
;

/// The characters of `text` that follow its last line feed.
pub open spec fn open_row(text: Seq<char>) -> Seq<char>
    decreases text.len(),
{
    if text.len() == 0 || text.last() == '\n' {
        Seq::empty()
    } else {
        open_row(text.drop_last()).push(text.last())
    }
}

/// A row without the carriage return that ended it, if one did.
pub open spec fn strip_cr(row: Seq<char>) -> Seq<char> {
    if row.len() > 0 && row.last() == '\r' {
        row.drop_last()
    } else {
        row
    }
}

/// The rows of `text` that a line feed ends, each without its line ending
/// (a line feed, or a carriage return and a line feed).
pub open spec fn closed_rows(text: Seq<char>) -> Seq<Seq<char>>
    decreases text.len(),
{
    if text.len() == 0 {
        Seq::empty()
    } else if text.last() == '\n' {
        closed_rows(text.drop_last()).push(strip_cr(open_row(text.drop_last())))
    } else {
        closed_rows(text.drop_last())
    }
}

/// The rows of `text`: those that a line ending closes and, where the text
/// goes on after the last line feed, the rest as a last row. An empty text
/// is one empty row. A text that ends in a line feed has no empty row after
/// it.
pub open spec fn split_lines(text: Seq<char>) -> Seq<Seq<char>> {
    if text.len() == 0 || open_row(text).len() > 0 {
        closed_rows(text).push(open_row(text))
    } else {
        closed_rows(text)
    }
}

/// How many line feeds `text` holds.
pub open spec fn line_feeds(text: Seq<char>) -> nat
    decreases text.len(),
{
    if text.len() == 0 {
        0
    } else if text.last() == '\n' {
        line_feeds(text.drop_last()) + 1
    } else {
        line_feeds(text.drop_last())
    }
}

/// A text has one row for each line feed and one more, but for a text that
/// ends in a line feed, which has no row after it. So an empty text has one
/// row, and a text has at least one.
pub proof fn lemma_row_count(text: Seq<char>)
    ensures
        closed_rows(text).len() == line_feeds(text),
        open_row(text).len() > 0 <==> text.len() > 0 && text.last() != '\n',
        split_lines(text).len() == line_feeds(text) + (if text.len() == 0 || text.last() != '\n' {
            1nat
        } else {
            0nat
        }),
        split_lines(text).len() >= 1,
        text.len() == 0 ==> split_lines(text) == seq![Seq::<char>::empty()],
    decreases text.len(),
{
    if text.len() > 0 {
        lemma_row_count(text.drop_last());
    } else {
        assert(split_lines(text) =~= seq![Seq::<char>::empty()]);
    }
}

/// Whether `row` holds no line feed.
pub open spec fn without_line_feed(row: Seq<char>) -> bool {
    forall|j: int| 0 <= j < row.len() ==> #[trigger] row[j] != '\n'
}

/// No row holds a line feed.
pub proof fn lemma_rows_hold_no_line_feed(text: Seq<char>)
    ensures
        without_line_feed(open_row(text)),
        forall|i: int|
            0 <= i < closed_rows(text).len() ==> without_line_feed(#[trigger] closed_rows(text)[i]),
        forall|i: int|
            0 <= i < split_lines(text).len() ==> without_line_feed(#[trigger] split_lines(text)[i]),
    decreases text.len(),
{
    if text.len() > 0 {
        let before = text.drop_last();
        lemma_rows_hold_no_line_feed(before);
        if text.last() == '\n' {
            let row = strip_cr(open_row(before));
            assert(without_line_feed(row)) by {
                assert forall|j: int| 0 <= j < row.len() implies #[trigger] row[j] != '\n' by {
                    assert(open_row(before)[j] == row[j]);
                }
            }
            assert forall|i: int| 0 <= i < closed_rows(text).len() implies without_line_feed(
                #[trigger] closed_rows(text)[i],
            ) by {
                if i < closed_rows(before).len() {
                    assert(closed_rows(text)[i] == closed_rows(before)[i]);
                }
            }
        } else {
            let row = open_row(text);
            assert(without_line_feed(row)) by {
                assert forall|j: int| 0 <= j < row.len() implies #[trigger] row[j] != '\n' by {
                    if j < row.len() - 1 {
                        assert(open_row(before)[j] == row[j]);
                    }
                }
            }
        }
    }
    assert forall|i: int| 0 <= i < split_lines(text).len() implies without_line_feed(
        #[trigger] split_lines(text)[i],
    ) by {
        if i < closed_rows(text).len() {
            assert(split_lines(text)[i] == closed_rows(text)[i]);
        }
    }
}

/// The line endings of `text`, in order: for each line feed, the line feed
/// itself, with the carriage return before it where there is one.
pub open spec fn line_endings(text: Seq<char>) -> Seq<Seq<char>>
    decreases text.len(),
{
    if text.len() == 0 {
        Seq::empty()
    } else if text.last() == '\n' {
        line_endings(text.drop_last()).push(
            if strip_cr(open_row(text.drop_last())) == open_row(text.drop_last()) {
                seq!['\n']
            } else {
                seq!['\r', '\n']
            },
        )
    } else {
        line_endings(text.drop_last())
    }
}

/// The rows, each followed by its ending, one after the other.
pub open spec fn with_endings(rows: Seq<Seq<char>>, endings: Seq<Seq<char>>) -> Seq<char>
    decreases rows.len(),
{
    if rows.len() == 0 || endings.len() != rows.len() {
        Seq::empty()
    } else {
        with_endings(rows.drop_last(), endings.drop_last()) + rows.last() + endings.last()
    }
}

/// A text is its rows, in order, each closed row followed by its line
/// ending: nothing is lost, nothing changes place, and no row keeps its
/// line ending.
pub proof fn lemma_rows_spell_text(text: Seq<char>)
    ensures
        line_endings(text).len() == closed_rows(text).len(),
        forall|i: int|
            0 <= i < line_endings(text).len() ==> (#[trigger] line_endings(text)[i]) == seq!['\n']
                || line_endings(text)[i] == seq!['\r', '\n'],
        with_endings(closed_rows(text), line_endings(text)) + open_row(text) == text,
    decreases text.len(),
{
    if text.len() == 0 {
        assert(with_endings(closed_rows(text), line_endings(text)) + open_row(text) =~= text);
    } else {
        let before = text.drop_last();
        lemma_rows_spell_text(before);
        let rows = closed_rows(text);
        let endings = line_endings(text);
        if text.last() == '\n' {
            let open = open_row(before);
            assert(rows.drop_last() =~= closed_rows(before));
            assert(endings.drop_last() =~= line_endings(before));
            assert(strip_cr(open) + endings.last() =~= open.push('\n'));
            assert(with_endings(rows, endings) + open_row(text) =~= (with_endings(
                closed_rows(before),
                line_endings(before),
            ) + open).push('\n'));
            assert(before.push('\n') =~= text);
            assert forall|i: int| 0 <= i < endings.len() implies (#[trigger] endings[i])
                == seq!['\n'] || endings[i] == seq!['\r', '\n'] by {
                if i < endings.len() - 1 {
                    assert(endings[i] == line_endings(before)[i]);
                }
            }
        } else {
            assert(with_endings(rows, endings) + open_row(text) =~= (with_endings(
                closed_rows(before),
                line_endings(before),
            ) + open_row(before)).push(text.last()));
            assert(before.push(text.last()) =~= text);
        }
    }
}

/// The rows of a text that does not end in a line feed are the pieces
/// between its line endings, in order, one more than it has line feeds:
/// each row but the last followed by its line ending, and then the last
/// row, spell the text.
pub proof fn lemma_rows_are_the_pieces(text: Seq<char>)
    requires
        text.len() == 0 || text.last() != '\n',
    ensures
        split_lines(text).len() == line_feeds(text) + 1,
        with_endings(split_lines(text).drop_last(), line_endings(text)) + split_lines(text).last()
            == text,
{
    lemma_row_count(text);
    lemma_rows_spell_text(text);
    assert(split_lines(text).drop_last() =~= closed_rows(text));
}

/// The index of the last `mark` in `text`, or -1 where it holds none.
pub open spec fn last_index_of(text: Seq<char>, mark: char) -> int
    decreases text.len(),
{
    if text.len() == 0 {
        -1
    } else if text.last() == mark {
        text.len() - 1
    } else {
        last_index_of(text.drop_last(), mark)
    }
}

/// The last component of a name whose components are separated by `/`.
pub open spec fn file_name(name: Seq<char>) -> Seq<char> {
    name.subrange(last_index_of(name, '/') + 1, name.len() as int)
}

/// What follows the last `.` of the name's last component. It is empty where
/// the component holds no `.`, or only the one it begins with.
pub open spec fn extension_of(name: Seq<char>) -> Seq<char> {
    let last = file_name(name);
    let dot = last_index_of(last, '.');
    if dot <= 0 {
        Seq::empty()
    } else {
        last.subrange(dot + 1, last.len() as int)
    }
}

/// The last `mark` of a text lies in the text, and is a `mark`.
pub proof fn lemma_last_index_bounds(text: Seq<char>, mark: char)
    ensures
        -1 <= last_index_of(text, mark) < text.len(),
        last_index_of(text, mark) >= 0 ==> text[last_index_of(text, mark)] == mark,
    decreases text.len(),
{
    if text.len() > 0 {
        lemma_last_index_bounds(text.drop_last(), mark);
    }
}

/// Splits `text` into rows.
pub fn rows_of(text: &str) -> (rows: Vec<Data>)
    ensures
        rows.len() == split_lines(text@).len(),
        forall|i: int| 0 <= i < rows.len() ==> (#[trigger] rows[i])@ == split_lines(text@)[i],
{
    let mut rows: Vec<Data> = Vec::new();
    let mut current = String::new();
    let mut held_cr = false;
    let mut open = true;
    let ghost mut done: Seq<char> = Seq::empty();
    for c in it: text.chars()
        invariant
            it.seq() == text@,
            done == text@.subrange(0, it.index() as int),
            open == (done.len() == 0 || open_row(done).len() > 0),
            rows.len() == closed_rows(done).len(),
            forall|i: int| 0 <= i < rows.len() ==> (#[trigger] rows[i])@ == closed_rows(done)[i],
            open_row(done) == if held_cr {
                current@.push('\r')
            } else {
                current@
            },
            !held_cr && current@.len() > 0 ==> current@.last() != '\r',
    {
        proof {
            let next = text@.subrange(0, it.index() + 1);
            assert(next.drop_last() =~= done);
            assert(next.last() == c);
            done = next;
        }
        if c == '\n' {
            assert(strip_cr(open_row(done.drop_last())) =~= current@) by {
                if held_cr {
                    assert(current@.push('\r').drop_last() =~= current@);
                }
            }
            rows.push(Data::new(current));
            current = String::new();
            held_cr = false;
            open = false;
        } else {
            if held_cr {
                current.push('\r');
            }
            if c == '\r' {
                held_cr = true;
            } else {
                current.push(c);
                held_cr = false;
            }
            open = true;
        }
    }
    assert(done =~= text@);
    if held_cr {
        current.push('\r');
    }
    if open {
        rows.push(Data::new(current));
    }
    rows
}

/// The language tag of a name: its extension.
pub fn extension(name: &str) -> (tag: String)
    ensures
        tag@ == extension_of(name@),
{
    let mut tag = String::new();
    let mut at_start = true;
    let mut in_tag = false;
    let ghost mut done: Seq<char> = Seq::empty();
    for c in it: name.chars()
        invariant
            it.seq() == name@,
            done == name@.subrange(0, it.index() as int),
            at_start == (file_name(done).len() == 0),
            in_tag == (last_index_of(file_name(done), '.') > 0),
            tag@ == extension_of(done),
    {
        proof {
            let next = name@.subrange(0, it.index() + 1);
            assert(next.drop_last() =~= done);
            assert(next.last() == c);
            lemma_last_index_bounds(done, '/');
            lemma_last_index_bounds(file_name(done), '.');
            if c == '/' {
                assert(file_name(next) =~= Seq::<char>::empty());
            } else {
                assert(file_name(next) =~= file_name(done).push(c));
                assert(file_name(next).drop_last() =~= file_name(done));
                if c != '.' && in_tag {
                    assert(extension_of(next) =~= extension_of(done).push(c));
                }
            }
            done = next;
        }
        if c == '/' {
            tag = String::new();
            at_start = true;
            in_tag = false;
        } else if c == '.' {
            tag = String::new();
            in_tag = !at_start;
            at_start = false;
        } else {
            if in_tag {
                tag.push(c);
            }
            at_start = false;
        }
    }
    assert(done =~= name@);
    tag
}

/// A document: rows in the order of the text they were cut from.
#[derive(Debug, Clone)]
pub struct Buffer {
    /// The name of the source, where there is one.
    pub name: Option<String>,
    /// The rows, first row first.
    pub data: Vec<Data>,
    /// The language tag: the extension of the source's name.
    pub buffer_type: String,
}

impl Default for Buffer {
    /// The document without a name and without rows.
    fn default() -> (buffer: Buffer)
        ensures
            buffer.name is None,
            buffer.rows().len() == 0,
            buffer.buffer_type@.len() == 0,
    {
        Buffer { name: None, data: Vec::new(), buffer_type: String::new() }
    }
}

impl Buffer {
    /// The text of each row, first row first.
    pub open spec fn rows(&self) -> Seq<Seq<char>> {
        Seq::new(self.data.len() as nat, |i: int| self.data[i]@)
    }

    /// The number of grapheme clusters in each row, first row first.
    pub open spec fn widths(&self) -> Seq<nat> {
        Seq::new(self.data.len() as nat, |i: int| grapheme_clusters(self.data[i]@).len())
    }

    /// Builds the document of a source from its name and its contents.
    pub fn from_text(name: &str, contents: &str) -> (buffer: Buffer)
        ensures
            buffer.name matches Some(n) && n@ == name@,
            buffer.rows() == split_lines(contents@),
            buffer.rows().len() == line_feeds(contents@) + (if contents@.len() == 0
                || contents@.last() != '\n' {
                1nat
            } else {
                0nat
            }),
            buffer.buffer_type@ == extension_of(name@),
    {
        proof {
            lemma_row_count(contents@);
        }
        let data = rows_of(contents);
        let buffer = Buffer {
            name: Some(String::from_str(name)),
            data,
            buffer_type: extension(name),
        };
        assert(buffer.rows() =~= split_lines(contents@));
        buffer
    }

    /// Row `index`, where the document has one.
    pub fn row(&self, index: usize) -> (row: Option<&Data>)
        ensures
            index < self.data.len() ==> row == Some(&self.data[index as int]),
            index >= self.data.len() ==> row is None,
    {
        if index < self.data.len() {
            Some(&self.data[index])
        } else {
            None
        }
    }

    /// The language tag.
    pub fn file_type(&self) -> (tag: &str)
        ensures
            tag@ == self.buffer_type@,
    {
        self.buffer_type.as_str()
    }

    /// The number of rows.
    pub fn len(&self) -> (n: usize)
        ensures
            n == self.rows().len(),
    {
        self.data.len()
    }

    /// Whether the document has no row.
    pub fn is_empty(&self) -> (empty: bool)
        ensures
            empty == (self.rows().len() == 0),
    {
        self.data.len() == 0
    }
}

/// Another name for the document.
pub type FileDocument = Buffer;

} // verus!
