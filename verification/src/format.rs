//! Rendering of decoded responses as lines of text sized to the terminal.

use vstd::prelude::*;
use vstd::string::*;
use crate::decode::{Decoded, DecodedModel, Record, RecordModel};

verus! {

/// The width assumed where the terminal's size is unknown.
pub const DEFAULT_WIDTH: usize = 80;

/// The columns of the terminal that are left unused.
pub const RESERVED_COLUMNS: usize = 10;

/// The columns that the indentation marker takes on each wrapped line.
pub const MARGIN: usize = 1;

/// The lines that the wrapping engine breaks `text` into at `width` columns.
pub uninterp spec fn wrapped_lines(text: Seq<char>, width: usize) -> Seq<Seq<char>>;

/// The views of a list of strings.
pub open spec fn lines_model(lines: Seq<String>) -> Seq<Seq<char>> {
    lines.map_values(|l: String| l@)
}

/// The value of the last property called `name`; empty where there is none.
pub open spec fn last_value(record: RecordModel, name: Seq<char>) -> Seq<char>
    decreases record.len(),
{
    if record.len() == 0 {
        Seq::empty()
    } else if record.last().0 == name {
        record.last().1
    } else {
        last_value(record.drop_last(), name)
    }
}

/// The width available for text, given the terminal's columns and rows.
pub open spec fn usable_width_of(dimensions: Option<(usize, usize)>) -> usize {
    match dimensions {
        Some((w, _)) => if w >= RESERVED_COLUMNS {
            (w - RESERVED_COLUMNS) as usize
        } else {
            0
        },
        None => DEFAULT_WIDTH,
    }
}

/// The column at which text is wrapped: the width less the margin, and at
/// least one.
pub open spec fn wrap_column_of(terminal_width: usize) -> usize {
    if terminal_width - MARGIN >= 1 {
        (terminal_width - MARGIN) as usize
    } else {
        1
    }
}

/// A line behind the indentation marker.
pub open spec fn indented(line: Seq<char>) -> Seq<char> {
    seq!['\t'] + line
}

/// The lines with a newline between each two of them.
pub open spec fn joined(lines: Seq<Seq<char>>) -> Seq<char>
    decreases lines.len(),
{
    if lines.len() == 0 {
        Seq::empty()
    } else if lines.len() == 1 {
        lines[0]
    } else {
        joined(lines.drop_last()) + seq!['\n'] + lines.last()
    }
}

/// The wrapped lines as one block, each behind the indentation marker.
pub open spec fn block(lines: Seq<Seq<char>>) -> Seq<char> {
    joined(lines.map_values(|l: Seq<char>| indented(l)))
}

/// A record's text: the url on a line of its own, then the block.
pub open spec fn rendered(url: Seq<char>, lines: Seq<Seq<char>>) -> Seq<char> {
    url + seq!['\n'] + block(lines)
}

/// The name of the property that holds a record's address.
pub open spec fn url_key() -> Seq<char> {
    "url"@
}

/// The name of the property that holds a record's free text.
pub open spec fn resume_key() -> Seq<char> {
    "resume"@
}

/// The text of a record at a terminal width.
pub open spec fn formatted(record: RecordModel, terminal_width: usize) -> Seq<char> {
    rendered(
        last_value(record, url_key()),
        wrapped_lines(last_value(record, resume_key()), wrap_column_of(terminal_width)),
    )
}

/// What is shown for a decoded response, one entry for each thing printed:
/// the scalar as it is, or the text of each record.
pub open spec fn outputs(d: DecodedModel, terminal_width: usize) -> Seq<Seq<char>> {
    match d {
        DecodedModel::Scalar(s) => seq![s],
        DecodedModel::Records(rs) => rs.map_values(
            |r: RecordModel| formatted(r, terminal_width),
        ),
    }
}

/// Calls `textwrap::wrap` with a plain width and copies each line it hands
/// back. Trusted: the lines depend on the text and the width alone.
#[verifier::external_body]
fn wrap_text(text: &str, width: usize) -> (lines: Vec<String>)
    ensures
        lines_model(lines@) == wrapped_lines(text@, width),
{
    textwrap::wrap(text, width).into_iter().map(std::borrow::Cow::into_owned).collect()
}

/// Calls `term_size::dimensions`: the columns and rows of the terminal that
/// the process is attached to, if any. Nothing is claimed of the answer.
#[verifier::external_body]
fn terminal_dimensions() -> (r: Option<(usize, usize)>) {
    term_size::dimensions()
}

/// The width available for text, given the terminal's columns and rows.
pub fn usable_width(dimensions: Option<(usize, usize)>) -> (r: usize)
    ensures
        r == usable_width_of(dimensions),
{
    match dimensions {
        Some((w, _)) => if w >= RESERVED_COLUMNS {
            w - RESERVED_COLUMNS
        } else {
            0
        },
        None => DEFAULT_WIDTH,
    }
}

/// The width available for text on the terminal of this process.
pub fn terminal_width() -> (r: usize)
    ensures
        exists|d: Option<(usize, usize)>| r == usable_width_of(d),
{
    let d = terminal_dimensions();
    usable_width(d)
}

/// The column at which text is wrapped for a terminal width.
pub fn wrap_column(terminal_width: usize) -> (r: usize)
    ensures
        r == wrap_column_of(terminal_width),
        r >= 1,
        terminal_width >= 2 ==> r == terminal_width - MARGIN,
{
    if terminal_width > MARGIN + 1 {
        terminal_width - MARGIN
    } else {
        1
    }
}

/// The value of the record's last property called `name`, or the empty
/// string where it has none.
pub fn field_value(record: &Record, name: &str) -> (r: String)
    ensures
        r@ == last_value(record@, name@),
{
    let wanted = String::from_str(name);
    let mut found = String::new();
    let mut i: usize = 0;
    while i < record.properties.len()
        invariant
            i <= record.properties.len(),
            wanted@ == name@,
            found@ == last_value(record@.take(i as int), name@),
        decreases record.properties.len() - i,
    {
        assert(record@.take(i + 1).drop_last() =~= record@.take(i as int));
        if record.properties[i].name == wanted {
            found = record.properties[i].value.clone();
        }
        i = i + 1;
    }
    assert(record@.take(i as int) =~= record@);
    found
}

/// The wrapped lines as one block, each behind the indentation marker.
pub fn render_block(lines: &Vec<String>) -> (r: String)
    ensures
        r@ == block(lines_model(lines@)),
{
    let ghost marked = lines_model(lines@).map_values(|l: Seq<char>| indented(l));
    let mut out = String::new();
    let mut i: usize = 0;
    while i < lines.len()
        invariant
            i <= lines.len(),
            marked == lines_model(lines@).map_values(|l: Seq<char>| indented(l)),
            out@ == joined(marked.take(i as int)),
        decreases lines.len() - i,
    {
        proof {
            reveal_strlit("\n");
            reveal_strlit("\t");
            assert("\n"@ =~= seq!['\n']);
            assert("\t"@ =~= seq!['\t']);
            assert(marked.take(i + 1).drop_last() =~= marked.take(i as int));
            assert(marked.take(i + 1).last() == indented(lines@[i as int]@));
        }
        if i > 0 {
            out.append("\n");
        }
        out.append("\t");
        out.append(lines[i].as_str());
        proof {
            if i == 0 {
                assert(out@ =~= marked.take(1)[0]);
            } else {
                assert(out@ =~= joined(marked.take(i as int)) + seq!['\n'] + marked.take(
                    i + 1,
                ).last());
            }
        }
        i = i + 1;
    }
    assert(marked.take(i as int) =~= marked);
    out
}

/// A record's text, given its url and the lines that its free text was
/// wrapped into.
pub fn render_record(url: &str, lines: &Vec<String>) -> (r: String)
    ensures
        r@ == rendered(url@, lines_model(lines@)),
{
    let mut out = String::from_str(url);
    let body = render_block(lines);
    proof {
        reveal_strlit("\n");
        assert("\n"@ =~= seq!['\n']);
    }
    out.append("\n");
    out.append(body.as_str());
    out
}

/// The text of one record: its url, then its free text wrapped to the
/// terminal's width and indented.
pub fn format(record: &Record, terminal_width: usize) -> (r: String)
    ensures
        r@ == formatted(record@, terminal_width),
{
    let url = field_value(record, "url");
    let resume = field_value(record, "resume");
    let lines = wrap_text(resume.as_str(), wrap_column(terminal_width));
    render_record(url.as_str(), &lines)
}

/// What to show for a decoded response: the scalar as it is, or the text of
/// each record in turn.
pub fn render(decoded: &Decoded, terminal_width: usize) -> (r: Vec<String>)
    ensures
        lines_model(r@) == outputs(decoded@, terminal_width),
{
    match decoded {
        Decoded::Scalar(s) => {
            let r = vec![s.clone()];
            assert(lines_model(r@) =~= seq![s@]);
            r
        },
        Decoded::Records(rs) => {
            let mut out: Vec<String> = Vec::new();
            let mut i: usize = 0;
            while i < rs.len()
                invariant
                    i <= rs.len(),
                    out.len() == i,
                    forall|k: int|
                        0 <= k < i ==> (#[trigger] out@[k])@ == formatted(
                            rs@[k]@,
                            terminal_width,
                        ),
                decreases rs.len() - i,
            {
                let text = format(&rs[i], terminal_width);
                out.push(text);
                i = i + 1;
            }
            assert(lines_model(out@) =~= outputs(decoded@, terminal_width));
            out
        },
    }
}

/// Every line of a block starts with the indentation marker and goes on
/// with the wrapped line it stands for.
pub proof fn block_lines_are_indented(lines: Seq<Seq<char>>, i: int)
    requires
        0 <= i < lines.len(),
    ensures
        lines.map_values(|l: Seq<char>| indented(l))[i].len() == lines[i].len() + 1,
        lines.map_values(|l: Seq<char>| indented(l))[i][0] == '\t',
        lines.map_values(|l: Seq<char>| indented(l))[i].skip(1) == lines[i],
{
    assert(indented(lines[i]).skip(1) =~= lines[i]);
}

/// Of several properties with one name, the last decides: where the
/// property at `i` is called `name` and none after it is, its value is the
/// one extracted.
pub proof fn last_occurrence_wins(record: RecordModel, name: Seq<char>, i: int)
    requires
        0 <= i < record.len(),
        record[i].0 == name,
        forall|j: int| i < j < record.len() ==> (#[trigger] record[j]).0 != name,
    ensures
        last_value(record, name) == record[i].1,
    decreases record.len(),
{
    if i < record.len() - 1 {
        last_occurrence_wins(record.drop_last(), name, i);
    }
}

/// A record without a property called `name` yields the empty string.
pub proof fn absent_field_is_empty(record: RecordModel, name: Seq<char>)
    requires
        forall|j: int| 0 <= j < record.len() ==> (#[trigger] record[j]).0 != name,
    ensures
        last_value(record, name) == Seq::<char>::empty(),
    decreases record.len(),
{
    if record.len() > 0 {
        absent_field_is_empty(record.drop_last(), name);
    }
}

/// Where a wrapped line is no longer than the wrap column, the line that
/// stands for it in the block is no longer than the terminal's width, for
/// widths of two and more.
pub proof fn indented_line_fits(lines: Seq<Seq<char>>, terminal_width: usize, i: int)
    requires
        terminal_width >= 2,
        0 <= i < lines.len(),
        lines[i].len() <= wrap_column_of(terminal_width),
    ensures
        lines.map_values(|l: Seq<char>| indented(l))[i].len() <= terminal_width,
{
}

} // verus!
