use vstd::prelude::*;

verus! {

/// How the text of a cell is justified in its column.
#[derive(Debug, Clone, Copy, PartialEq, Eq, Structural)]
pub enum Alignment {
    LEFT,
    CENTER,
    RIGHT,
}

/// A cell seen as its text and its alignment.
pub type CellView = (Seq<char>, Alignment);

/// A row seen as its cells, in order.
pub type RowView = Seq<CellView>;

/// One cell of a table.
#[derive(Debug)]
pub struct Cell {
    pub text: String,
    pub align: Alignment,
}

/// One row of a table: its cells, left to right.
#[derive(Debug)]
pub struct Row {
    pub cells: Vec<Cell>,
}

impl View for Cell {
    type V = CellView;

    open spec fn view(&self) -> CellView {
        (self.text@, self.align)
    }
}

impl View for Row {
    type V = RowView;

    open spec fn view(&self) -> RowView {
        self.cells@.map_values(|c: Cell| c@)
    }
}

/// The views of a sequence of rows.
pub open spec fn rows_view(rows: Seq<Row>) -> Seq<RowView> {
    rows.map_values(|r: Row| r@)
}

/// The views of a sequence of strings.
pub open spec fn strings_view(s: Seq<String>) -> Seq<Seq<char>> {
    s.map_values(|t: String| t@)
}

pub(crate) proof fn lemma_strings_view_push(s: Seq<String>, t: String)
    ensures
        strings_view(s.push(t)) == strings_view(s).push(t@),
{
    assert(strings_view(s.push(t)) =~= strings_view(s).push(t@));
}

pub(crate) proof fn lemma_pairs_view_push(s: Seq<(String, Option<String>)>, p: (String, Option<String>))
    ensures
        pairs_view(s.push(p)) == pairs_view(s).push(pairs_view(seq![p])[0]),
{
    assert(pairs_view(s.push(p)) =~= pairs_view(s).push(pairs_view(seq![p])[0]));
}

pub(crate) proof fn lemma_rows_view_push(rows: Seq<Row>, row: Row)
    ensures
        rows_view(rows.push(row)) == rows_view(rows).push(row@),
{
    assert(rows_view(rows.push(row)) =~= rows_view(rows).push(row@));
}

impl Cell {
    /// A left-aligned cell.
    pub fn new(text: &str) -> (r: Cell)
        ensures
            r@ == (text@, Alignment::LEFT),
    {
        Cell { text: String::from_str(text), align: Alignment::LEFT }
    }

    /// A cell with the given alignment.
    pub fn new_align(text: &str, align: Alignment) -> (r: Cell)
        ensures
            r@ == (text@, align),
    {
        Cell { text: String::from_str(text), align }
    }

    /// A cell with the same text and alignment.
    pub fn duplicate(&self) -> (r: Cell)
        ensures
            r@ == self@,
    {
        Cell { text: self.text.clone(), align: self.align }
    }
}

impl Row {
    /// A row of the given cells.
    pub fn new(cells: Vec<Cell>) -> (r: Row)
        ensures
            r@ == cells@.map_values(|c: Cell| c@),
    {
        Row { cells }
    }

    /// A row with the same cells.
    pub fn duplicate(&self) -> (r: Row)
        ensures
            r@ == self@,
    {
        let mut cells: Vec<Cell> = Vec::new();
        let mut i: usize = 0;
        while i < self.cells.len()
            invariant
                i <= self.cells.len(),
                cells@.map_values(|c: Cell| c@) == self@.subrange(0, i as int),
            decreases self.cells.len() - i,
        {
            cells.push(self.cells[i].duplicate());
            proof {
                assert(self@.subrange(0, i + 1) =~= self@.subrange(0, i as int).push(self@[i as int]));
            }
            i = i + 1;
            assert(cells@.map_values(|c: Cell| c@) =~= self@.subrange(0, i as int));
        }
        assert(self@.subrange(0, i as int) =~= self@);
        Row { cells }
    }
}

/// A row with a per-record error attached: the error text goes in one more
/// cell after the row's own, unless it is empty.
pub open spec fn with_error(row: RowView, err: Seq<char>) -> RowView {
    if err.len() == 0 {
        row
    } else {
        row.push((err, Alignment::LEFT))
    }
}

/// A row moved one column to the right under an empty leading cell when
/// `indent` holds.
pub open spec fn indented(row: RowView, indent: bool) -> RowView {
    if indent {
        seq![(Seq::<char>::empty(), Alignment::LEFT)] + row
    } else {
        row
    }
}

/// The rows of a rendered table: the header, then each content row with
/// the error of the same position attached.
pub open spec fn table_layout(
    header: RowView,
    content: Seq<RowView>,
    errors: Seq<Seq<char>>,
    indent: bool,
) -> Seq<RowView> {
    seq![indented(header, indent)] + Seq::new(
        content.len(),
        |i: int| indented(with_error(content[i], errors[i]), indent),
    )
}

/// The row that shows one label/value pair: label, separator and value, or
/// the label alone when there is no value.
pub open spec fn key_value_row(key: Seq<char>, val: Option<Seq<char>>) -> RowView {
    match val {
        Some(v) => seq![(key, Alignment::LEFT), (":"@, Alignment::LEFT), (v, Alignment::LEFT)],
        None => seq![(key, Alignment::LEFT)],
    }
}

/// The views of label/value pairs.
pub open spec fn pairs_view(pairs: Seq<(String, Option<String>)>) -> Seq<(Seq<char>, Option<Seq<char>>)> {
    pairs.map_values(
        |p: (String, Option<String>)|
            (
                p.0@,
                match p.1 {
                    Some(v) => Some(v@),
                    None => None,
                },
            ),
    )
}

/// The rows of a key/value block, one per pair, in order.
pub open spec fn key_value_layout(pairs: Seq<(Seq<char>, Option<Seq<char>>)>) -> Seq<RowView> {
    Seq::new(pairs.len(), |i: int| key_value_row(pairs[i].0, pairs[i].1))
}

/// The pieces of a text between line feeds: one more than there are line
/// feeds, the last one possibly empty.
pub open spec fn split_at_line_feeds(s: Seq<char>) -> Seq<Seq<char>>
    decreases s.len(),
{
    if s.len() == 0 {
        seq![Seq::<char>::empty()]
    } else if s.last() == '\n' {
        split_at_line_feeds(s.drop_last()).push(Seq::<char>::empty())
    } else {
        let p = split_at_line_feeds(s.drop_last());
        p.update(p.len() - 1, p.last().push(s.last()))
    }
}

/// A line without the carriage return that ends it, if one does.
pub open spec fn without_carriage_return(line: Seq<char>) -> Seq<char> {
    if line.len() > 0 && line.last() == '\r' {
        line.drop_last()
    } else {
        line
    }
}

/// The lines of a text as `str::lines` gives them: split at each line feed,
/// a carriage return before a line feed dropped, and no final empty line.
pub open spec fn text_lines(s: Seq<char>) -> Seq<Seq<char>> {
    let p = split_at_line_feeds(s);
    let lines = Seq::new(
        p.len(),
        |i: int|
            if i < p.len() - 1 {
                without_carriage_return(p[i])
            } else {
                p[i]
            },
    );
    if p.last().len() == 0 {
        lines.drop_last()
    } else {
        lines
    }
}

/// A cell as a table holds it: its lines and its alignment.
pub type StoredCell = (Seq<Seq<char>>, Alignment);

/// A row as a table holds it.
pub open spec fn stored_row(row: RowView) -> Seq<StoredCell> {
    row.map_values(|c: CellView| (text_lines(c.0), c.1))
}

/// Rows as a table holds them.
pub open spec fn stored_rows(rows: Seq<RowView>) -> Seq<Seq<StoredCell>> {
    rows.map_values(|r: RowView| stored_row(r))
}

/// The text of a table in the clean format (no borders, one space of padding
/// on each side of a cell) holding the given rows.
pub uninterp spec fn clean_table(rows: Seq<Seq<StoredCell>>) -> Seq<char>;

#[verifier::external_type_specification]
#[verifier::external_body]
pub struct ExTable(prettytable::Table);

/// The rows that a prettytable table holds, in order.
pub uninterp spec fn table_contents(t: prettytable::Table) -> Seq<Seq<StoredCell>>;

/// Whether a prettytable table is set to the clean format and has no title
/// row (none of the items here sets one).
pub uninterp spec fn has_clean_format(t: prettytable::Table) -> bool;

/// Relies on prettytable's `Table::new` and `Table::set_format`: an empty
/// table, set to `FORMAT_CLEAN`.
#[verifier::external_body]
fn new_clean_table() -> (r: prettytable::Table)
    ensures
        table_contents(r) == Seq::<Seq<StoredCell>>::empty(),
        has_clean_format(r),
{
    let mut table = prettytable::Table::new();
    table.set_format(*prettytable::format::consts::FORMAT_CLEAN);
    table
}

/// Relies on prettytable's `Table::add_row`: the row goes after the others,
/// each cell holding the lines of its text (`Cell::new_align` keeps
/// `str::lines`) and its alignment; the format is kept. Without an escape
/// character in a cell, the width count of `Cell::new_align`
/// (`display_width`) cannot fail its assertion.
#[verifier::external_body]
fn add_table_row(t: &mut prettytable::Table, row: &Row)
    requires
        row_is_printable(row@),
    ensures
        table_contents(*final(t)) == table_contents(*old(t)).push(stored_row(row@)),
        has_clean_format(*final(t)) == has_clean_format(*old(t)),
{
    t.add_row(prettytable::Row::new(row.cells.iter().map(|c| {
        let align = match c.align {
            Alignment::LEFT => prettytable::format::Alignment::LEFT,
            Alignment::CENTER => prettytable::format::Alignment::CENTER,
            Alignment::RIGHT => prettytable::format::Alignment::RIGHT,
        };
        prettytable::Cell::new_align(&c.text, align)
    }).collect()));
}

/// Relies on prettytable's `Display` for `Table`: the printed text depends
/// on the rows and the format alone.
#[verifier::external_body]
fn table_to_text(t: &prettytable::Table) -> (r: String)
    ensures
        has_clean_format(*t) ==> r@ == clean_table(table_contents(*t)),
{
    t.to_string()
}

/// The escape character, which starts a terminal control sequence.
pub open spec fn is_escape(c: char) -> bool {
    c == '\u{1b}'
}

/// A text with its escape characters removed.
pub open spec fn without_escapes(s: Seq<char>) -> Seq<char> {
    s.filter(|c: char| !is_escape(c))
}

/// A row whose cell texts hold no escape character.
pub open spec fn row_is_printable(row: RowView) -> bool {
    forall|j: int, k: int| 0 <= j < row.len() && 0 <= k < row[j].0.len() ==> !is_escape(#[trigger] row[j].0[k])
}

/// A row with the escape characters removed from its cell texts.
pub open spec fn printable_row(row: RowView) -> RowView {
    row.map_values(|c: CellView| (without_escapes(c.0), c.1))
}

/// The text of the clean table that shows the rows, escape characters
/// removed from the cells.
pub open spec fn table_text_for(rows: Seq<RowView>) -> Seq<char> {
    clean_table(stored_rows(rows.map_values(|r: RowView| printable_row(r))))
}

proof fn lemma_without_escapes_printable(s: Seq<char>)
    ensures
        forall|k: int| 0 <= k < without_escapes(s).len() ==> !is_escape(#[trigger] without_escapes(s)[k]),
{
    let f = |c: char| !is_escape(c);
    assert forall|k: int| 0 <= k < s.filter(f).len() implies f(#[trigger] s.filter(f)[k]) by {
        s.filter_lemma(f);
    }
}

/// Removes the escape characters from a text.
pub fn remove_escapes(s: &str) -> (r: String)
    ensures
        r@ == without_escapes(s@),
{
    let n = s.unicode_len();
    let mut out = String::new();
    let mut i: usize = 0;
    while i < n
        invariant
            n == s@.len(),
            i <= n,
            out@ == without_escapes(s@.subrange(0, i as int)),
        decreases n - i,
    {
        let c = s.get_char(i);
        proof {
            let f = |c: char| !is_escape(c);
            assert(s@.subrange(0, i + 1) =~= s@.subrange(0, i as int).push(c));
            s@.subrange(0, i as int).lemma_filter_push(c, f);
        }
        if c != '\u{1b}' {
            let piece = s.substring_char(i, i + 1);
            assert(piece@ =~= seq![c]);
            out.append(piece);
        }
        i = i + 1;
    }
    assert(s@.subrange(0, n as int) =~= s@);
    out
}

/// A row with the escape characters removed from its cell texts.
fn printable(row: &Row) -> (r: Row)
    ensures
        r@ == printable_row(row@),
        row_is_printable(r@),
{
    let mut cells: Vec<Cell> = Vec::new();
    let mut i: usize = 0;
    while i < row.cells.len()
        invariant
            i <= row.cells@.len(),
            cells@.map_values(|c: Cell| c@) == printable_row(row@).subrange(0, i as int),
        decreases row.cells@.len() - i,
    {
        let text = remove_escapes(row.cells[i].text.as_str());
        let cell = Cell { text, align: row.cells[i].align };
        assert(cell@ == printable_row(row@)[i as int]);
        let ghost prev = cells@;
        cells.push(cell);
        i = i + 1;
        assert(cells@ == prev.push(cell));
        assert(cells@.map_values(|c: Cell| c@) =~= prev.map_values(|c: Cell| c@).push(cell@));
        assert(cells@.map_values(|c: Cell| c@) =~= printable_row(row@).subrange(0, i as int));
    }
    assert(printable_row(row@).subrange(0, i as int) =~= printable_row(row@));
    let r = Row { cells };
    assert forall|j: int, k: int| 0 <= j < r@.len() && 0 <= k < r@[j].0.len() implies !is_escape(#[trigger] r@[j].0[k]) by {
        lemma_without_escapes_printable(row@[j].0);
    }
    r
}

/// Prints rows as a table in the clean format, escape characters removed
/// from the cells.
pub(crate) fn clean_table_text(rows: &Vec<Row>) -> (r: String)
    ensures
        r@ == table_text_for(rows_view(rows@)),
{
    let ghost shown = rows_view(rows@).map_values(|r: RowView| printable_row(r));
    let mut table = new_clean_table();
    let mut i: usize = 0;
    while i < rows.len()
        invariant
            i <= rows@.len(),
            shown == rows_view(rows@).map_values(|r: RowView| printable_row(r)),
            has_clean_format(table),
            table_contents(table) =~= stored_rows(shown.subrange(0, i as int)),
        decreases rows@.len() - i,
    {
        let row = printable(&rows[i]);
        add_table_row(&mut table, &row);
        i = i + 1;
        assert(table_contents(table) =~= stored_rows(shown.subrange(0, i as int)));
    }
    assert(shown.subrange(0, i as int) =~= shown);
    table_to_text(&table)
}

/// Rows in the shape of `indented`.
fn indent_row(row: Row, indent: bool) -> (r: Row)
    ensures
        r@ == indented(row@, indent),
{
    if indent {
        let mut cells: Vec<Cell> = Vec::new();
        let first = Cell::new("");
        proof {
            reveal_strlit("");
        }
        assert(first@ == (Seq::<char>::empty(), Alignment::LEFT));
        cells.push(first);
        let mut rest = row.cells;
        let ghost rest0 = rest@;
        cells.append(&mut rest);
        let r = Row { cells };
        assert(forall|j: int| 0 < j < r.cells@.len() ==> r.cells@[j] == rest0[j - 1]);
        assert(r@ =~= indented(row@, indent));
        r
    } else {
        row
    }
}

/// The rows of a table: the header, then each content row with its error
/// attached, all indented by one column when `indent` holds.
pub fn table_rows(header: &Row, content: &Vec<Row>, errors: &Vec<String>, indent: bool) -> (r: Vec<Row>)
    requires
        content.len() == errors.len(),
    ensures
        rows_view(r@) == table_layout(header@, rows_view(content@), strings_view(errors@), indent),
{
    let ghost layout = table_layout(header@, rows_view(content@), strings_view(errors@), indent);
    let mut rows: Vec<Row> = Vec::new();
    rows.push(indent_row(header.duplicate(), indent));
    let mut i: usize = 0;
    while i < content.len()
        invariant
            i <= content.len(),
            content.len() == errors.len(),
            layout == table_layout(header@, rows_view(content@), strings_view(errors@), indent),
            rows_view(rows@) == layout.subrange(0, i + 1),
        decreases content.len() - i,
    {
        let mut row = content[i].duplicate();
        if errors[i].as_str().unicode_len() > 0 {
            let err = Cell::new(errors[i].as_str());
            row.cells.push(err);
        }
        assert(row@ =~= with_error(content@[i as int]@, errors@[i as int]@));
        let row = indent_row(row, indent);
        assert(row@ == layout[i + 1]);
        let ghost prev = rows@;
        rows.push(row);
        assert(rows@ == prev.push(row));
        proof {
            lemma_rows_view_push(prev, row);
        }
        i = i + 1;
        assert(rows_view(rows@) =~= layout.subrange(0, i + 1));
    }
    assert(layout.subrange(0, i + 1) =~= layout);
    rows
}

/// The rows of a key/value block: one row per pair, in order.
pub fn key_value_rows(pairs: &Vec<(String, Option<String>)>) -> (r: Vec<Row>)
    ensures
        rows_view(r@) == key_value_layout(pairs_view(pairs@)),
{
    let ghost layout = key_value_layout(pairs_view(pairs@));
    let mut rows: Vec<Row> = Vec::new();
    let mut i: usize = 0;
    proof {
        reveal_strlit(":");
    }
    while i < pairs.len()
        invariant
            i <= pairs.len(),
            layout == key_value_layout(pairs_view(pairs@)),
            rows_view(rows@) == layout.subrange(0, i as int),
        decreases pairs.len() - i,
    {
        let mut cells: Vec<Cell> = Vec::new();
        cells.push(Cell::new(pairs[i].0.as_str()));
        match &pairs[i].1 {
            Some(v) => {
                cells.push(Cell::new(":"));
                cells.push(Cell::new(v.as_str()));
            },
            None => {},
        }
        let row = Row { cells };
        assert(row@ =~= layout[i as int]);
        let ghost prev = rows@;
        rows.push(row);
        assert(rows@ == prev.push(row));
        proof {
            lemma_rows_view_push(prev, row);
        }
        i = i + 1;
        assert(rows_view(rows@) =~= layout.subrange(0, i as int));
    }
    assert(layout.subrange(0, i as int) =~= layout);
    rows
}

} // verus!
