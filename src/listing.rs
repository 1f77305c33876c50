use vstd::prelude::*;
use crate::doc::Doc;
use crate::doc::DocView;
use crate::handler::DescribeObjectHandler;
use crate::handler::KeyValOutputHandler;
use crate::handler::SerializeOutput;
use crate::handler::TableOutputHandler;
use crate::table::Row;
use crate::table::RowView;
use crate::table::lemma_pairs_view_push;
use crate::table::lemma_rows_view_push;
use crate::table::lemma_strings_view_push;
use crate::table::pairs_view;
use crate::table::rows_view;
use crate::table::strings_view;

verus! {

/// One record of a listing: its row and its error annotation (empty when
/// there is none).
#[derive(Debug)]
pub struct ListingEntry {
    pub row: Row,
    pub error: String,
}

/// Prepared rows under a header, with a label/value summary: a value that
/// can be shown as a table, as a key/value block, in detail, or as a
/// document.
#[derive(Debug)]
pub struct Listing {
    pub summary: Vec<(String, Option<String>)>,
    pub header: Row,
    pub entries: Vec<ListingEntry>,
}

impl TableOutputHandler for Listing {
    open spec fn header_view(&self) -> RowView {
        self.header@
    }

    open spec fn content_view(&self) -> Seq<RowView> {
        Seq::new(self.entries@.len(), |i: int| self.entries@[i].row@)
    }

    open spec fn errors_view(&self) -> Seq<Seq<char>> {
        Seq::new(self.entries@.len(), |i: int| self.entries@[i].error@)
    }

    proof fn lemma_errors_match_content(&self) {
    }

    fn header(&self) -> (r: Row) {
        self.header.duplicate()
    }

    fn errors(&self) -> (r: Vec<String>) {
        let mut errors: Vec<String> = Vec::new();
        let mut i: usize = 0;
        while i < self.entries.len()
            invariant
                i <= self.entries@.len(),
                strings_view(errors@) =~= Seq::new(i as nat, |j: int| self.entries@[j].error@),
            decreases self.entries@.len() - i,
        {
            let e = self.entries[i].error.clone();
            let ghost prev = errors@;
            errors.push(e);
            proof {
                lemma_strings_view_push(prev, e);
            }
            i = i + 1;
            assert(strings_view(errors@) =~= Seq::new(i as nat, |j: int| self.entries@[j].error@));
        }
        errors
    }

    fn content(&self) -> (r: Vec<Row>) {
        let mut rows: Vec<Row> = Vec::new();
        let mut i: usize = 0;
        while i < self.entries.len()
            invariant
                i <= self.entries@.len(),
                rows_view(rows@) =~= Seq::new(i as nat, |j: int| self.entries@[j].row@),
            decreases self.entries@.len() - i,
        {
            let row = self.entries[i].row.duplicate();
            let ghost prev = rows@;
            rows.push(row);
            proof {
                lemma_rows_view_push(prev, row);
            }
            i = i + 1;
            assert(rows_view(rows@) =~= Seq::new(i as nat, |j: int| self.entries@[j].row@));
        }
        rows
    }
}

impl KeyValOutputHandler for Listing {
    open spec fn key_values_view(&self) -> Seq<(Seq<char>, Option<Seq<char>>)> {
        pairs_view(self.summary@)
    }

    fn key_values(&self) -> (r: Vec<(String, Option<String>)>) {
        let mut pairs: Vec<(String, Option<String>)> = Vec::new();
        let mut i: usize = 0;
        while i < self.summary.len()
            invariant
                i <= self.summary@.len(),
                pairs_view(pairs@) =~= pairs_view(self.summary@).subrange(0, i as int),
            decreases self.summary@.len() - i,
        {
            let key = self.summary[i].0.clone();
            let val = match &self.summary[i].1 {
                Some(v) => Some(v.clone()),
                None => None,
            };
            let ghost prev = pairs@;
            let p = (key, val);
            assert(pairs_view(seq![p])[0] == pairs_view(self.summary@)[i as int]);
            pairs.push(p);
            proof {
                lemma_pairs_view_push(prev, p);
            }
            i = i + 1;
            assert(pairs_view(pairs@) =~= pairs_view(self.summary@).subrange(0, i as int));
        }
        pairs
    }
}

impl DescribeObjectHandler for Listing {
}

/// A row as a document object: each cell's text under the header text of
/// its column; cells past the header's end are left out.
pub open spec fn row_doc(header: RowView, row: RowView) -> DocView {
    let n = if row.len() < header.len() { row.len() } else { header.len() };
    DocView::Object(Seq::new(n, |j: int| (header[j].0, DocView::Str(row[j].0))))
}

fn row_to_doc(header: &Row, row: &Row) -> (r: Doc)
    ensures
        r@ == row_doc(header@, row@),
{
    let mut fields: Vec<(String, Doc)> = Vec::new();
    let mut j: usize = 0;
    while j < row.cells.len() && j < header.cells.len()
        invariant
            j <= row.cells@.len(),
            j <= header.cells@.len(),
            fields.len() == j,
            forall|k: int|
                0 <= k < j ==> (#[trigger] fields@[k]).0@ == header@[k].0 && fields@[k].1@ == DocView::Str(
                    row@[k].0,
                ),
        decreases row.cells@.len() - j,
    {
        fields.push((header.cells[j].text.clone(), Doc::Str(row.cells[j].text.clone())));
        j = j + 1;
    }
    let d = Doc::Object(fields);
    assert(d@ =~= row_doc(header@, row@)) by {
        assert(d@->Object_0 =~= row_doc(header@, row@)->Object_0);
    }
    d
}

impl SerializeOutput for Listing {
    /// The records as a sequence of objects keyed by the header's texts.
    open spec fn doc_view(&self) -> DocView {
        DocView::List(Seq::new(self.entries@.len(), |i: int| row_doc(self.header@, self.entries@[i].row@)))
    }

    fn to_doc(&self) -> (r: Doc) {
        let mut items: Vec<Doc> = Vec::new();
        let mut i: usize = 0;
        while i < self.entries.len()
            invariant
                i <= self.entries@.len(),
                items.len() == i,
                forall|j: int| 0 <= j < i ==> (#[trigger] items@[j])@ == row_doc(self.header@, self.entries@[j].row@),
            decreases self.entries@.len() - i,
        {
            items.push(row_to_doc(&self.header, &self.entries[i].row));
            i = i + 1;
        }
        let d = Doc::List(items);
        assert(d@ =~= self.doc_view()) by {
            assert(d@->List_0 =~= self.doc_view()->List_0);
        }
        d
    }
}

} // verus!
