use vstd::prelude::*;
use crate::decimal::decimal;
use crate::decimal::i64_to_decimal;
use crate::decimal::signed_decimal;
use crate::decimal::u64_to_decimal;
use crate::handler::SerializeOutput;
use crate::handler::TableOutputHandler;
use crate::doc::Doc;
use crate::doc::DocView;
use crate::handler::list_text;
use crate::handler::table_text_of;
use crate::output_type::OutputType;
use crate::output_type::SerializeType;
use crate::serde_render::document_text;
use crate::serde_render::OutputError;
use crate::table::Alignment;
use crate::table::Cell;
use crate::table::Row;
use crate::table::RowView;
use crate::table::rows_view;
use crate::table::strings_view;
use crate::table::lemma_rows_view_push;
use crate::table::lemma_strings_view_push;
use crate::terminal::Terminal;

verus! {

/// Options of the command that lists managed SPU groups.
#[derive(Debug, Clone, Copy)]
pub struct ListManagedSpuGroupsOpt {
    pub format: OutputType,
}

/// What the group list shows of one managed SPU group.
#[derive(Debug)]
pub struct SpuGroupRecord {
    pub name: String,
    pub replicas: u16,
    pub min_id: i32,
    pub rack: Option<String>,
    pub size: String,
    pub status: String,
    /// The group as its metadata serializes: name, spec and status.
    pub doc: Doc,
}

/// The managed SPU groups to show, in order; equal names are shown as
/// separate rows.
pub struct ListSpuGroups(pub Vec<SpuGroupRecord>);

/// The rack column: the rack, or nothing when none is set.
pub open spec fn rack_text(rack: Option<String>) -> Seq<char> {
    match rack {
        Some(r) => r@,
        None => Seq::<char>::empty(),
    }
}

/// The table row of one group.
pub open spec fn group_row(g: SpuGroupRecord) -> RowView {
    seq![
        (g.name@, Alignment::RIGHT),
        (decimal(g.replicas as nat), Alignment::CENTER),
        (signed_decimal(g.min_id as int), Alignment::RIGHT),
        (rack_text(g.rack), Alignment::RIGHT),
        (g.size@, Alignment::RIGHT),
        (g.status@, Alignment::RIGHT),
    ]
}

/// The header of the group table.
pub open spec fn group_header() -> RowView {
    seq![
        ("NAME"@, Alignment::LEFT),
        ("REPLICAS"@, Alignment::LEFT),
        ("MIN ID"@, Alignment::LEFT),
        ("RACK"@, Alignment::LEFT),
        ("SIZE"@, Alignment::LEFT),
        ("STATUS"@, Alignment::LEFT),
    ]
}

fn group_table_row(g: &SpuGroupRecord) -> (r: Row)
    ensures
        r@ == group_row(*g),
{
    let mut cells: Vec<Cell> = Vec::new();
    cells.push(Cell::new_align(g.name.as_str(), Alignment::RIGHT));
    cells.push(Cell::new_align(u64_to_decimal(g.replicas as u64).as_str(), Alignment::CENTER));
    cells.push(Cell::new_align(i64_to_decimal(g.min_id as i64).as_str(), Alignment::RIGHT));
    let rack = match &g.rack {
        Some(r) => r.clone(),
        None => String::new(),
    };
    cells.push(Cell::new_align(rack.as_str(), Alignment::RIGHT));
    cells.push(Cell::new_align(g.size.as_str(), Alignment::RIGHT));
    cells.push(Cell::new_align(g.status.as_str(), Alignment::RIGHT));
    let r = Row::new(cells);
    assert(r@ =~= group_row(*g));
    r
}

impl TableOutputHandler for ListSpuGroups {
    open spec fn header_view(&self) -> RowView {
        group_header()
    }

    open spec fn content_view(&self) -> Seq<RowView> {
        Seq::new(self.0@.len(), |i: int| group_row(self.0@[i]))
    }

    open spec fn errors_view(&self) -> Seq<Seq<char>> {
        Seq::new(self.0@.len(), |i: int| Seq::<char>::empty())
    }

    proof fn lemma_errors_match_content(&self) {
    }

    fn header(&self) -> (r: Row) {
        let mut cells: Vec<Cell> = Vec::new();
        cells.push(Cell::new("NAME"));
        cells.push(Cell::new("REPLICAS"));
        cells.push(Cell::new("MIN ID"));
        cells.push(Cell::new("RACK"));
        cells.push(Cell::new("SIZE"));
        cells.push(Cell::new("STATUS"));
        let r = Row::new(cells);
        assert(r@ =~= group_header());
        r
    }

    fn errors(&self) -> (r: Vec<String>) {
        let mut errors: Vec<String> = Vec::new();
        let mut i: usize = 0;
        while i < self.0.len()
            invariant
                i <= self.0@.len(),
                strings_view(errors@) =~= Seq::new(i as nat, |j: int| Seq::<char>::empty()),
            decreases self.0@.len() - i,
        {
            let e = String::new();
            let ghost prev = errors@;
            errors.push(e);
            proof {
                lemma_strings_view_push(prev, e);
            }
            i = i + 1;
            assert(strings_view(errors@) =~= Seq::new(i as nat, |j: int| Seq::<char>::empty()));
        }
        errors
    }

    fn content(&self) -> (r: Vec<Row>) {
        let mut rows: Vec<Row> = Vec::new();
        let mut i: usize = 0;
        while i < self.0.len()
            invariant
                i <= self.0@.len(),
                rows_view(rows@) =~= Seq::new(i as nat, |j: int| group_row(self.0@[j])),
            decreases self.0@.len() - i,
        {
            let row = group_table_row(&self.0[i]);
            let ghost prev = rows@;
            rows.push(row);
            proof {
                lemma_rows_view_push(prev, row);
            }
            i = i + 1;
            assert(rows_view(rows@) =~= Seq::new(i as nat, |j: int| group_row(self.0@[j])));
        }
        rows
    }
}

impl SerializeOutput for ListSpuGroups {
    open spec fn doc_view(&self) -> DocView {
        DocView::List(Seq::new(self.0@.len(), |i: int| self.0@[i].doc@))
    }

    fn to_doc(&self) -> (r: Doc) {
        let mut items: Vec<Doc> = Vec::new();
        let mut i: usize = 0;
        while i < self.0.len()
            invariant
                i <= self.0@.len(),
                items.len() == i,
                forall|j: int| 0 <= j < i ==> (#[trigger] items@[j])@ == self.0@[j].doc@,
            decreases self.0@.len() - i,
        {
            items.push(self.0[i].doc.duplicate());
            i = i + 1;
        }
        let d = Doc::List(items);
        assert(d@ =~= self.doc_view()) by {
            assert(d@->List_0 =~= self.doc_view()->List_0);
        }
        d
    }
}

/// What the group list writes: a placeholder line when there are no groups,
/// else the groups in the format asked for.
pub fn spu_group_output_text(list_spu_groups: Vec<SpuGroupRecord>, output_type: OutputType) -> (r: Result<String, OutputError>)
    ensures
        list_spu_groups@.len() == 0 ==> r is Ok && r->Ok_0@ == "no groups\n"@,
        list_spu_groups@.len() > 0 && output_type == OutputType::table ==> r is Ok
            && r->Ok_0@ == table_text_of(ListSpuGroups(list_spu_groups), false),
        list_spu_groups@.len() > 0 && output_type == OutputType::json ==> r is Ok
            && r->Ok_0@ == document_text(ListSpuGroups(list_spu_groups).doc_view(), SerializeType::json),
        list_spu_groups@.len() > 0 && output_type == OutputType::yaml ==> r is Ok
            && r->Ok_0@ == document_text(ListSpuGroups(list_spu_groups).doc_view(), SerializeType::yaml),
{
    if list_spu_groups.len() == 0 {
        Ok(String::from_str("no groups\n"))
    } else {
        let groups = ListSpuGroups(list_spu_groups);
        list_text(&groups, output_type)
    }
}

/// Writes `spu_group_output_text` of the groups to the terminal: the
/// placeholder line when there are none, else the groups in the format
/// asked for.
pub fn spu_group_response_to_output<O: Terminal>(out: &O, list_spu_groups: Vec<SpuGroupRecord>, output_type: OutputType) -> (r: Result<(), OutputError>)
    ensures
        r is Ok,
{
    match spu_group_output_text(list_spu_groups, output_type) {
        Ok(text) => {
            out.print(text.as_str());
            Ok(())
        },
        Err(e) => Err(e),
    }
}

} // verus!
