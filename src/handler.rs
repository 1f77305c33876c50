use vstd::prelude::*;
use crate::output_type::OutputType;
use crate::output_type::SerializeType;
use crate::serde_render::OutputError;
use crate::doc::Doc;
use crate::doc::DocView;
use crate::serde_render::document_text;
use crate::serde_render::serde_text;
use crate::table::Row;
use crate::table::RowView;
use crate::table::clean_table_text;
use crate::table::key_value_layout;
use crate::table::key_value_rows;
use crate::table::pairs_view;
use crate::table::rows_view;
use crate::table::strings_view;
use crate::table::table_layout;
use crate::table::table_rows;
use crate::table::table_text_for;

verus! {

/// A value that can be shown as a table: a header row, one content row per
/// record, and one error annotation per record (empty when there is none).
pub trait TableOutputHandler {
    /// The header row.
    spec fn header_view(&self) -> RowView;

    /// The content rows, one per record.
    spec fn content_view(&self) -> Seq<RowView>;

    /// The error annotations, one per record.
    spec fn errors_view(&self) -> Seq<Seq<char>>;

    /// Each record has exactly one error annotation.
    proof fn lemma_errors_match_content(&self)
        ensures
            self.content_view().len() == self.errors_view().len(),
    ;

    fn header(&self) -> (r: Row)
        ensures
            r@ == self.header_view(),
    ;

    fn errors(&self) -> (r: Vec<String>)
        ensures
            strings_view(r@) == self.errors_view(),
    ;

    fn content(&self) -> (r: Vec<Row>)
        ensures
            rows_view(r@) == self.content_view(),
    ;
}

/// A value that can be shown as an ordered list of labels, each with an
/// optional value.
pub trait KeyValOutputHandler {
    spec fn key_values_view(&self) -> Seq<(Seq<char>, Option<Seq<char>>)>;

    fn key_values(&self) -> (r: Vec<(String, Option<String>)>)
        ensures
            pairs_view(r@) == self.key_values_view(),
    ;
}

/// A value that can be shown in a detail view: as a key/value block,
/// followed by its own rows as a nested table when it has any.
pub trait DescribeObjectHandler {
}

/// A value that can be written as a structured (JSON or YAML) document.
pub trait SerializeOutput {
    /// The document of the value.
    spec fn doc_view(&self) -> DocView;

    fn to_doc(&self) -> (r: Doc)
        ensures
            r@ == self.doc_view(),
    ;
}

/// For every table handler, there are as many error annotations as content
/// rows.
pub proof fn content_and_errors_have_equal_length<T: TableOutputHandler>(t: &T)
    ensures
        t.content_view().len() == t.errors_view().len(),
{
    t.lemma_errors_match_content();
}

/// The text of the table that a handler describes.
pub open spec fn table_text_of<T: TableOutputHandler>(val: T, indent: bool) -> Seq<char> {
    table_text_for(table_layout(val.header_view(), val.content_view(), val.errors_view(), indent))
}

/// The text of the key/value block that a handler describes.
pub open spec fn key_values_text_of<K: KeyValOutputHandler>(val: K) -> Seq<char> {
    table_text_for(key_value_layout(val.key_values_view()))
}

/// Renders a handler as a clean table, indented by one column when `indent`
/// holds.
pub fn table_text<T: TableOutputHandler>(val: &T, indent: bool) -> (r: String)
    ensures
        r@ == table_text_of(*val, indent),
{
    let header = val.header();
    let content = val.content();
    let errors = val.errors();
    proof {
        val.lemma_errors_match_content();
    }
    let rows = table_rows(&header, &content, &errors, indent);
    clean_table_text(&rows)
}

/// Renders the label/value pairs of a handler, one line per pair.
pub fn key_values_text<K: KeyValOutputHandler>(val: &K) -> (r: String)
    ensures
        r@ == key_values_text_of(*val),
{
    let pairs = val.key_values();
    let rows = key_value_rows(&pairs);
    clean_table_text(&rows)
}

/// Renders a list: as a table in table mode, else as a document in the
/// format asked for. Only the serializer can fail, and its error names the
/// format.
pub fn list_text<T: TableOutputHandler + SerializeOutput>(list: &T, mode: OutputType) -> (r: Result<String, OutputError>)
    ensures
        mode == OutputType::table ==> r is Ok && r->Ok_0@ == table_text_of(*list, false),
        mode == OutputType::json ==> r is Ok && r->Ok_0@ == document_text(list.doc_view(), SerializeType::json),
        mode == OutputType::yaml ==> r is Ok && r->Ok_0@ == document_text(list.doc_view(), SerializeType::yaml),
{
    match mode.serialize_type() {
        None => Ok(table_text(list, false)),
        Some(st) => serde_text(&list.to_doc(), st),
    }
}

/// The detail view of one object: its key/value block, then its rows as a
/// nested, indented table when it has any.
pub open spec fn describe_block<D: TableOutputHandler + KeyValOutputHandler>(o: D) -> Seq<char> {
    key_values_text_of(o) + if o.content_view().len() > 0 {
        table_text_of(o, true)
    } else {
        Seq::<char>::empty()
    }
}

/// The detail views of the objects, one after another.
pub open spec fn describe_blocks<D: TableOutputHandler + KeyValOutputHandler>(objs: Seq<D>) -> Seq<char>
    decreases objs.len(),
{
    if objs.len() == 0 {
        Seq::<char>::empty()
    } else {
        describe_blocks(objs.drop_last()) + describe_block(objs.last())
    }
}

/// The document of a collection: the sequence of its items' documents.
pub open spec fn docs_view<D: SerializeOutput>(objs: Seq<D>) -> DocView {
    DocView::List(Seq::new(objs.len(), |i: int| objs[i].doc_view()))
}

/// Renders objects in detail: in table mode each one as its own block, else
/// the whole collection as one document in the format asked for.
pub fn describe_text<D>(objects: &[D], mode: OutputType) -> (r: Result<String, OutputError>)
    where
        D: DescribeObjectHandler + TableOutputHandler + KeyValOutputHandler + SerializeOutput,
    ensures
        mode == OutputType::table ==> r is Ok && r->Ok_0@ == describe_blocks(objects@),
        mode == OutputType::json ==> r is Ok && r->Ok_0@ == document_text(docs_view(objects@), SerializeType::json),
        mode == OutputType::yaml ==> r is Ok && r->Ok_0@ == document_text(docs_view(objects@), SerializeType::yaml),
{
    match mode.serialize_type() {
        None => {
            let mut text = String::new();
            let mut i: usize = 0;
            while i < objects.len()
                invariant
                    i <= objects@.len(),
                    text@ == describe_blocks(objects@.subrange(0, i as int)),
                decreases objects@.len() - i,
            {
                let o = &objects[i];
                let kv = key_values_text(o);
                text.append(kv.as_str());
                let content = o.content();
                if content.len() > 0 {
                    let t = table_text(o, true);
                    text.append(t.as_str());
                }
                assert(objects@.subrange(0, i + 1).drop_last() =~= objects@.subrange(0, i as int));
                i = i + 1;
                assert(text@ =~= describe_blocks(objects@.subrange(0, i as int)));
            }
            assert(objects@.subrange(0, i as int) =~= objects@);
            Ok(text)
        },
        Some(st) => {
            let mut items: Vec<Doc> = Vec::new();
            let mut i: usize = 0;
            while i < objects.len()
                invariant
                    i <= objects@.len(),
                    items.len() == i,
                    forall|j: int| 0 <= j < i ==> (#[trigger] items@[j])@ == objects@[j].doc_view(),
                decreases objects@.len() - i,
            {
                items.push(objects[i].to_doc());
                i = i + 1;
            }
            let d = Doc::List(items);
            assert(d@ =~= docs_view(objects@)) by {
                assert(d@->List_0 =~= docs_view(objects@)->List_0);
            }
            serde_text(&d, st)
        },
    }
}

} // verus!
