use vstd::prelude::*;
use crate::handler::DescribeObjectHandler;
use crate::handler::KeyValOutputHandler;
use crate::handler::SerializeOutput;
use crate::handler::TableOutputHandler;
use crate::handler::describe_text;
use crate::handler::key_values_text;
use crate::handler::list_text;
use crate::handler::table_text;
use crate::output_type::OutputType;
use crate::output_type::SerializeType;
use crate::serde_render::OutputError;
use crate::serde_render::serde_text;

verus! {

/// A text sink that renders values. An implementation supplies `print` and
/// `println`; every rendering goes through them, and none is synchronized.
pub trait Terminal: Sized {
    /// Writes the text as it is.
    fn print(&self, msg: &str);

    /// Writes the text and a line break.
    fn println(&self, msg: &str);

    /// Writes `list_text` of the list: a table in table mode, else a
    /// document in the format asked for.
    fn render_list<T: TableOutputHandler + SerializeOutput>(&self, list: &T, mode: OutputType) -> (r: Result<(), OutputError>)
        ensures
            r is Ok,
    {
        match list_text(list, mode) {
            Ok(text) => {
                self.print(text.as_str());
                Ok(())
            },
            Err(e) => Err(e),
        }
    }

    /// Writes a value as a table, indented by one column when `indent`
    /// holds.
    fn render_table<T: TableOutputHandler>(&self, val: &T, indent: bool) {
        let text = table_text(val, indent);
        self.print(text.as_str());
    }

    /// Writes `serde_text` of the value's document.
    fn render_serde<T: SerializeOutput>(&self, val: &T, mode: SerializeType) -> (r: Result<(), OutputError>)
        ensures
            r is Ok,
    {
        match serde_text(&val.to_doc(), mode) {
            Ok(text) => {
                self.print(text.as_str());
                Ok(())
            },
            Err(e) => Err(e),
        }
    }

    /// Writes `describe_text` of the objects: each one as its own block in
    /// table mode, else the collection as one document.
    fn describe_objects<D>(&self, objects: &[D], mode: OutputType) -> (r: Result<(), OutputError>)
        where
            D: DescribeObjectHandler + TableOutputHandler + KeyValOutputHandler + SerializeOutput,
        ensures
            r is Ok,
    {
        match describe_text(objects, mode) {
            Ok(text) => {
                self.print(text.as_str());
                Ok(())
            },
            Err(e) => Err(e),
        }
    }

    /// Writes the label/value pairs of a value, one line per pair.
    fn render_key_values<K: KeyValOutputHandler>(&self, key_val: &K) {
        let text = key_values_text(key_val);
        self.print(text.as_str());
    }
}

} // verus!
