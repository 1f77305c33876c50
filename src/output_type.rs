use vstd::prelude::*;

verus! {

/// The output format that a command was asked for.
#[allow(non_camel_case_types)]
#[derive(Debug, Clone, Copy, PartialEq, Eq, Structural)]
pub enum OutputType {
    table,
    yaml,
    json,
}

/// The structured formats: those of `OutputType` other than the table.
#[allow(non_camel_case_types)]
#[derive(Debug, Clone, Copy, PartialEq, Eq, Structural)]
pub enum SerializeType {
    yaml,
    json,
}

/// Output defaults to table formatting.
impl Default for OutputType {
    fn default() -> (r: Self)
        ensures
            r == OutputType::table,
    {
        OutputType::table
    }
}

impl OutputType {
    /// Whether this is the table format.
    pub fn is_table(&self) -> (r: bool)
        ensures
            r <==> *self == OutputType::table,
    {
        *self == OutputType::table
    }

    /// The structured format that this output type asks for, if it asks for one.
    pub fn serialize_type(&self) -> (r: Option<SerializeType>)
        ensures
            r == serialize_type_of(*self),
    {
        match self {
            OutputType::table => None,
            OutputType::yaml => Some(SerializeType::yaml),
            OutputType::json => Some(SerializeType::json),
        }
    }
}

/// The structured format named by an output type; none for the table.
pub open spec fn serialize_type_of(t: OutputType) -> Option<SerializeType> {
    match t {
        OutputType::table => None,
        OutputType::yaml => Some(SerializeType::yaml),
        OutputType::json => Some(SerializeType::json),
    }
}

} // verus!
