use vstd::prelude::*;
use vstd::string::*;

verus! {

/// The type of a leaf column.
#[derive(Clone, Copy, Debug, PartialEq, Eq, Structural)]
pub enum DataType {
    Boolean,
    Integer,
    Long,
    String,
}

/// A named, typed column of a table.
#[derive(Debug, PartialEq, Eq)]
pub struct StructField {
    pub name: String,
    pub data_type: DataType,
    pub nullable: bool,
}

impl StructField {
    pub fn new(name: &str, data_type: DataType, nullable: bool) -> (r: StructField)
        ensures
            r.name@ == name@,
            r.data_type == data_type,
            r.nullable == nullable,
    {
        StructField { name: String::from_str(name), data_type, nullable }
    }

    /// A field equal to this one.
    pub fn copy(&self) -> (r: StructField)
        ensures
            r == *self,
    {
        StructField { name: self.name.clone(), data_type: self.data_type, nullable: self.nullable }
    }
}

impl Clone for StructField {
    fn clone(&self) -> Self {
        self.copy()
    }
}

/// A record of fields, in order.
#[derive(Debug, PartialEq, Eq)]
pub struct StructType {
    pub fields: Vec<StructField>,
}

impl StructType {
    pub fn new(fields: Vec<StructField>) -> (r: StructType)
        ensures
            r.fields@ == fields@,
    {
        StructType { fields }
    }
}

/// The statistics that a file carries for a chosen set of columns: a record
/// `minValues` and a record `maxValues` with the same fields.
#[derive(Debug, PartialEq, Eq)]
pub struct StatsSchema {
    pub min_values: StructType,
    pub max_values: StructType,
}

} // verus!
