//! Per-field policies: transposition, renaming, and how an aggregate's defaults cascade to its fields.

use vstd::prelude::*;

verus! {

/// When the dimension order of an array field is reversed.
#[derive(Debug, Clone, Copy, PartialEq, Eq, Structural)]
pub enum TransposeOpts {
    /// After reading only.
    Read,
    /// Before writing only.
    Write,
    /// After reading and before writing.
    Both,
    /// Neither after reading nor before writing.
    Neither,
}

impl TransposeOpts {
    /// Whether an array is reversed after it has been read.
    pub fn transpose_read(&self) -> (r: bool)
        ensures
            r == self.on_read(),
    {
        match self {
            TransposeOpts::Read | TransposeOpts::Both => true,
            _ => false,
        }
    }

    /// Whether an array is reversed before it is written.
    pub fn transpose_write(&self) -> (r: bool)
        ensures
            r == self.on_write(),
    {
        match self {
            TransposeOpts::Write | TransposeOpts::Both => true,
            _ => false,
        }
    }

    /// The policy reverses on reading.
    pub open spec fn on_read(&self) -> bool {
        *self == TransposeOpts::Read || *self == TransposeOpts::Both
    }

    /// The policy reverses on writing.
    pub open spec fn on_write(&self) -> bool {
        *self == TransposeOpts::Write || *self == TransposeOpts::Both
    }
}

impl Default for TransposeOpts {
    /// Arrays are stored as they are held in memory unless something asks otherwise.
    fn default() -> (r: Self)
        ensures
            r == TransposeOpts::Neither,
    {
        TransposeOpts::Neither
    }
}

/// Names under which a field is stored, where they differ from its declared name.
#[derive(Debug)]
pub struct Rename {
    /// The name to read from.
    pub read: Option<String>,
    /// The name to write to.
    pub write: Option<String>,
    /// The name for both directions; it takes precedence over the other two.
    pub both: Option<String>,
}

impl Rename {
    /// The name a field declared as `ident` is read from: the name for both directions, else the
    /// name for reading, else `ident`.
    pub open spec fn read_name(&self, ident: Seq<char>) -> Seq<char> {
        match (self.both, self.read) {
            (Some(name), _) => name@,
            (None, Some(name)) => name@,
            (None, None) => ident,
        }
    }

    /// The name a field declared as `ident` is written to: the name for both directions, else the
    /// name for writing, else `ident`.
    pub open spec fn write_name(&self, ident: Seq<char>) -> Seq<char> {
        match (self.both, self.write) {
            (Some(name), _) => name@,
            (None, Some(name)) => name@,
            (None, None) => ident,
        }
    }

    /// No override in either direction.
    pub fn new() -> (r: Self)
        ensures
            r.read is None,
            r.write is None,
            r.both is None,
    {
        Rename { read: None, write: None, both: None }
    }

    /// Name of the node if we are reading.
    pub fn read_name_or_ident(&self, ident: &str) -> (name: String)
        ensures
            name@ == self.read_name(ident@),
    {
        match &self.both {
            Some(both) => both.clone(),
            None => match &self.read {
                Some(read) => read.clone(),
                None => ident.to_owned(),
            },
        }
    }

    /// Name of the node if we are writing.
    pub fn write_name_or_ident(&self, ident: &str) -> (name: String)
        ensures
            name@ == self.write_name(ident@),
    {
        match &self.both {
            Some(both) => both.clone(),
            None => match &self.write {
                Some(write) => write.clone(),
                None => ident.to_owned(),
            },
        }
    }
}

impl Clone for Rename {
    fn clone(&self) -> (copy: Self)
        ensures
            copy == *self,
    {
        Rename { read: copy_name(&self.read), write: copy_name(&self.write), both: copy_name(&self.both) }
    }
}

fn copy_name(name: &Option<String>) -> (copy: Option<String>)
    ensures
        copy == *name,
{
    match name {
        Some(name) => Some(name.clone()),
        None => None,
    }
}

impl Default for Rename {
    fn default() -> (r: Self)
        ensures
            r.read is None,
            r.write is None,
            r.both is None,
    {
        Rename::new()
    }
}

/// The value that holds for a field: its own override where it has one, else the default of
/// the aggregate that declares it.
pub open spec fn resolved<T>(aggregate_default: T, field_override: Option<T>) -> T {
    match field_override {
        Some(value) => value,
        None => aggregate_default,
    }
}

/// Settles a cascading policy for one field.
pub fn resolve<T>(aggregate_default: T, field_override: Option<T>) -> (effective: T)
    ensures
        effective == resolved(aggregate_default, field_override),
{
    match field_override {
        Some(value) => value,
        None => aggregate_default,
    }
}

} // verus!
