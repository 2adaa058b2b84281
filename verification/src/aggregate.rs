//! Aggregates: what their fields are, how each field is stored, and the values that fill them.

use crate::array::{ArrayView, Datatype, NdArray};
use crate::lazy_array::{LazyArray, LazyView};
use crate::policy::{resolve, resolved, Rename, TransposeOpts};
pub use crate::scalar::Scalar;
use vstd::prelude::*;

verus! {

/// What a field is, and with it the kind of node that holds it in the store.
#[derive(Debug)]
pub enum FieldKind {
    /// One value, held in an attribute.
    Scalar {
        /// The type of the value.
        datatype: Datatype,
    },
    /// An array in memory, held in a dataset.
    DenseArray {
        /// The type of the elements.
        datatype: Datatype,
        /// The number of axes.
        ndim: usize,
    },
    /// An aggregate of its own, held in a child group.
    NestedAggregate {
        /// The fields of the nested aggregate and its defaults.
        aggregate: Aggregate,
    },
    /// An array that stays in the store, reached through a handle on its dataset.
    LazyArrayHandle {
        /// The type of the elements.
        datatype: Datatype,
        /// The number of axes.
        ndim: usize,
    },
}

/// A field of an aggregate.
#[derive(Debug)]
pub struct Field {
    /// The declared name.
    pub name: String,
    /// What the field is.
    pub kind: FieldKind,
    /// The names of the node in the store, where they are not the declared name.
    pub rename: Rename,
    /// When an array is transposed, where the field does not follow its aggregate.
    pub transpose: Option<TransposeOpts>,
    /// Whether writing overwrites an existing node, where the field does not follow its
    /// aggregate.
    pub mutate_on_write: Option<bool>,
}

/// The fields of an aggregate, in the order of their declaration, and what holds for the
/// fields that say nothing else.
#[derive(Debug)]
pub struct Aggregate {
    /// The fields, in the order of their declaration.
    pub fields: Vec<Field>,
    /// When arrays are transposed.
    pub transpose: TransposeOpts,
    /// Whether writing overwrites existing nodes (else it creates new ones).
    pub mutate_on_write: bool,
}

/// How one field is read: from which node, and whether an array is transposed afterwards.
#[derive(Debug)]
pub struct ReadInfo {
    /// The name of the node in the store.
    pub array_name: String,
    /// Whether an array is transposed after it has been read.
    pub transpose: bool,
}

/// How one field is written: to which node, whether an array is transposed before, and whether
/// an existing node is overwritten.
#[derive(Debug)]
pub struct WriteInfo {
    /// The name of the node in the store.
    pub array_name: String,
    /// Whether an array is transposed before it is written.
    pub transpose: bool,
    /// Whether the node is there already and is overwritten (else it is created).
    pub mutate_on_write: bool,
}

impl Field {
    /// The name of the node that the field is read from.
    pub open spec fn read_name(&self) -> Seq<char> {
        self.rename.read_name(self.name@)
    }

    /// The name of the node that the field is written to.
    pub open spec fn write_name(&self) -> Seq<char> {
        self.rename.write_name(self.name@)
    }

    /// Whether the field is transposed after reading, in an aggregate with the given default.
    pub open spec fn read_transposed(&self, aggregate_default: TransposeOpts) -> bool {
        resolved(aggregate_default, self.transpose).on_read()
    }

    /// Whether the field is transposed before writing, in an aggregate with the given default.
    pub open spec fn write_transposed(&self, aggregate_default: TransposeOpts) -> bool {
        resolved(aggregate_default, self.transpose).on_write()
    }

    /// Whether writing the field overwrites an existing node, in an aggregate with the given
    /// default.
    pub open spec fn mutated(&self, aggregate_default: bool) -> bool {
        resolved(aggregate_default, self.mutate_on_write)
    }

    /// A field that is stored under its declared name and follows its aggregate in everything.
    pub fn new(name: String, kind: FieldKind) -> (field: Field)
        ensures
            field.name == name,
            field.kind == kind,
            field.rename.read is None,
            field.rename.write is None,
            field.rename.both is None,
            field.transpose is None,
            field.mutate_on_write is None,
    {
        Field { name, kind, rename: Rename::new(), transpose: None, mutate_on_write: None }
    }

    /// How the field is read in an aggregate with the given default.
    pub fn read_info(&self, aggregate_transpose: TransposeOpts) -> (info: ReadInfo)
        ensures
            info.array_name@ == self.read_name(),
            info.transpose == self.read_transposed(aggregate_transpose),
    {
        ReadInfo {
            array_name: self.rename.read_name_or_ident(self.name.as_str()),
            transpose: resolve(aggregate_transpose, self.transpose).transpose_read(),
        }
    }

    /// How the field is written in an aggregate with the given defaults.
    pub fn write_info(&self, aggregate_transpose: TransposeOpts, aggregate_mutate: bool) -> (info:
        WriteInfo)
        ensures
            info.array_name@ == self.write_name(),
            info.transpose == self.write_transposed(aggregate_transpose),
            info.mutate_on_write == self.mutated(aggregate_mutate),
    {
        WriteInfo {
            array_name: self.rename.write_name_or_ident(self.name.as_str()),
            transpose: resolve(aggregate_transpose, self.transpose).transpose_write(),
            mutate_on_write: resolve(aggregate_mutate, self.mutate_on_write),
        }
    }
}

impl FieldKind {
    /// Nothing asks for a handle on an array in the store to be transposed after reading:
    /// not `transpose` for the value itself, and nothing in a nested aggregate.
    pub open spec fn readable(&self, transpose: bool) -> bool
        decreases self,
    {
        match self {
            FieldKind::LazyArrayHandle { .. } => !transpose,
            FieldKind::NestedAggregate { aggregate } => aggregate.readable(),
            _ => true,
        }
    }

    /// Nothing asks for a handle on an array in the store to be transposed before writing:
    /// not `transpose` for the value itself, and nothing in a nested aggregate.
    pub open spec fn writable(&self, transpose: bool) -> bool
        decreases self,
    {
        match self {
            FieldKind::LazyArrayHandle { .. } => !transpose,
            FieldKind::NestedAggregate { aggregate } => aggregate.writable(),
            _ => true,
        }
    }

    /// Whether a value of this kind can be read: transposing a handle on an array in the
    /// store has no meaning, so nothing is read where that is asked for.
    pub fn is_readable(&self, transpose: bool) -> (fine: bool)
        ensures
            fine == self.readable(transpose),
        decreases self,
    {
        match self {
            FieldKind::LazyArrayHandle { .. } => !transpose,
            FieldKind::NestedAggregate { aggregate } => aggregate.is_readable(),
            _ => true,
        }
    }

    /// Whether a value of this kind can be written: transposing a handle on an array in the
    /// store has no meaning, so nothing is written where that is asked for.
    pub fn is_writable(&self, transpose: bool) -> (fine: bool)
        ensures
            fine == self.writable(transpose),
        decreases self,
    {
        match self {
            FieldKind::LazyArrayHandle { .. } => !transpose,
            FieldKind::NestedAggregate { aggregate } => aggregate.is_writable(),
            _ => true,
        }
    }
}

impl Field {
    /// The field can be read in an aggregate with the given default.
    pub open spec fn readable(&self, aggregate_default: TransposeOpts) -> bool
        decreases self,
    {
        self.kind.readable(self.read_transposed(aggregate_default))
    }

    /// The field can be written in an aggregate with the given default.
    pub open spec fn writable(&self, aggregate_default: TransposeOpts) -> bool
        decreases self,
    {
        self.kind.writable(self.write_transposed(aggregate_default))
    }

    /// Whether the field can be read in an aggregate with the given default.
    pub fn is_readable(&self, aggregate_default: TransposeOpts) -> (fine: bool)
        ensures
            fine == self.readable(aggregate_default),
        decreases self,
    {
        self.kind.is_readable(resolve(aggregate_default, self.transpose).transpose_read())
    }

    /// Whether the field can be written in an aggregate with the given default.
    pub fn is_writable(&self, aggregate_default: TransposeOpts) -> (fine: bool)
        ensures
            fine == self.writable(aggregate_default),
        decreases self,
    {
        self.kind.is_writable(resolve(aggregate_default, self.transpose).transpose_write())
    }
}

impl Aggregate {
    /// Every field can be read.
    pub open spec fn readable(&self) -> bool
        decreases self,
    {
        forall|i: int|
            0 <= i < self.fields.len() ==> (#[trigger] self.fields[i]).readable(self.transpose)
    }

    /// Every field can be written.
    pub open spec fn writable(&self) -> bool
        decreases self,
    {
        forall|i: int|
            0 <= i < self.fields.len() ==> (#[trigger] self.fields[i]).writable(self.transpose)
    }

    /// Whether every field can be read.
    pub fn is_readable(&self) -> (fine: bool)
        ensures
            fine == self.readable(),
        decreases self,
    {
        let mut i: usize = 0;
        while i < self.fields.len()
            invariant
                i <= self.fields.len(),
                forall|j: int| 0 <= j < i ==> (#[trigger] self.fields[j]).readable(self.transpose),
            decreases self.fields.len() - i,
        {
            if !self.fields[i].is_readable(self.transpose) {
                return false;
            }
            i += 1;
        }
        true
    }

    /// Whether every field can be written.
    pub fn is_writable(&self) -> (fine: bool)
        ensures
            fine == self.writable(),
        decreases self,
    {
        let mut i: usize = 0;
        while i < self.fields.len()
            invariant
                i <= self.fields.len(),
                forall|j: int| 0 <= j < i ==> (#[trigger] self.fields[j]).writable(self.transpose),
            decreases self.fields.len() - i,
        {
            if !self.fields[i].is_writable(self.transpose) {
                return false;
            }
            i += 1;
        }
        true
    }

    /// An aggregate of the given fields whose arrays are never transposed and whose nodes are
    /// created when it is written.
    pub fn new(fields: Vec<Field>) -> (aggregate: Aggregate)
        ensures
            aggregate.fields == fields,
            aggregate.transpose == TransposeOpts::Neither,
            aggregate.mutate_on_write == false,
    {
        Aggregate { fields, transpose: TransposeOpts::Neither, mutate_on_write: false }
    }
}

/// What fills a field.
#[derive(Debug, PartialEq, Eq)]
pub enum Value {
    /// One value.
    Scalar(Scalar),
    /// An array in memory.
    Array(NdArray),
    /// The values of the fields of a nested aggregate, in the order of their declaration.
    Aggregate(Vec<Value>),
    /// A handle on an array in the store.
    Lazy(LazyArray),
}

/// What fills a field, as a mathematical value.
pub enum ValueView {
    /// One value.
    Scalar(Scalar),
    /// An array in memory.
    Array(ArrayView),
    /// The values of the fields of a nested aggregate.
    Aggregate(Seq<ValueView>),
    /// A handle on an array in the store.
    Lazy(LazyView),
}

impl Value {
    /// The value as a mathematical value.
    pub open spec fn abstraction(self) -> ValueView
        decreases self,
    {
        match self {
            Value::Scalar(scalar) => ValueView::Scalar(scalar),
            Value::Array(array) => ValueView::Array(array@),
            Value::Aggregate(values) => ValueView::Aggregate(
                Seq::new(
                    values.len() as nat,
                    |i: int|
                        if 0 <= i < values.len() {
                            values[i].abstraction()
                        } else {
                            arbitrary()
                        },
                ),
            ),
            Value::Lazy(lazy) => ValueView::Lazy(lazy@),
        }
    }
}

impl View for Value {
    type V = ValueView;

    open spec fn view(&self) -> ValueView {
        self.abstraction()
    }
}

/// The values of a record, each as a mathematical value.
pub open spec fn views(values: Seq<Value>) -> Seq<ValueView> {
    Seq::new(values.len(), |i: int| values[i]@)
}

/// The view of a nested record is made of the views of its values.
pub proof fn view_of_aggregate(values: Vec<Value>)
    ensures
        Value::Aggregate(values)@ == ValueView::Aggregate(views(values@)),
{
    reveal_with_fuel(Value::abstraction, 2);
    let whole = Value::Aggregate(values)@;
    assert(whole->Aggregate_0 =~= views(values@));
}

impl ValueView {
    /// The value is one that a field of the given kind can hold.
    pub open spec fn conforms(self, kind: FieldKind) -> bool
        decreases kind,
    {
        match kind {
            FieldKind::Scalar { datatype } => self matches ValueView::Scalar(scalar)
                && scalar.datatype == datatype,
            FieldKind::DenseArray { datatype, ndim } => self matches ValueView::Array(array)
                && array.datatype == datatype && array.shape.len() == ndim && array.well_formed(),
            FieldKind::NestedAggregate { aggregate } => self matches ValueView::Aggregate(values)
                && values.len() == aggregate.fields.len() && forall|i: int|
                0 <= i < values.len() ==> (#[trigger] values[i]).conforms(aggregate.fields[i].kind),
            FieldKind::LazyArrayHandle { datatype, ndim } => self matches ValueView::Lazy(lazy)
                && lazy.datatype == datatype && lazy.ndim == ndim && lazy.checked(),
        }
    }
}

/// The values are ones that the fields of the aggregate can hold, one for each field.
pub open spec fn record_conforms(values: Seq<ValueView>, aggregate: Aggregate) -> bool {
    ValueView::Aggregate(values).conforms(FieldKind::NestedAggregate { aggregate })
}

impl Value {
    /// Whether a field of the given kind can hold the value.
    pub fn conforms(&self, kind: &FieldKind) -> (fits: bool)
        ensures
            fits == self@.conforms(*kind),
        decreases self,
    {
        match (self, kind) {
            (Value::Scalar(scalar), FieldKind::Scalar { datatype }) => scalar.datatype.same(*datatype),
            (Value::Array(array), FieldKind::DenseArray { datatype, ndim }) => {
                proof {
                    use_type_invariant(array);
                }
                array.datatype().same(*datatype) && array.ndim() == *ndim
            },
            (Value::Aggregate(values), FieldKind::NestedAggregate { aggregate }) => {
                proof {
                    view_of_aggregate(*values);
                }
                record_conforms_to(values, aggregate)
            },
            (Value::Lazy(lazy), FieldKind::LazyArrayHandle { datatype, ndim }) => {
                proof {
                    use_type_invariant(lazy);
                }
                lazy.datatype().same(*datatype) && lazy.ndim() == *ndim
            },
            _ => false,
        }
    }
}

/// Whether the fields of the aggregate can hold the values, one each.
pub fn record_conforms_to(values: &Vec<Value>, aggregate: &Aggregate) -> (fits: bool)
    ensures
        fits == record_conforms(views(values@), *aggregate),
    decreases values,
{
    if values.len() != aggregate.fields.len() {
        return false;
    }
    let mut i: usize = 0;
    while i < values.len()
        invariant
            i <= values.len(),
            values.len() == aggregate.fields.len(),
            forall|j: int| 0 <= j < i ==> (#[trigger] views(values@)[j]).conforms(aggregate.fields[j].kind),
        decreases values.len() - i,
    {
        if !values[i].conforms(&aggregate.fields[i].kind) {
            assert(!views(values@)[i as int].conforms(aggregate.fields[i as int].kind));
            return false;
        }
        i += 1;
    }
    true
}

} // verus!
