//! What is asked of the store. The store itself is not part of this library: a pass hands out
//! one request at a time, whoever holds the store carries it out and hands back what the store
//! answered, and the pass decides what follows.
//!
//! A node is addressed by its path: the names of the groups that lead to it from the group
//! that the pass works on, and its own name last.

use crate::aggregate::Scalar;
use crate::array::{ArrayView, Datatype, NdArray};
use crate::error::{Error, ErrorKind, ErrorView, StoreError};
use crate::lazy_array::{Dataset, DatasetView};
use vstd::prelude::*;

verus! {

/// The name of the node at the end of a path; empty for the empty path.
pub open spec fn node_name(path: Seq<Seq<char>>) -> Seq<char> {
    if path.len() > 0 {
        path.last()
    } else {
        Seq::empty()
    }
}

/// One operation of the store that a write pass asks for.
#[derive(Debug)]
pub enum WriteRequest {
    /// Open the group at `path`, which is there.
    OpenGroup { path: Vec<String> },
    /// Create the group at `path`, which is not there.
    CreateGroup { path: Vec<String> },
    /// Open the dataset at `path`, which is there.
    OpenDataset { path: Vec<String> },
    /// Create a dataset at `path`, which is not there, for elements of the given type in the
    /// given shape.
    CreateDataset { path: Vec<String>, datatype: Datatype, shape: Vec<usize> },
    /// Open the attribute at `path`, which is there.
    OpenAttribute { path: Vec<String> },
    /// Create an attribute at `path`, which is not there, for a value of the given type.
    CreateAttribute { path: Vec<String>, datatype: Datatype },
    /// Store the array in the dataset at `path`, which the request before opened or created.
    WriteArray { path: Vec<String>, array: NdArray },
    /// Store the value in the attribute at `path`, which the request before opened or created.
    WriteScalar { path: Vec<String>, scalar: Scalar },
}

/// A request of a write pass as a mathematical value.
pub enum WriteRequestView {
    /// Open a group.
    OpenGroup { path: Seq<Seq<char>> },
    /// Create a group.
    CreateGroup { path: Seq<Seq<char>> },
    /// Open a dataset.
    OpenDataset { path: Seq<Seq<char>> },
    /// Create a dataset.
    CreateDataset { path: Seq<Seq<char>>, datatype: Datatype, shape: Seq<usize> },
    /// Open an attribute.
    OpenAttribute { path: Seq<Seq<char>> },
    /// Create an attribute.
    CreateAttribute { path: Seq<Seq<char>>, datatype: Datatype },
    /// Store an array.
    WriteArray { path: Seq<Seq<char>>, array: ArrayView },
    /// Store a value.
    WriteScalar { path: Seq<Seq<char>>, scalar: Scalar },
}

impl WriteRequestView {
    /// The node that the request is about.
    pub open spec fn path(self) -> Seq<Seq<char>> {
        match self {
            WriteRequestView::OpenGroup { path } => path,
            WriteRequestView::CreateGroup { path } => path,
            WriteRequestView::OpenDataset { path } => path,
            WriteRequestView::CreateDataset { path, .. } => path,
            WriteRequestView::OpenAttribute { path } => path,
            WriteRequestView::CreateAttribute { path, .. } => path,
            WriteRequestView::WriteArray { path, .. } => path,
            WriteRequestView::WriteScalar { path, .. } => path,
        }
    }

    /// The kind of error that the pass ends with when the store refuses the request.
    pub open spec fn failure_kind(self) -> ErrorKind {
        match self {
            WriteRequestView::OpenGroup { .. } => ErrorKind::MissingGroup,
            WriteRequestView::CreateGroup { .. } => ErrorKind::CreateGroup,
            WriteRequestView::OpenDataset { .. } => ErrorKind::FetchDataset,
            WriteRequestView::CreateDataset { .. } => ErrorKind::CreateDataset,
            WriteRequestView::OpenAttribute { .. } => ErrorKind::FetchAttribute,
            WriteRequestView::CreateAttribute { .. } => ErrorKind::CreateAttribute,
            WriteRequestView::WriteArray { .. } => ErrorKind::WriteArray,
            WriteRequestView::WriteScalar { .. } => ErrorKind::WriteAttribute,
        }
    }

    /// The error that the pass ends with when the store refuses the request with `cause`.
    pub open spec fn failure(self, cause: Seq<char>) -> ErrorView {
        ErrorView::context(self.failure_kind(), node_name(self.path()), cause)
    }
}

impl View for WriteRequest {
    type V = WriteRequestView;

    open spec fn view(&self) -> WriteRequestView {
        match self {
            WriteRequest::OpenGroup { path } => WriteRequestView::OpenGroup {
                path: path.deep_view(),
            },
            WriteRequest::CreateGroup { path } => WriteRequestView::CreateGroup {
                path: path.deep_view(),
            },
            WriteRequest::OpenDataset { path } => WriteRequestView::OpenDataset {
                path: path.deep_view(),
            },
            WriteRequest::CreateDataset { path, datatype, shape } => WriteRequestView::CreateDataset {
                path: path.deep_view(),
                datatype: *datatype,
                shape: shape@,
            },
            WriteRequest::OpenAttribute { path } => WriteRequestView::OpenAttribute {
                path: path.deep_view(),
            },
            WriteRequest::CreateAttribute { path, datatype } => WriteRequestView::CreateAttribute {
                path: path.deep_view(),
                datatype: *datatype,
            },
            WriteRequest::WriteArray { path, array } => WriteRequestView::WriteArray {
                path: path.deep_view(),
                array: array@,
            },
            WriteRequest::WriteScalar { path, scalar } => WriteRequestView::WriteScalar {
                path: path.deep_view(),
                scalar: *scalar,
            },
        }
    }
}

/// The name at the end of a path.
fn name_of(path: &Vec<String>) -> (name: &str)
    ensures
        name@ == node_name(path.deep_view()),
{
    if path.len() > 0 {
        let name = path[path.len() - 1].as_str();
        assert(path.deep_view().last() == path[path.len() - 1].deep_view());
        name
    } else {
        let name = "";
        proof {
            reveal_strlit("");
        }
        assert(name@ =~= Seq::<char>::empty());
        name
    }
}

impl WriteRequest {
    /// The node that the request is about.
    pub fn path(&self) -> (path: &Vec<String>)
        ensures
            path.deep_view() == self@.path(),
    {
        match self {
            WriteRequest::OpenGroup { path } => path,
            WriteRequest::CreateGroup { path } => path,
            WriteRequest::OpenDataset { path } => path,
            WriteRequest::CreateDataset { path, .. } => path,
            WriteRequest::OpenAttribute { path } => path,
            WriteRequest::CreateAttribute { path, .. } => path,
            WriteRequest::WriteArray { path, .. } => path,
            WriteRequest::WriteScalar { path, .. } => path,
        }
    }

    /// The error that the pass ends with when the store refuses the request with `cause`.
    pub fn failure(&self, cause: StoreError) -> (error: Error)
        ensures
            error@ == self@.failure(cause@),
    {
        let kind = match self {
            WriteRequest::OpenGroup { .. } => ErrorKind::MissingGroup,
            WriteRequest::CreateGroup { .. } => ErrorKind::CreateGroup,
            WriteRequest::OpenDataset { .. } => ErrorKind::FetchDataset,
            WriteRequest::CreateDataset { .. } => ErrorKind::CreateDataset,
            WriteRequest::OpenAttribute { .. } => ErrorKind::FetchAttribute,
            WriteRequest::CreateAttribute { .. } => ErrorKind::CreateAttribute,
            WriteRequest::WriteArray { .. } => ErrorKind::WriteArray,
            WriteRequest::WriteScalar { .. } => ErrorKind::WriteAttribute,
        };
        Error::from_field_name(kind, name_of(self.path()), cause)
    }
}

/// One operation of the store that a read pass asks for.
#[derive(Debug)]
pub enum ReadRequest {
    /// Open the group at `path`.
    OpenGroup { path: Vec<String> },
    /// Open the dataset at `path`.
    OpenDataset { path: Vec<String> },
    /// Open the attribute at `path`.
    OpenAttribute { path: Vec<String> },
    /// Read the whole dataset at `path`, which the request before opened, as an array of
    /// elements of the given type with the given number of axes.
    ReadArray { path: Vec<String>, datatype: Datatype, ndim: usize },
    /// Read the attribute at `path`, which the request before opened, as a value of the given
    /// type.
    ReadScalar { path: Vec<String>, datatype: Datatype },
    /// Describe the dataset at `path`, which the request before opened. The pass will hold the
    /// description against the given element type and number of axes.
    Describe { path: Vec<String>, datatype: Datatype, ndim: usize },
}

/// A request of a read pass as a mathematical value.
pub enum ReadRequestView {
    /// Open a group.
    OpenGroup { path: Seq<Seq<char>> },
    /// Open a dataset.
    OpenDataset { path: Seq<Seq<char>> },
    /// Open an attribute.
    OpenAttribute { path: Seq<Seq<char>> },
    /// Read a whole dataset.
    ReadArray { path: Seq<Seq<char>>, datatype: Datatype, ndim: usize },
    /// Read an attribute.
    ReadScalar { path: Seq<Seq<char>>, datatype: Datatype },
    /// Describe a dataset.
    Describe { path: Seq<Seq<char>>, datatype: Datatype, ndim: usize },
}

/// What the store hands back when it has carried out a request of a read pass.
#[derive(Debug)]
pub enum Reply {
    /// The node is open.
    Opened,
    /// The array that a dataset holds.
    Array(NdArray),
    /// The value that an attribute holds.
    Scalar(Scalar),
    /// What the store tells of a dataset.
    Dataset(Dataset),
}

/// A reply as a mathematical value.
pub enum ReplyView {
    /// The node is open.
    Opened,
    /// The array that a dataset holds.
    Array(ArrayView),
    /// The value that an attribute holds.
    Scalar(Scalar),
    /// What the store tells of a dataset.
    Dataset(DatasetView),
}

impl View for Reply {
    type V = ReplyView;

    open spec fn view(&self) -> ReplyView {
        match self {
            Reply::Opened => ReplyView::Opened,
            Reply::Array(array) => ReplyView::Array(array@),
            Reply::Scalar(scalar) => ReplyView::Scalar(*scalar),
            Reply::Dataset(dataset) => ReplyView::Dataset(dataset@),
        }
    }
}

impl ReadRequestView {
    /// The node that the request is about.
    pub open spec fn path(self) -> Seq<Seq<char>> {
        match self {
            ReadRequestView::OpenGroup { path } => path,
            ReadRequestView::OpenDataset { path } => path,
            ReadRequestView::OpenAttribute { path } => path,
            ReadRequestView::ReadArray { path, .. } => path,
            ReadRequestView::ReadScalar { path, .. } => path,
            ReadRequestView::Describe { path, .. } => path,
        }
    }

    /// The kind of error that the pass ends with when the store refuses the request.
    pub open spec fn failure_kind(self) -> ErrorKind {
        match self {
            ReadRequestView::OpenGroup { .. } => ErrorKind::MissingGroup,
            ReadRequestView::OpenDataset { .. } => ErrorKind::MissingDataset,
            ReadRequestView::OpenAttribute { .. } => ErrorKind::MissingAttribute,
            ReadRequestView::ReadArray { .. } => ErrorKind::SerializeArray,
            ReadRequestView::ReadScalar { .. } => ErrorKind::SerializeAttribute,
            ReadRequestView::Describe { .. } => ErrorKind::MissingDatatype,
        }
    }

    /// The error that the pass ends with when the store refuses the request with `cause`.
    pub open spec fn failure(self, cause: Seq<char>) -> ErrorView {
        ErrorView::context(self.failure_kind(), node_name(self.path()), cause)
    }

    /// The reply is one that the store gives to this request: that the node is open to a
    /// request to open it, an array of the element type and number of axes asked for to a
    /// request for an array, a value of the type asked for to a request for a value, and a
    /// description to a request for one.
    pub open spec fn answered_by(self, reply: ReplyView) -> bool {
        match self {
            ReadRequestView::OpenGroup { .. } => reply is Opened,
            ReadRequestView::OpenDataset { .. } => reply is Opened,
            ReadRequestView::OpenAttribute { .. } => reply is Opened,
            ReadRequestView::ReadArray { datatype, ndim, .. } => reply matches ReplyView::Array(
                array,
            ) && array.datatype == datatype && array.shape.len() == ndim,
            ReadRequestView::ReadScalar { datatype, .. } => reply matches ReplyView::Scalar(scalar)
                && scalar.datatype == datatype,
            ReadRequestView::Describe { .. } => reply is Dataset,
        }
    }
}

impl View for ReadRequest {
    type V = ReadRequestView;

    open spec fn view(&self) -> ReadRequestView {
        match self {
            ReadRequest::OpenGroup { path } => ReadRequestView::OpenGroup {
                path: path.deep_view(),
            },
            ReadRequest::OpenDataset { path } => ReadRequestView::OpenDataset {
                path: path.deep_view(),
            },
            ReadRequest::OpenAttribute { path } => ReadRequestView::OpenAttribute {
                path: path.deep_view(),
            },
            ReadRequest::ReadArray { path, datatype, ndim } => ReadRequestView::ReadArray {
                path: path.deep_view(),
                datatype: *datatype,
                ndim: *ndim,
            },
            ReadRequest::ReadScalar { path, datatype } => ReadRequestView::ReadScalar {
                path: path.deep_view(),
                datatype: *datatype,
            },
            ReadRequest::Describe { path, datatype, ndim } => ReadRequestView::Describe {
                path: path.deep_view(),
                datatype: *datatype,
                ndim: *ndim,
            },
        }
    }
}

impl ReadRequest {
    /// The node that the request is about.
    pub fn path(&self) -> (path: &Vec<String>)
        ensures
            path.deep_view() == self@.path(),
    {
        match self {
            ReadRequest::OpenGroup { path } => path,
            ReadRequest::OpenDataset { path } => path,
            ReadRequest::OpenAttribute { path } => path,
            ReadRequest::ReadArray { path, .. } => path,
            ReadRequest::ReadScalar { path, .. } => path,
            ReadRequest::Describe { path, .. } => path,
        }
    }

    /// The error that the pass ends with when the store refuses the request with `cause`.
    pub fn failure(&self, cause: StoreError) -> (error: Error)
        ensures
            error@ == self@.failure(cause@),
    {
        let kind = match self {
            ReadRequest::OpenGroup { .. } => ErrorKind::MissingGroup,
            ReadRequest::OpenDataset { .. } => ErrorKind::MissingDataset,
            ReadRequest::OpenAttribute { .. } => ErrorKind::MissingAttribute,
            ReadRequest::ReadArray { .. } => ErrorKind::SerializeArray,
            ReadRequest::ReadScalar { .. } => ErrorKind::SerializeAttribute,
            ReadRequest::Describe { .. } => ErrorKind::MissingDatatype,
        };
        Error::from_field_name(kind, name_of(self.path()), cause)
    }

    /// Whether the reply is one that the store gives to this request.
    pub fn answered_by(&self, reply: &Reply) -> (fits: bool)
        ensures
            fits == self@.answered_by(reply@),
    {
        match (self, reply) {
            (ReadRequest::OpenGroup { .. }, Reply::Opened) => true,
            (ReadRequest::OpenDataset { .. }, Reply::Opened) => true,
            (ReadRequest::OpenAttribute { .. }, Reply::Opened) => true,
            (ReadRequest::ReadArray { datatype, ndim, .. }, Reply::Array(array)) => {
                array.datatype().same(*datatype) && array.ndim()
                    == *ndim
            },
            (
                ReadRequest::ReadScalar { datatype, .. },
                Reply::Scalar(scalar),
            ) => scalar.datatype.same(*datatype),
            (ReadRequest::Describe { .. }, Reply::Dataset(_)) => true,
            _ => false,
        }
    }
}

} // verus!
