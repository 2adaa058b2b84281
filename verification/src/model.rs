//! The store that the passes are designed against, as a mathematical value: it keeps what it
//! is given, hands it back when asked, refuses to create what is there and to open what is
//! not. What is proved of a pass and this store is proved of a real store as far as the real
//! store behaves like this one.

use crate::aggregate::ValueView;
use crate::error::ErrorView;
use crate::lazy_array::DatasetView;
use crate::read::{read_plan, record_assembled, ReadPassView};
use crate::store::{ReadRequestView, ReplyView, WriteRequestView};
use crate::write::WritePassView;
use vstd::prelude::*;

verus! {

/// The kinds of node.
pub enum NodeKind {
    /// A group.
    Group,
    /// A dataset.
    Dataset,
    /// An attribute.
    Attribute,
}

impl WriteRequestView {
    /// The kind of node that the request opens or creates, if it does either.
    pub open spec fn reaches(self) -> Option<NodeKind> {
        match self {
            WriteRequestView::OpenGroup { .. } => Some(NodeKind::Group),
            WriteRequestView::CreateGroup { .. } => Some(NodeKind::Group),
            WriteRequestView::OpenDataset { .. } => Some(NodeKind::Dataset),
            WriteRequestView::CreateDataset { .. } => Some(NodeKind::Dataset),
            WriteRequestView::OpenAttribute { .. } => Some(NodeKind::Attribute),
            WriteRequestView::CreateAttribute { .. } => Some(NodeKind::Attribute),
            WriteRequestView::WriteArray { .. } => None,
            WriteRequestView::WriteScalar { .. } => None,
        }
    }

    /// The request creates a node.
    pub open spec fn creates(self) -> bool {
        self is CreateGroup || self is CreateDataset || self is CreateAttribute
    }

    /// What the request stores in a node, if it stores anything.
    pub open spec fn stores(self) -> Option<ReplyView> {
        match self {
            WriteRequestView::WriteArray { array, .. } => Some(ReplyView::Array(array)),
            WriteRequestView::WriteScalar { scalar, .. } => Some(ReplyView::Scalar(scalar)),
            _ => None,
        }
    }
}

/// The kind of the node at `path` once the requests have been carried out: that of the last
/// request that opened or created a node there.
pub open spec fn node_at(written: Seq<WriteRequestView>, path: Seq<Seq<char>>) -> Option<NodeKind>
    decreases written.len(),
{
    if written.len() == 0 {
        None
    } else if written.last().path() == path && written.last().reaches() is Some {
        written.last().reaches()
    } else {
        node_at(written.drop_last(), path)
    }
}

/// What the node at `path` holds once the requests have been carried out: what the last request
/// that stored something there stored.
pub open spec fn content_at(written: Seq<WriteRequestView>, path: Seq<Seq<char>>) -> Option<
    ReplyView,
>
    decreases written.len(),
{
    if written.len() == 0 {
        None
    } else if written.last().path() == path && written.last().stores() is Some {
        written.last().stores()
    } else {
        content_at(written.drop_last(), path)
    }
}

/// A store: the requests of write passes that it has carried out, in order, and the datasets
/// that it held before, each with what it tells of it.
pub struct StoreModel {
    /// The requests that the store has carried out.
    pub written: Seq<WriteRequestView>,
    /// What the store tells of the datasets that it held from the start.
    pub described: Map<Seq<Seq<char>>, DatasetView>,
}

impl StoreModel {
    /// The kind of the node at `path`, if there is one.
    pub open spec fn node(self, path: Seq<Seq<char>>) -> Option<NodeKind> {
        match node_at(self.written, path) {
            Some(kind) => Some(kind),
            None => if self.described.dom().contains(path) {
                Some(NodeKind::Dataset)
            } else {
                None
            },
        }
    }

    /// The store after it has carried out the request, or nothing if it refuses: it creates no
    /// node where one is, opens none where none of that kind is, and stores into a dataset or
    /// an attribute only.
    pub open spec fn carries_out(self, request: WriteRequestView) -> Option<StoreModel> {
        let done = Some(StoreModel { written: self.written.push(request), ..self });
        match request.reaches() {
            Some(kind) => if request.creates() {
                if self.node(request.path()) is None {
                    done
                } else {
                    None
                }
            } else {
                if self.node(request.path()) == Some(kind) {
                    done
                } else {
                    None
                }
            },
            None => match (request, self.node(request.path())) {
                (WriteRequestView::WriteArray { .. }, Some(NodeKind::Dataset)) => done,
                (WriteRequestView::WriteScalar { .. }, Some(NodeKind::Attribute)) => done,
                _ => None,
            },
        }
    }

    /// What the store answers to a request of a read pass, or nothing if it refuses: it opens
    /// what is there, hands back what was stored last if that is of the type asked for, and
    /// describes the datasets that it held from the start.
    pub open spec fn answers(self, request: ReadRequestView) -> Option<ReplyView> {
        match request {
            ReadRequestView::OpenGroup { path } => if self.node(path) == Some(NodeKind::Group) {
                Some(ReplyView::Opened)
            } else {
                None
            },
            ReadRequestView::OpenDataset { path } => if self.node(path) == Some(NodeKind::Dataset) {
                Some(ReplyView::Opened)
            } else {
                None
            },
            ReadRequestView::OpenAttribute { path } => if self.node(path) == Some(
                NodeKind::Attribute,
            ) {
                Some(ReplyView::Opened)
            } else {
                None
            },
            ReadRequestView::ReadArray { path, .. } | ReadRequestView::ReadScalar { path, .. } => {
                match content_at(self.written, path) {
                    Some(reply) => if request.answered_by(reply) {
                        Some(reply)
                    } else {
                        None
                    },
                    None => None,
                }
            },
            ReadRequestView::Describe { path, .. } => if self.described.dom().contains(path) {
                Some(ReplyView::Dataset(self.described[path]))
            } else {
                None
            },
        }
    }
}

/// A write pass and a store after the pass has run to its end on the store, and what the pass
/// reports. Where the store refuses, it says `refusal`.
pub open spec fn write_run(pass: WritePassView, store: StoreModel, refusal: Seq<char>) -> (
    WritePassView,
    StoreModel,
    Result<(), ErrorView>,
)
    decreases pass.requests.len() - pass.answered,
{
    match pass.pending() {
        None => (pass, store, Ok(())),
        Some(request) => match store.carries_out(request) {
            None => (pass.advanced(Err(refusal)).0, store, pass.advanced(Err(refusal)).1),
            Some(after) => write_run(pass.advanced(Ok(())).0, after, refusal),
        },
    }
}

/// A read pass after it has run to its end on a store, and what the pass reports. Where the
/// store refuses, it says `refusal`.
pub open spec fn read_run(pass: ReadPassView, store: StoreModel, refusal: Seq<char>) -> (
    ReadPassView,
    Result<(), ErrorView>,
)
    decreases read_plan(pass.aggregate).len() - pass.received.len(),
{
    match pass.pending() {
        None => (pass, Ok(())),
        Some(request) => {
            let outcome = match store.answers(request) {
                Some(reply) => Ok(reply),
                None => Err(refusal),
            };
            let (next, report) = pass.advanced(outcome);
            if report is Ok {
                read_run(next, store, refusal)
            } else {
                (next, report)
            }
        },
    }
}

/// What reading an aggregate from a store gives: the values of the fields, or the error that
/// ended the pass.
pub open spec fn read_outcome(
    aggregate: crate::aggregate::Aggregate,
    store: StoreModel,
    refusal: Seq<char>,
) -> Result<Seq<ValueView>, ErrorView> {
    let start = ReadPassView { aggregate, received: Seq::empty(), failed: false };
    let (end, report) = read_run(start, store, refusal);
    match report {
        Ok(_) => Ok(record_assembled(aggregate, end.received)),
        Err(error) => Err(error),
    }
}

/// What writing the values of an aggregate into a store gives: the store afterwards, and the
/// error that ended the pass if one did.
pub open spec fn write_outcome(
    values: Seq<ValueView>,
    aggregate: crate::aggregate::Aggregate,
    store: StoreModel,
    refusal: Seq<char>,
) -> (StoreModel, Result<(), ErrorView>) {
    let start = WritePassView {
        requests: crate::write::write_plan(values, aggregate),
        answered: 0,
        failed: false,
    };
    let (_, after, report) = write_run(start, store, refusal);
    (after, report)
}

} // verus!
