//! Writing an aggregate: which operations of the store it takes, in which order, and what
//! becomes of the pass when the store refuses one.

use crate::aggregate::{record_conforms, views, Aggregate, Field, FieldKind, Value, ValueView};
use crate::array::ArrayType;
use crate::error::{Error, ErrorView, StoreError};
use crate::lazy_array::viewed;
use crate::policy::TransposeOpts;
use crate::store::{WriteRequest, WriteRequestView};
use vstd::prelude::*;

verus! {

/// What writing one value into the group at `group`, under the name `name`, asks of the store:
/// - a scalar is stored into an attribute, an array into a dataset, the array with its axes
///   reversed if `transpose` is set;
/// - the fields of a nested aggregate are written into a child group;
/// - the node is opened if `mutate_on_write` is set, and created if not;
/// - a handle on an array in the store asks for nothing: what was written through it is there;
/// - `transpose` means nothing to a scalar and to a nested aggregate, whose fields follow the
///   nested aggregate.
pub open spec fn write_group_plan(
    value: ValueView,
    kind: FieldKind,
    group: Seq<Seq<char>>,
    name: Seq<char>,
    transpose: bool,
    mutate_on_write: bool,
) -> Seq<WriteRequestView>
    decreases kind, 0nat,
{
    let path = group.push(name);
    match kind {
        FieldKind::Scalar { datatype } => seq![
            if mutate_on_write {
                WriteRequestView::OpenAttribute { path }
            } else {
                WriteRequestView::CreateAttribute { path, datatype }
            },
            WriteRequestView::WriteScalar { path, scalar: value->Scalar_0 },
        ],
        FieldKind::DenseArray { .. } => {
            let array = value->Array_0.transposed_if(transpose);
            seq![
                if mutate_on_write {
                    WriteRequestView::OpenDataset { path }
                } else {
                    WriteRequestView::CreateDataset {
                        path,
                        datatype: array.datatype,
                        shape: array.shape,
                    }
                },
                WriteRequestView::WriteArray { path, array },
            ]
        },
        FieldKind::NestedAggregate { aggregate } => seq![
            if mutate_on_write {
                WriteRequestView::OpenGroup { path }
            } else {
                WriteRequestView::CreateGroup { path }
            },
        ] + fields_write_plan(value->Aggregate_0, aggregate, path, aggregate.fields.len() as nat),
        FieldKind::LazyArrayHandle { .. } => Seq::empty(),
    }
}

/// What writing one field asks of the store, the field being declared in an aggregate with the
/// given defaults and stored in the group at `group`: what writing its value asks, under the
/// name that the field is written to, and with what holds for the field of the aggregate's
/// defaults.
pub open spec fn field_write_plan(
    value: ValueView,
    field: Field,
    transpose: TransposeOpts,
    mutate_on_write: bool,
    group: Seq<Seq<char>>,
) -> Seq<WriteRequestView>
    decreases field, 0nat,
{
    write_group_plan(
        value,
        field.kind,
        group,
        field.write_name(),
        field.write_transposed(transpose),
        field.mutated(mutate_on_write),
    )
}

/// What writing the first `count` fields of an aggregate asks of the store: what each field
/// asks, in the order of declaration.
pub open spec fn fields_write_plan(
    values: Seq<ValueView>,
    aggregate: Aggregate,
    group: Seq<Seq<char>>,
    count: nat,
) -> Seq<WriteRequestView>
    decreases aggregate, count,
{
    if count == 0 || count > aggregate.fields.len() {
        Seq::empty()
    } else {
        fields_write_plan(values, aggregate, group, (count - 1) as nat) + field_write_plan(
            values[count - 1],
            aggregate.fields[count - 1],
            aggregate.transpose,
            aggregate.mutate_on_write,
            group,
        )
    }
}

/// What writing an aggregate into the group that the pass works on asks of the store.
pub open spec fn write_plan(values: Seq<ValueView>, aggregate: Aggregate) -> Seq<WriteRequestView> {
    fields_write_plan(values, aggregate, Seq::empty(), aggregate.fields.len() as nat)
}

/// The requests, each as a mathematical value.
pub open spec fn write_requests_view(requests: Seq<WriteRequest>) -> Seq<WriteRequestView> {
    Seq::new(requests.len(), |i: int| requests[i]@)
}

/// A copy of a path.
pub(crate) fn copy_path(path: &Vec<String>) -> (copy: Vec<String>)
    ensures
        copy.deep_view() == path.deep_view(),
{
    let mut copy: Vec<String> = Vec::new();
    let mut i: usize = 0;
    while i < path.len()
        invariant
            i <= path.len(),
            copy.len() == i,
            forall|j: int| 0 <= j < i ==> copy[j]@ == path[j]@,
        decreases path.len() - i,
    {
        copy.push(path[i].clone());
        i += 1;
    }
    assert(copy.deep_view() =~= path.deep_view());
    copy
}

/// The path of the node `name` in the group at `group`.
pub(crate) fn child_path(group: &Vec<String>, name: String) -> (path: Vec<String>)
    ensures
        path.deep_view() == group.deep_view().push(name@),
{
    let mut path = copy_path(group);
    let ghost before = path;
    path.push(name);
    assert(path.deep_view() =~= group.deep_view().push(name@)) by {
        assert forall|j: int| 0 <= j < before.len() implies path[j].deep_view()
            == group.deep_view()[j] by {
            assert(before.deep_view()[j] == before[j].deep_view());
        }
    }
    path
}

fn push_request(out: &mut Vec<WriteRequest>, request: WriteRequest)
    ensures
        write_requests_view(final(out)@) == write_requests_view(old(out)@).push(request@),
{
    out.push(request);
    assert(write_requests_view(out@) =~= write_requests_view(old(out)@).push(request@));
}

/// Appends to `out` what writing one value asks of the store.
fn push_group_requests(
    out: &mut Vec<WriteRequest>,
    value: &Value,
    kind: &FieldKind,
    group: &Vec<String>,
    name: String,
    transpose: bool,
    mutate_on_write: bool,
)
    requires
        value@.conforms(*kind),
    ensures
        write_requests_view(final(out)@) == write_requests_view(old(out)@) + write_group_plan(
            value@,
            *kind,
            group.deep_view(),
            name@,
            transpose,
            mutate_on_write,
        ),
    decreases kind, 0nat,
{
    let ghost before = write_requests_view(out@);
    let ghost plan = write_group_plan(
        value@,
        *kind,
        group.deep_view(),
        name@,
        transpose,
        mutate_on_write,
    );
    match (kind, value) {
        (FieldKind::Scalar { datatype }, Value::Scalar(scalar)) => {
            let path = child_path(group, name);
            let target = copy_path(&path);
            if mutate_on_write {
                push_request(out, WriteRequest::OpenAttribute { path: target });
            } else {
                push_request(
                    out,
                    WriteRequest::CreateAttribute { path: target, datatype: *datatype },
                );
            }
            push_request(out, WriteRequest::WriteScalar { path, scalar: *scalar });
        },
        (FieldKind::DenseArray { .. }, Value::Array(array)) => {
            let path = child_path(group, name);
            let target = copy_path(&path);
            let array = array.clone().transposed_if(transpose);
            if mutate_on_write {
                push_request(out, WriteRequest::OpenDataset { path: target });
            } else {
                push_request(
                    out,
                    WriteRequest::CreateDataset {
                        path: target,
                        datatype: array.element_type(),
                        shape: array.shape().clone(),
                    },
                );
            }
            push_request(out, WriteRequest::WriteArray { path, array });
        },
        (FieldKind::NestedAggregate { aggregate }, Value::Aggregate(values)) => {
            let path = child_path(group, name);
            let target = copy_path(&path);
            if mutate_on_write {
                push_request(out, WriteRequest::OpenGroup { path: target });
            } else {
                push_request(out, WriteRequest::CreateGroup { path: target });
            }
            proof {
                crate::aggregate::view_of_aggregate(*values);
            }
            push_fields_requests(out, values, aggregate, &path);
        },
        (FieldKind::LazyArrayHandle { .. }, Value::Lazy(_)) => {},
        _ => {
            assert(false);
        },
    }
    assert(write_requests_view(out@) =~= before + plan);
}

/// What writing one value into the group at `group`, under the name `name`, asks of the store.
///
/// Transposing a handle on an array in the store has no meaning, so there is no such call.
pub fn write_group(
    value: &Value,
    kind: &FieldKind,
    group: &Vec<String>,
    name: &str,
    transpose: bool,
    mutate_on_write: bool,
) -> (requests: Vec<WriteRequest>)
    requires
        value@.conforms(*kind),
        kind.writable(transpose),
    ensures
        write_requests_view(requests@) == write_group_plan(
            value@,
            *kind,
            group.deep_view(),
            name@,
            transpose,
            mutate_on_write,
        ),
{
    let mut requests: Vec<WriteRequest> = Vec::new();
    assert(write_requests_view(requests@) =~= Seq::<WriteRequestView>::empty());
    push_group_requests(
        &mut requests,
        value,
        kind,
        group,
        name.to_owned(),
        transpose,
        mutate_on_write,
    );
    assert(write_requests_view(requests@) =~= write_group_plan(
        value@,
        *kind,
        group.deep_view(),
        name@,
        transpose,
        mutate_on_write,
    ));
    requests
}

/// Appends to `out` what writing the fields of an aggregate asks of the store.
fn push_fields_requests(
    out: &mut Vec<WriteRequest>,
    values: &Vec<Value>,
    aggregate: &Aggregate,
    group: &Vec<String>,
)
    requires
        record_conforms(views(values@), *aggregate),
    ensures
        write_requests_view(final(out)@) == write_requests_view(old(out)@) + fields_write_plan(
            views(values@),
            *aggregate,
            group.deep_view(),
            aggregate.fields.len() as nat,
        ),
    decreases aggregate, 1nat,
{
    let ghost before = write_requests_view(out@);
    let mut i: usize = 0;
    while i < aggregate.fields.len()
        invariant
            i <= aggregate.fields.len(),
            record_conforms(views(values@), *aggregate),
            write_requests_view(out@) == before + fields_write_plan(
                views(values@),
                *aggregate,
                group.deep_view(),
                i as nat,
            ),
        decreases aggregate.fields.len() - i,
    {
        assert(views(values@)[i as int].conforms(aggregate.fields[i as int].kind));
        let info = aggregate.fields[i].write_info(aggregate.transpose, aggregate.mutate_on_write);
        assert(field_write_plan(
            views(values@)[i as int],
            aggregate.fields[i as int],
            aggregate.transpose,
            aggregate.mutate_on_write,
            group.deep_view(),
        ) == write_group_plan(
            values[i as int]@,
            aggregate.fields[i as int].kind,
            group.deep_view(),
            info.array_name@,
            info.transpose,
            info.mutate_on_write,
        ));
        push_group_requests(
            out,
            &values[i],
            &aggregate.fields[i].kind,
            group,
            info.array_name,
            info.transpose,
            info.mutate_on_write,
        );
        i += 1;
        assert(write_requests_view(out@) =~= before + fields_write_plan(
            views(values@),
            *aggregate,
            group.deep_view(),
            i as nat,
        ));
    }
}

/// A write pass as a mathematical value.
pub struct WritePassView {
    /// Everything that the pass asks of the store, in order.
    pub requests: Seq<WriteRequestView>,
    /// How many of the requests the store has carried out.
    pub answered: nat,
    /// Whether the store has refused a request.
    pub failed: bool,
}

impl WritePassView {
    /// The request that is to be carried out next: the first one that has not been carried
    /// out, as long as the store has refused none.
    pub open spec fn pending(self) -> Option<WriteRequestView> {
        if !self.failed && self.answered < self.requests.len() {
            Some(self.requests[self.answered as int])
        } else {
            None
        }
    }

    /// The store has carried out every request.
    pub open spec fn complete(self) -> bool {
        !self.failed && self.answered == self.requests.len()
    }

    /// The pass after the store has answered the pending request, and what the pass has to
    /// report: nothing if the store has carried the request out, else the error that ends the
    /// pass. What was written before stays written.
    pub open spec fn advanced(self, outcome: Result<(), Seq<char>>) -> (WritePassView, Result<
        (),
        ErrorView,
    >) {
        match outcome {
            Ok(_) => (WritePassView { answered: self.answered + 1, ..self }, Ok(())),
            Err(cause) => (
                WritePassView { failed: true, ..self },
                Err(self.requests[self.answered as int].failure(cause)),
            ),
        }
    }
}

/// The writing of one aggregate into one group of the store.
#[derive(Debug)]
pub struct WritePass {
    requests: Vec<WriteRequest>,
    answered: usize,
    failed: bool,
}

impl View for WritePass {
    type V = WritePassView;

    closed spec fn view(&self) -> WritePassView {
        WritePassView {
            requests: write_requests_view(self.requests@),
            answered: self.answered as nat,
            failed: self.failed,
        }
    }
}

impl WritePass {
    #[verifier::type_invariant]
    spec fn within(self) -> bool {
        self.answered <= self.requests.len()
    }

    /// Starts writing the values of the fields of an aggregate.
    pub fn new(aggregate: &Aggregate, values: &Vec<Value>) -> (pass: WritePass)
        requires
            aggregate.writable(),
            record_conforms(views(values@), *aggregate),
        ensures
            pass@ == (WritePassView {
                requests: write_plan(views(values@), *aggregate),
                answered: 0,
                failed: false,
            }),
    {
        let mut requests: Vec<WriteRequest> = Vec::new();
        let group: Vec<String> = Vec::new();
        assert(group.deep_view() =~= Seq::<Seq<char>>::empty());
        assert(write_requests_view(requests@) =~= Seq::<WriteRequestView>::empty());
        push_fields_requests(&mut requests, values, aggregate, &group);
        assert(write_requests_view(requests@) =~= write_plan(views(values@), *aggregate));
        WritePass { requests, answered: 0, failed: false }
    }

    /// The request that is to be carried out next, if the pass has not ended.
    pub fn pending(&self) -> (request: Option<&WriteRequest>)
        ensures
            match request {
                Some(request) => self@.pending() == Some(request@),
                None => self@.pending() is None,
            },
    {
        proof {
            use_type_invariant(self);
        }
        if !self.failed && self.answered < self.requests.len() {
            Some(&self.requests[self.answered])
        } else {
            None
        }
    }

    /// Whether the store has carried out every request.
    pub fn complete(&self) -> (complete: bool)
        ensures
            complete == self@.complete(),
    {
        !self.failed && self.answered == self.requests.len()
    }

    /// Takes what the store answered to the pending request, and gives the pass as it stands
    /// after that with what it has to report. A refusal ends the pass with the error for that
    /// request.
    pub fn advance(self, outcome: Result<(), StoreError>) -> (next: (WritePass, Result<(), Error>))
        requires
            self@.pending() is Some,
        ensures
            (next.0@, viewed(next.1)) == self@.advanced(
                match outcome {
                    Ok(_) => Ok(()),
                    Err(cause) => Err(cause@),
                },
            ),
    {
        proof {
            use_type_invariant(&self);
        }
        let WritePass { requests, answered, failed } = self;
        match outcome {
            Ok(_) => (WritePass { requests, answered: answered + 1, failed }, Ok(())),
            Err(cause) => {
                let error = requests[answered].failure(cause);
                (WritePass { requests, answered, failed: true }, Err(error))
            },
        }
    }
}

} // verus!
