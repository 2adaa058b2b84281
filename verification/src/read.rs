//! Reading an aggregate: which operations of the store it takes, in which order, what the pass
//! keeps of the store's answers, and the values it makes of them in the end.

use crate::aggregate::{record_conforms, views, Aggregate, Field, FieldKind, Value, ValueView};
use crate::array::reversed_well_formed;
use crate::error::{Error, ErrorView, StoreError};
use crate::lazy_array::{binding, viewed, LazyArray};
use crate::policy::TransposeOpts;
use crate::store::{ReadRequest, ReadRequestView, Reply, ReplyView};
use crate::write::{child_path, copy_path};
use vstd::prelude::*;

verus! {

/// How many requests reading one value takes.
pub open spec fn read_group_len(kind: FieldKind) -> nat
    decreases kind, 0nat,
{
    match kind {
        FieldKind::NestedAggregate { aggregate } => 1 + fields_read_len(
            aggregate,
            aggregate.fields.len() as nat,
        ),
        _ => 2,
    }
}

/// How many requests reading one field takes.
pub open spec fn field_read_len(field: Field) -> nat
    decreases field, 0nat,
{
    read_group_len(field.kind)
}

/// How many requests reading the first `count` fields of an aggregate takes.
pub open spec fn fields_read_len(aggregate: Aggregate, count: nat) -> nat
    decreases aggregate, count,
{
    if count == 0 || count > aggregate.fields.len() {
        0
    } else {
        fields_read_len(aggregate, (count - 1) as nat) + field_read_len(
            aggregate.fields[count - 1],
        )
    }
}

/// What reading one value from the group at `group`, under the name `name`, asks of the store:
/// - a scalar is read from an attribute, an array from a dataset;
/// - the fields of a nested aggregate are read from a child group;
/// - for a handle on an array in the store, the dataset is opened and described;
/// - every node is opened before anything is read from it.
pub open spec fn read_group_plan(kind: FieldKind, group: Seq<Seq<char>>, name: Seq<char>) -> Seq<
    ReadRequestView,
>
    decreases kind, 0nat,
{
    let path = group.push(name);
    match kind {
        FieldKind::Scalar { datatype } => seq![
            ReadRequestView::OpenAttribute { path },
            ReadRequestView::ReadScalar { path, datatype },
        ],
        FieldKind::DenseArray { datatype, ndim } => seq![
            ReadRequestView::OpenDataset { path },
            ReadRequestView::ReadArray { path, datatype, ndim },
        ],
        FieldKind::NestedAggregate { aggregate } => seq![ReadRequestView::OpenGroup { path }]
            + fields_read_plan(aggregate, path, aggregate.fields.len() as nat),
        FieldKind::LazyArrayHandle { datatype, ndim } => seq![
            ReadRequestView::OpenDataset { path },
            ReadRequestView::Describe { path, datatype, ndim },
        ],
    }
}

/// What reading one field asks of the store, the field being stored in the group at `group`:
/// what reading its value asks, under the name that the field is read from.
pub open spec fn field_read_plan(field: Field, group: Seq<Seq<char>>) -> Seq<ReadRequestView>
    decreases field, 0nat,
{
    read_group_plan(field.kind, group, field.read_name())
}

/// What reading the first `count` fields of an aggregate asks of the store: what each field
/// asks, in the order of declaration.
pub open spec fn fields_read_plan(aggregate: Aggregate, group: Seq<Seq<char>>, count: nat) -> Seq<
    ReadRequestView,
>
    decreases aggregate, count,
{
    if count == 0 || count > aggregate.fields.len() {
        Seq::empty()
    } else {
        fields_read_plan(aggregate, group, (count - 1) as nat) + field_read_plan(
            aggregate.fields[count - 1],
            group,
        )
    }
}

/// What reading an aggregate from the group that the pass works on asks of the store.
pub open spec fn read_plan(aggregate: Aggregate) -> Seq<ReadRequestView> {
    fields_read_plan(aggregate, Seq::empty(), aggregate.fields.len() as nat)
}

/// What the pass keeps of the reply to a request: nothing of a node that was opened, the array
/// or the value that was read, and of a dataset's description the handle that is bound to the
/// dataset, unless the dataset is not what the field declares.
pub open spec fn kept(request: ReadRequestView, reply: ReplyView) -> Result<
    Option<ValueView>,
    ErrorView,
> {
    match reply {
        ReplyView::Opened => Ok(None),
        ReplyView::Array(array) => Ok(Some(ValueView::Array(array))),
        ReplyView::Scalar(scalar) => Ok(Some(ValueView::Scalar(scalar))),
        ReplyView::Dataset(dataset) => match request {
            ReadRequestView::Describe { datatype, ndim, .. } => match binding(
                dataset,
                datatype,
                ndim,
            ) {
                Ok(lazy) => Ok(Some(ValueView::Lazy(lazy))),
                Err(error) => Err(error),
            },
            _ => Ok(None),
        },
    }
}

/// The value that was read, made of what the pass kept of the replies to the requests for it,
/// the first of which is at `from`. An array has its axes reversed if `transpose` is set;
/// to everything else `transpose` means nothing.
pub open spec fn read_group_value(
    kind: FieldKind,
    transpose: bool,
    received: Seq<Option<ValueView>>,
    from: int,
) -> ValueView
    decreases kind, 0nat,
{
    match kind {
        FieldKind::NestedAggregate { aggregate } => ValueView::Aggregate(
            fields_assembled(aggregate, received, from + 1, aggregate.fields.len() as nat),
        ),
        FieldKind::DenseArray { .. } => ValueView::Array(
            received[from + 1]->Some_0->Array_0.transposed_if(transpose),
        ),
        _ => received[from + 1]->Some_0,
    }
}

/// The value of one field, made of what the pass kept of the replies to the requests for the
/// field, the first of which is at `from`: the value that was read, with what holds for the
/// field of the aggregate's default.
pub open spec fn field_assembled(
    field: Field,
    transpose: TransposeOpts,
    received: Seq<Option<ValueView>>,
    from: int,
) -> ValueView
    decreases field, 0nat,
{
    read_group_value(field.kind, field.read_transposed(transpose), received, from)
}

/// The values of the first `count` fields of an aggregate, made of what the pass kept of the
/// replies to the requests for the aggregate, the first of which is at `from`.
pub open spec fn fields_assembled(
    aggregate: Aggregate,
    received: Seq<Option<ValueView>>,
    from: int,
    count: nat,
) -> Seq<ValueView>
    decreases aggregate, count,
{
    if count == 0 || count > aggregate.fields.len() {
        Seq::empty()
    } else {
        fields_assembled(aggregate, received, from, (count - 1) as nat).push(
            field_assembled(
                aggregate.fields[count - 1],
                aggregate.transpose,
                received,
                from + fields_read_len(aggregate, (count - 1) as nat),
            ),
        )
    }
}

/// The values of the fields of an aggregate, made of everything that a pass kept.
pub open spec fn record_assembled(aggregate: Aggregate, received: Seq<Option<ValueView>>) -> Seq<
    ValueView,
> {
    fields_assembled(aggregate, received, 0, aggregate.fields.len() as nat)
}

/// What was kept of the reply to a request is what is kept of a reply that answers it.
pub open spec fn keeps(request: ReadRequestView, item: Option<ValueView>) -> bool {
    match request {
        ReadRequestView::ReadArray { datatype, ndim, .. } => item matches Some(
            ValueView::Array(array),
        ) && array.datatype == datatype && array.shape.len() == ndim && array.well_formed(),
        ReadRequestView::ReadScalar { datatype, .. } => item matches Some(ValueView::Scalar(scalar))
            && scalar.datatype == datatype,
        ReadRequestView::Describe { datatype, ndim, .. } => item matches Some(ValueView::Lazy(lazy))
            && lazy.datatype == datatype && lazy.ndim == ndim && lazy.checked(),
        _ => item is None,
    }
}

/// What was kept for one value, from `from` on, is there and is of the kind of the value.
pub open spec fn kept_fits_group(kind: FieldKind, received: Seq<Option<ValueView>>, from: int) -> bool
    decreases kind, 0nat,
{
    &&& 0 <= from
    &&& from + read_group_len(kind) <= received.len()
    &&& match kind {
        FieldKind::NestedAggregate { aggregate } => kept_fits_fields(
            aggregate,
            received,
            from + 1,
            aggregate.fields.len() as nat,
        ),
        FieldKind::Scalar { datatype } => keeps(
            ReadRequestView::ReadScalar { path: Seq::empty(), datatype },
            received[from + 1],
        ),
        FieldKind::DenseArray { datatype, ndim } => keeps(
            ReadRequestView::ReadArray { path: Seq::empty(), datatype, ndim },
            received[from + 1],
        ),
        FieldKind::LazyArrayHandle { datatype, ndim } => keeps(
            ReadRequestView::Describe { path: Seq::empty(), datatype, ndim },
            received[from + 1],
        ),
    }
}

/// What was kept for one field, from `from` on, is there and is what the field declares.
pub open spec fn kept_fits_field(field: Field, received: Seq<Option<ValueView>>, from: int) -> bool
    decreases field, 0nat,
{
    kept_fits_group(field.kind, received, from)
}

/// What was kept for the first `count` fields of an aggregate, from `from` on, is there and is
/// what the fields declare.
pub open spec fn kept_fits_fields(
    aggregate: Aggregate,
    received: Seq<Option<ValueView>>,
    from: int,
    count: nat,
) -> bool
    decreases aggregate, count,
{
    if count == 0 || count > aggregate.fields.len() {
        0 <= from <= received.len()
    } else {
        &&& kept_fits_fields(aggregate, received, from, (count - 1) as nat)
        &&& kept_fits_field(
            aggregate.fields[count - 1],
            received,
            from + fields_read_len(aggregate, (count - 1) as nat),
        )
    }
}

/// The requests, each as a mathematical value.
pub open spec fn read_requests_view(requests: Seq<ReadRequest>) -> Seq<ReadRequestView> {
    Seq::new(requests.len(), |i: int| requests[i]@)
}

/// What was kept, each item as a mathematical value.
pub open spec fn kept_views(received: Seq<Option<Value>>) -> Seq<Option<ValueView>> {
    Seq::new(
        received.len(),
        |i: int|
            match received[i] {
                Some(value) => Some(value@),
                None => None,
            },
    )
}

/// Reading a field takes as many requests as its plan holds.
pub proof fn field_read_plan_len(field: Field, group: Seq<Seq<char>>)
    ensures
        field_read_plan(field, group).len() == field_read_len(field),
    decreases field, 0nat,
{
    match field.kind {
        FieldKind::NestedAggregate { aggregate } => {
            fields_read_plan_len(
                aggregate,
                group.push(field.read_name()),
                aggregate.fields.len() as nat,
            );
        },
        _ => {},
    }
}

/// Reading fields takes as many requests as their plan holds.
pub proof fn fields_read_plan_len(aggregate: Aggregate, group: Seq<Seq<char>>, count: nat)
    ensures
        fields_read_plan(aggregate, group, count).len() == fields_read_len(aggregate, count),
    decreases aggregate, count,
{
    if count == 0 || count > aggregate.fields.len() {
    } else {
        fields_read_plan_len(aggregate, group, (count - 1) as nat);
        field_read_plan_len(aggregate.fields[count - 1], group);
    }
}

/// Where a plan holds the requests for a field from `from` on, and what was kept is, item by
/// item, what is kept of answers to the plan, what was kept for the field fits the field.
proof fn field_block_fits(
    field: Field,
    group: Seq<Seq<char>>,
    plan: Seq<ReadRequestView>,
    received: Seq<Option<ValueView>>,
    from: int,
)
    requires
        0 <= from,
        from + field_read_len(field) <= received.len(),
        received.len() <= plan.len(),
        forall|k: int|
            0 <= k < field_read_len(field) ==> plan[from + k] == #[trigger] field_read_plan(
                field,
                group,
            )[k],
        forall|k: int| 0 <= k < received.len() ==> keeps(#[trigger] plan[k], received[k]),
    ensures
        kept_fits_field(field, received, from),
    decreases field, 0nat,
{
    let own = field_read_plan(field, group);
    field_read_plan_len(field, group);
    assert(plan[from + 0] == own[0]);
    match field.kind {
        FieldKind::NestedAggregate { aggregate } => {
            let path = group.push(field.read_name());
            let count = aggregate.fields.len() as nat;
            let inner = fields_read_plan(aggregate, path, count);
            fields_read_plan_len(aggregate, path, count);
            assert forall|k: int| 0 <= k < fields_read_len(aggregate, count) implies plan[from + 1
                + k] == #[trigger] inner[k] by {
                assert(plan[from + (k + 1)] == own[k + 1]);
            }
            fields_block_fits(aggregate, path, plan, received, from + 1, count);
        },
        _ => {
            assert(plan[from + 1] == own[1]);
            assert(keeps(plan[from + 1], received[from + 1]));
        },
    }
}

/// Where a plan holds the requests for the first `count` fields of an aggregate from `from`
/// on, and what was kept is, item by item, what is kept of answers to the plan, what was kept
/// for the fields fits them.
proof fn fields_block_fits(
    aggregate: Aggregate,
    group: Seq<Seq<char>>,
    plan: Seq<ReadRequestView>,
    received: Seq<Option<ValueView>>,
    from: int,
    count: nat,
)
    requires
        count <= aggregate.fields.len(),
        0 <= from,
        from + fields_read_len(aggregate, count) <= received.len(),
        received.len() <= plan.len(),
        forall|k: int|
            0 <= k < fields_read_len(aggregate, count) ==> plan[from + k]
                == #[trigger] fields_read_plan(aggregate, group, count)[k],
        forall|k: int| 0 <= k < received.len() ==> keeps(#[trigger] plan[k], received[k]),
    ensures
        kept_fits_fields(aggregate, received, from, count),
    decreases aggregate, count,
{
    if count > 0 {
        let before = (count - 1) as nat;
        let field = aggregate.fields[count - 1];
        let whole = fields_read_plan(aggregate, group, count);
        let front = fields_read_plan(aggregate, group, before);
        let own = field_read_plan(field, group);
        fields_read_plan_len(aggregate, group, before);
        field_read_plan_len(field, group);
        assert(whole == front + own);
        assert forall|k: int| 0 <= k < fields_read_len(aggregate, before) implies plan[from + k]
            == #[trigger] front[k] by {
            assert(whole[k] == front[k]);
        }
        fields_block_fits(aggregate, group, plan, received, from, before);
        let start = from + fields_read_len(aggregate, before);
        assert forall|k: int| 0 <= k < field_read_len(field) implies plan[start + k]
            == #[trigger] own[k] by {
            assert(whole[fields_read_len(aggregate, before) + k] == own[k]);
            assert(plan[from + (fields_read_len(aggregate, before) + k)] == whole[fields_read_len(
                aggregate,
                before,
            ) + k]);
        }
        field_block_fits(field, group, plan, received, start);
    }
}

fn push_request(out: &mut Vec<ReadRequest>, request: ReadRequest)
    ensures
        read_requests_view(final(out)@) == read_requests_view(old(out)@).push(request@),
{
    out.push(request);
    assert(read_requests_view(out@) =~= read_requests_view(old(out)@).push(request@));
}

/// Appends to `out` what reading one value asks of the store.
fn push_group_requests(
    out: &mut Vec<ReadRequest>,
    kind: &FieldKind,
    group: &Vec<String>,
    name: String,
)
    ensures
        read_requests_view(final(out)@) == read_requests_view(old(out)@) + read_group_plan(
            *kind,
            group.deep_view(),
            name@,
        ),
    decreases kind, 0nat,
{
    let ghost before = read_requests_view(out@);
    let ghost plan = read_group_plan(*kind, group.deep_view(), name@);
    let path = child_path(group, name);
    let target = copy_path(&path);
    match kind {
        FieldKind::Scalar { datatype } => {
            push_request(out, ReadRequest::OpenAttribute { path: target });
            push_request(out, ReadRequest::ReadScalar { path, datatype: *datatype });
        },
        FieldKind::DenseArray { datatype, ndim } => {
            push_request(out, ReadRequest::OpenDataset { path: target });
            push_request(out, ReadRequest::ReadArray { path, datatype: *datatype, ndim: *ndim });
        },
        FieldKind::NestedAggregate { aggregate } => {
            push_request(out, ReadRequest::OpenGroup { path: target });
            push_fields_requests(out, aggregate, &path);
        },
        FieldKind::LazyArrayHandle { datatype, ndim } => {
            push_request(out, ReadRequest::OpenDataset { path: target });
            push_request(out, ReadRequest::Describe { path, datatype: *datatype, ndim: *ndim });
        },
    }
    assert(read_requests_view(out@) =~= before + plan);
}

/// What reading one value from the group at `group`, under the name `name`, asks of the store.
/// What becomes of the answers is the matter of the pass.
///
/// Transposing a handle on an array in the store has no meaning, so there is no such call.
pub fn read_group(kind: &FieldKind, group: &Vec<String>, name: &str, transpose: bool) -> (requests:
    Vec<ReadRequest>)
    requires
        kind.readable(transpose),
    ensures
        read_requests_view(requests@) == read_group_plan(*kind, group.deep_view(), name@),
{
    let mut requests: Vec<ReadRequest> = Vec::new();
    assert(read_requests_view(requests@) =~= Seq::<ReadRequestView>::empty());
    push_group_requests(&mut requests, kind, group, name.to_owned());
    assert(read_requests_view(requests@) =~= read_group_plan(*kind, group.deep_view(), name@));
    requests
}

/// Appends to `out` what reading the fields of an aggregate asks of the store.
fn push_fields_requests(out: &mut Vec<ReadRequest>, aggregate: &Aggregate, group: &Vec<String>)
    ensures
        read_requests_view(final(out)@) == read_requests_view(old(out)@) + fields_read_plan(
            *aggregate,
            group.deep_view(),
            aggregate.fields.len() as nat,
        ),
    decreases aggregate, 1nat,
{
    let ghost before = read_requests_view(out@);
    let mut i: usize = 0;
    while i < aggregate.fields.len()
        invariant
            i <= aggregate.fields.len(),
            read_requests_view(out@) == before + fields_read_plan(
                *aggregate,
                group.deep_view(),
                i as nat,
            ),
        decreases aggregate.fields.len() - i,
    {
        let info = aggregate.fields[i].read_info(aggregate.transpose);
        assert(field_read_plan(aggregate.fields[i as int], group.deep_view()) == read_group_plan(
            aggregate.fields[i as int].kind,
            group.deep_view(),
            info.array_name@,
        ));
        push_group_requests(out, &aggregate.fields[i].kind, group, info.array_name);
        i += 1;
        assert(read_requests_view(out@) =~= before + fields_read_plan(
            *aggregate,
            group.deep_view(),
            i as nat,
        ));
    }
}

/// What is still to be taken from a pile of kept items, the next on top, each as a
/// mathematical value and in the order in which it was kept.
spec fn pile_views(pile: Seq<Option<Value>>) -> Seq<Option<ValueView>> {
    kept_views(pile).reverse()
}

/// Takes the next item from the pile.
fn take(pile: &mut Vec<Option<Value>>) -> (item: Option<Value>)
    requires
        old(pile).len() > 0,
    ensures
        pile_views(final(pile)@) == pile_views(old(pile)@).skip(1),
        pile_views(old(pile)@)[0] == match item {
            Some(value) => Some(value@),
            None => None,
        },
{
    let item = pile.pop();
    assert(pile_views(pile@) =~= pile_views(old(pile)@).skip(1));
    match item {
        Some(item) => item,
        None => vstd::pervasive::unreached(),
    }
}

/// All that was kept, piled up so that what was kept first is on top.
fn piled(received: Vec<Option<Value>>) -> (pile: Vec<Option<Value>>)
    ensures
        pile_views(pile@) == kept_views(received@),
{
    let mut received = received;
    let ghost all = received@;
    let mut pile: Vec<Option<Value>> = Vec::new();
    while received.len() > 0
        invariant
            received.len() <= all.len(),
            received@ == all.take(received.len() as int),
            pile@ == all.skip(received.len() as int).reverse(),
        decreases received.len(),
    {
        let ghost left = received.len() as int;
        let ghost under = pile@;
        let item = received.pop();
        match item {
            Some(item) => {
                assert(item == all[left - 1]);
                pile.push(item);
            },
            None => {},
        }
        assert(received@ =~= all.take(left - 1));
        assert(pile@ =~= all.skip(left - 1).reverse()) by {
            let facing = all.skip(left - 1).reverse();
            assert(pile@.len() == facing.len());
            assert forall|k: int| 0 <= k < facing.len() implies pile@[k] == facing[k] by {
                if k < under.len() {
                    assert(under[k] == all.skip(left).reverse()[k]);
                }
            }
        }
    }
    assert(pile_views(pile@) =~= kept_views(all));
    pile
}

/// The value that was read, made of what was kept for it, which is taken from the pile.
fn assemble_group(
    kind: &FieldKind,
    transpose: bool,
    pile: &mut Vec<Option<Value>>,
    Ghost(items): Ghost<Seq<Option<ValueView>>>,
    Ghost(from): Ghost<int>,
) -> (value: Value)
    requires
        kept_fits_group(*kind, items, from),
        pile_views(old(pile)@) == items.skip(from),
    ensures
        value@ == read_group_value(*kind, transpose, items, from),
        value@.conforms(*kind),
        pile_views(final(pile)@) == items.skip(from + read_group_len(*kind)),
    decreases kind, 0nat,
{
    assert(pile_views(pile@).len() == pile.len());
    assert(items.skip(from)[0] == items[from]);
    let _ = take(pile);
    assert(pile_views(pile@) =~= items.skip(from + 1));
    match kind {
        FieldKind::NestedAggregate { aggregate } => {
            let values = assemble_fields(aggregate, pile, Ghost(items), Ghost(from + 1));
            proof {
                crate::aggregate::view_of_aggregate(values);
            }
            Value::Aggregate(values)
        },
        FieldKind::DenseArray { .. } => {
            assert(pile_views(pile@).len() == pile.len());
            assert(items.skip(from + 1)[0] == items[from + 1]);
            let item = take(pile);
            assert(pile_views(pile@) =~= items.skip(from + 2));
            match item {
                Some(Value::Array(array)) => {
                    proof {
                        reversed_well_formed(array@);
                    }
                    Value::Array(array.transposed_if(transpose))
                },
                _ => vstd::pervasive::unreached(),
            }
        },
        _ => {
            assert(pile_views(pile@).len() == pile.len());
            assert(items.skip(from + 1)[0] == items[from + 1]);
            let item = take(pile);
            assert(pile_views(pile@) =~= items.skip(from + 2));
            match item {
                Some(value) => value,
                None => vstd::pervasive::unreached(),
            }
        },
    }
}

/// The values of the fields of an aggregate, made of what was kept for them, which is taken
/// from the pile.
fn assemble_fields(
    aggregate: &Aggregate,
    pile: &mut Vec<Option<Value>>,
    Ghost(items): Ghost<Seq<Option<ValueView>>>,
    Ghost(from): Ghost<int>,
) -> (values: Vec<Value>)
    requires
        kept_fits_fields(*aggregate, items, from, aggregate.fields.len() as nat),
        pile_views(old(pile)@) == items.skip(from),
    ensures
        views(values@) == fields_assembled(*aggregate, items, from, aggregate.fields.len() as nat),
        record_conforms(views(values@), *aggregate),
        pile_views(final(pile)@) == items.skip(
            from + fields_read_len(*aggregate, aggregate.fields.len() as nat),
        ),
    decreases aggregate, 1nat,
{
    let mut values: Vec<Value> = Vec::new();
    let mut i: usize = 0;
    assert(views(values@) =~= fields_assembled(*aggregate, items, from, 0));
    while i < aggregate.fields.len()
        invariant
            i <= aggregate.fields.len(),
            kept_fits_fields(*aggregate, items, from, aggregate.fields.len() as nat),
            pile_views(pile@) == items.skip(from + fields_read_len(*aggregate, i as nat)),
            values.len() == i,
            views(values@) == fields_assembled(*aggregate, items, from, i as nat),
            forall|j: int|
                0 <= j < i ==> (#[trigger] views(values@)[j]).conforms(aggregate.fields[j].kind),
        decreases aggregate.fields.len() - i,
    {
        proof {
            kept_fits_earlier(*aggregate, items, from, aggregate.fields.len() as nat, (i
                + 1) as nat);
        }
        let ghost before = views(values@);
        let info = aggregate.fields[i].read_info(aggregate.transpose);
        proof {
            let field = aggregate.fields[i as int];
            let at = from + fields_read_len(*aggregate, i as nat);
            assert(kept_fits_field(field, items, at));
            assert(kept_fits_group(field.kind, items, at));
            assert(field_read_len(field) == read_group_len(field.kind));
            assert(field_assembled(field, aggregate.transpose, items, at) == read_group_value(
                field.kind,
                info.transpose,
                items,
                at,
            ));
        }
        let value = assemble_group(
            &aggregate.fields[i].kind,
            info.transpose,
            pile,
            Ghost(items),
            Ghost(from + fields_read_len(*aggregate, i as nat)),
        );
        values.push(value);
        i += 1;
        assert(views(values@) =~= before.push(value@));
    }
    values
}

/// What fits the first `count` fields fits the first `fewer` of them.
proof fn kept_fits_earlier(
    aggregate: Aggregate,
    received: Seq<Option<ValueView>>,
    from: int,
    count: nat,
    fewer: nat,
)
    requires
        fewer <= count <= aggregate.fields.len(),
        kept_fits_fields(aggregate, received, from, count),
    ensures
        kept_fits_fields(aggregate, received, from, fewer),
    decreases count,
{
    if fewer < count {
        kept_fits_earlier(aggregate, received, from, (count - 1) as nat, fewer);
    }
}

/// A read pass as a mathematical value.
pub struct ReadPassView {
    /// The aggregate that is read.
    pub aggregate: Aggregate,
    /// What the pass kept of the replies to the requests that the store has carried out, in
    /// the order of the requests.
    pub received: Seq<Option<ValueView>>,
    /// Whether the pass has ended with an error.
    pub failed: bool,
}

impl ReadPassView {
    /// The request that is to be carried out next: the first one that has not been carried
    /// out, as long as the pass has not ended with an error.
    pub open spec fn pending(self) -> Option<ReadRequestView> {
        if !self.failed && self.received.len() < read_plan(self.aggregate).len() {
            Some(read_plan(self.aggregate)[self.received.len() as int])
        } else {
            None
        }
    }

    /// The store has carried out every request, and every reply was fit to keep.
    pub open spec fn complete(self) -> bool {
        !self.failed && self.received.len() == read_plan(self.aggregate).len()
    }

    /// The pass after the store has answered the pending request, and what the pass has to
    /// report: nothing if the store has carried the request out and the reply is fit to keep,
    /// else the error that ends the pass.
    pub open spec fn advanced(self, outcome: Result<ReplyView, Seq<char>>) -> (ReadPassView, Result<
        (),
        ErrorView,
    >) {
        let request = read_plan(self.aggregate)[self.received.len() as int];
        match outcome {
            Err(cause) => (ReadPassView { failed: true, ..self }, Err(request.failure(cause))),
            Ok(reply) => match kept(request, reply) {
                Err(error) => (ReadPassView { failed: true, ..self }, Err(error)),
                Ok(item) => (ReadPassView { received: self.received.push(item), ..self }, Ok(())),
            },
        }
    }
}

/// The reading of one aggregate from one group of the store.
#[derive(Debug)]
pub struct ReadPass<'a> {
    aggregate: &'a Aggregate,
    requests: Vec<ReadRequest>,
    received: Vec<Option<Value>>,
    failed: bool,
}

impl<'a> View for ReadPass<'a> {
    type V = ReadPassView;

    closed spec fn view(&self) -> ReadPassView {
        ReadPassView {
            aggregate: *self.aggregate,
            received: kept_views(self.received@),
            failed: self.failed,
        }
    }
}

impl<'a> ReadPass<'a> {
    #[verifier::type_invariant]
    spec fn consistent(self) -> bool {
        &&& read_requests_view(self.requests@) == read_plan(*self.aggregate)
        &&& self.received.len() <= self.requests.len()
        &&& forall|k: int|
            0 <= k < self.received.len() ==> keeps(
                #[trigger] read_requests_view(self.requests@)[k],
                kept_views(self.received@)[k],
            )
    }

    /// Starts reading the fields of an aggregate.
    pub fn new(aggregate: &'a Aggregate) -> (pass: ReadPass<'a>)
        requires
            aggregate.readable(),
        ensures
            pass@ == (ReadPassView {
                aggregate: *aggregate,
                received: Seq::<Option<ValueView>>::empty(),
                failed: false,
            }),
    {
        let mut requests: Vec<ReadRequest> = Vec::new();
        let group: Vec<String> = Vec::new();
        assert(group.deep_view() =~= Seq::<Seq<char>>::empty());
        assert(read_requests_view(requests@) =~= Seq::<ReadRequestView>::empty());
        push_fields_requests(&mut requests, aggregate, &group);
        assert(read_requests_view(requests@) =~= read_plan(*aggregate));
        let received: Vec<Option<Value>> = Vec::new();
        assert(kept_views(received@) =~= Seq::<Option<ValueView>>::empty());
        ReadPass { aggregate, requests, received, failed: false }
    }

    /// The request that is to be carried out next, if the pass has not ended.
    pub fn pending(&self) -> (request: Option<&ReadRequest>)
        ensures
            match request {
                Some(request) => self@.pending() == Some(request@),
                None => self@.pending() is None,
            },
    {
        proof {
            use_type_invariant(self);
        }
        if !self.failed && self.received.len() < self.requests.len() {
            Some(&self.requests[self.received.len()])
        } else {
            None
        }
    }

    /// Whether the store has carried out every request and every reply was fit to keep.
    pub fn complete(&self) -> (complete: bool)
        ensures
            complete == self@.complete(),
    {
        proof {
            use_type_invariant(self);
        }
        !self.failed && self.received.len() == self.requests.len()
    }

    /// Takes what the store answered to the pending request, and gives the pass as it stands
    /// after that with what it has to report. A refusal ends the pass with the error for that
    /// request, and so does the description of a dataset that is not what the field declares.
    pub fn advance(self, outcome: Result<Reply, StoreError>) -> (next: (ReadPass<'a>, Result<
        (),
        Error,
    >))
        requires
            self@.pending() matches Some(request) && (outcome matches Ok(reply)
                ==> request.answered_by(reply@)),
        ensures
            (next.0@, viewed(next.1)) == self@.advanced(
                match outcome {
                    Ok(reply) => Ok(reply@),
                    Err(cause) => Err(cause@),
                },
            ),
    {
        proof {
            use_type_invariant(&self);
        }
        let ReadPass { aggregate, requests, mut received, failed } = self;
        let ghost before = kept_views(received@);
        let item = match outcome {
            Err(cause) => {
                let error = requests[received.len()].failure(cause);
                return (ReadPass { aggregate, requests, received, failed: true }, Err(error));
            },
            Ok(Reply::Opened) => None,
            Ok(Reply::Array(array)) => {
                proof {
                    use_type_invariant(&array);
                }
                Some(Value::Array(array))
            },
            Ok(Reply::Scalar(scalar)) => Some(Value::Scalar(scalar)),
            Ok(Reply::Dataset(dataset)) => match &requests[received.len()] {
                ReadRequest::Describe { datatype, ndim, .. } => match LazyArray::new(
                    dataset,
                    *datatype,
                    *ndim,
                ) {
                    Ok(lazy) => Some(Value::Lazy(lazy)),
                    Err(error) => {
                        return (
                            ReadPass { aggregate, requests, received, failed: true },
                            Err(error),
                        );
                    },
                },
                _ => None,
            },
        };
        received.push(item);
        assert(kept_views(received@) =~= before.push(
            match item {
                Some(value) => Some(value@),
                None => None,
            },
        ));
        (ReadPass { aggregate, requests, received, failed }, Ok(()))
    }

    /// The values of the fields, once the pass is complete: what was read, in the order in
    /// which the fields are declared, every array transposed where its field says so.
    pub fn finish(self) -> (values: Vec<Value>)
        requires
            self@.complete(),
        ensures
            views(values@) == record_assembled(self@.aggregate, self@.received),
            record_conforms(views(values@), self@.aggregate),
    {
        proof {
            use_type_invariant(&self);
            let plan = read_plan(*self.aggregate);
            let count = self.aggregate.fields.len() as nat;
            fields_read_plan_len(*self.aggregate, Seq::empty(), count);
            fields_block_fits(
                *self.aggregate,
                Seq::empty(),
                plan,
                kept_views(self.received@),
                0,
                count,
            );
        }
        let ReadPass { aggregate, received, .. } = self;
        let ghost items = kept_views(received@);
        let mut pile = piled(received);
        assert(items.skip(0) =~= items);
        assemble_fields(aggregate, &mut pile, Ghost(items), Ghost(0))
    }
}

} // verus!
