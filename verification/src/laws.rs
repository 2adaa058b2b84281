//! What holds of the passes and a store that keeps what it is given.

use crate::aggregate::{record_conforms, Aggregate, Field, FieldKind, ValueView};
use crate::array::reversed_twice;
use crate::error::{ErrorKind, ErrorView};
use crate::lazy_array::{binding, LazyView};
use crate::model::{
    content_at, node_at, read_outcome, read_run, write_outcome, write_run, NodeKind, StoreModel,
};
use crate::policy::TransposeOpts;
use crate::read::{
    field_assembled, field_read_len, field_read_plan, field_read_plan_len, fields_assembled,
    fields_read_len, fields_read_plan, fields_read_plan_len, kept, read_group_plan,
    read_group_value, read_plan, ReadPassView,
};
use crate::store::{ReadRequestView, WriteRequestView};
use crate::write::{
    field_write_plan, fields_write_plan, write_group_plan, write_plan, WritePassView,
};
use vstd::prelude::*;

verus! {

/// The node at `path` is the node at `prefix` or lies below it.
pub open spec fn under(path: Seq<Seq<char>>, prefix: Seq<Seq<char>>) -> bool {
    prefix.len() <= path.len() && path.take(prefix.len() as int) == prefix
}

/// None of the requests is about the node at `prefix` or about one below it.
pub open spec fn clear_of(requests: Seq<WriteRequestView>, prefix: Seq<Seq<char>>) -> bool {
    forall|k: int| 0 <= k < requests.len() ==> !under(#[trigger] requests[k].path(), prefix)
}

impl Field {
    /// A field that reads what `writer` writes: it is of the same kind, reads from the node
    /// that `writer` writes to, and, where the two are nested aggregates, every field of the
    /// one reads what the field of the other at its place writes.
    pub open spec fn reads_what(&self, writer: Field) -> bool
        decreases self,
    {
        &&& self.read_name() == writer.write_name()
        &&& match (self.kind, writer.kind) {
            (FieldKind::Scalar { datatype: a }, FieldKind::Scalar { datatype: b }) => a == b,
            (
                FieldKind::DenseArray { datatype: a, ndim: m },
                FieldKind::DenseArray { datatype: b, ndim: n },
            ) => a == b && m == n,
            (
                FieldKind::NestedAggregate { aggregate: a },
                FieldKind::NestedAggregate { aggregate: b },
            ) => a.reads_what(b),
            (
                FieldKind::LazyArrayHandle { datatype: a, ndim: m },
                FieldKind::LazyArrayHandle { datatype: b, ndim: n },
            ) => a == b && m == n,
            _ => false,
        }
    }

    /// A field that transposes an array after reading exactly if `writer` transposes it before
    /// writing, here and in nested aggregates.
    pub open spec fn undoes(
        &self,
        writer: Field,
        read_default: TransposeOpts,
        write_default: TransposeOpts,
    ) -> bool
        decreases self,
    {
        match (self.kind, writer.kind) {
            (FieldKind::DenseArray { .. }, FieldKind::DenseArray { .. }) => self.read_transposed(
                read_default,
            ) == writer.write_transposed(write_default),
            (
                FieldKind::NestedAggregate { aggregate: a },
                FieldKind::NestedAggregate { aggregate: b },
            ) => a.undoes(b),
            _ => true,
        }
    }
}

impl Aggregate {
    /// An aggregate that reads what `writer` writes: field by field.
    pub open spec fn reads_what(&self, writer: Aggregate) -> bool
        decreases self,
    {
        &&& self.fields.len() == writer.fields.len()
        &&& forall|i: int|
            0 <= i < self.fields.len() ==> (#[trigger] self.fields[i]).reads_what(writer.fields[i])
    }

    /// An aggregate that transposes after reading what `writer` transposes before writing,
    /// and nothing else: field by field.
    pub open spec fn undoes(&self, writer: Aggregate) -> bool
        decreases self,
    {
        forall|i: int|
            0 <= i < self.fields.len() && i < writer.fields.len() ==> (#[trigger] self.fields[i]).undoes(
                writer.fields[i],
                self.transpose,
                writer.transpose,
            )
    }

    /// No two fields are written to one name, here or in a nested aggregate.
    pub open spec fn names_apart(&self) -> bool
        decreases self,
    {
        &&& forall|i: int, j: int|
            #![trigger self.fields[i], self.fields[j]]
            0 <= i < j < self.fields.len() ==> self.fields[i].write_name()
                != self.fields[j].write_name()
        &&& forall|i: int|
            0 <= i < self.fields.len() ==> ((#[trigger] self.fields[i]).kind matches FieldKind::NestedAggregate {
                aggregate,
            } ==> aggregate.names_apart())
    }
}

/// The store holds, where a field is a handle on an array in the store, the dataset that
/// the handle is bound to, and tells of it what the handle knows.
pub open spec fn field_handles_held(
    value: ValueView,
    field: Field,
    group: Seq<Seq<char>>,
    store: StoreModel,
) -> bool
    decreases field, 0nat,
{
    let path = group.push(field.write_name());
    match field.kind {
        FieldKind::LazyArrayHandle { .. } => store.node(path) == Some(NodeKind::Dataset)
            && store.described.dom().contains(path) && store.described[path]
            == value->Lazy_0.dataset,
        FieldKind::NestedAggregate { aggregate } => fields_handles_held(
            value->Aggregate_0,
            aggregate,
            path,
            store,
            aggregate.fields.len() as nat,
        ),
        _ => true,
    }
}

/// The store holds the datasets that the handles among the first `count` fields are bound to.
pub open spec fn fields_handles_held(
    values: Seq<ValueView>,
    aggregate: Aggregate,
    group: Seq<Seq<char>>,
    store: StoreModel,
    count: nat,
) -> bool
    decreases aggregate, count,
{
    if count == 0 || count > aggregate.fields.len() {
        true
    } else {
        &&& fields_handles_held(values, aggregate, group, store, (count - 1) as nat)
        &&& field_handles_held(values[count - 1], aggregate.fields[count - 1], group, store)
    }
}

/// The store holds, where a field is a handle on an array in the store, a dataset of the
/// element type and number of axes that the field declares, and can tell its element type.
pub open spec fn field_handles_bind(field: Field, group: Seq<Seq<char>>, store: StoreModel) -> bool
    decreases field, 0nat,
{
    let path = group.push(field.write_name());
    match field.kind {
        FieldKind::LazyArrayHandle { datatype, ndim } => store.node(path) == Some(
            NodeKind::Dataset,
        ) && store.described.dom().contains(path) && binding(
            store.described[path],
            datatype,
            ndim,
        ) is Ok,
        FieldKind::NestedAggregate { aggregate } => fields_handles_bind(
            aggregate,
            path,
            store,
            aggregate.fields.len() as nat,
        ),
        _ => true,
    }
}

/// The store holds a dataset as declared for each handle among the first `count` fields.
pub open spec fn fields_handles_bind(
    aggregate: Aggregate,
    group: Seq<Seq<char>>,
    store: StoreModel,
    count: nat,
) -> bool
    decreases aggregate, count,
{
    if count == 0 || count > aggregate.fields.len() {
        true
    } else {
        &&& fields_handles_bind(aggregate, group, store, (count - 1) as nat)
        &&& field_handles_bind(aggregate.fields[count - 1], group, store)
    }
}

/// A value that `writer` has written into the group at `group` as `reader` reads it from the
/// store: an array has its axes reversed once for each of the two that transposes it, and a
/// handle on an array in the store is bound to the dataset that the store holds.
pub open spec fn field_seen(
    value: ValueView,
    writer: Field,
    reader: Field,
    write_default: TransposeOpts,
    read_default: TransposeOpts,
    group: Seq<Seq<char>>,
    store: StoreModel,
) -> ValueView
    decreases writer, 0nat,
{
    let path = group.push(writer.write_name());
    match writer.kind {
        FieldKind::DenseArray { .. } => ValueView::Array(
            value->Array_0.transposed_if(writer.write_transposed(write_default)).transposed_if(
                reader.read_transposed(read_default),
            ),
        ),
        FieldKind::NestedAggregate { aggregate } => ValueView::Aggregate(
            fields_seen(
                value->Aggregate_0,
                aggregate,
                reader.kind->NestedAggregate_aggregate,
                path,
                store,
                aggregate.fields.len() as nat,
            ),
        ),
        FieldKind::LazyArrayHandle { datatype, ndim } => ValueView::Lazy(
            LazyView { dataset: store.described[path], datatype, ndim },
        ),
        FieldKind::Scalar { .. } => value,
    }
}

/// The values of the first `count` fields that `writer` has written as `reader` reads them.
pub open spec fn fields_seen(
    values: Seq<ValueView>,
    writer: Aggregate,
    reader: Aggregate,
    group: Seq<Seq<char>>,
    store: StoreModel,
    count: nat,
) -> Seq<ValueView>
    decreases writer, count,
{
    if count == 0 || count > writer.fields.len() {
        Seq::empty()
    } else {
        fields_seen(values, writer, reader, group, store, (count - 1) as nat).push(
            field_seen(
                values[count - 1],
                writer.fields[count - 1],
                reader.fields[count - 1],
                writer.transpose,
                reader.transpose,
                group,
                store,
            ),
        )
    }
}

/// The values that `writer` has written into the group that the pass works on as `reader`
/// reads them from the store.
pub open spec fn seen(
    values: Seq<ValueView>,
    writer: Aggregate,
    reader: Aggregate,
    store: StoreModel,
) -> Seq<ValueView> {
    fields_seen(values, writer, reader, Seq::empty(), store, writer.fields.len() as nat)
}

/// What a read pass keeps of the store's answers to the requests of a plan, request by request.
pub open spec fn taken(plan: Seq<ReadRequestView>, store: StoreModel) -> Seq<Option<ValueView>> {
    Seq::new(plan.len(), |k: int| kept(plan[k], store.answers(plan[k])->Some_0)->Ok_0)
}

/// The store answers the request, and the answer is fit to keep.
pub open spec fn served(request: ReadRequestView, store: StoreModel) -> bool {
    store.answers(request) matches Some(reply) && kept(request, reply) is Ok
}

proof fn under_longer(path: Seq<Seq<char>>, prefix: Seq<Seq<char>>, name: Seq<char>)
    requires
        under(path, prefix.push(name)),
    ensures
        under(path, prefix),
        path.len() > prefix.len(),
        path[prefix.len() as int] == name,
{
    let longer = prefix.push(name);
    assert(path.take(longer.len() as int)[prefix.len() as int] == longer[prefix.len() as int]);
    assert(path.take(prefix.len() as int) =~= prefix) by {
        assert forall|i: int| 0 <= i < prefix.len() implies path[i] == prefix[i] by {
            assert(path.take(longer.len() as int)[i] == longer[i]);
        }
    }
}

/// Requests that are about other nodes change neither what kind of node is at a path nor
/// what it holds.
proof fn lookups_skip(
    written: Seq<WriteRequestView>,
    extra: Seq<WriteRequestView>,
    path: Seq<Seq<char>>,
)
    requires
        forall|k: int| 0 <= k < extra.len() ==> (#[trigger] extra[k]).path() != path,
    ensures
        node_at(written + extra, path) == node_at(written, path),
        content_at(written + extra, path) == content_at(written, path),
    decreases extra.len(),
{
    if extra.len() == 0 {
        assert(written + extra =~= written);
    } else {
        let all = written + extra;
        assert(all.last() == extra.last());
        assert(all.drop_last() =~= written + extra.drop_last());
        assert(extra[extra.len() - 1].path() != path);
        assert forall|k: int| 0 <= k < extra.drop_last().len() implies (
        #[trigger] extra.drop_last()[k]).path() != path by {
            assert(extra.drop_last()[k] == extra[k]);
        }
        lookups_skip(written, extra.drop_last(), path);
    }
}

/// Everything that writing a field asks is about the node of the field or about one below it.
proof fn field_write_plan_under(
    value: ValueView,
    field: Field,
    transpose: TransposeOpts,
    mutate_on_write: bool,
    group: Seq<Seq<char>>,
)
    ensures
        forall|k: int|
            0 <= k < field_write_plan(value, field, transpose, mutate_on_write, group).len()
                ==> under(
                (#[trigger] field_write_plan(
                    value,
                    field,
                    transpose,
                    mutate_on_write,
                    group,
                )[k]).path(),
                group.push(field.write_name()),
            ),
    decreases field, 0nat,
{
    let plan = field_write_plan(value, field, transpose, mutate_on_write, group);
    let path = group.push(field.write_name());
    assert(path.take(path.len() as int) =~= path);
    match field.kind {
        FieldKind::NestedAggregate { aggregate } => {
            let count = aggregate.fields.len() as nat;
            let inner = fields_write_plan(value->Aggregate_0, aggregate, path, count);
            fields_write_plan_under(value->Aggregate_0, aggregate, path, count);
            assert forall|k: int| 0 <= k < plan.len() implies under(
                (#[trigger] plan[k]).path(),
                path,
            ) by {
                if k > 0 {
                    assert(plan[k] == inner[k - 1]);
                }
            }
        },
        _ => {},
    }
}

/// Everything that writing fields asks is about nodes strictly below the group of the fields.
proof fn fields_write_plan_under(
    values: Seq<ValueView>,
    aggregate: Aggregate,
    group: Seq<Seq<char>>,
    count: nat,
)
    ensures
        forall|k: int|
            0 <= k < fields_write_plan(values, aggregate, group, count).len() ==> {
                let path = (#[trigger] fields_write_plan(values, aggregate, group, count)[k]).path();
                under(path, group) && path.len() > group.len()
            },
    decreases aggregate, count,
{
    if count == 0 || count > aggregate.fields.len() {
    } else {
        let plan = fields_write_plan(values, aggregate, group, count);
        let front = fields_write_plan(values, aggregate, group, (count - 1) as nat);
        let field = aggregate.fields[count - 1];
        let own = field_write_plan(
            values[count - 1],
            field,
            aggregate.transpose,
            aggregate.mutate_on_write,
            group,
        );
        fields_write_plan_under(values, aggregate, group, (count - 1) as nat);
        field_write_plan_under(
            values[count - 1],
            field,
            aggregate.transpose,
            aggregate.mutate_on_write,
            group,
        );
        assert forall|k: int| 0 <= k < plan.len() implies {
            let path = (#[trigger] plan[k]).path();
            under(path, group) && path.len() > group.len()
        } by {
            if k < front.len() {
                assert(plan[k] == front[k]);
            } else {
                assert(plan[k] == own[k - front.len()]);
                under_longer(plan[k].path(), group, field.write_name());
            }
        }
    }
}

/// A read pass on a store that answers every request of the plan with something fit to keep
/// runs to its end without an error and keeps what the store answered.
proof fn read_run_served(pass: ReadPassView, store: StoreModel, refusal: Seq<char>)
    requires
        !pass.failed,
        pass.received.len() <= read_plan(pass.aggregate).len(),
        forall|k: int|
            0 <= k < read_plan(pass.aggregate).len() ==> served(
                #[trigger] read_plan(pass.aggregate)[k],
                store,
            ),
        pass.received == taken(read_plan(pass.aggregate), store).take(pass.received.len() as int),
    ensures
        read_run(pass, store, refusal) == (
            ReadPassView {
                aggregate: pass.aggregate,
                received: taken(read_plan(pass.aggregate), store),
                failed: false,
            },
            Ok::<(), ErrorView>(()),
        ),
    decreases read_plan(pass.aggregate).len() - pass.received.len(),
{
    let plan = read_plan(pass.aggregate);
    let all = taken(plan, store);
    match pass.pending() {
        None => {
            assert(all.take(pass.received.len() as int) =~= all);
        },
        Some(request) => {
            let at = pass.received.len() as int;
            assert(served(plan[at], store));
            let reply = store.answers(request)->Some_0;
            let next = pass.advanced(Ok(reply)).0;
            assert(next.received =~= all.take(at + 1));
            read_run_served(next, store, refusal);
        },
    }
}

/// What a reader that mirrors the writer of a field makes of a store that has carried out the
/// requests for the field, and after them only requests about other nodes.
proof fn field_read_back(
    value: ValueView,
    writer: Field,
    reader: Field,
    write_transpose: TransposeOpts,
    write_mutate: bool,
    read_transpose: TransposeOpts,
    group: Seq<Seq<char>>,
    before: Seq<WriteRequestView>,
    after: Seq<WriteRequestView>,
    store: StoreModel,
    plan: Seq<ReadRequestView>,
    from: int,
)
    requires
        value.conforms(writer.kind),
        reader.reads_what(writer),
        writer.kind matches FieldKind::NestedAggregate { aggregate } ==> aggregate.names_apart(),
        store.written == before + field_write_plan(
            value,
            writer,
            write_transpose,
            write_mutate,
            group,
        ) + after,
        clear_of(after, group.push(writer.write_name())),
        field_handles_bind(writer, group, store),
        0 <= from,
        from + field_read_len(reader) <= plan.len(),
        forall|k: int|
            0 <= k < field_read_len(reader) ==> plan[from + k] == #[trigger] field_read_plan(
                reader,
                group,
            )[k],
    ensures
        forall|k: int| from <= k < from + field_read_len(reader) ==> served(#[trigger] plan[k], store),
        field_assembled(reader, read_transpose, taken(plan, store), from) == field_seen(
            value,
            writer,
            reader,
            write_transpose,
            read_transpose,
            group,
            store,
        ),
    decreases writer, 0nat,
{
    let path = group.push(writer.write_name());
    let block = field_write_plan(value, writer, write_transpose, write_mutate, group);
    let asked = field_read_plan(reader, group);
    let items = taken(plan, store);
    field_read_plan_len(reader, group);
    assert(plan[from + 0] == asked[0]);
    assert(path.take(path.len() as int) =~= path);
    assert forall|k: int| 0 <= k < after.len() implies (#[trigger] after[k]).path() != path by {
        assert(!under(after[k].path(), path));
    }
    match writer.kind {
        FieldKind::NestedAggregate { aggregate: inner_writer } => {
            let inner_reader = reader.kind->NestedAggregate_aggregate;
            let inner_values = value->Aggregate_0;
            let count = inner_writer.fields.len() as nat;
            let inner = fields_write_plan(inner_values, inner_writer, path, count);
            let opening = seq![block[0]];
            assert(block =~= opening + inner);
            // the group is there
            fields_write_plan_under(inner_values, inner_writer, path, count);
            let rest = inner + after;
            assert(store.written =~= (before + opening) + rest);
            assert forall|k: int| 0 <= k < rest.len() implies (#[trigger] rest[k]).path()
                != path by {
                if k < inner.len() {
                    assert(rest[k] == inner[k]);
                } else {
                    assert(rest[k] == after[k - inner.len()]);
                }
            }
            lookups_skip(before + opening, rest, path);
            assert((before + opening).last() == block[0]);
            assert(node_at(before + opening, path) == Some(NodeKind::Group));
            assert(served(plan[from], store));
            // the fields are there
            fields_read_plan_len(inner_reader, path, count);
            assert forall|k: int| 0 <= k < fields_read_len(inner_reader, count) implies plan[from
                + 1 + k] == #[trigger] fields_read_plan(inner_reader, path, count)[k] by {
                assert(plan[from + (k + 1)] == asked[k + 1]);
            }
            assert forall|i: int| 0 <= i < count implies clear_of(
                after,
                path.push(#[trigger] inner_writer.fields[i].write_name()),
            ) by {
                let deeper = path.push(inner_writer.fields[i].write_name());
                assert forall|k: int| 0 <= k < after.len() implies !under(
                    #[trigger] after[k].path(),
                    deeper,
                ) by {
                    if under(after[k].path(), deeper) {
                        under_longer(after[k].path(), path, inner_writer.fields[i].write_name());
                    }
                }
            }
            assert(store.written =~= (before + opening) + inner + after);
            fields_read_back(
                inner_values,
                inner_writer,
                inner_reader,
                path,
                before + opening,
                after,
                store,
                plan,
                from + 1,
                count,
            );
            assert forall|k: int| from <= k < from + field_read_len(reader) implies served(
                #[trigger] plan[k],
                store,
            ) by {
                if k > from {
                    assert(from + 1 <= k < from + 1 + fields_read_len(inner_reader, count));
                }
            }
        },
        FieldKind::LazyArrayHandle { .. } => {
            assert(plan[from + 1] == asked[1]);
            assert(block =~= Seq::<WriteRequestView>::empty());
            assert(served(plan[from], store));
            assert(served(plan[from + 1], store));
            assert(items[from + 1] == kept(plan[from + 1], store.answers(plan[from + 1])->Some_0)->Ok_0);
        },
        FieldKind::Scalar { .. } => {
            assert(plan[from + 1] == asked[1]);
            assert(store.written =~= (before + block) + after);
            lookups_skip(before + block, after, path);
            let both = before + block;
            assert(both.last() == block[1]);
            assert(both.drop_last() =~= before + seq![block[0]]);
            assert(both.drop_last().last() == block[0]);
            assert(block[0].path() == path && block[0].reaches() == Some(NodeKind::Attribute));
            assert(block[1].path() == path && block[1].reaches() is None);
            assert(node_at(both.drop_last(), path) == Some(NodeKind::Attribute));
            assert(node_at(both, path) == Some(NodeKind::Attribute));
            assert(content_at(both, path) == block[1].stores());
            assert(served(plan[from], store));
            assert(served(plan[from + 1], store));
            assert(items[from + 1] == kept(plan[from + 1], store.answers(plan[from + 1])->Some_0)->Ok_0);
        },
        FieldKind::DenseArray { .. } => {
            assert(plan[from + 1] == asked[1]);
            assert(store.written =~= (before + block) + after);
            lookups_skip(before + block, after, path);
            let both = before + block;
            assert(both.last() == block[1]);
            assert(both.drop_last() =~= before + seq![block[0]]);
            assert(both.drop_last().last() == block[0]);
            assert(block[0].path() == path && block[0].reaches() == Some(NodeKind::Dataset));
            assert(block[1].path() == path && block[1].reaches() is None);
            assert(node_at(both.drop_last(), path) == Some(NodeKind::Dataset));
            assert(node_at(both, path) == Some(NodeKind::Dataset));
            assert(content_at(both, path) == block[1].stores());
            assert(served(plan[from], store));
            assert(served(plan[from + 1], store));
            assert(items[from + 1] == kept(plan[from + 1], store.answers(plan[from + 1])->Some_0)->Ok_0);
        },
    }
}

/// What a reader that mirrors the writer of an aggregate makes of a store that has carried out
/// the requests for the first `count` fields, and after them only requests about other nodes.
proof fn fields_read_back(
    values: Seq<ValueView>,
    writer: Aggregate,
    reader: Aggregate,
    group: Seq<Seq<char>>,
    before: Seq<WriteRequestView>,
    after: Seq<WriteRequestView>,
    store: StoreModel,
    plan: Seq<ReadRequestView>,
    from: int,
    count: nat,
)
    requires
        count <= writer.fields.len(),
        record_conforms(values, writer),
        reader.reads_what(writer),
        writer.names_apart(),
        store.written == before + fields_write_plan(values, writer, group, count) + after,
        forall|i: int|
            0 <= i < count ==> clear_of(after, group.push(#[trigger] writer.fields[i].write_name())),
        fields_handles_bind(writer, group, store, count),
        0 <= from,
        from + fields_read_len(reader, count) <= plan.len(),
        forall|k: int|
            0 <= k < fields_read_len(reader, count) ==> plan[from + k]
                == #[trigger] fields_read_plan(reader, group, count)[k],
    ensures
        forall|k: int|
            from <= k < from + fields_read_len(reader, count) ==> served(#[trigger] plan[k], store),
        fields_assembled(reader, taken(plan, store), from, count) == fields_seen(
            values,
            writer,
            reader,
            group,
            store,
            count,
        ),
    decreases writer, count,
{
    if count == 0 {
    } else {
        let fewer = (count - 1) as nat;
        let field = writer.fields[count - 1];
        let mirror = reader.fields[count - 1];
        let front = fields_write_plan(values, writer, group, fewer);
        let own = field_write_plan(
            values[count - 1],
            field,
            writer.transpose,
            writer.mutate_on_write,
            group,
        );
        let asked = fields_read_plan(reader, group, count);
        let asked_front = fields_read_plan(reader, group, fewer);
        let asked_own = field_read_plan(mirror, group);
        fields_read_plan_len(reader, group, fewer);
        field_read_plan_len(mirror, group);
        assert(asked == asked_front + asked_own);
        // the fields before the last
        let later = own + after;
        assert(store.written =~= before + front + later);
        field_write_plan_under(
            values[count - 1],
            field,
            writer.transpose,
            writer.mutate_on_write,
            group,
        );
        assert forall|i: int| 0 <= i < fewer implies clear_of(
            later,
            group.push(#[trigger] writer.fields[i].write_name()),
        ) by {
            let other = group.push(writer.fields[i].write_name());
            assert(clear_of(after, other));
            assert forall|k: int| 0 <= k < later.len() implies !under(
                #[trigger] later[k].path(),
                other,
            ) by {
                if k < own.len() {
                    assert(later[k] == own[k]);
                    if under(later[k].path(), other) {
                        under_longer(later[k].path(), group, writer.fields[i].write_name());
                        under_longer(later[k].path(), group, field.write_name());
                        assert(writer.fields[i].write_name() != writer.fields[count - 1].write_name());
                    }
                } else {
                    assert(later[k] == after[k - own.len()]);
                }
            }
        }
        assert forall|k: int| 0 <= k < fields_read_len(reader, fewer) implies plan[from + k]
            == #[trigger] asked_front[k] by {
            assert(asked[k] == asked_front[k]);
        }
        fields_read_back(values, writer, reader, group, before, later, store, plan, from, fewer);
        // the last field
        let start = from + fields_read_len(reader, fewer);
        assert forall|k: int| 0 <= k < field_read_len(mirror) implies plan[start + k]
            == #[trigger] asked_own[k] by {
            assert(asked[fields_read_len(reader, fewer) + k] == asked_own[k]);
            assert(plan[from + (fields_read_len(reader, fewer) + k)] == asked[fields_read_len(
                reader,
                fewer,
            ) + k]);
        }
        assert(store.written =~= (before + front) + own + after);
        assert(values[count - 1].conforms(field.kind));
        assert(mirror.reads_what(field));
        assert(clear_of(after, group.push(writer.fields[count - 1].write_name())));
        field_read_back(
            values[count - 1],
            field,
            mirror,
            writer.transpose,
            writer.mutate_on_write,
            reader.transpose,
            group,
            before + front,
            after,
            store,
            plan,
            start,
        );
    }
}

/// Where a write pass has run to its end without an error, on whatever store, a read pass on
/// the store as it is then finds what was written: it gives the values that were written, as
/// the reader sees them. The reader may be another aggregate than the writer as long as it
/// reads what the writer writes: field by field of the same kind and from the node that was
/// written to, whatever the fields are called, and so on through nested aggregates, which are
/// child groups. For the values to be found again, no two fields of the writer are written to
/// one name. A handle on an array in the store is not written; it is bound anew to the
/// dataset that the store holds under its name, which has to be one as the field declares.
pub proof fn read_back(
    values: Seq<ValueView>,
    writer: Aggregate,
    reader: Aggregate,
    store: StoreModel,
    refusal: Seq<char>,
)
    requires
        record_conforms(values, writer),
        reader.reads_what(writer),
        writer.names_apart(),
        write_outcome(values, writer, store, refusal).1 is Ok,
        fields_handles_bind(
            writer,
            Seq::empty(),
            write_outcome(values, writer, store, refusal).0,
            writer.fields.len() as nat,
        ),
    ensures
        read_outcome(reader, write_outcome(values, writer, store, refusal).0, refusal) == Ok::<
            _,
            ErrorView,
        >(seen(values, writer, reader, write_outcome(values, writer, store, refusal).0)),
{
    let count = writer.fields.len() as nat;
    let handed = write_plan(values, writer);
    let start = WritePassView { requests: handed, answered: 0, failed: false };
    let after = write_outcome(values, writer, store, refusal).0;
    write_stops_at_refusal(start, store, refusal);
    assert(handed.subrange(0, handed.len() as int) =~= handed);
    let plan = read_plan(reader);
    fields_read_plan_len(reader, Seq::empty(), count);
    assert(after.written =~= store.written + handed + Seq::<WriteRequestView>::empty());
    fields_read_back(
        values,
        writer,
        reader,
        Seq::empty(),
        store.written,
        Seq::empty(),
        after,
        plan,
        0,
        count,
    );
    let begin = ReadPassView { aggregate: reader, received: Seq::empty(), failed: false };
    assert(begin.received =~= taken(plan, after).take(0));
    read_run_served(begin, after, refusal);
}

/// A reader that transposes after reading exactly what the writer transposed before writing
/// sees a value as it was, a handle on an array in the store included if the store still
/// holds the dataset that the handle is bound to.
pub proof fn field_seen_unchanged(
    value: ValueView,
    writer: Field,
    reader: Field,
    write_default: TransposeOpts,
    read_default: TransposeOpts,
    group: Seq<Seq<char>>,
    store: StoreModel,
)
    requires
        value.conforms(writer.kind),
        reader.reads_what(writer),
        reader.undoes(writer, read_default, write_default),
        field_handles_held(value, writer, group, store),
    ensures
        field_seen(value, writer, reader, write_default, read_default, group, store) == value,
        field_handles_bind(writer, group, store),
    decreases writer, 0nat,
{
    match writer.kind {
        FieldKind::DenseArray { .. } => {
            reversed_twice(value->Array_0);
        },
        FieldKind::NestedAggregate { aggregate } => {
            let inner = reader.kind->NestedAggregate_aggregate;
            fields_seen_unchanged(
                value->Aggregate_0,
                aggregate,
                inner,
                group.push(writer.write_name()),
                store,
                aggregate.fields.len() as nat,
            );
            assert(value->Aggregate_0.take(aggregate.fields.len() as int) =~= value->Aggregate_0);
        },
        _ => {},
    }
}

/// A reader that transposes after reading exactly what the writer transposed before writing
/// sees the values as they were, handles on arrays in the store included if the store still
/// holds the datasets that they are bound to.
pub proof fn fields_seen_unchanged(
    values: Seq<ValueView>,
    writer: Aggregate,
    reader: Aggregate,
    group: Seq<Seq<char>>,
    store: StoreModel,
    count: nat,
)
    requires
        count <= writer.fields.len(),
        record_conforms(values, writer),
        reader.reads_what(writer),
        reader.undoes(writer),
        fields_handles_held(values, writer, group, store, count),
    ensures
        fields_seen(values, writer, reader, group, store, count) == values.take(count as int),
        fields_handles_bind(writer, group, store, count),
    decreases writer, count,
{
    if count == 0 {
        assert(values.take(0) =~= Seq::<ValueView>::empty());
    } else {
        fields_seen_unchanged(values, writer, reader, group, store, (count - 1) as nat);
        assert(values[count - 1].conforms(writer.fields[count - 1].kind));
        assert(reader.fields[count - 1].reads_what(writer.fields[count - 1]));
        assert(reader.fields[count - 1].undoes(
            writer.fields[count - 1],
            reader.transpose,
            writer.transpose,
        ));
        field_seen_unchanged(
            values[count - 1],
            writer.fields[count - 1],
            reader.fields[count - 1],
            writer.transpose,
            reader.transpose,
            group,
            store,
        );
        assert(values.take(count as int) =~= values.take(count - 1).push(values[count - 1]));
    }
}

/// Where a write pass has run to its end without an error, on whatever store, a read pass on
/// the store as it is then gives the values that were written, if the reader reads what the
/// writer writes and transposes after reading exactly the arrays that the writer transposed
/// before writing. An aggregate that reads every field from the node it writes it to, and
/// transposes it in both directions or in neither, is such a reader of itself. A handle on an
/// array in the store comes back as it was if the store still holds the dataset that it is
/// bound to; whatever it comes back as, everything else comes back as it was (see
/// [`read_back`]).
pub proof fn round_trip(
    values: Seq<ValueView>,
    writer: Aggregate,
    reader: Aggregate,
    store: StoreModel,
    refusal: Seq<char>,
)
    requires
        record_conforms(values, writer),
        reader.reads_what(writer),
        reader.undoes(writer),
        writer.names_apart(),
        write_outcome(values, writer, store, refusal).1 is Ok,
        fields_handles_held(
            values,
            writer,
            Seq::empty(),
            write_outcome(values, writer, store, refusal).0,
            writer.fields.len() as nat,
        ),
    ensures
        read_outcome(reader, write_outcome(values, writer, store, refusal).0, refusal) == Ok::<
            _,
            ErrorView,
        >(values),
{
    let after = write_outcome(values, writer, store, refusal).0;
    fields_seen_unchanged(
        values,
        writer,
        reader,
        Seq::empty(),
        after,
        writer.fields.len() as nat,
    );
    read_back(values, writer, reader, store, refusal);
    assert(values.take(writer.fields.len() as int) =~= values);
}

/// An array that was transposed before writing and is read without transposing comes back
/// with its axes in reverse order: its element at an index is the element that the array had
/// at the reversed index before it was written.
pub proof fn written_transposed_seen_reversed(
    value: ValueView,
    writer: Field,
    reader: Field,
    write_default: TransposeOpts,
    read_default: TransposeOpts,
    group: Seq<Seq<char>>,
    store: StoreModel,
    index: Seq<int>,
)
    requires
        value.conforms(writer.kind),
        writer.kind is DenseArray,
        writer.write_transposed(write_default),
        !reader.read_transposed(read_default),
        crate::array::in_bounds(value->Array_0.shape, index),
    ensures
        field_seen(value, writer, reader, write_default, read_default, group, store)
            == ValueView::Array(value->Array_0.reversed()),
        value->Array_0.reversed().shape == value->Array_0.shape.reverse(),
        value->Array_0.reversed().at(index.reverse()) == value->Array_0.at(index),
{
    crate::array::reversed_at(value->Array_0, index);
}

/// A write pass hands its requests to the store in order until the store
/// refuses one. It ends there, with the error for that request, and the store keeps what it
/// has carried out before; if the store refuses none, it has carried out all of them.
pub proof fn write_stops_at_refusal(pass: WritePassView, store: StoreModel, refusal: Seq<char>)
    requires
        !pass.failed,
        pass.answered <= pass.requests.len(),
    ensures
        ({
            let (end, after, report) = write_run(pass, store, refusal);
            &&& pass.answered <= end.answered <= pass.requests.len()
            &&& end.requests == pass.requests
            &&& after.described == store.described
            &&& after.written == store.written + pass.requests.subrange(
                pass.answered as int,
                end.answered as int,
            )
            &&& match report {
                Ok(_) => end.answered == pass.requests.len() && !end.failed,
                Err(error) => end.answered < pass.requests.len() && end.failed
                    && after.carries_out(pass.requests[end.answered as int]) is None && error
                    == pass.requests[end.answered as int].failure(refusal),
            }
        }),
    decreases pass.requests.len() - pass.answered,
{
    let at = pass.answered as int;
    match pass.pending() {
        None => {
            assert(store.written + pass.requests.subrange(at, at) =~= store.written);
        },
        Some(request) => {
            match store.carries_out(request) {
                None => {
                    assert(store.written + pass.requests.subrange(at, at) =~= store.written);
                },
                Some(after) => {
                    let next = pass.advanced(Ok(())).0;
                    write_stops_at_refusal(next, after, refusal);
                    let end = write_run(pass, store, refusal).0;
                    assert(store.written.push(request) + pass.requests.subrange(
                        at + 1,
                        end.answered as int,
                    ) =~= store.written + pass.requests.subrange(at, end.answered as int));
                },
            }
        },
    }
}

/// Where a request has opened or created a node, a node is there.
proof fn node_found(written: Seq<WriteRequestView>, k: int)
    requires
        0 <= k < written.len(),
        written[k].reaches() is Some,
    ensures
        node_at(written, written[k].path()) is Some,
    decreases written.len(),
{
    if k < written.len() - 1 {
        assert(written.drop_last()[k] == written[k]);
        node_found(written.drop_last(), k);
    }
}

/// Writing an aggregate whose first field is not a handle begins with the first request for
/// that field.
proof fn first_request(values: Seq<ValueView>, aggregate: Aggregate, group: Seq<Seq<char>>, count: nat)
    requires
        0 < count <= aggregate.fields.len(),
        !(aggregate.fields[0].kind is LazyArrayHandle),
    ensures
        fields_write_plan(values, aggregate, group, count).len() > 0,
        fields_write_plan(values, aggregate, group, count)[0] == field_write_plan(
            values[0],
            aggregate.fields[0],
            aggregate.transpose,
            aggregate.mutate_on_write,
            group,
        )[0],
        field_write_plan(
            values[0],
            aggregate.fields[0],
            aggregate.transpose,
            aggregate.mutate_on_write,
            group,
        ).len() > 0,
    decreases count,
{
    let own = field_write_plan(
        values[0],
        aggregate.fields[0],
        aggregate.transpose,
        aggregate.mutate_on_write,
        group,
    );
    let plan = fields_write_plan(values, aggregate, group, count);
    let front = fields_write_plan(values, aggregate, group, (count - 1) as nat);
    assert(own.len() > 0);
    if count > 1 {
        first_request(values, aggregate, group, (count - 1) as nat);
        assert(plan[0] == front[0]);
    } else {
        assert(front =~= Seq::<WriteRequestView>::empty());
        assert(plan =~= own);
    }
}

/// The kind of error that a write pass ends with when the store refuses the node of a field.
pub open spec fn refused_node(field: Field, mutated: bool) -> ErrorKind {
    match field.kind {
        FieldKind::Scalar { .. } => if mutated {
            ErrorKind::FetchAttribute
        } else {
            ErrorKind::CreateAttribute
        },
        FieldKind::NestedAggregate { .. } => if mutated {
            ErrorKind::MissingGroup
        } else {
            ErrorKind::CreateGroup
        },
        _ => if mutated {
            ErrorKind::FetchDataset
        } else {
            ErrorKind::CreateDataset
        },
    }
}

/// When an aggregate whose first field creates its node
/// has been written, writing it again fails at once, because the name is taken: with the error
/// for a node that could not be created, and with nothing changed in the store.
pub proof fn second_create_conflicts(
    first: Seq<ValueView>,
    second: Seq<ValueView>,
    aggregate: Aggregate,
    store: StoreModel,
    refusal: Seq<char>,
)
    requires
        record_conforms(first, aggregate),
        record_conforms(second, aggregate),
        aggregate.fields.len() > 0,
        !(aggregate.fields[0].kind is LazyArrayHandle),
        !aggregate.fields[0].mutated(aggregate.mutate_on_write),
        write_outcome(first, aggregate, store, refusal).1 is Ok,
    ensures
        ({
            let held = write_outcome(first, aggregate, store, refusal).0;
            write_outcome(second, aggregate, held, refusal) == (
                held,
                Err::<(), _>(
                    ErrorView::context(
                        refused_node(aggregate.fields[0], false),
                        aggregate.fields[0].write_name(),
                        refusal,
                    ),
                ),
            )
        }),
{
    let count = aggregate.fields.len() as nat;
    let group = Seq::<Seq<char>>::empty();
    let path = group.push(aggregate.fields[0].write_name());
    let once = write_plan(first, aggregate);
    let again = write_plan(second, aggregate);
    first_request(first, aggregate, group, count);
    first_request(second, aggregate, group, count);
    let start = WritePassView { requests: once, answered: 0, failed: false };
    write_stops_at_refusal(start, store, refusal);
    let held = write_outcome(first, aggregate, store, refusal).0;
    assert(once.subrange(0, once.len() as int) =~= once);
    assert(held.written[store.written.len() as int] == once[0]);
    assert(once[0].path() == path);
    node_found(held.written, store.written.len() as int);
    assert(again[0].path() == path && again[0].creates());
    assert(held.carries_out(again[0]) is None);
    assert(path.last() == aggregate.fields[0].write_name());
}

/// Writing an aggregate whose first field overwrites its
/// node fails at once where the store holds no such node: with the error for a node that could
/// not be fetched, and with nothing changed in the store.
pub proof fn mutate_needs_target(
    values: Seq<ValueView>,
    aggregate: Aggregate,
    store: StoreModel,
    refusal: Seq<char>,
)
    requires
        record_conforms(values, aggregate),
        aggregate.fields.len() > 0,
        !(aggregate.fields[0].kind is LazyArrayHandle),
        aggregate.fields[0].mutated(aggregate.mutate_on_write),
        store.node(seq![aggregate.fields[0].write_name()]) is None,
    ensures
        write_outcome(values, aggregate, store, refusal) == (
            store,
            Err::<(), _>(
                ErrorView::context(
                    refused_node(aggregate.fields[0], true),
                    aggregate.fields[0].write_name(),
                    refusal,
                ),
            ),
        ),
{
    let group = Seq::<Seq<char>>::empty();
    let path = group.push(aggregate.fields[0].write_name());
    assert(path =~= seq![aggregate.fields[0].write_name()]);
    let plan = write_plan(values, aggregate);
    first_request(values, aggregate, group, aggregate.fields.len() as nat);
    assert(plan[0].path() == path && !plan[0].creates() && plan[0].reaches() is Some);
    assert(store.carries_out(plan[0]) is None);
    assert(path.last() == aggregate.fields[0].write_name());
}

impl Field {
    /// Writing the field overwrites its node, and so does writing every field of a nested
    /// aggregate. A handle on an array in the store writes nothing.
    pub open spec fn overwrites(&self, aggregate_default: bool) -> bool
        decreases self,
    {
        match self.kind {
            FieldKind::LazyArrayHandle { .. } => true,
            FieldKind::NestedAggregate { aggregate } => self.mutated(aggregate_default)
                && aggregate.overwrites(),
            _ => self.mutated(aggregate_default),
        }
    }
}

impl Aggregate {
    /// Writing the aggregate overwrites the node of every field.
    pub open spec fn overwrites(&self) -> bool
        decreases self,
    {
        forall|i: int|
            0 <= i < self.fields.len() ==> (#[trigger] self.fields[i]).overwrites(
                self.mutate_on_write,
            )
    }
}

/// Two requests ask the same of the same node, whatever they store.
pub open spec fn alike(a: WriteRequestView, b: WriteRequestView) -> bool {
    &&& a.path() == b.path()
    &&& a.reaches() == b.reaches()
    &&& a.creates() == b.creates()
    &&& a is WriteArray <==> b is WriteArray
}

/// What writing a field asks does not depend on the value but for what is stored; and where the
/// field overwrites, nothing is created.
proof fn field_plans_alike(
    first: ValueView,
    second: ValueView,
    field: Field,
    transpose: TransposeOpts,
    mutate_on_write: bool,
    group: Seq<Seq<char>>,
)
    ensures
        field_write_plan(first, field, transpose, mutate_on_write, group).len() == field_write_plan(
            second,
            field,
            transpose,
            mutate_on_write,
            group,
        ).len(),
        forall|k: int|
            0 <= k < field_write_plan(first, field, transpose, mutate_on_write, group).len()
                ==> alike(
                #[trigger] field_write_plan(first, field, transpose, mutate_on_write, group)[k],
                field_write_plan(second, field, transpose, mutate_on_write, group)[k],
            ) && (field.overwrites(mutate_on_write) ==> !field_write_plan(
                first,
                field,
                transpose,
                mutate_on_write,
                group,
            )[k].creates()),
    decreases field, 0nat,
{
    match field.kind {
        FieldKind::NestedAggregate { aggregate } => {
            let path = group.push(field.write_name());
            let count = aggregate.fields.len() as nat;
            let once = field_write_plan(first, field, transpose, mutate_on_write, group);
            let again = field_write_plan(second, field, transpose, mutate_on_write, group);
            let inner_once = fields_write_plan(first->Aggregate_0, aggregate, path, count);
            let inner_again = fields_write_plan(second->Aggregate_0, aggregate, path, count);
            fields_plans_alike(first->Aggregate_0, second->Aggregate_0, aggregate, path, count);
            assert forall|k: int| 0 <= k < once.len() implies alike(#[trigger] once[k], again[k])
                && (field.overwrites(mutate_on_write) ==> !once[k].creates()) by {
                if k > 0 {
                    assert(once[k] == inner_once[k - 1]);
                    assert(again[k] == inner_again[k - 1]);
                }
            }
        },
        _ => {},
    }
}

/// What writing fields asks does not depend on the values but for what is stored; and where
/// the fields overwrite, nothing is created.
proof fn fields_plans_alike(
    first: Seq<ValueView>,
    second: Seq<ValueView>,
    aggregate: Aggregate,
    group: Seq<Seq<char>>,
    count: nat,
)
    ensures
        fields_write_plan(first, aggregate, group, count).len() == fields_write_plan(
            second,
            aggregate,
            group,
            count,
        ).len(),
        forall|k: int|
            0 <= k < fields_write_plan(first, aggregate, group, count).len() ==> alike(
                #[trigger] fields_write_plan(first, aggregate, group, count)[k],
                fields_write_plan(second, aggregate, group, count)[k],
            ) && (aggregate.overwrites() ==> !fields_write_plan(
                first,
                aggregate,
                group,
                count,
            )[k].creates()),
    decreases aggregate, count,
{
    if count == 0 || count > aggregate.fields.len() {
    } else {
        let fewer = (count - 1) as nat;
        let field = aggregate.fields[count - 1];
        let once = fields_write_plan(first, aggregate, group, count);
        let again = fields_write_plan(second, aggregate, group, count);
        let front_once = fields_write_plan(first, aggregate, group, fewer);
        let front_again = fields_write_plan(second, aggregate, group, fewer);
        let own_once = field_write_plan(
            first[count - 1],
            field,
            aggregate.transpose,
            aggregate.mutate_on_write,
            group,
        );
        let own_again = field_write_plan(
            second[count - 1],
            field,
            aggregate.transpose,
            aggregate.mutate_on_write,
            group,
        );
        fields_plans_alike(first, second, aggregate, group, fewer);
        field_plans_alike(
            first[count - 1],
            second[count - 1],
            field,
            aggregate.transpose,
            aggregate.mutate_on_write,
            group,
        );
        assert forall|k: int| 0 <= k < once.len() implies alike(#[trigger] once[k], again[k]) && (
        aggregate.overwrites() ==> !once[k].creates()) by {
            if k < front_once.len() {
                assert(once[k] == front_once[k]);
                assert(again[k] == front_again[k]);
            } else {
                assert(once[k] == own_once[k - front_once.len()]);
                assert(again[k] == own_again[k - front_once.len()]);
                if aggregate.overwrites() {
                    assert(field.overwrites(aggregate.mutate_on_write));
                }
            }
        }
    }
}

/// A request that creates nothing leaves every node of the kind it was.
proof fn nodes_stay(store: StoreModel, request: WriteRequestView, path: Seq<Seq<char>>)
    requires
        !request.creates(),
        store.carries_out(request) is Some,
    ensures
        store.carries_out(request)->Some_0.node(path) == store.node(path),
{
    let after = store.carries_out(request)->Some_0;
    assert(after.written.last() == request);
    assert(after.written.drop_last() =~= store.written);
}

/// Where one pass has run to its end on a store, a pass that asks the like, and creates
/// nothing, runs to its end on any store that holds nodes of the same kinds at the same places.
proof fn like_pass_runs(
    one: WritePassView,
    held: StoreModel,
    other: WritePassView,
    store: StoreModel,
    refusal: Seq<char>,
)
    requires
        !one.failed,
        !other.failed,
        one.answered == other.answered,
        one.answered <= one.requests.len(),
        one.requests.len() == other.requests.len(),
        forall|k: int|
            0 <= k < one.requests.len() ==> alike(#[trigger] one.requests[k], other.requests[k])
                && !one.requests[k].creates(),
        forall|path: Seq<Seq<char>>| held.node(path) == store.node(path),
        write_run(one, held, refusal).2 is Ok,
    ensures
        write_run(other, store, refusal).2 is Ok,
        forall|path: Seq<Seq<char>>|
            write_run(one, held, refusal).1.node(path) == held.node(path),
    decreases one.requests.len() - one.answered,
{
    match one.pending() {
        None => {},
        Some(request) => {
            let at = one.answered as int;
            let like = other.requests[at];
            assert(alike(one.requests[at], like));
            assert(held.node(request.path()) == store.node(like.path()));
            let held_next = held.carries_out(request)->Some_0;
            let store_next = store.carries_out(like)->Some_0;
            assert forall|path: Seq<Seq<char>>| held_next.node(path) == store_next.node(path) by {
                nodes_stay(held, request, path);
                nodes_stay(store, like, path);
            }
            like_pass_runs(
                one.advanced(Ok(())).0,
                held_next,
                other.advanced(Ok(())).0,
                store_next,
                refusal,
            );
            assert forall|path: Seq<Seq<char>>|
                write_run(one, held, refusal).1.node(path) == held.node(path) by {
                nodes_stay(held, request, path);
            }
        },
    }
}

/// When an aggregate that overwrites the nodes of all its
/// fields has been written, it can be written again, with whatever values: the second pass
/// runs to its end as the first did.
pub proof fn overwriting_again_succeeds(
    first: Seq<ValueView>,
    second: Seq<ValueView>,
    aggregate: Aggregate,
    store: StoreModel,
    refusal: Seq<char>,
)
    requires
        aggregate.overwrites(),
        write_outcome(first, aggregate, store, refusal).1 is Ok,
    ensures
        write_outcome(
            second,
            aggregate,
            write_outcome(first, aggregate, store, refusal).0,
            refusal,
        ).1 is Ok,
{
    let count = aggregate.fields.len() as nat;
    let group = Seq::<Seq<char>>::empty();
    let once = WritePassView {
        requests: write_plan(first, aggregate),
        answered: 0,
        failed: false,
    };
    let again = WritePassView {
        requests: write_plan(second, aggregate),
        answered: 0,
        failed: false,
    };
    let held = write_outcome(first, aggregate, store, refusal).0;
    fields_plans_alike(first, first, aggregate, group, count);
    fields_plans_alike(first, second, aggregate, group, count);
    // the first pass has left every node of the kind it was
    like_pass_runs(once, store, once, store, refusal);
    assert forall|path: Seq<Seq<char>>| store.node(path) == held.node(path) by {}
    like_pass_runs(once, store, again, held, refusal);
}

/// A read pass hands its requests to the store in order until the store refuses one or
/// answers with something that is not fit to keep. It ends there, with the error for that
/// request, asks nothing more, and never comes to give values; if neither happens, it has kept
/// something of every answer and is complete.
pub proof fn read_stops_at_first_failure(pass: ReadPassView, store: StoreModel, refusal: Seq<char>)
    requires
        !pass.failed,
        pass.received.len() <= read_plan(pass.aggregate).len(),
    ensures
        ({
            let plan = read_plan(pass.aggregate);
            let (end, report) = read_run(pass, store, refusal);
            &&& end.aggregate == pass.aggregate
            &&& pass.received.len() <= end.received.len() <= plan.len()
            &&& end.received.take(pass.received.len() as int) == pass.received
            &&& forall|k: int|
                pass.received.len() <= k < end.received.len() ==> served(#[trigger] plan[k], store)
                    && end.received[k] == taken(plan, store)[k]
            &&& match report {
                Ok(_) => end.complete(),
                Err(error) => {
                    let request = plan[end.received.len() as int];
                    &&& end.received.len() < plan.len()
                    &&& end.pending() is None
                    &&& !end.complete()
                    &&& !served(request, store)
                    &&& error == match store.answers(request) {
                        None => request.failure(refusal),
                        Some(reply) => kept(request, reply)->Err_0,
                    }
                },
            }
        }),
    decreases read_plan(pass.aggregate).len() - pass.received.len(),
{
    let plan = read_plan(pass.aggregate);
    let at = pass.received.len() as int;
    assert(pass.received.take(at) =~= pass.received);
    match pass.pending() {
        None => {},
        Some(request) => {
            let outcome = match store.answers(request) {
                Some(reply) => Ok(reply),
                None => Err(refusal),
            };
            let (next, report) = pass.advanced(outcome);
            if report is Ok {
                read_stops_at_first_failure(next, store, refusal);
                let end = read_run(pass, store, refusal).0;
                assert(end.received.take(at) =~= next.received.take(at + 1).take(at));
                assert(next.received.take(at) =~= pass.received);
                assert(end.received[at] == next.received[at]) by {
                    assert(end.received.take(at + 1)[at] == end.received[at]);
                }
            }
        },
    }
}

/// A field that is an aggregate of its own is written into a child group: the first request
/// opens or creates the group under the name of the field, and all that follows is what the
/// nested aggregate asks for its own fields, in that group, so about nodes below it.
pub proof fn nested_is_child_group(
    value: ValueView,
    field: Field,
    transpose: TransposeOpts,
    mutate_on_write: bool,
    group: Seq<Seq<char>>,
)
    requires
        field.kind is NestedAggregate,
    ensures
        ({
            let plan = field_write_plan(value, field, transpose, mutate_on_write, group);
            let path = group.push(field.write_name());
            let nested = field.kind->NestedAggregate_aggregate;
            &&& plan.len() >= 1
            &&& plan[0] == if field.mutated(mutate_on_write) {
                WriteRequestView::OpenGroup { path }
            } else {
                WriteRequestView::CreateGroup { path }
            }
            &&& plan.skip(1) == fields_write_plan(
                value->Aggregate_0,
                nested,
                path,
                nested.fields.len() as nat,
            )
            &&& forall|k: int|
                1 <= k < plan.len() ==> under((#[trigger] plan[k]).path(), path) && plan[k].path().len()
                    > path.len()
        }),
{
    let plan = field_write_plan(value, field, transpose, mutate_on_write, group);
    let path = group.push(field.write_name());
    let nested = field.kind->NestedAggregate_aggregate;
    let inner = fields_write_plan(value->Aggregate_0, nested, path, nested.fields.len() as nat);
    fields_write_plan_under(value->Aggregate_0, nested, path, nested.fields.len() as nat);
    assert(plan.skip(1) =~= inner);
    assert forall|k: int| 1 <= k < plan.len() implies under((#[trigger] plan[k]).path(), path)
        && plan[k].path().len() > path.len() by {
        assert(plan[k] == inner[k - 1]);
    }
}

/// Transposing means something to arrays only: a scalar, a nested aggregate and a handle on an
/// array in the store are written and read in one way, whatever is said of transposing.
pub proof fn transposing_is_for_arrays(
    value: ValueView,
    kind: FieldKind,
    group: Seq<Seq<char>>,
    name: Seq<char>,
    mutate_on_write: bool,
    received: Seq<Option<ValueView>>,
    from: int,
)
    requires
        !(kind is DenseArray),
    ensures
        write_group_plan(value, kind, group, name, true, mutate_on_write) == write_group_plan(
            value,
            kind,
            group,
            name,
            false,
            mutate_on_write,
        ),
        read_group_value(kind, true, received, from) == read_group_value(
            kind,
            false,
            received,
            from,
        ),
{
}

/// Writing a handle on an array in the store asks nothing of the store, and reading one asks
/// for the dataset to be opened and described, so that it can be held against what the field
/// declares before anything is read through the handle.
pub proof fn handles_are_bound_not_copied(
    value: ValueView,
    kind: FieldKind,
    group: Seq<Seq<char>>,
    name: Seq<char>,
    mutate_on_write: bool,
)
    requires
        kind is LazyArrayHandle,
    ensures
        write_group_plan(value, kind, group, name, false, mutate_on_write).len() == 0,
        read_group_plan(kind, group, name) == seq![
            ReadRequestView::OpenDataset { path: group.push(name) },
            ReadRequestView::Describe {
                path: group.push(name),
                datatype: kind->LazyArrayHandle_datatype,
                ndim: kind->LazyArrayHandle_ndim,
            },
        ],
{
}

} // verus!
