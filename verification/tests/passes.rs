//! Passes carried out against a store that lives in memory.

use hdf5_container::aggregate::{
    record_conforms_to, Aggregate, Field, FieldKind, Scalar, Value,
};
use hdf5_container::array::{Datatype, NdArray};
use hdf5_container::error::{Error, StoreError};
use hdf5_container::lazy_array::{Dataset, LazyArray};
use hdf5_container::policy::{Rename, TransposeOpts};
use hdf5_container::read::{read_group, ReadPass};
use hdf5_container::store::{ReadRequest, Reply, WriteRequest};
use hdf5_container::write::{write_group, WritePass};
use ndarray::{Array, ArrayD, IxDyn};
use std::collections::{HashMap, HashSet};

type Arr3 = ndarray::Array3<f64>;

#[derive(Clone, Debug)]
struct Stored {
    datatype: Datatype,
    shape: Vec<usize>,
    elements: Vec<u64>,
}

#[derive(Default)]
struct Store {
    groups: HashSet<Vec<String>>,
    datasets: HashMap<Vec<String>, Stored>,
    attributes: HashMap<Vec<String>, Option<Scalar>>,
    attribute_types: HashMap<Vec<String>, Datatype>,
}

fn refusal(words: &str) -> StoreError {
    StoreError::new(words.to_string())
}

impl Store {
    fn create() -> Store {
        Store::default()
    }

    fn taken(&self, path: &Vec<String>) -> bool {
        self.groups.contains(path) || self.datasets.contains_key(path)
            || self.attributes.contains_key(path)
    }

    fn new_dataset(&mut self, name: &str, datatype: Datatype, shape: &[usize]) -> Result<(), StoreError> {
        let path = vec![name.to_string()];
        if self.taken(&path) {
            return Err(refusal("name already exists"));
        }
        let len = shape.iter().product();
        self.datasets.insert(path, Stored { datatype, shape: shape.to_vec(), elements: vec![0; len] });
        Ok(())
    }

    fn write_dataset(&mut self, path: &Vec<String>, array: &NdArray) -> Result<(), StoreError> {
        match self.datasets.get_mut(path) {
            Some(stored) if stored.datatype == array.datatype() && &stored.shape == array.shape() => {
                stored.elements = array.elements().clone();
                Ok(())
            }
            Some(_) => Err(refusal("shape or type of the array is not that of the dataset")),
            None => Err(refusal("no such dataset")),
        }
    }

    fn dataset(&self, name: &str) -> Result<NdArray, StoreError> {
        match self.datasets.get(&vec![name.to_string()]) {
            Some(stored) => Ok(NdArray::from_shape_vec(
                stored.datatype,
                stored.shape.clone(),
                stored.elements.clone(),
            )
            .unwrap()),
            None => Err(refusal("no such dataset")),
        }
    }

    fn describe(&self, path: &Vec<String>) -> Option<Dataset> {
        self.datasets.get(path).map(|stored| {
            Dataset::new(format!("/{}", path.join("/")), stored.shape.clone(), Ok(stored.datatype))
        })
    }

    fn carry_out(&mut self, request: &WriteRequest) -> Result<(), StoreError> {
        match request {
            WriteRequest::OpenGroup { path } => {
                if self.groups.contains(path) { Ok(()) } else { Err(refusal("no such group")) }
            }
            WriteRequest::CreateGroup { path } => {
                if self.taken(path) {
                    return Err(refusal("name already exists"));
                }
                self.groups.insert(path.clone());
                Ok(())
            }
            WriteRequest::OpenDataset { path } => {
                if self.datasets.contains_key(path) { Ok(()) } else { Err(refusal("no such dataset")) }
            }
            WriteRequest::CreateDataset { path, datatype, shape } => {
                if self.taken(path) {
                    return Err(refusal("name already exists"));
                }
                let len = shape.iter().product();
                self.datasets.insert(
                    path.clone(),
                    Stored { datatype: *datatype, shape: shape.clone(), elements: vec![0; len] },
                );
                Ok(())
            }
            WriteRequest::OpenAttribute { path } => {
                if self.attributes.contains_key(path) { Ok(()) } else { Err(refusal("no such attribute")) }
            }
            WriteRequest::CreateAttribute { path, datatype } => {
                if self.taken(path) {
                    return Err(refusal("name already exists"));
                }
                self.attributes.insert(path.clone(), None);
                self.attribute_types.insert(path.clone(), *datatype);
                Ok(())
            }
            WriteRequest::WriteArray { path, array } => self.write_dataset(path, array),
            WriteRequest::WriteScalar { path, scalar } => {
                if self.attribute_types.get(path) != Some(&scalar.datatype) {
                    return Err(refusal("type of the value is not that of the attribute"));
                }
                self.attributes.insert(path.clone(), Some(*scalar));
                Ok(())
            }
        }
    }

    fn answer(&self, request: &ReadRequest) -> Result<Reply, StoreError> {
        match request {
            ReadRequest::OpenGroup { path } => {
                if self.groups.contains(path) { Ok(Reply::Opened) } else { Err(refusal("no such group")) }
            }
            ReadRequest::OpenDataset { path } => {
                if self.datasets.contains_key(path) { Ok(Reply::Opened) } else { Err(refusal("no such dataset")) }
            }
            ReadRequest::OpenAttribute { path } => {
                if self.attributes.contains_key(path) { Ok(Reply::Opened) } else { Err(refusal("no such attribute")) }
            }
            ReadRequest::ReadArray { path, datatype, ndim } => {
                let stored = &self.datasets[path];
                if stored.datatype != *datatype || stored.shape.len() != *ndim {
                    return Err(refusal("the dataset is not an array of that type"));
                }
                Ok(Reply::Array(
                    NdArray::from_shape_vec(stored.datatype, stored.shape.clone(), stored.elements.clone())
                        .unwrap(),
                ))
            }
            ReadRequest::ReadScalar { path, datatype } => match self.attributes[path] {
                Some(scalar) if scalar.datatype == *datatype => Ok(Reply::Scalar(scalar)),
                _ => Err(refusal("the attribute is not a value of that type")),
            },
            ReadRequest::Describe { path, .. } => Ok(Reply::Dataset(self.describe(path).unwrap())),
        }
    }

    fn read_point(&self, name: &str, index: &[usize]) -> Result<NdArray, StoreError> {
        let stored = self.datasets.get(&vec![name.to_string()]).ok_or(refusal("no such dataset"))?;
        if index.len() != stored.shape.len() || index.iter().zip(&stored.shape).any(|(i, n)| i >= n) {
            return Err(refusal("selection out of bounds"));
        }
        let at = index.iter().zip(&stored.shape).fold(0, |at, (i, n)| at * n + i);
        Ok(NdArray::from_shape_vec(stored.datatype, vec![], vec![stored.elements[at]]).unwrap())
    }

    fn write_all(&mut self, name: &str, array: &NdArray) -> Result<(), StoreError> {
        self.write_dataset(&vec![name.to_string()], array)
    }
}

fn write_hdf5(aggregate: &Aggregate, values: &Vec<Value>, store: &mut Store) -> Result<(), Error> {
    assert!(aggregate.is_writable(), "transpose not supported for writing lazy arrays");
    assert!(record_conforms_to(values, aggregate));
    let mut pass = WritePass::new(aggregate, values);
    loop {
        let outcome = match pass.pending() {
            Some(request) => store.carry_out(request),
            None => return Ok(()),
        };
        let (next, report) = pass.advance(outcome);
        report?;
        pass = next;
    }
}

fn read_hdf5(aggregate: &Aggregate, store: &Store) -> Result<Vec<Value>, Error> {
    assert!(aggregate.is_readable(), "transposing not supported for LazyArray s");
    let mut pass = ReadPass::new(aggregate);
    loop {
        let outcome = match pass.pending() {
            Some(request) => {
                let outcome = store.answer(request);
                if let Ok(reply) = &outcome {
                    assert!(request.answered_by(reply));
                }
                outcome
            }
            None => break,
        };
        let (next, report) = pass.advance(outcome);
        report?;
        pass = next;
    }
    assert!(pass.complete());
    Ok(pass.finish())
}

fn double(array: &ArrayD<f64>) -> NdArray {
    let bits = array.iter().map(|x| x.to_bits()).collect();
    NdArray::from_shape_vec(Datatype::Float64, array.shape().to_vec(), bits).unwrap()
}

fn single(array: &ArrayD<f32>) -> NdArray {
    let bits = array.iter().map(|x| u64::from(x.to_bits())).collect();
    NdArray::from_shape_vec(Datatype::Float32, array.shape().to_vec(), bits).unwrap()
}

fn doubles(array: &NdArray) -> ArrayD<f64> {
    assert_eq!(array.datatype(), Datatype::Float64);
    let values = array.elements().iter().map(|bits| f64::from_bits(*bits)).collect();
    ArrayD::from_shape_vec(IxDyn(array.shape()), values).unwrap()
}

fn singles(array: &NdArray) -> ArrayD<f32> {
    assert_eq!(array.datatype(), Datatype::Float32);
    let values = array.elements().iter().map(|bits| f32::from_bits(*bits as u32)).collect();
    ArrayD::from_shape_vec(IxDyn(array.shape()), values).unwrap()
}

fn array_of(value: &Value) -> &NdArray {
    match value {
        Value::Array(array) => array,
        other => panic!("not an array: {:?}", other),
    }
}

fn linspace(start: f64, end: f64, shape: (usize, usize, usize)) -> Arr3 {
    Array::linspace(start, end, shape.0 * shape.1 * shape.2).into_shape(shape).unwrap()
}

fn arr3_field(name: &str) -> Field {
    Field::new(name.to_string(), FieldKind::DenseArray { datatype: Datatype::Float64, ndim: 3 })
}

fn one_array(field: Field) -> Aggregate {
    Aggregate::new(vec![field])
}

/// An aggregate of one array of three axes, `one`.
fn test_struct() -> Aggregate {
    one_array(arr3_field("one"))
}

#[test]
fn simple_read_write() {
    let mut file = Store::create();

    let shape = (5, 20, 20);

    // write data out
    let arr = linspace(0., 100., shape);
    file.new_dataset("one", Datatype::Float64, &[5, 20, 20]).unwrap();
    file.write_all("one", &double(&arr.clone().into_dyn())).unwrap();

    // then parse the data
    let read_data = read_hdf5(&test_struct(), &file).unwrap();

    // check the arrays are the same
    assert_eq!(doubles(array_of(&read_data[0])), arr.into_dyn());
}

/// An aggregate of one array, read from "two" and written to "one".
fn rename_array() -> Aggregate {
    let mut field = arr3_field("one");
    field.rename = Rename { read: Some("two".to_string()), write: Some("one".to_string()), both: None };
    one_array(field)
}

#[test]
fn simple_rename() {
    let mut file = Store::create();

    let shape = (5, 4, 4);

    // write data out
    let arr = linspace(0., (shape.0 * shape.1 * shape.2) as f64 - 1., shape);
    file.new_dataset("two", Datatype::Float64, &[5, 4, 4]).unwrap();
    file.write_all("two", &double(&arr.clone().into_dyn())).unwrap();

    // then parse the data
    let read_data = read_hdf5(&rename_array(), &file).unwrap();

    // check the arrays are the same
    assert_eq!(doubles(array_of(&read_data[0])), arr.into_dyn());
}

#[test]
fn rename_reads_from_the_read_name_not_the_write_name() {
    let mut file = Store::create();
    let written = linspace(0., 79., (5, 4, 4));
    let other = linspace(100., 179., (5, 4, 4));

    // writing produces the dataset "one"
    write_hdf5(&rename_array(), &vec![Value::Array(double(&written.clone().into_dyn()))], &mut file)
        .unwrap();
    assert_eq!(doubles(&file.dataset("one").unwrap()), written.clone().into_dyn());

    // an independent dataset named "two" with other values
    file.new_dataset("two", Datatype::Float64, &[5, 4, 4]).unwrap();
    file.write_all("two", &double(&other.clone().into_dyn())).unwrap();

    let read_data = read_hdf5(&rename_array(), &file).unwrap();
    assert_eq!(doubles(array_of(&read_data[0])), other.into_dyn());
    assert_ne!(doubles(array_of(&read_data[0])), written.into_dyn());
}

#[test]
fn two_aggregates_meet_at_one_dataset() {
    // one aggregate writes its field `left` to "shared", another reads its field `right` from it
    let mut left = arr3_field("left");
    left.rename = Rename { read: None, write: Some("shared".to_string()), both: None };
    let mut right = arr3_field("right");
    right.rename = Rename { read: None, write: None, both: Some("shared".to_string()) };

    let mut file = Store::create();
    let arr = linspace(0., 79., (5, 4, 4));
    write_hdf5(&one_array(left), &vec![Value::Array(double(&arr.clone().into_dyn()))], &mut file)
        .unwrap();
    let read_data = read_hdf5(&one_array(right), &file).unwrap();
    assert_eq!(doubles(array_of(&read_data[0])), arr.into_dyn());
}

#[test]
fn simple_write_array() {
    let mut file = Store::create();

    let shape = (5, 20, 20);
    let arr = linspace(0., 100., shape);

    let x = vec![Value::Array(double(&arr.clone().into_dyn()))];

    write_hdf5(&test_struct(), &x, &mut file).unwrap();

    let new_arr = doubles(&file.dataset("one").unwrap());

    // check the arrays are the same
    assert_eq!(arr.into_dyn(), new_arr);
}

#[test]
fn write_then_read_gives_the_array_back() {
    let mut file = Store::create();
    let arr = linspace(0., 100., (5, 20, 20));
    let x = vec![Value::Array(double(&arr.clone().into_dyn()))];
    write_hdf5(&test_struct(), &x, &mut file).unwrap();
    let read_data = read_hdf5(&test_struct(), &file).unwrap();
    assert_eq!(read_data, x);
    let read_arr = doubles(array_of(&read_data[0]));
    for ((i, j, k), value) in arr.indexed_iter() {
        assert_eq!(read_arr[[i, j, k]], *value);
    }
}

/// An aggregate of one array, transposed before it is written.
fn transpose_write() -> Aggregate {
    let mut field = arr3_field("one");
    field.transpose = Some(TransposeOpts::Write);
    one_array(field)
}

#[test]
fn write_transposed() {
    let mut file = Store::create();

    let shape = (5, 20, 20);
    let arr = linspace(0., 100., shape);

    let x = vec![Value::Array(double(&arr.clone().into_dyn()))];

    write_hdf5(&transpose_write(), &x, &mut file).unwrap();

    let new_arr = doubles(&file.dataset("one").unwrap());

    // check the arrays were transposed
    assert_eq!(arr.t().into_dyn(), new_arr);
}

#[test]
fn write_transposed_inherit() {
    // the aggregate transposes before writing, and the field follows it
    let mut aggregate = test_struct();
    aggregate.transpose = TransposeOpts::Write;

    let mut file = Store::create();

    let shape = (5, 20, 20);
    let arr = linspace(0., 100., shape);

    let x = vec![Value::Array(double(&arr.clone().into_dyn()))];

    write_hdf5(&aggregate, &x, &mut file).unwrap();

    let new_arr = doubles(&file.dataset("one").unwrap());

    // check the arrays were transposed
    assert_eq!(arr.t().into_dyn(), new_arr);
}

#[test]
fn write_transposed_override() {
    // the aggregate transposes before writing, but the field says otherwise
    let mut field = arr3_field("one");
    field.transpose = Some(TransposeOpts::Neither);
    let mut aggregate = one_array(field);
    aggregate.transpose = TransposeOpts::Write;

    let mut file = Store::create();

    let shape = (5, 20, 20);
    let arr = linspace(0., 100., shape);

    let x = vec![Value::Array(double(&arr.clone().into_dyn()))];

    write_hdf5(&aggregate, &x, &mut file).unwrap();

    let new_arr = doubles(&file.dataset("one").unwrap());

    // check the arrays are the same
    assert_eq!(arr.into_dyn(), new_arr);
}

#[test]
/// ensure non-standard layout arrays (non-contiguous) can be written without errors
fn manually_transposed_array() {
    let mut file = Store::create();

    let shape = (5, 4, 4);

    // write data out
    let arr = linspace(0., (shape.0 * shape.1 * shape.2) as f64 - 1., shape);

    // transpose the data outside of the library
    let arr = arr.t().to_owned();

    // the array is not standard layout
    assert!(arr.is_standard_layout() == false);

    let x = vec![Value::Array(double(&arr.clone().into_dyn()))];

    write_hdf5(&transpose_write(), &x, &mut file).unwrap();

    let new_arr = doubles(&file.dataset("one").unwrap());

    // check the arrays are the same
    assert_eq!(arr.t().into_dyn(), new_arr);
}

#[test]
fn transposed_both_ways_comes_back_as_it_was() {
    for policy in [TransposeOpts::Both, TransposeOpts::Neither] {
        let mut field = arr3_field("one");
        field.transpose = Some(policy);
        let aggregate = one_array(field);
        let mut file = Store::create();
        let arr = linspace(0., 59., (5, 4, 3)).t().to_owned();
        let x = vec![Value::Array(double(&arr.clone().into_dyn()))];
        write_hdf5(&aggregate, &x, &mut file).unwrap();
        assert_eq!(read_hdf5(&aggregate, &file).unwrap(), x);
    }
}

#[test]
fn written_transposed_and_read_transposed_by_another_aggregate() {
    let mut reading = arr3_field("one");
    reading.transpose = Some(TransposeOpts::Read);
    let mut file = Store::create();
    let arr = linspace(0., 59., (5, 4, 3));
    let x = vec![Value::Array(double(&arr.clone().into_dyn()))];
    write_hdf5(&transpose_write(), &x, &mut file).unwrap();
    assert_eq!(file.dataset("one").unwrap().shape(), &vec![3, 4, 5]);
    assert_eq!(read_hdf5(&one_array(reading), &file).unwrap(), x);
}

/// An aggregate of one array, which overwrites when it is written.
fn mutate_on_write_struct() -> Aggregate {
    let mut aggregate = test_struct();
    aggregate.mutate_on_write = true;
    aggregate
}

#[test]
fn mutate_on_write() {
    let mut file = Store::create();

    let shape = (5, 4, 4);

    // write data out
    let arr = linspace(0., (shape.0 * shape.1 * shape.2) as f64 - 1., shape);

    // create an existing dataset so we will error in write_hdf5()
    // if we try to create it without mutating
    file.new_dataset("one", Datatype::Float64, &[5, 4, 4]).unwrap();

    let x = vec![Value::Array(double(&arr.clone().into_dyn()))];

    write_hdf5(&mutate_on_write_struct(), &x, &mut file).unwrap();

    let new_arr = doubles(&file.dataset("one").unwrap());

    // check the arrays are the same
    assert_eq!(arr.into_dyn(), new_arr);
}

#[test]
fn mutating_twice_overwrites() {
    let mut file = Store::create();
    file.new_dataset("one", Datatype::Float64, &[5, 4, 4]).unwrap();
    let first = vec![Value::Array(double(&linspace(0., 79., (5, 4, 4)).into_dyn()))];
    let second = vec![Value::Array(double(&linspace(100., 179., (5, 4, 4)).into_dyn()))];
    write_hdf5(&mutate_on_write_struct(), &first, &mut file).unwrap();
    write_hdf5(&mutate_on_write_struct(), &second, &mut file).unwrap();
    assert_eq!(read_hdf5(&mutate_on_write_struct(), &file).unwrap(), second);
}

#[test]
fn creating_twice_conflicts() {
    let mut file = Store::create();
    let first = vec![Value::Array(double(&linspace(0., 79., (5, 4, 4)).into_dyn()))];
    let second = vec![Value::Array(double(&linspace(100., 179., (5, 4, 4)).into_dyn()))];
    write_hdf5(&test_struct(), &first, &mut file).unwrap();
    let error = write_hdf5(&test_struct(), &second, &mut file).unwrap_err();
    assert!(matches!(error, Error::CreateDataset(_)));
    assert_eq!(
        error.message(),
        "Failed to create a dataset for `one`\n\nsource:\nname already exists"
    );
    // the first write is still there
    assert_eq!(read_hdf5(&test_struct(), &file).unwrap(), first);
}

#[test]
fn mutating_what_is_not_there_fails() {
    let mut file = Store::create();
    let x = vec![Value::Array(double(&linspace(0., 79., (5, 4, 4)).into_dyn()))];
    let error = write_hdf5(&mutate_on_write_struct(), &x, &mut file).unwrap_err();
    assert!(matches!(error, Error::FetchDataset(_)));
    assert_eq!(
        error.message(),
        "Failed to fetch existing dataset `one` when writing to file\n\nsource:\nno such dataset"
    );
}

#[test]
fn mutating_with_another_shape_fails_at_the_write() {
    let mut file = Store::create();
    file.new_dataset("one", Datatype::Float64, &[2, 2, 2]).unwrap();
    let x = vec![Value::Array(double(&linspace(0., 79., (5, 4, 4)).into_dyn()))];
    let error = write_hdf5(&mutate_on_write_struct(), &x, &mut file).unwrap_err();
    assert!(matches!(error, Error::WriteArray(_)));
    assert_eq!(
        error.message(),
        "Failed to write array `one` to dataset\n\nsource:\nshape or type of the array is not that of the dataset"
    );
}

#[test]
fn reading_a_missing_dataset_fails() {
    let file = Store::create();
    let error = read_hdf5(&test_struct(), &file).unwrap_err();
    assert!(matches!(error, Error::MissingDataset(_)));
    assert_eq!(error.message(), "failed to read dataset with name `one`\n\nsource:\nno such dataset");
}

#[test]
fn reading_a_dataset_of_another_type_fails() {
    let mut file = Store::create();
    file.new_dataset("one", Datatype::Int32, &[5, 4, 4]).unwrap();
    let error = read_hdf5(&test_struct(), &file).unwrap_err();
    assert!(matches!(error, Error::SerializeArray(_)));
    assert_eq!(
        error.message(),
        "dataset `one` exists, but it could not be read to the array type provided\n\nsource:\nthe dataset is not an array of that type"
    );

    let mut file = Store::create();
    file.new_dataset("one", Datatype::Float64, &[5, 4]).unwrap();
    assert!(matches!(read_hdf5(&test_struct(), &file).unwrap_err(), Error::SerializeArray(_)));
}

fn scalar_field(name: &str, datatype: Datatype) -> Field {
    Field::new(name.to_string(), FieldKind::Scalar { datatype })
}

#[test]
fn scalars_are_attributes() {
    let aggregate = Aggregate::new(vec![
        scalar_field("count", Datatype::UInt32),
        scalar_field("ratio", Datatype::Float64),
    ]);
    let values = vec![
        Value::Scalar(Scalar { datatype: Datatype::UInt32, bits: 7 }),
        Value::Scalar(Scalar { datatype: Datatype::Float64, bits: 0.25f64.to_bits() }),
    ];
    let mut file = Store::create();
    write_hdf5(&aggregate, &values, &mut file).unwrap();
    assert!(file.datasets.is_empty());
    assert_eq!(
        file.attributes[&vec!["count".to_string()]],
        Some(Scalar { datatype: Datatype::UInt32, bits: 7 })
    );
    assert_eq!(read_hdf5(&aggregate, &file).unwrap(), values);
}

#[test]
fn transpose_is_ignored_on_scalars() {
    let mut field = scalar_field("count", Datatype::Int64);
    field.transpose = Some(TransposeOpts::Both);
    let aggregate = Aggregate::new(vec![field]);
    let values = vec![Value::Scalar(Scalar { datatype: Datatype::Int64, bits: (-3i64) as u64 })];
    let mut file = Store::create();
    write_hdf5(&aggregate, &values, &mut file).unwrap();
    assert_eq!(read_hdf5(&aggregate, &file).unwrap(), values);
}

#[test]
fn attribute_errors() {
    let aggregate = Aggregate::new(vec![scalar_field("count", Datatype::UInt32)]);
    let values = vec![Value::Scalar(Scalar { datatype: Datatype::UInt32, bits: 7 })];

    // reading what is not there
    let file = Store::create();
    let error = read_hdf5(&aggregate, &file).unwrap_err();
    assert!(matches!(error, Error::MissingAttribute(_)));
    assert_eq!(
        error.message(),
        "Failed to fetch attribute `count` when reading from file\n\nsource:\nno such attribute"
    );

    // creating what is there
    let mut file = Store::create();
    write_hdf5(&aggregate, &values, &mut file).unwrap();
    let error = write_hdf5(&aggregate, &values, &mut file).unwrap_err();
    assert!(matches!(error, Error::CreateAttribute(_)));
    assert_eq!(
        error.message(),
        "Failed to create a attribute for `count`\n\nsource:\nname already exists"
    );

    // reading it as another type
    let other = Aggregate::new(vec![scalar_field("count", Datatype::Int8)]);
    let error = read_hdf5(&other, &file).unwrap_err();
    assert!(matches!(error, Error::SerializeAttribute(_)));
    assert_eq!(
        error.message(),
        "Failed to read attribute `count` to the correct rust type\n\nsource:\nthe attribute is not a value of that type"
    );

    // overwriting what is not there
    let mut mutating = Aggregate::new(vec![scalar_field("count", Datatype::UInt32)]);
    mutating.mutate_on_write = true;
    let mut empty = Store::create();
    let error = write_hdf5(&mutating, &values, &mut empty).unwrap_err();
    assert!(matches!(error, Error::FetchAttribute(_)));
    assert_eq!(
        error.message(),
        "Failed to fetch existing attribute `count` when writing to file\n\nsource:\nno such attribute"
    );

    // overwriting with a value of another type
    let mut retyped = Aggregate::new(vec![scalar_field("count", Datatype::Int8)]);
    retyped.mutate_on_write = true;
    let error = write_hdf5(
        &retyped,
        &vec![Value::Scalar(Scalar { datatype: Datatype::Int8, bits: 1 })],
        &mut file,
    )
    .unwrap_err();
    assert!(matches!(error, Error::WriteAttribute(_)));
    assert_eq!(
        error.message(),
        "Failed to write attribute `count` to dataset\n\nsource:\ntype of the value is not that of the attribute"
    );

    // overwriting succeeds where the attribute is there, and overwrites
    let again = vec![Value::Scalar(Scalar { datatype: Datatype::UInt32, bits: 8 })];
    write_hdf5(&mutating, &again, &mut file).unwrap();
    assert_eq!(read_hdf5(&aggregate, &file).unwrap(), again);
}

fn nested() -> Aggregate {
    let inner = Aggregate::new(vec![arr3_field("one"), scalar_field("count", Datatype::UInt8)]);
    Aggregate::new(vec![
        scalar_field("version", Datatype::UInt16),
        Field::new("inner".to_string(), FieldKind::NestedAggregate { aggregate: inner }),
        arr3_field("one"),
    ])
}

fn nested_values() -> Vec<Value> {
    vec![
        Value::Scalar(Scalar { datatype: Datatype::UInt16, bits: 2 }),
        Value::Aggregate(vec![
            Value::Array(double(&linspace(0., 23., (2, 3, 4)).into_dyn())),
            Value::Scalar(Scalar { datatype: Datatype::UInt8, bits: 9 }),
        ]),
        Value::Array(double(&linspace(5., 10., (1, 2, 3)).into_dyn())),
    ]
}

#[test]
fn nested_aggregates_are_child_groups() {
    let mut file = Store::create();
    write_hdf5(&nested(), &nested_values(), &mut file).unwrap();

    let path = |names: &[&str]| names.iter().map(|name| name.to_string()).collect::<Vec<String>>();
    assert!(file.groups.contains(&path(&["inner"])));
    assert!(file.datasets.contains_key(&path(&["inner", "one"])));
    assert!(file.attributes.contains_key(&path(&["inner", "count"])));
    assert!(file.datasets.contains_key(&path(&["one"])));
    assert_eq!(file.datasets[&path(&["inner", "one"])].shape, vec![2, 3, 4]);
    assert_eq!(file.datasets[&path(&["one"])].shape, vec![1, 2, 3]);

    assert_eq!(read_hdf5(&nested(), &file).unwrap(), nested_values());
}

#[test]
fn requests_come_in_the_order_of_declaration() {
    let values = nested_values();
    let aggregate = nested();
    let mut pass = WritePass::new(&aggregate, &values);
    let mut seen = Vec::new();
    while let Some(request) = pass.pending() {
        seen.push(format!(
            "{} {}",
            match request {
                WriteRequest::OpenGroup { .. } => "open group",
                WriteRequest::CreateGroup { .. } => "create group",
                WriteRequest::OpenDataset { .. } => "open dataset",
                WriteRequest::CreateDataset { .. } => "create dataset",
                WriteRequest::OpenAttribute { .. } => "open attribute",
                WriteRequest::CreateAttribute { .. } => "create attribute",
                WriteRequest::WriteArray { .. } => "write array",
                WriteRequest::WriteScalar { .. } => "write scalar",
            },
            request.path().join("/")
        ));
        pass = pass.advance(Ok(())).0;
    }
    assert!(pass.complete());
    assert_eq!(
        seen,
        vec![
            "create attribute version",
            "write scalar version",
            "create group inner",
            "create dataset inner/one",
            "write array inner/one",
            "create attribute inner/count",
            "write scalar inner/count",
            "create dataset one",
            "write array one",
        ]
    );
}

#[test]
fn group_errors() {
    // reading from a group that is not there
    let file = Store::create();
    let only_inner = || {
        Aggregate::new(vec![Field::new(
            "inner".to_string(),
            FieldKind::NestedAggregate { aggregate: Aggregate::new(vec![arr3_field("one")]) },
        )])
    };
    let values = vec![Value::Aggregate(vec![Value::Array(double(
        &linspace(0., 23., (2, 3, 4)).into_dyn(),
    ))])];
    let error = read_hdf5(&only_inner(), &file).unwrap_err();
    assert!(matches!(error, Error::MissingGroup(_)));
    assert_eq!(error.message(), "Failed to read a group `inner`\n\nsource:\nno such group");

    // creating a group twice
    let mut file = Store::create();
    write_hdf5(&only_inner(), &values, &mut file).unwrap();
    let error = write_hdf5(&only_inner(), &values, &mut file).unwrap_err();
    assert!(matches!(error, Error::CreateGroup(_)));
    assert_eq!(error.message(), "Failed to create a group for `inner`\n\nsource:\nname already exists");

    // overwriting in a group that is not there
    let mut mutating = only_inner();
    mutating.mutate_on_write = true;
    let mut empty = Store::create();
    let error = write_hdf5(&mutating, &values, &mut empty).unwrap_err();
    assert!(matches!(error, Error::MissingGroup(_)));

    // overwriting in a group that is there: the group is opened, and its own fields are created
    // or overwritten as the nested aggregate says
    let mut file = Store::create();
    file.groups.insert(vec!["inner".to_string()]);
    write_hdf5(&mutating, &values, &mut file).unwrap();
    assert_eq!(read_hdf5(&only_inner(), &file).unwrap(), values);
}

#[test]
fn a_failure_leaves_what_was_written_before() {
    let aggregate = Aggregate::new(vec![arr3_field("one"), arr3_field("two"), arr3_field("three")]);
    let arr = |start: f64| Value::Array(double(&linspace(start, start + 23., (2, 3, 4)).into_dyn()));
    let values = vec![arr(0.), arr(100.), arr(200.)];
    let mut file = Store::create();
    file.new_dataset("two", Datatype::Float64, &[2, 3, 4]).unwrap();

    let error = write_hdf5(&aggregate, &values, &mut file).unwrap_err();
    assert!(matches!(error, Error::CreateDataset(_)));
    assert_eq!(error.message(), "Failed to create a dataset for `two`\n\nsource:\nname already exists");
    // the first field is written, the third was never tried
    assert_eq!(Value::Array(file.dataset("one").unwrap()), values[0]);
    assert!(file.dataset("three").is_err());

    // and a read that fails gives no part of the aggregate
    let error = read_hdf5(&aggregate, &file).unwrap_err();
    assert!(matches!(error, Error::MissingDataset(_)));
    assert_eq!(error.message(), "failed to read dataset with name `three`\n\nsource:\nno such dataset");
}

#[test]
fn a_pass_asks_nothing_after_a_refusal() {
    let aggregate = Aggregate::new(vec![arr3_field("one"), arr3_field("two")]);
    let pass = ReadPass::new(&aggregate);
    assert!(matches!(pass.pending(), Some(ReadRequest::OpenDataset { .. })));
    let (pass, report) = pass.advance(Err(refusal("gone")));
    assert!(matches!(report, Err(Error::MissingDataset(_))));
    assert!(pass.pending().is_none());
    assert!(!pass.complete());

    let values = vec![
        Value::Array(double(&linspace(0., 23., (2, 3, 4)).into_dyn())),
        Value::Array(double(&linspace(0., 23., (2, 3, 4)).into_dyn())),
    ];
    let pass = WritePass::new(&aggregate, &values);
    let (pass, report) = pass.advance(Ok(()));
    assert!(report.is_ok());
    assert!(matches!(pass.pending(), Some(WriteRequest::WriteArray { .. })));
    let (pass, report) = pass.advance(Err(refusal("disk full")));
    assert_eq!(
        report.unwrap_err().message(),
        "Failed to write array `one` to dataset\n\nsource:\ndisk full"
    );
    assert!(pass.pending().is_none());
    assert!(!pass.complete());
}

/// An aggregate of one array of single-precision numbers, `dim3`.
fn helper() -> Aggregate {
    Aggregate::new(vec![Field::new(
        "dim3".to_string(),
        FieldKind::DenseArray { datatype: Datatype::Float32, ndim: 3 },
    )])
}

/// An aggregate of one lazy array on the dataset of the same name, `dim3`.
fn lazy_test() -> Aggregate {
    Aggregate::new(vec![Field::new(
        "dim3".to_string(),
        FieldKind::LazyArrayHandle { datatype: Datatype::Float32, ndim: 3 },
    )])
}

fn lazy_of(value: &Value) -> &LazyArray {
    match value {
        Value::Lazy(lazy) => lazy,
        other => panic!("not a lazy array: {:?}", other),
    }
}

#[test]
fn construct_array() {
    let mut file = Store::create();
    let data = ndarray::Array3::<f32>::zeros((5, 5, 5));

    let helper_values = vec![Value::Array(single(&data.clone().into_dyn()))];
    write_hdf5(&helper(), &helper_values, &mut file).unwrap();

    // ensure we can construct
    let lazy_reader = read_hdf5(&lazy_test(), &file).unwrap();
    assert_eq!(lazy_of(&lazy_reader[0]).dataset().shape(), &vec![5, 5, 5]);
    assert_eq!(lazy_of(&lazy_reader[0]).dataset().name(), "/dim3");
}

#[test]
fn slice_array() {
    let mut file = Store::create();
    let mut data = ndarray::Array3::<f32>::zeros((5, 5, 5));

    data[[1, 1, 1]] = 10.;

    data[[3, 2, 1]] = 15.;

    // write some data to a file
    let helper_values = vec![Value::Array(single(&data.clone().into_dyn()))];
    write_hdf5(&helper(), &helper_values, &mut file).unwrap();

    // now, lazily read the data from the file
    let lazy_reader = read_hdf5(&lazy_test(), &file).unwrap();
    let dim3 = lazy_of(&lazy_reader[0]);

    let x = singles(&dim3.slice(file.read_point("dim3", &[1, 1, 1])).unwrap()).into_iter().next().unwrap();
    assert_eq!(x, 10.);

    let y = singles(&dim3.slice(file.read_point("dim3", &[3, 2, 1])).unwrap()).into_iter().next().unwrap();
    assert_eq!(y, 15.);
}

#[test]
fn write_slice() {
    let mut file = Store::create();
    let mut data = ndarray::Array3::<f32>::zeros((5, 5, 5));
    data[[0, 0, 0]] = 1.;

    file.new_dataset("dim3", Datatype::Float32, &[5, 5, 5]).unwrap();
    let dataset = file.describe(&vec!["dim3".to_string()]).unwrap();

    let lazy_writer = LazyArray::new(dataset, Datatype::Float32, 3).unwrap();
    let container = vec![Value::Lazy(lazy_writer)];
    let written = file.write_all("dim3", &single(&data.clone().into_dyn()));
    lazy_of(&container[0]).write_slice(written).unwrap();
    write_hdf5(&lazy_test(), &container, &mut file).unwrap();

    let reader = read_hdf5(&helper(), &file).unwrap();
    assert_eq!(data.into_dyn(), singles(array_of(&reader[0])));
}

#[test]
fn writing_a_lazy_array_asks_nothing() {
    let mut file = Store::create();
    file.new_dataset("dim3", Datatype::Float32, &[5, 5, 5]).unwrap();
    let dataset = file.describe(&vec!["dim3".to_string()]).unwrap();
    let container = vec![Value::Lazy(LazyArray::new(dataset, Datatype::Float32, 3).unwrap())];
    let aggregate = lazy_test();
    let pass = WritePass::new(&aggregate, &container);
    assert!(pass.pending().is_none());
    assert!(pass.complete());
}

#[test]
fn lazy_arrays_are_checked_when_they_are_read() {
    let mut file = Store::create();
    file.new_dataset("dim3", Datatype::Float32, &[5, 5]).unwrap();
    let error = read_hdf5(&lazy_test(), &file).unwrap_err();
    assert!(matches!(error, Error::DimensionMismatch(_)));
    assert_eq!(
        error.message(),
        "dimensions for array `/dim3` were incorrect. Dataset was dimension `2`, not the specified dimension `3`"
    );

    let mut file = Store::create();
    file.new_dataset("dim3", Datatype::Float64, &[5, 5, 5]).unwrap();
    let error = read_hdf5(&lazy_test(), &file).unwrap_err();
    assert!(matches!(error, Error::WrongDatatype(_)));
    assert_eq!(
        error.message(),
        "Specified datatype for array `/dim3` was incorrect. Array type was float64"
    );

    let file = Store::create();
    let error = read_hdf5(&lazy_test(), &file).unwrap_err();
    assert!(matches!(error, Error::MissingDataset(_)));
}

#[test]
fn round_trip_keeps_every_field_but_the_lazy_one_is_rebound() {
    let aggregate = Aggregate::new(vec![
        scalar_field("version", Datatype::UInt16),
        Field::new(
            "big".to_string(),
            FieldKind::LazyArrayHandle { datatype: Datatype::Float32, ndim: 3 },
        ),
        arr3_field("one"),
    ]);
    let mut file = Store::create();
    file.new_dataset("big", Datatype::Float32, &[5, 5, 5]).unwrap();
    let dataset = file.describe(&vec!["big".to_string()]).unwrap();
    let values = vec![
        Value::Scalar(Scalar { datatype: Datatype::UInt16, bits: 2 }),
        Value::Lazy(LazyArray::new(dataset, Datatype::Float32, 3).unwrap()),
        Value::Array(double(&linspace(5., 10., (1, 2, 3)).into_dyn())),
    ];
    write_hdf5(&aggregate, &values, &mut file).unwrap();
    assert_eq!(read_hdf5(&aggregate, &file).unwrap(), values);
}

#[test]
fn a_lazy_array_may_be_transposed_in_the_other_direction_only() {
    let mut aggregate = lazy_test();
    aggregate.transpose = TransposeOpts::Write;
    assert!(aggregate.is_readable());
    assert!(!aggregate.is_writable());
    aggregate.transpose = TransposeOpts::Read;
    assert!(!aggregate.is_readable());
    assert!(aggregate.is_writable());
    // a nested aggregate settles it for its own fields
    let outer = Aggregate::new(vec![Field::new(
        "inner".to_string(),
        FieldKind::NestedAggregate { aggregate },
    )]);
    assert!(!outer.is_readable());
    assert!(outer.is_writable());
}

#[test]
fn values_are_held_against_the_fields() {
    let aggregate = nested();
    assert!(record_conforms_to(&nested_values(), &aggregate));
    let mut short = nested_values();
    short.pop();
    assert!(!record_conforms_to(&short, &aggregate));
    let mut wrong = nested_values();
    wrong[0] = Value::Scalar(Scalar { datatype: Datatype::UInt8, bits: 2 });
    assert!(!record_conforms_to(&wrong, &aggregate));
    let mut flat = nested_values();
    flat[2] = Value::Array(double(&Array::linspace(0., 1., 4).into_shape((2, 2)).unwrap().into_dyn()));
    assert!(!record_conforms_to(&flat, &aggregate));
    let mut deep = nested_values();
    deep[1] = Value::Aggregate(vec![]);
    assert!(!record_conforms_to(&deep, &aggregate));
}

fn kinds_of(requests: &Vec<WriteRequest>) -> Vec<String> {
    requests
        .iter()
        .map(|request| {
            let what = match request {
                WriteRequest::OpenGroup { .. } => "open group",
                WriteRequest::CreateGroup { .. } => "create group",
                WriteRequest::OpenDataset { .. } => "open dataset",
                WriteRequest::CreateDataset { .. } => "create dataset",
                WriteRequest::OpenAttribute { .. } => "open attribute",
                WriteRequest::CreateAttribute { .. } => "create attribute",
                WriteRequest::WriteArray { .. } => "write array",
                WriteRequest::WriteScalar { .. } => "write scalar",
            };
            format!("{} {}", what, request.path().join("/"))
        })
        .collect()
}

#[test]
fn write_group_maps_one_value_onto_one_node() {
    let group = vec!["outer".to_string()];
    let array = double(&linspace(0., 23., (2, 3, 4)).into_dyn());
    let kind = FieldKind::DenseArray { datatype: Datatype::Float64, ndim: 3 };
    let value = Value::Array(array.clone());

    // created and written as it is
    let requests = write_group(&value, &kind, &group, "one", false, false);
    assert_eq!(kinds_of(&requests), vec!["create dataset outer/one", "write array outer/one"]);
    match (&requests[0], &requests[1]) {
        (
            WriteRequest::CreateDataset { datatype, shape, .. },
            WriteRequest::WriteArray { array: written, .. },
        ) => {
            assert_eq!(*datatype, Datatype::Float64);
            assert_eq!(shape, &vec![2, 3, 4]);
            assert_eq!(written, &array);
        }
        other => panic!("not the requests for a dataset: {:?}", other),
    }

    // opened, and written with its axes reversed
    let requests = write_group(&value, &kind, &group, "one", true, true);
    assert_eq!(kinds_of(&requests), vec!["open dataset outer/one", "write array outer/one"]);
    match &requests[1] {
        WriteRequest::WriteArray { array: written, .. } => assert_eq!(written, &array.t()),
        other => panic!("not a write: {:?}", other),
    }

    // a transposed array is created in the shape it is written in
    let requests = write_group(&value, &kind, &group, "one", true, false);
    match &requests[0] {
        WriteRequest::CreateDataset { shape, .. } => assert_eq!(shape, &vec![4, 3, 2]),
        other => panic!("not a creation: {:?}", other),
    }

    // a scalar goes into an attribute, whatever is said of transposing
    let scalar = Value::Scalar(Scalar { datatype: Datatype::Int16, bits: 4 });
    let kind = FieldKind::Scalar { datatype: Datatype::Int16 };
    assert_eq!(
        kinds_of(&write_group(&scalar, &kind, &vec![], "count", true, false)),
        vec!["create attribute count", "write scalar count"]
    );
    assert_eq!(
        kinds_of(&write_group(&scalar, &kind, &vec![], "count", false, true)),
        vec!["open attribute count", "write scalar count"]
    );

    // a nested aggregate goes into a child group, and its fields follow their own aggregate
    let kind = FieldKind::NestedAggregate { aggregate: nested() };
    let value = Value::Aggregate(nested_values());
    assert_eq!(
        kinds_of(&write_group(&value, &kind, &group, "deep", true, true)),
        vec![
            "open group outer/deep",
            "create attribute outer/deep/version",
            "write scalar outer/deep/version",
            "create group outer/deep/inner",
            "create dataset outer/deep/inner/one",
            "write array outer/deep/inner/one",
            "create attribute outer/deep/inner/count",
            "write scalar outer/deep/inner/count",
            "create dataset outer/deep/one",
            "write array outer/deep/one",
        ]
    );
}

#[test]
fn read_group_opens_before_it_reads() {
    let group = vec!["outer".to_string()];
    let told = |requests: Vec<ReadRequest>| -> Vec<String> {
        requests
            .iter()
            .map(|request| {
                let what = match request {
                    ReadRequest::OpenGroup { .. } => "open group",
                    ReadRequest::OpenDataset { .. } => "open dataset",
                    ReadRequest::OpenAttribute { .. } => "open attribute",
                    ReadRequest::ReadArray { .. } => "read array",
                    ReadRequest::ReadScalar { .. } => "read scalar",
                    ReadRequest::Describe { .. } => "describe",
                };
                format!("{} {}", what, request.path().join("/"))
            })
            .collect()
    };
    let array = FieldKind::DenseArray { datatype: Datatype::Float64, ndim: 3 };
    assert_eq!(
        told(read_group(&array, &group, "one", true)),
        vec!["open dataset outer/one", "read array outer/one"]
    );
    let scalar = FieldKind::Scalar { datatype: Datatype::Int16 };
    assert_eq!(
        told(read_group(&scalar, &group, "count", false)),
        vec!["open attribute outer/count", "read scalar outer/count"]
    );
    let lazy = FieldKind::LazyArrayHandle { datatype: Datatype::Float32, ndim: 3 };
    assert!(lazy.is_readable(false));
    assert!(!lazy.is_readable(true));
    assert!(lazy.is_writable(false));
    assert!(!lazy.is_writable(true));
    assert_eq!(
        told(read_group(&lazy, &group, "big", false)),
        vec!["open dataset outer/big", "describe outer/big"]
    );
    let deep = FieldKind::NestedAggregate { aggregate: nested() };
    assert!(deep.is_readable(true));
    assert_eq!(
        told(read_group(&deep, &vec![], "deep", true)),
        vec![
            "open group deep",
            "open attribute deep/version",
            "read scalar deep/version",
            "open group deep/inner",
            "open dataset deep/inner/one",
            "read array deep/inner/one",
            "open attribute deep/inner/count",
            "read scalar deep/inner/count",
            "open dataset deep/one",
            "read array deep/one",
        ]
    );
}

#[test]
fn fields_tell_how_they_are_read_and_written() {
    let mut field = arr3_field("one");
    let info = field.read_info(TransposeOpts::Read);
    assert_eq!(info.array_name, "one");
    assert!(info.transpose);
    let info = field.write_info(TransposeOpts::Read, true);
    assert_eq!(info.array_name, "one");
    assert!(!info.transpose);
    assert!(info.mutate_on_write);

    field.rename = Rename { read: Some("in".to_string()), write: Some("out".to_string()), both: None };
    field.transpose = Some(TransposeOpts::Write);
    field.mutate_on_write = Some(false);
    let info = field.read_info(TransposeOpts::Read);
    assert_eq!(info.array_name, "in");
    assert!(!info.transpose);
    let info = field.write_info(TransposeOpts::Read, true);
    assert_eq!(info.array_name, "out");
    assert!(info.transpose);
    assert!(!info.mutate_on_write);

    let plain = Aggregate::new(vec![]);
    assert_eq!(plain.transpose, TransposeOpts::Neither);
    assert!(!plain.mutate_on_write);
    assert!(plain.is_readable() && plain.is_writable());
}

#[test]
fn replies_are_held_against_requests() {
    let at = || vec!["one".to_string()];
    let array = double(&linspace(0., 23., (2, 3, 4)).into_dyn());
    let read = ReadRequest::ReadArray { path: at(), datatype: Datatype::Float64, ndim: 3 };
    assert!(read.answered_by(&Reply::Array(array.clone())));
    assert!(!read.answered_by(&Reply::Opened));
    assert!(!read.answered_by(&Reply::Scalar(Scalar { datatype: Datatype::Float64, bits: 0 })));
    let flat = ReadRequest::ReadArray { path: at(), datatype: Datatype::Float64, ndim: 2 };
    assert!(!flat.answered_by(&Reply::Array(array.clone())));
    let ints = ReadRequest::ReadArray { path: at(), datatype: Datatype::Int64, ndim: 3 };
    assert!(!ints.answered_by(&Reply::Array(array)));

    let scalar = ReadRequest::ReadScalar { path: at(), datatype: Datatype::UInt8 };
    assert!(scalar.answered_by(&Reply::Scalar(Scalar { datatype: Datatype::UInt8, bits: 3 })));
    assert!(!scalar.answered_by(&Reply::Scalar(Scalar { datatype: Datatype::Int8, bits: 3 })));
    assert!(!scalar.answered_by(&Reply::Opened));

    for open in [
        ReadRequest::OpenGroup { path: at() },
        ReadRequest::OpenDataset { path: at() },
        ReadRequest::OpenAttribute { path: at() },
    ] {
        assert!(open.answered_by(&Reply::Opened));
        assert!(!open.answered_by(&Reply::Scalar(Scalar { datatype: Datatype::UInt8, bits: 3 })));
    }

    let dataset = Dataset::new("/one".to_string(), vec![2], Ok(Datatype::Int8));
    let describe = ReadRequest::Describe { path: at(), datatype: Datatype::Float64, ndim: 3 };
    assert!(describe.answered_by(&Reply::Dataset(dataset)));
    assert!(!describe.answered_by(&Reply::Opened));
}
