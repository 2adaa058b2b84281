use hdf5_container::array::Datatype;
use hdf5_container::error::{
    CreateAttribute, CreateDataset, CreateGroup, DimensionMismatch, Error, ErrorKind,
    FetchAttribute, FetchDataset, MissingAttribute, MissingDataset, MissingDatatype, MissingGroup,
    ReadSlice, SerializeArray, SerializeAttribute, StoreError, WriteArray, WriteAttribute,
    WriteSlice, WrongDatatype,
};
use hdf5_container::store::{ReadRequest, WriteRequest};
use hdf5_container::text::decimal_string;

fn cause() -> StoreError {
    StoreError::new("the store said no".to_string())
}

#[test]
fn each_kind_has_its_own_words() {
    let cases = [
        (ErrorKind::MissingDataset, "failed to read dataset with name `x`"),
        (
            ErrorKind::SerializeArray,
            "dataset `x` exists, but it could not be read to the array type provided",
        ),
        (ErrorKind::CreateDataset, "Failed to create a dataset for `x`"),
        (ErrorKind::CreateGroup, "Failed to create a group for `x`"),
        (ErrorKind::MissingGroup, "Failed to read a group `x`"),
        (ErrorKind::CreateAttribute, "Failed to create a attribute for `x`"),
        (ErrorKind::WriteArray, "Failed to write array `x` to dataset"),
        (ErrorKind::WriteAttribute, "Failed to write attribute `x` to dataset"),
        (ErrorKind::FetchDataset, "Failed to fetch existing dataset `x` when writing to file"),
        (ErrorKind::FetchAttribute, "Failed to fetch existing attribute `x` when writing to file"),
        (ErrorKind::MissingAttribute, "Failed to fetch attribute `x` when reading from file"),
        (ErrorKind::SerializeAttribute, "Failed to read attribute `x` to the correct rust type"),
        (ErrorKind::MissingDatatype, "Datatype for array `x` was missing / could not be fetched"),
        (ErrorKind::ReadSlice, "Failed to read slice for dataarray `x`"),
        (ErrorKind::WriteSlice, "Failed to write slice to dataarray `x`"),
    ];
    for (kind, words) in cases {
        let error = Error::from_field_name(kind, "x", cause());
        assert_eq!(error.message(), format!("{}\n\nsource:\nthe store said no", words));
    }
}

#[test]
fn each_kind_is_its_own_variant() {
    assert!(matches!(Error::from_field_name(ErrorKind::MissingDataset, "x", cause()), Error::MissingDataset(_)));
    assert!(matches!(Error::from_field_name(ErrorKind::SerializeArray, "x", cause()), Error::SerializeArray(_)));
    assert!(matches!(Error::from_field_name(ErrorKind::CreateDataset, "x", cause()), Error::CreateDataset(_)));
    assert!(matches!(Error::from_field_name(ErrorKind::CreateGroup, "x", cause()), Error::CreateGroup(_)));
    assert!(matches!(Error::from_field_name(ErrorKind::MissingGroup, "x", cause()), Error::MissingGroup(_)));
    assert!(matches!(Error::from_field_name(ErrorKind::CreateAttribute, "x", cause()), Error::CreateAttribute(_)));
    assert!(matches!(Error::from_field_name(ErrorKind::WriteArray, "x", cause()), Error::WriteArray(_)));
    assert!(matches!(Error::from_field_name(ErrorKind::WriteAttribute, "x", cause()), Error::WriteAttribute(_)));
    assert!(matches!(Error::from_field_name(ErrorKind::FetchDataset, "x", cause()), Error::FetchDataset(_)));
    assert!(matches!(Error::from_field_name(ErrorKind::FetchAttribute, "x", cause()), Error::FetchAttribute(_)));
    assert!(matches!(Error::from_field_name(ErrorKind::MissingAttribute, "x", cause()), Error::MissingAttribute(_)));
    assert!(matches!(Error::from_field_name(ErrorKind::SerializeAttribute, "x", cause()), Error::SerializeAttribute(_)));
    assert!(matches!(Error::from_field_name(ErrorKind::MissingDatatype, "x", cause()), Error::MissingDatatype(_)));
    assert!(matches!(Error::from_field_name(ErrorKind::ReadSlice, "x", cause()), Error::ReadSlice(_)));
    assert!(matches!(Error::from_field_name(ErrorKind::WriteSlice, "x", cause()), Error::WriteSlice(_)));
}

#[test]
fn from_field_name_keeps_the_name_and_the_cause() {
    let error = MissingDataset::from_field_name("one", cause());
    assert_eq!(error.msg(), "failed to read dataset with name `one`");
    assert_eq!(error.source(), &cause());
    assert_eq!(error.source().detail(), "the store said no");
    assert_eq!(error.message(), "failed to read dataset with name `one`\n\nsource:\nthe store said no");

    assert_eq!(SerializeArray::from_field_name("a", cause()).msg(), "dataset `a` exists, but it could not be read to the array type provided");
    assert_eq!(CreateDataset::from_field_name("a", cause()).msg(), "Failed to create a dataset for `a`");
    assert_eq!(CreateGroup::from_field_name("a", cause()).msg(), "Failed to create a group for `a`");
    assert_eq!(MissingGroup::from_field_name("a", cause()).msg(), "Failed to read a group `a`");
    assert_eq!(CreateAttribute::from_field_name("a", cause()).msg(), "Failed to create a attribute for `a`");
    assert_eq!(WriteArray::from_field_name("a", cause()).msg(), "Failed to write array `a` to dataset");
    assert_eq!(WriteAttribute::from_field_name("a", cause()).msg(), "Failed to write attribute `a` to dataset");
    assert_eq!(FetchDataset::from_field_name("a", cause()).msg(), "Failed to fetch existing dataset `a` when writing to file");
    assert_eq!(FetchAttribute::from_field_name("a", cause()).msg(), "Failed to fetch existing attribute `a` when writing to file");
    assert_eq!(MissingAttribute::from_field_name("a", cause()).msg(), "Failed to fetch attribute `a` when reading from file");
    assert_eq!(SerializeAttribute::from_field_name("a", cause()).msg(), "Failed to read attribute `a` to the correct rust type");
    assert_eq!(MissingDatatype::from_field_name("a", cause()).msg(), "Datatype for array `a` was missing / could not be fetched");
    assert_eq!(ReadSlice::from_field_name("a", cause()).msg(), "Failed to read slice for dataarray `a`");
    assert_eq!(WriteSlice::from_field_name("a", cause()).msg(), "Failed to write slice to dataarray `a`");
}

#[test]
fn names_may_be_empty_or_hold_anything() {
    assert_eq!(CreateGroup::from_field_name("", cause()).msg(), "Failed to create a group for ``");
    assert_eq!(CreateGroup::from_field_name("a`b/ç", cause()).msg(), "Failed to create a group for `a`b/ç`");
}

#[test]
fn dimension_mismatch_tells_both_counts() {
    let error = DimensionMismatch::new("/big", 2, 3);
    assert_eq!(error.array_name(), "/big");
    assert_eq!(error.dataset_dimension(), 2);
    assert_eq!(error.specified_dimension(), 3);
    assert_eq!(
        error.message(),
        "dimensions for array `/big` were incorrect. Dataset was dimension `2`, not the specified dimension `3`"
    );
    assert_eq!(
        Error::DimensionMismatch(DimensionMismatch::new("a", 0, 12345)).message(),
        "dimensions for array `a` were incorrect. Dataset was dimension `0`, not the specified dimension `12345`"
    );
}

#[test]
fn wrong_datatype_tells_what_is_there() {
    let error = WrongDatatype::new("/big", Datatype::Int16);
    assert_eq!(error.array_name(), "/big");
    assert_eq!(error.datatype(), Datatype::Int16);
    assert_eq!(
        error.message(),
        "Specified datatype for array `/big` was incorrect. Array type was int16"
    );
    let names = [
        (Datatype::Int8, "int8"),
        (Datatype::Int16, "int16"),
        (Datatype::Int32, "int32"),
        (Datatype::Int64, "int64"),
        (Datatype::UInt8, "uint8"),
        (Datatype::UInt16, "uint16"),
        (Datatype::UInt32, "uint32"),
        (Datatype::UInt64, "uint64"),
        (Datatype::Float32, "float32"),
        (Datatype::Float64, "float64"),
        (Datatype::Other, "other"),
    ];
    for (datatype, name) in names {
        assert_eq!(
            Error::WrongDatatype(WrongDatatype::new("a", datatype)).message(),
            format!("Specified datatype for array `a` was incorrect. Array type was {}", name)
        );
    }
}

#[test]
fn numbers_are_written_in_decimal() {
    assert_eq!(decimal_string(0), "0");
    assert_eq!(decimal_string(7), "7");
    assert_eq!(decimal_string(10), "10");
    assert_eq!(decimal_string(109), "109");
    assert_eq!(decimal_string(9876543210), "9876543210");
    assert_eq!(decimal_string(usize::MAX), usize::MAX.to_string());
}

fn path(names: &[&str]) -> Vec<String> {
    names.iter().map(|name| name.to_string()).collect()
}

#[test]
fn a_refused_request_of_a_write_pass_gives_the_error_for_its_node() {
    let at = || path(&["inner", "one"]);
    let array = hdf5_container::array::NdArray::from_shape_vec(Datatype::UInt8, vec![1], vec![1]).unwrap();
    let scalar = hdf5_container::aggregate::Scalar { datatype: Datatype::UInt8, bits: 1 };
    let cases = [
        (WriteRequest::OpenGroup { path: at() }, "Failed to read a group `one`"),
        (WriteRequest::CreateGroup { path: at() }, "Failed to create a group for `one`"),
        (WriteRequest::OpenDataset { path: at() }, "Failed to fetch existing dataset `one` when writing to file"),
        (
            WriteRequest::CreateDataset { path: at(), datatype: Datatype::UInt8, shape: vec![1] },
            "Failed to create a dataset for `one`",
        ),
        (WriteRequest::OpenAttribute { path: at() }, "Failed to fetch existing attribute `one` when writing to file"),
        (
            WriteRequest::CreateAttribute { path: at(), datatype: Datatype::UInt8 },
            "Failed to create a attribute for `one`",
        ),
        (WriteRequest::WriteArray { path: at(), array }, "Failed to write array `one` to dataset"),
        (WriteRequest::WriteScalar { path: at(), scalar }, "Failed to write attribute `one` to dataset"),
    ];
    for (request, words) in cases {
        assert_eq!(request.path(), &at());
        assert_eq!(
            request.failure(cause()).message(),
            format!("{}\n\nsource:\nthe store said no", words)
        );
    }
}

#[test]
fn a_refused_request_of_a_read_pass_gives_the_error_for_its_node() {
    let at = || path(&["inner", "one"]);
    let cases = [
        (ReadRequest::OpenGroup { path: at() }, "Failed to read a group `one`"),
        (ReadRequest::OpenDataset { path: at() }, "failed to read dataset with name `one`"),
        (ReadRequest::OpenAttribute { path: at() }, "Failed to fetch attribute `one` when reading from file"),
        (
            ReadRequest::ReadArray { path: at(), datatype: Datatype::UInt8, ndim: 1 },
            "dataset `one` exists, but it could not be read to the array type provided",
        ),
        (
            ReadRequest::ReadScalar { path: at(), datatype: Datatype::UInt8 },
            "Failed to read attribute `one` to the correct rust type",
        ),
        (
            ReadRequest::Describe { path: at(), datatype: Datatype::UInt8, ndim: 1 },
            "Datatype for array `one` was missing / could not be fetched",
        ),
    ];
    for (request, words) in cases {
        assert_eq!(request.path(), &at());
        assert_eq!(
            request.failure(cause()).message(),
            format!("{}\n\nsource:\nthe store said no", words)
        );
    }
    // a request about no node at all names no node
    assert_eq!(
        ReadRequest::OpenGroup { path: vec![] }.failure(cause()).message(),
        "Failed to read a group ``\n\nsource:\nthe store said no"
    );
}
