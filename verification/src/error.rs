//! What can go wrong, each kind with the name of the node it happened at and, where the store
//! refused something, with what the store said.

use crate::array::Datatype;
use crate::text::{decimal, framed, push_decimal};
use vstd::prelude::*;
use vstd::string::StringExecFns;

verus! {

/// What the store said when it refused an operation.
#[derive(Debug, PartialEq, Eq)]
pub struct StoreError {
    detail: String,
}

impl View for StoreError {
    type V = Seq<char>;

    closed spec fn view(&self) -> Seq<char> {
        self.detail@
    }
}

impl StoreError {
    /// A refusal with the store's own words.
    pub fn new(detail: String) -> (error: StoreError)
        ensures
            error@ == detail@,
    {
        StoreError { detail }
    }

    /// The store's own words.
    pub fn detail(&self) -> (detail: &String)
        ensures
            detail@ == self@,
    {
        &self.detail
    }
}

impl Clone for StoreError {
    fn clone(&self) -> (copy: Self)
        ensures
            copy@ == self@,
    {
        StoreError { detail: self.detail.clone() }
    }
}

/// The kinds of error that carry a node's name and the store's refusal.
#[derive(Debug, Clone, Copy, PartialEq, Eq, Structural)]
pub enum ErrorKind {
    /// A dataset that a read asked for is not in the store.
    MissingDataset,
    /// A dataset is in the store, but not as an array of the element type and number of axes that the
    /// read asked for.
    SerializeArray,
    /// The store would not create a dataset.
    CreateDataset,
    /// The store would not create a group.
    CreateGroup,
    /// A group that was to be opened is not in the store.
    MissingGroup,
    /// The store would not create an attribute.
    CreateAttribute,
    /// The store would not take an array into a dataset.
    WriteArray,
    /// The store would not take a scalar into an attribute.
    WriteAttribute,
    /// A dataset that a write was to overwrite is not in the store.
    FetchDataset,
    /// An attribute that a write was to overwrite is not in the store.
    FetchAttribute,
    /// An attribute that a read asked for is not in the store.
    MissingAttribute,
    /// An attribute is in the store, but not as a scalar of the type that the read asked for.
    SerializeAttribute,
    /// The store could not tell the element type of a dataset.
    MissingDatatype,
    /// The store could not read a region of a dataset.
    ReadSlice,
    /// The store could not write a region of a dataset.
    WriteSlice,
}

/// What a message of the given kind says before the node's name.
pub open spec fn phrase_before(kind: ErrorKind) -> Seq<char> {
    match kind {
        ErrorKind::MissingDataset => "failed to read dataset with name `"@,
        ErrorKind::SerializeArray => "dataset `"@,
        ErrorKind::CreateDataset => "Failed to create a dataset for `"@,
        ErrorKind::CreateGroup => "Failed to create a group for `"@,
        ErrorKind::MissingGroup => "Failed to read a group `"@,
        ErrorKind::CreateAttribute => "Failed to create a attribute for `"@,
        ErrorKind::WriteArray => "Failed to write array `"@,
        ErrorKind::WriteAttribute => "Failed to write attribute `"@,
        ErrorKind::FetchDataset => "Failed to fetch existing dataset `"@,
        ErrorKind::FetchAttribute => "Failed to fetch existing attribute `"@,
        ErrorKind::MissingAttribute => "Failed to fetch attribute `"@,
        ErrorKind::SerializeAttribute => "Failed to read attribute `"@,
        ErrorKind::MissingDatatype => "Datatype for array `"@,
        ErrorKind::ReadSlice => "Failed to read slice for dataarray `"@,
        ErrorKind::WriteSlice => "Failed to write slice to dataarray `"@,
    }
}

/// What a message of the given kind says after the node's name.
pub open spec fn phrase_after(kind: ErrorKind) -> Seq<char> {
    match kind {
        ErrorKind::MissingDataset => "`"@,
        ErrorKind::SerializeArray => "` exists, but it could not be read to the array type provided"@,
        ErrorKind::CreateDataset => "`"@,
        ErrorKind::CreateGroup => "`"@,
        ErrorKind::MissingGroup => "`"@,
        ErrorKind::CreateAttribute => "`"@,
        ErrorKind::WriteArray => "` to dataset"@,
        ErrorKind::WriteAttribute => "` to dataset"@,
        ErrorKind::FetchDataset => "` when writing to file"@,
        ErrorKind::FetchAttribute => "` when writing to file"@,
        ErrorKind::MissingAttribute => "` when reading from file"@,
        ErrorKind::SerializeAttribute => "` to the correct rust type"@,
        ErrorKind::MissingDatatype => "` was missing / could not be fetched"@,
        ErrorKind::ReadSlice => "`"@,
        ErrorKind::WriteSlice => "`"@,
    }
}

/// A node's name and the store's refusal, as an error holds them.
pub struct Failure {
    /// What went wrong, and at which node.
    pub msg: Seq<char>,
    /// What the store said.
    pub source: Seq<char>,
}

impl Failure {
    /// The failure of the given kind at the node `name`, which the store refused with `source`.
    pub open spec fn of(kind: ErrorKind, name: Seq<char>, source: Seq<char>) -> Failure {
        Failure { msg: phrase_before(kind) + name + phrase_after(kind), source }
    }

    /// The message with the store's refusal below it.
    pub open spec fn text(self) -> Seq<char> {
        self.msg + "\n\nsource:\n"@ + self.source
    }
}

fn failure_text(msg: &String, source: &StoreError) -> (text: String)
    ensures
        text@ == (Failure { msg: msg@, source: source@ }).text(),
{
    framed(msg.as_str(), "\n\nsource:\n", source.detail().as_str())
}

/// A dataset that a read asked for is not in the store.
#[derive(Debug)]
pub struct MissingDataset {
    msg: String,
    source: StoreError,
}

impl View for MissingDataset {
    type V = Failure;

    closed spec fn view(&self) -> Failure {
        Failure { msg: self.msg@, source: self.source@ }
    }
}

impl MissingDataset {
    /// The error for the node `name`, with what the store said.
    pub fn from_field_name(name: &str, source: StoreError) -> (error: Self)
        ensures
            error@ == Failure::of(ErrorKind::MissingDataset, name@, source@),
    {
        MissingDataset { msg: framed("failed to read dataset with name `", name, "`"), source }
    }

    /// What went wrong, and at which node.
    pub fn msg(&self) -> (msg: &String)
        ensures
            msg@ == self@.msg,
    {
        &self.msg
    }

    /// What the store said.
    pub fn source(&self) -> (source: &StoreError)
        ensures
            source@ == self@.source,
    {
        &self.source
    }

    /// The message with the store's refusal below it.
    pub fn message(&self) -> (text: String)
        ensures
            text@ == self@.text(),
    {
        failure_text(&self.msg, &self.source)
    }
}

/// A dataset is in the store, but not as an array of the element type and number of axes that the
/// read asked for.
#[derive(Debug)]
pub struct SerializeArray {
    msg: String,
    source: StoreError,
}

impl View for SerializeArray {
    type V = Failure;

    closed spec fn view(&self) -> Failure {
        Failure { msg: self.msg@, source: self.source@ }
    }
}

impl SerializeArray {
    /// The error for the node `name`, with what the store said.
    pub fn from_field_name(name: &str, source: StoreError) -> (error: Self)
        ensures
            error@ == Failure::of(ErrorKind::SerializeArray, name@, source@),
    {
        SerializeArray { msg: framed("dataset `", name, "` exists, but it could not be read to the array type provided"), source }
    }

    /// What went wrong, and at which node.
    pub fn msg(&self) -> (msg: &String)
        ensures
            msg@ == self@.msg,
    {
        &self.msg
    }

    /// What the store said.
    pub fn source(&self) -> (source: &StoreError)
        ensures
            source@ == self@.source,
    {
        &self.source
    }

    /// The message with the store's refusal below it.
    pub fn message(&self) -> (text: String)
        ensures
            text@ == self@.text(),
    {
        failure_text(&self.msg, &self.source)
    }
}

/// The store would not create a dataset.
#[derive(Debug)]
pub struct CreateDataset {
    msg: String,
    source: StoreError,
}

impl View for CreateDataset {
    type V = Failure;

    closed spec fn view(&self) -> Failure {
        Failure { msg: self.msg@, source: self.source@ }
    }
}

impl CreateDataset {
    /// The error for the node `name`, with what the store said.
    pub fn from_field_name(name: &str, source: StoreError) -> (error: Self)
        ensures
            error@ == Failure::of(ErrorKind::CreateDataset, name@, source@),
    {
        CreateDataset { msg: framed("Failed to create a dataset for `", name, "`"), source }
    }

    /// What went wrong, and at which node.
    pub fn msg(&self) -> (msg: &String)
        ensures
            msg@ == self@.msg,
    {
        &self.msg
    }

    /// What the store said.
    pub fn source(&self) -> (source: &StoreError)
        ensures
            source@ == self@.source,
    {
        &self.source
    }

    /// The message with the store's refusal below it.
    pub fn message(&self) -> (text: String)
        ensures
            text@ == self@.text(),
    {
        failure_text(&self.msg, &self.source)
    }
}

/// The store would not create a group.
#[derive(Debug)]
pub struct CreateGroup {
    msg: String,
    source: StoreError,
}

impl View for CreateGroup {
    type V = Failure;

    closed spec fn view(&self) -> Failure {
        Failure { msg: self.msg@, source: self.source@ }
    }
}

impl CreateGroup {
    /// The error for the node `name`, with what the store said.
    pub fn from_field_name(name: &str, source: StoreError) -> (error: Self)
        ensures
            error@ == Failure::of(ErrorKind::CreateGroup, name@, source@),
    {
        CreateGroup { msg: framed("Failed to create a group for `", name, "`"), source }
    }

    /// What went wrong, and at which node.
    pub fn msg(&self) -> (msg: &String)
        ensures
            msg@ == self@.msg,
    {
        &self.msg
    }

    /// What the store said.
    pub fn source(&self) -> (source: &StoreError)
        ensures
            source@ == self@.source,
    {
        &self.source
    }

    /// The message with the store's refusal below it.
    pub fn message(&self) -> (text: String)
        ensures
            text@ == self@.text(),
    {
        failure_text(&self.msg, &self.source)
    }
}

/// A group that was to be opened is not in the store.
#[derive(Debug)]
pub struct MissingGroup {
    msg: String,
    source: StoreError,
}

impl View for MissingGroup {
    type V = Failure;

    closed spec fn view(&self) -> Failure {
        Failure { msg: self.msg@, source: self.source@ }
    }
}

impl MissingGroup {
    /// The error for the node `name`, with what the store said.
    pub fn from_field_name(name: &str, source: StoreError) -> (error: Self)
        ensures
            error@ == Failure::of(ErrorKind::MissingGroup, name@, source@),
    {
        MissingGroup { msg: framed("Failed to read a group `", name, "`"), source }
    }

    /// What went wrong, and at which node.
    pub fn msg(&self) -> (msg: &String)
        ensures
            msg@ == self@.msg,
    {
        &self.msg
    }

    /// What the store said.
    pub fn source(&self) -> (source: &StoreError)
        ensures
            source@ == self@.source,
    {
        &self.source
    }

    /// The message with the store's refusal below it.
    pub fn message(&self) -> (text: String)
        ensures
            text@ == self@.text(),
    {
        failure_text(&self.msg, &self.source)
    }
}

/// The store would not create an attribute.
#[derive(Debug)]
pub struct CreateAttribute {
    msg: String,
    source: StoreError,
}

impl View for CreateAttribute {
    type V = Failure;

    closed spec fn view(&self) -> Failure {
        Failure { msg: self.msg@, source: self.source@ }
    }
}

impl CreateAttribute {
    /// The error for the node `name`, with what the store said.
    pub fn from_field_name(name: &str, source: StoreError) -> (error: Self)
        ensures
            error@ == Failure::of(ErrorKind::CreateAttribute, name@, source@),
    {
        CreateAttribute { msg: framed("Failed to create a attribute for `", name, "`"), source }
    }

    /// What went wrong, and at which node.
    pub fn msg(&self) -> (msg: &String)
        ensures
            msg@ == self@.msg,
    {
        &self.msg
    }

    /// What the store said.
    pub fn source(&self) -> (source: &StoreError)
        ensures
            source@ == self@.source,
    {
        &self.source
    }

    /// The message with the store's refusal below it.
    pub fn message(&self) -> (text: String)
        ensures
            text@ == self@.text(),
    {
        failure_text(&self.msg, &self.source)
    }
}

/// The store would not take an array into a dataset.
#[derive(Debug)]
pub struct WriteArray {
    msg: String,
    source: StoreError,
}

impl View for WriteArray {
    type V = Failure;

    closed spec fn view(&self) -> Failure {
        Failure { msg: self.msg@, source: self.source@ }
    }
}

impl WriteArray {
    /// The error for the node `name`, with what the store said.
    pub fn from_field_name(name: &str, source: StoreError) -> (error: Self)
        ensures
            error@ == Failure::of(ErrorKind::WriteArray, name@, source@),
    {
        WriteArray { msg: framed("Failed to write array `", name, "` to dataset"), source }
    }

    /// What went wrong, and at which node.
    pub fn msg(&self) -> (msg: &String)
        ensures
            msg@ == self@.msg,
    {
        &self.msg
    }

    /// What the store said.
    pub fn source(&self) -> (source: &StoreError)
        ensures
            source@ == self@.source,
    {
        &self.source
    }

    /// The message with the store's refusal below it.
    pub fn message(&self) -> (text: String)
        ensures
            text@ == self@.text(),
    {
        failure_text(&self.msg, &self.source)
    }
}

/// The store would not take a scalar into an attribute.
#[derive(Debug)]
pub struct WriteAttribute {
    msg: String,
    source: StoreError,
}

impl View for WriteAttribute {
    type V = Failure;

    closed spec fn view(&self) -> Failure {
        Failure { msg: self.msg@, source: self.source@ }
    }
}

impl WriteAttribute {
    /// The error for the node `name`, with what the store said.
    pub fn from_field_name(name: &str, source: StoreError) -> (error: Self)
        ensures
            error@ == Failure::of(ErrorKind::WriteAttribute, name@, source@),
    {
        WriteAttribute { msg: framed("Failed to write attribute `", name, "` to dataset"), source }
    }

    /// What went wrong, and at which node.
    pub fn msg(&self) -> (msg: &String)
        ensures
            msg@ == self@.msg,
    {
        &self.msg
    }

    /// What the store said.
    pub fn source(&self) -> (source: &StoreError)
        ensures
            source@ == self@.source,
    {
        &self.source
    }

    /// The message with the store's refusal below it.
    pub fn message(&self) -> (text: String)
        ensures
            text@ == self@.text(),
    {
        failure_text(&self.msg, &self.source)
    }
}

/// A dataset that a write was to overwrite is not in the store.
#[derive(Debug)]
pub struct FetchDataset {
    msg: String,
    source: StoreError,
}

impl View for FetchDataset {
    type V = Failure;

    closed spec fn view(&self) -> Failure {
        Failure { msg: self.msg@, source: self.source@ }
    }
}

impl FetchDataset {
    /// The error for the node `name`, with what the store said.
    pub fn from_field_name(name: &str, source: StoreError) -> (error: Self)
        ensures
            error@ == Failure::of(ErrorKind::FetchDataset, name@, source@),
    {
        FetchDataset { msg: framed("Failed to fetch existing dataset `", name, "` when writing to file"), source }
    }

    /// What went wrong, and at which node.
    pub fn msg(&self) -> (msg: &String)
        ensures
            msg@ == self@.msg,
    {
        &self.msg
    }

    /// What the store said.
    pub fn source(&self) -> (source: &StoreError)
        ensures
            source@ == self@.source,
    {
        &self.source
    }

    /// The message with the store's refusal below it.
    pub fn message(&self) -> (text: String)
        ensures
            text@ == self@.text(),
    {
        failure_text(&self.msg, &self.source)
    }
}

/// An attribute that a write was to overwrite is not in the store.
#[derive(Debug)]
pub struct FetchAttribute {
    msg: String,
    source: StoreError,
}

impl View for FetchAttribute {
    type V = Failure;

    closed spec fn view(&self) -> Failure {
        Failure { msg: self.msg@, source: self.source@ }
    }
}

impl FetchAttribute {
    /// The error for the node `name`, with what the store said.
    pub fn from_field_name(name: &str, source: StoreError) -> (error: Self)
        ensures
            error@ == Failure::of(ErrorKind::FetchAttribute, name@, source@),
    {
        FetchAttribute { msg: framed("Failed to fetch existing attribute `", name, "` when writing to file"), source }
    }

    /// What went wrong, and at which node.
    pub fn msg(&self) -> (msg: &String)
        ensures
            msg@ == self@.msg,
    {
        &self.msg
    }

    /// What the store said.
    pub fn source(&self) -> (source: &StoreError)
        ensures
            source@ == self@.source,
    {
        &self.source
    }

    /// The message with the store's refusal below it.
    pub fn message(&self) -> (text: String)
        ensures
            text@ == self@.text(),
    {
        failure_text(&self.msg, &self.source)
    }
}

/// An attribute that a read asked for is not in the store.
#[derive(Debug)]
pub struct MissingAttribute {
    msg: String,
    source: StoreError,
}

impl View for MissingAttribute {
    type V = Failure;

    closed spec fn view(&self) -> Failure {
        Failure { msg: self.msg@, source: self.source@ }
    }
}

impl MissingAttribute {
    /// The error for the node `name`, with what the store said.
    pub fn from_field_name(name: &str, source: StoreError) -> (error: Self)
        ensures
            error@ == Failure::of(ErrorKind::MissingAttribute, name@, source@),
    {
        MissingAttribute { msg: framed("Failed to fetch attribute `", name, "` when reading from file"), source }
    }

    /// What went wrong, and at which node.
    pub fn msg(&self) -> (msg: &String)
        ensures
            msg@ == self@.msg,
    {
        &self.msg
    }

    /// What the store said.
    pub fn source(&self) -> (source: &StoreError)
        ensures
            source@ == self@.source,
    {
        &self.source
    }

    /// The message with the store's refusal below it.
    pub fn message(&self) -> (text: String)
        ensures
            text@ == self@.text(),
    {
        failure_text(&self.msg, &self.source)
    }
}

/// An attribute is in the store, but not as a scalar of the type that the read asked for.
#[derive(Debug)]
pub struct SerializeAttribute {
    msg: String,
    source: StoreError,
}

impl View for SerializeAttribute {
    type V = Failure;

    closed spec fn view(&self) -> Failure {
        Failure { msg: self.msg@, source: self.source@ }
    }
}

impl SerializeAttribute {
    /// The error for the node `name`, with what the store said.
    pub fn from_field_name(name: &str, source: StoreError) -> (error: Self)
        ensures
            error@ == Failure::of(ErrorKind::SerializeAttribute, name@, source@),
    {
        SerializeAttribute { msg: framed("Failed to read attribute `", name, "` to the correct rust type"), source }
    }

    /// What went wrong, and at which node.
    pub fn msg(&self) -> (msg: &String)
        ensures
            msg@ == self@.msg,
    {
        &self.msg
    }

    /// What the store said.
    pub fn source(&self) -> (source: &StoreError)
        ensures
            source@ == self@.source,
    {
        &self.source
    }

    /// The message with the store's refusal below it.
    pub fn message(&self) -> (text: String)
        ensures
            text@ == self@.text(),
    {
        failure_text(&self.msg, &self.source)
    }
}

/// The store could not tell the element type of a dataset.
#[derive(Debug)]
pub struct MissingDatatype {
    msg: String,
    source: StoreError,
}

impl View for MissingDatatype {
    type V = Failure;

    closed spec fn view(&self) -> Failure {
        Failure { msg: self.msg@, source: self.source@ }
    }
}

impl MissingDatatype {
    /// The error for the node `name`, with what the store said.
    pub fn from_field_name(name: &str, source: StoreError) -> (error: Self)
        ensures
            error@ == Failure::of(ErrorKind::MissingDatatype, name@, source@),
    {
        MissingDatatype { msg: framed("Datatype for array `", name, "` was missing / could not be fetched"), source }
    }

    /// What went wrong, and at which node.
    pub fn msg(&self) -> (msg: &String)
        ensures
            msg@ == self@.msg,
    {
        &self.msg
    }

    /// What the store said.
    pub fn source(&self) -> (source: &StoreError)
        ensures
            source@ == self@.source,
    {
        &self.source
    }

    /// The message with the store's refusal below it.
    pub fn message(&self) -> (text: String)
        ensures
            text@ == self@.text(),
    {
        failure_text(&self.msg, &self.source)
    }
}

/// The store could not read a region of a dataset.
#[derive(Debug)]
pub struct ReadSlice {
    msg: String,
    source: StoreError,
}

impl View for ReadSlice {
    type V = Failure;

    closed spec fn view(&self) -> Failure {
        Failure { msg: self.msg@, source: self.source@ }
    }
}

impl ReadSlice {
    /// The error for the node `name`, with what the store said.
    pub fn from_field_name(name: &str, source: StoreError) -> (error: Self)
        ensures
            error@ == Failure::of(ErrorKind::ReadSlice, name@, source@),
    {
        ReadSlice { msg: framed("Failed to read slice for dataarray `", name, "`"), source }
    }

    /// What went wrong, and at which node.
    pub fn msg(&self) -> (msg: &String)
        ensures
            msg@ == self@.msg,
    {
        &self.msg
    }

    /// What the store said.
    pub fn source(&self) -> (source: &StoreError)
        ensures
            source@ == self@.source,
    {
        &self.source
    }

    /// The message with the store's refusal below it.
    pub fn message(&self) -> (text: String)
        ensures
            text@ == self@.text(),
    {
        failure_text(&self.msg, &self.source)
    }
}

/// The store could not write a region of a dataset.
#[derive(Debug)]
pub struct WriteSlice {
    msg: String,
    source: StoreError,
}

impl View for WriteSlice {
    type V = Failure;

    closed spec fn view(&self) -> Failure {
        Failure { msg: self.msg@, source: self.source@ }
    }
}

impl WriteSlice {
    /// The error for the node `name`, with what the store said.
    pub fn from_field_name(name: &str, source: StoreError) -> (error: Self)
        ensures
            error@ == Failure::of(ErrorKind::WriteSlice, name@, source@),
    {
        WriteSlice { msg: framed("Failed to write slice to dataarray `", name, "`"), source }
    }

    /// What went wrong, and at which node.
    pub fn msg(&self) -> (msg: &String)
        ensures
            msg@ == self@.msg,
    {
        &self.msg
    }

    /// What the store said.
    pub fn source(&self) -> (source: &StoreError)
        ensures
            source@ == self@.source,
    {
        &self.source
    }

    /// The message with the store's refusal below it.
    pub fn message(&self) -> (text: String)
        ensures
            text@ == self@.text(),
    {
        failure_text(&self.msg, &self.source)
    }
}

/// A dataset has another number of axes than the lazy array that was to be bound to it.
#[derive(Debug)]
pub struct DimensionMismatch {
    array_name: String,
    dataset_dimension: usize,
    specified_dimension: usize,
}

/// A mismatch of dimension counts as a mathematical value.
pub struct DimensionMismatchView {
    /// The name of the dataset.
    pub array_name: Seq<char>,
    /// The number of axes of the dataset.
    pub dataset_dimension: usize,
    /// The number of axes that was declared.
    pub specified_dimension: usize,
}

impl DimensionMismatchView {
    /// The message.
    pub open spec fn text(self) -> Seq<char> {
        "dimensions for array `"@ + self.array_name
            + "` were incorrect. Dataset was dimension `"@ + decimal(self.dataset_dimension as nat)
            + "`, not the specified dimension `"@ + decimal(self.specified_dimension as nat)
            + "`"@
    }
}

impl View for DimensionMismatch {
    type V = DimensionMismatchView;

    closed spec fn view(&self) -> DimensionMismatchView {
        DimensionMismatchView {
            array_name: self.array_name@,
            dataset_dimension: self.dataset_dimension,
            specified_dimension: self.specified_dimension,
        }
    }
}

impl DimensionMismatch {
    /// The error for the dataset `array_name`, which has `dataset_dimension` axes where
    /// `specified_dimension` were declared.
    pub fn new(array_name: &str, dataset_dimension: usize, specified_dimension: usize) -> (error:
        Self)
        ensures
            error@ == (DimensionMismatchView {
                array_name: array_name@,
                dataset_dimension,
                specified_dimension,
            }),
    {
        DimensionMismatch {
            array_name: array_name.to_owned(),
            dataset_dimension,
            specified_dimension,
        }
    }

    /// The name of the dataset.
    pub fn array_name(&self) -> (name: &String)
        ensures
            name@ == self@.array_name,
    {
        &self.array_name
    }

    /// The number of axes of the dataset.
    pub fn dataset_dimension(&self) -> (ndim: usize)
        ensures
            ndim == self@.dataset_dimension,
    {
        self.dataset_dimension
    }

    /// The number of axes that was declared.
    pub fn specified_dimension(&self) -> (ndim: usize)
        ensures
            ndim == self@.specified_dimension,
    {
        self.specified_dimension
    }

    /// The message.
    pub fn message(&self) -> (text: String)
        ensures
            text@ == self@.text(),
    {
        let mut text = framed(
            "dimensions for array `",
            self.array_name.as_str(),
            "` were incorrect. Dataset was dimension `",
        );
        push_decimal(&mut text, self.dataset_dimension);
        text.append("`, not the specified dimension `");
        push_decimal(&mut text, self.specified_dimension);
        text.append("`");
        text
    }
}

/// A dataset has another element type than the lazy array that was to be bound to it.
#[derive(Debug)]
pub struct WrongDatatype {
    array_name: String,
    datatype: Datatype,
}

/// A mismatch of element types as a mathematical value.
pub struct WrongDatatypeView {
    /// The name of the dataset.
    pub array_name: Seq<char>,
    /// The element type of the dataset.
    pub datatype: Datatype,
}

/// The name of an element type as messages give it.
pub open spec fn datatype_name(datatype: Datatype) -> Seq<char> {
    match datatype {
        Datatype::Int8 => "int8"@,
        Datatype::Int16 => "int16"@,
        Datatype::Int32 => "int32"@,
        Datatype::Int64 => "int64"@,
        Datatype::UInt8 => "uint8"@,
        Datatype::UInt16 => "uint16"@,
        Datatype::UInt32 => "uint32"@,
        Datatype::UInt64 => "uint64"@,
        Datatype::Float32 => "float32"@,
        Datatype::Float64 => "float64"@,
        Datatype::Other => "other"@,
    }
}

fn datatype_text(datatype: Datatype) -> (text: &'static str)
    ensures
        text@ == datatype_name(datatype),
{
    match datatype {
        Datatype::Int8 => "int8",
        Datatype::Int16 => "int16",
        Datatype::Int32 => "int32",
        Datatype::Int64 => "int64",
        Datatype::UInt8 => "uint8",
        Datatype::UInt16 => "uint16",
        Datatype::UInt32 => "uint32",
        Datatype::UInt64 => "uint64",
        Datatype::Float32 => "float32",
        Datatype::Float64 => "float64",
        Datatype::Other => "other",
    }
}

impl WrongDatatypeView {
    /// The message.
    pub open spec fn text(self) -> Seq<char> {
        "Specified datatype for array `"@ + self.array_name + "` was incorrect. Array type was "@
            + datatype_name(self.datatype)
    }
}

impl View for WrongDatatype {
    type V = WrongDatatypeView;

    closed spec fn view(&self) -> WrongDatatypeView {
        WrongDatatypeView { array_name: self.array_name@, datatype: self.datatype }
    }
}

impl WrongDatatype {
    /// The error for the dataset `array_name`, whose elements are of type `datatype`.
    pub fn new(array_name: &str, datatype: Datatype) -> (error: Self)
        ensures
            error@ == (WrongDatatypeView { array_name: array_name@, datatype }),
    {
        WrongDatatype { array_name: array_name.to_owned(), datatype }
    }

    /// The name of the dataset.
    pub fn array_name(&self) -> (name: &String)
        ensures
            name@ == self@.array_name,
    {
        &self.array_name
    }

    /// The element type of the dataset.
    pub fn datatype(&self) -> (datatype: Datatype)
        ensures
            datatype == self@.datatype,
    {
        self.datatype
    }

    /// The message.
    pub fn message(&self) -> (text: String)
        ensures
            text@ == self@.text(),
    {
        let mut text = framed(
            "Specified datatype for array `",
            self.array_name.as_str(),
            "` was incorrect. Array type was ",
        );
        text.append(datatype_text(self.datatype));
        text
    }
}

/// Everything that reading or writing can fail with.
#[derive(Debug)]
pub enum Error {
    /// A dataset that a read asked for is not in the store.
    MissingDataset(MissingDataset),
    /// A dataset is in the store, but not as an array of the element type and number of axes that the
    /// read asked for.
    SerializeArray(SerializeArray),
    /// The store would not create a dataset.
    CreateDataset(CreateDataset),
    /// The store would not create a group.
    CreateGroup(CreateGroup),
    /// A group that was to be opened is not in the store.
    MissingGroup(MissingGroup),
    /// The store would not create an attribute.
    CreateAttribute(CreateAttribute),
    /// The store would not take an array into a dataset.
    WriteArray(WriteArray),
    /// The store would not take a scalar into an attribute.
    WriteAttribute(WriteAttribute),
    /// A dataset that a write was to overwrite is not in the store.
    FetchDataset(FetchDataset),
    /// An attribute that a write was to overwrite is not in the store.
    FetchAttribute(FetchAttribute),
    /// An attribute that a read asked for is not in the store.
    MissingAttribute(MissingAttribute),
    /// An attribute is in the store, but not as a scalar of the type that the read asked for.
    SerializeAttribute(SerializeAttribute),
    /// The store could not tell the element type of a dataset.
    MissingDatatype(MissingDatatype),
    /// The store could not read a region of a dataset.
    ReadSlice(ReadSlice),
    /// The store could not write a region of a dataset.
    WriteSlice(WriteSlice),
    /// A dataset has another number of axes than the lazy array that was to be bound to it.
    DimensionMismatch(DimensionMismatch),
    /// A dataset has another element type than the lazy array that was to be bound to it.
    WrongDatatype(WrongDatatype),
}

/// An error as a mathematical value.
pub enum ErrorView {
    /// An error with a node's name and the store's refusal.
    Context {
        /// Which kind of error.
        kind: ErrorKind,
        /// What it holds.
        failure: Failure,
    },
    /// A mismatch of dimension counts.
    DimensionMismatch(DimensionMismatchView),
    /// A mismatch of element types.
    WrongDatatype(WrongDatatypeView),
}

impl ErrorView {
    /// The error of the given kind at the node `name`, which the store refused with `source`.
    pub open spec fn context(kind: ErrorKind, name: Seq<char>, source: Seq<char>) -> ErrorView {
        ErrorView::Context { kind, failure: Failure::of(kind, name, source) }
    }

    /// The message.
    pub open spec fn text(self) -> Seq<char> {
        match self {
            ErrorView::Context { failure, .. } => failure.text(),
            ErrorView::DimensionMismatch(mismatch) => mismatch.text(),
            ErrorView::WrongDatatype(mismatch) => mismatch.text(),
        }
    }
}

impl View for Error {
    type V = ErrorView;

    open spec fn view(&self) -> ErrorView {
        match self {
            Error::MissingDataset(error) => ErrorView::Context {
                kind: ErrorKind::MissingDataset,
                failure: error@,
            },
            Error::SerializeArray(error) => ErrorView::Context {
                kind: ErrorKind::SerializeArray,
                failure: error@,
            },
            Error::CreateDataset(error) => ErrorView::Context {
                kind: ErrorKind::CreateDataset,
                failure: error@,
            },
            Error::CreateGroup(error) => ErrorView::Context {
                kind: ErrorKind::CreateGroup,
                failure: error@,
            },
            Error::MissingGroup(error) => ErrorView::Context {
                kind: ErrorKind::MissingGroup,
                failure: error@,
            },
            Error::CreateAttribute(error) => ErrorView::Context {
                kind: ErrorKind::CreateAttribute,
                failure: error@,
            },
            Error::WriteArray(error) => ErrorView::Context {
                kind: ErrorKind::WriteArray,
                failure: error@,
            },
            Error::WriteAttribute(error) => ErrorView::Context {
                kind: ErrorKind::WriteAttribute,
                failure: error@,
            },
            Error::FetchDataset(error) => ErrorView::Context {
                kind: ErrorKind::FetchDataset,
                failure: error@,
            },
            Error::FetchAttribute(error) => ErrorView::Context {
                kind: ErrorKind::FetchAttribute,
                failure: error@,
            },
            Error::MissingAttribute(error) => ErrorView::Context {
                kind: ErrorKind::MissingAttribute,
                failure: error@,
            },
            Error::SerializeAttribute(error) => ErrorView::Context {
                kind: ErrorKind::SerializeAttribute,
                failure: error@,
            },
            Error::MissingDatatype(error) => ErrorView::Context {
                kind: ErrorKind::MissingDatatype,
                failure: error@,
            },
            Error::ReadSlice(error) => ErrorView::Context {
                kind: ErrorKind::ReadSlice,
                failure: error@,
            },
            Error::WriteSlice(error) => ErrorView::Context {
                kind: ErrorKind::WriteSlice,
                failure: error@,
            },
            Error::DimensionMismatch(error) => ErrorView::DimensionMismatch(error@),
            Error::WrongDatatype(error) => ErrorView::WrongDatatype(error@),
        }
    }
}

impl Error {
    /// The error of the given kind for the node `name`, with what the store said.
    pub fn from_field_name(kind: ErrorKind, name: &str, source: StoreError) -> (error: Error)
        ensures
            error@ == ErrorView::context(kind, name@, source@),
    {
        match kind {
            ErrorKind::MissingDataset => Error::MissingDataset(MissingDataset::from_field_name(name, source)),
            ErrorKind::SerializeArray => Error::SerializeArray(SerializeArray::from_field_name(name, source)),
            ErrorKind::CreateDataset => Error::CreateDataset(CreateDataset::from_field_name(name, source)),
            ErrorKind::CreateGroup => Error::CreateGroup(CreateGroup::from_field_name(name, source)),
            ErrorKind::MissingGroup => Error::MissingGroup(MissingGroup::from_field_name(name, source)),
            ErrorKind::CreateAttribute => Error::CreateAttribute(CreateAttribute::from_field_name(name, source)),
            ErrorKind::WriteArray => Error::WriteArray(WriteArray::from_field_name(name, source)),
            ErrorKind::WriteAttribute => Error::WriteAttribute(WriteAttribute::from_field_name(name, source)),
            ErrorKind::FetchDataset => Error::FetchDataset(FetchDataset::from_field_name(name, source)),
            ErrorKind::FetchAttribute => Error::FetchAttribute(FetchAttribute::from_field_name(name, source)),
            ErrorKind::MissingAttribute => Error::MissingAttribute(MissingAttribute::from_field_name(name, source)),
            ErrorKind::SerializeAttribute => Error::SerializeAttribute(SerializeAttribute::from_field_name(name, source)),
            ErrorKind::MissingDatatype => Error::MissingDatatype(MissingDatatype::from_field_name(name, source)),
            ErrorKind::ReadSlice => Error::ReadSlice(ReadSlice::from_field_name(name, source)),
            ErrorKind::WriteSlice => Error::WriteSlice(WriteSlice::from_field_name(name, source)),
        }
    }

    /// The message, as it is shown to a person.
    pub fn message(&self) -> (text: String)
        ensures
            text@ == self@.text(),
    {
        match self {
            Error::MissingDataset(error) => error.message(),
            Error::SerializeArray(error) => error.message(),
            Error::CreateDataset(error) => error.message(),
            Error::CreateGroup(error) => error.message(),
            Error::MissingGroup(error) => error.message(),
            Error::CreateAttribute(error) => error.message(),
            Error::WriteArray(error) => error.message(),
            Error::WriteAttribute(error) => error.message(),
            Error::FetchDataset(error) => error.message(),
            Error::FetchAttribute(error) => error.message(),
            Error::MissingAttribute(error) => error.message(),
            Error::SerializeAttribute(error) => error.message(),
            Error::MissingDatatype(error) => error.message(),
            Error::ReadSlice(error) => error.message(),
            Error::WriteSlice(error) => error.message(),
            Error::DimensionMismatch(error) => error.message(),
            Error::WrongDatatype(error) => error.message(),
        }
    }
}

} // verus!
