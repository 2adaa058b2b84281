//! Handles on datasets that are too large to hold in memory: checked once, when they are bound,
//! and read or written region by region afterwards.

use crate::array::Datatype;
use crate::error::{
    DimensionMismatch, DimensionMismatchView, Error, ErrorKind, ErrorView, MissingDatatype,
    ReadSlice, StoreError, WriteSlice, WrongDatatype, WrongDatatypeView,
};
use vstd::prelude::*;

verus! {

/// An outcome with the value or the error as a mathematical value.
pub open spec fn viewed<T: View>(outcome: Result<T, Error>) -> Result<T::V, ErrorView> {
    match outcome {
        Ok(value) => Ok(value@),
        Err(error) => Err(error@),
    }
}

/// What the store tells of a dataset it holds.
#[derive(Debug, PartialEq, Eq)]
pub struct Dataset {
    name: String,
    shape: Vec<usize>,
    datatype: Result<Datatype, StoreError>,
}

/// A dataset's description as a mathematical value.
pub struct DatasetView {
    /// The name of the dataset within the store.
    pub name: Seq<char>,
    /// The length of each axis.
    pub shape: Seq<usize>,
    /// The type of the elements, or what the store said when it could not tell.
    pub datatype: Result<Datatype, Seq<char>>,
}

impl View for Dataset {
    type V = DatasetView;

    closed spec fn view(&self) -> DatasetView {
        DatasetView {
            name: self.name@,
            shape: self.shape@,
            datatype: match self.datatype {
                Ok(datatype) => Ok(datatype),
                Err(cause) => Err(cause@),
            },
        }
    }
}

impl Dataset {
    /// The description of a dataset: its name, its shape, and the type of its elements or why
    /// the store could not tell it.
    pub fn new(name: String, shape: Vec<usize>, datatype: Result<Datatype, StoreError>) -> (dataset:
        Dataset)
        ensures
            dataset@.name == name@,
            dataset@.shape == shape@,
            dataset@.datatype == match datatype {
                Ok(datatype) => Ok::<Datatype, Seq<char>>(datatype),
                Err(cause) => Err(cause@),
            },
    {
        Dataset { name, shape, datatype }
    }

    /// The name of the dataset within the store.
    pub fn name(&self) -> (name: &String)
        ensures
            name@ == self@.name,
    {
        &self.name
    }

    /// The length of each axis.
    pub fn shape(&self) -> (shape: &Vec<usize>)
        ensures
            shape@ == self@.shape,
    {
        &self.shape
    }

    /// The number of axes.
    pub fn ndim(&self) -> (ndim: usize)
        ensures
            ndim == self@.shape.len(),
    {
        self.shape.len()
    }

    /// The type of the elements, if the store could tell it.
    pub fn dtype(&self) -> (datatype: Option<Datatype>)
        ensures
            datatype == match self@.datatype {
                Ok(datatype) => Some(datatype),
                Err(_) => None,
            },
    {
        match &self.datatype {
            Ok(datatype) => Some(*datatype),
            Err(_) => None,
        }
    }
}

impl Clone for Dataset {
    fn clone(&self) -> (copy: Self)
        ensures
            copy@ == self@,
    {
        let shape = self.shape.clone();
        assert(shape@ =~= self.shape@);
        let datatype = match &self.datatype {
            Ok(datatype) => Ok(*datatype),
            Err(cause) => Err(cause.clone()),
        };
        Dataset { name: self.name.clone(), shape, datatype }
    }
}

/// A lazy array as a mathematical value.
pub struct LazyView {
    /// The dataset that the array is bound to.
    pub dataset: DatasetView,
    /// The declared type of the elements.
    pub datatype: Datatype,
    /// The declared number of axes.
    pub ndim: usize,
}

impl LazyView {
    /// The dataset has the declared element type and number of axes.
    pub open spec fn checked(self) -> bool {
        binding(self.dataset, self.datatype, self.ndim) == Ok::<LazyView, ErrorView>(self)
    }
}

/// What binding an array of the declared element type and number of axes to `dataset` gives:
/// the number of axes is held against the dataset's first, then the element type is asked for,
/// then it is held against the declared one. No dataset passes for elements declared as
/// [`Datatype::Other`], which names no single type.
pub open spec fn binding(dataset: DatasetView, datatype: Datatype, ndim: usize) -> Result<
    LazyView,
    ErrorView,
> {
    if dataset.shape.len() != ndim {
        Err(
            ErrorView::DimensionMismatch(
                DimensionMismatchView {
                    array_name: dataset.name,
                    dataset_dimension: dataset.shape.len() as usize,
                    specified_dimension: ndim,
                },
            ),
        )
    } else {
        match dataset.datatype {
            Err(cause) => Err(ErrorView::context(ErrorKind::MissingDatatype, dataset.name, cause)),
            Ok(stored) => if stored != datatype || datatype == Datatype::Other {
                Err(
                    ErrorView::WrongDatatype(
                        WrongDatatypeView { array_name: dataset.name, datatype: stored },
                    ),
                )
            } else {
                Ok(LazyView { dataset, datatype, ndim })
            },
        }
    }
}

/// An array that stays in the store: a handle on one dataset, whose element type and number of
/// axes were checked when the handle was made.
#[derive(Debug, PartialEq, Eq)]
pub struct LazyArray {
    dataset: Dataset,
    datatype: Datatype,
    ndim: usize,
}

impl View for LazyArray {
    type V = LazyView;

    closed spec fn view(&self) -> LazyView {
        LazyView { dataset: self.dataset@, datatype: self.datatype, ndim: self.ndim }
    }
}

impl LazyArray {
    /// The dataset has the declared element type and number of axes.
    #[verifier::type_invariant]
    pub open spec fn checked(self) -> bool {
        self@.checked()
    }

    /// Binds an array of the declared element type and number of axes to a dataset. Fails if
    /// the dataset has another number of axes, if the store cannot tell its element type, or if
    /// that type is not the declared one.
    pub fn new(dataset: Dataset, datatype: Datatype, ndim: usize) -> (bound: Result<
        LazyArray,
        Error,
    >)
        ensures
            viewed(bound) == binding(dataset@, datatype, ndim),
    {
        if ndim != dataset.ndim() {
            let error = DimensionMismatch::new(dataset.name.as_str(), dataset.ndim(), ndim);
            return Err(Error::DimensionMismatch(error));
        }
        let Dataset { name, shape, datatype: fetched } = dataset;
        match fetched {
            Err(cause) => Err(
                Error::MissingDatatype(MissingDatatype::from_field_name(name.as_str(), cause)),
            ),
            Ok(stored) => {
                if !stored.same(datatype) || datatype.same(Datatype::Other) {
                    return Err(Error::WrongDatatype(WrongDatatype::new(name.as_str(), stored)));
                }
                Ok(LazyArray { dataset: Dataset { name, shape, datatype: Ok(stored) }, datatype, ndim })
            },
        }
    }

    /// What became of reading a region of the dataset: the region as the store handed it over,
    /// or the store's refusal with the dataset's name. Nothing is held against the handle
    /// again: that was done when it was bound.
    pub fn slice<A>(&self, read: Result<A, StoreError>) -> (region: Result<A, Error>)
        ensures
            match read {
                Ok(array) => region == Ok::<A, Error>(array),
                Err(cause) => region matches Err(error) && error@ == ErrorView::context(
                    ErrorKind::ReadSlice,
                    self@.dataset.name,
                    cause@,
                ),
            },
    {
        match read {
            Ok(array) => Ok(array),
            Err(cause) => Err(
                Error::ReadSlice(ReadSlice::from_field_name(self.dataset.name.as_str(), cause)),
            ),
        }
    }

    /// What became of writing a region of the dataset: nothing to report, or the store's
    /// refusal with the dataset's name.
    pub fn write_slice(&self, written: Result<(), StoreError>) -> (done: Result<(), Error>)
        ensures
            viewed(done) == match written {
                Ok(_) => Ok::<_, ErrorView>(()),
                Err(cause) => Err(
                    ErrorView::context(ErrorKind::WriteSlice, self@.dataset.name, cause@),
                ),
            },
    {
        match written {
            Ok(_) => Ok(()),
            Err(cause) => Err(
                Error::WriteSlice(WriteSlice::from_field_name(self.dataset.name.as_str(), cause)),
            ),
        }
    }

    /// The dataset that the array is bound to.
    pub fn dataset(&self) -> (dataset: &Dataset)
        ensures
            dataset@ == self@.dataset,
    {
        &self.dataset
    }

    /// The declared type of the elements.
    pub fn datatype(&self) -> (datatype: Datatype)
        ensures
            datatype == self@.datatype,
    {
        self.datatype
    }

    /// The declared number of axes.
    pub fn ndim(&self) -> (ndim: usize)
        ensures
            ndim == self@.ndim,
    {
        self.ndim
    }
}

impl Clone for LazyArray {
    fn clone(&self) -> (copy: Self)
        ensures
            copy@ == self@,
    {
        proof {
            use_type_invariant(self);
        }
        LazyArray { dataset: self.dataset.clone(), datatype: self.datatype, ndim: self.ndim }
    }
}

} // verus!
