//! Vertex data as the graphics context receives it.

use vstd::prelude::*;
use vstd::view::View as _;
use vstd::string::StringExecFns;
use super::constants::{HasBufferKind, HasViewPrecision, ViewPrecision, view_precision_code};

verus! {

/// A number with two decimal places, held as a signed count of hundredths.
pub type Fixed = i64;

/// How many units of a `Fixed` make one.
pub const FIXED_ONE: Fixed = 100;

/// Why a view over vertex data could not be made or re-aimed.
#[derive(Clone, Copy, Debug, PartialEq, Eq, Structural)]
pub enum DataViewError {
    FailedToCreateMemory,
}

impl DataViewError {
    /// The text of the message for this error.
    pub open spec fn message(self) -> Seq<char> {
        match self {
            DataViewError::FailedToCreateMemory => "Failed to create memory"@,
        }
    }

    pub fn to_string(&self) -> (text: String)
        ensures
            text@ == self.message(),
    {
        match self {
            DataViewError::FailedToCreateMemory => String::from_str("Failed to create memory"),
        }
    }
}

/// Data that a graphics context can upload into a buffer.
pub trait View: HasViewPrecision {
    /// The components behind the view, in upload order.
    spec fn spec_object(&self) -> Seq<Fixed>;

    /// The number of components.
    fn length(&self) -> (length: usize)
        ensures
            length == self.spec_object().len(),
    ;

    /// The components, as the context reads them for an upload.
    fn object(&self) -> (data: &[Fixed])
        ensures
            data@ == self.spec_object(),
    ;

    /// The component type that the context uploads the data as.
    fn get_precision(&self) -> ViewPrecision;
}

/// A view over vertex data that the context uploads as 32-bit floating
/// point.
///
/// The view owns a copy of the data it was last aimed at, so it stays valid
/// whatever becomes of the slice it was made from.
#[derive(Clone, Debug)]
pub struct Float32View {
    data: Vec<Fixed>,
}

impl vstd::view::View for Float32View {
    type V = Seq<Fixed>;

    closed spec fn view(&self) -> Seq<Fixed> {
        self.data@
    }
}

impl Float32View {
    /// Asks the host for memory for `length` components. The host answers
    /// with empty storage, or with none.
    pub(crate) fn reserve(length: usize) -> (storage: Option<Vec<Fixed>>)
        ensures
            storage matches Some(reserved) ==> reserved@.len() == 0,
    {
        let mut storage: Vec<Fixed> = Vec::new();
        match storage.try_reserve(length) {
            Ok(()) => Some(storage),
            Err(_) => None,
        }
    }

    /// Makes a view over a copy of `data_raw`. Whether there is memory for
    /// the copy is the host's to say; if there is none, the answer is
    /// `FailedToCreateMemory`.
    pub fn create(data_raw: &[Fixed]) -> (result: Result<Self, DataViewError>)
        ensures
            match result {
                Ok(view) => view@ == data_raw@,
                Err(error) => error == DataViewError::FailedToCreateMemory,
            },
    {
        let storage = Self::reserve(data_raw.len());
        Self::from_storage(storage, data_raw)
    }

    /// Finishes `create` once the host has answered the request for memory:
    /// with `storage` it set memory aside, and the view is made in it;
    /// without, it refused. What `storage` held before is discarded.
    pub fn from_storage(storage: Option<Vec<Fixed>>, data_raw: &[Fixed]) -> (result: Result<
        Self,
        DataViewError,
    >)
        ensures
            match result {
                Ok(view) => storage is Some && view@ == data_raw@,
                Err(error) => storage is None && error == DataViewError::FailedToCreateMemory,
            },
    {
        let mut data = match storage {
            Some(storage) => storage,
            None => {
                return Err(DataViewError::FailedToCreateMemory);
            },
        };
        data.clear();
        let mut filled: usize = 0;
        while filled < data_raw.len()
            invariant
                filled <= data_raw@.len(),
                data@ == data_raw@.subrange(0, filled as int),
            decreases data_raw@.len() - filled,
        {
            data.push(data_raw[filled]);
            filled = filled + 1;
        }
        assert(data_raw@.subrange(0, filled as int) == data_raw@);
        Ok(Float32View { data })
    }

    /// Aims the view at a copy of `data_raw`. Whether there is memory for
    /// the copy is the host's to say; if there is none, the answer is
    /// `FailedToCreateMemory`, and the view still shows what it showed
    /// before.
    pub fn update_data(&mut self, data_raw: &[Fixed]) -> (result: Result<(), DataViewError>)
        ensures
            match result {
                Ok(()) => final(self)@ == data_raw@,
                Err(error) => error == DataViewError::FailedToCreateMemory && final(self)@ == old(
                    self,
                )@,
            },
    {
        let storage = Self::reserve(data_raw.len());
        self.update_from_storage(storage, data_raw)
    }

    /// Finishes `update_data` once the host has answered the request for
    /// memory: with `storage` the view is aimed at a copy of `data_raw` made
    /// in it; without, the view stays as it is.
    pub fn update_from_storage(
        &mut self,
        storage: Option<Vec<Fixed>>,
        data_raw: &[Fixed],
    ) -> (result: Result<(), DataViewError>)
        ensures
            match result {
                Ok(()) => storage is Some && final(self)@ == data_raw@,
                Err(error) => {
                    &&& storage is None
                    &&& error == DataViewError::FailedToCreateMemory
                    &&& final(self)@ == old(self)@
                },
            },
    {
        match Float32View::from_storage(storage, data_raw) {
            Ok(view) => {
                *self = view;
                Ok(())
            },
            Err(error) => Err(error),
        }
    }
}

impl HasViewPrecision for Float32View {
    fn view_precision_constant(&self) -> (code: u32)
        ensures
            code == view_precision_code(ViewPrecision::Float),
    {
        self.get_precision().view_precision_constant()
    }
}

impl View for Float32View {
    open spec fn spec_object(&self) -> Seq<Fixed> {
        self@
    }

    fn length(&self) -> (length: usize) {
        self.data.len()
    }

    fn object(&self) -> (data: &[Fixed]) {
        self.data.as_slice()
    }

    fn get_precision(&self) -> (precision: ViewPrecision)
        ensures
            precision == ViewPrecision::Float,
    {
        ViewPrecision::Float
    }
}

/// A buffer on the side of the graphics context, paired with the data that
/// goes into it.
#[derive(Clone, Copy, Debug)]
pub struct Data<V: View, B: HasBufferKind> {
    pub buffer: B,
    pub view: V,
}

} // verus!
