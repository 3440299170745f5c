//! Dataset file formats and the factory that picks one from a format name.

use vstd::prelude::*;
use crate::framework::{FormatType, format_type_of};
use crate::tfrecord::TfRecordFormat;
use crate::uri::str_eq;

verus! {

/// Shape of generated arrays when none is given: a 224 x 224 RGB image.
pub open spec fn default_shape() -> Seq<usize> {
    seq![224usize, 224usize, 3usize]
}

/// Record payload size of TFRecord files when none is given.
pub const DEFAULT_RECORD_LENGTH: usize = 1024;

/// Number of records of TFRecord files when none is given.
pub const DEFAULT_NUM_RECORDS: usize = 100;

/// Number of arrays in a generated NPZ archive: data, labels and metadata.
pub const DEFAULT_NPZ_ARRAYS: usize = 3;

/// NPZ archives: a ZIP of `.npy` arrays of one shape.
#[derive(Debug, Clone)]
pub struct NpzFormat {
    shape: Vec<usize>,
    num_arrays: usize,
}

impl NpzFormat {
    pub closed spec fn spec_shape(&self) -> Seq<usize> {
        self.shape@
    }

    pub closed spec fn spec_num_arrays(&self) -> usize {
        self.num_arrays
    }

    /// Arrays of `shape`, `num_arrays` of them but at least one.
    pub fn new(shape: Vec<usize>, num_arrays: usize) -> (r: Self)
        ensures
            r.spec_shape() == shape@,
            r.spec_num_arrays() == if num_arrays >= 1 {
                num_arrays
            } else {
                1
            },
    {
        NpzFormat { shape, num_arrays: if num_arrays >= 1 { num_arrays } else { 1 } }
    }

    pub fn shape(&self) -> (r: &Vec<usize>)
        ensures
            r@ == self.spec_shape(),
    {
        &self.shape
    }

    pub fn num_arrays(&self) -> (r: usize)
        ensures
            r == self.spec_num_arrays(),
    {
        self.num_arrays
    }
}

/// NPZ archives produced in memory for streaming to object storage.
#[derive(Debug, Clone)]
pub struct NpzStreamingFormat {
    shape: Vec<usize>,
    num_arrays: usize,
}

impl NpzStreamingFormat {
    pub closed spec fn spec_shape(&self) -> Seq<usize> {
        self.shape@
    }

    pub closed spec fn spec_num_arrays(&self) -> usize {
        self.num_arrays
    }

    /// Arrays of `shape`, `num_arrays` of them but at least one.
    pub fn new(shape: Vec<usize>, num_arrays: usize) -> (r: Self)
        ensures
            r.spec_shape() == shape@,
            r.spec_num_arrays() == if num_arrays >= 1 {
                num_arrays
            } else {
                1
            },
    {
        NpzStreamingFormat { shape, num_arrays: if num_arrays >= 1 { num_arrays } else { 1 } }
    }

    pub fn shape(&self) -> (r: &Vec<usize>)
        ensures
            r@ == self.spec_shape(),
    {
        &self.shape
    }

    pub fn num_arrays(&self) -> (r: usize)
        ensures
            r == self.spec_num_arrays(),
    {
        self.num_arrays
    }
}

/// HDF5 files holding one dataset of one shape.
#[derive(Debug, Clone)]
pub struct Hdf5Format {
    shape: Vec<usize>,
    dataset_name: String,
}

impl Hdf5Format {
    pub closed spec fn spec_shape(&self) -> Seq<usize> {
        self.shape@
    }

    pub closed spec fn spec_dataset_name(&self) -> Seq<char> {
        self.dataset_name@
    }

    /// A dataset of `shape` named `dataset_name`, or "data" when none is given.
    pub fn new(shape: Vec<usize>, dataset_name: Option<String>) -> (r: Self)
        ensures
            r.spec_shape() == shape@,
            r.spec_dataset_name() == match dataset_name {
                Some(n) => n@,
                None => "data"@,
            },
    {
        let dataset_name = match dataset_name {
            Some(n) => n,
            None => String::from_str("data"),
        };
        Hdf5Format { shape, dataset_name }
    }

    pub fn shape(&self) -> (r: &Vec<usize>)
        ensures
            r@ == self.spec_shape(),
    {
        &self.shape
    }

    pub fn dataset_name(&self) -> (r: &str)
        ensures
            r@ == self.spec_dataset_name(),
    {
        self.dataset_name.as_str()
    }
}

/// A format chosen by name.
#[derive(Debug, Clone)]
pub enum DataFormat {
    Npz(NpzFormat),
    Hdf5(Hdf5Format),
    TfRecord(TfRecordFormat),
}

/// Errors of format selection.
#[derive(Debug, Clone, PartialEq, Eq)]
pub enum FormatError {
    /// The name is none of npz, hdf5, tfrecord (in any case).
    UnsupportedFormat(String),
}

/// The lower-case form of a string.
pub uninterp spec fn lowercase_of(s: Seq<char>) -> Seq<char>;

/// Relies on `str::to_lowercase`: the lower-case form of `s`, which depends
/// on its characters alone.
#[verifier::external_body]
fn to_lowercase(s: &str) -> (r: String)
    ensures
        r@ == lowercase_of(s@),
{
    s.to_lowercase()
}

/// `f` is the format that the lower-case name `lowered` selects, built from
/// the given options or their defaults.
pub open spec fn is_format_for(
    f: DataFormat,
    lowered: Seq<char>,
    shape: Option<Vec<usize>>,
    record_length: Option<usize>,
    num_records: Option<usize>,
) -> bool {
    let shape_v = match shape {
        Some(s) => s@,
        None => default_shape(),
    };
    match f {
        DataFormat::Npz(n) => format_type_of(lowered) == Some(FormatType::Npz) && n.spec_shape() == shape_v
            && n.spec_num_arrays() == DEFAULT_NPZ_ARRAYS,
        DataFormat::Hdf5(h) => format_type_of(lowered) == Some(FormatType::Hdf5) && h.spec_shape() == shape_v
            && h.spec_dataset_name() == "data"@,
        DataFormat::TfRecord(t) => format_type_of(lowered) == Some(FormatType::TfRecord)
            && t.spec_num_records() == match num_records {
            Some(n) => n,
            None => DEFAULT_NUM_RECORDS,
        } && t.spec_target_record_size() == match record_length {
            Some(n) => n,
            None => DEFAULT_RECORD_LENGTH,
        },
    }
}

/// Picks the format that an already lower-case name selects.
pub fn format_for_lowercase_name(
    lowered: &str,
    shape: Option<Vec<usize>>,
    record_length: Option<usize>,
    num_records: Option<usize>,
) -> (r: Result<DataFormat, FormatError>)
    ensures
        r is Ok <==> format_type_of(lowered@) is Some,
        r is Ok ==> is_format_for(r->Ok_0, lowered@, shape, record_length, num_records),
        r is Err ==> r->Err_0 is UnsupportedFormat,
{
    let is_npz = str_eq(lowered, "npz");
    let is_hdf5 = str_eq(lowered, "hdf5");
    let is_tfrecord = str_eq(lowered, "tfrecord");
    if is_npz || is_hdf5 {
        let shape_v = match shape {
            Some(s) => s,
            None => {
                let v = vec![224usize, 224usize, 3usize];
                assert(v@ =~= default_shape());
                v
            },
        };
        if is_npz {
            Ok(DataFormat::Npz(NpzFormat::new(shape_v, DEFAULT_NPZ_ARRAYS)))
        } else {
            Ok(DataFormat::Hdf5(Hdf5Format::new(shape_v, None)))
        }
    } else if is_tfrecord {
        let n = match num_records {
            Some(n) => n,
            None => DEFAULT_NUM_RECORDS,
        };
        let len = match record_length {
            Some(l) => l,
            None => DEFAULT_RECORD_LENGTH,
        };
        Ok(DataFormat::TfRecord(TfRecordFormat::new(n, len)))
    } else {
        Err(FormatError::UnsupportedFormat(String::from_str(lowered)))
    }
}

/// Factory of formats by name.
pub struct FormatFactory;

impl FormatFactory {
    /// Picks a format by name, ignoring case; options left out take their
    /// defaults (a 224 x 224 x 3 shape, 100 records of 1024 bytes).
    pub fn create_format(
        format_name: &str,
        shape: Option<Vec<usize>>,
        record_length: Option<usize>,
        num_records: Option<usize>,
    ) -> (r: Result<DataFormat, FormatError>)
        ensures
            r is Ok <==> format_type_of(lowercase_of(format_name@)) is Some,
            r is Ok ==> is_format_for(r->Ok_0, lowercase_of(format_name@), shape, record_length, num_records),
            r is Err ==> r->Err_0 is UnsupportedFormat,
    {
        let lowered = to_lowercase(format_name);
        format_for_lowercase_name(lowered.as_str(), shape, record_length, num_records)
    }

    /// Names of the supported formats.
    pub fn supported_formats() -> (r: Vec<&'static str>)
        ensures
            r@.len() == 3,
            r@[0]@ == "npz"@,
            r@[1]@ == "hdf5"@,
            r@[2]@ == "tfrecord"@,
    {
        vec!["npz", "hdf5", "tfrecord"]
    }
}

} // verus!
