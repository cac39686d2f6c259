//! Tensor contents on the host: what Burn's `TensorData` holds, and how it becomes image bytes.

use burn_tensor::{AllocationProperty, DType, TensorData};
use vstd::prelude::*;

use crate::quantize::{law_out_of_range_saturates, quantize, quantized};

verus! {

/// `burn_tensor::TensorData`, the contents of a tensor in host memory.
#[verifier::external_type_specification]
#[verifier::external_body]
pub struct ExTensorData(TensorData);

/// The element type of a tensor, as far as the bridge tells element types apart.
#[derive(Clone, Copy, Debug, PartialEq, Eq, Structural)]
pub enum ElementType {
    /// Single precision floating point numbers.
    Float32,
    /// Bytes.
    Unsigned8,
    /// Any other element type.
    Other,
}

/// Where the contents of a tensor are kept.
#[derive(Clone, Copy, Debug, PartialEq, Eq, Structural)]
pub enum Storage {
    /// In a file, which is read when the contents are first looked at.
    File,
    /// In memory of Rust's allocator.
    Native,
    /// In pinned memory.
    Pinned,
    /// In other memory.
    Other,
}

/// What a `TensorData` holds. Of contents in a file, nothing is claimed: `bytes` and `words` are
/// meant for contents in memory.
pub ghost struct TensorModel {
    /// The element type.
    pub element: ElementType,
    /// The extents, outermost first.
    pub shape: Seq<usize>,
    /// Where the elements are kept.
    pub storage: Storage,
    /// The elements as they lie in memory.
    pub bytes: Seq<u8>,
    /// The memory read as elements of four bytes each, by their bit patterns; nothing where the
    /// number of bytes is no multiple of four.
    pub words: Option<Seq<u32>>,
}

/// The bit pattern that four bytes make, with the first byte lowest or highest.
pub open spec fn word_from(b0: u8, b1: u8, b2: u8, b3: u8, first_is_lowest: bool) -> u32 {
    if first_is_lowest {
        (b0 + 0x100 * b1 + 0x1_0000 * b2 + 0x100_0000 * b3) as u32
    } else {
        (b3 + 0x100 * b2 + 0x1_0000 * b1 + 0x100_0000 * b0) as u32
    }
}

/// The bit patterns that bytes make, four at a time.
pub open spec fn words_from(bytes: Seq<u8>, first_is_lowest: bool) -> Seq<u32> {
    Seq::new(
        bytes.len() / 4,
        |i: int|
            word_from(
                bytes[4 * i],
                bytes[4 * i + 1],
                bytes[4 * i + 2],
                bytes[4 * i + 3],
                first_is_lowest,
            ),
    )
}

/// Whether the bytes are read as these bit patterns, in one of the two byte orders.
pub open spec fn reads_as(bytes: Seq<u8>, words: Seq<u32>) -> bool {
    words == words_from(bytes, true) || words == words_from(bytes, false)
}

/// What the `TensorData` holds.
pub uninterp spec fn tensor_model(data: TensorData) -> TensorModel;

/// Reads the field `TensorData::dtype`.
#[verifier::external_body]
pub(crate) fn tensor_element(data: &TensorData) -> (element: ElementType)
    ensures
        element == tensor_model(*data).element,
{
    match data.dtype {
        DType::F32 => ElementType::Float32,
        DType::U8 => ElementType::Unsigned8,
        _ => ElementType::Other,
    }
}

/// Reads the field `TensorData::shape` with `Shape::to_vec`, which lists the extents in order.
#[verifier::external_body]
pub(crate) fn tensor_shape(data: &TensorData) -> (shape: Vec<usize>)
    ensures
        shape@ == tensor_model(*data).shape,
{
    data.shape.to_vec()
}

/// `Bytes::property` of the contents.
#[verifier::external_body]
fn tensor_storage(data: &TensorData) -> (storage: Storage)
    ensures
        storage == tensor_model(*data).storage,
{
    match data.bytes.property() {
        AllocationProperty::File => Storage::File,
        AllocationProperty::Native => Storage::Native,
        AllocationProperty::Pinned => Storage::Pinned,
        AllocationProperty::Other => Storage::Other,
    }
}

/// `TensorData::to_vec`, asked for words of four bytes over an aligned copy of the memory. It
/// succeeds exactly when the memory divides into such words, and hands out each of them, in the byte
/// order of the machine. Contents in a file are left out: looking at them reads the file, and panics
/// where that fails.
#[verifier::external_body]
pub(crate) fn tensor_words(data: &TensorData) -> (words: Option<Vec<u32>>)
    requires
        tensor_model(*data).storage != Storage::File,
    ensures
        match words {
            Some(words) => tensor_model(*data).words == Some(words@),
            None => tensor_model(*data).words == None::<Seq<u32>>,
        },
        words is Some <==> tensor_model(*data).bytes.len() % 4 == 0,
        words matches Some(words) ==> reads_as(tensor_model(*data).bytes, words@),
{
    let copy = data.as_bytes().to_vec();
    TensorData::from_bytes_vec(copy, data.shape.clone(), DType::U32).to_vec::<u32>().ok()
}

/// `TensorData::from` a slice of bytes: a tensor of rank one that holds exactly those bytes.
#[verifier::external_body]
pub(crate) fn bytes_to_tensor(bytes: &[u8]) -> (data: TensorData)
    ensures
        tensor_model(data).element == ElementType::Unsigned8,
        tensor_model(data).shape == seq![bytes@.len() as usize],
        tensor_model(data).storage == Storage::Native,
        tensor_model(data).bytes == bytes@,
{
    TensorData::from(bytes)
}

/// `TensorData::from_bytes_vec` for single precision numbers: a tensor of the given extents that
/// holds exactly the given bytes, to be read in the byte order of the machine.
#[verifier::external_body]
pub(crate) fn float_tensor(bytes: Vec<u8>, shape: [usize; 3]) -> (data: TensorData)
    ensures
        tensor_model(data).element == ElementType::Float32,
        tensor_model(data).shape == shape@,
        tensor_model(data).storage == Storage::Native,
        tensor_model(data).bytes == bytes@,
        tensor_model(data).words is Some <==> bytes@.len() % 4 == 0,
        tensor_model(data).words matches Some(words) ==> reads_as(bytes@, words),
{
    TensorData::from_bytes_vec(bytes, shape, DType::F32)
}

/// The image bytes for a sequence of channel values.
pub open spec fn rgba_bytes(words: Seq<u32>) -> Seq<u8> {
    words.map_values(|word: u32| quantized(word))
}

/// The image bytes for the contents of a tensor: nothing unless these are whole single precision
/// numbers.
pub open spec fn tensor_rgba_bytes(model: TensorModel) -> Option<Seq<u8>> {
    match (model.element, model.words) {
        (ElementType::Float32, Some(words)) => Some(rgba_bytes(words)),
        _ => None,
    }
}

/// Whether the contents of a tensor are in memory.
pub fn is_loaded(data: &TensorData) -> (loaded: bool)
    ensures
        loaded == (tensor_model(*data).storage != Storage::File),
{
    tensor_storage(data) != Storage::File
}

/// Turns a single precision tensor in memory into image bytes, one byte per channel value, in order.
/// It does not matter at which address the memory starts: the words are read from an aligned copy.
pub fn tensor_data_to_rgba_bytes(data: &TensorData) -> (bytes: Option<Vec<u8>>)
    requires
        tensor_model(*data).storage != Storage::File,
    ensures
        match bytes {
            Some(bytes) => tensor_rgba_bytes(tensor_model(*data)) == Some(bytes@),
            None => tensor_rgba_bytes(tensor_model(*data)) == None::<Seq<u8>>,
        },
        bytes is Some <==> (tensor_model(*data).element == ElementType::Float32 && tensor_model(
            *data,
        ).bytes.len() % 4 == 0),
        bytes is Some ==> reads_as(tensor_model(*data).bytes, tensor_model(*data).words->0),
        bytes matches Some(bytes) ==> forall|i: int|
            0 <= i < bytes@.len() ==> #[trigger] bytes@[i] == quantized(
                tensor_model(*data).words->0[i],
            ),
        bytes matches Some(bytes) ==> 4 * bytes@.len() == tensor_model(*data).bytes.len(),
{
    if tensor_element(data) != ElementType::Float32 {
        return None;
    }
    let words = match tensor_words(data) {
        Some(words) => words,
        None => return None,
    };
    Some(words_to_rgba_bytes(&words))
}

/// Quantizes each channel value in turn.
pub fn words_to_rgba_bytes(words: &Vec<u32>) -> (bytes: Vec<u8>)
    ensures
        bytes@ == rgba_bytes(words@),
        bytes@.len() == words@.len(),
        forall|i: int| 0 <= i < words@.len() ==> #[trigger] bytes@[i] == quantized(words@[i]),
{
    let mut bytes: Vec<u8> = Vec::with_capacity(words.len());
    for i in 0..words.len()
        invariant
            bytes@.len() == i,
            forall|j: int| 0 <= j < i ==> bytes@[j] == quantized(words@[j]),
    {
        bytes.push(quantize(words[i]));
    }
    bytes
}

// ---------- laws ----------

/// The bytes are made value by value, at every index alike: each is that of its own channel value,
/// whatever the others are. So a value that is negative or no number gives 0 at every index, and one
/// from one upwards gives 255.
pub proof fn law_bytes_are_made_value_by_value(words: Seq<u32>, i: int)
    requires
        0 <= i < words.len(),
    ensures
        rgba_bytes(words).len() == words.len(),
        rgba_bytes(words)[i] == quantized(words[i]),
        rgba_bytes(words)[i] == rgba_bytes(seq![words[i]])[0],
        0x7F80_0000 < words[i] ==> rgba_bytes(words)[i] == 0,
        0x3F80_0000 <= words[i] <= 0x7F80_0000 ==> rgba_bytes(words)[i] == 255,
{
    law_out_of_range_saturates(words[i]);
}

/// Exactly the tensors of whole single precision numbers have image bytes, one for each number.
pub proof fn law_float_tensors_have_bytes(model: TensorModel)
    ensures
        tensor_rgba_bytes(model) is Some <==> model.element == ElementType::Float32
            && model.words is Some,
        tensor_rgba_bytes(model) matches Some(bytes) ==> {
            &&& bytes.len() == model.words->0.len()
            &&& forall|i: int|
                0 <= i < bytes.len() ==> #[trigger] bytes[i] == quantized(model.words->0[i])
        },
{
}

} // verus!
