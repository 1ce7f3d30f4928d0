//! Tensors and wire payloads.
use vstd::prelude::*;

verus! {

/// The elements of a tensor: a flat sequence of one of the twelve element
/// kinds of the protocol, or a wire value kept as it came.
///
/// Floating-point elements are held as their IEEE 754 bit patterns, 32 bits
/// wide for `F32` and 64 bits wide for `F64`. `Bf16` holds the raw 16-bit
/// storage of each element.
#[derive(Debug, Clone)]
pub enum DataType {
    Bool(Vec<bool>),
    U8(Vec<u8>),
    U16(Vec<u16>),
    U64(Vec<u64>),
    I8(Vec<i8>),
    I16(Vec<i16>),
    I32(Vec<i32>),
    I64(Vec<i64>),
    F32(Vec<u32>),
    F64(Vec<u64>),
    String(Vec<String>),
    Bf16(Vec<u16>),
    Raw(serde_json::Value),
}

/// The mathematical value of a [`DataType`].
pub ghost enum Elements {
    Bool(Seq<bool>),
    U8(Seq<u8>),
    U16(Seq<u16>),
    U64(Seq<u64>),
    I8(Seq<i8>),
    I16(Seq<i16>),
    I32(Seq<i32>),
    I64(Seq<i64>),
    F32(Seq<u32>),
    F64(Seq<u64>),
    String(Seq<Seq<char>>),
    Bf16(Seq<u16>),
    Raw(serde_json::Value),
}

impl View for DataType {
    type V = Elements;

    open spec fn view(&self) -> Elements {
        match *self {
            DataType::Bool(v) => Elements::Bool(v@),
            DataType::U8(v) => Elements::U8(v@),
            DataType::U16(v) => Elements::U16(v@),
            DataType::U64(v) => Elements::U64(v@),
            DataType::I8(v) => Elements::I8(v@),
            DataType::I16(v) => Elements::I16(v@),
            DataType::I32(v) => Elements::I32(v@),
            DataType::I64(v) => Elements::I64(v@),
            DataType::F32(v) => Elements::F32(v@),
            DataType::F64(v) => Elements::F64(v@),
            DataType::String(v) => Elements::String(v.deep_view()),
            DataType::Bf16(v) => Elements::Bf16(v@),
            DataType::Raw(v) => Elements::Raw(v),
        }
    }
}

/// The wire type-tag of each element kind. The raw kind has the tag `none`,
/// which is no tag of the protocol.
pub open spec fn type_tag(e: Elements) -> Seq<char> {
    match e {
        Elements::Bool(_) => "BOOL"@,
        Elements::U8(_) => "UINT8"@,
        Elements::U16(_) => "UINT16"@,
        Elements::U64(_) => "UINT64"@,
        Elements::I8(_) => "INT8"@,
        Elements::I16(_) => "INT16"@,
        Elements::I32(_) => "INT32"@,
        Elements::I64(_) => "INT64"@,
        Elements::F32(_) => "FP32"@,
        Elements::F64(_) => "FP64"@,
        Elements::String(_) => "STRING"@,
        Elements::Bf16(_) => "BF16"@,
        Elements::Raw(_) => "none"@,
    }
}

/// The number of elements; a raw value counts as none.
pub open spec fn element_count(e: Elements) -> nat {
    match e {
        Elements::Bool(s) => s.len(),
        Elements::U8(s) => s.len(),
        Elements::U16(s) => s.len(),
        Elements::U64(s) => s.len(),
        Elements::I8(s) => s.len(),
        Elements::I16(s) => s.len(),
        Elements::I32(s) => s.len(),
        Elements::I64(s) => s.len(),
        Elements::F32(s) => s.len(),
        Elements::F64(s) => s.len(),
        Elements::String(s) => s.len(),
        Elements::Bf16(s) => s.len(),
        Elements::Raw(_) => 0,
    }
}

/// A copy of a vector of strings.
fn clone_texts(v: &Vec<String>) -> (r: Vec<String>)
    ensures
        r.deep_view() == v.deep_view(),
{
    let mut r: Vec<String> = Vec::new();
    let mut i: usize = 0;
    while i < v.len()
        invariant
            i <= v.len(),
            r.len() == i,
            forall|j: int| 0 <= j < i ==> r[j]@ == v[j]@,
        decreases v.len() - i,
    {
        r.push(v[i].clone());
        i = i + 1;
    }
    assert(r.deep_view() =~= v.deep_view());
    r
}

impl DataType {
    /// The number of elements; a raw value counts as none.
    pub fn len(&self) -> (n: usize)
        ensures
            n == element_count(self@),
    {
        match self {
            DataType::Bool(v) => v.len(),
            DataType::U8(v) => v.len(),
            DataType::U16(v) => v.len(),
            DataType::U64(v) => v.len(),
            DataType::I8(v) => v.len(),
            DataType::I16(v) => v.len(),
            DataType::I32(v) => v.len(),
            DataType::I64(v) => v.len(),
            DataType::F32(v) => v.len(),
            DataType::F64(v) => v.len(),
            DataType::String(v) => v.len(),
            DataType::Bf16(v) => v.len(),
            DataType::Raw(_) => 0,
        }
    }

    /// The wire type-tag of the tensor's element kind.
    pub fn get_type_str(&self) -> (tag: &'static str)
        ensures
            tag@ == type_tag(self@),
    {
        match self {
            DataType::Bool(_) => "BOOL",
            DataType::U8(_) => "UINT8",
            DataType::U16(_) => "UINT16",
            DataType::U64(_) => "UINT64",
            DataType::I8(_) => "INT8",
            DataType::I16(_) => "INT16",
            DataType::I32(_) => "INT32",
            DataType::I64(_) => "INT64",
            DataType::F32(_) => "FP32",
            DataType::F64(_) => "FP64",
            DataType::String(_) => "STRING",
            DataType::Bf16(_) => "BF16",
            DataType::Raw(_) => "none",
        }
    }

    /// A copy of the elements if they are 8-bit unsigned integers.
    pub fn as_u8_vec(&self) -> (r: Option<Vec<u8>>)
        ensures
            match self@ {
                Elements::U8(s) => r.is_some() && r.unwrap()@ == s,
                _ => r.is_none(),
            },
    {
        if let DataType::U8(v) = self {
            let c = v.clone();
            assert(c@ =~= v@);
            Some(c)
        } else {
            None
        }
    }

    /// A copy of the elements if they are 16-bit unsigned integers.
    pub fn as_u16_vec(&self) -> (r: Option<Vec<u16>>)
        ensures
            match self@ {
                Elements::U16(s) => r.is_some() && r.unwrap()@ == s,
                _ => r.is_none(),
            },
    {
        if let DataType::U16(v) = self {
            let c = v.clone();
            assert(c@ =~= v@);
            Some(c)
        } else {
            None
        }
    }

    /// A copy of the elements if they are 64-bit unsigned integers.
    pub fn as_u64_vec(&self) -> (r: Option<Vec<u64>>)
        ensures
            match self@ {
                Elements::U64(s) => r.is_some() && r.unwrap()@ == s,
                _ => r.is_none(),
            },
    {
        if let DataType::U64(v) = self {
            let c = v.clone();
            assert(c@ =~= v@);
            Some(c)
        } else {
            None
        }
    }

    /// A copy of the elements if they are 8-bit signed integers.
    pub fn as_i8_vec(&self) -> (r: Option<Vec<i8>>)
        ensures
            match self@ {
                Elements::I8(s) => r.is_some() && r.unwrap()@ == s,
                _ => r.is_none(),
            },
    {
        if let DataType::I8(v) = self {
            let c = v.clone();
            assert(c@ =~= v@);
            Some(c)
        } else {
            None
        }
    }

    /// A copy of the elements if they are 16-bit signed integers.
    pub fn as_i16_vec(&self) -> (r: Option<Vec<i16>>)
        ensures
            match self@ {
                Elements::I16(s) => r.is_some() && r.unwrap()@ == s,
                _ => r.is_none(),
            },
    {
        if let DataType::I16(v) = self {
            let c = v.clone();
            assert(c@ =~= v@);
            Some(c)
        } else {
            None
        }
    }

    /// A copy of the elements if they are 32-bit signed integers.
    pub fn as_i32_vec(&self) -> (r: Option<Vec<i32>>)
        ensures
            match self@ {
                Elements::I32(s) => r.is_some() && r.unwrap()@ == s,
                _ => r.is_none(),
            },
    {
        if let DataType::I32(v) = self {
            let c = v.clone();
            assert(c@ =~= v@);
            Some(c)
        } else {
            None
        }
    }

    /// A copy of the elements if they are 64-bit signed integers.
    pub fn as_i64_vec(&self) -> (r: Option<Vec<i64>>)
        ensures
            match self@ {
                Elements::I64(s) => r.is_some() && r.unwrap()@ == s,
                _ => r.is_none(),
            },
    {
        if let DataType::I64(v) = self {
            let c = v.clone();
            assert(c@ =~= v@);
            Some(c)
        } else {
            None
        }
    }

    /// A copy of the elements, as bit patterns, if they are 32-bit floats.
    pub fn as_f32_vec(&self) -> (r: Option<Vec<u32>>)
        ensures
            match self@ {
                Elements::F32(s) => r.is_some() && r.unwrap()@ == s,
                _ => r.is_none(),
            },
    {
        if let DataType::F32(v) = self {
            let c = v.clone();
            assert(c@ =~= v@);
            Some(c)
        } else {
            None
        }
    }

    /// A copy of the elements, as bit patterns, if they are 64-bit floats.
    pub fn as_f64_vec(&self) -> (r: Option<Vec<u64>>)
        ensures
            match self@ {
                Elements::F64(s) => r.is_some() && r.unwrap()@ == s,
                _ => r.is_none(),
            },
    {
        if let DataType::F64(v) = self {
            let c = v.clone();
            assert(c@ =~= v@);
            Some(c)
        } else {
            None
        }
    }

    /// A copy of the elements if they are booleans.
    pub fn as_bool_vec(&self) -> (r: Option<Vec<bool>>)
        ensures
            match self@ {
                Elements::Bool(s) => r.is_some() && r.unwrap()@ == s,
                _ => r.is_none(),
            },
    {
        if let DataType::Bool(v) = self {
            let c = v.clone();
            assert(c@ =~= v@);
            Some(c)
        } else {
            None
        }
    }

    /// A copy of the raw storage of the elements if they are bfloat16.
    pub fn as_bf16_vec(&self) -> (r: Option<Vec<u16>>)
        ensures
            match self@ {
                Elements::Bf16(s) => r.is_some() && r.unwrap()@ == s,
                _ => r.is_none(),
            },
    {
        if let DataType::Bf16(v) = self {
            let c = v.clone();
            assert(c@ =~= v@);
            Some(c)
        } else {
            None
        }
    }

    /// A copy of the elements if they are strings.
    pub fn as_str_vec(&self) -> (r: Option<Vec<String>>)
        ensures
            match self@ {
                Elements::String(s) => r.is_some() && r.unwrap().deep_view() == s,
                _ => r.is_none(),
            },
    {
        if let DataType::String(v) = self {
            Some(clone_texts(v))
        } else {
            None
        }
    }
}

/// The product of the dimensions of a shape: the number of elements that a
/// tensor of that shape holds.
pub open spec fn shape_volume(shape: Seq<usize>) -> nat
    decreases shape.len(),
{
    if shape.len() == 0 {
        1
    } else {
        (shape_volume(shape.drop_last()) * shape.last()) as nat
    }
}

/// A shape with a dimension of zero holds no element.
pub proof fn lemma_volume_of_empty_dimension(shape: Seq<usize>, k: int)
    requires
        0 <= k < shape.len(),
        shape[k] == 0,
    ensures
        shape_volume(shape) == 0,
    decreases shape.len(),
{
    if k < shape.len() - 1 {
        lemma_volume_of_empty_dimension(shape.drop_last(), k);
        assert(shape_volume(shape.drop_last()) * shape.last() == 0) by (nonlinear_arith)
            requires
                shape_volume(shape.drop_last()) == 0,
        ;
    } else {
        assert(shape_volume(shape.drop_last()) * shape.last() == 0) by (nonlinear_arith)
            requires
                shape.last() == 0,
        ;
    }
}

/// Where no dimension is zero, the leading dimensions alone never hold more
/// elements than the whole shape.
pub proof fn lemma_volume_of_prefix(shape: Seq<usize>, n: int)
    requires
        0 <= n <= shape.len(),
        forall|i: int| 0 <= i < shape.len() ==> shape[i] >= 1,
    ensures
        1 <= shape_volume(shape.subrange(0, n)) <= shape_volume(shape),
    decreases shape.len() - n,
{
    if n == shape.len() {
        assert(shape.subrange(0, n) =~= shape);
        lemma_volume_at_least_one(shape);
    } else {
        lemma_volume_of_prefix(shape, n + 1);
        let longer = shape.subrange(0, n + 1);
        assert(longer.drop_last() =~= shape.subrange(0, n));
        lemma_volume_at_least_one(shape.subrange(0, n));
        assert(shape_volume(longer.drop_last()) <= shape_volume(longer.drop_last())
            * longer.last()) by (nonlinear_arith)
            requires
                longer.last() >= 1,
        ;
    }
}

/// Where no dimension is zero, a shape holds at least one element.
pub proof fn lemma_volume_at_least_one(shape: Seq<usize>)
    requires
        forall|i: int| 0 <= i < shape.len() ==> shape[i] >= 1,
    ensures
        shape_volume(shape) >= 1,
    decreases shape.len(),
{
    if shape.len() > 0 {
        lemma_volume_at_least_one(shape.drop_last());
        assert(shape_volume(shape.drop_last()) * shape.last() >= 1) by (nonlinear_arith)
            requires
                shape_volume(shape.drop_last()) >= 1,
                shape.last() >= 1,
        ;
    }
}

/// Whether a tensor of the given shape holds exactly `count` elements.
/// The volume itself may be beyond any machine integer: it is never
/// computed past `count`.
pub fn fills_shape(shape: &Vec<usize>, count: usize) -> (r: bool)
    ensures
        r == (shape_volume(shape@) == count),
{
    let mut k: usize = 0;
    while k < shape.len()
        invariant
            k <= shape.len(),
            forall|j: int| 0 <= j < k ==> shape@[j] >= 1,
        decreases shape.len() - k,
    {
        if shape[k] == 0 {
            proof {
                lemma_volume_of_empty_dimension(shape@, k as int);
            }
            return count == 0;
        }
        k = k + 1;
    }
    if count == 0 {
        proof {
            lemma_volume_at_least_one(shape@);
        }
        return false;
    }
    let mut volume: usize = 1;
    let mut i: usize = 0;
    assert(shape@.subrange(0, 0) =~= Seq::empty());
    while i < shape.len()
        invariant
            i <= shape.len(),
            forall|j: int| 0 <= j < shape.len() ==> shape@[j] >= 1,
            volume == shape_volume(shape@.subrange(0, i as int)),
            1 <= volume <= count,
        decreases shape.len() - i,
    {
        let d = shape[i];
        proof {
            let longer = shape@.subrange(0, i as int + 1);
            assert(longer.drop_last() =~= shape@.subrange(0, i as int));
            assert(shape_volume(longer) == volume * d);
            lemma_volume_of_prefix(shape@, i as int + 1);
        }
        if volume > count / d {
            assert(volume * d > count) by (nonlinear_arith)
                requires
                    volume > count / d,
                    d >= 1,
            ;
            return false;
        }
        assert(volume * d <= count) by (nonlinear_arith)
            requires
                volume <= count / d,
                d >= 1,
        ;
        volume = volume * d;
        i = i + 1;
    }
    assert(shape@.subrange(0, i as int) =~= shape@);
    volume == count
}

/// A named, shaped tensor to be sent to a model.
///
/// That the shape's volume equals the number of elements is the caller's
/// to maintain: no constructor of this type checks it, and the codec sends
/// name, shape and elements as they are. `has_matching_shape` tells whether
/// it holds.
#[derive(Debug)]
pub struct InferInput {
    pub input_name: String,
    pub input_shape: Vec<usize>,
    pub input_data: DataType,
}

impl InferInput {
    /// A tensor of the given name, shape and elements.
    pub fn new(input_name: String, input_shape: Vec<usize>, input_data: DataType) -> (r: Self)
        ensures
            r.input_name == input_name,
            r.input_shape == input_shape,
            r.input_data == input_data,
    {
        InferInput { input_name, input_shape, input_data }
    }

    /// Whether the shape's volume is the number of elements.
    pub open spec fn matches_shape(&self) -> bool {
        shape_volume(self.input_shape@) == element_count(self.input_data@)
    }

    /// Whether the shape's volume is the number of elements.
    pub fn has_matching_shape(&self) -> (r: bool)
        ensures
            r == self.matches_shape(),
    {
        fills_shape(&self.input_shape, self.input_data.len())
    }
}

/// The body of an inference request: the inputs, in the caller's order.
pub struct InferRequest<'a, T> {
    pub inputs: Vec<InferInputPayload<'a, T>>,
}

/// One input on the wire.
pub struct InferInputPayload<'a, T> {
    pub name: &'a str,
    pub shape: Vec<usize>,
    pub datatype: &'a str,
    pub data: T,
}

/// The data of an input on the wire. Integers, booleans, strings and raw
/// values are a JSON value; floating-point elements are handed on as bit
/// patterns, for the transport to write as JSON numbers.
#[derive(Debug, Clone)]
pub enum WireData {
    Json(serde_json::Value),
    Singles(Vec<u32>),
    Doubles(Vec<u64>),
}

/// One element of an output's data read as a floating-point number: the
/// bit pattern of its double-precision value, and that of the same value
/// narrowed to single precision.
#[derive(Debug, Clone, Copy)]
pub struct RealReading {
    pub single: u32,
    pub double: u64,
}

/// One output on the wire, as the server sent it.
///
/// `reals` holds the floating-point readings of the data, made by whoever
/// parsed the reply: where the data is an array, one entry for each of its
/// elements, in order, with nothing where the element is no number. Only
/// the floating-point tags are decoded from it.
#[derive(Debug, Clone)]
pub struct TritonServerResponse {
    pub name: String,
    pub shape: Vec<usize>,
    pub datatype: String,
    pub data: serde_json::Value,
    pub reals: Vec<Option<RealReading>>,
}

/// The body of an inference reply.
#[derive(Debug, Clone)]
pub struct InferResponse {
    pub outputs: Vec<TritonServerResponse>,
}

/// One decoded output: name, wire type-tag and shape as the server sent
/// them, and the typed elements.
#[derive(Debug, Clone)]
pub struct InferOutput {
    pub name: String,
    pub datatype: String,
    pub shape: Vec<usize>,
    pub data: DataType,
}

/// The mathematical value of an [`InferOutput`].
pub ghost struct OutputModel {
    pub name: Seq<char>,
    pub datatype: Seq<char>,
    pub shape: Seq<usize>,
    pub data: Elements,
}

impl View for InferOutput {
    type V = OutputModel;

    open spec fn view(&self) -> OutputModel {
        OutputModel {
            name: self.name@,
            datatype: self.datatype@,
            shape: self.shape@,
            data: self.data@,
        }
    }
}

/// The decoded outputs of one inference call, in the server's order.
#[derive(Debug, Clone)]
pub struct InferResults {
    pub outputs: Vec<InferOutput>,
}

/// The mathematical values of a sequence of outputs.
pub open spec fn output_models(outputs: Seq<InferOutput>) -> Seq<OutputModel> {
    Seq::new(outputs.len(), |i: int| outputs[i]@)
}

impl View for InferResults {
    type V = Seq<OutputModel>;

    open spec fn view(&self) -> Seq<OutputModel> {
        output_models(self.outputs@)
    }
}

} // verus!
