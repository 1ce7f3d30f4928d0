//! The codec between tensors and wire payloads.
//!
//! Encoding is total. Decoding goes by the wire type-tag: a tag of the
//! protocol asks for an array, whose elements are read one by one and left
//! out where they do not read as the tag demands; any other tag keeps the
//! wire value as it came.
use crate::client::io::{
    DataType, Elements, InferInput, InferInputPayload, InferOutput, InferRequest, InferResponse,
    InferResults, OutputModel, RealReading, TritonServerResponse, WireData, output_models,
    type_tag,
};
use crate::client::json::{
    json_bool, json_i64, json_items, json_of_bools, json_of_signed, json_of_texts,
    json_of_unsigned, json_text, json_u64,
};
use crate::client::narrow::{
    keep_i16, keep_i32, keep_i8, keep_u16, keep_u8, kept, lemma_kept_len, lemma_kept_push,
    narrowings_i16, narrowings_i32, narrowings_i8, narrowings_u16, narrowings_u8,
};
use vstd::prelude::*;
use vstd::string::*;

verus! {

/// The element kinds of the protocol, and the raw kind.
#[derive(Debug, Clone, Copy, PartialEq, Eq, Structural)]
pub enum ElementKind {
    Bool,
    U8,
    U16,
    U64,
    I8,
    I16,
    I32,
    I64,
    F32,
    F64,
    String,
    Bf16,
    Raw,
}

/// The kind that a wire type-tag stands for. Tags are matched exactly and
/// with case; whatever is no tag of the protocol stands for the raw kind.
pub open spec fn tag_kind(tag: Seq<char>) -> ElementKind {
    if tag == "BOOL"@ {
        ElementKind::Bool
    } else if tag == "UINT8"@ {
        ElementKind::U8
    } else if tag == "UINT16"@ {
        ElementKind::U16
    } else if tag == "UINT64"@ {
        ElementKind::U64
    } else if tag == "INT8"@ {
        ElementKind::I8
    } else if tag == "INT16"@ {
        ElementKind::I16
    } else if tag == "INT32"@ {
        ElementKind::I32
    } else if tag == "INT64"@ {
        ElementKind::I64
    } else if tag == "FP32"@ {
        ElementKind::F32
    } else if tag == "FP64"@ {
        ElementKind::F64
    } else if tag == "STRING"@ {
        ElementKind::String
    } else if tag == "BF16"@ {
        ElementKind::Bf16
    } else {
        ElementKind::Raw
    }
}

/// The kind of a tensor's elements.
pub open spec fn kind_of(e: Elements) -> ElementKind {
    match e {
        Elements::Bool(_) => ElementKind::Bool,
        Elements::U8(_) => ElementKind::U8,
        Elements::U16(_) => ElementKind::U16,
        Elements::U64(_) => ElementKind::U64,
        Elements::I8(_) => ElementKind::I8,
        Elements::I16(_) => ElementKind::I16,
        Elements::I32(_) => ElementKind::I32,
        Elements::I64(_) => ElementKind::I64,
        Elements::F32(_) => ElementKind::F32,
        Elements::F64(_) => ElementKind::F64,
        Elements::String(_) => ElementKind::String,
        Elements::Bf16(_) => ElementKind::Bf16,
        Elements::Raw(_) => ElementKind::Raw,
    }
}

/// Whether two strings hold the same characters.
fn same_text(a: &str, b: &str) -> (r: bool)
    ensures
        r == (a@ == b@),
{
    let n = a.unicode_len();
    if n != b.unicode_len() {
        return false;
    }
    let mut i: usize = 0;
    while i < n
        invariant
            i <= n,
            n == a@.len(),
            n == b@.len(),
            forall|j: int| 0 <= j < i ==> a@[j] == b@[j],
        decreases n - i,
    {
        if a.get_char(i) != b.get_char(i) {
            return false;
        }
        i = i + 1;
    }
    assert(a@ =~= b@);
    true
}

/// The kind that a wire type-tag stands for.
pub fn classify(tag: &str) -> (kind: ElementKind)
    ensures
        kind == tag_kind(tag@),
{
    if same_text(tag, "BOOL") {
        ElementKind::Bool
    } else if same_text(tag, "UINT8") {
        ElementKind::U8
    } else if same_text(tag, "UINT16") {
        ElementKind::U16
    } else if same_text(tag, "UINT64") {
        ElementKind::U64
    } else if same_text(tag, "INT8") {
        ElementKind::I8
    } else if same_text(tag, "INT16") {
        ElementKind::I16
    } else if same_text(tag, "INT32") {
        ElementKind::I32
    } else if same_text(tag, "INT64") {
        ElementKind::I64
    } else if same_text(tag, "FP32") {
        ElementKind::F32
    } else if same_text(tag, "FP64") {
        ElementKind::F64
    } else if same_text(tag, "STRING") {
        ElementKind::String
    } else if same_text(tag, "BF16") {
        ElementKind::Bf16
    } else {
        ElementKind::Raw
    }
}

/// Whether a payload under this tag is decoded from its floating-point
/// readings: under any other tag they need not be made.
pub fn reads_reals(tag: &str) -> (r: bool)
    ensures
        r == (tag_kind(tag@) == ElementKind::F32 || tag_kind(tag@) == ElementKind::F64),
{
    match classify(tag) {
        ElementKind::F32 => true,
        ElementKind::F64 => true,
        _ => false,
    }
}

/// Each element read as an unsigned integer.
pub open spec fn unsigned_readings(items: Seq<serde_json::Value>) -> Seq<Option<u64>> {
    Seq::new(items.len(), |i: int| json_u64(items[i]))
}

/// Each element read as a signed integer.
pub open spec fn signed_readings(items: Seq<serde_json::Value>) -> Seq<Option<i64>> {
    Seq::new(items.len(), |i: int| json_i64(items[i]))
}

/// Each element read as a boolean.
pub open spec fn bool_readings(items: Seq<serde_json::Value>) -> Seq<Option<bool>> {
    Seq::new(items.len(), |i: int| json_bool(items[i]))
}

/// Each element read as a string.
pub open spec fn text_readings(items: Seq<serde_json::Value>) -> Seq<Option<Seq<char>>> {
    Seq::new(items.len(), |i: int| json_text(items[i]))
}

/// The elements that read as unsigned integers, in order.
pub fn convert_output_unsigned(items: &Vec<serde_json::Value>) -> (out: Vec<u64>)
    ensures
        out@ == kept(unsigned_readings(items@)),
{
    let mut out: Vec<u64> = Vec::new();
    let mut i: usize = 0;
    while i < items.len()
        invariant
            i <= items.len(),
            out@ == kept(unsigned_readings(items@.subrange(0, i as int))),
        decreases items.len() - i,
    {
        let reading = items[i].as_u64();
        proof {
            let before = unsigned_readings(items@.subrange(0, i as int));
            assert(unsigned_readings(items@.subrange(0, i as int + 1)) =~= before.push(reading));
            lemma_kept_push(before, reading);
        }
        if let Some(x) = reading {
            out.push(x);
        }
        i = i + 1;
    }
    assert(items@.subrange(0, i as int) =~= items@);
    out
}

/// The elements that read as signed integers, in order.
pub fn convert_output_signed(items: &Vec<serde_json::Value>) -> (out: Vec<i64>)
    ensures
        out@ == kept(signed_readings(items@)),
{
    let mut out: Vec<i64> = Vec::new();
    let mut i: usize = 0;
    while i < items.len()
        invariant
            i <= items.len(),
            out@ == kept(signed_readings(items@.subrange(0, i as int))),
        decreases items.len() - i,
    {
        let reading = items[i].as_i64();
        proof {
            let before = signed_readings(items@.subrange(0, i as int));
            assert(signed_readings(items@.subrange(0, i as int + 1)) =~= before.push(reading));
            lemma_kept_push(before, reading);
        }
        if let Some(x) = reading {
            out.push(x);
        }
        i = i + 1;
    }
    assert(items@.subrange(0, i as int) =~= items@);
    out
}

/// The elements that read as booleans, in order.
pub fn convert_output_bool(items: &Vec<serde_json::Value>) -> (out: Vec<bool>)
    ensures
        out@ == kept(bool_readings(items@)),
{
    let mut out: Vec<bool> = Vec::new();
    let mut i: usize = 0;
    while i < items.len()
        invariant
            i <= items.len(),
            out@ == kept(bool_readings(items@.subrange(0, i as int))),
        decreases items.len() - i,
    {
        let reading = items[i].as_bool();
        proof {
            let before = bool_readings(items@.subrange(0, i as int));
            assert(bool_readings(items@.subrange(0, i as int + 1)) =~= before.push(reading));
            lemma_kept_push(before, reading);
        }
        if let Some(x) = reading {
            out.push(x);
        }
        i = i + 1;
    }
    assert(items@.subrange(0, i as int) =~= items@);
    out
}

/// The elements that read as strings, in order.
pub fn convert_output_string(items: &Vec<serde_json::Value>) -> (out: Vec<String>)
    ensures
        out.deep_view() == kept(text_readings(items@)),
{
    let mut out: Vec<String> = Vec::new();
    let mut i: usize = 0;
    while i < items.len()
        invariant
            i <= items.len(),
            out.deep_view() == kept(text_readings(items@.subrange(0, i as int))),
        decreases items.len() - i,
    {
        let reading = items[i].as_str();
        proof {
            let before = text_readings(items@.subrange(0, i as int));
            assert(text_readings(items@.subrange(0, i as int + 1)) =~= before.push(
                json_text(items@[i as int]),
            ));
            lemma_kept_push(before, json_text(items@[i as int]));
        }
        if let Some(s) = reading {
            let ghost earlier = out.deep_view();
            out.push(String::from_str(s));
            assert(out.deep_view() =~= earlier.push(s@));
        }
        i = i + 1;
    }
    assert(items@.subrange(0, i as int) =~= items@);
    out
}

/// The single-precision bit pattern of each reading.
pub open spec fn single_readings(reals: Seq<Option<RealReading>>) -> Seq<Option<u32>> {
    Seq::new(
        reals.len(),
        |i: int|
            match reals[i] {
                Some(x) => Some(x.single),
                None => None,
            },
    )
}

/// The double-precision bit pattern of each reading.
pub open spec fn double_readings(reals: Seq<Option<RealReading>>) -> Seq<Option<u64>> {
    Seq::new(
        reals.len(),
        |i: int|
            match reals[i] {
                Some(x) => Some(x.double),
                None => None,
            },
    )
}

/// The single-precision bit patterns of the elements that read as numbers,
/// in order.
pub fn convert_output_single(reals: &Vec<Option<RealReading>>) -> (out: Vec<u32>)
    ensures
        out@ == kept(single_readings(reals@)),
{
    let mut out: Vec<u32> = Vec::new();
    let mut i: usize = 0;
    while i < reals.len()
        invariant
            i <= reals.len(),
            out@ == kept(single_readings(reals@.subrange(0, i as int))),
        decreases reals.len() - i,
    {
        let reading = match reals[i] {
            Some(x) => Some(x.single),
            None => None,
        };
        proof {
            let before = single_readings(reals@.subrange(0, i as int));
            assert(single_readings(reals@.subrange(0, i as int + 1)) =~= before.push(reading));
            lemma_kept_push(before, reading);
        }
        if let Some(x) = reading {
            out.push(x);
        }
        i = i + 1;
    }
    assert(reals@.subrange(0, i as int) =~= reals@);
    out
}

/// The double-precision bit patterns of the elements that read as numbers,
/// in order.
pub fn convert_output_double(reals: &Vec<Option<RealReading>>) -> (out: Vec<u64>)
    ensures
        out@ == kept(double_readings(reals@)),
{
    let mut out: Vec<u64> = Vec::new();
    let mut i: usize = 0;
    while i < reals.len()
        invariant
            i <= reals.len(),
            out@ == kept(double_readings(reals@.subrange(0, i as int))),
        decreases reals.len() - i,
    {
        let reading = match reals[i] {
            Some(x) => Some(x.double),
            None => None,
        };
        proof {
            let before = double_readings(reals@.subrange(0, i as int));
            assert(double_readings(reals@.subrange(0, i as int + 1)) =~= before.push(reading));
            lemma_kept_push(before, reading);
        }
        if let Some(x) = reading {
            out.push(x);
        }
        i = i + 1;
    }
    assert(reals@.subrange(0, i as int) =~= reals@);
    out
}

/// What an array of the given elements decodes to under a kind of the
/// protocol. The floating-point kinds go by the readings that came with the
/// payload; the raw kind keeps the wire value.
pub open spec fn decoded_items(
    kind: ElementKind,
    data: serde_json::Value,
    items: Seq<serde_json::Value>,
    reals: Seq<Option<RealReading>>,
) -> Elements {
    match kind {
        ElementKind::Bool => Elements::Bool(kept(bool_readings(items))),
        ElementKind::U8 => Elements::U8(kept(narrowings_u8(kept(unsigned_readings(items))))),
        ElementKind::U16 => Elements::U16(kept(narrowings_u16(kept(unsigned_readings(items))))),
        ElementKind::U64 => Elements::U64(kept(unsigned_readings(items))),
        ElementKind::I8 => Elements::I8(kept(narrowings_i8(kept(signed_readings(items))))),
        ElementKind::I16 => Elements::I16(kept(narrowings_i16(kept(signed_readings(items))))),
        ElementKind::I32 => Elements::I32(kept(narrowings_i32(kept(signed_readings(items))))),
        ElementKind::I64 => Elements::I64(kept(signed_readings(items))),
        ElementKind::F32 => Elements::F32(kept(single_readings(reals))),
        ElementKind::F64 => Elements::F64(kept(double_readings(reals))),
        ElementKind::String => Elements::String(kept(text_readings(items))),
        ElementKind::Bf16 => Elements::Bf16(kept(narrowings_u16(kept(unsigned_readings(items))))),
        ElementKind::Raw => Elements::Raw(data),
    }
}

/// What a wire payload decodes to: the wire value itself under a tag that
/// is none of the protocol's; nothing under a tag of the protocol whose
/// data is no array; else the elements that read as the tag demands.
pub open spec fn decoded(
    tag: Seq<char>,
    data: serde_json::Value,
    reals: Seq<Option<RealReading>>,
) -> Option<Elements> {
    if tag_kind(tag) == ElementKind::Raw {
        Some(Elements::Raw(data))
    } else {
        match json_items(data) {
            Some(items) => Some(decoded_items(tag_kind(tag), data, items, reals)),
            None => None,
        }
    }
}

/// What one output of a reply decodes to: nothing where its data decodes to
/// nothing, else the typed elements under the name, tag and shape that the
/// server sent.
pub open spec fn decoded_output(output: TritonServerResponse) -> Option<OutputModel> {
    match decoded(output.datatype@, output.data, output.reals@) {
        Some(e) => Some(
            OutputModel {
                name: output.name@,
                datatype: output.datatype@,
                shape: output.shape@,
                data: e,
            },
        ),
        None => None,
    }
}

/// What each output of a reply decodes to.
pub open spec fn output_decodings(outputs: Seq<TritonServerResponse>) -> Seq<Option<OutputModel>> {
    Seq::new(outputs.len(), |i: int| decoded_output(outputs[i]))
}

/// Decodes the data of one output of a reply.
///
/// Under a tag that is none of the protocol's the wire value is kept as it
/// came. Under a tag of the protocol the data must be an array, else there
/// is no tensor; of an array, the elements that do not read as the tag
/// demands, or do not fit its width, are left out.
pub fn decode(output: &TritonServerResponse) -> (r: Option<DataType>)
    ensures
        match decoded(output.datatype@, output.data, output.reals@) {
            Some(e) => r.is_some() && r.unwrap()@ == e,
            None => r.is_none(),
        },
{
    let kind = classify(output.datatype.as_str());
    if let ElementKind::Raw = kind {
        return Some(DataType::Raw(output.data.clone()));
    }
    match output.data.as_array() {
        None => None,
        Some(items) => Some(
            match kind {
                ElementKind::Bool => DataType::Bool(convert_output_bool(items)),
                ElementKind::U8 => DataType::U8(keep_u8(&convert_output_unsigned(items))),
                ElementKind::U16 => DataType::U16(keep_u16(&convert_output_unsigned(items))),
                ElementKind::U64 => DataType::U64(convert_output_unsigned(items)),
                ElementKind::I8 => DataType::I8(keep_i8(&convert_output_signed(items))),
                ElementKind::I16 => DataType::I16(keep_i16(&convert_output_signed(items))),
                ElementKind::I32 => DataType::I32(keep_i32(&convert_output_signed(items))),
                ElementKind::I64 => DataType::I64(convert_output_signed(items)),
                ElementKind::F32 => DataType::F32(convert_output_single(&output.reals)),
                ElementKind::F64 => DataType::F64(convert_output_double(&output.reals)),
                ElementKind::String => DataType::String(convert_output_string(items)),
                ElementKind::Bf16 => DataType::Bf16(keep_u16(&convert_output_unsigned(items))),
                ElementKind::Raw => DataType::Raw(output.data.clone()),
            },
        ),
    }
}

/// Decodes one output of a reply, keeping the name, tag and shape that the
/// server sent.
pub fn convert_output(output: &TritonServerResponse) -> (r: Option<InferOutput>)
    ensures
        match decoded_output(*output) {
            Some(m) => r.is_some() && r.unwrap()@ == m,
            None => r.is_none(),
        },
{
    match decode(output) {
        Some(data) => {
            let shape = output.shape.clone();
            assert(shape@ =~= output.shape@);
            Some(
                InferOutput {
                    name: output.name.clone(),
                    datatype: output.datatype.clone(),
                    shape,
                    data,
                },
            )
        },
        None => None,
    }
}

/// Decodes the outputs of a reply, in the server's order. An output whose
/// data decodes to nothing is left out, so the result may hold fewer
/// outputs than the reply.
pub fn convert_outputs(response: &InferResponse) -> (results: InferResults)
    ensures
        results@ == kept(output_decodings(response.outputs@)),
        results@.len() <= response.outputs@.len(),
{
    let mut out: Vec<InferOutput> = Vec::new();
    let mut i: usize = 0;
    assert(output_models(out@) =~= Seq::empty());
    while i < response.outputs.len()
        invariant
            i <= response.outputs.len(),
            output_models(out@) == kept(output_decodings(response.outputs@.subrange(0, i as int))),
        decreases response.outputs.len() - i,
    {
        let converted = convert_output(&response.outputs[i]);
        proof {
            let before = output_decodings(response.outputs@.subrange(0, i as int));
            let reading = decoded_output(response.outputs@[i as int]);
            assert(output_decodings(response.outputs@.subrange(0, i as int + 1)) =~= before.push(
                reading,
            ));
            lemma_kept_push(before, reading);
        }
        if let Some(o) = converted {
            let ghost earlier = output_models(out@);
            out.push(o);
            assert(output_models(out@) =~= earlier.push(o@));
        }
        i = i + 1;
    }
    assert(response.outputs@.subrange(0, i as int) =~= response.outputs@);
    proof {
        lemma_kept_len(output_decodings(response.outputs@));
    }
    InferResults { outputs: out }
}

/// Each element as a 64-bit unsigned integer.
pub open spec fn widened_u8(s: Seq<u8>) -> Seq<u64> {
    Seq::new(s.len(), |i: int| s[i] as u64)
}

/// Each element as a 64-bit unsigned integer.
fn widen_u8(v: &Vec<u8>) -> (out: Vec<u64>)
    ensures
        out@ == widened_u8(v@),
{
    let mut out: Vec<u64> = Vec::new();
    let mut i: usize = 0;
    while i < v.len()
        invariant
            i <= v.len(),
            out@ == widened_u8(v@.subrange(0, i as int)),
        decreases v.len() - i,
    {
        out.push(v[i] as u64);
        assert(out@ =~= widened_u8(v@.subrange(0, i as int + 1)));
        i = i + 1;
    }
    assert(v@.subrange(0, i as int) =~= v@);
    out
}

/// Each element as a 64-bit unsigned integer.
pub open spec fn widened_u16(s: Seq<u16>) -> Seq<u64> {
    Seq::new(s.len(), |i: int| s[i] as u64)
}

/// Each element as a 64-bit unsigned integer.
fn widen_u16(v: &Vec<u16>) -> (out: Vec<u64>)
    ensures
        out@ == widened_u16(v@),
{
    let mut out: Vec<u64> = Vec::new();
    let mut i: usize = 0;
    while i < v.len()
        invariant
            i <= v.len(),
            out@ == widened_u16(v@.subrange(0, i as int)),
        decreases v.len() - i,
    {
        out.push(v[i] as u64);
        assert(out@ =~= widened_u16(v@.subrange(0, i as int + 1)));
        i = i + 1;
    }
    assert(v@.subrange(0, i as int) =~= v@);
    out
}

/// Each element as a 64-bit signed integer.
pub open spec fn widened_i8(s: Seq<i8>) -> Seq<i64> {
    Seq::new(s.len(), |i: int| s[i] as i64)
}

/// Each element as a 64-bit signed integer.
fn widen_i8(v: &Vec<i8>) -> (out: Vec<i64>)
    ensures
        out@ == widened_i8(v@),
{
    let mut out: Vec<i64> = Vec::new();
    let mut i: usize = 0;
    while i < v.len()
        invariant
            i <= v.len(),
            out@ == widened_i8(v@.subrange(0, i as int)),
        decreases v.len() - i,
    {
        out.push(v[i] as i64);
        assert(out@ =~= widened_i8(v@.subrange(0, i as int + 1)));
        i = i + 1;
    }
    assert(v@.subrange(0, i as int) =~= v@);
    out
}

/// Each element as a 64-bit signed integer.
pub open spec fn widened_i16(s: Seq<i16>) -> Seq<i64> {
    Seq::new(s.len(), |i: int| s[i] as i64)
}

/// Each element as a 64-bit signed integer.
fn widen_i16(v: &Vec<i16>) -> (out: Vec<i64>)
    ensures
        out@ == widened_i16(v@),
{
    let mut out: Vec<i64> = Vec::new();
    let mut i: usize = 0;
    while i < v.len()
        invariant
            i <= v.len(),
            out@ == widened_i16(v@.subrange(0, i as int)),
        decreases v.len() - i,
    {
        out.push(v[i] as i64);
        assert(out@ =~= widened_i16(v@.subrange(0, i as int + 1)));
        i = i + 1;
    }
    assert(v@.subrange(0, i as int) =~= v@);
    out
}

/// Each element as a 64-bit signed integer.
pub open spec fn widened_i32(s: Seq<i32>) -> Seq<i64> {
    Seq::new(s.len(), |i: int| s[i] as i64)
}

/// Each element as a 64-bit signed integer.
fn widen_i32(v: &Vec<i32>) -> (out: Vec<i64>)
    ensures
        out@ == widened_i32(v@),
{
    let mut out: Vec<i64> = Vec::new();
    let mut i: usize = 0;
    while i < v.len()
        invariant
            i <= v.len(),
            out@ == widened_i32(v@.subrange(0, i as int)),
        decreases v.len() - i,
    {
        out.push(v[i] as i64);
        assert(out@ =~= widened_i32(v@.subrange(0, i as int + 1)));
        i = i + 1;
    }
    assert(v@.subrange(0, i as int) =~= v@);
    out
}

/// `j` is an array of exactly these unsigned integers, in order.
pub open spec fn carries_unsigned(j: serde_json::Value, s: Seq<u64>) -> bool {
    &&& json_items(j).is_some()
    &&& json_items(j).unwrap().len() == s.len()
    &&& forall|i: int|
        0 <= i < s.len() ==> json_u64(#[trigger] json_items(j).unwrap()[i]) == Some(s[i])
}

/// `j` is an array of exactly these signed integers, in order.
pub open spec fn carries_signed(j: serde_json::Value, s: Seq<i64>) -> bool {
    &&& json_items(j).is_some()
    &&& json_items(j).unwrap().len() == s.len()
    &&& forall|i: int|
        0 <= i < s.len() ==> json_i64(#[trigger] json_items(j).unwrap()[i]) == Some(s[i])
}

/// `j` is an array of exactly these booleans, in order.
pub open spec fn carries_bools(j: serde_json::Value, s: Seq<bool>) -> bool {
    &&& json_items(j).is_some()
    &&& json_items(j).unwrap().len() == s.len()
    &&& forall|i: int|
        0 <= i < s.len() ==> json_bool(#[trigger] json_items(j).unwrap()[i]) == Some(s[i])
}

/// `j` is an array of exactly these strings, in order.
pub open spec fn carries_texts(j: serde_json::Value, s: Seq<Seq<char>>) -> bool {
    &&& json_items(j).is_some()
    &&& json_items(j).unwrap().len() == s.len()
    &&& forall|i: int|
        0 <= i < s.len() ==> json_text(#[trigger] json_items(j).unwrap()[i]) == Some(s[i])
}

/// `w` is the wire data of the elements `e`: for integers, booleans and
/// strings a JSON array of the elements in order, bfloat16 by its raw
/// storage; for floating-point elements their bit patterns; for a raw
/// value the value itself.
pub open spec fn encodes(e: Elements, w: WireData) -> bool {
    match e {
        Elements::Bool(s) => w matches WireData::Json(j) && carries_bools(j, s),
        Elements::U8(s) => w matches WireData::Json(j) && carries_unsigned(j, widened_u8(s)),
        Elements::U16(s) => w matches WireData::Json(j) && carries_unsigned(j, widened_u16(s)),
        Elements::U64(s) => w matches WireData::Json(j) && carries_unsigned(j, s),
        Elements::I8(s) => w matches WireData::Json(j) && carries_signed(j, widened_i8(s)),
        Elements::I16(s) => w matches WireData::Json(j) && carries_signed(j, widened_i16(s)),
        Elements::I32(s) => w matches WireData::Json(j) && carries_signed(j, widened_i32(s)),
        Elements::I64(s) => w matches WireData::Json(j) && carries_signed(j, s),
        Elements::F32(s) => w matches WireData::Singles(bits) && bits@ == s,
        Elements::F64(s) => w matches WireData::Doubles(bits) && bits@ == s,
        Elements::String(s) => w matches WireData::Json(j) && carries_texts(j, s),
        Elements::Bf16(s) => w matches WireData::Json(j) && carries_unsigned(j, widened_u16(s)),
        Elements::Raw(v) => w matches WireData::Json(j) && j == v,
    }
}

/// The wire data of a tensor's elements.
pub fn encode(data: &DataType) -> (w: WireData)
    ensures
        encodes(data@, w),
{
    match data {
        DataType::Bool(v) => WireData::Json(json_of_bools(v)),
        DataType::U8(v) => WireData::Json(json_of_unsigned(&widen_u8(v))),
        DataType::U16(v) => WireData::Json(json_of_unsigned(&widen_u16(v))),
        DataType::U64(v) => WireData::Json(json_of_unsigned(v)),
        DataType::I8(v) => WireData::Json(json_of_signed(&widen_i8(v))),
        DataType::I16(v) => WireData::Json(json_of_signed(&widen_i16(v))),
        DataType::I32(v) => WireData::Json(json_of_signed(&widen_i32(v))),
        DataType::I64(v) => WireData::Json(json_of_signed(v)),
        DataType::F32(v) => {
            let bits = v.clone();
            assert(bits@ =~= v@);
            WireData::Singles(bits)
        },
        DataType::F64(v) => {
            let bits = v.clone();
            assert(bits@ =~= v@);
            WireData::Doubles(bits)
        },
        DataType::String(v) => {
            let j = json_of_texts(v);
            assert(carries_texts(j, v.deep_view()));
            WireData::Json(j)
        },
        DataType::Bf16(v) => WireData::Json(json_of_unsigned(&widen_u16(v))),
        DataType::Raw(v) => WireData::Json(v.clone()),
    }
}

/// `payload` is the wire form of `input`: its name, a copy of its shape,
/// the tag of its element kind, and the wire data of its elements.
pub open spec fn is_payload_of(
    payload: InferInputPayload<'_, WireData>,
    input: InferInput,
) -> bool {
    &&& payload.name@ == input.input_name@
    &&& payload.shape@ == input.input_shape@
    &&& payload.datatype@ == type_tag(input.input_data@)
    &&& encodes(input.input_data@, payload.data)
}

/// The wire form of one input. Every tensor has one.
pub fn convert_input<'a>(infer_input: &'a InferInput) -> (payload: InferInputPayload<'a, WireData>)
    ensures
        is_payload_of(payload, *infer_input),
{
    let shape = infer_input.input_shape.clone();
    assert(shape@ =~= infer_input.input_shape@);
    InferInputPayload {
        name: infer_input.input_name.as_str(),
        shape,
        datatype: infer_input.input_data.get_type_str(),
        data: encode(&infer_input.input_data),
    }
}

/// The body of the request for the given inputs: the wire form of each, in
/// the caller's order.
pub fn convert_inputs<'a>(inputs: &'a Vec<InferInput>) -> (request: InferRequest<'a, WireData>)
    ensures
        request.inputs@.len() == inputs@.len(),
        forall|i: int|
            0 <= i < inputs@.len() ==> is_payload_of(#[trigger] request.inputs@[i], inputs@[i]),
{
    let mut payloads: Vec<InferInputPayload<'a, WireData>> = Vec::new();
    let mut i: usize = 0;
    while i < inputs.len()
        invariant
            i <= inputs.len(),
            payloads@.len() == i,
            forall|j: int| 0 <= j < i ==> is_payload_of(#[trigger] payloads@[j], inputs@[j]),
        decreases inputs.len() - i,
    {
        payloads.push(convert_input(&inputs[i]));
        i = i + 1;
    }
    InferRequest { inputs: payloads }
}

} // verus!
