//! What holds of the codec, proved from the contracts of its functions.
use crate::client::codec::{
    bool_readings, decoded, decoded_output, double_readings, encodes, is_payload_of, kind_of,
    signed_readings, single_readings, tag_kind, text_readings, unsigned_readings, widened_i16,
    widened_i32, widened_i8, widened_u16, widened_u8, ElementKind,
};
use crate::client::io::{
    Elements, InferInput, InferInputPayload, OutputModel, RealReading, TritonServerResponse,
    WireData, type_tag,
};
use crate::client::json::json_items;
use crate::client::narrow::{
    lemma_kept_all_present, narrowings_i16, narrowings_i32, narrowings_i8, narrowings_u16,
    narrowings_u8,
};
use vstd::prelude::*;

verus! {

/// The tag of every element kind stands for that kind: a tensor of one of
/// the twelve kinds of the protocol is encoded under the protocol's tag for
/// its kind, and only a raw value under a tag that is none of them.
pub proof fn lemma_tag_matches_kind(e: Elements)
    ensures
        tag_kind(type_tag(e)) == kind_of(e),
        !(e is Raw) ==> tag_kind(type_tag(e)) != ElementKind::Raw,
{
    reveal_strlit("BOOL");
    reveal_strlit("UINT8");
    reveal_strlit("UINT16");
    reveal_strlit("UINT64");
    reveal_strlit("INT8");
    reveal_strlit("INT16");
    reveal_strlit("INT32");
    reveal_strlit("INT64");
    reveal_strlit("FP32");
    reveal_strlit("FP64");
    reveal_strlit("STRING");
    reveal_strlit("BF16");
    reveal_strlit("none");
    let t = type_tag(e);
    if t.len() == 4 {
        assert(t[0] == 'B' || t[0] == 'I' || t[0] == 'F' || t[0] == 'n');
        assert(t[3] == 'L' || t[3] == '8' || t[3] == '2' || t[3] == '4' || t[3] == '6'
            || t[3] == 'e');
    } else if t.len() == 5 {
        assert(t[0] == 'U' || t[0] == 'I');
        assert(t[3] == 'T' || t[3] == '1' || t[3] == '3' || t[3] == '6');
    } else {
        assert(t.len() == 6);
        assert(t[0] == 'U' || t[0] == 'S');
        assert(t[4] == '1' || t[4] == '6' || t[4] == 'N');
    }
}

/// Under a tag that is none of the protocol's, decoding always yields the
/// wire value itself, unchanged.
pub proof fn lemma_unknown_tag_keeps_value(
    tag: Seq<char>,
    data: serde_json::Value,
    reals: Seq<Option<RealReading>>,
)
    requires
        tag_kind(tag) == ElementKind::Raw,
    ensures
        decoded(tag, data, reals) == Some(Elements::Raw(data)),
{
}

/// Under a tag of the protocol, data that is no array decodes to nothing;
/// an array decodes to a tensor of the tag's kind.
pub proof fn lemma_known_tag_asks_for_array(
    tag: Seq<char>,
    data: serde_json::Value,
    reals: Seq<Option<RealReading>>,
)
    requires
        tag_kind(tag) != ElementKind::Raw,
    ensures
        json_items(data).is_none() ==> decoded(tag, data, reals).is_none(),
        json_items(data).is_some() ==> decoded(tag, data, reals).is_some() && kind_of(
            decoded(tag, data, reals).unwrap(),
        ) == tag_kind(tag),
{
}

/// Under a tag that is not one of the two floating-point tags, what a
/// payload decodes to does not depend on the floating-point readings that
/// come with it.
pub proof fn lemma_readings_matter_to_reals_only(
    tag: Seq<char>,
    data: serde_json::Value,
    reals: Seq<Option<RealReading>>,
    others: Seq<Option<RealReading>>,
)
    requires
        tag_kind(tag) != ElementKind::F32,
        tag_kind(tag) != ElementKind::F64,
    ensures
        decoded(tag, data, reals) == decoded(tag, data, others),
{
}

/// Round trip for integers, booleans, strings, bfloat16 storage and raw
/// values: the wire data of such a tensor, decoded under the tensor's own
/// tag, gives the same elements back, whatever floating-point readings come
/// with it. Every element of these kinds is within the range of its kind,
/// so nothing is left out.
pub proof fn lemma_round_trip(e: Elements, j: serde_json::Value, reals: Seq<Option<RealReading>>)
    requires
        encodes(e, WireData::Json(j)),
    ensures
        decoded(type_tag(e), j, reals) == Some(e),
{
    lemma_tag_matches_kind(e);
    let items = json_items(j).unwrap();
    match e {
        Elements::Bool(s) => {
            lemma_kept_all_present(bool_readings(items), s);
        },
        Elements::U8(s) => {
            lemma_kept_all_present(unsigned_readings(items), widened_u8(s));
            lemma_kept_all_present(narrowings_u8(widened_u8(s)), s);
        },
        Elements::U16(s) => {
            lemma_kept_all_present(unsigned_readings(items), widened_u16(s));
            lemma_kept_all_present(narrowings_u16(widened_u16(s)), s);
        },
        Elements::U64(s) => {
            lemma_kept_all_present(unsigned_readings(items), s);
        },
        Elements::I8(s) => {
            lemma_kept_all_present(signed_readings(items), widened_i8(s));
            lemma_kept_all_present(narrowings_i8(widened_i8(s)), s);
        },
        Elements::I16(s) => {
            lemma_kept_all_present(signed_readings(items), widened_i16(s));
            lemma_kept_all_present(narrowings_i16(widened_i16(s)), s);
        },
        Elements::I32(s) => {
            lemma_kept_all_present(signed_readings(items), widened_i32(s));
            lemma_kept_all_present(narrowings_i32(widened_i32(s)), s);
        },
        Elements::I64(s) => {
            lemma_kept_all_present(signed_readings(items), s);
        },
        Elements::String(s) => {
            lemma_kept_all_present(text_readings(items), s);
        },
        Elements::Bf16(s) => {
            lemma_kept_all_present(unsigned_readings(items), widened_u16(s));
            lemma_kept_all_present(narrowings_u16(widened_u16(s)), s);
        },
        _ => {},
    }
}

/// Every reading is a number whose single-precision bit pattern is the one
/// at its place in `bits`.
pub open spec fn reads_back_single(reals: Seq<Option<RealReading>>, bits: Seq<u32>) -> bool {
    &&& reals.len() == bits.len()
    &&& forall|i: int|
        0 <= i < bits.len() ==> (#[trigger] reals[i] matches Some(x) && x.single == bits[i])
}

/// Every reading is a number whose double-precision bit pattern is the one
/// at its place in `bits`.
pub open spec fn reads_back_double(reals: Seq<Option<RealReading>>, bits: Seq<u64>) -> bool {
    &&& reals.len() == bits.len()
    &&& forall|i: int|
        0 <= i < bits.len() ==> (#[trigger] reals[i] matches Some(x) && x.double == bits[i])
}

/// Round trip for floating-point tensors, as far as it lies with the codec:
/// where the wire data is an array and each of its elements reads back as
/// the bit pattern that was sent, decoding under the tensor's own tag gives
/// the same elements back.
pub proof fn lemma_round_trip_reals(
    e: Elements,
    data: serde_json::Value,
    reals: Seq<Option<RealReading>>,
)
    requires
        json_items(data).is_some(),
        match e {
            Elements::F32(s) => reads_back_single(reals, s),
            Elements::F64(s) => reads_back_double(reals, s),
            _ => false,
        },
    ensures
        decoded(type_tag(e), data, reals) == Some(e),
{
    lemma_tag_matches_kind(e);
    match e {
        Elements::F32(s) => {
            lemma_kept_all_present(single_readings(reals), s);
        },
        Elements::F64(s) => {
            lemma_kept_all_present(double_readings(reals), s);
        },
        _ => {},
    }
}

/// Round trip of a whole input: an output that carries the name, shape,
/// tag and data of an input's wire form decodes to the input's name, shape
/// and elements.
pub proof fn lemma_round_trip_payload(
    input: InferInput,
    payload: InferInputPayload<'_, WireData>,
    output: TritonServerResponse,
)
    requires
        is_payload_of(payload, input),
        output.name@ == payload.name@,
        output.shape@ == payload.shape@,
        output.datatype@ == payload.datatype@,
        match payload.data {
            WireData::Json(j) => output.data == j,
            WireData::Singles(bits) => json_items(output.data).is_some() && reads_back_single(
                output.reals@,
                bits@,
            ),
            WireData::Doubles(bits) => json_items(output.data).is_some() && reads_back_double(
                output.reals@,
                bits@,
            ),
        },
    ensures
        decoded_output(output) == Some(
            OutputModel {
                name: input.input_name@,
                datatype: type_tag(input.input_data@),
                shape: input.input_shape@,
                data: input.input_data@,
            },
        ),
{
    let e = input.input_data@;
    match payload.data {
        WireData::Json(j) => {
            lemma_round_trip(e, j, output.reals@);
        },
        _ => {
            lemma_round_trip_reals(e, output.data, output.reals@);
        },
    }
}

} // verus!
