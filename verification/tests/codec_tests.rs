use serde_json::Value;
use truston::client::codec::{
    classify, convert_input, convert_inputs, convert_output, convert_output_double,
    convert_output_single, convert_outputs, decode, encode, reads_reals, ElementKind,
};
use truston::client::io::{
    DataType, InferInput, InferResponse, RealReading, TritonServerResponse, WireData,
};
use truston::client::narrow::{
    keep_i16, keep_i32, keep_i8, keep_u16, keep_u8, narrow_i16, narrow_i32, narrow_i8,
    narrow_u16, narrow_u8,
};

fn parse(text: &str) -> Value {
    serde_json::from_str(text).unwrap()
}

/// Reads the elements of an array as numbers, the way a transport does.
fn readings(data: &Value) -> Vec<Option<RealReading>> {
    match data.as_array() {
        Some(items) => items
            .iter()
            .map(|v| {
                let x = v.as_f64()?;
                Some(RealReading { single: (x as f32).to_bits(), double: x.to_bits() })
            })
            .collect(),
        None => vec![],
    }
}

fn output(name: &str, shape: Vec<usize>, datatype: &str, data: &str) -> TritonServerResponse {
    let data = parse(data);
    let reals = readings(&data);
    TritonServerResponse {
        name: name.to_string(),
        shape,
        datatype: datatype.to_string(),
        data,
        reals,
    }
}

/// Writes wire data as the JSON value that goes on the wire.
fn on_the_wire(data: &WireData) -> Value {
    match data {
        WireData::Json(v) => v.clone(),
        WireData::Singles(bits) => {
            serde_json::to_value(bits.iter().map(|b| f32::from_bits(*b)).collect::<Vec<f32>>())
                .unwrap()
        }
        WireData::Doubles(bits) => {
            serde_json::to_value(bits.iter().map(|b| f64::from_bits(*b)).collect::<Vec<f64>>())
                .unwrap()
        }
    }
}

fn round_trip(data: DataType, shape: Vec<usize>) -> (Vec<usize>, Option<DataType>) {
    let input = InferInput::new("t".to_string(), shape, data);
    let payload = convert_input(&input);
    let wire = on_the_wire(&payload.data);
    let reals = readings(&wire);
    let reply = TritonServerResponse {
        name: payload.name.to_string(),
        shape: payload.shape.clone(),
        datatype: payload.datatype.to_string(),
        data: wire,
        reals,
    };
    let out = convert_output(&reply);
    match out {
        Some(o) => {
            assert_eq!(o.name, "t");
            assert_eq!(o.datatype, input.input_data.get_type_str());
            (o.shape, Some(o.data))
        }
        None => (reply.shape, None),
    }
}

#[test]
fn classify_knows_the_twelve_tags() {
    assert_eq!(classify("BOOL"), ElementKind::Bool);
    assert_eq!(classify("UINT8"), ElementKind::U8);
    assert_eq!(classify("UINT16"), ElementKind::U16);
    assert_eq!(classify("UINT64"), ElementKind::U64);
    assert_eq!(classify("INT8"), ElementKind::I8);
    assert_eq!(classify("INT16"), ElementKind::I16);
    assert_eq!(classify("INT32"), ElementKind::I32);
    assert_eq!(classify("INT64"), ElementKind::I64);
    assert_eq!(classify("FP32"), ElementKind::F32);
    assert_eq!(classify("FP64"), ElementKind::F64);
    assert_eq!(classify("STRING"), ElementKind::String);
    assert_eq!(classify("BF16"), ElementKind::Bf16);
}

#[test]
fn classify_is_exact_and_case_sensitive() {
    assert_eq!(classify("fp32"), ElementKind::Raw);
    assert_eq!(classify("Fp32"), ElementKind::Raw);
    assert_eq!(classify("FP32 "), ElementKind::Raw);
    assert_eq!(classify("UINT32"), ElementKind::Raw);
    assert_eq!(classify("FP16"), ElementKind::Raw);
    assert_eq!(classify("none"), ElementKind::Raw);
    assert_eq!(classify(""), ElementKind::Raw);
}

#[test]
fn encode_uses_the_tag_of_the_kind() {
    let kinds = vec![
        (DataType::Bool(vec![true]), "BOOL"),
        (DataType::U8(vec![1]), "UINT8"),
        (DataType::U16(vec![1]), "UINT16"),
        (DataType::U64(vec![1]), "UINT64"),
        (DataType::I8(vec![1]), "INT8"),
        (DataType::I16(vec![1]), "INT16"),
        (DataType::I32(vec![1]), "INT32"),
        (DataType::I64(vec![1]), "INT64"),
        (DataType::F32(vec![1.0f32.to_bits()]), "FP32"),
        (DataType::F64(vec![1.0f64.to_bits()]), "FP64"),
        (DataType::String(vec!["a".to_string()]), "STRING"),
        (DataType::Bf16(vec![1]), "BF16"),
    ];
    for (data, tag) in kinds {
        let input = InferInput::new("x".to_string(), vec![1], data);
        let payload = convert_input(&input);
        assert_eq!(payload.datatype, tag);
        assert_ne!(classify(payload.datatype), ElementKind::Raw);
    }
    let raw = InferInput::new("x".to_string(), vec![], DataType::Raw(Value::Null));
    assert_eq!(convert_input(&raw).datatype, "none");
}

#[test]
fn encode_writes_the_elements_in_order() {
    assert_eq!(on_the_wire(&encode(&DataType::U8(vec![0, 7, 255]))), parse("[0,7,255]"));
    assert_eq!(on_the_wire(&encode(&DataType::U16(vec![65535, 1]))), parse("[65535,1]"));
    assert_eq!(
        on_the_wire(&encode(&DataType::U64(vec![u64::MAX, 0]))),
        parse("[18446744073709551615,0]")
    );
    assert_eq!(on_the_wire(&encode(&DataType::I8(vec![-128, 127]))), parse("[-128,127]"));
    assert_eq!(on_the_wire(&encode(&DataType::I16(vec![-32768, 5]))), parse("[-32768,5]"));
    assert_eq!(on_the_wire(&encode(&DataType::I32(vec![-7, i32::MAX]))), parse("[-7,2147483647]"));
    assert_eq!(
        on_the_wire(&encode(&DataType::I64(vec![i64::MIN, 3]))),
        parse("[-9223372036854775808,3]")
    );
    assert_eq!(on_the_wire(&encode(&DataType::Bool(vec![true, false]))), parse("[true,false]"));
    assert_eq!(
        on_the_wire(&encode(&DataType::String(vec!["a".to_string(), "".to_string()]))),
        parse("[\"a\",\"\"]")
    );
    assert_eq!(on_the_wire(&encode(&DataType::Bf16(vec![16256, 0]))), parse("[16256,0]"));
    assert_eq!(
        on_the_wire(&encode(&DataType::F32(vec![1.5f32.to_bits(), (-2.0f32).to_bits()]))),
        parse("[1.5,-2.0]")
    );
    assert_eq!(on_the_wire(&encode(&DataType::F64(vec![0.25f64.to_bits()]))), parse("[0.25]"));
    let raw = parse("{\"k\":[1,\"two\"]}");
    assert_eq!(on_the_wire(&encode(&DataType::Raw(raw.clone()))), raw);
}

#[test]
fn encode_keeps_floats_as_bit_patterns() {
    match encode(&DataType::F32(vec![1.5f32.to_bits()])) {
        WireData::Singles(bits) => assert_eq!(bits, vec![1.5f32.to_bits()]),
        _ => panic!("expected 32-bit patterns"),
    }
    match encode(&DataType::F64(vec![1.5f64.to_bits()])) {
        WireData::Doubles(bits) => assert_eq!(bits, vec![1.5f64.to_bits()]),
        _ => panic!("expected 64-bit patterns"),
    }
}

#[test]
fn convert_input_copies_name_and_shape() {
    let elements = DataType::I64(vec![1, 2, 3, 4, 5, 6]);
    let input = InferInput::new("ids".to_string(), vec![2, 3], elements);
    let payload = convert_input(&input);
    assert_eq!(payload.name, "ids");
    assert_eq!(payload.shape, vec![2, 3]);
    assert_eq!(payload.datatype, "INT64");
    assert_eq!(on_the_wire(&payload.data), parse("[1,2,3,4,5,6]"));
}

#[test]
fn convert_inputs_keeps_the_order() {
    let inputs = vec![
        InferInput::new("b".to_string(), vec![1], DataType::U8(vec![9])),
        InferInput::new("a".to_string(), vec![2], DataType::Bool(vec![true, false])),
        InferInput::new("c".to_string(), vec![0], DataType::String(vec![])),
    ];
    let request = convert_inputs(&inputs);
    assert_eq!(request.inputs.len(), 3);
    assert_eq!(request.inputs[0].name, "b");
    assert_eq!(request.inputs[1].name, "a");
    assert_eq!(request.inputs[2].name, "c");
    assert_eq!(request.inputs[1].datatype, "BOOL");
    assert_eq!(on_the_wire(&request.inputs[2].data), parse("[]"));
    assert_eq!(convert_inputs(&vec![]).inputs.len(), 0);
}

#[test]
fn decode_drops_the_malformed_element() {
    let reply = output("out", vec![3], "FP32", "[1.5, \"bad\", 3.5]");
    let data = decode(&reply).unwrap();
    let bits = data.as_f32_vec().unwrap();
    assert_eq!(bits.len(), 2);
    let values: Vec<f32> = bits.into_iter().map(f32::from_bits).collect();
    assert_eq!(values, vec![1.5, 3.5]);
}

#[test]
fn decode_unknown_tag_keeps_the_value() {
    let reply = output("out", vec![2], "UINT32", "[1, 2]");
    match decode(&reply) {
        Some(DataType::Raw(v)) => assert_eq!(v, parse("[1, 2]")),
        _ => panic!("expected a raw value"),
    }
    let reply = output("out", vec![], "CUSTOM", "{\"a\": null}");
    match decode(&reply) {
        Some(DataType::Raw(v)) => assert_eq!(v, parse("{\"a\": null}")),
        _ => panic!("expected a raw value"),
    }
    let reply = output("out", vec![], "int32", "7");
    match decode(&reply) {
        Some(DataType::Raw(v)) => assert_eq!(v, parse("7")),
        _ => panic!("expected a raw value"),
    }
}

#[test]
fn decode_known_tag_asks_for_an_array() {
    for tag in [
        "BOOL", "UINT8", "UINT16", "UINT64", "INT8", "INT16", "INT32", "INT64", "FP32", "FP64",
        "STRING", "BF16",
    ] {
        assert!(decode(&output("out", vec![1], tag, "5")).is_none());
        assert!(decode(&output("out", vec![1], tag, "\"text\"")).is_none());
        assert!(decode(&output("out", vec![1], tag, "{\"data\": [1]}")).is_none());
        assert!(decode(&output("out", vec![1], tag, "null")).is_none());
        assert!(decode(&output("out", vec![0], tag, "[]")).is_some());
    }
}

#[test]
fn decode_narrows_unsigned() {
    let data = decode(&output("o", vec![5], "UINT8", "[0, 255, 256, -1, 7]")).unwrap();
    assert_eq!(data.as_u8_vec(), Some(vec![0, 255, 7]));
    let data = decode(&output("o", vec![4], "UINT16", "[65535, 65536, 1.5, 2]")).unwrap();
    assert_eq!(data.as_u16_vec(), Some(vec![65535, 2]));
    let data =
        decode(&output("o", vec![3], "UINT64", "[18446744073709551615, -3, true]")).unwrap();
    assert_eq!(data.as_u64_vec(), Some(vec![u64::MAX]));
    let data = decode(&output("o", vec![3], "BF16", "[16256, 70000, \"x\"]")).unwrap();
    assert_eq!(data.as_bf16_vec(), Some(vec![16256]));
}

#[test]
fn decode_narrows_signed() {
    let data = decode(&output("o", vec![5], "INT8", "[-128, 127, 128, -129, 1.0]")).unwrap();
    assert_eq!(data.as_i8_vec(), Some(vec![-128, 127]));
    let data = decode(&output("o", vec![4], "INT16", "[-32768, 32767, 32768, null]")).unwrap();
    assert_eq!(data.as_i16_vec(), Some(vec![-32768, 32767]));
    let data =
        decode(&output("o", vec![4], "INT32", "[-2147483648, 2147483647, 2147483648, []]"))
            .unwrap();
    assert_eq!(data.as_i32_vec(), Some(vec![i32::MIN, i32::MAX]));
    let data = decode(&output(
        "o",
        vec![3],
        "INT64",
        "[-9223372036854775808, 9223372036854775807, 9223372036854775808]",
    ))
    .unwrap();
    assert_eq!(data.as_i64_vec(), Some(vec![i64::MIN, i64::MAX]));
}

#[test]
fn decode_bools_and_strings() {
    let data = decode(&output("o", vec![4], "BOOL", "[true, 1, false, \"true\"]")).unwrap();
    assert_eq!(data.as_bool_vec(), Some(vec![true, false]));
    let data = decode(&output("o", vec![4], "STRING", "[\"a\", 2, \"\", null]")).unwrap();
    assert_eq!(data.as_str_vec(), Some(vec!["a".to_string(), "".to_string()]));
}

#[test]
fn decode_doubles_reads_integers_as_numbers() {
    let data = decode(&output("o", vec![3], "FP64", "[2, -0.5, false]")).unwrap();
    let values: Vec<f64> = data.as_f64_vec().unwrap().into_iter().map(f64::from_bits).collect();
    assert_eq!(values, vec![2.0, -0.5]);
}

#[test]
fn convert_output_keeps_what_the_server_sent() {
    let out = convert_output(&output("logits", vec![1, 2], "INT32", "[4, 5]")).unwrap();
    assert_eq!(out.name, "logits");
    assert_eq!(out.datatype, "INT32");
    assert_eq!(out.shape, vec![1, 2]);
    assert_eq!(out.data.as_i32_vec(), Some(vec![4, 5]));
    assert!(convert_output(&output("logits", vec![1], "INT32", "4")).is_none());
}

#[test]
fn convert_outputs_omits_what_does_not_decode() {
    let response = InferResponse {
        outputs: vec![
            output("a", vec![2], "UINT8", "[1, 2]"),
            output("b", vec![1], "FP32", "\"not an array\""),
            output("c", vec![1], "WEIRD", "\"kept\""),
            output("d", vec![2], "STRING", "[\"x\", \"y\"]"),
        ],
    };
    let results = convert_outputs(&response);
    assert_eq!(results.outputs.len(), 3);
    assert_eq!(results.outputs[0].name, "a");
    assert_eq!(results.outputs[1].name, "c");
    assert_eq!(results.outputs[2].name, "d");
    assert_eq!(results.outputs[0].data.as_u8_vec(), Some(vec![1, 2]));
    assert_eq!(results.outputs[1].datatype, "WEIRD");
    assert_eq!(results.outputs[2].data.as_str_vec(), Some(vec!["x".to_string(), "y".to_string()]));
    assert_eq!(convert_outputs(&InferResponse { outputs: vec![] }).outputs.len(), 0);
}

#[test]
fn round_trip_of_every_kind() {
    let (shape, data) = round_trip(DataType::Bool(vec![true, false, true]), vec![3]);
    assert_eq!(shape, vec![3]);
    assert_eq!(data.unwrap().as_bool_vec(), Some(vec![true, false, true]));
    let (_, data) = round_trip(DataType::U8(vec![0, 255]), vec![2]);
    assert_eq!(data.unwrap().as_u8_vec(), Some(vec![0, 255]));
    let (_, data) = round_trip(DataType::U16(vec![0, 65535]), vec![2]);
    assert_eq!(data.unwrap().as_u16_vec(), Some(vec![0, 65535]));
    let (_, data) = round_trip(DataType::U64(vec![0, u64::MAX]), vec![2]);
    assert_eq!(data.unwrap().as_u64_vec(), Some(vec![0, u64::MAX]));
    let (_, data) = round_trip(DataType::I8(vec![i8::MIN, i8::MAX]), vec![2]);
    assert_eq!(data.unwrap().as_i8_vec(), Some(vec![i8::MIN, i8::MAX]));
    let (_, data) = round_trip(DataType::I16(vec![i16::MIN, i16::MAX]), vec![2]);
    assert_eq!(data.unwrap().as_i16_vec(), Some(vec![i16::MIN, i16::MAX]));
    let (_, data) = round_trip(DataType::I32(vec![i32::MIN, i32::MAX]), vec![1, 2]);
    assert_eq!(data.unwrap().as_i32_vec(), Some(vec![i32::MIN, i32::MAX]));
    let (shape, data) = round_trip(DataType::I64(vec![i64::MIN, -1, 0, i64::MAX]), vec![2, 2]);
    assert_eq!(shape, vec![2, 2]);
    assert_eq!(data.unwrap().as_i64_vec(), Some(vec![i64::MIN, -1, 0, i64::MAX]));
    let f = vec![
        1.5f32.to_bits(),
        (-0.0f32).to_bits(),
        f32::MAX.to_bits(),
        f32::MIN_POSITIVE.to_bits(),
    ];
    let (_, data) = round_trip(DataType::F32(f.clone()), vec![4]);
    assert_eq!(data.unwrap().as_f32_vec(), Some(f));
    let d = vec![0.1f64.to_bits(), f64::MIN.to_bits(), 1e-300f64.to_bits()];
    let (_, data) = round_trip(DataType::F64(d.clone()), vec![3]);
    assert_eq!(data.unwrap().as_f64_vec(), Some(d));
    let s = vec!["hello".to_string(), "".to_string(), "caf\u{e9} \"q\"".to_string()];
    let (_, data) = round_trip(DataType::String(s.clone()), vec![3]);
    assert_eq!(data.unwrap().as_str_vec(), Some(s));
    let (_, data) = round_trip(DataType::Bf16(vec![0, 16256, u16::MAX]), vec![3]);
    assert_eq!(data.unwrap().as_bf16_vec(), Some(vec![0, 16256, u16::MAX]));
}

#[test]
fn round_trip_of_an_empty_tensor() {
    let (shape, data) = round_trip(DataType::F32(vec![]), vec![0]);
    assert_eq!(shape, vec![0]);
    assert_eq!(data.unwrap().as_f32_vec(), Some(vec![]));
    let (shape, data) = round_trip(DataType::I32(vec![]), vec![2, 0]);
    assert_eq!(shape, vec![2, 0]);
    assert_eq!(data.unwrap().as_i32_vec(), Some(vec![]));
    let (_, data) = round_trip(DataType::String(vec![]), vec![0]);
    assert_eq!(data.unwrap().as_str_vec(), Some(vec![]));
}

#[test]
fn narrow_at_the_bounds() {
    assert_eq!(narrow_u8(255), Some(255));
    assert_eq!(narrow_u8(256), None);
    assert_eq!(narrow_u16(65535), Some(65535));
    assert_eq!(narrow_u16(65536), None);
    assert_eq!(narrow_i8(-128), Some(-128));
    assert_eq!(narrow_i8(-129), None);
    assert_eq!(narrow_i8(127), Some(127));
    assert_eq!(narrow_i8(128), None);
    assert_eq!(narrow_i16(-32768), Some(-32768));
    assert_eq!(narrow_i16(32768), None);
    assert_eq!(narrow_i32(2147483647), Some(2147483647));
    assert_eq!(narrow_i32(2147483648), None);
    assert_eq!(narrow_i32(-2147483649), None);
}

#[test]
fn keep_leaves_out_what_does_not_fit() {
    assert_eq!(keep_u8(&vec![1, 300, 2]), vec![1, 2]);
    assert_eq!(keep_u16(&vec![70000, 3]), vec![3]);
    assert_eq!(keep_i8(&vec![-200, -1, 200]), vec![-1]);
    assert_eq!(keep_i16(&vec![40000, 4, -40000, 5]), vec![4, 5]);
    assert_eq!(keep_i32(&vec![i64::MAX, 6]), vec![6]);
}

#[test]
fn only_the_real_tags_read_reals() {
    assert!(reads_reals("FP32"));
    assert!(reads_reals("FP64"));
    for tag in ["BOOL", "UINT8", "UINT16", "UINT64", "INT8", "INT16", "INT32", "INT64", "STRING"] {
        assert!(!reads_reals(tag));
    }
    assert!(!reads_reals("BF16"));
    assert!(!reads_reals("FP16"));
    assert!(!reads_reals("fp32"));
    assert!(!reads_reals(""));
}

#[test]
fn decode_of_integers_ignores_the_readings() {
    let mut reply = output("o", vec![3], "INT32", "[1, 2.5, 3]");
    let with_readings = decode(&reply).unwrap().as_i32_vec();
    reply.reals = vec![];
    let without = decode(&reply).unwrap().as_i32_vec();
    assert_eq!(with_readings, Some(vec![1, 3]));
    assert_eq!(without, Some(vec![1, 3]));
}

#[test]
fn real_readings_keep_the_numbers() {
    let reals = vec![
        Some(RealReading { single: 1, double: 10 }),
        None,
        Some(RealReading { single: 3, double: 30 }),
    ];
    assert_eq!(convert_output_single(&reals), vec![1, 3]);
    assert_eq!(convert_output_double(&reals), vec![10, 30]);
    assert_eq!(convert_output_single(&vec![None, None]), Vec::<u32>::new());
    assert_eq!(convert_output_double(&vec![]), Vec::<u64>::new());
}
