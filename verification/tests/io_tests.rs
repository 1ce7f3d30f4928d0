use truston::client::io::{fills_shape, DataType, InferInput};

fn singles(values: &[f32]) -> Vec<u32> {
    values.iter().map(|x| x.to_bits()).collect()
}

fn doubles(values: &[f64]) -> Vec<u64> {
    values.iter().map(|x| x.to_bits()).collect()
}

fn as_array<T>(elements: Option<Vec<T>>, shape: &[usize]) -> Option<ndarray::ArrayD<T>> {
    elements.and_then(|v| ndarray::ArrayD::from_shape_vec(shape, v).ok())
}

#[test]
fn io_test_get_type_str() {
    assert_eq!(DataType::Bool(vec![true, false]).get_type_str(), "BOOL");
    assert_eq!(DataType::U8(vec![1, 2, 3]).get_type_str(), "UINT8");
    assert_eq!(DataType::U16(vec![1, 2]).get_type_str(), "UINT16");
    assert_eq!(DataType::U64(vec![1]).get_type_str(), "UINT64");
    assert_eq!(DataType::I8(vec![-1, 2]).get_type_str(), "INT8");
    assert_eq!(DataType::I16(vec![-100]).get_type_str(), "INT16");
    assert_eq!(DataType::I32(vec![42]).get_type_str(), "INT32");
    assert_eq!(DataType::I64(vec![1000]).get_type_str(), "INT64");
    assert_eq!(DataType::F32(singles(&[1.5])).get_type_str(), "FP32");
    assert_eq!(DataType::F64(doubles(&[3.14])).get_type_str(), "FP64");
    assert_eq!(DataType::String(vec!["hello".into()]).get_type_str(), "STRING");
    assert_eq!(DataType::Bf16(vec![0u16, 1u16]).get_type_str(), "BF16");
    let empty_object = serde_json::Value::Object(serde_json::Map::new());
    assert_eq!(DataType::Raw(empty_object).get_type_str(), "none");
}

#[test]
fn test_as_u8_vec() {
    let data = DataType::U8(vec![1, 2, 3, 4]);
    assert_eq!(data.as_u8_vec(), Some(vec![1, 2, 3, 4]));

    let wrong_type = DataType::I32(vec![1, 2, 3]);
    assert_eq!(wrong_type.as_u8_vec(), None);
}

#[test]
fn test_as_i32_vec() {
    let data = DataType::I32(vec![-10, 0, 10]);
    assert_eq!(data.as_i32_vec(), Some(vec![-10, 0, 10]));

    let wrong_type = DataType::F32(singles(&[1.0]));
    assert_eq!(wrong_type.as_i32_vec(), None);
}

#[test]
fn test_as_f32_vec() {
    let data = DataType::F32(singles(&[1.5, 2.5, 3.5]));
    assert_eq!(data.as_f32_vec(), Some(singles(&[1.5, 2.5, 3.5])));
    let back: Vec<f32> = data.as_f32_vec().unwrap().into_iter().map(f32::from_bits).collect();
    assert_eq!(back, vec![1.5, 2.5, 3.5]);
}

#[test]
fn test_as_f64_vec() {
    let data = DataType::F64(doubles(&[3.14159, 2.71828]));
    assert_eq!(data.as_f64_vec(), Some(doubles(&[3.14159, 2.71828])));
    let back: Vec<f64> = data.as_f64_vec().unwrap().into_iter().map(f64::from_bits).collect();
    assert_eq!(back, vec![3.14159, 2.71828]);
}

#[test]
fn test_as_bool_vec() {
    let data = DataType::Bool(vec![true, false, true]);
    assert_eq!(data.as_bool_vec(), Some(vec![true, false, true]));
}

#[test]
fn test_as_str_vec() {
    let data = DataType::String(vec!["hello".into(), "world".into()]);
    assert_eq!(data.as_str_vec(), Some(vec!["hello".to_string(), "world".to_string()]));
}

#[test]
fn test_as_bf16_vec() {
    let data = DataType::Bf16(vec![100, 200, 300]);
    assert_eq!(data.as_bf16_vec(), Some(vec![100, 200, 300]));
}

#[test]
fn test_all_signed_int_vecs() {
    assert_eq!(DataType::I8(vec![-1, 0, 1]).as_i8_vec(), Some(vec![-1, 0, 1]));
    assert_eq!(DataType::I16(vec![-100, 100]).as_i16_vec(), Some(vec![-100, 100]));
    assert_eq!(DataType::I64(vec![i64::MAX]).as_i64_vec(), Some(vec![i64::MAX]));
}

#[test]
fn test_all_unsigned_int_vecs() {
    assert_eq!(DataType::U16(vec![1, 2, 3]).as_u16_vec(), Some(vec![1, 2, 3]));
    assert_eq!(DataType::U64(vec![u64::MAX]).as_u64_vec(), Some(vec![u64::MAX]));
}

#[test]
fn io_test_infer_input_new() {
    let input = InferInput::new(
        "my_input".to_string(),
        vec![1, 3, 224, 224],
        DataType::F32(singles(&[0.1, 0.2, 0.3])),
    );

    assert_eq!(input.input_name, "my_input");
    assert_eq!(input.input_shape, vec![1, 3, 224, 224]);

    match input.input_data {
        DataType::F32(values) => assert_eq!(values, singles(&[0.1, 0.2, 0.3])),
        _ => panic!("Expected F32 variant"),
    }
}

#[test]
fn test_empty_vectors() {
    let data = DataType::F32(vec![]);
    assert_eq!(data.as_f32_vec(), Some(vec![]));

    let arr_result = as_array(data.as_f32_vec(), &[0]);
    assert!(arr_result.is_some());
}

#[test]
fn test_type_mismatch_returns_none() {
    let data = DataType::F32(singles(&[1.0, 2.0]));

    assert!(data.as_i32_vec().is_none());
    assert!(data.as_bool_vec().is_none());
    assert!(data.as_str_vec().is_none());
    assert!(as_array(data.as_i32_vec(), &[2]).is_none());
}

#[test]
fn test_cloning_independence() {
    let source = vec![1, 2, 3];
    let data = DataType::I32(source.clone());
    let cloned = data.as_i32_vec().unwrap();

    assert_eq!(cloned, vec![1, 2, 3]);
    assert_eq!(source, vec![1, 2, 3]);
}

#[test]
fn accessors_copy_every_kind() {
    assert_eq!(DataType::U8(vec![]).as_u8_vec(), Some(vec![]));
    assert_eq!(DataType::I8(vec![i8::MIN, i8::MAX]).as_i8_vec(), Some(vec![i8::MIN, i8::MAX]));
    assert_eq!(DataType::I16(vec![i16::MIN]).as_i16_vec(), Some(vec![i16::MIN]));
    assert_eq!(DataType::Bf16(vec![7]).as_u16_vec(), None);
    assert_eq!(DataType::U16(vec![7]).as_bf16_vec(), None);
    assert_eq!(DataType::F64(vec![7]).as_u64_vec(), None);
    assert_eq!(DataType::U64(vec![7]).as_f64_vec(), None);
    assert_eq!(DataType::Raw(serde_json::Value::Null).as_str_vec(), None);
}

#[test]
fn len_counts_the_elements() {
    assert_eq!(DataType::Bool(vec![true, false]).len(), 2);
    assert_eq!(DataType::U8(vec![]).len(), 0);
    assert_eq!(DataType::I64(vec![1, 2, 3]).len(), 3);
    assert_eq!(DataType::F32(singles(&[1.0, 2.0, 3.0, 4.0])).len(), 4);
    assert_eq!(DataType::String(vec!["a".to_string()]).len(), 1);
    assert_eq!(DataType::Bf16(vec![1, 2, 3, 4, 5]).len(), 5);
    let raw = serde_json::Value::Array(vec![serde_json::Value::Null, serde_json::Value::Null]);
    assert_eq!(DataType::Raw(raw).len(), 0);
}

#[test]
fn fills_shape_compares_the_volume() {
    assert!(fills_shape(&vec![2, 3], 6));
    assert!(!fills_shape(&vec![2, 3], 5));
    assert!(!fills_shape(&vec![2, 2], 3));
    assert!(fills_shape(&vec![1, 3, 224, 224], 150528));
    assert!(fills_shape(&vec![10, 10, 10], 1000));
    assert!(fills_shape(&vec![], 1));
    assert!(!fills_shape(&vec![], 0));
    assert!(!fills_shape(&vec![], 2));
    assert!(fills_shape(&vec![0], 0));
    assert!(!fills_shape(&vec![0], 1));
    assert!(fills_shape(&vec![3, 0, 4], 0));
    assert!(!fills_shape(&vec![3, 4], 0));
}

#[test]
fn fills_shape_with_a_volume_beyond_the_machine() {
    assert!(!fills_shape(&vec![usize::MAX, usize::MAX], 5));
    assert!(!fills_shape(&vec![usize::MAX, 2], usize::MAX));
    assert!(fills_shape(&vec![usize::MAX, 1], usize::MAX));
    assert!(fills_shape(&vec![usize::MAX, usize::MAX, 0], 0));
    assert!(fills_shape(&vec![0, usize::MAX, usize::MAX], 0));
}

#[test]
fn has_matching_shape_checks_an_input() {
    let good = InferInput::new("a".to_string(), vec![2, 2], DataType::I32(vec![1, 2, 3, 4]));
    assert!(good.has_matching_shape());
    let bad = InferInput::new("a".to_string(), vec![2, 2], DataType::I32(vec![1, 2, 3]));
    assert!(!bad.has_matching_shape());
    let unchecked = InferInput::new(
        "my_input".to_string(),
        vec![1, 3, 224, 224],
        DataType::F32(singles(&[0.1, 0.2, 0.3])),
    );
    assert!(!unchecked.has_matching_shape());
    let empty = InferInput::new("e".to_string(), vec![0], DataType::F64(vec![]));
    assert!(empty.has_matching_shape());
}
