use jolt_zkml::RugDetectorZKML;
use jolt_zkml::ZKMLError;
use jolt_zkml::trace::encode_output;
use jolt_zkml::trace::ProgramOutput;

fn model_bytes(scale: u8, weights: &[i32; 60], bias: i64) -> Vec<u8> {
    let mut b = vec![0xA0u8, 1u8, scale];
    for w in weights.iter() {
        b.extend_from_slice(&w.to_le_bytes());
    }
    b.extend_from_slice(&bias.to_le_bytes());
    b
}

fn preprocessed(scale: u8, weights: &[i32; 60], bias: i64) -> RugDetectorZKML {
    let mut zkml = RugDetectorZKML::new(String::from("test.onnx"));
    zkml.preprocess(&model_bytes(scale, weights, bias)).unwrap();
    zkml
}

#[test]
fn test_zkml_structure() {
    // Test that the structure compiles
    let zkml = RugDetectorZKML::new(String::from("test.onnx"));
    assert!(zkml.model_path == String::from("test.onnx"));
}

#[test]
fn test_invalid_feature_count() {
    let zkml = RugDetectorZKML::new(String::from("test.onnx"));
    let features = vec![1, 2, 3]; // Only 3 features
    let result = zkml.prove(features);
    assert!(matches!(result, Err(ZKMLError::InvalidInput(_))));
}

#[test]
fn invalid_feature_count_after_preprocessing() {
    let zkml = preprocessed(0, &[1; 60], 0);
    let result = zkml.prove(vec![1, 2, 3]);
    assert!(matches!(result, Err(ZKMLError::InvalidInput(_))));
}

#[test]
fn prove_before_preprocess_is_rejected() {
    let zkml = RugDetectorZKML::new(String::from("test.onnx"));
    let result = zkml.prove(vec![0; 60]);
    assert!(matches!(result, Err(ZKMLError::NotPreprocessed)));
}

#[test]
fn malformed_model_is_rejected() {
    let mut zkml = RugDetectorZKML::new(String::from("test.onnx"));
    assert!(matches!(zkml.preprocess(&[1, 2, 3]), Err(ZKMLError::ModelLoad(_))));
    let mut bad_magic = model_bytes(0, &[1; 60], 0);
    bad_magic[0] = 0x77;
    assert!(matches!(zkml.preprocess(&bad_magic), Err(ZKMLError::ModelLoad(_))));
    let mut bad_version = model_bytes(0, &[1; 60], 0);
    bad_version[1] = 9;
    assert!(matches!(zkml.preprocess(&bad_version), Err(ZKMLError::ModelLoad(_))));
}

#[test]
fn out_of_range_weight_is_a_preprocessing_error() {
    let mut weights = [0i32; 60];
    weights[13] = 0x200000; // beyond the circuit's weight range
    let mut zkml = RugDetectorZKML::new(String::from("test.onnx"));
    let result = zkml.preprocess(&model_bytes(0, &weights, 0));
    assert!(matches!(result, Err(ZKMLError::Preprocessing(_))));
}

#[test]
fn zero_witness_output_is_the_bias() {
    let zkml = preprocessed(0, &[1; 60], 7);
    let res = zkml.prove(vec![0; 60]).unwrap();
    assert_eq!(res.output.values, vec![7]);
}

#[test]
fn output_is_the_exact_dot_product() {
    let mut weights = [0i32; 60];
    for (i, w) in weights.iter_mut().enumerate() {
        *w = i as i32;
    }
    let zkml = preprocessed(0, &weights, 10);
    let res = zkml.prove(vec![2; 60]).unwrap();
    // 2 * (0 + 1 + ... + 59) + 10
    assert_eq!(res.output.values, vec![2 * 1770 + 10]);
}

#[test]
fn negative_values_are_exact() {
    let mut weights = [0i32; 60];
    weights[0] = -5;
    weights[59] = 3;
    let zkml = preprocessed(2, &weights, -100);
    let mut features = vec![0; 60];
    features[0] = 7;
    features[59] = -2;
    let res = zkml.prove(features).unwrap();
    assert_eq!(res.output.values, vec![-5 * 7 + 3 * -2 - 100]);
}

#[test]
fn end_to_end_proof_verifies() {
    let zkml = preprocessed(0, &[1; 60], 7);
    let res = zkml.prove(vec![0; 60]).unwrap();
    let outb = encode_output(&res.output);
    let valid = RugDetectorZKML::verify(&res.proof, &res.verifying_key, &outb).unwrap();
    assert!(valid);
}

#[test]
fn changed_output_is_rejected() {
    let zkml = preprocessed(0, &[1; 60], 7);
    let res = zkml.prove(vec![0; 60]).unwrap();
    let other = ProgramOutput { values: vec![8] };
    let outb = encode_output(&other);
    let valid = RugDetectorZKML::verify(&res.proof, &res.verifying_key, &outb).unwrap();
    assert!(!valid);
}

#[test]
fn mutated_output_byte_is_rejected() {
    let zkml = preprocessed(0, &[2; 60], 1);
    let res = zkml.prove(vec![1; 60]).unwrap();
    let mut outb = encode_output(&res.output);
    let last = outb.len() - 1;
    outb[last] ^= 0x01;
    let valid = RugDetectorZKML::verify(&res.proof, &res.verifying_key, &outb).unwrap();
    assert!(!valid);
}

#[test]
fn mutated_proof_byte_is_rejected() {
    let zkml = preprocessed(0, &[2; 60], 1);
    let res = zkml.prove(vec![1; 60]).unwrap();
    let outb = encode_output(&res.output);
    // A flipped bit in the binding tag leaves the proof well-formed but invalid.
    let mut tampered = res.proof.clone();
    let last = tampered.len() - 1;
    tampered[last] ^= 0x01;
    let valid = RugDetectorZKML::verify(&tampered, &res.verifying_key, &outb).unwrap();
    assert!(!valid);
    // A flipped magic byte breaks the byte-level structure instead.
    let mut broken = res.proof.clone();
    broken[0] ^= 0xFF;
    let result = RugDetectorZKML::verify(&broken, &res.verifying_key, &outb);
    assert!(matches!(result, Err(ZKMLError::Deserialization(_))));
}

#[test]
fn mutated_verifying_key_byte_is_rejected() {
    let zkml = preprocessed(0, &[2; 60], 1);
    let res = zkml.prove(vec![1; 60]).unwrap();
    let outb = encode_output(&res.output);
    let mut tampered = res.verifying_key.clone();
    let last = tampered.len() - 1;
    tampered[last] ^= 0x01;
    let valid = RugDetectorZKML::verify(&res.proof, &tampered, &outb).unwrap();
    assert!(!valid);
    let mut broken = res.verifying_key.clone();
    broken[0] ^= 0xFF;
    let result = RugDetectorZKML::verify(&res.proof, &broken, &outb);
    assert!(matches!(result, Err(ZKMLError::Deserialization(_))));
}

#[test]
fn garbage_proof_is_a_deserialization_error() {
    let zkml = preprocessed(0, &[1; 60], 7);
    let res = zkml.prove(vec![0; 60]).unwrap();
    let outb = encode_output(&res.output);
    let result = RugDetectorZKML::verify(&[0xDE, 0xAD, 0xBE, 0xEF], &res.verifying_key, &outb);
    assert!(matches!(result, Err(ZKMLError::Deserialization(_))));
    let truncated = &res.proof[..res.proof.len() - 1];
    let result = RugDetectorZKML::verify(truncated, &res.verifying_key, &outb);
    assert!(matches!(result, Err(ZKMLError::Deserialization(_))));
}

#[test]
fn two_proofs_for_the_same_witness_both_verify() {
    let zkml = preprocessed(1, &[3; 60], -4);
    let res1 = zkml.prove(vec![5; 60]).unwrap();
    let res2 = zkml.prove(vec![5; 60]).unwrap();
    let outb1 = encode_output(&res1.output);
    let outb2 = encode_output(&res2.output);
    assert!(RugDetectorZKML::verify(&res1.proof, &res1.verifying_key, &outb1).unwrap());
    assert!(RugDetectorZKML::verify(&res2.proof, &res2.verifying_key, &outb2).unwrap());
}

#[test]
fn preprocessing_runs_are_interoperable() {
    let zkml1 = preprocessed(0, &[1; 60], 7);
    let zkml2 = preprocessed(0, &[1; 60], 7);
    let res1 = zkml1.prove(vec![0; 60]).unwrap();
    let res2 = zkml2.prove(vec![0; 60]).unwrap();
    let outb = encode_output(&res1.output);
    // A proof made with the first run's parameters is accepted under the
    // second run's verifying key, and vice versa.
    assert!(RugDetectorZKML::verify(&res1.proof, &res2.verifying_key, &outb).unwrap());
    assert!(RugDetectorZKML::verify(&res2.proof, &res1.verifying_key, &outb).unwrap());
}

#[test]
fn proof_for_another_model_is_rejected() {
    let zkml_a = preprocessed(0, &[1; 60], 7);
    let zkml_b = preprocessed(0, &[2; 60], 7);
    let res_a = zkml_a.prove(vec![0; 60]).unwrap();
    let res_b = zkml_b.prove(vec![0; 60]).unwrap();
    let outb = encode_output(&res_a.output);
    let valid = RugDetectorZKML::verify(&res_a.proof, &res_b.verifying_key, &outb).unwrap();
    assert!(!valid);
}

#[test]
fn wrong_output_arity_is_rejected() {
    let zkml = preprocessed(0, &[1; 60], 7);
    let res = zkml.prove(vec![0; 60]).unwrap();
    let two_values = ProgramOutput { values: vec![7, 7] };
    let outb = encode_output(&two_values);
    let valid = RugDetectorZKML::verify(&res.proof, &res.verifying_key, &outb).unwrap();
    assert!(!valid);
}

#[test]
fn inconsistent_trace_shape_is_a_proving_error() {
    let program = jolt_zkml::program::decode_model(&model_bytes(0, &[1; 60], 7)).unwrap();
    let pp = jolt_zkml::preprocess::preprocess(program).unwrap();
    let features = vec![0; 60];
    let (mut tr, out) = jolt_zkml::trace::trace(pp.program(), &features);
    tr.steps.pop();
    let result = jolt_zkml::prover::prove_snark(&pp, &tr, &out);
    assert!(matches!(result, Err(ZKMLError::Proving(_))));
}

#[test]
fn output_encoding_is_exact() {
    let out = ProgramOutput { values: vec![7] };
    assert_eq!(encode_output(&out), vec![1, 0, 0, 0, 7, 0, 0, 0, 0, 0, 0, 0]);
    let neg = ProgramOutput { values: vec![-1] };
    assert_eq!(
        neg_bytes(),
        encode_output(&neg)
    );
}

fn neg_bytes() -> Vec<u8> {
    let mut b = vec![1, 0, 0, 0];
    b.extend_from_slice(&[0xFF; 8]);
    b
}

#[test]
fn little_endian_codec_is_exact() {
    let mut b: Vec<u8> = Vec::new();
    jolt_zkml::bytes::push_u32_le(&mut b, 0x01020304);
    assert_eq!(b, vec![4, 3, 2, 1]);
    let mut s: Vec<u8> = Vec::new();
    jolt_zkml::bytes::push_i64_le(&mut s, -123456789);
    let back = jolt_zkml::bytes::read_i64_le(&s, 0);
    assert_eq!(back, -123456789);
}

#[test]
fn error_messages_name_the_failure() {
    assert_eq!(ZKMLError::NotPreprocessed.message(), "model not preprocessed");
    let e = ZKMLError::InvalidInput(String::from("three features"));
    assert_eq!(e.message(), "invalid input");
    assert_eq!(e.detail(), Some(&String::from("three features")));
}
