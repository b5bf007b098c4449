use multiply_prover::artifact::{Receipt, ImageId, extract_serialized_data, decode_output};
use multiply_prover::env_builder::create_execution_env;
use multiply_prover::guest::{guest_entry, GuestError};

// The full pipeline over the engine model: build the input sequence, run
// the guest computation, wrap the committed journal in a receipt beside
// the proof bytes the engine returned, then serialize and decode.
fn run_pipeline(a: u64, b: u64, proof_bytes: Vec<u8>) -> Result<(Receipt, ImageId), GuestError> {
    let env = create_execution_env(a, b);
    assert_eq!(env.words().len(), 4);
    let journal = guest_entry(a, b)?;
    let receipt = Receipt { proof: proof_bytes, journal };
    let image_id = ImageId::new(vec![8, 7, 6, 5, 4, 3, 2, 1]).unwrap();
    Ok((receipt, image_id))
}

#[test]
fn scenario_seventeen_times_twentythree() {
    let (receipt, image_id) = run_pipeline(17, 23, vec![0xab, 0xcd]).unwrap();
    assert_eq!(decode_output(&receipt), Ok(391));
    let artifact = extract_serialized_data(&receipt, &image_id);
    // 391 = 0x0187, laid out as eight little-endian bytes.
    assert_eq!(artifact.outputs, "0x8701000000000000");
    assert_eq!(hex::decode(&artifact.outputs[2..]).unwrap(), 391u64.to_le_bytes());
    assert_eq!(
        artifact.image_id,
        "0x0800000007000000060000000500000004000000030000000200000001000000"
    );
    assert_eq!(artifact.proof, "0xabcd");
}

#[test]
fn scenario_trivial_factor_produces_no_artifact() {
    let outcome = run_pipeline(1, 23, vec![0xab]);
    match outcome {
        Err(fault) => assert_eq!(fault, GuestError::TrivialFactor),
        Ok(_) => panic!("a trivial factor must abort the pipeline"),
    }
}

#[test]
fn scenario_overflow_produces_no_artifact() {
    let outcome = run_pipeline(1 << 33, 1 << 33, vec![]);
    match outcome {
        Err(fault) => assert_eq!(fault, GuestError::Overflow),
        Ok(_) => panic!("an overflowing product must abort the pipeline"),
    }
}
