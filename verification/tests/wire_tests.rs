use aptos_deployer::codec::{binary_encode_bytes, hex_decode, hex_encode, uleb128_encode};
use aptos_deployer::payload::assemble;

#[test]
fn hex_encoding_matches_the_hex_crate() {
    let samples: Vec<Vec<u8>> = vec![
        vec![],
        vec![0u8],
        vec![0xabu8, 0xcd, 0xef],
        (0u8..=255).collect(),
    ];
    for b in samples {
        assert_eq!(hex_encode(&b), hex::encode(&b).into_bytes());
    }
}

#[test]
fn hex_decode_round_trips_and_rejects_bad_input() {
    let b: Vec<u8> = (0u8..=255).collect();
    let digits = hex_encode(&b);
    assert_eq!(hex_decode(&digits), Some(b));
    assert_eq!(hex_decode(&b"abc".to_vec()), None);
    assert_eq!(hex_decode(&b"zz".to_vec()), None);
    assert_eq!(hex_decode(&b"AB0f".to_vec()), Some(vec![0xabu8, 0x0f]));
}

#[test]
fn uleb128_lengths_match_known_values() {
    assert_eq!(uleb128_encode(0), vec![0u8]);
    assert_eq!(uleb128_encode(127), vec![127u8]);
    assert_eq!(uleb128_encode(128), vec![0x80u8, 1]);
    assert_eq!(uleb128_encode(300), vec![0xacu8, 2]);
    assert_eq!(uleb128_encode(16384), vec![0x80u8, 0x80, 1]);
}

#[test]
fn binary_bytes_match_the_canonical_serializer() {
    let samples: Vec<Vec<u8>> = vec![vec![], vec![0xabu8], vec![0u8; 300]];
    for b in samples {
        assert_eq!(binary_encode_bytes(&b), bcs::to_bytes(&b).unwrap());
    }
}

#[test]
fn binary_module_list_matches_the_canonical_serializer() {
    let modules: Vec<Vec<u8>> = vec![vec![0xffu8], vec![], vec![1u8, 2, 3]];
    let p = assemble(b"seed".to_vec(), b"meta".to_vec(), modules.clone()).unwrap();
    let binary = p.binary_arguments();
    assert_eq!(binary.seed_bytes, bcs::to_bytes(&b"seed".to_vec()).unwrap());
    assert_eq!(binary.metadata_bytes, bcs::to_bytes(&b"meta".to_vec()).unwrap());
    assert_eq!(binary.modules_bytes, bcs::to_bytes(&modules).unwrap());
}

#[test]
fn text_document_has_the_fixed_entry_point_and_no_type_arguments() {
    let p = assemble(vec![0xabu8], vec![0x01u8], vec![]).unwrap();
    let doc = p.text_document();
    assert_eq!(
        doc.function,
        "0x1::resource_account::create_resource_account_and_publish_package"
    );
    assert!(doc.type_arguments.is_empty());
    assert_eq!(doc.arguments.seed_hex, b"0xab".to_vec());
    assert_eq!(doc.arguments.metadata_hex, b"0x01".to_vec());
    assert!(doc.arguments.module_hex.is_empty());
}

#[test]
fn text_and_binary_forms_decode_to_the_same_arguments() {
    // seed = ab, metadata = 01 02, modules = [ff], [] — both wire forms
    // spelled by hand and decoded by hand to the same argument values.
    let p = assemble(vec![0xabu8], vec![0x01u8, 0x02], vec![vec![0xffu8], vec![]]).unwrap();

    let text = p.text_arguments();
    assert_eq!(text.seed_hex, b"0xab".to_vec());
    assert_eq!(text.metadata_hex, b"0x0102".to_vec());
    assert_eq!(text.module_hex, vec![b"0xff".to_vec(), b"0x".to_vec()]);

    let binary = p.binary_arguments();
    assert_eq!(binary.seed_bytes, vec![1u8, 0xab]);
    assert_eq!(binary.metadata_bytes, vec![2u8, 0x01, 0x02]);
    assert_eq!(binary.modules_bytes, vec![2u8, 1, 0xff, 0]);

    // Decode the text form: strip the prefixes and read the hex back.
    let seed_t = hex_decode(&text.seed_hex[2..].to_vec()).unwrap();
    let metadata_t = hex_decode(&text.metadata_hex[2..].to_vec()).unwrap();
    let modules_t: Vec<Vec<u8>> = text
        .module_hex
        .iter()
        .map(|m| hex_decode(&m[2..].to_vec()).unwrap())
        .collect();

    // Decode the binary form: one length byte in front of each value here.
    let seed_b = binary.seed_bytes[1..].to_vec();
    let metadata_b = binary.metadata_bytes[1..].to_vec();
    let modules_b: Vec<Vec<u8>> = vec![binary.modules_bytes[2..3].to_vec(), vec![]];

    assert_eq!(seed_t, seed_b);
    assert_eq!(metadata_t, metadata_b);
    assert_eq!(modules_t, modules_b);
    assert_eq!(seed_t, vec![0xabu8]);
    assert_eq!(metadata_t, vec![0x01u8, 0x02]);
    assert_eq!(modules_t, vec![vec![0xffu8], vec![]]);
}
