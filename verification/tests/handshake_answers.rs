use codexpc::handshake::{decode_handshake, Handshake};

#[test]
fn full_handshake_answer() {
    let h = decode_handshake(
        "{\"encoding_name\": \"o200k_harmony\", \"special_tokens\": [\"<|start|>\", \"<|end|>\"], \"stop_tokens_for_assistant_actions\": [200002, 200012]}",
    );
    assert_eq!(
        h,
        Some(Handshake {
            encoding_name: Some("o200k_harmony".to_string()),
            special_tokens: vec!["<|start|>".to_string(), "<|end|>".to_string()],
            stop_tokens_for_assistant_actions: vec![200002, 200012],
        })
    );
}

#[test]
fn empty_object_is_an_empty_handshake() {
    assert_eq!(
        decode_handshake("{}"),
        Some(Handshake {
            encoding_name: None,
            special_tokens: vec![],
            stop_tokens_for_assistant_actions: vec![],
        })
    );
}

#[test]
fn answer_that_is_no_json_gives_none() {
    assert_eq!(decode_handshake(""), None);
    assert_eq!(decode_handshake("{\"encoding_name\": "), None);
    assert_eq!(decode_handshake("hello"), None);
}

#[test]
fn answer_that_is_no_object_is_an_empty_handshake() {
    for answer in ["[]", "3", "\"encoding_name\"", "null", "true"] {
        assert_eq!(
            decode_handshake(answer),
            Some(Handshake {
                encoding_name: None,
                special_tokens: vec![],
                stop_tokens_for_assistant_actions: vec![],
            })
        );
    }
}

#[test]
fn fields_of_other_types_read_as_absent() {
    assert_eq!(
        decode_handshake(
            "{\"encoding_name\": 7, \"special_tokens\": \"<|start|>\", \"stop_tokens_for_assistant_actions\": {\"a\": 1}}"
        ),
        Some(Handshake {
            encoding_name: None,
            special_tokens: vec![],
            stop_tokens_for_assistant_actions: vec![],
        })
    );
}

#[test]
fn elements_of_other_types_are_passed_over() {
    assert_eq!(
        decode_handshake(
            "{\"special_tokens\": [\"a\", 1, null, \"b\", [\"c\"]], \"stop_tokens_for_assistant_actions\": [1, \"2\", -3, 4.5, 5, null]}"
        ),
        Some(Handshake {
            encoding_name: None,
            special_tokens: vec!["a".to_string(), "b".to_string()],
            stop_tokens_for_assistant_actions: vec![1, 5],
        })
    );
}

#[test]
fn stop_tokens_are_cut_to_32_bits() {
    let h = decode_handshake(
        "{\"stop_tokens_for_assistant_actions\": [4294967295, 4294967296, 4294967298, 18446744073709551615]}",
    )
    .unwrap();
    assert_eq!(h.stop_tokens_for_assistant_actions, vec![4294967295, 0, 2, 4294967295]);
}

#[test]
fn handshake_from_a_parsed_document() {
    let doc: serde_json::Value =
        serde_json::from_str("{\"encoding_name\": \"\", \"special_tokens\": []}").unwrap();
    assert_eq!(
        Handshake::from_json(&doc),
        Handshake {
            encoding_name: Some(String::new()),
            special_tokens: vec![],
            stop_tokens_for_assistant_actions: vec![],
        }
    );
}

#[test]
fn repeated_key_takes_the_last_value() {
    let h = decode_handshake("{\"encoding_name\": \"a\", \"encoding_name\": \"b\"}").unwrap();
    assert_eq!(h.encoding_name, Some("b".to_string()));
}

#[test]
fn members_read_with_defaults() {
    let doc: serde_json::Value =
        serde_json::from_str("{\"n\": 41, \"r\": 2.5, \"s\": \"x\", \"neg\": -1}").unwrap();
    assert_eq!(codexpc::json::u64_member_or_zero(&doc, "n"), 41);
    assert_eq!(codexpc::json::u64_member_or_zero(&doc, "r"), 0);
    assert_eq!(codexpc::json::u64_member_or_zero(&doc, "s"), 0);
    assert_eq!(codexpc::json::u64_member_or_zero(&doc, "neg"), 0);
    assert_eq!(codexpc::json::u64_member_or_zero(&doc, "missing"), 0);
    assert_eq!(codexpc::json::double_bits_member_or_zero(&doc, "r"), 2.5f64.to_bits());
    assert_eq!(codexpc::json::double_bits_member_or_zero(&doc, "n"), 41.0f64.to_bits());
    assert_eq!(codexpc::json::double_bits_member_or_zero(&doc, "neg"), (-1.0f64).to_bits());
    assert_eq!(codexpc::json::double_bits_member_or_zero(&doc, "s"), 0);
    assert_eq!(codexpc::json::double_bits_member_or_zero(&doc, "missing"), 0);
}
