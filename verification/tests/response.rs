use dsaccess::errors::RequestError;
use dsaccess::response::{generate_lambda_output, output_with_body};

#[test]
fn output_with_body_sets_the_fixed_fields() {
    let out = output_with_body("{}".to_string(), 200);
    assert!(!out.is_base64_encoded);
    assert_eq!(out.status_code, 200);
    assert_eq!(out.headers.content_type, "application/json");
    assert_eq!(out.body, "{}");
}

#[test]
fn body_is_a_json_object_of_one_member() {
    let out = generate_lambda_output("status".to_string(), "Edge created".to_string(), 200).unwrap();
    assert_eq!(out.body, "{\"status\":\"Edge created\"}");
    assert_eq!(out.status_code, 200);
    assert!(!out.is_base64_encoded);
    assert_eq!(out.headers.content_type, "application/json");
}

#[test]
fn body_carries_the_key() {
    let out = generate_lambda_output("pk".to_string(), "D#sales".to_string(), 200).unwrap();
    assert_eq!(out.body, "{\"pk\":\"D#sales\"}");
}

#[test]
fn body_escapes_what_json_escapes() {
    let out = generate_lambda_output("k\"".to_string(), "a\\b\n\u{1}".to_string(), 500).unwrap();
    assert_eq!(out.body, "{\"k\\\"\":\"a\\\\b\\n\\u0001\"}");
    assert_eq!(out.status_code, 500);
}

#[test]
fn body_keeps_other_characters_as_they_are() {
    let out = generate_lambda_output("clé".to_string(), "/\u{7f}é ".to_string(), 200).unwrap();
    assert_eq!(out.body, "{\"clé\":\"/\u{7f}é \"}");
}

#[test]
fn body_decodes_back_to_the_member() {
    let out = generate_lambda_output("status".to_string(), "Not implemented".to_string(), 400).unwrap();
    let decoded: std::collections::HashMap<String, String> = serde_json::from_str(&out.body).unwrap();
    assert_eq!(decoded.len(), 1);
    assert_eq!(decoded.get("status").map(String::as_str), Some("Not implemented"));
}

#[test]
fn error_messages() {
    assert_eq!(RequestError::IncompatibleTypes.message(), "PK types not comatible with edge");
    assert_eq!(RequestError::Decode.message(), "Action could not be decoded");
    assert_eq!(RequestError::PartialWrite.message(), "Records were only partially written");
    assert_eq!(RequestError::WriteFailed.message(), "Records could not be written");
    assert_eq!(RequestError::Encode.message(), "Could not handle input");
}

#[test]
fn encoding_succeeds_on_every_kind_of_text() {
    for (k, v) in [("", ""), ("\u{0}", "\u{1f}"), ("\"\\", "\n\r\t"), ("\u{10ffff}", "日本語")] {
        let out = generate_lambda_output(k.to_string(), v.to_string(), 200);
        assert!(out.is_ok());
    }
    let out = generate_lambda_output(String::new(), String::new(), 200).unwrap();
    assert_eq!(out.body, "{\"\":\"\"}");
}
