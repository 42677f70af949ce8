use base64::Engine;
use browser_print::pipeline::{
    decode_piece, file_uri, payload_text, resolve_destination, split_payload, ConversionError,
    Destination, PrintResponse, ResponseShape, DECODE_CHUNK,
};

fn decode_all(text: &str) -> Result<Vec<u8>, ConversionError> {
    let mut out = Vec::new();
    for piece in split_payload(text) {
        out.extend(decode_piece(&piece)?);
    }
    Ok(out)
}

fn encode(bytes: &[u8]) -> String {
    base64::engine::general_purpose::STANDARD.encode(bytes)
}

#[test]
fn derived_destination_replaces_extension() {
    let d = resolve_destination("a/b.html", None, true);
    assert_eq!(d, Destination::File("a/b.pdf".to_string()));
}

#[test]
fn derived_destination_of_nested_extension() {
    let d = resolve_destination("docs/report.tar.html", None, true);
    assert_eq!(d, Destination::File("docs/report.tar.pdf".to_string()));
    let d = resolve_destination("notes", None, true);
    assert_eq!(d, Destination::File("notes.pdf".to_string()));
}

#[test]
fn explicit_destination_wins() {
    let d = resolve_destination("a/b.html", Some("out/x.pdf".to_string()), true);
    assert_eq!(d, Destination::File("out/x.pdf".to_string()));
    let d = resolve_destination("a/b.html", Some("out/x.pdf".to_string()), false);
    assert_eq!(d, Destination::File("out/x.pdf".to_string()));
}

#[test]
fn no_choice_goes_to_stdout() {
    assert_eq!(resolve_destination("a/b.html", None, false), Destination::Stdout);
}

#[test]
fn file_uri_prefixes_scheme() {
    assert_eq!(file_uri("/home/u/doc.html"), "file:///home/u/doc.html");
    assert_eq!(file_uri("/a b/c.html"), "file:///a b/c.html");
}

#[test]
fn payload_text_accepts_text_only() {
    assert_eq!(payload_text(PrintResponse::Text("QUJD".to_string())).unwrap(), "QUJD");
    for (response, shape) in [
        (PrintResponse::Null, ResponseShape::Null),
        (PrintResponse::Bool, ResponseShape::Bool),
        (PrintResponse::Number, ResponseShape::Number),
        (PrintResponse::Array, ResponseShape::Array),
        (PrintResponse::Object, ResponseShape::Object),
    ] {
        match payload_text(response) {
            Err(ConversionError::UnexpectedResponseShape(k)) => assert_eq!(k, shape),
            other => panic!("unexpected {:?}", other),
        }
    }
}

#[test]
fn decode_round_trips_bytes() {
    let cases: Vec<Vec<u8>> = vec![
        vec![],
        b"PDF-DATA".to_vec(),
        vec![0xff, 0xfe, 0x00, 0x80, 0xc3],
        (0..=255u8).collect(),
        vec![1],
        vec![1, 2],
        (0..20000u32).map(|i| (i * 7 % 251) as u8).collect(),
    ];
    for bytes in cases {
        assert_eq!(decode_all(&encode(&bytes)).unwrap(), bytes);
    }
}

#[test]
fn decode_of_known_text() {
    assert_eq!(decode_piece("UERGLURBVEE=").unwrap(), b"PDF-DATA".to_vec());
}

#[test]
fn decode_refuses_malformed_base64() {
    for text in ["@@@@", "QUJ", "QUJD\n", "Q==="] {
        assert!(matches!(decode_piece(text), Err(ConversionError::Decode(_))));
    }
}

#[test]
fn split_payload_cuts_ascii_text() {
    let text = "A".repeat(2 * DECODE_CHUNK + 8);
    let pieces: Vec<String> = split_payload(&text).into_iter().collect();
    assert_eq!(pieces.len(), 3);
    assert_eq!(pieces[0].len(), DECODE_CHUNK);
    assert_eq!(pieces[1].len(), DECODE_CHUNK);
    assert_eq!(pieces[2].len(), 8);
    assert_eq!(split_payload("").len(), 1);
    assert_eq!(split_payload(&"A".repeat(DECODE_CHUNK)).len(), 1);
}

#[test]
fn split_payload_keeps_other_text_whole() {
    let text = "é".repeat(DECODE_CHUNK + 1);
    let pieces: Vec<String> = split_payload(&text).into_iter().collect();
    assert_eq!(pieces, vec![text]);
}
