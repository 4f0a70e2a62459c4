use boinc_rpc::errors::Error;
use boinc_rpc::node::Node;
use boinc_rpc::rpc::{compute_nonce_hash, BoincCodec, CodecMode};
use bytes::BytesMut;

fn leaf(name: &str, text: Option<&str>) -> Node {
    Node::leaf(name, text.map(|t| t.to_string()))
}

fn sample_children() -> Vec<Node> {
    vec![
        Node::parent(
            "auth2",
            vec![leaf("nonce_hash", Some("38d4588fdbc729ba5f07c49b42d195a0"))],
        ),
        leaf("get_messages", Some("12")),
        leaf("empty", None),
    ]
}

fn encoded(mode: CodecMode, children: Vec<Node>) -> BytesMut {
    let mut codec = BoincCodec::new(mode);
    let mut dst = BytesMut::new();
    codec.encode(children, &mut dst).unwrap();
    dst
}

#[test]
fn framing_round_trip() {
    let mut buf = encoded(CodecMode::Client, sample_children());
    let mut server = BoincCodec::new(CodecMode::Server);
    let got = server.decode(&mut buf).unwrap().unwrap();
    assert_eq!(got, sample_children());
    assert!(buf.is_empty());
}

#[test]
fn round_trip_reply_direction() {
    let children = vec![leaf("success", None), leaf("nonce", Some("abc123"))];
    let mut buf = encoded(CodecMode::Server, children.clone());
    let mut client = BoincCodec::new(CodecMode::Client);
    assert_eq!(client.decode(&mut buf).unwrap().unwrap(), children);
}

#[test]
fn encoded_frame_shape() {
    let buf = encoded(CodecMode::Client, vec![leaf("auth1", None)]);
    let bytes = buf.to_vec();
    assert_eq!(*bytes.last().unwrap(), 3u8);
    assert_eq!(bytes.iter().filter(|b| **b == 3).count(), 1);
    let text = String::from_utf8(bytes[..bytes.len() - 1].to_vec()).unwrap();
    assert!(text.starts_with("<boinc_gui_rpc_request>"));
    assert!(text.contains("<auth1/>"));
    assert!(!text.contains(" />"));
    assert!(!text.contains("<?xml"));
}

#[test]
fn encode_appends_after_existing_bytes() {
    let mut codec = BoincCodec::new(CodecMode::Client);
    let mut dst = BytesMut::new();
    dst.extend_from_slice(b"xy");
    codec.encode(vec![leaf("auth1", None)], &mut dst).unwrap();
    assert_eq!(&dst[..2], b"xy");
    assert_eq!(dst[dst.len() - 1], 3);
}

#[test]
fn encode_latin1_text_as_single_bytes() {
    let buf = encoded(CodecMode::Client, vec![leaf("language", Some("fran\u{e7}ais"))]);
    assert!(buf.windows(6).any(|w| w == b"fran\xe7a"));
}

#[test]
fn encode_refuses_text_outside_latin1() {
    let mut codec = BoincCodec::new(CodecMode::Client);
    let mut dst = BytesMut::new();
    dst.extend_from_slice(b"ab");
    let r = codec.encode(vec![leaf("language", Some("\u{20ac}"))], &mut dst);
    assert_eq!(
        r,
        Err(Error::DataParseError("Outgoing data is not ISO-8859-1".to_string()))
    );
    assert_eq!(&dst[..], b"ab");
}

#[test]
fn partial_reads_resume() {
    let whole = encoded(CodecMode::Client, sample_children()).to_vec();
    for k in 0..whole.len() {
        let mut codec = BoincCodec::new(CodecMode::Server);
        let mut buf = BytesMut::new();
        buf.extend_from_slice(&whole[..k]);
        assert_eq!(codec.decode(&mut buf), Ok(None));
        assert_eq!(buf.len(), k);
        buf.extend_from_slice(&whole[k..]);
        assert_eq!(codec.decode(&mut buf).unwrap().unwrap(), sample_children());
        assert!(buf.is_empty());
    }
}

#[test]
fn frames_decode_independently() {
    let mut buf = encoded(CodecMode::Client, vec![leaf("first", Some("1"))]);
    let second = encoded(CodecMode::Client, vec![leaf("second", Some("2"))]);
    buf.extend_from_slice(&second[..5]);
    let mut codec = BoincCodec::new(CodecMode::Server);
    assert_eq!(codec.decode(&mut buf).unwrap().unwrap(), vec![leaf("first", Some("1"))]);
    assert_eq!(codec.decode(&mut buf), Ok(None));
    buf.extend_from_slice(&second[5..]);
    assert_eq!(codec.decode(&mut buf).unwrap().unwrap(), vec![leaf("second", Some("2"))]);
    assert_eq!(codec.decode(&mut buf), Ok(None));
}

#[test]
fn decode_needs_terminator() {
    let mut codec = BoincCodec::new(CodecMode::Client);
    let mut buf = BytesMut::new();
    buf.extend_from_slice(b"<boinc_gui_rpc_reply></boinc_gui_rpc_reply>");
    assert_eq!(codec.decode(&mut buf), Ok(None));
    assert_eq!(buf.len(), 43);
}

#[test]
fn decode_empty_envelope() {
    let mut codec = BoincCodec::new(CodecMode::Client);
    let mut buf = BytesMut::new();
    buf.extend_from_slice(b"<boinc_gui_rpc_reply></boinc_gui_rpc_reply>\x03rest");
    assert_eq!(codec.decode(&mut buf), Ok(Some(vec![])));
    assert_eq!(&buf[..], b"rest");
}

#[test]
fn decode_strips_prologue_and_reads_latin1() {
    let mut codec = BoincCodec::new(CodecMode::Client);
    let mut buf = BytesMut::new();
    buf.extend_from_slice(
        b"<?xml version=\"1.0\" encoding=\"ISO-8859-1\" ?>\n<boinc_gui_rpc_reply>\n<msg>caf\xe9</msg>\n</boinc_gui_rpc_reply>\n\x03",
    );
    let got = codec.decode(&mut buf).unwrap().unwrap();
    assert_eq!(got, vec![leaf("msg", Some("caf\u{e9}"))]);
}

#[test]
fn decode_reads_cdata() {
    let mut codec = BoincCodec::new(CodecMode::Client);
    let mut buf = BytesMut::new();
    buf.extend_from_slice(b"<boinc_gui_rpc_reply><body><![CDATA[ hi ]]></body></boinc_gui_rpc_reply>\x03");
    let got = codec.decode(&mut buf).unwrap().unwrap();
    assert_eq!(got.len(), 1);
    assert_eq!(got[0].cdata, Some(" hi ".to_string()));
}

#[test]
fn decode_rejects_wrong_envelope() {
    let mut codec = BoincCodec::new(CodecMode::Client);
    let mut buf = BytesMut::new();
    buf.extend_from_slice(b"<boinc_gui_rpc_request><auth1/></boinc_gui_rpc_request>\x03");
    assert_eq!(
        codec.decode(&mut buf),
        Err(Error::DataParseError(
            "Invalid root: boinc_gui_rpc_request. Expected: boinc_gui_rpc_reply".to_string()
        ))
    );
    assert!(buf.is_empty());
}

#[test]
fn decode_rejects_malformed_document() {
    let mut codec = BoincCodec::new(CodecMode::Client);
    let mut buf = BytesMut::new();
    buf.extend_from_slice(b"<boinc_gui_rpc_reply><a></b></boinc_gui_rpc_reply>\x03");
    match codec.decode(&mut buf) {
        Err(Error::DataParseError(m)) => assert!(m.starts_with("XML error: ")),
        other => panic!("unexpected {:?}", other),
    }
}

#[test]
fn decode_empty_frame_is_an_error() {
    let mut codec = BoincCodec::new(CodecMode::Client);
    let mut buf = BytesMut::new();
    buf.extend_from_slice(b"\x03");
    assert!(codec.decode(&mut buf).is_err());
    assert!(buf.is_empty());
}

#[test]
fn nonce_hash_is_md5_of_nonce_then_password() {
    assert_eq!(
        compute_nonce_hash("secret", "abc123"),
        "38d4588fdbc729ba5f07c49b42d195a0"
    );
    assert_eq!(compute_nonce_hash("", ""), "d41d8cd98f00b204e9800998ecf8427e");
}

#[test]
fn codec_keeps_its_mode() {
    assert_eq!(BoincCodec::new(CodecMode::Server).mode(), CodecMode::Server);
}
