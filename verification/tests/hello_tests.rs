use sni_proxy::hello::{extract_sni_from_header, ParseError};

/// A minimal well-formed ClientHello record whose extensions block holds
/// exactly one SNI extension carrying the given extension payload bytes.
fn client_hello_with_sni_payload(sni_payload: &[u8]) -> Vec<u8> {
    let p = sni_payload.len();
    let mut body: Vec<u8> = Vec::new();
    body.extend_from_slice(&[3, 3]); // client version
    body.extend_from_slice(&[0u8; 32]); // random
    body.push(0); // session-id length
    body.extend_from_slice(&[0, 2, 0, 0]); // one cipher suite
    body.extend_from_slice(&[1, 0]); // one compression method
    let block_len = p + 4;
    body.extend_from_slice(&(block_len as u16).to_be_bytes()); // extensions block length
    body.extend_from_slice(&[0, 0]); // extension type: SNI
    body.extend_from_slice(&(p as u16).to_be_bytes()); // extension length
    body.extend_from_slice(sni_payload);

    let mut out: Vec<u8> = Vec::new();
    out.extend_from_slice(&[22, 3, 1]); // handshake record, TLS 1.0 version bytes
    out.extend_from_slice(&((body.len() + 4) as u16).to_be_bytes());
    out.push(1); // ClientHello
    let hs_len = body.len() as u32;
    out.extend_from_slice(&hs_len.to_be_bytes()[1..4]);
    out.extend_from_slice(&body);
    out
}

/// An SNI extension payload holding exactly one hostname entry.
fn single_hostname_payload(host: &[u8]) -> Vec<u8> {
    let mut p: Vec<u8> = Vec::new();
    p.extend_from_slice(&((host.len() + 3) as u16).to_be_bytes()); // list length
    p.push(0); // name type: hostname
    p.extend_from_slice(&(host.len() as u16).to_be_bytes());
    p.extend_from_slice(host);
    p
}

fn client_hello(host: &[u8]) -> Vec<u8> {
    client_hello_with_sni_payload(&single_hostname_payload(host))
}

#[test]
fn parses_single_sni_hostname() {
    let buf = client_hello(b"example.com");
    let r = extract_sni_from_header(&buf);
    assert_eq!(r, Ok(Some(b"example.com".to_vec())));
}

#[test]
fn parses_empty_hostname_entry() {
    let buf = client_hello(b"");
    assert_eq!(extract_sni_from_header(&buf), Ok(Some(Vec::new())));
}

#[test]
fn every_truncated_prefix_is_truncated() {
    let buf = client_hello(b"www.example.com");
    for i in 0..buf.len() {
        let r = extract_sni_from_header(&buf[..i]);
        assert_eq!(r, Err(ParseError::Truncated), "prefix of {} bytes", i);
    }
}

#[test]
fn non_handshake_record_has_no_sni() {
    // An alert record: content type 21, one byte of payload.
    let buf = [21u8, 3, 3, 0, 2, 2, 40];
    assert_eq!(extract_sni_from_header(&buf), Ok(None));
}

#[test]
fn non_client_hello_handshake_has_no_sni() {
    // A ServerHello-typed message (type 2) is not inspected further.
    let mut buf = client_hello(b"example.com");
    buf[5] = 2;
    assert_eq!(extract_sni_from_header(&buf), Ok(None));
}

#[test]
fn trailing_bytes_after_record_are_ignored() {
    let mut buf = client_hello(b"example.com");
    buf.extend_from_slice(b"junk after the record");
    assert_eq!(extract_sni_from_header(&buf), Ok(Some(b"example.com".to_vec())));
}

#[test]
fn session_id_overrunning_body_is_malformed() {
    let mut buf = client_hello(b"example.com");
    buf[43] = 255; // session-id length points past the body
    assert_eq!(extract_sni_from_header(&buf), Err(ParseError::Malformed));
}

#[test]
fn extension_overrunning_block_is_malformed() {
    let mut buf = client_hello(b"example.com");
    let n = buf.len();
    // The SNI extension's length field: 9 bytes before the hostname end.
    buf[n - 11 - 2] = 255;
    assert_eq!(extract_sni_from_header(&buf), Err(ParseError::Malformed));
}

#[test]
fn handshake_overrunning_record_is_malformed() {
    let mut buf = client_hello(b"example.com");
    // Declare one handshake byte more than the record payload holds.
    buf[8] += 1;
    assert_eq!(extract_sni_from_header(&buf), Err(ParseError::Malformed));
}

#[test]
fn skips_entry_with_invalid_utf8() {
    // Two entries: the first hostname has an invalid UTF-8 byte and is
    // skipped; the second one wins.
    let mut p: Vec<u8> = Vec::new();
    let bad = [0xFFu8, 0x61];
    let good = b"ok.example";
    let list_len = (3 + bad.len()) + (3 + good.len());
    p.extend_from_slice(&(list_len as u16).to_be_bytes());
    p.push(0);
    p.extend_from_slice(&(bad.len() as u16).to_be_bytes());
    p.extend_from_slice(&bad);
    p.push(0);
    p.extend_from_slice(&(good.len() as u16).to_be_bytes());
    p.extend_from_slice(good);
    let buf = client_hello_with_sni_payload(&p);
    assert_eq!(extract_sni_from_header(&buf), Ok(Some(good.to_vec())));
}

#[test]
fn skips_non_hostname_entry() {
    let mut p: Vec<u8> = Vec::new();
    let other = b"xx";
    let host = b"real.example";
    let list_len = (3 + other.len()) + (3 + host.len());
    p.extend_from_slice(&(list_len as u16).to_be_bytes());
    p.push(7); // not a hostname-type entry
    p.extend_from_slice(&(other.len() as u16).to_be_bytes());
    p.extend_from_slice(other);
    p.push(0);
    p.extend_from_slice(&(host.len() as u16).to_be_bytes());
    p.extend_from_slice(host);
    let buf = client_hello_with_sni_payload(&p);
    assert_eq!(extract_sni_from_header(&buf), Ok(Some(host.to_vec())));
}

#[test]
fn sni_after_undecodable_extension_is_found() {
    // An encrypted-SNI-style extension (type 0xffce) precedes the plain
    // SNI extension; its payload is opaque and yields no hostname.
    let host = b"plain.example";
    let sni_payload = single_hostname_payload(host);
    let esni_payload = [0xDEu8, 0xAD, 0xBE, 0xEF];

    let mut body: Vec<u8> = Vec::new();
    body.extend_from_slice(&[3, 3]);
    body.extend_from_slice(&[0u8; 32]);
    body.push(0);
    body.extend_from_slice(&[0, 2, 0, 0]);
    body.extend_from_slice(&[1, 0]);
    let block_len = (4 + esni_payload.len()) + (4 + sni_payload.len());
    body.extend_from_slice(&(block_len as u16).to_be_bytes());
    body.extend_from_slice(&[0xFF, 0xCE]);
    body.extend_from_slice(&(esni_payload.len() as u16).to_be_bytes());
    body.extend_from_slice(&esni_payload);
    body.extend_from_slice(&[0, 0]);
    body.extend_from_slice(&(sni_payload.len() as u16).to_be_bytes());
    body.extend_from_slice(&sni_payload);

    let mut buf: Vec<u8> = Vec::new();
    buf.extend_from_slice(&[22, 3, 1]);
    buf.extend_from_slice(&((body.len() + 4) as u16).to_be_bytes());
    buf.push(1);
    let hs_len = body.len() as u32;
    buf.extend_from_slice(&hs_len.to_be_bytes()[1..4]);
    buf.extend_from_slice(&body);

    assert_eq!(extract_sni_from_header(&buf), Ok(Some(host.to_vec())));
}

#[test]
fn client_hello_without_extensions_has_no_sni() {
    let mut body: Vec<u8> = Vec::new();
    body.extend_from_slice(&[3, 3]);
    body.extend_from_slice(&[0u8; 32]);
    body.push(0);
    body.extend_from_slice(&[0, 2, 0, 0]);
    body.extend_from_slice(&[1, 0]);
    let mut buf: Vec<u8> = Vec::new();
    buf.extend_from_slice(&[22, 3, 1]);
    buf.extend_from_slice(&((body.len() + 4) as u16).to_be_bytes());
    buf.push(1);
    let hs_len = body.len() as u32;
    buf.extend_from_slice(&hs_len.to_be_bytes()[1..4]);
    buf.extend_from_slice(&body);
    assert_eq!(extract_sni_from_header(&buf), Ok(None));
}

#[test]
fn empty_buffer_is_truncated() {
    assert_eq!(extract_sni_from_header(&[]), Err(ParseError::Truncated));
}

#[test]
fn garbage_bytes_do_not_panic() {
    // An HTTP request declares a huge record length: truncated, not a crash.
    assert_eq!(
        extract_sni_from_header(b"GET / HTTP/1.1\r\n\r\n"),
        Err(ParseError::Truncated)
    );
}
