use ockam_enroll::errcode::{Kind, OckamError, Origin};
use ockam_enroll::exchange::{
    complete_exchange, encode_request, request_step, start_exchange, ExchangeStep, OneTimeCode,
    Route,
};

fn single_hop(addr: &str) -> Route {
    Route { hops: vec![String::from(addr)] }
}

/// The CBOR map `{"status": 200}`, standing in for the response header.
fn header_bytes() -> Vec<u8> {
    let mut e = minicbor::Encoder::new(Vec::new());
    e.map(1).unwrap();
    e.str("status").unwrap();
    e.u16(200).unwrap();
    e.into_writer()
}

/// The CBOR map `{"attrs": {"role": "admin"}}`, standing in for a credential
/// the authority encoded.
fn credential_bytes() -> Vec<u8> {
    let mut e = minicbor::Encoder::new(Vec::new());
    e.map(1).unwrap();
    e.str("attrs").unwrap();
    e.map(1).unwrap();
    e.str("role").unwrap();
    e.str("admin").unwrap();
    e.into_writer()
}

#[test]
fn request_is_the_exact_envelope_encoding() {
    let token = OneTimeCode::new(vec![b'T', b'1']);
    let step = start_exchange(single_hop("authority"), token);
    match step {
        ExchangeStep::SendRequest { route, request } => {
            assert_eq!(route.hops, vec![String::from("authority")]);
            let mut expected: Vec<u8> = vec![0x83];
            expected.push(0x64);
            expected.extend_from_slice(b"post");
            expected.push(0x6b);
            expected.extend_from_slice(b"/credential");
            expected.push(0x42);
            expected.extend_from_slice(b"T1");
            assert_eq!(request, expected);
        }
        ExchangeStep::Fail { error } => panic!("encoding failed: {:?}", error),
    }
}

#[test]
fn request_framing_differs_from_the_bare_token() {
    let token = OneTimeCode::new(vec![b'T', b'1']);
    let request = encode_request(&token).unwrap();
    assert_ne!(request, vec![b'T', b'1']);
    assert!(request.len() > 2);
}

#[test]
fn exchange_returns_the_credential_the_authority_encoded() {
    let token = OneTimeCode::new(vec![b'T', b'1']);
    let step = start_exchange(single_hop("authority"), token);
    assert!(matches!(step, ExchangeStep::SendRequest { .. }));

    let mut response = header_bytes();
    response.extend_from_slice(&credential_bytes());
    let credential = complete_exchange(Ok(response)).unwrap();
    assert_eq!(credential.bytes(), &credential_bytes());
}

#[test]
fn trailing_bytes_after_the_payload_are_ignored() {
    let mut response = header_bytes();
    response.extend_from_slice(&credential_bytes());
    response.extend_from_slice(&[0xff, 0x00, 0x17]);
    let credential = complete_exchange(Ok(response)).unwrap();
    assert_eq!(credential.bytes(), &credential_bytes());
}

#[test]
fn the_credential_owns_its_bytes() {
    let mut response = header_bytes();
    response.extend_from_slice(&credential_bytes());
    let credential = complete_exchange(Ok(response)).unwrap();
    // `response` was consumed above; the credential's bytes live on their own.
    let copy = credential.bytes().clone();
    drop(credential);
    assert_eq!(copy, credential_bytes());
}

#[test]
fn empty_response_is_an_invalid_application_error() {
    let outcome = complete_exchange(Ok(Vec::new()));
    match outcome {
        Ok(_) => panic!("an empty buffer must not decode"),
        Err(e) => {
            assert_eq!(e.kind, Kind::Invalid);
            assert_eq!(e.origin, Origin::Application);
            assert!(e.message.is_some());
        }
    }
}

#[test]
fn response_truncated_after_the_header_is_rejected() {
    let response = header_bytes();
    let outcome = complete_exchange(Ok(response));
    match outcome {
        Ok(_) => panic!("a truncated buffer must not decode"),
        Err(e) => {
            assert_eq!(e.kind, Kind::Invalid);
            assert_eq!(e.origin, Origin::Application);
        }
    }
}

#[test]
fn encoding_failure_sends_nothing() {
    let step = request_step(single_hop("authority"), Err(String::from("malformed body")));
    assert!(!matches!(step, ExchangeStep::SendRequest { .. }));
    match step {
        ExchangeStep::SendRequest { .. } => unreachable!(),
        ExchangeStep::Fail { error } => {
            assert_eq!(error.kind, Kind::Invalid);
            assert_eq!(error.origin, Origin::Application);
            assert_eq!(error.message, Some(String::from("malformed body")));
        }
    }
}

#[test]
fn transport_failures_come_back_unchanged() {
    let failure = OckamError::new(
        Origin::Transport,
        Kind::NotFound,
        String::from("route unreachable"),
    );
    let outcome = complete_exchange(Err(failure));
    match outcome {
        Ok(_) => panic!("a transport failure must not yield a credential"),
        Err(e) => {
            assert_eq!(e.origin, Origin::Transport);
            assert_eq!(e.kind, Kind::NotFound);
            assert_eq!(e.message, Some(String::from("route unreachable")));
        }
    }
}
