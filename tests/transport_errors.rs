use atoll::{AtollError, Minreq};

fn mapped(e: minreq::Error) -> AtollError {
    AtollError::from(e)
}

#[test]
fn each_unit_transport_kind_maps_to_its_namesake() {
    let cases = vec![
        (minreq::Error::MalformedChunkLength, Minreq::MalformedChunkLength),
        (minreq::Error::MalformedChunkEnd, Minreq::MalformedChunkEnd),
        (minreq::Error::MalformedContentLength, Minreq::MalformedContentLength),
        (minreq::Error::HeadersOverflow, Minreq::HeadersOverflow),
        (minreq::Error::StatusLineOverflow, Minreq::StatusLineOverflow),
        (minreq::Error::AddressNotFound, Minreq::AddressNotFound),
        (minreq::Error::RedirectLocationMissing, Minreq::RedirectLocationMissing),
        (minreq::Error::InfiniteRedirectionLoop, Minreq::InfiniteRedirectionLoop),
        (minreq::Error::TooManyRedirections, Minreq::TooManyRedirections),
        (minreq::Error::InvalidUtf8InResponse, Minreq::InvalidUtf8InResponse),
        (minreq::Error::PunycodeConversionFailed, Minreq::PunycodeConversionFailed),
        (minreq::Error::HttpsFeatureNotEnabled, Minreq::HttpsFeatureNotEnabled),
        (minreq::Error::PunycodeFeatureNotEnabled, Minreq::PunycodeFeatureNotEnabled),
        (minreq::Error::BadProxy, Minreq::BadProxy),
        (minreq::Error::BadProxyCreds, Minreq::BadProxyCreds),
        (minreq::Error::ProxyConnect, Minreq::ProxyConnect),
        (minreq::Error::InvalidProxyCreds, Minreq::InvalidProxyCreds),
    ];
    let mut seen: Vec<AtollError> = Vec::new();
    for (input, expected) in cases {
        let out = mapped(input);
        assert_eq!(out, AtollError::Http(expected));
        assert!(!seen.contains(&out));
        seen.push(out);
    }
    assert_eq!(seen.len(), 17);
}

#[test]
fn other_keeps_its_diagnostic() {
    assert_eq!(
        mapped(minreq::Error::Other("reached an impossible state")),
        AtollError::Http(Minreq::Other("reached an impossible state".to_string()))
    );
}

#[test]
fn invalid_utf8_body_carries_the_utf8_diagnostic() {
    let bytes = vec![b'o', b'k', 0xff];
    let utf8_error = std::str::from_utf8(&bytes).unwrap_err();
    let text = utf8_error.to_string();
    match mapped(minreq::Error::InvalidUtf8InBody(utf8_error)) {
        AtollError::Http(Minreq::InvalidUtf8InBody(s)) => {
            assert_eq!(s, text);
            assert!(!s.is_empty());
        }
        other => panic!("unexpected {:?}", other),
    }
}

#[test]
fn tls_failure_carries_the_tls_diagnostic() {
    let e = rustls::Error::General("handshake refused".to_string());
    let text = e.to_string();
    match mapped(minreq::Error::RustlsCreateConnection(e)) {
        AtollError::Http(Minreq::RustlsCreateConnection(s)) => {
            assert_eq!(s, text);
            assert!(s.contains("handshake refused"));
        }
        other => panic!("unexpected {:?}", other),
    }
}

#[test]
fn io_failure_becomes_a_utilities_error() {
    let e = std::io::Error::new(std::io::ErrorKind::ConnectionRefused, "refused");
    let out = mapped(minreq::Error::IoError(e));
    let expected = web3utilities::UtilitiesError::from(std::io::Error::new(
        std::io::ErrorKind::ConnectionRefused,
        "refused",
    ));
    assert_eq!(out, AtollError::Utilities(expected));
}

#[test]
fn json_failure_becomes_a_decode_error_with_its_diagnostic() {
    let e = serde_json::from_str::<serde_json::Value>("{\"id\":").unwrap_err();
    let text = e.to_string();
    assert_eq!(AtollError::from(e), AtollError::SerdeJsonDeser(text));
}
