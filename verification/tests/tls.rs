use cloud_hypervisor::tls::{
    handshake_step, server_name, server_name_result, TlsError, TransferBuffer, MAX_CHUNK,
};
use rustls::pki_types::ServerName;

#[test]
fn names_of_servers() {
    assert_eq!(
        server_name("migration.example.org").unwrap().to_str(),
        "migration.example.org"
    );
    assert!(matches!(
        server_name("192.0.2.7"),
        Ok(ServerName::IpAddress(_))
    ));
}

#[test]
fn invalid_names_are_errors() {
    assert!(matches!(
        server_name("not a name"),
        Err(TlsError::InvalidDnsName(_))
    ));
    assert!(matches!(server_name(""), Err(TlsError::InvalidDnsName(_))));
    let parsed = ServerName::try_from("host".to_string());
    assert_eq!(server_name_result(parsed).unwrap().to_str(), "host");
}

#[test]
fn handshake_ends_when_nothing_moves() {
    assert!(handshake_step(1, 0).is_ok());
    assert!(handshake_step(0, 1).is_ok());
    match handshake_step(0, 0) {
        Err(TlsError::HandshakeError(message)) => {
            assert_eq!(message, "EOF during TLS handshake");
        }
        _ => panic!("the handshake goes on"),
    }
}

#[test]
fn transfers_are_limited() {
    let mut buffer = TransferBuffer::new();
    assert_eq!(buffer.begin(10), 10);
    assert_eq!(buffer.chunk(10), [0; 10]);
    buffer.chunk_mut(3).copy_from_slice(&[1, 2, 3]);
    assert_eq!(buffer.chunk(5), [1, 2, 3, 0, 0]);
    // The buffer does not shrink for a smaller transfer.
    assert_eq!(buffer.begin(2), 2);
    assert_eq!(buffer.chunk(3), [1, 2, 3]);
    // A transfer that moved nothing keeps the buffer.
    buffer.end(0);
    assert_eq!(buffer.chunk(3), [1, 2, 3]);
    buffer.end(3);
    assert_eq!(buffer.chunk(0), []);
    assert_eq!(buffer.begin(MAX_CHUNK + 1), 65536);
    assert_eq!(buffer.chunk(65536).len(), 65536);
    assert_eq!(MAX_CHUNK, 1024 * 64);
}
