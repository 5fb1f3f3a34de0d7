use cloud_hypervisor::protocol::{
    Command, MigratableError, Request, Response, SocketError, Status,
};

#[test]
fn request_is_read_as_it_was_written() {
    let requests = [
        (Request::start(), Command::Start, 0),
        (Request::state(5), Command::State, 5),
        (Request::config(6), Command::Config, 6),
        (Request::memory(7), Command::Memory, 7),
        (Request::memory_fd(8), Command::MemoryFd, 8),
        (Request::complete(), Command::Complete, 0),
        (Request::abandon(), Command::Abandon, 0),
        (Request::new(Command::Invalid, 9), Command::Invalid, 9),
    ];
    for (request, command, length) in requests {
        let mut bytes = Vec::new();
        request.write_to(&mut bytes);
        assert_eq!(bytes.len(), 16);
        let (read, count) = Request::read_from(&bytes).unwrap();
        assert_eq!(count, 16);
        assert_eq!(read.command(), command);
        assert_eq!(read.length(), length);
    }
}

#[test]
fn layout_of_a_header() {
    let mut bytes = Vec::new();
    Request::memory(0x0102_0304_0506_0708).write_to(&mut bytes);
    assert_eq!(bytes, [4, 0, 0, 0, 0, 0, 0, 0, 8, 7, 6, 5, 4, 3, 2, 1]);
}

#[test]
fn keep_alive_messages_are_skipped() {
    let mut bytes = Vec::new();
    Request::keep_alive().write_to(&mut bytes);
    Request::keep_alive().write_to(&mut bytes);
    Request::complete().write_to(&mut bytes);
    let (request, count) = Request::read_from(&bytes).unwrap();
    assert_eq!(request.command(), Command::Complete);
    assert_eq!(count, 48);

    let mut bytes = Vec::new();
    Response::keep_alive().write_to(&mut bytes);
    Response::ok().write_to(&mut bytes);
    let (response, count) = Response::read_from(&bytes).unwrap();
    assert_eq!(response.status(), Status::Okay);
    assert_eq!(response.length(), 0);
    assert_eq!(count, 32);
}

#[test]
fn incomplete_message_is_an_error() {
    let mut bytes = Vec::new();
    Request::keep_alive().write_to(&mut bytes);
    bytes.extend([1, 0, 0]);
    assert!(matches!(
        Request::read_from(&bytes),
        Err(MigratableError::MigrateSocket(SocketError::UnexpectedEof))
    ));
    assert!(matches!(
        Response::read_from(&[]),
        Err(MigratableError::MigrateSocket(SocketError::UnexpectedEof))
    ));
}

#[test]
fn unknown_code_is_an_error() {
    let mut bytes = [0u8; 16];
    bytes[0] = 9;
    assert!(matches!(
        Request::read_from(&bytes),
        Err(MigratableError::DeserializeError)
    ));
    bytes[0] = 4;
    assert!(matches!(
        Response::read_from(&bytes),
        Err(MigratableError::DeserializeError)
    ));
}

#[test]
fn codes_of_commands_and_status() {
    for code in 0..=8 {
        assert_eq!(Command::from_code(code).unwrap().code(), code);
    }
    assert!(Command::from_code(9).is_none());
    for code in 0..=3 {
        assert_eq!(Status::from_code(code).unwrap().code(), code);
    }
    assert!(Status::from_code(4).is_none());
    assert_eq!(Command::KeepAlive.code(), 8);
    assert_eq!(Status::Error.code(), 2);
}

#[test]
fn response_must_be_ok() {
    assert_eq!(
        Response::ok()
            .ok_or_error(MigratableError::MigrateSend)
            .unwrap()
            .status(),
        Status::Okay
    );
    assert!(matches!(
        Response::error().ok_or_error(MigratableError::MigrateReceive),
        Err(MigratableError::MigrateReceive)
    ));
}
