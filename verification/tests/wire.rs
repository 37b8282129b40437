use snp::address::{format_host_port, format_ipv4, push_decimal};
use snp::text::{strict_text, text_or_replacement};
use snp::wire::{Command, ReaderStep, Request, RequestReader};

fn read_all(command: Command, bytes: &[u8]) -> Option<(Request, usize)> {
    let mut reader = RequestReader::new(command);
    let mut at = 0;
    loop {
        let count = reader.needed();
        if bytes.len() - at < count {
            return None;
        }
        let step = reader.feed(&bytes[at..at + count]);
        at += count;
        match step {
            ReaderStep::More(next) => reader = next,
            ReaderStep::Done(request) => return Some((request, at)),
            ReaderStep::Invalid(_) => return None,
        }
    }
}

#[test]
fn commands_have_their_bytes() {
    assert_eq!(Command::Forward.code(), 10);
    assert_eq!(Command::ReverseForward.code(), 20);
    assert_eq!(Command::ReverseSocks5.code(), 21);
    let mut code: u8 = 0;
    loop {
        let command = Command::from_code(code);
        match code {
            10 => assert_eq!(command, Some(Command::Forward)),
            20 => assert_eq!(command, Some(Command::ReverseForward)),
            21 => assert_eq!(command, Some(Command::ReverseSocks5)),
            _ => assert_eq!(command, None),
        }
        if code == 255 {
            break;
        }
        code += 1;
    }
}

#[test]
fn a_forward_request_has_these_bytes() {
    let request = Request::Forward { target: "a:1".to_string() };
    assert_eq!(request.encode(), vec![10, 0, 3, b'a', b':', b'1']);
}

#[test]
fn a_reverse_forward_request_has_both_addresses() {
    let request = Request::ReverseForward { bind: "b:2".to_string(), forward: "é".to_string() };
    assert_eq!(request.encode(), vec![20, 0, 3, b'b', b':', b'2', 0, 2, 0xc3, 0xa9]);
}

#[test]
fn a_reverse_socks5_request_has_one_address() {
    let request = Request::ReverseSocks5 { bind: "".to_string() };
    assert_eq!(request.encode(), vec![21, 0, 0]);
}

#[test]
fn requests_are_read_back() {
    let request = Request::Forward { target: "example.org:80".to_string() };
    let mut bytes = request.encode();
    bytes.extend_from_slice(b"rest");
    match read_all(Command::Forward, &bytes[1..]) {
        Some((Request::Forward { target }, used)) => {
            assert_eq!(target, "example.org:80");
            assert_eq!(&bytes[1 + used..], b"rest");
        }
        _ => panic!("not read back"),
    }

    let request = Request::ReverseForward { bind: "x".to_string(), forward: "y".to_string() };
    match read_all(Command::ReverseForward, &request.encode()[1..]) {
        Some((Request::ReverseForward { bind, forward }, _)) => {
            assert_eq!(bind, "x");
            assert_eq!(forward, "y");
        }
        _ => panic!("not read back"),
    }

    let request = Request::ReverseSocks5 { bind: "0.0.0.0:1080".to_string() };
    match read_all(Command::ReverseSocks5, &request.encode()[1..]) {
        Some((Request::ReverseSocks5 { bind }, _)) => assert_eq!(bind, "0.0.0.0:1080"),
        _ => panic!("not read back"),
    }
}

#[test]
fn the_longest_field_is_read_back() {
    let long = "x".repeat(65535);
    let bytes = Request::Forward { target: long.clone() }.encode();
    assert_eq!(&bytes[1..3], &[0xff, 0xff]);
    match read_all(Command::Forward, &bytes[1..]) {
        Some((Request::Forward { target }, used)) => {
            assert_eq!(target, long);
            assert_eq!(used, 65537);
        }
        _ => panic!("not read back"),
    }
}

#[test]
fn a_longer_field_loses_its_length() {
    let bytes = Request::Forward { target: "x".repeat(65536 + 2) }.encode();
    assert_eq!(bytes.len(), 3 + 65538);
    assert_eq!(&bytes[1..3], &[0, 2]);
    match read_all(Command::Forward, &bytes[1..]) {
        Some((Request::Forward { target }, used)) => {
            assert_eq!(target, "xx");
            assert_eq!(used, 4);
        }
        _ => panic!("not read"),
    }
}

#[test]
fn a_field_that_is_no_utf8_is_refused() {
    let reader = RequestReader::new(Command::Forward);
    assert_eq!(reader.needed(), 2);
    let reader = match reader.feed(&[0, 2]) {
        ReaderStep::More(reader) => reader,
        _ => panic!("the length is not the field"),
    };
    assert_eq!(reader.needed(), 2);
    match reader.feed(&[0xc3, 0x28]) {
        ReaderStep::Invalid(e) => assert_eq!(Err(e), std::str::from_utf8(&[0xc3, 0x28])),
        _ => panic!("the field is refused"),
    }
}

#[test]
fn strict_text_takes_only_utf8() {
    assert_eq!(strict_text(b"abc"), Ok("abc".to_string()));
    assert_eq!(strict_text("日本".as_bytes()), Ok("日本".to_string()));
    assert_eq!(strict_text(b""), Ok("".to_string()));
    match strict_text(&[b'a', 0xff]) {
        Err(e) => {
            assert_eq!(e.valid_up_to(), 1);
            assert_eq!(e.error_len(), Some(1));
        }
        Ok(_) => panic!("this is no UTF-8"),
    }
}

#[test]
fn other_text_gets_replacement_characters() {
    assert_eq!(text_or_replacement(b"abc"), "abc");
    assert_eq!(text_or_replacement(&[b'a', 0xff, b'b']), "a\u{fffd}b");
    assert_eq!(text_or_replacement(&[0xff; 10]).len(), 30);
}

#[test]
fn numbers_are_written_in_decimal() {
    let mut out = "n=".to_string();
    push_decimal(&mut out, 0);
    out.push(' ');
    push_decimal(&mut out, 9);
    out.push(' ');
    push_decimal(&mut out, 10);
    out.push(' ');
    push_decimal(&mut out, 65535);
    assert_eq!(out, "n=0 9 10 65535");
    let mut n: u16 = 0;
    loop {
        let mut text = String::new();
        push_decimal(&mut text, n);
        assert_eq!(text, n.to_string());
        assert_eq!(text.parse::<u16>(), Ok(n));
        if n == u16::MAX {
            break;
        }
        n += 1;
    }
}

#[test]
fn addresses_are_written_as_usual() {
    assert_eq!(format_ipv4(127, 0, 0, 1), "127.0.0.1");
    assert_eq!(format_ipv4(255, 255, 255, 255), "255.255.255.255");
    assert_eq!(format_host_port("localhost".to_string(), 8080), "localhost:8080");
}
