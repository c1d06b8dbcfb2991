use netbuf::Buf;
use stream_machine::Transport;

#[test]
fn test_transport() {
    let mut inbuf = Buf::new();
    inbuf.extend(b"spam");
    let outbuf = Buf::new();
    let mut transport = Transport::new(inbuf, outbuf);
    let transport_input = transport.input();
    transport_input.extend(b"foobar");
    transport_input.consume(7);
    assert_eq!(&transport.input()[..], b"bar");
}

#[test]
fn output_round_trip() {
    // Bytes appended through output() come back unchanged from a buffer
    // read, independent of any socket.
    let mut transport = Transport::new(Buf::new(), Buf::new());
    transport.output().extend(b"hello world");
    assert_eq!(&transport.output()[..], b"hello world");
}

#[test]
fn output_round_trip_behind_existing_bytes() {
    let mut held = Buf::new();
    held.extend(b"abc");
    let mut transport = Transport::new(Buf::new(), held);
    transport.output().extend(b"xyz");
    assert_eq!(&transport.output()[3..], b"xyz");
    assert_eq!(&transport.output()[..], b"abcxyz");
}

#[test]
fn input_and_output_are_independent() {
    let mut transport = Transport::new(Buf::new(), Buf::new());
    transport.input().extend(b"in");
    transport.output().extend(b"out");
    assert_eq!(&transport.input()[..], b"in");
    assert_eq!(&transport.output()[..], b"out");
}
