use neotron_pico_bios::multicore::Core1Launch;

#[test]
fn launch_sends_six_words() {
    let mut l = Core1Launch::new(0x1000_0100, 0x2004_0000, 0x1000_0201);
    let mut sent = Vec::new();
    while !l.is_done() {
        let (cmd, drain) = l.command();
        assert_eq!(drain, cmd == 0);
        sent.push(cmd);
        l.on_response(cmd);
    }
    assert_eq!(sent, vec![0, 0, 1, 0x1000_0100, 0x2004_0000, 0x1000_0201]);
}

#[test]
fn bad_echo_restarts_sequence() {
    let mut l = Core1Launch::new(7, 8, 9);
    l.on_response(0);
    l.on_response(0);
    l.on_response(1);
    assert_eq!(l.command(), (7, false));
    l.on_response(99);
    assert_eq!(l.next, 0);
    assert_eq!(l.command(), (0, true));
}
