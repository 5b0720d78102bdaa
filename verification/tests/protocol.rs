use libmoss::client::client::{reply_buffer, REPLY_CAPACITY};
use libmoss::client::resolve::Lookup;
use libmoss::prelude::{
    Action, ErrorKind, Event, MossClient, MossConfig, MossLanguage, Phase, Stage,
};

fn load(table: &[(&str, &str, Vec<u8>)], path: &str) -> Event {
    for (known, file_name, bytes) in table {
        if *known == path {
            return Event::FileLoaded { file_name: file_name.to_string(), bytes: bytes.clone() };
        }
    }
    Event::FileMissing
}

fn drive(
    client: &mut MossClient<()>,
    table: &[(&str, &str, Vec<u8>)],
    replies: &[&str],
) -> Vec<Action> {
    let mut transcript = Vec::new();
    let mut reads = 0;
    let mut event = Event::Connected;
    loop {
        let action = client.step(event);
        transcript.push(action.clone());
        event = match action {
            Action::SendText(_) | Action::SendBytes(_) => Event::Written,
            Action::ReadReply => {
                reads += 1;
                match replies.get(reads - 1) {
                    Some(text) => Event::Reply(text.to_string()),
                    None => Event::Failed,
                }
            }
            Action::LoadFile(path) => load(table, &path),
            Action::Finish(_) | Action::Fail(_) => return transcript,
        };
    }
}

fn shown(transcript: &[Action]) -> Vec<String> {
    transcript
        .iter()
        .map(|a| match a {
            Action::SendText(t) => format!("text:{}", t),
            Action::SendBytes(b) => format!("bytes:{}", String::from_utf8_lossy(b)),
            Action::ReadReply => "read".to_string(),
            Action::LoadFile(p) => format!("load:{}", p),
            Action::Finish(t) => format!("finish:{}", t),
            Action::Fail(e) => format!("fail:{:?}:{}", e.kind(), e.message()),
        })
        .collect()
}

fn sample_client() -> MossClient<()> {
    let mut cfg = MossConfig::new("123456789", ());
    cfg.set_comment("homework 1".to_string()).set_language(MossLanguage::C);
    assert!(cfg.add_base_lookup("dir/template.c", Lookup::Literal).is_ok());
    assert!(cfg.add_lookup("dir/a.c", Lookup::Literal).is_ok());
    assert!(cfg.add_lookup("dir/b.c", Lookup::Literal).is_ok());
    MossClient::from_config(cfg)
}

fn sample_files() -> Vec<(&'static str, &'static str, Vec<u8>)> {
    vec![
        ("dir/template.c", "template.c", b"0123456789".to_vec()),
        ("dir/a.c", "a.c", b"aaaaa".to_vec()),
        ("dir/b.c", "b.c", b"bbbbbbb".to_vec()),
    ]
}

#[test]
fn full_session_sends_the_frames_in_order() {
    let mut client = sample_client();
    let replies = ["yes\n", "http://moss.example/results/1\n"];
    let transcript = drive(&mut client, &sample_files(), &replies);
    assert_eq!(
        shown(&transcript),
        vec![
            "text:moss 123456789\n",
            "text:directory 0\n",
            "text:X 0\n",
            "text:maxmatches 10\n",
            "text:show 250\n",
            "text:language c\n",
            "read",
            "load:dir/template.c",
            "text:file 0 c 10 template.c\n",
            "bytes:0123456789",
            "load:dir/a.c",
            "text:file 1 c 5 a.c\n",
            "bytes:aaaaa",
            "load:dir/b.c",
            "text:file 2 c 7 b.c\n",
            "bytes:bbbbbbb",
            "text:query 0 homework 1\n",
            "read",
            "finish:http://moss.example/results/1\n",
        ]
    );
    assert_eq!(client.phase(), Phase::Done);
}

#[test]
fn rejected_handshake_sends_no_file_and_no_query() {
    let mut client = sample_client();
    let transcript = drive(&mut client, &sample_files(), &["no"]);
    let lines = shown(&transcript);
    assert_eq!(lines.len(), 8);
    assert_eq!(lines[6], "read");
    assert_eq!(lines[7], "fail:HandshakeRejected:Unsupported language: c");
    assert!(lines.iter().all(|l| !l.starts_with("text:file") && !l.starts_with("text:query")));
    assert!(lines.iter().all(|l| !l.starts_with("load:") && !l.starts_with("bytes:")));
    assert_eq!(client.phase(), Phase::Failed);
}

#[test]
fn handshake_replies_that_pass_and_that_do_not() {
    for reply in ["Yes", "YES ", "yes\n", "yes"] {
        let mut client = sample_client();
        let transcript = drive(&mut client, &sample_files(), &[reply, "url"]);
        assert!(matches!(transcript.last(), Some(Action::Finish(_))));
        assert_eq!(transcript.len(), 19);
    }
    for reply in ["no", "", "maybe"] {
        let mut client = sample_client();
        let transcript = drive(&mut client, &sample_files(), &[reply, "url"]);
        match transcript.last() {
            Some(Action::Fail(e)) => assert_eq!(e.kind(), ErrorKind::HandshakeRejected),
            other => panic!("unexpected end: {:?}", other),
        }
        assert_eq!(transcript.len(), 8);
    }
}

#[test]
fn options_show_in_the_handshake() {
    let mut cfg = MossConfig::new("77", ());
    cfg.set_use_directory_mode(true)
        .set_use_experimental_mode(true)
        .set_max_ignore_threshold(3)
        .set_max_matches_displayed(1000)
        .set_language(MossLanguage::JAVASCRIPT)
        .set_comment("c".to_string());
    let mut client = MossClient::from_config(cfg);
    let transcript = drive(&mut client, &[], &["yes", "done"]);
    assert_eq!(
        shown(&transcript),
        vec![
            "text:moss 77\n",
            "text:directory 1\n",
            "text:X 1\n",
            "text:maxmatches 3\n",
            "text:show 1000\n",
            "text:language javascript\n",
            "read",
            "text:query 0 c\n",
            "read",
            "finish:done",
        ]
    );
}

#[test]
fn declared_length_is_the_number_of_bytes_sent() {
    let sizes: [usize; 3] = [0, 1, 5000];
    for size in sizes {
        let bytes: Vec<u8> = (0..size).map(|i| (i % 251) as u8).collect();
        let mut cfg = MossConfig::new("1", ());
        assert!(cfg.add_lookup("f.bin", Lookup::Literal).is_ok());
        let mut client = MossClient::from_config(cfg);
        let table = vec![("f.bin", "f.bin", bytes.clone())];
        let transcript = drive(&mut client, &table, &["yes", "ok"]);
        match (&transcript[8], &transcript[9]) {
            (Action::SendText(line), Action::SendBytes(sent)) => {
                assert_eq!(line, &format!("file 1 c {} f.bin\n", size));
                assert_eq!(sent.len(), size);
                assert_eq!(sent, &bytes);
            }
            other => panic!("unexpected actions: {:?}", other),
        }
    }
}

#[test]
fn spaces_in_file_names_become_underscores() {
    let mut cfg = MossConfig::new("1", ());
    assert!(cfg.add_base_lookup("d/my base.c", Lookup::Literal).is_ok());
    assert!(cfg.add_lookup("d/my file 1.c", Lookup::Literal).is_ok());
    let mut client = MossClient::from_config(cfg);
    let table = vec![
        ("d/my base.c", "my base.c", b"x".to_vec()),
        ("d/my file 1.c", "my file 1.c", b"yz".to_vec()),
    ];
    let lines = shown(&drive(&mut client, &table, &["yes", "ok"]));
    assert_eq!(lines[8], "text:file 0 c 1 my_base.c\n");
    assert_eq!(lines[11], "text:file 1 c 2 my_file_1.c\n");
}

#[test]
fn base_files_all_have_index_zero() {
    let mut cfg = MossConfig::new("1", ());
    for path in ["b1", "b2", "b3"] {
        assert!(cfg.add_base_lookup(path, Lookup::Literal).is_ok());
    }
    for path in ["s1", "s2", "s3", "s4"] {
        assert!(cfg.add_lookup(path, Lookup::Literal).is_ok());
    }
    let mut client = MossClient::from_config(cfg);
    let table: Vec<(&str, &str, Vec<u8>)> = ["b1", "b2", "b3", "s1", "s2", "s3", "s4"]
        .iter()
        .map(|p| (*p, *p, Vec::new()))
        .collect();
    let lines = shown(&drive(&mut client, &table, &["yes", "ok"]));
    let announced: Vec<&String> = lines.iter().filter(|l| l.starts_with("text:file")).collect();
    assert_eq!(
        announced,
        vec![
            "text:file 0 c 0 b1\n",
            "text:file 0 c 0 b2\n",
            "text:file 0 c 0 b3\n",
            "text:file 1 c 0 s1\n",
            "text:file 2 c 0 s2\n",
            "text:file 3 c 0 s3\n",
            "text:file 4 c 0 s4\n",
        ]
    );
}

#[test]
fn missing_file_aborts_the_upload() {
    let mut client = sample_client();
    let mut table = sample_files();
    table.remove(1);
    let lines = shown(&drive(&mut client, &table, &["yes", "ok"]));
    assert_eq!(lines.last().unwrap(), "fail:FileAccess:File does not exist: dir/a.c");
    assert_eq!(lines.len(), 12);
    assert_eq!(client.phase(), Phase::Failed);
}

#[test]
fn connection_failure_sends_nothing() {
    let mut client = sample_client();
    match client.step(Event::Failed) {
        Action::Fail(e) => {
            assert_eq!(e.kind(), ErrorKind::Connection);
            assert_eq!(e.message(), "Unable to connect to the server");
        }
        other => panic!("unexpected action: {:?}", other),
    }
    assert_eq!(client.phase(), Phase::Failed);
}

#[test]
fn write_failures_name_the_phase() {
    let messages = [
        "Could not authenticate with Moss",
        "Error sending directory information to Moss server",
        "Error sending experimental information to Moss server",
        "Error sending match information to Moss server",
        "Error sending display information to Moss server",
        "Error sending language information to Moss server",
    ];
    for (line, message) in messages.iter().enumerate() {
        let mut client = sample_client();
        let mut action = client.step(Event::Connected);
        for _ in 0..line {
            assert!(matches!(action, Action::SendText(_)));
            action = client.step(Event::Written);
        }
        assert_eq!(client.phase(), Phase::Handshake { line });
        assert!(matches!(action, Action::SendText(_)));
        match client.step(Event::Failed) {
            Action::Fail(e) => {
                assert_eq!(e.kind(), ErrorKind::ProtocolWrite);
                assert_eq!(e.message(), *message);
            }
            other => panic!("unexpected action: {:?}", other),
        }
    }
}

fn client_after_handshake() -> MossClient<()> {
    let mut client = sample_client();
    let mut action = client.step(Event::Connected);
    while matches!(action, Action::SendText(_)) {
        action = client.step(Event::Written);
    }
    assert!(matches!(action, Action::ReadReply));
    assert_eq!(client.phase(), Phase::HandshakeSent);
    client
}

#[test]
fn read_failure_after_the_handshake() {
    let mut client = client_after_handshake();
    match client.step(Event::Failed) {
        Action::Fail(e) => {
            assert_eq!(e.kind(), ErrorKind::ProtocolRead);
            assert_eq!(e.message(), "Unable to recieve server's header response");
        }
        other => panic!("unexpected action: {:?}", other),
    }
}

#[test]
fn failed_result_read_gives_an_error_and_no_text() {
    let mut client = MossClient::new((), "1");
    let mut action = client.step(Event::Connected);
    while matches!(action, Action::SendText(_)) {
        action = client.step(Event::Written);
    }
    assert!(matches!(client.step(Event::Reply("yes".to_string())), Action::SendText(_)));
    assert_eq!(client.phase(), Phase::QuerySent);
    assert!(matches!(client.step(Event::Written), Action::ReadReply));
    assert_eq!(client.phase(), Phase::AwaitingResult);
    match client.step(Event::Failed) {
        Action::Fail(e) => {
            assert_eq!(e.kind(), ErrorKind::ProtocolRead);
            assert_eq!(e.message(), "Unable to read Url from server");
        }
        other => panic!("unexpected action: {:?}", other),
    }
    assert_eq!(client.phase(), Phase::Failed);
    assert!(client.phase().is_finished());
}

#[test]
fn any_event_but_a_reply_fails_a_read() {
    let events = [Event::Failed, Event::Written, Event::Connected, Event::FileMissing];
    for event in events {
        let mut client = client_after_handshake();
        match client.step(event) {
            Action::Fail(e) => assert_eq!(e.kind(), ErrorKind::ProtocolRead),
            other => panic!("unexpected action: {:?}", other),
        }
    }
}

#[test]
fn reply_counts_only_as_far_as_one_read_reaches() {
    let mut long = vec![b'a'; 600];
    long[0] = b'y';
    match Event::reply(&long) {
        Event::Reply(text) => {
            assert_eq!(text.len(), REPLY_CAPACITY);
            assert!(text.starts_with("ya"));
        }
        other => panic!("unexpected event: {:?}", other),
    }
    match Event::reply(&long[..512]) {
        Event::Reply(text) => assert_eq!(text.len(), 512),
        other => panic!("unexpected event: {:?}", other),
    }
    match Event::reply(b"") {
        Event::Reply(text) => assert_eq!(text, ""),
        other => panic!("unexpected event: {:?}", other),
    }
}

#[test]
fn file_failures_have_their_kinds() {
    let cases = [
        (Event::FileMissing, ErrorKind::FileAccess, "File does not exist: dir/template.c"),
        (Event::FileUnopenable, ErrorKind::FileAccess, "Could not open file"),
        (Event::FileUnreadable, ErrorKind::FileAccess, "Could not read data from file"),
        (Event::FileNameInvalid, ErrorKind::Encoding, "Invalid / Non UTF-8 file name"),
    ];
    for (event, kind, message) in cases {
        let mut client = client_after_handshake();
        assert!(matches!(client.step(Event::Reply("yes".to_string())), Action::LoadFile(_)));
        assert_eq!(
            client.phase(),
            Phase::BaseFilesUploading { position: 0, stage: Stage::Loading }
        );
        match client.step(event) {
            Action::Fail(e) => {
                assert_eq!(e.kind(), kind);
                assert_eq!(e.message(), message);
            }
            other => panic!("unexpected action: {:?}", other),
        }
    }
}

#[test]
fn failed_write_of_a_file_or_the_query() {
    let mut client = client_after_handshake();
    assert!(matches!(client.step(Event::Reply("yes".to_string())), Action::LoadFile(_)));
    let loaded = Event::FileLoaded { file_name: "template.c".to_string(), bytes: vec![1, 2, 3] };
    assert!(matches!(client.step(loaded), Action::SendText(_)));
    assert!(matches!(client.step(Event::Written), Action::SendBytes(_)));
    match client.step(Event::Failed) {
        Action::Fail(e) => {
            assert_eq!(e.kind(), ErrorKind::ProtocolWrite);
            assert_eq!(e.message(), "Unable to write file description");
        }
        other => panic!("unexpected action: {:?}", other),
    }
    let mut client = MossClient::new((), "1");
    let mut action = client.step(Event::Connected);
    while matches!(action, Action::SendText(_)) {
        action = client.step(Event::Written);
    }
    assert!(matches!(client.step(Event::Reply("yes".to_string())), Action::SendText(_)));
    match client.step(Event::Failed) {
        Action::Fail(e) => {
            assert_eq!(e.kind(), ErrorKind::ProtocolWrite);
            assert_eq!(e.message(), "Could not send query to server");
        }
        other => panic!("unexpected action: {:?}", other),
    }
}

#[test]
fn finished_client_asks_for_nothing_more() {
    let mut client = sample_client();
    drive(&mut client, &sample_files(), &["yes", "url"]);
    assert_eq!(client.phase(), Phase::Done);
    assert!(matches!(client.step(Event::Written), Action::Fail(_)));
    assert_eq!(client.phase(), Phase::Done);
    let mut client = sample_client();
    drive(&mut client, &sample_files(), &["no"]);
    assert!(matches!(client.step(Event::Connected), Action::Fail(_)));
    assert_eq!(client.phase(), Phase::Failed);
}

#[test]
fn reply_bytes_are_decoded_with_replacement() {
    match Event::reply(b"yes\n") {
        Event::Reply(text) => assert_eq!(text, "yes\n"),
        other => panic!("unexpected event: {:?}", other),
    }
    match Event::reply(&[b'o', 0xff, b'k']) {
        Event::Reply(text) => assert_eq!(text, "o\u{fffd}k"),
        other => panic!("unexpected event: {:?}", other),
    }
}

#[test]
fn short_reply_in_a_full_buffer_is_accepted() {
    let mut buffer = reply_buffer();
    assert_eq!(buffer.len(), REPLY_CAPACITY);
    assert_eq!(buffer.len(), 512);
    assert!(buffer.iter().all(|b| *b == 32));
    buffer[..4].copy_from_slice(b"yes\n");
    let mut client = client_after_handshake();
    assert!(matches!(client.step(Event::reply(&buffer)), Action::LoadFile(_)));
}

#[test]
fn result_is_handed_out_as_read() {
    let mut buffer = reply_buffer();
    buffer[..9].copy_from_slice(b"http://x\n");
    let mut client = MossClient::new((), "1");
    let mut action = client.step(Event::Connected);
    while matches!(action, Action::SendText(_)) {
        action = client.step(Event::Written);
    }
    assert!(matches!(client.step(Event::Reply("yes".to_string())), Action::SendText(_)));
    assert!(matches!(client.step(Event::Written), Action::ReadReply));
    match client.step(Event::reply(&buffer)) {
        Action::Finish(text) => {
            assert_eq!(text.len(), 512);
            assert_eq!(text.trim(), "http://x");
        }
        other => panic!("unexpected action: {:?}", other),
    }
}

#[test]
fn client_adds_files_before_sending() {
    let mut client = MossClient::new((), "1");
    assert!(client.add_base_file("/").is_ok());
    assert!(client.add_file("/").is_ok());
    assert!(client.add_file("/no-such-directory-for-this-test/*.c").is_ok());
    let e = client.add_file("$MOSS_TEST_UNDEFINED/x").unwrap_err();
    assert_eq!(e.kind(), ErrorKind::PathResolution);
    assert_eq!(e.message(), "Unable to expand variable in path: MOSS_TEST_UNDEFINED");
    let e = client.add_base_file("/no-such-directory-for-this-test/abc[def").unwrap_err();
    assert_eq!(e.kind(), ErrorKind::PathResolution);
    assert!(e.message().starts_with("Invalid glob pattern passed: "));
    assert_eq!(client.config().base_files(), &vec!["/"]);
    assert_eq!(client.config().submission_files(), &vec!["/"]);
    assert_eq!(client.phase(), Phase::Connected);
}
