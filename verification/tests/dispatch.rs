use hackchat::client::{classify, Delivery, Event, HackChat, Kind};
use hackchat::frame::{read_frame, Frame, FrameError};
use hackchat::registry::Category;

fn client(nick: &str, channel: &str) -> HackChat {
    HackChat::new(nick.to_string(), channel.to_string()).unwrap()
}

fn list(names: &[&str]) -> Vec<String> {
    names.iter().map(|n| n.to_string()).collect()
}

fn some(text: &str) -> Option<String> {
    Some(text.to_string())
}

fn bare(cmd: &str) -> Frame {
    Frame {
        cmd: some(cmd),
        nick: None,
        text: None,
        from: None,
        kind: None,
        nicks: None,
        raw: String::new(),
    }
}

fn silent() -> Delivery {
    Delivery { event: None, observers: Vec::new() }
}

#[test]
fn end_to_end_session() {
    let mut c = client("alice", "lobby");
    let joined: serde_json::Value = serde_json::from_str(&c.join()).unwrap();
    let expected: serde_json::Value =
        serde_json::from_str(r#"{"cmd":"join","channel":"lobby","nick":"alice"}"#).unwrap();
    assert_eq!(joined, expected);

    let on_join = c.subscribe(Category::Join);
    let on_message = c.subscribe(Category::Message);
    let on_leave = c.subscribe(Category::Leave);
    let on_whisper = c.subscribe(Category::Whisper);

    let added = c.receive(r#"{"cmd":"onlineAdd","nick":"bob"}"#).unwrap();
    assert_eq!(c.online_users(), &list(&["bob"]));
    assert_eq!(added.event, Some(Event::Join { nick: "bob".to_string() }));
    assert_eq!(added.observers, vec![on_join]);

    let said = c.receive(r#"{"cmd":"chat","nick":"bob","text":"hi"}"#).unwrap();
    assert_eq!(
        said.event,
        Some(Event::Message { text: "hi".to_string(), nick: "bob".to_string() })
    );
    assert_eq!(said.observers, vec![on_message]);

    let left = c.receive(r#"{"cmd":"onlineRemove","nick":"bob"}"#).unwrap();
    assert_eq!(c.online_users(), &list(&[]));
    assert_eq!(left.event, Some(Event::Leave { nick: "bob".to_string() }));
    assert_eq!(left.observers, vec![on_leave]);

    let raw = r#"{"cmd":"info","type":"whisper","from":"carol","text":"psst"}"#;
    let whispered = c.receive(raw).unwrap();
    assert_eq!(
        whispered.event,
        Some(Event::Whisper {
            text: "psst".to_string(),
            from: "carol".to_string(),
            raw: raw.to_string(),
        })
    );
    assert_eq!(whispered.observers, vec![on_whisper]);
}

#[test]
fn roster_replays_joins_and_leaves_in_order() {
    let mut c = client("alice", "lobby");
    let texts = list(&[
        r#"{"cmd":"onlineAdd","nick":"a"}"#,
        r#"{"cmd":"onlineAdd","nick":"b"}"#,
        r#"{"cmd":"onlineAdd","nick":"a"}"#,
        r#"{"cmd":"onlineRemove","nick":"z"}"#,
        r#"{"cmd":"onlineAdd","nick":"c"}"#,
        r#"{"cmd":"onlineRemove","nick":"a"}"#,
        r#"{"cmd":"onlineRemove","nick":"c"}"#,
        r#"{"cmd":"onlineAdd","nick":"d"}"#,
    ]);
    let results = c.run(&texts);
    assert_eq!(results.len(), 8);
    assert!(results.iter().all(|r| r.is_ok()));
    assert_eq!(c.online_users(), &list(&["b", "a", "d"]));
}

#[test]
fn snapshot_replaces_the_roster() {
    let mut c = client("alice", "lobby");
    c.receive(r#"{"cmd":"onlineAdd","nick":"x"}"#).unwrap();
    c.receive(r#"{"cmd":"onlineAdd","nick":"y"}"#).unwrap();
    let id = c.subscribe(Category::Join);
    let set = c.receive(r#"{"cmd":"onlineSet","nicks":["a","b","c"]}"#).unwrap();
    assert_eq!(c.online_users(), &list(&["a", "b", "c"]));
    assert_eq!(set, silent());
    let again = c.receive(r#"{"cmd":"onlineSet","nicks":[]}"#).unwrap();
    assert_eq!(c.online_users(), &list(&[]));
    assert_eq!(again, silent());
    assert_eq!(id, 0);
}

#[test]
fn own_chat_is_not_delivered() {
    let mut c = client("alice", "lobby");
    c.subscribe(Category::Message);
    let own = c.receive(r#"{"cmd":"chat","nick":"alice","text":"hi"}"#).unwrap();
    assert_eq!(own, silent());
    c.change_nick("bob").unwrap();
    let now_own = c.receive(r#"{"cmd":"chat","nick":"bob","text":"hi"}"#).unwrap();
    assert_eq!(now_own, silent());
    let other = c.receive(r#"{"cmd":"chat","nick":"alice","text":"hi"}"#).unwrap();
    assert_eq!(other.observers, vec![0]);
    assert_eq!(
        other.event,
        Some(Event::Message { text: "hi".to_string(), nick: "alice".to_string() })
    );
}

#[test]
fn malformed_frame_is_reported_and_the_next_is_dispatched() {
    let mut c = client("alice", "lobby");
    let id = c.subscribe(Category::Join);
    let texts = list(&[
        r#"{"cmd":"chat"}"#,
        "not json at all",
        r#"{"cmd":"onlineAdd","nick":"bob"}"#,
    ]);
    let results = c.run(&texts);
    assert_eq!(results[0], Err(FrameError::MissingField));
    assert_eq!(results[1], Err(FrameError::InvalidJson));
    assert_eq!(
        results[2],
        Ok(Delivery { event: Some(Event::Join { nick: "bob".to_string() }), observers: vec![id] })
    );
    assert_eq!(c.online_users(), &list(&["bob"]));
}

#[test]
fn text_that_is_no_object_is_invalid() {
    let mut c = client("alice", "lobby");
    assert_eq!(c.receive(""), Err(FrameError::InvalidJson));
    assert_eq!(c.receive("[1,2]"), Err(FrameError::InvalidJson));
    assert_eq!(c.receive("null"), Err(FrameError::InvalidJson));
    assert_eq!(c.receive("{} {}"), Err(FrameError::InvalidJson));
    assert_eq!(c.receive("\"chat\""), Err(FrameError::InvalidJson));
    assert_eq!(c.receive(r#"{"cmd":"chat""#), Err(FrameError::InvalidJson));
    assert!(c.online_users().is_empty());
}

#[test]
fn each_command_requires_its_members() {
    let mut c = client("alice", "lobby");
    c.receive(r#"{"cmd":"onlineAdd","nick":"bob"}"#).unwrap();
    let incomplete = [
        r#"{"cmd":"chat","nick":"bob"}"#,
        r#"{"cmd":"chat","text":"hi"}"#,
        r#"{"cmd":"chat","nick":"alice"}"#,
        r#"{"cmd":"chat","nick":7,"text":"hi"}"#,
        r#"{"cmd":"onlineAdd"}"#,
        r#"{"cmd":"onlineAdd","nick":null}"#,
        r#"{"cmd":"onlineRemove"}"#,
        r#"{"cmd":"onlineSet"}"#,
        r#"{"cmd":"onlineSet","nicks":"bob"}"#,
        r#"{"cmd":"onlineSet","nicks":["a",1]}"#,
        r#"{"cmd":"info","type":"whisper","from":"carol"}"#,
        r#"{"cmd":"info","type":"whisper","text":"psst"}"#,
    ];
    for text in incomplete {
        assert_eq!(c.receive(text), Err(FrameError::MissingField));
        assert_eq!(c.online_users(), &list(&["bob"]));
    }
}

#[test]
fn other_frames_are_ignored() {
    let mut c = client("alice", "lobby");
    c.subscribe(Category::Message);
    c.subscribe(Category::Whisper);
    c.receive(r#"{"cmd":"onlineAdd","nick":"bob"}"#).unwrap();
    let ignored = [
        r#"{}"#,
        r#"{"nick":"bob","text":"hi"}"#,
        r#"{"cmd":"warn","text":"slow down"}"#,
        r#"{"cmd":7}"#,
        r#"{"cmd":"info","text":"bob joined"}"#,
        r#"{"cmd":"info","type":"notice","from":"carol","text":"psst"}"#,
        r#"{"cmd":"Chat","nick":"bob","text":"hi"}"#,
    ];
    for text in ignored {
        assert_eq!(c.receive(text), Ok(silent()));
        assert_eq!(c.online_users(), &list(&["bob"]));
    }
}

#[test]
fn every_subscriber_of_the_category_is_named_in_order() {
    let mut c = client("alice", "lobby");
    let first = c.subscribe(Category::Message);
    let join = c.subscribe(Category::Join);
    let second = c.subscribe(Category::Message);
    let third = c.subscribe(Category::Message);
    assert!(c.unsubscribe(second));
    assert!(!c.unsubscribe(second));
    assert!(!c.unsubscribe(99));
    let said = c.receive(r#"{"cmd":"chat","nick":"bob","text":"hi"}"#).unwrap();
    assert_eq!(said.observers, vec![first, third]);
    let added = c.receive(r#"{"cmd":"onlineAdd","nick":"bob"}"#).unwrap();
    assert_eq!(added.observers, vec![join]);
    let left = c.receive(r#"{"cmd":"onlineRemove","nick":"nobody"}"#).unwrap();
    assert_eq!(left.event, Some(Event::Leave { nick: "nobody".to_string() }));
    assert_eq!(left.observers, Vec::<usize>::new());
    assert_eq!(c.online_users(), &list(&["bob"]));
}

#[test]
fn read_frame_takes_the_members_the_dispatcher_reads() {
    let raw = r#"{"cmd":"info","type":"whisper","from":"carol","text":"psst","nick":"n","nicks":["a","b"],"trip":"x"}"#;
    let frame = read_frame(raw).unwrap();
    assert_eq!(
        frame,
        Frame {
            cmd: some("info"),
            nick: some("n"),
            text: some("psst"),
            from: some("carol"),
            kind: some("whisper"),
            nicks: Some(list(&["a", "b"])),
            raw: raw.to_string(),
        }
    );
}

#[test]
fn read_frame_drops_members_of_another_type() {
    let raw = r#"{"cmd":["chat"],"nick":1,"text":null,"from":{},"type":true,"nicks":["a",2]}"#;
    let frame = read_frame(raw).unwrap();
    assert_eq!(
        frame,
        Frame {
            cmd: None,
            nick: None,
            text: None,
            from: None,
            kind: None,
            nicks: None,
            raw: raw.to_string(),
        }
    );
    assert_eq!(read_frame("nope").err(), Some(FrameError::InvalidJson));
}

#[test]
fn classify_goes_by_cmd_and_type() {
    assert_eq!(classify(&bare("chat")), Kind::Chat);
    assert_eq!(classify(&bare("onlineAdd")), Kind::OnlineAdd);
    assert_eq!(classify(&bare("onlineRemove")), Kind::OnlineRemove);
    assert_eq!(classify(&bare("onlineSet")), Kind::OnlineSet);
    assert_eq!(classify(&bare("info")), Kind::Other);
    assert_eq!(classify(&bare("ping")), Kind::Other);
    let mut whisper = bare("info");
    whisper.kind = some("whisper");
    assert_eq!(classify(&whisper), Kind::Whisper);
    let mut nameless = bare("chat");
    nameless.cmd = None;
    assert_eq!(classify(&nameless), Kind::Other);
}

#[test]
fn dispatch_works_on_plain_frames() {
    let mut c = client("alice", "lobby");
    let id = c.subscribe(Category::Whisper);
    let mut set = bare("onlineSet");
    set.nicks = Some(list(&["a", "b", "c"]));
    assert_eq!(c.dispatch(set), Ok(silent()));
    assert_eq!(c.online_users(), &list(&["a", "b", "c"]));

    let mut whisper = bare("info");
    whisper.kind = some("whisper");
    whisper.from = some("carol");
    whisper.text = some("psst");
    whisper.raw = "the frame".to_string();
    assert_eq!(
        c.dispatch(whisper),
        Ok(Delivery {
            event: Some(Event::Whisper {
                text: "psst".to_string(),
                from: "carol".to_string(),
                raw: "the frame".to_string(),
            }),
            observers: vec![id],
        })
    );
    assert_eq!(c.dispatch(bare("onlineSet")), Err(FrameError::MissingField));
    assert_eq!(c.online_users(), &list(&["a", "b", "c"]));
}

#[test]
fn run_of_nothing_changes_nothing() {
    let mut c = client("alice", "lobby");
    assert!(c.run(&Vec::new()).is_empty());
    assert!(c.online_users().is_empty());
}
