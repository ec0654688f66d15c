use client::session::{Action, Event, ReceivedMessage, Session, HELP};

fn w(s: &str) -> Action<String> {
    Action::Write(s.to_string())
}

fn line(s: &str) -> Event {
    Event::Line(s.to_string())
}

fn registered(name: &str) -> Session {
    let (s, _) = Session::new().step(line(&format!("register {name}")));
    s
}

fn in_group(group: &str) -> Session {
    let (s, _) = registered("alice").step(line(&format!("group {group}")));
    s
}

#[test]
fn help_is_forwarded_then_written() {
    let (s, acts) = Session::new().step(line("help"));
    assert_eq!(acts, vec![Action::Forward("help".to_string()), w(HELP), Action::Flush]);
    assert!(!s.is_finished());
    assert!(!s.has_client());
}

#[test]
fn blank_lines_are_not_forwarded() {
    let (_, acts) = Session::new().step(line(""));
    assert!(acts.is_empty());
    let (_, acts) = Session::new().step(line("   \t"));
    assert!(acts.is_empty());
    let (_, acts) = Session::new().step(line("\u{3000}\u{a0}\u{2028}"));
    assert!(acts.is_empty());
}

#[test]
fn other_lines_are_only_forwarded() {
    let (s, acts) = Session::new().step(line("hello agents"));
    assert_eq!(acts, vec![Action::Forward("hello agents".to_string())]);
    assert!(!s.has_client());
    let (_, acts) = Session::new().step(line(" help"));
    assert_eq!(acts, vec![Action::Forward(" help".to_string())]);
}

#[test]
fn register_makes_a_client() {
    let (s, acts) = Session::new().step(line("register alice"));
    assert_eq!(
        acts,
        vec![
            Action::Forward("register alice".to_string()),
            Action::CreateClient("alice".to_string()),
            Action::AddKeyPackage,
            Action::AddKeyPackage,
            Action::RegisterClient,
            w("registered new client alice\n\n"),
        ]
    );
    assert!(s.has_client());
}

#[test]
fn register_takes_the_rest_of_the_line() {
    let (_, acts) = Session::new().step(line("register as bot"));
    assert_eq!(acts[1], Action::CreateClient("as bot".to_string()));
}

#[test]
fn commands_need_a_client() {
    let (_, acts) = Session::new().step(line("create kp"));
    assert_eq!(
        acts,
        vec![Action::Forward("create kp".to_string()), w(" >>> No client to update :(\n\n"), Action::Flush]
    );
    let (_, acts) = Session::new().step(line("create group g"));
    assert_eq!(
        acts,
        vec![
            Action::Forward("create group g".to_string()),
            w(" >>> No client to create a group :(\n\n"),
            Action::Flush
        ]
    );
    let (_, acts) = Session::new().step(line("update"));
    assert_eq!(acts, vec![Action::Forward("update".to_string()), w(" >>> No client to update :(\n\n")]);
    let (s, acts) = Session::new().step(line("group g"));
    assert_eq!(
        acts,
        vec![Action::Forward("group g".to_string()), w(" >>> No client :(\n\n"), Action::Flush]
    );
    // Still at the top level: a group command is just forwarded.
    let (_, acts) = s.step(line("send hi"));
    assert_eq!(acts, vec![Action::Forward("send hi".to_string())]);
}

#[test]
fn key_packages_and_groups_with_a_client() {
    let (s, acts) = registered("alice").step(line("create kp"));
    assert_eq!(
        acts,
        vec![
            Action::Forward("create kp".to_string()),
            Action::CreateKeyPackage,
            w(" >>> New key package created\n\n"),
            Action::Flush
        ]
    );
    let (_, acts) = s.step(line("create group friends"));
    assert_eq!(
        acts,
        vec![
            Action::Forward("create group friends".to_string()),
            Action::CreateGroup("friends".to_string()),
            w(" >>> Created group friends :)\n\n"),
            Action::Flush
        ]
    );
}

#[test]
fn top_level_update_reports_messages() {
    let (s, acts) = registered("alice").step(line("update"));
    assert_eq!(acts, vec![Action::Forward("update".to_string()), Action::UpdateClient(None)]);
    // Lines are ignored while the update is pending.
    let (s, acts) = s.step(line("help"));
    assert!(acts.is_empty());
    let msgs = vec![
        ReceivedMessage { message: "hi".to_string(), author: "bob".to_string() },
        ReceivedMessage { message: "yo".to_string(), author: "carol".to_string() },
    ];
    let (s, acts) = s.step(Event::Updated(msgs));
    assert_eq!(
        acts,
        vec![
            w(" >>> Updated client :)\n"),
            Action::Flush,
            w("     New messages:\n\n"),
            Action::Flush,
            w("         hi from bob\n"),
            Action::Flush,
            w("         yo from carol\n"),
            Action::Flush,
            w("\n"),
        ]
    );
    // Back at the top level.
    let (_, acts) = s.step(line("help"));
    assert_eq!(acts[0], Action::Forward("help".to_string()));
}

#[test]
fn update_without_messages() {
    let (s, _) = registered("alice").step(line("update"));
    let (_, acts) = s.step(Event::Updated(vec![]));
    assert_eq!(acts, vec![w(" >>> Updated client :)\n"), Action::Flush, w("\n")]);
}

#[test]
fn entering_a_group_prompts() {
    let (_, acts) = registered("alice").step(line("group friends"));
    assert_eq!(
        acts,
        vec![Action::Forward("group friends".to_string()), w(" > "), Action::Flush]
    );
}

#[test]
fn group_lines_are_not_forwarded() {
    let (_, acts) = in_group("g").step(line("hello"));
    assert_eq!(acts, vec![w(" >>> Unknown group command :(\n\n"), Action::Flush, w(" > "), Action::Flush]);
}

#[test]
fn sending_to_a_group() {
    let (s, acts) = in_group("g").step(line("send hi there"));
    assert_eq!(
        acts,
        vec![Action::SendGroupMessage { message: "hi there".to_string(), group: "g".to_string() }]
    );
    let (s, acts) = s.step(Event::MessageSent(Ok(())));
    assert_eq!(acts, vec![w("sent message to g\n\n"), Action::Flush, w(" > "), Action::Flush]);
    let (s, _) = s.step(line("send again"));
    let (_, acts) = s.step(Event::MessageSent(Err("NoGroup".to_string())));
    assert_eq!(
        acts,
        vec![Action::Print("Error sending group message: NoGroup".to_string()), w(" > "), Action::Flush]
    );
}

#[test]
fn inviting_and_removing() {
    let (s, acts) = in_group("g").step(line("invite bob"));
    assert_eq!(
        acts,
        vec![
            Action::Invite { client: "bob".to_string(), group: "g".to_string() },
            w("added bob to group g\n\n"),
            Action::Flush,
            w(" > "),
            Action::Flush
        ]
    );
    let (_, acts) = s.step(line("remove bob"));
    assert_eq!(
        acts,
        vec![
            Action::Remove { client: "bob".to_string(), group: "g".to_string() },
            w("Removed bob from group g\n\n"),
            Action::Flush,
            w(" > "),
            Action::Flush
        ]
    );
}

#[test]
fn reading_a_group() {
    let (s, acts) = in_group("g").step(line("read"));
    assert_eq!(acts, vec![Action::ReadMessages("g".to_string())]);
    let (s, acts) = s.step(Event::MessagesRead(Some(12)));
    assert_eq!(acts, vec![w("g has received 12 messages\n\n"), Action::Flush, w(" > "), Action::Flush]);
    let (s, _) = s.step(line("read"));
    let (_, acts) = s.step(Event::MessagesRead(None));
    assert_eq!(acts, vec![w("g has no messages\n\n"), Action::Flush, w(" > "), Action::Flush]);
}

#[test]
fn group_update_prompts_after_the_report() {
    let (s, acts) = in_group("g").step(line("update"));
    assert_eq!(
        acts,
        vec![Action::Print("Updating client".to_string()), Action::UpdateClient(Some("g".to_string()))]
    );
    // An outcome of another operation is ignored.
    let (s, acts) = s.step(Event::MessagesRead(Some(1)));
    assert!(acts.is_empty());
    let (_, acts) = s.step(Event::Updated(vec![]));
    assert_eq!(
        acts,
        vec![w(" >>> Updated client :)\n"), Action::Flush, w("\n"), w(" > "), Action::Flush]
    );
}

#[test]
fn exit_leaves_the_group() {
    let (s, acts) = in_group("g").step(line("exit"));
    assert_eq!(acts, vec![w(" >>> Leaving group \n\n"), Action::Flush]);
    assert!(s.has_client());
    let (_, acts) = s.step(line("exit"));
    assert_eq!(acts, vec![Action::Forward("exit".to_string())]);
}

#[test]
fn end_of_input_inside_a_group_prompts_again() {
    let (s, acts) = in_group("g").step(Event::EndOfInput);
    assert_eq!(acts, vec![Action::Flush, w(" > "), Action::Flush]);
    assert!(!s.is_finished());
}

#[test]
fn end_of_input_ends_the_session() {
    let (s, acts) = registered("alice").step(Event::EndOfInput);
    assert!(acts.is_empty());
    assert!(s.is_finished());
    let (s, acts) = s.step(line("help"));
    assert!(acts.is_empty());
    assert!(s.is_finished());
}

#[test]
fn registering_again_replaces_the_client() {
    let (s, acts) = registered("alice").step(line("register bob"));
    assert_eq!(acts[1], Action::CreateClient("bob".to_string()));
    assert!(s.has_client());
}

#[test]
fn reset_drops_the_client() {
    let (s, acts) = registered("alice").step(line("reset"));
    assert_eq!(
        acts,
        vec![
            Action::Forward("reset".to_string()),
            Action::ResetServer,
            w(" >>> Reset server :)\n\n"),
            Action::Flush
        ]
    );
    assert!(!s.has_client());
    let (_, acts) = s.step(line("create kp"));
    assert_eq!(acts[1], w(" >>> No client to update :(\n\n"));
}

#[test]
fn reset_without_a_client() {
    let (s, acts) = Session::new().step(line("reset"));
    assert_eq!(acts[1], Action::ResetServer);
    assert!(!s.has_client());
}

#[test]
fn reset_inside_a_group_is_unknown() {
    let (_, acts) = in_group("g").step(line("reset"));
    assert_eq!(acts[0], w(" >>> Unknown group command :(\n\n"));
}

#[test]
fn a_whole_run_forwards_only_top_level_text() {
    let mut s = Session::new();
    let mut forwarded = Vec::new();
    for l in ["hi", "  ", "register bob", "group g", "send yo", "exit", "x"] {
        let (next, acts) = s.step(line(l));
        s = next;
        for a in acts {
            if let Action::Forward(t) = a {
                forwarded.push(t);
            }
        }
        if l == "send yo" {
            let (next, _) = s.step(Event::MessageSent(Ok(())));
            s = next;
        }
    }
    assert_eq!(forwarded, vec!["hi", "register bob", "group g", "x"]);
    let (s, _) = s.step(Event::EndOfInput);
    assert!(s.is_finished());
}

#[test]
fn load_makes_a_client_on_success() {
    let (s, acts) = Session::new().step(line("load alice"));
    assert_eq!(acts, vec![Action::Forward("load alice".to_string()), Action::LoadClient("alice".to_string())]);
    let (s2, acts) = Session::new().step(line("load alice")).0.step(Event::Loaded(Err("no file".to_string())));
    assert_eq!(acts, vec![w("Error recovering client alice : no file\n\n"), Action::Flush]);
    assert!(!s2.has_client());
    let (s, acts) = s.step(Event::Loaded(Ok(())));
    assert_eq!(acts, vec![w("recovered client alice\n\n"), Action::Flush]);
    assert!(s.has_client());
}

#[test]
fn save_and_autosave() {
    let (_, acts) = Session::new().step(line("save"));
    assert_eq!(acts, vec![Action::Forward("save".to_string()), w(" >>> No client to update :(\n\n"), Action::Flush]);
    let (s, acts) = registered("alice").step(line("save"));
    assert_eq!(acts, vec![Action::Forward("save".to_string()), Action::SaveClient]);
    let (s, acts) = s.step(Event::Identity("alice".to_string()));
    assert_eq!(acts, vec![w(" >>> client alice state saved\n\n"), Action::Flush]);
    let (s, acts) = s.step(line("autosave"));
    assert_eq!(acts, vec![Action::Forward("autosave".to_string()), Action::EnableAutoSave]);
    let (_, acts) = s.step(Event::Identity("alice".to_string()));
    assert_eq!(acts, vec![w(" >>> autosave enabled for client alice \n\n"), Action::Flush]);
}

#[test]
fn a_group_visit_lasts_until_exit() {
    let mut s = in_group("g");
    for l in ["send a", "read", "update", "exit"] {
        let (next, acts) = s.step(line(l));
        s = next;
        let outcome = match acts.last() {
            Some(Action::SendGroupMessage { .. }) => Some(Event::MessageSent(Ok(()))),
            Some(Action::ReadMessages(_)) => Some(Event::MessagesRead(None)),
            Some(Action::UpdateClient(_)) => Some(Event::Updated(vec![])),
            _ => None,
        };
        if let Some(e) = outcome {
            // Still inside the visit: an `exit` while waiting is ignored.
            let (waiting, ignored) = s.step(line("exit"));
            assert!(ignored.is_empty());
            let (next, _) = waiting.step(e);
            s = next;
        }
    }
    // Back at the top level with the client: a top-level line is forwarded.
    assert!(s.has_client());
    let (s, acts) = s.step(line("hi"));
    assert_eq!(acts, vec![Action::Forward("hi".to_string())]);
    let (s, _) = s.step(Event::EndOfInput);
    assert!(s.is_finished());
}
