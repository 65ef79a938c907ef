use modal_values::event::{Action, Event, SubmittedField};
use modal_values::handler::Handler;
use modal_values::kind::SelectMenuKind;

fn handler() -> Handler {
    Handler { channel_id: 123 }
}

fn submission(channel_id: u64, custom_id: &str, values: Vec<&str>) -> Event {
    Event::ModalSubmit {
        channel_id,
        custom_id: custom_id.to_string(),
        fields: vec![SubmittedField {
            field_id: "example_select_menu".to_string(),
            values: values.into_iter().map(|v| v.to_string()).collect(),
        }],
    }
}

#[test]
fn ready_sends_intro_message() {
    let action = handler().dispatch(&Event::Ready);
    match action {
        Action::SendMessage { channel_id, content, buttons } => {
            assert_eq!(channel_id, 123);
            assert_eq!(content, "## Modal Values MRE\n\n Click the button below!");
            let ids: Vec<&str> = buttons.iter().map(|b| b.custom_id.as_str()).collect();
            assert_eq!(ids, vec!["string", "user", "role", "mentionable", "channel"]);
            for b in &buttons {
                assert_eq!(b.label, b.custom_id);
            }
        }
        other => panic!("expected the introductory message, got {:?}", other),
    }
}

#[test]
fn foreign_channel_component_ignored() {
    let event = Event::Component { channel_id: 99, custom_id: "role".to_string() };
    assert_eq!(handler().dispatch(&event), Action::Ignore);
}

#[test]
fn unrecognized_custom_id_ignored() {
    let event = Event::Component { channel_id: 123, custom_id: "not-a-real-id".to_string() };
    assert_eq!(handler().dispatch(&event), Action::Ignore);
}

#[test]
fn each_trigger_opens_matching_modal() {
    let cases = vec![
        ("string", SelectMenuKind::String),
        ("user", SelectMenuKind::User),
        ("role", SelectMenuKind::Role),
        ("mentionable", SelectMenuKind::Mentionable),
        ("channel", SelectMenuKind::Channel),
    ];
    for (id, kind) in cases {
        let event = Event::Component { channel_id: 123, custom_id: id.to_string() };
        match handler().dispatch(&event) {
            Action::ShowModal { modal } => {
                assert_eq!(modal.kind, kind);
                assert_eq!(modal.custom_id, "example_modal");
                assert_eq!(modal.title, "Example Modal");
                assert_eq!(modal.field_label, "Select Menu");
                assert_eq!(modal.menu_custom_id, "example_select_menu");
                if kind == SelectMenuKind::String {
                    let pairs: Vec<(&str, &str)> = modal
                        .options
                        .iter()
                        .map(|o| (o.label.as_str(), o.value.as_str()))
                        .collect();
                    assert_eq!(pairs, vec![("Option 1", "option-1"), ("Option 2", "option-2")]);
                } else {
                    assert!(modal.options.is_empty());
                }
            }
            other => panic!("expected a modal for {:?}, got {:?}", id, other),
        }
    }
}

#[test]
fn matching_submission_renders_privately() {
    let event = submission(123, "example_modal", vec!["option-1"]);
    match handler().dispatch(&event) {
        Action::RespondPrivate { content } => {
            assert_eq!(
                content,
                "## `interaction.data`\n```\n{\n  \"example_select_menu\": [\n    \"option-1\"\n  ]\n}\n```"
            );
        }
        other => panic!("expected a private response, got {:?}", other),
    }
}

#[test]
fn submission_from_foreign_channel_ignored() {
    let event = submission(99, "example_modal", vec!["option-1"]);
    assert_eq!(handler().dispatch(&event), Action::Ignore);
}

#[test]
fn submission_under_other_id_ignored() {
    let event = submission(123, "some_other_modal", vec!["option-1"]);
    assert_eq!(handler().dispatch(&event), Action::Ignore);
}

#[test]
fn replayed_submission_gets_identical_responses() {
    let event = submission(123, "example_modal", vec!["option-2"]);
    let h = handler();
    let first = h.dispatch(&event);
    let second = h.dispatch(&event);
    assert_eq!(first, second);
    match (first, second) {
        (Action::RespondPrivate { content: a }, Action::RespondPrivate { content: b }) => {
            assert_eq!(a, b);
        }
        other => panic!("expected two private responses, got {:?}", other),
    }
}

#[test]
fn other_events_ignored() {
    assert_eq!(handler().dispatch(&Event::Other), Action::Ignore);
}

#[test]
fn end_to_end_role_flow() {
    let h = handler();

    let ready = h.dispatch(&Event::Ready);
    let buttons = match ready {
        Action::SendMessage { channel_id, buttons, .. } => {
            assert_eq!(channel_id, 123);
            assert_eq!(buttons.len(), 5);
            buttons
        }
        other => panic!("expected the introductory message, got {:?}", other),
    };

    let role_button = buttons.iter().find(|b| b.custom_id == "role").unwrap();
    let click = Event::Component { channel_id: 123, custom_id: role_button.custom_id.clone() };
    let modal = match h.dispatch(&click) {
        Action::ShowModal { modal } => {
            assert_eq!(modal.kind, SelectMenuKind::Role);
            assert!(modal.options.is_empty());
            modal
        }
        other => panic!("expected a role modal, got {:?}", other),
    };

    let submit = Event::ModalSubmit {
        channel_id: 123,
        custom_id: modal.custom_id.clone(),
        fields: vec![SubmittedField {
            field_id: modal.menu_custom_id.clone(),
            values: vec!["role-456".to_string()],
        }],
    };
    match h.dispatch(&submit) {
        Action::RespondPrivate { content } => {
            assert!(content.contains("\"role-456\""));
            assert_eq!(
                content,
                "## `interaction.data`\n```\n{\n  \"example_select_menu\": [\n    \"role-456\"\n  ]\n}\n```"
            );
        }
        other => panic!("expected a private response, got {:?}", other),
    }
}
