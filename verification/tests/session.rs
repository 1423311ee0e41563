use ss_engine::session::{
    action_session_character_id, apply_session_character_update, build_session_messages,
    ensure_session_character_belongs, session_character_record_to_character_card, sort_session_characters, ActorSegment,
    ActorSegmentKind, EngineTurnResult, ExecutedBeat, SessionCharacterAction, SessionCharacterRecord,
};
use ss_engine::util::SessionMessageKind;
use ss_engine::{EngineStage, SessionCharacterUpdate};

fn record() -> SessionCharacterRecord {
    SessionCharacterRecord {
        session_character_id: "stranger".to_owned(),
        session_id: "session-1".to_owned(),
        display_name: "Stranger".to_owned(),
        personality: "wary".to_owned(),
        style: "terse".to_owned(),
        system_prompt: "Stay hidden.".to_owned(),
        created_at_ms: 10,
        updated_at_ms: 10,
    }
}

#[test]
fn session_characters_belong_to_their_session() {
    assert!(ensure_session_character_belongs("session-1", &record()).is_ok());
    let err = ensure_session_character_belongs("session-2", &record()).expect_err("other session");
    assert_eq!(err.0, "stranger");
}

#[test]
fn updates_keep_identity_and_creation_time() {
    let updated = apply_session_character_update(
        record(),
        SessionCharacterUpdate {
            display_name: "Masked Stranger".to_owned(),
            personality: "curious".to_owned(),
            style: "warm".to_owned(),
            system_prompt: "Reveal slowly.".to_owned(),
        },
        99,
    );
    assert_eq!(updated.session_character_id, "stranger");
    assert_eq!(updated.created_at_ms, 10);
    assert_eq!(updated.updated_at_ms, 99);
    assert_eq!(updated.display_name, "Masked Stranger");
    let card = session_character_record_to_character_card(&updated);
    assert_eq!(card.id, "stranger");
    assert_eq!(card.name, "Masked Stranger");
    assert!(card.state_schema.fields.is_empty());
}

#[test]
fn actions_name_their_character() {
    let leave = SessionCharacterAction::LeaveScene { session_character_id: "stranger".to_owned() };
    assert_eq!(action_session_character_id(&leave), "stranger");
    let create = SessionCharacterAction::CreateAndEnter {
        session_character_id: "courier".to_owned(),
        display_name: "Courier".to_owned(),
        personality: String::new(),
        style: String::new(),
        system_prompt: String::new(),
    };
    assert_eq!(action_session_character_id(&create), "courier");
    assert_eq!(EngineStage::KeeperAfterTurnOutputs.as_str(), "keeper_after_turn_outputs");
    assert_eq!(EngineStage::RecordPlayerInput.as_str(), "record_player_input");
}

#[test]
fn turns_are_stored_as_numbered_messages() {
    let result = EngineTurnResult {
        turn_index: 3,
        player_input: "Open the floodgate.".to_owned(),
        completed_beats: vec![
            ExecutedBeat::Narrator { text: "  The floodgate groans.  ".to_owned() },
            ExecutedBeat::Narrator { text: "   ".to_owned() },
            ExecutedBeat::Actor {
                speaker_id: "guide".to_owned(),
                speaker_name: "Yuki".to_owned(),
                segments: vec![
                    ActorSegment { kind: ActorSegmentKind::Thought, text: "Careful.".to_owned() },
                    ActorSegment { kind: ActorSegmentKind::Dialogue, text: " Stand back. ".to_owned() },
                    ActorSegment { kind: ActorSegmentKind::Action, text: "".to_owned() },
                    ActorSegment { kind: ActorSegmentKind::Action, text: "She pulls the lever.".to_owned() },
                ],
            },
        ],
    };
    let messages = build_session_messages("s1", &"session-1".to_owned(), &result, 500, 7);
    assert_eq!(messages.len(), 4);
    let ids: Vec<&str> = messages.iter().map(|m| m.message_id.as_str()).collect();
    assert_eq!(ids, vec!["s1-message-7", "s1-message-8", "s1-message-9", "s1-message-10"]);
    assert_eq!(messages[0].kind, SessionMessageKind::PlayerInput);
    assert_eq!(messages[0].speaker_id, "player");
    assert_eq!(messages[1].kind, SessionMessageKind::Narration);
    assert_eq!(messages[1].text, "The floodgate groans.");
    assert_eq!(messages[2].kind, SessionMessageKind::Dialogue);
    assert_eq!(messages[2].text, "Stand back.");
    assert_eq!(messages[3].kind, SessionMessageKind::Action);
    assert_eq!(messages[3].speaker_name, "Yuki");
    assert!(messages.iter().all(|m| m.turn_index == 3 && m.recorded_at_ms == 500 && m.session_id == "session-1"));

    let top = build_session_messages("s1", &"session-1".to_owned(), &result, 0, u64::MAX - 1);
    assert_eq!(top[1].sequence, u64::MAX);
    assert_eq!(top[2].sequence, u64::MAX);
}

fn created(id: &str, created_at_ms: u64) -> SessionCharacterRecord {
    SessionCharacterRecord {
        session_character_id: id.to_owned(),
        created_at_ms,
        ..record()
    }
}

#[test]
fn session_characters_list_by_creation_then_id() {
    let listed = sort_session_characters(vec![
        created("wren", 30),
        created("moss", 10),
        created("ash", 30),
        created("lark", 20),
    ]);
    let ids: Vec<&str> = listed.iter().map(|c| c.session_character_id.as_str()).collect();
    assert_eq!(ids, vec!["moss", "lark", "ash", "wren"]);
}

#[test]
fn session_characters_with_one_key_keep_their_order() {
    let mut first = created("twin", 5);
    first.display_name = "First".to_owned();
    let mut second = created("twin", 5);
    second.display_name = "Second".to_owned();
    let listed = sort_session_characters(vec![first, created("elder", 1), second]);
    let names: Vec<&str> = listed.iter().map(|c| c.display_name.as_str()).collect();
    assert_eq!(names, vec!["Stranger", "First", "Second"]);
}
