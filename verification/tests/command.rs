use vim_zellij_navigator::{parse_command, Command, Direction, PipeMessage};

fn message(name: &str, payload: Option<&str>) -> PipeMessage {
    PipeMessage {
        name: name.to_string(),
        payload: payload.map(|p| p.to_string()),
    }
}

#[test]
fn messages_ask_for_commands() {
    assert_eq!(
        parse_command(message("move_focus", Some("left"))),
        Some(Command::MoveFocus(Direction::Left))
    );
    assert_eq!(
        parse_command(message("move_focus_or_tab", Some("right"))),
        Some(Command::MoveFocusOrTab(Direction::Right))
    );
    assert_eq!(
        parse_command(message("resize", Some("up"))),
        Some(Command::Resize(Direction::Up))
    );
    assert_eq!(
        parse_command(message("resize", Some("down"))),
        Some(Command::Resize(Direction::Down))
    );
}

#[test]
fn every_verb_takes_every_direction() {
    let directions = [
        ("left", Direction::Left),
        ("right", Direction::Right),
        ("up", Direction::Up),
        ("down", Direction::Down),
    ];
    for (token, d) in directions {
        assert_eq!(parse_command(message("move_focus", Some(token))), Some(Command::MoveFocus(d)));
        assert_eq!(
            parse_command(message("move_focus_or_tab", Some(token))),
            Some(Command::MoveFocusOrTab(d))
        );
        assert_eq!(parse_command(message("resize", Some(token))), Some(Command::Resize(d)));
    }
}

#[test]
fn message_without_payload_asks_for_nothing() {
    assert_eq!(parse_command(message("move_focus", None)), None);
    assert_eq!(parse_command(message("resize", None)), None);
}

#[test]
fn message_with_other_payload_asks_for_nothing() {
    assert_eq!(parse_command(message("move_focus", Some(""))), None);
    assert_eq!(parse_command(message("move_focus", Some("Left"))), None);
    assert_eq!(parse_command(message("move_focus", Some("sideways"))), None);
    assert_eq!(parse_command(message("resize", Some("left "))), None);
}

#[test]
fn message_with_other_name_asks_for_nothing() {
    assert_eq!(parse_command(message("", Some("left"))), None);
    assert_eq!(parse_command(message("focus", Some("left"))), None);
    assert_eq!(parse_command(message("Move_Focus", Some("left"))), None);
    assert_eq!(parse_command(message("move_focus ", Some("left"))), None);
    assert_eq!(parse_command(message("resize_pane", Some("left"))), None);
}
