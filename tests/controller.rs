use yewtube::component::{
    Command, Fault, ListenerToken, Msg, Phase, Player, Props, Reason, State,
};
use yewtube::ext::PlayerState;

fn fresh() -> Player {
    Player::create(Props {
        video_id: "r71Nhzh0xMU".to_string(),
        width: None,
        height: None,
        autoplay: Some(true),
    })
}

fn ready() -> Player {
    let mut p = fresh();
    p.update(Msg::Initialized);
    p.update(Msg::Ready);
    p
}

#[test]
fn bootstrap_ready_then_widget_ready_then_playing() {
    let mut p = fresh();
    assert!(matches!(p.state(), State::Uninitialized));

    let (cmds, rerender) = p.update(Msg::Initialized);
    assert_eq!(cmds, vec![Command::Construct, Command::AddListener(ListenerToken::OnReady)]);
    assert!(!rerender);
    assert!(matches!(p.state(), State::Initialized { on_ready: ListenerToken::OnReady }));

    let (cmds, rerender) = p.update(Msg::Ready);
    assert_eq!(
        cmds,
        vec![
            Command::RemoveListener(ListenerToken::OnReady),
            Command::AddListener(ListenerToken::OnStateChange),
        ]
    );
    assert!(!rerender);
    assert!(matches!(p.state(), State::Ready { on_state_change: ListenerToken::OnStateChange }));

    let (cmds, rerender) = p.update(Msg::PlayerStateChange(PlayerState::Playing));
    assert_eq!(cmds, vec![Command::Notify(PlayerState::Playing)]);
    assert!(!rerender);
    assert!(matches!(p.state(), State::Ready { .. }));
    assert_eq!(p.error_text(), None);
}

#[test]
fn unexpected_message_in_ready_fails() {
    let mut p = ready();
    let (cmds, rerender) = p.update(Msg::Initialized);
    assert_eq!(cmds, vec![Command::RemoveListener(ListenerToken::OnStateChange)]);
    assert!(rerender);
    match p.state() {
        State::Failed { reason, stale_tokens } => {
            assert_eq!(*reason, Reason { phase: Phase::Ready, msg: Msg::Initialized });
            assert_eq!(stale_tokens, &vec![ListenerToken::OnStateChange]);
        }
        other => panic!("expected Failed, got {:?}", other),
    }
    let text = p.error_text().unwrap();
    assert!(text.contains("unexpected message in Ready"));
    assert_eq!(text, "unexpected message in Ready: Initialized");
}

#[test]
fn unexpected_message_in_uninitialized_fails() {
    let mut p = fresh();
    let (cmds, rerender) = p.update(Msg::Ready);
    assert!(cmds.is_empty());
    assert!(rerender);
    assert_eq!(p.error_text().unwrap(), "unexpected message in Uninitialized: Ready");
    match p.state() {
        State::Failed { stale_tokens, .. } => assert!(stale_tokens.is_empty()),
        other => panic!("expected Failed, got {:?}", other),
    }
}

#[test]
fn unexpected_message_in_initialized_keeps_ready_token() {
    let mut p = fresh();
    p.update(Msg::Initialized);
    let (cmds, rerender) = p.update(Msg::PlayerStateChange(PlayerState::Paused));
    assert!(cmds.is_empty());
    assert!(rerender);
    assert_eq!(
        p.error_text().unwrap(),
        "unexpected message in Initialized: PlayerStateChange"
    );
    match p.state() {
        State::Failed { stale_tokens, .. } => {
            assert_eq!(stale_tokens, &vec![ListenerToken::OnReady])
        }
        other => panic!("expected Failed, got {:?}", other),
    }
}

#[test]
fn translation_failure_in_ready_fails() {
    let mut p = ready();
    let (cmds, rerender) = p.update(Msg::from_state_code(99));
    assert_eq!(cmds, vec![Command::RemoveListener(ListenerToken::OnStateChange)]);
    assert!(rerender);
    assert_eq!(
        p.error_text().unwrap(),
        "unexpected message in Ready: Failed(translation)"
    );
}

#[test]
fn fault_names_in_reasons() {
    let r = Reason { phase: Phase::Initialized, msg: Msg::Failed(Fault::Bootstrap) };
    assert_eq!(r.text(), "unexpected message in Initialized: Failed(bootstrap)");
    let r = Reason { phase: Phase::Uninitialized, msg: Msg::Failed(Fault::Payload) };
    assert_eq!(r.text(), "unexpected message in Uninitialized: Failed(payload)");
    let r = Reason { phase: Phase::Ready, msg: Msg::Failed(Fault::Binding) };
    assert_eq!(r.text(), "unexpected message in Ready: Failed(binding)");
}

#[test]
fn failed_is_absorbing() {
    let mut p = ready();
    p.update(Msg::Ready);
    let before = p.error_text().unwrap();
    for m in [
        Msg::Initialized,
        Msg::Ready,
        Msg::PlayerStateChange(PlayerState::Playing),
        Msg::Failed(Fault::Bootstrap),
    ] {
        let (cmds, rerender) = p.update(m);
        assert!(cmds.is_empty());
        assert!(!rerender);
        assert_eq!(p.error_text().unwrap(), before);
    }
    match p.state() {
        State::Failed { stale_tokens, .. } => {
            assert_eq!(stale_tokens, &vec![ListenerToken::OnStateChange])
        }
        other => panic!("expected Failed, got {:?}", other),
    }
}

#[test]
fn every_message_in_every_state_has_an_outcome() {
    let msgs = [
        Msg::Initialized,
        Msg::Ready,
        Msg::PlayerStateChange(PlayerState::Cued),
        Msg::Failed(Fault::Payload),
    ];
    for (i, m) in msgs.iter().enumerate() {
        let mut p = fresh();
        p.update(*m);
        assert_eq!(matches!(p.state(), State::Initialized { .. }), i == 0);
        let mut p = fresh();
        p.update(Msg::Initialized);
        p.update(*m);
        assert_eq!(matches!(p.state(), State::Ready { .. }), i == 1);
        let mut p = ready();
        p.update(*m);
        assert_eq!(matches!(p.state(), State::Ready { .. }), i == 2);
    }
}

#[test]
fn at_most_one_listener_held() {
    let mut p = fresh();
    let mut registered: Vec<ListenerToken> = Vec::new();
    for m in [Msg::Initialized, Msg::Ready, Msg::PlayerStateChange(PlayerState::Ended)] {
        let (cmds, _) = p.update(m);
        for c in cmds {
            match c {
                Command::AddListener(t) => {
                    assert!(registered.is_empty());
                    registered.push(t);
                }
                Command::RemoveListener(t) => registered.retain(|x| *x != t),
                _ => {}
            }
        }
        assert!(registered.len() <= 1);
    }
    assert_eq!(registered, vec![ListenerToken::OnStateChange]);
}

#[test]
fn dispose_while_awaiting_bootstrap_constructs_nothing() {
    let mut p = fresh();
    assert!(p.dispose().is_empty());
    assert!(p.is_disposed());
    for m in [Msg::Initialized, Msg::Ready, Msg::PlayerStateChange(PlayerState::Playing)] {
        let (cmds, rerender) = p.update(m);
        assert!(cmds.is_empty());
        assert!(!rerender);
    }
    assert!(matches!(p.state(), State::Uninitialized));
}

#[test]
fn dispose_releases_listener_and_widget() {
    let mut p = ready();
    assert_eq!(
        p.dispose(),
        vec![Command::RemoveListener(ListenerToken::OnStateChange), Command::Destroy]
    );
    assert!(p.dispose().is_empty());

    let mut p = fresh();
    p.update(Msg::Initialized);
    p.update(Msg::Initialized);
    assert_eq!(
        p.dispose(),
        vec![Command::RemoveListener(ListenerToken::OnReady), Command::Destroy]
    );
}

#[test]
fn props_and_options_are_kept() {
    let p = ready();
    assert_eq!(p.props().video_id, "r71Nhzh0xMU");
    let vars = p.options().player_vars.unwrap();
    assert_eq!(vars.autoplay, Some(1));
}
