use yewtube::component::{Fault, ListenerToken, Msg, Props};
use yewtube::ext::{Options, PlayerState, PlayerVars, TranslationError};

#[test]
fn known_codes_translate() {
    assert_eq!(PlayerState::from_code(-1), Ok(PlayerState::Unstarted));
    assert_eq!(PlayerState::from_code(0), Ok(PlayerState::Ended));
    assert_eq!(PlayerState::from_code(1), Ok(PlayerState::Playing));
    assert_eq!(PlayerState::from_code(2), Ok(PlayerState::Paused));
    assert_eq!(PlayerState::from_code(3), Ok(PlayerState::Buffering));
    assert_eq!(PlayerState::from_code(5), Ok(PlayerState::Cued));
}

#[test]
fn unknown_codes_are_translation_errors() {
    for code in [4, 99, -2, i32::MIN, i32::MAX] {
        assert_eq!(PlayerState::from_code(code), Err(TranslationError { code }));
    }
}

#[test]
fn codes_round_trip() {
    for s in [
        PlayerState::Unstarted,
        PlayerState::Ended,
        PlayerState::Playing,
        PlayerState::Paused,
        PlayerState::Buffering,
        PlayerState::Cued,
    ] {
        assert_eq!(PlayerState::from_code(s.code()), Ok(s));
    }
    assert_eq!(PlayerState::Cued.code(), 5);
    assert_eq!(PlayerState::Unstarted.code(), -1);
}

#[test]
fn state_codes_become_messages() {
    assert_eq!(Msg::from_state_code(1), Msg::PlayerStateChange(PlayerState::Playing));
    assert_eq!(Msg::from_state_code(-1), Msg::PlayerStateChange(PlayerState::Unstarted));
    assert_eq!(Msg::from_state_code(4), Msg::Failed(Fault::Translation(4)));
}

#[test]
fn listener_event_names() {
    assert_eq!(ListenerToken::OnReady.event_name(), "onReady");
    assert_eq!(ListenerToken::OnStateChange.event_name(), "onStateChange");
}

fn props(autoplay: Option<bool>) -> Props {
    Props { video_id: "r71Nhzh0xMU".to_string(), width: Some(640), height: None, autoplay }
}

#[test]
fn options_pass_configuration_through() {
    let o = props(Some(true)).options();
    assert_eq!(o.video_id, Some("r71Nhzh0xMU".to_string()));
    assert_eq!(o.width, Some(640));
    assert_eq!(o.height, None);
    let mut vars = PlayerVars::default();
    vars.autoplay = Some(1);
    assert_eq!(o.player_vars, Some(vars));
}

#[test]
fn options_autoplay_flags() {
    let off = props(Some(false)).options().player_vars.unwrap();
    assert_eq!(off.autoplay, Some(0));
    let unset = props(None).options().player_vars.unwrap();
    assert_eq!(unset, PlayerVars::default());
    assert_eq!(unset.controls, None);
    assert_eq!(unset.origin, None);
}

#[test]
fn default_options_are_empty() {
    let o = Options::default();
    assert_eq!(o.height, None);
    assert_eq!(o.width, None);
    assert_eq!(o.video_id, None);
    assert_eq!(o.player_vars, None);
}
