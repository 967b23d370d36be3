use vstd::prelude::*;

verus! {

/// A playback phase reported by the widget.
#[derive(Debug, Clone, Copy, PartialEq, Eq, Structural)]
pub enum PlayerState {
    Unstarted,
    Ended,
    Playing,
    Paused,
    Buffering,
    Cued,
}

/// The widget's numeric code for each playback phase.
pub open spec fn code_of(s: PlayerState) -> int {
    match s {
        PlayerState::Unstarted => -1,
        PlayerState::Ended => 0,
        PlayerState::Playing => 1,
        PlayerState::Paused => 2,
        PlayerState::Buffering => 3,
        PlayerState::Cued => 5,
    }
}

/// The playback phase a numeric code stands for, if any.
pub open spec fn state_of_code(c: int) -> Option<PlayerState> {
    if c == -1 {
        Some(PlayerState::Unstarted)
    } else if c == 0 {
        Some(PlayerState::Ended)
    } else if c == 1 {
        Some(PlayerState::Playing)
    } else if c == 2 {
        Some(PlayerState::Paused)
    } else if c == 3 {
        Some(PlayerState::Buffering)
    } else if c == 5 {
        Some(PlayerState::Cued)
    } else {
        None
    }
}

/// A numeric code outside the widget's known playback phases.
#[derive(Debug, Clone, Copy, PartialEq, Eq, Structural)]
pub struct TranslationError {
    pub code: i32,
}

impl PlayerState {
    /// Translates a numeric code reported by the widget.
    pub fn from_code(code: i32) -> (r: Result<PlayerState, TranslationError>)
        ensures
            match state_of_code(code as int) {
                Some(s) => r == Ok::<PlayerState, TranslationError>(s),
                None => r == Err::<PlayerState, TranslationError>(TranslationError { code }),
            },
    {
        match code {
            -1 => Ok(PlayerState::Unstarted),
            0 => Ok(PlayerState::Ended),
            1 => Ok(PlayerState::Playing),
            2 => Ok(PlayerState::Paused),
            3 => Ok(PlayerState::Buffering),
            5 => Ok(PlayerState::Cued),
            _ => Err(TranslationError { code }),
        }
    }

    /// The numeric code the widget uses for this phase.
    pub fn code(&self) -> (r: i32)
        ensures
            r as int == code_of(*self),
    {
        match self {
            PlayerState::Unstarted => -1,
            PlayerState::Ended => 0,
            PlayerState::Playing => 1,
            PlayerState::Paused => 2,
            PlayerState::Buffering => 3,
            PlayerState::Cued => 5,
        }
    }
}

/// Exactly the codes -1, 0, 1, 2, 3 and 5 translate, to Unstarted, Ended,
/// Playing, Paused, Buffering and Cued respectively; every other integer is a
/// translation error.
pub proof fn lemma_translation_table(c: int)
    ensures
        state_of_code(-1) == Some(PlayerState::Unstarted),
        state_of_code(0) == Some(PlayerState::Ended),
        state_of_code(1) == Some(PlayerState::Playing),
        state_of_code(2) == Some(PlayerState::Paused),
        state_of_code(3) == Some(PlayerState::Buffering),
        state_of_code(5) == Some(PlayerState::Cued),
        (c != -1 && c != 0 && c != 1 && c != 2 && c != 3 && c != 5) <==> state_of_code(c)
            is None,
{
}

/// Translating a phase's code gives the phase back.
pub proof fn lemma_code_round_trip(s: PlayerState)
    ensures
        state_of_code(code_of(s)) == Some(s),
{
}

/// The widget's numeric form of a flag: 1 for on, 0 for off.
pub open spec fn flag_of(b: bool) -> u8 {
    if b {
        1
    } else {
        0
    }
}

/// Extra settings handed to the widget; an absent one is not sent.
#[derive(Debug, Clone, PartialEq, Eq)]
pub struct PlayerVars {
    pub autoplay: Option<u8>,
    pub controls: Option<u8>,
    pub enable_js_api: Option<u8>,
    pub full_screen: Option<u8>,
    pub iv_load_policy: Option<u8>,
    pub modest_branding: Option<u8>,
    pub plays_inline: Option<u8>,
    pub related_videos: Option<u8>,
    pub show_info: Option<u8>,
    pub start: Option<u32>,
    pub end: Option<u32>,
    pub origin: Option<String>,
    pub widget_referrer: Option<String>,
}

impl PlayerVars {
    /// Settings that set only the autoplay flag.
    pub open spec fn only_autoplay(self, autoplay: Option<u8>) -> bool {
        &&& self.autoplay == autoplay
        &&& self.controls is None
        &&& self.enable_js_api is None
        &&& self.full_screen is None
        &&& self.iv_load_policy is None
        &&& self.modest_branding is None
        &&& self.plays_inline is None
        &&& self.related_videos is None
        &&& self.show_info is None
        &&& self.start is None
        &&& self.end is None
        &&& self.origin is None
        &&& self.widget_referrer is None
    }
}

impl Default for PlayerVars {
    fn default() -> (r: PlayerVars)
        ensures
            r.only_autoplay(None),
    {
        PlayerVars {
            autoplay: None,
            controls: None,
            enable_js_api: None,
            full_screen: None,
            iv_load_policy: None,
            modest_branding: None,
            plays_inline: None,
            related_videos: None,
            show_info: None,
            start: None,
            end: None,
            origin: None,
            widget_referrer: None,
        }
    }
}

/// Construction options of one widget; an absent one is not sent.
#[derive(Debug, Clone, PartialEq, Eq)]
pub struct Options {
    pub height: Option<u32>,
    pub width: Option<u32>,
    pub video_id: Option<String>,
    pub player_vars: Option<PlayerVars>,
}

impl Default for Options {
    fn default() -> (r: Options)
        ensures
            r.height is None,
            r.width is None,
            r.video_id is None,
            r.player_vars is None,
    {
        Options { height: None, width: None, video_id: None, player_vars: None }
    }
}

} // verus!
