use vstd::prelude::*;
use vstd::string::StringExecFns;

use crate::ext::{flag_of, state_of_code, Options, PlayerState, PlayerVars};

verus! {

/// What the host asks of one widget. It is fixed for the controller's life.
#[derive(Debug, Clone, PartialEq, Eq)]
pub struct Props {
    pub video_id: String,
    pub width: Option<u32>,
    pub height: Option<u32>,
    pub autoplay: Option<bool>,
}

/// The widget's form of an optional autoplay setting.
pub open spec fn autoplay_flag(a: Option<bool>) -> Option<u8> {
    match a {
        Some(b) => Some(flag_of(b)),
        None => None,
    }
}

impl Props {
    /// The options the widget is constructed with: the configuration passed
    /// through, the autoplay setting as 0 or 1, nothing else set.
    pub fn options(&self) -> (r: Options)
        ensures
            r.video_id == Some(self.video_id),
            r.width == self.width,
            r.height == self.height,
            r.player_vars matches Some(v) && v.only_autoplay(autoplay_flag(self.autoplay)),
    {
        let autoplay: Option<u8> = match self.autoplay {
            Some(b) => Some(if b { 1u8 } else { 0u8 }),
            None => None,
        };
        let mut vars = PlayerVars::default();
        vars.autoplay = autoplay;
        Options {
            height: self.height,
            width: self.width,
            video_id: Some(self.video_id.clone()),
            player_vars: Some(vars),
        }
    }
}

/// One listener registered on the widget, passed back verbatim to remove it.
#[derive(Debug, Clone, Copy, PartialEq, Eq, Structural)]
pub enum ListenerToken {
    /// The one-shot listener for the widget's readiness.
    OnReady,
    /// The persistent listener for playback-state changes.
    OnStateChange,
}

/// The widget's name of the event a listener is registered for.
pub open spec fn event_name_of(t: ListenerToken) -> Seq<char> {
    match t {
        ListenerToken::OnReady => "onReady"@,
        ListenerToken::OnStateChange => "onStateChange"@,
    }
}

impl ListenerToken {
    /// The widget's name of the event this listener is registered for.
    pub fn event_name(&self) -> (r: &'static str)
        ensures
            r@ == event_name_of(*self),
    {
        match self {
            ListenerToken::OnReady => "onReady",
            ListenerToken::OnStateChange => "onStateChange",
        }
    }
}

/// Why a failure message was sent to the controller.
#[derive(Debug, Clone, Copy, PartialEq, Eq, Structural)]
pub enum Fault {
    /// The widget's script could not be loaded.
    Bootstrap,
    /// A state-change event carried no numeric code.
    Payload,
    /// A call into the widget threw.
    Binding,
    /// A state-change event carried an unknown code.
    Translation(i32),
}

/// A message to the controller.
#[derive(Debug, Clone, Copy, PartialEq, Eq, Structural)]
pub enum Msg {
    /// The widget's script is loaded.
    Initialized,
    /// The widget signalled that it is ready.
    Ready,
    /// The widget reported a new playback state.
    PlayerStateChange(PlayerState),
    /// Something outside the controller failed.
    Failed(Fault),
}

/// The message for a state-change event with a numeric code.
pub open spec fn msg_of_code(c: i32) -> Msg {
    match state_of_code(c as int) {
        Some(s) => Msg::PlayerStateChange(s),
        None => Msg::Failed(Fault::Translation(c)),
    }
}

impl Msg {
    /// Translates a state-change event's code into a message; an unknown
    /// code becomes a failure.
    pub fn from_state_code(code: i32) -> (m: Msg)
        ensures
            m == msg_of_code(code),
    {
        match PlayerState::from_code(code) {
            Ok(s) => Msg::PlayerStateChange(s),
            Err(e) => Msg::Failed(Fault::Translation(e.code)),
        }
    }
}

/// The name of a message, as failure reasons cite it.
pub open spec fn msg_name_of(m: Msg) -> Seq<char> {
    match m {
        Msg::Initialized => "Initialized"@,
        Msg::Ready => "Ready"@,
        Msg::PlayerStateChange(_) => "PlayerStateChange"@,
        Msg::Failed(Fault::Bootstrap) => "Failed(bootstrap)"@,
        Msg::Failed(Fault::Payload) => "Failed(payload)"@,
        Msg::Failed(Fault::Binding) => "Failed(binding)"@,
        Msg::Failed(Fault::Translation(_)) => "Failed(translation)"@,
    }
}

fn msg_name(m: Msg) -> (r: &'static str)
    ensures
        r@ == msg_name_of(m),
{
    match m {
        Msg::Initialized => "Initialized",
        Msg::Ready => "Ready",
        Msg::PlayerStateChange(_) => "PlayerStateChange",
        Msg::Failed(Fault::Bootstrap) => "Failed(bootstrap)",
        Msg::Failed(Fault::Payload) => "Failed(payload)",
        Msg::Failed(Fault::Binding) => "Failed(binding)",
        Msg::Failed(Fault::Translation(_)) => "Failed(translation)",
    }
}

/// The non-failed states, as failure reasons name them.
#[derive(Debug, Clone, Copy, PartialEq, Eq, Structural)]
pub enum Phase {
    Uninitialized,
    Initialized,
    Ready,
}

pub open spec fn phase_name_of(p: Phase) -> Seq<char> {
    match p {
        Phase::Uninitialized => "Uninitialized"@,
        Phase::Initialized => "Initialized"@,
        Phase::Ready => "Ready"@,
    }
}

fn phase_name(p: Phase) -> (r: &'static str)
    ensures
        r@ == phase_name_of(p),
{
    match p {
        Phase::Uninitialized => "Uninitialized",
        Phase::Initialized => "Initialized",
        Phase::Ready => "Ready",
    }
}

/// Why the controller failed: the message that arrived in a state that did
/// not expect it.
#[derive(Debug, Clone, Copy, PartialEq, Eq, Structural)]
pub struct Reason {
    pub phase: Phase,
    pub msg: Msg,
}

/// The description of a failure, naming the state and the message.
pub open spec fn reason_text(r: Reason) -> Seq<char> {
    "unexpected message in "@ + phase_name_of(r.phase) + ": "@ + msg_name_of(r.msg)
}

impl Reason {
    /// The human-readable description of this failure.
    pub fn text(&self) -> (r: String)
        ensures
            r@ == reason_text(*self),
    {
        let mut s = String::from_str("unexpected message in ");
        s.append(phase_name(self.phase));
        s.append(": ");
        s.append(msg_name(self.msg));
        s
    }
}

/// The controller's lifecycle state.
#[derive(Debug)]
pub enum State {
    Uninitialized,
    /// The widget is constructed and its readiness listener registered.
    Initialized { on_ready: ListenerToken },
    /// The widget is ready and its state-change listener registered.
    Ready { on_state_change: ListenerToken },
    /// Absorbing: the reason, and the listeners that may still be registered.
    Failed { reason: Reason, stale_tokens: Vec<ListenerToken> },
}

/// The mathematical form of a lifecycle state.
pub enum StateModel {
    Uninitialized,
    Initialized { on_ready: ListenerToken },
    Ready { on_state_change: ListenerToken },
    Failed { reason: Reason, stale_tokens: Seq<ListenerToken> },
}

impl View for State {
    type V = StateModel;

    open spec fn view(&self) -> StateModel {
        match self {
            State::Uninitialized => StateModel::Uninitialized,
            State::Initialized { on_ready } => StateModel::Initialized { on_ready: *on_ready },
            State::Ready { on_state_change } => StateModel::Ready {
                on_state_change: *on_state_change,
            },
            State::Failed { reason, stale_tokens } => StateModel::Failed {
                reason: *reason,
                stale_tokens: stale_tokens@,
            },
        }
    }
}

/// An action the controller asks its host to perform on the widget, in order.
#[derive(Debug, Clone, Copy, PartialEq, Eq, Structural)]
pub enum Command {
    /// Construct the widget with the controller's options.
    Construct,
    AddListener(ListenerToken),
    RemoveListener(ListenerToken),
    /// Hand a playback state to the host's callback.
    Notify(PlayerState),
    /// Release the widget.
    Destroy,
}

/// The lifecycle table: the next state and the commands for each state and
/// message.
pub open spec fn step(s: StateModel, m: Msg) -> (StateModel, Seq<Command>) {
    match s {
        StateModel::Uninitialized => match m {
            Msg::Initialized => (
                StateModel::Initialized { on_ready: ListenerToken::OnReady },
                seq![Command::Construct, Command::AddListener(ListenerToken::OnReady)],
            ),
            _ => (
                StateModel::Failed {
                    reason: Reason { phase: Phase::Uninitialized, msg: m },
                    stale_tokens: Seq::empty(),
                },
                Seq::empty(),
            ),
        },
        StateModel::Initialized { on_ready } => match m {
            Msg::Ready => (
                StateModel::Ready { on_state_change: ListenerToken::OnStateChange },
                seq![
                    Command::RemoveListener(on_ready),
                    Command::AddListener(ListenerToken::OnStateChange),
                ],
            ),
            _ => (
                StateModel::Failed {
                    reason: Reason { phase: Phase::Initialized, msg: m },
                    stale_tokens: seq![on_ready],
                },
                Seq::empty(),
            ),
        },
        StateModel::Ready { on_state_change } => match m {
            Msg::PlayerStateChange(ps) => (s, seq![Command::Notify(ps)]),
            _ => (
                StateModel::Failed {
                    reason: Reason { phase: Phase::Ready, msg: m },
                    stale_tokens: seq![on_state_change],
                },
                seq![Command::RemoveListener(on_state_change)],
            ),
        },
        StateModel::Failed { .. } => (s, Seq::empty()),
    }
}

/// The mathematical form of a controller.
pub struct PlayerModel {
    pub state: StateModel,
    /// A widget was constructed and not yet released.
    pub widget: bool,
    /// The host has disposed of the controller.
    pub disposed: bool,
}

impl PlayerModel {
    /// The states reachable from a fresh controller.
    pub open spec fn wf(self) -> bool {
        self.disposed || match self.state {
            StateModel::Uninitialized => !self.widget,
            StateModel::Initialized { on_ready } => self.widget && on_ready
                == ListenerToken::OnReady,
            StateModel::Ready { on_state_change } => self.widget && on_state_change
                == ListenerToken::OnStateChange,
            StateModel::Failed { stale_tokens, .. } => stale_tokens.len() <= 1 && (
            stale_tokens.len() == 1 ==> self.widget),
        }
    }

    /// The listeners that may be registered on the widget.
    pub open spec fn held(self) -> Seq<ListenerToken> {
        if self.disposed {
            Seq::empty()
        } else {
            match self.state {
                StateModel::Uninitialized => Seq::empty(),
                StateModel::Initialized { on_ready } => seq![on_ready],
                StateModel::Ready { on_state_change } => seq![on_state_change],
                StateModel::Failed { stale_tokens, .. } => stale_tokens,
            }
        }
    }

    /// One message: ignored once disposed, else the lifecycle table.
    pub open spec fn update(self, m: Msg) -> (PlayerModel, Seq<Command>) {
        if self.disposed {
            (self, Seq::empty())
        } else {
            let (s, cmds) = step(self.state, m);
            (
                PlayerModel {
                    state: s,
                    widget: self.widget || (self.state is Uninitialized && m is Initialized),
                    disposed: false,
                },
                cmds,
            )
        }
    }

    /// A sequence of messages, processed in order, with all commands issued.
    pub open spec fn run(self, msgs: Seq<Msg>) -> (PlayerModel, Seq<Command>)
        decreases msgs.len(),
    {
        if msgs.len() == 0 {
            (self, Seq::empty())
        } else {
            let (q, c) = self.update(msgs[0]);
            let (r, d) = q.run(msgs.subrange(1, msgs.len() as int));
            (r, c + d)
        }
    }

    /// Disposal: remove every listener that may be registered, release the
    /// widget, and ignore all later messages.
    pub open spec fn dispose(self) -> (PlayerModel, Seq<Command>) {
        if self.disposed {
            (self, Seq::empty())
        } else {
            (
                PlayerModel { state: self.state, widget: false, disposed: true },
                self.held().map_values(|t: ListenerToken| Command::RemoveListener(t)) + if self.widget {
                    seq![Command::Destroy]
                } else {
                    Seq::<Command>::empty()
                },
            )
        }
    }
}

/// One controller: drives one widget from construction through readiness to
/// relaying its playback states.
pub struct Player {
    state: State,
    props: Props,
    widget: bool,
    disposed: bool,
}

impl View for Player {
    type V = PlayerModel;

    closed spec fn view(&self) -> PlayerModel {
        PlayerModel { state: self.state@, widget: self.widget, disposed: self.disposed }
    }
}

impl Player {
    pub closed spec fn spec_props(&self) -> Props {
        self.props
    }

    /// A fresh controller, awaiting the widget's script.
    pub fn create(props: Props) -> (r: Player)
        ensures
            r@ == (PlayerModel { state: StateModel::Uninitialized, widget: false, disposed: false }),
            r.spec_props() == props,
    {
        Player { state: State::Uninitialized, props, widget: false, disposed: false }
    }

    /// The current lifecycle state.
    pub fn state(&self) -> (r: &State)
        ensures
            r@ == self@.state,
    {
        &self.state
    }

    /// The configuration this controller was created with.
    pub fn props(&self) -> (r: &Props)
        ensures
            *r == self.spec_props(),
    {
        &self.props
    }

    /// Whether the host has disposed of this controller.
    pub fn is_disposed(&self) -> (r: bool)
        ensures
            r == self@.disposed,
    {
        self.disposed
    }

    /// The options for the widget's construction.
    pub fn options(&self) -> (r: Options)
        ensures
            r.video_id == Some(self.spec_props().video_id),
            r.width == self.spec_props().width,
            r.height == self.spec_props().height,
            r.player_vars matches Some(v) && v.only_autoplay(
                autoplay_flag(self.spec_props().autoplay),
            ),
    {
        self.props.options()
    }

    /// Processes one message. Returns the commands for the host, in order,
    /// and whether the controller has just failed, so that the host shows the
    /// failure in place of the widget.
    pub fn update(&mut self, msg: Msg) -> (r: (Vec<Command>, bool))
        requires
            old(self)@.wf(),
        ensures
            final(self)@.wf(),
            (final(self)@, r.0@) == old(self)@.update(msg),
            final(self).spec_props() == old(self).spec_props(),
            r.1 == (!old(self)@.disposed && !(old(self)@.state is Failed)
                && final(self)@.state is Failed),
    {
        let mut cmds: Vec<Command> = Vec::new();
        if self.disposed {
            return (cmds, false);
        }
        let next: Option<State> = match &self.state {
            State::Uninitialized => match msg {
                Msg::Initialized => {
                    cmds.push(Command::Construct);
                    cmds.push(Command::AddListener(ListenerToken::OnReady));
                    Some(State::Initialized { on_ready: ListenerToken::OnReady })
                },
                _ => Some(
                    State::Failed {
                        reason: Reason { phase: Phase::Uninitialized, msg },
                        stale_tokens: Vec::new(),
                    },
                ),
            },
            State::Initialized { on_ready } => {
                let t = *on_ready;
                match msg {
                    Msg::Ready => {
                        cmds.push(Command::RemoveListener(t));
                        cmds.push(Command::AddListener(ListenerToken::OnStateChange));
                        Some(State::Ready { on_state_change: ListenerToken::OnStateChange })
                    },
                    _ => {
                        let mut stale: Vec<ListenerToken> = Vec::new();
                        stale.push(t);
                        Some(
                            State::Failed {
                                reason: Reason { phase: Phase::Initialized, msg },
                                stale_tokens: stale,
                            },
                        )
                    },
                }
            },
            State::Ready { on_state_change } => {
                let t = *on_state_change;
                match msg {
                    Msg::PlayerStateChange(ps) => {
                        cmds.push(Command::Notify(ps));
                        None
                    },
                    _ => {
                        cmds.push(Command::RemoveListener(t));
                        let mut stale: Vec<ListenerToken> = Vec::new();
                        stale.push(t);
                        Some(
                            State::Failed {
                                reason: Reason { phase: Phase::Ready, msg },
                                stale_tokens: stale,
                            },
                        )
                    },
                }
            },
            State::Failed { .. } => None,
        };
        let entered_failure = match next {
            Some(s) => {
                let failed = matches!(s, State::Failed { .. });
                if matches!(self.state, State::Uninitialized) && !matches!(s, State::Failed { .. }) {
                    self.widget = true;
                }
                self.state = s;
                failed
            },
            None => false,
        };
        proof {
            let (m, c) = old(self)@.update(msg);
            assert(cmds@ =~= c);
            assert(self@.state == m.state);
        }
        (cmds, entered_failure)
    }

    /// Disposes of the controller. Returns the commands that release what it
    /// holds: the removal of each listener that may be registered, then the
    /// widget's release. Later messages are ignored.
    pub fn dispose(&mut self) -> (r: Vec<Command>)
        requires
            old(self)@.wf(),
        ensures
            final(self)@.wf(),
            (final(self)@, r@) == old(self)@.dispose(),
            final(self).spec_props() == old(self).spec_props(),
    {
        let mut cmds: Vec<Command> = Vec::new();
        if self.disposed {
            return cmds;
        }
        match &self.state {
            State::Uninitialized => {},
            State::Initialized { on_ready } => {
                cmds.push(Command::RemoveListener(*on_ready));
            },
            State::Ready { on_state_change } => {
                cmds.push(Command::RemoveListener(*on_state_change));
            },
            State::Failed { stale_tokens, .. } => {
                let mut i: usize = 0;
                while i < stale_tokens.len()
                    invariant
                        i <= stale_tokens@.len(),
                        cmds@ =~= stale_tokens@.subrange(0, i as int).map_values(
                            |t: ListenerToken| Command::RemoveListener(t),
                        ),
                    decreases stale_tokens@.len() - i,
                {
                    cmds.push(Command::RemoveListener(stale_tokens[i]));
                    i = i + 1;
                }
                assert(stale_tokens@.subrange(0, i as int) =~= stale_tokens@);
            },
        }
        let ghost removes = cmds@;
        if self.widget {
            cmds.push(Command::Destroy);
        }
        self.widget = false;
        self.disposed = true;
        proof {
            let (m, c) = old(self)@.dispose();
            assert(removes =~= old(self)@.held().map_values(
                |t: ListenerToken| Command::RemoveListener(t),
            ));
            assert(cmds@ =~= c);
        }
        cmds
    }

    /// The failure description shown in place of the widget, if the
    /// controller has failed.
    pub fn error_text(&self) -> (r: Option<String>)
        ensures
            match self@.state {
                StateModel::Failed { reason, .. } => r matches Some(t) && t@ == reason_text(reason),
                _ => r is None,
            },
    {
        match &self.state {
            State::Failed { reason, .. } => Some(reason.text()),
            _ => None,
        }
    }
}

/// Every state and message has exactly one defined outcome, and from a
/// reachable state every sequence of messages leads to a reachable state.
pub proof fn lemma_run_well_formed(p: PlayerModel, msgs: Seq<Msg>)
    requires
        p.wf(),
    ensures
        p.run(msgs).0.wf(),
        msgs.len() > 0 ==> p.run(msgs) == ({
            let (q, c) = p.update(msgs[0]);
            let (r, d) = q.run(msgs.subrange(1, msgs.len() as int));
            (r, c + d)
        }),
    decreases msgs.len(),
{
    if msgs.len() > 0 {
        let (q, c) = p.update(msgs[0]);
        lemma_run_well_formed(q, msgs.subrange(1, msgs.len() as int));
    }
}

/// Failed is absorbing: once failed, any further messages leave the state,
/// its reason included, unchanged and issue no commands.
pub proof fn lemma_failed_absorbing(p: PlayerModel, msgs: Seq<Msg>)
    requires
        p.state is Failed,
    ensures
        p.run(msgs).0.state == p.state,
        p.run(msgs).1 == Seq::<Command>::empty(),
    decreases msgs.len(),
{
    if msgs.len() > 0 {
        let (q, c) = p.update(msgs[0]);
        lemma_failed_absorbing(q, msgs.subrange(1, msgs.len() as int));
        assert(c + Seq::<Command>::empty() =~= Seq::<Command>::empty());
    }
}

/// In a reachable state at most one listener may be registered, so a ready
/// listener and a state-change listener never coexist, after any sequence of
/// messages; a step that registers a listener first removes the one held
/// before.
pub proof fn lemma_listeners_exclusive(p: PlayerModel, m: Msg, msgs: Seq<Msg>)
    requires
        p.wf(),
    ensures
        p.held().len() <= 1,
        p.run(msgs).0.held().len() <= 1,
        p.update(m).0.held().len() <= 1,
        forall|i: int|
            0 <= i < p.update(m).1.len() && p.update(m).1[i] is AddListener ==> (p.held().len()
                == 0 || exists|j: int|
                0 <= j < i && p.update(m).1[j] == Command::RemoveListener(p.held()[0])),
        p.dispose().0.held().len() == 0,
{
    lemma_run_well_formed(p, msgs);
    let (q, c) = p.update(m);
    if !p.disposed && p.state is Initialized && m is Ready {
        assert(c[0] == Command::RemoveListener(p.held()[0]));
    }
}

/// A disposed controller ignores every message: its state stays and no
/// command is issued, so no widget is constructed and no listener registered.
pub proof fn lemma_disposed_inert(p: PlayerModel, msgs: Seq<Msg>)
    requires
        p.disposed,
    ensures
        p.run(msgs) == (p, Seq::<Command>::empty()),
    decreases msgs.len(),
{
    if msgs.len() > 0 {
        lemma_disposed_inert(p, msgs.subrange(1, msgs.len() as int));
        assert(Seq::<Command>::empty() + Seq::<Command>::empty() =~= Seq::<Command>::empty());
    }
}

/// Disposing of a controller that still awaits the widget's script issues no
/// command, and no later message constructs a widget or registers a listener.
pub proof fn lemma_dispose_before_bootstrap(msgs: Seq<Msg>)
    ensures
        ({
            let fresh = PlayerModel {
                state: StateModel::Uninitialized,
                widget: false,
                disposed: false,
            };
            let (d, c) = fresh.dispose();
            c == Seq::<Command>::empty() && d.run(msgs).1 == Seq::<Command>::empty()
        }),
{
    let fresh = PlayerModel { state: StateModel::Uninitialized, widget: false, disposed: false };
    let (d, c) = fresh.dispose();
    assert(c =~= Seq::<Command>::empty());
    lemma_disposed_inert(d, msgs);
}

} // verus!
