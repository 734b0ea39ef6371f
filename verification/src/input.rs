//! Input aggregation: player bindings, the bound-player list, and
//! edge-triggered reading of gamepad buttons and sticks.
//!
//! The application polls devices and hands this module plain values: which
//! binding keys were newly pressed this frame, and per device slot the
//! current and previous digital button states together with the thresholded
//! stick directions. Everything decided from those values is verified here.

use vstd::prelude::*;

verus! {

/// Number of digital buttons each gamepad device slot reports.
pub const BUTTON_COUNT: usize = 16;

/// A player's control binding: one of the two keyboard layouts or a gamepad
/// device slot. Identity is value equality; the list of bound players keys
/// on it.
#[derive(Clone, Copy, PartialEq, Eq, Structural, Debug)]
pub enum InputScheme {
    KeyboardLeft,
    KeyboardRight,
    Gamepad(usize),
}

/// A gamepad digital button, in the order of the device's button array.
#[derive(Clone, Copy, PartialEq, Eq, Structural, Debug)]
pub enum Button {
    A,
    B,
    X,
    Y,
    DpadUp,
    DpadDown,
    DpadRight,
    DpadLeft,
    BumperLeft,
    BumperRight,
    ThumbLeft,
    ThumbRight,
    Select,
    Start,
    Back,
    Unknown,
}

/// The position of a button in a device's digital state array.
pub open spec fn button_index_spec(b: Button) -> int {
    match b {
        Button::A => 0,
        Button::B => 1,
        Button::X => 2,
        Button::Y => 3,
        Button::DpadUp => 4,
        Button::DpadDown => 5,
        Button::DpadRight => 6,
        Button::DpadLeft => 7,
        Button::BumperLeft => 8,
        Button::BumperRight => 9,
        Button::ThumbLeft => 10,
        Button::ThumbRight => 11,
        Button::Select => 12,
        Button::Start => 13,
        Button::Back => 14,
        Button::Unknown => 15,
    }
}

/// The position of a button in a device's digital state array.
pub fn button_index(b: Button) -> (i: usize)
    ensures
        i == button_index_spec(b),
        i < BUTTON_COUNT,
{
    match b {
        Button::A => 0,
        Button::B => 1,
        Button::X => 2,
        Button::Y => 3,
        Button::DpadUp => 4,
        Button::DpadDown => 5,
        Button::DpadRight => 6,
        Button::DpadLeft => 7,
        Button::BumperLeft => 8,
        Button::BumperRight => 9,
        Button::ThumbLeft => 10,
        Button::ThumbRight => 11,
        Button::Select => 12,
        Button::Start => 13,
        Button::Back => 14,
        Button::Unknown => 15,
    }
}

/// One device slot as polled this frame: connection status, the digital
/// button states of this frame and the previous one, and the stick pushed
/// past the activation threshold in each direction.
pub struct PadFrame {
    pub connected: bool,
    pub digital: Vec<bool>,
    pub digital_prev: Vec<bool>,
    pub stick_up: bool,
    pub stick_down: bool,
    pub stick_left: bool,
    pub stick_right: bool,
}

impl PadFrame {
    /// Both button arrays cover every button.
    pub open spec fn wf(self) -> bool {
        self.digital@.len() == BUTTON_COUNT && self.digital_prev@.len() == BUTTON_COUNT
    }
}

/// A rising edge: set this frame, unset the previous frame.
pub open spec fn edge(cur: bool, prev: bool) -> bool {
    cur && !prev
}

/// Some device slot shows a rising edge of the given button this frame.
pub open spec fn any_button_edge(pads: Seq<PadFrame>, btn: int) -> bool {
    exists|i: int|
        0 <= i < pads.len() && edge(pads[i].digital@[btn], pads[i].digital_prev@[btn])
}

/// True when, across all device slots, the button's current digital state is
/// set while its previous-frame state was unset.
pub fn is_gamepad_btn_pressed(pads: &Vec<PadFrame>, btn: Button) -> (r: bool)
    requires
        forall|i: int| 0 <= i < pads@.len() ==> pads@[i].wf(),
    ensures
        r == any_button_edge(pads@, button_index_spec(btn)),
{
    let idx = button_index(btn);
    let mut i: usize = 0;
    while i < pads.len()
        invariant
            i <= pads@.len(),
            idx == button_index_spec(btn),
            idx < BUTTON_COUNT,
            forall|j: int| 0 <= j < i ==> !edge(
                pads@[j].digital@[idx as int],
                pads@[j].digital_prev@[idx as int],
            ),
            forall|k: int| 0 <= k < pads@.len() ==> pads@[k].wf(),
        decreases pads@.len() - i,
    {
        if pads[i].digital[idx] && !pads[i].digital_prev[idx] {
            assert(edge(pads@[i as int].digital@[idx as int], pads@[i as int].digital_prev@[idx as int]));
            return true;
        }
        i += 1;
    }
    false
}

/// A button held on one device across two consecutive frames triggers at
/// most on the first of them: when the second frame's previous state is the
/// first frame's current state and the button is down in both, the second
/// frame shows no rising edge; the first does exactly when the button was up
/// before it.
pub proof fn lemma_held_button_triggers_once(first: PadFrame, second: PadFrame, btn: int)
    requires
        0 <= btn,
        first.wf(),
        second.wf(),
        btn < BUTTON_COUNT,
        second.digital_prev@ == first.digital@,
        first.digital@[btn],
        second.digital@[btn],
    ensures
        !edge(second.digital@[btn], second.digital_prev@[btn]),
        edge(first.digital@[btn], first.digital_prev@[btn]) <==> !first.digital_prev@[btn],
{
}

/// The list of bound players: insertion order, at most two entries, no
/// duplicate binding.
pub struct PlayerList {
    players: Vec<InputScheme>,
}

/// The player list's invariant: capped at two entries, all distinct.
pub open spec fn players_wf(s: Seq<InputScheme>) -> bool {
    s.len() <= 2 && (forall|i: int, j: int| 0 <= i < j < s.len() ==> s[i] != s[j])
}

/// One bind event: append the scheme only when fewer than two players are
/// bound and the scheme is not already present.
pub open spec fn spec_bind(s: Seq<InputScheme>, ev: InputScheme) -> Seq<InputScheme> {
    if s.len() < 2 && !s.contains(ev) {
        s.push(ev)
    } else {
        s
    }
}

/// A whole sequence of bind events, applied in order.
pub open spec fn spec_bind_all(s: Seq<InputScheme>, evs: Seq<InputScheme>) -> Seq<InputScheme>
    decreases evs.len(),
{
    if evs.len() == 0 {
        s
    } else {
        spec_bind_all(spec_bind(s, evs[0]), evs.drop_first())
    }
}

/// One bind event keeps the list's invariant.
pub proof fn lemma_bind_preserves_wf(s: Seq<InputScheme>, ev: InputScheme)
    requires
        players_wf(s),
    ensures
        players_wf(spec_bind(s, ev)),
{
    if s.len() < 2 && !s.contains(ev) {
        let t = s.push(ev);
        assert forall|i: int, j: int| 0 <= i < j < t.len() implies t[i] != t[j] by {
            if j == s.len() as int {
                assert(t[i] == s[i]);
                assert(s.contains(s[i]));
            }
        }
    }
}

/// However many bind events fire and in whatever order, the player list
/// never exceeds two entries and never holds a duplicate scheme.
pub proof fn lemma_bind_all_preserves_wf(s: Seq<InputScheme>, evs: Seq<InputScheme>)
    requires
        players_wf(s),
    ensures
        players_wf(spec_bind_all(s, evs)),
    decreases evs.len(),
{
    if evs.len() != 0 {
        lemma_bind_preserves_wf(s, evs[0]);
        lemma_bind_all_preserves_wf(spec_bind(s, evs[0]), evs.drop_first());
    }
}

/// The keyboard bind events of one frame, `V` before `L`.
pub open spec fn spec_bind_keys(s: Seq<InputScheme>, v: bool, l: bool) -> Seq<InputScheme> {
    let s1 = if v {
        spec_bind(s, InputScheme::KeyboardLeft)
    } else {
        s
    };
    if l {
        spec_bind(s1, InputScheme::KeyboardRight)
    } else {
        s1
    }
}

/// The gamepad bind events of one frame from device slot `i` upward: each
/// slot whose start flag is set binds that slot's scheme.
pub open spec fn spec_bind_starts(s: Seq<InputScheme>, starts: Seq<bool>, i: int) -> Seq<
    InputScheme,
>
    decreases starts.len() - i,
{
    if i < 0 || i >= starts.len() {
        s
    } else {
        let s1 = if starts[i] {
            spec_bind(s, InputScheme::Gamepad(i as usize))
        } else {
            s
        };
        spec_bind_starts(s1, starts, i + 1)
    }
}

/// All bind events of one frame: the keyboard keys, then every device slot
/// in order.
pub open spec fn spec_bind_frame(
    s: Seq<InputScheme>,
    v: bool,
    l: bool,
    starts: Seq<bool>,
) -> Seq<InputScheme> {
    spec_bind_starts(spec_bind_keys(s, v, l), starts, 0)
}

impl View for PlayerList {
    type V = Seq<InputScheme>;

    closed spec fn view(&self) -> Seq<InputScheme> {
        self.players@
    }
}

impl PlayerList {
    /// An empty list: no player bound yet.
    pub fn new() -> (r: Self)
        ensures
            r@ == Seq::<InputScheme>::empty(),
            players_wf(r@),
    {
        PlayerList { players: Vec::new() }
    }

    /// How many players are bound.
    pub fn len(&self) -> (n: usize)
        ensures
            n == self@.len(),
    {
        self.players.len()
    }

    /// The scheme bound at a slot, if that many players are bound.
    pub fn get(&self, i: usize) -> (r: Option<InputScheme>)
        ensures
            i < self@.len() ==> r == Some(self@[i as int]),
            i >= self@.len() ==> r is None,
    {
        if i < self.players.len() {
            Some(self.players[i])
        } else {
            None
        }
    }

    /// Whether the scheme is already bound.
    pub fn contains(&self, ev: InputScheme) -> (r: bool)
        ensures
            r == self@.contains(ev),
    {
        let mut i: usize = 0;
        while i < self.players.len()
            invariant
                i <= self@.len(),
                forall|j: int| 0 <= j < i ==> self@[j] != ev,
            decreases self@.len() - i,
        {
            if self.players[i] == ev {
                assert(self@[i as int] == ev);
                return true;
            }
            i += 1;
        }
        false
    }

    /// A copy of the bound schemes in order.
    pub fn to_vec(&self) -> (v: Vec<InputScheme>)
        ensures
            v@ == self@,
    {
        let mut v: Vec<InputScheme> = Vec::new();
        let mut i: usize = 0;
        while i < self.players.len()
            invariant
                i <= self@.len(),
                v@ == self@.take(i as int),
            decreases self@.len() - i,
        {
            v.push(self.players[i]);
            assert(v@ =~= self@.take(i + 1 as int));
            i += 1;
        }
        assert(v@ =~= self@);
        v
    }

    /// Apply one bind event.
    pub fn bind(&mut self, ev: InputScheme)
        requires
            players_wf(old(self)@),
        ensures
            final(self)@ == spec_bind(old(self)@, ev),
            players_wf(final(self)@),
    {
        proof {
            lemma_bind_preserves_wf(self@, ev);
        }
        if self.players.len() < 2 && !self.contains(ev) {
            self.players.push(ev);
        }
    }

    /// Apply one frame's bind events: the keyboard binding keys newly
    /// pressed this frame, then each device slot whose start button fired.
    pub fn bind_frame(&mut self, v_pressed: bool, l_pressed: bool, starts: &Vec<bool>)
        requires
            players_wf(old(self)@),
        ensures
            final(self)@ == spec_bind_frame(old(self)@, v_pressed, l_pressed, starts@),
            players_wf(final(self)@),
    {
        let ghost target = spec_bind_frame(self@, v_pressed, l_pressed, starts@);
        if v_pressed {
            self.bind(InputScheme::KeyboardLeft);
        }
        if l_pressed {
            self.bind(InputScheme::KeyboardRight);
        }
        let mut i: usize = 0;
        while i < starts.len()
            invariant
                i <= starts@.len(),
                players_wf(self@),
                spec_bind_starts(self@, starts@, i as int) == target,
            decreases starts@.len() - i,
        {
            if starts[i] {
                self.bind(InputScheme::Gamepad(i));
            }
            i += 1;
        }
    }
}

/// The stick directions a device reported on the previous frame, carried
/// frame to frame for edge detection.
pub struct StickPrev {
    pub up: bool,
    pub down: bool,
    pub left: bool,
    pub right: bool,
}

/// The directional and confirm triggers aggregated over one frame.
pub struct DirInput {
    pub up: bool,
    pub down: bool,
    pub left: bool,
    pub right: bool,
    pub start: bool,
}

/// Fold the connected device slots from `i` upward into the aggregated
/// triggers: a stick direction fires on its rising edge against the carried
/// previous state, the confirm fires on a rising edge of A or Start, and the
/// carried state becomes the slot's current stick state.
pub open spec fn spec_poll(
    pads: Seq<PadFrame>,
    i: int,
    acc: DirInput,
    prev: StickPrev,
) -> (DirInput, StickPrev)
    decreases pads.len() - i,
{
    if i < 0 || i >= pads.len() {
        (acc, prev)
    } else {
        let p = pads[i];
        if p.connected {
            let acc2 = DirInput {
                up: acc.up || edge(p.stick_up, prev.up),
                down: acc.down || edge(p.stick_down, prev.down),
                left: acc.left || edge(p.stick_left, prev.left),
                right: acc.right || edge(p.stick_right, prev.right),
                start: acc.start || edge(
                    p.digital@[button_index_spec(Button::A)],
                    p.digital_prev@[button_index_spec(Button::A)],
                ) || edge(
                    p.digital@[button_index_spec(Button::Start)],
                    p.digital_prev@[button_index_spec(Button::Start)],
                ),
            };
            let prev2 = StickPrev {
                up: p.stick_up,
                down: p.stick_down,
                left: p.stick_left,
                right: p.stick_right,
            };
            spec_poll(pads, i + 1, acc2, prev2)
        } else {
            spec_poll(pads, i + 1, acc, prev)
        }
    }
}

/// Aggregate one frame's directional input: start from the keyboard's
/// triggers and fold in every connected device slot, updating the carried
/// previous-frame stick state in place.
pub fn poll_directions(prev: &mut StickPrev, keys: DirInput, pads: &Vec<PadFrame>) -> (dirs:
    DirInput)
    requires
        forall|i: int| 0 <= i < pads@.len() ==> pads@[i].wf(),
    ensures
        (dirs, *final(prev)) == spec_poll(pads@, 0, keys, *old(prev)),
{
    let ghost target = spec_poll(pads@, 0, keys, *prev);
    let mut acc = keys;
    let mut i: usize = 0;
    while i < pads.len()
        invariant
            i <= pads@.len(),
            forall|k: int| 0 <= k < pads@.len() ==> pads@[k].wf(),
            spec_poll(pads@, i as int, acc, *prev) == target,
        decreases pads@.len() - i,
    {
        if pads[i].connected {
            let idx_a = button_index(Button::A);
            let idx_start = button_index(Button::Start);
            let start_edge = (pads[i].digital[idx_a] && !pads[i].digital_prev[idx_a]) || (
            pads[i].digital[idx_start] && !pads[i].digital_prev[idx_start]);
            acc = DirInput {
                up: acc.up || (pads[i].stick_up && !prev.up),
                down: acc.down || (pads[i].stick_down && !prev.down),
                left: acc.left || (pads[i].stick_left && !prev.left),
                right: acc.right || (pads[i].stick_right && !prev.right),
                start: acc.start || start_edge,
            };
            *prev = StickPrev {
                up: pads[i].stick_up,
                down: pads[i].stick_down,
                left: pads[i].stick_left,
                right: pads[i].stick_right,
            };
        }
        i += 1;
    }
    acc
}

} // verus!
