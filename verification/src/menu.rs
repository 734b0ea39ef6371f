//! The menu flow: the two-tab selector, the local and network sub-flows,
//! and the level-select frame driver.
//!
//! Each frame the application polls its devices, renders the widgets, and
//! hands this module the frame's plain trigger values; the module updates
//! the menu state and decides what, if anything, the frame concluded.

use crate::grid::{nav_step, GridNav};
use crate::input::{players_wf, spec_bind_frame, DirInput, InputScheme, PlayerList};
use vstd::prelude::*;

verus! {

/// The configuration handed back to the caller when the menu flow ends. The
/// bound transport endpoint of a network game stays with the application,
/// which pairs it with the session data.
pub enum GameType {
    /// A local two-player game carrying the bound schemes in player order.
    Local(Vec<InputScheme>),
    /// A network game: the peer's address, this side's duplex role, and the
    /// local player's binding.
    Network { other_addr: String, id: u8, input_scheme: InputScheme },
}

/// What one frame of the main menu decided.
pub enum MenuResult {
    /// Nothing yet: keep showing the menu.
    Pending,
    /// A game is ready to start.
    DirectGame(GameType),
    /// Hand control to the rendezvous screen with the chosen player binding.
    MatchmakerGame { stun: bool, input: InputScheme },
}

/// The tab after one frame's directional triggers: with exactly two tabs,
/// each of left and right toggles, so both together cancel out.
pub open spec fn spec_toggle_tab(tab: int, left: bool, right: bool) -> int {
    let t1 = if left {
        (tab + 1) % 2
    } else {
        tab
    };
    if right {
        (t1 + 1) % 2
    } else {
        t1
    }
}

/// Apply one frame's left and right triggers to the selected tab.
pub fn toggle_tab(tab: u8, left: bool, right: bool) -> (t: u8)
    requires
        tab < 2,
    ensures
        t == spec_toggle_tab(tab as int, left, right),
        t < 2,
{
    let mut t = tab;
    if left {
        t = (t + 1) % 2;
    }
    if right {
        t = (t + 1) % 2;
    }
    t
}

/// One frame of the local sub-flow: confirmation is possible exactly when
/// two players are bound and a confirm trigger fired, and then the game
/// starts with a copy of the bound schemes in player order.
pub fn local_game_update(players: &PlayerList, ready_button: bool, btn_a: bool, enter: bool) -> (r:
    MenuResult)
    ensures
        if players@.len() == 2 && (ready_button || btn_a || enter) {
            match r {
                MenuResult::DirectGame(g) => match g {
                    GameType::Local(v) => v@ == players@,
                    _ => false,
                },
                _ => false,
            }
        } else {
            r is Pending
        },
{
    if players.len() == 2 {
        if ready_button || btn_a || enter {
            return MenuResult::DirectGame(GameType::Local(players.to_vec()));
        }
    }
    MenuResult::Pending
}

/// One frame of the network sub-flow: when at least one player is bound and
/// a confirm trigger fired, hand control to the rendezvous screen with the
/// first bound scheme; otherwise keep waiting.
pub fn network_game_update(
    players: &PlayerList,
    stun: bool,
    connect_button: bool,
    btn_a: bool,
    enter: bool,
) -> (r: MenuResult)
    ensures
        if players@.len() >= 1 && (connect_button || btn_a || enter) {
            match r {
                MenuResult::MatchmakerGame { stun: s, input: chosen } => s == stun && chosen
                    == players@[0],
                _ => false,
            }
        } else {
            r is Pending
        },
{
    match players.get(0) {
        Some(input) => {
            if connect_button || btn_a || enter {
                MenuResult::MatchmakerGame { stun, input }
            } else {
                MenuResult::Pending
            }
        },
        None => MenuResult::Pending,
    }
}

/// The main menu's state between frames: the selected tab, the
/// address-discovery toggle of the network sub-flow, and the bound players.
pub struct MenuState {
    pub tab: u8,
    pub stun: bool,
    pub players: PlayerList,
}

/// One frame's plain trigger values, polled by the application.
pub struct MenuFrameInput {
    /// A left directional trigger fired (key or gamepad edge).
    pub left: bool,
    /// A right directional trigger fired.
    pub right: bool,
    /// The first keyboard binding key was newly pressed.
    pub v_pressed: bool,
    /// The second keyboard binding key was newly pressed.
    pub l_pressed: bool,
    /// Per device slot, whether its bind trigger fired.
    pub starts: Vec<bool>,
    /// The frame's on-screen confirm control was activated.
    pub confirm_button: bool,
    /// A gamepad confirm edge fired.
    pub btn_a: bool,
    /// The keyboard confirm key was newly pressed.
    pub enter: bool,
}

impl MenuState {
    /// The menu state's invariant: a valid tab and a well-formed player
    /// list.
    pub open spec fn wf(self) -> bool {
        self.tab < 2 && players_wf(self.players@)
    }

    /// The menu as first shown: the local tab, address discovery on, no
    /// player bound.
    pub fn new() -> (s: Self)
        ensures
            s.wf(),
            s.tab == 0,
            s.stun == true,
            s.players@ == Seq::<InputScheme>::empty(),
    {
        MenuState { tab: 0, stun: true, players: PlayerList::new() }
    }

    /// One frame of the main menu: toggle the tab on the directional
    /// triggers, apply the frame's bind events, then let the selected tab's
    /// sub-flow decide.
    pub fn frame(&mut self, frame: &MenuFrameInput) -> (r: MenuResult)
        requires
            old(self).wf(),
        ensures
            final(self).wf(),
            final(self).tab == spec_toggle_tab(old(self).tab as int, frame.left, frame.right),
            final(self).stun == old(self).stun,
            final(self).players@ == spec_bind_frame(
                old(self).players@,
                frame.v_pressed,
                frame.l_pressed,
                frame.starts@,
            ),
            ({
                let confirm = frame.confirm_button || frame.btn_a || frame.enter;
                let bound = final(self).players@;
                if final(self).tab == 0 {
                    if bound.len() == 2 && confirm {
                        match r {
                            MenuResult::DirectGame(g) => match g {
                                GameType::Local(v) => v@ == bound,
                                _ => false,
                            },
                            _ => false,
                        }
                    } else {
                        r is Pending
                    }
                } else {
                    if bound.len() >= 1 && confirm {
                        match r {
                            MenuResult::MatchmakerGame { stun: s, input: chosen } => s == old(
                                self,
                            ).stun && chosen == bound[0],
                            _ => false,
                        }
                    } else {
                        r is Pending
                    }
                }
            }),
    {
        self.tab = toggle_tab(self.tab, frame.left, frame.right);
        self.players.bind_frame(frame.v_pressed, frame.l_pressed, &frame.starts);
        if self.tab == 0 {
            local_game_update(&self.players, frame.confirm_button, frame.btn_a, frame.enter)
        } else {
            network_game_update(
                &self.players,
                self.stun,
                frame.confirm_button,
                frame.btn_a,
                frame.enter,
            )
        }
    }
}

/// One frame of the level-select screen: apply the directional deltas to
/// the hovered index, let a pointer that moved over an entry override the
/// result, and on a confirm trigger return the hovered entry's map
/// identifier.
pub fn location_frame(
    nav: &mut GridNav,
    maps: &Vec<String>,
    dirs: DirInput,
    pointer_over: Option<usize>,
    clicked: bool,
) -> (r: Option<String>)
    requires
        old(nav).wf(),
        maps@.len() == old(nav).item_count,
        match pointer_over {
            Some(i) => i < old(nav).item_count,
            None => true,
        },
    ensures
        final(nav).wf(),
        final(nav).item_count == old(nav).item_count,
        final(nav).hovered as int == (match pointer_over {
            Some(i) => i as int,
            None => nav_step(
                old(nav).hovered as int,
                old(nav).item_count as int,
                dirs.up,
                dirs.down,
                dirs.left,
                dirs.right,
            ),
        }),
        match r {
            Some(map) => (clicked || dirs.start) && map@ == maps@[final(nav).hovered as int]@,
            None => !(clicked || dirs.start),
        },
{
    nav.step(dirs.up, dirs.down, dirs.left, dirs.right);
    match pointer_over {
        Some(i) => nav.point_at(i),
        None => (),
    }
    if clicked || dirs.start {
        Some(maps[nav.hovered].clone())
    } else {
        None
    }
}

} // verus!
