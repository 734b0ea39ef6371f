use menu_flow::grid::GridNav;
use menu_flow::input::{
    is_gamepad_btn_pressed, poll_directions, Button, DirInput, InputScheme, PadFrame, PlayerList,
    StickPrev, BUTTON_COUNT,
};
use menu_flow::menu::{
    local_game_update, location_frame, network_game_update, toggle_tab, GameType, MenuFrameInput,
    MenuResult, MenuState,
};
use menu_flow::rendezvous::{peer_id, rendezvous_frame, str_eq_bytes, str_lt};

const IDX_A: usize = 0;
const IDX_START: usize = 13;

fn pad(on: &[usize], prev_on: &[usize], connected: bool) -> PadFrame {
    let mut digital = vec![false; BUTTON_COUNT];
    let mut digital_prev = vec![false; BUTTON_COUNT];
    for &i in on {
        digital[i] = true;
    }
    for &i in prev_on {
        digital_prev[i] = true;
    }
    PadFrame {
        connected,
        digital,
        digital_prev,
        stick_up: false,
        stick_down: false,
        stick_left: false,
        stick_right: false,
    }
}

fn no_dirs() -> DirInput {
    DirInput { up: false, down: false, left: false, right: false, start: false }
}

#[test]
fn player_list_caps_at_two_and_dedups() {
    let mut players = PlayerList::new();
    players.bind(InputScheme::KeyboardLeft);
    players.bind(InputScheme::KeyboardLeft);
    assert_eq!(players.len(), 1);
    players.bind(InputScheme::KeyboardRight);
    players.bind(InputScheme::KeyboardRight);
    assert_eq!(players.len(), 2);
    players.bind(InputScheme::Gamepad(0));
    assert_eq!(players.len(), 2);
    assert_eq!(players.get(0), Some(InputScheme::KeyboardLeft));
    assert_eq!(players.get(1), Some(InputScheme::KeyboardRight));
    assert_eq!(players.get(2), None);
}

#[test]
fn bind_frame_orders_keys_before_gamepads() {
    let mut players = PlayerList::new();
    let starts = vec![false, true, false, true];
    players.bind_frame(false, true, &starts);
    assert_eq!(players.get(0), Some(InputScheme::KeyboardRight));
    assert_eq!(players.get(1), Some(InputScheme::Gamepad(1)));
    assert_eq!(players.len(), 2);
}

#[test]
fn grid_down_from_last_item_wraps_to_column() {
    let mut nav = GridNav::new(7);
    nav.point_at(6);
    nav.step(false, true, false, false);
    assert_eq!(nav.hovered, 0);
}

#[test]
fn grid_up_down_round_trip_on_full_grid() {
    for h in 0..6 {
        let mut nav = GridNav::new(6);
        nav.point_at(h);
        nav.step(true, false, false, false);
        nav.step(false, true, false, false);
        assert_eq!(nav.hovered, h);

        let mut nav = GridNav::new(6);
        nav.point_at(h);
        nav.step(false, true, false, false);
        nav.step(true, false, false, false);
        assert_eq!(nav.hovered, h);
    }
}

#[test]
fn grid_stays_in_range_under_any_deltas() {
    let mut nav = GridNav::new(7);
    let moves = [
        (true, false, false, false),
        (false, true, false, false),
        (false, false, true, false),
        (false, false, false, true),
        (true, true, false, false),
        (true, false, true, true),
        (false, true, true, false),
        (true, true, true, true),
        (false, false, true, false),
        (true, false, false, true),
    ];
    for &(u, d, l, r) in moves.iter() {
        nav.step(u, d, l, r);
        assert!(nav.hovered < 7);
    }
}

#[test]
fn grid_left_from_first_wraps_to_last() {
    let mut nav = GridNav::new(5);
    nav.step(false, false, true, false);
    assert_eq!(nav.hovered, 4);
}

#[test]
fn grid_up_from_top_lands_in_last_row_same_column() {
    let mut nav = GridNav::new(7);
    nav.point_at(0);
    nav.step(true, false, false, false);
    assert_eq!(nav.hovered, 6);
    let mut nav = GridNav::new(7);
    nav.point_at(1);
    nav.step(true, false, false, false);
    assert_eq!(nav.hovered, 4);
}

#[test]
fn peer_id_is_a_strict_tie_break() {
    assert_eq!(peer_id("10.0.0.5:4000", "10.0.0.9:4000"), 1);
    assert_eq!(peer_id("10.0.0.9:4000", "10.0.0.5:4000"), 0);
    assert_eq!(peer_id("b", "a"), 0);
    assert_eq!(peer_id("a", "b"), 1);
}

#[test]
fn string_order_is_lexicographic() {
    assert!(str_lt("abc", "abd"));
    assert!(str_lt("ab", "abc"));
    assert!(!str_lt("b", "a"));
    assert!(str_lt("", "a"));
    assert!(!str_lt("a", ""));
    assert!(!str_lt("abc", "abc"));
    assert!(str_eq_bytes("abc", "abc"));
    assert!(!str_eq_bytes("abc", "abd"));
    assert!(!str_eq_bytes("ab", "abc"));
}

#[test]
fn local_flow_needs_exactly_two_players() {
    let mut players = PlayerList::new();
    assert!(matches!(
        local_game_update(&players, true, true, true),
        MenuResult::Pending
    ));
    players.bind(InputScheme::KeyboardLeft);
    assert!(matches!(
        local_game_update(&players, true, true, true),
        MenuResult::Pending
    ));
    players.bind(InputScheme::Gamepad(3));
    assert!(matches!(
        local_game_update(&players, false, false, false),
        MenuResult::Pending
    ));
    match local_game_update(&players, false, false, true) {
        MenuResult::DirectGame(GameType::Local(v)) => {
            assert_eq!(v, vec![InputScheme::KeyboardLeft, InputScheme::Gamepad(3)]);
        }
        _ => panic!("expected a local game"),
    }
}

#[test]
fn network_flow_needs_a_bound_player() {
    let mut players = PlayerList::new();
    assert!(matches!(
        network_game_update(&players, true, true, true, true),
        MenuResult::Pending
    ));
    players.bind(InputScheme::KeyboardRight);
    assert!(matches!(
        network_game_update(&players, true, false, false, false),
        MenuResult::Pending
    ));
    match network_game_update(&players, false, false, true, false) {
        MenuResult::MatchmakerGame { stun, input } => {
            assert!(!stun);
            assert_eq!(input, InputScheme::KeyboardRight);
        }
        _ => panic!("expected the rendezvous hand-off"),
    }
}

#[test]
fn held_gamepad_button_triggers_exactly_once() {
    let first = vec![pad(&[IDX_A], &[], true)];
    assert!(is_gamepad_btn_pressed(&first, Button::A));
    let second = vec![pad(&[IDX_A], &[IDX_A], true)];
    assert!(!is_gamepad_btn_pressed(&second, Button::A));
    let released = vec![pad(&[], &[IDX_A], true)];
    assert!(!is_gamepad_btn_pressed(&released, Button::A));
}

#[test]
fn button_edge_seen_across_device_slots() {
    let pads = vec![pad(&[], &[], true), pad(&[IDX_START], &[], false)];
    assert!(is_gamepad_btn_pressed(&pads, Button::Start));
    assert!(!is_gamepad_btn_pressed(&pads, Button::A));
}

#[test]
fn stick_direction_triggers_on_rising_edge_only() {
    let mut prev = StickPrev { up: false, down: false, left: false, right: false };
    let mut held = pad(&[], &[], true);
    held.stick_up = true;
    let dirs = poll_directions(&mut prev, no_dirs(), &vec![held]);
    assert!(dirs.up);
    assert!(prev.up);

    let mut still_held = pad(&[], &[], true);
    still_held.stick_up = true;
    let dirs = poll_directions(&mut prev, no_dirs(), &vec![still_held]);
    assert!(!dirs.up);
}

#[test]
fn disconnected_pad_is_ignored() {
    let mut unplugged = pad(&[IDX_A], &[], false);
    unplugged.stick_down = true;
    let mut prev = StickPrev { up: false, down: false, left: false, right: false };
    let dirs = poll_directions(&mut prev, no_dirs(), &vec![unplugged]);
    assert!(!dirs.down);
    assert!(!dirs.start);
    assert!(!prev.down);
}

#[test]
fn poll_keeps_keyboard_triggers() {
    let mut prev = StickPrev { up: false, down: false, left: false, right: false };
    let keys = DirInput { up: false, down: true, left: false, right: false, start: true };
    let dirs = poll_directions(&mut prev, keys, &Vec::new());
    assert!(dirs.down);
    assert!(dirs.start);
    assert!(!dirs.up);
}

#[test]
fn tab_toggles_on_either_direction() {
    assert_eq!(toggle_tab(0, true, false), 1);
    assert_eq!(toggle_tab(0, false, true), 1);
    assert_eq!(toggle_tab(1, true, false), 0);
    assert_eq!(toggle_tab(1, true, true), 1);
    assert_eq!(toggle_tab(0, false, false), 0);
}

#[test]
fn menu_frame_binds_then_confirms_local_game() {
    let mut state = MenuState::new();
    let bind_frame = MenuFrameInput {
        left: false,
        right: false,
        v_pressed: true,
        l_pressed: true,
        starts: Vec::new(),
        confirm_button: false,
        btn_a: false,
        enter: false,
    };
    assert!(matches!(state.frame(&bind_frame), MenuResult::Pending));
    let confirm_frame = MenuFrameInput {
        left: false,
        right: false,
        v_pressed: false,
        l_pressed: false,
        starts: Vec::new(),
        confirm_button: false,
        btn_a: false,
        enter: true,
    };
    match state.frame(&confirm_frame) {
        MenuResult::DirectGame(GameType::Local(v)) => {
            assert_eq!(v, vec![InputScheme::KeyboardLeft, InputScheme::KeyboardRight]);
        }
        _ => panic!("expected a local game"),
    }
}

#[test]
fn menu_frame_network_tab_hands_off_first_player() {
    let mut state = MenuState::new();
    state.stun = false;
    let frame = MenuFrameInput {
        left: true,
        right: false,
        v_pressed: true,
        l_pressed: false,
        starts: Vec::new(),
        confirm_button: false,
        btn_a: true,
        enter: false,
    };
    match state.frame(&frame) {
        MenuResult::MatchmakerGame { stun, input } => {
            assert!(!stun);
            assert_eq!(input, InputScheme::KeyboardLeft);
        }
        _ => panic!("expected the rendezvous hand-off"),
    }
    assert_eq!(state.tab, 1);
}

#[test]
fn rendezvous_waits_without_confirm_or_address() {
    let local = String::from("10.0.0.5:4000");
    let empty = String::new();
    let peer = String::from("10.0.0.9:4000");
    assert!(rendezvous_frame(&local, &peer, InputScheme::KeyboardLeft, false).is_none());
    assert!(rendezvous_frame(&local, &empty, InputScheme::KeyboardLeft, true).is_none());
    assert!(rendezvous_frame(&local, &local, InputScheme::KeyboardLeft, true).is_none());
}

#[test]
fn rendezvous_forms_complementary_sessions() {
    let a = String::from("10.0.0.5:4000");
    let b = String::from("10.0.0.9:4000");
    let on_a = rendezvous_frame(&a, &b, InputScheme::KeyboardLeft, true).unwrap();
    let on_b = rendezvous_frame(&b, &a, InputScheme::Gamepad(0), true).unwrap();
    assert_eq!(on_a.id, 1);
    assert_eq!(on_b.id, 0);
    assert_eq!(on_a.local_addr, a);
    assert_eq!(on_a.peer_addr, b);
    assert_eq!(on_a.input_scheme, InputScheme::KeyboardLeft);
    assert_eq!(on_b.input_scheme, InputScheme::Gamepad(0));
}

#[test]
fn location_frame_confirms_hovered_map() {
    let maps: Vec<String> = (0..7).map(|i| format!("map{}", i)).collect();
    let mut nav = GridNav::new(7);
    assert!(location_frame(&mut nav, &maps, no_dirs(), None, false).is_none());
    let mut start = no_dirs();
    start.start = true;
    assert_eq!(
        location_frame(&mut nav, &maps, start, None, false),
        Some(String::from("map0"))
    );
    assert_eq!(
        location_frame(&mut nav, &maps, no_dirs(), Some(3), true),
        Some(String::from("map3"))
    );
    assert_eq!(nav.hovered, 3);
}

#[test]
fn location_frame_pointer_overrides_directions() {
    let maps: Vec<String> = (0..7).map(|i| format!("map{}", i)).collect();
    let mut nav = GridNav::new(7);
    let mut down = no_dirs();
    down.down = true;
    let r = location_frame(&mut nav, &maps, down, Some(5), false);
    assert!(r.is_none());
    assert_eq!(nav.hovered, 5);
}

#[test]
fn session_yields_network_game_type() {
    let a = String::from("addr.a");
    let b = String::from("addr.b");
    let session = rendezvous_frame(&a, &b, InputScheme::Gamepad(2), true).unwrap();
    match session.into_game_type() {
        GameType::Network { other_addr, id, input_scheme } => {
            assert_eq!(other_addr, "addr.b");
            assert_eq!(id, 1);
            assert_eq!(input_scheme, InputScheme::Gamepad(2));
        }
        _ => panic!("expected a network game"),
    }
}
