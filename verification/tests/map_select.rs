use jumpy::controls::PlayerControl;
use jumpy::geometry::Scalar;
use jumpy::map_select::{
    find_named, handle_match_setup_messages, MapEntry, MapPool, MapPoolNetwork, MapSelectMessage,
    TestMap,
};
use jumpy::map_select_page::{
    replicate_map_select_action, widget, Answer, ControlSource, EditorInput, MapSelectAction,
    MapSelectPage, MatchScore, MatchSetup, MenuPage, NetworkMeta, PagePhase, PlayerInput,
    PlayerSelectState, PlayerSlot, SessionRunner, Step,
};
use jumpy::networking::StringCache;

const META: NetworkMeta = NetworkMeta { max_prediction_window: 7, local_input_delay: 2 };

const FPS: Scalar = Scalar { bits: 0x4270_0000 };

fn pool(maps: &[u128]) -> MapPool {
    MapPool { maps: maps.to_vec() }
}

fn network(ids: &[u8]) -> MapPoolNetwork {
    MapPoolNetwork { maps: ids.iter().map(|id| [*id; 32]).collect() }
}

fn message(ids: &[u8]) -> Vec<u8> {
    MapSelectMessage::SelectMap(network(ids)).to_bytes()
}

fn entry(handle: u128, name: &str) -> MapEntry {
    MapEntry { handle, name: name.to_string() }
}

fn empty_slot() -> PlayerSlot {
    PlayerSlot {
        is_empty: true,
        selected_player: None,
        selected_hat: None,
        user_control_source: None,
        is_ai: false,
    }
}

fn players() -> PlayerSelectState {
    PlayerSelectState {
        slots: vec![
            PlayerSlot {
                is_empty: false,
                selected_player: Some(52),
                selected_hat: Some(61),
                user_control_source: Some(ControlSource { id: 3 }),
                is_ai: false,
            },
            PlayerSlot { is_ai: true, is_empty: false, ..empty_slot() },
            empty_slot(),
        ],
        players: vec![51, 52],
    }
}

fn setup() -> MatchSetup {
    MatchSetup { players: players(), plugins: vec![71, 72] }
}

fn open(online: bool) -> (MapSelectPage, Step) {
    let mut checked = true;
    widget(online, true, &mut checked, META, FPS)
}

#[test]
fn message_bytes() {
    let bytes = message(&[5, 9]);
    assert_eq!(bytes.len(), 2 + 64);
    assert_eq!(bytes[0..3], [0, 2, 5]);
    assert_eq!(bytes[65], 9);
    match MapSelectMessage::from_bytes(&bytes) {
        Some(MapSelectMessage::SelectMap(read)) => assert_eq!(read.maps, vec![[5u8; 32], [9u8; 32]]),
        None => panic!("not understood"),
    }
}

#[test]
fn first_understood_message_is_the_selection() {
    let datas = vec![(0, vec![]), (3, vec![9, 9]), (1, message(&[4])), (2, message(&[8]))];
    match handle_match_setup_messages(&datas) {
        Some(read) => assert_eq!(read.maps, vec![[4u8; 32]]),
        None => panic!("nothing selected"),
    }
}

#[test]
fn other_messages_are_ignored() {
    let names = StringCache { strings: vec!["a".to_string()] }.to_message();
    let mut cut = message(&[4]);
    cut.pop();
    assert!(handle_match_setup_messages(&vec![(0, names), (1, cut), (2, vec![1, 0])]).is_none());
    assert!(handle_match_setup_messages(&vec![]).is_none());
}

#[test]
fn single_map_pool() {
    assert_eq!(MapPool::from_single_map(6).maps, vec![6]);
    assert_eq!(pool(&[1, 2]).copied().maps, vec![1, 2]);
}

#[test]
fn named_maps_are_found_in_order() {
    let maps = vec![entry(1, "a"), entry(2, "b"), entry(3, "b")];
    assert_eq!(find_named(&maps, &"b".to_string()), Some(2));
    assert_eq!(find_named(&maps, &"c".to_string()), None);
    let mut test = TestMap {
        name: "b".to_string(),
        core: vec![entry(1, "a")],
        packs: vec![vec![], vec![entry(7, "b")], vec![entry(8, "b")]],
    };
    assert_eq!(test.find(), Some(7));
    test.core.push(entry(4, "b"));
    assert_eq!(test.find(), Some(4));
    test.name = "z".to_string();
    assert_eq!(test.find(), None);
}

#[test]
fn only_selections_in_online_matches_are_replicated() {
    assert!(replicate_map_select_action(&MapSelectAction::SelectMap(pool(&[1])), true));
    assert!(!replicate_map_select_action(&MapSelectAction::SelectMap(pool(&[1])), false));
    assert!(!replicate_map_select_action(&MapSelectAction::GoBack, true));
    assert!(!replicate_map_select_action(&MapSelectAction::Nothing, true));
}

#[test]
fn players_of_the_match() {
    let inputs = players().player_info();
    assert_eq!(
        inputs,
        vec![
            PlayerInput {
                active: true,
                selected_player: 52,
                selected_hat: Some(61),
                control_source: Some(ControlSource { id: 3 }),
                editor_input: EditorInput::ByDefault,
                control: PlayerControl::ByDefault,
                is_ai: false,
            },
            PlayerInput {
                active: true,
                selected_player: 51,
                selected_hat: None,
                control_source: None,
                editor_input: EditorInput::ByDefault,
                control: PlayerControl::ByDefault,
                is_ai: true,
            },
            PlayerInput {
                active: false,
                selected_player: 51,
                selected_hat: None,
                control_source: None,
                editor_input: EditorInput::ByDefault,
                control: PlayerControl::ByDefault,
                is_ai: false,
            },
        ]
    );
}

#[test]
fn offline_selection_starts_a_local_match() {
    let (mut page, step) = open(false);
    assert!(matches!(step, Step::RunMenu));
    let step = page.advance(Answer::Menu(MapSelectAction::SelectMap(pool(&[3, 4]))));
    assert!(matches!(step, Step::DeleteSession));
    assert!(matches!(page.advance(Answer::Done), Step::SetPage(MenuPage::Home)));
    assert!(matches!(page.advance(Answer::Done), Step::ReadSetup));
    match page.advance(Answer::Setup(setup())) {
        Step::StartGame(start) => {
            assert_eq!(start.maps.maps, vec![3, 4]);
            assert_eq!(start.player_info, players().player_info());
            assert_eq!(start.plugins, vec![71, 72]);
            assert_eq!(start.session_runner, SessionRunner::Local);
            assert_eq!(start.score, MatchScore::ByDefault);
        }
        _ => panic!("expected a match"),
    }
    assert!(matches!(page.advance(Answer::Done), Step::ResetPlayerSelect));
    assert!(matches!(page.advance(Answer::Done), Step::End));
    assert!(matches!(page.advance(Answer::Done), Step::Unexpected));
}

#[test]
fn online_selection_is_sent_and_received() {
    let (mut page, step) = open(true);
    assert!(matches!(step, Step::Receive));
    assert!(matches!(page.advance(Answer::Received(vec![])), Step::RunMenu));
    match page.advance(Answer::Menu(MapSelectAction::SelectMap(pool(&[3])))) {
        Step::Identify(maps) => assert_eq!(maps.maps, vec![3]),
        _ => panic!("expected to identify the maps"),
    }
    let sent = match page.advance(Answer::Identified(network(&[30]))) {
        Step::Send(bytes) => bytes,
        _ => panic!("expected a message"),
    };
    assert!(matches!(page.advance(Answer::Done), Step::DeleteSession));

    let (mut peer, _) = open(true);
    match peer.advance(Answer::Received(vec![(0, vec![77]), (0, sent)])) {
        Step::Resolve(maps) => assert_eq!(maps.maps, vec![[30u8; 32]]),
        _ => panic!("expected to resolve the maps"),
    }
    assert!(matches!(peer.advance(Answer::Resolved(pool(&[13]))), Step::DeleteSession));
    assert!(matches!(peer.advance(Answer::Done), Step::SetPage(MenuPage::Home)));
    assert!(matches!(peer.advance(Answer::Done), Step::ReadSeed));
    assert!(matches!(peer.advance(Answer::Seed(99)), Step::ReadSetup));
    match peer.advance(Answer::Setup(setup())) {
        Step::StartGame(start) => {
            assert_eq!(start.maps.maps, vec![13]);
            assert_eq!(
                start.session_runner,
                SessionRunner::Online {
                    frame_rate: Some(Scalar { bits: 60.0f32.to_bits() }),
                    max_prediction_window: Some(7),
                    local_input_delay: Some(2),
                    random_seed: 99,
                }
            );
        }
        _ => panic!("expected a match"),
    }
}

#[test]
fn going_back_leaves_the_page() {
    let (mut page, _) = open(false);
    let step = page.advance(Answer::Menu(MapSelectAction::GoBack));
    assert!(matches!(step, Step::SetPage(MenuPage::PlayerSelect)));
    assert!(matches!(page.advance(Answer::Done), Step::End));
    assert_eq!(page.phase, PagePhase::Ended);
}

#[test]
fn nothing_done_ends_the_page() {
    let (mut page, _) = open(false);
    assert!(matches!(page.advance(Answer::Menu(MapSelectAction::Nothing)), Step::End));
}

#[test]
fn test_map_is_asked_for_once() {
    let mut checked = false;
    let (mut page, step) = widget(false, true, &mut checked, META, FPS);
    assert!(matches!(step, Step::ReadTestMap));
    assert!(checked);
    let test = TestMap { name: "b".to_string(), core: vec![entry(4, "b")], packs: vec![] };
    assert!(matches!(page.advance(Answer::TestMap(Some(test))), Step::DeleteSession));
    assert_eq!(page.selected.map(|maps| maps.maps), Some(vec![4]));

    let (_, step) = widget(false, true, &mut checked, META, FPS);
    assert!(matches!(step, Step::RunMenu));

    let mut release = false;
    let (_, step) = widget(false, false, &mut release, META, FPS);
    assert!(matches!(step, Step::RunMenu));
    assert!(!release);
}

#[test]
fn missing_test_map_changes_nothing() {
    let mut checked = false;
    let (mut page, _) = widget(false, true, &mut checked, META, FPS);
    let test = TestMap { name: "b".to_string(), core: vec![], packs: vec![] };
    assert!(matches!(page.advance(Answer::TestMap(Some(test))), Step::RunMenu));

    let mut checked = false;
    let (mut page, _) = widget(false, true, &mut checked, META, FPS);
    assert!(matches!(page.advance(Answer::TestMap(None)), Step::RunMenu));
}

#[test]
fn test_map_replaces_a_received_selection() {
    let mut checked = false;
    let (mut page, _) = widget(true, true, &mut checked, META, FPS);
    let step = page.advance(Answer::Received(vec![(1, message(&[2]))]));
    assert!(matches!(step, Step::Resolve(_)));
    assert!(matches!(page.advance(Answer::Resolved(pool(&[12]))), Step::ReadTestMap));
    let test = TestMap { name: "b".to_string(), core: vec![entry(4, "b")], packs: vec![] };
    assert!(matches!(page.advance(Answer::TestMap(Some(test))), Step::DeleteSession));
    assert_eq!(page.selected.map(|maps| maps.maps), Some(vec![4]));
}

#[test]
fn unexpected_answers_change_nothing() {
    let (mut page, _) = open(false);
    assert!(matches!(page.advance(Answer::Seed(1)), Step::Unexpected));
    assert_eq!(page.phase, PagePhase::InMenu);
    assert!(matches!(page.advance(Answer::Menu(MapSelectAction::Nothing)), Step::End));
}
