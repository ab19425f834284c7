//! The menu page on which maps are chosen, and the start of the match on them.
//!
//! The page is a sequence of steps that the host carries out, and of its answers to them.

use vstd::prelude::*;

use crate::controls::PlayerControl;
use crate::geometry::Scalar;
use crate::map_select::{
    contents, entries, first_selection, handle_match_setup_messages, selection, MapPool,
    MapPoolNetwork, MapSelectMessage, TestMap, SELECT_MAP,
};
use crate::wire::{id_list_bytes, ContentId};

verus! {

/// What was done on the page.
pub enum MapSelectAction {
    Nothing,
    SelectMap(MapPool),
    GoBack,
}

/// What was done on the page, with maps as a sequence.
pub enum MapSelectActionView {
    Nothing,
    SelectMap(Seq<u128>),
    GoBack,
}

impl View for MapSelectAction {
    type V = MapSelectActionView;

    open spec fn view(&self) -> MapSelectActionView {
        match *self {
            MapSelectAction::Nothing => MapSelectActionView::Nothing,
            MapSelectAction::SelectMap(pool) => MapSelectActionView::SelectMap(pool@),
            MapSelectAction::GoBack => MapSelectActionView::GoBack,
        }
    }
}

/// A page of the main menu.
#[derive(Clone, Copy, Debug, PartialEq, Eq, Structural)]
pub enum MenuPage {
    Home,
    PlayerSelect,
}

/// What a player controls the game with, by its number.
#[derive(Clone, Copy, Debug, PartialEq, Eq, Structural)]
pub struct ControlSource {
    pub id: u32,
}

/// A place for a player, as it was left on the player select page.
#[derive(Clone, Copy, Debug, PartialEq, Eq, Structural)]
pub struct PlayerSlot {
    pub is_empty: bool,
    /// The handle of the player that was selected.
    pub selected_player: Option<u128>,
    /// The handle of the hat that was selected.
    pub selected_hat: Option<u128>,
    pub user_control_source: Option<ControlSource>,
    pub is_ai: bool,
}

/// What was chosen on the player select page.
pub struct PlayerSelectState {
    pub slots: Vec<PlayerSlot>,
    /// The handles of the players that can be selected.
    pub players: Vec<u128>,
}

/// The input that a player gives to the map editor.
#[derive(Clone, Copy, Debug, PartialEq, Eq, Structural)]
pub enum EditorInput {
    /// As it is by default.
    ByDefault,
}

/// The score of a match.
#[derive(Clone, Copy, Debug, PartialEq, Eq, Structural)]
pub enum MatchScore {
    /// As it is by default.
    ByDefault,
}

/// A player of a match.
#[derive(Clone, Copy, Debug, PartialEq, Eq, Structural)]
pub struct PlayerInput {
    pub active: bool,
    pub selected_player: u128,
    pub selected_hat: Option<u128>,
    pub control_source: Option<ControlSource>,
    pub editor_input: EditorInput,
    pub control: PlayerControl,
    pub is_ai: bool,
}

impl PlayerSlot {
    /// The player of this slot: one that selected none plays as the given one.
    pub open spec fn input(self, fallback: u128) -> PlayerInput {
        PlayerInput {
            active: !self.is_empty,
            selected_player: match self.selected_player {
                Some(player) => player,
                None => fallback,
            },
            selected_hat: self.selected_hat,
            control_source: self.user_control_source,
            editor_input: EditorInput::ByDefault,
            control: PlayerControl::ByDefault,
            is_ai: self.is_ai,
        }
    }
}

impl PlayerSelectState {
    /// The players of the match, one for each slot. Who selected none plays as the first that can be
    /// selected.
    pub open spec fn inputs(self) -> Seq<PlayerInput> {
        self.slots@.map_values(|slot: PlayerSlot| slot.input(self.players@[0]))
    }

    /// The players of the match.
    pub fn player_info(&self) -> (inputs: Vec<PlayerInput>)
        requires
            self.players@.len() > 0,
        ensures
            inputs@ == self.inputs(),
    {
        let mut inputs: Vec<PlayerInput> = Vec::new();
        let mut i: usize = 0;
        while i < self.slots.len()
            invariant
                i <= self.slots@.len(),
                self.players@.len() > 0,
                inputs@ =~= self.inputs().take(i as int),
            decreases self.slots@.len() - i,
        {
            let slot = self.slots[i];
            let selected_player = match slot.selected_player {
                Some(player) => player,
                None => self.players[0],
            };
            inputs.push(
                PlayerInput {
                    active: !slot.is_empty,
                    selected_player,
                    selected_hat: slot.selected_hat,
                    control_source: slot.user_control_source,
                    editor_input: EditorInput::ByDefault,
                    control: PlayerControl::ByDefault,
                    is_ai: slot.is_ai,
                },
            );
            i = i + 1;
        }
        assert(self.inputs().take(i as int) =~= self.inputs());
        inputs
    }
}

/// The settings of online matches.
#[derive(Clone, Copy, Debug, PartialEq, Eq, Structural)]
pub struct NetworkMeta {
    pub max_prediction_window: usize,
    pub local_input_delay: usize,
}

/// What runs the session of a match.
#[derive(Clone, Copy, Debug, PartialEq, Eq, Structural)]
pub enum SessionRunner {
    /// The runner of local matches.
    Local,
    /// The runner that keeps peers in step.
    Online {
        /// The frames in a second.
        frame_rate: Option<Scalar>,
        max_prediction_window: Option<usize>,
        local_input_delay: Option<usize>,
        random_seed: u64,
    },
}

/// What a match needs to know beside its maps.
pub struct MatchSetup {
    /// What was chosen on the player select page.
    pub players: PlayerSelectState,
    /// The handles of the game's plugins.
    pub plugins: Vec<u128>,
}

/// A match to start.
pub struct MatchStart {
    pub maps: MapPool,
    pub player_info: Vec<PlayerInput>,
    /// The handles of the plugins that are part of the match.
    pub plugins: Vec<u128>,
    pub session_runner: SessionRunner,
    pub score: MatchScore,
}

/// A match to start, with lists as sequences.
pub struct MatchStartView {
    pub maps: Seq<u128>,
    pub player_info: Seq<PlayerInput>,
    pub plugins: Seq<u128>,
    pub session_runner: SessionRunner,
    pub score: MatchScore,
}

impl View for MatchStart {
    type V = MatchStartView;

    open spec fn view(&self) -> MatchStartView {
        MatchStartView {
            maps: self.maps@,
            player_info: self.player_info@,
            plugins: self.plugins@,
            session_runner: self.session_runner,
            score: self.score,
        }
    }
}

/// What the host does for the page.
pub enum Step {
    /// Take the reliable messages that have come from other peers.
    Receive,
    /// Find the assets of these maps.
    Resolve(MapPoolNetwork),
    /// Read which map is to be tested, if any, and list the maps that there are.
    ReadTestMap,
    /// Show the page.
    RunMenu,
    /// Find what identifies these maps on every peer.
    Identify(MapPool),
    /// Send this to all peers, reliably.
    Send(Vec<u8>),
    /// Have the session of the menu deleted.
    DeleteSession,
    /// Go to a page of the menu.
    SetPage(MenuPage),
    /// Read the random seed of the online match.
    ReadSeed,
    /// Read what was chosen on the player select page, and which plugins the game has.
    ReadSetup,
    /// Start a match.
    StartGame(MatchStart),
    /// Forget what was chosen on the player select page.
    ResetPlayerSelect,
    /// The page is done.
    End,
    /// This was no answer to the step before: do nothing.
    Unexpected,
}

/// What the host does for the page, with lists as sequences.
pub enum StepView {
    Receive,
    Resolve(Seq<ContentId>),
    ReadTestMap,
    RunMenu,
    Identify(Seq<u128>),
    Send(Seq<u8>),
    DeleteSession,
    SetPage(MenuPage),
    ReadSeed,
    ReadSetup,
    StartGame(MatchStartView),
    ResetPlayerSelect,
    End,
    Unexpected,
}

impl View for Step {
    type V = StepView;

    open spec fn view(&self) -> StepView {
        match *self {
            Step::Receive => StepView::Receive,
            Step::Resolve(pool) => StepView::Resolve(pool@),
            Step::ReadTestMap => StepView::ReadTestMap,
            Step::RunMenu => StepView::RunMenu,
            Step::Identify(pool) => StepView::Identify(pool@),
            Step::Send(bytes) => StepView::Send(bytes@),
            Step::DeleteSession => StepView::DeleteSession,
            Step::SetPage(page) => StepView::SetPage(page),
            Step::ReadSeed => StepView::ReadSeed,
            Step::ReadSetup => StepView::ReadSetup,
            Step::StartGame(start) => StepView::StartGame(start@),
            Step::ResetPlayerSelect => StepView::ResetPlayerSelect,
            Step::End => StepView::End,
            Step::Unexpected => StepView::Unexpected,
        }
    }
}

/// The host's answer to a step.
pub enum Answer {
    /// It is done.
    Done,
    /// The messages that have come, each with its sender.
    Received(Vec<(u32, Vec<u8>)>),
    /// The assets of the maps.
    Resolved(MapPool),
    /// The map to test, if there is one.
    TestMap(Option<TestMap>),
    /// What was done on the page.
    Menu(MapSelectAction),
    /// What identifies the maps.
    Identified(MapPoolNetwork),
    /// The random seed.
    Seed(u64),
    /// What was chosen on the player select page, and the game's plugins.
    Setup(MatchSetup),
}

/// Where the page stands: which step it waits for an answer to.
#[derive(Clone, Copy, Debug, PartialEq, Eq, Structural)]
pub enum PagePhase {
    Receiving,
    Resolving,
    Testing,
    InMenu,
    Identifying,
    Sending,
    Deleting,
    Leaving,
    Seeding,
    ReadingSetup,
    Starting,
    Resetting,
    GoingBack,
    Ended,
}

/// The page.
pub struct MapSelectPage {
    pub phase: PagePhase,
    /// Whether this is an online match.
    pub online: bool,
    /// Whether it is still to be found out which map is to be tested.
    pub check_test_map: bool,
    pub network: NetworkMeta,
    /// The frames in a second.
    pub frame_rate: Scalar,
    /// The maps that were selected.
    pub selected: Option<MapPool>,
    /// The random seed of the online match.
    pub random_seed: Option<u64>,
}

/// The page, with maps as a sequence.
pub struct PageView {
    pub phase: PagePhase,
    pub online: bool,
    pub check_test_map: bool,
    pub network: NetworkMeta,
    pub frame_rate: Scalar,
    pub selected: Option<Seq<u128>>,
    pub random_seed: Option<u64>,
}

impl View for MapSelectPage {
    type V = PageView;

    open spec fn view(&self) -> PageView {
        PageView {
            phase: self.phase,
            online: self.online,
            check_test_map: self.check_test_map,
            network: self.network,
            frame_rate: self.frame_rate,
            selected: match self.selected {
                Some(pool) => Some(pool@),
                None => None,
            },
            random_seed: self.random_seed,
        }
    }
}

/// Whether an action is sent to the other peers: a selection of maps in an online match.
pub open spec fn replicated(action: MapSelectActionView, online: bool) -> bool {
    online && action is SelectMap
}

/// What runs a match: that which keeps peers in step, if there is a random seed to share.
pub open spec fn runner(
    network: NetworkMeta,
    frame_rate: Scalar,
    random_seed: Option<u64>,
) -> SessionRunner {
    match random_seed {
        Some(random_seed) => SessionRunner::Online {
            frame_rate: Some(frame_rate),
            max_prediction_window: Some(network.max_prediction_window),
            local_input_delay: Some(network.local_input_delay),
            random_seed,
        },
        None => SessionRunner::Local,
    }
}

impl PageView {
    /// In another phase.
    pub open spec fn at(self, phase: PagePhase) -> PageView {
        PageView { phase, ..self }
    }

    /// With maps selected.
    pub open spec fn with(self, maps: Seq<u128>) -> PageView {
        PageView { selected: Some(maps), ..self }
    }

    /// A page that is opened: in an online match the first thing is to look whether another peer has
    /// selected maps already.
    pub open spec fn opened(
        online: bool,
        check_test_map: bool,
        network: NetworkMeta,
        frame_rate: Scalar,
    ) -> (PageView, StepView) {
        let page = PageView {
            phase: PagePhase::Receiving,
            online,
            check_test_map,
            network,
            frame_rate,
            selected: None,
            random_seed: None,
        };
        if online {
            (page, StepView::Receive)
        } else {
            page.past_network()
        }
    }

    /// When the messages of other peers are known: if they select maps, these are looked up.
    pub open spec fn past_messages(self, maps: Option<Seq<ContentId>>) -> (PageView, StepView) {
        match maps {
            Some(maps) => (self.at(PagePhase::Resolving), StepView::Resolve(maps)),
            None => self.past_network(),
        }
    }

    /// When the network was asked.
    pub open spec fn past_network(self) -> (PageView, StepView) {
        if self.check_test_map {
            (self.at(PagePhase::Testing), StepView::ReadTestMap)
        } else {
            self.past_test()
        }
    }

    /// When it is known whether a map is to be tested: only if nothing is selected yet the page is
    /// shown.
    pub open spec fn past_test(self) -> (PageView, StepView) {
        if self.selected is Some {
            self.beginning()
        } else {
            (self.at(PagePhase::InMenu), StepView::RunMenu)
        }
    }

    /// When the maps are known to everybody.
    pub open spec fn beginning(self) -> (PageView, StepView) {
        (self.at(PagePhase::Deleting), StepView::DeleteSession)
    }

    /// What follows what was done on the page.
    pub open spec fn past_menu(self, action: MapSelectActionView) -> (PageView, StepView) {
        match action {
            MapSelectActionView::Nothing => (self.at(PagePhase::Ended), StepView::End),
            MapSelectActionView::GoBack => (
                self.at(PagePhase::GoingBack),
                StepView::SetPage(MenuPage::PlayerSelect),
            ),
            MapSelectActionView::SelectMap(maps) => if replicated(action, self.online) {
                (self.with(maps).at(PagePhase::Identifying), StepView::Identify(maps))
            } else {
                self.with(maps).beginning()
            },
        }
    }

    /// The match on the selected maps.
    pub open spec fn match_start(self, setup: MatchSetup) -> MatchStartView {
        MatchStartView {
            maps: self.selected->0,
            player_info: setup.players.inputs(),
            plugins: setup.plugins@,
            session_runner: runner(self.network, self.frame_rate, self.random_seed),
            score: MatchScore::ByDefault,
        }
    }

    /// The page after an answer, and the next step.
    pub open spec fn next(self, answer: Answer) -> (PageView, StepView) {
        match (self.phase, answer) {
            (PagePhase::Receiving, Answer::Received(datas)) => self.past_messages(
                first_selection(contents(datas@)),
            ),
            (PagePhase::Resolving, Answer::Resolved(pool)) => self.with(pool@).past_network(),
            (PagePhase::Testing, Answer::TestMap(test)) => match test {
                Some(test) => match test.found() {
                    Some(map) => self.with(seq![map]).past_test(),
                    None => self.past_test(),
                },
                None => self.past_test(),
            },
            (PagePhase::InMenu, Answer::Menu(action)) => self.past_menu(action@),
            (PagePhase::Identifying, Answer::Identified(pool)) => (
                self.at(PagePhase::Sending),
                StepView::Send(id_list_bytes(SELECT_MAP, pool@)),
            ),
            (PagePhase::Sending, Answer::Done) => self.beginning(),
            (PagePhase::Deleting, Answer::Done) => (
                self.at(PagePhase::Leaving),
                StepView::SetPage(MenuPage::Home),
            ),
            (PagePhase::Leaving, Answer::Done) => if self.online {
                (self.at(PagePhase::Seeding), StepView::ReadSeed)
            } else {
                (self.at(PagePhase::ReadingSetup), StepView::ReadSetup)
            },
            (PagePhase::Seeding, Answer::Seed(random_seed)) => (
                PageView {
                    phase: PagePhase::ReadingSetup,
                    random_seed: Some(random_seed),
                    ..self
                },
                StepView::ReadSetup,
            ),
            (PagePhase::ReadingSetup, Answer::Setup(setup)) => (
                self.at(PagePhase::Starting),
                StepView::StartGame(self.match_start(setup)),
            ),
            (PagePhase::Starting, Answer::Done) => (
                self.at(PagePhase::Resetting),
                StepView::ResetPlayerSelect,
            ),
            (PagePhase::Resetting, Answer::Done) => (self.at(PagePhase::Ended), StepView::End),
            (PagePhase::GoingBack, Answer::Done) => (self.at(PagePhase::Ended), StepView::End),
            _ => (self, StepView::Unexpected),
        }
    }

    /// Whether maps are selected wherever a match is being started, a random seed is known just
    /// where one is shared, and the network is used only in online matches.
    pub open spec fn wf(self) -> bool {
        &&& match self.phase {
            PagePhase::Identifying | PagePhase::Sending | PagePhase::Deleting | PagePhase::Leaving
            | PagePhase::Seeding | PagePhase::ReadingSetup | PagePhase::Starting
            | PagePhase::Resetting => self.selected is Some,
            PagePhase::Receiving | PagePhase::Resolving | PagePhase::InMenu
            | PagePhase::GoingBack => self.selected is None,
            PagePhase::Testing | PagePhase::Ended => true,
        }
        &&& match self.phase {
            PagePhase::ReadingSetup | PagePhase::Starting | PagePhase::Resetting => self.random_seed
                is Some <==> self.online,
            PagePhase::Ended => self.random_seed is Some ==> self.online,
            _ => self.random_seed is None,
        }
        &&& match self.phase {
            PagePhase::Receiving | PagePhase::Resolving | PagePhase::Identifying
            | PagePhase::Sending | PagePhase::Seeding => self.online,
            _ => true,
        }
    }
}

/// Decides whether an action is sent to the other peers.
pub fn replicate_map_select_action(action: &MapSelectAction, online: bool) -> (send: bool)
    ensures
        send == replicated(action@, online),
{
    match action {
        MapSelectAction::SelectMap(_) => online,
        _ => false,
    }
}

/// Opens the page. In a debug build the map to test is asked for once, when a page is opened for the
/// first time.
pub fn widget(
    online: bool,
    debug_build: bool,
    did_check_test_map: &mut bool,
    network: NetworkMeta,
    frame_rate: Scalar,
) -> (page: (MapSelectPage, Step))
    ensures
        (page.0@, page.1@) == PageView::opened(
            online,
            debug_build && !*old(did_check_test_map),
            network,
            frame_rate,
        ),
        page.0@.wf(),
        *final(did_check_test_map) == (*old(did_check_test_map) || debug_build),
{
    let check_test_map = debug_build && !*did_check_test_map;
    if debug_build {
        *did_check_test_map = true;
    }
    let mut page = MapSelectPage {
        phase: PagePhase::Receiving,
        online,
        check_test_map,
        network,
        frame_rate,
        selected: None,
        random_seed: None,
    };
    if online {
        (page, Step::Receive)
    } else {
        let step = page.past_network();
        (page, step)
    }
}

impl MapSelectPage {
    /// Goes on with the maps that another peer has selected, if one has.
    pub fn past_messages(&mut self, maps: Option<MapPoolNetwork>) -> (step: Step)
        ensures
            (final(self)@, step@) == old(self)@.past_messages(
                match maps {
                    Some(pool) => Some(pool@),
                    None => None,
                },
            ),
    {
        match maps {
            Some(pool) => {
                self.phase = PagePhase::Resolving;
                Step::Resolve(pool)
            },
            None => self.past_network(),
        }
    }

    fn past_network(&mut self) -> (step: Step)
        ensures
            (final(self)@, step@) == old(self)@.past_network(),
    {
        if self.check_test_map {
            self.phase = PagePhase::Testing;
            Step::ReadTestMap
        } else {
            self.past_test()
        }
    }

    fn past_test(&mut self) -> (step: Step)
        ensures
            (final(self)@, step@) == old(self)@.past_test(),
    {
        if self.selected.is_some() {
            self.beginning()
        } else {
            self.phase = PagePhase::InMenu;
            Step::RunMenu
        }
    }

    fn beginning(&mut self) -> (step: Step)
        ensures
            (final(self)@, step@) == old(self)@.beginning(),
    {
        self.phase = PagePhase::Deleting;
        Step::DeleteSession
    }

    fn past_menu(&mut self, action: MapSelectAction) -> (step: Step)
        ensures
            (final(self)@, step@) == old(self)@.past_menu(action@),
    {
        let send = replicate_map_select_action(&action, self.online);
        match action {
            MapSelectAction::Nothing => {
                self.phase = PagePhase::Ended;
                Step::End
            },
            MapSelectAction::GoBack => {
                self.phase = PagePhase::GoingBack;
                Step::SetPage(MenuPage::PlayerSelect)
            },
            MapSelectAction::SelectMap(maps) => {
                if send {
                    let shared = maps.copied();
                    self.selected = Some(maps);
                    self.phase = PagePhase::Identifying;
                    Step::Identify(shared)
                } else {
                    self.selected = Some(maps);
                    self.beginning()
                }
            },
        }
    }

    fn start_match(&mut self, setup: MatchSetup) -> (step: Step)
        requires
            old(self).selected is Some,
            setup.players.players@.len() > 0,
        ensures
            final(self)@ == old(self)@.at(PagePhase::Starting),
            step@ == StepView::StartGame(old(self)@.match_start(setup)),
    {
        let session_runner = match self.random_seed {
            Some(random_seed) => SessionRunner::Online {
                frame_rate: Some(self.frame_rate),
                max_prediction_window: Some(self.network.max_prediction_window),
                local_input_delay: Some(self.network.local_input_delay),
                random_seed,
            },
            None => SessionRunner::Local,
        };
        let maps = match &self.selected {
            Some(pool) => pool.copied(),
            None => MapPool { maps: Vec::new() },
        };
        self.phase = PagePhase::Starting;
        let player_info = setup.players.player_info();
        let score = MatchScore::ByDefault;
        Step::StartGame(
            MatchStart { maps, player_info, plugins: setup.plugins, session_runner, score },
        )
    }

    /// Takes the host's answer to the last step, and says what is next. A match needs players to
    /// select from.
    pub fn advance(&mut self, answer: Answer) -> (step: Step)
        requires
            old(self)@.wf(),
            answer matches Answer::Setup(setup) ==> setup.players.players@.len() > 0,
        ensures
            final(self)@.wf(),
            (final(self)@, step@) == old(self)@.next(answer),
            step matches Step::Send(bytes) ==> answer matches Answer::Identified(pool) && selection(
                bytes@,
            ) == Some(pool@),
    {
        match (self.phase, answer) {
            (PagePhase::Receiving, Answer::Received(datas)) => {
                let maps = handle_match_setup_messages(&datas);
                self.past_messages(maps)
            },
            (PagePhase::Resolving, Answer::Resolved(pool)) => {
                self.selected = Some(pool);
                self.past_network()
            },
            (PagePhase::Testing, Answer::TestMap(test)) => {
                if let Some(test) = test {
                    if let Some(map) = test.find() {
                        self.selected = Some(MapPool::from_single_map(map));
                    }
                }
                self.past_test()
            },
            (PagePhase::InMenu, Answer::Menu(action)) => self.past_menu(action),
            (PagePhase::Identifying, Answer::Identified(pool)) => {
                self.phase = PagePhase::Sending;
                Step::Send(MapSelectMessage::SelectMap(pool).to_bytes())
            },
            (PagePhase::Sending, Answer::Done) => self.beginning(),
            (PagePhase::Deleting, Answer::Done) => {
                self.phase = PagePhase::Leaving;
                Step::SetPage(MenuPage::Home)
            },
            (PagePhase::Leaving, Answer::Done) => {
                if self.online {
                    self.phase = PagePhase::Seeding;
                    Step::ReadSeed
                } else {
                    self.phase = PagePhase::ReadingSetup;
                    Step::ReadSetup
                }
            },
            (PagePhase::Seeding, Answer::Seed(random_seed)) => {
                self.random_seed = Some(random_seed);
                self.phase = PagePhase::ReadingSetup;
                Step::ReadSetup
            },
            (PagePhase::ReadingSetup, Answer::Setup(setup)) => self.start_match(setup),
            (PagePhase::Starting, Answer::Done) => {
                self.phase = PagePhase::Resetting;
                Step::ResetPlayerSelect
            },
            (PagePhase::Resetting, Answer::Done) => {
                self.phase = PagePhase::Ended;
                Step::End
            },
            (PagePhase::GoingBack, Answer::Done) => {
                self.phase = PagePhase::Ended;
                Step::End
            },
            _ => Step::Unexpected,
        }
    }
}

} // verus!
