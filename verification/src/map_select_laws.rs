//! What holds of the map select page whatever the host answers.

use vstd::prelude::*;

use crate::controls::PlayerControl;
use crate::geometry::Scalar;
use crate::map_select::{contents, first_selection, MapPool, MapPoolNetwork, TestMap};
use crate::map_select_page::{
    replicated, Answer, EditorInput, MapSelectAction, MapSelectActionView, MapSelectPage, MatchScore,
    MatchSetup, MatchStart, MenuPage, NetworkMeta, PagePhase, PageView, PlayerSelectState,
    SessionRunner, Step, StepView,
};
use crate::wire::id_list_bytes;

verus! {

/// The page after answers.
pub open spec fn page_after(page: PageView, answers: Seq<Answer>) -> PageView
    decreases answers.len(),
{
    if answers.len() == 0 {
        page
    } else {
        page_after(page, answers.drop_last()).next(answers.last()).0
    }
}

/// The step that follows answers.
pub open spec fn step_after(page: PageView, answers: Seq<Answer>) -> StepView
    recommends
        answers.len() > 0,
{
    page_after(page, answers.drop_last()).next(answers.last()).1
}

/// How many steps can still follow.
pub open spec fn steps_left(phase: PagePhase) -> nat {
    match phase {
        PagePhase::Receiving => 12,
        PagePhase::Resolving => 11,
        PagePhase::Testing => 10,
        PagePhase::InMenu => 9,
        PagePhase::Identifying => 8,
        PagePhase::Sending => 7,
        PagePhase::Deleting => 6,
        PagePhase::Leaving => 5,
        PagePhase::Seeding => 4,
        PagePhase::ReadingSetup => 3,
        PagePhase::Starting => 2,
        PagePhase::Resetting => 1,
        PagePhase::GoingBack => 1,
        PagePhase::Ended => 0,
    }
}

/// Whether a page has its maps, or gets them, without being shown.
pub open spec fn decided(page: PageView) -> bool {
    match page.phase {
        PagePhase::Receiving | PagePhase::InMenu | PagePhase::Identifying | PagePhase::Sending => false,
        PagePhase::Testing => page.selected is Some,
        _ => true,
    }
}

/// Whether the match on the selected maps is being started.
pub open spec fn beginning(page: PageView) -> bool {
    match page.phase {
        PagePhase::Deleting | PagePhase::Leaving | PagePhase::Seeding
        | PagePhase::ReadingSetup | PagePhase::Starting | PagePhase::Resetting
        | PagePhase::Ended => true,
        _ => false,
    }
}

/// Every page that is opened is sound, and stays so whatever the host answers.
pub proof fn law_pages_stay_sound(
    online: bool,
    check_test_map: bool,
    network: NetworkMeta,
    frame_rate: Scalar,
    answers: Seq<Answer>,
)
    ensures
        page_after(PageView::opened(online, check_test_map, network, frame_rate).0, answers).wf(),
    decreases answers.len(),
{
    if answers.len() > 0 {
        law_pages_stay_sound(online, check_test_map, network, frame_rate, answers.drop_last());
    }
}

/// An answer that fits brings the page nearer to its end; any other answer changes nothing.
pub proof fn law_answers_bring_the_end(page: PageView, answer: Answer)
    ensures
        page.next(answer).1 is Unexpected ==> page.next(answer).0 == page,
        page.next(answer).1 !is Unexpected ==> steps_left(page.next(answer).0.phase) < steps_left(
            page.phase,
        ),
        page.phase is Ended ==> page.next(answer).1 is Unexpected,
        page.next(answer).1 is End <==> page.next(answer).0.phase is Ended && page.phase !is Ended,
{
}

/// No page takes more than a dozen answers that fit.
pub proof fn law_pages_end(page: PageView, answers: Seq<Answer>)
    requires
        forall|n: int|
            0 < n <= answers.len() ==> step_after(page, #[trigger] answers.take(n)) !is Unexpected,
    ensures
        answers.len() + steps_left(page_after(page, answers).phase) <= steps_left(page.phase),
        answers.len() <= 12,
    decreases answers.len(),
{
    if answers.len() > 0 {
        let front = answers.drop_last();
        assert forall|n: int| 0 < n <= front.len() implies step_after(
            page,
            #[trigger] front.take(n),
        ) !is Unexpected by {
            assert(front.take(n) =~= answers.take(n));
        }
        law_pages_end(page, front);
        assert(answers.take(answers.len() as int) =~= answers);
        law_answers_bring_the_end(page_after(page, front), answers.last());
    }
}

/// What another peer has selected is neither sent back nor asked for again: from the moment that a
/// selection has come through the network, nothing is sent and the page is not shown. The same holds
/// once a map is to be tested.
pub proof fn law_no_echo(page: PageView, answers: Seq<Answer>)
    requires
        decided(page),
        answers.len() > 0,
    ensures
        step_after(page, answers) !is Send,
        step_after(page, answers) !is Identify,
        step_after(page, answers) !is RunMenu,
        decided(page_after(page, answers)),
    decreases answers.len(),
{
    if answers.len() > 1 {
        law_no_echo(page, answers.drop_last());
    }
}

/// What is sent was selected on the page itself, and is what will be played.
pub proof fn law_only_own_selections_are_sent(
    online: bool,
    check_test_map: bool,
    network: NetworkMeta,
    frame_rate: Scalar,
    answers: Seq<Answer>,
)
    requires
        answers.len() > 0,
        step_after(PageView::opened(online, check_test_map, network, frame_rate).0, answers) is Send,
    ensures
        online,
        exists|i: int|
            0 <= i < answers.len() && (#[trigger] answers[i] matches Answer::Menu(action)
                && action@ == MapSelectActionView::SelectMap(page_after(
                PageView::opened(online, check_test_map, network, frame_rate).0,
                answers,
            ).selected->0)),
{
    let page = PageView::opened(online, check_test_map, network, frame_rate).0;
    let front = answers.drop_last();
    law_pages_stay_sound(online, check_test_map, network, frame_rate, front);
    lemma_online_is_kept(page, front);
    lemma_selected_in_menu(page, front);
    let i = choose|i: int|
        0 <= i < front.len() && (#[trigger] front[i] matches Answer::Menu(action) && action@
                == MapSelectActionView::SelectMap(page_after(page, front).selected->0));
    assert(answers[i] == front[i]);
}

proof fn lemma_online_is_kept(page: PageView, answers: Seq<Answer>)
    ensures
        page_after(page, answers).online == page.online,
        page_after(page, answers).network == page.network,
    decreases answers.len(),
{
    if answers.len() > 0 {
        lemma_online_is_kept(page, answers.drop_last());
    }
}

proof fn lemma_selected_in_menu(page: PageView, answers: Seq<Answer>)
    requires
        page.phase !is Identifying,
        page_after(page, answers).phase is Identifying,
    ensures
        exists|i: int|
            0 <= i < answers.len() && (#[trigger] answers[i] matches Answer::Menu(action)
                && action@ == MapSelectActionView::SelectMap(page_after(page, answers).selected->0)),
    decreases answers.len(),
{
    let front = answers.drop_last();
    if page_after(page, front).phase is Identifying {
        lemma_selected_in_menu(page, front);
        let i = choose|i: int|
            0 <= i < front.len() && (#[trigger] front[i] matches Answer::Menu(action) && action@
                == MapSelectActionView::SelectMap(page_after(page, front).selected->0));
        assert(answers[i] == front[i]);
    } else {
        let i = answers.len() - 1;
        assert(answers[i] matches Answer::Menu(action) && action@
            == MapSelectActionView::SelectMap(page_after(page, answers).selected->0));
    }
}

/// The match that is started is on the maps that were selected when the start began.
pub proof fn law_selected_maps_are_played(page: PageView, answers: Seq<Answer>)
    requires
        beginning(page),
        answers.len() > 0,
    ensures
        beginning(page_after(page, answers)),
        page_after(page, answers).selected == page.selected,
        step_after(page, answers) matches StepView::StartGame(start) ==> start.maps
            == page.selected->0,
    decreases answers.len(),
{
    if answers.len() > 1 {
        law_selected_maps_are_played(page, answers.drop_last());
    }
}

/// An offline page does not touch the network, and its match runs locally; an online one's match
/// runs at the frame rate, with the random seed and the settings of the network.
pub proof fn law_offline_is_local(page: PageView, answer: Answer)
    requires
        page.wf(),
    ensures
        !page.online ==> {
            let step = page.next(answer).1;
            &&& step !is Receive
            &&& step !is Resolve
            &&& step !is Identify
            &&& step !is Send
            &&& step !is ReadSeed
        },
        page.next(answer).1 matches StepView::StartGame(start) ==> start.session_runner == (
        if page.online {
            SessionRunner::Online {
                frame_rate: Some(page.frame_rate),
                max_prediction_window: Some(page.network.max_prediction_window),
                local_input_delay: Some(page.network.local_input_delay),
                random_seed: page.random_seed->0,
            }
        } else {
            SessionRunner::Local
        }),
{
}

/// The page is shown only if nothing was selected by other means.
pub proof fn law_menu_is_last_resort(page: PageView, answer: Answer)
    ensures
        page.next(answer).1 is RunMenu ==> page.next(answer).0.selected is None,
{
}

/// A map to test that is found is played, whatever has come through the network.
pub proof fn law_test_map_wins(page: PageView, test: TestMap)
    requires
        page.phase is Testing,
        test.found() is Some,
    ensures
        page.next(Answer::TestMap(Some(test))).0.selected == Some(seq![test.found()->0]),
        page.next(Answer::TestMap(Some(test))).1 is DeleteSession,
{
}

/// Going back starts nothing: the one thing that is done is to go to the player select page.
pub proof fn law_going_back_starts_nothing(page: PageView, answer: Answer)
    requires
        page.phase is InMenu,
        answer matches Answer::Menu(action) && action@ is GoBack,
    ensures
        page.next(answer).1 == StepView::SetPage(MenuPage::PlayerSelect),
        page.next(answer).0.next(Answer::Done).1 is End,
{
}

/// The match has one player for each slot. The player at each place is active exactly if the slot at
/// that place is not empty, whoever controls it; plays as what was selected there, or else as the
/// first that can be selected; and has the slot's hat, its controls, and its being played by the
/// machine. All other inputs are as they are by default.
pub proof fn law_players_are_those_of_the_slots(state: PlayerSelectState, i: int)
    requires
        0 <= i < state.slots@.len(),
    ensures
        state.inputs().len() == state.slots@.len(),
        state.inputs()[i].active <==> !state.slots@[i].is_empty,
        state.slots@[i].selected_player matches Some(player) ==> state.inputs()[i].selected_player
            == player,
        state.slots@[i].selected_player is None ==> state.inputs()[i].selected_player
            == state.players@[0],
        state.inputs()[i].selected_hat == state.slots@[i].selected_hat,
        state.inputs()[i].control_source == state.slots@[i].user_control_source,
        state.inputs()[i].is_ai == state.slots@[i].is_ai,
        state.inputs()[i].editor_input == EditorInput::ByDefault,
        state.inputs()[i].control == PlayerControl::ByDefault,
{
}

/// Only selections are sent to the other peers, and only in online matches.
pub proof fn law_what_is_replicated(action: MapSelectAction, online: bool)
    ensures
        replicated(action@, online) <==> online && action is SelectMap,
        action matches MapSelectAction::SelectMap(pool) ==> action@
            == MapSelectActionView::SelectMap(pool.maps@),
        action is GoBack <==> action@ is GoBack,
        action is Nothing <==> action@ is Nothing,
{
}

/// What comes when nobody has been asked for maps but the network: if a map may be to be tested, that
/// is found out; else the page is shown unless maps are selected, with which the match begins.
pub open spec fn goes_on(page: PageView, later: PageView, step: StepView) -> bool {
    &&& later == (PageView { phase: later.phase, ..page })
    &&& page.check_test_map ==> step is ReadTestMap && later.phase is Testing
    &&& !page.check_test_map ==> chooses(page, later, step)
}

/// What comes when it is known whether a map is to be tested.
pub open spec fn chooses(page: PageView, later: PageView, step: StepView) -> bool {
    &&& later == (PageView { phase: later.phase, ..page })
    &&& page.selected is None ==> step is RunMenu && later.phase is InMenu
    &&& page.selected is Some ==> step is DeleteSession && later.phase is Deleting
}

/// A page that is opened has nothing selected. In an online match it asks for the messages of the
/// other peers first.
pub proof fn law_page_opens(
    online: bool,
    check_test_map: bool,
    network: NetworkMeta,
    frame_rate: Scalar,
)
    ensures
        ({
            let (page, step) = PageView::opened(online, check_test_map, network, frame_rate);
            &&& page.selected is None && page.random_seed is None
            &&& page.online == online && page.check_test_map == check_test_map
            &&& page.network == network && page.frame_rate == frame_rate
            &&& online ==> step is Receive && page.phase is Receiving
            &&& !online ==> goes_on(page, page, step)
        }),
{
}

/// What kind of match it is never changes while the page is open.
pub proof fn law_page_keeps_its_settings(page: PageView, answer: Answer)
    ensures
        page.next(answer).0.online == page.online,
        page.next(answer).0.check_test_map == page.check_test_map,
        page.next(answer).0.network == page.network,
        page.next(answer).0.frame_rate == page.frame_rate,
        page.next(answer).0.random_seed == page.random_seed || page.phase is Seeding,
{
}

/// If the messages of other peers hold a selection, the host is asked for just these maps, and what it
/// resolves them to is selected, all of it and in its order. If they hold none, nothing is selected.
pub proof fn law_received_selection_is_taken(page: PageView, datas: Vec<(u32, Vec<u8>)>, pool: MapPool)
    requires
        page.phase is Receiving,
    ensures
        ({
            let (later, step) = page.next(Answer::Received(datas));
            let (resolved, onward) = later.next(Answer::Resolved(pool));
            &&& first_selection(contents(datas@)) matches Some(maps) ==> {
                &&& step == StepView::Resolve(maps)
                &&& later == (PageView { phase: PagePhase::Resolving, ..page })
                &&& goes_on(PageView { selected: Some(pool.maps@), ..page }, resolved, onward)
            }
            &&& first_selection(contents(datas@)) is None ==> goes_on(page, later, step)
        }),
{
}

/// Where no map to test is found, what was selected stays selected, and the page is shown only if
/// nothing was. Where one is found, that one alone is selected and the match begins.
pub proof fn law_test_map_decides(page: PageView, test: Option<TestMap>)
    requires
        page.phase is Testing,
    ensures
        ({
            let (later, step) = page.next(Answer::TestMap(test));
            &&& test is None ==> chooses(page, later, step)
            &&& test matches Some(test) ==> {
                &&& test.found() is None ==> chooses(page, later, step)
                &&& test.found() matches Some(map) ==> step is DeleteSession && later == (PageView {
                    selected: Some(seq![map]),
                    phase: PagePhase::Deleting,
                    ..page
                })
            }
        }),
{
}

/// What is selected on the page itself is selected, all of it and in its order. In an online match the
/// host is asked what identifies just these maps, and what it answers is sent before the match begins;
/// otherwise the match begins at once.
pub proof fn law_own_selection_is_taken(page: PageView, pool: MapPool, ids: MapPoolNetwork)
    requires
        page.phase is InMenu,
    ensures
        ({
            let (later, step) = page.next(Answer::Menu(MapSelectAction::SelectMap(pool)));
            let (identified, send) = later.next(Answer::Identified(ids));
            let (sent, onward) = identified.next(Answer::Done);
            let begun = PageView {
                selected: Some(pool.maps@),
                phase: PagePhase::Deleting,
                ..page
            };
            &&& later.selected == Some(pool.maps@)
            &&& page.online ==> {
                &&& step == StepView::Identify(pool.maps@)
                &&& send == StepView::Send(id_list_bytes(0, ids.maps@))
                &&& sent == begun && onward is DeleteSession
            }
            &&& !page.online ==> later == begun && step is DeleteSession
        }),
{
}

/// If nothing was done on the page, or the player went back, nothing is selected and the page is over,
/// after going to the player select page in the latter case.
pub proof fn law_nothing_selected_ends_the_page(page: PageView)
    requires
        page.phase is InMenu,
    ensures
        ({
            let (idle, end) = page.next(Answer::Menu(MapSelectAction::Nothing));
            let (back, leave) = page.next(Answer::Menu(MapSelectAction::GoBack));
            &&& end is End && idle.phase is Ended && idle.selected == page.selected
            &&& leave == StepView::SetPage(MenuPage::PlayerSelect) && back.selected == page.selected
            &&& back.next(Answer::Done).1 is End && back.next(Answer::Done).0.phase is Ended
        }),
{
}

/// Beginning a match takes these steps in this order: the menu's session is deleted, the menu goes to
/// its home page, in an online match the random seed is read, the players and plugins are read, the
/// match is started, and what was chosen on the player select page is forgotten.
pub proof fn law_match_begins(page: PageView, seed: u64, setup: MatchSetup)
    requires
        page.phase is Deleting,
        page.selected is Some,
        page.random_seed is None,
    ensures
        ({
            let (left, home) = page.next(Answer::Done);
            let (asked, read) = left.next(Answer::Done);
            let (seeded, read_on) = asked.next(Answer::Seed(seed));
            let ready = if page.online {
                seeded
            } else {
                asked
            };
            let (started, start) = ready.next(Answer::Setup(setup));
            let (forgot, reset) = started.next(Answer::Done);
            let (ended, end) = forgot.next(Answer::Done);
            &&& home == StepView::SetPage(MenuPage::Home)
            &&& page.online ==> read is ReadSeed && read_on is ReadSetup
            &&& !page.online ==> read is ReadSetup
            &&& start matches StepView::StartGame(game) && {
                &&& Some(game.maps) == page.selected
                &&& game.plugins == setup.plugins@
                &&& game.score == MatchScore::ByDefault
                &&& game.player_info.len() == setup.players.slots@.len()
                &&& forall|i: int|
                    0 <= i < setup.players.slots@.len() ==> {
                        &&& (#[trigger] game.player_info[i]).active == !setup.players.slots@[i].is_empty
                        &&& game.player_info[i].selected_hat == setup.players.slots@[i].selected_hat
                        &&& game.player_info[i].is_ai == setup.players.slots@[i].is_ai
                    }
                &&& !page.online ==> game.session_runner == SessionRunner::Local
                &&& page.online ==> game.session_runner == (SessionRunner::Online {
                    frame_rate: Some(page.frame_rate),
                    max_prediction_window: Some(page.network.max_prediction_window),
                    local_input_delay: Some(page.network.local_input_delay),
                    random_seed: seed,
                })
            }
            &&& reset is ResetPlayerSelect
            &&& end is End && ended.phase is Ended
        }),
{
}

/// Whether maps are selected and the page will not be shown.
spec fn chosen(page: PageView, maps: Seq<u128>) -> bool {
    page.selected == Some(maps) && (page.phase is Testing || beginning(page))
}

proof fn lemma_chosen(page: PageView, maps: Seq<u128>, answers: Seq<Answer>)
    requires
        chosen(page, maps),
        forall|i: int|
            0 <= i < answers.len() ==> (#[trigger] answers[i] matches Answer::TestMap(Some(test))
                ==> test.found() is None),
    ensures
        chosen(page_after(page, answers), maps),
    decreases answers.len(),
{
    if answers.len() > 0 {
        let front = answers.drop_last();
        assert forall|i: int| 0 <= i < front.len() implies (#[trigger] front[i] matches Answer::TestMap(
            Some(test),
        ) ==> test.found() is None) by {
            assert(front[i] == answers[i]);
        }
        lemma_chosen(page, maps, front);
        assert(answers[answers.len() - 1] == answers.last());
    }
}

/// Where no map to test is found, the match that is started after a selection was received is on
/// exactly the maps, all of them and in their order, that the host resolved that selection to.
pub proof fn law_received_maps_are_played(page: PageView, pool: MapPool, answers: Seq<Answer>)
    requires
        page.phase is Resolving,
        answers.len() > 0,
        forall|i: int|
            0 <= i < answers.len() ==> (#[trigger] answers[i] matches Answer::TestMap(Some(test))
                ==> test.found() is None),
    ensures
        ({
            let resolved = page.next(Answer::Resolved(pool)).0;
            &&& page_after(resolved, answers).selected == Some(pool.maps@)
            &&& step_after(resolved, answers) matches StepView::StartGame(start) ==> start.maps
                == pool.maps@
        }),
{
    let resolved = page.next(Answer::Resolved(pool)).0;
    assert(chosen(resolved, pool.maps@));
    lemma_chosen(resolved, pool.maps@, answers);
    let front = answers.drop_last();
    assert forall|i: int| 0 <= i < front.len() implies (#[trigger] front[i] matches Answer::TestMap(
        Some(test),
    ) ==> test.found() is None) by {
        assert(front[i] == answers[i]);
    }
    lemma_chosen(resolved, pool.maps@, front);
}

/// The match that is started after a map to test was found is on that map alone.
pub proof fn law_test_map_is_played(page: PageView, test: TestMap, map: u128, answers: Seq<Answer>)
    requires
        page.phase is Testing,
        test.found() == Some(map),
        answers.len() > 0,
    ensures
        step_after(page.next(Answer::TestMap(Some(test))).0, answers) matches StepView::StartGame(start)
            ==> start.maps == seq![map],
{
    law_selected_maps_are_played(page.next(Answer::TestMap(Some(test))).0, answers);
}

spec fn on_the_way(page: PageView, maps: Seq<u128>) -> bool {
    page.selected == Some(maps) && (page.phase is Identifying || page.phase is Sending || beginning(page))
}

proof fn lemma_on_the_way(page: PageView, maps: Seq<u128>, answers: Seq<Answer>)
    requires
        on_the_way(page, maps),
    ensures
        on_the_way(page_after(page, answers), maps),
    decreases answers.len(),
{
    if answers.len() > 0 {
        lemma_on_the_way(page, maps, answers.drop_last());
    }
}

/// The match that is started after maps were selected on the page itself is on exactly these maps, all
/// of them and in their order, whatever the host answers.
pub proof fn law_own_maps_are_played(page: PageView, pool: MapPool, answers: Seq<Answer>)
    requires
        page.phase is InMenu,
        answers.len() > 0,
    ensures
        step_after(
            page.next(Answer::Menu(MapSelectAction::SelectMap(pool))).0,
            answers,
        ) matches StepView::StartGame(start) ==> start.maps == pool.maps@,
{
    let selected = page.next(Answer::Menu(MapSelectAction::SelectMap(pool))).0;
    lemma_on_the_way(selected, pool.maps@, answers.drop_last());
}

/// The page is seen as it is, and so is a match to start.
pub proof fn law_page_is_seen(page: MapSelectPage, start: MatchStart)
    ensures
        page@.phase == page.phase,
        page@.online == page.online,
        page@.check_test_map == page.check_test_map,
        page@.network == page.network,
        page@.frame_rate == page.frame_rate,
        page@.random_seed == page.random_seed,
        page.selected is None <==> page@.selected is None,
        page.selected matches Some(pool) ==> page@.selected == Some(pool.maps@),
        start@.maps == start.maps.maps@,
        start@.player_info == start.player_info@,
        start@.plugins == start.plugins@,
        start@.session_runner == start.session_runner,
        start@.score == start.score,
{
}

/// A step is seen as what it asks of the host.
pub proof fn law_steps_are_seen(step: Step)
    ensures
        step is Receive <==> step@ is Receive,
        step is Resolve <==> step@ is Resolve,
        step is ReadTestMap <==> step@ is ReadTestMap,
        step is RunMenu <==> step@ is RunMenu,
        step is Identify <==> step@ is Identify,
        step is Send <==> step@ is Send,
        step is DeleteSession <==> step@ is DeleteSession,
        step is SetPage <==> step@ is SetPage,
        step is ReadSeed <==> step@ is ReadSeed,
        step is ReadSetup <==> step@ is ReadSetup,
        step is StartGame <==> step@ is StartGame,
        step is ResetPlayerSelect <==> step@ is ResetPlayerSelect,
        step is End <==> step@ is End,
        step is Unexpected <==> step@ is Unexpected,
        step matches Step::Resolve(ids) ==> step@ == StepView::Resolve(ids.maps@),
        step matches Step::Identify(pool) ==> step@ == StepView::Identify(pool.maps@),
        step matches Step::Send(bytes) ==> step@ == StepView::Send(bytes@),
        step matches Step::SetPage(page) ==> step@ == StepView::SetPage(page),
        step matches Step::StartGame(start) ==> step@ == StepView::StartGame(start@),
{
}

/// Whether an answer is one to the step that a page waits for.
pub open spec fn fits(phase: PagePhase, answer: Answer) -> bool {
    match answer {
        Answer::Done => phase is Sending || phase is Deleting || phase is Leaving || phase is Starting
            || phase is Resetting || phase is GoingBack,
        Answer::Received(_) => phase is Receiving,
        Answer::Resolved(_) => phase is Resolving,
        Answer::TestMap(_) => phase is Testing,
        Answer::Menu(_) => phase is InMenu,
        Answer::Identified(_) => phase is Identifying,
        Answer::Seed(_) => phase is Seeding,
        Answer::Setup(_) => phase is ReadingSetup,
    }
}

/// An answer is taken exactly if it is one to the step that the page waits for.
pub proof fn law_fitting_answers_are_taken(page: PageView, answer: Answer)
    ensures
        page.next(answer).1 is Unexpected <==> !fits(page.phase, answer),
{
}

} // verus!
