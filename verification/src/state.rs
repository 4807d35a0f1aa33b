//! The whole application state: the best-time record and the optional
//! running round, with the menu/running transitions between them.

use vstd::prelude::*;
use crate::{FRAME_LIMIT, TIME_LIMIT};
use crate::asteroid::{spec_spawn_ok, AsteroidModel};
use crate::env::{FrameInput, Screen};
use crate::game::{
    opt_time_model, spec_game_frame_report, spec_game_frame_state, spec_new_game, spec_spawn_due,
    Game, GameModel, RoundView,
};

verus! {

/// Mathematical model of the application state.
pub ghost struct StateModel {
    /// The longest survived time reported by any finished round, in
    /// milliseconds; zero before the first round finishes.
    pub best_time: int,
    /// The running round, if one is in progress.
    pub game: Option<GameModel>,
}

impl StateModel {
    /// The state the application stays in: a non-negative record, and a
    /// well-formed round whenever one runs.
    pub open spec fn wf(self) -> bool {
        &&& 0 <= self.best_time <= TIME_LIMIT
        &&& (self.game matches Some(g) ==> g.wf())
    }
}

/// The record folded with one reported time: the larger of the two.
pub open spec fn spec_folded_best(best: int, reported: int) -> int {
    if reported > best {
        reported
    } else {
        best
    }
}

/// The record folded with a whole sequence of reported times, oldest first.
pub open spec fn spec_folded_best_all(best: int, reports: Seq<int>) -> int
    decreases reports.len(),
{
    if reports.len() == 0 {
        best
    } else {
        spec_folded_best(spec_folded_best_all(best, reports.drop_last()), reports.last())
    }
}

/// Law: across any sequence of finished rounds, the best-time record
/// never decreases, and it ends as the maximum of the starting record
/// and every reported time.
pub proof fn lemma_best_time_monotone(best: int, reports: Seq<int>)
    ensures
        spec_folded_best_all(best, reports) >= best,
        forall|i: int| 0 <= i < reports.len()
            ==> spec_folded_best_all(best, reports) >= #[trigger] reports[i],
        spec_folded_best_all(best, reports) == best
            || exists|i: int| 0 <= i < reports.len()
                && spec_folded_best_all(best, reports) == #[trigger] reports[i],
    decreases reports.len(),
{
    if reports.len() > 0 {
        lemma_best_time_monotone(best, reports.drop_last());
        let sub = reports.drop_last();
        assert(forall|i: int| 0 <= i < sub.len() ==> sub[i] == #[trigger] reports[i]);
    }
}

/// The application state: the best-time record and the running round,
/// if any. Times are in milliseconds.
pub struct State {
    pub best_time: i64,
    pub game: Option<Game>,
}

impl View for State {
    type V = StateModel;

    open spec fn view(&self) -> StateModel {
        StateModel {
            best_time: self.best_time as int,
            game: match self.game {
                Option::None => None,
                Option::Some(g) => Some(g@),
            },
        }
    }
}

/// What one frame of the whole application renders: the start-menu
/// prompt, or the running round's view.
pub enum Scene {
    /// The menu: a centered prompt inviting the player to start.
    Menu,
    /// A running round, with everything needed to draw it.
    Round(RoundView),
}

impl Default for State {
    /// The state at process start: no record yet, no running round.
    fn default() -> (s: State)
        ensures
            s@ == (StateModel { best_time: 0, game: None::<GameModel> }),
            s@.wf(),
    {
        State { best_time: 0, game: None }
    }
}

impl State {
    /// One frame of the application at clock reading `now`.
    ///
    /// From the menu, a start press begins a fresh round and nothing
    /// else happens this frame; without one the state is unchanged. With
    /// a round running, the round advances one frame; when it reports a
    /// survived time (abort or collision), the round is discarded and
    /// the record becomes the larger of itself and the reported time.
    /// The record never decreases.
    pub fn update(&mut self, now: i64, input: &FrameInput, screen: &Screen)
        requires
            old(self)@.wf(),
            screen.wf(),
            0 <= now <= TIME_LIMIT,
            old(self)@.game matches Some(g) ==> g.last_update <= now
                && now - g.last_update <= FRAME_LIMIT,
        ensures
            final(self)@.wf(),
            final(self)@.best_time >= old(self)@.best_time,
            old(self)@.game is None && input.start_pressed ==> final(self)@
                == (StateModel {
                    best_time: old(self)@.best_time,
                    game: Some(spec_new_game(now as int, screen.width as int)),
                }),
            old(self)@.game is None && !input.start_pressed ==> final(self)@ == old(self)@,
            old(self)@.game matches Some(g) ==> input.abort_pressed ==> final(self)@
                == (StateModel {
                    best_time: spec_folded_best(old(self)@.best_time, now - g.start_time),
                    game: None::<GameModel>,
                }),
            old(self)@.game matches Some(g) ==> !input.abort_pressed
                ==> exists|sp: Option<AsteroidModel>| {
                    &&& (sp is Some <==> spec_spawn_due(g.asteroid_timer, now - g.last_update))
                    &&& (sp matches Some(a) ==> spec_spawn_ok(a, screen.width as int))
                    &&& {
                        let stepped = #[trigger] spec_game_frame_state(
                            g, now as int, input.left_held, input.right_held,
                            screen.width as int, screen.height as int, sp);
                        match spec_game_frame_report(
                            g, now as int, input.left_held, input.right_held,
                            screen.width as int, screen.height as int, sp) {
                            Some(t) => final(self)@ == (StateModel {
                                best_time: spec_folded_best(old(self)@.best_time, t),
                                game: None::<GameModel>,
                            }),
                            None => final(self)@ == (StateModel {
                                best_time: old(self)@.best_time,
                                game: Some(stepped),
                            }),
                        }
                    }
                },
    {
        if self.game.is_none() {
            if input.start_pressed {
                self.game = Some(Game::new(now, screen));
            }
            return;
        }
        let finished = match &mut self.game {
            Some(game) => game.update(now, input, screen),
            None => None,
        };
        if let Some(new_time) = finished {
            self.game = None;
            if new_time > self.best_time {
                self.best_time = new_time;
            }
        }
    }

    /// What to render this frame: the round view while a round runs,
    /// the menu otherwise. The round view carries the two times, the
    /// record flag, the ship's triangle and one circle per asteroid,
    /// exactly as the round holds them.
    pub fn draw(&self, now: i64, screen: &Screen) -> (scene: Scene)
        requires
            self@.wf(),
            screen.wf(),
            self@.game matches Some(g) ==> g.start_time <= now <= TIME_LIMIT,
        ensures
            self@.game is None <==> scene is Menu,
            self@.game matches Some(g) ==> scene matches Scene::Round(v)
                && v.current_time == now - g.start_time
                && v.best_time == self.best_time
                && v.is_record == (now - g.start_time > self@.best_time)
                && v.ship.top_x == g.ship.position
                && v.ship.top_y == screen.height - crate::SHIP_HEIGHT / 2 - crate::SHIP_OFFSET
                && v.ship.right_x == g.ship.position + crate::SHIP_WIDTH / 2
                && v.ship.right_y == screen.height - crate::SHIP_OFFSET
                && v.ship.left_x == g.ship.position - crate::SHIP_WIDTH / 2
                && v.ship.left_y == screen.height - crate::SHIP_OFFSET
                && v.asteroids@.len() == g.asteroids.len()
                && (forall|i: int| 0 <= i < g.asteroids.len()
                    ==> (#[trigger] v.asteroids@[i]).x == g.asteroids[i].x
                        && v.asteroids@[i].y == g.asteroids[i].y
                        && v.asteroids@[i].radius == g.asteroids[i].radius),
    {
        match &self.game {
            Some(game) => Scene::Round(game.draw(self.best_time, now, screen)),
            None => Scene::Menu,
        }
    }

    /// Where the centered menu prompt goes, given the measured size of
    /// its text: the remaining space split evenly on both axes.
    pub fn menu_text_position(screen: &Screen, text_width: i64, text_height: i64) -> (pos: (i64, i64))
        requires
            screen.wf(),
            0 <= text_width <= crate::SCREEN_LIMIT,
            0 <= text_height <= crate::SCREEN_LIMIT,
        ensures
            pos.0 == crate::trunc_div(screen.width - text_width, 2),
            pos.1 == crate::trunc_div(screen.height - text_height, 2),
    {
        (
            crate::div_i64(screen.width - text_width, 2),
            crate::div_i64(screen.height - text_height, 2),
        )
    }
}

} // verus!
