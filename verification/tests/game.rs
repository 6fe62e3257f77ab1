use postflop_solver::action::WitAction;
use postflop_solver::game::{history_to_u32, history_to_usize};
use postflop_solver::game::{
    game_config, is_exploitability_check, next_iteration, node_status, MyGame, SolverGame, MAX_ITERATIONS,
};
use vstd::seq::Seq;
use postflop_solver::tree::{Action, ActionHistoryDetail, BoardState, GameStatus};
use postflop_solver::wit::WitGameStatus::{self, Chance, IpAction, OopAction, Terminal};

/// A small stand-in for the solver engine: each street is a check or a bet of
/// 5, answered by a check/bet or a fold/call; a closed street deals a card
/// until the river is done.
#[derive(Clone)]
struct MockGame {
    flop: Vec<u8>,
    history: Vec<usize>,
    board: Vec<u8>,
    street_actions: usize,
    facing_bet: bool,
    street_closed: bool,
    folded: bool,
    weight_refreshes: usize,
}

impl MockGame {
    fn new(flop: [u8; 3]) -> Self {
        MockGame {
            flop: flop.to_vec(),
            history: Vec::new(),
            board: flop.to_vec(),
            street_actions: 0,
            facing_bet: false,
            street_closed: false,
            folded: false,
            weight_refreshes: 0,
        }
    }

    fn status(&self) -> GameStatus {
        if self.folded || (self.street_closed && self.board.len() == 5) {
            GameStatus::Terminal
        } else if self.street_closed {
            GameStatus::Chance
        } else if self.street_actions % 2 == 0 {
            GameStatus::Oop
        } else {
            GameStatus::Ip
        }
    }

    fn actions_here(&self) -> Vec<Action> {
        match self.status() {
            GameStatus::Oop | GameStatus::Ip => {
                if self.facing_bet {
                    vec![Action::Fold, Action::Call]
                } else {
                    vec![Action::Check, Action::Bet(5)]
                }
            }
            GameStatus::Chance => (0u8..52).filter(|c| !self.board.contains(c)).map(Action::Chance).collect(),
            _ => Vec::new(),
        }
    }

    fn street(&self) -> BoardState {
        match self.board.len() {
            3 => BoardState::Flop,
            4 => BoardState::Turn,
            _ => BoardState::River,
        }
    }
}

impl SolverGame for MockGame {
    type Ratio = f32;

    // The spec functions below only name the engine's answers for the
    // verifier; they are never run, and the executable methods stand for them.
    fn spec_is_chance(&self) -> bool {
        self.is_chance_node()
    }

    fn spec_is_terminal(&self) -> bool {
        self.is_terminal_node()
    }

    fn spec_player(&self) -> usize {
        self.current_player()
    }

    fn spec_play(&self, action: usize) -> Self {
        let mut next = self.clone();
        next.play(action);
        next
    }

    fn spec_cache_weights(&self) -> Self {
        let mut next = self.clone();
        next.cache_normalized_weights();
        next
    }

    fn spec_apply_history(&self, _history: Seq<usize>) -> Self {
        unreachable!("spec functions are not run")
    }

    fn spec_history(&self) -> Seq<usize> {
        unreachable!("spec functions are not run")
    }

    fn spec_board(&self) -> Seq<u8> {
        unreachable!("spec functions are not run")
    }

    fn spec_available_actions(&self) -> Seq<Action> {
        unreachable!("spec functions are not run")
    }

    fn spec_valid_actions_history(&self) -> Seq<ActionHistoryDetail<f32>> {
        unreachable!("spec functions are not run")
    }

    fn is_chance_node(&self) -> bool {
        self.status() == GameStatus::Chance
    }

    fn is_terminal_node(&self) -> bool {
        self.status() == GameStatus::Terminal
    }

    fn current_player(&self) -> usize {
        self.street_actions % 2
    }

    fn play(&mut self, action: usize) {
        self.history.push(action);
        match self.status() {
            GameStatus::Chance => {
                self.board.push(action as u8);
                self.street_actions = 0;
                self.street_closed = false;
                self.facing_bet = false;
            }
            GameStatus::Oop | GameStatus::Ip => {
                if self.facing_bet {
                    if action == 0 {
                        self.folded = true;
                    } else {
                        self.street_closed = true;
                    }
                } else if action == 0 {
                    if self.street_actions == 1 {
                        self.street_closed = true;
                    }
                } else {
                    self.facing_bet = true;
                }
                self.street_actions += 1;
            }
            _ => {}
        }
    }

    fn cache_normalized_weights(&mut self) {
        self.weight_refreshes += 1;
    }

    fn apply_history(&mut self, history: &[usize]) {
        let mut fresh = MockGame::new([self.flop[0], self.flop[1], self.flop[2]]);
        for a in history {
            fresh.play(*a);
        }
        *self = fresh;
    }

    fn history(&self) -> Vec<usize> {
        self.history.clone()
    }

    fn current_board(&self) -> Vec<u8> {
        self.board.clone()
    }

    fn available_actions(&self) -> Vec<Action> {
        self.actions_here()
    }

    fn valid_actions_history(&self) -> Vec<ActionHistoryDetail<f32>> {
        let mut replay = MockGame::new([self.flop[0], self.flop[1], self.flop[2]]);
        let mut out = Vec::new();
        for step in 0..=self.history.len() {
            let actions = replay.actions_here();
            let n = actions.len().max(1) as f32;
            out.push(ActionHistoryDetail {
                actions: actions.into_iter().rev().map(|a| (a, 1.0 / n)).collect(),
                game_status: replay.status(),
                pot_without_current_bet: 16,
                street: replay.street(),
            });
            if step < self.history.len() {
                replay.play(self.history[step]);
            }
        }
        out
    }
}

fn new_game(flop: &str, mode: u8) -> MyGame<MockGame> {
    let config = game_config(flop, mode);
    MyGame::from_game(MockGame::new(config.flop))
}

#[test]
fn game_manager_api_roundtrip() {
    let mut game = new_game("AsKsQs", 0);
    assert_eq!(game.get_game_status(), OopAction);

    let check: bool = game.action(0).unwrap();
    assert!(check);
    assert_eq!(game.get_game_status(), IpAction);

    let check: bool = game.action(0).unwrap();
    assert!(check);
    assert_eq!(game.get_game_status(), Chance);

    let card_index: u32 = game.get_card_index_from_str("2d".to_string()).unwrap();
    assert!(card_index == 1);

    let board_cards: Vec<String> = game.get_board_cards();
    assert!(board_cards[2] == "Qs".to_string());

    let dealt: bool = game.action(card_index).unwrap();
    assert!(dealt);

    let board_cards = game.get_board_cards();
    assert!(board_cards[3] == "2d".to_string());
}

#[test]
fn wasm_lib_test_apply_history() {
    let mut game = new_game("AsKsQs", 1);
    assert_eq!(game.get_game_status(), OopAction);

    let mut card = game.get_card_index_from_str("2h".to_string()).unwrap();
    assert_eq!(card, 2);
    card = game.get_card_index_from_str("As".to_string()).unwrap();
    assert_eq!(card, 51);
    card = game.get_card_index_from_str("Js".to_string()).unwrap();
    assert_eq!(card, 39);

    let check: bool = game.action(0).unwrap();
    assert!(check);
    assert_eq!(game.get_game_status(), IpAction);

    let check: bool = game.action(0).unwrap();
    assert!(check);
    assert_eq!(game.get_game_status(), Chance);

    let now_histry_1 = game.get_history();
    assert_eq!(now_histry_1, [0, 0]);

    let history: Vec<u32> = vec![1, 1, 30, 0, 1, 0];
    assert_eq!(game.apply_history(history), Ok(true));
    let now_histry_2 = game.get_history();
    assert_eq!(now_histry_2, [1, 1, 30, 0, 1, 0]);

    let valid_actions_history = game.get_valid_actions_history();
    let status_index = [OopAction, IpAction, Chance, OopAction, IpAction, OopAction, Terminal];
    for (round_idx, actions_detail) in valid_actions_history.iter().enumerate() {
        assert_eq!(actions_detail.game_status, status_index[round_idx]);
    }
}

#[test]
fn valid_actions_history_lists_actions_in_order() {
    let mut game = new_game("2s3s4s", 0);
    game.action(1).unwrap();
    let details = game.get_valid_actions_history();
    assert_eq!(details.len(), 2);
    let first: Vec<WitAction> = details[0].action_ratio_list.iter().map(|e| e.action).collect();
    assert_eq!(first, vec![WitAction::Check, WitAction::Bet(5)]);
    let second: Vec<WitAction> = details[1].action_ratio_list.iter().map(|e| e.action).collect();
    assert_eq!(second, vec![WitAction::Fold, WitAction::Call]);
    assert_eq!(details[1].pot, 16);
}

#[test]
fn card_deal_only_at_chance_nodes() {
    let mut game = new_game("AsKsQs", 2);
    assert_eq!(game.card_deal("2d".to_string()), Err("This action is invalid.".to_string()));
    game.action(0).unwrap();
    game.action(0).unwrap();
    assert_eq!(game.card_deal("2d".to_string()), Ok(true));
    assert_eq!(game.get_board_cards(), vec!["As", "Ks", "Qs", "2d"]);
    assert_eq!(game.get_history(), vec![0, 0, 1]);
    assert_eq!(game.game().weight_refreshes, 3);
}

#[test]
fn available_actions_in_callers_form() {
    let mut game = new_game("AsKsQs", 0);
    assert_eq!(game.get_available_action(), vec![WitAction::Check, WitAction::Bet(5)]);
    game.action(1).unwrap();
    assert_eq!(game.get_available_action(), vec![WitAction::Fold, WitAction::Call]);
    game.action(0).unwrap();
    assert_eq!(game.get_game_status(), Terminal);
    assert!(game.get_available_action().is_empty());
}

#[test]
fn board_names_in_order() {
    assert_eq!(
        postflop_solver::game::board_to_strings(&[0, 1, 51]),
        vec!["2c".to_string(), "2d".to_string(), "As".to_string()]
    );
    assert!(postflop_solver::game::board_to_strings(&[]).is_empty());
}

#[test]
fn node_status_decisions() {
    assert_eq!(node_status(true, true, 9), WitGameStatus::Chance);
    assert_eq!(node_status(false, true, 9), WitGameStatus::Terminal);
    assert_eq!(node_status(false, false, 0), WitGameStatus::OopAction);
    assert_eq!(node_status(false, false, 1), WitGameStatus::IpAction);
}

#[test]
fn history_conversions() {
    let h: Vec<u32> = vec![1, 1, 30, 0, u32::MAX];
    assert_eq!(history_to_u32(&history_to_usize(&h)), h);
    assert_eq!(history_to_u32(&[(1usize << 32) + 3]), vec![3]);
}

#[test]
fn configs_for_modes() {
    let c = game_config("AsKsQs", 0);
    assert_eq!(c.flop, [51, 47, 43]);
    assert_eq!(c.bet_sizes, "33%,70%");
    assert_eq!(c.raise_sizes, "");
    assert_eq!(c.starting_pot, 16);
    assert_eq!(c.effective_stack, 100);
    assert_eq!(c.oop_range, "AA-JJ,AQo+,KQo+,AKs-AQs,A5s");
    assert_eq!(c.ip_range, "QQ-88,AKo,AQs+,KJs+,QJs+,65s");
    let c = game_config("2s3s4s", 1);
    assert_eq!((c.bet_sizes.as_str(), c.raise_sizes.as_str()), ("33%,75%,a", "3x,a"));
    let c = game_config("2s3s4s", 2);
    assert_eq!(
        (c.bet_sizes.as_str(), c.raise_sizes.as_str()),
        ("15%,33%,50%,75%,100%,150%,a", "2.5x,3x,3.5x,4x,a")
    );
}

#[test]
fn exploitability_checked_every_third_iteration() {
    let checks: Vec<u32> = (0..MAX_ITERATIONS).filter(|i| is_exploitability_check(*i)).collect();
    assert_eq!(checks.len(), 33);
    assert_eq!(checks[0], 2);
    assert_eq!(checks[1], 5);
    assert!(!is_exploitability_check(0));
    assert!(!is_exploitability_check(u32::MAX));
}

#[test]
fn solving_stops_at_the_target_or_the_last_iteration() {
    assert_eq!(next_iteration(0, None), Some(1));
    assert_eq!(next_iteration(2, Some(false)), Some(3));
    assert_eq!(next_iteration(2, Some(true)), None);
    assert_eq!(next_iteration(MAX_ITERATIONS - 2, None), Some(MAX_ITERATIONS - 1));
    assert_eq!(next_iteration(MAX_ITERATIONS - 1, Some(false)), None);
    let mut iteration = 0;
    let mut run = 1;
    while let Some(next) = next_iteration(iteration, is_exploitability_check(iteration).then_some(false)) {
        iteration = next;
        run += 1;
    }
    assert_eq!(run, MAX_ITERATIONS);
}
