//! The game resource: a solver engine reached through the values callers
//! exchange with it, and the decisions taken between the engine's answers.
use vstd::prelude::*;
use crate::action::WitAction;
use crate::card::{
    card_from_str, card_of_name, card_to_string, flop_from_str, flop_of_name, hole_to_string,
    name_of_card, name_of_hole,
};
use crate::convert::{is_wit_detail_of, wit_action_of};
use crate::tree::{Action, ActionHistoryDetail, GameStatus};
use crate::wit::{WitActionHistoryDetail, WitGameStatus};

verus! {

/// The solver engine behind a game resource: a solved game tree with a
/// current node. `Ratio` is the type of the strategy ratios it reports.
///
/// Each spec function names what the engine answers in a state, or the state
/// a command leaves it in; the exec methods return (or move to) exactly that.
/// They claim no more: what the answers and moves are is the engine's own.
pub trait SolverGame: Sized {
    type Ratio;

    /// Whether the current node deals a card.
    spec fn spec_is_chance(&self) -> bool;

    /// Whether the current node ends the hand.
    spec fn spec_is_terminal(&self) -> bool;

    /// The player to act at the current node.
    spec fn spec_player(&self) -> usize;

    /// The engine after moving by the given action or dealt card.
    spec fn spec_play(&self, action: usize) -> Self;

    /// The engine after recomputing the reach weights of the current node.
    spec fn spec_cache_weights(&self) -> Self;

    /// The engine after moving to the node that the given line reaches from
    /// the root.
    spec fn spec_apply_history(&self, history: Seq<usize>) -> Self;

    /// The line played from the root to the current node.
    spec fn spec_history(&self) -> Seq<usize>;

    /// The board cards dealt so far.
    spec fn spec_board(&self) -> Seq<u8>;

    /// The actions available at the current node.
    spec fn spec_available_actions(&self) -> Seq<Action>;

    /// The steps of the played line with their valid actions and ratios.
    spec fn spec_valid_actions_history(&self) -> Seq<ActionHistoryDetail<Self::Ratio>>;

    /// The current node deals a card.
    fn is_chance_node(&self) -> (r: bool)
        ensures
            r == self.spec_is_chance();

    /// The current node ends the hand.
    fn is_terminal_node(&self) -> (r: bool)
        ensures
            r == self.spec_is_terminal();

    /// The player to act at the current node: 0 out of position, 1 in position.
    fn current_player(&self) -> (r: usize)
        ensures
            r == self.spec_player();

    /// Moves to the child reached by the given action or dealt card.
    fn play(&mut self, action: usize)
        ensures
            *final(self) == old(self).spec_play(action);

    /// Recomputes the reach weights of the current node.
    fn cache_normalized_weights(&mut self)
        ensures
            *final(self) == old(self).spec_cache_weights();

    /// Moves to the node reached from the root by the given line.
    fn apply_history(&mut self, history: &[usize])
        ensures
            *final(self) == old(self).spec_apply_history(history@);

    /// The line played from the root to the current node.
    fn history(&self) -> (r: Vec<usize>)
        ensures
            r@ == self.spec_history();

    /// The board cards dealt so far.
    fn current_board(&self) -> (r: Vec<u8>)
        ensures
            r@ == self.spec_board();

    /// The actions available at the current node.
    fn available_actions(&self) -> (r: Vec<Action>)
        ensures
            r@ == self.spec_available_actions();

    /// For each step of the played line, the actions valid there with their
    /// ratios, whose move it was, the pot and the street.
    fn valid_actions_history(&self) -> (r: Vec<ActionHistoryDetail<Self::Ratio>>)
        ensures
            r@ == self.spec_valid_actions_history();
}

/// A game resource: the solver engine it drives.
pub struct MyGame<G> {
    game: G,
}

/// The message given when a card is dealt at a node that deals none.
pub open spec fn invalid_action_message() -> Seq<char> {
    "This action is invalid."@
}

/// The status of a node from what the engine says of it: a dealing node, a
/// final node, or the node of player 0 (out of position) or else 1 (in
/// position).
pub open spec fn node_status_of(is_chance: bool, is_terminal: bool, player: usize) -> WitGameStatus {
    if is_chance {
        WitGameStatus::Chance
    } else if is_terminal {
        WitGameStatus::Terminal
    } else if player == 0 {
        WitGameStatus::OopAction
    } else {
        WitGameStatus::IpAction
    }
}

/// How a node's status follows from what the engine says of it: a dealing
/// node reads `Chance`; a final node that deals nothing reads `Terminal`
/// whatever player the engine names; any other node reads `OopAction` for
/// player 0 and `IpAction` for player 1. The four statuses tell the four
/// kinds of node apart.
pub proof fn lemma_node_status_cases(is_chance: bool, is_terminal: bool, player: usize)
    ensures
        is_chance ==> node_status_of(is_chance, is_terminal, player) == WitGameStatus::Chance,
        !is_chance && is_terminal ==> node_status_of(is_chance, is_terminal, player) == WitGameStatus::Terminal,
        !is_chance && !is_terminal && player == 0 ==> node_status_of(is_chance, is_terminal, player)
            == WitGameStatus::OopAction,
        !is_chance && !is_terminal && player == 1 ==> node_status_of(is_chance, is_terminal, player)
            == WitGameStatus::IpAction,
        names_a_status(is_chance, is_terminal, player) ==> (
            (node_status_of(is_chance, is_terminal, player) == WitGameStatus::Chance <==> is_chance)
            && (node_status_of(is_chance, is_terminal, player) == WitGameStatus::Terminal <==> !is_chance && is_terminal)
        ),
{
}

/// What the engine says of a node names a status: a dealing node, a final
/// node, or a player node of player 0 or 1.
pub open spec fn names_a_status(is_chance: bool, is_terminal: bool, player: usize) -> bool {
    is_chance || is_terminal || player < 2
}

/// The status of a node from what the engine says of it. A player node must
/// name player 0 or 1.
pub fn node_status(is_chance: bool, is_terminal: bool, player: usize) -> (r: WitGameStatus)
    requires
        names_a_status(is_chance, is_terminal, player),
    ensures
        r == node_status_of(is_chance, is_terminal, player),
{
    if is_chance {
        WitGameStatus::Chance
    } else if is_terminal {
        WitGameStatus::Terminal
    } else if player == 0 {
        WitGameStatus::OopAction
    } else {
        WitGameStatus::IpAction
    }
}

/// A played line in the callers' 32-bit form (each step reinterpreted).
pub fn history_to_u32(history: &[usize]) -> (r: Vec<u32>)
    ensures
        r@ == history@.map_values(|x: usize| x as u32),
{
    let mut r: Vec<u32> = Vec::new();
    for i in 0..history.len()
        invariant
            r@ == history@.take(i as int).map_values(|x: usize| x as u32),
    {
        r.push(history[i] as u32);
        assert(history@.take(i + 1) =~= history@.take(i as int).push(history@[i as int]));
        assert(r@ =~= history@.take(i + 1).map_values(|x: usize| x as u32));
    }
    assert(history@.take(history@.len() as int) =~= history@);
    r
}

/// A played line given by callers, in the engine's form.
pub fn history_to_usize(history: &[u32]) -> (r: Vec<usize>)
    ensures
        r@ == history@.map_values(|x: u32| x as usize),
{
    let mut r: Vec<usize> = Vec::new();
    for i in 0..history.len()
        invariant
            r@ == history@.take(i as int).map_values(|x: u32| x as usize),
    {
        r.push(history[i] as usize);
        assert(history@.take(i + 1) =~= history@.take(i as int).push(history@[i as int]));
        assert(r@ =~= history@.take(i + 1).map_values(|x: u32| x as usize));
    }
    assert(history@.take(history@.len() as int) =~= history@);
    r
}

/// The actions of a node in the callers' form, in the same order.
pub fn to_wit_actions(actions: &[Action]) -> (r: Vec<WitAction>)
    ensures
        r@ == actions@.map_values(|a: Action| wit_action_of(a)),
{
    let mut r: Vec<WitAction> = Vec::new();
    for i in 0..actions.len()
        invariant
            r@ == actions@.take(i as int).map_values(|a: Action| wit_action_of(a)),
    {
        r.push(WitAction::from(actions[i]));
        assert(actions@.take(i + 1) =~= actions@.take(i as int).push(actions@[i as int]));
        assert(r@ =~= actions@.take(i + 1).map_values(|a: Action| wit_action_of(a)));
    }
    assert(actions@.take(actions@.len() as int) =~= actions@);
    r
}

/// Every value of `cards` is a card (below 52).
pub open spec fn all_cards(cards: Seq<u8>) -> bool {
    forall|i: int| 0 <= i < cards.len() ==> #[trigger] cards[i] < 52
}

/// The names of the given cards, in order.
pub open spec fn card_names(cards: Seq<u8>) -> Seq<Seq<char>> {
    cards.map_values(|c: u8| name_of_card(c)->Ok_0)
}

/// Every step of `details` has a known status.
pub open spec fn all_statuses_known<R>(details: Seq<ActionHistoryDetail<R>>) -> bool {
    forall|i: int| 0 <= i < details.len() ==> #[trigger] details[i].game_status != GameStatus::Unknown
}

/// The names of the board cards, in order. Every value must be a card.
pub fn board_to_strings(cards: &[u8]) -> (r: Vec<String>)
    requires
        all_cards(cards@),
    ensures
        r@.map_values(|s: String| s@) == card_names(cards@),
{
    let mut r: Vec<String> = Vec::new();
    for i in 0..cards.len()
        invariant
            all_cards(cards@),
            r@.map_values(|s: String| s@) == card_names(cards@.take(i as int)),
    {
        let c = cards[i];
        assert(c < 52);
        match card_to_string(c) {
            Ok(name) => {
                let ghost before = r@.map_values(|s: String| s@);
                assert(name@ == name_of_card(c)->Ok_0);
                r.push(name);
                assert(cards@.take(i + 1) =~= cards@.take(i as int).push(c));
                assert(r@.map_values(|s: String| s@) =~= before.push(name@));
                assert(r@.map_values(|s: String| s@) =~= card_names(cards@.take(i + 1)));
            },
            Err(_) => {
                assert(false);
            },
        }
    }
    assert(cards@.take(cards@.len() as int) =~= cards@);
    r
}

/// The played line in the callers' form, step by step. Every step must have
/// a known status.
pub fn to_wit_history<R>(details: Vec<ActionHistoryDetail<R>>) -> (r: Vec<WitActionHistoryDetail<R>>)
    requires
        all_statuses_known(details@),
    ensures
        r@.len() == details@.len(),
        forall|i: int| 0 <= i < details@.len() ==> is_wit_detail_of(#[trigger] details@[i], r@[i]),
{
    let ghost orig = details@;
    let n = details.len();
    let mut rest = details;
    let mut out: Vec<WitActionHistoryDetail<R>> = Vec::new();
    let mut k: usize = 0;
    while k < n
        invariant
            n == orig.len(),
            all_statuses_known(orig),
            k <= n,
            rest@ == orig.subrange(k as int, n as int),
            out@.len() == k,
            forall|i: int| 0 <= i < k ==> is_wit_detail_of(#[trigger] orig[i], out@[i]),
        decreases n - k,
    {
        let d = rest.remove(0);
        assert(d == orig[k as int]);
        out.push(WitActionHistoryDetail::from(d));
        k = k + 1;
    }
    out
}

/// The names of the first `n` hands, each paired with its weight, or the
/// message for the first of them that has no name.
pub open spec fn named_hands<R>(hands: Seq<(u8, u8)>, weights: Seq<R>, n: nat) -> Result<Seq<(Seq<char>, R)>, Seq<char>>
    decreases n,
{
    if n == 0 {
        Ok(Seq::empty())
    } else {
        match named_hands(hands, weights, (n - 1) as nat) {
            Err(e) => Err(e),
            Ok(v) => match name_of_hole(hands[n - 1]) {
                Err(e) => Err(e),
                Ok(name) => Ok(v.push((name, weights[n - 1]))),
            },
        }
    }
}

/// Pairs of a text and a value, the text taken by its view.
pub open spec fn named_pairs_view<R>(v: Seq<(String, R)>) -> Seq<(Seq<char>, R)> {
    v.map_values(|p: (String, R)| (p.0@, p.1))
}

proof fn lemma_named_hands_error_stays<R>(hands: Seq<(u8, u8)>, weights: Seq<R>, k: nat, n: nat)
    requires
        k <= n,
        named_hands(hands, weights, k) is Err,
    ensures
        named_hands(hands, weights, n) == named_hands(hands, weights, k),
    decreases n,
{
    if n > k {
        lemma_named_hands_error_stays(hands, weights, k, (n - 1) as nat);
    }
}

/// Each hand's name (higher card first) paired with its weight, for as many
/// hands as there are both hands and weights; a hand with a value that is no
/// card gives its message instead.
pub fn card_weights<R: Copy>(hands: &[(u8, u8)], weights: &[R]) -> (r: Result<Vec<(String, R)>, String>)
    ensures
        ({
            let n = if hands@.len() < weights@.len() { hands@.len() } else { weights@.len() };
            match (r, named_hands(hands@, weights@, n)) {
                (Ok(v), Ok(p)) => named_pairs_view(v@) == p,
                (Err(e), Err(m)) => e@ == m,
                _ => false,
            }
        }),
{
    let n = if hands.len() < weights.len() { hands.len() } else { weights.len() };
    let mut out: Vec<(String, R)> = Vec::new();
    for i in 0..n
        invariant
            n == (if hands@.len() < weights@.len() { hands@.len() } else { weights@.len() }),
            named_hands(hands@, weights@, i as nat) is Ok,
            named_pairs_view(out@) == named_hands(hands@, weights@, i as nat)->Ok_0,
    {
        match hole_to_string(hands[i]) {
            Ok(name) => {
                let ghost before = out@;
                out.push((name, weights[i]));
                assert(named_pairs_view(out@) =~= named_pairs_view(before).push((name@, weights@[i as int])));
            },
            Err(e) => {
                proof {
                    assert(name_of_hole(hands@[i as int]) == Err::<Seq<char>, Seq<char>>(e@));
                    assert(named_hands(hands@, weights@, (i + 1) as nat) == Err::<Seq<(Seq<char>, R)>, Seq<char>>(e@));
                    lemma_named_hands_error_stays(hands@, weights@, (i + 1) as nat, n as nat);
                }
                return Err(e);
            },
        }
    }
    Ok(out)
}

/// What a new game is built from: the two players' ranges, the flop, the
/// starting pot and effective stack in chips, and the bet and raise sizes
/// used on every street by both players.
pub struct GameConfig {
    pub oop_range: String,
    pub ip_range: String,
    pub flop: [u8; 3],
    pub starting_pot: i32,
    pub effective_stack: i32,
    pub bet_sizes: String,
    pub raise_sizes: String,
}

/// The bet and raise sizes of a mode: 0 small, 1 medium, 2 large.
pub open spec fn sizes_of_mode(mode: u8) -> (Seq<char>, Seq<char>) {
    if mode == 0 {
        ("33%,70%"@, ""@)
    } else if mode == 1 {
        ("33%,75%,a"@, "3x,a"@)
    } else {
        ("15%,33%,50%,75%,100%,150%,a"@, "2.5x,3x,3.5x,4x,a"@)
    }
}

/// The range of the out-of-position player (an early-position four-bettor).
pub open spec fn oop_range_text() -> Seq<char> {
    "AA-JJ,AQo+,KQo+,AKs-AQs,A5s"@
}

/// The range of the in-position player (a late-position four-bet caller).
pub open spec fn ip_range_text() -> Seq<char> {
    "QQ-88,AKo,AQs+,KJs+,QJs+,65s"@
}

/// `c` configures a game on the flop `f` with the sizes of `mode`, the two
/// fixed ranges, a pot of 16 chips and effective stacks of 100.
pub open spec fn is_config_for(c: GameConfig, f: Seq<u8>, mode: u8) -> bool {
    &&& c.flop@ == f
    &&& c.oop_range@ == oop_range_text()
    &&& c.ip_range@ == ip_range_text()
    &&& c.starting_pot == 16
    &&& c.effective_stack == 100
    &&& (c.bet_sizes@, c.raise_sizes@) == sizes_of_mode(mode)
}

/// The configuration of a new game on the flop written `flop_card_str` with
/// the sizes of `mode`. The mode must be 0, 1 or 2 and the flop must read.
pub fn game_config(flop_card_str: &str, mode: u8) -> (r: GameConfig)
    requires
        mode <= 2,
        flop_of_name(flop_card_str@) is Ok,
    ensures
        is_config_for(r, flop_of_name(flop_card_str@)->Ok_0, mode),
{
    let (bet_sizes, raise_sizes) = if mode == 0 {
        (String::from_str("33%,70%"), String::from_str(""))
    } else if mode == 1 {
        (String::from_str("33%,75%,a"), String::from_str("3x,a"))
    } else {
        (String::from_str("15%,33%,50%,75%,100%,150%,a"), String::from_str("2.5x,3x,3.5x,4x,a"))
    };
    let flop = match flop_from_str(flop_card_str) {
        Ok(flop) => flop,
        Err(_) => {
            assert(false);
            [0, 0, 0]
        },
    };
    GameConfig {
        oop_range: String::from_str("AA-JJ,AQo+,KQo+,AKs-AQs,A5s"),
        ip_range: String::from_str("QQ-88,AKo,AQs+,KJs+,QJs+,65s"),
        flop,
        starting_pot: 16,
        effective_stack: 100,
        bet_sizes,
        raise_sizes,
    }
}

/// The most solver iterations run when a game is built.
pub const MAX_ITERATIONS: u32 = 100;

/// Whether the exploitability is measured after the given solver iteration
/// (counted from 0): after every third one.
pub fn is_exploitability_check(iteration: u32) -> (r: bool)
    ensures
        r == ((iteration + 1) % 3 == 0),
{
    iteration % 3 == 2
}

/// The solver iteration to run after `iteration` (counted from 0), or `None`
/// to stop: solving stops once the exploitability measured after this
/// iteration (`target_reached` is `Some` exactly when it was measured) is
/// within the target, or when the iterations run out.
pub fn next_iteration(iteration: u32, target_reached: Option<bool>) -> (r: Option<u32>)
    requires
        iteration < MAX_ITERATIONS,
    ensures
        target_reached == Some(true) ==> r is None,
        target_reached != Some(true) ==> r == (if iteration + 1 < MAX_ITERATIONS {
            Some((iteration + 1) as u32)
        } else {
            None::<u32>
        }),
{
    match target_reached {
        Some(true) => None,
        _ => if iteration + 1 < MAX_ITERATIONS {
            Some(iteration + 1)
        } else {
            None
        },
    }
}

impl<G: SolverGame> MyGame<G> {
    /// The engine this resource drives.
    pub closed spec fn engine(&self) -> G {
        self.game
    }

    /// A resource driving the given (solved) engine.
    pub fn from_game(game: G) -> (r: Self)
        ensures
            r.engine() == game,
    {
        MyGame { game }
    }

    /// The engine this resource drives.
    pub fn game(&self) -> (r: &G)
        ensures
            *r == self.engine(),
    {
        &self.game
    }

    /// Deals the named card if the current node deals one, then recomputes
    /// the reach weights; otherwise refuses and leaves the engine as it was.
    /// The name must read as a card.
    pub fn card_deal(&mut self, card_str: String) -> (r: Result<bool, String>)
        requires
            card_of_name(card_str@) is Ok,
        ensures
            old(self).engine().spec_is_chance() ==> r == Ok::<bool, String>(true)
                && final(self).engine() == old(self).engine().spec_play(
                card_of_name(card_str@)->Ok_0 as usize,
            ).spec_cache_weights(),
            !old(self).engine().spec_is_chance() ==> (r is Err && r->Err_0@ == invalid_action_message()
                && final(self).engine() == old(self).engine()),
    {
        let card = match card_from_str(card_str.as_str()) {
            Ok(card) => card,
            Err(_) => {
                proof {
                    assert(false);
                }
                return Err(String::from_str("This action is invalid."));
            },
        };
        if self.game.is_chance_node() {
            self.game.play(card as usize);
            self.game.cache_normalized_weights();
            Ok(true)
        } else {
            Err(String::from_str("This action is invalid."))
        }
    }

    /// Plays the action with the given index at the current node, then
    /// recomputes the reach weights.
    pub fn action(&mut self, action_num: u32) -> (r: Result<bool, String>)
        ensures
            r == Ok::<bool, String>(true),
            final(self).engine() == old(self).engine().spec_play(action_num as usize).spec_cache_weights(),
    {
        self.game.play(action_num as usize);
        self.game.cache_normalized_weights();
        Ok(true)
    }

    /// The names of the board cards dealt so far, in order. Every value the
    /// engine reports must be a card.
    pub fn get_board_cards(&self) -> (r: Vec<String>)
        requires
            all_cards(self.engine().spec_board()),
        ensures
            r@.map_values(|s: String| s@) == card_names(self.engine().spec_board()),
    {
        let board = self.game.current_board();
        board_to_strings(board.as_slice())
    }

    /// The actions available at the current node, in the callers' form.
    pub fn get_available_action(&self) -> (r: Vec<WitAction>)
        ensures
            r@ == self.engine().spec_available_actions().map_values(|a: Action| wit_action_of(a)),
    {
        let actions = self.game.available_actions();
        to_wit_actions(actions.as_slice())
    }

    /// Moves to the node reached from the root by the given line, then
    /// recomputes the reach weights.
    pub fn apply_history(&mut self, history: Vec<u32>) -> (r: Result<bool, ()>)
        ensures
            r == Ok::<bool, ()>(true),
            final(self).engine() == old(self).engine().spec_apply_history(
                history@.map_values(|x: u32| x as usize),
            ).spec_cache_weights(),
    {
        let history_usize = history_to_usize(history.as_slice());
        self.game.apply_history(history_usize.as_slice());
        self.game.cache_normalized_weights();
        Ok(true)
    }

    /// The line played from the root to the current node, each step in the
    /// callers' 32-bit form.
    pub fn get_history(&self) -> (r: Vec<u32>)
        ensures
            r@ == self.engine().spec_history().map_values(|x: usize| x as u32),
    {
        let history = self.game.history();
        history_to_u32(history.as_slice())
    }

    /// The steps of the played line in the callers' form, each with its
    /// actions listed stably in the action order. Every step the engine
    /// reports must have a known status.
    pub fn get_valid_actions_history(&self) -> (r: Vec<WitActionHistoryDetail<G::Ratio>>)
        requires
            all_statuses_known(self.engine().spec_valid_actions_history()),
        ensures
            r@.len() == self.engine().spec_valid_actions_history().len(),
            forall|i: int|
                0 <= i < r@.len() ==> is_wit_detail_of(
                    #[trigger] self.engine().spec_valid_actions_history()[i],
                    r@[i],
                ),
    {
        let details = self.game.valid_actions_history();
        to_wit_history(details)
    }

    /// Whose move the current node waits for: a dealing node, a final node,
    /// or the node of player 0 or 1. A player node must name one of the two.
    pub fn get_game_status(&self) -> (r: WitGameStatus)
        requires
            names_a_status(
                self.engine().spec_is_chance(),
                self.engine().spec_is_terminal(),
                self.engine().spec_player(),
            ),
        ensures
            r == node_status_of(
                self.engine().spec_is_chance(),
                self.engine().spec_is_terminal(),
                self.engine().spec_player(),
            ),
    {
        if self.game.is_chance_node() {
            return WitGameStatus::Chance;
        }
        if self.game.is_terminal_node() {
            return WitGameStatus::Terminal;
        }
        let current_player = self.game.current_player();
        node_status(false, false, current_player)
    }

    /// The index of the named card, or the reason the name reads as no card.
    pub fn get_card_index_from_str(&self, card_str: String) -> (r: Result<u32, String>)
        ensures
            match card_of_name(card_str@) {
                Ok(c) => r == Ok::<u32, String>(c as u32),
                Err(m) => r matches Err(e) && e@ == "Error parsing card string: "@ + m,
            },
    {
        get_card_index_from_str(card_str.as_str())
    }
}

/// A card can be dealt exactly where the status reads `Chance`: `card_deal`
/// succeeds on the same engine states for which `get_game_status` gives
/// `Chance`.
pub proof fn lemma_deal_exactly_at_chance<G: SolverGame>(game: MyGame<G>)
    ensures
        node_status_of(
            game.engine().spec_is_chance(),
            game.engine().spec_is_terminal(),
            game.engine().spec_player(),
        ) == WitGameStatus::Chance <==> game.engine().spec_is_chance(),
{
}

/// Reading a played line in the callers' form and writing it back gives the
/// same line.
pub proof fn lemma_history_round_trip(history: Seq<u32>)
    ensures
        history.map_values(|x: u32| x as usize).map_values(|x: usize| x as u32) == history,
{
    assert(history.map_values(|x: u32| x as usize).map_values(|x: usize| x as u32) =~= history);
}

/// The index of the named card, or the reason the name reads as no card.
pub fn get_card_index_from_str(card_str: &str) -> (r: Result<u32, String>)
    ensures
        match card_of_name(card_str@) {
            Ok(c) => r == Ok::<u32, String>(c as u32),
            Err(m) => r matches Err(e) && e@ == "Error parsing card string: "@ + m,
        },
{
    match card_from_str(card_str) {
        Ok(card) => Ok(card as u32),
        Err(e) => Err(String::from_str("Error parsing card string: ").concat(e.as_str())),
    }
}

} // verus!
