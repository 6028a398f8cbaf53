//! The state of a poker table and the rules by which a move changes it.

use vstd::prelude::*;
use crate::actions::ActionType;

verus! {

/// A move as a player submits it: the kind of move, and for a raise the
/// amount by which the table's bet goes up.
#[allow(non_camel_case_types)]
#[derive(Debug, Clone, Copy, PartialEq, Eq, Structural)]
pub struct Check_Action {
    pub action_type: ActionType,
    /// Only used for a raise; the other moves leave it `None`.
    pub amount: Option<u64>,
}

/// One seat at the table.
#[derive(Debug, Clone, Copy, PartialEq, Eq, Structural)]
pub struct Player {
    pub id: u64,
    pub balance: u64,
    pub current_bet: u64,
    pub has_folded: bool,
}

/// Why a move was refused.
#[derive(Debug, Clone, Copy, PartialEq, Eq, Structural)]
pub enum MoveRefusal {
    NotYourTurn,
    AlreadyFolded,
    MustCallOrRaise,
    CannotAffordCall,
    CannotAffordRaise,
    NoRaiseAmount,
    NotSmallBlindSeat,
    CannotAffordSmallBlind,
    NotBigBlindSeat,
    CannotAffordBigBlind,
}

/// The text reported for each refusal.
pub open spec fn spec_refusal_message(r: MoveRefusal) -> Seq<char> {
    match r {
        MoveRefusal::NotYourTurn => "Not your turn"@,
        MoveRefusal::AlreadyFolded => "Player has already folded"@,
        MoveRefusal::MustCallOrRaise => "Cannot check, must call or raise"@,
        MoveRefusal::CannotAffordCall => "Not enough balance to call"@,
        MoveRefusal::CannotAffordRaise => "Not enough balance to raise"@,
        MoveRefusal::NoRaiseAmount => "Raise amount not specified"@,
        MoveRefusal::NotSmallBlindSeat => "Only P1 can post the small blind"@,
        MoveRefusal::CannotAffordSmallBlind => "Not enough balance to post the small blind"@,
        MoveRefusal::NotBigBlindSeat => "Only P2 can post the big blind"@,
        MoveRefusal::CannotAffordBigBlind => "Not enough balance to post the big blind"@,
    }
}

impl MoveRefusal {
    /// The text reported for the refusal.
    pub fn message(&self) -> (text: &'static str)
        ensures
            text@ == spec_refusal_message(*self),
    {
        match self {
            MoveRefusal::NotYourTurn => "Not your turn",
            MoveRefusal::AlreadyFolded => "Player has already folded",
            MoveRefusal::MustCallOrRaise => "Cannot check, must call or raise",
            MoveRefusal::CannotAffordCall => "Not enough balance to call",
            MoveRefusal::CannotAffordRaise => "Not enough balance to raise",
            MoveRefusal::NoRaiseAmount => "Raise amount not specified",
            MoveRefusal::NotSmallBlindSeat => "Only P1 can post the small blind",
            MoveRefusal::CannotAffordSmallBlind => "Not enough balance to post the small blind",
            MoveRefusal::NotBigBlindSeat => "Only P2 can post the big blind",
            MoveRefusal::CannotAffordBigBlind => "Not enough balance to post the big blind",
        }
    }
}

/// A poker table: its seats in turn order, the blinds, the pot, the bet to
/// match and whose turn it is.
#[derive(Debug, Clone)]
pub struct PokerGame {
    players: Vec<Player>,
    small_blind: u64,
    big_blind: u64,
    pot: u64,
    current_bet: u64,
    current_player_index: usize,
}

/// What a [`PokerGame`] holds, as mathematical values.
#[verifier::ext_equal]
pub struct GameView {
    pub players: Seq<Player>,
    pub small_blind: u64,
    pub big_blind: u64,
    pub pot: u64,
    pub current_bet: u64,
    pub current_player_index: usize,
}

impl View for PokerGame {
    type V = GameView;

    closed spec fn view(&self) -> GameView {
        GameView {
            players: self.players@,
            small_blind: self.small_blind,
            big_blind: self.big_blind,
            pot: self.pot,
            current_bet: self.current_bet,
            current_player_index: self.current_player_index,
        }
    }
}

/// The seats of a new table: the i-th id with the i-th balance, as many as the
/// shorter of the two lists, nobody having bet or folded.
pub open spec fn seat_players(ids: Seq<u64>, balances: Seq<u64>) -> Seq<Player> {
    let n = if ids.len() <= balances.len() { ids.len() } else { balances.len() };
    Seq::new(n, |j: int| Player { id: ids[j], balance: balances[j], current_bet: 0, has_folded: false })
}

/// The seat `k` places after seat `from`, going round a table of `n` seats.
pub open spec fn seat_after(from: int, k: int, n: int) -> int {
    (from + k) % n
}

/// `to` is the first seat after `from`, going round the table, whose player
/// has not folded.
pub open spec fn is_next_turn(players: Seq<Player>, from: int, to: int) -> bool {
    let n = players.len() as int;
    exists|k: int|
        #![trigger seat_after(from, k, n)]
        1 <= k <= n && to == seat_after(from, k, n) && !players[to].has_folded && forall|m: int|
            1 <= m < k ==> players[#[trigger] seat_after(from, m, n)].has_folded
}

/// The sum of the balances of the given seats.
pub open spec fn sum_balances(players: Seq<Player>) -> int
    decreases players.len(),
{
    if players.len() == 0 {
        0
    } else {
        sum_balances(players.drop_last()) + players.last().balance
    }
}

impl GameView {
    /// The seat whose turn it is.
    pub open spec fn acting(self) -> Player {
        self.players[self.current_player_index as int]
    }

    /// All chips at the table: every balance and the pot.
    pub open spec fn total_chips(self) -> int {
        sum_balances(self.players) + self.pot
    }

    /// The first rule the move breaks, checked in this order: the turn, a
    /// fold already made, then the rule of the move itself; `None` when the
    /// move is accepted.
    pub open spec fn refusal(self, action: Check_Action, player_id: u64, current_player: u64) -> Option<MoveRefusal> {
        let p = self.acting();
        if player_id != current_player {
            Some(MoveRefusal::NotYourTurn)
        } else if p.has_folded {
            Some(MoveRefusal::AlreadyFolded)
        } else {
            match action.action_type {
                ActionType::Fold => None,
                ActionType::Check => if p.current_bet < self.current_bet {
                    Some(MoveRefusal::MustCallOrRaise)
                } else {
                    None
                },
                ActionType::Call => if p.balance < self.current_bet - p.current_bet {
                    Some(MoveRefusal::CannotAffordCall)
                } else {
                    None
                },
                ActionType::Raise => match action.amount {
                    Some(a) => if p.balance < self.current_bet + a {
                        Some(MoveRefusal::CannotAffordRaise)
                    } else {
                        None
                    },
                    None => Some(MoveRefusal::NoRaiseAmount),
                },
                ActionType::SmallBlind => if self.current_player_index != 0 {
                    Some(MoveRefusal::NotSmallBlindSeat)
                } else if p.balance < self.small_blind {
                    Some(MoveRefusal::CannotAffordSmallBlind)
                } else {
                    None
                },
                ActionType::BigBlind => if self.current_player_index != 1 {
                    Some(MoveRefusal::NotBigBlindSeat)
                } else if p.balance < self.big_blind {
                    Some(MoveRefusal::CannotAffordBigBlind)
                } else {
                    None
                },
            }
        }
    }

    /// The move is accepted: the account says `current_player` is to act, the
    /// submitter is that player, the acting seat has not folded, and the move
    /// itself is allowed (a check needs the bet matched, a call or raise needs
    /// the balance, a raise needs an amount, only the first seat posts the small
    /// blind and only the second the big blind, each with the balance for it).
    pub open spec fn move_allowed(self, action: Check_Action, player_id: u64, current_player: u64) -> bool {
        let p = self.acting();
        &&& player_id == current_player
        &&& !p.has_folded
        &&& match action.action_type {
            ActionType::Fold => true,
            ActionType::Check => p.current_bet >= self.current_bet,
            ActionType::Call => p.balance >= self.current_bet - p.current_bet,
            ActionType::Raise => match action.amount {
                Some(a) => p.balance >= self.current_bet + a,
                None => false,
            },
            ActionType::SmallBlind => self.current_player_index == 0 && p.balance >= self.small_blind,
            ActionType::BigBlind => self.current_player_index == 1 && p.balance >= self.big_blind,
        }
    }

    /// After the move someone is left to act: an accepted fold needs another
    /// seat whose player has not folded (the turn would otherwise go round the
    /// table for ever).
    pub open spec fn turn_can_pass(self, action: Check_Action, player_id: u64, current_player: u64) -> bool {
        (self.move_allowed(action, player_id, current_player) && action.action_type == ActionType::Fold)
            ==> exists|j: int|
            0 <= j < self.players.len() && j != self.current_player_index && !#[trigger] self.players[j].has_folded
    }

    /// The move's arithmetic stays within `u64`: a call needs the acting seat's
    /// bet not above the table's, and what goes into the pot, and a raise's new
    /// bet, must fit.
    pub open spec fn move_in_range(self, action: Check_Action, player_id: u64, current_player: u64) -> bool {
        let p = self.acting();
        (player_id == current_player && !p.has_folded) ==> match action.action_type {
            ActionType::Fold => true,
            ActionType::Check => true,
            ActionType::Call => p.current_bet <= self.current_bet && (p.balance >= self.current_bet
                - p.current_bet ==> self.pot + (self.current_bet - p.current_bet) <= u64::MAX),
            ActionType::Raise => match action.amount {
                Some(a) => self.current_bet + a <= u64::MAX && (p.balance >= self.current_bet + a
                    ==> p.current_bet <= self.current_bet + a && self.pot + a <= u64::MAX),
                None => true,
            },
            ActionType::SmallBlind => (self.current_player_index == 0 && p.balance
                >= self.small_blind) ==> self.pot + self.small_blind <= u64::MAX,
            ActionType::BigBlind => (self.current_player_index == 1 && p.balance
                >= self.big_blind) ==> self.pot + self.big_blind <= u64::MAX,
        }
    }

    /// The table after an accepted move, before the turn passes on.
    /// A fold marks the seat folded; a check changes nothing; a call moves the
    /// difference to the table's bet from the balance into the pot; a raise by
    /// `a` sets the table's bet and the seat's bet to the old table bet plus `a`,
    /// takes the new bet less the seat's old bet from the balance and puts `a`
    /// into the pot; a blind moves the blind from the balance into the pot and
    /// makes it the seat's bet and the table's bet.
    pub open spec fn after_action(self, action: Check_Action) -> GameView {
        let i = self.current_player_index as int;
        let p = self.acting();
        match action.action_type {
            ActionType::Fold => GameView {
                players: self.players.update(i, Player { has_folded: true, ..p }),
                ..self
            },
            ActionType::Check => self,
            ActionType::Call => {
                let c = self.current_bet - p.current_bet;
                GameView {
                    players: self.players.update(
                        i,
                        Player { balance: (p.balance - c) as u64, current_bet: self.current_bet, ..p },
                    ),
                    pot: (self.pot + c) as u64,
                    ..self
                }
            },
            ActionType::Raise => {
                let a = action.amount.unwrap();
                let t = self.current_bet + a;
                GameView {
                    players: self.players.update(
                        i,
                        Player { balance: (p.balance - (t - p.current_bet)) as u64, current_bet: t as u64, ..p },
                    ),
                    pot: (self.pot + a) as u64,
                    current_bet: t as u64,
                    ..self
                }
            },
            ActionType::SmallBlind => GameView {
                players: self.players.update(
                    i,
                    Player { balance: (p.balance - self.small_blind) as u64, current_bet: self.small_blind, ..p },
                ),
                pot: (self.pot + self.small_blind) as u64,
                current_bet: self.small_blind,
                ..self
            },
            ActionType::BigBlind => GameView {
                players: self.players.update(
                    i,
                    Player { balance: (p.balance - self.big_blind) as u64, current_bet: self.big_blind, ..p },
                ),
                pot: (self.pot + self.big_blind) as u64,
                current_bet: self.big_blind,
                ..self
            },
        }
    }
}

proof fn lemma_seat_step(from: int, k: int, n: int)
    requires
        0 < n,
        0 <= from,
        0 <= k,
    ensures
        (seat_after(from, k, n) + 1) % n == seat_after(from, k + 1, n),
        0 <= seat_after(from, k, n) < n,
{
    vstd::arithmetic::div_mod::lemma_add_mod_noop_right(1, from + k, n);
    vstd::arithmetic::div_mod::lemma_mod_pos_bound(from + k, n);
    assert(1 + (from + k) == from + (k + 1));
}

/// Going round a table of `n` seats from `from`, every seat is reached within
/// `n` steps.
proof fn lemma_seat_reached(from: int, n: int, j: int) -> (k: int)
    requires
        0 <= from < n,
        0 <= j < n,
    ensures
        1 <= k <= n,
        seat_after(from, k, n) == j,
{
    vstd::arithmetic::div_mod::lemma_small_mod(j as nat, n as nat);
    if j > from {
        j - from
    } else {
        vstd::arithmetic::div_mod::lemma_mod_add_multiples_vanish(j, n);
        assert(from + (j - from + n) == n + j);
        j - from + n
    }
}

impl PokerGame {
    /// Seats the players: the i-th id with the i-th balance, as many seats as
    /// the shorter list has entries; nobody has bet or folded, the pot and the
    /// bet to match are zero, and the first seat is to act.
    pub fn new(player_ids: Vec<u64>, initial_balances: Vec<u64>, small_blind: u64, big_blind: u64) -> (game: Self)
        ensures
            game@.players == seat_players(player_ids@, initial_balances@),
            game@.small_blind == small_blind,
            game@.big_blind == big_blind,
            game@.pot == 0,
            game@.current_bet == 0,
            game@.current_player_index == 0,
    {
        let n: usize = if player_ids.len() <= initial_balances.len() {
            player_ids.len()
        } else {
            initial_balances.len()
        };
        let mut players: Vec<Player> = Vec::new();
        let mut j: usize = 0;
        while j < n
            invariant
                n <= player_ids.len(),
                n <= initial_balances.len(),
                j <= n,
                players@ =~= seat_players(player_ids@, initial_balances@).take(j as int),
                seat_players(player_ids@, initial_balances@).len() == n,
            decreases n - j,
        {
            players.push(
                Player { id: player_ids[j], balance: initial_balances[j], current_bet: 0, has_folded: false },
            );
            j = j + 1;
        }
        PokerGame { players, small_blind, big_blind, pot: 0, current_bet: 0, current_player_index: 0 }
    }

    /// Why [`PokerGame::check_move`] would refuse the move, or `None` when it
    /// would take it.
    pub fn refusal(&self, check_action: Check_Action, player_id: u64, current_player: u64) -> (r: Option<MoveRefusal>)
        requires
            self@.current_player_index < self@.players.len(),
            self@.move_in_range(check_action, player_id, current_player),
        ensures
            r == self@.refusal(check_action, player_id, current_player),
    {
        let p = self.players[self.current_player_index];
        if player_id != current_player {
            return Some(MoveRefusal::NotYourTurn);
        }
        if p.has_folded {
            return Some(MoveRefusal::AlreadyFolded);
        }
        match check_action.action_type {
            ActionType::Fold => None,
            ActionType::Check => {
                if p.current_bet < self.current_bet {
                    Some(MoveRefusal::MustCallOrRaise)
                } else {
                    None
                }
            },
            ActionType::Call => {
                if p.balance < self.current_bet - p.current_bet {
                    Some(MoveRefusal::CannotAffordCall)
                } else {
                    None
                }
            },
            ActionType::Raise => match check_action.amount {
                Some(a) => {
                    if p.balance < self.current_bet + a {
                        Some(MoveRefusal::CannotAffordRaise)
                    } else {
                        None
                    }
                },
                None => Some(MoveRefusal::NoRaiseAmount),
            },
            ActionType::SmallBlind => {
                if self.current_player_index != 0 {
                    Some(MoveRefusal::NotSmallBlindSeat)
                } else if p.balance < self.small_blind {
                    Some(MoveRefusal::CannotAffordSmallBlind)
                } else {
                    None
                }
            },
            ActionType::BigBlind => {
                if self.current_player_index != 1 {
                    Some(MoveRefusal::NotBigBlindSeat)
                } else if p.balance < self.big_blind {
                    Some(MoveRefusal::CannotAffordBigBlind)
                } else {
                    None
                }
            },
        }
    }

    /// Whether [`PokerGame::check_move`] is defined for these arguments: the
    /// turn index is a seat, the move's arithmetic fits in `u64`, and after an
    /// accepted fold some other seat is still in the hand. Where this is false
    /// the move would abort, or pass the turn round the table for ever.
    pub fn check_move_defined(&self, check_action: Check_Action, player_id: u64, current_player: u64) -> (defined: bool)
        ensures
            defined == (self@.current_player_index < self@.players.len() && self@.move_in_range(
                check_action,
                player_id,
                current_player,
            ) && self@.turn_can_pass(check_action, player_id, current_player)),
    {
        let i: usize = self.current_player_index;
        if i >= self.players.len() {
            return false;
        }
        let p = self.players[i];
        if player_id != current_player || p.has_folded {
            return true;
        }
        match check_action.action_type {
            ActionType::Fold => {
                let mut j: usize = 0;
                #[verifier::loop_isolation(false)]
                while j < self.players.len()
                    invariant
                        j <= self.players.len(),
                        forall|m: int| 0 <= m < j && m != i ==> #[trigger] self.players@[m].has_folded,
                    decreases self.players.len() - j,
                {
                    if j != i && !self.players[j].has_folded {
                        assert(!self@.players[j as int].has_folded);
                        return true;
                    }
                    j = j + 1;
                }
                false
            },
            ActionType::Check => true,
            ActionType::Call => {
                if p.current_bet > self.current_bet {
                    return false;
                }
                let c: u64 = self.current_bet - p.current_bet;
                p.balance < c || c <= u64::MAX - self.pot
            },
            ActionType::Raise => match check_action.amount {
                Some(a) => {
                    if a > u64::MAX - self.current_bet {
                        return false;
                    }
                    let t: u64 = self.current_bet + a;
                    p.balance < t || (p.current_bet <= t && a <= u64::MAX - self.pot)
                },
                None => true,
            },
            ActionType::SmallBlind => i != 0 || p.balance < self.small_blind || self.small_blind
                <= u64::MAX - self.pot,
            ActionType::BigBlind => i != 1 || p.balance < self.big_blind || self.big_blind <= u64::MAX
                - self.pot,
        }
    }

    /// The number of seats.
    pub fn player_count(&self) -> (n: usize)
        ensures
            n == self@.players.len(),
    {
        self.players.len()
    }

    /// The seat at position `i`, if there is one.
    pub fn player(&self, i: usize) -> (p: Option<Player>)
        ensures
            p == (if i < self@.players.len() { Some(self@.players[i as int]) } else { None }),
    {
        if i < self.players.len() {
            Some(self.players[i])
        } else {
            None
        }
    }

    /// The chips in the pot.
    pub fn pot(&self) -> (pot: u64)
        ensures
            pot == self@.pot,
    {
        self.pot
    }

    /// The bet every seat still in the hand has to match.
    pub fn current_bet(&self) -> (bet: u64)
        ensures
            bet == self@.current_bet,
    {
        self.current_bet
    }

    /// The position of the seat whose turn it is.
    pub fn current_player_index(&self) -> (i: usize)
        ensures
            i == self@.current_player_index,
    {
        self.current_player_index
    }

    /// The small blind.
    pub fn small_blind(&self) -> (b: u64)
        ensures
            b == self@.small_blind,
    {
        self.small_blind
    }

    /// The big blind.
    pub fn big_blind(&self) -> (b: u64)
        ensures
            b == self@.big_blind,
    {
        self.big_blind
    }

    /// Takes `check_action` from `player_id`, where `current_player` is the
    /// player whom the game account names as the one to act.
    ///
    /// Returns whether the move was taken. A refused move leaves the table as it
    /// was. An accepted move changes the table as [`GameView::after_action`]
    /// says, and then the turn passes to the next seat, going round the table,
    /// whose player has not folded.
    pub fn check_move(&mut self, check_action: Check_Action, player_id: u64, current_player: u64) -> (taken: bool)
        requires
            old(self)@.current_player_index < old(self)@.players.len(),
            old(self)@.move_in_range(check_action, player_id, current_player),
            old(self)@.turn_can_pass(check_action, player_id, current_player),
        ensures
            taken == old(self)@.move_allowed(check_action, player_id, current_player),
            !taken ==> final(self)@ == old(self)@,
            taken ==> final(self)@ == (GameView {
                current_player_index: final(self)@.current_player_index,
                ..old(self)@.after_action(check_action)
            }),
            taken ==> is_next_turn(
                final(self)@.players,
                old(self)@.current_player_index as int,
                final(self)@.current_player_index as int,
            ),
            final(self)@.current_player_index < final(self)@.players.len(),
            taken ==> !final(self)@.acting().has_folded,
            !old(self)@.acting().has_folded ==> !final(self)@.acting().has_folded,
    {
        let ghost g = self@;
        let i: usize = self.current_player_index;
        let mut player = self.players[i];
        if player_id != current_player {
            return false;
        }
        if player.has_folded {
            return false;
        }
        match check_action.action_type {
            ActionType::Fold => {
                player.has_folded = true;
            },
            ActionType::Check => {
                if player.current_bet < self.current_bet {
                    return false;
                }
            },
            ActionType::Call => {
                let call_amount: u64 = self.current_bet - player.current_bet;
                if player.balance < call_amount {
                    return false;
                }
                player.balance = player.balance - call_amount;
                player.current_bet = player.current_bet + call_amount;
                self.pot = self.pot + call_amount;
            },
            ActionType::Raise => {
                match check_action.amount {
                    Some(amount) => {
                        let total_bet: u64 = self.current_bet + amount;
                        if player.balance < total_bet {
                            return false;
                        }
                        player.balance = player.balance - (total_bet - player.current_bet);
                        player.current_bet = total_bet;
                        self.pot = self.pot + (total_bet - self.current_bet);
                        self.current_bet = total_bet;
                    },
                    None => {
                        return false;
                    },
                }
            },
            ActionType::SmallBlind => {
                if self.current_player_index != 0 {
                    return false;
                }
                let small_blind_amount: u64 = self.small_blind;
                if player.balance < small_blind_amount {
                    return false;
                }
                player.balance = player.balance - small_blind_amount;
                player.current_bet = small_blind_amount;
                self.pot = self.pot + small_blind_amount;
                self.current_bet = small_blind_amount;
            },
            ActionType::BigBlind => {
                if self.current_player_index != 1 {
                    return false;
                }
                let big_blind_amount: u64 = self.big_blind;
                if player.balance < big_blind_amount {
                    return false;
                }
                player.balance = player.balance - big_blind_amount;
                player.current_bet = big_blind_amount;
                self.pot = self.pot + big_blind_amount;
                self.current_bet = big_blind_amount;
            },
        }
        self.players.set(i, player);
        assert(self@ == (GameView { current_player_index: i, ..g.after_action(check_action) }));

        let n: usize = self.players.len();
        let ghost after = self@.players;
        proof {
            if check_action.action_type == ActionType::Fold {
                let j = choose|j: int|
                    0 <= j < g.players.len() && j != i && !#[trigger] g.players[j].has_folded;
                assert(!after[j].has_folded);
            } else {
                assert(!after[i as int].has_folded);
            }
        }
        let mut idx: usize = (i + 1) % n;
        let ghost mut k: int = 1;
        #[verifier::loop_isolation(false)]
        while self.players[idx].has_folded
            invariant
                self@.players == after,
                after.len() == n,
                1 <= k <= n,
                idx == seat_after(i as int, k, n as int),
                idx < n,
                forall|m: int| 1 <= m < k ==> after[#[trigger] seat_after(i as int, m, n as int)].has_folded,
            decreases n - k,
        {
            proof {
                if k == n {
                    let j = choose|j: int| 0 <= j < after.len() && !#[trigger] after[j].has_folded;
                    let m = lemma_seat_reached(i as int, n as int, j);
                    assert(after[seat_after(i as int, m, n as int)].has_folded);
                }
                lemma_seat_step(i as int, k, n as int);
            }
            idx = (idx + 1) % n;
            proof {
                k = k + 1;
                lemma_seat_step(i as int, k, n as int);
            }
        }
        self.current_player_index = idx;
        assert(is_next_turn(after, i as int, idx as int)) by {
            assert(seat_after(i as int, k, n as int) == idx);
        }
        true
    }
}

proof fn lemma_sum_update(players: Seq<Player>, i: int, p: Player)
    requires
        0 <= i < players.len(),
    ensures
        sum_balances(players.update(i, p)) == sum_balances(players) - players[i].balance + p.balance,
    decreases players.len(),
{
    let u = players.update(i, p);
    if i == players.len() - 1 {
        assert(u.drop_last() =~= players.drop_last());
    } else {
        lemma_sum_update(players.drop_last(), i, p);
        assert(u.drop_last() =~= players.drop_last().update(i, p));
    }
}

/// An accepted move keeps the chips at the table (every balance plus the pot)
/// as they were, but for a raise: a raise changes them by the raiser's bet less
/// the table's bet before the raise (the raiser pays the new bet less their own
/// bet, while the pot takes the raise amount), so only a raise by a seat whose
/// bet already matched the table's keeps them.
pub proof fn law_move_conserves_chips(g: GameView, action: Check_Action, player_id: u64, current_player: u64)
    requires
        g.current_player_index < g.players.len(),
        g.move_in_range(action, player_id, current_player),
        g.move_allowed(action, player_id, current_player),
    ensures
        g.after_action(action).total_chips() == g.total_chips() + (if action.action_type == ActionType::Raise {
            g.acting().current_bet - g.current_bet
        } else {
            0
        }),
{
    let i = g.current_player_index as int;
    let a = g.after_action(action);
    if action.action_type != ActionType::Check {
        lemma_sum_update(g.players, i, a.players[i]);
        assert(a.players =~= g.players.update(i, a.players[i]));
    }
}

/// An accepted move seats the same players in the same order, changes no seat
/// but the acting one, never unfolds a player, never takes chips out of the
/// pot and leaves the blinds as they were.
pub proof fn law_move_keeps_table(g: GameView, action: Check_Action, player_id: u64, current_player: u64)
    requires
        g.current_player_index < g.players.len(),
        g.move_in_range(action, player_id, current_player),
        g.move_allowed(action, player_id, current_player),
    ensures
        g.after_action(action).players.len() == g.players.len(),
        forall|j: int|
            0 <= j < g.players.len() ==> #[trigger] g.after_action(action).players[j].id == g.players[j].id,
        forall|j: int|
            0 <= j < g.players.len() && j != g.current_player_index ==> #[trigger] g.after_action(
                action,
            ).players[j] == g.players[j],
        forall|j: int|
            0 <= j < g.players.len() && g.players[j].has_folded ==> #[trigger] g.after_action(
                action,
            ).players[j].has_folded,
        g.after_action(action).pot >= g.pot,
        g.after_action(action).small_blind == g.small_blind,
        g.after_action(action).big_blind == g.big_blind,
        g.after_action(action).current_player_index == g.current_player_index,
{
}

/// A move is refused for some reason exactly when it is not allowed, so the
/// reason reported and the answer of `check_move` always agree.
pub proof fn law_refusal_matches_answer(g: GameView, action: Check_Action, player_id: u64, current_player: u64)
    requires
        g.current_player_index < g.players.len(),
        g.move_in_range(action, player_id, current_player),
    ensures
        g.refusal(action, player_id, current_player) is None <==> g.move_allowed(action, player_id, current_player),
{
}

/// A new table seats, at each position `j` below the length of the shorter
/// list, the `j`-th id with the `j`-th balance, with no bet and not folded;
/// it has exactly that many seats.
pub proof fn law_new_seats_in_order(ids: Seq<u64>, balances: Seq<u64>)
    ensures
        seat_players(ids, balances).len() == (if ids.len() <= balances.len() {
            ids.len()
        } else {
            balances.len()
        }),
        forall|j: int|
            0 <= j < seat_players(ids, balances).len() ==> {
                &&& (#[trigger] seat_players(ids, balances)[j]).id == ids[j]
                &&& seat_players(ids, balances)[j].balance == balances[j]
                &&& seat_players(ids, balances)[j].current_bet == 0
                &&& !seat_players(ids, balances)[j].has_folded
            },
{
}

/// A fold is taken exactly when it is the submitter's turn and the seat has
/// not folded; it only marks that seat folded.
pub proof fn law_fold(g: GameView, action: Check_Action, player_id: u64, current_player: u64)
    requires
        g.current_player_index < g.players.len(),
        action.action_type == ActionType::Fold,
    ensures
        g.move_allowed(action, player_id, current_player) <==> (player_id == current_player
            && !g.players[g.current_player_index as int].has_folded),
        g.after_action(action).players[g.current_player_index as int].has_folded,
        g.after_action(action).players[g.current_player_index as int].balance
            == g.players[g.current_player_index as int].balance,
        g.after_action(action).players[g.current_player_index as int].current_bet
            == g.players[g.current_player_index as int].current_bet,
        g.after_action(action).pot == g.pot,
        g.after_action(action).current_bet == g.current_bet,
{
}

/// A check is taken exactly when it is the submitter's turn, the seat has not
/// folded and its bet is at least the table's bet; it changes nothing.
pub proof fn law_check(g: GameView, action: Check_Action, player_id: u64, current_player: u64)
    requires
        g.current_player_index < g.players.len(),
        action.action_type == ActionType::Check,
    ensures
        g.move_allowed(action, player_id, current_player) <==> (player_id == current_player
            && !g.players[g.current_player_index as int].has_folded
            && g.players[g.current_player_index as int].current_bet >= g.current_bet),
        g.after_action(action) == g,
{
}

/// A call is taken exactly when it is the submitter's turn, the seat has not
/// folded and its balance covers the difference to the table's bet. It brings
/// the seat level with the table: the seat pays that difference from its
/// balance into the pot, its bet becomes the table's bet, and the table's bet
/// stays.
pub proof fn law_call(g: GameView, action: Check_Action, player_id: u64, current_player: u64)
    requires
        g.current_player_index < g.players.len(),
        action.action_type == ActionType::Call,
        g.move_in_range(action, player_id, current_player),
    ensures
        g.move_allowed(action, player_id, current_player) <==> (player_id == current_player
            && !g.players[g.current_player_index as int].has_folded
            && g.players[g.current_player_index as int].balance + g.players[g.current_player_index as int].current_bet
            >= g.current_bet),
        g.move_allowed(action, player_id, current_player) ==> {
            let before = g.players[g.current_player_index as int];
            let after = g.after_action(action).players[g.current_player_index as int];
            &&& after.current_bet == g.current_bet
            &&& after.balance + g.current_bet == before.balance + before.current_bet
            &&& g.after_action(action).pot + before.current_bet == g.pot + g.current_bet
            &&& g.after_action(action).current_bet == g.current_bet
            &&& !after.has_folded
        },
{
}

/// A raise by `a` is taken exactly when it is the submitter's turn, the seat
/// has not folded, an amount is given and the balance covers the table's bet
/// plus `a`. The table's bet and the seat's bet both become the old table bet
/// plus `a`, the seat pays the rise of its own bet, and the pot takes `a`.
pub proof fn law_raise(g: GameView, action: Check_Action, player_id: u64, current_player: u64)
    requires
        g.current_player_index < g.players.len(),
        action.action_type == ActionType::Raise,
        g.move_in_range(action, player_id, current_player),
    ensures
        g.move_allowed(action, player_id, current_player) <==> (player_id == current_player
            && !g.players[g.current_player_index as int].has_folded && action.amount is Some
            && g.players[g.current_player_index as int].balance >= g.current_bet + action.amount.unwrap()),
        g.move_allowed(action, player_id, current_player) ==> {
            let a = action.amount.unwrap();
            let before = g.players[g.current_player_index as int];
            let after = g.after_action(action).players[g.current_player_index as int];
            &&& g.after_action(action).current_bet == g.current_bet + a
            &&& after.current_bet == g.current_bet + a
            &&& after.balance + after.current_bet == before.balance + before.current_bet
            &&& g.after_action(action).pot == g.pot + a
            &&& !after.has_folded
        },
{
}

/// The small blind is taken exactly when it is the submitter's turn, the
/// seat has not folded, it is the first seat and its balance covers the
/// blind; the big blind likewise for the second seat. The blind goes from the
/// balance into the pot and becomes both the seat's bet and the table's bet.
pub proof fn law_blinds(g: GameView, action: Check_Action, player_id: u64, current_player: u64)
    requires
        g.current_player_index < g.players.len(),
        action.action_type == ActionType::SmallBlind || action.action_type == ActionType::BigBlind,
        g.move_in_range(action, player_id, current_player),
    ensures
        ({
            let blind = if action.action_type == ActionType::SmallBlind {
                g.small_blind
            } else {
                g.big_blind
            };
            let seat = if action.action_type == ActionType::SmallBlind {
                0int
            } else {
                1int
            };
            let before = g.players[g.current_player_index as int];
            let after = g.after_action(action).players[g.current_player_index as int];
            &&& g.move_allowed(action, player_id, current_player) <==> (player_id == current_player
                && !before.has_folded && g.current_player_index == seat && before.balance >= blind)
            &&& g.move_allowed(action, player_id, current_player) ==> {
                &&& after.balance + blind == before.balance
                &&& after.current_bet == blind
                &&& g.after_action(action).current_bet == blind
                &&& g.after_action(action).pot == g.pot + blind
                &&& !after.has_folded
            }
        }),
{
}

/// The turn passes to one seat only, a seat of the table whose player has not
/// folded; when the seat right after the mover has not folded, it is that one.
pub proof fn law_next_turn(players: Seq<Player>, from: int, to: int, other: int)
    requires
        0 <= from < players.len(),
        is_next_turn(players, from, to),
    ensures
        0 <= to < players.len(),
        !players[to].has_folded,
        !players[(from + 1) % (players.len() as int)].has_folded ==> to == (from + 1) % (players.len() as int),
        is_next_turn(players, from, other) ==> other == to,
{
    let n = players.len() as int;
    let k = choose|k: int|
        #![trigger seat_after(from, k, n)]
        1 <= k <= n && to == seat_after(from, k, n) && !players[to].has_folded && forall|m: int|
            1 <= m < k ==> players[#[trigger] seat_after(from, m, n)].has_folded;
    vstd::arithmetic::div_mod::lemma_mod_pos_bound(from + k, n);
    if !players[(from + 1) % n].has_folded {
        if k > 1 {
            assert(players[seat_after(from, 1, n)].has_folded);
        }
    }
    if is_next_turn(players, from, other) {
        let k2 = choose|k2: int|
            #![trigger seat_after(from, k2, n)]
            1 <= k2 <= n && other == seat_after(from, k2, n) && !players[other].has_folded && forall|m: int|
                1 <= m < k2 ==> players[#[trigger] seat_after(from, m, n)].has_folded;
        if k < k2 {
            assert(players[seat_after(from, k, n)].has_folded);
        } else if k2 < k {
            assert(players[seat_after(from, k2, n)].has_folded);
        }
    }
}

} // verus!
