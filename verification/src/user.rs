use vstd::prelude::*;

verus! {

/// Rating every new player starts with.
pub const STARTING_RATING: u32 = 1200;

/// A player: an identity, a spendable balance, and a skill rating with
/// win/loss/draw tallies. Mutated only by deposits and by settlement.
#[derive(Clone, Copy, PartialEq, Eq, Structural, Debug)]
pub struct User {
    pub id: u64,
    pub balance: u64,
    pub rating: u32,
    pub wins: u32,
    pub losses: u32,
    pub draws: u32,
}

/// A tally one higher, capped at its type's maximum.
pub open spec fn spec_inc(x: u32) -> u32 {
    if x < u32::MAX {
        (x + 1) as u32
    } else {
        x
    }
}

/// Rating after a win: 32 points against an equal or stronger opponent,
/// 16 against a weaker one, capped at the type's maximum. The figures are a
/// policy choice; settlement guarantees only that the adjustment is applied
/// exactly once, with the right pairing.
pub open spec fn spec_rating_won(r: u32, opp: u32) -> u32 {
    let gain: int = if opp >= r {
        32
    } else {
        16
    };
    if r + gain > u32::MAX {
        u32::MAX
    } else {
        (r + gain) as u32
    }
}

/// Rating after a loss: 32 points against an equal or weaker opponent,
/// 16 against a stronger one, floored at zero.
pub open spec fn spec_rating_lost(r: u32, opp: u32) -> u32 {
    let loss: int = if opp <= r {
        32
    } else {
        16
    };
    if r - loss < 0 {
        0
    } else {
        (r - loss) as u32
    }
}

/// Rating after a draw: nudged 8 points toward the opponent, unchanged
/// between equals.
pub open spec fn spec_rating_drawn(r: u32, opp: u32) -> u32 {
    if r < opp {
        if r + 8 > u32::MAX {
            u32::MAX
        } else {
            (r + 8) as u32
        }
    } else if r > opp {
        if r < 8 {
            0
        } else {
            (r - 8) as u32
        }
    } else {
        r
    }
}

/// A new player with the given identity, an empty balance and the starting
/// rating.
pub fn initialize_user(id: u64) -> (u: User)
    ensures
        u == (User {
            id,
            balance: 0,
            rating: STARTING_RATING,
            wins: 0,
            losses: 0,
            draws: 0,
        }),
{
    User { id, balance: 0, rating: STARTING_RATING, wins: 0, losses: 0, draws: 0 }
}

impl User {
    /// This player's current rating.
    pub fn get_elo(&self) -> (r: u32)
        ensures
            r == self.rating,
    {
        self.rating
    }

    /// Credit `amount` to the balance.
    pub fn increase_balance(&mut self, amount: u64)
        requires
            old(self).balance + amount <= u64::MAX,
        ensures
            *final(self) == (User { balance: (old(self).balance + amount) as u64, ..*old(self) }),
    {
        self.balance = self.balance + amount;
    }

    /// Credit a deposit to the balance.
    pub fn deposit(&mut self, amount: u64)
        requires
            old(self).balance + amount <= u64::MAX,
        ensures
            *final(self) == (User { balance: (old(self).balance + amount) as u64, ..*old(self) }),
    {
        self.increase_balance(amount);
    }

    /// Rated win against an opponent rated `opp`: rating up, one more win.
    pub fn won_against(&mut self, opp: u32)
        ensures
            *final(self) == (User {
                rating: spec_rating_won(old(self).rating, opp),
                wins: spec_inc(old(self).wins),
                ..*old(self)
            }),
    {
        let gain: u32 = if opp >= self.rating {
            32
        } else {
            16
        };
        self.rating = if self.rating > u32::MAX - gain {
            u32::MAX
        } else {
            self.rating + gain
        };
        self.record_win();
    }

    /// Rated loss against an opponent rated `opp`: rating down, one more
    /// loss.
    pub fn lost_against(&mut self, opp: u32)
        ensures
            *final(self) == (User {
                rating: spec_rating_lost(old(self).rating, opp),
                losses: spec_inc(old(self).losses),
                ..*old(self)
            }),
    {
        let loss: u32 = if opp <= self.rating {
            32
        } else {
            16
        };
        self.rating = if self.rating < loss {
            0
        } else {
            self.rating - loss
        };
        self.record_loss();
    }

    /// Rated draw against an opponent rated `opp`: rating nudged toward the
    /// opponent, one more draw.
    pub fn drew_against(&mut self, opp: u32)
        ensures
            *final(self) == (User {
                rating: spec_rating_drawn(old(self).rating, opp),
                draws: spec_inc(old(self).draws),
                ..*old(self)
            }),
    {
        if self.rating < opp {
            self.rating = if self.rating > u32::MAX - 8 {
                u32::MAX
            } else {
                self.rating + 8
            };
        } else if self.rating > opp {
            self.rating = if self.rating < 8 {
                0
            } else {
                self.rating - 8
            };
        }
        self.record_draw();
    }

    /// One more win, with no rating change: an unrated result.
    pub fn record_win(&mut self)
        ensures
            *final(self) == (User { wins: spec_inc(old(self).wins), ..*old(self) }),
    {
        if self.wins < u32::MAX {
            self.wins = self.wins + 1;
        }
    }

    /// One more loss, with no rating change: an unrated result.
    pub fn record_loss(&mut self)
        ensures
            *final(self) == (User { losses: spec_inc(old(self).losses), ..*old(self) }),
    {
        if self.losses < u32::MAX {
            self.losses = self.losses + 1;
        }
    }

    /// One more draw, with no rating change: an unrated result.
    pub fn record_draw(&mut self)
        ensures
            *final(self) == (User { draws: spec_inc(old(self).draws), ..*old(self) }),
    {
        if self.draws < u32::MAX {
            self.draws = self.draws + 1;
        }
    }
}

} // verus!
