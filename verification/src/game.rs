//! The experience/level ladder: levels run from 0 to `MAX_LEVEL`, and the
//! experience needed to complete level `l` is `55 * l^3`.

use vstd::prelude::*;
use crate::data::User;

verus! {

/// Highest attainable level.
pub const MAX_LEVEL: u8 = 99;

/// Experience ceiling: the experience that completes the ladder (55 * 99^3).
pub const MAX_EXP: u32 = 55 * 99 * 99 * 99;

/// Experience needed to have completed `level` whole levels.
pub open spec fn spec_exp_until_level(level: u8) -> int {
    55 * (level as int) * (level as int) * (level as int)
}

/// The level granted by `exp` experience points, searching downward from `from`:
/// the greatest `l <= from` whose threshold is within `exp`.
pub open spec fn spec_level_from(exp: int, from: int) -> int
    decreases from,
{
    if from <= 0 {
        0
    } else if 55 * from * from * from <= exp {
        from
    } else {
        spec_level_from(exp, from - 1)
    }
}

/// The level granted by `exp` experience points.
pub open spec fn spec_level_of(exp: u32) -> int {
    spec_level_from(exp as int, MAX_LEVEL as int)
}

pub proof fn lemma_level_from_bounds(exp: int, from: int)
    requires
        0 <= from,
    ensures
        0 <= spec_level_from(exp, from) <= from,
    decreases from,
{
    if from > 0 && !(55 * from * from * from <= exp) {
        lemma_level_from_bounds(exp, from - 1);
    }
}

/// A level below the search start means the start's own threshold was out of reach.
pub proof fn lemma_level_from_partial(exp: int, from: int)
    requires
        0 <= from,
    ensures
        spec_level_from(exp, from) < from ==> exp < 55 * from * from * from,
{
}

pub fn exp_until_level(level: u8) -> (r: u32)
    ensures
        r == spec_exp_until_level(level),
{
    let l = level as u32;
    proof {
        let li = level as int;
        assert(55 * li * li <= 55 * 255 * 255 && 55 * li * li * li <= 55 * 255 * 255 * 255)
            by (nonlinear_arith)
            requires
                0 <= li <= 255,
        ;
    }
    55u32 * l * l * l
}

/// What experience may be added in one step.
pub trait LevelExpModifier {
    /// The experience granted at `level`.
    spec fn spec_calculate(&self, level: u8) -> u32;

    /// Returns experience to add.
    ///
    /// Provides `level` to scale. Implementations keep the gain small enough
    /// that adding it to the ladder ceiling cannot overflow.
    fn calculate(&self, level: u8) -> (r: u32)
        ensures
            r == self.spec_calculate(level),
            r + MAX_EXP <= u32::MAX,
    ;
}

/// A chat message, reduced to what the experience formula reads: its length
/// in characters.
pub struct Message {
    pub chars: usize,
}

impl LevelExpModifier for Message {
    open spec fn spec_calculate(&self, level: u8) -> u32 {
        if level == 0 {
            1
        } else if self.chars < 10 {
            level as u32
        } else if self.chars < 25 {
            (level * 2) as u32
        } else if self.chars < 50 {
            (level * 4) as u32
        } else if self.chars < 100 {
            (level * 8) as u32
        } else {
            (level * 10) as u32
        }
    }

    fn calculate(&self, level: u8) -> (r: u32) {
        let l = level as u32;
        if level == 0 {
            1
        } else if self.chars < 10 {
            l
        } else if self.chars < 25 {
            l * 2
        } else if self.chars < 50 {
            l * 4
        } else if self.chars < 100 {
            l * 8
        } else {
            l * 10
        }
    }
}

#[derive(Debug, PartialEq, Eq, Structural)]
pub enum AddResult {
    Maxed,
    LevelUp,
    Added,
}

pub struct Level {
    pub exp: u32,
    pub level: u8,
}

/// The experience total after adding `val`, clamped at the ladder ceiling.
pub open spec fn spec_clamped_exp(exp: u32, val: u32) -> int {
    if exp + val <= MAX_EXP {
        exp + val
    } else {
        MAX_EXP as int
    }
}

/// How one call to `Level::add` with `val` relates the state `prev` before it
/// to the state `next` and result `r` after it.
pub open spec fn spec_add_result(prev: Level, val: u32, next: Level, r: AddResult) -> bool {
    if prev.level >= MAX_LEVEL {
        next == prev && r == AddResult::Maxed
    } else {
        &&& next.exp == spec_clamped_exp(prev.exp, val)
        &&& next.level == spec_level_of(next.exp)
        &&& r == if next.level == prev.level {
            AddResult::Added
        } else {
            AddResult::LevelUp
        }
    }
}

impl Level {
    /// The stored level always matches the stored experience.
    pub open spec fn wf(self) -> bool {
        self.level == spec_level_of(self.exp)
    }

    pub fn exp_to_level(exp: u32) -> (r: u8)
        ensures
            r == spec_level_of(exp),
    {
        let mut l: u8 = MAX_LEVEL;
        loop
            invariant
                0 <= l <= MAX_LEVEL,
                spec_level_from(exp as int, MAX_LEVEL as int) == spec_level_from(
                    exp as int,
                    l as int,
                ),
            decreases l,
        {
            if l == 0 {
                return 0;
            }
            if exp_until_level(l) <= exp {
                return l;
            }
            l = l - 1;
        }
    }

    pub fn new(exp: u32) -> (r: Self)
        ensures
            r.exp == exp,
            r.wf(),
    {
        let level = Self::exp_to_level(exp);
        Self { exp, level }
    }

    pub fn with_max() -> (r: Self)
        ensures
            r.exp == MAX_EXP - 1,
            r.wf(),
    {
        Self::new(MAX_EXP - 1)
    }

    /// Calculate cash allowance.
    pub fn cash(&self) -> (r: u32)
        ensures
            r == 10 * self.level,
    {
        self.level as u32 * 10
    }

    pub fn add_for<T: LevelExpModifier>(&mut self, exp: &T) -> (r: AddResult)
        requires
            old(self).wf(),
        ensures
            final(self).wf(),
            spec_add_result(
                *old(self),
                exp.spec_calculate(old(self).level),
                *final(self),
                r,
            ),
    {
        let gain = exp.calculate(self.level);
        self.add(gain)
    }

    /// Adds experience points and returns whether level up happened.
    pub fn add(&mut self, val: u32) -> (r: AddResult)
        requires
            old(self).wf(),
            val + MAX_EXP <= u32::MAX,
        ensures
            final(self).wf(),
            spec_add_result(*old(self), val, *final(self), r),
    {
        if self.level >= MAX_LEVEL {
            return AddResult::Maxed;
        }
        proof {
            lemma_level_from_partial(self.exp as int, MAX_LEVEL as int);
        }
        let mut e = self.exp + val;
        if e > MAX_EXP {
            e = MAX_EXP;
        }
        self.exp = e;
        let new_level = Self::exp_to_level(e);
        if new_level != self.level {
            self.level = new_level;
            AddResult::LevelUp
        } else {
            AddResult::Added
        }
    }

    /// The pair shown for this level: the experience total and the next goal;
    /// at the top of the ladder both are the ceiling.
    pub fn progress(&self) -> (r: (u32, u32))
        ensures
            self.level >= MAX_LEVEL ==> r.0 == MAX_EXP && r.1 == MAX_EXP,
            self.level < MAX_LEVEL ==> r.0 == self.exp && r.1 == spec_exp_until_level(
                (self.level + 1) as u8,
            ),
    {
        if self.level >= MAX_LEVEL {
            (MAX_EXP, MAX_EXP)
        } else {
            (self.exp, exp_until_level(self.level + 1))
        }
    }
}

/// Seconds a user must wait between allowance grants (one hour).
pub const ALLOWANCE_COOL_DOWN: u64 = 60 * 60;

/// The level state that `exp` experience points grant.
pub open spec fn spec_level_state(exp: u32) -> Level {
    Level { exp, level: spec_level_of(exp) as u8 }
}

/// Grants the periodic allowance. If at least the cool-down has passed since
/// the last grant, the wallet grows by ten per level (saturating), the grant
/// moment is recorded, and the granted amount is reported; otherwise nothing
/// is granted.
pub fn apply_allowance(user: &User, now_secs: u64) -> (r: Option<(User, u32)>)
    ensures
        r is Some <==> user.last_allowance + ALLOWANCE_COOL_DOWN <= now_secs,
        r matches Some(g) ==> {
            &&& g.1 == 10 * spec_level_of(user.exp)
            &&& g.0.cash == if user.cash + g.1 <= u32::MAX {
                user.cash + g.1
            } else {
                u32::MAX as int
            }
            &&& g.0.exp == user.exp
            &&& g.0.last_allowance == now_secs
        },
{
    if now_secs >= user.last_allowance && now_secs - user.last_allowance >= ALLOWANCE_COOL_DOWN {
        let level = Level::new(user.exp);
        let allowance = level.cash();
        let cash = if allowance > u32::MAX - user.cash {
            u32::MAX
        } else {
            user.cash + allowance
        };
        Some((User { cash, exp: user.exp, last_allowance: now_secs }, allowance))
    } else {
        None
    }
}

/// One chat message's effect on a user record: experience grows by the
/// message's worth at the user's level, while the wallet and the allowance
/// moment stay untouched.
pub fn apply_chat_exp(user: &User, msg: &Message) -> (r: (User, AddResult))
    ensures
        r.0.cash == user.cash,
        r.0.last_allowance == user.last_allowance,
        spec_add_result(
            spec_level_state(user.exp),
            msg.spec_calculate(spec_level_state(user.exp).level),
            spec_level_state(r.0.exp),
            r.1,
        ),
{
    proof {
        lemma_level_from_bounds(user.exp as int, MAX_LEVEL as int);
    }
    let mut level = Level::new(user.exp);
    let res = level.add_for(msg);
    proof {
        lemma_level_from_bounds(level.exp as int, MAX_LEVEL as int);
    }
    (User { cash: user.cash, exp: level.exp, last_allowance: user.last_allowance }, res)
}

} // verus!
