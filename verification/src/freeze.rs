//! The whole-match freeze that a `Pause` or `SuperPause` brings about.

use vstd::prelude::*;

use crate::report::{FreezeKind, FreezeRequest};

verus! {

/// Who keeps ticking through a freeze.
#[derive(Debug, Clone, Copy, PartialEq, Eq, Structural)]
pub enum FreezeExempt {
    /// Nobody.
    Nobody,
    /// Player 1.
    P1,
    /// Player 2.
    P2,
}

/// A freeze: how long it lasts, and who is exempt.
#[derive(Debug, Clone, Copy, PartialEq, Eq, Structural)]
pub struct Freeze {
    /// Frames left; none where nothing is frozen.
    pub remaining: i32,
    /// Who keeps ticking.
    pub exempt: FreezeExempt,
}

impl Freeze {
    /// No freeze.
    pub open spec fn inactive_spec() -> Freeze {
        Freeze { remaining: 0, exempt: FreezeExempt::Nobody }
    }

    /// Whether the match is held still.
    pub open spec fn holds(self) -> bool {
        self.remaining > 0
    }

    /// Whether a side is held still.
    pub open spec fn holds_side(self, side: FreezeExempt) -> bool {
        self.holds() && (side == FreezeExempt::Nobody || self.exempt != side)
    }

    /// The freeze one frame on.
    pub open spec fn counted(self) -> Freeze {
        if self.remaining > 1 {
            Freeze { remaining: (self.remaining - 1) as i32, ..self }
        } else {
            Freeze::inactive_spec()
        }
    }

    /// The freeze after a request from `side`: a positive time replaces it, with
    /// `side` exempt in a `SuperPause` and nobody in a `Pause`; anything else
    /// leaves it as it is.
    pub open spec fn armed(self, req: Option<FreezeRequest>, side: FreezeExempt) -> Freeze {
        match req {
            Some(req) => if req.time > 0 {
                Freeze {
                    remaining: req.time,
                    exempt: match req.kind {
                        FreezeKind::Pause => FreezeExempt::Nobody,
                        FreezeKind::SuperPause => side,
                    },
                }
            } else {
                self
            },
            None => self,
        }
    }

    /// No freeze: nothing is held, nobody is exempt.
    pub fn inactive() -> (r: Freeze)
        ensures
            r == Freeze::inactive_spec(),
    {
        Freeze { remaining: 0, exempt: FreezeExempt::Nobody }
    }

    /// Whether the match is held still.
    pub fn active(self) -> (r: bool)
        ensures
            r == self.holds(),
    {
        self.remaining > 0
    }

    /// Whether the given side is held still: a freeze is active and the side is
    /// not the exempt one.
    pub fn freezes(self, side: FreezeExempt) -> (r: bool)
        ensures
            r == self.holds_side(side),
    {
        self.active() && match (self.exempt, side) {
            (FreezeExempt::P1, FreezeExempt::P1) => false,
            (FreezeExempt::P2, FreezeExempt::P2) => false,
            _ => true,
        }
    }

    /// Counts the freeze down by one frame.
    pub fn count_down(&mut self)
        ensures
            *final(self) == old(self).counted(),
    {
        if self.remaining > 1 {
            self.remaining = self.remaining - 1;
        } else {
            *self = Freeze::inactive();
        }
    }

    /// Takes a request from `side`.
    pub fn arm(&mut self, req: Option<FreezeRequest>, side: FreezeExempt)
        ensures
            *final(self) == old(self).armed(req, side),
    {
        if let Some(req) = req {
            if req.time > 0 {
                let exempt = match req.kind {
                    FreezeKind::Pause => FreezeExempt::Nobody,
                    FreezeKind::SuperPause => side,
                };
                *self = Freeze { remaining: req.time, exempt };
            }
        }
    }
}

/// The freeze `n` frames on.
pub open spec fn counted_by(freeze: Freeze, n: nat) -> Freeze
    decreases n,
{
    if n == 0 {
        freeze
    } else {
        counted_by(freeze, (n - 1) as nat).counted()
    }
}

/// A freeze lasts exactly as long as it was asked to: it holds before its last
/// frame and not after.
pub proof fn freeze_lasts(freeze: Freeze, n: nat)
    requires
        n <= freeze.remaining,
    ensures
        counted_by(freeze, n).remaining == freeze.remaining - n,
        n < freeze.remaining ==> counted_by(freeze, n).holds() && counted_by(freeze, n).exempt
            == freeze.exempt,
        n == freeze.remaining && n > 0 ==> counted_by(freeze, n) == Freeze::inactive_spec(),
    decreases n,
{
    if n > 0 {
        freeze_lasts(freeze, (n - 1) as nat);
    }
}

/// A freeze holds every side but the exempt one still, and one that is over holds
/// nobody.
pub proof fn the_exempt_side_is_free(freeze: Freeze, side: FreezeExempt)
    requires
        side != FreezeExempt::Nobody,
    ensures
        freeze.holds_side(side) <==> freeze.remaining > 0 && freeze.exempt != side,
        freeze.holds() <==> freeze.remaining > 0,
{
}

} // verus!
