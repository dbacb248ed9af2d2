//! A tracker that watches how close a value is to its quota and warns
//! through a messenger that the library user supplies.

use vstd::prelude::*;

verus! {

/// A destination for messages; users of the library implement it.
pub trait Messenger {
    fn send(&self, msg: &str);
}

/// How close the tracked value is to the quota.
#[derive(Clone, Copy, Debug, PartialEq, Eq, Structural)]
pub enum QuotaLevel {
    /// Below three quarters of the quota (or both value and quota are zero).
    Quiet,
    /// At or above three quarters of the quota.
    Warning,
    /// At or above nine tenths of the quota.
    Urgent,
    /// At or over the quota itself.
    Over,
}

/// The level of `value` against the quota `max`, comparing the exact
/// ratios: over at `value/max >= 1`, urgent at `9/10`, a warning at `3/4`.
/// A zero quota is over-used by any nonzero value.
pub open spec fn spec_quota_level(value: int, max: int) -> QuotaLevel {
    if value == 0 && max == 0 {
        QuotaLevel::Quiet
    } else if value >= max {
        QuotaLevel::Over
    } else if 10 * value >= 9 * max {
        QuotaLevel::Urgent
    } else if 4 * value >= 3 * max {
        QuotaLevel::Warning
    } else {
        QuotaLevel::Quiet
    }
}

/// Computes the quota level of `value` against `max`.
pub fn quota_level(value: usize, max: usize) -> (l: QuotaLevel)
    ensures
        l == spec_quota_level(value as int, max as int),
{
    if value == 0 && max == 0 {
        QuotaLevel::Quiet
    } else if value >= max {
        QuotaLevel::Over
    } else {
        let v = value as u128;
        let m = max as u128;
        if 10 * v >= 9 * m {
            QuotaLevel::Urgent
        } else if 4 * v >= 3 * m {
            QuotaLevel::Warning
        } else {
            QuotaLevel::Quiet
        }
    }
}

/// The message that each quota level sends: nothing while quiet, else
/// the one warning that names the threshold the value reached.
pub fn quota_message(l: QuotaLevel) -> (m: Option<&'static str>)
    ensures
        l == QuotaLevel::Quiet ==> m is None,
        l == QuotaLevel::Warning ==> (m matches Some(s)
            && s@ == "Warning: You've used up over 75% of your quota!"@),
        l == QuotaLevel::Urgent ==> (m matches Some(s)
            && s@ == "Urgent warning: You've used up over 90% of your quota!"@),
        l == QuotaLevel::Over ==> (m matches Some(s)
            && s@ == "Error: You are over your quota!"@),
{
    match l {
        QuotaLevel::Quiet => None,
        QuotaLevel::Warning => Some("Warning: You've used up over 75% of your quota!"),
        QuotaLevel::Urgent => Some("Urgent warning: You've used up over 90% of your quota!"),
        QuotaLevel::Over => Some("Error: You are over your quota!"),
    }
}

pub struct LimitTracker<'a, T: 'a + Messenger> {
    messenger: &'a T,
    value: usize,
    max: usize,
}

impl<'a, T> LimitTracker<'a, T> where T: Messenger {
    /// The value the tracker last stored.
    pub closed spec fn spec_value(&self) -> usize {
        self.value
    }

    /// The quota the tracker was created with.
    pub closed spec fn spec_max(&self) -> usize {
        self.max
    }

    /// The messenger the tracker warns through.
    pub closed spec fn spec_messenger(&self) -> &'a T {
        self.messenger
    }

    /// A fresh tracker at zero, warning through `messenger` once the
    /// value nears `max`.
    pub fn new(messenger: &T, max: usize) -> (t: LimitTracker<T>)
        ensures
            t.spec_value() == 0,
            t.spec_max() == max,
            t.spec_messenger() == messenger,
    {
        LimitTracker { messenger, value: 0, max }
    }

    /// Stores the new value and sends at most one message: exactly
    /// `quota_message` of the quota level the new value reaches, whose
    /// contract fixes the wording, and nothing while the level is quiet.
    pub fn set_value(&mut self, value: usize)
        ensures
            final(self).spec_value() == value,
            final(self).spec_max() == old(self).spec_max(),
            final(self).spec_messenger() == old(self).spec_messenger(),
    {
        self.value = value;
        match quota_message(quota_level(self.value, self.max)) {
            Some(msg) => {
                self.messenger.send(msg);
            },
            None => {
            },
        }
    }
}

} // verus!
