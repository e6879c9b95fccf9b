use vstd::prelude::*;

verus! {

/// The state that the indicator shows.
#[derive(Clone, Copy, Debug, PartialEq, Eq, Structural)]
pub enum DisplayState {
    Enabled,
    Disabled,
}

/// The state shown for `enabled`.
pub open spec fn display_of(enabled: bool) -> DisplayState {
    if enabled {
        DisplayState::Enabled
    } else {
        DisplayState::Disabled
    }
}

/// What an indicator holds: the state its icon shows, and the run of failed
/// polls counted against the limit.
pub struct TrayModel {
    pub enabled: bool,
    pub count: nat,
    pub limit: nat,
}

impl TrayModel {
    /// The counter is within its bounds.
    pub open spec fn wf(self) -> bool {
        0 < self.limit <= 255 && self.count <= self.limit
    }

    /// The device counts as unreachable: the limit of failures is reached.
    pub open spec fn unreachable(self) -> bool {
        self.count == self.limit
    }

    /// After a successful poll the run of failures is over.
    pub open spec fn passed(self) -> TrayModel {
        TrayModel { count: 0, ..self }
    }

    /// After a failed poll the run grows by one, up to the limit.
    pub open spec fn failed(self) -> TrayModel {
        if self.count < self.limit {
            TrayModel { count: self.count + 1, ..self }
        } else {
            self
        }
    }

    /// The icon shows `enabled`.
    pub open spec fn showing(self, enabled: bool) -> TrayModel {
        TrayModel { enabled, ..self }
    }
}

/// The model after a run of counted outcomes, oldest first: `true` for a
/// success, `false` for a failure.
pub open spec fn after_outcomes(m: TrayModel, oks: Seq<bool>) -> TrayModel
    decreases oks.len(),
{
    if oks.len() == 0 {
        m
    } else if oks.last() {
        after_outcomes(m, oks.drop_last()).passed()
    } else {
        after_outcomes(m, oks.drop_last()).failed()
    }
}

/// The number of failures at the end of a run of outcomes, since its last
/// success.
pub open spec fn trailing_errors(oks: Seq<bool>) -> nat
    decreases oks.len(),
{
    if oks.len() == 0 {
        0
    } else if oks.last() {
        0
    } else {
        1 + trailing_errors(oks.drop_last())
    }
}

/// Over any run of counted outcomes from a counter at zero, the count is the
/// number of failures since the last success, capped at the limit: the limit
/// is reached exactly when the run ends in at least `limit` failures, and a
/// success sets the count back to zero.
pub proof fn lemma_outcome_run_counts_trailing_errors(m: TrayModel, oks: Seq<bool>)
    requires
        m.wf(),
        m.count == 0,
    ensures
        after_outcomes(m, oks).wf(),
        after_outcomes(m, oks).limit == m.limit,
        after_outcomes(m, oks).enabled == m.enabled,
        after_outcomes(m, oks).count == if trailing_errors(oks) < m.limit {
            trailing_errors(oks)
        } else {
            m.limit
        },
        after_outcomes(m, oks).unreachable() <==> trailing_errors(oks) >= m.limit,
        oks.len() > 0 && oks.last() ==> after_outcomes(m, oks).count == 0,
    decreases oks.len(),
{
    if oks.len() > 0 {
        lemma_outcome_run_counts_trailing_errors(m, oks.drop_last());
    }
}

/// The state behind the tray indicator: whether its icon shows the device
/// as enabled, and a failure counter that debounces failed polls.
pub struct TrayIcon {
    title: String,
    status: bool,
    fail_count: u8,
    fail_limit: u8,
}

impl View for TrayIcon {
    type V = TrayModel;

    closed spec fn view(&self) -> TrayModel {
        TrayModel {
            enabled: self.status,
            count: self.fail_count as nat,
            limit: self.fail_limit as nat,
        }
    }
}

impl TrayIcon {
    #[verifier::type_invariant]
    spec fn counter_in_bounds(self) -> bool {
        0 < self.fail_limit && self.fail_count <= self.fail_limit
    }

    /// The title that the indicator was made with.
    pub closed spec fn spec_title(&self) -> Seq<char> {
        self.title@
    }

    /// A fresh indicator titled `title` that counts the device unreachable
    /// after `fail_limit` failed polls in a row. Its icon starts disabled.
    pub fn new(title: &str, fail_limit: u8) -> (r: Self)
        requires
            fail_limit > 0,
        ensures
            r@ == (TrayModel { enabled: false, count: 0, limit: fail_limit as nat }),
            r.spec_title() == title@,
    {
        TrayIcon { title: title.to_owned(), status: false, fail_count: 0, fail_limit }
    }

    /// The title that the indicator was made with.
    pub fn title(&self) -> (r: &str)
        ensures
            r@ == self.spec_title(),
    {
        self.title.as_str()
    }

    /// Records a successful poll: the run of failures starts over.
    pub fn pass(&mut self)
        ensures
            final(self)@ == old(self)@.passed(),
            final(self).spec_title() == old(self).spec_title(),
            final(self)@.wf(),
    {
        proof {
            use_type_invariant(&*self);
        }
        if self.fail_count != 0 {
            self.fail_count = 0;
        }
    }

    /// Records a failed poll: the count grows by one, up to the limit. The
    /// new count comes back as `Err` once it has reached the limit, and as
    /// `Ok` while it is below.
    pub fn fail(&mut self) -> (r: Result<u8, u8>)
        ensures
            final(self)@ == old(self)@.failed(),
            final(self).spec_title() == old(self).spec_title(),
            final(self)@.wf(),
            r == (if final(self)@.unreachable() {
                Err::<u8, u8>(final(self)@.count as u8)
            } else {
                Ok::<u8, u8>(final(self)@.count as u8)
            }),
    {
        proof {
            use_type_invariant(&*self);
        }
        if self.fail_count < self.fail_limit {
            self.fail_count += 1;
        }
        if self.fail_count == self.fail_limit {
            Err(self.fail_count)
        } else {
            Ok(self.fail_count)
        }
    }

    /// Makes the icon show the device enabled. Returns whether the icon has
    /// to change, that is whether it showed it disabled before.
    pub fn show_enabled(&mut self) -> (changed: bool)
        ensures
            final(self)@ == old(self)@.showing(true),
            final(self).spec_title() == old(self).spec_title(),
            final(self)@.wf(),
            changed == !old(self)@.enabled,
    {
        proof {
            use_type_invariant(&*self);
        }
        if !self.status {
            self.status = true;
            true
        } else {
            false
        }
    }

    /// Makes the icon show the device disabled. Returns whether the icon has
    /// to change, that is whether it showed it enabled before.
    pub fn show_disabled(&mut self) -> (changed: bool)
        ensures
            final(self)@ == old(self)@.showing(false),
            final(self).spec_title() == old(self).spec_title(),
            final(self)@.wf(),
            changed == old(self)@.enabled,
    {
        proof {
            use_type_invariant(&*self);
        }
        if self.status {
            self.status = false;
            true
        } else {
            false
        }
    }

    /// Whether the icon shows the device enabled.
    pub fn is_enabled(&self) -> (r: bool)
        ensures
            r == self@.enabled,
    {
        self.status
    }

    /// Whether the limit of failed polls in a row is reached.
    pub fn is_unreachable(&self) -> (r: bool)
        ensures
            r == self@.unreachable(),
    {
        self.fail_count == self.fail_limit
    }

    /// Runs `func` and counts its outcome: `Ok` records a success and hands
    /// the value on; `Err` records a failure and comes back as the count of
    /// failures in a row.
    pub fn test<F, T, U>(&mut self, func: F) -> (r: Result<T, u8>) where
        F: Fn() -> Result<T, U>,

        requires
            func.requires(()),
        ensures
            final(self).spec_title() == old(self).spec_title(),
            final(self)@.wf(),
            r matches Ok(v) ==> func.ensures((), Ok::<T, U>(v)) && final(self)@ == old(
                self,
            )@.passed(),
            r matches Err(c) ==> (exists|e: U| #[trigger] func.ensures((), Err::<T, U>(e)))
                && final(self)@ == old(self)@.failed() && c == final(self)@.count,
    {
        proof {
            use_type_invariant(&*self);
        }
        if let Ok(value) = func() {
            self.pass();
            return Ok(value);
        }
        match self.fail() {
            Ok(count) => Err(count),
            Err(count) => Err(count),
        }
    }

    /// The number of failed polls in a row at which the device counts as
    /// unreachable.
    pub fn max_fail(&self) -> (r: u8)
        ensures
            r == self@.limit,
    {
        self.fail_limit
    }
}

} // verus!
