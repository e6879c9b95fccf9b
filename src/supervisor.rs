use vstd::prelude::*;
use crate::message::Message;
use crate::piapi_handler::{AuthPiHoleAPI, DeviceCall, call_url, dashboard_url};
use crate::response::{Reading, read_status, reply_status, is_known_status};
use crate::tray_functions::{ToggleStep, toggle_decided, toggle_pihole};
use crate::tray_handler::{DisplayState, TrayIcon, TrayModel, display_of};

verus! {

/// The indicator after a poll whose status is `status` (`None` where the
/// request failed or the reply had no status field). A status the device
/// promises ends any run of failures and sets the icon; anything else is a
/// failure, and the failure that reaches the limit turns the icon to disabled.
pub open spec fn poll_step(m: TrayModel, status: Option<Seq<char>>) -> TrayModel {
    if status == Some("enabled"@) {
        m.passed().showing(true)
    } else if status == Some("disabled"@) {
        m.passed().showing(false)
    } else if m.count + 1 == m.limit {
        m.failed().showing(false)
    } else {
        m.failed()
    }
}

/// The poll whose status is `status` is the failure that reaches the limit.
pub open spec fn turns_unreachable(m: TrayModel, status: Option<Seq<char>>) -> bool {
    !is_known_status(status) && m.count + 1 == m.limit
}

/// The indicator after a run of polls, oldest first.
pub open spec fn after_polls(m: TrayModel, polls: Seq<Option<Seq<char>>>) -> TrayModel
    decreases polls.len(),
{
    if polls.len() == 0 {
        m
    } else {
        poll_step(after_polls(m, polls.drop_last()), polls.last())
    }
}

/// The number of failed polls at the end of a run, since its last success.
pub open spec fn trailing_failures(polls: Seq<Option<Seq<char>>>) -> nat
    decreases polls.len(),
{
    if polls.len() == 0 {
        0
    } else if is_known_status(polls.last()) {
        0
    } else {
        1 + trailing_failures(polls.drop_last())
    }
}

/// Over any run of polls that starts with no failures counted, the count is
/// the number of failures since the last success, capped at the limit.
pub proof fn lemma_count_is_capped_run(m: TrayModel, polls: Seq<Option<Seq<char>>>)
    requires
        m.wf(),
        m.count == 0,
    ensures
        after_polls(m, polls).wf(),
        after_polls(m, polls).limit == m.limit,
        after_polls(m, polls).count == if trailing_failures(polls) < m.limit {
            trailing_failures(polls)
        } else {
            m.limit
        },
    decreases polls.len(),
{
    if polls.len() > 0 {
        lemma_count_is_capped_run(m, polls.drop_last());
    }
}

/// Fed any run of polls from a counter at zero, the device is unreachable
/// exactly when the run ends in at least `limit` failures in a row, and turns
/// unreachable on exactly the poll that completes `limit` such failures; a
/// success sets the count back to zero.
pub proof fn lemma_unreachable_iff_limit_failures_in_a_row(
    m: TrayModel,
    polls: Seq<Option<Seq<char>>>,
)
    requires
        m.wf(),
        m.count == 0,
    ensures
        after_polls(m, polls).unreachable() <==> trailing_failures(polls) >= m.limit,
        polls.len() > 0 ==> (turns_unreachable(after_polls(m, polls.drop_last()), polls.last())
            <==> trailing_failures(polls) == m.limit),
        polls.len() > 0 && is_known_status(polls.last()) ==> after_polls(m, polls).count == 0,
{
    lemma_count_is_capped_run(m, polls);
    if polls.len() > 0 {
        lemma_count_is_capped_run(m, polls.drop_last());
    }
}

/// Repeating a poll result keeps the indicator still: a second success like
/// the first changes nothing, and a failure once the limit is reached changes
/// nothing and does not turn the device unreachable again.
pub proof fn lemma_repeated_results_are_stable(m: TrayModel, status: Option<Seq<char>>)
    requires
        m.wf(),
    ensures
        is_known_status(status) ==> poll_step(poll_step(m, status), status) == poll_step(
            m,
            status,
        ),
        !is_known_status(status) && m.unreachable() ==> poll_step(m, status) == m
            && !turns_unreachable(m, status),
{
}

/// The text of an optional label.
pub open spec fn label_view(label: Option<String>) -> Option<Seq<char>> {
    match label {
        Some(s) => Some(s@),
        None => None,
    }
}

/// What the presentation has to do after a poll.
#[derive(Clone, Debug)]
pub struct PollEffects {
    /// The label to show, where the poll read a status the device promises.
    pub label: Option<String>,
    /// The state the icon has to change to, where it changes.
    pub icon: Option<DisplayState>,
    /// This poll made the device count as unreachable.
    pub unreachable: bool,
}

/// What the loop does with a command.
#[derive(Clone, Debug)]
pub enum CommandAction {
    /// No command came.
    Idle,
    /// Open this address in the default browser.
    OpenBrowser(String),
    /// Send this request to the given address; its reply is only logged.
    Call(DeviceCall, String),
    /// Read the status at this address, then hand the reply to
    /// `Supervisor::on_toggle_status`.
    ReadStatusForToggle(String),
    /// Leave the loop.
    Stop,
}

/// The state of the supervision loop: the device's address and the
/// indicator. One poll and at most one command are handled per turn.
pub struct Supervisor {
    pub api: AuthPiHoleAPI,
    pub tray: TrayIcon,
}

impl Supervisor {
    /// A loop over the device `api` that drives the indicator `tray`.
    pub fn new(api: AuthPiHoleAPI, tray: TrayIcon) -> (r: Self)
        ensures
            r.api == api,
            r.tray == tray,
    {
        Supervisor { api, tray }
    }

    /// The address that each poll reads.
    pub fn poll_url(&self) -> (r: String)
        ensures
            r@ == call_url(self.api@.host, self.api@.key, DeviceCall::Status),
    {
        self.api.status_url()
    }

    /// Takes in the reply to a poll (`None` where the request or its
    /// decoding failed) and says what the presentation has to do.
    pub fn on_poll(&mut self, reply: Option<&Vec<(String, String)>>) -> (fx: PollEffects)
        ensures
            final(self).api == old(self).api,
            final(self).tray@ == poll_step(old(self).tray@, reply_status(reply)),
            final(self).tray@.wf(),
            fx.unreachable == turns_unreachable(old(self).tray@, reply_status(reply)),
            fx.icon == (if final(self).tray@.enabled != old(self).tray@.enabled {
                Some(display_of(final(self).tray@.enabled))
            } else {
                None::<DisplayState>
            }),
            label_view(fx.label) == (if is_known_status(reply_status(reply)) {
                Some("Status: "@ + reply_status(reply)->0)
            } else {
                None::<Seq<char>>
            }),
    {
        let reading = match reply {
            Some(pairs) => read_status(pairs),
            None => Reading::Missing,
        };
        match reading {
            Reading::Enabled => {
                self.tray.pass();
                let changed = self.tray.show_enabled();
                let mut label = String::from_str("Status: ");
                label.append("enabled");
                PollEffects {
                    label: Some(label),
                    icon: if changed {
                        Some(DisplayState::Enabled)
                    } else {
                        None
                    },
                    unreachable: false,
                }
            },
            Reading::Disabled => {
                self.tray.pass();
                let changed = self.tray.show_disabled();
                let mut label = String::from_str("Status: ");
                label.append("disabled");
                PollEffects {
                    label: Some(label),
                    icon: if changed {
                        Some(DisplayState::Disabled)
                    } else {
                        None
                    },
                    unreachable: false,
                }
            },
            _ => {
                let was_unreachable = self.tray.is_unreachable();
                let reached = match self.tray.fail() {
                    Ok(_) => false,
                    Err(_) => !was_unreachable,
                };
                if reached {
                    let changed = self.tray.show_disabled();
                    PollEffects {
                        label: None,
                        icon: if changed {
                            Some(DisplayState::Disabled)
                        } else {
                            None
                        },
                        unreachable: true,
                    }
                } else {
                    PollEffects { label: None, icon: None, unreachable: false }
                }
            },
        }
    }

    /// Says what to do with the command that came during the wait after a
    /// poll (`None` where none came).
    pub fn on_command(&self, msg: Option<Message>) -> (r: CommandAction)
        ensures
            match msg {
                None => r is Idle,
                Some(Message::Open) => r matches CommandAction::OpenBrowser(u) && u@
                    == dashboard_url(self.api@.host),
                Some(Message::Enable) => r matches CommandAction::Call(c, u) && c
                    == DeviceCall::Enable && u@ == call_url(self.api@.host, self.api@.key, c),
                Some(Message::DisableFor(d)) => r matches CommandAction::Call(c, u) && c
                    == DeviceCall::Disable(d) && u@ == call_url(
                    self.api@.host,
                    self.api@.key,
                    c,
                ),
                Some(Message::Toggle) => r matches CommandAction::ReadStatusForToggle(u) && u@
                    == call_url(self.api@.host, self.api@.key, DeviceCall::Status),
                Some(Message::Quit) => r is Stop,
            },
    {
        match msg {
            None => CommandAction::Idle,
            Some(Message::Open) => CommandAction::OpenBrowser(self.api.dashboard_url()),
            Some(Message::Enable) => CommandAction::Call(DeviceCall::Enable, self.api.enable_url()),
            Some(Message::DisableFor(d)) => CommandAction::Call(
                DeviceCall::Disable(d),
                self.api.disable_url(d),
            ),
            Some(Message::Toggle) => CommandAction::ReadStatusForToggle(self.api.status_url()),
            Some(Message::Quit) => CommandAction::Stop,
        }
    }

    /// Finishes a toggle from the reply to its status read (`None` where
    /// that read failed).
    pub fn on_toggle_status(&self, reply: Option<&Vec<(String, String)>>) -> (r: ToggleStep)
        ensures
            toggle_decided(r, self.api, reply),
    {
        toggle_pihole(&self.api, reply)
    }
}

} // verus!
