//! What each shortcut does when it is invoked.
//!
//! A callback is a script: a fixed sequence of effects, some of which guard
//! the ones after them. The host invokes a callback by asking for its next
//! effect, performing it, recording how it ended, and asking again until
//! there is none.

use crate::config::{Config, ConfigView};
use crate::effect::{Effect, EffectView};
use vstd::prelude::*;

verus! {

/// The behaviour attached to a shortcut.
#[derive(Clone, Copy, Debug, PartialEq, Eq, Structural)]
pub enum Callback {
    /// Shows the configured capture directory in an alert.
    ShowScreenDir,
    /// Captures the primary screen into the configured directory.
    CaptureScreen,
    /// Wakes the television and, if that worked, moves the desktop to it.
    SwitchToTv,
    /// Moves the desktop back to the internal display.
    SwitchToMonitor,
    /// Clears the clipboard, then restarts the desktop shell.
    ResetExplorer,
    /// Closes the foreground window.
    CloseTopWindow,
}

/// The outcomes of the first `done` effects of a run in which the effect at
/// position `i` ends with `fate(i)`.
pub open spec fn history(fate: spec_fn(int) -> bool, done: nat) -> Seq<bool> {
    Seq::new(done, |i: int| fate(i))
}

impl Callback {
    /// The effects that the callback asks for when none of them fails, in
    /// the order in which it asks for them.
    pub open spec fn script(self, config: ConfigView) -> Seq<EffectView> {
        match self {
            Callback::ShowScreenDir => seq![EffectView::Alert { text: config.screen_dir }],
            Callback::CaptureScreen => seq![EffectView::CapturePrimary { dir: config.screen_dir }],
            Callback::SwitchToTv => seq![
                EffectView::SendWake { mac: config.tv_mac_addr },
                EffectView::SetExternalDisplay,
                EffectView::DisableNightLight,
            ],
            Callback::SwitchToMonitor => seq![EffectView::SetInternalDisplay],
            Callback::ResetExplorer => seq![EffectView::ClearClipboard, EffectView::KillExplorer],
            Callback::CloseTopWindow => seq![EffectView::CloseTopWindow],
        }
    }

    /// Whether the callback hands its effects to a background task and
    /// returns to its caller at once, so that the caller never learns how
    /// they ended.
    pub open spec fn detached(self) -> bool {
        self is SwitchToTv || self is SwitchToMonitor
    }

    /// Whether every guard among the effects performed so far succeeded.
    pub open spec fn unblocked(self, config: ConfigView, outcomes: Seq<bool>) -> bool {
        forall|i: int|
            0 <= i < outcomes.len() && i < self.script(config).len()
                && #[trigger] self.script(config)[i].guards() ==> outcomes[i]
    }

    /// The effect to perform after effects with the given outcomes, if any:
    /// the next entry of the script, unless the script is exhausted or a
    /// guard has failed.
    pub open spec fn next(self, config: ConfigView, outcomes: Seq<bool>) -> Option<EffectView> {
        if outcomes.len() < self.script(config).len() && self.unblocked(config, outcomes) {
            Some(self.script(config)[outcomes.len() as int])
        } else {
            None
        }
    }

    /// The effects asked for from position `done` on, in a run in which the
    /// effect at position `i` ends with `fate(i)`.
    pub open spec fn rest_of_run(
        self,
        config: ConfigView,
        fate: spec_fn(int) -> bool,
        done: nat,
    ) -> Seq<EffectView>
        decreases self.script(config).len() - done,
    {
        match self.next(config, history(fate, done)) {
            Some(effect) => seq![effect] + self.rest_of_run(config, fate, done + 1),
            None => Seq::empty(),
        }
    }

    /// All effects that one invocation asks for, in order, when the effect at
    /// position `i` ends with `fate(i)`.
    pub open spec fn run(self, config: ConfigView, fate: spec_fn(int) -> bool) -> Seq<EffectView> {
        self.rest_of_run(config, fate, 0)
    }

    /// Tells whether the callback's effects are to run on a detached
    /// background task.
    pub fn is_detached(self) -> (detached: bool)
        ensures
            detached == self.detached(),
    {
        match self {
            Callback::SwitchToTv | Callback::SwitchToMonitor => true,
            _ => false,
        }
    }

    /// Builds the callback's script for the given configuration.
    pub fn script_of(self, config: &Config) -> (script: Vec<Effect>)
        ensures
            script.deep_view() == self.script(config@),
    {
        match self {
            Callback::ShowScreenDir => vec![Effect::Alert { text: config.screen_dir.clone() }],
            Callback::CaptureScreen => vec![
                Effect::CapturePrimary { dir: config.screen_dir.clone() },
            ],
            Callback::SwitchToTv => vec![
                Effect::SendWake { mac: config.tv_mac_addr },
                Effect::SetExternalDisplay,
                Effect::DisableNightLight,
            ],
            Callback::SwitchToMonitor => vec![Effect::SetInternalDisplay],
            Callback::ResetExplorer => vec![Effect::ClearClipboard, Effect::KillExplorer],
            Callback::CloseTopWindow => vec![Effect::CloseTopWindow],
        }
    }

    /// Decides what the host does next in a run of this callback.
    ///
    /// `outcomes` holds, in order, whether each effect performed so far in
    /// this run succeeded; it is empty when the callback has just been
    /// invoked. The result is the effect to perform now, or `None` when the
    /// run is over.
    pub fn next_effect(self, config: &Config, outcomes: &[bool]) -> (next: Option<Effect>)
        ensures
            next.deep_view() == self.next(config@, outcomes@),
    {
        let mut script = self.script_of(config);
        let done = outcomes.len();
        if done >= script.len() {
            return None;
        }
        let mut i: usize = 0;
        while i < done
            invariant
                i <= done,
                done == outcomes@.len(),
                done < script.len(),
                script.deep_view() == self.script(config@),
                forall|j: int|
                    0 <= j < i && #[trigger] self.script(config@)[j].guards() ==> outcomes@[j],
            decreases done - i,
        {
            if script[i].is_guard() && !outcomes[i] {
                return None;
            }
            i += 1;
        }
        Some(script.remove(done))
    }
}

/// The part of a run from position `done` on is a stretch of the script: it
/// goes on as long as guards succeed, and stops short of the script's end
/// only behind a guard that failed.
proof fn lemma_rest_of_run(
    callback: Callback,
    config: ConfigView,
    fate: spec_fn(int) -> bool,
    done: nat,
)
    requires
        done <= callback.script(config).len(),
        callback.unblocked(config, history(fate, done)),
    ensures
        ({
            let script = callback.script(config);
            let rest = callback.rest_of_run(config, fate, done);
            let end = done + rest.len();
            &&& end <= script.len()
            &&& rest == script.subrange(done as int, end as int)
            &&& forall|i: int| done <= i < end - 1 && #[trigger] script[i].guards() ==> fate(i)
            &&& end < script.len() ==> rest.len() >= 1 && script[end - 1].guards() && !fate(end - 1)
        }),
    decreases callback.script(config).len() - done,
{
    let script = callback.script(config);
    let rest = callback.rest_of_run(config, fate, done);
    if done < script.len() {
        let tail = callback.rest_of_run(config, fate, done + 1);
        assert(rest == seq![script[done as int]] + tail);
        if script[done as int].guards() && !fate(done as int) {
            assert(history(fate, done + 1)[done as int] == fate(done as int));
            assert(!callback.unblocked(config, history(fate, done + 1)));
            assert(tail =~= Seq::empty());
            assert(rest =~= script.subrange(done as int, done as int + 1));
        } else {
            assert(callback.unblocked(config, history(fate, done + 1))) by {
                let longer = history(fate, done + 1);
                assert forall|i: int|
                    0 <= i < done + 1 && #[trigger] script[i].guards() implies longer[i] by {
                    if i < done {
                        assert(history(fate, done)[i] == fate(i));
                    }
                }
            }
            lemma_rest_of_run(callback, config, fate, done + 1);
            let end = done + rest.len();
            assert(rest =~= script.subrange(done as int, end as int));
        }
    } else {
        assert(rest =~= script.subrange(done as int, done as int));
    }
}

/// Every run follows the script. It performs the script's effects in order
/// from the first one, never skips one, goes past a guard only if that guard
/// succeeded, and ends before the script does only right behind a guard that
/// failed. In particular a run in which every guard succeeds performs the
/// whole script, whatever becomes of the other effects.
pub proof fn run_follows_script(callback: Callback, config: ConfigView, fate: spec_fn(int) -> bool)
    ensures
        ({
            let script = callback.script(config);
            let run = callback.run(config, fate);
            &&& 1 <= run.len() <= script.len()
            &&& run == script.take(run.len() as int)
            &&& forall|i: int| 0 <= i < run.len() - 1 && #[trigger] script[i].guards() ==> fate(i)
            &&& run.len() < script.len() ==> script[run.len() - 1].guards() && !fate(run.len() - 1)
        }),
{
    lemma_rest_of_run(callback, config, fate, 0);
}

/// Switching to the television is guarded by the wake packet. If sending it
/// fails, nothing else is asked for: the display is not switched and the
/// night light is left alone. If it succeeds, the external display is
/// selected and then the night light is disabled, each exactly once and in
/// that order, whatever their own outcomes.
pub proof fn tv_switch_is_guarded_by_wake(config: ConfigView, fate: spec_fn(int) -> bool)
    ensures
        !fate(0) ==> Callback::SwitchToTv.run(config, fate) == seq![
            EffectView::SendWake { mac: config.tv_mac_addr },
        ],
        fate(0) ==> Callback::SwitchToTv.run(config, fate) == seq![
            EffectView::SendWake { mac: config.tv_mac_addr },
            EffectView::SetExternalDisplay,
            EffectView::DisableNightLight,
        ],
{
    run_follows_script(Callback::SwitchToTv, config, fate);
    assert(Callback::SwitchToTv.script(config)[0].guards());
}

/// Switching to the monitor selects the internal display exactly once and
/// does nothing else, whatever the configuration and whatever the outcome.
pub proof fn monitor_switch_is_unconditional(config: ConfigView, fate: spec_fn(int) -> bool)
    ensures
        Callback::SwitchToMonitor.run(config, fate) == seq![EffectView::SetInternalDisplay],
{
    run_follows_script(Callback::SwitchToMonitor, config, fate);
}

/// Resetting the shell clears the clipboard first and terminates the shell
/// second, in every run.
pub proof fn clipboard_is_cleared_before_shell_restart(
    config: ConfigView,
    fate: spec_fn(int) -> bool,
)
    ensures
        Callback::ResetExplorer.run(config, fate) == seq![
            EffectView::ClearClipboard,
            EffectView::KillExplorer,
        ],
{
    run_follows_script(Callback::ResetExplorer, config, fate);
}

} // verus!
