//! Backend selection and the delegating focus policy.
//!
//! Backends themselves perform blocking or asynchronous platform calls and live
//! outside the verified library. What they decide is here: which backend an
//! environment calls for, and how a delegating backend's focus request moves
//! from enumeration to override to fallback.

use vstd::prelude::*;

use crate::registry::snapshots;
use crate::text::{has_substring, lower_of, same_text, str_contains, to_lower, to_upper, upper_of};
use crate::window::{PlatformKey, PlatformWindowId, WindowInfo, WindowInfoView};

verus! {

/// The backend variants.
#[derive(Debug, Clone, Copy, PartialEq, Eq, Structural)]
pub enum BackendKind {
    /// The baseline protocol backend alone.
    X11,
    /// The compositor-scripting backend delegating to the baseline.
    KWin,
}

/// Why no backend can be built.
#[derive(Debug, Clone, Copy, PartialEq, Eq, Structural)]
pub enum SelectError {
    /// No display server is reachable.
    NoDisplay,
}

impl SelectError {
    pub fn message(&self) -> &'static str {
        match self {
            SelectError::NoDisplay => "No display server detected. Set DISPLAY for X11 or XWayland.",
        }
    }
}

/// The environment signals the selector reads: whether each marker variable is
/// set, and the values of the two whose contents matter.
pub struct DisplayEnv {
    pub display: bool,
    pub wayland_display: bool,
    pub session_type: Option<String>,
    pub kde_full_session: bool,
    pub kde_session_version: bool,
    pub current_desktop: Option<String>,
}

/// The session type names a Wayland session.
pub open spec fn wayland_session_type(lowered: Seq<char>) -> bool {
    lowered == "wayland"@
}

/// The desktop list names KDE.
pub open spec fn kde_desktop(uppered: Seq<char>) -> bool {
    has_substring(uppered, "KDE"@)
}

/// The environment runs a Wayland session.
pub open spec fn wayland_env(env: DisplayEnv) -> bool {
    ||| env.wayland_display
    ||| (env.session_type matches Some(t) && wayland_session_type(lower_of(t@)))
}

/// The environment runs KDE Plasma.
pub open spec fn kde_env(env: DisplayEnv) -> bool {
    ||| env.kde_full_session
    ||| env.kde_session_version
    ||| (env.current_desktop matches Some(d) && kde_desktop(upper_of(d@)))
}

/// The backend an environment calls for.
pub open spec fn selected_kind(env: DisplayEnv) -> Result<BackendKind, SelectError> {
    if !env.display {
        Err(SelectError::NoDisplay)
    } else if wayland_env(env) && kde_env(env) {
        Ok(BackendKind::KWin)
    } else {
        Ok(BackendKind::X11)
    }
}

/// Whether an already lower-cased session type names a Wayland session.
pub fn is_wayland_session_type(lowered: &str) -> (r: bool)
    ensures
        r == wayland_session_type(lowered@),
{
    same_text(lowered, "wayland")
}

/// Whether an already upper-cased desktop list names KDE.
pub fn is_kde_desktop(uppered: &str) -> (r: bool)
    ensures
        r == kde_desktop(uppered@),
{
    str_contains(uppered, "KDE")
}

/// Whether the environment runs a Wayland session.
pub fn is_wayland(env: &DisplayEnv) -> (r: bool)
    ensures
        r == wayland_env(*env),
{
    if env.wayland_display {
        return true;
    }
    match &env.session_type {
        Some(t) => is_wayland_session_type(to_lower(t.as_str()).as_str()),
        None => false,
    }
}

/// Whether the environment runs KDE Plasma.
pub fn is_kde_plasma(env: &DisplayEnv) -> (r: bool)
    ensures
        r == kde_env(*env),
{
    if env.kde_full_session || env.kde_session_version {
        return true;
    }
    match &env.current_desktop {
        Some(d) => is_kde_desktop(to_upper(d.as_str()).as_str()),
        None => false,
    }
}

/// Decides which backend to build: none without a display server, the
/// delegating one on a KDE Wayland session, else the baseline.
pub fn select_backend_kind(env: &DisplayEnv) -> (r: Result<BackendKind, SelectError>)
    ensures
        r == selected_kind(*env),
{
    if !env.display {
        return Err(SelectError::NoDisplay);
    }
    if is_wayland(env) && is_kde_plasma(env) {
        Ok(BackendKind::KWin)
    } else {
        Ok(BackendKind::X11)
    }
}

/// The backend that becomes active once the selected one was tried: a
/// delegating backend that could not be built gives way to the baseline.
pub fn settle_backend(selected: BackendKind, built: bool) -> (r: BackendKind)
    ensures
        r == (if built { selected } else { BackendKind::X11 }),
{
    if built {
        selected
    } else {
        BackendKind::X11
    }
}

/// Where a delegated focus request stands.
#[derive(Debug, Clone, Copy, PartialEq, Eq, Structural)]
pub enum FocusStage {
    /// Waiting for the inner backend's enumeration.
    Resolving,
    /// Waiting for the override mechanism.
    Overriding,
    /// Waiting for the inner backend's own focus.
    FallingBack,
    /// Finished.
    Done,
}

/// What a collaborator answered to the last action.
pub enum FocusEvent<E> {
    /// The inner backend's enumeration finished.
    Listed(Result<Vec<WindowInfo>, E>),
    /// The override mechanism finished.
    Overridden(Result<(), E>),
    /// The inner backend's own focus finished.
    BaselineFocused(Result<(), E>),
}

/// What to do next for a delegated focus request.
pub enum FocusAction<E> {
    /// Enumerate the windows through the inner backend.
    ListWindows,
    /// Run the override mechanism on the window with this title.
    Override(String),
    /// Focus this window through the inner backend.
    Baseline(PlatformWindowId),
    /// The request is finished with this result.
    Finish(Result<(), E>),
}

/// Mathematical value of a [`FocusAction`].
pub ghost enum FocusActionView<E> {
    ListWindows,
    Override(Seq<char>),
    Baseline(PlatformKey),
    Finish(Result<(), E>),
}

impl<E> View for FocusAction<E> {
    type V = FocusActionView<E>;

    open spec fn view(&self) -> FocusActionView<E> {
        match self {
            FocusAction::ListWindows => FocusActionView::ListWindows,
            FocusAction::Override(t) => FocusActionView::Override(t@),
            FocusAction::Baseline(id) => FocusActionView::Baseline(id@),
            FocusAction::Finish(r) => FocusActionView::Finish(*r),
        }
    }
}

/// The title of the first window of `ws` with identifier `p`.
pub open spec fn title_of(ws: Seq<WindowInfoView>, p: PlatformKey) -> Option<Seq<char>>
    decreases ws.len(),
{
    if ws.len() == 0 {
        None
    } else if ws[0].platform_id == p {
        Some(ws[0].title)
    } else {
        title_of(ws.drop_first(), p)
    }
}

/// The event answers the action that a plan in `stage` asked for.
pub open spec fn focus_accepts<E>(stage: FocusStage, event: FocusEvent<E>) -> bool {
    match event {
        FocusEvent::Listed(_) => stage == FocusStage::Resolving,
        FocusEvent::Overridden(_) => stage == FocusStage::Overriding,
        FocusEvent::BaselineFocused(_) => stage == FocusStage::FallingBack,
    }
}

/// The next stage and action of a focus request on `target` after `event`:
/// when the enumeration lists the target, the override is tried on the
/// target's title, and its success ends the request. A failed enumeration, a
/// target it does not list, and any failure of the override all belong to the
/// override path: each hands the target to the inner backend, whose result,
/// success or failure, is the request's result.
pub open spec fn focus_step<E>(target: PlatformKey, event: FocusEvent<E>) -> (FocusStage, FocusActionView<E>) {
    match event {
        FocusEvent::Listed(Err(_)) => (FocusStage::FallingBack, FocusActionView::Baseline(target)),
        FocusEvent::Listed(Ok(ws)) => match title_of(snapshots(ws@), target) {
            Some(t) => (FocusStage::Overriding, FocusActionView::Override(t)),
            None => (FocusStage::FallingBack, FocusActionView::Baseline(target)),
        },
        FocusEvent::Overridden(Ok(())) => (FocusStage::Done, FocusActionView::Finish(Ok(()))),
        FocusEvent::Overridden(Err(_)) => (FocusStage::FallingBack, FocusActionView::Baseline(target)),
        FocusEvent::BaselineFocused(r) => (FocusStage::Done, FocusActionView::Finish(r)),
    }
}

/// The final action of a focus request on `target` whose collaborators
/// answer `listed`, `overridden` and `baseline`, each when asked.
pub open spec fn focus_outcome<E>(
    target: PlatformKey,
    listed: Result<Vec<WindowInfo>, E>,
    overridden: Result<(), E>,
    baseline: Result<(), E>,
) -> FocusActionView<E> {
    let first = focus_step(target, FocusEvent::Listed(listed));
    if first.0 == FocusStage::FallingBack {
        focus_step(target, FocusEvent::BaselineFocused(baseline)).1
    } else if first.0 != FocusStage::Overriding {
        first.1
    } else {
        let second = focus_step(target, FocusEvent::Overridden(overridden));
        if second.0 != FocusStage::FallingBack {
            second.1
        } else {
            focus_step(target, FocusEvent::BaselineFocused(baseline)).1
        }
    }
}

/// With an override mechanism that fails, a delegated focus hands the same
/// identifier to the inner backend and ends with exactly the result of the
/// inner backend's own focus, whatever the inner enumeration answered.
pub proof fn lemma_fallback_transparent<E>(
    target: PlatformKey,
    listed: Result<Vec<WindowInfo>, E>,
    override_error: E,
    baseline: Result<(), E>,
)
    ensures
        focus_step(target, FocusEvent::<E>::Overridden(Err(override_error))).1
            == FocusActionView::<E>::Baseline(target),
        focus_outcome(target, listed, Err(override_error), baseline)
            == FocusActionView::Finish(baseline),
{
}

/// Mathematical value of a [`FocusPlan`].
pub ghost struct FocusPlanView {
    pub target: PlatformKey,
    pub stage: FocusStage,
}

/// A focus request on a delegating backend, driven by its caller: the caller
/// performs each action the plan returns and hands the answer back.
pub struct FocusPlan {
    target: PlatformWindowId,
    stage: FocusStage,
}

impl View for FocusPlan {
    type V = FocusPlanView;

    closed spec fn view(&self) -> FocusPlanView {
        FocusPlanView { target: self.target@, stage: self.stage }
    }
}

proof fn lemma_title_of_skip(ws: Seq<WindowInfoView>, p: PlatformKey, i: int)
    requires
        0 <= i <= ws.len(),
        forall|j: int| 0 <= j < i ==> #[trigger] ws[j].platform_id != p,
    ensures
        title_of(ws, p) == title_of(ws.skip(i), p),
    decreases i,
{
    if i > 0 {
        let rest = ws.drop_first();
        assert forall|j: int| 0 <= j < i - 1 implies #[trigger] rest[j].platform_id != p by {
            assert(rest[j] == ws[j + 1]);
        }
        lemma_title_of_skip(rest, p, i - 1);
        assert(rest.skip(i - 1) =~= ws.skip(i));
    } else {
        assert(ws.skip(0) =~= ws);
    }
}

fn title_for(ws: &Vec<WindowInfo>, id: &PlatformWindowId) -> (r: Option<String>)
    ensures
        match r {
            Some(t) => title_of(snapshots(ws@), id@) == Some(t@),
            None => title_of(snapshots(ws@), id@) is None,
        },
{
    let ghost sv = snapshots(ws@);
    let mut i: usize = 0;
    while i < ws.len()
        invariant
            0 <= i <= ws@.len(),
            sv == snapshots(ws@),
            forall|j: int| 0 <= j < i ==> #[trigger] sv[j].platform_id != id@,
        decreases ws@.len() - i,
    {
        assert(sv[i as int] == ws@[i as int]@);
        if ws[i].platform_id == *id {
            proof {
                lemma_title_of_skip(sv, id@, i as int);
                assert(sv.skip(i as int)[0] == sv[i as int]);
            }
            return Some(ws[i].title.clone());
        }
        i += 1;
    }
    proof {
        lemma_title_of_skip(sv, id@, i as int);
        assert(sv.skip(i as int).len() == 0);
    }
    None
}

impl FocusPlan {
    /// Starts a focus request on `target`; the first action enumerates windows.
    pub fn start<E>(target: PlatformWindowId) -> (r: (FocusPlan, FocusAction<E>))
        ensures
            r.0@ == (FocusPlanView { target: target@, stage: FocusStage::Resolving }),
            r.1@ == FocusActionView::<E>::ListWindows,
    {
        (FocusPlan { target, stage: FocusStage::Resolving }, FocusAction::ListWindows)
    }

    /// Where the request stands.
    pub fn stage(&self) -> (r: FocusStage)
        ensures
            r == self@.stage,
    {
        self.stage
    }

    /// Whether `event` answers the action this plan asked for last.
    pub fn accepts<E>(&self, event: &FocusEvent<E>) -> (r: bool)
        ensures
            r == focus_accepts(self@.stage, *event),
    {
        match event {
            FocusEvent::Listed(_) => self.stage == FocusStage::Resolving,
            FocusEvent::Overridden(_) => self.stage == FocusStage::Overriding,
            FocusEvent::BaselineFocused(_) => self.stage == FocusStage::FallingBack,
        }
    }

    /// Takes in the answer to the last action and returns the next one.
    pub fn step<E>(&mut self, event: FocusEvent<E>) -> (r: FocusAction<E>)
        requires
            focus_accepts(old(self)@.stage, event),
        ensures
            final(self)@.target == old(self)@.target,
            (final(self)@.stage, r@) == focus_step(old(self)@.target, event),
    {
        match event {
            FocusEvent::Listed(Err(_)) => {
                self.stage = FocusStage::FallingBack;
                FocusAction::Baseline(self.target.clone())
            },
            FocusEvent::Listed(Ok(ws)) => {
                match title_for(&ws, &self.target) {
                    Some(t) => {
                        self.stage = FocusStage::Overriding;
                        FocusAction::Override(t)
                    },
                    None => {
                        self.stage = FocusStage::FallingBack;
                        FocusAction::Baseline(self.target.clone())
                    },
                }
            },
            FocusEvent::Overridden(Ok(())) => {
                self.stage = FocusStage::Done;
                FocusAction::Finish(Ok(()))
            },
            FocusEvent::Overridden(Err(_)) => {
                self.stage = FocusStage::FallingBack;
                FocusAction::Baseline(self.target.clone())
            },
            FocusEvent::BaselineFocused(r) => {
                self.stage = FocusStage::Done;
                FocusAction::Finish(r)
            },
        }
    }
}

} // verus!
