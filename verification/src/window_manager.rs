//! The window orchestrator: keeps the registry of live windows, one per
//! label, and lays down the order in which a window is materialised.

use crate::geometry::{bottom_center, center, physical_spec, resolve_screen, to_physical};
use crate::window_config::{
    as_position, screen_bottom_center_spec, screen_center_spec, WindowConfig, WindowConfigView,
};
use vstd::prelude::*;
use vstd::string::*;

verus! {

/// One step of bringing a window onto the screen.
#[derive(Clone, Copy, Debug, PartialEq, Eq, Structural)]
pub enum WindowStep {
    /// Construct the window from its descriptor, hidden.
    Build,
    /// Tell the content that the window is placed from here, so that it
    /// does not place itself.
    SignalPositioned,
    /// Move the upper left corner to the anchor position, in physical
    /// pixels.
    SetPosition { x: i32, y: i32 },
    /// Make the window visible.
    Show,
    /// Keep the window above the others.
    SetAlwaysOnTop,
    /// Give the window the input focus.
    SetFocus,
    /// Tell the content that the window is on the screen.
    SignalReady,
}

impl WindowStep {
    /// The script that the step runs in the window, if it runs one.
    pub open spec fn script_spec(self) -> Option<Seq<char>> {
        match self {
            WindowStep::SignalPositioned => Some("window.RUST_POSITIONED = true;"@),
            WindowStep::SignalReady => Some(
                "document.body.style.opacity = '1'; window.WINDOW_READY = true;"@,
            ),
            _ => None,
        }
    }

    /// The script that the step runs in the window, if it runs one.
    pub fn script(self) -> (script: Option<&'static str>)
        ensures
            match self.script_spec() {
                Some(text) => script is Some && script->0@ == text,
                None => script is None,
            },
    {
        match self {
            WindowStep::SignalPositioned => Some("window.RUST_POSITIONED = true;"),
            WindowStep::SignalReady => Some(
                "document.body.style.opacity = '1'; window.WINDOW_READY = true;",
            ),
            _ => None,
        }
    }
}

/// Why the orchestrator could not take a request.
#[derive(Clone, Copy, Debug, PartialEq, Eq, Structural)]
pub enum WindowError {
    /// Every ticket has been handed out.
    TicketsExhausted,
}

impl WindowError {
    /// The error in words.
    pub open spec fn message_spec(self) -> Seq<char> {
        match self {
            WindowError::TicketsExhausted => "No window ticket is left"@,
        }
    }

    /// The error in words.
    pub fn message(&self) -> (text: String)
        ensures
            text@ == self.message_spec(),
    {
        match self {
            WindowError::TicketsExhausted => String::from_str("No window ticket is left"),
        }
    }
}

/// What `ensure_singleton` did to the registry.
#[derive(Clone, Copy, Debug, PartialEq, Eq, Structural)]
pub struct Replacement {
    /// Ticket of the window that was live under the label and has to be
    /// closed, if there was one.
    pub closed: Option<u64>,
    /// Ticket of the window that is now registered under the label.
    pub opened: u64,
}

/// A request to materialise a window, ready to be carried out.
#[derive(Debug)]
pub struct WindowRequest {
    /// Ticket of the window of the same label that has to be closed first.
    pub close_first: Option<u64>,
    /// Ticket under which the new window is registered.
    pub ticket: u64,
    /// The descriptor to build the window from.
    pub config: WindowConfig,
    /// The steps to carry out, in order.
    pub steps: Vec<WindowStep>,
}

/// One live window: its label and the ticket it was requested under.
pub type LiveWindow = (Seq<char>, u64);

/// How many of `entries` carry `label`.
pub open spec fn count_label(entries: Seq<LiveWindow>, label: Seq<char>) -> nat
    decreases entries.len(),
{
    if entries.len() == 0 {
        0
    } else {
        count_label(entries.drop_last(), label) + if entries.last().0 == label {
            1nat
        } else {
            0nat
        }
    }
}

/// `entries` without those that carry `label`, the others in their order.
pub open spec fn without_label(entries: Seq<LiveWindow>, label: Seq<char>) -> Seq<LiveWindow>
    decreases entries.len(),
{
    if entries.len() == 0 {
        entries
    } else if entries.last().0 == label {
        without_label(entries.drop_last(), label)
    } else {
        without_label(entries.drop_last(), label).push(entries.last())
    }
}

/// The ticket of the last of `entries` that carries `label`.
pub open spec fn ticket_of(entries: Seq<LiveWindow>, label: Seq<char>) -> Option<u64>
    decreases entries.len(),
{
    if entries.len() == 0 {
        None
    } else if entries.last().0 == label {
        Some(entries.last().1)
    } else {
        ticket_of(entries.drop_last(), label)
    }
}

/// No label is carried by two of `entries`.
pub open spec fn one_per_label(entries: Seq<LiveWindow>) -> bool {
    forall|i: int, j: int|
        0 <= i < j < entries.len() ==> (#[trigger] entries[i]).0 != (#[trigger] entries[j]).0
}

/// The registry after a window has been requested under `label` with
/// `ticket`: what was live under the label is gone, the new window is there.
pub open spec fn replaced(entries: Seq<LiveWindow>, label: Seq<char>, ticket: u64) -> Seq<
    LiveWindow,
> {
    without_label(entries, label).push((label, ticket))
}

/// The step that moves a window to `anchor`.
pub open spec fn position_step(anchor: (i64, i64)) -> WindowStep {
    let (x, y) = anchor;
    WindowStep::SetPosition {
        x: physical_spec(x as int) as i32,
        y: physical_spec(y as int) as i32,
    }
}

/// The descriptor as every window is built from it: hidden.
pub open spec fn hidden(config: WindowConfigView) -> WindowConfigView {
    WindowConfigView { visible: false, ..config }
}

/// The order in which a window is materialised: built hidden; where it has
/// an anchor, its content told so and the window moved there; shown; then
/// raised and focused as the descriptor asks; and last, where `ready` is
/// asked for, its content told that it is on the screen.
pub open spec fn steps_spec(
    config: WindowConfigView,
    anchor: Option<(i64, i64)>,
    ready: bool,
) -> Seq<WindowStep> {
    seq![WindowStep::Build] + (match anchor {
        Some(place) => seq![WindowStep::SignalPositioned, position_step(place)],
        None => Seq::empty(),
    }) + seq![WindowStep::Show] + (if config.always_on_top {
        seq![WindowStep::SetAlwaysOnTop]
    } else {
        Seq::empty()
    }) + (if config.focused {
        seq![WindowStep::SetFocus]
    } else {
        Seq::empty()
    }) + (if ready {
        seq![WindowStep::SignalReady]
    } else {
        Seq::empty()
    })
}

/// The order in which the window of `config` is materialised where nothing
/// else is asked: anchored at the position of the descriptor.
pub open spec fn materialize_steps_spec(config: WindowConfigView) -> Seq<WindowStep> {
    steps_spec(config, config.position, false)
}

/// One entry of the registry.
struct WindowEntry {
    label: String,
    ticket: u64,
}

/// The window orchestrator. It owns the registry of live windows: for each
/// label at most one entry, with the ticket under which the window was
/// requested. Tickets are handed out in rising order and never twice.
pub struct WindowManager {
    entries: Vec<WindowEntry>,
    next_ticket: u64,
}

impl View for WindowManager {
    type V = Seq<LiveWindow>;

    /// The live windows, oldest first.
    closed spec fn view(&self) -> Seq<LiveWindow> {
        live_windows(self.entries@)
    }
}

/// The entries as live windows.
spec fn live_windows(entries: Seq<WindowEntry>) -> Seq<LiveWindow> {
    Seq::new(entries.len(), |i: int| (entries[i].label@, entries[i].ticket))
}

/// The entries are in order: no label is live twice, and every live ticket
/// was handed out before `next_ticket`.
spec fn in_order(entries: Seq<LiveWindow>, next_ticket: u64) -> bool {
    &&& one_per_label(entries)
    &&& forall|i: int| 0 <= i < entries.len() ==> (#[trigger] entries[i]).1 < next_ticket
}

impl WindowManager {
    /// The ticket that the next request gets.
    pub closed spec fn next_ticket(&self) -> u64 {
        self.next_ticket
    }

    /// At any time no label is live twice, and every live ticket has been
    /// handed out before.
    #[verifier::type_invariant]
    spec fn registry_in_order(&self) -> bool {
        in_order(live_windows(self.entries@), self.next_ticket)
    }

    /// An orchestrator with no live window.
    pub fn new() -> (manager: WindowManager)
        ensures
            manager@ == Seq::<LiveWindow>::empty(),
            manager.next_ticket() == 0,
    {
        let manager = WindowManager { entries: Vec::new(), next_ticket: 0 };
        assert(manager@ =~= Seq::<LiveWindow>::empty());
        manager
    }

    /// An orchestrator with no live window that hands out tickets from
    /// `first_ticket` on.
    pub fn starting_at(first_ticket: u64) -> (manager: WindowManager)
        ensures
            manager@ == Seq::<LiveWindow>::empty(),
            manager.next_ticket() == first_ticket,
    {
        let manager = WindowManager { entries: Vec::new(), next_ticket: first_ticket };
        assert(manager@ =~= Seq::<LiveWindow>::empty());
        manager
    }

    /// Centres a window on the primary display, or on the fallback
    /// resolution where the display is unknown.
    pub fn get_screen_center_position(
        screen: Option<(u32, u32)>,
        window_width: u32,
        window_height: u32,
    ) -> (pos: (i64, i64))
        ensures
            pos.0 == screen_center_spec(screen, window_width, window_height).0,
            pos.1 == screen_center_spec(screen, window_width, window_height).1,
            pos == as_position(screen_center_spec(screen, window_width, window_height)),
    {
        let size = resolve_screen(screen);
        center(size.0, size.1, window_width, window_height)
    }

    /// Places a window at the bottom centre of the primary display, or of
    /// the fallback resolution where the display is unknown.
    pub fn get_bottom_center_position(
        screen: Option<(u32, u32)>,
        window_width: u32,
        window_height: u32,
        margin_bottom: u32,
    ) -> (pos: (i64, i64))
        ensures
            pos.0 == screen_bottom_center_spec(
                screen,
                window_width,
                window_height,
                margin_bottom,
            ).0,
            pos.1 == screen_bottom_center_spec(
                screen,
                window_width,
                window_height,
                margin_bottom,
            ).1,
            pos == as_position(
                screen_bottom_center_spec(screen, window_width, window_height, margin_bottom),
            ),
    {
        let size = resolve_screen(screen);
        bottom_center(size.0, size.1, window_width, window_height, margin_bottom)
    }

    /// The order in which the window that `config` describes is
    /// materialised with the anchor `anchor`, and with the signal that it is
    /// on the screen where `ready` is set.
    pub fn plan_steps(config: &WindowConfig, anchor: Option<(i64, i64)>, ready: bool) -> (steps:
        Vec<WindowStep>)
        ensures
            steps@ == steps_spec(config@, anchor, ready),
    {
        let mut steps: Vec<WindowStep> = Vec::new();
        steps.push(WindowStep::Build);
        match anchor {
            Some((x, y)) => {
                steps.push(WindowStep::SignalPositioned);
                steps.push(WindowStep::SetPosition { x: to_physical(x), y: to_physical(y) });
            },
            None => {},
        }
        steps.push(WindowStep::Show);
        if config.always_on_top {
            steps.push(WindowStep::SetAlwaysOnTop);
        }
        if config.focused {
            steps.push(WindowStep::SetFocus);
        }
        if ready {
            steps.push(WindowStep::SignalReady);
        }
        assert(steps@ =~= steps_spec(config@, anchor, ready));
        steps
    }

    /// The order in which the window that `config` describes is materialised
    /// where nothing else is asked.
    pub fn materialize_steps(config: &WindowConfig) -> (steps: Vec<WindowStep>)
        ensures
            steps@ == materialize_steps_spec(config@),
    {
        WindowManager::plan_steps(config, config.position, false)
    }

    /// Where in the registry the window of `label` stands.
    fn position_of(&self, label: &String) -> (found: Option<usize>)
        ensures
            match found {
                Some(i) => i < self@.len() && self@[i as int].0 == label@,
                None => forall|k: int| 0 <= k < self@.len() ==> (#[trigger] self@[k]).0 != label@,
            },
    {
        let mut i: usize = 0;
        while i < self.entries.len()
            invariant
                i <= self.entries.len(),
                self@.len() == self.entries@.len(),
                self@ == live_windows(self.entries@),
                forall|k: int| 0 <= k < i ==> (#[trigger] self@[k]).0 != label@,
            decreases self.entries.len() - i,
        {
            if self.entries[i].label == *label {
                return Some(i);
            }
            i += 1;
        }
        None
    }

    /// How many live windows carry `label`: none or one.
    pub fn live_count(&self, label: &str) -> (count: usize)
        ensures
            count == count_label(self@, label@),
            count <= 1,
    {
        let wanted = String::from_str(label);
        proof {
            use_type_invariant(self);
            lemma_one_per_label_counts(self@, label@);
        }
        match self.position_of(&wanted) {
            Some(i) => {
                proof {
                    lemma_count_of_member(self@, i as int);
                }
                1
            },
            None => {
                proof {
                    lemma_count_zero(self@, label@);
                }
                0
            },
        }
    }

    /// Whether a window is live under `label`.
    pub fn is_open(&self, label: &str) -> (open: bool)
        ensures
            open == (count_label(self@, label@) == 1),
            open == ticket_of(self@, label@).is_some(),
    {
        let wanted = String::from_str(label);
        proof {
            use_type_invariant(self);
            lemma_one_per_label_counts(self@, label@);
        }
        match self.position_of(&wanted) {
            Some(i) => {
                proof {
                    lemma_count_of_member(self@, i as int);
                    lemma_without_is_remove(self@, i as int);
                }
                true
            },
            None => {
                proof {
                    lemma_count_zero(self@, label@);
                    lemma_without_absent(self@, label@);
                }
                false
            },
        }
    }

    /// Takes the window of `label` out of the registry and returns its
    /// ticket, for the caller to close it. Where no window is live under the
    /// label nothing changes: closing twice is closing once.
    pub fn close_existing_window(&mut self, label: &str) -> (closed: Option<u64>)
        ensures
            final(self)@ == without_label(old(self)@, label@),
            final(self).next_ticket() == old(self).next_ticket(),
            closed == ticket_of(old(self)@, label@),
            closed is Some <==> count_label(old(self)@, label@) == 1,
            closed is None ==> final(self)@ == old(self)@,
            count_label(final(self)@, label@) == 0,
            ticket_of(final(self)@, label@) is None,
    {
        let wanted = String::from_str(label);
        proof {
            use_type_invariant(&*self);
            lemma_one_per_label_counts(self@, label@);
            lemma_without_label(self@, label@);
            lemma_without_absent(without_label(self@, label@), label@);
        }
        match self.position_of(&wanted) {
            Some(i) => {
                proof {
                    lemma_count_of_member(self@, i as int);
                    lemma_without_is_remove(self@, i as int);
                }
                let mut entries: Vec<WindowEntry> = Vec::new();
                core::mem::swap(&mut entries, &mut self.entries);
                let entry = entries.remove(i);
                proof {
                    let left = live_windows(entries@);
                    assert(left =~= old(self)@.remove(i as int));
                    assert forall|k: int| 0 <= k < left.len() implies (#[trigger] left[k]).1
                        < self.next_ticket by {
                        if k < i {
                            assert(left[k] == old(self)@[k]);
                        } else {
                            assert(left[k] == old(self)@[k + 1]);
                        }
                    }
                }
                self.entries = entries;
                Some(entry.ticket)
            },
            None => {
                proof {
                    lemma_count_zero(self@, label@);
                    lemma_without_absent(self@, label@);
                }
                None
            },
        }
    }

    /// Makes room for a new window under `label` and registers it: the
    /// window that was live under the label, if any, leaves the registry and
    /// its ticket is returned for closing; the new window gets the next
    /// ticket. Afterwards exactly one window is live under the label. Fails,
    /// and changes nothing, only when every ticket has been handed out.
    pub fn ensure_singleton(&mut self, label: &str) -> (outcome: Result<Replacement, WindowError>)
        ensures
            old(self).next_ticket() < u64::MAX ==> {
                &&& outcome == Ok::<Replacement, WindowError>(
                    (Replacement {
                        closed: ticket_of(old(self)@, label@),
                        opened: old(self).next_ticket(),
                    }),
                )
                &&& final(self)@ == replaced(old(self)@, label@, old(self).next_ticket())
                &&& final(self).next_ticket() == old(self).next_ticket() + 1
                &&& count_label(final(self)@, label@) == 1
                &&& ticket_of(final(self)@, label@) == Some(old(self).next_ticket())
            },
            old(self).next_ticket() == u64::MAX ==> {
                &&& outcome == Err::<Replacement, WindowError>(WindowError::TicketsExhausted)
                &&& final(self)@ == old(self)@
                &&& final(self).next_ticket() == old(self).next_ticket()
            },
    {
        proof {
            use_type_invariant(&*self);
        }
        if self.next_ticket == u64::MAX {
            return Err(WindowError::TicketsExhausted);
        }
        let closed = self.close_existing_window(label);
        let ticket = self.next_ticket;
        let ghost base = self@;
        proof {
            use_type_invariant(&*self);
            lemma_replaced(old(self)@, label@, ticket);
        }
        self.next_ticket = ticket + 1;
        let mut entries: Vec<WindowEntry> = Vec::new();
        core::mem::swap(&mut entries, &mut self.entries);
        entries.push(WindowEntry { label: String::from_str(label), ticket });
        proof {
            let grown = live_windows(entries@);
            assert(grown =~= base.push((label@, ticket)));
            assert(grown == replaced(old(self)@, label@, ticket));
            assert forall|k: int| 0 <= k < grown.len() implies (#[trigger] grown[k]).1
                < self.next_ticket by {
                if k < base.len() {
                    assert(grown[k] == base[k]);
                }
            }
        }
        self.entries = entries;
        Ok(Replacement { closed, opened: ticket })
    }

    /// Takes a request to materialise the window that `config` describes,
    /// anchored at `anchor`, with the signal that it is on the screen where
    /// `ready` is set. The label is made a singleton first, so a live window
    /// of the same label is named for closing. The window is built hidden
    /// whatever the descriptor says, and the steps are laid down in the
    /// order that keeps it from flashing or jumping. Fails, and changes
    /// nothing, only when every ticket has been handed out.
    pub fn request_window(
        &mut self,
        config: WindowConfig,
        anchor: Option<(i64, i64)>,
        ready: bool,
    ) -> (outcome: Result<WindowRequest, WindowError>)
        ensures
            requested(
                *old(self),
                *final(self),
                config@,
                steps_spec(config@, anchor, ready),
                outcome,
            ),
    {
        match self.ensure_singleton(config.label.as_str()) {
            Ok(replacement) => {
                let steps = WindowManager::plan_steps(&config, anchor, ready);
                let mut built = config;
                built.visible = false;
                Ok(
                    WindowRequest {
                        close_first: replacement.closed,
                        ticket: replacement.opened,
                        config: built,
                        steps,
                    },
                )
            },
            Err(e) => Err(e),
        }
    }

    /// Takes a request to materialise the window that `config` describes,
    /// anchored where the descriptor places it.
    pub fn create_window(&mut self, config: WindowConfig) -> (outcome: Result<
        WindowRequest,
        WindowError,
    >)
        ensures
            created(*old(self), *final(self), config@, outcome),
    {
        let anchor = config.position;
        self.request_window(config, anchor, false)
    }

    /// Whether the window that was built for `ticket` under `label` is still
    /// the one that the registry holds. Where it is not, a close or a newer
    /// request has overtaken the creation, and the window that was just
    /// built has to be closed at once.
    pub fn confirm_created(&self, label: &str, ticket: u64) -> (keep: bool)
        ensures
            keep == (ticket_of(self@, label@) == Some(ticket)),
    {
        let wanted = String::from_str(label);
        proof {
            use_type_invariant(self);
        }
        match self.position_of(&wanted) {
            Some(i) => {
                proof {
                    lemma_without_is_remove(self@, i as int);
                }
                self.entries[i].ticket == ticket
            },
            None => {
                proof {
                    lemma_count_zero(self@, label@);
                    lemma_without_absent(self@, label@);
                }
                false
            },
        }
    }

    /// Takes the window of `label` out of the registry after it failed to
    /// materialise, provided that it is still the one requested under
    /// `ticket`. Returns whether an entry was removed.
    pub fn discard_failed(&mut self, label: &str, ticket: u64) -> (removed: bool)
        ensures
            final(self).next_ticket() == old(self).next_ticket(),
            removed == (ticket_of(old(self)@, label@) == Some(ticket)),
            final(self)@ == if removed {
                without_label(old(self)@, label@)
            } else {
                old(self)@
            },
    {
        if self.confirm_created(label, ticket) {
            let _ = self.close_existing_window(label);
            true
        } else {
            false
        }
    }

    /// How many windows are live.
    pub fn len(&self) -> (n: usize)
        ensures
            n == self@.len(),
    {
        self.entries.len()
    }
}

/// What taking a request for the window of `config` with the steps `steps`
/// comes to. While tickets are left the request is taken: the registry holds
/// the new window in place of what was live under its label, and the request
/// names the window to close first, the new ticket, the descriptor made
/// hidden, and the steps. With no ticket left the request is turned down and
/// the registry stays as it was.
pub open spec fn requested(
    before: WindowManager,
    after: WindowManager,
    config: WindowConfigView,
    steps: Seq<WindowStep>,
    outcome: Result<WindowRequest, WindowError>,
) -> bool {
    if before.next_ticket() < u64::MAX {
        &&& outcome is Ok
        &&& outcome->Ok_0.close_first == ticket_of(before@, config.label)
        &&& outcome->Ok_0.ticket == before.next_ticket()
        &&& outcome->Ok_0.config@ == hidden(config)
        &&& !outcome->Ok_0.config@.visible
        &&& outcome->Ok_0.steps@ == steps
        &&& after@ == replaced(before@, config.label, before.next_ticket())
        &&& after.next_ticket() == before.next_ticket() + 1
        &&& count_label(after@, config.label) == 1
        &&& ticket_of(after@, config.label) == Some(before.next_ticket())
    } else {
        &&& outcome is Err
        &&& outcome->Err_0 == WindowError::TicketsExhausted
        &&& after@ == before@
        &&& after.next_ticket() == before.next_ticket()
    }
}

/// What taking a request for the window of `config` comes to where nothing
/// else is asked: the window is anchored where the descriptor places it.
pub open spec fn created(
    before: WindowManager,
    after: WindowManager,
    config: WindowConfigView,
    outcome: Result<WindowRequest, WindowError>,
) -> bool {
    requested(before, after, config, materialize_steps_spec(config), outcome)
}

/// An entry with `label` shows in the count.
pub proof fn lemma_count_of_member(entries: Seq<LiveWindow>, i: int)
    requires
        0 <= i < entries.len(),
    ensures
        count_label(entries, entries[i].0) >= 1,
    decreases entries.len(),
{
    if i < entries.len() - 1 {
        lemma_count_of_member(entries.drop_last(), i);
    }
}

/// A label that none of the entries carries counts zero, and conversely.
pub proof fn lemma_count_zero(entries: Seq<LiveWindow>, label: Seq<char>)
    ensures
        count_label(entries, label) == 0 <==> forall|i: int|
            0 <= i < entries.len() ==> (#[trigger] entries[i]).0 != label,
    decreases entries.len(),
{
    if entries.len() > 0 {
        let front = entries.drop_last();
        lemma_count_zero(front, label);
        if count_label(entries, label) == 0 {
            assert forall|i: int| 0 <= i < entries.len() implies (#[trigger] entries[i]).0
                != label by {
                if i < front.len() {
                    assert(front[i] == entries[i]);
                }
            }
        }
        if forall|i: int| 0 <= i < entries.len() ==> (#[trigger] entries[i]).0 != label {
            assert forall|i: int| 0 <= i < front.len() implies (#[trigger] front[i]).0
                != label by {
                assert(front[i] == entries[i]);
            }
            assert(entries.last() == entries[entries.len() - 1]);
        }
    }
}

/// Where no label is carried twice, no label counts more than one.
pub proof fn lemma_one_per_label_counts(entries: Seq<LiveWindow>, label: Seq<char>)
    requires
        one_per_label(entries),
    ensures
        count_label(entries, label) <= 1,
    decreases entries.len(),
{
    if entries.len() > 0 {
        let front = entries.drop_last();
        assert forall|i: int, j: int| 0 <= i < j < front.len() implies (#[trigger] front[i]).0 != (
        #[trigger] front[j]).0 by {
            assert(front[i] == entries[i]);
            assert(front[j] == entries[j]);
        }
        lemma_one_per_label_counts(front, label);
        if entries.last().0 == label {
            lemma_count_zero(front, label);
            assert forall|i: int| 0 <= i < front.len() implies (#[trigger] front[i]).0
                != label by {
                assert(front[i] == entries[i]);
                assert(entries.last() == entries[entries.len() - 1]);
            }
        }
    }
}

/// Taking a label out leaves none of it and does not touch the others.
pub proof fn lemma_without_label(entries: Seq<LiveWindow>, label: Seq<char>)
    ensures
        count_label(without_label(entries, label), label) == 0,
        forall|other: Seq<char>|
            other != label ==> #[trigger] count_label(without_label(entries, label), other)
                == count_label(entries, other),
        forall|other: Seq<char>|
            other != label ==> #[trigger] ticket_of(without_label(entries, label), other)
                == ticket_of(entries, other),
        one_per_label(entries) ==> one_per_label(without_label(entries, label)),
        forall|k: int|
            0 <= k < without_label(entries, label).len() ==> exists|i: int|
                0 <= i < entries.len() && entries[i] == #[trigger] without_label(entries, label)[k],
    decreases entries.len(),
{
    if entries.len() > 0 {
        let front = entries.drop_last();
        let last = entries.last();
        lemma_without_label(front, label);
        let rest = without_label(front, label);
        assert forall|k: int| 0 <= k < rest.len() implies exists|i: int|
            0 <= i < entries.len() && entries[i] == #[trigger] rest[k] by {
            let i = choose|i: int| 0 <= i < front.len() && front[i] == rest[k];
            assert(entries[i] == rest[k]);
        }
        assert forall|other: Seq<char>| other != label implies #[trigger] count_label(
            without_label(entries, label),
            other,
        ) == count_label(entries, other) by {
            assert(count_label(rest, other) == count_label(front, other));
            if last.0 != label {
                assert(rest.push(last).drop_last() =~= rest);
            }
        }
        assert forall|other: Seq<char>| other != label implies #[trigger] ticket_of(
            without_label(entries, label),
            other,
        ) == ticket_of(entries, other) by {
            assert(ticket_of(rest, other) == ticket_of(front, other));
            if last.0 != label {
                assert(rest.push(last).drop_last() =~= rest);
            }
        }
        if last.0 != label {
            let out = rest.push(last);
            assert(out.drop_last() =~= rest);
            assert(out.last() == last);
            assert forall|k: int| 0 <= k < out.len() implies exists|i: int|
                0 <= i < entries.len() && entries[i] == #[trigger] out[k] by {
                if k < rest.len() {
                    assert(out[k] == rest[k]);
                    let i = choose|i: int| 0 <= i < entries.len() && entries[i] == rest[k];
                    assert(entries[i] == out[k]);
                } else {
                    assert(entries[entries.len() - 1] == out[k]);
                }
            }
            if one_per_label(entries) {
                assert forall|i: int, j: int| 0 <= i < j < front.len() implies (
                #[trigger] front[i]).0 != (#[trigger] front[j]).0 by {
                    assert(front[i] == entries[i]);
                    assert(front[j] == entries[j]);
                }
                assert forall|a: int, b: int| 0 <= a < b < out.len() implies (#[trigger] out[a]).0
                    != (#[trigger] out[b]).0 by {
                    if b < rest.len() {
                        assert(out[a] == rest[a]);
                        assert(out[b] == rest[b]);
                    } else {
                        assert(out[a] == rest[a]);
                        let i = choose|i: int| 0 <= i < front.len() && front[i] == rest[a];
                        assert(entries[i] == front[i]);
                        assert(entries[entries.len() - 1] == last);
                    }
                }
            }
        } else {
            if one_per_label(entries) {
                assert forall|i: int, j: int| 0 <= i < j < front.len() implies (
                #[trigger] front[i]).0 != (#[trigger] front[j]).0 by {
                    assert(front[i] == entries[i]);
                    assert(front[j] == entries[j]);
                }
            }
        }
    }
}

/// Taking out a label that is not there changes nothing.
pub proof fn lemma_without_absent(entries: Seq<LiveWindow>, label: Seq<char>)
    requires
        count_label(entries, label) == 0,
    ensures
        without_label(entries, label) == entries,
        ticket_of(entries, label) is None,
    decreases entries.len(),
{
    if entries.len() > 0 {
        lemma_without_absent(entries.drop_last(), label);
        assert(entries.drop_last().push(entries.last()) =~= entries);
    }
}

/// Where a label is carried once, taking it out removes that one entry.
pub proof fn lemma_without_is_remove(entries: Seq<LiveWindow>, i: int)
    requires
        0 <= i < entries.len(),
        one_per_label(entries),
    ensures
        without_label(entries, entries[i].0) == entries.remove(i),
        ticket_of(entries, entries[i].0) == Some(entries[i].1),
    decreases entries.len(),
{
    let label = entries[i].0;
    let front = entries.drop_last();
    assert forall|a: int, b: int| 0 <= a < b < front.len() implies (#[trigger] front[a]).0 != (
    #[trigger] front[b]).0 by {
        assert(front[a] == entries[a]);
        assert(front[b] == entries[b]);
    }
    if i == entries.len() - 1 {
        assert forall|k: int| 0 <= k < front.len() implies (#[trigger] front[k]).0 != label by {
            assert(front[k] == entries[k]);
        }
        lemma_count_zero(front, label);
        lemma_without_absent(front, label);
        assert(entries.remove(i) =~= front);
    } else {
        assert(entries[entries.len() - 1] == entries.last());
        assert(entries.last().0 != label);
        assert(front[i] == entries[i]);
        lemma_without_is_remove(front, i);
        assert(front.remove(i).push(entries.last()) =~= entries.remove(i));
    }
}

/// Requesting a window under a label twice in a row, with nothing closed in
/// between, leaves exactly one live window under that label: the second.
pub proof fn lemma_ensure_singleton_twice(
    entries: Seq<LiveWindow>,
    label: Seq<char>,
    first: u64,
    second: u64,
)
    ensures
        count_label(replaced(replaced(entries, label, first), label, second), label) == 1,
        ticket_of(replaced(replaced(entries, label, first), label, second), label) == Some(second),
        replaced(replaced(entries, label, first), label, second) == replaced(
            entries,
            label,
            second,
        ),
{
    let once = replaced(entries, label, first);
    let base = without_label(entries, label);
    lemma_replaced(entries, label, first);
    lemma_replaced(once, label, second);
    assert(once.drop_last() =~= base);
    lemma_without_label(entries, label);
    lemma_without_absent(base, label);
    assert(without_label(once, label) == base);
}

/// After a window has been requested under a label, that label counts one
/// and every other label counts what it did.
pub proof fn lemma_replaced(entries: Seq<LiveWindow>, label: Seq<char>, ticket: u64)
    ensures
        count_label(replaced(entries, label, ticket), label) == 1,
        ticket_of(replaced(entries, label, ticket), label) == Some(ticket),
        forall|other: Seq<char>|
            other != label ==> #[trigger] count_label(replaced(entries, label, ticket), other)
                == count_label(entries, other),
        one_per_label(entries) ==> one_per_label(replaced(entries, label, ticket)),
{
    let base = without_label(entries, label);
    let out = replaced(entries, label, ticket);
    lemma_without_label(entries, label);
    assert(out.drop_last() =~= base);
    assert(out.last() == (label, ticket));
    assert forall|other: Seq<char>| other != label implies #[trigger] count_label(out, other)
        == count_label(entries, other) by {
        assert(count_label(base, other) == count_label(entries, other));
    }
    if one_per_label(entries) {
        lemma_count_zero(base, label);
        assert forall|a: int, b: int| 0 <= a < b < out.len() implies (#[trigger] out[a]).0 != (
        #[trigger] out[b]).0 by {
            assert(out[a] == base[a]);
            if b < base.len() {
                assert(out[b] == base[b]);
            }
        }
    }
}

/// Closing a label twice is closing it once.
pub proof fn lemma_close_idempotent(entries: Seq<LiveWindow>, label: Seq<char>)
    ensures
        without_label(without_label(entries, label), label) == without_label(entries, label),
{
    lemma_without_label(entries, label);
    lemma_without_absent(without_label(entries, label), label);
}

/// In the order of materialising, the window is built first and hidden, is
/// shown once, and is never shown before it has been moved to its anchor;
/// nothing but the one `Show` makes it visible.
pub proof fn lemma_position_before_show(
    config: WindowConfigView,
    anchor: Option<(i64, i64)>,
    ready: bool,
)
    ensures
        steps_spec(config, anchor, ready)[0] == WindowStep::Build,
        !hidden(config).visible,
        forall|i: int|
            1 <= i < steps_spec(config, anchor, ready).len() ==> steps_spec(
                config,
                anchor,
                ready,
            )[i] != WindowStep::Build,
        forall|i: int, j: int|
            0 <= i < steps_spec(config, anchor, ready).len() && 0 <= j < steps_spec(
                config,
                anchor,
                ready,
            ).len() && steps_spec(config, anchor, ready)[i] is SetPosition && steps_spec(
                config,
                anchor,
                ready,
            )[j] == WindowStep::Show ==> i < j,
        forall|i: int, j: int|
            0 <= i < steps_spec(config, anchor, ready).len() && 0 <= j < steps_spec(
                config,
                anchor,
                ready,
            ).len() && steps_spec(config, anchor, ready)[i] == WindowStep::Show && steps_spec(
                config,
                anchor,
                ready,
            )[j] == WindowStep::Show ==> i == j,
        match anchor {
            Some(place) => steps_spec(config, anchor, ready)[1] == WindowStep::SignalPositioned
                && steps_spec(config, anchor, ready)[2] == position_step(place) && steps_spec(
                config,
                anchor,
                ready,
            )[3] == WindowStep::Show,
            None => steps_spec(config, anchor, ready)[1] == WindowStep::Show,
        },
{
}

} // verus!
