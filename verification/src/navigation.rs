use vstd::prelude::*;

verus! {

/// The keys the component browser reacts to.
#[derive(Clone, Copy, Debug, PartialEq, Eq, Structural)]
pub enum Key {
    Q,
    Left,
    Right,
    Other,
}

/// A window event, reduced to what the browser decides on. Events that carry
/// pointer coordinates are only tagged here; their coordinates stay with the
/// caller.
#[derive(Clone, Copy, Debug, PartialEq, Eq, Structural)]
pub enum BrowserEvent {
    /// The window was closed.
    Closed,
    /// A keyboard event; `key` is `None` where the key has no virtual code.
    KeyboardInput { key: Option<Key>, released: bool, ctrl: bool },
    /// The window was resized to the given size in pixels.
    Resized { width: u32, height: u32 },
    /// The pointer moved inside the window.
    CursorMoved,
    /// The left mouse button was pressed.
    LeftButtonPressed,
    /// Any other event.
    Other,
}

/// What the caller has to do after an event.
#[derive(Clone, Copy, Debug, PartialEq, Eq, Structural)]
pub enum BrowserAction {
    /// Leave the render loop.
    Quit,
    /// Build the drawable for the component at this index and fit the view
    /// to its bounding box.
    ShowComponent(usize),
    /// Hand the new window size to the view state.
    Resize { width: u32, height: u32 },
    /// Record the new pointer position in the view state.
    UpdateCursor,
    /// Report the schema coordinates under the pointer.
    ReportCursor,
    /// Nothing to do.
    Nothing,
}

/// State of the component browser: which of the library's components is
/// shown, and whether the render loop keeps running.
pub struct ComponentBrowser {
    index: usize,
    count: usize,
    running: bool,
}

/// The index that the browser moves to on "previous".
pub open spec fn spec_previous(index: nat) -> nat {
    if index > 0 { (index - 1) as nat } else { index }
}

/// The index that the browser moves to on "next", among `count` components.
pub open spec fn spec_next(index: nat, count: nat) -> nat {
    if index + 1 < count { index + 1 } else { index }
}

/// The state and action that follow an event, as a mathematical function of
/// the state `(index, count, running)`.
pub open spec fn spec_step(index: nat, count: nat, running: bool, event: BrowserEvent) -> (
    nat,
    bool,
    BrowserAction,
) {
    match event {
        BrowserEvent::Closed => (index, false, BrowserAction::Quit),
        BrowserEvent::KeyboardInput { key, released, ctrl } => {
            if key == Some(Key::Q) && ctrl {
                (index, false, BrowserAction::Quit)
            } else if key == Some(Key::Left) && released {
                if index > 0 {
                    (spec_previous(index), running, BrowserAction::ShowComponent(spec_previous(index) as usize))
                } else {
                    (index, running, BrowserAction::Nothing)
                }
            } else if key == Some(Key::Right) && released {
                if index + 1 < count {
                    (spec_next(index, count), running, BrowserAction::ShowComponent(spec_next(index, count) as usize))
                } else {
                    (index, running, BrowserAction::Nothing)
                }
            } else {
                (index, running, BrowserAction::Nothing)
            }
        },
        BrowserEvent::Resized { width, height } => (
            index,
            running,
            BrowserAction::Resize { width, height },
        ),
        BrowserEvent::CursorMoved => (index, running, BrowserAction::UpdateCursor),
        BrowserEvent::LeftButtonPressed => (index, running, BrowserAction::ReportCursor),
        BrowserEvent::Other => (index, running, BrowserAction::Nothing),
    }
}

impl ComponentBrowser {
    /// The browser is well formed when it shows one of its components.
    pub open spec fn wf(&self) -> bool {
        self.spec_index() < self.spec_count()
    }

    pub closed spec fn spec_index(&self) -> nat {
        self.index as nat
    }

    pub closed spec fn spec_count(&self) -> nat {
        self.count as nat
    }

    pub closed spec fn spec_running(&self) -> bool {
        self.running
    }

    /// A browser over `count` components, showing the first one and running.
    pub fn new(count: usize) -> (b: ComponentBrowser)
        requires
            count > 0,
        ensures
            b.wf(),
            b.spec_index() == 0,
            b.spec_count() == count,
            b.spec_running(),
    {
        ComponentBrowser { index: 0, count, running: true }
    }

    /// Index of the component that is shown.
    pub fn index(&self) -> (i: usize)
        ensures
            i == self.spec_index(),
    {
        self.index
    }

    /// Number of components that can be browsed.
    pub fn count(&self) -> (n: usize)
        ensures
            n == self.spec_count(),
    {
        self.count
    }

    /// Whether the render loop keeps running.
    pub fn is_running(&self) -> (r: bool)
        ensures
            r == self.spec_running(),
    {
        self.running
    }
}

impl ComponentBrowser {
    /// Moves to the previous component, if there is one; says whether the
    /// shown component changed.
    pub fn previous(&mut self) -> (moved: bool)
        requires
            old(self).wf(),
        ensures
            final(self).wf(),
            final(self).spec_index() == spec_previous(old(self).spec_index()),
            final(self).spec_count() == old(self).spec_count(),
            final(self).spec_running() == old(self).spec_running(),
            moved == (old(self).spec_index() > 0),
    {
        if self.index > 0 {
            self.index = self.index - 1;
            true
        } else {
            false
        }
    }

    /// Moves to the next component, if there is one; says whether the shown
    /// component changed.
    pub fn next(&mut self) -> (moved: bool)
        requires
            old(self).wf(),
        ensures
            final(self).wf(),
            final(self).spec_index() == spec_next(old(self).spec_index(), old(self).spec_count()),
            final(self).spec_count() == old(self).spec_count(),
            final(self).spec_running() == old(self).spec_running(),
            moved == (old(self).spec_index() + 1 < old(self).spec_count()),
    {
        if self.index < self.count - 1 {
            self.index = self.index + 1;
            true
        } else {
            false
        }
    }

    /// Decides on one window event: updates the shown component and the
    /// running flag, and returns what the caller has to do.
    pub fn handle(&mut self, event: BrowserEvent) -> (action: BrowserAction)
        requires
            old(self).wf(),
        ensures
            final(self).wf(),
            final(self).spec_count() == old(self).spec_count(),
            (final(self).spec_index(), final(self).spec_running(), action) == spec_step(
                old(self).spec_index(),
                old(self).spec_count(),
                old(self).spec_running(),
                event,
            ),
    {
        match event {
            BrowserEvent::Closed => {
                self.running = false;
                BrowserAction::Quit
            },
            BrowserEvent::KeyboardInput { key, released, ctrl } => {
                if key == Some(Key::Q) && ctrl {
                    self.running = false;
                    BrowserAction::Quit
                } else if key == Some(Key::Left) && released {
                    if self.previous() {
                        BrowserAction::ShowComponent(self.index)
                    } else {
                        BrowserAction::Nothing
                    }
                } else if key == Some(Key::Right) && released {
                    if self.next() {
                        BrowserAction::ShowComponent(self.index)
                    } else {
                        BrowserAction::Nothing
                    }
                } else {
                    BrowserAction::Nothing
                }
            },
            BrowserEvent::Resized { width, height } => BrowserAction::Resize { width, height },
            BrowserEvent::CursorMoved => BrowserAction::UpdateCursor,
            BrowserEvent::LeftButtonPressed => BrowserAction::ReportCursor,
            BrowserEvent::Other => BrowserAction::Nothing,
        }
    }
}

/// Every event keeps the shown index among the components, and an action that
/// asks to show a component names one that exists and is the one now shown.
pub proof fn lemma_step_stays_in_bounds(index: nat, count: nat, running: bool, event: BrowserEvent)
    requires
        index < count <= usize::MAX,
    ensures
        spec_step(index, count, running, event).0 < count,
        spec_step(index, count, running, event).2 matches BrowserAction::ShowComponent(j) ==> (
        j as nat) == spec_step(index, count, running, event).0,
{
}

/// Once the browser has stopped running, no event makes it run again.
pub proof fn lemma_stopped_stays_stopped(index: nat, count: nat, event: BrowserEvent)
    ensures
        !spec_step(index, count, false, event).1,
{
}

/// Going back one component and then forward one returns to where the browser
/// was, whenever there was a component to go back to.
pub proof fn lemma_previous_then_next(index: nat, count: nat)
    requires
        0 < index < count,
    ensures
        spec_next(spec_previous(index), count) == index,
{
}

/// Going forward one component and then back one returns to where the browser
/// was, whenever there was a component to go forward to.
pub proof fn lemma_next_then_previous(index: nat, count: nat)
    requires
        index + 1 < count,
    ensures
        spec_previous(spec_next(index, count)) == index,
{
}

/// A single event moves the shown index by at most one.
pub proof fn lemma_step_moves_at_most_one(index: nat, count: nat, running: bool, event: BrowserEvent)
    ensures
        spec_step(index, count, running, event).0 <= index + 1,
        index <= spec_step(index, count, running, event).0 + 1,
{
}

/// "Previous" steps back by exactly one component when there is one before
/// the shown one, and stays at the first component otherwise; "next" steps
/// forward by exactly one when there is one after the shown one, and stays at
/// the last component otherwise.
pub proof fn lemma_previous_next_move_by_one(index: nat, count: nat)
    ensures
        index > 0 ==> spec_previous(index) + 1 == index,
        index == 0 ==> spec_previous(index) == 0,
        index + 1 < count ==> spec_next(index, count) == index + 1,
        index + 1 >= count ==> spec_next(index, count) == index,
{
}

/// Only the release of an arrow key moves: a key that is pressed (not yet
/// released), unless it is Ctrl+Q, changes neither the shown component nor
/// the running flag and asks for nothing.
pub proof fn lemma_key_press_does_nothing(
    index: nat,
    count: nat,
    running: bool,
    key: Option<Key>,
    ctrl: bool,
)
    requires
        !(key == Some(Key::Q) && ctrl),
    ensures
        spec_step(
            index,
            count,
            running,
            BrowserEvent::KeyboardInput { key, released: false, ctrl },
        ) == (index, running, BrowserAction::Nothing),
{
}

/// Releasing Right shows the next component whenever there is one, and does
/// nothing on the last; releasing Left shows the previous component whenever
/// there is one, and does nothing on the first. Ctrl does not change this.
pub proof fn lemma_released_arrows_step_one(index: nat, count: nat, running: bool, ctrl: bool)
    requires
        index < count <= usize::MAX,
    ensures
        index + 1 < count ==> spec_step(
            index,
            count,
            running,
            BrowserEvent::KeyboardInput { key: Some(Key::Right), released: true, ctrl },
        ) == (index + 1, running, BrowserAction::ShowComponent((index + 1) as usize)),
        index + 1 == count ==> spec_step(
            index,
            count,
            running,
            BrowserEvent::KeyboardInput { key: Some(Key::Right), released: true, ctrl },
        ) == (index, running, BrowserAction::Nothing),
        index > 0 ==> spec_step(
            index,
            count,
            running,
            BrowserEvent::KeyboardInput { key: Some(Key::Left), released: true, ctrl },
        ) == ((index - 1) as nat, running, BrowserAction::ShowComponent((index - 1) as usize)),
        index == 0 ==> spec_step(
            index,
            count,
            running,
            BrowserEvent::KeyboardInput { key: Some(Key::Left), released: true, ctrl },
        ) == (index, running, BrowserAction::Nothing),
{
}

/// Closing the window or pressing Ctrl+Q (pressed or released) stops the
/// browser, asks to quit, and keeps the shown component.
pub proof fn lemma_quit_events(index: nat, count: nat, running: bool, released: bool)
    ensures
        spec_step(index, count, running, BrowserEvent::Closed) == (index, false, BrowserAction::Quit),
        spec_step(
            index,
            count,
            running,
            BrowserEvent::KeyboardInput { key: Some(Key::Q), released, ctrl: true },
        ) == (index, false, BrowserAction::Quit),
{
}

/// Every other event keeps the shown component and the running flag: a
/// resize is passed on with its size, a pointer move asks to record the
/// pointer, a left click asks to report it, and everything else, including
/// released keys other than the arrows and Ctrl+Q, asks for nothing.
pub proof fn lemma_other_events(
    index: nat,
    count: nat,
    running: bool,
    width: u32,
    height: u32,
    key: Option<Key>,
    ctrl: bool,
)
    requires
        key != Some(Key::Left) && key != Some(Key::Right),
        !(key == Some(Key::Q) && ctrl),
    ensures
        spec_step(index, count, running, BrowserEvent::Resized { width, height }) == (
            index,
            running,
            BrowserAction::Resize { width, height },
        ),
        spec_step(index, count, running, BrowserEvent::CursorMoved) == (
            index,
            running,
            BrowserAction::UpdateCursor,
        ),
        spec_step(index, count, running, BrowserEvent::LeftButtonPressed) == (
            index,
            running,
            BrowserAction::ReportCursor,
        ),
        spec_step(index, count, running, BrowserEvent::Other) == (
            index,
            running,
            BrowserAction::Nothing,
        ),
        spec_step(
            index,
            count,
            running,
            BrowserEvent::KeyboardInput { key, released: true, ctrl },
        ) == (index, running, BrowserAction::Nothing),
{
}

} // verus!
