use vstd::prelude::*;

verus! {

/// Key value of the lower-case letter r, the key that rotates the hovered
/// component.
pub const KEY_R: u32 = 0x72;

/// Mouse button number of the primary (left) button.
pub const PRIMARY_BUTTON: u32 = 1;

/// A message of the main window, reduced to the plain values that the window
/// decides on. The GL context, the pointer position and the scroll deltas
/// stay with the caller.
#[derive(Clone, Copy, Debug, PartialEq, Eq, Structural)]
pub enum Msg {
    Quit,
    Realize,
    Unrealize,
    RenderGl,
    /// The drawing area was resized to `width` by `height` pixels at the
    /// given display scale factor.
    Resize { width: i32, height: i32, scale_factor: i32 },
    /// A mouse button was pressed.
    ButtonPressed { button: u32 },
    /// The pointer moved; `secondary_held` says whether the secondary (right)
    /// button was held, which drags the view along.
    MoveCursor { secondary_held: bool },
    /// The mouse wheel turned.
    ZoomOnSchema,
    /// A key was pressed.
    KeyDown { keyval: u32 },
}

/// What the window has to carry out for a message.
#[derive(Clone, Copy, Debug, PartialEq, Eq, Structural)]
pub enum Command {
    /// Leave the main loop.
    Quit,
    /// Only log that the message arrived.
    Log,
    /// Render a frame.
    Render,
    /// Adopt a new size: the title names the size, the view state gets `view_width` by `view_height`
    /// and the display scale factor, and the render target is recreated with
    /// `target_width` by `target_height` texels.
    Resize {
        view_width: u32,
        view_height: u32,
        scale_factor: i32,
        target_width: u16,
        target_height: u16,
    },
    /// Select the component under the cursor.
    SelectHovered,
    /// Drag the view by the pointer movement, then record the new pointer
    /// position.
    PanAndMoveCursor,
    /// Record the new pointer position.
    MoveCursor,
    /// Zoom the view by the wheel delta.
    Zoom,
    /// Rotate the component under the cursor by a quarter turn.
    RotateHovered,
    /// Nothing to carry out.
    Nothing,
}

/// A command and whether the views that follow the view state must be told
/// that it changed.
#[derive(Clone, Copy, Debug, PartialEq, Eq, Structural)]
pub struct Reaction {
    pub command: Command,
    pub notify_view_state: bool,
}

/// What the main window remembers of itself: the size of its drawing area,
/// its title, and whether the render context has been set up.
pub struct WindowModel {
    width: i32,
    height: i32,
    title: String,
    render_ready: bool,
}

/// One step of rendering a frame.
#[derive(Clone, Copy, Debug, PartialEq, Eq, Structural)]
pub enum RenderStep {
    /// Make the GL context current and note when the frame started.
    PrepareFrame,
    /// Load the schema named on the command line and fit the view to it.
    LoadSchema,
    /// Create the GL device, the pipelines and the render targets.
    SetupRenderContext,
    /// Draw the schema into the render targets.
    DrawFrame,
    /// Flush the commands and report the frame time.
    FinalizeFrame,
}

/// The steps of rendering a frame: the first frame also loads the schema and
/// sets up the render context, between preparing and drawing it.
pub open spec fn spec_render_steps(ready: bool) -> Seq<RenderStep> {
    if ready {
        seq![RenderStep::PrepareFrame, RenderStep::DrawFrame, RenderStep::FinalizeFrame]
    } else {
        seq![
            RenderStep::PrepareFrame,
            RenderStep::LoadSchema,
            RenderStep::SetupRenderContext,
            RenderStep::DrawFrame,
            RenderStep::FinalizeFrame,
        ]
    }
}

/// The reaction to a message, as a mathematical function of the message.
pub open spec fn spec_reaction(msg: Msg) -> Reaction {
    match msg {
        Msg::Quit => Reaction { command: Command::Quit, notify_view_state: false },
        Msg::Realize => Reaction { command: Command::Log, notify_view_state: false },
        Msg::Unrealize => Reaction { command: Command::Log, notify_view_state: false },
        Msg::RenderGl => Reaction { command: Command::Render, notify_view_state: false },
        Msg::Resize { width, height, scale_factor } => Reaction {
            command: Command::Resize {
                view_width: width as u32,
                view_height: height as u32,
                scale_factor,
                target_width: width as u16,
                target_height: height as u16,
            },
            notify_view_state: true,
        },
        Msg::ButtonPressed { button } => Reaction {
            command: if button == PRIMARY_BUTTON {
                Command::SelectHovered
            } else {
                Command::Nothing
            },
            notify_view_state: true,
        },
        Msg::MoveCursor { secondary_held } => Reaction {
            command: if secondary_held {
                Command::PanAndMoveCursor
            } else {
                Command::MoveCursor
            },
            notify_view_state: true,
        },
        Msg::ZoomOnSchema => Reaction { command: Command::Zoom, notify_view_state: true },
        Msg::KeyDown { keyval } => Reaction {
            command: if keyval == KEY_R {
                Command::RotateHovered
            } else {
                Command::Nothing
            },
            notify_view_state: false,
        },
    }
}

impl WindowModel {
    pub closed spec fn spec_width(&self) -> i32 {
        self.width
    }

    pub closed spec fn spec_height(&self) -> i32 {
        self.height
    }

    pub closed spec fn spec_title(&self) -> String {
        self.title
    }

    /// Width of the drawing area in pixels.
    pub fn width(&self) -> (w: i32)
        ensures
            w == self.spec_width(),
    {
        self.width
    }

    /// Height of the drawing area in pixels.
    pub fn height(&self) -> (h: i32)
        ensures
            h == self.spec_height(),
    {
        self.height
    }

    /// Title of the window.
    pub fn title(&self) -> (t: &String)
        ensures
            *t == self.spec_title(),
    {
        &self.title
    }

    /// Whether the render context has been set up.
    pub closed spec fn spec_render_ready(&self) -> bool {
        self.render_ready
    }

    /// The window before its first resize and first frame: zero by zero, with
    /// the viewer's title, and nothing set up for rendering.
    pub fn new() -> (m: WindowModel)
        ensures
            m.spec_width() == 0,
            m.spec_height() == 0,
            m.spec_title()@ == "Schema Renderer"@,
            !m.spec_render_ready(),
    {
        let title: &str = "Schema Renderer";
        WindowModel { width: 0, height: 0, title: title.to_owned(), render_ready: false }
    }

    /// Replaces the title, as the window does after a resize.
    pub fn set_title(&mut self, title: String)
        ensures
            final(self).spec_title() == title,
            final(self).spec_width() == old(self).spec_width(),
            final(self).spec_height() == old(self).spec_height(),
            final(self).spec_render_ready() == old(self).spec_render_ready(),
    {
        self.title = title;
    }

    /// The steps that rendering the next frame takes; after it the render
    /// context is set up.
    pub fn render_steps(&mut self) -> (steps: Vec<RenderStep>)
        ensures
            steps@ == spec_render_steps(old(self).spec_render_ready()),
            final(self).spec_render_ready(),
            final(self).spec_width() == old(self).spec_width(),
            final(self).spec_height() == old(self).spec_height(),
            final(self).spec_title() == old(self).spec_title(),
    {
        let mut steps: Vec<RenderStep> = Vec::new();
        steps.push(RenderStep::PrepareFrame);
        if !self.render_ready {
            steps.push(RenderStep::LoadSchema);
            steps.push(RenderStep::SetupRenderContext);
            self.render_ready = true;
        }
        steps.push(RenderStep::DrawFrame);
        steps.push(RenderStep::FinalizeFrame);
        steps
    }

    /// Decides how the window reacts to a message; a resize is remembered.
    pub fn update(&mut self, msg: Msg) -> (r: Reaction)
        ensures
            r == spec_reaction(msg),
            msg matches Msg::Resize { width, height, .. } ==> final(self).spec_width() == width
                && final(self).spec_height() == height,
            !(msg is Resize) ==> final(self).spec_width() == old(self).spec_width()
                && final(self).spec_height() == old(self).spec_height(),
            final(self).spec_title() == old(self).spec_title(),
            final(self).spec_render_ready() == old(self).spec_render_ready(),
    {
        match msg {
            Msg::Quit => Reaction { command: Command::Quit, notify_view_state: false },
            Msg::Realize => Reaction { command: Command::Log, notify_view_state: false },
            Msg::Unrealize => Reaction { command: Command::Log, notify_view_state: false },
            Msg::RenderGl => Reaction { command: Command::Render, notify_view_state: false },
            Msg::Resize { width, height, scale_factor } => {
                self.width = width;
                self.height = height;
                Reaction {
                    command: Command::Resize {
                        view_width: width as u32,
                        view_height: height as u32,
                        scale_factor,
                        target_width: self.width as u16,
                        target_height: self.height as u16,
                    },
                    notify_view_state: true,
                }
            },
            Msg::ButtonPressed { button } => {
                let command = if button == PRIMARY_BUTTON {
                    Command::SelectHovered
                } else {
                    Command::Nothing
                };
                Reaction { command, notify_view_state: true }
            },
            Msg::MoveCursor { secondary_held } => {
                let command = if secondary_held {
                    Command::PanAndMoveCursor
                } else {
                    Command::MoveCursor
                };
                Reaction { command, notify_view_state: true }
            },
            Msg::ZoomOnSchema => Reaction { command: Command::Zoom, notify_view_state: true },
            Msg::KeyDown { keyval } => {
                let command = if keyval == KEY_R {
                    Command::RotateHovered
                } else {
                    Command::Nothing
                };
                Reaction { command, notify_view_state: false }
            },
        }
    }
}

/// The schema is loaded and the render context set up on the first frame
/// only: every later frame just prepares, draws and finalizes.
pub proof fn lemma_setup_happens_once(ready: bool)
    ensures
        spec_render_steps(ready).contains(RenderStep::LoadSchema) <==> !ready,
        spec_render_steps(ready).contains(RenderStep::SetupRenderContext) <==> !ready,
        spec_render_steps(ready)[0] == RenderStep::PrepareFrame,
        spec_render_steps(ready).last() == RenderStep::FinalizeFrame,
{
    let s = spec_render_steps(ready);
    if ready {
        assert(s[0] != RenderStep::LoadSchema && s[1] != RenderStep::LoadSchema && s[2]
            != RenderStep::LoadSchema);
        assert(s[0] != RenderStep::SetupRenderContext && s[1] != RenderStep::SetupRenderContext
            && s[2] != RenderStep::SetupRenderContext);
    } else {
        assert(s[1] == RenderStep::LoadSchema);
        assert(s[2] == RenderStep::SetupRenderContext);
    }
}

/// The views that follow the view state are told of a change exactly after
/// a resize, a button press (whatever the button), a pointer move (whether or
/// not the view is dragged) and a wheel turn.
pub proof fn lemma_notify_exactly_on_view_changes(msg: Msg)
    ensures
        spec_reaction(msg).notify_view_state <==> ((msg is Resize) || (msg is ButtonPressed) || (
        msg is MoveCursor) || (msg is ZoomOnSchema)),
{
}

/// The command that each message asks for: a pointer move drags the view
/// exactly when the secondary button is held and records the pointer either
/// way; a button press selects exactly for the primary button; a key press
/// rotates exactly for the r key; a resize passes the size on, converted for
/// the view state and truncated for the render target.
pub proof fn lemma_commands_of_messages(
    width: i32,
    height: i32,
    scale_factor: i32,
    button: u32,
    secondary_held: bool,
    keyval: u32,
)
    ensures
        spec_reaction(Msg::Quit).command == Command::Quit,
        spec_reaction(Msg::Realize).command == Command::Log,
        spec_reaction(Msg::Unrealize).command == Command::Log,
        spec_reaction(Msg::RenderGl).command == Command::Render,
        spec_reaction(Msg::ZoomOnSchema).command == Command::Zoom,
        spec_reaction(Msg::Resize { width, height, scale_factor }).command == (Command::Resize {
            view_width: width as u32,
            view_height: height as u32,
            scale_factor,
            target_width: width as u16,
            target_height: height as u16,
        }),
        (spec_reaction(Msg::ButtonPressed { button }).command == Command::SelectHovered) <==> (
        button == 1),
        button != 1 ==> spec_reaction(Msg::ButtonPressed { button }).command == Command::Nothing,
        (spec_reaction(Msg::MoveCursor { secondary_held }).command == Command::PanAndMoveCursor)
            <==> secondary_held,
        !secondary_held ==> spec_reaction(Msg::MoveCursor { secondary_held }).command
            == Command::MoveCursor,
        (spec_reaction(Msg::KeyDown { keyval }).command == Command::RotateHovered) <==> (keyval
            == 0x72),
        keyval != 0x72 ==> spec_reaction(Msg::KeyDown { keyval }).command == Command::Nothing,
{
}

/// Every frame prepares first, draws, and finalizes last; the first frame
/// loads the schema and then sets up the render context between preparing
/// and drawing, and later frames do nothing else.
pub proof fn lemma_render_step_order(ready: bool)
    ensures
        ready ==> spec_render_steps(ready).len() == 3,
        !ready ==> spec_render_steps(ready).len() == 5,
        spec_render_steps(ready)[0] == RenderStep::PrepareFrame,
        spec_render_steps(ready)[spec_render_steps(ready).len() - 2] == RenderStep::DrawFrame,
        spec_render_steps(ready)[spec_render_steps(ready).len() - 1] == RenderStep::FinalizeFrame,
        !ready ==> spec_render_steps(ready)[1] == RenderStep::LoadSchema
            && spec_render_steps(ready)[2] == RenderStep::SetupRenderContext,
{
}

} // verus!
