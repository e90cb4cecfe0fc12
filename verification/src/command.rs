//! What the overlay asks of the window system, and what it hears back.
//!
//! The types that carry text are generic in how they hold it: vectors and
//! strings when they run, sequences when a contract speaks of them.

use vstd::prelude::*;

use crate::config::Config;

verus! {

#[derive(Clone, Copy, Debug, PartialEq, Eq, Structural)]
pub struct Point {
    pub x: i32,
    pub y: i32,
}

#[derive(Clone, Copy, Debug, PartialEq, Eq, Structural)]
pub struct Size {
    pub cx: i32,
    pub cy: i32,
}

#[derive(Clone, Copy, Debug, PartialEq, Eq, Structural)]
pub struct Rect {
    pub left: i32,
    pub top: i32,
    pub right: i32,
    pub bottom: i32,
}

/// One effect outside of the program. Handles are the integers that the window
/// system gave out.
#[derive(Debug, PartialEq, Eq)]
pub enum Command<T> {
    /// Mark the whole client area for repainting, without erasing it.
    Invalidate,
    BeginPaint,
    /// Fill the client area with one colour.
    FillClient { color: u32 },
    /// Draw with `font`, remembering the one before.
    SelectFont { font: isize },
    /// Leave the background behind drawn text as it is.
    KeepTextBackground,
    SetTextColor { color: u32 },
    TextOut { x: i32, y: i32, text: T },
    /// Draw with the remembered font again.
    RestoreFont,
    EndPaint,
    SetCapture,
    ReleaseCapture,
    SetExStyle { style: u32 },
    SetWindowPos { after: isize, x: i32, y: i32, cx: i32, cy: i32, flags: u32 },
    SaveConfig { config: Config },
    SetForeground,
    TrackMenu { menu: isize, flags: u32, x: i32, y: i32 },
    DestroyWindow,
    KillTimer { timer: usize },
    UnregisterHotKey { hotkey: i32 },
    RemoveTrayIcon,
    DeleteFont { font: isize },
    DestroyMenu { menu: isize },
    PostQuit { code: i32 },
}

/// A question whose answer decides how a message is handled further.
#[derive(Debug, PartialEq, Eq)]
pub enum Query<T> {
    /// Measure the CPU and memory usage anew.
    Usage,
    /// How large is this text in the selected font?
    TextExtent { text: T },
    /// Where is the window on the screen?
    WindowRect,
    /// Where is the cursor, now that the window is being dragged?
    DragCursor,
    /// Where is the cursor, now that the tray menu is to open?
    MenuCursor,
    /// Show the settings box and wait until it is dismissed.
    SettingsBox { message: &'static str, caption: &'static str, style: u32 },
}

/// The answer to a query.
#[derive(Debug, PartialEq, Eq)]
pub enum Reply<S> {
    /// The CPU usage in percent and the used memory in gigabytes, as digits.
    Usage { percent: S, gigabytes: S },
    TextExtent { size: Size },
    WindowRect { rect: Rect },
    DragCursor { at: Point },
    MenuCursor { at: Point },
    SettingsBox,
}

/// How the handling of a message goes on once the commands were carried out.
#[derive(Debug, PartialEq, Eq)]
pub enum Next<T> {
    /// The message is handled, with this result.
    Return { result: isize },
    /// The message is left to the window system's default handling.
    Default,
    /// The message is handled further when the query is answered.
    Await { query: Query<T> },
}

/// What is to be done about a message or an answer.
#[derive(Debug, PartialEq, Eq)]
pub struct Reaction {
    /// To be carried out in this order.
    pub commands: Vec<Command<Vec<u16>>>,
    pub next: Next<Vec<u16>>,
}

#[verifier::ext_equal]
pub struct ReactionView {
    pub commands: Seq<Command<Seq<u16>>>,
    pub next: Next<Seq<u16>>,
}

impl View for Command<Vec<u16>> {
    type V = Command<Seq<u16>>;

    open spec fn view(&self) -> Command<Seq<u16>> {
        match *self {
            Command::Invalidate => Command::Invalidate,
            Command::BeginPaint => Command::BeginPaint,
            Command::FillClient { color } => Command::FillClient { color },
            Command::SelectFont { font } => Command::SelectFont { font },
            Command::KeepTextBackground => Command::KeepTextBackground,
            Command::SetTextColor { color } => Command::SetTextColor { color },
            Command::TextOut { x, y, text } => Command::TextOut { x, y, text: text@ },
            Command::RestoreFont => Command::RestoreFont,
            Command::EndPaint => Command::EndPaint,
            Command::SetCapture => Command::SetCapture,
            Command::ReleaseCapture => Command::ReleaseCapture,
            Command::SetExStyle { style } => Command::SetExStyle { style },
            Command::SetWindowPos { after, x, y, cx, cy, flags } => Command::SetWindowPos {
                after,
                x,
                y,
                cx,
                cy,
                flags,
            },
            Command::SaveConfig { config } => Command::SaveConfig { config },
            Command::SetForeground => Command::SetForeground,
            Command::TrackMenu { menu, flags, x, y } => Command::TrackMenu { menu, flags, x, y },
            Command::DestroyWindow => Command::DestroyWindow,
            Command::KillTimer { timer } => Command::KillTimer { timer },
            Command::UnregisterHotKey { hotkey } => Command::UnregisterHotKey { hotkey },
            Command::RemoveTrayIcon => Command::RemoveTrayIcon,
            Command::DeleteFont { font } => Command::DeleteFont { font },
            Command::DestroyMenu { menu } => Command::DestroyMenu { menu },
            Command::PostQuit { code } => Command::PostQuit { code },
        }
    }
}

impl View for Query<Vec<u16>> {
    type V = Query<Seq<u16>>;

    open spec fn view(&self) -> Query<Seq<u16>> {
        match *self {
            Query::Usage => Query::Usage,
            Query::TextExtent { text } => Query::TextExtent { text: text@ },
            Query::WindowRect => Query::WindowRect,
            Query::DragCursor => Query::DragCursor,
            Query::MenuCursor => Query::MenuCursor,
            Query::SettingsBox { message, caption, style } => Query::SettingsBox {
                message,
                caption,
                style,
            },
        }
    }
}

impl View for Reply<String> {
    type V = Reply<Seq<char>>;

    open spec fn view(&self) -> Reply<Seq<char>> {
        match *self {
            Reply::Usage { percent, gigabytes } => Reply::Usage {
                percent: percent@,
                gigabytes: gigabytes@,
            },
            Reply::TextExtent { size } => Reply::TextExtent { size },
            Reply::WindowRect { rect } => Reply::WindowRect { rect },
            Reply::DragCursor { at } => Reply::DragCursor { at },
            Reply::MenuCursor { at } => Reply::MenuCursor { at },
            Reply::SettingsBox => Reply::SettingsBox,
        }
    }
}

impl View for Next<Vec<u16>> {
    type V = Next<Seq<u16>>;

    open spec fn view(&self) -> Next<Seq<u16>> {
        match *self {
            Next::Return { result } => Next::Return { result },
            Next::Default => Next::Default,
            Next::Await { query } => Next::Await { query: query@ },
        }
    }
}

/// Commands, with their texts as sequences.
pub open spec fn viewed(commands: Seq<Command<Vec<u16>>>) -> Seq<Command<Seq<u16>>> {
    commands.map_values(|command: Command<Vec<u16>>| command@)
}

impl View for Reaction {
    type V = ReactionView;

    open spec fn view(&self) -> ReactionView {
        ReactionView { commands: viewed(self.commands@), next: self.next@ }
    }
}

/// Whether a reply is of the kind that a query asks for.
pub open spec fn answers(query: Query<Seq<u16>>, reply: Reply<Seq<char>>) -> bool {
    match query {
        Query::Usage => reply is Usage,
        Query::TextExtent { .. } => reply is TextExtent,
        Query::WindowRect => reply is WindowRect,
        Query::DragCursor => reply is DragCursor,
        Query::MenuCursor => reply is MenuCursor,
        Query::SettingsBox { .. } => reply is SettingsBox,
    }
}

/// A command is seen with every one of its parameters, and a text with every one
/// of its units.
pub proof fn law_view_shows_the_command(command: Command<Vec<u16>>)
    ensures
        match command {
            Command::Invalidate => command@ is Invalidate,
            Command::BeginPaint => command@ is BeginPaint,
            Command::FillClient { color } => command@ == (Command::<Seq<u16>>::FillClient {
                color,
            }),
            Command::SelectFont { font } => command@ == (Command::<Seq<u16>>::SelectFont { font }),
            Command::KeepTextBackground => command@ is KeepTextBackground,
            Command::SetTextColor { color } => command@ == (Command::<Seq<u16>>::SetTextColor {
                color,
            }),
            Command::TextOut { x, y, text } => command@ == (Command::TextOut { x, y, text: text@ }),
            Command::RestoreFont => command@ is RestoreFont,
            Command::EndPaint => command@ is EndPaint,
            Command::SetCapture => command@ is SetCapture,
            Command::ReleaseCapture => command@ is ReleaseCapture,
            Command::SetExStyle { style } => command@ == (Command::<Seq<u16>>::SetExStyle {
                style,
            }),
            Command::SetWindowPos { after, x, y, cx, cy, flags } => command@ == (Command::<
                Seq<u16>,
            >::SetWindowPos { after, x, y, cx, cy, flags }),
            Command::SaveConfig { config } => command@ == (Command::<Seq<u16>>::SaveConfig {
                config,
            }),
            Command::SetForeground => command@ is SetForeground,
            Command::TrackMenu { menu, flags, x, y } => command@ == (Command::<
                Seq<u16>,
            >::TrackMenu { menu, flags, x, y }),
            Command::DestroyWindow => command@ is DestroyWindow,
            Command::KillTimer { timer } => command@ == (Command::<Seq<u16>>::KillTimer { timer }),
            Command::UnregisterHotKey { hotkey } => command@ == (Command::<
                Seq<u16>,
            >::UnregisterHotKey { hotkey }),
            Command::RemoveTrayIcon => command@ is RemoveTrayIcon,
            Command::DeleteFont { font } => command@ == (Command::<Seq<u16>>::DeleteFont { font }),
            Command::DestroyMenu { menu } => command@ == (Command::<Seq<u16>>::DestroyMenu {
                menu,
            }),
            Command::PostQuit { code } => command@ == (Command::<Seq<u16>>::PostQuit { code }),
        },
{
}

/// A query is seen with every one of its parameters, and how the handling goes on
/// is seen as it is.
pub proof fn law_view_shows_what_comes_next(next: Next<Vec<u16>>)
    ensures
        match next {
            Next::Return { result } => next@ == (Next::<Seq<u16>>::Return { result }),
            Next::Default => next@ is Default,
            Next::Await { query } => next@ matches Next::Await { query: seen } && match query {
                Query::Usage => seen is Usage,
                Query::TextExtent { text } => seen == (Query::TextExtent { text: text@ }),
                Query::WindowRect => seen is WindowRect,
                Query::DragCursor => seen is DragCursor,
                Query::MenuCursor => seen is MenuCursor,
                Query::SettingsBox { message, caption, style } => seen == (Query::<
                    Seq<u16>,
                >::SettingsBox { message, caption, style }),
            },
        },
{
}

/// A reply is seen with every one of its parameters.
pub proof fn law_view_shows_the_reply(reply: Reply<String>)
    ensures
        match reply {
            Reply::Usage { percent, gigabytes } => reply@ == (Reply::Usage {
                percent: percent@,
                gigabytes: gigabytes@,
            }),
            Reply::TextExtent { size } => reply@ == (Reply::<Seq<char>>::TextExtent { size }),
            Reply::WindowRect { rect } => reply@ == (Reply::<Seq<char>>::WindowRect { rect }),
            Reply::DragCursor { at } => reply@ == (Reply::<Seq<char>>::DragCursor { at }),
            Reply::MenuCursor { at } => reply@ == (Reply::<Seq<char>>::MenuCursor { at }),
            Reply::SettingsBox => reply@ is SettingsBox,
        },
{
}

/// A reaction is seen with all of its commands, in their order.
pub proof fn law_view_shows_the_reaction(reaction: Reaction, i: int)
    requires
        0 <= i < reaction.commands@.len(),
    ensures
        reaction@.commands.len() == reaction.commands@.len(),
        reaction@.commands[i] == reaction.commands@[i]@,
        reaction@.next == reaction.next@,
        viewed(reaction.commands@) == reaction@.commands,
{
}

/// Each kind of query has its own kind of reply.
pub proof fn law_each_query_has_its_reply(a: Query<Seq<u16>>, b: Query<Seq<u16>>)
    requires
        exists|reply: Reply<Seq<char>>| #[trigger] answers(a, reply) && answers(b, reply),
    ensures
        a is Usage == b is Usage,
        a is TextExtent == b is TextExtent,
        a is WindowRect == b is WindowRect,
        a is DragCursor == b is DragCursor,
        a is MenuCursor == b is MenuCursor,
        a is SettingsBox == b is SettingsBox,
{
}

} // verus!
