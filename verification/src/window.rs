//! The window: its size, its close flag, and the frame loop's decisions.

use vstd::prelude::*;
use vstd::string::StringExecFns;
use crate::event::{Command, Event, Key, Action, policy, policy_commands, frame_tail, is_close_request};

verus! {

/// The context that every window asks the platform for.
#[derive(Clone, Copy, Debug, PartialEq, Eq, Structural)]
pub struct ContextRequest {
    pub major: u32,
    pub minor: u32,
    pub core_profile: bool,
    pub key_events: bool,
    pub resize_events: bool,
}

/// Why no window could be had.
#[derive(Clone, Copy, Debug, PartialEq, Eq, Structural)]
pub enum WindowError {
    /// A side of the requested size is zero or beyond what the platform can address.
    InvalidSize { width: u32, height: u32 },
    /// The platform could not create a window with the requested context.
    ContextUnavailable,
}

/// What a window is, to its contracts.
pub struct WindowView {
    pub title: Seq<char>,
    pub width: int,
    pub height: int,
    pub close_requested: bool,
}

#[derive(Clone, Debug)]
pub struct Window {
    title: String,
    width: i32,
    height: i32,
    close_requested: bool,
}

/// Whether a window of this size can be asked for.
pub open spec fn valid_size(width: u32, height: u32) -> bool {
    0 < width <= i32::MAX && 0 < height <= i32::MAX
}

/// The window after one event.
pub open spec fn after_event(w: WindowView, event: Event) -> WindowView {
    match event {
        Event::FramebufferResize { width, height } => WindowView {
            width: width as int,
            height: height as int,
            ..w
        },
        Event::KeyAction { key: Key::Escape, action: Action::Press } => WindowView {
            close_requested: true,
            ..w
        },
        _ => w,
    }
}

/// The window after a batch of events, taken in order.
pub open spec fn after_events(w: WindowView, events: Seq<Event>) -> WindowView
    decreases events.len(),
{
    if events.len() == 0 {
        w
    } else {
        after_event(after_events(w, events.drop_last()), events.last())
    }
}

/// The commands of one iteration: those of the events, then the callback,
/// the presentation and the poll.
pub open spec fn frame_commands(events: Seq<Event>) -> Seq<Command> {
    policy_commands(events) + frame_tail()
}

/// The views of the batches in `batches`.
pub open spec fn batch_views(batches: Seq<Vec<Event>>) -> Seq<Seq<Event>> {
    Seq::new(batches.len(), |i: int| batches[i]@)
}

/// The window after the loop has run on the batches from index `from` on:
/// one iteration per batch, until the close flag is set or no batch is left.
pub open spec fn loop_window(w: WindowView, batches: Seq<Seq<Event>>, from: int) -> WindowView
    decreases batches.len() - from,
{
    if w.close_requested || from < 0 || from >= batches.len() {
        w
    } else {
        loop_window(after_events(w, batches[from]), batches, from + 1)
    }
}

/// The commands that the loop issues on the batches from index `from` on.
pub open spec fn loop_commands(w: WindowView, batches: Seq<Seq<Event>>, from: int) -> Seq<Command>
    decreases batches.len() - from,
{
    if w.close_requested || from < 0 || from >= batches.len() {
        Seq::empty()
    } else {
        frame_commands(batches[from]) + loop_commands(
            after_events(w, batches[from]),
            batches,
            from + 1,
        )
    }
}

/// The number of iterations that the loop runs on the batches from index `from` on.
pub open spec fn loop_iterations(w: WindowView, batches: Seq<Seq<Event>>, from: int) -> nat
    decreases batches.len() - from,
{
    if w.close_requested || from < 0 || from >= batches.len() {
        0
    } else {
        1 + loop_iterations(after_events(w, batches[from]), batches, from + 1)
    }
}

/// The text that tells of a window error.
pub open spec fn window_error_text(error: WindowError) -> Seq<char> {
    match error {
        WindowError::InvalidSize { .. } => "Failed to create window: invalid size"@,
        WindowError::ContextUnavailable => "Failed to create window: no context"@,
    }
}

impl WindowError {
    /// The diagnostic message of the error.
    pub fn message(&self) -> (r: String)
        ensures
            r@ == window_error_text(*self),
    {
        match self {
            WindowError::InvalidSize { .. } => String::from_str(
                "Failed to create window: invalid size",
            ),
            WindowError::ContextUnavailable => String::from_str(
                "Failed to create window: no context",
            ),
        }
    }
}

impl View for Window {
    type V = WindowView;

    closed spec fn view(&self) -> WindowView {
        WindowView {
            title: self.title@,
            width: self.width as int,
            height: self.height as int,
            close_requested: self.close_requested,
        }
    }
}

impl Window {
    /// The context of the fixed version and profile, with key and resize events reported.
    pub open spec fn spec_context_request() -> ContextRequest {
        ContextRequest {
            major: 3,
            minor: 3,
            core_profile: true,
            key_events: true,
            resize_events: true,
        }
    }

    /// A window of the given title and size, open, or the reason why the size is refused.
    pub fn new(title: &str, width: u32, height: u32) -> (r: Result<Window, WindowError>)
        ensures
            valid_size(width, height) ==> r is Ok && r->Ok_0@ == (WindowView {
                title: title@,
                width: width as int,
                height: height as int,
                close_requested: false,
            }),
            !valid_size(width, height) ==> r == Err::<Window, WindowError>(
                WindowError::InvalidSize { width, height },
            ),
    {
        if width == 0 || height == 0 || width > 0x7fff_ffff || height > 0x7fff_ffff {
            return Err(WindowError::InvalidSize { width, height });
        }
        Ok(
            Window {
                title: String::from_str(title),
                width: width as i32,
                height: height as i32,
                close_requested: false,
            },
        )
    }

    /// Takes the platform's answer to the request for a window: the window
    /// where one was created with its context, else the error.
    pub fn confirm_context(self, created: bool) -> (r: Result<Window, WindowError>)
        ensures
            created ==> r is Ok && r->Ok_0@ == self@,
            !created ==> r == Err::<Window, WindowError>(WindowError::ContextUnavailable),
    {
        if created {
            Ok(self)
        } else {
            Err(WindowError::ContextUnavailable)
        }
    }

    /// What the host asks the platform for when it creates this window.
    pub fn context_request(&self) -> (r: ContextRequest)
        ensures
            r == Self::spec_context_request(),
    {
        ContextRequest {
            major: 3,
            minor: 3,
            core_profile: true,
            key_events: true,
            resize_events: true,
        }
    }

    /// Applies the built-in policies to one event.
    pub fn handle_event(&mut self, event: Event) -> (r: Option<Command>)
        ensures
            r == policy(event),
            final(self)@ == after_event(old(self)@, event),
    {
        match event {
            Event::FramebufferResize { width, height } => {
                self.width = width;
                self.height = height;
                Some(Command::SetViewport { x: 0, y: 0, width, height })
            },
            Event::KeyAction { key: Key::Escape, action: Action::Press } => {
                self.close_requested = true;
                Some(Command::RequestClose)
            },
            _ => None,
        }
    }

    /// Handles every event of a batch, in order, and returns the commands they call for.
    pub fn drain_events(&mut self, events: &Vec<Event>) -> (r: Vec<Command>)
        ensures
            r@ == policy_commands(events@),
            final(self)@ == after_events(old(self)@, events@),
    {
        let mut commands: Vec<Command> = Vec::new();
        let mut i: usize = 0;
        assert(events@.take(0) =~= Seq::<Event>::empty());
        while i < events.len()
            invariant
                i <= events.len(),
                commands@ == policy_commands(events@.take(i as int)),
                self@ == after_events(old(self)@, events@.take(i as int)),
            decreases events.len() - i,
        {
            let event = events[i];
            proof {
                let next = events@.take(i + 1);
                assert(next.drop_last() =~= events@.take(i as int));
                assert(next.last() == event);
            }
            match self.handle_event(event) {
                Some(c) => commands.push(c),
                None => {},
            }
            i += 1;
        }
        assert(events@.take(i as int) =~= events@);
        commands
    }

    /// One iteration of the loop: the events' commands, then the callback,
    /// the presentation and the poll.
    pub fn frame(&mut self, events: &Vec<Event>) -> (r: Vec<Command>)
        ensures
            r@ == frame_commands(events@),
            final(self)@ == after_events(old(self)@, events@),
    {
        let mut commands = self.drain_events(events);
        commands.push(Command::InvokeCallback);
        commands.push(Command::SwapBuffers);
        commands.push(Command::PollEvents);
        assert(commands@ =~= frame_commands(events@));
        commands
    }

    /// Runs the loop on the batches of events that arrive, one batch per
    /// iteration, until the close flag is set or no batch is left, and
    /// returns the commands of all iterations in order.
    pub fn render_loop(&mut self, batches: &Vec<Vec<Event>>) -> (r: Vec<Command>)
        ensures
            r@ == loop_commands(old(self)@, batch_views(batches@), 0),
            final(self)@ == loop_window(old(self)@, batch_views(batches@), 0),
    {
        let ghost all = batch_views(batches@);
        let mut commands: Vec<Command> = Vec::new();
        let mut i: usize = 0;
        while i < batches.len() && !self.close_requested
            invariant
                i <= batches.len(),
                all == batch_views(batches@),
                loop_commands(old(self)@, all, 0) == commands@ + loop_commands(self@, all, i as int),
                loop_window(old(self)@, all, 0) == loop_window(self@, all, i as int),
            decreases batches.len() - i,
        {
            let ghost before = commands@;
            let mut issued = self.frame(&batches[i]);
            assert(issued@ == frame_commands(all[i as int]));
            commands.append(&mut issued);
            i += 1;
            assert(before + (frame_commands(all[i - 1]) + loop_commands(self@, all, i as int))
                =~= commands@ + loop_commands(self@, all, i as int));
        }
        assert(commands@ + Seq::<Command>::empty() =~= commands@);
        commands
    }

    /// Whether the window was asked to close.
    pub fn should_close(&self) -> (r: bool)
        ensures
            r == self@.close_requested,
    {
        self.close_requested
    }

    /// Sets or clears the close flag, as the platform reports it.
    pub fn set_should_close(&mut self, value: bool)
        ensures
            final(self)@ == (WindowView { close_requested: value, ..old(self)@ }),
    {
        self.close_requested = value;
    }

    /// The size of the drawable surface, in pixels: width, then height.
    pub fn framebuffer_size(&self) -> (r: (i32, i32))
        ensures
            r.0 == self@.width,
            r.1 == self@.height,
    {
        (self.width, self.height)
    }

    /// The title that the window was created with.
    pub fn title(&self) -> (r: &str)
        ensures
            r@ == self@.title,
    {
        self.title.as_str()
    }
}

/// A resize event alone in a batch calls for exactly one viewport update, at
/// the origin and with the event's size, and changes nothing of the window
/// but its recorded size.
pub proof fn lemma_resize_updates_viewport_only(w: WindowView, width: i32, height: i32)
    ensures
        policy_commands(seq![Event::FramebufferResize { width, height }]) == seq![
            Command::SetViewport { x: 0, y: 0, width, height },
        ],
        after_events(w, seq![Event::FramebufferResize { width, height }]) == (WindowView {
            width: width as int,
            height: height as int,
            ..w
        }),
{
    let batch = seq![Event::FramebufferResize { width, height }];
    assert(batch.drop_last() =~= Seq::<Event>::empty());
    assert(policy_commands(batch.drop_last()) =~= Seq::<Command>::empty());
    assert(policy_commands(batch) =~= seq![Command::SetViewport { x: 0, y: 0, width, height }]);
    assert(after_events(w, batch.drop_last()) == w);
}

/// A press of Escape alone in a batch sets the close flag, calls for the
/// platform's flag to be set, and changes nothing else of the window.
pub proof fn lemma_escape_sets_close_flag(w: WindowView)
    ensures
        policy_commands(seq![Event::KeyAction { key: Key::Escape, action: Action::Press }])
            == seq![Command::RequestClose],
        after_events(w, seq![Event::KeyAction { key: Key::Escape, action: Action::Press }]) == (
        WindowView { close_requested: true, ..w }),
{
    let batch = seq![Event::KeyAction { key: Key::Escape, action: Action::Press }];
    assert(batch.drop_last() =~= Seq::<Event>::empty());
    assert(policy_commands(batch.drop_last()) =~= Seq::<Command>::empty());
    assert(policy_commands(batch) =~= seq![Command::RequestClose]);
    assert(after_events(w, batch.drop_last()) == w);
}

/// After a batch the close flag is set exactly when it was set before or the
/// batch holds a press of Escape; no event clears it, and none changes the title.
pub proof fn lemma_close_flag_after_events(w: WindowView, events: Seq<Event>)
    ensures
        after_events(w, events).close_requested <==> w.close_requested || exists|i: int|
            0 <= i < events.len() && is_close_request(#[trigger] events[i]),
        after_events(w, events).title == w.title,
    decreases events.len(),
{
    if events.len() > 0 {
        let init = events.drop_last();
        lemma_close_flag_after_events(w, init);
        if exists|i: int| 0 <= i < init.len() && is_close_request(#[trigger] init[i]) {
            let i = choose|i: int| 0 <= i < init.len() && is_close_request(#[trigger] init[i]);
            assert(is_close_request(events[i]));
        }
        if is_close_request(events.last()) {
            assert(is_close_request(events[events.len() - 1]));
        }
        if exists|i: int| 0 <= i < events.len() && is_close_request(#[trigger] events[i]) {
            let i = choose|i: int| 0 <= i < events.len() && is_close_request(#[trigger] events[i]);
            if i < init.len() {
                assert(is_close_request(init[i]));
            }
        }
    }
}

/// After a batch the recorded size is that of the batch's last resize event.
pub proof fn lemma_size_follows_last_resize(w: WindowView, events: Seq<Event>, i: int)
    requires
        0 <= i < events.len(),
        events[i] is FramebufferResize,
        forall|j: int| i < j < events.len() ==> !(#[trigger] events[j] is FramebufferResize),
    ensures
        events[i] matches Event::FramebufferResize { width, height } && after_events(
            w,
            events,
        ).width == width && after_events(w, events).height == height,
    decreases events.len(),
{
    if i < events.len() - 1 {
        let init = events.drop_last();
        assert(!(events[events.len() - 1] is FramebufferResize));
        assert forall|j: int| i < j < init.len() implies !(#[trigger] init[j] is FramebufferResize) by {
            assert(init[j] == events[j]);
        }
        lemma_size_follows_last_resize(w, init, i);
    }
}

/// A batch without a resize event leaves the recorded size as it is.
pub proof fn lemma_size_kept_without_resize(w: WindowView, events: Seq<Event>)
    requires
        forall|j: int| 0 <= j < events.len() ==> !(#[trigger] events[j] is FramebufferResize),
    ensures
        after_events(w, events).width == w.width,
        after_events(w, events).height == w.height,
    decreases events.len(),
{
    if events.len() > 0 {
        let init = events.drop_last();
        assert(!(events[events.len() - 1] is FramebufferResize));
        assert forall|j: int| 0 <= j < init.len() implies !(#[trigger] init[j] is FramebufferResize) by {
            assert(init[j] == events[j]);
        }
        lemma_size_kept_without_resize(w, init);
    }
}

/// On a window whose close flag is set the loop runs no iteration: it issues
/// no command and leaves the window as it is.
pub proof fn lemma_closed_window_runs_no_iteration(
    w: WindowView,
    batches: Seq<Seq<Event>>,
    from: int,
)
    requires
        w.close_requested,
    ensures
        loop_iterations(w, batches, from) == 0,
        loop_commands(w, batches, from) == Seq::<Command>::empty(),
        loop_window(w, batches, from) == w,
{
}

/// Where the batch of an iteration holds a press of Escape, that iteration is
/// the loop's last: the loop issues that iteration's commands and no more.
pub proof fn lemma_loop_stops_after_escape(w: WindowView, batches: Seq<Seq<Event>>, from: int)
    requires
        !w.close_requested,
        0 <= from < batches.len(),
        exists|i: int| 0 <= i < batches[from].len() && is_close_request(#[trigger] batches[from][i]),
    ensures
        loop_iterations(w, batches, from) == 1,
        loop_commands(w, batches, from) == frame_commands(batches[from]),
        loop_window(w, batches, from) == after_events(w, batches[from]),
        loop_window(w, batches, from).close_requested,
{
    lemma_close_flag_after_events(w, batches[from]);
    let next = after_events(w, batches[from]);
    lemma_closed_window_runs_no_iteration(next, batches, from + 1);
    assert(frame_commands(batches[from]) + Seq::<Command>::empty() =~= frame_commands(
        batches[from],
    ));
}

/// The loop ends with the close flag set or with every batch used, and it
/// never runs more iterations than there are batches.
pub proof fn lemma_loop_runs_until_closed(w: WindowView, batches: Seq<Seq<Event>>, from: int)
    requires
        0 <= from <= batches.len(),
    ensures
        loop_iterations(w, batches, from) <= batches.len() - from,
        loop_window(w, batches, from).close_requested || loop_iterations(w, batches, from)
            == batches.len() - from,
    decreases batches.len() - from,
{
    if !w.close_requested && from < batches.len() {
        lemma_loop_runs_until_closed(after_events(w, batches[from]), batches, from + 1);
    }
}

/// The number of times that `command` occurs in `commands`.
pub open spec fn occurrences(commands: Seq<Command>, command: Command) -> nat {
    commands.filter(same_as(command)).len()
}

/// The test for being `command`.
pub open spec fn same_as(command: Command) -> spec_fn(Command) -> bool {
    |c: Command| c == command
}

/// Every iteration invokes the callback once, presents once and polls once:
/// each of the three occurs in the loop's commands as often as the loop iterates.
pub proof fn lemma_one_callback_per_iteration(w: WindowView, batches: Seq<Seq<Event>>, from: int)
    requires
        0 <= from <= batches.len(),
    ensures
        occurrences(loop_commands(w, batches, from), Command::InvokeCallback) == loop_iterations(
            w,
            batches,
            from,
        ),
        occurrences(loop_commands(w, batches, from), Command::SwapBuffers) == loop_iterations(
            w,
            batches,
            from,
        ),
        occurrences(loop_commands(w, batches, from), Command::PollEvents) == loop_iterations(
            w,
            batches,
            from,
        ),
    decreases batches.len() - from,
{
    if !w.close_requested && from < batches.len() {
        let rest = loop_commands(after_events(w, batches[from]), batches, from + 1);
        lemma_one_callback_per_iteration(after_events(w, batches[from]), batches, from + 1);
        lemma_frame_occurrences(batches[from], rest, Command::InvokeCallback);
        lemma_frame_occurrences(batches[from], rest, Command::SwapBuffers);
        lemma_frame_occurrences(batches[from], rest, Command::PollEvents);
    } else {
        assert(Seq::<Command>::empty().filter(same_as(Command::InvokeCallback)).len() == 0);
        assert(Seq::<Command>::empty().filter(same_as(Command::SwapBuffers)).len() == 0);
        assert(Seq::<Command>::empty().filter(same_as(Command::PollEvents)).len() == 0);
    }
}

/// The events of a batch call for no callback, presentation or poll.
proof fn lemma_policy_commands_hold_no_tail(events: Seq<Event>, command: Command)
    requires
        command == Command::InvokeCallback || command == Command::SwapBuffers || command
            == Command::PollEvents,
    ensures
        occurrences(policy_commands(events), command) == 0,
    decreases events.len(),
{
    let pred = same_as(command);
    if events.len() > 0 {
        lemma_policy_commands_hold_no_tail(events.drop_last(), command);
        let head = policy_commands(events.drop_last());
        match policy(events.last()) {
            Some(c) => {
                assert(head.push(c) =~= head + seq![c]);
                Seq::filter_distributes_over_add(head, seq![c], pred);
                lemma_filter_one(c, command);
            },
            None => {},
        }
    } else {
        assert(Seq::<Command>::empty().filter(pred).len() == 0);
    }
}

/// A sequence of one command holds `command` once if it is that command, else not at all.
proof fn lemma_filter_one(c: Command, command: Command)
    ensures
        occurrences(seq![c], command) == (if c == command { 1nat } else { 0nat }),
{
    let pred = same_as(command);
    let one = seq![c];
    reveal(Seq::filter);
    assert(one.drop_last() =~= Seq::<Command>::empty());
    assert(one.drop_last().filter(pred) =~= Seq::<Command>::empty());
    assert(one.last() == c);
}

/// One iteration's commands, followed by `rest`, hold each of the three
/// closing commands once more than `rest` does.
proof fn lemma_frame_occurrences(events: Seq<Event>, rest: Seq<Command>, command: Command)
    requires
        command == Command::InvokeCallback || command == Command::SwapBuffers || command
            == Command::PollEvents,
    ensures
        occurrences(frame_commands(events) + rest, command) == 1 + occurrences(rest, command),
{
    let pred = same_as(command);
    let a = seq![Command::InvokeCallback];
    let b = seq![Command::SwapBuffers];
    let c = seq![Command::PollEvents];
    lemma_policy_commands_hold_no_tail(events, command);
    lemma_filter_one(Command::InvokeCallback, command);
    lemma_filter_one(Command::SwapBuffers, command);
    lemma_filter_one(Command::PollEvents, command);
    assert(frame_tail() =~= (a + b) + c);
    Seq::filter_distributes_over_add(a, b, pred);
    Seq::filter_distributes_over_add(a + b, c, pred);
    Seq::filter_distributes_over_add(policy_commands(events), frame_tail(), pred);
    Seq::filter_distributes_over_add(frame_commands(events), rest, pred);
}

} // verus!
