//! The state of the event loop, and what each event makes of it.

use crate::effect::{Effect, OutputMode, ScaleChoice, REFRESH_MHZ};
use crate::connections::Connection;
use crate::menu_bar;
use crate::messages::{ChannelView, Channels, ChannelsView, CompositorMessage, Receiver, Sender};
use vstd::prelude::*;

verus! {

/// The shortest time between two frames, in nanoseconds: about sixty frames a
/// second.
pub const FRAME_NS: u128 = 16_000_000;

/// How long to wait after a client failed to connect, in milliseconds.
pub const ACCEPT_RETRY_MS: u64 = 10;

/// What the event loop remembers from one event to the next. Times are in
/// nanoseconds since the program started.
#[derive(Clone, Copy, Debug, PartialEq, Eq, Structural)]
pub struct Session {
    /// Whether clients are laid out in logical rather than physical pixels.
    pub hidpi: bool,
    /// The size of the window, in physical pixels.
    pub width: u32,
    pub height: u32,
    /// The size of the view that the last frame was laid out for, in logical
    /// pixels.
    pub layout_width: i32,
    pub layout_height: i32,
    /// When the last frame was asked for.
    pub last_frame: u128,
    /// Whether the menu bar is still to be installed.
    pub menu_pending: bool,
}

/// An event of the window.
#[derive(Clone, Copy, Debug, PartialEq, Eq, Structural)]
pub enum WindowEvent {
    /// The window has a new size, in physical pixels.
    Resized { width: u32, height: u32 },
    /// The window moved to a screen with another scale factor.
    ScaleFactorChanged,
    /// The user asked to close the window.
    CloseRequested,
}

/// A size as the protocol has it: the same 32 bits, read as signed.
pub open spec fn signed_size(size: u32) -> int {
    if size <= i32::MAX {
        size as int
    } else {
        size - 0x1_0000_0000
    }
}

/// The mode of an output that fills a window of this size.
pub open spec fn mode_of(width: u32, height: u32) -> OutputMode {
    OutputMode {
        width: signed_size(width) as i32,
        height: signed_size(height) as i32,
        refresh: REFRESH_MHZ,
    }
}

/// Reads the bits of a size as signed.
fn to_signed(size: u32) -> (signed: i32)
    ensures
        signed == signed_size(size),
{
    assert(#[verifier::truncate] (size as i32) == (if size <= 0x7fff_ffff {
        size as int
    } else {
        size - 0x1_0000_0000
    })) by (bit_vector);
    #[verifier::truncate]
    (size as i32)
}

/// The mode of an output that fills a window of this size.
pub fn output_mode(width: u32, height: u32) -> (mode: OutputMode)
    ensures
        mode == mode_of(width, height),
{
    OutputMode { width: to_signed(width), height: to_signed(height), refresh: REFRESH_MHZ }
}

impl Session {
    /// The scale factor that the display mode calls for.
    pub open spec fn scale(self) -> ScaleChoice {
        if self.hidpi {
            ScaleChoice::System
        } else {
            ScaleChoice::Unit
        }
    }

    /// The session after a message: only a switch of the display mode changes
    /// it.
    pub open spec fn after_message(self, msg: CompositorMessage) -> Session {
        match msg {
            CompositorMessage::ToggleHiDpi => Session { hidpi: !self.hidpi, ..self },
            _ => self,
        }
    }

    /// What a message makes the program do.
    pub open spec fn message_effects(self, msg: CompositorMessage) -> Seq<Effect> {
        match msg {
            CompositorMessage::Maximize(on) => seq![Effect::SetMaximized(on)],
            CompositorMessage::Fullscreen(on) => seq![Effect::SetFullscreen(on)],
            CompositorMessage::ToggleHiDpi => seq![
                Effect::SetScale(self.after_message(msg).scale()),
                Effect::AdvertiseScale,
                Effect::FitView {
                    physical_width: self.width as i64,
                    physical_height: self.height as i64,
                },
                Effect::RequestTileSizes,
                Effect::RequestRedraw,
            ],
            CompositorMessage::Connect(i) => seq![Effect::OpenConnection(i)],
        }
    }

    /// The session after several messages, oldest first.
    pub open spec fn after_messages(self, msgs: Seq<CompositorMessage>) -> Session
        decreases msgs.len(),
    {
        if msgs.len() == 0 {
            self
        } else {
            self.after_message(msgs[0]).after_messages(msgs.drop_first())
        }
    }

    /// What several messages make the program do, oldest first.
    pub open spec fn messages_effects(self, msgs: Seq<CompositorMessage>) -> Seq<Effect>
        decreases msgs.len(),
    {
        if msgs.len() == 0 {
            Seq::empty()
        } else {
            self.message_effects(msgs[0]) + self.after_message(msgs[0]).messages_effects(
                msgs.drop_first(),
            )
        }
    }

    /// The session after a window event.
    pub open spec fn after_window_event(self, event: WindowEvent) -> Session {
        match event {
            WindowEvent::Resized { width, height } => Session { width, height, ..self },
            _ => self,
        }
    }

    /// The session after a frame was laid out for a view of this size.
    pub open spec fn laid_out(self, width: i32, height: i32) -> Session {
        Session { layout_width: width, layout_height: height, ..self }
    }

    /// What a frame for a view of this size makes the program do: the layout
    /// follows if the last frame had another size.
    pub open spec fn layout_effects(self, width: i32, height: i32) -> Seq<Effect> {
        if width == self.layout_width && height == self.layout_height {
            Seq::empty()
        } else {
            seq![Effect::SetViewSize { logical_width: width, logical_height: height }]
        }
    }

    /// Whether it is time for a new frame.
    pub open spec fn frame_is_due(self, now: u128) -> bool {
        now - self.last_frame >= FRAME_NS
    }

    /// The session after a look at the frame timer.
    pub open spec fn after_timer(self, now: u128) -> Session {
        if self.frame_is_due(now) {
            Session { last_frame: now, ..self }
        } else {
            self
        }
    }

    /// What a look at the frame timer makes the program do: a frame if one is
    /// due, and otherwise a sleep until then.
    pub open spec fn timer_effects(self, now: u128) -> Seq<Effect> {
        if self.frame_is_due(now) {
            seq![Effect::RequestRedraw]
        } else {
            seq![Effect::WaitUntil((self.last_frame + FRAME_NS) as u128)]
        }
    }

    /// The session after the program was resumed.
    pub open spec fn after_resume(self) -> Session {
        Session { menu_pending: false, ..self }
    }

    /// What a resume makes the program do.
    pub open spec fn resume_effects(self) -> Seq<Effect> {
        if self.menu_pending {
            seq![Effect::InstallMenu]
        } else {
            Seq::empty()
        }
    }

    /// The session after `n` resumes.
    pub open spec fn after_resumes(self, n: nat) -> Session
        decreases n,
    {
        if n == 0 {
            self
        } else {
            self.after_resumes((n - 1) as nat).after_resume()
        }
    }

    /// What `n` resumes make the program do.
    pub open spec fn resumes_effects(self, n: nat) -> Seq<Effect>
        decreases n,
    {
        if n == 0 {
            Seq::empty()
        } else {
            self.resumes_effects((n - 1) as nat) + self.after_resumes(
                (n - 1) as nat,
            ).resume_effects()
        }
    }

    /// The times, out of `times`, at which a frame is asked for when the timer
    /// is looked at.
    pub open spec fn frame_times(self, times: Seq<u128>) -> Seq<u128>
        decreases times.len(),
    {
        if times.len() == 0 {
            Seq::empty()
        } else if self.frame_is_due(times[0]) {
            seq![times[0]] + self.after_timer(times[0]).frame_times(times.drop_first())
        } else {
            self.frame_times(times.drop_first())
        }
    }

    /// The session of a program that opens a window of this size at time `now`:
    /// normal display mode, nothing laid out, no menu bar.
    pub fn new(width: u32, height: u32, now: u128) -> (session: Session)
        ensures
            session == (Session {
                hidpi: false,
                width,
                height,
                layout_width: 0,
                layout_height: 0,
                last_frame: now,
                menu_pending: true,
            }),
    {
        Session {
            hidpi: false,
            width,
            height,
            layout_width: 0,
            layout_height: 0,
            last_frame: now,
            menu_pending: true,
        }
    }

    /// Announces the output when the program starts.
    pub fn start(&self) -> (effects: Vec<Effect>)
        ensures
            effects@ == seq![
                Effect::AdvertiseMode(mode_of(self.width, self.height)),
                Effect::PreferMode(mode_of(self.width, self.height)),
            ],
    {
        let mode = output_mode(self.width, self.height);
        vec![Effect::AdvertiseMode(mode), Effect::PreferMode(mode)]
    }

    /// Handles one message.
    pub fn on_message(&mut self, msg: CompositorMessage) -> (effects: Vec<Effect>)
        ensures
            effects@ == old(self).message_effects(msg),
            *final(self) == old(self).after_message(msg),
    {
        match msg {
            CompositorMessage::Maximize(on) => vec![Effect::SetMaximized(on)],
            CompositorMessage::Fullscreen(on) => vec![Effect::SetFullscreen(on)],
            CompositorMessage::ToggleHiDpi => {
                self.hidpi = !self.hidpi;
                let scale = if self.hidpi {
                    ScaleChoice::System
                } else {
                    ScaleChoice::Unit
                };
                vec![
                    Effect::SetScale(scale),
                    Effect::AdvertiseScale,
                    Effect::FitView {
                    physical_width: self.width as i64,
                    physical_height: self.height as i64,
                },
                    Effect::RequestTileSizes,
                    Effect::RequestRedraw,
                ]
            },
            CompositorMessage::Connect(i) => vec![Effect::OpenConnection(i)],
        }
    }

    /// Handles every message that waits, oldest first.
    pub fn on_messages(&mut self, channels: &mut Channels, receiver: &Receiver) -> (effects: Vec<
        Effect,
    >)
        ensures
            effects@ == old(self).messages_effects(old(channels)@.at(receiver.channel()).queue),
            *final(self) == old(self).after_messages(old(channels)@.at(receiver.channel()).queue),
            final(channels)@ == old(channels)@.with(
                receiver.channel(),
                old(channels)@.at(receiver.channel()).drained(),
            ),
    {
        let ghost start = channels@;
        let ghost channel = start.at(receiver.channel());
        let ghost session = *self;
        let mut effects: Vec<Effect> = Vec::new();
        assert(start.with(receiver.channel(), channel) =~= start);
        loop
            invariant
                channel == start.at(receiver.channel()),
                channels@ == start.with(
                    receiver.channel(),
                    ChannelView { queue: channels@.at(receiver.channel()).queue, ..channel },
                ),
                effects@ + self.messages_effects(channels@.at(receiver.channel()).queue)
                    == session.messages_effects(channel.queue),
                self.after_messages(channels@.at(receiver.channel()).queue)
                    == session.after_messages(channel.queue),
            ensures
                channels@ == start.with(receiver.channel(), channel.drained()),
                effects@ == session.messages_effects(channel.queue),
                *self == session.after_messages(channel.queue),
            decreases channels@.at(receiver.channel()).queue.len(),
        {
            let ghost before = *self;
            let ghost done = effects@;
            let ghost waiting = channels@;
            match channels.receive(receiver) {
                Ok(msg) => {
                    let mut more = self.on_message(msg);
                    effects.append(&mut more);
                    let ghost left = channels@.at(receiver.channel()).queue;
                    assert(channels@ =~= start.with(
                        receiver.channel(),
                        ChannelView { queue: left, ..channel },
                    ));
                    assert(effects@ + self.messages_effects(left) =~= done + (
                    before.message_effects(msg) + self.messages_effects(left)));
                },
                Err(_) => {
                    let ghost left = waiting.at(receiver.channel()).queue;
                    assert(left =~= Seq::<CompositorMessage>::empty());
                    assert(effects@ + self.messages_effects(left) =~= effects@);
                    assert(channels@ =~= start.with(receiver.channel(), channel.drained()));
                    break;
                },
            }
        }
        effects
    }

    /// Handles a window event. A new size keeps the display mode.
    pub fn on_window_event(&mut self, event: WindowEvent) -> (effects: Vec<Effect>)
        ensures
            *final(self) == old(self).after_window_event(event),
            effects@ == (match event {
                WindowEvent::Resized { width, height } => seq![
                    Effect::ResizeRenderer { width, height },
                    Effect::AdvertiseMode(mode_of(width, height)),
                    Effect::FitView {
                        physical_width: signed_size(width) as i64,
                        physical_height: signed_size(height) as i64,
                    },
                    Effect::RequestTileSizes,
                ],
                WindowEvent::ScaleFactorChanged => seq![Effect::AdoptScaleFactor],
                WindowEvent::CloseRequested => seq![Effect::Exit],
            }),
    {
        match event {
            WindowEvent::Resized { width, height } => {
                self.width = width;
                self.height = height;
                let mode = output_mode(width, height);
                vec![
                    Effect::ResizeRenderer { width, height },
                    Effect::AdvertiseMode(mode),
                    Effect::FitView {
                        physical_width: mode.width as i64,
                        physical_height: mode.height as i64,
                    },
                    Effect::RequestTileSizes,
                ]
            },
            WindowEvent::ScaleFactorChanged => vec![Effect::AdoptScaleFactor],
            WindowEvent::CloseRequested => vec![Effect::Exit],
        }
    }

    /// A frame is about to be drawn in a view of this many logical pixels: the
    /// layout follows if the last frame had another size.
    pub fn on_layout(&mut self, width: i32, height: i32) -> (effects: Vec<Effect>)
        ensures
            *final(self) == old(self).laid_out(width, height),
            effects@ == old(self).layout_effects(width, height),
    {
        if width == self.layout_width && height == self.layout_height {
            vec![]
        } else {
            self.layout_width = width;
            self.layout_height = height;
            vec![Effect::SetViewSize { logical_width: width, logical_height: height }]
        }
    }

    /// The requests of the clients were dispatched, with or without success: the
    /// answers are flushed, and the frame timer is looked at after that.
    pub fn on_dispatched(&self, success: bool) -> (effects: Vec<Effect>)
        ensures
            effects@ == (if success {
                seq![Effect::FlushClients, Effect::CheckTimer]
            } else {
                seq![Effect::CheckTimer]
            }),
    {
        if success {
            vec![Effect::FlushClients, Effect::CheckTimer]
        } else {
            vec![Effect::CheckTimer]
        }
    }

    /// Looks at the frame timer at time `now`: asks for a frame if one is due,
    /// and otherwise to be woken when it is.
    pub fn on_timer(&mut self, now: u128) -> (effects: Vec<Effect>)
        requires
            old(self).last_frame <= u128::MAX - FRAME_NS,
        ensures
            *final(self) == old(self).after_timer(now),
            effects@ == old(self).timer_effects(now),
    {
        if now >= self.last_frame && now - self.last_frame >= FRAME_NS {
            self.last_frame = now;
            vec![Effect::RequestRedraw]
        } else {
            vec![Effect::WaitUntil(self.last_frame + FRAME_NS)]
        }
    }

    /// The program was resumed: the first time, the menu bar is installed.
    pub fn on_resumed(&mut self) -> (effects: Vec<Effect>)
        ensures
            *final(self) == old(self).after_resume(),
            effects@ == old(self).resume_effects(),
    {
        if self.menu_pending {
            self.menu_pending = false;
            vec![Effect::InstallMenu]
        } else {
            vec![]
        }
    }
}

/// What came of waiting for a client.
#[derive(Clone, Copy, Debug, PartialEq, Eq, Structural)]
pub enum Accepted {
    /// A client connected.
    Client,
    /// No client was there.
    Nobody,
    /// The socket failed.
    Failure,
}

/// What the thread that waits for clients does next.
#[derive(Clone, Copy, Debug, PartialEq, Eq, Structural)]
pub enum AcceptStep {
    /// Add the client to the display.
    InsertClient,
    /// Try again.
    Retry,
    /// Sleep for this many milliseconds, and try again.
    Sleep(u64),
}

/// What to do after waiting for a client.
pub fn on_accept(accepted: Accepted) -> (step: AcceptStep)
    ensures
        step == (match accepted {
            Accepted::Client => AcceptStep::InsertClient,
            Accepted::Nobody => AcceptStep::Retry,
            Accepted::Failure => AcceptStep::Sleep(ACCEPT_RETRY_MS),
        }),
{
    match accepted {
        Accepted::Client => AcceptStep::InsertClient,
        Accepted::Nobody => AcceptStep::Retry,
        Accepted::Failure => AcceptStep::Sleep(ACCEPT_RETRY_MS),
    }
}

/// How many of the messages switch the display mode.
pub open spec fn toggles(msgs: Seq<CompositorMessage>) -> nat
    decreases msgs.len(),
{
    if msgs.len() == 0 {
        0
    } else {
        toggles(msgs.drop_first()) + (if msgs[0] == CompositorMessage::ToggleHiDpi {
            1nat
        } else {
            0nat
        })
    }
}

/// The state of a check mark that shows the display mode.
pub open spec fn check_mark(session: Session) -> isize {
    if session.hidpi {
        1
    } else {
        0
    }
}

proof fn lemma_flip_first(state: isize, n: nat)
    ensures
        menu_bar::flipped_times(menu_bar::flipped(state), n) == menu_bar::flipped_times(state, n + 1),
    decreases n,
{
    reveal_with_fuel(menu_bar::flipped_times, 2);
    if n > 0 {
        lemma_flip_first(state, (n - 1) as nat);
    }
}

/// The check mark of the "HiDPI Display" item shows the display mode: if it does
/// so once, it still does after any messages were handled and the item was
/// chosen once for each switch among them.
pub proof fn law_check_mark_shows_mode(session: Session, msgs: Seq<CompositorMessage>)
    ensures
        check_mark(session.after_messages(msgs)) == menu_bar::flipped_times(
            check_mark(session),
            toggles(msgs),
        ),
    decreases msgs.len(),
{
    if msgs.len() > 0 {
        law_check_mark_shows_mode(session.after_message(msgs[0]), msgs.drop_first());
        lemma_flip_first(check_mark(session), toggles(msgs.drop_first()));
    }
}

/// Choosing the item of a saved connection opens that connection, after
/// everything that was asked for before: the item's tag, the message it sends and
/// the effect of the message all name the same entry of the list.
pub proof fn law_item_opens_its_connection(
    session: Session,
    channels: ChannelsView,
    sender: Sender,
    connections: Seq<Connection>,
    i: usize,
)
    requires
        channels.knows(sender),
        channels.at(sender.channel()).listening,
        i < connections.len(),
    ensures
        ({
            let item = menu_bar::connections_menu_view(connections).items[2 + i];
            let after = channels.sent(Some(sender), menu_bar::connect_message(item.tag));
            &&& item.title == connections[i as int]@.name
            &&& session.messages_effects(after.at(sender.channel()).queue)
                == session.messages_effects(channels.at(sender.channel()).queue).push(
                Effect::OpenConnection(i),
            )
        }),
{
    menu_bar::law_item_asks_for_its_connection(connections, i);
    let queue = channels.at(sender.channel()).queue;
    let msgs = seq![CompositorMessage::Connect(i)];
    let last = session.after_messages(queue);
    law_messages_are_handled_in_order(session, queue, msgs);
    assert(queue.push(CompositorMessage::Connect(i)) =~= queue + msgs);
    assert(msgs.drop_first() =~= Seq::<CompositorMessage>::empty());
    assert(last.messages_effects(msgs) =~= seq![Effect::OpenConnection(i)]) by {
        reveal_with_fuel(Session::messages_effects, 2);
    }
    assert(session.messages_effects(queue) + seq![Effect::OpenConnection(i)]
        =~= session.messages_effects(queue).push(Effect::OpenConnection(i)));
}

/// Messages change nothing but the display mode.
pub proof fn law_messages_keep_the_rest(session: Session, msgs: Seq<CompositorMessage>)
    ensures
        session.after_messages(msgs) == (Session {
            hidpi: session.after_messages(msgs).hidpi,
            ..session
        }),
    decreases msgs.len(),
{
    if msgs.len() > 0 {
        law_messages_keep_the_rest(session.after_message(msgs[0]), msgs.drop_first());
    }
}

/// Messages are handled one after another: handling some and then others is
/// handling them all.
pub proof fn law_messages_are_handled_in_order(
    session: Session,
    earlier: Seq<CompositorMessage>,
    later: Seq<CompositorMessage>,
)
    ensures
        session.after_messages(earlier + later) == session.after_messages(earlier).after_messages(
            later,
        ),
        session.messages_effects(earlier + later) == session.messages_effects(earlier)
            + session.after_messages(earlier).messages_effects(later),
    decreases earlier.len(),
{
    let all = earlier + later;
    if earlier.len() == 0 {
        assert(all =~= later);
        assert(session.messages_effects(all) =~= session.messages_effects(earlier)
            + session.messages_effects(later));
    } else {
        assert(all.drop_first() =~= earlier.drop_first() + later);
        law_messages_are_handled_in_order(
            session.after_message(earlier[0]),
            earlier.drop_first(),
            later,
        );
        assert(session.messages_effects(all) =~= session.messages_effects(earlier)
            + session.after_messages(earlier).messages_effects(later));
    }
}

/// Switching the display mode twice restores it, and every switch asks for the
/// scale factor of the mode it leads to.
pub proof fn law_toggle_twice(session: Session)
    ensures
        session.after_message(CompositorMessage::ToggleHiDpi).after_message(
            CompositorMessage::ToggleHiDpi,
        ) == session,
        session.message_effects(CompositorMessage::ToggleHiDpi)[0] == Effect::SetScale(
            session.after_message(CompositorMessage::ToggleHiDpi).scale(),
        ),
{
}

/// The window's size does not depend on the display mode, nor the mode on the
/// size: a resize and a switch can come in either order.
pub proof fn law_resize_keeps_mode(session: Session, width: u32, height: u32)
    ensures
        ({
            let resize = WindowEvent::Resized { width, height };
            let toggle = CompositorMessage::ToggleHiDpi;
            &&& session.after_window_event(resize).hidpi == session.hidpi
            &&& session.after_window_event(resize).after_message(toggle)
                == session.after_message(toggle).after_window_event(resize)
        }),
{
}

/// The menu bar is installed once, on the first resume.
pub proof fn law_menu_is_installed_once(session: Session, n: nat)
    requires
        session.menu_pending,
    ensures
        session.resumes_effects(n) == (if n == 0 {
            Seq::empty()
        } else {
            seq![Effect::InstallMenu]
        }),
        session.after_resumes(n).menu_pending == (n == 0),
    decreases n,
{
    if n > 0 {
        law_menu_is_installed_once(session, (n - 1) as nat);
        assert(session.resumes_effects(n) =~= seq![Effect::InstallMenu]);
    }
}

/// Frames are at least a frame's duration apart, and the first of them comes at
/// least that long after the last frame.
pub proof fn law_frames_are_spaced(session: Session, times: Seq<u128>, i: int)
    requires
        0 <= i < session.frame_times(times).len(),
    ensures
        i == 0 ==> session.frame_times(times)[i] - session.last_frame >= FRAME_NS,
        i > 0 ==> session.frame_times(times)[i] - session.frame_times(times)[i - 1] >= FRAME_NS,
    decreases times.len(),
{
    if session.frame_is_due(times[0]) {
        if i > 0 {
            law_frames_are_spaced(session.after_timer(times[0]), times.drop_first(), i - 1);
        }
    } else {
        law_frames_are_spaced(session, times.drop_first(), i);
    }
}

/// Who is asked to sleep until some time gets a frame from then on, and not
/// before.
pub proof fn law_waking_brings_a_frame(session: Session, now: u128, until: u128, later: u128)
    requires
        session.last_frame <= u128::MAX - FRAME_NS,
        session.timer_effects(now) == seq![Effect::WaitUntil(until)],
    ensures
        session.after_timer(now).timer_effects(later) == (if later >= until {
            seq![Effect::RequestRedraw]
        } else {
            seq![Effect::WaitUntil(until)]
        }),
{
    assert(session.timer_effects(now)[0] == Effect::WaitUntil(until));
    assert(!session.frame_is_due(now)) by {
        assert(seq![Effect::RequestRedraw][0] != Effect::WaitUntil(until));
    }
}

/// The layout follows a new size once: further frames of that size do not
/// disturb it.
pub proof fn law_layout_follows_once(session: Session, width: i32, height: i32)
    ensures
        session.laid_out(width, height).layout_effects(width, height) == Seq::<Effect>::empty(),
        session.laid_out(width, height).laid_out(width, height) == session.laid_out(width, height),
{
}

/// A mode has the same 32 bits as the size of the window, whatever the size, and
/// a refresh rate of 60 Hz.
pub proof fn law_mode_keeps_the_bits(width: u32, height: u32)
    ensures
        (mode_of(width, height).width - width) % 0x1_0000_0000 == 0,
        (mode_of(width, height).height - height) % 0x1_0000_0000 == 0,
        mode_of(width, height).refresh == 60_000,
        i32::MIN <= signed_size(width) <= i32::MAX,
        (signed_size(width) - width) % 0x1_0000_0000 == 0,
{
}

/// A message changes the display mode if it asks for that, and never anything
/// else.
pub proof fn law_only_toggles_switch(session: Session, msg: CompositorMessage)
    ensures
        ({
            let after = session.after_message(msg);
            &&& (after.hidpi != session.hidpi) == (msg is ToggleHiDpi)
            &&& after.width == session.width
            &&& after.height == session.height
            &&& after.layout_width == session.layout_width
            &&& after.layout_height == session.layout_height
            &&& after.last_frame == session.last_frame
            &&& after.menu_pending == session.menu_pending
        }),
{
}

/// The scale factor is that of the screen exactly in HiDPI mode.
pub proof fn law_scale_follows_mode(session: Session)
    ensures
        session.scale() == ScaleChoice::System <==> session.hidpi,
        session.scale() == ScaleChoice::Unit <==> !session.hidpi,
{
}

/// Each request is passed on as it was made: the window is maximized or made
/// fullscreen as asked, and the machine at the index asked for is opened, with
/// nothing added.
pub proof fn law_requests_are_passed_on(session: Session, on: bool, i: usize)
    ensures
        session.message_effects(CompositorMessage::Maximize(on)) == seq![Effect::SetMaximized(on)],
        session.message_effects(CompositorMessage::Fullscreen(on)) == seq![
            Effect::SetFullscreen(on),
        ],
        session.message_effects(CompositorMessage::Connect(i)) == seq![Effect::OpenConnection(i)],
{
}

/// A switch of the display mode sets the scale factor of the mode it leads to,
/// tells the clients, lays them out in the whole window, asks for their sizes and
/// draws anew, in this order.
pub proof fn law_switch_rescales_everything(session: Session)
    ensures
        ({
            let effects = session.message_effects(CompositorMessage::ToggleHiDpi);
            &&& effects.len() == 5
            &&& session.hidpi ==> effects[0] == Effect::SetScale(ScaleChoice::Unit)
            &&& !session.hidpi ==> effects[0] == Effect::SetScale(ScaleChoice::System)
            &&& effects[1] == Effect::AdvertiseScale
            &&& effects[2] matches Effect::FitView { physical_width, physical_height }
                && physical_width == session.width && physical_height == session.height
            &&& effects[3] == Effect::RequestTileSizes
            &&& effects[4] == Effect::RequestRedraw
        }),
{
}

/// One more message at the end is handled by the session that the others left
/// behind, after everything they asked for; no message, no effect.
pub proof fn law_one_more_message(
    session: Session,
    msgs: Seq<CompositorMessage>,
    msg: CompositorMessage,
)
    ensures
        session.after_messages(msgs.push(msg)) == session.after_messages(msgs).after_message(msg),
        session.messages_effects(msgs.push(msg)) == session.messages_effects(msgs)
            + session.after_messages(msgs).message_effects(msg),
        session.after_messages(Seq::empty()) == session,
        session.messages_effects(Seq::empty()) == Seq::<Effect>::empty(),
{
    let one = seq![msg];
    let last = session.after_messages(msgs);
    law_messages_are_handled_in_order(session, msgs, one);
    assert(msgs + one =~= msgs.push(msg));
    assert(one.drop_first() =~= Seq::<CompositorMessage>::empty());
    reveal_with_fuel(Session::after_messages, 2);
    reveal_with_fuel(Session::messages_effects, 2);
    assert(last.messages_effects(one) =~= last.message_effects(msg));
}

/// A window event takes over a new size and leaves everything else as it was.
pub proof fn law_window_events_keep_the_rest(session: Session, event: WindowEvent)
    ensures
        ({
            let after = session.after_window_event(event);
            &&& match event {
                WindowEvent::Resized { width, height } => after.width == width && after.height
                    == height,
                _ => after.width == session.width && after.height == session.height,
            }
            &&& after.hidpi == session.hidpi
            &&& after.layout_width == session.layout_width
            &&& after.layout_height == session.layout_height
            &&& after.last_frame == session.last_frame
            &&& after.menu_pending == session.menu_pending
        }),
{
}

/// The layout is told of a size exactly if the last frame had another one, and
/// the size is remembered with nothing else changed.
pub proof fn law_layout_follows_the_view(session: Session, width: i32, height: i32)
    ensures
        ({
            let effects = session.layout_effects(width, height);
            let after = session.laid_out(width, height);
            let same = width == session.layout_width && height == session.layout_height;
            &&& effects.len() == (if same {
                0nat
            } else {
                1nat
            })
            &&& !same ==> (effects[0] matches Effect::SetViewSize { logical_width, logical_height }
                && logical_width == width && logical_height == height)
            &&& after.layout_width == width
            &&& after.layout_height == height
            &&& after.hidpi == session.hidpi
            &&& after.width == session.width
            &&& after.height == session.height
            &&& after.last_frame == session.last_frame
            &&& after.menu_pending == session.menu_pending
        }),
{
}

/// A frame is asked for, and its time kept, exactly when 16 ms have passed since
/// the last one; before that the program sleeps until they have, and nothing
/// changes.
pub proof fn law_frame_every_sixteen_milliseconds(session: Session, now: u128)
    requires
        session.last_frame <= u128::MAX - 16_000_000,
    ensures
        ({
            let effects = session.timer_effects(now);
            let after = session.after_timer(now);
            let due = now >= session.last_frame + 16_000_000;
            &&& effects.len() == 1
            &&& due ==> effects[0] == Effect::RequestRedraw && after.last_frame == now
            &&& !due ==> (effects[0] matches Effect::WaitUntil(until) && until
                == session.last_frame + 16_000_000) && after.last_frame == session.last_frame
            &&& after.hidpi == session.hidpi
            &&& after.width == session.width
            &&& after.height == session.height
            &&& after.layout_width == session.layout_width
            &&& after.layout_height == session.layout_height
            &&& after.menu_pending == session.menu_pending
        }),
{
}

/// A resume installs the menu bar exactly if it is still to be installed, and
/// changes nothing else.
pub proof fn law_resume_installs_a_pending_menu(session: Session)
    ensures
        ({
            let effects = session.resume_effects();
            let after = session.after_resume();
            &&& session.menu_pending ==> effects == seq![Effect::InstallMenu]
            &&& !session.menu_pending ==> effects.len() == 0
            &&& !after.menu_pending
            &&& after.hidpi == session.hidpi
            &&& after.width == session.width
            &&& after.height == session.height
            &&& after.layout_width == session.layout_width
            &&& after.layout_height == session.layout_height
            &&& after.last_frame == session.last_frame
        }),
{
}

} // verus!
