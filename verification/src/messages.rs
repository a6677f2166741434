//! Messages to the event loop, and the channels they travel through.

use std::collections::VecDeque;
use vstd::prelude::*;

verus! {

/// What the menu bar and the clients ask of the event loop.
#[derive(Clone, Copy, Debug, PartialEq, Eq, Structural)]
pub enum CompositorMessage {
    /// Maximize the window, or restore it.
    Maximize(bool),
    /// Enter or leave borderless fullscreen.
    Fullscreen(bool),
    /// Switch between the HiDPI and the normal display mode.
    ToggleHiDpi,
    /// Connect to the saved machine at this index.
    Connect(usize),
}

/// Why a receive handed out no message.
#[derive(Clone, Copy, Debug, PartialEq, Eq, Structural)]
pub enum ReceiveError {
    /// No message waits, but one may still come.
    Empty,
    /// No message waits, and nobody is left to send one.
    Disconnected,
}

/// The right to send through a channel. It is not copied but duplicated, and
/// given back when it is no longer needed, so that a channel knows how many there
/// are.
#[derive(Debug, PartialEq, Eq, Structural)]
pub struct Sender {
    channel: usize,
}

/// The right to receive from a channel.
#[derive(Debug, PartialEq, Eq, Structural)]
pub struct Receiver {
    channel: usize,
}

impl Sender {
    /// The channel that it sends through.
    pub closed spec fn channel(self) -> nat {
        self.channel as nat
    }
}

impl Receiver {
    /// The channel that it receives from.
    pub closed spec fn channel(self) -> nat {
        self.channel as nat
    }
}

/// One channel.
struct Channel {
    queue: VecDeque<CompositorMessage>,
    senders: usize,
    listening: bool,
}

/// The mathematical model of one channel.
pub struct ChannelView {
    /// The waiting messages, oldest first.
    pub queue: Seq<CompositorMessage>,
    /// How many senders there are.
    pub senders: nat,
    /// Whether the receiver is still there.
    pub listening: bool,
}

/// All channels of the program.
pub struct Channels {
    channels: Vec<Channel>,
}

/// The mathematical model of [`Channels`].
#[verifier::ext_equal]
pub struct ChannelsView {
    pub channels: Seq<ChannelView>,
}

impl ChannelView {
    /// A channel that was just opened.
    pub open spec fn fresh() -> ChannelView {
        ChannelView { queue: Seq::empty(), senders: 1, listening: true }
    }

    /// The channel after a message was sent through it: the message joins its
    /// end, unless nobody listens any more.
    pub open spec fn posted(self, msg: CompositorMessage) -> ChannelView {
        if self.listening {
            ChannelView { queue: self.queue.push(msg), ..self }
        } else {
            self
        }
    }

    /// The channel after its receiver was given back: what waited is lost.
    pub open spec fn abandoned(self) -> ChannelView {
        ChannelView { queue: Seq::empty(), listening: false, ..self }
    }

    /// What a receive hands out: the oldest message, if any waits.
    pub open spec fn next(self) -> Result<CompositorMessage, ReceiveError> {
        if self.queue.len() > 0 {
            Ok(self.queue[0])
        } else if self.senders > 0 {
            Err(ReceiveError::Empty)
        } else {
            Err(ReceiveError::Disconnected)
        }
    }

    /// The channel after a receive.
    pub open spec fn rest(self) -> ChannelView {
        if self.queue.len() == 0 {
            self
        } else {
            ChannelView { queue: self.queue.drop_first(), ..self }
        }
    }

    /// The channel after `n` receives.
    pub open spec fn rest_after(self, n: nat) -> ChannelView
        decreases n,
    {
        if n == 0 {
            self
        } else {
            self.rest_after((n - 1) as nat).rest()
        }
    }

    /// The channel after everything that waited was received.
    pub open spec fn drained(self) -> ChannelView {
        ChannelView { queue: Seq::empty(), ..self }
    }
}

impl ChannelsView {
    /// Whether there is such a channel.
    pub open spec fn has(self, channel: nat) -> bool {
        channel < self.channels.len()
    }

    /// The channel with this number. One that was never opened counts as empty,
    /// without senders and without a receiver.
    pub open spec fn at(self, channel: nat) -> ChannelView {
        if self.has(channel) {
            self.channels[channel as int]
        } else {
            ChannelView { queue: Seq::empty(), senders: 0, listening: false }
        }
    }

    /// The channels after one of them changed. One that was never opened does not
    /// change.
    pub open spec fn with(self, channel: nat, view: ChannelView) -> ChannelsView {
        if self.has(channel) {
            ChannelsView { channels: self.channels.update(channel as int, view) }
        } else {
            self
        }
    }

    /// The channels after a message joined the end of one of them.
    pub open spec fn posted(self, channel: nat, msg: CompositorMessage) -> ChannelsView {
        self.with(channel, self.at(channel).posted(msg))
    }

    /// The channels after a sender was duplicated.
    pub open spec fn joined_by(self, sender: Sender) -> ChannelsView {
        let channel = self.at(sender.channel());
        self.with(sender.channel(), ChannelView { senders: channel.senders + 1, ..channel })
    }

    /// Whether a sender can be duplicated.
    pub open spec fn may_duplicate(self, sender: Sender) -> bool {
        self.knows(sender) && self.at(sender.channel()).senders < usize::MAX
    }

    /// The channels after a sender was given back.
    pub open spec fn closed_by(self, sender: Sender) -> ChannelsView {
        let channel = self.at(sender.channel());
        self.with(
            sender.channel(),
            ChannelView {
                senders: if channel.senders > 0 {
                    (channel.senders - 1) as nat
                } else {
                    0
                },
                ..channel
            },
        )
    }

    /// The channels after the menu bar sent a message: it goes through the
    /// sender in the menu bar's slot, and is lost where the slot is empty.
    pub open spec fn sent(self, slot: Option<Sender>, msg: CompositorMessage) -> ChannelsView {
        match slot {
            Some(sender) => self.posted(sender.channel(), msg),
            None => self,
        }
    }

    /// The channels after the menu bar sent several messages, one after another.
    pub open spec fn sent_all(
        self,
        slot: Option<Sender>,
        msgs: Seq<CompositorMessage>,
    ) -> ChannelsView
        decreases msgs.len(),
    {
        if msgs.len() == 0 {
            self
        } else {
            self.sent_all(slot, msgs.drop_last()).sent(slot, msgs.last())
        }
    }

    /// The channels after another sender was put in the menu bar's slot: the one
    /// that was there is given back.
    pub open spec fn slot_refilled(self, slot: Option<Sender>) -> ChannelsView {
        match slot {
            Some(replaced) => self.closed_by(replaced),
            None => self,
        }
    }

    /// Whether a sender belongs to one of the channels and is counted there.
    pub open spec fn knows(self, sender: Sender) -> bool {
        self.has(sender.channel()) && self.at(sender.channel()).senders > 0
    }
}

impl Channel {
    /// The model of a channel.
    spec fn model(self) -> ChannelView {
        ChannelView {
            queue: self.queue@,
            senders: self.senders as nat,
            listening: self.listening,
        }
    }
}

impl View for Channels {
    type V = ChannelsView;

    closed spec fn view(&self) -> ChannelsView {
        ChannelsView { channels: self.channels@.map_values(|channel: Channel| channel.model()) }
    }
}

impl Channels {
    /// No channel is open.
    pub fn new() -> (channels: Channels)
        ensures
            channels@ == (ChannelsView { channels: Seq::empty() }),
    {
        let channels = Channels { channels: Vec::new() };
        assert(channels@ =~= (ChannelsView { channels: Seq::empty() }));
        channels
    }

    /// Opens a channel with one sender.
    pub fn open(&mut self) -> (ends: (Sender, Receiver))
        ensures
            ends.0.channel() == old(self)@.channels.len(),
            ends.1.channel() == old(self)@.channels.len(),
            final(self)@ == (ChannelsView {
                channels: old(self)@.channels.push(ChannelView::fresh()),
            }),
    {
        let channel: usize = self.channels.len();
        self.channels.push(Channel { queue: VecDeque::new(), senders: 1, listening: true });
        assert(self@.channels =~= old(self)@.channels.push(ChannelView::fresh()));
        (Sender { channel }, Receiver { channel })
    }

    /// Makes a second sender for the same channel, unless there are as many as
    /// can be counted.
    pub fn duplicate(&mut self, sender: &Sender) -> (second: Option<Sender>)
        ensures
            second == (if old(self)@.may_duplicate(*sender) {
                Some(*sender)
            } else {
                None
            }),
            final(self)@ == (if old(self)@.may_duplicate(*sender) {
                old(self)@.joined_by(*sender)
            } else {
                old(self)@
            }),
    {
        let ghost before = self@;
        let channel: usize = sender.channel;
        if channel < self.channels.len() {
            let count: usize = self.channels[channel].senders;
            if 0 < count && count < usize::MAX {
                self.channels[channel].senders = count + 1;
                assert(self@.channels =~= before.joined_by(*sender).channels);
                return Some(Sender { channel });
            }
        }
        None
    }

    /// Gives a sender back.
    pub fn close(&mut self, sender: Sender)
        ensures
            final(self)@ == old(self)@.closed_by(sender),
    {
        let ghost before = self@;
        let channel: usize = sender.channel;
        if channel < self.channels.len() {
            let count: usize = self.channels[channel].senders;
            if count > 0 {
                self.channels[channel].senders = count - 1;
            }
        }
        assert(self@.channels =~= before.closed_by(sender).channels);
    }

    /// Gives a receiver back.
    pub fn abandon(&mut self, receiver: Receiver)
        ensures
            final(self)@ == old(self)@.with(
                receiver.channel(),
                old(self)@.at(receiver.channel()).abandoned(),
            ),
    {
        let ghost before = self@;
        let channel: usize = receiver.channel;
        if channel < self.channels.len() {
            self.channels[channel].queue = VecDeque::new();
            self.channels[channel].listening = false;
        }
        assert(self@.channels =~= before.with(
            receiver.channel(),
            before.at(receiver.channel()).abandoned(),
        ).channels);
    }

    /// Sends a message, or hands it back if nobody listens.
    pub fn post(&mut self, sender: &Sender, msg: CompositorMessage) -> (sent: Result<
        (),
        CompositorMessage,
    >)
        ensures
            sent == (if old(self)@.at(sender.channel()).listening {
                Ok(())
            } else {
                Err(msg)
            }),
            final(self)@ == old(self)@.posted(sender.channel(), msg),
    {
        let ghost before = self@;
        let channel: usize = sender.channel;
        if channel < self.channels.len() && self.channels[channel].listening {
            self.channels[channel].queue.push_back(msg);
            assert(self@.channels =~= before.posted(sender.channel(), msg).channels);
            Ok(())
        } else {
            assert(self@.channels =~= before.posted(sender.channel(), msg).channels);
            Err(msg)
        }
    }

    /// Takes the oldest message of a channel.
    pub fn receive(&mut self, receiver: &Receiver) -> (msg: Result<CompositorMessage, ReceiveError>)
        ensures
            msg == old(self)@.at(receiver.channel()).next(),
            final(self)@ == old(self)@.with(
                receiver.channel(),
                old(self)@.at(receiver.channel()).rest(),
            ),
    {
        let ghost before = self@;
        let ghost model = before.at(receiver.channel());
        let channel: usize = receiver.channel;
        if channel >= self.channels.len() {
            return Err(ReceiveError::Disconnected);
        }
        let taken = self.channels[channel].queue.pop_front();
        assert(self.channels@[channel as int].queue@ =~= model.rest().queue);
        assert(self@.channels =~= before.with(receiver.channel(), model.rest()).channels);
        match taken {
            Some(msg) => Ok(msg),
            None => if self.channels[channel].senders > 0 {
                Err(ReceiveError::Empty)
            } else {
                Err(ReceiveError::Disconnected)
            },
        }
    }
}

/// What is in the menu bar's slot, as far as it can be seen: a slot that could
/// not be locked counts as empty.
pub open spec fn seen_in(slot: Option<&Option<Sender>>) -> Option<Sender> {
    match slot {
        Some(slot) => *slot,
        None => None,
    }
}

/// Sends a message on behalf of the menu bar, through the sender in its slot.
/// The message is dropped in silence if the slot is empty, if it could not be
/// locked (then `slot` is `None`), or if nobody listens.
pub fn send(channels: &mut Channels, slot: Option<&Option<Sender>>, msg: CompositorMessage)
    ensures
        final(channels)@ == old(channels)@.sent(seen_in(slot), msg),
{
    if let Some(Some(sender)) = slot {
        let _ = channels.post(sender, msg);
    }
}

/// While somebody listens, everything the menu bar sends is kept, in the order
/// it was sent, behind what waited before, and other channels are left alone.
pub proof fn law_sent_messages_are_kept_in_order(
    channels: ChannelsView,
    sender: Sender,
    msgs: Seq<CompositorMessage>,
)
    requires
        channels.knows(sender),
        channels.at(sender.channel()).listening,
    ensures
        channels.sent_all(Some(sender), msgs) == channels.with(
            sender.channel(),
            ChannelView {
                queue: channels.at(sender.channel()).queue + msgs,
                ..channels.at(sender.channel())
            },
        ),
    decreases msgs.len(),
{
    let channel = channels.at(sender.channel());
    let after = ChannelView { queue: channel.queue + msgs, ..channel };
    if msgs.len() == 0 {
        assert(channel.queue + msgs =~= channel.queue);
        assert(channels.with(sender.channel(), after).channels =~= channels.channels);
    } else {
        law_sent_messages_are_kept_in_order(channels, sender, msgs.drop_last());
        assert((channel.queue + msgs.drop_last()).push(msgs.last()) =~= channel.queue + msgs);
        assert(channels.sent_all(Some(sender), msgs).channels =~= channels.with(
            sender.channel(),
            after,
        ).channels);
    }
}

/// Once nobody listens, nothing that is sent is kept.
pub proof fn law_nobody_listens(
    channels: ChannelsView,
    sender: Sender,
    msgs: Seq<CompositorMessage>,
)
    requires
        !channels.at(sender.channel()).listening,
    ensures
        channels.sent_all(Some(sender), msgs) == channels,
    decreases msgs.len(),
{
    if msgs.len() > 0 {
        law_nobody_listens(channels, sender, msgs.drop_last());
    }
    assert(channels.with(sender.channel(), channels.at(sender.channel())).channels
        =~= channels.channels);
}

/// While its slot is empty or cannot be locked, nothing the menu bar sends
/// reaches a channel.
pub proof fn law_empty_slot_sends_nothing(channels: ChannelsView, msgs: Seq<CompositorMessage>)
    ensures
        channels.sent_all(None, msgs) == channels,
    decreases msgs.len(),
{
    if msgs.len() > 0 {
        law_empty_slot_sends_nothing(channels, msgs.drop_last());
    }
}

/// A second sender in the menu bar's slot replaces the first, which is given
/// back: from then on what the menu bar sends reaches the second channel and not
/// the first. If nobody else can send through the first channel and nothing waits
/// in it, its receiver finds it disconnected; the second is merely empty.
pub proof fn law_second_sender_replaces_first(
    channels: ChannelsView,
    first: Sender,
    second: Sender,
    msg: CompositorMessage,
)
    requires
        channels.knows(first),
        channels.knows(second),
        first.channel() != second.channel(),
    ensures
        ({
            let after = channels.slot_refilled(Some(first));
            let sent = after.sent(Some(second), msg);
            &&& after.at(second.channel()) == channels.at(second.channel())
            &&& after.at(first.channel()).queue == channels.at(first.channel()).queue
            &&& sent.at(second.channel()) == channels.at(second.channel()).posted(msg)
            &&& sent.at(first.channel()) == after.at(first.channel())
            &&& channels.at(first.channel()) == ChannelView::fresh() ==> sent.at(first.channel()).next() == Err::<CompositorMessage, ReceiveError>(
                ReceiveError::Disconnected,
            )
            &&& channels.at(second.channel()).queue.len() == 0 ==> after.at(
                second.channel(),
            ).next() == Err::<CompositorMessage, ReceiveError>(ReceiveError::Empty)
        }),
{
}

/// Giving a duplicate back undoes the duplication.
pub proof fn law_close_undoes_duplicate(channels: ChannelsView, sender: Sender)
    requires
        channels.may_duplicate(sender),
    ensures
        channels.joined_by(sender).closed_by(sender) == channels,
{
    assert(channels.joined_by(sender).closed_by(sender).channels =~= channels.channels);
}

/// Receives hand out the waiting messages one by one, oldest first, each once:
/// the receive that follows `n` others gives the message at position `n`, and
/// the one that follows the last message gives none.
pub proof fn law_messages_are_received_in_order(channel: ChannelView, n: nat)
    requires
        n <= channel.queue.len(),
    ensures
        channel.rest_after(n) == (ChannelView { queue: channel.queue.skip(n as int), ..channel }),
        n < channel.queue.len() ==> channel.rest_after(n).next() == Ok::<
            CompositorMessage,
            ReceiveError,
        >(channel.queue[n as int]),
        n == channel.queue.len() ==> channel.rest_after(n).next() is Err,
    decreases n,
{
    if n == 0 {
        assert(channel.queue.skip(0) =~= channel.queue);
    } else {
        law_messages_are_received_in_order(channel, (n - 1) as nat);
        assert(channel.queue.skip(n - 1).drop_first() =~= channel.queue.skip(n as int));
    }
}

/// A change to one channel is a change to that channel alone.
pub proof fn law_channels_are_separate(
    channels: ChannelsView,
    channel: nat,
    view: ChannelView,
    other: int,
)
    requires
        0 <= other < channels.channels.len(),
    ensures
        channels.with(channel, view).channels.len() == channels.channels.len(),
        channels.with(channel, view).channels[other] == (if other == channel {
            view
        } else {
            channels.channels[other]
        }),
        channels.has(other as nat),
        channels.at(other as nat) == channels.channels[other],
{
}

/// A channel that was never opened holds nothing, takes nothing and has nobody at
/// either end.
pub proof fn law_unopened_channels_are_dead(
    channels: ChannelsView,
    channel: nat,
    view: ChannelView,
    msg: CompositorMessage,
)
    requires
        channel >= channels.channels.len(),
    ensures
        !channels.has(channel),
        channels.with(channel, view) == channels,
        channels.posted(channel, msg) == channels,
        channels.at(channel).queue.len() == 0,
        channels.at(channel).senders == 0,
        !channels.at(channel).listening,
{
}

/// A message goes to the end of the channel it is sent through, if somebody
/// listens there, and nowhere else; it changes nothing about who is at either
/// end.
pub proof fn law_message_joins_its_channel(
    channels: ChannelsView,
    channel: nat,
    msg: CompositorMessage,
    other: int,
)
    requires
        channel < channels.channels.len(),
        0 <= other < channels.channels.len(),
    ensures
        ({
            let before = channels.channels[other];
            let after = channels.posted(channel, msg).channels[other];
            &&& channels.posted(channel, msg).channels.len() == channels.channels.len()
            &&& other == channel && before.listening ==> after.queue == before.queue.push(msg)
            &&& other != channel || !before.listening ==> after.queue == before.queue
            &&& after.senders == before.senders
            &&& after.listening == before.listening
        }),
{
}

/// What the menu bar sends goes through the sender in its slot, exactly as if it
/// had been sent through that; with an empty slot, or one that cannot be seen,
/// nothing is sent.
pub proof fn law_menu_sends_through_its_slot(
    channels: ChannelsView,
    sender: Sender,
    slot: Option<Sender>,
    msg: CompositorMessage,
)
    ensures
        channels.sent(Some(sender), msg) == channels.posted(sender.channel(), msg),
        channels.sent(None, msg) == channels,
        seen_in(Some(&slot)) == slot,
        seen_in(None) is None,
{
}

/// A receive takes the oldest message and leaves the others in their order;
/// without one it says whether another may come, and leaves the channel alone.
pub proof fn law_receive_takes_the_oldest(channel: ChannelView)
    ensures
        channel.queue.len() > 0 ==> {
            &&& channel.next() == Ok::<CompositorMessage, ReceiveError>(channel.queue[0])
            &&& seq![channel.queue[0]] + channel.rest().queue == channel.queue
            &&& channel.rest().senders == channel.senders
            &&& channel.rest().listening == channel.listening
        },
        channel.queue.len() == 0 ==> {
            &&& channel.next() == Err::<CompositorMessage, ReceiveError>(
                if channel.senders == 0 {
                    ReceiveError::Disconnected
                } else {
                    ReceiveError::Empty
                },
            )
            &&& channel.rest() == channel
        },
{
    if channel.queue.len() > 0 {
        assert(seq![channel.queue[0]] + channel.rest().queue =~= channel.queue);
    }
}

/// A message that is sent into an empty channel is what is received next, and
/// leaves the channel as it was.
pub proof fn law_sent_then_received(channel: ChannelView, msg: CompositorMessage)
    requires
        channel.queue.len() == 0,
        channel.listening,
    ensures
        channel.posted(msg).next() == Ok::<CompositorMessage, ReceiveError>(msg),
        channel.posted(msg).rest() == channel,
{
    assert(channel.posted(msg).rest().queue =~= channel.queue);
}

/// Senders are counted one by one, on their own channel, and counting them
/// touches no message.
pub proof fn law_senders_are_counted(channels: ChannelsView, sender: Sender, other: int)
    requires
        0 <= other < channels.channels.len(),
    ensures
        ({
            let own = other == sender.channel();
            let before = channels.channels[other];
            let joined = channels.joined_by(sender).channels[other];
            let closed = channels.closed_by(sender).channels[other];
            &&& joined.senders - before.senders == (if own {
                1int
            } else {
                0
            })
            &&& before.senders - closed.senders == (if own && before.senders > 0 {
                1int
            } else {
                0
            })
            &&& joined.queue == before.queue && joined.listening == before.listening
            &&& closed.queue == before.queue && closed.listening == before.listening
            &&& own ==> (channels.knows(sender) <==> before.senders > 0)
            &&& own ==> (channels.may_duplicate(sender) <==> 0 < before.senders < usize::MAX)
        }),
        channels.joined_by(sender).channels.len() == channels.channels.len(),
        channels.closed_by(sender).channels.len() == channels.channels.len(),
{
}

/// A sender of a channel that was never opened is not known, and giving it back
/// changes nothing.
pub proof fn law_strange_senders(channels: ChannelsView, sender: Sender)
    requires
        sender.channel() >= channels.channels.len(),
    ensures
        !channels.knows(sender),
        !channels.may_duplicate(sender),
        channels.closed_by(sender) == channels,
{
}

/// Filling the menu bar's slot gives back the sender that was in it, and only
/// that.
pub proof fn law_slot_gives_back_its_sender(channels: ChannelsView, replaced: Sender)
    ensures
        channels.slot_refilled(Some(replaced)) == channels.closed_by(replaced),
        channels.slot_refilled(None) == channels,
{
}

/// A channel without a receiver holds nothing and takes nothing, and a channel
/// that was drained merely holds nothing.
pub proof fn law_emptied_channels(channel: ChannelView, msg: CompositorMessage)
    ensures
        channel.abandoned().queue.len() == 0,
        !channel.abandoned().listening,
        channel.abandoned().posted(msg) == channel.abandoned(),
        channel.abandoned().senders == channel.senders,
        channel.drained().queue.len() == 0,
        channel.drained().senders == channel.senders,
        channel.drained().listening == channel.listening,
        ChannelView::fresh().queue.len() == 0,
        ChannelView::fresh().senders == 1,
        ChannelView::fresh().listening,
{
}

} // verus!
