//! The client: local identity, roster, subscriptions and lifecycle phase, and
//! the dispatcher that routes each inbound frame to a roster update and to
//! the observers that hear of it.

use vstd::prelude::*;
use crate::encoder::{
    changenick_frame,
    changenick_frame_text,
    chat_frame,
    chat_frame_text,
    join_frame,
    join_frame_text,
    move_frame,
    move_frame_text,
    ping_frame,
    ping_frame_text,
    whisper_frame,
    whisper_frame_text,
};
use crate::frame::{read_frame, read_frame_spec, text_of, Frame, FrameError, FrameView};
use crate::lifecycle::{next_phase, step, Phase, Signal};
use crate::registry::{listeners, Category, Registry};
use crate::roster::{append, remove_first, remove_name, strings};

verus! {

/// Why a command was not encoded.
#[derive(Clone, Copy, Debug, PartialEq, Eq, Structural)]
pub enum CommandError {
    /// A display name or a channel name was empty.
    EmptyIdentifier,
}

/// How the dispatcher classifies a frame.
#[derive(Clone, Copy, Debug, PartialEq, Eq, Structural)]
pub enum Kind {
    /// `cmd` is `chat`.
    Chat,
    /// `cmd` is `onlineAdd`.
    OnlineAdd,
    /// `cmd` is `onlineRemove`.
    OnlineRemove,
    /// `cmd` is `onlineSet`.
    OnlineSet,
    /// `cmd` is `info` and `type` is `whisper`.
    Whisper,
    /// Anything else, a frame without a `cmd` string included.
    Other,
}

/// What an observer is told.
#[derive(Debug, PartialEq, Eq)]
pub enum Event {
    /// Somebody else said `text` in the channel.
    Message { text: String, nick: String },
    /// `from` said `text` to this client alone; `raw` is the whole frame.
    Whisper { text: String, from: String, raw: String },
    /// `nick` arrived.
    Join { nick: String },
    /// `nick` left.
    Leave { nick: String },
}

/// The mathematical value of an `Event`.
pub enum EventView {
    Message { text: Seq<char>, nick: Seq<char> },
    Whisper { text: Seq<char>, from: Seq<char>, raw: Seq<char> },
    Join { nick: Seq<char> },
    Leave { nick: Seq<char> },
}

impl View for Event {
    type V = EventView;

    open spec fn view(&self) -> EventView {
        match *self {
            Event::Message { text, nick } => EventView::Message { text: text@, nick: nick@ },
            Event::Whisper { text, from, raw } => EventView::Whisper {
                text: text@,
                from: from@,
                raw: raw@,
            },
            Event::Join { nick } => EventView::Join { nick: nick@ },
            Event::Leave { nick } => EventView::Leave { nick: nick@ },
        }
    }
}

/// What one dispatched frame asks of the embedding code: the event, if the
/// frame gives rise to one, and the subscriptions to invoke with it, in
/// order.
#[derive(Debug, PartialEq, Eq)]
pub struct Delivery {
    pub event: Option<Event>,
    pub observers: Vec<usize>,
}

/// The mathematical value of a `Delivery`.
pub struct DeliveryView {
    pub event: Option<EventView>,
    pub observers: Seq<usize>,
}

impl View for Delivery {
    type V = DeliveryView;

    open spec fn view(&self) -> DeliveryView {
        DeliveryView {
            event: match self.event {
                Some(event) => Some(event@),
                None => None,
            },
            observers: self.observers@,
        }
    }
}

/// The mathematical value of a dispatch result.
pub open spec fn delivered(result: Result<Delivery, FrameError>) -> Result<
    DeliveryView,
    FrameError,
> {
    match result {
        Ok(delivery) => Ok(delivery@),
        Err(error) => Err(error),
    }
}

/// The mathematical value of a client.
pub struct ClientView {
    pub nick: Seq<char>,
    pub channel: Seq<char>,
    pub roster: Seq<Seq<char>>,
    pub slots: Seq<Option<Category>>,
    pub phase: Phase,
}

/// The classification of a frame: by `cmd`, and for `info` by `type` too.
pub open spec fn kind_of(frame: FrameView) -> Kind {
    if frame.cmd == Some("chat"@) {
        Kind::Chat
    } else if frame.cmd == Some("onlineAdd"@) {
        Kind::OnlineAdd
    } else if frame.cmd == Some("onlineRemove"@) {
        Kind::OnlineRemove
    } else if frame.cmd == Some("onlineSet"@) {
        Kind::OnlineSet
    } else if frame.cmd == Some("info"@) && frame.kind == Some("whisper"@) {
        Kind::Whisper
    } else {
        Kind::Other
    }
}

/// The frame has every member that its classification requires.
pub open spec fn complete(frame: FrameView) -> bool {
    match kind_of(frame) {
        Kind::Chat => frame.nick.is_some() && frame.text.is_some(),
        Kind::OnlineAdd => frame.nick.is_some(),
        Kind::OnlineRemove => frame.nick.is_some(),
        Kind::OnlineSet => frame.nicks.is_some(),
        Kind::Whisper => frame.text.is_some() && frame.from.is_some(),
        Kind::Other => true,
    }
}

/// The roster after a frame: a join appends, a leave removes the first
/// occurrence, a snapshot replaces everything, and any other frame, an
/// incomplete one included, changes nothing.
pub open spec fn roster_after(roster: Seq<Seq<char>>, frame: FrameView) -> Seq<Seq<char>> {
    if !complete(frame) {
        roster
    } else {
        match kind_of(frame) {
            Kind::OnlineAdd => roster.push(frame.nick.unwrap()),
            Kind::OnlineRemove => remove_first(roster, frame.nick.unwrap()),
            Kind::OnlineSet => frame.nicks.unwrap(),
            _ => roster,
        }
    }
}

/// The event that a complete frame gives rise to for a client named `own`.
/// A chat frame under the client's own name gives none.
pub open spec fn event_of(frame: FrameView, own: Seq<char>) -> Option<EventView> {
    match kind_of(frame) {
        Kind::Chat => if frame.nick.unwrap() == own {
            None
        } else {
            Some(EventView::Message { text: frame.text.unwrap(), nick: frame.nick.unwrap() })
        },
        Kind::OnlineAdd => Some(EventView::Join { nick: frame.nick.unwrap() }),
        Kind::OnlineRemove => Some(EventView::Leave { nick: frame.nick.unwrap() }),
        Kind::Whisper => Some(
            EventView::Whisper {
                text: frame.text.unwrap(),
                from: frame.from.unwrap(),
                raw: frame.raw,
            },
        ),
        _ => None,
    }
}

/// The category whose observers hear an event.
pub open spec fn category_of(event: EventView) -> Category {
    match event {
        EventView::Message { .. } => Category::Message,
        EventView::Whisper { .. } => Category::Whisper,
        EventView::Join { .. } => Category::Join,
        EventView::Leave { .. } => Category::Leave,
    }
}

/// The client after a frame: only the roster can differ.
pub open spec fn state_after(state: ClientView, frame: FrameView) -> ClientView {
    ClientView { roster: roster_after(state.roster, frame), ..state }
}

/// What dispatching a frame returns: `MissingField` for an incomplete frame;
/// else the frame's event with the subscriptions of its category in order of
/// registration, or no event and no subscription.
pub open spec fn outcome(state: ClientView, frame: FrameView) -> Result<DeliveryView, FrameError> {
    if !complete(frame) {
        Err(FrameError::MissingField)
    } else {
        match event_of(frame, state.nick) {
            Some(event) => Ok(
                DeliveryView {
                    event: Some(event),
                    observers: listeners(state.slots, category_of(event)),
                },
            ),
            None => Ok(DeliveryView { event: None, observers: Seq::empty() }),
        }
    }
}

/// What receiving a text returns: `InvalidJson`, or the outcome of the frame
/// that the text is read as.
pub open spec fn receive_outcome(state: ClientView, text: Seq<char>) -> Result<
    DeliveryView,
    FrameError,
> {
    match read_frame_spec(text) {
        Ok(frame) => outcome(state, frame),
        Err(error) => Err(error),
    }
}

/// The client after receiving a text. A text that is no frame changes
/// nothing.
pub open spec fn receive_state(state: ClientView, text: Seq<char>) -> ClientView {
    match read_frame_spec(text) {
        Ok(frame) => state_after(state, frame),
        Err(_) => state,
    }
}

/// The client after receiving the texts one after the other.
pub open spec fn replay(state: ClientView, texts: Seq<Seq<char>>) -> ClientView
    decreases texts.len(),
{
    if texts.len() == 0 {
        state
    } else {
        receive_state(replay(state, texts.drop_last()), texts.last())
    }
}

/// The client after dispatching the frames one after the other.
pub open spec fn replay_frames(state: ClientView, frames: Seq<FrameView>) -> ClientView
    decreases frames.len(),
{
    if frames.len() == 0 {
        state
    } else {
        state_after(replay_frames(state, frames.drop_last()), frames.last())
    }
}

fn has_text(member: &Option<String>, word: &str) -> (same: bool)
    ensures
        same == (text_of(*member) == Some(word@)),
{
    match member {
        Some(s) => *s == word.to_owned(),
        None => false,
    }
}

/// Classifies a frame.
pub fn classify(frame: &Frame) -> (kind: Kind)
    ensures
        kind == kind_of(frame@),
{
    if has_text(&frame.cmd, "chat") {
        Kind::Chat
    } else if has_text(&frame.cmd, "onlineAdd") {
        Kind::OnlineAdd
    } else if has_text(&frame.cmd, "onlineRemove") {
        Kind::OnlineRemove
    } else if has_text(&frame.cmd, "onlineSet") {
        Kind::OnlineSet
    } else if has_text(&frame.cmd, "info") && has_text(&frame.kind, "whisper") {
        Kind::Whisper
    } else {
        Kind::Other
    }
}

/// A chat client: who it is, who is present, who observes, and where its
/// session stands.
pub struct HackChat {
    nick: String,
    channel: String,
    online_users: Vec<String>,
    registry: Registry,
    phase: Phase,
}

impl View for HackChat {
    type V = ClientView;

    closed spec fn view(&self) -> ClientView {
        ClientView {
            nick: self.nick@,
            channel: self.channel@,
            roster: strings(self.online_users@),
            slots: self.registry@,
            phase: self.phase,
        }
    }
}

impl HackChat {
    /// The client's names are not empty.
    pub open spec fn wf(&self) -> bool {
        self@.nick.len() > 0 && self@.channel.len() > 0
    }

    /// A client named `nick` for `channel`: disconnected, with an empty
    /// roster and no subscription. Empty names are refused.
    pub fn new(nick: String, channel: String) -> (made: Result<HackChat, CommandError>)
        ensures
            match made {
                Ok(client) => {
                    &&& nick@.len() > 0
                    &&& channel@.len() > 0
                    &&& client.wf()
                    &&& client@ == (ClientView {
                        nick: nick@,
                        channel: channel@,
                        roster: Seq::empty(),
                        slots: Seq::empty(),
                        phase: Phase::Disconnected,
                    })
                },
                Err(error) => error == CommandError::EmptyIdentifier && (nick@.len() == 0
                    || channel@.len() == 0),
            },
    {
        if nick.as_str().is_empty() || channel.as_str().is_empty() {
            return Err(CommandError::EmptyIdentifier);
        }
        let client = HackChat {
            nick,
            channel,
            online_users: Vec::new(),
            registry: Registry::new(),
            phase: Phase::Disconnected,
        };
        assert(client@.roster =~= Seq::empty());
        Ok(client)
    }

    /// The display name.
    pub fn nick(&self) -> (nick: &str)
        ensures
            nick@ == self@.nick,
    {
        self.nick.as_str()
    }

    /// The channel.
    pub fn channel(&self) -> (channel: &str)
        ensures
            channel@ == self@.channel,
    {
        self.channel.as_str()
    }

    /// The participants that are present, in order of arrival.
    pub fn online_users(&self) -> (roster: &Vec<String>)
        ensures
            strings(roster@) == self@.roster,
    {
        &self.online_users
    }

    /// Where the session stands.
    pub fn phase(&self) -> (phase: Phase)
        ensures
            phase == self@.phase,
    {
        self.phase
    }

    /// Takes a signal from the transport side. Returns `false`, and changes
    /// nothing, where the signal has no place in the current phase.
    pub fn advance(&mut self, signal: Signal) -> (moved: bool)
        requires
            old(self).wf(),
        ensures
            final(self).wf(),
            moved == next_phase(old(self)@.phase, signal).is_some(),
            moved ==> final(self)@ == (ClientView {
                phase: next_phase(old(self)@.phase, signal).unwrap(),
                ..old(self)@
            }),
            !moved ==> final(self)@ == old(self)@,
    {
        match step(self.phase, signal) {
            Some(next) => {
                self.phase = next;
                true
            },
            None => false,
        }
    }

    /// Subscribes a new observer to `category`, after every earlier one, and
    /// returns its identifier.
    pub fn subscribe(&mut self, category: Category) -> (id: usize)
        requires
            old(self).wf(),
        ensures
            final(self).wf(),
            id == old(self)@.slots.len(),
            final(self)@ == (ClientView {
                slots: old(self)@.slots.push(Some(category)),
                ..old(self)@
            }),
    {
        self.registry.subscribe(category)
    }

    /// Cancels subscription `id`. Returns `false`, and changes nothing, where
    /// `id` was never handed out or was cancelled before.
    pub fn unsubscribe(&mut self, id: usize) -> (cancelled: bool)
        requires
            old(self).wf(),
        ensures
            final(self).wf(),
            cancelled == (id < old(self)@.slots.len() && old(self)@.slots[id as int].is_some()),
            cancelled ==> final(self)@ == (ClientView {
                slots: old(self)@.slots.update(id as int, None),
                ..old(self)@
            }),
            !cancelled ==> final(self)@ == old(self)@,
    {
        self.registry.unsubscribe(id)
    }

    /// The handshake frame: the first frame to send on a new connection.
    pub fn join(&self) -> (frame: String)
        ensures
            frame@ == join_frame_text(self@.channel, self@.nick),
    {
        join_frame(self.channel.as_str(), self.nick.as_str())
    }

    /// The keepalive frame that is due when the timer fires: a ping while the
    /// session is running, nothing in any other phase.
    pub fn tick(&self) -> (frame: Option<String>)
        ensures
            self@.phase == Phase::Running ==> text_of(frame) == Some(ping_frame_text()),
            self@.phase != Phase::Running ==> frame.is_none(),
    {
        match self.phase {
            Phase::Running => Some(ping_frame()),
            _ => None,
        }
    }

    /// The frame that says `msg` to the channel.
    pub fn send_message(&self, msg: &str) -> (frame: String)
        ensures
            frame@ == chat_frame_text(msg@),
    {
        chat_frame(msg)
    }

    /// The frame that says `msg` to `target` alone. An empty target is
    /// refused.
    pub fn send_to(&self, target: &str, msg: &str) -> (frame: Result<String, CommandError>)
        ensures
            match frame {
                Ok(text) => target@.len() > 0 && text@ == whisper_frame_text(target@, msg@),
                Err(error) => target@.len() == 0 && error == CommandError::EmptyIdentifier,
            },
    {
        if target.is_empty() {
            Err(CommandError::EmptyIdentifier)
        } else {
            Ok(whisper_frame(target, msg))
        }
    }

    /// Moves to `new_channel`: the local channel changes and the frame that
    /// tells the server is returned, in one step. An empty name is refused,
    /// and then nothing changes.
    pub fn move_channel(&mut self, new_channel: &str) -> (frame: Result<String, CommandError>)
        requires
            old(self).wf(),
        ensures
            final(self).wf(),
            match frame {
                Ok(text) => {
                    &&& new_channel@.len() > 0
                    &&& text@ == move_frame_text(new_channel@)
                    &&& final(self)@ == (ClientView { channel: new_channel@, ..old(self)@ })
                },
                Err(error) => {
                    &&& new_channel@.len() == 0
                    &&& error == CommandError::EmptyIdentifier
                    &&& final(self)@ == old(self)@
                },
            },
    {
        if new_channel.is_empty() {
            Err(CommandError::EmptyIdentifier)
        } else {
            self.channel = new_channel.to_owned();
            Ok(move_frame(new_channel))
        }
    }

    /// Renames the client to `new_nick`: the local name changes and the frame
    /// that tells the server is returned, in one step, so the name that the
    /// frame carries is the client's name from then on. An empty name is
    /// refused, and then nothing changes.
    pub fn change_nick(&mut self, new_nick: &str) -> (frame: Result<String, CommandError>)
        requires
            old(self).wf(),
        ensures
            final(self).wf(),
            match frame {
                Ok(text) => {
                    &&& new_nick@.len() > 0
                    &&& text@ == changenick_frame_text(final(self)@.nick)
                    &&& final(self)@ == (ClientView { nick: new_nick@, ..old(self)@ })
                },
                Err(error) => {
                    &&& new_nick@.len() == 0
                    &&& error == CommandError::EmptyIdentifier
                    &&& final(self)@ == old(self)@
                },
            },
    {
        if new_nick.is_empty() {
            Err(CommandError::EmptyIdentifier)
        } else {
            self.nick = new_nick.to_owned();
            Ok(changenick_frame(new_nick))
        }
    }

    /// Dispatches one frame: updates the roster and says which observers to
    /// invoke with which event. An incomplete frame is reported and changes
    /// nothing.
    pub fn dispatch(&mut self, frame: Frame) -> (result: Result<Delivery, FrameError>)
        requires
            old(self).wf(),
        ensures
            final(self).wf(),
            final(self)@ == state_after(old(self)@, frame@),
            delivered(result) == outcome(old(self)@, frame@),
    {
        let kind = classify(&frame);
        let Frame { cmd: _, nick, text, from, kind: _, nicks, raw } = frame;
        match kind {
            Kind::Chat => match (nick, text) {
                (Some(nick), Some(text)) => {
                    if nick == self.nick {
                        Ok(Delivery { event: None, observers: Vec::new() })
                    } else {
                        let observers = self.registry.observers(Category::Message);
                        Ok(Delivery { event: Some(Event::Message { text, nick }), observers })
                    }
                },
                _ => Err(FrameError::MissingField),
            },
            Kind::OnlineAdd => match nick {
                Some(nick) => {
                    append(&mut self.online_users, nick.clone());
                    let observers = self.registry.observers(Category::Join);
                    Ok(Delivery { event: Some(Event::Join { nick }), observers })
                },
                None => Err(FrameError::MissingField),
            },
            Kind::OnlineRemove => match nick {
                Some(nick) => {
                    let _ = remove_name(&mut self.online_users, &nick);
                    let observers = self.registry.observers(Category::Leave);
                    Ok(Delivery { event: Some(Event::Leave { nick }), observers })
                },
                None => Err(FrameError::MissingField),
            },
            Kind::OnlineSet => match nicks {
                Some(list) => {
                    self.online_users = list;
                    Ok(Delivery { event: None, observers: Vec::new() })
                },
                None => Err(FrameError::MissingField),
            },
            Kind::Whisper => match (text, from) {
                (Some(text), Some(from)) => {
                    let observers = self.registry.observers(Category::Whisper);
                    Ok(Delivery { event: Some(Event::Whisper { text, from, raw }), observers })
                },
                _ => Err(FrameError::MissingField),
            },
            Kind::Other => Ok(Delivery { event: None, observers: Vec::new() }),
        }
    }

    /// Receives one text from the transport: reads it as a frame and
    /// dispatches it. A text that is no frame, or whose frame is incomplete,
    /// is reported and changes nothing.
    pub fn receive(&mut self, text: &str) -> (result: Result<Delivery, FrameError>)
        requires
            old(self).wf(),
        ensures
            final(self).wf(),
            final(self)@ == receive_state(old(self)@, text@),
            delivered(result) == receive_outcome(old(self)@, text@),
            result.is_err() ==> final(self)@ == old(self)@,
    {
        match read_frame(text) {
            Ok(frame) => self.dispatch(frame),
            Err(error) => Err(error),
        }
    }

    /// Receives the texts one after the other and returns one result for
    /// each. A text that is reported as an error changes nothing, and the
    /// texts after it are received as if it had not come.
    pub fn run(&mut self, texts: &Vec<String>) -> (results: Vec<Result<Delivery, FrameError>>)
        requires
            old(self).wf(),
        ensures
            final(self).wf(),
            final(self)@ == replay(old(self)@, strings(texts@)),
            results.len() == texts.len(),
            forall|i: int|
                0 <= i < texts.len() ==> delivered(#[trigger] results[i]) == receive_outcome(
                    replay(old(self)@, strings(texts@).take(i)),
                    texts[i]@,
                ),
    {
        let mut results: Vec<Result<Delivery, FrameError>> = Vec::new();
        let mut at: usize = 0;
        while at < texts.len()
            invariant
                at <= texts.len(),
                self.wf(),
                results.len() == at,
                self@ == replay(old(self)@, strings(texts@).take(at as int)),
                forall|i: int|
                    0 <= i < at ==> delivered(#[trigger] results[i]) == receive_outcome(
                        replay(old(self)@, strings(texts@).take(i)),
                        texts[i]@,
                    ),
            decreases texts.len() - at,
        {
            proof {
                let longer = strings(texts@).take(at + 1);
                assert(longer.drop_last() =~= strings(texts@).take(at as int));
                assert(longer.last() == texts[at as int]@);
            }
            let result = self.receive(texts[at].as_str());
            results.push(result);
            at += 1;
        }
        assert(strings(texts@).take(at as int) =~= strings(texts@));
        results
    }
}

} // verus!
