//! The credential relay: after a successful match, user name and password
//! are handed to the privileged unlock helper over a local named channel.
//!
//! The helper runs in another process, so waiting for the channel, opening
//! it and writing to it are done by the embedding program. This module
//! decides what is done next and what is written. A [`RelaySession`] is
//! driven by reporting how the last action ended; it answers with the next
//! action.

use vstd::prelude::*;
use vstd::string::*;

use crate::error::FaceError;

verus! {

/// The name of the channel on which the unlock helper listens.
pub const RELAY_CHANNEL: &'static str = "\\\\.\\pipe\\MansonWindowsUnlockRust";

/// How long the relay waits for the channel unless told otherwise.
pub const DEFAULT_TIMEOUT_MS: u32 = 5000;

/// The UTF-16 code units of one character: the character itself in the
/// basic plane, a surrogate pair above it.
pub open spec fn utf16_of_char(c: char) -> Seq<u16> {
    let v = c as u32;
    if v < 0x10000 {
        seq![v as u16]
    } else {
        seq![
            (0xD800 + (v - 0x10000) / 0x400) as u16,
            (0xDC00 + (v - 0x10000) % 0x400) as u16,
        ]
    }
}

/// The UTF-16 code units of a text.
pub open spec fn utf16_units(text: Seq<char>) -> Seq<u16>
    decreases text.len(),
{
    if text.len() == 0 {
        Seq::empty()
    } else {
        utf16_units(text.drop_last()) + utf16_of_char(text.last())
    }
}

/// Code units as they lie on the wire: two bytes each, low byte first.
pub open spec fn wire_bytes(units: Seq<u16>) -> Seq<u8>
    decreases units.len(),
{
    if units.len() == 0 {
        Seq::empty()
    } else {
        wire_bytes(units.drop_last()) + seq![
            (units.last() % 256) as u8,
            (units.last() / 256) as u8,
        ]
    }
}

/// What one write carries for `text`: its UTF-16 code units and a closing
/// null unit, as bytes.
pub open spec fn payload(text: Seq<char>) -> Seq<u8> {
    wire_bytes(utf16_units(text) + seq![0u16])
}

/// Encodes a text as null-terminated UTF-16.
pub fn utf16_payload(text: &str) -> (r: Vec<u16>)
    ensures
        r@ == utf16_units(text@) + seq![0u16],
{
    let n = text.unicode_len();
    let mut units: Vec<u16> = Vec::new();
    let mut i: usize = 0;
    while i < n
        invariant
            i <= n,
            n == text@.len(),
            units@ == utf16_units(text@.take(i as int)),
        decreases n - i,
    {
        let c = text.get_char(i);
        let v: u32 = c as u32;
        if v < 0x10000 {
            units.push(v as u16);
        } else {
            let w: u32 = v - 0x10000;
            units.push((0xD800 + w / 0x400) as u16);
            units.push((0xDC00 + w % 0x400) as u16);
        }
        proof {
            let next = text@.take(i as int + 1);
            assert(next.drop_last() =~= text@.take(i as int));
        }
        i += 1;
    }
    assert(text@.take(n as int) =~= text@);
    units.push(0);
    units
}

/// The bytes of one relay write for `text`.
pub fn payload_bytes(text: &str) -> (r: Vec<u8>)
    ensures
        r@ == payload(text@),
{
    let units = utf16_payload(text);
    let mut bytes: Vec<u8> = Vec::new();
    let mut i: usize = 0;
    while i < units.len()
        invariant
            i <= units.len(),
            bytes@ == wire_bytes(units@.take(i as int)),
        decreases units.len() - i,
    {
        let unit: u16 = units[i];
        bytes.push((unit % 256) as u8);
        bytes.push((unit / 256) as u8);
        proof {
            let next = units@.take(i as int + 1);
            assert(next.drop_last() =~= units@.take(i as int));
            assert(bytes@ =~= wire_bytes(units@.take(i as int)) + seq![
                (unit % 256) as u8,
                (unit / 256) as u8,
            ]);
        }
        i += 1;
    }
    assert(units@.take(units.len() as int) =~= units@);
    bytes
}

/// The pair that is relayed. It lives for one relay and is never stored.
pub struct RelayCredential {
    pub username: String,
    pub password: String,
}

/// Which half of the credential a write carries.
#[derive(Clone, Copy, Debug, PartialEq, Eq, Structural)]
pub enum CredentialField {
    Username,
    Password,
}

/// Where a relay stands.
#[derive(Clone, Copy, Debug, PartialEq, Eq, Structural)]
pub enum RelayState {
    /// Nothing has been asked for yet.
    Idle,
    /// Waiting, for a bounded time, for the channel to exist.
    WaitingForChannel,
    /// The channel exists and is being opened for exclusive writing.
    Connected,
    /// The channel is open and the named field is being written.
    Sending(CredentialField),
    /// Both fields were written and the channel was released.
    Closed,
    /// The relay was given up for the stated reason.
    Failed(FaceError),
}

/// How the action that was asked for last has ended.
#[derive(Clone, Copy, Debug, PartialEq, Eq, Structural)]
pub enum RelayEvent {
    /// The caller asks for the relay to begin.
    Start,
    /// The action was carried out.
    Succeeded,
    /// The action failed or, for the wait, timed out.
    Failed,
}

/// What the embedding program is to do next.
#[derive(Clone, Debug, PartialEq, Eq)]
pub enum RelayAction {
    /// Nothing: the event did not apply, or the relay has ended with no
    /// channel to release.
    Nothing,
    /// Wait at most `timeout_ms` milliseconds for the channel to exist.
    WaitForChannel { timeout_ms: u32 },
    /// Open the channel write-only and exclusively.
    OpenChannel,
    /// Write these bytes in one write operation.
    Write(Vec<u8>),
    /// Release the channel.
    CloseChannel,
}

/// A [`RelayAction`] as contracts see it.
pub enum ActionView {
    Nothing,
    WaitForChannel { timeout_ms: u32 },
    OpenChannel,
    Write(Seq<u8>),
    CloseChannel,
}

impl View for RelayAction {
    type V = ActionView;

    open spec fn view(&self) -> ActionView {
        match *self {
            RelayAction::Nothing => ActionView::Nothing,
            RelayAction::WaitForChannel { timeout_ms } => ActionView::WaitForChannel { timeout_ms },
            RelayAction::OpenChannel => ActionView::OpenChannel,
            RelayAction::Write(bytes) => ActionView::Write(bytes@),
            RelayAction::CloseChannel => ActionView::CloseChannel,
        }
    }
}

/// The state that follows `state` on `event`. An event that does not apply
/// leaves the state as it is; `Closed` and `Failed` are final.
pub open spec fn next_state(state: RelayState, event: RelayEvent) -> RelayState {
    match (state, event) {
        (RelayState::Idle, RelayEvent::Start) => RelayState::WaitingForChannel,
        (RelayState::WaitingForChannel, RelayEvent::Succeeded) => RelayState::Connected,
        (RelayState::WaitingForChannel, RelayEvent::Failed) => RelayState::Failed(
            FaceError::ChannelUnavailable,
        ),
        (RelayState::Connected, RelayEvent::Succeeded) => RelayState::Sending(
            CredentialField::Username,
        ),
        (RelayState::Connected, RelayEvent::Failed) => RelayState::Failed(
            FaceError::ChannelUnavailable,
        ),
        (RelayState::Sending(CredentialField::Username), RelayEvent::Succeeded) => {
            RelayState::Sending(CredentialField::Password)
        },
        (RelayState::Sending(CredentialField::Password), RelayEvent::Succeeded) => {
            RelayState::Closed
        },
        (RelayState::Sending(_), RelayEvent::Failed) => RelayState::Failed(FaceError::RelayWrite),
        _ => state,
    }
}

/// Whether the channel is open in `state`.
pub open spec fn holds_channel(state: RelayState) -> bool {
    state is Sending
}

/// The action that goes with the step from `state` on `event`: what the
/// state that is entered asks for, and the release of the channel when an
/// open channel is left behind.
pub open spec fn action_for(
    state: RelayState,
    event: RelayEvent,
    username: Seq<char>,
    password: Seq<char>,
    timeout_ms: u32,
) -> ActionView {
    let next = next_state(state, event);
    if next == state {
        ActionView::Nothing
    } else {
        match next {
            RelayState::WaitingForChannel => ActionView::WaitForChannel { timeout_ms },
            RelayState::Connected => ActionView::OpenChannel,
            RelayState::Sending(CredentialField::Username) => ActionView::Write(payload(username)),
            RelayState::Sending(CredentialField::Password) => ActionView::Write(payload(password)),
            RelayState::Closed => ActionView::CloseChannel,
            RelayState::Failed(_) => if holds_channel(state) {
                ActionView::CloseChannel
            } else {
                ActionView::Nothing
            },
            RelayState::Idle => ActionView::Nothing,
        }
    }
}

/// The number of steps that a relay in `state` can still take.
pub open spec fn steps_left(state: RelayState) -> nat {
    match state {
        RelayState::Idle => 5,
        RelayState::WaitingForChannel => 4,
        RelayState::Connected => 3,
        RelayState::Sending(CredentialField::Username) => 2,
        RelayState::Sending(CredentialField::Password) => 1,
        RelayState::Closed => 0,
        RelayState::Failed(_) => 0,
    }
}

/// A relay cannot go on for ever: every step that changes the state uses up
/// at least one of the at most five steps that are left, and a state with no
/// step left is final.
pub proof fn lemma_relay_terminates(state: RelayState, event: RelayEvent)
    ensures
        steps_left(state) <= 5,
        next_state(state, event) != state ==> steps_left(next_state(state, event)) < steps_left(
            state,
        ),
        steps_left(state) == 0 ==> next_state(state, event) == state,
        steps_left(state) == 0 <==> state is Closed || state is Failed,
{
}

/// The wait for the channel is bounded. A relay waits once, at its very
/// beginning and for no longer than it was configured to; a wait that ends
/// without the channel ends the relay with `ChannelUnavailable`, and nothing
/// is asked for after that.
pub proof fn lemma_wait_is_bounded(
    state: RelayState,
    event: RelayEvent,
    username: Seq<char>,
    password: Seq<char>,
    timeout_ms: u32,
)
    ensures
        action_for(state, event, username, password, timeout_ms) is WaitForChannel ==> state
            is Idle && action_for(state, event, username, password, timeout_ms)
            == (ActionView::WaitForChannel { timeout_ms }),
        next_state(RelayState::WaitingForChannel, RelayEvent::Failed) == RelayState::Failed(
            FaceError::ChannelUnavailable,
        ),
        action_for(
            RelayState::Failed(FaceError::ChannelUnavailable),
            event,
            username,
            password,
            timeout_ms,
        ) is Nothing,
{
}

/// The channel is released on every way out: it is open only between a
/// successful open and the step that leaves `Sending`, and that step,
/// whether to `Closed` or to `Failed`, is the one that asks for the release.
pub proof fn lemma_channel_released(
    state: RelayState,
    event: RelayEvent,
    username: Seq<char>,
    password: Seq<char>,
    timeout_ms: u32,
)
    ensures
        action_for(state, event, username, password, timeout_ms) is CloseChannel <==> holds_channel(
            state,
        ) && !holds_channel(next_state(state, event)),
        !holds_channel(state) && holds_channel(next_state(state, event)) ==> state
            is Connected && event is Succeeded,
        holds_channel(state) && next_state(state, event) != state ==> event is Succeeded
            || next_state(state, event) == RelayState::Failed(FaceError::RelayWrite),
{
}

/// The state of a relay that began idle and has seen `events`.
pub open spec fn state_after(events: Seq<RelayEvent>) -> RelayState
    decreases events.len(),
{
    if events.len() == 0 {
        RelayState::Idle
    } else {
        next_state(state_after(events.drop_last()), events.last())
    }
}

/// The writes, in order, that a relay which began idle has asked for while
/// it saw `events`.
pub open spec fn writes_after(
    events: Seq<RelayEvent>,
    username: Seq<char>,
    password: Seq<char>,
) -> Seq<Seq<u8>>
    decreases events.len(),
{
    if events.len() == 0 {
        Seq::empty()
    } else {
        let earlier = writes_after(events.drop_last(), username, password);
        match action_for(state_after(events.drop_last()), events.last(), username, password, 0) {
            ActionView::Write(bytes) => earlier.push(bytes),
            _ => earlier,
        }
    }
}

/// The user name goes first. Whatever events a relay sees, what it has
/// asked to write is the beginning of: the user name, then the password,
/// each once and in a write of its own. A relay that has reached `Closed`
/// has asked for both.
pub proof fn lemma_username_before_password(
    events: Seq<RelayEvent>,
    username: Seq<char>,
    password: Seq<char>,
)
    ensures
        writes_after(events, username, password).is_prefix_of(
            seq![payload(username), payload(password)],
        ),
        match state_after(events) {
            RelayState::Idle => writes_after(events, username, password).len() == 0,
            RelayState::WaitingForChannel => writes_after(events, username, password).len() == 0,
            RelayState::Connected => writes_after(events, username, password).len() == 0,
            RelayState::Sending(CredentialField::Username) => writes_after(
                events,
                username,
                password,
            ).len() == 1,
            RelayState::Sending(CredentialField::Password) => writes_after(
                events,
                username,
                password,
            ).len() == 2,
            RelayState::Closed => writes_after(events, username, password).len() == 2,
            RelayState::Failed(_) => true,
        },
    decreases events.len(),
{
    if events.len() > 0 {
        lemma_username_before_password(events.drop_last(), username, password);
    }
}

/// One relay of one credential.
pub struct RelaySession {
    state: RelayState,
    credential: RelayCredential,
    timeout_ms: u32,
}

/// A [`RelaySession`] as contracts see it.
pub struct SessionView {
    pub state: RelayState,
    pub username: Seq<char>,
    pub password: Seq<char>,
    pub timeout_ms: u32,
}

impl View for RelaySession {
    type V = SessionView;

    closed spec fn view(&self) -> SessionView {
        SessionView {
            state: self.state,
            username: self.credential.username@,
            password: self.credential.password@,
            timeout_ms: self.timeout_ms,
        }
    }
}

impl RelaySession {
    /// A relay of `credential` that has not begun. `timeout_ms` bounds the
    /// wait for the channel.
    pub fn new(credential: RelayCredential, timeout_ms: u32) -> (r: RelaySession)
        ensures
            r@ == (SessionView {
                state: RelayState::Idle,
                username: credential.username@,
                password: credential.password@,
                timeout_ms,
            }),
    {
        RelaySession { state: RelayState::Idle, credential, timeout_ms }
    }

    pub fn state(&self) -> (r: RelayState)
        ensures
            r == self@.state,
    {
        self.state
    }

    /// Whether the relay has ended, well or badly.
    pub fn is_finished(&self) -> (r: bool)
        ensures
            r == (steps_left(self@.state) == 0),
    {
        match self.state {
            RelayState::Closed => true,
            RelayState::Failed(_) => true,
            _ => false,
        }
    }

    /// How the relay ended: `None` while it is under way, `Some(Ok(()))`
    /// once both fields were written and the channel released, and the
    /// reason after a failure.
    pub fn outcome(&self) -> (r: Option<Result<(), FaceError>>)
        ensures
            r == match self@.state {
                RelayState::Closed => Some(Ok::<(), FaceError>(())),
                RelayState::Failed(reason) => Some(Err::<(), FaceError>(reason)),
                _ => None::<Result<(), FaceError>>,
            },
    {
        match self.state {
            RelayState::Closed => Some(Ok(())),
            RelayState::Failed(reason) => Some(Err(reason)),
            _ => None,
        }
    }

    /// Takes the relay one step further. `event` says how the action asked
    /// for last has ended, or `Start` to begin; the result is what to do
    /// next. The user name is written before the password, each in a write
    /// of its own.
    pub fn step(&mut self, event: RelayEvent) -> (action: RelayAction)
        ensures
            final(self)@.state == next_state(old(self)@.state, event),
            final(self)@.username == old(self)@.username,
            final(self)@.password == old(self)@.password,
            final(self)@.timeout_ms == old(self)@.timeout_ms,
            action@ == action_for(
                old(self)@.state,
                event,
                old(self)@.username,
                old(self)@.password,
                old(self)@.timeout_ms,
            ),
    {
        match (self.state, event) {
            (RelayState::Idle, RelayEvent::Start) => {
                self.state = RelayState::WaitingForChannel;
                RelayAction::WaitForChannel { timeout_ms: self.timeout_ms }
            },
            (RelayState::WaitingForChannel, RelayEvent::Succeeded) => {
                self.state = RelayState::Connected;
                RelayAction::OpenChannel
            },
            (RelayState::WaitingForChannel, RelayEvent::Failed) => {
                self.state = RelayState::Failed(FaceError::ChannelUnavailable);
                RelayAction::Nothing
            },
            (RelayState::Connected, RelayEvent::Succeeded) => {
                self.state = RelayState::Sending(CredentialField::Username);
                RelayAction::Write(payload_bytes(self.credential.username.as_str()))
            },
            (RelayState::Connected, RelayEvent::Failed) => {
                self.state = RelayState::Failed(FaceError::ChannelUnavailable);
                RelayAction::Nothing
            },
            (RelayState::Sending(CredentialField::Username), RelayEvent::Succeeded) => {
                self.state = RelayState::Sending(CredentialField::Password);
                RelayAction::Write(payload_bytes(self.credential.password.as_str()))
            },
            (RelayState::Sending(CredentialField::Password), RelayEvent::Succeeded) => {
                self.state = RelayState::Closed;
                RelayAction::CloseChannel
            },
            (RelayState::Sending(_), RelayEvent::Failed) => {
                self.state = RelayState::Failed(FaceError::RelayWrite);
                RelayAction::CloseChannel
            },
            _ => RelayAction::Nothing,
        }
    }
}

} // verus!
