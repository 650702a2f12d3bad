//! The handling of one incoming message, as a machine that is stepped from
//! outside: each step takes what has just happened and says what is to be
//! done next.

use crate::config::{Config, ConfigView};
use crate::text::{is_padded, is_trim, lemma_trims_to_target, trim, trimmed};
use vstd::prelude::*;
use vstd::string::StringExecFns;

verus! {

/// A message as the chat gateway delivers it.
#[derive(Debug, Clone, PartialEq, Eq)]
pub struct IncomingMessage {
    /// The channel in which it was posted.
    pub channel_id: u64,
    /// Who posted it.
    pub author_id: u64,
    /// Its text.
    pub content: String,
}

/// An `IncomingMessage` with its text as a sequence of characters.
pub struct IncomingMessageView {
    pub channel_id: u64,
    pub author_id: u64,
    pub content: Seq<char>,
}

impl View for IncomingMessage {
    type V = IncomingMessageView;

    open spec fn view(&self) -> IncomingMessageView {
        IncomingMessageView {
            channel_id: self.channel_id,
            author_id: self.author_id,
            content: self.content@,
        }
    }
}

/// How a message stands to the configuration.
#[derive(Debug, Clone, Copy, PartialEq, Eq, Structural)]
pub enum Verdict {
    /// Posted in another channel or by another author.
    NoMatch,
    /// Posted in the watched channel by the awaited author, with another text.
    ContentMismatch,
    /// The awaited message.
    ContentMatch,
}

/// How `message` stands to `config`. The text is looked at only where channel
/// and author are the awaited ones, and is compared without its leading and
/// trailing whitespace.
pub open spec fn verdict_of(config: ConfigView, message: IncomingMessageView) -> Verdict {
    if message.channel_id != config.channel_id || message.author_id != config.target_user_id {
        Verdict::NoMatch
    } else if trimmed(message.content) != config.target_text {
        Verdict::ContentMismatch
    } else {
        Verdict::ContentMatch
    }
}

/// Decides how `message` stands to `config`.
pub fn classify(config: &Config, message: &IncomingMessage) -> (verdict: Verdict)
    ensures
        verdict == verdict_of(config@, message@),
{
    if message.channel_id != config.channel_id || message.author_id != config.target_user_id {
        Verdict::NoMatch
    } else if String::from_str(trim(message.content.as_str())) != config.target_text {
        Verdict::ContentMismatch
    } else {
        Verdict::ContentMatch
    }
}

/// The mark that is put on the triggering message.
#[derive(Debug, Clone, Copy, PartialEq, Eq, Structural)]
pub enum Reaction {
    /// The webhook answered and its answer was relayed.
    Success,
    /// The message was not the awaited author's in the watched channel, or
    /// the webhook could not be reached.
    Failure,
}

impl Reaction {
    /// The character that shows the reaction: a white tick on green for
    /// success, a red cross for failure.
    pub open spec fn glyph(self) -> char {
        match self {
            Reaction::Success => '\u{2705}',
            Reaction::Failure => '\u{274C}',
        }
    }

    /// The reaction as the one-character text that the chat platform takes.
    pub fn symbol(&self) -> (r: &'static str)
        ensures
            r@ == seq![self.glyph()],
    {
        proof {
            reveal_strlit("\u{2705}");
            reveal_strlit("\u{274C}");
        }
        let r = match self {
            Reaction::Success => "\u{2705}",
            Reaction::Failure => "\u{274C}",
        };
        assert(r@ =~= seq![self.glyph()]);
        r
    }
}

/// What the caller is asked to do next.
#[derive(Debug, Clone, PartialEq, Eq)]
pub enum Action {
    /// Fetch `url` with one HTTP GET: no headers of its own, no retry.
    CallWebhook { url: String },
    /// Post `content` as a new message in the channel `channel_id`.
    SendMessage { channel_id: u64, content: String },
    /// Put the reaction on the triggering message.
    AddReaction(Reaction),
}

/// An `Action` with its strings as sequences of characters.
pub enum ActionView {
    CallWebhook { url: Seq<char> },
    SendMessage { channel_id: u64, content: Seq<char> },
    AddReaction(Reaction),
}

impl View for Action {
    type V = ActionView;

    open spec fn view(&self) -> ActionView {
        match self {
            Action::CallWebhook { url } => ActionView::CallWebhook { url: url@ },
            Action::SendMessage { channel_id, content } => ActionView::SendMessage {
                channel_id: *channel_id,
                content: content@,
            },
            Action::AddReaction(reaction) => ActionView::AddReaction(*reaction),
        }
    }
}

/// What has just happened outside.
#[derive(Debug, Clone, PartialEq, Eq)]
pub enum Event {
    /// The message has arrived.
    Received,
    /// The webhook answered, with whatever status. `body` is the answer's
    /// text, `None` where it could not be decoded.
    WebhookResponded { status: u16, body: Option<String> },
    /// No answer came from the webhook: the request failed on the way.
    WebhookFailed,
    /// The attempt to post the new message has ended.
    SendFinished { delivered: bool },
    /// The attempt to put the reaction on has ended.
    ReactionFinished { added: bool },
}

/// An `Event` with its strings as sequences of characters.
pub enum EventView {
    Received,
    WebhookResponded { status: u16, body: Option<Seq<char>> },
    WebhookFailed,
    SendFinished { delivered: bool },
    ReactionFinished { added: bool },
}

impl View for Event {
    type V = EventView;

    open spec fn view(&self) -> EventView {
        match self {
            Event::Received => EventView::Received,
            Event::WebhookResponded { status, body } => EventView::WebhookResponded {
                status: *status,
                body: match body {
                    Some(text) => Some(text@),
                    None => None,
                },
            },
            Event::WebhookFailed => EventView::WebhookFailed,
            Event::SendFinished { delivered } => EventView::SendFinished { delivered: *delivered },
            Event::ReactionFinished { added } => EventView::ReactionFinished { added: *added },
        }
    }
}

/// Where the handling of one message stands.
#[derive(Debug, Clone, Copy, PartialEq, Eq, Structural)]
pub enum Phase {
    /// Nothing has been looked at yet.
    Idle,
    /// The webhook has been called and has not answered yet.
    AwaitingWebhook,
    /// The webhook's answer is being posted.
    AwaitingSend,
    /// A reaction is being put on whose failure ends the handling abnormally.
    AwaitingStrictReaction,
    /// A reaction is being put on whose failure is passed over.
    AwaitingLenientReaction,
    /// The handling has come to its end.
    Completed,
    /// The handling was given up because a reaction could not be put on.
    Aborted,
}

impl Phase {
    /// Nothing more will be asked for.
    pub open spec fn is_final(self) -> bool {
        self == Phase::Completed || self == Phase::Aborted
    }

    /// How many actions can at most still be asked for.
    pub open spec fn rank(self) -> nat {
        match self {
            Phase::Idle => 3,
            Phase::AwaitingWebhook => 2,
            Phase::AwaitingSend => 1,
            Phase::AwaitingStrictReaction => 0,
            Phase::AwaitingLenientReaction => 0,
            Phase::Completed => 0,
            Phase::Aborted => 0,
        }
    }
}

/// The text that is posted for a webhook's answer: its body, or nothing where
/// the body could not be decoded.
pub open spec fn relayed_text(body: Option<Seq<char>>) -> Seq<char> {
    match body {
        Some(text) => text,
        None => Seq::empty(),
    }
}

/// The phase that follows `phase` when `event` happens, and what is to be
/// done then. An event that the phase does not wait for changes nothing and
/// asks for nothing.
pub open spec fn step_spec(
    config: ConfigView,
    message: IncomingMessageView,
    phase: Phase,
    event: EventView,
) -> (Phase, Option<ActionView>) {
    match (phase, event) {
        (Phase::Idle, EventView::Received) => match verdict_of(config, message) {
            Verdict::NoMatch => (
                Phase::AwaitingStrictReaction,
                Some(ActionView::AddReaction(Reaction::Failure)),
            ),
            Verdict::ContentMismatch => (Phase::Completed, None),
            Verdict::ContentMatch => (
                Phase::AwaitingWebhook,
                Some(ActionView::CallWebhook { url: config.webhook_url }),
            ),
        },
        (Phase::AwaitingWebhook, EventView::WebhookResponded { status, body }) => (
            Phase::AwaitingSend,
            Some(
                ActionView::SendMessage {
                    channel_id: message.channel_id,
                    content: relayed_text(body),
                },
            ),
        ),
        (Phase::AwaitingWebhook, EventView::WebhookFailed) => (
            Phase::AwaitingLenientReaction,
            Some(ActionView::AddReaction(Reaction::Failure)),
        ),
        (Phase::AwaitingSend, EventView::SendFinished { delivered }) => (
            Phase::AwaitingStrictReaction,
            Some(ActionView::AddReaction(Reaction::Success)),
        ),
        (Phase::AwaitingStrictReaction, EventView::ReactionFinished { added }) => (
            if added {
                Phase::Completed
            } else {
                Phase::Aborted
            },
            None,
        ),
        (Phase::AwaitingLenientReaction, EventView::ReactionFinished { added }) => (
            Phase::Completed,
            None,
        ),
        _ => (phase, None),
    }
}

/// The view of an action that may be there.
pub open spec fn action_view(action: Option<Action>) -> Option<ActionView> {
    match action {
        Some(action) => Some(action@),
        None => None,
    }
}

/// Takes the handling of `message` one step further: from `phase`, on `event`,
/// to the phase that follows and the action that is asked for.
pub fn step(config: &Config, message: &IncomingMessage, phase: Phase, event: Event) -> (r: (
    Phase,
    Option<Action>,
))
    ensures
        (r.0, action_view(r.1)) == step_spec(config@, message@, phase, event@),
{
    match (phase, event) {
        (Phase::Idle, Event::Received) => match classify(config, message) {
            Verdict::NoMatch => (
                Phase::AwaitingStrictReaction,
                Some(Action::AddReaction(Reaction::Failure)),
            ),
            Verdict::ContentMismatch => (Phase::Completed, None),
            Verdict::ContentMatch => (
                Phase::AwaitingWebhook,
                Some(Action::CallWebhook { url: config.webhook_url.clone() }),
            ),
        },
        (Phase::AwaitingWebhook, Event::WebhookResponded { status, body }) => {
            let content = match body {
                Some(text) => text,
                None => String::new(),
            };
            (
                Phase::AwaitingSend,
                Some(Action::SendMessage { channel_id: message.channel_id, content }),
            )
        },
        (Phase::AwaitingWebhook, Event::WebhookFailed) => (
            Phase::AwaitingLenientReaction,
            Some(Action::AddReaction(Reaction::Failure)),
        ),
        (Phase::AwaitingSend, Event::SendFinished { delivered }) => (
            Phase::AwaitingStrictReaction,
            Some(Action::AddReaction(Reaction::Success)),
        ),
        (Phase::AwaitingStrictReaction, Event::ReactionFinished { added }) => (
            if added {
                Phase::Completed
            } else {
                Phase::Aborted
            },
            None,
        ),
        (Phase::AwaitingLenientReaction, Event::ReactionFinished { added }) => (
            Phase::Completed,
            None,
        ),
        (phase, _) => (phase, None),
    }
}

/// A webhook's answer.
pub struct Response {
    pub status: u16,
    /// The answer's text, `None` where it cannot be decoded.
    pub body: Option<Seq<char>>,
}

/// What the outside makes of the actions that the handling of one message
/// asks for.
pub struct World {
    /// The webhook's answer, `None` where the request fails on the way.
    pub webhook: Option<Response>,
    /// Whether a new message gets posted.
    pub delivered: bool,
    /// Whether a reaction gets put on.
    pub added: bool,
}

/// The event with which `world` answers `action`.
pub open spec fn answer(world: World, action: ActionView) -> EventView {
    match action {
        ActionView::CallWebhook { url } => match world.webhook {
            Some(response) => EventView::WebhookResponded {
                status: response.status,
                body: response.body,
            },
            None => EventView::WebhookFailed,
        },
        ActionView::SendMessage { channel_id, content } => EventView::SendFinished {
            delivered: world.delivered,
        },
        ActionView::AddReaction(reaction) => EventView::ReactionFinished { added: world.added },
    }
}

/// A handling from some step to its end: the actions asked for, in order,
/// and the phase in which it came to rest.
pub struct Trace {
    pub actions: Seq<ActionView>,
    pub end: Phase,
}

/// The handling of `message` from `phase` on, when `event` happens and
/// `world` answers every action: steps are taken until one asks for nothing.
pub open spec fn run_from(
    config: ConfigView,
    message: IncomingMessageView,
    world: World,
    phase: Phase,
    event: EventView,
) -> Trace
    decreases phase.rank(),
{
    let (next, asked) = step_spec(config, message, phase, event);
    match asked {
        Some(action) => {
            let rest = run_from(config, message, world, next, answer(world, action));
            Trace { actions: seq![action] + rest.actions, end: rest.end }
        },
        None => Trace { actions: Seq::empty(), end: next },
    }
}

/// The whole handling of `message` in `world`: from its arrival to the step
/// that asks for nothing more.
pub open spec fn run(config: ConfigView, message: IncomingMessageView, world: World) -> Trace {
    run_from(config, message, world, Phase::Idle, EventView::Received)
}

/// A message from another channel or another author gets one failure
/// reaction and nothing else: no webhook call and no new message, whatever
/// its text. The handling is given up if the reaction cannot be put on.
pub proof fn lemma_no_match_reacts_once(
    config: ConfigView,
    message: IncomingMessageView,
    world: World,
)
    requires
        message.channel_id != config.channel_id || message.author_id != config.target_user_id,
    ensures
        run(config, message, world).actions == seq![ActionView::AddReaction(Reaction::Failure)],
        run(config, message, world).end == if world.added {
            Phase::Completed
        } else {
            Phase::Aborted
        },
{
    let first = ActionView::AddReaction(Reaction::Failure);
    let rest = run_from(
        config,
        message,
        world,
        Phase::AwaitingStrictReaction,
        answer(world, first),
    );
    assert(rest.actions =~= Seq::empty());
    assert(run(config, message, world).actions =~= seq![first]);
}

/// A message of the awaited author in the watched channel whose trimmed text
/// is not the target has no effect at all: no reaction, no webhook call, no
/// new message.
pub proof fn lemma_content_mismatch_is_silent(
    config: ConfigView,
    message: IncomingMessageView,
    world: World,
)
    requires
        message.channel_id == config.channel_id,
        message.author_id == config.target_user_id,
        trimmed(message.content) != config.target_text,
    ensures
        run(config, message, world).actions == Seq::<ActionView>::empty(),
        run(config, message, world).end == Phase::Completed,
{
}

/// When the awaited message comes and the webhook answers, with whatever
/// status, the webhook is called once, its body is posted as one new message
/// in the message's channel (nothing, if the body cannot be decoded), and
/// then one success reaction is put on, whether or not the post went
/// through. The handling is given up if the reaction cannot be put on.
pub proof fn lemma_trigger_relays_answer(
    config: ConfigView,
    message: IncomingMessageView,
    world: World,
)
    requires
        message.channel_id == config.channel_id,
        message.author_id == config.target_user_id,
        trimmed(message.content) == config.target_text,
        world.webhook is Some,
    ensures
        run(config, message, world).actions == seq![
            ActionView::CallWebhook { url: config.webhook_url },
            ActionView::SendMessage {
                channel_id: config.channel_id,
                content: relayed_text(world.webhook->0.body),
            },
            ActionView::AddReaction(Reaction::Success),
        ],
        run(config, message, world).end == if world.added {
            Phase::Completed
        } else {
            Phase::Aborted
        },
{
    let call = ActionView::CallWebhook { url: config.webhook_url };
    let send = ActionView::SendMessage {
        channel_id: config.channel_id,
        content: relayed_text(world.webhook->0.body),
    };
    let react = ActionView::AddReaction(Reaction::Success);
    let after_react = run_from(
        config,
        message,
        world,
        Phase::AwaitingStrictReaction,
        answer(world, react),
    );
    assert(after_react.actions =~= Seq::empty());
    let after_send = run_from(config, message, world, Phase::AwaitingSend, answer(world, send));
    assert(after_send.actions =~= seq![react]);
    let after_call = run_from(
        config,
        message,
        world,
        Phase::AwaitingWebhook,
        answer(world, call),
    );
    assert(after_call.actions =~= seq![send, react]);
    assert(run(config, message, world).actions =~= seq![call, send, react]);
}

/// When the awaited message comes and the webhook cannot be reached, the
/// webhook is called once, no message is posted, and one failure reaction is
/// attempted. Whether or not that reaction can be put on, the handling ends
/// normally.
pub proof fn lemma_unreachable_webhook_marks_failure(
    config: ConfigView,
    message: IncomingMessageView,
    world: World,
)
    requires
        message.channel_id == config.channel_id,
        message.author_id == config.target_user_id,
        trimmed(message.content) == config.target_text,
        world.webhook is None,
    ensures
        run(config, message, world).actions == seq![
            ActionView::CallWebhook { url: config.webhook_url },
            ActionView::AddReaction(Reaction::Failure),
        ],
        run(config, message, world).end == Phase::Completed,
{
    let call = ActionView::CallWebhook { url: config.webhook_url };
    let react = ActionView::AddReaction(Reaction::Failure);
    let after_react = run_from(
        config,
        message,
        world,
        Phase::AwaitingLenientReaction,
        answer(world, react),
    );
    assert(after_react.actions =~= Seq::empty());
    let after_call = run_from(
        config,
        message,
        world,
        Phase::AwaitingWebhook,
        answer(world, call),
    );
    assert(after_call.actions =~= seq![react]);
    assert(run(config, message, world).actions =~= seq![call, react]);
}

/// Every handling comes to its end after at most three actions, and calls
/// the webhook at most once, as its first action: nothing is tried again.
pub proof fn lemma_run_is_bounded(config: ConfigView, message: IncomingMessageView, world: World)
    ensures
        run(config, message, world).end.is_final(),
        run(config, message, world).actions.len() <= 3,
        forall|i: int|
            0 <= i < run(config, message, world).actions.len() && (#[trigger] run(
                config,
                message,
                world,
            ).actions[i]) is CallWebhook ==> i == 0,
{
    match verdict_of(config, message) {
        Verdict::NoMatch => lemma_no_match_reacts_once(config, message, world),
        Verdict::ContentMismatch => lemma_content_mismatch_is_silent(config, message, world),
        Verdict::ContentMatch => {
            if world.webhook is Some {
                lemma_trigger_relays_answer(config, message, world);
            } else {
                lemma_unreachable_webhook_marks_failure(config, message, world);
            }
        },
    }
}

/// For a target that neither begins nor ends with whitespace, the awaited
/// message is one of the awaited author in the watched channel whose text is
/// the target with nothing but whitespace before and after it; any other
/// difference in the text makes it another message.
pub proof fn lemma_match_iff_padded_target(config: ConfigView, message: IncomingMessageView)
    requires
        is_trim(config.target_text),
    ensures
        verdict_of(config, message) == Verdict::ContentMatch <==> {
            &&& message.channel_id == config.channel_id
            &&& message.author_id == config.target_user_id
            &&& exists|before: Seq<char>, after: Seq<char>|
                is_padded(message.content, before, config.target_text, after)
        },
{
    lemma_trims_to_target(message.content, config.target_text);
}

} // verus!
