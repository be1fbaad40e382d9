//! The course of a journal: when to sync, when to save, and when each message is written.
//!
//! A journal first catches up with what happened while nobody was listening. Until that is done
//! messages wait, so that they can be written in the order of their times. From then on each is
//! written as it arrives, until the connection fails and it is time to catch up again.
use crate::event::IncomingEvent;
use crate::message::{Message, MessageView};
use crate::queue::{in_time_order, inserted, message_views, queued, SortQueue};
use crate::settings::Settings;
use crate::text::{copy_optional, optional_text};
use vstd::prelude::*;
use vstd::seq_lib::lemma_multiset_commutative;

verus! {

/// What the journal waits for.
#[derive(PartialEq, Eq, Structural, Clone, Copy)]
pub enum Phase {
    /// For the sync that catches up.
    CatchingUp,
    /// For the settings to be saved after catching up.
    SavingCatchUp,
    /// For batches of new events.
    Listening,
    /// For the settings to be saved after a batch.
    SavingBatch,
    /// For nothing any more.
    Ended,
}

/// What can happen to a journal.
pub enum Input {
    /// A message arrived.
    Arrived(Message),
    /// The sync that catches up succeeded and ended at the given token.
    CaughtUp(String),
    /// The sync that catches up failed.
    CatchUpFailed,
    /// A batch of new events was received and ended at the given token.
    Batch(String),
    /// The settings were saved.
    Saved,
    /// The settings could not be saved.
    SaveFailed,
    /// Listening ended with an error.
    Disconnected,
    /// Listening ended without an error.
    Finished,
}

/// What the journal asks for.
pub enum Action {
    /// Nothing.
    Nothing,
    /// To write the messages.
    Write(Vec<Message>),
    /// To sync once from the given token, or from the start.
    Sync(Option<String>),
    /// To save the settings.
    Save,
    /// To write the messages, and then to listen from the given token.
    Listen(Vec<Message>, Option<String>),
    /// To stop listening, with an error.
    Abandon,
    /// To end without an error.
    Stop,
    /// To end with the error with which saving failed.
    Fail,
}

/// An [`Action`] as what it asks for.
pub enum ActionView {
    Nothing,
    Write(Seq<MessageView>),
    Sync(Option<Seq<char>>),
    Save,
    Listen(Seq<MessageView>, Option<Seq<char>>),
    Abandon,
    Stop,
    Fail,
}

impl View for Action {
    type V = ActionView;

    open spec fn view(&self) -> ActionView {
        match self {
            Action::Nothing => ActionView::Nothing,
            Action::Write(messages) => ActionView::Write(message_views(messages@)),
            Action::Sync(from) => ActionView::Sync(optional_text(*from)),
            Action::Save => ActionView::Save,
            Action::Listen(messages, from) => ActionView::Listen(
                message_views(messages@),
                optional_text(*from),
            ),
            Action::Abandon => ActionView::Abandon,
            Action::Stop => ActionView::Stop,
            Action::Fail => ActionView::Fail,
        }
    }
}

/// A journal under way.
pub struct Journal {
    settings: Settings,
    queue: SortQueue,
    enqueueing: bool,
    phase: Phase,
}

/// The state of a [`Journal`].
pub struct JournalView {
    /// What is kept between runs.
    pub settings: Settings,
    /// The messages that wait.
    pub queue: Seq<MessageView>,
    /// Whether messages have to wait.
    pub enqueueing: bool,
    /// What is waited for.
    pub phase: Phase,
}

impl JournalView {
    /// Whether the state is one that a journal can be in: what waits is in order, nothing waits
    /// while messages are written as they arrive, and they wait exactly while catching up.
    pub open spec fn valid(self) -> bool {
        &&& in_time_order(self.queue)
        &&& !self.enqueueing ==> self.queue.len() == 0
        &&& self.phase == Phase::CatchingUp || self.phase == Phase::SavingCatchUp
            ==> self.enqueueing
        &&& self.phase == Phase::Listening || self.phase == Phase::SavingBatch ==> !self.enqueueing
    }

    /// Where the next sync starts.
    pub open spec fn token(self) -> Option<Seq<char>> {
        optional_text(self.settings.sync_token)
    }

    /// The state with another token.
    pub open spec fn with_token(self, token: String) -> JournalView {
        JournalView { settings: Settings { sync_token: Some(token), ..self.settings }, ..self }
    }

    /// The state at the start.
    pub open spec fn initial(settings: Settings) -> JournalView {
        JournalView {
            settings,
            queue: Seq::empty(),
            enqueueing: true,
            phase: Phase::CatchingUp,
        }
    }

    /// The state after something happened.
    pub open spec fn after(self, input: Input) -> JournalView {
        match (input, self.phase) {
            (Input::Arrived(message), _) => if self.enqueueing {
                JournalView { queue: inserted(self.queue, message@), ..self }
            } else {
                self
            },
            (Input::CaughtUp(token), Phase::CatchingUp) => JournalView {
                phase: Phase::SavingCatchUp,
                ..self.with_token(token)
            },
            (Input::Batch(token), Phase::Listening) => JournalView {
                phase: Phase::SavingBatch,
                ..self.with_token(token)
            },
            (Input::Saved, Phase::SavingCatchUp) => JournalView {
                queue: Seq::empty(),
                enqueueing: false,
                phase: Phase::Listening,
                ..self
            },
            (Input::Saved, Phase::SavingBatch) => JournalView { phase: Phase::Listening, ..self },
            (Input::SaveFailed, Phase::SavingCatchUp) => JournalView {
                phase: Phase::Ended,
                ..self
            },
            (Input::SaveFailed, Phase::SavingBatch) => JournalView {
                phase: Phase::Listening,
                ..self
            },
            (Input::Disconnected, Phase::Listening) => JournalView {
                enqueueing: true,
                phase: Phase::CatchingUp,
                ..self
            },
            (Input::Finished, Phase::Listening) => JournalView { phase: Phase::Ended, ..self },
            _ => self,
        }
    }

    /// What is asked for when something happens.
    pub open spec fn action(self, input: Input) -> ActionView {
        match (input, self.phase) {
            (Input::Arrived(message), _) => if self.enqueueing {
                ActionView::Nothing
            } else {
                ActionView::Write(seq![message@])
            },
            (Input::CaughtUp(_), Phase::CatchingUp) => ActionView::Save,
            (Input::CatchUpFailed, Phase::CatchingUp) => ActionView::Sync(self.token()),
            (Input::Batch(_), Phase::Listening) => ActionView::Save,
            (Input::Saved, Phase::SavingCatchUp) => ActionView::Listen(self.queue, self.token()),
            (Input::SaveFailed, Phase::SavingCatchUp) => ActionView::Fail,
            (Input::SaveFailed, Phase::SavingBatch) => ActionView::Abandon,
            (Input::Disconnected, Phase::Listening) => ActionView::Sync(self.token()),
            (Input::Finished, Phase::Listening) => ActionView::Stop,
            _ => ActionView::Nothing,
        }
    }

    /// The state after all that happened.
    pub open spec fn after_all(self, inputs: Seq<Input>) -> JournalView
        decreases inputs.len(),
    {
        if inputs.len() == 0 {
            self
        } else {
            self.after_all(inputs.drop_last()).after(inputs.last())
        }
    }

    /// The messages written during all that happened, in the order in which they were written.
    pub open spec fn written(self, inputs: Seq<Input>) -> Seq<MessageView>
        decreases inputs.len(),
    {
        if inputs.len() == 0 {
            Seq::empty()
        } else {
            let before = inputs.drop_last();
            self.written(before) + messages_to_write(
                self.after_all(before).action(inputs.last()),
            )
        }
    }
}

/// The messages that an action asks to write, in the order in which it asks for them.
pub open spec fn messages_to_write(action: ActionView) -> Seq<MessageView> {
    match action {
        ActionView::Write(messages) => messages,
        ActionView::Listen(messages, _) => messages,
        _ => Seq::empty(),
    }
}

/// The messages among the things that happened, in the order in which they arrived.
pub open spec fn arrivals(inputs: Seq<Input>) -> Seq<MessageView>
    decreases inputs.len(),
{
    if inputs.len() == 0 {
        Seq::empty()
    } else {
        match inputs.last() {
            Input::Arrived(message) => arrivals(inputs.drop_last()).push(message@),
            _ => arrivals(inputs.drop_last()),
        }
    }
}

impl View for Journal {
    type V = JournalView;

    closed spec fn view(&self) -> JournalView {
        JournalView {
            settings: self.settings,
            queue: self.queue@,
            enqueueing: self.enqueueing,
            phase: self.phase,
        }
    }
}

impl Journal {
    /// A journal that goes on from where the settings say the last one ended.
    pub fn new(settings: Settings) -> (journal: Journal)
        ensures
            journal@ == JournalView::initial(settings),
            journal@.valid(),
    {
        Journal { settings, queue: SortQueue::new(), enqueueing: true, phase: Phase::CatchingUp }
    }

    /// A journal that goes on from where the settings say the last one ended, and what to do
    /// first: to sync from there.
    pub fn start(settings: Settings) -> (started: (Journal, Action))
        ensures
            started.0@ == JournalView::initial(settings),
            started.0@.valid(),
            started.1@ == ActionView::Sync(optional_text(settings.sync_token)),
    {
        let journal = Journal::new(settings);
        let from = journal.resume_from();
        (journal, Action::Sync(from))
    }

    /// What is kept between runs.
    pub fn settings(&self) -> (settings: &Settings)
        ensures
            *settings == self@.settings,
    {
        &self.settings
    }

    /// Where the next sync starts.
    pub fn resume_from(&self) -> (token: Option<String>)
        ensures
            optional_text(token) == self@.token(),
    {
        copy_optional(&self.settings.sync_token)
    }

    /// Takes in what happened and says what to do about it.
    pub fn step(&mut self, input: Input) -> (action: Action)
        requires
            old(self)@.valid(),
        ensures
            final(self)@.valid(),
            final(self)@ == old(self)@.after(input),
            action@ == old(self)@.action(input),
    {
        let ghost before = self@;
        proof {
            law_journal_stays_valid(before, input);
        }
        match input {
            Input::Arrived(message) => {
                if self.enqueueing {
                    self.queue.push(message);
                    Action::Nothing
                } else {
                    let mut messages: Vec<Message> = Vec::new();
                    messages.push(message);
                    proof {
                        assert(message_views(messages@) =~= seq![message@]);
                    }
                    Action::Write(messages)
                }
            },
            Input::CaughtUp(token) => match self.phase {
                Phase::CatchingUp => {
                    self.settings.update_sync_token(token);
                    self.phase = Phase::SavingCatchUp;
                    Action::Save
                },
                _ => Action::Nothing,
            },
            Input::CatchUpFailed => match self.phase {
                Phase::CatchingUp => Action::Sync(self.resume_from()),
                _ => Action::Nothing,
            },
            Input::Batch(token) => match self.phase {
                Phase::Listening => {
                    self.settings.update_sync_token(token);
                    self.phase = Phase::SavingBatch;
                    Action::Save
                },
                _ => Action::Nothing,
            },
            Input::Saved => match self.phase {
                Phase::SavingCatchUp => {
                    self.enqueueing = false;
                    self.phase = Phase::Listening;
                    let backlog = self.queue.drain();
                    Action::Listen(backlog, self.resume_from())
                },
                Phase::SavingBatch => {
                    self.phase = Phase::Listening;
                    Action::Nothing
                },
                _ => Action::Nothing,
            },
            Input::SaveFailed => match self.phase {
                Phase::SavingCatchUp => {
                    self.phase = Phase::Ended;
                    Action::Fail
                },
                Phase::SavingBatch => {
                    self.phase = Phase::Listening;
                    Action::Abandon
                },
                _ => Action::Nothing,
            },
            Input::Disconnected => match self.phase {
                Phase::Listening => {
                    self.enqueueing = true;
                    self.phase = Phase::CatchingUp;
                    Action::Sync(self.resume_from())
                },
                _ => Action::Nothing,
            },
            Input::Finished => match self.phase {
                Phase::Listening => {
                    self.phase = Phase::Ended;
                    Action::Stop
                },
                _ => Action::Nothing,
            },
        }
    }
}

/// The event to send a read receipt for, if receipts are to be sent.
pub fn receipt_for(event: &IncomingEvent, acknowledge: bool) -> (receipt: Option<String>)
    ensures
        optional_text(receipt) == if acknowledge {
            Some(event.spec_header().event_id@)
        } else {
            None::<Seq<char>>
        },
{
    if acknowledge {
        Some(event.id().to_owned())
    } else {
        None
    }
}

/// Whatever happens, the state of a journal stays valid.
pub proof fn law_journal_stays_valid(state: JournalView, input: Input)
    requires
        state.valid(),
    ensures
        state.after(input).valid(),
{
    if let Input::Arrived(message) = input {
        crate::queue::law_insertion_keeps_order(state.queue, message@);
    }
}

/// Whatever happens, every message that arrives is written exactly once or still waits.
pub proof fn law_nothing_is_lost_or_repeated(state: JournalView, inputs: Seq<Input>)
    requires
        state.valid(),
    ensures
        state.after_all(inputs).valid(),
        (state.written(inputs) + state.after_all(inputs).queue).to_multiset() == (state.queue
            + arrivals(inputs)).to_multiset(),
    decreases inputs.len(),
{
    if inputs.len() == 0 {
        assert(state.written(inputs) + state.queue =~= state.queue);
        assert(state.queue + arrivals(inputs) =~= state.queue);
    } else {
        let earlier = inputs.drop_last();
        let input = inputs.last();
        let middle = state.after_all(earlier);
        let end = middle.after(input);
        let asked = messages_to_write(middle.action(input));
        law_nothing_is_lost_or_repeated(state, earlier);
        law_journal_stays_valid(middle, input);
        let rest = asked + end.queue;
        match input {
            Input::Arrived(message) => {
                arrivals(earlier).to_multiset_ensures();
                middle.queue.to_multiset_ensures();
                if middle.enqueueing {
                    crate::queue::law_insertion_adds_one(middle.queue, message@);
                    assert(rest =~= inserted(middle.queue, message@));
                } else {
                    assert(rest =~= middle.queue.push(message@));
                }
                assert(rest.to_multiset() == middle.queue.to_multiset().insert(message@));
                assert(arrivals(inputs).to_multiset() == arrivals(earlier).to_multiset().insert(
                    message@,
                ));
            },
            _ => {
                assert(rest =~= middle.queue);
            },
        }
        assert(state.written(inputs) + end.queue =~= state.written(earlier) + rest);
        lemma_multiset_commutative(state.written(earlier), rest);
        lemma_multiset_commutative(state.written(earlier), middle.queue);
        lemma_multiset_commutative(state.queue, arrivals(inputs));
        lemma_multiset_commutative(state.queue, arrivals(earlier));
        if let Input::Arrived(message) = input {
            let done = state.written(earlier).to_multiset();
            let waiting = state.queue.to_multiset();
            assert(done.add(middle.queue.to_multiset().insert(message@)) =~= done.add(
                middle.queue.to_multiset(),
            ).insert(message@));
            assert(waiting.add(arrivals(earlier).to_multiset().insert(message@)) =~= waiting.add(
                arrivals(earlier).to_multiset(),
            ).insert(message@));
        }
    }
}

/// A journal that listens has written everything that ever arrived, each message once.
pub proof fn law_listening_has_written_everything(settings: Settings, inputs: Seq<Input>)
    requires
        JournalView::initial(settings).after_all(inputs).phase == Phase::Listening,
    ensures
        JournalView::initial(settings).written(inputs).to_multiset() == arrivals(
            inputs,
        ).to_multiset(),
{
    let state = JournalView::initial(settings);
    law_nothing_is_lost_or_repeated(state, inputs);
    assert(state.written(inputs) + state.after_all(inputs).queue =~= state.written(inputs));
    assert(state.queue + arrivals(inputs) =~= arrivals(inputs));
}

/// While nothing has to wait, messages are written as they arrive and in that order.
pub proof fn law_live_messages_keep_order(state: JournalView, inputs: Seq<Input>)
    requires
        state.valid(),
        forall|n: int|
            0 <= n <= inputs.len() ==> !(#[trigger] state.after_all(inputs.take(n))).enqueueing,
    ensures
        state.written(inputs) == arrivals(inputs),
    decreases inputs.len(),
{
    if inputs.len() > 0 {
        let earlier = inputs.drop_last();
        assert forall|n: int| 0 <= n <= earlier.len() implies !(#[trigger] state.after_all(
            earlier.take(n),
        )).enqueueing by {
            assert(earlier.take(n) == inputs.take(n));
        }
        law_live_messages_keep_order(state, earlier);
        let middle = state.after_all(earlier);
        assert(earlier == inputs.take(inputs.len() - 1));
        assert(inputs.take(inputs.len() as int) == inputs);
        assert(!state.after_all(inputs).enqueueing);
        law_nothing_is_lost_or_repeated(state, earlier);
        assert(messages_to_write(middle.action(inputs.last())) =~= match inputs.last() {
            Input::Arrived(message) => seq![message@],
            _ => Seq::<MessageView>::empty(),
        });
    }
}

/// While a journal catches up nothing is written, and what arrives waits in the order of its
/// times: this is what is written, in this order, when the journal has caught up.
pub proof fn law_backlog_is_sorted(state: JournalView, inputs: Seq<Input>)
    requires
        state.valid(),
        state.queue.len() == 0,
        forall|n: int| 0 <= n <= inputs.len() ==> (#[trigger] state.after_all(inputs.take(n))).enqueueing,
    ensures
        state.written(inputs) == Seq::<MessageView>::empty(),
        state.after_all(inputs).queue == queued(arrivals(inputs)),
    decreases inputs.len(),
{
    if inputs.len() == 0 {
        assert(state.queue =~= Seq::<MessageView>::empty());
    } else {
        let earlier = inputs.drop_last();
        assert forall|n: int| 0 <= n <= earlier.len() implies (#[trigger] state.after_all(
            earlier.take(n),
        )).enqueueing by {
            assert(earlier.take(n) == inputs.take(n));
        }
        law_backlog_is_sorted(state, earlier);
        assert(inputs.take(inputs.len() as int) == inputs);
        assert(earlier.take(earlier.len() as int) == earlier);
        assert(earlier == inputs.take(inputs.len() - 1));
        assert(state.after_all(inputs).enqueueing);
        assert(state.after_all(earlier).enqueueing);
        match inputs.last() {
            Input::Arrived(message) => {
                assert(arrivals(inputs).drop_last() == arrivals(earlier));
            },
            _ => {},
        }
    }
}

/// A journal always goes on from where its last sync ended: only a sync moves the token, nothing
/// else of what is kept ever changes, and every sync starts at the token.
pub proof fn law_sync_resumes_at_last_token(state: JournalView, input: Input)
    ensures
        state.after(input).settings == (Settings {
            sync_token: state.after(input).settings.sync_token,
            ..state.settings
        }),
        state.after(input).settings.sync_token == match (input, state.phase) {
            (Input::CaughtUp(token), Phase::CatchingUp) => Some(token),
            (Input::Batch(token), Phase::Listening) => Some(token),
            _ => state.settings.sync_token,
        },
        state.action(input) matches ActionView::Sync(from) ==> from == state.after(input).token(),
        state.action(input) matches ActionView::Listen(_, from) ==> from == state.after(
            input,
        ).token(),
{
}

/// The token moves on only together with a request to save it, and what waits is written only
/// once it is saved.
pub proof fn law_token_is_saved_before_backlog(state: JournalView, input: Input)
    ensures
        state.after(input).settings != state.settings ==> state.action(input) is Save,
        state.action(input) is Listen ==> input is Saved && state.phase == Phase::SavingCatchUp,
{
}

/// A journal outlives failing connections: it ends only when listening ends without an error, or
/// when the settings cannot be saved after catching up.
pub proof fn law_failed_connection_is_retried(state: JournalView, input: Input)
    ensures
        state.phase != Phase::Ended && state.after(input).phase == Phase::Ended ==> {
            ||| input is Finished && state.action(input) is Stop
            ||| input is SaveFailed && state.action(input) is Fail
        },
        state.phase == Phase::CatchingUp && input is CatchUpFailed ==> state.action(input)
            == ActionView::Sync(state.token()) && state.after(input) == state,
        state.phase == Phase::Listening && input is Disconnected ==> state.action(input)
            == ActionView::Sync(state.token()) && state.after(input).phase == Phase::CatchingUp,
{
}

/// A journal starts by catching up, with the settings it was given and nothing that waits.
pub proof fn law_journal_starts_by_catching_up(settings: Settings)
    ensures
        ({
            let start = JournalView::initial(settings);
            &&& start.settings == settings
            &&& start.queue.len() == 0
            &&& start.enqueueing
            &&& start.phase == Phase::CatchingUp
        }),
        JournalView::initial(settings).valid(),
{
}

/// A message that arrives while messages wait is put in its place among them, and nothing is
/// written. Otherwise it is written at once, alone, and nothing else changes.
pub proof fn law_arrival_waits_or_is_written(state: JournalView, message: Message)
    ensures
        ({
            let next = state.after(Input::Arrived(message));
            let action = state.action(Input::Arrived(message));
            &&& next.settings == state.settings
            &&& next.enqueueing == state.enqueueing
            &&& next.phase == state.phase
            &&& state.enqueueing ==> next.queue == inserted(state.queue, message@) && action
                == ActionView::Nothing
            &&& !state.enqueueing ==> next.queue == state.queue && action == ActionView::Write(
                seq![message@],
            )
        }),
{
}

/// A sync that caught up leads to saving its token, while everything goes on waiting.
pub proof fn law_caught_up_token_is_saved(state: JournalView, token: String)
    requires
        state.phase == Phase::CatchingUp,
    ensures
        ({
            let next = state.after(Input::CaughtUp(token));
            &&& state.action(Input::CaughtUp(token)) == ActionView::Save
            &&& next.phase == Phase::SavingCatchUp
            &&& next.settings == (Settings { sync_token: Some(token), ..state.settings })
            &&& next.queue == state.queue
            &&& next.enqueueing == state.enqueueing
        }),
{
}

/// Once the token is saved, whatever the settings are, all that waited is written in its order and
/// the journal listens from that token; from then on nothing waits.
pub proof fn law_saved_catch_up_leads_to_listening(state: JournalView)
    requires
        state.phase == Phase::SavingCatchUp,
    ensures
        ({
            let next = state.after(Input::Saved);
            &&& state.settings.sync_token matches Some(token) ==> state.action(Input::Saved)
                == ActionView::Listen(state.queue, Some(token@))
            &&& state.settings.sync_token is None ==> state.action(Input::Saved)
                == ActionView::Listen(state.queue, None)
            &&& next.phase == Phase::Listening
            &&& !next.enqueueing
            &&& next.queue.len() == 0
            &&& next.settings == state.settings
        }),
{
}

/// A batch of new events leads to saving its token, and then to listening again, whether or not
/// it could be saved; where it could not, the listening that goes on is given up.
pub proof fn law_batch_token_is_saved(state: JournalView, token: String)
    ensures
        state.phase == Phase::Listening ==> {
            let next = state.after(Input::Batch(token));
            &&& state.action(Input::Batch(token)) == ActionView::Save
            &&& next.phase == Phase::SavingBatch
            &&& next.settings == (Settings { sync_token: Some(token), ..state.settings })
            &&& next.queue == state.queue
            &&& next.enqueueing == state.enqueueing
        },
        state.phase == Phase::SavingBatch ==> {
            &&& state.action(Input::Saved) == ActionView::Nothing
            &&& state.action(Input::SaveFailed) == ActionView::Abandon
            &&& state.after(Input::Saved) == (JournalView { phase: Phase::Listening, ..state })
            &&& state.after(Input::SaveFailed) == (JournalView { phase: Phase::Listening, ..state })
        },
{
}

/// A connection that fails leads back to catching up from the token that is kept, with messages
/// waiting from then on; a sync that fails is tried again as it was.
pub proof fn law_failed_connection_leads_to_catching_up(state: JournalView)
    ensures
        ({
            let from = match state.settings.sync_token {
                Some(token) => Some(token@),
                None => None,
            };
            &&& state.token() == from
            &&& state.phase == Phase::Listening ==> state.action(Input::Disconnected)
                == ActionView::Sync(from)
            &&& state.phase == Phase::CatchingUp ==> state.action(Input::CatchUpFailed)
                == ActionView::Sync(from)
        }),
        state.phase == Phase::Listening ==> state.after(Input::Disconnected) == (JournalView {
            enqueueing: true,
            phase: Phase::CatchingUp,
            ..state
        }),
        state.phase == Phase::CatchingUp ==> state.after(Input::CatchUpFailed) == state,
{
}

/// A journal ends with the error where catching up could not be saved, and without one where
/// listening ended regularly. Both leave all else as it was.
pub proof fn law_journal_ends_in_two_ways(state: JournalView)
    ensures
        state.phase == Phase::SavingCatchUp ==> state.action(Input::SaveFailed) == ActionView::Fail
            && state.after(Input::SaveFailed) == (JournalView { phase: Phase::Ended, ..state }),
        state.phase == Phase::Listening ==> state.action(Input::Finished) == ActionView::Stop
            && state.after(Input::Finished) == (JournalView { phase: Phase::Ended, ..state }),
{
}

/// News that the journal does not wait for changes nothing and asks for nothing.
pub proof fn law_unexpected_news_changes_nothing(state: JournalView, input: Input)
    requires
        !(input is Arrived),
        (input is CaughtUp || input is CatchUpFailed) ==> state.phase != Phase::CatchingUp,
        (input is Batch || input is Disconnected || input is Finished) ==> state.phase
            != Phase::Listening,
        (input is Saved || input is SaveFailed) ==> state.phase != Phase::SavingCatchUp
            && state.phase != Phase::SavingBatch,
    ensures
        state.after(input) == state,
        state.action(input) == ActionView::Nothing,
{
}

/// An action is seen by what it asks for.
pub proof fn law_action_asks_for_what_it_says(messages: Vec<Message>, from: Option<String>)
    ensures
        Action::Nothing@ == ActionView::Nothing,
        Action::Write(messages)@ == ActionView::Write(message_views(messages@)),
        Action::Sync(from)@ == ActionView::Sync(optional_text(from)),
        Action::Save@ == ActionView::Save,
        Action::Listen(messages, from)@ == ActionView::Listen(
            message_views(messages@),
            optional_text(from),
        ),
        Action::Abandon@ == ActionView::Abandon,
        Action::Stop@ == ActionView::Stop,
        Action::Fail@ == ActionView::Fail,
{
}

/// A journal takes in one thing after another. What it writes is what each asks to write, and what
/// arrives is each message that does.
pub proof fn law_journal_goes_step_by_step(state: JournalView, inputs: Seq<Input>, input: Input)
    ensures
        state.after_all(Seq::empty()) == state,
        state.written(Seq::empty()) == Seq::<MessageView>::empty(),
        arrivals(Seq::empty()) == Seq::<MessageView>::empty(),
        state.after_all(inputs.push(input)) == state.after_all(inputs).after(input),
        state.written(inputs.push(input)) == state.written(inputs) + match state.after_all(
            inputs,
        ).action(input) {
            ActionView::Write(messages) => messages,
            ActionView::Listen(messages, _) => messages,
            _ => Seq::<MessageView>::empty(),
        },
        arrivals(inputs.push(input)) == match input {
            Input::Arrived(message) => arrivals(inputs).push(message@),
            _ => arrivals(inputs),
        },
{
    assert(inputs.push(input).drop_last() == inputs);
}

/// The arrival of each of the messages.
pub open spec fn arriving(messages: Seq<Message>) -> Seq<Input> {
    Seq::new(messages.len(), |i: int| Input::Arrived(messages[i]))
}

/// While messages arrive before anything else happens, they wait in a queue.
proof fn lemma_arrivals_wait(settings: Settings, messages: Seq<Message>)
    ensures
        ({
            let start = JournalView::initial(settings);
            let end = start.after_all(arriving(messages));
            &&& end == (JournalView { queue: queued(message_views(messages)), ..start })
            &&& start.written(arriving(messages)) == Seq::<MessageView>::empty()
        }),
    decreases messages.len(),
{
    if messages.len() == 0 {
        assert(arriving(messages) =~= Seq::<Input>::empty());
        assert(message_views(messages) =~= Seq::<MessageView>::empty());
    } else {
        let earlier = messages.drop_last();
        lemma_arrivals_wait(settings, earlier);
        assert(arriving(messages).drop_last() =~= arriving(earlier));
        assert(arriving(messages).last() == Input::Arrived(messages.last()));
        assert(message_views(messages).drop_last() =~= message_views(earlier));
    }
}

/// A journal that comes back after a while writes exactly what arrived meanwhile, in the order of
/// the times, each message once, as soon as the token is saved; then it listens from that token.
pub proof fn law_absence_is_caught_up(settings: Settings, messages: Seq<Message>, token: String)
    ensures
        ({
            let start = JournalView::initial(settings);
            let synced = arriving(messages).push(Input::CaughtUp(token));
            let done = synced.push(Input::Saved);
            let written = start.written(done);
            &&& start.written(synced).len() == 0
            &&& start.after_all(arriving(messages)).action(Input::CaughtUp(token))
                == ActionView::Save
            &&& start.after_all(synced).action(Input::Saved) == ActionView::Listen(
                written,
                Some(token@),
            )
            &&& forall|i: int, j: int|
                0 <= i <= j < written.len() ==> (#[trigger] written[i]).ts <= (
                #[trigger] written[j]).ts
            &&& written.to_multiset() == message_views(messages).to_multiset()
            &&& start.after_all(done).phase == Phase::Listening
            &&& !start.after_all(done).enqueueing
            &&& start.after_all(done).settings == (Settings {
                sync_token: Some(token),
                ..settings
            })
        }),
{
    let start = JournalView::initial(settings);
    let came = arriving(messages);
    let synced = came.push(Input::CaughtUp(token));
    let done = synced.push(Input::Saved);
    lemma_arrivals_wait(settings, messages);
    law_journal_goes_step_by_step(start, came, Input::CaughtUp(token));
    law_journal_goes_step_by_step(start, synced, Input::Saved);
    crate::queue::law_queue_sorts_stably(message_views(messages));
    assert(start.written(synced) =~= Seq::<MessageView>::empty());
    assert(start.written(done) =~= queued(message_views(messages)));
}

} // verus!
