//! Verifying another device: accepting its request and confirming whatever keys are exchanged.
use crate::text::{join, joined, texts};
use vstd::prelude::*;

verus! {

/// What is shown when the other device does not compare emojis.
pub const NO_EMOJIS: &'static str = "(not provided)";

/// How far the verification of a device has come.
#[derive(PartialEq, Eq, Structural, Clone, Copy)]
pub enum Stage {
    /// The request is accepted, and its course is followed.
    Requested,
    /// Short authentication strings are being compared.
    Comparing,
    /// Nothing is left to do.
    Finished,
}

/// What can happen to a verification.
pub enum Progress {
    /// The request turned into a concrete method: the comparison of short authentication strings,
    /// or another one.
    Transitioned { comparison: bool },
    /// The request was completed.
    RequestDone,
    /// The request was cancelled for the given reason.
    RequestCancelled(String),
    /// The request changed in some other way.
    RequestChanged,
    /// There is no more news of the request.
    RequestEnded,
    /// The keys were exchanged; the symbols are those to compare, if there are any.
    KeysExchanged(Option<Vec<String>>),
    /// The comparison was cancelled for the given reason.
    ComparisonCancelled(String),
    /// The comparison changed in some other way.
    ComparisonChanged,
    /// There is no more news of the comparison.
    ComparisonEnded,
}

/// What a verification asks for.
pub enum Reply {
    /// Nothing.
    Nothing,
    /// To accept the request.
    AcceptRequest,
    /// To accept the comparison.
    Accept,
    /// To show the symbols and confirm that they match.
    Confirm(String),
    /// To report that the device is verified.
    ReportVerified,
    /// To report why the verification was cancelled.
    ReportCancelled(String),
}

/// A [`Reply`] as what it asks for.
pub enum ReplyView {
    Nothing,
    AcceptRequest,
    Accept,
    Confirm(Seq<char>),
    ReportVerified,
    ReportCancelled(Seq<char>),
}

impl View for Reply {
    type V = ReplyView;

    open spec fn view(&self) -> ReplyView {
        match self {
            Reply::Nothing => ReplyView::Nothing,
            Reply::AcceptRequest => ReplyView::AcceptRequest,
            Reply::Accept => ReplyView::Accept,
            Reply::Confirm(symbols) => ReplyView::Confirm(symbols@),
            Reply::ReportVerified => ReplyView::ReportVerified,
            Reply::ReportCancelled(reason) => ReplyView::ReportCancelled(reason@),
        }
    }
}

/// The symbols to compare, as they are shown.
pub open spec fn symbols_text(symbols: Option<Vec<String>>) -> Seq<char> {
    match symbols {
        Some(list) => joined(texts(list@), " "@),
        None => NO_EMOJIS@,
    }
}

/// The symbols to compare, as they are shown: with a space between them, or a note that there are
/// none.
pub fn show_symbols(symbols: &Option<Vec<String>>) -> (text: String)
    ensures
        text@ == symbols_text(*symbols),
{
    match symbols {
        Some(list) => join(list, " "),
        None => NO_EMOJIS.to_owned(),
    }
}

impl Stage {
    /// The stage that follows.
    pub open spec fn after(self, progress: Progress) -> Stage {
        match (self, progress) {
            (Stage::Requested, Progress::Transitioned { comparison }) => if comparison {
                Stage::Comparing
            } else {
                Stage::Requested
            },
            (Stage::Requested, Progress::RequestEnded) => Stage::Finished,
            (Stage::Comparing, Progress::ComparisonCancelled(_)) => Stage::Finished,
            (Stage::Comparing, Progress::ComparisonEnded) => Stage::Finished,
            _ => self,
        }
    }

    /// What is asked for.
    pub open spec fn reply(self, progress: Progress) -> ReplyView {
        match (self, progress) {
            (Stage::Requested, Progress::Transitioned { comparison }) => if comparison {
                ReplyView::Accept
            } else {
                ReplyView::Nothing
            },
            (Stage::Requested, Progress::RequestDone) => ReplyView::ReportVerified,
            (Stage::Requested, Progress::RequestCancelled(reason)) => ReplyView::ReportCancelled(
                reason@,
            ),
            (Stage::Comparing, Progress::KeysExchanged(symbols)) => ReplyView::Confirm(
                symbols_text(symbols),
            ),
            (Stage::Comparing, Progress::ComparisonCancelled(reason)) => ReplyView::ReportCancelled(
                reason@,
            ),
            _ => ReplyView::Nothing,
        }
    }

    /// How a verification begins when a request for it comes in: the first stage, and what to do.
    pub fn first() -> (first: (Stage, Reply))
        ensures
            first.0 == Stage::Requested,
            first.1@ == ReplyView::AcceptRequest,
    {
        (Stage::Requested, Reply::AcceptRequest)
    }

    /// Takes in what happened: the stage that follows, and what to do.
    pub fn step(self, progress: Progress) -> (next: (Stage, Reply))
        ensures
            next.0 == self.after(progress),
            next.1@ == self.reply(progress),
    {
        match self {
            Stage::Requested => match progress {
                Progress::Transitioned { comparison } => if comparison {
                    (Stage::Comparing, Reply::Accept)
                } else {
                    (Stage::Requested, Reply::Nothing)
                },
                Progress::RequestDone => (Stage::Requested, Reply::ReportVerified),
                Progress::RequestCancelled(reason) => (
                    Stage::Requested,
                    Reply::ReportCancelled(reason),
                ),
                Progress::RequestEnded => (Stage::Finished, Reply::Nothing),
                _ => (Stage::Requested, Reply::Nothing),
            },
            Stage::Comparing => match progress {
                Progress::KeysExchanged(symbols) => (
                    Stage::Comparing,
                    Reply::Confirm(show_symbols(&symbols)),
                ),
                Progress::ComparisonCancelled(reason) => (
                    Stage::Finished,
                    Reply::ReportCancelled(reason),
                ),
                Progress::ComparisonEnded => (Stage::Finished, Reply::Nothing),
                _ => (Stage::Comparing, Reply::Nothing),
            },
            Stage::Finished => (Stage::Finished, Reply::Nothing),
        }
    }
}

/// A device is verified blindly: every comparison is accepted, and every exchange of keys during
/// it is confirmed, whatever the symbols are.
pub proof fn law_comparison_is_confirmed_blindly(symbols: Option<Vec<String>>)
    ensures
        Stage::Requested.reply(Progress::Transitioned { comparison: true }) == ReplyView::Accept,
        Stage::Requested.after(Progress::Transitioned { comparison: true }) == Stage::Comparing,
        Stage::Comparing.reply(Progress::KeysExchanged(symbols)) is Confirm,
        Stage::Comparing.after(Progress::KeysExchanged(symbols)) == Stage::Comparing,
{
}

/// Nothing is accepted or confirmed but in its own stage, a request only at the start, and a
/// finished verification asks for nothing any more.
pub proof fn law_verification_follows_its_stages(stage: Stage, progress: Progress)
    ensures
        !(stage.reply(progress) is AcceptRequest),
        stage.reply(progress) is Accept ==> stage == Stage::Requested,
        stage.reply(progress) is Confirm ==> stage == Stage::Comparing,
        stage.after(progress) == Stage::Requested ==> stage == Stage::Requested,
        stage == Stage::Finished ==> stage.after(progress) == Stage::Finished && stage.reply(
            progress,
        ) is Nothing,
{
}

/// The symbols to compare are shown in their order with spaces between them.
pub proof fn law_symbols_are_shown_in_order(symbols: Vec<String>)
    ensures
        symbols_text(Some(symbols)) == joined(texts(symbols@), " "@),
        symbols_text(None) == "(not provided)"@,
{
}

/// A reply is seen by what it asks for.
pub proof fn law_reply_asks_for_what_it_says(text: String)
    ensures
        Reply::Nothing@ == ReplyView::Nothing,
        Reply::AcceptRequest@ == ReplyView::AcceptRequest,
        Reply::Accept@ == ReplyView::Accept,
        Reply::Confirm(text)@ == ReplyView::Confirm(text@),
        Reply::ReportVerified@ == ReplyView::ReportVerified,
        Reply::ReportCancelled(text)@ == ReplyView::ReportCancelled(text@),
{
}

/// What each stage answers, whatever came before: a comparison is accepted, keys are confirmed with
/// the symbols shown, the end of a request is reported, and so is why anything was cancelled.
pub proof fn law_progress_is_answered(symbols: Option<Vec<String>>, reason: String)
    ensures
        Stage::Requested.reply(Progress::Transitioned { comparison: true }) == ReplyView::Accept,
        Stage::Requested.reply(Progress::Transitioned { comparison: false }) == ReplyView::Nothing,
        Stage::Requested.reply(Progress::RequestDone) == ReplyView::ReportVerified,
        Stage::Requested.reply(Progress::RequestCancelled(reason)) == ReplyView::ReportCancelled(
            reason@,
        ),
        Stage::Requested.reply(Progress::RequestChanged) == ReplyView::Nothing,
        Stage::Requested.reply(Progress::RequestEnded) == ReplyView::Nothing,
        Stage::Comparing.reply(Progress::KeysExchanged(symbols)) == ReplyView::Confirm(
            symbols_text(symbols),
        ),
        Stage::Comparing.reply(Progress::ComparisonCancelled(reason))
            == ReplyView::ReportCancelled(reason@),
        Stage::Comparing.reply(Progress::ComparisonChanged) == ReplyView::Nothing,
        Stage::Comparing.reply(Progress::ComparisonEnded) == ReplyView::Nothing,
{
}

/// A comparison begins only when a request turns into one. A verification finishes only when the
/// news of its request ends, or when its comparison is cancelled or ends.
pub proof fn law_verification_moves_on(stage: Stage, progress: Progress)
    ensures
        stage.after(progress) == Stage::Comparing <==> {
            ||| stage == Stage::Requested && progress == Progress::Transitioned { comparison: true }
            ||| stage == Stage::Comparing && !(progress is ComparisonCancelled)
                && !(progress is ComparisonEnded)
        },
        stage.after(progress) == Stage::Finished <==> {
            ||| stage == Stage::Finished
            ||| stage == Stage::Requested && progress is RequestEnded
            ||| stage == Stage::Comparing && (progress is ComparisonCancelled
                || progress is ComparisonEnded)
        },
        stage == Stage::Requested && (progress is KeysExchanged || progress is ComparisonCancelled
            || progress is ComparisonChanged || progress is ComparisonEnded) ==> stage.reply(
            progress,
        ) == ReplyView::Nothing,
        stage == Stage::Comparing && (progress is Transitioned || progress is RequestDone
            || progress is RequestCancelled || progress is RequestChanged
            || progress is RequestEnded) ==> stage.reply(progress) == ReplyView::Nothing,
{
}

} // verus!
