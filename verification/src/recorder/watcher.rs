//! The bus watcher: what each bus message leads to, and when watching ends.
use crate::engine::{BusMessage, EngineState, MessageModel, Subject};
use crate::recorder::errors::{ErrorModel, RecorderError};
use crate::recorder::gst_pipeline::PipelineState;
use vstd::prelude::*;

verus! {

/// A state that the watcher publishes for the controller, with the failure
/// that led to it where there is one.
#[derive(Clone, Debug, PartialEq, Eq)]
pub struct Notice {
    pub state: PipelineState,
    pub failure: Option<RecorderError>,
}

/// Mathematical model of a [`Notice`].
pub struct NoticeModel {
    pub state: PipelineState,
    pub failure: Option<ErrorModel>,
}

impl View for Notice {
    type V = NoticeModel;

    open spec fn view(&self) -> NoticeModel {
        NoticeModel {
            state: self.state,
            failure: match self.failure {
                Some(e) => Some(e@),
                None => None,
            },
        }
    }
}

impl DeepView for Notice {
    type V = NoticeModel;

    open spec fn deep_view(&self) -> NoticeModel {
        self@
    }
}

impl NoticeModel {
    /// A terminal notice ends a run: the stream stopped, or it failed.
    pub open spec fn is_terminal(self) -> bool {
        self.state != PipelineState::Playing
    }
}

impl Notice {
    /// A copy with the same state and failure.
    pub fn duplicate(&self) -> (res: Notice)
        ensures
            res@ == self@,
    {
        let failure = match &self.failure {
            Some(e) => Some(e.duplicate()),
            None => None,
        };
        Notice { state: self.state, failure }
    }
}

/// What one bus message leads to.
#[derive(Clone, Debug, PartialEq, Eq)]
pub struct Verdict {
    /// The notice to publish, if the message calls for one.
    pub notice: Option<Notice>,
    /// Whether watching ends with this message.
    pub terminal: bool,
}

/// True for the messages that end a run: end of stream, and an error.
pub open spec fn ends_run(m: MessageModel) -> bool {
    m is Eos || m is Error
}

/// The notice a message calls for.
///
/// End of stream publishes `Stopped`; an error publishes `Error` with the
/// engine's text as an element error; the container reaching `Playing`
/// publishes `Playing`; nothing else is published.
pub open spec fn notice_for(m: MessageModel) -> Option<NoticeModel> {
    match m {
        MessageModel::Eos => Some(NoticeModel { state: PipelineState::Stopped, failure: None }),
        MessageModel::Error(text) => Some(
            NoticeModel {
                state: PipelineState::Error,
                failure: Some(ErrorModel::ElementError(text)),
            },
        ),
        MessageModel::StateChanged { subject, old, current, pending } => {
            if subject == Subject::Container && current == EngineState::Playing {
                Some(NoticeModel { state: PipelineState::Playing, failure: None })
            } else {
                None
            }
        },
        MessageModel::Other => None,
    }
}

/// The notices that a run of messages calls for, in order.
pub open spec fn notices_for(messages: Seq<MessageModel>) -> Seq<NoticeModel>
    decreases messages.len(),
{
    if messages.len() == 0 {
        Seq::empty()
    } else {
        let before = notices_for(messages.drop_last());
        match notice_for(messages.last()) {
            Some(n) => before.push(n),
            None => before,
        }
    }
}

/// Classifies one bus message.
pub fn judge(message: &BusMessage) -> (res: Verdict)
    ensures
        res.terminal == ends_run(message@),
        res.notice.deep_view() == notice_for(message@),
{
    match message {
        BusMessage::Eos => Verdict {
            notice: Some(Notice { state: PipelineState::Stopped, failure: None }),
            terminal: true,
        },
        BusMessage::Error(text) => Verdict {
            notice: Some(
                Notice {
                    state: PipelineState::Error,
                    failure: Some(RecorderError::ElementError(text.clone())),
                },
            ),
            terminal: true,
        },
        BusMessage::StateChanged { subject, old, current, pending } => {
            let playing = match (subject, current) {
                (Subject::Container, EngineState::Playing) => true,
                _ => false,
            };
            if playing {
                Verdict {
                    notice: Some(Notice { state: PipelineState::Playing, failure: None }),
                    terminal: false,
                }
            } else {
                Verdict { notice: None, terminal: false }
            }
        },
        BusMessage::Other => Verdict { notice: None, terminal: false },
    }
}

/// What a watcher did with a run of bus messages.
#[derive(Clone, Debug, PartialEq, Eq)]
pub struct WatchLog {
    /// The notices it published, in order.
    pub notices: Vec<Notice>,
    /// How many messages it took from the bus before it stopped.
    pub consumed: usize,
    /// Whether it stopped because of a terminal message.
    pub finished: bool,
}

/// A run of messages of which none ends the run leads to notices of
/// `Playing` only, none of them with a failure.
pub proof fn lemma_only_playing_before_the_end(messages: Seq<MessageModel>)
    requires
        forall|i: int| 0 <= i < messages.len() ==> !ends_run(#[trigger] messages[i]),
    ensures
        forall|k: int|
            0 <= k < notices_for(messages).len() ==> (#[trigger] notices_for(messages)[k])
                == (NoticeModel { state: PipelineState::Playing, failure: None }),
    decreases messages.len(),
{
    if messages.len() > 0 {
        let before = messages.drop_last();
        assert forall|i: int| 0 <= i < before.len() implies !ends_run(#[trigger] before[i]) by {
            assert(before[i] == messages[i]);
        }
        lemma_only_playing_before_the_end(before);
        assert(!ends_run(messages[messages.len() - 1]));
    }
}

/// A watcher that stopped at a message that ends the run has published
/// exactly one terminal notice, as its last: `Stopped` for an end of
/// stream, `Error` with the engine's text for an error. Every notice before
/// it is `Playing`.
pub proof fn lemma_one_terminal_notice(messages: Seq<MessageModel>, consumed: int)
    requires
        1 <= consumed <= messages.len(),
        forall|i: int| 0 <= i < consumed - 1 ==> !ends_run(#[trigger] messages[i]),
        ends_run(messages[consumed - 1]),
    ensures
        notices_for(messages.take(consumed)).len() >= 1,
        notices_for(messages.take(consumed)).last().is_terminal(),
        Some(notices_for(messages.take(consumed)).last()) == notice_for(messages[consumed - 1]),
        forall|k: int|
            0 <= k < notices_for(messages.take(consumed)).len() - 1 ==> !(
            #[trigger] notices_for(messages.take(consumed))[k]).is_terminal(),
{
    let taken = messages.take(consumed);
    let before = taken.drop_last();
    assert forall|i: int| 0 <= i < before.len() implies !ends_run(#[trigger] before[i]) by {
        assert(before[i] == messages[i]);
    }
    lemma_only_playing_before_the_end(before);
    assert(taken.last() == messages[consumed - 1]);
    let earlier = notices_for(before);
    let all = notices_for(taken);
    assert(all == earlier.push(notice_for(taken.last())->0));
    assert forall|k: int| 0 <= k < all.len() - 1 implies !(#[trigger] all[k]).is_terminal() by {
        assert(all[k] == earlier[k]);
    }
}

/// A watcher that took every message without meeting one that ends the
/// run has published no terminal notice.
pub proof fn lemma_no_terminal_notice_without_end(messages: Seq<MessageModel>)
    requires
        forall|i: int| 0 <= i < messages.len() ==> !ends_run(#[trigger] messages[i]),
    ensures
        forall|k: int|
            0 <= k < notices_for(messages).len() ==> !(#[trigger] notices_for(
                messages,
            )[k]).is_terminal(),
{
    lemma_only_playing_before_the_end(messages);
}

} // verus!
