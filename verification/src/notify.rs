//! Notification channels: sending one message through several of them, and
//! what the outcome of that is.

use vstd::prelude::*;
use vstd::string::*;
use crate::error::join;

verus! {

/// The view of what sending came to.
pub open spec fn sent_view(r: Result<(), String>) -> Result<(), Seq<char>> {
    match r {
        Ok(()) => Ok(()),
        Err(m) => Err(m@),
    }
}

/// A channel through which a message can be sent. A failure is reported by
/// its text.
pub trait Notifier {
    /// Whether sending `message` through the channel can come to `outcome`.
    /// A channel that says nothing of itself can come to anything.
    open spec fn delivers(&self, message: Seq<char>, outcome: Result<(), Seq<char>>) -> bool {
        true
    }

    /// Sends the message, and says what came of it.
    fn send(&self, message: &str) -> (r: Result<(), String>)
        ensures
            self.delivers(message@, sent_view(r)),
    ;
}

/// The channel that sends nothing and never fails.
#[derive(Debug)]
pub struct NoopNotifier;

impl Notifier for NoopNotifier {
    open spec fn delivers(&self, message: Seq<char>, outcome: Result<(), Seq<char>>) -> bool {
        outcome is Ok
    }

    fn send(&self, message: &str) -> (r: Result<(), String>)
        ensures
            r is Ok,
    {
        Ok(())
    }
}

/// The texts of a sequence, with `sep` between each two.
pub open spec fn joined(parts: Seq<Seq<char>>, sep: Seq<char>) -> Seq<char>
    decreases parts.len(),
{
    if parts.len() == 0 {
        Seq::empty()
    } else if parts.len() == 1 {
        parts[0]
    } else {
        joined(parts.drop_last(), sep) + sep + parts.last()
    }
}

/// The texts of the failures among some outcomes, in their order.
pub open spec fn failures(outcomes: Seq<Result<(), Seq<char>>>) -> Seq<Seq<char>>
    decreases outcomes.len(),
{
    if outcomes.len() == 0 {
        Seq::empty()
    } else {
        match outcomes.last() {
            Ok(()) => failures(outcomes.drop_last()),
            Err(m) => failures(outcomes.drop_last()).push(m),
        }
    }
}

/// What sending through several channels comes to: a failure only if every
/// channel failed and there was at least one, with the texts of all the
/// failures.
pub open spec fn summary(outcomes: Seq<Result<(), Seq<char>>>) -> Result<(), Seq<char>> {
    let failed = failures(outcomes);
    if failed.len() > 0 && failed.len() == outcomes.len() {
        Err("All notifiers failed: "@ + joined(failed, ", "@))
    } else {
        Ok(())
    }
}

/// The views of a sequence of outcomes.
pub open spec fn outcome_views(s: Seq<Result<(), String>>) -> Seq<Result<(), Seq<char>>> {
    Seq::new(
        s.len(),
        |i: int|
            match s[i] {
                Ok(()) => Ok(()),
                Err(m) => Err(m@),
            },
    )
}

/// There are never more failures than outcomes.
pub proof fn lemma_failures_bounded(outcomes: Seq<Result<(), Seq<char>>>)
    ensures
        failures(outcomes).len() <= outcomes.len(),
    decreases outcomes.len(),
{
    if outcomes.len() > 0 {
        lemma_failures_bounded(outcomes.drop_last());
    }
}

/// Says what sending through several channels came to, given the outcome of
/// each.
pub fn summarize(outcomes: &Vec<Result<(), String>>) -> (r: Result<(), String>)
    ensures
        match r {
            Ok(()) => summary(outcome_views(outcomes@)) is Ok,
            Err(m) => summary(outcome_views(outcomes@)) == Err::<(), Seq<char>>(m@),
        },
{
    let ghost all = outcome_views(outcomes@);
    let n = outcomes.len();
    let mut failed: usize = 0;
    let mut texts = String::new();
    let mut i: usize = 0;
    assert(all.take(0) =~= Seq::empty());
    while i < n
        invariant
            n == outcomes.len(),
            i <= n,
            all == outcome_views(outcomes@),
            failed == failures(all.take(i as int)).len(),
            failed <= i,
            texts@ == joined(failures(all.take(i as int)), ", "@),
        decreases n - i,
    {
        proof {
            assert(all.take(i + 1).drop_last() =~= all.take(i as int));
            assert(all.take(i + 1).last() == all[i as int]);
        }
        let ghost before = failures(all.take(i as int));
        match &outcomes[i] {
            Ok(()) => {},
            Err(m) => {
                if failed > 0 {
                    texts.append(", ");
                }
                texts.append(m.as_str());
                failed = failed + 1;
                proof {
                    let after = before.push(m@);
                    assert(after.drop_last() =~= before);
                    assert(after.last() == m@);
                    if before.len() == 0 {
                        assert(texts@ =~= m@);
                    }
                }
            },
        }
        i = i + 1;
    }
    assert(all.take(n as int) =~= all);
    if failed > 0 && failed == n {
        Err(join("All notifiers failed: ", texts.as_str()))
    } else {
        Ok(())
    }
}

/// Several channels of one kind, used as one.
pub struct MultiNotifier<N: Notifier> {
    notifiers: Vec<N>,
}

impl<N: Notifier> MultiNotifier<N> {
    /// The channels used as one.
    pub closed spec fn channels(self) -> Seq<N> {
        self.notifiers@
    }

    /// Makes one channel of several.
    pub fn new(notifiers: Vec<N>) -> (r: MultiNotifier<N>)
        ensures
            r.channels() == notifiers@,
    {
        MultiNotifier { notifiers }
    }

    /// How many channels there are.
    pub fn len(&self) -> (r: usize)
        ensures
            r == self.channels().len(),
    {
        self.notifiers.len()
    }
}

/// One outcome for each channel, each of them one that its channel can come
/// to for the message.
pub open spec fn delivered_by<N: Notifier>(
    channels: Seq<N>,
    message: Seq<char>,
    outcomes: Seq<Result<(), Seq<char>>>,
) -> bool {
    &&& outcomes.len() == channels.len()
    &&& forall|i: int|
        0 <= i < outcomes.len() ==> (#[trigger] channels[i]).delivers(message, outcomes[i])
}

impl<N: Notifier> Notifier for MultiNotifier<N> {
    /// Several channels come to the summary of what each of them came to.
    open spec fn delivers(&self, message: Seq<char>, outcome: Result<(), Seq<char>>) -> bool {
        exists|outcomes: Seq<Result<(), Seq<char>>>|
            #[trigger] delivered_by(self.channels(), message, outcomes) && outcome == summary(
                outcomes,
            )
    }

    /// Sends the message through every channel, whatever becomes of the
    /// others, and fails only if all of them failed: the result is the
    /// summary of what the channels came to, in their order.
    fn send(&self, message: &str) -> (r: Result<(), String>)
        ensures
            exists|outcomes: Seq<Result<(), Seq<char>>>|
                #[trigger] delivered_by(self.channels(), message@, outcomes) && sent_view(r)
                    == summary(outcomes),
            self.channels().len() == 0 ==> r is Ok,
    {
        let n = self.notifiers.len();
        let mut outcomes: Vec<Result<(), String>> = Vec::new();
        let mut i: usize = 0;
        while i < n
            invariant
                n == self.notifiers.len(),
                i <= n,
                outcomes.len() == i,
                forall|j: int|
                    0 <= j < i ==> (#[trigger] self.notifiers[j]).delivers(
                        message@,
                        sent_view(outcomes[j]),
                    ),
            decreases n - i,
        {
            outcomes.push(self.notifiers[i].send(message));
            i = i + 1;
        }
        let ghost came = outcome_views(outcomes@);
        let r = summarize(&outcomes);
        proof {
            lemma_failures_bounded(came);
            assert forall|j: int| 0 <= j < came.len() implies (
            #[trigger] self.channels()[j]).delivers(message@, came[j]) by {
                assert(came[j] == sent_view(outcomes[j]));
            }
            assert(delivered_by(self.channels(), message@, came));
            assert(sent_view(r) == summary(came));
        }
        r
    }
}

/// How the channels that are configured are put to use.
#[derive(Debug, Clone, Copy, PartialEq, Eq, Structural)]
pub enum Wiring {
    /// No channel: messages go nowhere.
    Noop,
    /// One channel, used as it is.
    Single,
    /// Several channels, used as one.
    Multi,
}

/// Decides how `enabled` channels are put to use.
pub fn wiring_for(enabled: usize) -> (r: Wiring)
    ensures
        r == (if enabled == 0 {
            Wiring::Noop
        } else if enabled == 1 {
            Wiring::Single
        } else {
            Wiring::Multi
        }),
{
    if enabled == 0 {
        Wiring::Noop
    } else if enabled == 1 {
        Wiring::Single
    } else {
        Wiring::Multi
    }
}

/// A request to send a test message.
#[derive(Debug)]
pub struct TestNotificationRequest {
    pub message: String,
}

/// What came of sending a test message.
#[derive(Debug)]
pub struct TestNotificationResponse {
    pub success: bool,
    pub error: Option<String>,
}

impl TestNotificationResponse {
    /// Reports the outcome of sending a test message, with the HTTP status
    /// that stands for it.
    pub fn report(outcome: Result<(), String>) -> (r: (u16, TestNotificationResponse))
        ensures
            match outcome {
                Ok(()) => r.0 == 200 && r.1.success && r.1.error is None,
                Err(m) => r.0 == 500 && !r.1.success && r.1.error == Some(m),
            },
    {
        match outcome {
            Ok(()) => (200, TestNotificationResponse { success: true, error: None }),
            Err(m) => (500, TestNotificationResponse { success: false, error: Some(m) }),
        }
    }
}

} // verus!
