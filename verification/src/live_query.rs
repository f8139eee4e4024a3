//! Delivery of a standing query's result sets, one at a time.
//!
//! The store signals a change with the new result set. A subscription hands
//! a result set out for delivery only while no other delivery is under way;
//! a result set that arrives during a delivery is held back, and a later one
//! takes its place. When the delivery ends, the one held back is handed out.
//! After a cancellation nothing is handed out any more.

use crate::ditto_app_config::{config_views, DittoAppConfig, DittoAppConfigView};
use crate::document::{row_views, FieldView, Row};
use crate::logging::{
    keep_last, lemma_keep_last_push, lemma_keep_last_twice, lemma_logged_more,
    lemma_logged_nothing, log_error, log_info, logged, LogCache, LogRecord,
};
use crate::repositories::ditto_local_cache_repository::{
    error, info, read_app_configs, row_reports, valid_configs, OBSERVER_TARGET,
};
use crate::text::{decimal, decimal_text, join};
use vstd::prelude::*;
use vstd::string::StringExecFns;

verus! {

/// Where a subscription stands.
#[derive(Clone, Copy, Debug, PartialEq, Eq, Structural)]
pub enum Phase {
    /// No delivery is under way.
    Idle,
    /// One delivery is under way.
    Delivering,
    /// The subscription was cancelled.
    Cancelled,
}

/// A standing query on one collection, with the state of its deliveries.
#[derive(Debug)]
pub struct SubscriptionHandle {
    collection: String,
    query: String,
    phase: Phase,
    pending: Option<Vec<Row>>,
}

/// The mathematical value of a [`SubscriptionHandle`].
pub ghost struct SubscriptionView {
    pub collection: Seq<char>,
    pub query: Seq<char>,
    pub phase: Phase,
    /// The newest result set that arrived during the delivery under way.
    pub pending: Option<Seq<Seq<FieldView>>>,
}

/// The subscription as it stands right after it was made.
pub open spec fn started(collection: Seq<char>, query: Seq<char>) -> SubscriptionView {
    SubscriptionView { collection, query, phase: Phase::Idle, pending: None }
}

/// What is written to the log when the store signals a change.
pub open spec fn triggered_report() -> LogRecord {
    info(OBSERVER_TARGET@, "App config observer triggered - data changed"@)
}

/// What is written to the log when the result set `rows` is handed out:
/// one record for each row, and the number of records read.
pub open spec fn delivery_reports(rows: Seq<Seq<FieldView>>) -> Seq<LogRecord> {
    row_reports(
        rows,
        OBSERVER_TARGET@,
        "Observer parsed app config: "@,
        "Observer failed to deserialize app config: "@,
    ).push(
        info(
            OBSERVER_TARGET@,
            "Observer emitting "@ + decimal(valid_configs(rows).len()) + " app configs"@,
        ),
    )
}

/// What is written to the log when a delivery has ended with `outcome`.
pub open spec fn completion_report(outcome: Result<(), Seq<char>>) -> LogRecord {
    match outcome {
        Ok(_) => info(OBSERVER_TARGET@, "Successfully emitted app configs update to frontend"@),
        Err(cause) => error(OBSERVER_TARGET@, "Failed to emit app configs update: "@ + cause),
    }
}

impl SubscriptionView {
    /// The subscription after the store signalled the result set `rows`.
    pub open spec fn changed(self, rows: Seq<Seq<FieldView>>) -> SubscriptionView {
        match self.phase {
            Phase::Idle => SubscriptionView { phase: Phase::Delivering, pending: None, ..self },
            Phase::Delivering => SubscriptionView { pending: Some(rows), ..self },
            Phase::Cancelled => self,
        }
    }

    /// The records to deliver at once when the store signals `rows`.
    pub open spec fn delivery_on_change(self, rows: Seq<Seq<FieldView>>) -> Option<
        Seq<DittoAppConfigView>,
    > {
        if self.phase == Phase::Idle {
            Some(valid_configs(rows))
        } else {
            None
        }
    }

    /// What the signal of `rows` writes to the log.
    pub open spec fn change_reports(self, rows: Seq<Seq<FieldView>>) -> Seq<LogRecord> {
        match self.phase {
            Phase::Idle => seq![triggered_report()] + delivery_reports(rows),
            Phase::Delivering => seq![triggered_report()],
            Phase::Cancelled => Seq::empty(),
        }
    }

    /// The subscription after the delivery under way has ended.
    pub open spec fn delivered(self) -> SubscriptionView {
        if self.phase == Phase::Delivering {
            if self.pending is Some {
                SubscriptionView { pending: None, ..self }
            } else {
                SubscriptionView { phase: Phase::Idle, ..self }
            }
        } else {
            self
        }
    }

    /// The records to deliver next when the delivery under way has ended.
    pub open spec fn delivery_on_completion(self) -> Option<Seq<DittoAppConfigView>> {
        if self.phase == Phase::Delivering {
            match self.pending {
                Some(rows) => Some(valid_configs(rows)),
                None => None,
            }
        } else {
            None
        }
    }

    /// What the end of a delivery with `outcome` writes to the log.
    pub open spec fn completion_reports(self, outcome: Result<(), Seq<char>>) -> Seq<LogRecord> {
        if self.phase == Phase::Delivering {
            match self.pending {
                Some(rows) => seq![completion_report(outcome)] + delivery_reports(rows),
                None => seq![completion_report(outcome)],
            }
        } else {
            Seq::empty()
        }
    }

    /// The subscription after it was cancelled.
    pub open spec fn cancelled(self) -> SubscriptionView {
        SubscriptionView { phase: Phase::Cancelled, pending: None, ..self }
    }
}

/// A result set is handed out only while no delivery is under way, and with
/// it a delivery is under way: no two deliveries of one subscription run at
/// the same time.
pub proof fn lemma_one_delivery_at_a_time(subscription: SubscriptionView, rows: Seq<Seq<FieldView>>)
    ensures
        subscription.delivery_on_change(rows) is Some ==> subscription.phase == Phase::Idle
            && subscription.changed(rows).phase == Phase::Delivering,
        subscription.phase == Phase::Delivering ==> subscription.delivery_on_change(rows) is None,
        subscription.delivery_on_completion() is Some ==> subscription.phase == Phase::Delivering
            && subscription.delivered().phase == Phase::Delivering,
{
}

/// The result set of a change is delivered exactly once unless a later
/// change takes its place: at once where no delivery is under way, and else
/// as soon as the delivery under way has ended.
pub proof fn lemma_latest_result_is_delivered_once(
    subscription: SubscriptionView,
    rows: Seq<Seq<FieldView>>,
)
    requires
        subscription.phase != Phase::Cancelled,
    ensures
        match subscription.delivery_on_change(rows) {
            Some(records) => records == valid_configs(rows) && subscription.changed(
                rows,
            ).delivery_on_completion() is None,
            None => subscription.changed(rows).delivery_on_completion() == Some(
                valid_configs(rows),
            ) && subscription.changed(rows).delivered().delivery_on_completion() is None,
        },
{
}

/// Of two result sets that arrive during one delivery, only the later is
/// held back.
pub proof fn lemma_later_change_takes_the_place(
    subscription: SubscriptionView,
    first: Seq<Seq<FieldView>>,
    second: Seq<Seq<FieldView>>,
)
    requires
        subscription.phase == Phase::Delivering,
    ensures
        subscription.changed(first).changed(second) == subscription.changed(second),
        subscription.changed(first).changed(second).delivery_on_completion() == Some(
            valid_configs(second),
        ),
{
}

/// After a cancellation no result set is handed out and nothing is logged,
/// whatever happens.
pub proof fn lemma_nothing_after_cancel(
    subscription: SubscriptionView,
    rows: Seq<Seq<FieldView>>,
    outcome: Result<(), Seq<char>>,
)
    ensures
        subscription.cancelled().delivery_on_change(rows) is None,
        subscription.cancelled().delivery_on_completion() is None,
        subscription.cancelled().changed(rows) == subscription.cancelled(),
        subscription.cancelled().delivered() == subscription.cancelled(),
        subscription.cancelled().change_reports(rows) == Seq::<LogRecord>::empty(),
        subscription.cancelled().completion_reports(outcome) == Seq::<LogRecord>::empty(),
{
}

/// What reaches a subscription from outside.
pub ghost enum Signal {
    /// The store signals a change with this result set.
    Change(Seq<Seq<FieldView>>),
    /// The delivery under way has ended.
    Completion,
}

/// A subscription in the course of a run of signals, with what was
/// signalled and what was handed out.
pub ghost struct Course {
    pub subscription: SubscriptionView,
    /// The result sets signalled so far, in the order of the signals.
    pub changes: Seq<Seq<Seq<FieldView>>>,
    /// The records handed out for delivery so far, in order.
    pub deliveries: Seq<Seq<DittoAppConfigView>>,
    /// For each delivery, the place among `changes` of the result set that
    /// was current when it was handed out.
    pub sources: Seq<int>,
}

impl Course {
    /// The course before any signal.
    pub open spec fn begin(subscription: SubscriptionView) -> Course {
        Course {
            subscription,
            changes: Seq::empty(),
            deliveries: Seq::empty(),
            sources: Seq::empty(),
        }
    }

    /// The course after one more signal.
    pub open spec fn after(self, signal: Signal) -> Course {
        match signal {
            Signal::Change(rows) => {
                let changes = self.changes.push(rows);
                match self.subscription.delivery_on_change(rows) {
                    Some(records) => Course {
                        subscription: self.subscription.changed(rows),
                        changes,
                        deliveries: self.deliveries.push(records),
                        sources: self.sources.push(changes.len() - 1),
                    },
                    None => Course {
                        subscription: self.subscription.changed(rows),
                        changes,
                        ..self
                    },
                }
            },
            Signal::Completion => match self.subscription.delivery_on_completion() {
                Some(records) => Course {
                    subscription: self.subscription.delivered(),
                    deliveries: self.deliveries.push(records),
                    sources: self.sources.push(self.changes.len() - 1),
                    ..self
                },
                None => Course { subscription: self.subscription.delivered(), ..self },
            },
        }
    }

    /// The course after a run of signals.
    pub open spec fn after_all(self, signals: Seq<Signal>) -> Course
        decreases signals.len(),
    {
        if signals.len() == 0 {
            self
        } else {
            self.after_all(signals.drop_last()).after(signals.last())
        }
    }

    /// What holds of a course that began idle with nothing held back: every
    /// delivery carries the records of a change, in the order of the changes
    /// and at most once for each; and the newest change is either the one
    /// held back or the one delivered last.
    pub open spec fn is_orderly(self) -> bool {
        &&& self.subscription.phase != Phase::Cancelled
        &&& self.deliveries.len() == self.sources.len()
        &&& forall|i: int|
            0 <= i < self.sources.len() ==> 0 <= (#[trigger] self.sources[i]) < self.changes.len()
        &&& forall|i: int|
            0 <= i < self.sources.len() ==> (#[trigger] self.deliveries[i]) == valid_configs(
                self.changes[self.sources[i]],
            )
        &&& forall|i: int, j: int|
            0 <= i < j < self.sources.len() ==> (#[trigger] self.sources[i]) < (
            #[trigger] self.sources[j])
        &&& match self.subscription.pending {
            Some(rows) => {
                &&& self.subscription.phase == Phase::Delivering
                &&& self.changes.len() > 0
                &&& rows == self.changes.last()
                &&& self.deliveries.len() + 1 <= self.changes.len()
                &&& self.sources.len() > 0 ==> self.sources.last() < self.changes.len() - 1
            },
            None => {
                &&& self.deliveries.len() <= self.changes.len()
                &&& self.changes.len() > 0 ==> self.sources.len() > 0 && self.sources.last()
                    == self.changes.len() - 1
            },
        }
    }
}

/// One signal keeps a course orderly.
pub proof fn lemma_signal_keeps_order(course: Course, signal: Signal)
    requires
        course.is_orderly(),
    ensures
        course.after(signal).is_orderly(),
{
    let next = course.after(signal);
    assert forall|i: int| 0 <= i < next.sources.len() implies 0 <= (#[trigger] next.sources[i])
        < next.changes.len() by {
        if i < course.sources.len() {
            assert(next.sources[i] == course.sources[i]);
        }
    }
    assert forall|i: int| 0 <= i < next.sources.len() implies (#[trigger] next.deliveries[i])
        == valid_configs(next.changes[next.sources[i]]) by {
        if i < course.sources.len() {
            assert(next.sources[i] == course.sources[i]);
            assert(next.deliveries[i] == course.deliveries[i]);
            assert(next.changes[course.sources[i]] == course.changes[course.sources[i]]);
        }
    }
    assert forall|i: int, j: int| 0 <= i < j < next.sources.len() implies (
    #[trigger] next.sources[i]) < (#[trigger] next.sources[j]) by {
        if j < course.sources.len() {
            assert(next.sources[i] == course.sources[i]);
            assert(next.sources[j] == course.sources[j]);
        } else {
            assert(next.sources[i] == course.sources[i]);
            if course.sources.len() > 0 {
                assert(course.sources[i] <= course.sources.last());
            }
        }
    }
}

/// Any run of signals keeps a course orderly that began idle with nothing
/// held back.
pub proof fn lemma_run_is_orderly(subscription: SubscriptionView, signals: Seq<Signal>)
    requires
        subscription.phase == Phase::Idle,
        subscription.pending is None,
    ensures
        Course::begin(subscription).after_all(signals).is_orderly(),
    decreases signals.len(),
{
    if signals.len() > 0 {
        lemma_run_is_orderly(subscription, signals.drop_last());
        lemma_signal_keeps_order(
            Course::begin(subscription).after_all(signals.drop_last()),
            signals.last(),
        );
    }
}

/// Once the store stays quiet after a run of signals and the deliveries
/// have ended, the subscription is idle, at most one delivery was made for
/// each change, the deliveries follow the order of the changes, and the last
/// delivery carries the records of the last change: the final state is never
/// lost. After one change alone there was exactly one delivery.
pub proof fn lemma_quiet_run_ends_with_the_last_change(
    subscription: SubscriptionView,
    signals: Seq<Signal>,
)
    requires
        subscription.phase == Phase::Idle,
        subscription.pending is None,
    ensures
        ({
            let end = Course::begin(subscription).after_all(signals).after(
                Signal::Completion,
            ).after(Signal::Completion);
            &&& end.is_orderly()
            &&& end.subscription.phase == Phase::Idle
            &&& end.subscription.pending is None
            &&& end.deliveries.len() <= end.changes.len()
            &&& end.changes.len() > 0 ==> end.deliveries.len() > 0 && end.deliveries.last()
                == valid_configs(end.changes.last())
            &&& end.changes.len() == 1 ==> end.deliveries == seq![valid_configs(end.changes[0])]
        }),
{
    let run = Course::begin(subscription).after_all(signals);
    lemma_run_is_orderly(subscription, signals);
    lemma_signal_keeps_order(run, Signal::Completion);
    let settling = run.after(Signal::Completion);
    lemma_signal_keeps_order(settling, Signal::Completion);
    let end = settling.after(Signal::Completion);
    if end.changes.len() > 0 {
        assert(end.deliveries.last() == end.deliveries[end.sources.len() - 1]);
        assert(end.sources.last() == end.sources[end.sources.len() - 1]);
    }
    if end.changes.len() == 1 {
        assert(end.deliveries =~= seq![valid_configs(end.changes[0])]);
    }
}

/// The value of the outcome of a delivery.
pub open spec fn outcome_view(outcome: Result<(), String>) -> Result<(), Seq<char>> {
    match outcome {
        Ok(_) => Ok(()),
        Err(cause) => Err(cause@),
    }
}

/// Reads the records of a result set that is handed out, and logs each row
/// and the number of records.
fn hand_out(log: &mut LogCache, rows: &Vec<Row>) -> (configs: Vec<DittoAppConfig>)
    ensures
        config_views(configs@) == valid_configs(row_views(rows@)),
        final(log).capacity() == old(log).capacity(),
        logged(old(log)@, final(log)@, old(log).capacity(), delivery_reports(row_views(rows@))),
        final(log).records() == keep_last(
            old(log).records() + delivery_reports(row_views(rows@)),
            old(log).capacity(),
        ),
{
    let ghost held = log.records();
    let ghost start = log@;
    let ghost capacity = log.capacity();
    let configs = read_app_configs(
        log,
        rows,
        OBSERVER_TARGET,
        "Observer parsed app config: ",
        "Observer failed to deserialize app config: ",
    );
    let mut message = join("Observer emitting ", decimal_text(configs.len()).as_str());
    message.append(" app configs");
    let ghost between = log@;
    log_info(log, OBSERVER_TARGET, message.as_str());
    proof {
        let rows_logged = row_reports(
            row_views(rows@),
            OBSERVER_TARGET@,
            "Observer parsed app config: "@,
            "Observer failed to deserialize app config: "@,
        );
        let count_logged = info(OBSERVER_TARGET@, message@);
        lemma_logged_more(start, between, log@, capacity, rows_logged, seq![count_logged]);
        assert(rows_logged + seq![count_logged] =~= rows_logged.push(count_logged));
        lemma_keep_last_push(
            held,
            capacity,
            row_reports(
                row_views(rows@),
                OBSERVER_TARGET@,
                "Observer parsed app config: "@,
                "Observer failed to deserialize app config: "@,
            ),
            info(OBSERVER_TARGET@, message@),
        );
        assert(config_views(configs@).len() == configs@.len());
    }
    configs
}

impl View for SubscriptionHandle {
    type V = SubscriptionView;

    closed spec fn view(&self) -> SubscriptionView {
        SubscriptionView {
            collection: self.collection@,
            query: self.query@,
            phase: self.phase,
            pending: match self.pending {
                Some(rows) => Some(row_views(rows@)),
                None => None,
            },
        }
    }
}

impl SubscriptionHandle {
    /// Makes the handle of a subscription on `collection` with the standing
    /// query `query`: idle, with nothing held back.
    pub fn new(collection: &str, query: &str) -> (handle: Self)
        ensures
            handle@ == started(collection@, query@),
    {
        SubscriptionHandle {
            collection: String::from_str(collection),
            query: String::from_str(query),
            phase: Phase::Idle,
            pending: None,
        }
    }

    /// Returns the name of the collection.
    pub fn collection(&self) -> (name: &str)
        ensures
            name@ == self@.collection,
    {
        self.collection.as_str()
    }

    /// Returns the standing query.
    pub fn query(&self) -> (query: &str)
        ensures
            query@ == self@.query,
    {
        self.query.as_str()
    }

    /// Returns where the subscription stands.
    pub fn phase(&self) -> (phase: Phase)
        ensures
            phase == self@.phase,
    {
        self.phase
    }

    /// Says whether the subscription was not cancelled.
    pub fn is_active(&self) -> (active: bool)
        ensures
            active <==> self@.phase != Phase::Cancelled,
    {
        match self.phase {
            Phase::Cancelled => false,
            _ => true,
        }
    }

    /// Takes the result set `rows` that the store signals. Where no delivery
    /// is under way, returns the records to deliver and counts the delivery
    /// as under way until [`Self::on_delivered`] is called. During a delivery
    /// the result set is held back in place of any held back before, and
    /// after a cancellation it is dropped; both return `None`.
    pub fn on_change(&mut self, log: &mut LogCache, rows: Vec<Row>) -> (delivery: Option<
        Vec<DittoAppConfig>,
    >)
        ensures
            final(self)@ == old(self)@.changed(row_views(rows@)),
            match delivery {
                Some(configs) => old(self)@.delivery_on_change(row_views(rows@)) == Some(
                    config_views(configs@),
                ),
                None => old(self)@.delivery_on_change(row_views(rows@)) is None,
            },
            final(log).capacity() == old(log).capacity(),
            logged(
                old(log)@,
                final(log)@,
                old(log).capacity(),
                old(self)@.change_reports(row_views(rows@)),
            ),
            final(log).records() == keep_last(
                old(log).records() + old(self)@.change_reports(row_views(rows@)),
                old(log).capacity(),
            ),
    {
        let ghost held = log.records();
        let ghost start = log@;
        let ghost capacity = log.capacity();
        proof {
            use_type_invariant(&*log);
            log.lemma_within_capacity();
            assert(held + Seq::<LogRecord>::empty() == held);
            lemma_logged_nothing(start, capacity);
        }
        match self.phase {
            Phase::Cancelled => None,
            Phase::Delivering => {
                log_info(log, OBSERVER_TARGET, "App config observer triggered - data changed");
                proof {
                    assert(held + seq![triggered_report()] == held.push(triggered_report()));
                }
                self.pending = Some(rows);
                None
            },
            Phase::Idle => {
                log_info(log, OBSERVER_TARGET, "App config observer triggered - data changed");
                proof {
                    assert(held + seq![triggered_report()] == held.push(triggered_report()));
                }
                let ghost between = log@;
                let configs = hand_out(log, &rows);
                proof {
                    lemma_logged_more(
                        start,
                        between,
                        log@,
                        capacity,
                        seq![triggered_report()],
                        delivery_reports(row_views(rows@)),
                    );
                    lemma_keep_last_twice(
                        held,
                        capacity,
                        seq![triggered_report()],
                        delivery_reports(row_views(rows@)),
                    );
                }
                self.pending = None;
                self.phase = Phase::Delivering;
                Some(configs)
            },
        }
    }

    /// Takes the outcome of the delivery under way and logs it; a failed
    /// delivery does not end the subscription. Where a result set was held
    /// back, returns its records as the next delivery, which is then under
    /// way. Otherwise the subscription is idle again. Returns `None` and
    /// logs nothing where no delivery was under way.
    pub fn on_delivered(&mut self, log: &mut LogCache, outcome: &Result<(), String>) -> (delivery:
        Option<Vec<DittoAppConfig>>)
        ensures
            final(self)@ == old(self)@.delivered(),
            match delivery {
                Some(configs) => old(self)@.delivery_on_completion() == Some(
                    config_views(configs@),
                ),
                None => old(self)@.delivery_on_completion() is None,
            },
            final(log).capacity() == old(log).capacity(),
            logged(
                old(log)@,
                final(log)@,
                old(log).capacity(),
                old(self)@.completion_reports(outcome_view(*outcome)),
            ),
            final(log).records() == keep_last(
                old(log).records() + old(self)@.completion_reports(outcome_view(*outcome)),
                old(log).capacity(),
            ),
    {
        let ghost held = log.records();
        let ghost start = log@;
        let ghost capacity = log.capacity();
        let ghost report = completion_report(outcome_view(*outcome));
        proof {
            use_type_invariant(&*log);
            log.lemma_within_capacity();
            assert(held + Seq::<LogRecord>::empty() == held);
            lemma_logged_nothing(start, capacity);
        }
        match self.phase {
            Phase::Delivering => {
                match outcome {
                    Ok(_) => {
                        log_info(
                            log,
                            OBSERVER_TARGET,
                            "Successfully emitted app configs update to frontend",
                        );
                    },
                    Err(cause) => {
                        let message = join("Failed to emit app configs update: ", cause.as_str());
                        log_error(log, OBSERVER_TARGET, message.as_str());
                    },
                }
                proof {
                    assert(held + seq![report] == held.push(report));
                }
                let mut held_back: Option<Vec<Row>> = None;
                std::mem::swap(&mut self.pending, &mut held_back);
                match held_back {
                    Some(rows) => {
                        let ghost between = log@;
                        let configs = hand_out(log, &rows);
                        proof {
                            lemma_logged_more(
                                start,
                                between,
                                log@,
                                capacity,
                                seq![report],
                                delivery_reports(row_views(rows@)),
                            );
                            lemma_keep_last_twice(
                                held,
                                capacity,
                                seq![report],
                                delivery_reports(row_views(rows@)),
                            );
                        }
                        Some(configs)
                    },
                    None => {
                        self.phase = Phase::Idle;
                        None
                    },
                }
            },
            _ => None,
        }
    }

    /// Cancels the subscription. What was held back is dropped, and no
    /// result set is handed out afterwards.
    pub fn cancel(&mut self)
        ensures
            final(self)@ == old(self)@.cancelled(),
    {
        self.pending = None;
        self.phase = Phase::Cancelled;
    }
}

} // verus!
