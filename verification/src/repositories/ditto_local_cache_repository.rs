//! Typed operations on the collection of application configurations.
//!
//! The store is reached from outside this library. Every operation therefore
//! comes in two steps: the first logs the attempt and says what to ask of the
//! store, the second takes the store's reply, logs the outcome and decides
//! what the caller gets. A mutation that changed no document is a failure of
//! its own kind, [`CacheError::NoEffect`], even where the store reported no
//! error.

use crate::ditto_app_config::{
    config_views, decode, DecodeErrorView, DittoAppConfig, DittoAppConfigView,
};
use crate::document::{row_views, FieldView, Row};
use crate::live_query::SubscriptionHandle;
use crate::logging::{
    keep_last, lemma_keep_last_push, lemma_logged_more, lemma_logged_nothing, log_error, log_info,
    logged, ring_push, LogCache, LogLevel, LogRecord,
};
use crate::text::{decimal, decimal_text, join};
use vstd::prelude::*;
use vstd::string::StringExecFns;

verus! {

/// The identifier of a stored document.
pub type DocumentId = String;

pub const COLLECTION: &'static str = "dittoappconfigs";

pub const SAVE_STATEMENT: &'static str =
    "INSERT INTO dittoappconfigs VALUES (:config) ON ID CONFLICT DO UPDATE";

pub const DELETE_STATEMENT: &'static str = "DELETE FROM dittoappconfigs WHERE _id = :id";

pub const SELECT_STATEMENT: &'static str = "SELECT * FROM dittoappconfigs ORDER BY name";

pub const CONFIG_PARAMETER: &'static str = "config";

pub const ID_PARAMETER: &'static str = "id";

pub const APP_CONFIG_TARGET: &'static str = "app_config";

pub const OBSERVER_TARGET: &'static str = "observer";

/// What is bound to the named parameter of a statement.
#[derive(Debug, PartialEq, Eq)]
pub enum Argument {
    /// The statement has no parameter.
    Nothing,
    /// A text bound to the parameter `name`.
    Text { name: String, value: String },
    /// A document bound to the parameter `name`.
    Document { name: String, document: Row },
}

/// The mathematical value of an [`Argument`].
pub ghost enum ArgumentView {
    Nothing,
    Text { name: Seq<char>, value: Seq<char> },
    Document { name: Seq<char>, document: Seq<FieldView> },
}

impl View for Argument {
    type V = ArgumentView;

    open spec fn view(&self) -> ArgumentView {
        match self {
            Argument::Nothing => ArgumentView::Nothing,
            Argument::Text { name, value } => ArgumentView::Text { name: name@, value: value@ },
            Argument::Document { name, document } => ArgumentView::Document {
                name: name@,
                document: document@,
            },
        }
    }
}

/// One statement for the store, with what is bound to its parameter.
#[derive(Debug, PartialEq, Eq)]
pub struct StoreRequest {
    pub statement: String,
    pub argument: Argument,
}

/// The mathematical value of a [`StoreRequest`].
pub ghost struct StoreRequestView {
    pub statement: Seq<char>,
    pub argument: ArgumentView,
}

impl View for StoreRequest {
    type V = StoreRequestView;

    open spec fn view(&self) -> StoreRequestView {
        StoreRequestView { statement: self.statement@, argument: self.argument@ }
    }
}

/// What the store hands back for a statement that it ran without error.
#[derive(Debug, PartialEq, Eq)]
pub struct StoreResult {
    /// The documents that a query found, in the order of the query.
    pub rows: Vec<Row>,
    /// The identifiers of the documents that a mutation changed.
    pub mutated_ids: Vec<String>,
}

/// The mathematical value of a [`StoreResult`].
pub ghost struct StoreResultView {
    pub rows: Seq<Seq<FieldView>>,
    pub mutated_ids: Seq<Seq<char>>,
}

/// The values of a sequence of texts, in the same order.
pub open spec fn text_views(texts: Seq<String>) -> Seq<Seq<char>> {
    texts.map_values(|t: String| t@)
}

impl View for StoreResult {
    type V = StoreResultView;

    open spec fn view(&self) -> StoreResultView {
        StoreResultView {
            rows: row_views(self.rows@),
            mutated_ids: text_views(self.mutated_ids@),
        }
    }
}

/// The value of a reply of the store: a result, or the store's own words for
/// its failure.
pub open spec fn reply_view(reply: Result<StoreResult, String>) -> Result<
    StoreResultView,
    Seq<char>,
> {
    match reply {
        Ok(done) => Ok(done@),
        Err(cause) => Err(cause@),
    }
}

/// What a mutation did: whether the store ran it, and the identifiers of
/// the documents that it changed. A mutation that changed none had no
/// effect, whether or not the store ran it.
#[derive(Debug, PartialEq, Eq)]
pub struct MutationOutcome {
    pub attempted: bool,
    pub mutated_ids: Vec<String>,
}

/// The mathematical value of a [`MutationOutcome`].
pub ghost struct MutationOutcomeView {
    pub attempted: bool,
    pub mutated_ids: Seq<Seq<char>>,
}

impl View for MutationOutcome {
    type V = MutationOutcomeView;

    open spec fn view(&self) -> MutationOutcomeView {
        MutationOutcomeView {
            attempted: self.attempted,
            mutated_ids: text_views(self.mutated_ids@),
        }
    }
}

/// The outcome that a reply of the store stands for.
pub open spec fn outcome_of(reply: Result<StoreResultView, Seq<char>>) -> MutationOutcomeView {
    match reply {
        Ok(done) => MutationOutcomeView { attempted: true, mutated_ids: done.mutated_ids },
        Err(_) => MutationOutcomeView { attempted: false, mutated_ids: Seq::empty() },
    }
}

impl MutationOutcome {
    /// Reads the outcome of a mutation from the store's reply.
    pub fn of(reply: &Result<StoreResult, String>) -> (outcome: MutationOutcome)
        ensures
            outcome@ == outcome_of(reply_view(*reply)),
    {
        match reply {
            Ok(done) => {
                let mut mutated_ids: Vec<String> = Vec::new();
                let mut i: usize = 0;
                while i < done.mutated_ids.len()
                    invariant
                        i <= done.mutated_ids.len(),
                        mutated_ids@.len() == i,
                        forall|j: int|
                            0 <= j < i ==> (#[trigger] mutated_ids@[j])@ == done.mutated_ids@[j]@,
                    decreases done.mutated_ids.len() - i,
                {
                    mutated_ids.push(done.mutated_ids[i].clone());
                    i += 1;
                }
                let outcome = MutationOutcome { attempted: true, mutated_ids };
                assert(outcome@.mutated_ids =~= done@.mutated_ids);
                outcome
            },
            Err(_) => {
                let outcome = MutationOutcome { attempted: false, mutated_ids: Vec::new() };
                assert(outcome@.mutated_ids =~= Seq::<Seq<char>>::empty());
                outcome
            },
        }
    }

    /// Says whether the mutation changed a document.
    pub fn had_effect(&self) -> (effect: bool)
        ensures
            effect <==> self@.mutated_ids.len() > 0,
    {
        self.mutated_ids.len() > 0
    }

    /// Returns the identifier of the first document changed, if any was.
    pub fn first_id(&self) -> (id: Option<DocumentId>)
        ensures
            match id {
                Some(id) => self@.mutated_ids.len() > 0 && id@ == self@.mutated_ids[0],
                None => self@.mutated_ids.len() == 0,
            },
    {
        if self.mutated_ids.len() > 0 {
            Some(self.mutated_ids[0].clone())
        } else {
            None
        }
    }
}

/// Why an operation on the cache failed.
#[derive(Debug, PartialEq, Eq)]
pub enum CacheError {
    /// The store failed to run the statement. Holds a sentence for the user.
    Store(String),
    /// The store ran the statement and changed no document. Holds a sentence
    /// for the user.
    NoEffect(String),
}

/// The mathematical value of a [`CacheError`].
pub ghost enum CacheErrorView {
    Store(Seq<char>),
    NoEffect(Seq<char>),
}

impl CacheErrorView {
    /// The sentence for the user.
    pub open spec fn message(self) -> Seq<char> {
        match self {
            CacheErrorView::Store(text) => text,
            CacheErrorView::NoEffect(text) => text,
        }
    }
}

impl View for CacheError {
    type V = CacheErrorView;

    open spec fn view(&self) -> CacheErrorView {
        match self {
            CacheError::Store(text) => CacheErrorView::Store(text@),
            CacheError::NoEffect(text) => CacheErrorView::NoEffect(text@),
        }
    }
}

impl CacheError {
    /// Returns the sentence for the user.
    pub fn message(&self) -> (text: String)
        ensures
            text@ == self@.message(),
    {
        match self {
            CacheError::Store(text) => text.clone(),
            CacheError::NoEffect(text) => text.clone(),
        }
    }

    /// Says whether the store ran the statement and changed nothing.
    pub fn is_no_effect(&self) -> (none: bool)
        ensures
            none <==> self@ is NoEffect,
    {
        match self {
            CacheError::Store(_) => false,
            CacheError::NoEffect(_) => true,
        }
    }
}

/// An informational record.
pub open spec fn info(target: Seq<char>, message: Seq<char>) -> LogRecord {
    LogRecord { level: LogLevel::Info, target, message }
}

/// An error record.
pub open spec fn error(target: Seq<char>, message: Seq<char>) -> LogRecord {
    LogRecord { level: LogLevel::Error, target, message }
}

/// What a save returns for a record named `name` and the reply `reply`: the
/// identifier of the first document changed, or why there is none.
pub open spec fn save_result(name: Seq<char>, reply: Result<StoreResultView, Seq<char>>) -> Result<
    Seq<char>,
    CacheErrorView,
> {
    match reply {
        Err(cause) => Err(CacheErrorView::Store("Failed to save app config: "@ + cause)),
        Ok(done) => if done.mutated_ids.len() == 0 {
            Err(CacheErrorView::NoEffect("No documents were saved for app config: "@ + name))
        } else {
            Ok(done.mutated_ids[0])
        },
    }
}

/// What a save writes to the log once the store has replied.
pub open spec fn save_report(name: Seq<char>, reply: Result<StoreResultView, Seq<char>>) -> LogRecord {
    match save_result(name, reply) {
        Ok(id) => info(
            APP_CONFIG_TARGET@,
            "Successfully saved app config '"@ + name + "' with document ID: "@ + id,
        ),
        Err(fault) => error(APP_CONFIG_TARGET@, fault.message()),
    }
}

/// What a deletion returns for the identifier `id` and the reply `reply`.
pub open spec fn delete_result(id: Seq<char>, reply: Result<StoreResultView, Seq<char>>) -> Result<
    Seq<char>,
    CacheErrorView,
> {
    match reply {
        Err(cause) => Err(CacheErrorView::Store("Failed to delete app config: "@ + cause)),
        Ok(done) => if done.mutated_ids.len() == 0 {
            Err(
                CacheErrorView::NoEffect(
                    "No documents were deleted for app config ID: "@ + id
                        + " (document may not exist)"@,
                ),
            )
        } else {
            Ok(done.mutated_ids[0])
        },
    }
}

/// What a deletion writes to the log once the store has replied.
pub open spec fn delete_report(id: Seq<char>, reply: Result<StoreResultView, Seq<char>>) -> LogRecord {
    match delete_result(id, reply) {
        Ok(gone) => info(
            APP_CONFIG_TARGET@,
            "Successfully deleted app config with document ID: "@ + gone,
        ),
        Err(fault) => error(APP_CONFIG_TARGET@, fault.message()),
    }
}

/// A mutation succeeds exactly where the store ran it and changed a
/// document, and then with the identifier of the first document changed. Where
/// the store changed none, the failure is `NoEffect`, never a success.
pub proof fn lemma_mutation_needs_an_effect(
    name: Seq<char>,
    id: Seq<char>,
    reply: Result<StoreResultView, Seq<char>>,
)
    ensures
        save_result(name, reply) is Ok <==> reply is Ok && reply->Ok_0.mutated_ids.len() > 0,
        delete_result(id, reply) is Ok <==> reply is Ok && reply->Ok_0.mutated_ids.len() > 0,
        save_result(name, reply) matches Ok(saved) ==> saved == reply->Ok_0.mutated_ids[0],
        delete_result(id, reply) matches Ok(gone) ==> gone == reply->Ok_0.mutated_ids[0],
        reply is Ok && reply->Ok_0.mutated_ids.len() == 0 ==> save_result(name, reply)->Err_0
            is NoEffect && delete_result(id, reply)->Err_0 is NoEffect,
        reply is Err ==> save_result(name, reply)->Err_0 is Store && delete_result(
            id,
            reply,
        )->Err_0 is Store,
{
}

/// Where the store reports the identifier of the record as the one document
/// changed, a save returns that identifier.
pub proof fn lemma_save_returns_the_record_id(
    config: DittoAppConfigView,
    rows: Seq<Seq<FieldView>>,
)
    ensures
        save_result(
            config.name,
            Ok((StoreResultView { rows, mutated_ids: seq![config.id] })),
        ) == Ok::<Seq<char>, CacheErrorView>(config.id),
{
}

/// The records that `rows` stand for: each row that is a record, in the
/// order of the rows. Rows with a fault are left out.
pub open spec fn valid_configs(rows: Seq<Seq<FieldView>>) -> Seq<DittoAppConfigView>
    decreases rows.len(),
{
    if rows.len() == 0 {
        Seq::empty()
    } else {
        match decode(rows.last()) {
            Ok(config) => valid_configs(rows.drop_last()).push(config),
            Err(_) => valid_configs(rows.drop_last()),
        }
    }
}

/// What is written to the log for one row: the name of the record read, or
/// the fault of the row.
pub open spec fn row_report(
    row: Seq<FieldView>,
    target: Seq<char>,
    parsed: Seq<char>,
    failed: Seq<char>,
) -> LogRecord {
    match decode(row) {
        Ok(config) => info(target, parsed + config.name),
        Err(fault) => error(target, failed + fault.message()),
    }
}

/// What is written to the log for `rows`, one record for each row.
pub open spec fn row_reports(
    rows: Seq<Seq<FieldView>>,
    target: Seq<char>,
    parsed: Seq<char>,
    failed: Seq<char>,
) -> Seq<LogRecord>
    decreases rows.len(),
{
    if rows.len() == 0 {
        Seq::empty()
    } else {
        row_reports(rows.drop_last(), target, parsed, failed).push(
            row_report(rows.last(), target, parsed, failed),
        )
    }
}

/// The number of error records among `records`.
pub open spec fn error_count(records: Seq<LogRecord>) -> nat
    decreases records.len(),
{
    if records.len() == 0 {
        0
    } else {
        error_count(records.drop_last()) + if records.last().level == LogLevel::Error {
            1nat
        } else {
            0nat
        }
    }
}

/// Every row either yields a record or is reported as one error: the
/// records read and the errors logged add up to the number of rows, and the
/// log gets one line for each row.
pub proof fn lemma_rows_are_read_or_reported(
    rows: Seq<Seq<FieldView>>,
    target: Seq<char>,
    parsed: Seq<char>,
    failed: Seq<char>,
)
    ensures
        row_reports(rows, target, parsed, failed).len() == rows.len(),
        valid_configs(rows).len() + error_count(row_reports(rows, target, parsed, failed))
            == rows.len(),
    decreases rows.len(),
{
    if rows.len() > 0 {
        lemma_rows_are_read_or_reported(rows.drop_last(), target, parsed, failed);
        let reports = row_reports(rows, target, parsed, failed);
        assert(reports.drop_last() == row_reports(rows.drop_last(), target, parsed, failed));
    }
}

/// What a fetch writes to the log once the store has replied: one record
/// for each row and the number of records read, or the store's failure.
pub open spec fn fetch_reports(reply: Result<StoreResultView, Seq<char>>) -> Seq<LogRecord> {
    match reply {
        Err(cause) => seq![error(APP_CONFIG_TARGET@, "Failed to fetch app configs: "@ + cause)],
        Ok(done) => row_reports(
            done.rows,
            APP_CONFIG_TARGET@,
            "Parsed app config: "@,
            "Failed to deserialize app config: "@,
        ).push(
            info(
                APP_CONFIG_TARGET@,
                "Successfully fetched "@ + decimal(valid_configs(done.rows).len()) + " app configs"@,
            ),
        ),
    }
}

/// Reads the records out of `rows`. A row with a fault is passed over and
/// reported in the log as an error under `failed`; a row that is a record is
/// reported under `parsed` with the record's name.
pub fn read_app_configs(
    log: &mut LogCache,
    rows: &Vec<Row>,
    target: &str,
    parsed: &str,
    failed: &str,
) -> (configs: Vec<DittoAppConfig>)
    ensures
        config_views(configs@) == valid_configs(row_views(rows@)),
        configs@.len() <= rows@.len(),
        final(log).capacity() == old(log).capacity(),
        logged(
            old(log)@,
            final(log)@,
            old(log).capacity(),
            row_reports(row_views(rows@), target@, parsed@, failed@),
        ),
        final(log).records() == keep_last(
            old(log).records() + row_reports(row_views(rows@), target@, parsed@, failed@),
            old(log).capacity(),
        ),
{
    let ghost all = row_views(rows@);
    let ghost held = log.records();
    let ghost start = log@;
    let ghost capacity = log.capacity();
    proof {
        use_type_invariant(&*log);
        log.lemma_within_capacity();
        assert(all.take(0) == Seq::<Seq<FieldView>>::empty());
        assert(held + Seq::<LogRecord>::empty() == held);
        lemma_logged_nothing(start, capacity);
    }
    let mut configs: Vec<DittoAppConfig> = Vec::new();
    let mut i: usize = 0;
    assert(config_views(configs@) =~= Seq::<DittoAppConfigView>::empty());
    while i < rows.len()
        invariant
            i <= rows.len(),
            all == row_views(rows@),
            capacity == log.capacity(),
            configs@.len() <= i,
            config_views(configs@) == valid_configs(all.take(i as int)),
            logged(
                start,
                log@,
                capacity,
                row_reports(all.take(i as int), target@, parsed@, failed@),
            ),
            log.records() == keep_last(
                held + row_reports(all.take(i as int), target@, parsed@, failed@),
                capacity,
            ),
        decreases rows.len() - i,
    {
        let ghost seen = all.take(i as int);
        let ghost next = all.take(i + 1);
        proof {
            assert(next.drop_last() == seen);
            assert(next.last() == rows@[i as int]@);
            lemma_keep_last_push(
                held,
                capacity,
                row_reports(seen, target@, parsed@, failed@),
                row_report(next.last(), target@, parsed@, failed@),
            );
        }
        let ghost before = config_views(configs@);
        let ghost between = log@;
        match DittoAppConfig::from_row(&rows[i]) {
            Ok(config) => {
                let line = join(parsed, config.name.as_str());
                log_info(log, target, line.as_str());
                configs.push(config);
                assert(config_views(configs@) =~= before.push(config@));
            },
            Err(fault) => {
                let cause = fault.message();
                let line = join(failed, cause.as_str());
                log_error(log, target, line.as_str());
            },
        }
        proof {
            let report = row_report(next.last(), target@, parsed@, failed@);
            lemma_logged_more(
                start,
                between,
                log@,
                capacity,
                row_reports(seen, target@, parsed@, failed@),
                seq![report],
            );
            assert(row_reports(seen, target@, parsed@, failed@) + seq![report] =~= row_reports(
                next,
                target@,
                parsed@,
                failed@,
            ));
        }
        i += 1;
    }
    assert(all.take(i as int) == all);
    configs
}

/// The cache of application configurations in the local store.
#[derive(Debug)]
pub struct DittoLocalCacheRepository {
    collection: String,
}

impl DittoLocalCacheRepository {
    /// The name of the collection that the repository works on.
    pub closed spec fn collection_name(self) -> Seq<char> {
        self.collection@
    }

    /// Creates the repository of the collection `dittoappconfigs`.
    pub fn new() -> (repository: Self)
        ensures
            repository.collection_name() == COLLECTION@,
    {
        DittoLocalCacheRepository { collection: String::from_str(COLLECTION) }
    }

    /// Returns the name of the collection.
    pub fn collection(&self) -> (name: &str)
        ensures
            name@ == self.collection_name(),
    {
        self.collection.as_str()
    }

    /// First step of a save: logs the attempt and returns the statement that
    /// inserts the record or replaces the document with the record's
    /// identifier.
    pub fn save_app_config(&self, log: &mut LogCache, config: &DittoAppConfig) -> (request:
        StoreRequest)
        ensures
            request@ == (StoreRequestView {
                statement: SAVE_STATEMENT@,
                argument: ArgumentView::Document {
                    name: CONFIG_PARAMETER@,
                    document: crate::ditto_app_config::encode(config@),
                },
            }),
            final(log).capacity() == old(log).capacity(),
            logged(
                old(log)@,
                final(log)@,
                old(log).capacity(),
                seq![
                info(APP_CONFIG_TARGET@, "Saving app config: "@ + config@.name),
                ],
            ),
            final(log).records() == ring_push(
                old(log).records(),
                old(log).capacity(),
                info(APP_CONFIG_TARGET@, "Saving app config: "@ + config@.name),
            ),
    {
        let line = join("Saving app config: ", config.name.as_str());
        log_info(log, APP_CONFIG_TARGET, line.as_str());
        StoreRequest {
            statement: String::from_str(SAVE_STATEMENT),
            argument: Argument::Document {
                name: String::from_str(CONFIG_PARAMETER),
                document: config.to_row(),
            },
        }
    }

    /// Second step of a save: takes the store's reply, logs the outcome and
    /// returns the identifier of the document saved. Fails with
    /// [`CacheError::Store`] where the store failed and with
    /// [`CacheError::NoEffect`] where it changed no document.
    pub fn app_config_saved(
        &self,
        log: &mut LogCache,
        config: &DittoAppConfig,
        reply: &Result<StoreResult, String>,
    ) -> (result: Result<DocumentId, CacheError>)
        ensures
            match result {
                Ok(id) => save_result(config@.name, reply_view(*reply)) == Ok::<
                    Seq<char>,
                    CacheErrorView,
                >(id@),
                Err(fault) => save_result(config@.name, reply_view(*reply)) == Err::<
                    Seq<char>,
                    CacheErrorView,
                >(fault@),
            },
            final(log).capacity() == old(log).capacity(),
            logged(
                old(log)@,
                final(log)@,
                old(log).capacity(),
                seq![
                save_report(config@.name, reply_view(*reply)),
                ],
            ),
            final(log).records() == ring_push(
                old(log).records(),
                old(log).capacity(),
                save_report(config@.name, reply_view(*reply)),
            ),
    {
        let outcome = MutationOutcome::of(reply);
        match reply {
            Err(cause) => {
                let message = join("Failed to save app config: ", cause.as_str());
                log_error(log, APP_CONFIG_TARGET, message.as_str());
                Err(CacheError::Store(message))
            },
            Ok(_) => match outcome.first_id() {
                None => {
                    let message = join(
                        "No documents were saved for app config: ",
                        config.name.as_str(),
                    );
                    log_error(log, APP_CONFIG_TARGET, message.as_str());
                    Err(CacheError::NoEffect(message))
                },
                Some(id) => {
                    let mut message = join("Successfully saved app config '", config.name.as_str());
                    message.append("' with document ID: ");
                    message.append(id.as_str());
                    log_info(log, APP_CONFIG_TARGET, message.as_str());
                    Ok(id)
                },
            },
        }
    }

    /// First step of adding a record: the same as [`Self::save_app_config`].
    pub fn add_app_config(&self, log: &mut LogCache, config: &DittoAppConfig) -> (request:
        StoreRequest)
        ensures
            request@ == (StoreRequestView {
                statement: SAVE_STATEMENT@,
                argument: ArgumentView::Document {
                    name: CONFIG_PARAMETER@,
                    document: crate::ditto_app_config::encode(config@),
                },
            }),
            final(log).capacity() == old(log).capacity(),
            logged(
                old(log)@,
                final(log)@,
                old(log).capacity(),
                seq![
                info(APP_CONFIG_TARGET@, "Saving app config: "@ + config@.name),
                ],
            ),
            final(log).records() == ring_push(
                old(log).records(),
                old(log).capacity(),
                info(APP_CONFIG_TARGET@, "Saving app config: "@ + config@.name),
            ),
    {
        self.save_app_config(log, config)
    }

    /// First step of updating a record: the same as
    /// [`Self::save_app_config`].
    pub fn update_app_config(&self, log: &mut LogCache, config: &DittoAppConfig) -> (request:
        StoreRequest)
        ensures
            request@ == (StoreRequestView {
                statement: SAVE_STATEMENT@,
                argument: ArgumentView::Document {
                    name: CONFIG_PARAMETER@,
                    document: crate::ditto_app_config::encode(config@),
                },
            }),
            final(log).capacity() == old(log).capacity(),
            logged(
                old(log)@,
                final(log)@,
                old(log).capacity(),
                seq![
                info(APP_CONFIG_TARGET@, "Saving app config: "@ + config@.name),
                ],
            ),
            final(log).records() == ring_push(
                old(log).records(),
                old(log).capacity(),
                info(APP_CONFIG_TARGET@, "Saving app config: "@ + config@.name),
            ),
    {
        self.save_app_config(log, config)
    }

    /// First step of a deletion: logs the attempt and returns the statement
    /// that deletes the document with the identifier `config_id`.
    pub fn delete_app_config(&self, log: &mut LogCache, config_id: &str) -> (request: StoreRequest)
        ensures
            request@ == (StoreRequestView {
                statement: DELETE_STATEMENT@,
                argument: ArgumentView::Text { name: ID_PARAMETER@, value: config_id@ },
            }),
            final(log).capacity() == old(log).capacity(),
            logged(
                old(log)@,
                final(log)@,
                old(log).capacity(),
                seq![
                info(APP_CONFIG_TARGET@, "Deleting app config with ID: "@ + config_id@),
                ],
            ),
            final(log).records() == ring_push(
                old(log).records(),
                old(log).capacity(),
                info(APP_CONFIG_TARGET@, "Deleting app config with ID: "@ + config_id@),
            ),
    {
        let line = join("Deleting app config with ID: ", config_id);
        log_info(log, APP_CONFIG_TARGET, line.as_str());
        StoreRequest {
            statement: String::from_str(DELETE_STATEMENT),
            argument: Argument::Text {
                name: String::from_str(ID_PARAMETER),
                value: String::from_str(config_id),
            },
        }
    }

    /// Second step of a deletion: takes the store's reply, logs the outcome
    /// and returns the identifier of the document deleted. Fails with
    /// [`CacheError::Store`] where the store failed and with
    /// [`CacheError::NoEffect`] where no document had the identifier.
    pub fn app_config_deleted(
        &self,
        log: &mut LogCache,
        config_id: &str,
        reply: &Result<StoreResult, String>,
    ) -> (result: Result<DocumentId, CacheError>)
        ensures
            match result {
                Ok(id) => delete_result(config_id@, reply_view(*reply)) == Ok::<
                    Seq<char>,
                    CacheErrorView,
                >(id@),
                Err(fault) => delete_result(config_id@, reply_view(*reply)) == Err::<
                    Seq<char>,
                    CacheErrorView,
                >(fault@),
            },
            final(log).capacity() == old(log).capacity(),
            logged(
                old(log)@,
                final(log)@,
                old(log).capacity(),
                seq![
                delete_report(config_id@, reply_view(*reply)),
                ],
            ),
            final(log).records() == ring_push(
                old(log).records(),
                old(log).capacity(),
                delete_report(config_id@, reply_view(*reply)),
            ),
    {
        let outcome = MutationOutcome::of(reply);
        match reply {
            Err(cause) => {
                let message = join("Failed to delete app config: ", cause.as_str());
                log_error(log, APP_CONFIG_TARGET, message.as_str());
                Err(CacheError::Store(message))
            },
            Ok(_) => match outcome.first_id() {
                None => {
                    let mut message = join(
                        "No documents were deleted for app config ID: ",
                        config_id,
                    );
                    message.append(" (document may not exist)");
                    log_error(log, APP_CONFIG_TARGET, message.as_str());
                    Err(CacheError::NoEffect(message))
                },
                Some(id) => {
                    let message = join(
                        "Successfully deleted app config with document ID: ",
                        id.as_str(),
                    );
                    log_info(log, APP_CONFIG_TARGET, message.as_str());
                    Ok(id)
                },
            },
        }
    }

    /// First step of a fetch: logs the attempt and returns the query for all
    /// records, ordered by name.
    pub fn get_all_app_configs(&self, log: &mut LogCache) -> (request: StoreRequest)
        ensures
            request@ == (StoreRequestView {
                statement: SELECT_STATEMENT@,
                argument: ArgumentView::Nothing,
            }),
            final(log).capacity() == old(log).capacity(),
            logged(
                old(log)@,
                final(log)@,
                old(log).capacity(),
                seq![
                info(APP_CONFIG_TARGET@, "Fetching all app configs"@),
                ],
            ),
            final(log).records() == ring_push(
                old(log).records(),
                old(log).capacity(),
                info(APP_CONFIG_TARGET@, "Fetching all app configs"@),
            ),
    {
        log_info(log, APP_CONFIG_TARGET, "Fetching all app configs");
        StoreRequest { statement: String::from_str(SELECT_STATEMENT), argument: Argument::Nothing }
    }

    /// Second step of a fetch: takes the store's reply and returns the
    /// records among its rows, in the order of the rows. A row with a fault
    /// is passed over and logged as an error; it never fails the fetch. Only
    /// a failure of the store does, with [`CacheError::Store`].
    pub fn app_configs_fetched(&self, log: &mut LogCache, reply: &Result<StoreResult, String>) -> (result:
        Result<Vec<DittoAppConfig>, CacheError>)
        ensures
            match result {
                Ok(configs) => reply_view(*reply) matches Ok(done) && config_views(configs@)
                    == valid_configs(done.rows),
                Err(fault) => reply_view(*reply) matches Err(cause) && fault@
                    == CacheErrorView::Store("Failed to fetch app configs: "@ + cause),
            },
            final(log).capacity() == old(log).capacity(),
            logged(old(log)@, final(log)@, old(log).capacity(), fetch_reports(reply_view(*reply))),
            final(log).records() == keep_last(
                old(log).records() + fetch_reports(reply_view(*reply)),
                old(log).capacity(),
            ),
    {
        let ghost held = log.records();
        let ghost start = log@;
        let ghost capacity = log.capacity();
        proof {
            use_type_invariant(&*log);
            log.lemma_within_capacity();
        }
        match reply {
            Err(cause) => {
                let message = join("Failed to fetch app configs: ", cause.as_str());
                log_error(log, APP_CONFIG_TARGET, message.as_str());
                proof {
                    let report = error(APP_CONFIG_TARGET@, message@);
                    assert(held + seq![report] == held.push(report));
                }
                Err(CacheError::Store(message))
            },
            Ok(done) => {
                let configs = read_app_configs(
                    log,
                    &done.rows,
                    APP_CONFIG_TARGET,
                    "Parsed app config: ",
                    "Failed to deserialize app config: ",
                );
                let mut message = join(
                    "Successfully fetched ",
                    decimal_text(configs.len()).as_str(),
                );
                message.append(" app configs");
                let ghost between = log@;
                log_info(log, APP_CONFIG_TARGET, message.as_str());
                proof {
                    let rows_logged = row_reports(
                        done@.rows,
                        APP_CONFIG_TARGET@,
                        "Parsed app config: "@,
                        "Failed to deserialize app config: "@,
                    );
                    let count_logged = info(APP_CONFIG_TARGET@, message@);
                    lemma_logged_more(
                        start,
                        between,
                        log@,
                        capacity,
                        rows_logged,
                        seq![count_logged],
                    );
                    assert(rows_logged + seq![count_logged] =~= rows_logged.push(count_logged));
                    lemma_keep_last_push(
                        held,
                        capacity,
                        row_reports(
                            done@.rows,
                            APP_CONFIG_TARGET@,
                            "Parsed app config: "@,
                            "Failed to deserialize app config: "@,
                        ),
                        info(APP_CONFIG_TARGET@, message@),
                    );
                    assert(config_views(configs@).len() == configs@.len());
                }
                Ok(configs)
            },
        }
    }

    /// First step of observing the collection: logs the attempt and returns
    /// the query whose result set is to be watched.
    pub fn register_app_config_observer(&self, log: &mut LogCache) -> (request: StoreRequest)
        ensures
            request@ == (StoreRequestView {
                statement: SELECT_STATEMENT@,
                argument: ArgumentView::Nothing,
            }),
            final(log).capacity() == old(log).capacity(),
            logged(
                old(log)@,
                final(log)@,
                old(log).capacity(),
                seq![
                info(OBSERVER_TARGET@, "Registering app config observer"@),
                ],
            ),
            final(log).records() == ring_push(
                old(log).records(),
                old(log).capacity(),
                info(OBSERVER_TARGET@, "Registering app config observer"@),
            ),
    {
        log_info(log, OBSERVER_TARGET, "Registering app config observer");
        StoreRequest { statement: String::from_str(SELECT_STATEMENT), argument: Argument::Nothing }
    }

    /// Second step of observing the collection: takes what the store said
    /// to the registration. Where it accepted, logs so and returns the handle
    /// of the subscription, idle and with nothing held back. Where it refused,
    /// fails with [`CacheError::Store`] and logs nothing.
    pub fn app_config_observer_registered(
        &self,
        log: &mut LogCache,
        registration: &Result<(), String>,
    ) -> (result: Result<SubscriptionHandle, CacheError>)
        ensures
            match result {
                Ok(handle) => *registration is Ok && handle@ == crate::live_query::started(
                    self.collection_name(),
                    SELECT_STATEMENT@,
                ),
                Err(fault) => *registration matches Err(cause) && fault@ == CacheErrorView::Store(
                    "Failed to register observer: "@ + cause@,
                ),
            },
            final(log).capacity() == old(log).capacity(),
            match *registration {
                Ok(_) => logged(
                    old(log)@,
                    final(log)@,
                    old(log).capacity(),
                    seq![info(OBSERVER_TARGET@, "App config observer registered successfully"@)],
                ),
                Err(_) => final(log)@ == old(log)@,
            },
            final(log).records() == (match *registration {
                Ok(_) => ring_push(
                    old(log).records(),
                    old(log).capacity(),
                    info(OBSERVER_TARGET@, "App config observer registered successfully"@),
                ),
                Err(_) => old(log).records(),
            }),
    {
        match registration {
            Err(cause) => Err(
                CacheError::Store(join("Failed to register observer: ", cause.as_str())),
            ),
            Ok(_) => {
                log_info(log, OBSERVER_TARGET, "App config observer registered successfully");
                Ok(SubscriptionHandle::new(self.collection.as_str(), SELECT_STATEMENT))
            },
        }
    }
}

} // verus!
