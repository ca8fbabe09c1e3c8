//! A periodic, offset-paginated table-synchronization engine.
//!
//! The engine repeatedly counts the rows of each configured table, fetches
//! them in bounded-size batches, decodes every column value into a canonical
//! string, and hands the batches to a caller-supplied event consumer.  All
//! decision logic (offset bookkeeping, iteration counting, shutdown and
//! error-recovery policy) lives here and is verified; a thin driver executes
//! the SQL and sleeps between cycles, feeding each outcome back through the
//! step methods of [`MySqlUpdater`].

pub mod config;
pub mod model;
pub mod text;
pub mod util;

use vstd::prelude::*;
use std::sync::Arc;
use std::sync::atomic::{AtomicBool, Ordering};
use crate::config::MySqlConfig;
use crate::model::{ScanState, scan_start, scan_step};
use crate::util::SqlValue;

verus! {

/// The capability set the engine calls into, never implements: query
/// construction and result delivery are delegated outward through it.
pub trait MySqlUpdaterEvents {
    /// The text of the query that counts the rows of one table.
    fn get_count_query(&self, db_name: &str, table_name: &str) -> String;

    /// The text of the query that fetches at most `limit` rows starting at
    /// `offset`.
    fn get_fetch_query(&self, db_name: &str, table_name: &str, offset: u64, limit: usize)
        -> String;

    /// Called once per table per cycle, right after a successful count.
    fn total_rows_count(&self, db_name: &str, table_name: &str, num_rows: u64);

    /// Delivers one decoded batch; `offset` is the cursor after the batch.
    fn rows_fetched(&self, db_name: &str, table_name: &str, offset: u64, rows: Vec<Vec<String>>);

    /// Reports a non-fatal query failure.
    fn sql_query_error(&self, query: &str, error: &str);
}

/// Where the engine stands between two pieces of outside work.
pub enum Phase {
    /// The connection pool is being built.
    Initializing,
    /// The count query of table `table` is in flight.
    AwaitingCount { table: usize, count_query: String },
    /// A fetch query of table `table` is in flight; `remaining` iterations
    /// follow it, `offset` rows of the scan are already consumed.
    AwaitingFetch { table: usize, remaining: u64, offset: u64, count_query: String },
    /// The inter-cycle sleep is in progress.
    AwaitingWake,
    /// The run is over; no further query is ever issued.
    Stopped,
}

/// What the driver must do next.
pub enum EngineAction {
    /// Execute this count query and report the outcome to
    /// [`MySqlUpdater::count_done`].
    RunCountQuery(String),
    /// Execute this fetch query (at most the given number of rows) and
    /// report the outcome to [`MySqlUpdater::fetch_done`].
    RunFetchQuery(String, usize),
    /// Sleep this many milliseconds, then call [`MySqlUpdater::woke`].
    Sleep(u32),
    /// The run is over with this result.
    Stop(Result<(), String>),
}

/// Which step method the engine expects next.
#[derive(Clone, Copy, PartialEq, Eq, Structural, Debug)]
pub enum Awaiting {
    PoolBuild,
    CountResult,
    FetchResult,
    Wake,
    Nothing,
}

/// The action stops the run because the shutdown signal was observed
/// mid-pagination.
pub open spec fn stop_is_shutdown_error(action: EngineAction) -> bool {
    action matches EngineAction::Stop(r) && (r matches Err(m)
        && m@ == "Shutdown received. exiting.."@)
}

/// The action stops the run cleanly: the shutdown signal was observed
/// between cycles or at the top of one.
pub open spec fn stop_is_clean(action: EngineAction) -> bool {
    action matches EngineAction::Stop(r) && r is Ok
}

/// The outcome of moving on to table `t`: when tables remain, the next
/// count query goes out; past the last table the cycle ends, and the engine
/// either stops cleanly (shutdown observed) or sleeps out the configured
/// pause.
pub open spec fn advance_outcome(
    cfg: &MySqlConfig,
    t: int,
    shutdown_now: bool,
    post: Phase,
    action: EngineAction,
) -> bool {
    if t < cfg.tables@.len() {
        match (post, action) {
            (Phase::AwaitingCount { table, count_query }, EngineAction::RunCountQuery(q)) => {
                &&& table == t
                &&& count_query@ == q@
            },
            _ => false,
        }
    } else if shutdown_now {
        post == Phase::Stopped && stop_is_clean(action)
    } else {
        post == Phase::AwaitingWake && (action matches EngineAction::Sleep(ms)
            && ms == cfg.periodic_fetch_duration)
    }
}

/// The outcome of a count result for table `t` whose count query read
/// `cq`: a failure is reported and the table is skipped for the cycle; a
/// zero count moves on with nothing to fetch; a positive count starts a
/// scan of exactly `iterations_of(n, fetch_limit)` fetch iterations — unless
/// the shutdown signal is observed first, which aborts the whole run.
pub open spec fn count_outcome(
    cfg: &MySqlConfig,
    t: int,
    cq: Seq<char>,
    result: Result<u64, String>,
    shutdown_now: bool,
    post: Phase,
    action: EngineAction,
) -> bool {
    match result {
        Err(_) => advance_outcome(cfg, t + 1, shutdown_now, post, action),
        Ok(n) => if n == 0 {
            advance_outcome(cfg, t + 1, shutdown_now, post, action)
        } else if shutdown_now {
            post == Phase::Stopped && stop_is_shutdown_error(action)
        } else {
            match (post, action) {
                (
                    Phase::AwaitingFetch { table, remaining, offset, count_query },
                    EngineAction::RunFetchQuery(_q, lim),
                ) => {
                    &&& table == t
                    &&& ScanState { remaining: (remaining + 1) as nat, offset: offset as nat }
                        == scan_start(n as nat, cfg.fetch_limit as nat)
                    &&& count_query@ == cq
                    &&& lim == cfg.fetch_limit
                },
                _ => false,
            }
        },
    }
}

/// The outcome of a fetch result for table `t` with `rem` iterations
/// outstanding beyond the one that just completed and `off` rows consumed:
/// the scan follows [`scan_step`] (offset advances by exactly the rows
/// returned, and not at all on a failure, which is reported); when
/// iterations remain the next fetch goes out, unless the shutdown signal
/// aborts the run; when none remain the engine moves to the next table.
pub open spec fn fetch_outcome(
    cfg: &MySqlConfig,
    t: int,
    rem: u64,
    off: u64,
    cq: Seq<char>,
    result: Result<Vec<Vec<SqlValue>>, String>,
    shutdown_now: bool,
    post: Phase,
    action: EngineAction,
) -> bool {
    let fetched: Option<nat> = match result {
        Ok(rows) => Some(rows@.len()),
        Err(_) => None,
    };
    let next = scan_step(ScanState { remaining: (rem + 1) as nat, offset: off as nat }, fetched);
    if rem == 0 {
        advance_outcome(cfg, t + 1, shutdown_now, post, action)
    } else if shutdown_now {
        post == Phase::Stopped && stop_is_shutdown_error(action)
    } else {
        match (post, action) {
            (
                Phase::AwaitingFetch { table, remaining, offset, count_query },
                EngineAction::RunFetchQuery(_q, lim),
            ) => {
                &&& table == t
                &&& remaining as nat + 1 == next.remaining
                &&& offset as nat == next.offset
                &&& count_query@ == cq
                &&& lim == cfg.fetch_limit
            },
            _ => false,
        }
    }
}

/// The polling engine: one instance per run.
pub struct MySqlUpdater {
    pub config: MySqlConfig,
    pub shutdown: Arc<AtomicBool>,
    pub phase: Phase,
}

impl MySqlUpdater {
    /// The current table index, when a query is in flight, stays inside the
    /// configured tables.
    pub open spec fn wf(&self) -> bool {
        match self.phase {
            Phase::AwaitingCount { table, .. } => table < self.config.tables@.len(),
            Phase::AwaitingFetch { table, .. } => table < self.config.tables@.len(),
            _ => true,
        }
    }

    pub fn new(config: &MySqlConfig, shutdown: Arc<AtomicBool>) -> (r: MySqlUpdater)
        ensures
            crate::config::my_sql_config_congruent(&r.config, config),
            r.phase == Phase::Initializing,
            r.wf(),
    {
        MySqlUpdater { config: config.clone(), shutdown, phase: Phase::Initializing }
    }

    /// Reads the shared shutdown flag.  Its value is set by another thread,
    /// so nothing is promised of it; every step method is verified for
    /// either reading.
    pub fn shutdown_requested(&self) -> bool {
        self.shutdown.load(Ordering::SeqCst)
    }

    /// Which step method the engine expects next.
    pub fn awaiting(&self) -> (r: Awaiting)
        ensures
            r == (match self.phase {
                Phase::Initializing => Awaiting::PoolBuild,
                Phase::AwaitingCount { .. } => Awaiting::CountResult,
                Phase::AwaitingFetch { .. } => Awaiting::FetchResult,
                Phase::AwaitingWake => Awaiting::Wake,
                Phase::Stopped => Awaiting::Nothing,
            }),
    {
        match &self.phase {
            Phase::Initializing => Awaiting::PoolBuild,
            Phase::AwaitingCount { .. } => Awaiting::CountResult,
            Phase::AwaitingFetch { .. } => Awaiting::FetchResult,
            Phase::AwaitingWake => Awaiting::Wake,
            Phase::Stopped => Awaiting::Nothing,
        }
    }

    /// How many more rows the scan's offset can account for; the driver
    /// must not report a successful batch larger than this.
    pub fn fetch_headroom(&self) -> (r: u64)
        ensures
            match self.phase {
                Phase::AwaitingFetch { offset, .. } => r == u64::MAX - offset,
                _ => r == u64::MAX,
            },
    {
        match &self.phase {
            Phase::AwaitingFetch { offset, .. } => u64::MAX - *offset,
            _ => u64::MAX,
        }
    }

    /// Moves on to table `t`, or past the last table ends the cycle.
    fn begin_table<T: MySqlUpdaterEvents>(
        &mut self,
        t: usize,
        shutdown_now: bool,
        handler: &T,
    ) -> (action: EngineAction)
        requires
            t <= old(self).config.tables@.len(),
        ensures
            final(self).config == old(self).config,
            final(self).shutdown == old(self).shutdown,
            final(self).wf(),
            advance_outcome(&final(self).config, t as int, shutdown_now, final(self).phase, action),
    {
        if t < self.config.tables.len() {
            let q = handler.get_count_query(
                self.config.db_config.db_name.as_str(),
                self.config.tables[t].0.as_str(),
            );
            self.phase = Phase::AwaitingCount { table: t, count_query: q.clone() };
            EngineAction::RunCountQuery(q)
        } else if shutdown_now {
            self.phase = Phase::Stopped;
            EngineAction::Stop(Ok(()))
        } else {
            self.phase = Phase::AwaitingWake;
            EngineAction::Sleep(self.config.periodic_fetch_duration)
        }
    }

    /// Starts the run, given the outcome of building the connection pool.
    /// A pool failure is the one fatal error: the run stops at once with
    /// that message.  Otherwise the first cycle begins — unless the
    /// shutdown signal is already set, in which case the run ends cleanly.
    pub fn start<T: MySqlUpdaterEvents>(
        &mut self,
        pool_result: Result<(), String>,
        shutdown_now: bool,
        handler: &T,
    ) -> (action: EngineAction)
        requires
            old(self).phase == Phase::Initializing,
        ensures
            final(self).config == old(self).config,
            final(self).shutdown == old(self).shutdown,
            final(self).wf(),
            match pool_result {
                Err(e) => final(self).phase == Phase::Stopped
                    && (action matches EngineAction::Stop(r) && (r matches Err(m) && m@ == e@)),
                Ok(_) => if shutdown_now {
                    final(self).phase == Phase::Stopped && stop_is_clean(action)
                } else {
                    advance_outcome(&final(self).config, 0, false, final(self).phase, action)
                },
            },
    {
        match pool_result {
            Err(e) => {
                self.phase = Phase::Stopped;
                EngineAction::Stop(Err(e))
            },
            Ok(_) => {
                if shutdown_now {
                    self.phase = Phase::Stopped;
                    EngineAction::Stop(Ok(()))
                } else {
                    self.begin_table(0, false, handler)
                }
            },
        }
    }

    /// Consumes the outcome of the in-flight count query, as
    /// [`count_outcome`] states: report and skip on failure, report the
    /// total and start the scan on success.
    pub fn count_done<T: MySqlUpdaterEvents>(
        &mut self,
        result: Result<u64, String>,
        shutdown_now: bool,
        handler: &T,
    ) -> (action: EngineAction)
        requires
            old(self).wf(),
            old(self).config.fetch_limit > 0,
            old(self).phase matches Phase::AwaitingCount { .. },
        ensures
            final(self).config == old(self).config,
            final(self).shutdown == old(self).shutdown,
            final(self).wf(),
            (match old(self).phase {
                Phase::AwaitingCount { table, count_query } => count_outcome(
                    &final(self).config,
                    table as int,
                    count_query@,
                    result,
                    shutdown_now,
                    final(self).phase,
                    action,
                ),
                _ => false,
            }),
    {
        let (t, cq) = match &self.phase {
            Phase::AwaitingCount { table, count_query } => (*table, count_query.clone()),
            _ => unreached(),
        };
        // The executable length bounds the table index, so `t + 1` below
        // cannot overflow.
        let n_tables = self.config.tables.len();
        proof {
            assert(t < n_tables);
        }
        match result {
            Err(e) => {
                handler.sql_query_error(cq.as_str(), e.as_str());
                self.begin_table(t + 1, shutdown_now, handler)
            },
            Ok(total_count) => {
                handler.total_rows_count(
                    self.config.db_config.db_name.as_str(),
                    self.config.tables[t].0.as_str(),
                    total_count,
                );
                if total_count == 0 {
                    self.begin_table(t + 1, shutdown_now, handler)
                } else {
                    let mut iterations = total_count / (self.config.fetch_limit as u64);
                    if iterations == 0 {
                        iterations = 1;
                    }
                    if shutdown_now {
                        self.phase = Phase::Stopped;
                        EngineAction::Stop(Err("Shutdown received. exiting..".to_owned()))
                    } else {
                        let q = handler.get_fetch_query(
                            self.config.db_config.db_name.as_str(),
                            self.config.tables[t].0.as_str(),
                            0,
                            self.config.fetch_limit,
                        );
                        let lim = self.config.fetch_limit;
                        self.phase = Phase::AwaitingFetch {
                            table: t,
                            remaining: iterations - 1,
                            offset: 0,
                            count_query: cq,
                        };
                        EngineAction::RunFetchQuery(q, lim)
                    }
                }
            },
        }
    }

    /// Consumes the outcome of the in-flight fetch query, as
    /// [`fetch_outcome`] states: on success the batch is decoded through the
    /// value codec and delivered with the advanced offset; on failure the
    /// error is reported and the offset stands still.
    pub fn fetch_done<T: MySqlUpdaterEvents>(
        &mut self,
        result: Result<Vec<Vec<SqlValue>>, String>,
        shutdown_now: bool,
        handler: &T,
    ) -> (action: EngineAction)
        requires
            old(self).wf(),
            old(self).phase matches Phase::AwaitingFetch { offset, .. } && (match result {
                Ok(rows) => offset + rows@.len() <= u64::MAX,
                Err(_) => true,
            }),
        ensures
            final(self).config == old(self).config,
            final(self).shutdown == old(self).shutdown,
            final(self).wf(),
            (match old(self).phase {
                Phase::AwaitingFetch { table, remaining, offset, count_query } => fetch_outcome(
                    &final(self).config,
                    table as int,
                    remaining,
                    offset,
                    count_query@,
                    result,
                    shutdown_now,
                    final(self).phase,
                    action,
                ),
                _ => false,
            }),
    {
        let (t, rem, off, cq) = match &self.phase {
            Phase::AwaitingFetch { table, remaining, offset, count_query } => (
                *table,
                *remaining,
                *offset,
                count_query.clone(),
            ),
            _ => unreached(),
        };
        // The executable length bounds the table index, so `t + 1` below
        // cannot overflow.
        let n_tables = self.config.tables.len();
        proof {
            assert(t < n_tables);
        }
        let new_off: u64;
        match result {
            Err(e) => {
                handler.sql_query_error(cq.as_str(), e.as_str());
                new_off = off;
            },
            Ok(rows) => {
                new_off = off + rows.len() as u64;
                let decoded = crate::util::MySqlUtils::decode_rows(rows);
                handler.rows_fetched(
                    self.config.db_config.db_name.as_str(),
                    self.config.tables[t].0.as_str(),
                    new_off,
                    decoded,
                );
            },
        }
        if rem == 0 {
            self.begin_table(t + 1, shutdown_now, handler)
        } else if shutdown_now {
            self.phase = Phase::Stopped;
            EngineAction::Stop(Err("Shutdown received. exiting..".to_owned()))
        } else {
            let q = handler.get_fetch_query(
                self.config.db_config.db_name.as_str(),
                self.config.tables[t].0.as_str(),
                new_off,
                self.config.fetch_limit,
            );
            let lim = self.config.fetch_limit;
            self.phase = Phase::AwaitingFetch {
                table: t,
                remaining: rem - 1,
                offset: new_off,
                count_query: cq,
            };
            EngineAction::RunFetchQuery(q, lim)
        }
    }

    /// Ends the inter-cycle pause: the next cycle begins, unless the
    /// shutdown signal was set while sleeping, which ends the run cleanly.
    pub fn woke<T: MySqlUpdaterEvents>(&mut self, shutdown_now: bool, handler: &T) -> (action:
        EngineAction)
        requires
            old(self).phase == Phase::AwaitingWake,
        ensures
            final(self).config == old(self).config,
            final(self).shutdown == old(self).shutdown,
            final(self).wf(),
            if shutdown_now {
                final(self).phase == Phase::Stopped && stop_is_clean(action)
            } else {
                advance_outcome(&final(self).config, 0, false, final(self).phase, action)
            },
    {
        if shutdown_now {
            self.phase = Phase::Stopped;
            EngineAction::Stop(Ok(()))
        } else {
            self.begin_table(0, false, handler)
        }
    }
}

} // verus!
