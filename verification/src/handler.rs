//! The prefetch dispatcher: a single-writer state machine owning the path
//! queue, the ready-frame queue, the live-worker counter and the outstanding
//! demand.
//!
//! The dispatcher is the only writer of all four; decode workers, the refill
//! task and the consumer interact with it purely by values handed in and out
//! of its methods (in the running program: over channels). One pass of the
//! coordination loop is [`MediaHandler::tick`].

use vstd::prelude::*;
use vstd::math::min;

use crate::config::MediaConfig;
use crate::error::MediaError;
use crate::frame::Frame;
use crate::locator::MediaLocator;
use crate::source::MediaSource;

verus! {

/// The dispatcher's lifecycle.
#[derive(Clone, Copy, Debug, PartialEq, Eq, Structural)]
pub enum DispatchState {
    Initializing,
    Running,
    Draining,
    Stopped,
}

/// What one decode worker reports back: the frame it produced, or the
/// locator it failed on. Failure is an explicit, observable outcome, so the
/// dispatcher can release the worker's concurrency permit deterministically
/// instead of leaking it.
pub enum DecodeOutcome {
    Decoded(Frame),
    Failed(MediaLocator),
}

/// Saturating addition on the demand counter.
pub open spec fn sat_add64(a: u64, b: u64) -> u64 {
    if a + b > u64::MAX {
        u64::MAX
    } else {
        (a + b) as u64
    }
}

/// The demand counter and draining flag after a sequence of polled demand
/// signals is applied in order: each positive signal accumulates, the first
/// zero is the shutdown token and stops processing.
pub open spec fn apply_signals(demand: u64, signals: Seq<u8>) -> (u64, bool)
    decreases signals.len(),
{
    if signals.len() == 0 {
        (demand, false)
    } else if signals[0] == 0 {
        (demand, true)
    } else {
        apply_signals(sat_add64(demand, signals[0] as u64), signals.skip(1))
    }
}

/// The path queue after a sequence of refill outcomes is applied in order:
/// each delivered batch is appended, each source failure changes nothing.
pub open spec fn refilled(
    pq: Seq<MediaLocator>,
    batches: Seq<Result<Vec<MediaLocator>, MediaError>>,
) -> Seq<MediaLocator>
    decreases batches.len(),
{
    if batches.len() == 0 {
        pq
    } else {
        let rest = refilled(pq, batches.drop_last());
        match batches.last() {
            Ok(b) => rest + b@,
            Err(_) => rest,
        }
    }
}

/// The frames carried by a sequence of decode outcomes, in order.
pub open spec fn decoded_frames(outcomes: Seq<DecodeOutcome>) -> Seq<Frame>
    decreases outcomes.len(),
{
    if outcomes.len() == 0 {
        Seq::empty()
    } else {
        let rest = decoded_frames(outcomes.drop_last());
        match outcomes.last() {
            DecodeOutcome::Decoded(f) => rest.push(f),
            DecodeOutcome::Failed(_) => rest,
        }
    }
}

/// Everything the caller polled from its channels since the previous pass of
/// the coordination loop: demand signals and refill outcomes in arrival
/// order, and the decode reports that came in. Several refill tasks may be in
/// flight at once, so several batches may arrive together, in any order;
/// locators are interchangeable and each batch is simply appended.
pub struct TickInput {
    pub signals: Vec<u8>,
    pub refill: Vec<Result<Vec<MediaLocator>, MediaError>>,
    pub decoded: Vec<DecodeOutcome>,
}

/// The actions one pass of the coordination loop asks the caller to perform:
/// deliver these frames to the consumer, spawn one decode worker per locator,
/// start a refill task if `start_refill`, and leave the loop if `stopping`.
pub struct TickOutput {
    pub delivered: Vec<Frame>,
    pub spawn: Vec<MediaLocator>,
    pub start_refill: bool,
    pub stopping: bool,
}

/// The prefetch dispatcher.
///
/// `path_queue` holds locators not yet handed to a worker, drained from the
/// back; `media_queue` holds decoded frames awaiting delivery; and
/// `thread_counter` counts in-flight decode workers. The resource invariant
/// [`MediaHandler::inv`] bounds workers and ready frames together by the
/// configured ceiling, so the ready-frame queue can never overflow when the
/// in-flight decodes complete.
pub struct MediaHandler {
    pub config: MediaConfig,
    pub media_source: MediaSource,
    pub path_queue: Vec<MediaLocator>,
    pub media_queue: Vec<Frame>,
    pub thread_counter: usize,
    pub demand: u64,
    pub state: DispatchState,
}

impl MediaHandler {
    /// The resource invariant: every in-flight worker reserves one slot of
    /// the ready-frame queue, so workers plus ready frames never exceed the
    /// concurrency ceiling.
    pub open spec fn inv(self) -> bool {
        &&& self.config.max_threads >= 1
        &&& self.thread_counter + self.media_queue@.len() <= self.config.max_threads
    }

    /// A fresh dispatcher with empty queues, entering its initializing phase.
    pub fn new(config: MediaConfig, media_source: MediaSource) -> (h: Self)
        requires
            config.max_threads >= 1,
        ensures
            h.inv(),
            h.config == config,
            h.media_source == media_source,
            h.path_queue@.len() == 0,
            h.media_queue@.len() == 0,
            h.thread_counter == 0,
            h.demand == 0,
            h.state == DispatchState::Initializing,
    {
        MediaHandler {
            config,
            media_source,
            path_queue: Vec::new(),
            media_queue: Vec::new(),
            thread_counter: 0,
            demand: 0,
            state: DispatchState::Initializing,
        }
    }

    /// Applies one demand signal: a positive value is added (saturating) to
    /// the outstanding demand; zero is the shutdown token and moves the
    /// dispatcher to its draining phase.
    pub fn handle_signal(&mut self, signal: u8)
        ensures
            final(self).config == old(self).config,
            final(self).media_source == old(self).media_source,
            final(self).path_queue == old(self).path_queue,
            final(self).media_queue == old(self).media_queue,
            final(self).thread_counter == old(self).thread_counter,
            signal == 0 ==> final(self).demand == old(self).demand && final(self).state
                == DispatchState::Draining,
            signal != 0 ==> final(self).demand == sat_add64(old(self).demand, signal as u64)
                && final(self).state == old(self).state,
            old(self).inv() ==> final(self).inv(),
    {
        if signal == 0 {
            self.state = DispatchState::Draining;
        } else {
            self.demand = self.demand.saturating_add(signal as u64);
        }
    }

    /// The backpressure check: a refill is due when the path queue holds
    /// fewer than twice the locators needed to top the ready-frame queue up
    /// to capacity.
    pub fn needs_refill(&self) -> (r: bool)
        requires
            self.inv(),
        ensures
            r == (self.path_queue@.len() < 2 * (self.config.max_threads
                - self.media_queue@.len())),
    {
        let needed: u64 = (self.config.max_threads as u64) - (self.media_queue.len() as u64);
        (self.path_queue.len() as u64) < 2 * needed
    }

    /// Applies the outcome of one refill attempt: a delivered batch is
    /// appended to the path queue; a source failure leaves the path queue
    /// exactly as it was (the refill is retried passively on a later
    /// backpressure check).
    pub fn fill_path_queue(&mut self, batch: Result<Vec<MediaLocator>, MediaError>)
        ensures
            final(self).config == old(self).config,
            final(self).media_source == old(self).media_source,
            final(self).media_queue == old(self).media_queue,
            final(self).thread_counter == old(self).thread_counter,
            final(self).demand == old(self).demand,
            final(self).state == old(self).state,
            match batch {
                Ok(b) => final(self).path_queue@ == old(self).path_queue@ + b@,
                Err(_) => final(self).path_queue == old(self).path_queue,
            },
            old(self).inv() ==> final(self).inv(),
    {
        match batch {
            Ok(mut b) => {
                self.path_queue.append(&mut b);
            },
            Err(_) => {},
        }
    }

    /// Absorbs one decode report: the worker's permit is released, and a
    /// produced frame joins the ready-frame queue, while a failed locator is
    /// dropped (the failure was already observable to the caller through the
    /// outcome value).
    ///
    /// A report with no in-flight worker to account for is a fatal
    /// bookkeeping violation; the dispatcher is left untouched and the
    /// caller should abort.
    pub fn harvest(&mut self, outcome: DecodeOutcome) -> (r: Result<(), MediaError>)
        requires
            old(self).inv(),
        ensures
            final(self).inv(),
            final(self).config == old(self).config,
            final(self).media_source == old(self).media_source,
            final(self).path_queue == old(self).path_queue,
            final(self).demand == old(self).demand,
            final(self).state == old(self).state,
            old(self).thread_counter == 0 ==> r == Err::<(), MediaError>(
                MediaError::InvariantViolation,
            ) && *final(self) == *old(self),
            old(self).thread_counter > 0 ==> {
                &&& r == Ok::<(), MediaError>(())
                &&& final(self).thread_counter == old(self).thread_counter - 1
                &&& match outcome {
                    DecodeOutcome::Decoded(f) => final(self).media_queue@ == old(
                        self,
                    ).media_queue@.push(f),
                    DecodeOutcome::Failed(_) => final(self).media_queue == old(self).media_queue,
                }
            },
    {
        if self.thread_counter == 0 {
            return Err(MediaError::InvariantViolation);
        }
        self.thread_counter = self.thread_counter - 1;
        match outcome {
            DecodeOutcome::Decoded(f) => {
                self.media_queue.push(f);
            },
            DecodeOutcome::Failed(_) => {},
        }
        Ok(())
    }

    /// Services outstanding demand from the ready-frame queue: frames are
    /// popped and moved out, one per unit of demand, until demand or the
    /// queue runs out.
    ///
    /// The returned frames have left the queue for good — the old queue
    /// splits exactly into the remaining queue and the delivered frames — so
    /// no frame can be delivered twice. Whenever demand is outstanding and a
    /// frame is ready, at least one frame is delivered.
    pub fn dispatch(&mut self) -> (delivered: Vec<Frame>)
        requires
            old(self).inv(),
        ensures
            final(self).inv(),
            final(self).config == old(self).config,
            final(self).media_source == old(self).media_source,
            final(self).path_queue == old(self).path_queue,
            final(self).thread_counter == old(self).thread_counter,
            final(self).state == old(self).state,
            delivered@.len() == min(old(self).demand as int, old(self).media_queue@.len() as int),
            final(self).demand == old(self).demand - delivered@.len(),
            final(self).media_queue@ == old(self).media_queue@.take(
                old(self).media_queue@.len() - delivered@.len(),
            ),
            delivered@ == old(self).media_queue@.skip(
                old(self).media_queue@.len() - delivered@.len(),
            ).reverse(),
            old(self).media_queue@ == final(self).media_queue@ + delivered@.reverse(),
            old(self).demand > 0 && old(self).media_queue@.len() > 0 ==> delivered@.len() >= 1,
    {
        let ghost mq0 = self.media_queue@;
        let ghost d0 = self.demand;
        let mut delivered: Vec<Frame> = Vec::new();
        while self.demand > 0 && self.media_queue.len() > 0
            invariant
                self.inv(),
                self.config == old(self).config,
                self.media_source == old(self).media_source,
                self.path_queue == old(self).path_queue,
                self.thread_counter == old(self).thread_counter,
                self.state == old(self).state,
                mq0 == old(self).media_queue@,
                d0 == old(self).demand,
                delivered@.len() <= d0,
                delivered@.len() <= mq0.len(),
                self.demand == d0 - delivered@.len(),
                self.media_queue@ == mq0.take(mq0.len() - delivered@.len()),
                delivered@ == mq0.skip(mq0.len() - delivered@.len()).reverse(),
            decreases self.media_queue@.len(),
        {
            let ghost k = delivered@.len() as int;
            let f = match self.media_queue.pop() {
                Some(f) => f,
                None => unreached(),
            };
            assert(f == mq0[mq0.len() - k - 1]);
            delivered.push(f);
            self.demand = self.demand - 1;
            assert(self.media_queue@ =~= mq0.take(mq0.len() - (k + 1)));
            assert(delivered@ =~= mq0.skip(mq0.len() - (k + 1)).reverse());
        }
        proof {
            let k = delivered@.len() as int;
            assert(mq0 =~= self.media_queue@ + delivered@.reverse());
            if self.demand > 0 {
                assert(self.media_queue@.len() == 0);
                assert(k == mq0.len());
            } else {
                assert(k == d0);
            }
        }
        delivered
    }

    /// Replenishes the decode pipeline: locators are popped from the back of
    /// the path queue and returned for the caller to hand to fresh decode
    /// workers, one permit being taken per locator, while spare capacity and
    /// locators remain.
    ///
    /// Capacity counts in-flight workers and ready frames together, so the
    /// completions of the spawned decodes can never overflow the ready-frame
    /// queue. Whenever the path queue is non-empty and such spare capacity
    /// exists, at least one worker is spawned.
    pub fn replenish(&mut self) -> (spawn: Vec<MediaLocator>)
        requires
            old(self).inv(),
        ensures
            final(self).inv(),
            final(self).config == old(self).config,
            final(self).media_source == old(self).media_source,
            final(self).media_queue == old(self).media_queue,
            final(self).demand == old(self).demand,
            final(self).state == old(self).state,
            spawn@.len() == min(
                old(self).path_queue@.len() as int,
                old(self).config.max_threads - old(self).thread_counter - old(
                    self,
                ).media_queue@.len(),
            ),
            final(self).thread_counter == old(self).thread_counter + spawn@.len(),
            final(self).path_queue@ == old(self).path_queue@.take(
                old(self).path_queue@.len() - spawn@.len(),
            ),
            spawn@ == old(self).path_queue@.skip(
                old(self).path_queue@.len() - spawn@.len(),
            ).reverse(),
            old(self).path_queue@ == final(self).path_queue@ + spawn@.reverse(),
            old(self).path_queue@.len() > 0 && old(self).thread_counter + old(
                self,
            ).media_queue@.len() < old(self).config.max_threads ==> spawn@.len() >= 1,
    {
        let ghost pq0 = self.path_queue@;
        let ghost tc0 = self.thread_counter;
        let mut spawn: Vec<MediaLocator> = Vec::new();
        while (self.thread_counter as u64) + (self.media_queue.len() as u64) < (
        self.config.max_threads as u64) && self.path_queue.len() > 0
            invariant
                self.inv(),
                self.config == old(self).config,
                self.media_source == old(self).media_source,
                self.media_queue == old(self).media_queue,
                self.demand == old(self).demand,
                self.state == old(self).state,
                pq0 == old(self).path_queue@,
                tc0 == old(self).thread_counter,
                spawn@.len() <= pq0.len(),
                self.thread_counter == tc0 + spawn@.len(),
                self.path_queue@ == pq0.take(pq0.len() - spawn@.len()),
                spawn@ == pq0.skip(pq0.len() - spawn@.len()).reverse(),
            decreases self.path_queue@.len(),
        {
            let ghost k = spawn@.len() as int;
            let l = match self.path_queue.pop() {
                Some(l) => l,
                None => unreached(),
            };
            assert(l == pq0[pq0.len() - k - 1]);
            spawn.push(l);
            self.thread_counter = self.thread_counter + 1;
            assert(self.path_queue@ =~= pq0.take(pq0.len() - (k + 1)));
            assert(spawn@ =~= pq0.skip(pq0.len() - (k + 1)).reverse());
        }
        proof {
            assert(pq0 =~= self.path_queue@ + spawn@.reverse());
        }
        spawn
    }

    /// One pass of the coordination loop. In order: polled demand signals
    /// are applied (a zero is the shutdown token and moves the dispatcher to
    /// draining at once, servicing nothing further); polled refill batches
    /// are appended to the path queue; the backpressure check decides whether a
    /// new refill task is due; outstanding demand is serviced from the
    /// ready-frame queue; the decode pipeline is replenished from the path
    /// queue; and finally the polled decode reports are absorbed.
    ///
    /// `input` carries everything the caller polled from its channels since
    /// the previous pass; the returned actions are for the caller to perform:
    /// send the delivered frames to the consumer, spawn one decode worker per
    /// locator, and start a refill task if one is due.
    ///
    /// More decode reports than in-flight workers is a fatal bookkeeping
    /// violation: the dispatcher is left untouched and the caller should
    /// abort with a diagnostic.
    #[verifier::loop_isolation(false)]
    pub fn tick(&mut self, input: TickInput) -> (r: Result<TickOutput, MediaError>)
        requires
            old(self).inv(),
            old(self).state == DispatchState::Running,
        ensures
            final(self).inv(),
            final(self).config == old(self).config,
            final(self).media_source == old(self).media_source,
            r is Err <==> input.decoded@.len() > old(self).thread_counter,
            r is Err ==> r == Err::<TickOutput, MediaError>(MediaError::InvariantViolation)
                && *final(self) == *old(self),
            r matches Ok(out) ==> ({
                let d1 = apply_signals(old(self).demand, input.signals@).0;
                let stop = apply_signals(old(self).demand, input.signals@).1;
                &&& out.stopping == stop
                &&& stop ==> {
                    &&& final(self).state == DispatchState::Draining
                    &&& final(self).demand == d1
                    &&& final(self).path_queue == old(self).path_queue
                    &&& final(self).media_queue == old(self).media_queue
                    &&& final(self).thread_counter == old(self).thread_counter
                    &&& out.delivered@.len() == 0
                    &&& out.spawn@.len() == 0
                    &&& !out.start_refill
                }
                &&& !stop ==> ({
                    let pq1 = refilled(old(self).path_queue@, input.refill@);
                    let mq0 = old(self).media_queue@;
                    let k1 = min(d1 as int, mq0.len() as int);
                    let mq1 = mq0.take(mq0.len() - k1);
                    let k2 = min(
                        pq1.len() as int,
                        old(self).config.max_threads - old(self).thread_counter - mq1.len(),
                    );
                    &&& final(self).state == DispatchState::Running
                    &&& out.start_refill == (pq1.len() < 2 * (old(self).config.max_threads
                        - mq0.len()))
                    &&& out.delivered@ == mq0.skip(mq0.len() - k1).reverse()
                    &&& mq0 == mq1 + out.delivered@.reverse()
                    &&& final(self).demand == d1 - k1
                    &&& out.spawn@ == pq1.skip(pq1.len() - k2).reverse()
                    &&& final(self).path_queue@ == pq1.take(pq1.len() - k2)
                    &&& final(self).thread_counter == old(self).thread_counter + k2
                        - input.decoded@.len()
                    &&& final(self).media_queue@ == mq1 + decoded_frames(input.decoded@)
                    &&& (d1 > 0 && mq0.len() > 0 ==> out.delivered@.len() >= 1)
                    &&& (pq1.len() > 0 && old(self).thread_counter + mq1.len() < old(
                        self,
                    ).config.max_threads ==> out.spawn@.len() >= 1)
                })
            }),
    {
        if input.decoded.len() > self.thread_counter {
            return Err(MediaError::InvariantViolation);
        }
        let TickInput { signals, refill, decoded } = input;
        let ghost d0 = self.demand;
        let ghost tc0 = self.thread_counter;

        // Demand signals, in the order they were polled.
        proof {
            assert(signals@.skip(0) =~= signals@);
        }
        let mut i: usize = 0;
        while i < signals.len()
            invariant
                i <= signals@.len(),
                self.inv(),
                self.state == DispatchState::Running,
                self.config == old(self).config,
                self.media_source == old(self).media_source,
                self.path_queue == old(self).path_queue,
                self.media_queue == old(self).media_queue,
                self.thread_counter == old(self).thread_counter,
                d0 == old(self).demand,
                apply_signals(d0, signals@) == apply_signals(
                    self.demand,
                    signals@.skip(i as int),
                ),
            decreases signals@.len() - i,
        {
            let s = signals[i];
            proof {
                assert(signals@.skip(i as int)[0] == signals@[i as int]);
                assert(signals@.skip(i as int).skip(1) =~= signals@.skip(i as int + 1));
            }
            self.handle_signal(s);
            if s == 0 {
                return Ok(
                    TickOutput {
                        delivered: Vec::new(),
                        spawn: Vec::new(),
                        start_refill: false,
                        stopping: true,
                    },
                );
            }
            i = i + 1;
        }
        proof {
            assert(signals@.skip(signals@.len() as int) =~= Seq::<u8>::empty());
        }

        // Refill batches, then the backpressure check on the topped-up queue.
        let ghost refills = refill@;
        let ghost pq0 = self.path_queue@;
        proof {
            assert(refills.skip(0) =~= refills);
        }
        let mut refill = refill;
        let refill_count: usize = refill.len();
        proof {
            assert(refills.len() == refill_count);
        }
        let mut j: usize = 0;
        while refill.len() > 0
            invariant
                j + refill@.len() == refills.len(),
                refill@ == refills.skip(j as int),
                self.path_queue@ == refilled(pq0, refills.take(j as int)),
                self.inv(),
                self.state == DispatchState::Running,
                self.config == old(self).config,
                self.media_source == old(self).media_source,
                self.media_queue == old(self).media_queue,
                self.thread_counter == old(self).thread_counter,
                self.demand == apply_signals(d0, signals@).0,
            decreases refill@.len(),
        {
            let batch = refill.remove(0);
            proof {
                assert(refills.skip(j as int)[0] == refills[j as int]);
                assert(refills.take(j as int + 1).drop_last() =~= refills.take(j as int));
                assert(refills.take(j as int + 1).last() == refills[j as int]);
                assert(refill@ =~= refills.skip(j as int + 1));
            }
            self.fill_path_queue(batch);
            j = j + 1;
        }
        proof {
            assert(refills.take(refills.len() as int) =~= refills);
        }
        let start_refill = self.needs_refill();

        // Service demand, then replenish the decode pipeline.
        let delivered = self.dispatch();
        let spawn = self.replenish();

        // Absorb the decode reports.
        let ghost orig = decoded@;
        let ghost tc1 = self.thread_counter;
        let ghost mq1v = self.media_queue@;
        let ghost pq2 = self.path_queue@;
        let ghost d2 = self.demand;
        let mut decoded = decoded;
        let mut k: usize = 0;
        while decoded.len() > 0
            invariant
                k + decoded@.len() == orig.len(),
                decoded@ == orig.skip(k as int),
                orig.len() <= tc0,
                tc0 <= tc1,
                self.thread_counter == tc1 - k,
                self.media_queue@ == mq1v + decoded_frames(orig.take(k as int)),
                self.inv(),
                self.config == old(self).config,
                self.media_source == old(self).media_source,
                self.path_queue@ == pq2,
                self.demand == d2,
                self.state == DispatchState::Running,
            decreases decoded@.len(),
        {
            let o = decoded.remove(0);
            proof {
                assert(orig.skip(k as int)[0] == orig[k as int]);
                assert(orig.take(k as int + 1).drop_last() =~= orig.take(k as int));
                assert(orig.take(k as int + 1).last() == orig[k as int]);
                assert(decoded@ =~= orig.skip(k as int + 1));
            }
            let res = self.harvest(o);
            match res {
                Ok(_) => {},
                Err(_) => unreached(),
            }
            k = k + 1;
        }
        proof {
            assert(orig.take(orig.len() as int) =~= orig);
        }
        Ok(TickOutput { delivered, spawn, start_refill, stopping: false })
    }

    /// Leaves the initializing phase: the queues were pre-filled and the
    /// coordination loop may run.
    pub fn finish_init(&mut self)
        requires
            old(self).state == DispatchState::Initializing,
        ensures
            *final(self) == (MediaHandler { state: DispatchState::Running, ..*old(self) }),
    {
        self.state = DispatchState::Running;
    }

    /// Ends the draining phase. In-flight workers and refill tasks are not
    /// joined; their late results are drained and discarded by the caller,
    /// which then drops the dispatcher.
    pub fn stop(&mut self)
        requires
            old(self).state == DispatchState::Draining,
        ensures
            *final(self) == (MediaHandler { state: DispatchState::Stopped, ..*old(self) }),
    {
        self.state = DispatchState::Stopped;
    }
}

/// In every dispatcher state satisfying the resource invariant — the
/// constructor establishes it and every mutating method preserves it — the
/// live-worker counter lies between zero and the configured ceiling.
pub proof fn lemma_thread_counter_bounded(h: MediaHandler)
    requires
        h.inv(),
    ensures
        0 <= h.thread_counter <= h.config.max_threads,
{
}

/// In every dispatcher state satisfying the resource invariant, the
/// ready-frame queue holds at most the configured ceiling of frames.
pub proof fn lemma_media_queue_bounded(h: MediaHandler)
    requires
        h.inv(),
    ensures
        h.media_queue@.len() <= h.config.max_threads,
{
}

/// The demand counter never goes below zero: it is carried as an unsigned
/// value, and `dispatch` subtracts exactly the number of frames delivered,
/// which never exceeds the counter itself.
pub proof fn lemma_demand_never_negative(h: MediaHandler)
    ensures
        h.demand >= 0,
{
}

/// No frame is delivered twice: the ready-frame queue before a delivery
/// splits exactly, counting every frame value, into the queue left behind
/// and the frames moved out — which is how `dispatch` relates its result to
/// the queue.
pub proof fn lemma_no_duplicate_delivery(pre: Seq<Frame>, post: Seq<Frame>, delivered: Seq<Frame>)
    requires
        pre == post + delivered.reverse(),
    ensures
        post.len() + delivered.len() == pre.len(),
        pre.to_multiset() == post.to_multiset().add(delivered.to_multiset()),
        forall|f: Frame|
            post.to_multiset().count(f) + delivered.to_multiset().count(f)
                == pre.to_multiset().count(f),
{
    broadcast use vstd::multiset::axiom_multiset_add;

    vstd::seq_lib::lemma_multiset_commutative(post, delivered.reverse());
    delivered.lemma_reverse_to_multiset();
    assert(pre.to_multiset() =~= post.to_multiset().add(delivered.to_multiset()));
}

} // verus!
