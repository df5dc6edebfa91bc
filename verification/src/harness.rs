//! The timing harness: one container, one scenario, many rounds.
//!
//! A round is an untimed setup step, which puts the sample key into the state
//! the scenario expects, followed by one timed interval: start the clock,
//! perform the operation once, stop the clock. The container is shared by all
//! rounds of a run, and the clock is read in every round, so each sample
//! carries the cost of one clock read; in exchange no container is built or
//! dropped while samples are taken. The sum of the samples is what a run
//! reports.
//!
//! Two ghost values tell what a run did; neither costs anything at run time.
//! The container keeps a record of the calls made on it, which only its own
//! methods extend: what the contracts below say of the record is bound to the
//! calls that the code makes. The harness keeps a log, which adds the starts
//! and stops of the clock. The clock's readings are opaque to the verifier
//! and nothing that the clock promises can speak of the container, so where
//! the clock reads stand among the calls rests on the code of
//! `Harness::time`: each of its arms is a clock read, the call, and a clock
//! read.

use crate::container::Container;
use crate::container::Record;
use crate::scenario::Operation;
use crate::scenario::Scenario;
use codspeed_criterion_compat::black_box;
use std::time::Instant;
use vstd::prelude::*;

verus! {

/// One entry of the log.
pub enum Event {
    /// An operation was performed on the container.
    Applied(Operation),
    /// The clock was started, with the sample key present or absent at that
    /// moment.
    Started { present: bool },
    /// The clock was stopped, this many nanoseconds after it was started.
    Stopped { nanos: u128 },
}

/// What one round yielded.
pub struct Sample {
    /// The length of the timed interval in nanoseconds.
    pub nanos: u128,
    /// Whether the sample key was in the container before the setup step.
    pub before: bool,
    /// Whether the sample key was in the container when the clock started.
    pub present: bool,
}

/// The log of one round of `scenario` that yielded `sample`.
pub open spec fn round_log(scenario: Scenario, sample: Sample) -> Seq<Event> {
    seq![
        Event::Applied(scenario.spec_setup()),
        Event::Started { present: sample.present },
        Event::Applied(scenario.spec_operation()),
        Event::Stopped { nanos: sample.nanos },
    ]
}

/// The log of a run of `scenario`: one round for each sample, in order.
pub open spec fn run_log(scenario: Scenario, samples: Seq<Sample>) -> Seq<Event>
    decreases samples.len(),
{
    if samples.len() == 0 {
        Seq::empty()
    } else {
        run_log(scenario, samples.drop_last()) + round_log(scenario, samples.last())
    }
}

/// What one round of `scenario` adds to the container's record: the setup
/// step and the timed operation, each with the state of the key it found.
pub open spec fn round_record(scenario: Scenario, sample: Sample) -> Record {
    seq![(scenario.spec_setup(), sample.before), (scenario.spec_operation(), sample.present)]
}

/// What a run of `scenario` adds to the container's record: two calls for
/// each round, in order.
pub open spec fn run_record(scenario: Scenario, samples: Seq<Sample>) -> Record
    decreases samples.len(),
{
    if samples.len() == 0 {
        Seq::empty()
    } else {
        run_record(scenario, samples.drop_last()) + round_record(scenario, samples.last())
    }
}

/// The operations that a log says were performed, in order.
pub open spec fn calls_of(log: Seq<Event>) -> Seq<Operation>
    decreases log.len(),
{
    if log.len() == 0 {
        Seq::empty()
    } else {
        match log.last() {
            Event::Applied(operation) => calls_of(log.drop_last()).push(operation),
            _ => calls_of(log.drop_last()),
        }
    }
}

/// The operations of a record, in order.
pub open spec fn operations_of(record: Record) -> Seq<Operation> {
    Seq::new(record.len(), |i: int| record[i].0)
}

/// The sum of the lengths of the sampled intervals.
pub open spec fn elapsed(samples: Seq<Sample>) -> nat
    decreases samples.len(),
{
    if samples.len() == 0 {
        0
    } else {
        elapsed(samples.drop_last()) + samples.last().nanos as nat
    }
}

/// A total of nanoseconds as the harness reports it: exact while it fits in
/// `u128`, and `u128::MAX` beyond.
pub open spec fn saturated(total: nat) -> u128 {
    if total > u128::MAX {
        u128::MAX
    } else {
        total as u128
    }
}

/// Adds one sample to a running total of nanoseconds. The total stops at
/// `u128::MAX` rather than wrap.
pub fn accumulate(total_nanos: u128, nanos: u128) -> (sum: u128)
    ensures
        sum == saturated((total_nanos + nanos) as nat),
{
    total_nanos.saturating_add(nanos)
}

/// Splits a total of nanoseconds into whole seconds and the nanoseconds left
/// over, which is how a duration is stored. There is no such split where the
/// seconds do not fit in `u64`: the total is then more than a duration holds.
pub fn seconds_and_nanos(total_nanos: u128) -> (parts: Option<(u64, u32)>)
    ensures
        match parts {
            Some((seconds, nanos)) => {
                &&& seconds * 1_000_000_000 + nanos == total_nanos
                &&& nanos < 1_000_000_000
            },
            None => total_nanos / 1_000_000_000 > u64::MAX,
        },
{
    let seconds: u128 = total_nanos / 1_000_000_000;
    let nanos: u128 = total_nanos % 1_000_000_000;
    if seconds > u64::MAX as u128 {
        None
    } else {
        Some((seconds as u64, nanos as u32))
    }
}

/// The number of timed intervals that a log opens.
pub open spec fn intervals(log: Seq<Event>) -> nat
    decreases log.len(),
{
    if log.len() == 0 {
        0
    } else if log.last() is Started {
        intervals(log.drop_last()) + 1
    } else {
        intervals(log.drop_last())
    }
}

/// What a run reports.
pub struct Measurement {
    /// The sum of the samples in nanoseconds, saturating at `u128::MAX`.
    pub total_nanos: u128,
    /// The samples that were summed.
    pub samples: Ghost<Seq<Sample>>,
}

/// A container under test and the log of what the harness has done to it.
pub struct Harness<C> {
    subject: C,
    log: Ghost<Seq<Event>>,
}

impl<C: Container> Harness<C> {
    /// The container under test.
    pub closed spec fn subject(&self) -> C {
        self.subject
    }

    /// Everything done through this harness, oldest first.
    pub closed spec fn log(&self) -> Seq<Event> {
        self.log@
    }

    /// Takes a container under test. Nothing has been done to it yet.
    pub fn new(subject: C) -> (harness: Self)
        ensures
            harness.subject() == subject,
            harness.log() == Seq::<Event>::empty(),
    {
        Harness { subject, log: Ghost(Seq::empty()) }
    }

    /// Gives the container back.
    pub fn into_subject(self) -> (subject: C)
        ensures
            subject == self.subject(),
    {
        self.subject
    }

    /// Performs one operation outside any timed interval: one call on the
    /// container, which its record shows.
    pub fn apply(&mut self, operation: Operation)
        ensures
            final(self).subject().performed() == old(self).subject().performed().push(
                (operation, old(self).subject().present()),
            ),
            final(self).log() == old(self).log().push(Event::Applied(operation)),
            C::sound() ==> final(self).subject().present() == operation.leaves(
                old(self).subject().present(),
            ),
    {
        match operation {
            Operation::Insert => {
                self.subject.insert();
            },
            Operation::Lookup => {
                let _found = self.subject.lookup();
            },
            Operation::Remove => {
                let _found = self.subject.remove();
            },
        }
        proof {
            self.log@ = self.log@.push(Event::Applied(operation));
        }
    }

    /// Performs one operation and returns how long it took, in nanoseconds:
    /// a clock read, one call on the container, a clock read. The container's
    /// record shows the one call; that it stands between the two clock reads
    /// is what the code of each arm does.
    pub fn time(&mut self, operation: Operation) -> (nanos: u128)
        ensures
            final(self).subject().performed() == old(self).subject().performed().push(
                (operation, old(self).subject().present()),
            ),
            final(self).log() == old(self).log().push(
                Event::Started { present: old(self).subject().present() },
            ).push(Event::Applied(operation)).push(Event::Stopped { nanos }),
            C::sound() ==> final(self).subject().present() == operation.leaves(
                old(self).subject().present(),
            ),
    {
        let ghost present = self.subject.present();
        let elapsed = match operation {
            Operation::Insert => {
                let start = Instant::now();
                black_box(&mut self.subject).insert();
                start.elapsed()
            },
            Operation::Lookup => {
                let start = Instant::now();
                let _found = black_box(&mut self.subject).lookup();
                start.elapsed()
            },
            Operation::Remove => {
                let start = Instant::now();
                let _found = black_box(&mut self.subject).remove();
                start.elapsed()
            },
        };
        let nanos = elapsed.as_nanos();
        proof {
            self.log@ = self.log@.push(Event::Started { present }).push(
                Event::Applied(operation),
            ).push(Event::Stopped { nanos });
        }
        nanos
    }

    /// One round of a scenario: the setup step, untimed, then the operation,
    /// timed. When the clock starts the sample key is in the state that the
    /// scenario expects, whatever state it was in before the round.
    fn round(&mut self, scenario: Scenario) -> (sample: (u128, Ghost<Sample>))
        ensures
            sample.1@.nanos == sample.0,
            sample.1@.before == old(self).subject().present(),
            final(self).subject().performed() == old(self).subject().performed() + round_record(
                scenario,
                sample.1@,
            ),
            final(self).log() == old(self).log() + round_log(scenario, sample.1@),
            C::sound() ==> sample.1@.present == scenario.spec_expects_present(),
            C::sound() ==> final(self).subject().present() == scenario.spec_operation().leaves(
                scenario.spec_expects_present(),
            ),
    {
        let ghost before = self.subject.present();
        self.apply(scenario.setup());
        let ghost present = self.subject.present();
        let nanos = self.time(scenario.operation());
        let ghost sample = Sample { nanos, before, present };
        assert(self.subject().performed() =~= old(self).subject().performed() + round_record(
            scenario,
            sample,
        ));
        assert(self.log() =~= old(self).log() + round_log(scenario, sample));
        (nanos, Ghost(sample))
    }

    /// Runs `iters` rounds of a scenario on the shared container and reports
    /// the sum of the samples. The container's record grows by two calls for
    /// each round, the setup step and then the operation, and by nothing
    /// else. Where the container is sound, every timed call found the sample
    /// key in the state that the scenario expects.
    pub fn measure(&mut self, scenario: Scenario, iters: u64) -> (measurement: Measurement)
        ensures
            measurement.samples@.len() == iters,
            final(self).subject().performed() == old(self).subject().performed() + run_record(
                scenario,
                measurement.samples@,
            ),
            final(self).log() == old(self).log() + run_log(scenario, measurement.samples@),
            measurement.total_nanos == saturated(elapsed(measurement.samples@)),
            C::sound() ==> forall|k: int|
                0 <= k < iters ==> (#[trigger] measurement.samples@[k]).present
                    == scenario.spec_expects_present(),
            C::sound() ==> forall|k: int|
                0 <= k < iters ==> (#[trigger] measurement.samples@[k]).before == if k == 0 {
                    old(self).subject().present()
                } else {
                    scenario.spec_operation().leaves(scenario.spec_expects_present())
                },
            C::sound() ==> final(self).subject().present() == if iters == 0 {
                old(self).subject().present()
            } else {
                scenario.spec_operation().leaves(scenario.spec_expects_present())
            },
    {
        let mut total_nanos: u128 = 0;
        let ghost mut samples: Seq<Sample> = Seq::empty();
        let mut done: u64 = 0;
        assert(self.log() =~= old(self).log() + run_log(scenario, samples));
        assert(self.subject().performed() =~= old(self).subject().performed() + run_record(
            scenario,
            samples,
        ));
        while done < iters
            invariant
                done <= iters,
                samples.len() == done,
                self.subject().performed() == old(self).subject().performed() + run_record(
                    scenario,
                    samples,
                ),
                self.log() == old(self).log() + run_log(scenario, samples),
                total_nanos == saturated(elapsed(samples)),
                C::sound() ==> forall|k: int|
                    0 <= k < done ==> (#[trigger] samples[k]).present
                        == scenario.spec_expects_present(),
                C::sound() ==> forall|k: int|
                    0 <= k < done ==> (#[trigger] samples[k]).before == if k == 0 {
                        old(self).subject().present()
                    } else {
                        scenario.spec_operation().leaves(scenario.spec_expects_present())
                    },
                C::sound() ==> self.subject().present() == if done == 0 {
                    old(self).subject().present()
                } else {
                    scenario.spec_operation().leaves(scenario.spec_expects_present())
                },
            decreases iters - done,
        {
            let (nanos, sample) = self.round(scenario);
            total_nanos = accumulate(total_nanos, nanos);
            proof {
                let longer = samples.push(sample@);
                assert(longer.drop_last() =~= samples);
                assert(self.log() =~= old(self).log() + run_log(scenario, longer));
                assert(self.subject().performed() =~= old(self).subject().performed()
                    + run_record(scenario, longer));
                samples = longer;
            }
            done = done + 1;
        }
        Measurement { total_nanos, samples: Ghost(samples) }
    }
}

/// A run's log holds four entries for each round.
pub proof fn lemma_run_log_len(scenario: Scenario, samples: Seq<Sample>)
    ensures
        run_log(scenario, samples).len() == 4 * samples.len(),
    decreases samples.len(),
{
    if samples.len() > 0 {
        lemma_run_log_len(scenario, samples.drop_last());
    }
}

/// The four entries of round `k` of a run: the setup step, the start of the
/// clock, the timed operation, the stop of the clock.
pub proof fn lemma_run_log_round(scenario: Scenario, samples: Seq<Sample>, k: int)
    requires
        0 <= k < samples.len(),
    ensures
        run_log(scenario, samples).len() == 4 * samples.len(),
        run_log(scenario, samples)[4 * k] == Event::Applied(scenario.spec_setup()),
        run_log(scenario, samples)[4 * k + 1] == (Event::Started { present: samples[k].present }),
        run_log(scenario, samples)[4 * k + 2] == Event::Applied(scenario.spec_operation()),
        run_log(scenario, samples)[4 * k + 3] == (Event::Stopped { nanos: samples[k].nanos }),
    decreases samples.len(),
{
    let earlier = samples.drop_last();
    lemma_run_log_len(scenario, samples);
    lemma_run_log_len(scenario, earlier);
    if k < earlier.len() {
        lemma_run_log_round(scenario, earlier, k);
    }
}

/// Adding an entry to a log opens one more interval if the entry starts the
/// clock, and none otherwise.
proof fn lemma_intervals_push(log: Seq<Event>, event: Event)
    ensures
        intervals(log.push(event)) == intervals(log) + if event is Started {
            1nat
        } else {
            0nat
        },
{
    assert(log.push(event).drop_last() =~= log);
}

/// A run opens as many intervals as it takes samples.
pub proof fn lemma_run_log_intervals(scenario: Scenario, samples: Seq<Sample>)
    ensures
        intervals(run_log(scenario, samples)) == samples.len(),
    decreases samples.len(),
{
    if samples.len() > 0 {
        let earlier = run_log(scenario, samples.drop_last());
        let last = samples.last();
        let setup = Event::Applied(scenario.spec_setup());
        let started = Event::Started { present: last.present };
        let applied = Event::Applied(scenario.spec_operation());
        let stopped = Event::Stopped { nanos: last.nanos };
        lemma_run_log_intervals(scenario, samples.drop_last());
        lemma_intervals_push(earlier, setup);
        lemma_intervals_push(earlier.push(setup), started);
        lemma_intervals_push(earlier.push(setup).push(started), applied);
        lemma_intervals_push(earlier.push(setup).push(started).push(applied), stopped);
        assert(run_log(scenario, samples) =~= earlier.push(setup).push(started).push(applied).push(
            stopped,
        ));
    }
}

/// A run's record holds two entries for each round: the setup step and the
/// operation, each with the state of the key that the call found.
pub proof fn lemma_run_record_round(scenario: Scenario, samples: Seq<Sample>, k: int)
    requires
        0 <= k < samples.len(),
    ensures
        run_record(scenario, samples).len() == 2 * samples.len(),
        run_record(scenario, samples)[2 * k] == (scenario.spec_setup(), samples[k].before),
        run_record(scenario, samples)[2 * k + 1] == (
            scenario.spec_operation(),
            samples[k].present,
        ),
    decreases samples.len(),
{
    let earlier = samples.drop_last();
    lemma_run_record_len(scenario, samples);
    lemma_run_record_len(scenario, earlier);
    if k < earlier.len() {
        lemma_run_record_round(scenario, earlier, k);
    }
}

/// A run's record holds two entries for each round.
pub proof fn lemma_run_record_len(scenario: Scenario, samples: Seq<Sample>)
    ensures
        run_record(scenario, samples).len() == 2 * samples.len(),
    decreases samples.len(),
{
    if samples.len() > 0 {
        lemma_run_record_len(scenario, samples.drop_last());
    }
}

/// Adding an entry to a log adds a call if the entry is an operation, and
/// none otherwise.
proof fn lemma_calls_push(log: Seq<Event>, event: Event)
    ensures
        calls_of(log.push(event)) == match event {
            Event::Applied(operation) => calls_of(log).push(operation),
            _ => calls_of(log),
        },
{
    assert(log.push(event).drop_last() =~= log);
}

/// The operation is called once for each iteration, on a key in the state
/// that the round's setup step left: a run of `n` rounds makes `2 n` calls on
/// the container, and the calls of round `k` are the setup step and then the
/// scenario's operation.
pub proof fn law_two_calls_per_round(scenario: Scenario, samples: Seq<Sample>)
    ensures
        run_record(scenario, samples).len() == 2 * samples.len(),
        forall|k: int|
            0 <= k < samples.len() ==> {
                &&& (#[trigger] run_record(scenario, samples)[2 * k]).0 == scenario.spec_setup()
                &&& run_record(scenario, samples)[2 * k + 1] == (
                    scenario.spec_operation(),
                    samples[k].present,
                )
            },
{
    lemma_run_record_len(scenario, samples);
    assert forall|k: int| 0 <= k < samples.len() implies {
        &&& (#[trigger] run_record(scenario, samples)[2 * k]).0 == scenario.spec_setup()
        &&& run_record(scenario, samples)[2 * k + 1] == (
            scenario.spec_operation(),
            samples[k].present,
        )
    } by {
        lemma_run_record_round(scenario, samples, k);
    }
}

/// The log of a run and the record that the container keeps of it tell of
/// the same calls in the same order. What the log adds is where the clock was
/// started and stopped.
pub proof fn law_log_agrees_with_record(scenario: Scenario, samples: Seq<Sample>)
    ensures
        calls_of(run_log(scenario, samples)) == operations_of(run_record(scenario, samples)),
    decreases samples.len(),
{
    if samples.len() == 0 {
        assert(calls_of(run_log(scenario, samples)) =~= operations_of(
            run_record(scenario, samples),
        ));
    } else {
        let earlier_log = run_log(scenario, samples.drop_last());
        let earlier_record = run_record(scenario, samples.drop_last());
        let last = samples.last();
        let setup = Event::Applied(scenario.spec_setup());
        let started = Event::Started { present: last.present };
        let applied = Event::Applied(scenario.spec_operation());
        let stopped = Event::Stopped { nanos: last.nanos };
        law_log_agrees_with_record(scenario, samples.drop_last());
        lemma_calls_push(earlier_log, setup);
        lemma_calls_push(earlier_log.push(setup), started);
        lemma_calls_push(earlier_log.push(setup).push(started), applied);
        lemma_calls_push(earlier_log.push(setup).push(started).push(applied), stopped);
        assert(run_log(scenario, samples) =~= earlier_log.push(setup).push(started).push(
            applied,
        ).push(stopped));
        assert(operations_of(run_record(scenario, samples)) =~= operations_of(
            earlier_record,
        ).push(scenario.spec_setup()).push(scenario.spec_operation()));
    }
}

/// Every timed interval that the log of a run shows holds exactly one call
/// of the operation under test, and a run of `n` rounds shows `n` intervals:
/// the clock is started `n` times; what follows each start is the scenario's
/// operation, and what follows that is the stop of the clock; and the clock
/// is stopped nowhere else.
pub proof fn law_one_operation_per_interval(scenario: Scenario, samples: Seq<Sample>)
    ensures
        intervals(run_log(scenario, samples)) == samples.len(),
        forall|i: int|
            0 <= i < run_log(scenario, samples).len() && #[trigger] run_log(
                scenario,
                samples,
            )[i] is Started ==> {
                &&& i + 2 < run_log(scenario, samples).len()
                &&& run_log(scenario, samples)[i + 1] == Event::Applied(scenario.spec_operation())
                &&& run_log(scenario, samples)[i + 2] is Stopped
            },
        forall|i: int|
            0 <= i < run_log(scenario, samples).len() && #[trigger] run_log(
                scenario,
                samples,
            )[i] is Stopped ==> {
                &&& 2 <= i
                &&& run_log(scenario, samples)[i - 2] is Started
            },
{
    let log = run_log(scenario, samples);
    lemma_run_log_intervals(scenario, samples);
    lemma_run_log_len(scenario, samples);
    assert forall|i: int| 0 <= i < log.len() && #[trigger] log[i] is Started implies {
        &&& i + 2 < log.len()
        &&& log[i + 1] == Event::Applied(scenario.spec_operation())
        &&& log[i + 2] is Stopped
    } by {
        let k = i / 4;
        lemma_log_entry(scenario, samples, i);
        lemma_run_log_round(scenario, samples, k);
        assert(i == 4 * k + 1);
        assert(i + 1 == 4 * k + 2 && i + 2 == 4 * k + 3);
    }
    assert forall|i: int| 0 <= i < log.len() && #[trigger] log[i] is Stopped implies {
        &&& 2 <= i
        &&& log[i - 2] is Started
    } by {
        let k = i / 4;
        lemma_log_entry(scenario, samples, i);
        lemma_run_log_round(scenario, samples, k);
        assert(i == 4 * k + 3);
        assert(i - 2 == 4 * k + 1);
    }
}

/// The setup step stands directly before every timed interval that the log
/// of a run shows, with nothing between it and the start of the clock.
pub proof fn law_setup_before_each_interval(scenario: Scenario, samples: Seq<Sample>)
    ensures
        forall|i: int|
            0 <= i < run_log(scenario, samples).len() && #[trigger] run_log(
                scenario,
                samples,
            )[i] is Started ==> {
                &&& 1 <= i
                &&& run_log(scenario, samples)[i - 1] == Event::Applied(scenario.spec_setup())
            },
{
    let log = run_log(scenario, samples);
    lemma_run_log_len(scenario, samples);
    assert forall|i: int| 0 <= i < log.len() && #[trigger] log[i] is Started implies {
        &&& 1 <= i
        &&& log[i - 1] == Event::Applied(scenario.spec_setup())
    } by {
        let k = i / 4;
        lemma_log_entry(scenario, samples, i);
        lemma_run_log_round(scenario, samples, k);
        assert(i == 4 * k + 1);
        assert(i - 1 == 4 * k);
    }
}

/// Entry `i` of a run's log is entry `i % 4` of round `i / 4`: the clock is
/// started at the entries with remainder 1 and stopped at those with
/// remainder 3, and the others are operations.
proof fn lemma_log_entry(scenario: Scenario, samples: Seq<Sample>, i: int)
    requires
        0 <= i < run_log(scenario, samples).len(),
    ensures
        0 <= i / 4 < samples.len(),
        i == 4 * (i / 4) + i % 4,
        run_log(scenario, samples)[i] is Started <==> i % 4 == 1,
        run_log(scenario, samples)[i] is Stopped <==> i % 4 == 3,
{
    let k = i / 4;
    let j = i % 4;
    lemma_run_log_len(scenario, samples);
    assert(i == 4 * k + j && 0 <= j < 4);
    assert(0 <= k < samples.len());
    lemma_run_log_round(scenario, samples, k);
    if j == 0 {
        assert(i == 4 * k);
    } else if j == 1 {
        assert(i == 4 * k + 1);
    } else if j == 2 {
        assert(i == 4 * k + 2);
    } else {
        assert(i == 4 * k + 3);
    }
}

} // verus!
