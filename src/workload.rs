//! The decisions of the benchmark: which records to load, which operation to
//! issue next, when the next operation may start under a throughput target,
//! and when a throughput sample is due. The caller owns the store and the
//! clock: it performs what these functions decide and hands back what it saw.
use vstd::prelude::*;
use crate::config::Config;
use crate::keys::random_u64;

verus! {

/// One operation against the store.
#[derive(Debug, Clone, Copy, PartialEq, Eq, Structural)]
pub enum Op {
    Get(u64),
    Put(u64),
}

/// A throughput sample: operations completed over a span of clock cycles.
#[derive(Debug, Clone, Copy, PartialEq, Eq, Structural)]
pub struct Window {
    pub ops: u64,
    pub cycles: u64,
}

/// A raw draw is a read exactly when it falls below this threshold.
pub open spec fn read_threshold(read_pct: nat) -> nat {
    (u64::MAX as nat / 100) * read_pct
}

/// Clock cycles allotted to each operation; 0 when unthrottled.
pub open spec fn cycles_per_op(cycles_per_second: nat, ops: nat) -> nat {
    if ops == 0 {
        0
    } else {
        cycles_per_second / ops
    }
}

/// The operation that a key draw and a read/write draw select.
pub open spec fn op_for(records: nat, read_pct: nat, key_draw: u64, op_draw: u64) -> Op {
    let key = (key_draw as nat % records) as u64;
    if (op_draw as nat) < read_threshold(read_pct) {
        Op::Get(key)
    } else {
        Op::Put(key)
    }
}

pub open spec fn min_u64(x: int) -> nat {
    if x <= u64::MAX {
        x as nat
    } else {
        u64::MAX as nat
    }
}

/// The state of a benchmark run, apart from the store and the clock.
#[derive(Debug, Clone, Copy)]
pub struct WorkloadGenerator {
    pub config: Config,
    /// Draws below this value are reads.
    pub read_threshold: u64,
    /// Rate of the clock that `start`, `report` and deadlines are counted in.
    pub cycles_per_second: u64,
    /// Cycles allotted to each operation; 0 when unthrottled.
    pub cycles_per_op: u64,
    /// Records inserted so far by the population phase.
    pub loaded: u64,
    /// Operations completed since `start`.
    pub counter: u64,
    /// Clock reading when the run started.
    pub start: u64,
    /// Clock reading when the current sample window opened.
    pub tic: u64,
    /// Operations completed in the current sample window.
    pub per_loop: u64,
}

impl WorkloadGenerator {
    pub open spec fn wf(&self) -> bool {
        &&& self.config.wf()
        &&& self.config.records <= u64::MAX
        &&& self.read_threshold == read_threshold(self.config.read_pct as nat)
        &&& self.cycles_per_op == cycles_per_op(
            self.cycles_per_second as nat,
            self.config.ops as nat,
        )
        &&& self.loaded <= self.config.records
    }

    /// The deadline after the operations counted so far: `start` plus one
    /// allotment per operation, capped at the largest clock value.
    pub open spec fn deadline(&self) -> nat {
        min_u64(self.start + self.counter * self.cycles_per_op)
    }

    /// What one completed operation does to the state.
    pub open spec fn after_op(self) -> WorkloadGenerator {
        WorkloadGenerator {
            counter: min_u64(self.counter + 1) as u64,
            per_loop: min_u64(self.per_loop + 1) as u64,
            ..self
        }
    }

    /// The state after `k` completed operations.
    pub open spec fn after_ops(self, k: nat) -> WorkloadGenerator
        decreases k,
    {
        if k == 0 {
            self
        } else {
            self.after_ops((k - 1) as nat).after_op()
        }
    }

    /// What one step of the population phase does: the next key and one
    /// more record loaded, or nothing once all records are in.
    pub open spec fn setup_step(self) -> (WorkloadGenerator, Option<u64>) {
        if self.loaded < self.config.records {
            (WorkloadGenerator { loaded: (self.loaded + 1) as u64, ..self }, Some(self.loaded))
        } else {
            (self, None)
        }
    }

    /// The state after `k` steps of the population phase.
    pub open spec fn setup_state(self, k: nat) -> WorkloadGenerator
        decreases k,
    {
        if k == 0 {
            self
        } else {
            self.setup_state((k - 1) as nat).setup_step().0
        }
    }

    /// The results of `k` successive steps of the population phase.
    pub open spec fn setup_keys(self, k: nat) -> Seq<Option<u64>>
        decreases k,
    {
        if k == 0 {
            Seq::empty()
        } else {
            self.setup_keys((k - 1) as nat).push(self.setup_state((k - 1) as nat).setup_step().1)
        }
    }

    /// A generator for `config`, timed by a clock of `cycles_per_second`.
    pub fn new(config: Config, cycles_per_second: u64) -> (r: WorkloadGenerator)
        requires
            config.wf(),
        ensures
            r.wf(),
            r.config == config,
            r.cycles_per_second == cycles_per_second,
            r.loaded == 0,
            r.counter == 0,
            r.per_loop == 0,
    {
        assert((u64::MAX / 100) * (config.read_pct as u64) <= u64::MAX) by (nonlinear_arith)
            requires
                config.read_pct <= 100,
        ;
        let threshold: u64 = (u64::MAX / 100) * (config.read_pct as u64);
        let cpo: u64 = if config.ops == 0 {
            0
        } else {
            cycles_per_second / config.ops
        };
        WorkloadGenerator {
            config,
            read_threshold: threshold,
            cycles_per_second,
            cycles_per_op: cpo,
            loaded: 0,
            counter: 0,
            start: 0,
            tic: 0,
            per_loop: 0,
        }
    }

    /// One step of the population phase: the key of the next record to
    /// insert, or `None` once all records are in.
    pub fn setup(&mut self) -> (r: Option<u64>)
        requires
            old(self).wf(),
        ensures
            final(self).wf(),
            (*final(self), r) == old(self).setup_step(),
    {
        if self.loaded < self.config.records as u64 {
            let key = self.loaded;
            self.loaded = self.loaded + 1;
            Some(key)
        } else {
            None
        }
    }

    /// Opens the run at clock reading `now`: no operations yet, and the
    /// first sample window opens now.
    pub fn start(&mut self, now: u64)
        ensures
            *final(self) == (WorkloadGenerator { counter: 0, per_loop: 0, start: now, tic: now, ..*old(self) }),
    {
        self.counter = 0;
        self.per_loop = 0;
        self.start = now;
        self.tic = now;
    }

    /// The operation selected by a key draw and a read/write draw: the key
    /// draw reduced modulo the record count, read when the second draw is
    /// below the read threshold.
    pub fn select(&self, key_draw: u64, op_draw: u64) -> (r: Op)
        requires
            self.wf(),
        ensures
            r == op_for(self.config.records as nat, self.config.read_pct as nat, key_draw, op_draw),
    {
        let key = key_draw % (self.config.records as u64);
        if op_draw < self.read_threshold {
            Op::Get(key)
        } else {
            Op::Put(key)
        }
    }

    /// The next operation for a key draw, with a fresh read/write draw.
    pub fn next_op(&self, key_draw: u64) -> (r: Op)
        requires
            self.wf(),
        ensures
            exists|op_draw: u64| r == op_for(self.config.records as nat, self.config.read_pct as nat, key_draw, op_draw),
    {
        let op_draw = random_u64();
        self.select(key_draw, op_draw)
    }

    /// Counts one completed operation. Under a throughput target, returns
    /// the clock reading that the caller waits for before the next operation.
    pub fn complete_op(&mut self) -> (r: Option<u64>)
        ensures
            *final(self) == old(self).after_op(),
            old(self).cycles_per_op == 0 ==> r is None,
            old(self).cycles_per_op > 0 ==> r == Some(final(self).deadline() as u64),
    {
        self.counter = self.counter.saturating_add(1);
        self.per_loop = self.per_loop.saturating_add(1);
        if self.cycles_per_op == 0 {
            None
        } else {
            let d: u64 = match self.counter.checked_mul(self.cycles_per_op) {
                None => u64::MAX,
                Some(m) => self.start.saturating_add(m),
            };
            Some(d)
        }
    }

    /// Closes the sample window at clock reading `now` once more than one
    /// second of cycles has passed since it opened; the next window opens now.
    pub fn report(&mut self, now: u64) -> (r: Option<Window>)
        ensures
            now > old(self).tic + old(self).cycles_per_second ==> r == Some(
                Window { ops: old(self).per_loop, cycles: (now - old(self).tic) as u64 },
            ) && *final(self) == (WorkloadGenerator { tic: now, per_loop: 0, ..*old(self) }),
            now <= old(self).tic + old(self).cycles_per_second ==> r is None && *final(self) == *old(self),
    {
        let elapsed = now.saturating_sub(self.tic);
        if elapsed > self.cycles_per_second {
            let w = Window { ops: self.per_loop, cycles: elapsed };
            self.tic = now;
            self.per_loop = 0;
            Some(w)
        } else {
            None
        }
    }
}

/// Of the 2^64 possible read/write draws, exactly `read_threshold(p)` are
/// reads, and `100 * read_threshold(p) + 16 * p == p * 2^64`: the share of
/// reads is `p / 100` less a rounding error under `p / 2^64`.
pub proof fn lemma_read_share(p: nat)
    requires
        p <= 100,
    ensures
        read_threshold(p) <= u64::MAX,
        forall|d: u64| (d as nat) < read_threshold(p) <==> #[trigger] op_for(1, p, 0, d) is Get,
        100 * read_threshold(p) + 16 * p == p * (u64::MAX as nat + 1),
{
    assert(u64::MAX as nat / 100 == 184467440737095516nat);
    assert(100 * read_threshold(p) + 16 * p == p * (u64::MAX as nat + 1)) by (nonlinear_arith)
        requires
            read_threshold(p) == 184467440737095516nat * p,
            u64::MAX as nat + 1 == 18446744073709551616nat,
    ;
    assert(read_threshold(p) <= u64::MAX) by (nonlinear_arith)
        requires
            read_threshold(p) == 184467440737095516nat * p,
            p <= 100,
    ;
}

/// With every operation a read, each draw below `read_threshold(100)`
/// selects a read of its key; only the 16 highest draws select a write.
pub proof fn lemma_full_read_mix(records: nat, key_draw: u64, op_draw: u64)
    requires
        records > 0,
        (op_draw as nat) < read_threshold(100),
    ensures
        op_for(records, 100, key_draw, op_draw) == Op::Get((key_draw as nat % records) as u64),
        read_threshold(100) == u64::MAX - 15,
{
    assert(u64::MAX as nat / 100 == 184467440737095516nat);
}

/// Throttling schedule: after a run opened with no operations counted,
/// `k` completed operations put the next deadline at the start plus `k`
/// allotments of cycles (capped at the largest clock value); nothing else
/// moves but the window count.
pub proof fn lemma_throttle_schedule(g: WorkloadGenerator, k: nat)
    requires
        g.counter == 0,
        k <= u64::MAX,
    ensures
        g.after_ops(k).counter == k,
        g.after_ops(k).per_loop == min_u64(g.per_loop + k),
        g.after_ops(k).start == g.start,
        g.after_ops(k).tic == g.tic,
        g.after_ops(k).cycles_per_op == g.cycles_per_op,
        g.after_ops(k).deadline() == min_u64(g.start + k * g.cycles_per_op),
    decreases k,
{
    if k > 0 {
        lemma_throttle_schedule(g, (k - 1) as nat);
    }
}

/// Under a target of `t > 0` operations per second, the allotment of
/// cycles per operation paces at least `t` operations per second; when the
/// clock runs at least twenty times faster than `t`, the pace is also less
/// than 5% above `t`.
pub proof fn lemma_throttle_rate(cycles_per_second: nat, t: nat)
    requires
        t > 0,
    ensures
        cycles_per_op(cycles_per_second, t) * t <= cycles_per_second,
        cycles_per_second < (cycles_per_op(cycles_per_second, t) + 1) * t,
        20 * t <= cycles_per_second ==> 100 * cycles_per_second < 105 * cycles_per_op(cycles_per_second, t) * t,
{
    let c = cycles_per_op(cycles_per_second, t);
    vstd::arithmetic::div_mod::lemma_fundamental_div_mod(cycles_per_second as int, t as int);
    assert(c * t <= cycles_per_second && cycles_per_second < (c + 1) * t) by (nonlinear_arith)
        requires
            c == cycles_per_second / t,
            cycles_per_second == t * (cycles_per_second / t) + cycles_per_second % t,
            0 <= cycles_per_second % t < t,
    ;
    if 20 * t <= cycles_per_second {
        assert(100 * cycles_per_second < 105 * c * t) by (nonlinear_arith)
            requires
                c * t <= cycles_per_second,
                cycles_per_second < (c + 1) * t,
                20 * t <= cycles_per_second,
                t > 0,
        ;
    }
}

/// The population phase, from nothing loaded, yields the keys `0`, `1`, ...
/// up to `records - 1` in order, each once, and then reports that it is done.
pub proof fn lemma_setup_loads_each_key(g: WorkloadGenerator)
    requires
        g.wf(),
        g.loaded == 0,
    ensures
        g.setup_keys(g.config.records as nat + 1) == Seq::new(g.config.records as nat, |i: int| Some(i as u64)).push(None),
        g.setup_state(g.config.records as nat).loaded == g.config.records,
{
    let n = g.config.records as nat;
    lemma_setup_prefix(g, n);
    let s = g.setup_state(n);
    assert(g.setup_keys(n + 1) == g.setup_keys(n).push(s.setup_step().1));
}

proof fn lemma_setup_prefix(g: WorkloadGenerator, k: nat)
    requires
        g.wf(),
        g.loaded == 0,
        k <= g.config.records,
    ensures
        g.setup_state(k) == (WorkloadGenerator { loaded: k as u64, ..g }),
        g.setup_keys(k) =~= Seq::new(k, |i: int| Some(i as u64)),
    decreases k,
{
    if k > 0 {
        lemma_setup_prefix(g, (k - 1) as nat);
    }
}

} // verus!
