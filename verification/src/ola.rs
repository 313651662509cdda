//! The block-based overlap-add transform engine.
//!
//! `FftCore` consumes one sample per step and stripes it into up to six
//! staggered accumulation buffers. How many buffers run in parallel, and how
//! many samples lie between the starts of consecutive blocks (the hop), is
//! derived from the configured analysis size, window shape and overlap
//! policy through a fixed table of overlap ratios. Once a buffer has
//! collected a full block, the engine applies the window table to it and
//! publishes the windowed block, raising a dirty flag; the owner runs the
//! external forward / inverse transform over the published block and hands
//! the processed time-domain samples back, which the engine sums into a
//! circular output accumulation buffer (overlap-add). `out_stream` plays
//! that buffer back one sample per step.
//!
//! The forward and inverse transform primitive itself is an external
//! capability: the engine publishes and absorbs plain fixed-point blocks and
//! never calls the primitive itself.

use vstd::prelude::*;
use crate::math::{fx_add, fx_add_s, fx_mul, fx_mul_s, FX_ONE};
use crate::shared_enums::{OverlapPolicy, WindowMode};
use vstd::arithmetic::div_mod::lemma_fundamental_div_mod;

verus! {

/// Number of parallel accumulation buffers.
pub const NUM_BUFS: usize = 6;

/// Capacity of each accumulation buffer, and of the output ring.
pub const MAX_FRAME: usize = 4096;

/// The documented overlap-ratio table, as a numerator out of 10000, indexed
/// by overlap policy and window shape. The `Off` policy bypasses the table.
pub open spec fn overlap_numerator(policy: OverlapPolicy, win: WindowMode) -> int {
    match policy {
        OverlapPolicy::Off => 0,
        OverlapPolicy::Eco => match win {
            WindowMode::Box => 0,
            WindowMode::Triangular => 5000,
            WindowMode::Welch => 2930,
            WindowMode::Hann => 5000,
            WindowMode::BlackmanHarris => 5000,
            WindowMode::Nuttal => 5000,
            WindowMode::Kaiser => 5000,
            WindowMode::FlatTop => 5000,
        },
        OverlapPolicy::Default => match win {
            WindowMode::Box => 0,
            WindowMode::Triangular => 5000,
            WindowMode::Welch => 2930,
            WindowMode::Hann => 5000,
            WindowMode::BlackmanHarris => 6610,
            WindowMode::Nuttal => 6120,
            WindowMode::Kaiser => 6190,
            WindowMode::FlatTop => 6667,
        },
        OverlapPolicy::FlatAmplitude => match win {
            WindowMode::Box => 0,
            WindowMode::Triangular => 5000,
            WindowMode::Welch => 7100,
            WindowMode::Hann => 5000,
            WindowMode::BlackmanHarris => 7400,
            WindowMode::Nuttal => 6500,
            WindowMode::Kaiser => 6900,
            WindowMode::FlatTop => 6667,
        },
        OverlapPolicy::FlatPower => match win {
            WindowMode::Box => 0,
            WindowMode::Triangular => 8325,
            WindowMode::Welch => 4600,
            WindowMode::Hann => 6667,
            WindowMode::BlackmanHarris => 8200,
            WindowMode::Nuttal => 7800,
            WindowMode::Kaiser => 7900,
            WindowMode::FlatTop => 8000,
        },
    }
}

/// The hop: how many samples lie between the starts of consecutive analysis
/// blocks. For the `Off` policy it is the whole block; otherwise the floor
/// of `ratio * size` is subtracted from the block size.
pub open spec fn hop_size(policy: OverlapPolicy, win: WindowMode, size: int) -> int {
    match policy {
        OverlapPolicy::Off => size,
        _ => size - (overlap_numerator(policy, win) * size) / 10000,
    }
}

/// How many accumulation buffers run in parallel: the ratio of block size to
/// hop, rounded up and capped by the size of the buffer pool.
pub open spec fn overlap_count(policy: OverlapPolicy, win: WindowMode, size: int) -> int {
    let h = hop_size(policy, win, size);
    let a = (size + h - 1) / h;
    if a > NUM_BUFS as int {
        NUM_BUFS as int
    } else {
        a
    }
}

/// A block with the window table applied: sample by sample, the fixed-point
/// product of block and table.
pub open spec fn windowed_spec(block: Seq<i64>, table: Seq<i64>) -> Seq<i64> {
    Seq::new(block.len(), |j: int| fx_mul_s(block[j], table[j]) as i64)
}

/// Whether the engine begins filling slot `b` at the incoming step: the hop
/// counter is at a hop boundary and the round-robin cursor designates `b`.
pub open spec fn slot_starts(s: FftCore, b: int) -> bool {
    s.counter_spec() == 0 && b == s.leading_spec()
}

/// Whether slot `b` takes part in the incoming step, either because it was
/// already filling or because it begins now.
pub open spec fn begun_active(s: FftCore, b: int) -> bool {
    slot_starts(s, b) || s.slot_active(b)
}

/// The samples slot `b` holds when the incoming step writes into it: what it
/// had collected, or nothing if it begins at this step.
pub open spec fn begun_samples(s: FftCore, b: int) -> Seq<i64> {
    if slot_starts(s, b) {
        Seq::empty()
    } else {
        s.slot_samples(b)
    }
}

/// Whether slot `b` completes its block at the incoming step: it takes part,
/// and the incoming sample is the last one of the block.
pub open spec fn slot_finishes(s: FftCore, b: int) -> bool {
    begun_active(s, b) && begun_samples(s, b).len() + 1 == s.size_spec()
}

/// The block-based overlap-add transform engine. One sample enters per
/// `step`; completed, windowed analysis blocks leave through `take_frame`,
/// processed blocks return through `overlap_add`, and one reconstructed
/// sample leaves per `out_stream`.
pub struct FftCore {
    // The analysis block size.
    size: usize,
    // Samples between the starts of consecutive blocks, derived from the
    // overlap table whenever the configuration changes.
    frame_gap: usize,
    // Counts samples up to `frame_gap`; a new block starts when it is zero.
    first_gap_counter: usize,
    // The accumulation buffers, stored sequentially: slot `b` occupies
    // `[b * MAX_FRAME, (b + 1) * MAX_FRAME)`.
    in_buf: Vec<i64>,
    // Per-slot fill cursors.
    buf_top: Vec<usize>,
    // Which slots are currently collecting samples.
    active: Vec<bool>,
    // The slot that the next hop boundary will start filling.
    leading_buf: usize,
    // The highest slot in use; `highest_buf + 1` slots take part in the
    // round-robin given the configured overlap.
    highest_buf: usize,
    // Selects the row of the overlap table.
    window_mode: WindowMode,
    // Selects the column of the overlap table.
    overlap_policy: OverlapPolicy,
    // The window coefficient table, one fixed-point factor per block sample.
    win_buf: Vec<i64>,
    // The circular output accumulation buffer for overlap-add.
    out_buf: Vec<i64>,
    // The playback cursor of the output buffer.
    out_pos: usize,
    // The most recently completed block, with the window applied.
    in_buf_windowed: Vec<i64>,
    // Whether a block was completed since the last query.
    is_updated: bool,
}

impl FftCore {
    /// The cursors stay inside their buffers, the derived hop and overlap
    /// values agree with the configuration, and slots that are filling hold
    /// pairwise distinct cursor positions, so at most one block can complete
    /// per incoming sample.
    pub closed spec fn wf(&self) -> bool {
        &&& 1 <= self.size <= MAX_FRAME
        &&& self.frame_gap == hop_size(self.overlap_policy, self.window_mode, self.size as int)
        &&& 1 <= self.frame_gap <= self.size
        &&& self.first_gap_counter < self.frame_gap
        &&& self.in_buf.len() == NUM_BUFS * MAX_FRAME
        &&& self.buf_top.len() == NUM_BUFS
        &&& self.active.len() == NUM_BUFS
        &&& self.highest_buf + 1 == overlap_count(
            self.overlap_policy,
            self.window_mode,
            self.size as int,
        )
        &&& self.highest_buf < NUM_BUFS
        &&& self.leading_buf <= self.highest_buf
        &&& forall|b: int|
            0 <= b < NUM_BUFS ==> (self.active[b] ==> 1 <= self.buf_top[b] < self.size)
        &&& forall|b: int| 0 <= b < NUM_BUFS ==> self.buf_top[b] <= self.size
        &&& forall|b1: int, b2: int|
            0 <= b1 < b2 < NUM_BUFS && self.active[b1] && self.active[b2]
                ==> self.buf_top[b1] != self.buf_top[b2]
        &&& self.win_buf.len() == self.size
        &&& self.out_buf.len() == MAX_FRAME
        &&& self.out_pos < MAX_FRAME
        &&& self.in_buf_windowed.len() <= MAX_FRAME
    }

    /// The analysis block size.
    pub closed spec fn size_spec(&self) -> int {
        self.size as int
    }

    /// The hop derived from the current configuration.
    pub closed spec fn gap_spec(&self) -> int {
        self.frame_gap as int
    }

    /// Samples seen since the last hop boundary.
    pub closed spec fn counter_spec(&self) -> int {
        self.first_gap_counter as int
    }

    /// The slot the next hop boundary starts filling.
    pub closed spec fn leading_spec(&self) -> int {
        self.leading_buf as int
    }

    /// How many slots take part in the round-robin.
    pub closed spec fn bufs_spec(&self) -> int {
        self.highest_buf as int + 1
    }

    /// The configured window shape.
    pub closed spec fn mode_spec(&self) -> WindowMode {
        self.window_mode
    }

    /// The configured overlap policy.
    pub closed spec fn policy_spec(&self) -> OverlapPolicy {
        self.overlap_policy
    }

    /// Whether slot `b` is collecting samples.
    pub closed spec fn slot_active(&self, b: int) -> bool {
        self.active[b]
    }

    /// The fill cursor of slot `b`.
    pub closed spec fn slot_top(&self, b: int) -> int {
        self.buf_top[b] as int
    }

    /// The samples slot `b` has collected so far.
    pub closed spec fn slot_samples(&self, b: int) -> Seq<i64> {
        self.in_buf@.subrange(b * MAX_FRAME, b * MAX_FRAME + self.buf_top[b])
    }

    /// The window coefficient table.
    pub closed spec fn window_table(&self) -> Seq<i64> {
        self.win_buf@
    }

    /// The most recently published windowed block.
    pub closed spec fn ready_frame_spec(&self) -> Seq<i64> {
        self.in_buf_windowed@
    }

    /// Whether a block was published since the last query.
    pub closed spec fn updated_spec(&self) -> bool {
        self.is_updated
    }

    /// The output accumulation ring.
    pub closed spec fn out_ring(&self) -> Seq<i64> {
        self.out_buf@
    }

    /// The playback cursor of the output ring.
    pub closed spec fn out_cursor(&self) -> int {
        self.out_pos as int
    }

    /// Creates an engine with a block of 256 samples, the rectangular window
    /// and no overlap: every slot idle, the output ring silent, and the
    /// window table at unity.
    pub fn new() -> (r: Self)
        ensures
            r.wf(),
            r.size_spec() == 256,
            r.mode_spec() == WindowMode::Box,
            r.policy_spec() == OverlapPolicy::Off,
            r.gap_spec() == 256,
            r.bufs_spec() == 1,
            r.counter_spec() == 0,
            forall|b: int| 0 <= b < NUM_BUFS ==> !r.slot_active(b),
            !r.updated_spec(),
            r.out_cursor() == 0,
            forall|i: int| 0 <= i < MAX_FRAME ==> r.out_ring()[i] == 0i64,
            forall|j: int| 0 <= j < 256 ==> r.window_table()[j] == FX_ONE,
    {
        let engine = FftCore {
            size: 256,
            frame_gap: 256,
            first_gap_counter: 0,
            in_buf: zero_vec(NUM_BUFS * MAX_FRAME),
            buf_top: zero_usize_vec(NUM_BUFS),
            active: false_vec(NUM_BUFS),
            leading_buf: 0,
            highest_buf: 0,
            window_mode: WindowMode::Box,
            overlap_policy: OverlapPolicy::Off,
            win_buf: unit_vec(256),
            out_buf: zero_vec(MAX_FRAME),
            out_pos: 0,
            in_buf_windowed: zero_vec(256),
            is_updated: false,
        };
        proof {
            assert(hop_size(OverlapPolicy::Off, WindowMode::Box, 256) == 256);
            assert(overlap_count(OverlapPolicy::Off, WindowMode::Box, 256) == 1);
        }
        engine
    }

    /// Reconfigures the analysis block size. The analysis in flight is
    /// discarded.
    pub fn set_size(&mut self, size: usize)
        requires
            old(self).wf(),
            1 <= size <= MAX_FRAME,
        ensures
            final(self).wf(),
            final(self).size_spec() == size,
            final(self).mode_spec() == old(self).mode_spec(),
            final(self).policy_spec() == old(self).policy_spec(),
            reconfigured(*old(self), *final(self)),
    {
        self.size = size;
        self.apply_config();
    }

    /// Reconfigures the window shape, which also selects the row of the
    /// overlap table. The analysis in flight is discarded.
    pub fn set_win_type(&mut self, win: WindowMode)
        requires
            old(self).wf(),
        ensures
            final(self).wf(),
            final(self).size_spec() == old(self).size_spec(),
            final(self).mode_spec() == win,
            final(self).policy_spec() == old(self).policy_spec(),
            reconfigured(*old(self), *final(self)),
    {
        self.window_mode = win;
        self.apply_config();
    }

    /// Reconfigures the overlap policy, which selects the column of the
    /// overlap table. The analysis in flight is discarded.
    pub fn set_overlap_policy(&mut self, policy: OverlapPolicy)
        requires
            old(self).wf(),
        ensures
            final(self).wf(),
            final(self).size_spec() == old(self).size_spec(),
            final(self).mode_spec() == old(self).mode_spec(),
            final(self).policy_spec() == policy,
            reconfigured(*old(self), *final(self)),
    {
        self.overlap_policy = policy;
        self.apply_config();
    }

    /// Recomputes the hop and the overlap count from the configuration and
    /// resets every accumulation buffer: no slot stays in flight across a
    /// reconfiguration, and no fill cursor can exceed the new block size.
    fn apply_config(&mut self)
        requires
            1 <= old(self).size <= MAX_FRAME,
            old(self).in_buf.len() == NUM_BUFS * MAX_FRAME,
            old(self).out_buf.len() == MAX_FRAME,
            old(self).out_pos < MAX_FRAME,
        ensures
            final(self).wf(),
            final(self).size_spec() == old(self).size as int,
            final(self).mode_spec() == old(self).window_mode,
            final(self).policy_spec() == old(self).overlap_policy,
            reconfigured(*old(self), *final(self)),
    {
        let num = overlap_numerator_of(self.overlap_policy, self.window_mode);
        let overlap_size = if matches!(self.overlap_policy, OverlapPolicy::Off) {
            0
        } else {
            (num * self.size) / 10000
        };
        proof {
            lemma_overlap_below_size(num as int, self.size as int);
        }
        self.frame_gap = self.size - overlap_size;
        let a = (self.size + self.frame_gap - 1) / self.frame_gap;
        proof {
            lemma_count_at_least_one(self.size as int, self.frame_gap as int);
        }
        let a = if a > NUM_BUFS { NUM_BUFS } else { a };
        self.highest_buf = a - 1;
        self.leading_buf = 0;
        self.first_gap_counter = 0;
        self.buf_top = zero_usize_vec(NUM_BUFS);
        self.active = false_vec(NUM_BUFS);
        self.win_buf = unit_vec(self.size);
        self.in_buf_windowed = zero_vec(self.size);
        self.is_updated = false;
    }

    /// Loads the window coefficient table, one fixed-point factor per block
    /// sample. A reconfiguration resets the table to unity (the rectangular
    /// window); tapered shapes are numeric data computed outside and loaded
    /// here.
    pub fn load_window(&mut self, coeffs: Vec<i64>)
        requires
            old(self).wf(),
            coeffs.len() == old(self).size_spec(),
        ensures
            final(self).wf(),
            final(self).window_table() == coeffs@,
            unchanged_but_window(*old(self), *final(self)),
    {
        self.win_buf = coeffs;
    }

    /// Streams one sample into the engine: at a hop boundary the designated
    /// slot begins collecting, every filling slot takes the sample, and a
    /// slot that completes its block publishes the windowed block and raises
    /// the dirty flag.
    pub fn step(&mut self, x: i64)
        requires
            old(self).wf(),
        ensures
            final(self).wf(),
            config_unchanged(*old(self), *final(self)),
            final(self).out_ring() == old(self).out_ring(),
            final(self).out_cursor() == old(self).out_cursor(),
            final(self).counter_spec() == if old(self).counter_spec() + 1 == old(self).gap_spec() {
                0int
            } else {
                old(self).counter_spec() + 1
            },
            final(self).leading_spec() == if old(self).counter_spec() == 0 {
                if old(self).leading_spec() + 1 == old(self).bufs_spec() {
                    0int
                } else {
                    old(self).leading_spec() + 1
                }
            } else {
                old(self).leading_spec()
            },
            forall|b: int|
                0 <= b < NUM_BUFS && !begun_active(*old(self), b) ==> {
                    &&& !final(self).slot_active(b)
                    &&& final(self).slot_top(b) == old(self).slot_top(b)
                    &&& final(self).slot_samples(b) == old(self).slot_samples(b)
                },
            forall|b: int|
                0 <= b < NUM_BUFS && begun_active(*old(self), b) && !slot_finishes(*old(self), b)
                    ==> {
                    &&& final(self).slot_active(b)
                    &&& final(self).slot_samples(b) == begun_samples(*old(self), b).push(x)
                },
            forall|b: int|
                0 <= b < NUM_BUFS && slot_finishes(*old(self), b) ==> {
                    &&& !final(self).slot_active(b)
                    &&& final(self).updated_spec()
                    &&& final(self).ready_frame_spec() == windowed_spec(
                        begun_samples(*old(self), b).push(x),
                        old(self).window_table(),
                    )
                },
            (forall|b: int| 0 <= b < NUM_BUFS ==> !slot_finishes(*old(self), b)) ==> {
                &&& final(self).updated_spec() == old(self).updated_spec()
                &&& final(self).ready_frame_spec() == old(self).ready_frame_spec()
            },
    {
        let ghost s0 = *self;
        // Activation: at a hop boundary the leading slot begins collecting
        // from scratch, and the round-robin cursor advances.
        if self.first_gap_counter == 0 {
            let lb = self.leading_buf;
            self.buf_top.set(lb, 0);
            self.active.set(lb, true);
            self.leading_buf = if lb + 1 == self.highest_buf + 1 {
                0
            } else {
                lb + 1
            };
        }
        let ghost s1 = *self;
        // Write: every collecting slot takes the incoming sample.
        let size = self.size;
        let mut b: usize = 0;
        while b < NUM_BUFS
            invariant
                b <= NUM_BUFS,
                size == self.size,
                1 <= size <= MAX_FRAME,
                self.size == s1.size,
                self.frame_gap == s1.frame_gap,
                self.first_gap_counter == s1.first_gap_counter,
                self.leading_buf == s1.leading_buf,
                self.highest_buf == s1.highest_buf,
                self.window_mode == s1.window_mode,
                self.overlap_policy == s1.overlap_policy,
                self.win_buf@ == s1.win_buf@,
                self.out_buf@ == s1.out_buf@,
                self.out_pos == s1.out_pos,
                self.in_buf_windowed@ == s1.in_buf_windowed@,
                self.is_updated == s1.is_updated,
                self.active@ == s1.active@,
                self.buf_top.len() == NUM_BUFS,
                self.active.len() == NUM_BUFS,
                self.in_buf.len() == NUM_BUFS * MAX_FRAME,
                s1.in_buf.len() == NUM_BUFS * MAX_FRAME,
                forall|j: int| 0 <= j < NUM_BUFS ==> self.buf_top@[j] <= size,
                forall|j: int| 0 <= j < NUM_BUFS && s1.active@[j] ==> s1.buf_top@[j] < size,
                forall|j: int| b <= j < NUM_BUFS ==> self.buf_top@[j] == s1.buf_top@[j],
                forall|j: int|
                    0 <= j < b && s1.active@[j] ==> self.buf_top@[j] == s1.buf_top@[j] + 1,
                forall|j: int|
                    0 <= j < b && !s1.active@[j] ==> self.buf_top@[j] == s1.buf_top@[j],
                forall|j: int| #![trigger s1.active@[j]]
                    0 <= j < b && s1.active@[j]
                        ==> self.in_buf@.subrange(
                            j * MAX_FRAME,
                            j * MAX_FRAME + s1.buf_top@[j] + 1,
                        ) == s1.in_buf@.subrange(
                            j * MAX_FRAME,
                            j * MAX_FRAME + s1.buf_top@[j],
                        ).push(x),
                forall|i: int|
                    0 <= i < NUM_BUFS * MAX_FRAME && (forall|j: int|
                        0 <= j < b && s1.active@[j] ==> i != j * MAX_FRAME + s1.buf_top@[j])
                        ==> self.in_buf@[i] == s1.in_buf@[i],
            decreases NUM_BUFS - b,
        {
            let ghost prev = self.in_buf@;
            if self.active[b] {
                let t = self.buf_top[b];
                self.in_buf.set(b * MAX_FRAME + t, x);
                self.buf_top.set(b, t + 1);
                proof {
                    assert forall|j: int|
                        0 <= j < b + 1 && s1.active@[j] implies self.in_buf@.subrange(
                            j * MAX_FRAME,
                            j * MAX_FRAME + s1.buf_top@[j] + 1,
                        ) == s1.in_buf@.subrange(
                            j * MAX_FRAME,
                            j * MAX_FRAME + s1.buf_top@[j],
                        ).push(x) by {
                        if j < b {
                            assert((j + 1) * MAX_FRAME <= b * MAX_FRAME) by (nonlinear_arith)
                                requires j + 1 <= b as int,
                            ;
                            assert(s1.buf_top@[j] < size);
                            assert forall|u: int| 0 <= u < s1.buf_top@[j] + 1 implies
                                #[trigger] self.in_buf@[j * MAX_FRAME + u]
                                    == prev[j * MAX_FRAME + u] by {
                                assert(j * MAX_FRAME + u < (j + 1) * MAX_FRAME);
                            }
                            assert(self.in_buf@.subrange(
                                j * MAX_FRAME,
                                j * MAX_FRAME + s1.buf_top@[j] + 1,
                            ) =~= prev.subrange(
                                j * MAX_FRAME,
                                j * MAX_FRAME + s1.buf_top@[j] + 1,
                            ));
                        } else {
                            assert(self.in_buf@.subrange(
                                j * MAX_FRAME,
                                j * MAX_FRAME + s1.buf_top@[j] + 1,
                            ) =~= s1.in_buf@.subrange(
                                j * MAX_FRAME,
                                j * MAX_FRAME + s1.buf_top@[j],
                            ).push(x));
                        }
                    }
                }
            }
            b = b + 1;
        }
        let ghost s2 = *self;
        proof {
            // The slots that take part are exactly the begun ones, their
            // cursors moved up by one, and their collected samples gained
            // the incoming sample; distinctness of the cursors survives.
            assert forall|j: int| 0 <= j < NUM_BUFS implies s1.active@[j] == begun_active(s0, j)
                by {}
            assert forall|j: int| 0 <= j < NUM_BUFS && begun_active(s0, j) implies
                s1.in_buf@.subrange(j * MAX_FRAME, j * MAX_FRAME + s1.buf_top@[j])
                    == begun_samples(s0, j) by {
                if slot_starts(s0, j) {
                    assert(s1.buf_top@[j] == 0);
                    assert(s1.in_buf@.subrange(j * MAX_FRAME, j * MAX_FRAME) =~= Seq::empty());
                } else {
                    assert(s1.in_buf@.subrange(j * MAX_FRAME, j * MAX_FRAME + s1.buf_top@[j])
                        =~= s0.slot_samples(j));
                }
            }
            assert forall|b1: int, b2: int|
                0 <= b1 < b2 < NUM_BUFS && s2.active@[b1] && s2.active@[b2] implies
                s2.buf_top@[b1] != s2.buf_top@[b2] by {
                if s0.first_gap_counter == 0 {
                    let lb = s0.leading_buf as int;
                    if b1 != lb && b2 != lb {
                        assert(s0.active@[b1] && s0.active@[b2]);
                    }
                }
            }
        }
        // Completion: a slot whose cursor reached the block size publishes
        // its windowed block and is released for reuse.
        let mut b: usize = 0;
        let ghost mut completed: Option<int> = None::<int>;
        while b < NUM_BUFS
            invariant
                b <= NUM_BUFS,
                size == self.size,
                1 <= size <= MAX_FRAME,
                self.size == s2.size,
                self.frame_gap == s2.frame_gap,
                self.first_gap_counter == s2.first_gap_counter,
                self.leading_buf == s2.leading_buf,
                self.highest_buf == s2.highest_buf,
                self.window_mode == s2.window_mode,
                self.overlap_policy == s2.overlap_policy,
                self.win_buf@ == s2.win_buf@,
                self.out_buf@ == s2.out_buf@,
                self.out_pos == s2.out_pos,
                self.buf_top@ == s2.buf_top@,
                self.in_buf@ == s2.in_buf@,
                self.win_buf.len() == size,
                self.in_buf.len() == NUM_BUFS * MAX_FRAME,
                self.buf_top.len() == NUM_BUFS,
                self.active.len() == NUM_BUFS,
                forall|j: int| 0 <= j < NUM_BUFS ==> self.buf_top@[j] <= size,
                forall|j: int| b <= j < NUM_BUFS ==> self.active@[j] == s2.active@[j],
                forall|j: int|
                    0 <= j < b && s2.active@[j] && s2.buf_top@[j] < size ==> self.active@[j],
                forall|j: int|
                    0 <= j < b && #[trigger] self.active@[j] ==> s2.active@[j]
                        && s2.buf_top@[j] < size,
                match completed {
                    None => {
                        &&& self.is_updated == s2.is_updated
                        &&& self.in_buf_windowed@ == s2.in_buf_windowed@
                        &&& forall|j: int|
                            0 <= j < b ==> !(s2.active@[j] && s2.buf_top@[j] == size)
                    },
                    Some(c) => {
                        &&& 0 <= c < b
                        &&& s2.active@[c] && s2.buf_top@[c] == size
                        &&& self.is_updated
                        &&& self.in_buf_windowed@ == windowed_spec(
                            s2.in_buf@.subrange(c * MAX_FRAME, c * MAX_FRAME + size),
                            s2.win_buf@,
                        )
                        &&& self.in_buf_windowed@.len() == size
                    },
                },
            decreases NUM_BUFS - b,
        {
            if self.active[b] && self.buf_top[b] == size {
                let mut wins: Vec<i64> = Vec::new();
                let mut j: usize = 0;
                while j < size
                    invariant
                        j <= size,
                        size == self.size,
                        size <= MAX_FRAME,
                        b < NUM_BUFS,
                        self.win_buf.len() == size,
                        self.in_buf.len() == NUM_BUFS * MAX_FRAME,
                        wins.len() == j,
                        forall|i: int|
                            0 <= i < j ==> wins@[i] == fx_mul_s(
                                self.in_buf@[b * MAX_FRAME + i],
                                self.win_buf@[i],
                            ) as i64,
                    decreases size - j,
                {
                    let w = fx_mul(self.in_buf[b * MAX_FRAME + j], self.win_buf[j]);
                    wins.push(w);
                    j = j + 1;
                }
                proof {
                    assert(wins@ =~= windowed_spec(
                        self.in_buf@.subrange(b as int * MAX_FRAME, b as int * MAX_FRAME + size as int),
                        self.win_buf@,
                    ));
                    completed = Some(b as int);
                }
                self.in_buf_windowed = wins;
                self.active.set(b, false);
                self.is_updated = true;
            }
            b = b + 1;
        }
        // Hop counter.
        self.first_gap_counter = if self.first_gap_counter + 1 == self.frame_gap {
            0
        } else {
            self.first_gap_counter + 1
        };
        proof {
            assert forall|j: int| 0 <= j < NUM_BUFS && !begun_active(s0, j) implies
                self.slot_samples(j) == s0.slot_samples(j) by {
                assert(self.in_buf@.subrange(j * MAX_FRAME, j * MAX_FRAME + self.buf_top@[j])
                    =~= s0.in_buf@.subrange(j * MAX_FRAME, j * MAX_FRAME + s0.buf_top@[j]));
            }
            assert forall|j: int|
                0 <= j < NUM_BUFS && begun_active(s0, j) && !slot_finishes(s0, j) implies
                self.slot_samples(j) == begun_samples(s0, j).push(x) by {
                assert(s2.buf_top@[j] == s1.buf_top@[j] + 1);
                assert(self.slot_samples(j) == s2.in_buf@.subrange(
                    j * MAX_FRAME,
                    j * MAX_FRAME + s1.buf_top@[j] + 1,
                ));
            }
            assert forall|j: int| 0 <= j < NUM_BUFS && slot_finishes(s0, j) implies
                !self.slot_active(j) && self.updated_spec() && self.ready_frame_spec()
                    == windowed_spec(begun_samples(s0, j).push(x), s0.window_table()) by {
                assert(s2.active@[j] && s2.buf_top@[j] == size);
                assert(completed.is_some());
                let c = completed.unwrap();
                assert(c == j);
                assert(s2.in_buf@.subrange(j * MAX_FRAME, j * MAX_FRAME + size as int)
                    == begun_samples(s0, j).push(x));
            }
            if forall|j: int| 0 <= j < NUM_BUFS ==> !slot_finishes(s0, j) {
                assert(completed.is_none()) by {
                    if completed.is_some() {
                        let c = completed.unwrap();
                        assert(slot_finishes(s0, c));
                    }
                }
            }
        }
    }

    pub fn is_updated(&mut self) -> (r: bool)
        requires
            old(self).wf(),
        ensures
            final(self).wf(),
            r == old(self).updated_spec(),
            !final(self).updated_spec(),
            config_unchanged(*old(self), *final(self)),
            slots_unchanged(*old(self), *final(self)),
            final(self).ready_frame_spec() == old(self).ready_frame_spec(),
            final(self).out_ring() == old(self).out_ring(),
            final(self).out_cursor() == old(self).out_cursor(),
            final(self).counter_spec() == old(self).counter_spec(),
            final(self).leading_spec() == old(self).leading_spec(),
    {
        if self.is_updated {
            self.is_updated = false;
            true
        } else {
            false
        }
    }

    /// The most recently published windowed block, ready for the external
    /// forward transform.
    pub fn take_frame(&self) -> (r: &Vec<i64>)
        ensures
            r@ == self.ready_frame_spec(),
    {
        &self.in_buf_windowed
    }

    /// Sums a processed time-domain block into the output accumulation
    /// buffer, sample by sample, starting at the playback cursor: position
    /// `j` of the block lands `j` samples after the cursor, wrapping around
    /// the ring.
    pub fn overlap_add(&mut self, block: &Vec<i64>)
        requires
            old(self).wf(),
            block.len() == old(self).size_spec(),
        ensures
            final(self).wf(),
            config_unchanged(*old(self), *final(self)),
            slots_unchanged(*old(self), *final(self)),
            final(self).updated_spec() == old(self).updated_spec(),
            final(self).ready_frame_spec() == old(self).ready_frame_spec(),
            final(self).counter_spec() == old(self).counter_spec(),
            final(self).leading_spec() == old(self).leading_spec(),
            final(self).out_cursor() == old(self).out_cursor(),
            final(self).out_ring() == Seq::new(
                MAX_FRAME as nat,
                |i: int|
                    {
                        let d = if i >= old(self).out_cursor() {
                            i - old(self).out_cursor()
                        } else {
                            i - old(self).out_cursor() + MAX_FRAME
                        };
                        if d < old(self).size_spec() {
                            fx_add_s(old(self).out_ring()[i], block[d]) as i64
                        } else {
                            old(self).out_ring()[i]
                        }
                    },
            ),
    {
        let ghost s0 = *self;
        let size = self.size;
        let pos = self.out_pos;
        let mut j: usize = 0;
        while j < size
            invariant
                j <= size,
                size == self.size,
                pos == self.out_pos,
                pos < MAX_FRAME,
                size <= MAX_FRAME,
                block.len() == size,
                self.out_buf.len() == MAX_FRAME,
                self.size == s0.size,
                self.frame_gap == s0.frame_gap,
                self.first_gap_counter == s0.first_gap_counter,
                self.in_buf@ == s0.in_buf@,
                self.buf_top@ == s0.buf_top@,
                self.active@ == s0.active@,
                self.leading_buf == s0.leading_buf,
                self.highest_buf == s0.highest_buf,
                self.window_mode == s0.window_mode,
                self.overlap_policy == s0.overlap_policy,
                self.win_buf@ == s0.win_buf@,
                self.out_pos == s0.out_pos,
                self.in_buf_windowed@ == s0.in_buf_windowed@,
                self.is_updated == s0.is_updated,
                forall|i: int|
                    0 <= i < MAX_FRAME ==> self.out_buf[i] == {
                        let d = if i >= pos {
                            i - pos
                        } else {
                            i - pos + MAX_FRAME
                        };
                        if d < j {
                            fx_add_s(s0.out_buf@[i], block[d]) as i64
                        } else {
                            s0.out_buf@[i]
                        }
                    },
            decreases size - j,
        {
            let idx = if pos + j >= MAX_FRAME {
                pos + j - MAX_FRAME
            } else {
                pos + j
            };
            let v = fx_add(self.out_buf[idx], block[j]);
            self.out_buf.set(idx, v);
            j = j + 1;
        }
        proof {
            assert(final(self).out_ring() =~= Seq::new(
                MAX_FRAME as nat,
                |i: int|
                    {
                        let d = if i >= s0.out_cursor() {
                            i - s0.out_cursor()
                        } else {
                            i - s0.out_cursor() + MAX_FRAME
                        };
                        if d < s0.size_spec() {
                            fx_add_s(s0.out_ring()[i], block[d]) as i64
                        } else {
                            s0.out_ring()[i]
                        }
                    },
            ));
        }
    }

    /// Plays back one sample of the reconstructed stream: the sample under
    /// the playback cursor leaves the ring, its slot is cleared for reuse,
    /// and the cursor advances.
    pub fn out_stream(&mut self) -> (r: i64)
        requires
            old(self).wf(),
        ensures
            final(self).wf(),
            config_unchanged(*old(self), *final(self)),
            slots_unchanged(*old(self), *final(self)),
            final(self).updated_spec() == old(self).updated_spec(),
            final(self).ready_frame_spec() == old(self).ready_frame_spec(),
            final(self).counter_spec() == old(self).counter_spec(),
            final(self).leading_spec() == old(self).leading_spec(),
            r == old(self).out_ring()[old(self).out_cursor()],
            final(self).out_ring() == old(self).out_ring().update(old(self).out_cursor(), 0i64),
            final(self).out_cursor() == if old(self).out_cursor() + 1 == MAX_FRAME {
                0int
            } else {
                old(self).out_cursor() + 1
            },
    {
        let r = self.out_buf[self.out_pos];
        let pos = self.out_pos;
        self.out_buf.set(pos, 0);
        self.out_pos = if pos + 1 == MAX_FRAME {
            0
        } else {
            pos + 1
        };
        r
    }

    /// The hop derived from the current configuration.
    pub fn hop(&self) -> (r: usize)
        ensures
            r == self.gap_spec(),
    {
        self.frame_gap
    }

    /// The analysis block size.
    pub fn size(&self) -> (r: usize)
        ensures
            r == self.size_spec(),
    {
        self.size
    }

    /// How many accumulation buffers run in parallel under the current
    /// configuration.
    pub fn parallel_bufs(&self) -> (r: usize)
        requires
            self.wf(),
        ensures
            r == self.bufs_spec(),
    {
        self.highest_buf + 1
    }
}

/// No two slots can complete a block at the same incoming step: a block
/// completion empties exactly one slot per sample. For a well-formed engine
/// the fill cursors of slots that are collecting are pairwise distinct, and a
/// slot that begins at this step holds no samples yet, so at most one slot's
/// cursor can be one sample short of the block size.
pub proof fn lemma_single_completion_per_step(s: FftCore, b1: int, b2: int)
    requires
        s.wf(),
        0 <= b1 < NUM_BUFS,
        0 <= b2 < NUM_BUFS,
        slot_finishes(s, b1),
        slot_finishes(s, b2),
    ensures
        b1 == b2,
{
    if b1 != b2 {
        if slot_starts(s, b1) && slot_starts(s, b2) {
            assert(b1 == s.leading_spec() && b2 == s.leading_spec());
        } else if slot_starts(s, b1) {
            // Slot b2 was already collecting, so its cursor is at least one;
            // but finishing from a fresh start means the block size is one,
            // which an already-collecting slot has outgrown.
            assert(s.slot_active(b2));
            assert(begun_samples(s, b1).len() == 0);
            assert(s.size_spec() == 1);
            assert(begun_samples(s, b2).len() == s.slot_top(b2));
            assert(s.slot_top(b2) >= 1);
        } else if slot_starts(s, b2) {
            assert(s.slot_active(b1));
            assert(begun_samples(s, b2).len() == 0);
            assert(s.size_spec() == 1);
            assert(begun_samples(s, b1).len() == s.slot_top(b1));
            assert(s.slot_top(b1) >= 1);
        } else {
            // Both were already collecting with equal cursors, which the
            // distinctness invariant rules out.
            assert(s.slot_active(b1) && s.slot_active(b2));
            assert(s.slot_top(b1) == s.size_spec() - 1);
            assert(s.slot_top(b2) == s.size_spec() - 1);
        }
    }
}

/// What every reconfiguration guarantees: the hop and the overlap count
/// follow the table for the new configuration, every slot is idle with its
/// cursor at zero, the hop counter and round-robin cursor restart, the
/// window table is back at unity, the dirty flag is clear, and the output
/// side is untouched.
pub open spec fn reconfigured(s: FftCore, t: FftCore) -> bool {
    &&& t.gap_spec() == hop_size(t.policy_spec(), t.mode_spec(), t.size_spec())
    &&& t.bufs_spec() == overlap_count(t.policy_spec(), t.mode_spec(), t.size_spec())
    &&& t.counter_spec() == 0
    &&& t.leading_spec() == 0
    &&& forall|b: int| 0 <= b < NUM_BUFS ==> !t.slot_active(b) && t.slot_top(b) == 0
    &&& t.window_table() == Seq::new(t.size_spec() as nat, |j: int| FX_ONE)
    &&& !t.updated_spec()
    &&& t.out_ring() == s.out_ring()
    &&& t.out_cursor() == s.out_cursor()
}

/// The configuration and the derived window state a step leaves untouched.
pub open spec fn config_unchanged(s: FftCore, t: FftCore) -> bool {
    &&& t.size_spec() == s.size_spec()
    &&& t.gap_spec() == s.gap_spec()
    &&& t.mode_spec() == s.mode_spec()
    &&& t.policy_spec() == s.policy_spec()
    &&& t.bufs_spec() == s.bufs_spec()
    &&& t.window_table() == s.window_table()
}

/// The accumulation slots stay exactly as they are.
pub open spec fn slots_unchanged(s: FftCore, t: FftCore) -> bool {
    forall|b: int|
        0 <= b < NUM_BUFS ==> {
            &&& t.slot_active(b) == s.slot_active(b)
            &&& t.slot_top(b) == s.slot_top(b)
            &&& t.slot_samples(b) == s.slot_samples(b)
        }
}

/// Everything but the window table stays exactly as it is.
pub open spec fn unchanged_but_window(s: FftCore, t: FftCore) -> bool {
    &&& t.size_spec() == s.size_spec()
    &&& t.gap_spec() == s.gap_spec()
    &&& t.mode_spec() == s.mode_spec()
    &&& t.policy_spec() == s.policy_spec()
    &&& t.bufs_spec() == s.bufs_spec()
    &&& t.counter_spec() == s.counter_spec()
    &&& t.leading_spec() == s.leading_spec()
    &&& slots_unchanged(s, t)
    &&& t.updated_spec() == s.updated_spec()
    &&& t.ready_frame_spec() == s.ready_frame_spec()
    &&& t.out_ring() == s.out_ring()
    &&& t.out_cursor() == s.out_cursor()
}

/// The overlap numerator of the documented table, as executable code.
fn overlap_numerator_of(policy: OverlapPolicy, win: WindowMode) -> (r: usize)
    ensures
        r as int == overlap_numerator(policy, win),
        r <= 8325,
{
    match policy {
        OverlapPolicy::Off => 0,
        OverlapPolicy::Eco => match win {
            WindowMode::Box => 0,
            WindowMode::Triangular => 5000,
            WindowMode::Welch => 2930,
            WindowMode::Hann => 5000,
            WindowMode::BlackmanHarris => 5000,
            WindowMode::Nuttal => 5000,
            WindowMode::Kaiser => 5000,
            WindowMode::FlatTop => 5000,
        },
        OverlapPolicy::Default => match win {
            WindowMode::Box => 0,
            WindowMode::Triangular => 5000,
            WindowMode::Welch => 2930,
            WindowMode::Hann => 5000,
            WindowMode::BlackmanHarris => 6610,
            WindowMode::Nuttal => 6120,
            WindowMode::Kaiser => 6190,
            WindowMode::FlatTop => 6667,
        },
        OverlapPolicy::FlatAmplitude => match win {
            WindowMode::Box => 0,
            WindowMode::Triangular => 5000,
            WindowMode::Welch => 7100,
            WindowMode::Hann => 5000,
            WindowMode::BlackmanHarris => 7400,
            WindowMode::Nuttal => 6500,
            WindowMode::Kaiser => 6900,
            WindowMode::FlatTop => 6667,
        },
        OverlapPolicy::FlatPower => match win {
            WindowMode::Box => 0,
            WindowMode::Triangular => 8325,
            WindowMode::Welch => 4600,
            WindowMode::Hann => 6667,
            WindowMode::BlackmanHarris => 8200,
            WindowMode::Nuttal => 7800,
            WindowMode::Kaiser => 7900,
            WindowMode::FlatTop => 8000,
        },
    }
}

/// The floored overlap is strictly below the block size, so the hop is at
/// least one sample.
proof fn lemma_overlap_below_size(num: int, size: int)
    requires
        0 <= num <= 8325,
        1 <= size,
    ensures
        0 <= (num * size) / 10000 < size,
{
    let p = num * size;
    assert(0 <= p) by (nonlinear_arith)
        requires p == num * size, 0 <= num, 1 <= size,
    ;
    assert(p <= 8325 * size) by (nonlinear_arith)
        requires p == num * size, num <= 8325, 1 <= size,
    ;
    lemma_fundamental_div_mod(p, 10000);
    let q = p / 10000;
    let r = p % 10000;
    assert(0 <= q) by (nonlinear_arith)
        requires p == 10000 * q + r, 0 <= r < 10000, p >= 0,
    ;
    assert(q < size) by (nonlinear_arith)
        requires
            p == 10000 * q + r,
            0 <= r < 10000,
            p <= 8325 * size,
            1 <= size,
            0 <= q,
    ;
}

/// Dividing the block size by the hop, rounding up, gives at least one.
proof fn lemma_count_at_least_one(size: int, gap: int)
    requires
        1 <= gap <= size,
    ensures
        1 <= (size + gap - 1) / gap,
        (size + gap - 1) / gap <= size,
{
    let p = size + gap - 1;
    lemma_fundamental_div_mod(p, gap);
    let q = p / gap;
    let r = p % gap;
    assert(1 <= q && q <= size) by (nonlinear_arith)
        requires
            p == gap * q + r,
            0 <= r < gap,
            gap >= 1,
            p >= gap,
            p == size + gap - 1,
            size >= 1,
    ;
}

/// Builds a vector of `n` zero samples.
fn zero_vec(n: usize) -> (r: Vec<i64>)
    ensures
        r.len() == n,
        forall|i: int| 0 <= i < n ==> r[i] == 0i64,
{
    let mut v: Vec<i64> = Vec::new();
    let mut k: usize = 0;
    while k < n
        invariant
            k <= n,
            v.len() == k,
            forall|i: int| 0 <= i < k ==> v[i] == 0i64,
        decreases n - k,
    {
        v.push(0);
        k = k + 1;
    }
    v
}

/// Builds a vector of `n` zero cursors.
fn zero_usize_vec(n: usize) -> (r: Vec<usize>)
    ensures
        r.len() == n,
        forall|i: int| 0 <= i < n ==> r[i] == 0usize,
{
    let mut v: Vec<usize> = Vec::new();
    let mut k: usize = 0;
    while k < n
        invariant
            k <= n,
            v.len() == k,
            forall|i: int| 0 <= i < k ==> v[i] == 0usize,
        decreases n - k,
    {
        v.push(0);
        k = k + 1;
    }
    v
}

/// Builds a vector of `n` cleared flags.
fn false_vec(n: usize) -> (r: Vec<bool>)
    ensures
        r.len() == n,
        forall|i: int| 0 <= i < n ==> r[i] == false,
{
    let mut v: Vec<bool> = Vec::new();
    let mut k: usize = 0;
    while k < n
        invariant
            k <= n,
            v.len() == k,
            forall|i: int| 0 <= i < k ==> v[i] == false,
        decreases n - k,
    {
        v.push(false);
        k = k + 1;
    }
    v
}

/// Builds a window table of `n` unity coefficients: the rectangular window.
fn unit_vec(n: usize) -> (r: Vec<i64>)
    ensures
        r.len() == n,
        forall|i: int| 0 <= i < n ==> r[i] == FX_ONE,
        r@ == Seq::new(n as nat, |j: int| FX_ONE),
    {
    let mut v: Vec<i64> = Vec::new();
    let mut k: usize = 0;
    while k < n
        invariant
            k <= n,
            v.len() == k,
            forall|i: int| 0 <= i < k ==> v[i] == FX_ONE,
        decreases n - k,
    {
        v.push(FX_ONE);
        k = k + 1;
    }
    proof {
        assert(v@ =~= Seq::new(n as nat, |j: int| FX_ONE));
    }
    v
}

} // verus!
