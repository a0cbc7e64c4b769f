use vstd::prelude::*;
use crate::div_ceil;
use crate::gic::{model_of_words, GicV2};
use crate::hw::{Access, CpuReg, DistReg, Reg, BYTE_ARRAY_WORDS, CFG_WORDS, CTRL_ENABLE};

verus! {

/// Value written to enable-set, enable-clear, active-clear and pending-clear registers to
/// reach every line of a group.
pub const ALL_LINES: u32 = 0xffff_ffff;
/// Edge/level configuration word that makes all sixteen lines level-triggered, active-low.
pub const LEVEL_ACTIVE_LOW: u32 = 0;
/// Priority word that gives four lines the default priority 0xa0.
pub const DEFAULT_PRIORITY_WORD: u32 = 0xa0a0_a0a0;
/// Priority mask that admits the default priority.
pub const PRIORITY_MASK: u32 = 0xf0;
/// CPU Interface control value: interface enabled, bypass overrides off, combined
/// acknowledge and priority drop.
pub const CPU_CTRL_ENABLE: u32 = 1;
/// Number of banked, per-CPU target registers.
pub const BANKED_TARGETS: u32 = 8;

/// Every access of the sequence names an existing register in a mode it allows.
pub open spec fn all_wf(s: Seq<Access>) -> bool {
    forall|k: int| 0 <= k < s.len() ==> #[trigger] s[k].wf()
}

proof fn lemma_all_wf_concat(a: Seq<Access>, b: Seq<Access>)
    requires
        all_wf(a),
        all_wf(b),
    ensures
        all_wf(a + b),
{
    assert forall|k: int| 0 <= k < (a + b).len() implies #[trigger] (a + b)[k].wf() by {
        if k < a.len() {
            assert((a + b)[k] == a[k]);
        } else {
            assert((a + b)[k] == b[k - a.len()]);
        }
    }
}

/// What the type-identification register reports.
#[derive(Clone, Copy, Debug, PartialEq, Eq, Structural)]
pub struct TypeInfo {
    pub num_cpu_interfaces: u32,
    pub max_interrupts: u32,
    pub security_extensions: bool,
}

impl TypeInfo {
    /// Words of each per-line bitmap that cover the lines.
    pub open spec fn enable_words(self) -> int {
        (self.max_interrupts + 31) / 32
    }

    /// Edge/level configuration words that cover the lines.
    pub open spec fn cfg_words(self) -> int {
        (self.max_interrupts + 15) / 16
    }

    /// Priority words, and target words, that cover the lines.
    pub open spec fn byte_words(self) -> int {
        (self.max_interrupts + 3) / 4
    }

    pub open spec fn wf(self) -> bool {
        32 <= self.max_interrupts <= 512 && self.max_interrupts % 32 == 0
    }
}

/// The type-identification register's fields: CPU count in bits 5 to 7 (plus one), line
/// groups in bits 0 to 3 (plus one, times 32), security extensions in bit 10.
pub open spec fn type_info_of(typer: u32) -> TypeInfo {
    TypeInfo {
        num_cpu_interfaces: (((typer >> 5u32) & 7u32) + 1) as u32,
        max_interrupts: (32 * ((typer & 0xfu32) + 1)) as u32,
        security_extensions: (typer >> 10u32) & 1u32 == 1u32,
    }
}

proof fn decode_type_wf(typer: u32)
    ensures
        type_info_of(typer).wf(),
{
    assert(typer & 0xfu32 <= 15) by (bit_vector);
    assert((typer >> 5u32) & 7u32 <= 7) by (bit_vector);
}

/// Decodes the type-identification register.
pub fn decode_type(typer: u32) -> (r: TypeInfo)
    ensures
        r == type_info_of(typer),
        r.wf(),
{
    let itlines = typer & 0xf;
    assert(itlines <= 15) by (bit_vector)
        requires itlines == typer & 0xfu32;
    assert((typer >> 5u32) & 7u32 <= 7) by (bit_vector);
    TypeInfo {
        num_cpu_interfaces: ((typer >> 5) & 7) + 1,
        max_interrupts: 32 * (itlines + 1),
        security_extensions: (typer >> 10) & 1 == 1,
    }
}

/// The CPU mask in a banked target register: the OR of its four byte lanes.
pub open spec fn cpu_byte(v: u32) -> u32 {
    (v | (v >> 8u32) | (v >> 16u32) | (v >> 24u32)) & 0xffu32
}

/// A byte copied into all four lanes of a word.
pub open spec fn replicate(b: u32) -> u32 {
    b | (b << 8u32) | (b << 16u32) | (b << 24u32)
}

/// Folds the byte lanes of a banked target register into one byte.
pub fn cpu_mask_of(v: u32) -> (r: u32)
    ensures
        r == cpu_byte(v),
        r < 256,
        r == 0 <==> v == 0,
{
    let mut m = v | (v >> 16);
    m = m | (m >> 8);
    assert((((v | (v >> 16u32)) | ((v | (v >> 16u32)) >> 8u32)) & 0xffu32) == cpu_byte(v))
        by (bit_vector);
    assert(cpu_byte(v) < 256 && (cpu_byte(v) == 0 <==> v == 0)) by (bit_vector);
    m & 0xff
}

/// Copies a one-byte CPU mask into all four lanes of a target word.
pub fn replicate_mask(b: u32) -> (r: u32)
    requires
        b < 256,
    ensures
        r == replicate(b),
{
    let mut m = b | (b << 8);
    m = m | (m << 16);
    assert(((b | (b << 8u32)) | ((b | (b << 8u32)) << 16u32)) == replicate(b)) by (bit_vector)
        requires b < 256;
    m
}

/// Discovery of one group: clear its active and pending bits, try to enable every line,
/// and read back which lines took.
pub open spec fn probe_head(g: u32) -> Seq<Access> {
    seq![
        Access::Write(Reg::Dist(DistReg::IcActive(g)), ALL_LINES),
        Access::Write(Reg::Dist(DistReg::IcPend(g)), ALL_LINES),
        Access::Write(Reg::Dist(DistReg::IsEnable(g)), ALL_LINES),
        Access::Read(Reg::Dist(DistReg::IsEnable(g))),
    ]
}

/// Discovery of one group, continued: try to disable every line, and read back which
/// lines stayed enabled.
pub open spec fn probe_tail(g: u32) -> Seq<Access> {
    seq![
        Access::Write(Reg::Dist(DistReg::IcEnable(g)), ALL_LINES),
        Access::Read(Reg::Dist(DistReg::IcEnable(g))),
    ]
}

/// Every configuration word from index 2 up made level-triggered, active-low.
pub open spec fn config_plan(words: int) -> Seq<Access> {
    Seq::new(
        (words - 2) as nat,
        |k: int| Access::Write(Reg::Dist(DistReg::ICfg((k + 2) as u32)), LEVEL_ACTIVE_LOW),
    )
}

/// Every priority word set to the default.
pub open spec fn priority_plan(words: int) -> Seq<Access> {
    Seq::new(
        words as nat,
        |k: int| Access::Write(Reg::Dist(DistReg::IPriority(k as u32)), DEFAULT_PRIORITY_WORD),
    )
}

/// Every shared target word, from index 8 up, set to `target`.
pub open spec fn route_plan(words: int, target: u32) -> Seq<Access> {
    Seq::new(
        (words - BANKED_TARGETS) as nat,
        |k: int| Access::Write(Reg::Dist(DistReg::ITarget((k + BANKED_TARGETS) as u32)), target),
    )
}

/// Per-CPU-Interface setup.
pub open spec fn cpu_plan() -> Seq<Access> {
    seq![
        Access::Write(Reg::Cpu(CpuReg::Pmr), PRIORITY_MASK),
        Access::Write(Reg::Cpu(CpuReg::Apr(0)), 0),
        Access::Write(Reg::Cpu(CpuReg::Apr(1)), 0),
        Access::Write(Reg::Cpu(CpuReg::Apr(2)), 0),
        Access::Write(Reg::Cpu(CpuReg::Apr(3)), 0),
        Access::Write(Reg::Cpu(CpuReg::Ctrl), CPU_CTRL_ENABLE),
    ]
}

pub open spec fn enable_plan() -> Seq<Access> {
    seq![Access::SetBits(Reg::Dist(DistReg::Ctrl), CTRL_ENABLE)]
}

/// Per-CPU setup, then the global enable.
pub open spec fn finish_plan() -> Seq<Access> {
    cpu_plan() + enable_plan()
}

fn push_probe_head(v: &mut Vec<Access>, g: u32)
    ensures
        final(v)@ == old(v)@ + probe_head(g),
{
    v.push(Access::Write(Reg::Dist(DistReg::IcActive(g)), ALL_LINES));
    v.push(Access::Write(Reg::Dist(DistReg::IcPend(g)), ALL_LINES));
    v.push(Access::Write(Reg::Dist(DistReg::IsEnable(g)), ALL_LINES));
    v.push(Access::Read(Reg::Dist(DistReg::IsEnable(g))));
    assert(v@ =~= old(v)@ + probe_head(g));
}

fn push_probe_tail(v: &mut Vec<Access>, g: u32)
    ensures
        final(v)@ == old(v)@ + probe_tail(g),
{
    v.push(Access::Write(Reg::Dist(DistReg::IcEnable(g)), ALL_LINES));
    v.push(Access::Read(Reg::Dist(DistReg::IcEnable(g))));
    assert(v@ =~= old(v)@ + probe_tail(g));
}

fn push_config(v: &mut Vec<Access>, words: u32)
    requires
        2 <= words,
    ensures
        final(v)@ == old(v)@ + config_plan(words as int),
{
    let mut i: u32 = 2;
    while i < words
        invariant
            2 <= i <= words,
            v@ =~= old(v)@ + config_plan(i as int),
        decreases words - i,
    {
        v.push(Access::Write(Reg::Dist(DistReg::ICfg(i)), LEVEL_ACTIVE_LOW));
        i = i + 1;
        assert(v@ =~= old(v)@ + config_plan(i as int));
    }
}

fn push_priority(v: &mut Vec<Access>, words: u32)
    ensures
        final(v)@ == old(v)@ + priority_plan(words as int),
{
    let mut i: u32 = 0;
    while i < words
        invariant
            i <= words,
            v@ =~= old(v)@ + priority_plan(i as int),
        decreases words - i,
    {
        v.push(Access::Write(Reg::Dist(DistReg::IPriority(i)), DEFAULT_PRIORITY_WORD));
        i = i + 1;
        assert(v@ =~= old(v)@ + priority_plan(i as int));
    }
}

fn push_route(v: &mut Vec<Access>, words: u32, target: u32)
    requires
        BANKED_TARGETS <= words,
    ensures
        final(v)@ == old(v)@ + route_plan(words as int, target),
{
    let mut i: u32 = BANKED_TARGETS;
    while i < words
        invariant
            BANKED_TARGETS <= i <= words,
            v@ =~= old(v)@ + route_plan(i as int, target),
        decreases words - i,
    {
        v.push(Access::Write(Reg::Dist(DistReg::ITarget(i)), target));
        i = i + 1;
        assert(v@ =~= old(v)@ + route_plan(i as int, target));
    }
}

fn push_finish(v: &mut Vec<Access>)
    ensures
        final(v)@ == old(v)@ + finish_plan(),
{
    v.push(Access::Write(Reg::Cpu(CpuReg::Pmr), PRIORITY_MASK));
    let mut i: u32 = 0;
    while i < 4
        invariant
            i <= 4,
            v@ =~= old(v)@ + cpu_plan().take(1 + i as int),
        decreases 4 - i,
    {
        v.push(Access::Write(Reg::Cpu(CpuReg::Apr(i)), 0));
        i = i + 1;
        assert(v@ =~= old(v)@ + cpu_plan().take(1 + i as int));
    }
    v.push(Access::Write(Reg::Cpu(CpuReg::Ctrl), CPU_CTRL_ENABLE));
    v.push(Access::SetBits(Reg::Dist(DistReg::Ctrl), CTRL_ENABLE));
    assert(v@ =~= old(v)@ + finish_plan());
}

/// Where the initialization sequence stands.
#[derive(Clone, Copy, Debug, PartialEq, Eq, Structural)]
pub enum InitPhase {
    /// Global enable is being cleared, then the type register read.
    ReadingType,
    /// Group `g` is being enabled; the next value read is its enable-set read-back.
    ProbeEnabled(u32),
    /// Group `g` is being disabled; the next value read is its enable-clear read-back.
    ProbeCleared(u32),
    /// Defaults are being written, then banked target register `i` read.
    Scanning(u32),
    /// Targets, CPU Interface and global enable are being written.
    Finishing,
    /// The driver instance was handed out.
    Done,
    /// No banked target register named a CPU.
    Aborted,
}

/// What the caller does next.
pub enum InitStep {
    /// Carry out the access; hand the value read, if any, to the next step.
    Perform(Access),
    /// Initialization is complete.
    Ready(GicV2),
    /// The controller cannot be initialized: stop.
    Abort,
}

/// The state of an initialization as mathematical values.
pub struct InitModel {
    pub phase: InitPhase,
    /// Accesses already decided and not yet handed out.
    pub pending: Seq<Access>,
    pub info: TypeInfo,
    /// Enable-set read-back of each group.
    pub supported: Seq<u32>,
    /// Enable-clear read-back of each group.
    pub permanent: Seq<u32>,
}

impl InitModel {
    pub open spec fn wf(self) -> bool {
        &&& self.info.wf()
        &&& self.supported.len() == 32
        &&& self.permanent.len() == 32
        &&& all_wf(self.pending)
        &&& match self.phase {
            InitPhase::ProbeEnabled(g) | InitPhase::ProbeCleared(g) => g < self.info.enable_words(),
            InitPhase::Scanning(i) => i < BANKED_TARGETS,
            _ => true,
        }
    }

    /// The phase and the accesses that follow once `pending` is used up, given the value
    /// read by the last of them.
    pub open spec fn plan_after(self, value: u32) -> (InitPhase, Seq<Access>) {
        match self.phase {
            InitPhase::ReadingType => (InitPhase::ProbeEnabled(0), probe_head(0)),
            InitPhase::ProbeEnabled(g) => (InitPhase::ProbeCleared(g), probe_tail(g)),
            InitPhase::ProbeCleared(g) => if g + 1 < self.info.enable_words() {
                (InitPhase::ProbeEnabled((g + 1) as u32), probe_head((g + 1) as u32))
            } else if self.info.num_cpu_interfaces > 1 {
                (
                    InitPhase::Scanning(0),
                    config_plan(self.info.cfg_words()) + priority_plan(self.info.byte_words())
                        + seq![Access::Read(Reg::Dist(DistReg::ITarget(0)))],
                )
            } else {
                (
                    InitPhase::Finishing,
                    config_plan(self.info.cfg_words()) + priority_plan(self.info.byte_words())
                        + finish_plan(),
                )
            },
            InitPhase::Scanning(i) => if cpu_byte(value) != 0 {
                (
                    InitPhase::Finishing,
                    route_plan(self.info.byte_words(), replicate(cpu_byte(value))) + finish_plan(),
                )
            } else if i + 1 < BANKED_TARGETS {
                (
                    InitPhase::Scanning((i + 1) as u32),
                    seq![Access::Read(Reg::Dist(DistReg::ITarget((i + 1) as u32)))],
                )
            } else {
                (InitPhase::Aborted, Seq::empty())
            },
            InitPhase::Finishing => (InitPhase::Done, Seq::empty()),
            _ => (InitPhase::Aborted, Seq::empty()),
        }
    }

    /// Every planned access is well formed.
    pub proof fn lemma_plan_after_wf(self, value: u32)
        requires
            self.info.wf(),
            match self.phase {
                InitPhase::ProbeEnabled(g) | InitPhase::ProbeCleared(g) => g < self.info.enable_words(),
                InitPhase::Scanning(i) => i < BANKED_TARGETS,
                _ => true,
            },
        ensures
            all_wf(self.plan_after(value).1),
            all_wf(self.plan_after(value).1.drop_first()) || self.plan_after(value).1.len() == 0,
    {
        let info = self.info;
        let cfg = config_plan(info.cfg_words());
        let pri = priority_plan(info.byte_words());
        assert(all_wf(cfg));
        assert(all_wf(pri));
        assert(all_wf(finish_plan()));
        lemma_all_wf_concat(cfg, pri);
        lemma_all_wf_concat(cfg + pri, finish_plan());
        lemma_all_wf_concat(cfg + pri, seq![Access::Read(Reg::Dist(DistReg::ITarget(0)))]);
        if let InitPhase::Scanning(i) = self.phase {
            let route = route_plan(info.byte_words(), replicate(cpu_byte(value)));
            assert(all_wf(route));
            lemma_all_wf_concat(route, finish_plan());
        }
        let plan = self.plan_after(value).1;
        if plan.len() > 0 {
            assert forall|k: int| 0 <= k < plan.drop_first().len() implies #[trigger] plan.drop_first()[k].wf() by {
                assert(plan.drop_first()[k] == plan[k + 1]);
            }
        }
    }

    /// The state with `value`, read by the last pending access, recorded.
    pub open spec fn record(self, value: u32) -> InitModel {
        match self.phase {
            InitPhase::ReadingType => InitModel { info: type_info_of(value), ..self },
            InitPhase::ProbeEnabled(g) => InitModel {
                supported: self.supported.update(g as int, value),
                ..self
            },
            InitPhase::ProbeCleared(g) => InitModel {
                permanent: self.permanent.update(g as int, value),
                ..self
            },
            _ => self,
        }
    }

    /// The state after a step taken with no access pending.
    pub open spec fn decide(self, value: u32) -> InitModel {
        let m = self.record(value);
        let (phase, plan) = m.plan_after(value);
        InitModel {
            phase,
            pending: if plan.len() > 0 { plan.drop_first() } else { plan },
            ..m
        }
    }

    /// What a step taken with no access pending returns.
    pub open spec fn decided_step(self, value: u32, r: InitStep) -> bool {
        let m = self.record(value);
        let (phase, plan) = m.plan_after(value);
        if plan.len() > 0 {
            r == InitStep::Perform(plan[0])
        } else if phase is Done {
            r matches InitStep::Ready(g) && g@ == model_of_words(
                m.supported,
                m.permanent,
                m.info.num_cpu_interfaces as nat,
            )
        } else {
            r is Abort
        }
    }
}

/// The construction sequence of a driver instance: disable, discover, configure defaults,
/// route shared lines, set up the CPU Interface, enable. Each step hands out one register
/// access; the value it reads goes to the next step.
pub struct Init {
    phase: InitPhase,
    queue: Vec<Access>,
    next: usize,
    info: TypeInfo,
    supported: [u32; 32],
    permanent: [u32; 32],
}

impl View for Init {
    type V = InitModel;

    closed spec fn view(&self) -> InitModel {
        InitModel {
            phase: self.phase,
            pending: self.queue@.skip(self.next as int),
            info: self.info,
            supported: self.supported@,
            permanent: self.permanent@,
        }
    }
}

impl Init {
    pub closed spec fn wf(&self) -> bool {
        self.next <= self.queue.len() && self@.wf()
    }

    pub fn new() -> (r: Init)
        ensures
            r.wf(),
            r@.phase == InitPhase::ReadingType,
            r@.pending == seq![
                Access::ClearBits(Reg::Dist(DistReg::Ctrl), CTRL_ENABLE),
                Access::Read(Reg::Dist(DistReg::Typer)),
            ],
            r@.supported == Seq::new(32, |i: int| 0u32),
            r@.permanent == Seq::new(32, |i: int| 0u32),
    {
        let queue = vec![
            Access::ClearBits(Reg::Dist(DistReg::Ctrl), CTRL_ENABLE),
            Access::Read(Reg::Dist(DistReg::Typer)),
        ];
        let r = Init {
            phase: InitPhase::ReadingType,
            queue,
            next: 0,
            info: TypeInfo { num_cpu_interfaces: 1, max_interrupts: 32, security_extensions: false },
            supported: [0u32; 32],
            permanent: [0u32; 32],
        };
        assert(r@.pending =~= r.queue@);
        assert(r@.supported =~= Seq::new(32, |i: int| 0u32));
        assert(r@.permanent =~= Seq::new(32, |i: int| 0u32));
        r
    }

    /// Installs a freshly decided plan and hands out its first access.
    fn start(&mut self, plan: Vec<Access>) -> (r: InitStep)
        requires
            plan.len() > 0,
        ensures
            r == InitStep::Perform(plan@[0]),
            final(self)@ == (InitModel { pending: plan@.drop_first(), ..old(self)@ }),
            final(self).next <= final(self).queue.len(),
    {
        let a = plan[0];
        self.queue = plan;
        self.next = 1;
        assert(self@.pending =~= plan@.drop_first());
        InitStep::Perform(a)
    }

    /// Takes one step. `value` is what the previous access read; it is ignored after a
    /// write.
    pub fn step(&mut self, value: u32) -> (r: InitStep)
        requires
            old(self).wf(),
            !(old(self)@.phase is Done),
            !(old(self)@.phase is Aborted),
        ensures
            final(self).wf(),
            old(self)@.pending.len() > 0 ==> r == InitStep::Perform(old(self)@.pending[0])
                && final(self)@ == (InitModel {
                pending: old(self)@.pending.drop_first(),
                ..old(self)@
            }),
            old(self)@.pending.len() == 0 ==> final(self)@ == old(self)@.decide(value)
                && old(self)@.decided_step(value, r),
            r matches InitStep::Perform(a) ==> a.wf(),
    {
        if self.next < self.queue.len() {
            let a = self.queue[self.next];
            self.next = self.next + 1;
            assert(self@.pending =~= old(self)@.pending.drop_first());
            assert(old(self)@.pending[0].wf());
            assert forall|k: int| 0 <= k < self@.pending.len() implies #[trigger] self@.pending[k].wf() by {
                assert(self@.pending[k] == old(self)@.pending[k + 1]);
            }
            return InitStep::Perform(a);
        }
        let ghost m = self@.record(value);
        proof {
            decode_type_wf(value);
            m.lemma_plan_after_wf(value);
        }
        match self.phase {
            InitPhase::ReadingType => {
                self.info = decode_type(value);
                self.phase = InitPhase::ProbeEnabled(0);
                let mut plan: Vec<Access> = Vec::new();
                push_probe_head(&mut plan, 0);
                assert(plan@ =~= probe_head(0));
                self.start(plan)
            },
            InitPhase::ProbeEnabled(g) => {
                self.supported[g as usize] = value;
                self.phase = InitPhase::ProbeCleared(g);
                let mut plan: Vec<Access> = Vec::new();
                push_probe_tail(&mut plan, g);
                assert(plan@ =~= m.plan_after(value).1);
                self.start(plan)
            },
            InitPhase::ProbeCleared(g) => {
                self.permanent[g as usize] = value;
                let enable_words = div_ceil(self.info.max_interrupts, 32);
                let mut plan: Vec<Access> = Vec::new();
                if g + 1 < enable_words {
                    self.phase = InitPhase::ProbeEnabled(g + 1);
                    push_probe_head(&mut plan, g + 1);
                } else {
                    push_config(&mut plan, div_ceil(self.info.max_interrupts, 16));
                    push_priority(&mut plan, div_ceil(self.info.max_interrupts, 4));
                    if self.info.num_cpu_interfaces > 1 {
                        self.phase = InitPhase::Scanning(0);
                        plan.push(Access::Read(Reg::Dist(DistReg::ITarget(0))));
                    } else {
                        self.phase = InitPhase::Finishing;
                        push_finish(&mut plan);
                    }
                }
                assert(plan@ =~= m.plan_after(value).1);
                self.start(plan)
            },
            InitPhase::Scanning(i) => {
                let byte = cpu_mask_of(value);
                let mut plan: Vec<Access> = Vec::new();
                if byte != 0 {
                    self.phase = InitPhase::Finishing;
                    push_route(&mut plan, div_ceil(self.info.max_interrupts, 4), replicate_mask(byte));
                    push_finish(&mut plan);
                    assert(plan@ =~= m.plan_after(value).1);
                    self.start(plan)
                } else if i + 1 < BANKED_TARGETS {
                    self.phase = InitPhase::Scanning(i + 1);
                    plan.push(Access::Read(Reg::Dist(DistReg::ITarget(i + 1))));
                    assert(plan@ =~= m.plan_after(value).1);
                    self.start(plan)
                } else {
                    self.phase = InitPhase::Aborted;
                    assert(self@.pending =~= Seq::<Access>::empty());
                    InitStep::Abort
                }
            },
            _ => {
                self.phase = InitPhase::Done;
                let gic = GicV2::from_capabilities(self.supported, self.permanent, self.info.num_cpu_interfaces);
                assert(self@.pending =~= Seq::<Access>::empty());
                InitStep::Ready(gic)
            },
        }
    }
}

/// Discovery of a group clears the active and pending bits of all its lines, and its
/// last write is the clear of every line's enable bit, so each probed line is left
/// disabled, inactive and not pending.
pub proof fn lemma_probe_leaves_lines_quiet(g: u32)
    ensures
        ({
            let p = probe_head(g) + probe_tail(g);
            &&& p.len() == 6
            &&& p[0] == Access::Write(Reg::Dist(DistReg::IcActive(g)), ALL_LINES)
            &&& p[1] == Access::Write(Reg::Dist(DistReg::IcPend(g)), ALL_LINES)
            &&& p[4] == Access::Write(Reg::Dist(DistReg::IcEnable(g)), ALL_LINES)
            &&& p[5] == Access::Read(Reg::Dist(DistReg::IcEnable(g)))
        }),
{
}

/// Whenever initialization moves on to its last phase, the accesses it has planned end
/// with the CPU Interface setup followed by setting the global enable bit; the driver
/// instance is handed out only from that phase.
pub proof fn lemma_ready_follows_enable(m: InitModel, value: u32, r: InitStep)
    requires
        m.wf(),
        m.pending.len() == 0,
        m.decided_step(value, r),
    ensures
        m.decide(value).phase is Finishing ==> {
            let plan = m.record(value).plan_after(value).1;
            &&& plan.len() >= finish_plan().len()
            &&& plan.subrange(plan.len() - finish_plan().len(), plan.len() as int) == finish_plan()
            &&& plan.last() == Access::SetBits(Reg::Dist(DistReg::Ctrl), CTRL_ENABLE)
        },
        r is Ready ==> m.phase is Finishing,
{
    let mm = m.record(value);
    let plan = mm.plan_after(value).1;
    if m.decide(value).phase is Finishing {
        match mm.phase {
            InitPhase::ProbeCleared(g) => {
                let head = config_plan(mm.info.cfg_words()) + priority_plan(mm.info.byte_words());
                assert(plan == head + finish_plan());
                assert(plan.subrange(head.len() as int, plan.len() as int) =~= finish_plan());
            },
            InitPhase::Scanning(i) => {
                let head = route_plan(mm.info.byte_words(), replicate(cpu_byte(value)));
                assert(plan == head + finish_plan());
                assert(plan.subrange(head.len() as int, plan.len() as int) =~= finish_plan());
            },
            _ => {},
        }
    }
}

/// Setting the global enable bit leaves it set, whatever the control register held.
pub proof fn lemma_enable_sets_bit(v: u32)
    ensures
        Access::SetBits(Reg::Dist(DistReg::Ctrl), CTRL_ENABLE).apply(v) & CTRL_ENABLE
            == CTRL_ENABLE,
{
    assert((v | 1u32) & 1u32 == 1u32) by (bit_vector);
}

/// Every configuration word from index 2 below `words` is made level-triggered,
/// active-low, and words 0 and 1 are never written.
pub proof fn lemma_config_plan(words: int)
    requires
        2 <= words <= CFG_WORDS,
    ensures
        forall|i: u32|
            2 <= i < words ==> config_plan(words).contains(
                Access::Write(Reg::Dist(DistReg::ICfg(i)), LEVEL_ACTIVE_LOW),
            ),
        forall|k: int|
            0 <= k < config_plan(words).len() ==> (#[trigger] config_plan(words)[k] matches Access::Write(
                Reg::Dist(DistReg::ICfg(i)),
                v,
            ) && 2 <= i < words && v == LEVEL_ACTIVE_LOW),
{
    assert forall|i: u32| 2 <= i < words implies config_plan(words).contains(
        Access::Write(Reg::Dist(DistReg::ICfg(i)), LEVEL_ACTIVE_LOW),
    ) by {
        assert(config_plan(words)[i - 2] == Access::Write(Reg::Dist(DistReg::ICfg(i)), LEVEL_ACTIVE_LOW));
    }
}

/// Every priority word below `words` receives the default priority in all four byte
/// lanes, that is every implemented line's priority byte is 0xa0.
pub proof fn lemma_priority_plan(words: int)
    requires
        0 <= words,
    ensures
        forall|i: u32|
            i < words ==> priority_plan(words).contains(
                Access::Write(Reg::Dist(DistReg::IPriority(i)), DEFAULT_PRIORITY_WORD),
            ),
        forall|k: int|
            0 <= k < priority_plan(words).len() ==> (#[trigger] priority_plan(words)[k] matches Access::Write(
                Reg::Dist(DistReg::IPriority(i)),
                v,
            ) && i < words && v == DEFAULT_PRIORITY_WORD),
        DEFAULT_PRIORITY_WORD & 0xffu32 == 0xa0,
        (DEFAULT_PRIORITY_WORD >> 8u32) & 0xffu32 == 0xa0,
        (DEFAULT_PRIORITY_WORD >> 16u32) & 0xffu32 == 0xa0,
        (DEFAULT_PRIORITY_WORD >> 24u32) & 0xffu32 == 0xa0,
{
    assert forall|i: u32| i < words implies priority_plan(words).contains(
        Access::Write(Reg::Dist(DistReg::IPriority(i)), DEFAULT_PRIORITY_WORD),
    ) by {
        assert(priority_plan(words)[i as int] == Access::Write(Reg::Dist(DistReg::IPriority(i)), DEFAULT_PRIORITY_WORD));
    }
    assert(0xa0a0_a0a0u32 & 0xffu32 == 0xa0 && (0xa0a0_a0a0u32 >> 8u32) & 0xffu32 == 0xa0
        && (0xa0a0_a0a0u32 >> 16u32) & 0xffu32 == 0xa0 && (0xa0a0_a0a0u32 >> 24u32) & 0xffu32
        == 0xa0) by (bit_vector);
}

/// Every shared target word (index 8 up to `words`) receives the CPU byte in all four
/// lanes, and no banked target word (index below 8) is written.
pub proof fn lemma_route_plan(words: int, b: u32)
    requires
        BANKED_TARGETS <= words <= BYTE_ARRAY_WORDS,
        b < 256,
    ensures
        forall|i: u32|
            BANKED_TARGETS <= i < words ==> route_plan(words, replicate(b)).contains(
                Access::Write(Reg::Dist(DistReg::ITarget(i)), replicate(b)),
            ),
        forall|k: int|
            0 <= k < route_plan(words, replicate(b)).len() ==> (#[trigger] route_plan(words, replicate(b))[k] matches Access::Write(
                Reg::Dist(DistReg::ITarget(i)),
                v,
            ) && BANKED_TARGETS <= i < words && v == replicate(b)),
        replicate(b) & 0xffu32 == b,
        (replicate(b) >> 8u32) & 0xffu32 == b,
        (replicate(b) >> 16u32) & 0xffu32 == b,
        (replicate(b) >> 24u32) & 0xffu32 == b,
{
    assert forall|i: u32| BANKED_TARGETS <= i < words implies route_plan(words, replicate(b)).contains(
        Access::Write(Reg::Dist(DistReg::ITarget(i)), replicate(b)),
    ) by {
        assert(route_plan(words, replicate(b))[i - BANKED_TARGETS] == Access::Write(Reg::Dist(DistReg::ITarget(i)), replicate(b)));
    }
    assert(b < 256 ==> {
        let w = b | (b << 8u32) | (b << 16u32) | (b << 24u32);
        &&& w & 0xffu32 == b
        &&& (w >> 8u32) & 0xffu32 == b
        &&& (w >> 16u32) & 0xffu32 == b
        &&& (w >> 24u32) & 0xffu32 == b
    }) by (bit_vector);
}

} // verus!
