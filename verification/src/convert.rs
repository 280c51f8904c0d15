//! The output assembler: one pass over the source records, resolving each
//! name, transforming each template, interning asset names and override
//! colors, and keeping two ordered buffers. Deferred objects (explicitly
//! deferred templates, and invisible composite-rule objects) come after
//! every priority object in the final sequence; within each buffer the
//! order is first-produced. Unmapped names are counted by name.
//!
//! `spec_run` is the mathematical account of a whole run; `convert` returns
//! exactly its result.

use vstd::prelude::*;
use crate::intern::{AssetTable, ColorTable, spec_intern};
use crate::parse::{bytes_eq, clone_bytes};
use crate::rules::{Resolution, descs_view, reg_view, resolve, spec_map_brick};
use crate::transform::{spec_transform, transform};
use crate::types::{Brick, BrickDesc, BrickDescV, Color, RuleEntry, RuleEntryV, SourceBrick,
    SourceBrickV};

verus! {

/// The run-scoped state: the two interning tables, the two ordered output
/// buffers, the unmapped-name counts in first-seen order, and the two
/// counters.
pub ghost struct RunState {
    pub assets: Seq<Seq<u8>>,
    pub colors: Seq<Color>,
    pub prio: Seq<Brick>,
    pub defer: Seq<Brick>,
    pub unknown: Seq<(Seq<u8>, int)>,
    pub n_ok: int,
    pub n_fail: int,
}

/// The state a run starts from: empty but for the seeded color table.
pub open spec fn spec_init(palette: Seq<Color>) -> RunState {
    RunState {
        assets: Seq::empty(),
        colors: palette,
        prio: Seq::empty(),
        defer: Seq::empty(),
        unknown: Seq::empty(),
        n_ok: 0,
        n_fail: 0,
    }
}

/// Applying one template to one source record: intern its asset name,
/// intern its override color if it has one, transform, and append the
/// object to the deferred buffer when the template is deferred or is an
/// invisible composite-rule object, else to the priority buffer.
pub open spec fn spec_apply_desc(st: RunState, src: SourceBrickV, desc: BrickDescV) -> RunState {
    let ia = spec_intern(st.assets, desc.asset);
    let colors2 = match desc.color_override {
        Some(c) => spec_intern(st.colors, c).0,
        None => st.colors,
    };
    let brick = spec_transform(src, desc, ia.1 as usize);
    let st2 = RunState { assets: ia.0, colors: colors2, ..st };
    if desc.non_priority || (desc.modter && !brick.visibility) {
        RunState { defer: st2.defer.push(brick), ..st2 }
    } else {
        RunState { prio: st2.prio.push(brick), ..st2 }
    }
}

/// Applying the templates from position `j` on, in order.
pub open spec fn spec_apply_descs_from(
    st: RunState,
    src: SourceBrickV,
    descs: Seq<BrickDescV>,
    j: int,
) -> RunState
    decreases descs.len() - j,
{
    if j < 0 || j >= descs.len() {
        st
    } else {
        spec_apply_descs_from(spec_apply_desc(st, src, descs[j]), src, descs, j + 1)
    }
}

/// Applying a whole template list, in order.
pub open spec fn spec_apply_descs(st: RunState, src: SourceBrickV, descs: Seq<BrickDescV>) -> RunState {
    spec_apply_descs_from(st, src, descs, 0)
}

/// The first position at or after `i` in the unmapped-name list holding
/// `name`.
pub open spec fn spec_find_name(u: Seq<(Seq<u8>, int)>, name: Seq<u8>, i: int) -> Option<int>
    decreases u.len() - i,
{
    if i < 0 || i >= u.len() {
        None
    } else if u[i].0 == name {
        Some(i)
    } else {
        spec_find_name(u, name, i + 1)
    }
}

/// Recording one more occurrence of an unmapped name: bump its count, or
/// append it with count 1 when it is new.
pub open spec fn spec_bump_unknown(u: Seq<(Seq<u8>, int)>, name: Seq<u8>) -> Seq<(Seq<u8>, int)> {
    match spec_find_name(u, name, 0) {
        Some(j) => u.update(j, (u[j].0, u[j].1 + 1)),
        None => u.push((name, 1)),
    }
}

/// Processing one source record: resolve its name; on success apply every
/// template and count a success, else count a failure and record the name.
pub open spec fn spec_step(st: RunState, reg: Seq<RuleEntryV>, src: SourceBrickV) -> RunState {
    match spec_map_brick(reg, src) {
        Some(descs) => {
            let st2 = spec_apply_descs(st, src, descs);
            RunState { n_ok: st.n_ok + 1, ..st2 }
        },
        None => RunState {
            n_fail: st.n_fail + 1,
            unknown: spec_bump_unknown(st.unknown, src.ui_name),
            ..st
        },
    }
}

/// Processing the source records from position `i` on, in order.
pub open spec fn spec_run_from(
    reg: Seq<RuleEntryV>,
    srcs: Seq<SourceBrickV>,
    st: RunState,
    i: int,
) -> RunState
    decreases srcs.len() - i,
{
    if i < 0 || i >= srcs.len() {
        st
    } else {
        spec_run_from(reg, srcs, spec_step(st, reg, srcs[i]), i + 1)
    }
}

/// A whole run over a source stream, from the seeded initial state.
pub open spec fn spec_run(reg: Seq<RuleEntryV>, srcs: Seq<SourceBrickV>, palette: Seq<Color>) -> RunState {
    spec_run_from(reg, srcs, spec_init(palette), 0)
}

/// Applying templates never touches the counters or the unmapped-name
/// record.
pub proof fn lemma_apply_descs_keeps_counts(
    st: RunState,
    src: SourceBrickV,
    descs: Seq<BrickDescV>,
    j: int,
)
    ensures
        spec_apply_descs_from(st, src, descs, j).n_ok == st.n_ok,
        spec_apply_descs_from(st, src, descs, j).n_fail == st.n_fail,
        spec_apply_descs_from(st, src, descs, j).unknown == st.unknown,
    decreases descs.len() - j,
{
    if 0 <= j < descs.len() {
        lemma_apply_descs_keeps_counts(spec_apply_desc(st, src, descs[j]), src, descs, j + 1);
    }
}

proof fn lemma_run_counts_total(
    reg: Seq<RuleEntryV>,
    srcs: Seq<SourceBrickV>,
    st: RunState,
    i: int,
)
    requires
        0 <= i <= srcs.len(),
    ensures
        spec_run_from(reg, srcs, st, i).n_ok + spec_run_from(reg, srcs, st, i).n_fail == st.n_ok
            + st.n_fail + (srcs.len() - i),
    decreases srcs.len() - i,
{
    if i < srcs.len() {
        let st2 = spec_step(st, reg, srcs[i]);
        match spec_map_brick(reg, srcs[i]) {
            Some(descs) => {
                lemma_apply_descs_keeps_counts(st, srcs[i], descs, 0);
            },
            None => {},
        }
        assert(st2.n_ok + st2.n_fail == st.n_ok + st.n_fail + 1);
        lemma_run_counts_total(reg, srcs, st2, i + 1);
    }
}

/// Law: every source record is accounted for exactly once; over a whole
/// run, successes plus failures equal the number of records.
pub proof fn lemma_convert_counts_total(
    reg: Seq<RuleEntryV>,
    srcs: Seq<SourceBrickV>,
    palette: Seq<Color>,
)
    ensures
        spec_run(reg, srcs, palette).n_ok + spec_run(reg, srcs, palette).n_fail == srcs.len(),
{
    lemma_run_counts_total(reg, srcs, spec_init(palette), 0);
}

/// The mathematical image of a source list.
pub open spec fn srcs_view(v: Seq<SourceBrick>) -> Seq<SourceBrickV> {
    v.map_values(|s: SourceBrick| s@)
}

/// The mathematical image of the unmapped-name list.
pub open spec fn unknown_view(u: Seq<(Vec<u8>, usize)>) -> Seq<(Seq<u8>, int)> {
    u.map_values(|t: (Vec<u8>, usize)| (t.0@, t.1 as int))
}

/// The run-scoped mutable state of one conversion.
pub struct Converter {
    pub assets: AssetTable,
    pub colors: ColorTable,
    pub prio: Vec<Brick>,
    pub defer: Vec<Brick>,
    pub unknown: Vec<(Vec<u8>, usize)>,
    pub n_ok: usize,
    pub n_fail: usize,
}

impl Converter {
    /// The state this converter holds.
    pub open spec fn st(self) -> RunState {
        RunState {
            assets: self.assets.contents(),
            colors: self.colors.contents(),
            prio: self.prio@,
            defer: self.defer@,
            unknown: unknown_view(self.unknown@),
            n_ok: self.n_ok as int,
            n_fail: self.n_fail as int,
        }
    }

    /// Apply one template list to one source record.
    fn apply_descs(&mut self, src: &SourceBrick, descs: &Vec<BrickDesc>)
        ensures
            final(self).st() == spec_apply_descs(old(self).st(), src@, descs_view(descs@)),
            final(self).unknown == old(self).unknown,
            final(self).n_ok == old(self).n_ok,
            final(self).n_fail == old(self).n_fail,
    {
        let ghost dv = descs_view(descs@);
        let ghost st0 = old(self).st();
        let mut j: usize = 0;
        while j < descs.len()
            invariant
                0 <= j <= descs@.len(),
                dv == descs_view(descs@),
                spec_apply_descs(st0, src@, dv) == spec_apply_descs_from(self.st(), src@, dv,
                    j as int),
                self.unknown == old(self).unknown,
                self.n_ok == old(self).n_ok,
                self.n_fail == old(self).n_fail,
            decreases descs@.len() - j,
        {
            let ghost pre = self.st();
            let desc = &descs[j];
            let ai = self.assets.get_or_insert(&desc.asset);
            match desc.color_override {
                Some(c) => {
                    let _ci = self.colors.get_or_insert(c);
                },
                None => {},
            }
            let b = transform(src, desc, ai);
            if desc.non_priority || (desc.modter && !b.visibility) {
                self.defer.push(b);
            } else {
                self.prio.push(b);
            }
            proof {
                assert(self.st() == spec_apply_desc(pre, src@, dv[j as int]));
            }
            j = j + 1;
        }
    }
}

/// Record one more occurrence of an unmapped name. The ghost bound keeps
/// every count from overflowing: each count stays at most one above it.
fn bump_unknown(u: &mut Vec<(Vec<u8>, usize)>, name: &Vec<u8>, Ghost(bound): Ghost<int>)
    requires
        forall|j: int| 0 <= j < old(u)@.len() ==> #[trigger] old(u)@[j].1 <= bound,
        0 <= bound,
        bound + 1 <= usize::MAX,
    ensures
        unknown_view(final(u)@) == spec_bump_unknown(unknown_view(old(u)@), name@),
        forall|j: int| 0 <= j < final(u)@.len() ==> #[trigger] final(u)@[j].1 <= bound + 1,
{
    let ghost uv = unknown_view(u@);
    let ghost nm = name@;
    let mut j: usize = 0;
    while j < u.len()
        invariant
            0 <= j <= u@.len(),
            u == old(u),
            uv == unknown_view(u@),
            nm == name@,
            spec_find_name(uv, nm, 0) == spec_find_name(uv, nm, j as int),
            forall|m: int| 0 <= m < u@.len() ==> #[trigger] u@[m].1 <= bound,
            0 <= bound,
            bound + 1 <= usize::MAX,
        decreases u@.len() - j,
    {
        if bytes_eq(&u[j].0, name) {
            proof {
                assert(uv[j as int].0 == nm);
                assert(spec_find_name(uv, nm, 0) == Some(j as int));
                assert(u@[j as int].1 <= bound);
            }
            let entry = u.remove(j);
            let c = entry.1;
            u.insert(j, (entry.0, c + 1));
            proof {
                assert(unknown_view(u@) =~= uv.update(j as int, (uv[j as int].0, uv[
                    j as int].1 + 1)));
            }
            return ;
        }
        j = j + 1;
    }
    let key = clone_bytes(name);
    u.push((key, 1));
    proof {
        assert(unknown_view(u@) =~= uv.push((nm, 1)));
    }
}

/// Everything one run produces: the final object sequence (priority buffer
/// then deferred buffer), the interned asset-name table, the color table,
/// the unmapped-name counts in first-seen order, and the two counters.
pub struct ConvertReport {
    pub bricks: Vec<Brick>,
    pub brick_assets: Vec<Vec<u8>>,
    pub colors: Vec<Color>,
    pub unknown_ui_names: Vec<(Vec<u8>, usize)>,
    pub count_success: usize,
    pub count_failure: usize,
}

/// Convert a whole source stream: resolve, transform, and intern each
/// record in order against the literal registry and the pattern rules,
/// seeding the color table with the already-converted source palette.
pub fn convert(reg: &Vec<RuleEntry>, palette: Vec<Color>, sources: &Vec<SourceBrick>) -> (r:
    ConvertReport)
    ensures
        ({
            let fin = spec_run(reg_view(reg@), srcs_view(sources@), palette@);
            &&& r.bricks@ == fin.prio + fin.defer
            &&& r.brick_assets@.map_values(|v: Vec<u8>| v@) == fin.assets
            &&& r.colors@ == fin.colors
            &&& unknown_view(r.unknown_ui_names@) == fin.unknown
            &&& r.count_success == fin.n_ok
            &&& r.count_failure == fin.n_fail
        }),
{
    let ghost rv = reg_view(reg@);
    let ghost sv = srcs_view(sources@);
    let ghost fin = spec_run(rv, sv, palette@);
    let mut conv = Converter {
        assets: AssetTable::new(),
        colors: ColorTable::new(palette),
        prio: Vec::new(),
        defer: Vec::new(),
        unknown: Vec::new(),
        n_ok: 0,
        n_fail: 0,
    };
    proof {
        assert(conv.st().assets =~= Seq::<Seq<u8>>::empty());
        assert(conv.st().prio =~= Seq::<Brick>::empty());
        assert(conv.st().defer =~= Seq::<Brick>::empty());
        assert(conv.st().unknown =~= Seq::<(Seq<u8>, int)>::empty());
        assert(conv.st() == spec_init(palette@));
    }
    let n = sources.len();
    let mut i: usize = 0;
    while i < n
        invariant
            0 <= i <= n,
            n == sources@.len(),
            rv == reg_view(reg@),
            sv == srcs_view(sources@),
            fin == spec_run_from(rv, sv, conv.st(), i as int),
            conv.n_ok + conv.n_fail == i,
            forall|m: int| 0 <= m < conv.unknown@.len() ==> #[trigger] conv.unknown@[m].1
                <= conv.n_fail,
        decreases n - i,
    {
        let ghost pre = conv.st();
        let src = &sources[i];
        match resolve(reg, src) {
            Resolution::Literal(li) => {
                conv.apply_descs(src, &reg[li].bricks);
                conv.n_ok = conv.n_ok + 1;
            },
            Resolution::Generated(v) => {
                conv.apply_descs(src, &v);
                conv.n_ok = conv.n_ok + 1;
            },
            Resolution::Unmapped => {
                bump_unknown(&mut conv.unknown, &src.ui_name, Ghost(conv.n_fail as int));
                conv.n_fail = conv.n_fail + 1;
            },
        }
        proof {
            assert(conv.st() == spec_step(pre, rv, sv[i as int]));
        }
        i = i + 1;
    }
    let mut bricks = conv.prio;
    let mut rest = conv.defer;
    bricks.append(&mut rest);
    ConvertReport {
        bricks,
        brick_assets: conv.assets.names,
        colors: conv.colors.colors,
        unknown_ui_names: conv.unknown,
        count_success: conv.n_ok,
        count_failure: conv.n_fail,
    }
}

} // verus!
