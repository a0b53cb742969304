//! Bind groups of shader entry points: the bindings of a shader module
//! collected by group, and the groups that several entry points take from
//! one module, shared between them.

use vstd::prelude::*;
use vstd::set_lib::{lemma_int_range, lemma_subset_equality, set_int_range};

use crate::name_demangle::RustSourceItemPath;
use crate::options::{CreateModuleError, ShaderBindGroupRefKind};

verus! {

/// The abstract value of an optional string.
pub open spec fn opt_chars(o: Option<String>) -> Option<Seq<char>> {
    match o {
        Some(s) => Some(s@),
        None => None,
    }
}

/// Abstract binding: its variable name, the module and name of its Rust
/// item, its binding index, and the handle of its type.
pub type EntryView = (Option<Seq<char>>, Seq<char>, Seq<char>, u32, usize);

/// One resource binding of a bind group.
pub struct SingleBindGroupEntry {
    /// The name of the global variable, if it has one.
    pub name: Option<String>,
    /// The Rust item that the binding's type becomes.
    pub item_path: RustSourceItemPath,
    /// The `@binding(..)` index.
    pub binding_index: u32,
    /// The handle of the binding's type in the shader module's type arena.
    pub binding_type: usize,
}

impl View for SingleBindGroupEntry {
    type V = EntryView;

    open spec fn view(&self) -> EntryView {
        (
            opt_chars(self.name),
            self.item_path.module@,
            self.item_path.name@,
            self.binding_index,
            self.binding_type,
        )
    }
}

impl Clone for SingleBindGroupEntry {
    fn clone(&self) -> (r: Self)
        ensures
            r@ == self@,
    {
        let name = match &self.name {
            Some(n) => Some(n.clone()),
            None => None,
        };
        SingleBindGroupEntry {
            name,
            item_path: self.item_path.clone(),
            binding_index: self.binding_index,
            binding_type: self.binding_type,
        }
    }
}

/// The abstract values of a list of bindings.
pub open spec fn entries_view(es: Seq<SingleBindGroupEntry>) -> Seq<EntryView> {
    Seq::new(es.len(), |i: int| es[i]@)
}

/// The bindings of one bind group, in the order of the shader's globals.
pub struct SingleBindGroupData {
    pub bindings: Vec<SingleBindGroupEntry>,
}

impl View for SingleBindGroupData {
    type V = Seq<EntryView>;

    open spec fn view(&self) -> Seq<EntryView> {
        entries_view(self.bindings@)
    }
}

/// A copy of a list of bindings.
fn clone_entries(bs: &Vec<SingleBindGroupEntry>) -> (r: Vec<SingleBindGroupEntry>)
    ensures
        entries_view(r@) == entries_view(bs@),
{
    let mut out: Vec<SingleBindGroupEntry> = Vec::new();
    let mut i: usize = 0;
    while i < bs.len()
        invariant
            i <= bs@.len(),
            entries_view(out@) == entries_view(bs@).take(i as int),
        decreases bs@.len() - i,
    {
        let e = bs[i].clone();
        let ghost before = entries_view(out@);
        out.push(e);
        assert(entries_view(out@) =~= before.push(e@));
        assert(entries_view(bs@).take(i + 1) =~= entries_view(bs@).take(i as int).push(
            bs@[i as int]@,
        ));
        i += 1;
    }
    assert(entries_view(bs@).take(i as int) =~= entries_view(bs@));
    out
}

impl Clone for SingleBindGroupData {
    fn clone(&self) -> (r: Self)
        ensures
            r@ == self@,
    {
        SingleBindGroupData { bindings: clone_entries(&self.bindings) }
    }
}

/// Whether all bindings have their item in the module of the first.
pub open spec fn all_same_module(bs: Seq<EntryView>) -> bool {
    forall|i: int| 0 <= i < bs.len() ==> #[trigger] bs[i].1 == bs[0].1
}

impl SingleBindGroupData {
    /// The module of the first binding's item.
    pub fn first_module(&self) -> (m: String)
        requires
            self@.len() > 0,
        ensures
            m@ == self@[0].1,
    {
        self.bindings[0].item_path.module.clone()
    }

    /// Whether all bindings have their item in the module of the first.
    pub fn are_all_same_module(&self) -> (r: bool)
        requires
            self@.len() > 0,
        ensures
            r == all_same_module(self@),
    {
        let first = self.first_module();
        let mut i: usize = 0;
        while i < self.bindings.len()
            invariant
                i <= self.bindings@.len(),
                first@ == self@[0].1,
                forall|j: int| 0 <= j < i ==> #[trigger] self@[j].1 == self@[0].1,
            decreases self.bindings@.len() - i,
        {
            let same = self.bindings[i].item_path.module == first;
            if !same {
                assert(self@[i as int].1 != self@[0].1);
                return false;
            }
            i += 1;
        }
        true
    }
}

/// A global variable of a shader module that has a resource binding: its
/// `@group(..)` and what its binding becomes.
pub struct BoundGlobal {
    pub group: u32,
    pub entry: SingleBindGroupEntry,
}

/// Abstract bound global: its group and its binding.
pub type GlobalView = (u32, EntryView);

/// The abstract values of a list of bound globals.
pub open spec fn globals_view(gs: Seq<BoundGlobal>) -> Seq<GlobalView> {
    Seq::new(gs.len(), |i: int| (gs[i].group, gs[i].entry@))
}

/// The bindings of group `g`, in order.
pub open spec fn group_entries(gs: Seq<GlobalView>, g: u32) -> Seq<EntryView>
    decreases gs.len(),
{
    if gs.len() == 0 {
        Seq::empty()
    } else if gs.last().0 == g {
        group_entries(gs.drop_last(), g).push(gs.last().1)
    } else {
        group_entries(gs.drop_last(), g)
    }
}

/// Whether some global binds index `b` in group `g`.
pub open spec fn has_binding(gs: Seq<GlobalView>, g: u32, b: u32) -> bool {
    exists|j: int| 0 <= j < gs.len() && gs[j].0 == g && #[trigger] gs[j].1.3 == b
}

/// The binding index of the first global that binds an index of its group
/// that an earlier global already binds.
pub open spec fn first_duplicate(gs: Seq<GlobalView>) -> Option<u32>
    decreases gs.len(),
{
    if gs.len() == 0 {
        None
    } else {
        match first_duplicate(gs.drop_last()) {
            Some(b) => Some(b),
            None => if has_binding(gs.drop_last(), gs.last().0, gs.last().1.3) {
                Some(gs.last().1.3)
            } else {
                None
            },
        }
    }
}

/// The group numbers that occur.
pub open spec fn group_set(gs: Seq<GlobalView>) -> Set<int>
    decreases gs.len(),
{
    if gs.len() == 0 {
        Set::empty()
    } else {
        group_set(gs.drop_last()).insert(gs.last().0 as int)
    }
}

/// Whether the group numbers that occur are `0, 1, ..., n - 1`.
pub open spec fn groups_consecutive(gs: Seq<GlobalView>) -> bool {
    group_set(gs) == set_int_range(0, group_set(gs).len() as int)
}

/// The bind groups of one shader entry point, indexed by group number.
pub struct RawShaderEntryBindGroups {
    pub containing_module: String,
    /// The shader stages of the entry point, as `wgpu::ShaderStages` bits.
    pub shader_stages: u32,
    pub bind_group_data: Vec<SingleBindGroupData>,
}

proof fn lemma_group_set_finite(gs: Seq<GlobalView>)
    ensures
        group_set(gs).finite(),
        forall|h: int| group_set(gs).contains(h) ==> 0 <= h <= u32::MAX,
    decreases gs.len(),
{
    if gs.len() > 0 {
        lemma_group_set_finite(gs.drop_last());
    }
}

proof fn lemma_group_entries_absent(gs: Seq<GlobalView>, g: u32)
    requires
        !group_set(gs).contains(g as int),
    ensures
        group_entries(gs, g) == Seq::<EntryView>::empty(),
    decreases gs.len(),
{
    if gs.len() > 0 {
        lemma_group_entries_absent(gs.drop_last(), g);
    }
}

proof fn lemma_group_entries_nonempty(gs: Seq<GlobalView>, g: u32)
    requires
        group_set(gs).contains(g as int),
    ensures
        group_entries(gs, g).len() > 0,
    decreases gs.len(),
{
    if gs.len() > 0 && gs.last().0 != g {
        lemma_group_entries_nonempty(gs.drop_last(), g);
    }
}

proof fn lemma_has_binding_entries(gs: Seq<GlobalView>, g: u32, b: u32)
    ensures
        has_binding(gs, g, b) <==> exists|k: int|
            0 <= k < group_entries(gs, g).len() && #[trigger] group_entries(gs, g)[k].3 == b,
    decreases gs.len(),
{
    if gs.len() > 0 {
        let init = gs.drop_last();
        lemma_has_binding_entries(init, g, b);
        let e = group_entries(init, g);
        if has_binding(gs, g, b) {
            let j = choose|j: int| 0 <= j < gs.len() && gs[j].0 == g && #[trigger] gs[j].1.3 == b;
            if j < gs.len() - 1 {
                assert(init[j].1.3 == b);
                let k = choose|k: int| 0 <= k < e.len() && #[trigger] e[k].3 == b;
                if gs.last().0 == g {
                    assert(group_entries(gs, g)[k].3 == b);
                }
            } else {
                assert(group_entries(gs, g)[e.len() as int].3 == b);
            }
        }
        if exists|k: int| 0 <= k < group_entries(gs, g).len() && #[trigger] group_entries(gs, g)[k].3 == b {
            let k = choose|k: int| 0 <= k < group_entries(gs, g).len() && #[trigger] group_entries(gs, g)[k].3 == b;
            if gs.last().0 == g && k == e.len() {
                assert(gs[gs.len() - 1].1.3 == b);
            } else {
                assert(e[k].3 == b);
                let j = choose|j: int| 0 <= j < init.len() && init[j].0 == g && #[trigger] init[j].1.3 == b;
                assert(gs[j].1.3 == b);
            }
        }
    }
}

proof fn lemma_first_duplicate_prefix(gs: Seq<GlobalView>, k: int)
    requires
        0 <= k <= gs.len(),
        first_duplicate(gs.take(k)) is Some,
    ensures
        first_duplicate(gs) == first_duplicate(gs.take(k)),
    decreases gs.len() - k,
{
    if k < gs.len() {
        assert(gs.take(k + 1).drop_last() =~= gs.take(k));
        lemma_first_duplicate_prefix(gs, k + 1);
    } else {
        assert(gs.take(k) =~= gs);
    }
}

/// The position of `g` in `keys`, if it occurs.
fn find_key(keys: &Vec<u32>, g: u32) -> (r: Option<usize>)
    ensures
        match r {
            Some(p) => p < keys@.len() && keys@[p as int] == g,
            None => !keys@.contains(g),
        },
{
    let mut p: usize = 0;
    while p < keys.len()
        invariant
            p <= keys@.len(),
            forall|q: int| 0 <= q < p ==> keys@[q] != g,
        decreases keys@.len() - p,
    {
        if keys[p] == g {
            return Some(p);
        }
        p += 1;
    }
    None
}

/// Whether a binding of the list has index `b`.
fn binds_index(bs: &Vec<SingleBindGroupEntry>, b: u32) -> (r: bool)
    ensures
        r == exists|k: int| 0 <= k < bs@.len() && #[trigger] entries_view(bs@)[k].3 == b,
{
    let mut k: usize = 0;
    while k < bs.len()
        invariant
            k <= bs@.len(),
            forall|q: int| 0 <= q < k ==> #[trigger] entries_view(bs@)[q].3 != b,
        decreases bs@.len() - k,
    {
        if bs[k].binding_index == b {
            assert(entries_view(bs@)[k as int].3 == b);
            return true;
        }
        k += 1;
    }
    false
}


/// Collects the bindings of a shader module's bound globals by group.
///
/// Fails with `DuplicateBinding` at the first global that binds an index
/// that an earlier global of its group binds, and with
/// `NonConsecutiveBindGroups` unless the groups are `0, 1, ..., n - 1`
/// (wgpu expects them so). Otherwise group `g` of the result holds the
/// bindings of group `g` in the order of the globals.
pub fn get_bind_group_data_for_entry(
    globals: &Vec<BoundGlobal>,
    shader_stages: u32,
    module_name: &str,
) -> (r: Result<RawShaderEntryBindGroups, CreateModuleError>)
    ensures
        match first_duplicate(globals_view(globals@)) {
            Some(b) => r == Err::<RawShaderEntryBindGroups, CreateModuleError>(
                CreateModuleError::DuplicateBinding { binding: b },
            ),
            None => if !groups_consecutive(globals_view(globals@)) {
                r == Err::<RawShaderEntryBindGroups, CreateModuleError>(
                    CreateModuleError::NonConsecutiveBindGroups,
                )
            } else {
                r matches Ok(d) && {
                    &&& d.containing_module@ == module_name@
                    &&& d.shader_stages == shader_stages
                    &&& d.bind_group_data@.len() == group_set(globals_view(globals@)).len()
                    &&& forall|g: int|
                        0 <= g < d.bind_group_data@.len() ==> #[trigger] d.bind_group_data@[g]@
                            == group_entries(globals_view(globals@), g as u32)
                }
            },
        },
{
    let ghost gv = globals_view(globals@);
    let mut keys: Vec<u32> = Vec::new();
    let mut vals: Vec<Vec<SingleBindGroupEntry>> = Vec::new();
    let mut i: usize = 0;
    proof {
        assert(gv.take(0) =~= Seq::<GlobalView>::empty());
    }
    while i < globals.len()
        invariant
            i <= globals@.len(),
            gv == globals_view(globals@),
            keys@.len() == vals@.len(),
            keys@.no_duplicates(),
            group_set(gv.take(i as int)).finite(),
            group_set(gv.take(i as int)).len() == keys@.len(),
            forall|h: int| #[trigger]
                group_set(gv.take(i as int)).contains(h) <==> (0 <= h <= u32::MAX
                    && keys@.contains(h as u32)),
            forall|p: int|
                0 <= p < vals@.len() ==> entries_view(#[trigger] vals@[p]@) == group_entries(
                    gv.take(i as int),
                    keys@[p],
                ),
            first_duplicate(gv.take(i as int)) is None,
        decreases globals@.len() - i,
    {
        let ghost pre = gv.take(i as int);
        assert(gv.take(i + 1) =~= pre.push(gv[i as int]));
        assert(gv.take(i + 1).drop_last() =~= pre);
        let g = globals[i].group;
        let b = globals[i].entry.binding_index;
        match find_key(&keys, g) {
            Some(p) => {
                proof {
                    lemma_has_binding_entries(pre, g, b);
                }
                if binds_index(&vals[p], b) {
                    proof {
                        lemma_first_duplicate_prefix(gv, i + 1);
                    }
                    return Err(CreateModuleError::DuplicateBinding { binding: b });
                }
                let e = globals[i].entry.clone();
                let ghost before = vals@;
                let mut group: Vec<SingleBindGroupEntry> = Vec::new();
                std::mem::swap(&mut group, &mut vals[p]);
                group.push(e);
                vals.set(p, group);
                proof {
                    assert(group_set(pre.push(gv[i as int])) =~= group_set(pre));
                    assert forall|q: int| 0 <= q < vals@.len() implies entries_view(
                        #[trigger] vals@[q]@,
                    ) == group_entries(gv.take(i + 1), keys@[q]) by {
                        if q == p {
                            assert(entries_view(vals@[q]@) =~= entries_view(before[q]@).push(e@));
                        } else {
                            assert(vals@[q] == before[q]);
                        }
                    }
                }
            },
            None => {
                let e = globals[i].entry.clone();
                proof {
                    lemma_group_set_finite(pre);
                    lemma_group_entries_absent(pre, g);
                    lemma_has_binding_entries(pre, g, b);
                    assert(!group_set(pre).contains(g as int));
                }
                let ghost before_keys = keys@;
                let ghost before = vals@;
                keys.push(g);
                let mut group: Vec<SingleBindGroupEntry> = Vec::new();
                group.push(e);
                vals.push(group);
                proof {
                    assert(entries_view(group@) =~= seq![e@]);
                    assert forall|x: int, y: int|
                        0 <= x < keys@.len() && 0 <= y < keys@.len() && x != y implies keys@[x]
                        != keys@[y] by {
                        if x == keys@.len() - 1 {
                            assert(before_keys.contains(keys@[y]));
                        } else if y == keys@.len() - 1 {
                            assert(before_keys.contains(keys@[x]));
                        }
                    }
                    assert forall|h: int| #[trigger]
                        group_set(gv.take(i + 1)).contains(h) <==> (0 <= h <= u32::MAX
                            && keys@.contains(h as u32)) by {
                        if h == g as int {
                            assert(keys@[keys@.len() - 1] == g);
                        } else if 0 <= h <= u32::MAX && keys@.contains(h as u32) {
                            let q = choose|q: int| 0 <= q < keys@.len() && keys@[q] == h as u32;
                            assert(q < before_keys.len());
                            assert(before_keys.contains(h as u32));
                        } else if group_set(pre).contains(h) {
                            let q = choose|q: int| 0 <= q < before_keys.len() && before_keys[q] == h as u32;
                            assert(keys@[q] == h as u32);
                        }
                    }
                    assert forall|q: int| 0 <= q < vals@.len() implies entries_view(
                        #[trigger] vals@[q]@,
                    ) == group_entries(gv.take(i + 1), keys@[q]) by {
                        if q < before.len() {
                            assert(vals@[q] == before[q]);
                            assert(keys@[q] != g);
                        }
                    }
                }
            },
        }
        i += 1;
    }
    assert(gv.take(i as int) =~= gv);
    let n = keys.len();
    // The groups are consecutive exactly when every group number is below
    // their count.
    let mut p: usize = 0;
    while p < n
        invariant
            p <= n,
            n == keys@.len(),
            gv == globals_view(globals@),
            first_duplicate(gv) is None,
            group_set(gv).finite(),
            group_set(gv).len() == n,
            forall|h: int| #[trigger]
                group_set(gv).contains(h) <==> (0 <= h <= u32::MAX && keys@.contains(h as u32)),
            forall|q: int| 0 <= q < p ==> keys@[q] < n,
        decreases n - p,
    {
        if keys[p] as usize >= n {
            proof {
                assert(keys@.contains(keys@[p as int]));
                assert(group_set(gv).contains(keys@[p as int] as int));
                assert(!set_int_range(0, group_set(gv).len() as int).contains(
                    keys@[p as int] as int,
                ));
            }
            return Err(CreateModuleError::NonConsecutiveBindGroups);
        }
        p += 1;
    }
    proof {
        lemma_int_range(0, n as int);
        assert forall|h: int| group_set(gv).contains(h) implies set_int_range(0, n as int).contains(h) by {
            let q = choose|q: int| 0 <= q < keys@.len() && keys@[q] == h as u32;
        }
        lemma_subset_equality(group_set(gv), set_int_range(0, n as int));
    }
    let mut data: Vec<SingleBindGroupData> = Vec::new();
    let mut g: usize = 0;
    while g < n
        invariant
            g <= n,
            n == keys@.len(),
            gv == globals_view(globals@),
            first_duplicate(gv) is None,
            n == group_set(gv).len(),
            keys@.len() == vals@.len(),
            group_set(gv) == set_int_range(0, n as int),
            forall|h: int| #[trigger]
                group_set(gv).contains(h) <==> (0 <= h <= u32::MAX && keys@.contains(h as u32)),
            forall|q: int|
                0 <= q < vals@.len() ==> entries_view(#[trigger] vals@[q]@) == group_entries(
                    gv,
                    keys@[q],
                ),
            data@.len() == g,
            forall|x: int| 0 <= x < g ==> #[trigger] data@[x]@ == group_entries(gv, x as u32),
        decreases n - g,
    {
        assert(group_set(gv).contains(g as int));
        let q = match find_key(&keys, g as u32) {
            Some(q) => q,
            None => {
                assert(false);
                0
            },
        };
        let group = SingleBindGroupData { bindings: clone_entries(&vals[q]) };
        data.push(group);
        g += 1;
    }
    Ok(RawShaderEntryBindGroups {
        containing_module: crate::text::string_of(&crate::text::chars_of(module_name)),
        shader_stages,
        bind_group_data: data,
    })
}


// ─── merging the groups that several entry points share ─────────────────────

/// Where a stable insertion by binding index puts a binding with index `k`:
/// after every binding whose index is at most `k`.
pub open spec fn binding_insert_pos(sorted: Seq<EntryView>, k: u32) -> int
    decreases sorted.len(),
{
    if sorted.len() == 0 {
        0
    } else if sorted.last().3 <= k {
        sorted.len() as int
    } else {
        binding_insert_pos(sorted.drop_last(), k)
    }
}

/// The bindings stably sorted by binding index.
pub open spec fn sort_by_binding(es: Seq<EntryView>) -> Seq<EntryView>
    decreases es.len(),
{
    if es.len() == 0 {
        Seq::empty()
    } else {
        let rest = sort_by_binding(es.drop_last());
        rest.insert(binding_insert_pos(rest, es.last().3), es.last())
    }
}

/// Whether two bindings have the same index, item and name.
pub open spec fn same_binding(a: EntryView, b: EntryView) -> bool {
    a.3 == b.3 && a.1 == b.1 && a.2 == b.2 && a.0 == b.0
}

/// The bindings without each one that repeats the binding kept before it.
pub open spec fn dedup_bindings(es: Seq<EntryView>) -> Seq<EntryView>
    decreases es.len(),
{
    if es.len() == 0 {
        Seq::empty()
    } else {
        let rest = dedup_bindings(es.drop_last());
        if rest.len() > 0 && same_binding(es.last(), rest.last()) {
            rest
        } else {
            rest.push(es.last())
        }
    }
}

/// Two versions of a group merged: all their bindings sorted by index, each
/// binding that repeats its predecessor dropped.
pub open spec fn merged_group(a: Seq<EntryView>, b: Seq<EntryView>) -> Seq<EntryView> {
    dedup_bindings(sort_by_binding(a + b))
}

/// Whether two bindings have the same index, item and name.
fn same_binding_exec(a: &SingleBindGroupEntry, b: &SingleBindGroupEntry) -> (r: bool)
    ensures
        r == same_binding(a@, b@),
{
    if a.binding_index != b.binding_index {
        return false;
    }
    if !(a.item_path.module == b.item_path.module) || !(a.item_path.name == b.item_path.name) {
        return false;
    }
    match (&a.name, &b.name) {
        (Some(x), Some(y)) => *x == *y,
        (None, None) => true,
        _ => false,
    }
}

/// The bindings of two versions of a group, merged.
fn merge_bind_groups(existing: &SingleBindGroupData, new_group: &SingleBindGroupData) -> (r:
    SingleBindGroupData)
    ensures
        r@ == merged_group(existing@, new_group@),
{
    let mut all = clone_entries(&existing.bindings);
    let more = clone_entries(&new_group.bindings);
    let ghost a = all@;
    let mut i: usize = 0;
    while i < more.len()
        invariant
            i <= more@.len(),
            entries_view(more@) == new_group@,
            entries_view(all@) == existing@ + new_group@.take(i as int),
        decreases more@.len() - i,
    {
        let e = more[i].clone();
        let ghost before = entries_view(all@);
        all.push(e);
        assert(entries_view(all@) =~= before.push(e@));
        assert(new_group@.take(i + 1) =~= new_group@.take(i as int).push(new_group@[i as int]));
        assert(existing@ + new_group@.take(i + 1) =~= (existing@ + new_group@.take(i as int)).push(
            new_group@[i as int],
        ));
        i += 1;
    }
    assert(new_group@.take(i as int) =~= new_group@);
    let ghost joined = entries_view(all@);
    // Stable insertion sort by binding index.
    let mut sorted: Vec<SingleBindGroupEntry> = Vec::new();
    let mut k: usize = 0;
    while k < all.len()
        invariant
            k <= all@.len(),
            joined == entries_view(all@),
            entries_view(sorted@) == sort_by_binding(joined.take(k as int)),
        decreases all@.len() - k,
    {
        assert(joined.take(k + 1).drop_last() =~= joined.take(k as int));
        let key = all[k].binding_index;
        let ghost sv = entries_view(sorted@);
        let mut p = sorted.len();
        assert(sv.take(p as int) =~= sv);
        while p > 0 && sorted[p - 1].binding_index > key
            invariant
                p <= sorted@.len(),
                sv == entries_view(sorted@),
                binding_insert_pos(sv, key) == binding_insert_pos(sv.take(p as int), key),
            decreases p,
        {
            assert(sv.take(p as int).drop_last() =~= sv.take(p - 1));
            p -= 1;
        }
        proof {
            if p > 0 {
                assert(sv.take(p as int).last() == sv[p - 1]);
            }
        }
        let e = all[k].clone();
        sorted.insert(p, e);
        assert(entries_view(sorted@) =~= sv.insert(p as int, e@));
        k += 1;
    }
    assert(joined.take(k as int) =~= joined);
    // Drop each binding that repeats the one kept before it.
    let ghost srt = entries_view(sorted@);
    let mut out: Vec<SingleBindGroupEntry> = Vec::new();
    let mut j: usize = 0;
    while j < sorted.len()
        invariant
            j <= sorted@.len(),
            srt == entries_view(sorted@),
            entries_view(out@) == dedup_bindings(srt.take(j as int)),
        decreases sorted@.len() - j,
    {
        assert(srt.take(j + 1).drop_last() =~= srt.take(j as int));
        let ghost ov = entries_view(out@);
        let repeat = out.len() > 0 && same_binding_exec(&sorted[j], &out[out.len() - 1]);
        if !repeat {
            let e = sorted[j].clone();
            out.push(e);
            assert(entries_view(out@) =~= ov.push(e@));
        }
        j += 1;
    }
    assert(srt.take(j as int) =~= srt);
    SingleBindGroupData { bindings: out }
}


// ─── the bind groups of all entry points ────────────────────────────────────

/// Abstract entry-point bind groups: module, stages and groups by number.
pub type RawView = (Seq<char>, u32, Seq<Seq<EntryView>>);

/// The abstract values of a list of groups.
pub open spec fn groups_view(gs: Seq<SingleBindGroupData>) -> Seq<Seq<EntryView>> {
    Seq::new(gs.len(), |i: int| gs[i]@)
}

impl View for RawShaderEntryBindGroups {
    type V = RawView;

    open spec fn view(&self) -> RawView {
        (self.containing_module@, self.shader_stages, groups_view(self.bind_group_data@))
    }
}

/// The position of the entry point of module `m`, if one was added.
pub open spec fn module_position(l: Seq<RawView>, m: Seq<char>) -> Option<int>
    decreases l.len(),
{
    if l.len() == 0 {
        None
    } else if l.last().0 == m {
        Some(l.len() - 1)
    } else {
        module_position(l.drop_last(), m)
    }
}

proof fn lemma_module_position(l: Seq<RawView>, m: Seq<char>)
    ensures
        match module_position(l, m) {
            Some(i) => 0 <= i < l.len() && l[i].0 == m,
            None => forall|k: int| 0 <= k < l.len() ==> #[trigger] l[k].0 != m,
        },
    decreases l.len(),
{
    if l.len() > 0 {
        lemma_module_position(l.drop_last(), m);
        if l.last().0 != m {
            assert forall|k: int| 0 <= k < l.len() - 1 implies #[trigger] l[k].0 == l.drop_last()[k].0 by {}
        }
    }
}

/// Whether no two entry points have the same module.
pub open spec fn modules_distinct(l: Seq<RawView>) -> bool {
    forall|i: int, j: int| 0 <= i < j < l.len() ==> #[trigger] l[i].0 != #[trigger] l[j].0
}

/// The bind groups of all entry points, one per module, in the order in
/// which their modules were first added.
pub struct RawShadersBindGroups {
    entrypoint_bindgroups: Vec<RawShaderEntryBindGroups>,
}

impl View for RawShadersBindGroups {
    type V = Seq<RawView>;

    closed spec fn view(&self) -> Seq<RawView> {
        Seq::new(self.entrypoint_bindgroups@.len(), |i: int| self.entrypoint_bindgroups@[i]@)
    }
}

impl RawShadersBindGroups {
    #[verifier::type_invariant]
    closed spec fn one_per_module(self) -> bool {
        modules_distinct(self@)
    }

    /// No entry points yet.
    pub fn new() -> (r: Self)
        ensures
            r@ == Seq::<RawView>::empty(),
    {
        let r = RawShadersBindGroups { entrypoint_bindgroups: Vec::new() };
        assert(r@ =~= Seq::<RawView>::empty());
        r
    }

    /// Adds the bind groups of an entry point; those of an entry point of
    /// the same module are replaced in place.
    pub fn add(&mut self, shader: RawShaderEntryBindGroups)
        ensures
            modules_distinct(final(self)@),
            final(self)@ == match module_position(old(self)@, shader@.0) {
                Some(i) => old(self)@.update(i, shader@),
                None => old(self)@.push(shader@),
            },
    {
        proof {
            use_type_invariant(&*self);
        }
        let ghost old_view = self@;
        let mut i: usize = self.entrypoint_bindgroups.len();
        assert(old_view.take(i as int) =~= old_view);
        while i > 0
            invariant
                i <= self.entrypoint_bindgroups@.len(),
                old_view == self@,
                module_position(old_view, shader@.0) == module_position(old_view.take(i as int), shader@.0),
            ensures
                i <= self.entrypoint_bindgroups@.len(),
                old_view == self@,
                module_position(old_view, shader@.0) == module_position(old_view.take(i as int), shader@.0),
                i > 0 ==> old_view[i - 1].0 == shader@.0,
            decreases i,
        {
            assert(old_view.take(i as int).drop_last() =~= old_view.take(i - 1));
            if self.entrypoint_bindgroups[i - 1].containing_module == shader.containing_module {
                assert(old_view[i - 1].0 == shader@.0);
                break;
            }
            i -= 1;
        }
        proof {
            lemma_module_position(old_view, shader@.0);
            if i > 0 {
                assert(old_view.take(i as int).last() == old_view[i - 1]);
            }
        }
        let ghost sv = shader@;
        let mut list: Vec<RawShaderEntryBindGroups> = Vec::new();
        std::mem::swap(&mut list, &mut self.entrypoint_bindgroups);
        if i > 0 {
            list.set(i - 1, shader);
        } else {
            list.push(shader);
        }
        let ghost new_view = Seq::new(list@.len(), |k: int| list@[k]@);
        proof {
            if i > 0 {
                assert(new_view =~= old_view.update(i - 1, sv));
                assert forall|a: int, b: int| 0 <= a < b < new_view.len() implies #[trigger] new_view[a].0
                    != #[trigger] new_view[b].0 by {
                    assert(new_view[a].0 == old_view[a].0);
                    assert(new_view[b].0 == old_view[b].0);
                }
            } else {
                assert(new_view =~= old_view.push(sv));
                assert forall|a: int, b: int| 0 <= a < b < new_view.len() implies #[trigger] new_view[a].0
                    != #[trigger] new_view[b].0 by {
                    assert(new_view[a].0 == old_view[a].0);
                    if b < old_view.len() {
                        assert(new_view[b].0 == old_view[b].0);
                    }
                }
            }
        }
        self.entrypoint_bindgroups = list;
    }
}


// ─── sharing groups between entry points ────────────────────────────────────

/// The candidates for sharing after one more entry point: each of its
/// groups whose bindings are not all of the entry point's own module is
/// merged into the candidate with its number, or becomes it.
pub open spec fn merge_shader_groups(
    m: Map<int, Seq<EntryView>>,
    module: Seq<char>,
    groups: Seq<Seq<EntryView>>,
) -> Map<int, Seq<EntryView>>
    decreases groups.len(),
{
    if groups.len() == 0 {
        m
    } else {
        let m1 = merge_shader_groups(m, module, groups.drop_last());
        let g = groups.len() - 1;
        let grp = groups.last();
        if all_same_module(grp) && grp[0].1 == module {
            m1
        } else if m1.contains_key(g) {
            m1.insert(g, merged_group(m1[g], grp))
        } else {
            m1.insert(g, grp)
        }
    }
}

/// The candidates for sharing, by group number, over all entry points.
pub open spec fn shared_candidates(shaders: Seq<RawView>) -> Map<int, Seq<EntryView>>
    decreases shaders.len(),
{
    if shaders.len() == 0 {
        Map::empty()
    } else {
        merge_shader_groups(
            shared_candidates(shaders.drop_last()),
            shaders.last().0,
            shaders.last().2,
        )
    }
}

/// The shared groups: the candidates whose bindings are all of one module.
pub open spec fn common_groups(shaders: Seq<RawView>) -> Map<int, Seq<EntryView>> {
    let c = shared_candidates(shaders);
    Map::new(|g: int| c.contains_key(g) && all_same_module(c[g]), |g: int| c[g])
}

/// The largest number of groups of an entry point.
pub open spec fn group_bound(shaders: Seq<RawView>) -> nat
    decreases shaders.len(),
{
    if shaders.len() == 0 {
        0
    } else {
        let b = group_bound(shaders.drop_last());
        if b < shaders.last().2.len() {
            shaders.last().2.len()
        } else {
            b
        }
    }
}

/// Abstract shared group: its module, its number and its bindings.
pub type CommonView = (Seq<char>, usize, Seq<EntryView>);

/// The position of the shared group of module `m`, if there is one.
pub open spec fn common_position(l: Seq<CommonView>, m: Seq<char>) -> Option<int>
    decreases l.len(),
{
    if l.len() == 0 {
        None
    } else if l.last().0 == m {
        Some(l.len() - 1)
    } else {
        common_position(l.drop_last(), m)
    }
}

/// The shared groups with a number below `n`, taken by increasing number
/// and kept by module: a later group of a module takes the place of an
/// earlier one.
pub open spec fn common_list_upto(c: Map<int, Seq<EntryView>>, n: nat) -> Seq<CommonView>
    decreases n,
{
    if n == 0 {
        Seq::empty()
    } else {
        let l = common_list_upto(c, (n - 1) as nat);
        let g = n - 1;
        if c.contains_key(g) {
            let m = c[g][0].1;
            let v = (m, g as usize, c[g]);
            match common_position(l, m) {
                Some(i) => l.update(i, v),
                None => l.push(v),
            }
        } else {
            l
        }
    }
}

/// How an entry point refers to its group `g`: to the shared group of its
/// number when that group's first binding is of the same module as its own
/// first binding, and to its own group otherwise.
pub open spec fn group_ref(c: Map<int, Seq<EntryView>>, g: int, grp: Seq<EntryView>) -> (
    ShaderBindGroupRefKind,
    Seq<EntryView>,
) {
    if c.contains_key(g) && grp[0].1 == c[g][0].1 {
        (ShaderBindGroupRefKind::Common, c[g])
    } else {
        (ShaderBindGroupRefKind::Entrypoint, grp)
    }
}

/// Abstract bind groups of an entry point after sharing: its module, its
/// stages, how it refers to each of its groups, and its own groups.
pub type EntryGroupsView = (
    Seq<char>,
    u32,
    Seq<(ShaderBindGroupRefKind, Seq<EntryView>)>,
    Seq<Seq<EntryView>>,
);

/// The bind groups of one entry point after sharing.
pub open spec fn entry_groups(c: Map<int, Seq<EntryView>>, shader: RawView) -> EntryGroupsView {
    (
        shader.0,
        shader.1,
        Seq::new(shader.2.len(), |g: int| group_ref(c, g, shader.2[g])),
        shader.2,
    )
}

/// Abstract bind groups after sharing: the shared groups and the entry
/// points.
pub type ReusableView = (Seq<CommonView>, Seq<EntryGroupsView>);

/// The bind groups of the entry points after sharing.
pub open spec fn reusable_bind_groups(shaders: Seq<RawView>) -> ReusableView {
    let c = common_groups(shaders);
    (
        common_list_upto(c, group_bound(shaders)),
        Seq::new(shaders.len(), |i: int| entry_groups(c, shaders[i])),
    )
}

/// A group shared by several entry points, which lives in the module of its
/// bindings.
pub struct CommonShaderBindGroups {
    pub containing_module: String,
    pub group_no: usize,
    pub bind_group_data: SingleBindGroupData,
}

impl View for CommonShaderBindGroups {
    type V = CommonView;

    open spec fn view(&self) -> CommonView {
        (self.containing_module@, self.group_no, self.bind_group_data@)
    }
}

/// How an entry point refers to one of its groups.
pub struct ShaderBindGroupRef {
    pub kind: ShaderBindGroupRefKind,
    pub data: SingleBindGroupData,
}

/// The bind groups of an entry point after sharing.
pub struct ShaderEntryBindGroups {
    pub containing_module: String,
    pub shader_stages: u32,
    /// How the entry point refers to each of its groups, by number.
    pub bind_group_ref: Vec<ShaderBindGroupRef>,
    /// The entry point's own groups, by number.
    pub original_bind_group: Vec<SingleBindGroupData>,
}

impl View for ShaderEntryBindGroups {
    type V = EntryGroupsView;

    open spec fn view(&self) -> EntryGroupsView {
        (
            self.containing_module@,
            self.shader_stages,
            Seq::new(
                self.bind_group_ref@.len(),
                |g: int| (self.bind_group_ref@[g].kind, self.bind_group_ref@[g].data@),
            ),
            groups_view(self.original_bind_group@),
        )
    }
}

/// The bind groups of all entry points after sharing.
pub struct ReusableShaderBindGroups {
    pub common_bind_groups: Vec<CommonShaderBindGroups>,
    pub entrypoint_bindgroups: Vec<ShaderEntryBindGroups>,
}

impl View for ReusableShaderBindGroups {
    type V = ReusableView;

    open spec fn view(&self) -> ReusableView {
        (
            Seq::new(self.common_bind_groups@.len(), |i: int| self.common_bind_groups@[i]@),
            Seq::new(self.entrypoint_bindgroups@.len(), |i: int| self.entrypoint_bindgroups@[i]@),
        )
    }
}

/// The groups held in a list indexed by group number.
pub open spec fn slot_map(s: Seq<Option<SingleBindGroupData>>) -> Map<int, Seq<EntryView>> {
    Map::new(|g: int| 0 <= g < s.len() && s[g] is Some, |g: int| s[g]->0@)
}

proof fn lemma_sort_by_binding_len(es: Seq<EntryView>)
    ensures
        sort_by_binding(es).len() == es.len(),
    decreases es.len(),
{
    if es.len() > 0 {
        lemma_sort_by_binding_len(es.drop_last());
        lemma_binding_insert_pos(sort_by_binding(es.drop_last()), es.last().3);
    }
}

proof fn lemma_binding_insert_pos(sorted: Seq<EntryView>, k: u32)
    ensures
        0 <= binding_insert_pos(sorted, k) <= sorted.len(),
    decreases sorted.len(),
{
    if sorted.len() > 0 {
        lemma_binding_insert_pos(sorted.drop_last(), k);
    }
}

proof fn lemma_dedup_nonempty(es: Seq<EntryView>)
    requires
        es.len() > 0,
    ensures
        dedup_bindings(es).len() > 0,
{
}

proof fn lemma_merged_nonempty(a: Seq<EntryView>, b: Seq<EntryView>)
    requires
        a.len() > 0,
    ensures
        merged_group(a, b).len() > 0,
{
    lemma_sort_by_binding_len(a + b);
    lemma_dedup_nonempty(sort_by_binding(a + b));
}


/// The abstract values of a list of entry-point bind groups.
pub open spec fn raws_view(v: Seq<RawShaderEntryBindGroups>) -> Seq<RawView> {
    Seq::new(v.len(), |i: int| v[i]@)
}

/// Whether every group of every entry point has a binding.
pub open spec fn groups_nonempty(shaders: Seq<RawView>) -> bool {
    forall|i: int, g: int|
        0 <= i < shaders.len() && 0 <= g < shaders[i].2.len() ==> #[trigger] shaders[i].2[g].len() > 0
}

/// Whether every group held in the slots has a binding.
pub open spec fn slots_nonempty(s: Seq<Option<SingleBindGroupData>>) -> bool {
    forall|g: int| 0 <= g < s.len() && #[trigger] s[g] is Some ==> s[g]->0@.len() > 0
}

/// Merges the groups of one entry point into the candidates for sharing.
fn merge_shader_into(cands: &mut Vec<Option<SingleBindGroupData>>, shader: &RawShaderEntryBindGroups)
    requires
        slots_nonempty(old(cands)@),
        forall|g: int| 0 <= g < shader@.2.len() ==> #[trigger] shader@.2[g].len() > 0,
    ensures
        slots_nonempty(final(cands)@),
        final(cands)@.len() == if old(cands)@.len() < shader@.2.len() {
            shader@.2.len()
        } else {
            old(cands)@.len()
        },
        slot_map(final(cands)@) == merge_shader_groups(
            slot_map(old(cands)@),
            shader@.0,
            shader@.2,
        ),
{
    let ghost m0 = slot_map(cands@);
    while cands.len() < shader.bind_group_data.len()
        invariant
            slot_map(cands@) == m0,
            slots_nonempty(cands@),
            old(cands)@.len() <= cands@.len(),
            old(cands)@.len() < shader@.2.len() ==> cands@.len() <= shader@.2.len(),
            old(cands)@.len() >= shader@.2.len() ==> cands@.len() == old(cands)@.len(),
        decreases shader@.2.len() - cands@.len(),
    {
        let ghost before = cands@;
        cands.push(None);
        assert(slot_map(cands@) =~= slot_map(before));
    }
    let ghost gs = shader@.2;
    let mut g: usize = 0;
    assert(gs.take(0) =~= Seq::<Seq<EntryView>>::empty());
    while g < shader.bind_group_data.len()
        invariant
            g <= gs.len(),
            gs == shader@.2,
            gs.len() <= cands@.len(),
            forall|h: int| 0 <= h < gs.len() ==> #[trigger] gs[h].len() > 0,
            cands@.len() == if old(cands)@.len() < shader@.2.len() {
                shader@.2.len()
            } else {
                old(cands)@.len()
            },
            slots_nonempty(cands@),
            slot_map(cands@) == merge_shader_groups(m0, shader@.0, gs.take(g as int)),
        decreases gs.len() - g,
    {
        assert(gs.take(g + 1).drop_last() =~= gs.take(g as int));
        let grp = &shader.bind_group_data[g];
        assert(grp@ == gs[g as int]);
        let own = grp.are_all_same_module() && grp.first_module() == shader.containing_module;
        let ghost before = cands@;
        if !own {
            let merged = match &cands[g] {
                Some(existing) => merge_bind_groups(existing, grp),
                None => grp.clone(),
            };
            proof {
                if before[g as int] is Some {
                    lemma_merged_nonempty(before[g as int]->0@, grp@);
                }
            }
            cands.set(g, Some(merged));
            assert(slot_map(cands@) =~= slot_map(before).insert(g as int, merged@));
        }
        g += 1;
    }
    assert(gs.take(g as int) =~= gs);
}

/// Collects the candidates for sharing over all entry points, by group
/// number.
fn collect_candidates(shaders: &Vec<RawShaderEntryBindGroups>) -> (cands: Vec<Option<SingleBindGroupData>>)
    requires
        groups_nonempty(raws_view(shaders@)),
    ensures
        slots_nonempty(cands@),
        cands@.len() == group_bound(raws_view(shaders@)),
        slot_map(cands@) == shared_candidates(raws_view(shaders@)),
{
    let ghost sv = raws_view(shaders@);
    let mut cands: Vec<Option<SingleBindGroupData>> = Vec::new();
    let mut i: usize = 0;
    assert(slot_map(cands@) =~= Map::<int, Seq<EntryView>>::empty());
    assert(sv.take(0) =~= Seq::<RawView>::empty());
    while i < shaders.len()
        invariant
            i <= sv.len(),
            sv == raws_view(shaders@),
            groups_nonempty(sv),
            slots_nonempty(cands@),
            cands@.len() == group_bound(sv.take(i as int)),
            slot_map(cands@) == shared_candidates(sv.take(i as int)),
        decreases sv.len() - i,
    {
        assert(sv.take(i + 1).drop_last() =~= sv.take(i as int));
        assert(sv[i as int] == shaders@[i as int]@);
        assert forall|g: int| 0 <= g < shaders@[i as int]@.2.len() implies #[trigger] shaders@[i as int]@.2[g].len() > 0 by {
            assert(sv[i as int].2[g].len() > 0);
        }
        merge_shader_into(&mut cands, &shaders[i]);
        i += 1;
    }
    assert(sv.take(i as int) =~= sv);
    cands
}

/// Drops the candidates whose bindings are not all of one module.
fn retain_common(cands: &mut Vec<Option<SingleBindGroupData>>)
    requires
        slots_nonempty(old(cands)@),
    ensures
        slots_nonempty(final(cands)@),
        final(cands)@.len() == old(cands)@.len(),
        slot_map(final(cands)@) == Map::new(
            |g: int| slot_map(old(cands)@).contains_key(g) && all_same_module(slot_map(old(cands)@)[g]),
            |g: int| slot_map(old(cands)@)[g],
        ),
{
    let ghost m0 = slot_map(cands@);
    let mut g: usize = 0;
    while g < cands.len()
        invariant
            g <= cands@.len(),
            cands@.len() == old(cands)@.len(),
            m0 == slot_map(old(cands)@),
            slots_nonempty(cands@),
            slot_map(cands@) == Map::new(
                |h: int| m0.contains_key(h) && (h >= g || all_same_module(m0[h])),
                |h: int| m0[h],
            ),
        decreases cands@.len() - g,
    {
        let drop = match &cands[g] {
            Some(d) => !d.are_all_same_module(),
            None => false,
        };
        let ghost before = cands@;
        proof {
            if before[g as int] is Some {
                assert(slot_map(before).contains_key(g as int));
                assert(m0.contains_key(g as int));
                assert(slot_map(before)[g as int] == m0[g as int]);
            } else {
                assert(!slot_map(before).contains_key(g as int));
            }
        }
        if drop {
            cands.set(g, None);
        }
        proof {
            let target = Map::new(
                |h: int| m0.contains_key(h) && (h >= g + 1 || all_same_module(m0[h])),
                |h: int| m0[h],
            );
            assert forall|h: int| #[trigger] slot_map(cands@).contains_key(h) <==> target.contains_key(h) by {
                if h != g {
                    if 0 <= h < cands@.len() {
                        assert(cands@[h] == before[h]);
                    }
                    assert(slot_map(before).contains_key(h) <==> target.contains_key(h));
                }
            }
            assert forall|h: int| #[trigger] slot_map(cands@).contains_key(h) implies slot_map(cands@)[h] == target[h] by {
                assert(cands@[h] == before[h]);
                assert(slot_map(before).contains_key(h));
                assert(slot_map(before)[h] == m0[h]);
            }
            assert(slot_map(cands@) =~= target);
        }
        g += 1;
    }
    assert(slot_map(cands@) =~= Map::new(
        |h: int| m0.contains_key(h) && all_same_module(m0[h]),
        |h: int| m0[h],
    ));
}


/// The shared groups, taken by increasing number and kept by module.
fn common_list(cands: &Vec<Option<SingleBindGroupData>>) -> (l: Vec<CommonShaderBindGroups>)
    requires
        slots_nonempty(cands@),
    ensures
        Seq::new(l@.len(), |i: int| l@[i]@) == common_list_upto(slot_map(cands@), cands@.len()),
{
    let ghost c = slot_map(cands@);
    let mut l: Vec<CommonShaderBindGroups> = Vec::new();
    let mut g: usize = 0;
    assert(Seq::new(l@.len(), |i: int| l@[i]@) =~= Seq::<CommonView>::empty());
    while g < cands.len()
        invariant
            g <= cands@.len(),
            c == slot_map(cands@),
            slots_nonempty(cands@),
            Seq::new(l@.len(), |i: int| l@[i]@) == common_list_upto(c, g as nat),
        decreases cands@.len() - g,
    {
        let ghost lv = Seq::new(l@.len(), |i: int| l@[i]@);
        match &cands[g] {
            Some(d) => {
                assert(c.contains_key(g as int) && c[g as int] == d@);
                let m = d.first_module();
                let mut p: usize = l.len();
                assert(lv.take(p as int) =~= lv);
                while p > 0
                    invariant
                        p <= l@.len(),
                        lv == Seq::new(l@.len(), |i: int| l@[i]@),
                        common_position(lv, m@) == common_position(lv.take(p as int), m@),
                    ensures
                        p <= l@.len(),
                        common_position(lv, m@) == common_position(lv.take(p as int), m@),
                        p > 0 ==> lv[p - 1].0 == m@,
                    decreases p,
                {
                    assert(lv.take(p as int).drop_last() =~= lv.take(p - 1));
                    if l[p - 1].containing_module == m {
                        assert(lv[p - 1].0 == m@);
                        break;
                    }
                    p -= 1;
                }
                proof {
                    if p > 0 {
                        assert(lv.take(p as int).last() == lv[p - 1]);
                    }
                }
                let entry = CommonShaderBindGroups {
                    containing_module: m,
                    group_no: g,
                    bind_group_data: d.clone(),
                };
                let ghost ev = entry@;
                if p > 0 {
                    l.set(p - 1, entry);
                    assert(Seq::new(l@.len(), |i: int| l@[i]@) =~= lv.update(p - 1, ev));
                } else {
                    l.push(entry);
                    assert(Seq::new(l@.len(), |i: int| l@[i]@) =~= lv.push(ev));
                }
            },
            None => {
                assert(!c.contains_key(g as int));
            },
        }
        g += 1;
    }
    l
}

/// How an entry point refers to each of its groups, given the shared
/// groups by number.
fn entry_groups_exec(
    common: &Vec<Option<SingleBindGroupData>>,
    shader: &RawShaderEntryBindGroups,
) -> (r: ShaderEntryBindGroups)
    requires
        shader@.2.len() <= common@.len(),
        forall|g: int| 0 <= g < shader@.2.len() ==> #[trigger] shader@.2[g].len() > 0,
        slots_nonempty(common@),
    ensures
        r@ == entry_groups(slot_map(common@), shader@),
{
    let ghost c = slot_map(common@);
    let mut refs: Vec<ShaderBindGroupRef> = Vec::new();
    let mut originals: Vec<SingleBindGroupData> = Vec::new();
    let mut g: usize = 0;
    while g < shader.bind_group_data.len()
        invariant
            g <= shader@.2.len(),
            shader@.2.len() <= common@.len(),
            c == slot_map(common@),
            slots_nonempty(common@),
            forall|h: int| 0 <= h < shader@.2.len() ==> #[trigger] shader@.2[h].len() > 0,
            refs@.len() == g,
            originals@.len() == g,
            forall|h: int|
                0 <= h < g ==> (#[trigger] refs@[h].kind, refs@[h].data@) == group_ref(
                    c,
                    h,
                    shader@.2[h],
                ),
            forall|h: int| 0 <= h < g ==> #[trigger] originals@[h]@ == shader@.2[h],
        decreases shader@.2.len() - g,
    {
        let grp = &shader.bind_group_data[g];
        assert(grp@ == shader@.2[g as int]);
        let r = match &common[g] {
            Some(cg) => {
                assert(c.contains_key(g as int) && c[g as int] == cg@);
                if grp.first_module() == cg.first_module() {
                    ShaderBindGroupRef { kind: ShaderBindGroupRefKind::Common, data: cg.clone() }
                } else {
                    ShaderBindGroupRef { kind: ShaderBindGroupRefKind::Entrypoint, data: grp.clone() }
                }
            },
            None => {
                assert(!c.contains_key(g as int));
                ShaderBindGroupRef { kind: ShaderBindGroupRefKind::Entrypoint, data: grp.clone() }
            },
        };
        refs.push(r);
        originals.push(grp.clone());
        g += 1;
    }
    let r = ShaderEntryBindGroups {
        containing_module: shader.containing_module.clone(),
        shader_stages: shader.shader_stages,
        bind_group_ref: refs,
        original_bind_group: originals,
    };
    assert(r@.2 =~= entry_groups(c, shader@).2);
    assert(r@.3 =~= shader@.2);
    r
}

proof fn lemma_group_bound(shaders: Seq<RawView>, i: int)
    requires
        0 <= i < shaders.len(),
    ensures
        shaders[i].2.len() <= group_bound(shaders),
    decreases shaders.len(),
{
    if i < shaders.len() - 1 {
        lemma_group_bound(shaders.drop_last(), i);
    }
}

impl RawShadersBindGroups {
    /// Shares the groups that entry points take from one module.
    ///
    /// A group of an entry point whose bindings are not all of the entry
    /// point's own module is a candidate for its number; candidates with one
    /// number are merged (see [`merged_group`]). A merged candidate whose
    /// bindings are all of one module is shared: it lives in that module,
    /// and each entry point whose group of that number starts with a binding
    /// of that module refers to it. Every other group stays the entry
    /// point's own.
    ///
    /// Every group of every entry point must have a binding.
    pub fn create_reusable_shader_bind_groups(self) -> (r: ReusableShaderBindGroups)
        requires
            groups_nonempty(self@),
        ensures
            r@ == reusable_bind_groups(self@),
    {
        let ghost sv = self@;
        assert(sv =~= raws_view(self.entrypoint_bindgroups@));
        let mut cands = collect_candidates(&self.entrypoint_bindgroups);
        retain_common(&mut cands);
        let ghost c = slot_map(cands@);
        assert(c =~= common_groups(sv));
        let common = common_list(&cands);
        let mut entries: Vec<ShaderEntryBindGroups> = Vec::new();
        let mut i: usize = 0;
        while i < self.entrypoint_bindgroups.len()
            invariant
                i <= sv.len(),
                sv == raws_view(self.entrypoint_bindgroups@),
                groups_nonempty(sv),
                cands@.len() == group_bound(sv),
                c == slot_map(cands@),
                slots_nonempty(cands@),
                entries@.len() == i,
                forall|k: int| 0 <= k < i ==> #[trigger] entries@[k]@ == entry_groups(c, sv[k]),
            decreases sv.len() - i,
        {
            proof {
                lemma_group_bound(sv, i as int);
                assert(sv[i as int] == self.entrypoint_bindgroups@[i as int]@);
            }
            let e = entry_groups_exec(&cands, &self.entrypoint_bindgroups[i]);
            entries.push(e);
            i += 1;
        }
        let r = ReusableShaderBindGroups { common_bind_groups: common, entrypoint_bindgroups: entries };
        assert(r@.1 =~= reusable_bind_groups(sv).1);
        r
    }
}


// ─── what is generated for the bind groups ──────────────────────────────────

/// A bind group for which a module of its own is generated: the module it
/// lives in, its number and its bindings.
pub struct BindGroupItem {
    pub containing_module: String,
    pub group_no: usize,
    pub bind_group_data: SingleBindGroupData,
}

/// Abstract generated bind group.
pub type BindGroupItemView = (Seq<char>, usize, Seq<EntryView>);

impl View for BindGroupItem {
    type V = BindGroupItemView;

    open spec fn view(&self) -> BindGroupItemView {
        (self.containing_module@, self.group_no, self.bind_group_data@)
    }
}

/// The groups of one entry point that are its own, with their numbers, in
/// the order of their numbers.
pub open spec fn own_groups(e: EntryGroupsView, n: int) -> Seq<BindGroupItemView>
    decreases n,
{
    if n <= 0 {
        Seq::empty()
    } else if e.2[n - 1].0 == ShaderBindGroupRefKind::Entrypoint {
        own_groups(e, n - 1).push((e.0, (n - 1) as usize, e.2[n - 1].1))
    } else {
        own_groups(e, n - 1)
    }
}

/// The own groups of the first `n` entry points.
pub open spec fn all_own_groups(es: Seq<EntryGroupsView>, n: int) -> Seq<BindGroupItemView>
    decreases n,
{
    if n <= 0 {
        Seq::empty()
    } else {
        all_own_groups(es, n - 1) + own_groups(es[n - 1], es[n - 1].2.len() as int)
    }
}

/// The bind groups for which modules are generated: every shared group,
/// then the own groups of each entry point.
pub open spec fn generated_groups(r: ReusableView) -> Seq<BindGroupItemView> {
    r.0 + all_own_groups(r.1, r.1.len() as int)
}

impl ReusableShaderBindGroups {
    /// The bind groups for which modules are generated: every shared group
    /// in its module, then each entry point's own groups in the entry
    /// point's module.
    pub fn generated_bind_groups(&self) -> (items: Vec<BindGroupItem>)
        ensures
            Seq::new(items@.len(), |i: int| items@[i]@) == generated_groups(self@),
    {
        let ghost rv = self@;
        let mut items: Vec<BindGroupItem> = Vec::new();
        let mut i: usize = 0;
        while i < self.common_bind_groups.len()
            invariant
                i <= self.common_bind_groups@.len(),
                rv == self@,
                Seq::new(items@.len(), |k: int| items@[k]@) == rv.0.take(i as int),
            decreases self.common_bind_groups@.len() - i,
        {
            let c = &self.common_bind_groups[i];
            let item = BindGroupItem {
                containing_module: c.containing_module.clone(),
                group_no: c.group_no,
                bind_group_data: c.bind_group_data.clone(),
            };
            let ghost before = Seq::new(items@.len(), |k: int| items@[k]@);
            items.push(item);
            assert(Seq::new(items@.len(), |k: int| items@[k]@) =~= before.push(rv.0[i as int]));
            assert(rv.0.take(i + 1) =~= rv.0.take(i as int).push(rv.0[i as int]));
            i += 1;
        }
        assert(rv.0.take(i as int) =~= rv.0);
        let mut e: usize = 0;
        while e < self.entrypoint_bindgroups.len()
            invariant
                e <= self.entrypoint_bindgroups@.len(),
                rv == self@,
                Seq::new(items@.len(), |k: int| items@[k]@) == rv.0 + all_own_groups(rv.1, e as int),
            decreases self.entrypoint_bindgroups@.len() - e,
        {
            let entry = &self.entrypoint_bindgroups[e];
            let ghost ev = rv.1[e as int];
            assert(ev == entry@);
            let ghost base = Seq::new(items@.len(), |k: int| items@[k]@);
            let mut g: usize = 0;
            while g < entry.bind_group_ref.len()
                invariant
                    g <= entry.bind_group_ref@.len(),
                    ev == entry@,
                    Seq::new(items@.len(), |k: int| items@[k]@) == base + own_groups(ev, g as int),
                decreases entry.bind_group_ref@.len() - g,
            {
                let ghost before = Seq::new(items@.len(), |k: int| items@[k]@);
                if entry.bind_group_ref[g].kind == ShaderBindGroupRefKind::Entrypoint {
                    let item = BindGroupItem {
                        containing_module: entry.containing_module.clone(),
                        group_no: g,
                        bind_group_data: entry.bind_group_ref[g].data.clone(),
                    };
                    items.push(item);
                    assert(Seq::new(items@.len(), |k: int| items@[k]@) =~= before.push(
                        (ev.0, g, ev.2[g as int].1),
                    ));
                    assert(base + own_groups(ev, g + 1) =~= (base + own_groups(ev, g as int)).push(
                        (ev.0, g, ev.2[g as int].1),
                    ));
                }
                g += 1;
            }
            assert(rv.0 + all_own_groups(rv.1, e + 1) =~= base + own_groups(ev, ev.2.len() as int));
            e += 1;
        }
        items
    }
}

/// A field of an entry point's `WgpuBindGroups` struct: the group number and,
/// for a shared group, the module it lives in.
pub struct BindGroupField {
    pub group_no: usize,
    pub common_module: Option<String>,
}

/// The extra items generated for an entry point's bind groups.
pub enum BindGroupsExtraItem {
    /// The `SetBindGroup` trait.
    SetBindGroupTrait,
    /// The entry point's `WgpuBindGroups` struct, with one field per group.
    WgpuBindGroups { containing_module: String, fields: Vec<BindGroupField> },
    /// `SetBindGroup` for compute passes.
    ComputePassImpl,
    /// `SetBindGroup` for render passes.
    RenderPassImpl,
    /// `SetBindGroup` for render bundle encoders.
    RenderBundleEncoderImpl,
}

/// Abstract extra item; fields are `(group number, shared module)`.
pub enum ExtraItemView {
    SetBindGroupTrait,
    WgpuBindGroups(Seq<char>, Seq<(usize, Option<Seq<char>>)>),
    ComputePassImpl,
    RenderPassImpl,
    RenderBundleEncoderImpl,
}

impl View for BindGroupsExtraItem {
    type V = ExtraItemView;

    open spec fn view(&self) -> ExtraItemView {
        match self {
            BindGroupsExtraItem::SetBindGroupTrait => ExtraItemView::SetBindGroupTrait,
            BindGroupsExtraItem::WgpuBindGroups { containing_module, fields } => ExtraItemView::WgpuBindGroups(
                containing_module@,
                Seq::new(fields@.len(), |i: int| (fields@[i].group_no, opt_chars(fields@[i].common_module))),
            ),
            BindGroupsExtraItem::ComputePassImpl => ExtraItemView::ComputePassImpl,
            BindGroupsExtraItem::RenderPassImpl => ExtraItemView::RenderPassImpl,
            BindGroupsExtraItem::RenderBundleEncoderImpl => ExtraItemView::RenderBundleEncoderImpl,
        }
    }
}

/// The `wgpu::ShaderStages` bit of the vertex stage.
pub open spec fn vertex_bit() -> u32 {
    1
}

/// The `wgpu::ShaderStages` bit of the fragment stage.
pub open spec fn fragment_bit() -> u32 {
    2
}

/// The `wgpu::ShaderStages` bit of the compute stage.
pub open spec fn compute_bit() -> u32 {
    4
}

/// The field of the `WgpuBindGroups` struct for group `g`.
pub open spec fn group_field(g: int, r: (ShaderBindGroupRefKind, Seq<EntryView>)) -> (usize, Option<Seq<char>>) {
    (
        g as usize,
        if r.0 == ShaderBindGroupRefKind::Common {
            Some(r.1[0].1)
        } else {
            None
        },
    )
}

/// The extra items of an entry point: none without groups; otherwise the
/// `SetBindGroup` trait, the `WgpuBindGroups` struct, the compute pass impl
/// for a compute entry point and the two render impls for one with a vertex
/// or fragment stage.
pub open spec fn module_extras(e: EntryGroupsView) -> Seq<ExtraItemView> {
    if e.2.len() == 0 {
        Seq::empty()
    } else {
        let fields = Seq::new(e.2.len(), |g: int| group_field(g, e.2[g]));
        let base = seq![ExtraItemView::SetBindGroupTrait, ExtraItemView::WgpuBindGroups(e.0, fields)];
        let with_compute = if e.1 & compute_bit() != 0 {
            base.push(ExtraItemView::ComputePassImpl)
        } else {
            base
        };
        if e.1 & (vertex_bit() | fragment_bit()) != 0 {
            with_compute.push(ExtraItemView::RenderPassImpl).push(ExtraItemView::RenderBundleEncoderImpl)
        } else {
            with_compute
        }
    }
}

/// The extras of an entry point with bind groups start with the
/// `SetBindGroup` trait and the `WgpuBindGroups` struct; they hold the
/// `SetBindGroup` impls for `wgpu::RenderPass` and
/// `wgpu::RenderBundleEncoder` exactly when the entry point's stages
/// include the vertex (bit 1) or the fragment (bit 2) stage, and the one
/// for `wgpu::ComputePass` exactly when they include the compute stage
/// (bit 4). An entry point without bind groups has no extras.
pub proof fn law_extras_follow_the_shader_stages(e: EntryGroupsView)
    ensures
        e.2.len() == 0 ==> module_extras(e).len() == 0,
        e.2.len() > 0 ==> {
            let x = module_extras(e);
            &&& x[0] == ExtraItemView::SetBindGroupTrait
            &&& x[1] is WgpuBindGroups
            &&& (x.contains(ExtraItemView::RenderPassImpl) <==> (e.1 & 1 != 0 || e.1 & 2 != 0))
            &&& (x.contains(ExtraItemView::RenderBundleEncoderImpl) <==> (e.1 & 1 != 0 || e.1 & 2 != 0))
            &&& (x.contains(ExtraItemView::ComputePassImpl) <==> e.1 & 4 != 0)
        },
{
    if e.2.len() > 0 {
        let s = e.1;
        assert((s & (1u32 | 2u32) != 0) == (s & 1 != 0 || s & 2 != 0)) by (bit_vector);
        let x = module_extras(e);
        let has_render = s & (vertex_bit() | fragment_bit()) != 0;
        let has_compute = s & compute_bit() != 0;
        assert(x.len() >= 2);
        assert(x[0] == ExtraItemView::SetBindGroupTrait);
        if x.contains(ExtraItemView::RenderPassImpl) && !has_render {
            let i = choose|i: int| 0 <= i < x.len() && x[i] == ExtraItemView::RenderPassImpl;
            assert(false);
        }
        if has_render {
            assert(x[x.len() - 2] == ExtraItemView::RenderPassImpl);
            assert(x[x.len() - 1] == ExtraItemView::RenderBundleEncoderImpl);
        }
        if x.contains(ExtraItemView::RenderBundleEncoderImpl) && !has_render {
            let i = choose|i: int| 0 <= i < x.len() && x[i] == ExtraItemView::RenderBundleEncoderImpl;
            assert(false);
        }
        if has_compute {
            assert(x[2] == ExtraItemView::ComputePassImpl);
        }
        if x.contains(ExtraItemView::ComputePassImpl) && !has_compute {
            let i = choose|i: int| 0 <= i < x.len() && x[i] == ExtraItemView::ComputePassImpl;
            assert(false);
        }
    }
}

/// Whether every group that an entry point refers to has a binding.
pub open spec fn refs_nonempty(e: EntryGroupsView) -> bool {
    forall|g: int| 0 <= g < e.2.len() ==> #[trigger] e.2[g].1.len() > 0
}

impl ShaderEntryBindGroups {
    /// The extra items generated for the entry point's bind groups.
    pub fn module_extras(&self) -> (items: Vec<BindGroupsExtraItem>)
        requires
            refs_nonempty(self@),
        ensures
            Seq::new(items@.len(), |i: int| items@[i]@) == module_extras(self@),
    {
        let ghost ev = self@;
        let mut items: Vec<BindGroupsExtraItem> = Vec::new();
        if self.bind_group_ref.len() == 0 {
            assert(Seq::new(items@.len(), |i: int| items@[i]@) =~= module_extras(ev));
            return items;
        }
        let mut fields: Vec<BindGroupField> = Vec::new();
        let mut g: usize = 0;
        while g < self.bind_group_ref.len()
            invariant
                g <= self.bind_group_ref@.len(),
                ev == self@,
                refs_nonempty(ev),
                fields@.len() == g,
                forall|h: int| 0 <= h < g ==> (#[trigger] fields@[h].group_no, opt_chars(fields@[h].common_module))
                    == group_field(h, ev.2[h]),
            decreases self.bind_group_ref@.len() - g,
        {
            let r = &self.bind_group_ref[g];
            assert(ev.2[g as int] == (r.kind, r.data@));
            assert(ev.2[g as int].1.len() > 0);
            let common_module = if r.kind == ShaderBindGroupRefKind::Common {
                Some(r.data.first_module())
            } else {
                None
            };
            fields.push(BindGroupField { group_no: g, common_module });
            g += 1;
        }
        let ghost fv = Seq::new(fields@.len(), |i: int| (fields@[i].group_no, opt_chars(fields@[i].common_module)));
        assert(fv =~= Seq::new(ev.2.len(), |h: int| group_field(h, ev.2[h])));
        items.push(BindGroupsExtraItem::SetBindGroupTrait);
        items.push(BindGroupsExtraItem::WgpuBindGroups {
            containing_module: self.containing_module.clone(),
            fields,
        });
        let ghost base = seq![ExtraItemView::SetBindGroupTrait, ExtraItemView::WgpuBindGroups(ev.0, fv)];
        assert(Seq::new(items@.len(), |i: int| items@[i]@) =~= base);
        if self.shader_stages & 4 != 0 {
            items.push(BindGroupsExtraItem::ComputePassImpl);
        }
        let ghost with_compute = Seq::new(items@.len(), |i: int| items@[i]@);
        assert(with_compute =~= if ev.1 & compute_bit() != 0 {
            base.push(ExtraItemView::ComputePassImpl)
        } else {
            base
        });
        if self.shader_stages & 3 != 0 {
            items.push(BindGroupsExtraItem::RenderPassImpl);
            items.push(BindGroupsExtraItem::RenderBundleEncoderImpl);
        }
        assert((vertex_bit() | fragment_bit()) == 3) by (bit_vector);
        assert(Seq::new(items@.len(), |i: int| items@[i]@) =~= module_extras(ev));
        items
    }
}


// ─── laws ───────────────────────────────────────────────────────────────────

/// When no global repeats a binding of its group, every group that
/// [`get_bind_group_data_for_entry`] returns binds each index at most once.
pub proof fn law_groups_bind_each_index_once(gs: Seq<GlobalView>, g: u32)
    requires
        first_duplicate(gs) is None,
    ensures
        forall|i: int, j: int|
            0 <= i < j < group_entries(gs, g).len() ==> #[trigger] group_entries(gs, g)[i].3
                != #[trigger] group_entries(gs, g)[j].3,
    decreases gs.len(),
{
    if gs.len() > 0 {
        let init = gs.drop_last();
        assert(first_duplicate(init) is None);
        law_groups_bind_each_index_once(init, g);
        if gs.last().0 == g {
            lemma_has_binding_entries(init, g, gs.last().1.3);
            let e = group_entries(init, g);
            assert(group_entries(gs, g) == e.push(gs.last().1));
            assert forall|i: int, j: int|
                0 <= i < j < group_entries(gs, g).len() implies #[trigger] group_entries(gs, g)[i].3
                    != #[trigger] group_entries(gs, g)[j].3 by {
                if j == e.len() {
                    assert(group_entries(gs, g)[i] == e[i]);
                    assert(!(e[i].3 == gs.last().1.3));
                } else {
                    assert(group_entries(gs, g)[i] == e[i]);
                    assert(group_entries(gs, g)[j] == e[j]);
                }
            }
        }
    }
}

/// Whether every candidate has a binding.
pub open spec fn candidates_nonempty(m: Map<int, Seq<EntryView>>) -> bool {
    forall|g: int| #[trigger] m.contains_key(g) ==> m[g].len() > 0
}

proof fn lemma_merge_shader_groups_nonempty(
    m: Map<int, Seq<EntryView>>,
    module: Seq<char>,
    groups: Seq<Seq<EntryView>>,
)
    requires
        candidates_nonempty(m),
        forall|g: int| 0 <= g < groups.len() ==> #[trigger] groups[g].len() > 0,
    ensures
        candidates_nonempty(merge_shader_groups(m, module, groups)),
    decreases groups.len(),
{
    if groups.len() > 0 {
        let init = groups.drop_last();
        assert forall|g: int| 0 <= g < init.len() implies #[trigger] init[g].len() > 0 by {
            assert(init[g] == groups[g]);
        }
        lemma_merge_shader_groups_nonempty(m, module, init);
        let m1 = merge_shader_groups(m, module, init);
        let g = groups.len() - 1;
        assert(groups[g].len() > 0);
        if m1.contains_key(g) {
            lemma_merged_nonempty(m1[g], groups.last());
        }
    }
}

proof fn lemma_shared_candidates_nonempty(shaders: Seq<RawView>)
    requires
        groups_nonempty(shaders),
    ensures
        candidates_nonempty(shared_candidates(shaders)),
    decreases shaders.len(),
{
    if shaders.len() > 0 {
        let init = shaders.drop_last();
        assert(groups_nonempty(init)) by {
            assert forall|i: int, g: int|
                0 <= i < init.len() && 0 <= g < init[i].2.len() implies #[trigger] init[i].2[g].len() > 0 by {
                assert(init[i] == shaders[i]);
            }
        }
        lemma_shared_candidates_nonempty(init);
        let last = shaders.last();
        assert forall|g: int| 0 <= g < last.2.len() implies #[trigger] last.2[g].len() > 0 by {
            assert(shaders[shaders.len() - 1].2[g].len() > 0);
        }
        lemma_merge_shader_groups_nonempty(shared_candidates(init), last.0, last.2);
    }
}

/// Whether a shared group has a binding, has all its bindings in one module,
/// and lives in that module.
pub open spec fn lives_in_its_module(c: CommonView) -> bool {
    c.2.len() > 0 && all_same_module(c.2) && c.0 == c.2[0].1
}

proof fn lemma_common_position(l: Seq<CommonView>, m: Seq<char>)
    ensures
        match common_position(l, m) {
            Some(i) => 0 <= i < l.len() && l[i].0 == m,
            None => forall|k: int| 0 <= k < l.len() ==> #[trigger] l[k].0 != m,
        },
    decreases l.len(),
{
    if l.len() > 0 {
        lemma_common_position(l.drop_last(), m);
        if l.last().0 != m {
            assert forall|k: int| 0 <= k < l.len() - 1 implies #[trigger] l[k].0 == l.drop_last()[k].0 by {}
        }
    }
}

proof fn lemma_common_list_upto(c: Map<int, Seq<EntryView>>, n: nat)
    requires
        forall|g: int| #[trigger] c.contains_key(g) ==> c[g].len() > 0 && all_same_module(c[g]),
    ensures
        forall|i: int| 0 <= i < common_list_upto(c, n).len() ==> lives_in_its_module(
            #[trigger] common_list_upto(c, n)[i],
        ),
    decreases n,
{
    if n > 0 {
        lemma_common_list_upto(c, (n - 1) as nat);
        let l = common_list_upto(c, (n - 1) as nat);
        let g = n - 1;
        if c.contains_key(g) {
            let v = (c[g][0].1, g as usize, c[g]);
            assert(lives_in_its_module(v));
            lemma_common_position(l, c[g][0].1);
            let r = common_list_upto(c, n);
            assert forall|i: int| 0 <= i < r.len() implies lives_in_its_module(#[trigger] r[i]) by {
                match common_position(l, c[g][0].1) {
                    Some(k) => {
                        if i != k {
                            assert(r[i] == l[i]);
                        }
                    },
                    None => {
                        if i < l.len() {
                            assert(r[i] == l[i]);
                        }
                    },
                }
            }
        }
    }
}

/// Every shared group that [`RawShadersBindGroups::create_reusable_shader_bind_groups`]
/// returns has a binding, has all its bindings in one module, and lives in
/// that module.
pub proof fn law_shared_groups_live_in_their_module(shaders: Seq<RawView>)
    requires
        groups_nonempty(shaders),
    ensures
        forall|i: int|
            0 <= i < reusable_bind_groups(shaders).0.len() ==> lives_in_its_module(
                #[trigger] reusable_bind_groups(shaders).0[i],
            ),
{
    lemma_shared_candidates_nonempty(shaders);
    let c = common_groups(shaders);
    lemma_common_list_upto(c, group_bound(shaders));
}

/// Whether the bindings are ordered by binding index.
pub open spec fn sorted_by_binding(es: Seq<EntryView>) -> bool {
    forall|i: int, j: int| 0 <= i < j < es.len() ==> #[trigger] es[i].3 <= #[trigger] es[j].3
}

proof fn lemma_insert_sorted(sorted: Seq<EntryView>, x: EntryView)
    requires
        sorted_by_binding(sorted),
    ensures
        sorted_by_binding(sorted.insert(binding_insert_pos(sorted, x.3), x)),
    decreases sorted.len(),
{
    lemma_binding_insert_pos(sorted, x.3);
    let p = binding_insert_pos(sorted, x.3);
    let r = sorted.insert(p, x);
    if sorted.len() == 0 {
    } else if sorted.last().3 <= x.3 {
        assert forall|i: int, j: int| 0 <= i < j < r.len() implies #[trigger] r[i].3 <= #[trigger] r[j].3 by {
            if j == r.len() - 1 {
                assert(r[i] == sorted[i]);
                assert(sorted[i].3 <= sorted.last().3);
            } else {
                assert(r[i] == sorted[i] && r[j] == sorted[j]);
            }
        }
    } else {
        let init = sorted.drop_last();
        assert(sorted_by_binding(init)) by {
            assert forall|i: int, j: int| 0 <= i < j < init.len() implies #[trigger] init[i].3 <= #[trigger] init[j].3 by {
                assert(init[i] == sorted[i] && init[j] == sorted[j]);
            }
        }
        lemma_binding_insert_pos(init, x.3);
        assert(p == binding_insert_pos(init, x.3));
        lemma_insert_sorted(init, x);
        let ri = init.insert(p, x);
        assert(r =~= ri.push(sorted.last()));
        assert forall|i: int, j: int| 0 <= i < j < r.len() implies #[trigger] r[i].3 <= #[trigger] r[j].3 by {
            if j == r.len() - 1 {
                if i == p {
                    assert(r[i] == x);
                } else if i < p {
                    assert(r[i] == sorted[i]);
                    assert(sorted[i].3 <= sorted.last().3);
                } else {
                    assert(r[i] == sorted[i - 1]);
                    assert(sorted[i - 1].3 <= sorted.last().3);
                }
            } else {
                assert(r[i] == ri[i] && r[j] == ri[j]);
            }
        }
    }
}

proof fn lemma_sort_sorted(es: Seq<EntryView>)
    ensures
        sorted_by_binding(sort_by_binding(es)),
    decreases es.len(),
{
    if es.len() > 0 {
        lemma_sort_sorted(es.drop_last());
        lemma_insert_sorted(sort_by_binding(es.drop_last()), es.last());
    }
}

proof fn lemma_dedup_sorted(es: Seq<EntryView>)
    requires
        sorted_by_binding(es),
    ensures
        sorted_by_binding(dedup_bindings(es)),
        dedup_bindings(es).len() > 0 ==> es.len() > 0 && dedup_bindings(es).last() == es.last()
            || same_binding(es.last(), dedup_bindings(es).last()),
        forall|i: int| 0 <= i < dedup_bindings(es).len() ==> exists|k: int|
            0 <= k < es.len() && #[trigger] dedup_bindings(es)[i] == es[k],
    decreases es.len(),
{
    if es.len() > 0 {
        let init = es.drop_last();
        assert(sorted_by_binding(init)) by {
            assert forall|i: int, j: int| 0 <= i < j < init.len() implies #[trigger] init[i].3 <= #[trigger] init[j].3 by {
                assert(init[i] == es[i] && init[j] == es[j]);
            }
        }
        lemma_dedup_sorted(init);
        let rest = dedup_bindings(init);
        if rest.len() > 0 && same_binding(es.last(), rest.last()) {
            assert forall|i: int| 0 <= i < rest.len() implies exists|k: int|
                0 <= k < es.len() && #[trigger] rest[i] == es[k] by {
                let k = choose|k: int| 0 <= k < init.len() && rest[i] == init[k];
                assert(rest[i] == es[k]);
            }
        } else {
            let r = rest.push(es.last());
            assert forall|i: int| 0 <= i < r.len() implies exists|k: int|
                0 <= k < es.len() && #[trigger] r[i] == es[k] by {
                if i == rest.len() {
                    assert(r[i] == es[es.len() - 1]);
                } else {
                    let k = choose|k: int| 0 <= k < init.len() && rest[i] == init[k];
                    assert(r[i] == es[k]);
                }
            }
            assert forall|i: int, j: int| 0 <= i < j < r.len() implies #[trigger] r[i].3 <= #[trigger] r[j].3 by {
                if j == rest.len() {
                    let k = choose|k: int| 0 <= k < init.len() && rest[i] == init[k];
                    assert(r[i] == es[k]);
                    assert(es[k].3 <= es[es.len() - 1].3);
                } else {
                    assert(r[i] == rest[i] && r[j] == rest[j]);
                }
            }
        }
    }
}

/// A merged group is ordered by binding index.
pub proof fn law_merged_group_sorted(a: Seq<EntryView>, b: Seq<EntryView>)
    ensures
        sorted_by_binding(merged_group(a, b)),
{
    lemma_sort_sorted(a + b);
    lemma_dedup_sorted(sort_by_binding(a + b));
}

} // verus!
