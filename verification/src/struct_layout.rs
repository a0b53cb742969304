//! The fields and padding of a generated Rust struct: the plan that makes a
//! byte-copied Rust struct match the WGSL layout of its shader struct.

use vstd::prelude::*;

use crate::layout::{round_up, round_up_spec};
use crate::options::WgslTypeSerializeStrategy;
use crate::rust_type_info::{aligned_size_spec, RustTypeInfo};
use crate::binding_generator::push_decimal_usize;
use crate::fwgsl_loader::decimal;
use crate::name_demangle::{qualified_item_name, RustSourceItemPath};
use crate::naming::{case_snake, ident_chars, sanitized_upper_snake_case, std_to_uppercase};
use crate::text::{chars_of, push_all, string_of};

verus! {

/// What the plan needs of a member of a WGSL struct.
pub struct MemberLayout {
    /// The member's name.
    pub name: String,
    /// Its offset in the WGSL struct, in bytes.
    pub offset: u32,
    /// Its WGSL size, in bytes.
    pub wgsl_size: u32,
    /// Its Rust type.
    pub rust_type: RustTypeInfo,
    /// Whether a struct-field override gives it another Rust type.
    pub type_overridden: bool,
    /// Whether it is a shader built-in (such as a position), which the Rust
    /// struct only reserves room for.
    pub is_builtin: bool,
    /// Whether its name marks it as a custom padding field.
    pub is_custom_padding: bool,
}

/// Abstract member: name, offset, WGSL size, Rust size (none for a
/// runtime-sized array), Rust alignment, and the three flags.
pub type MemberView = (Seq<char>, u32, u32, Option<usize>, u32, bool, bool, bool);

impl View for MemberLayout {
    type V = MemberView;

    open spec fn view(&self) -> MemberView {
        (
            self.name@,
            self.offset,
            self.wgsl_size,
            self.rust_type.size,
            self.rust_type.alignment,
            self.type_overridden,
            self.is_builtin,
            self.is_custom_padding,
        )
    }
}

/// The abstract values of a list of members.
pub open spec fn members_view(ms: Seq<MemberLayout>) -> Seq<MemberView> {
    Seq::new(ms.len(), |i: int| ms[i]@)
}

/// The size of a padding field.
#[derive(Debug, Clone, Copy, PartialEq, Eq, Structural)]
pub enum PadSize {
    /// A number of bytes.
    Bytes(usize),
    /// The bytes of a member's slot that its Rust type leaves over: the
    /// slot's size minus the size of the Rust type.
    RemainderOf(usize),
}

/// A padding field: its name and size.
pub struct Padding {
    pub pad_name: String,
    pub pad_size: PadSize,
}

/// An entry of a generated struct: a member's field, or padding.
pub enum RustStructMemberEntry {
    /// The field of the member with this index.
    Field(usize),
    Padding(Padding),
}

/// Abstract struct entry.
pub enum EntryPlanView {
    Field(usize),
    Padding(Seq<char>, PadSize),
}

impl View for RustStructMemberEntry {
    type V = EntryPlanView;

    open spec fn view(&self) -> EntryPlanView {
        match self {
            RustStructMemberEntry::Field(i) => EntryPlanView::Field(*i),
            RustStructMemberEntry::Padding(p) => EntryPlanView::Padding(p.pad_name@, p.pad_size),
        }
    }
}

/// The abstract values of a list of struct entries.
pub open spec fn entries_plan_view(es: Seq<RustStructMemberEntry>) -> Seq<EntryPlanView> {
    Seq::new(es.len(), |i: int| es[i]@)
}

/// The name of the padding that follows a member.
pub open spec fn pad_name(name: Seq<char>) -> Seq<char> {
    seq!['_', 'p', 'a', 'd', '_'] + name
}

/// Where the slot of member `i` ends: at the next member's offset, or at
/// the end of the struct for the last member.
pub open spec fn slot_end(ms: Seq<MemberView>, i: int, layout_size: usize) -> int {
    if i + 1 < ms.len() {
        ms[i + 1].1 as int
    } else {
        layout_size as int
    }
}

/// The entries that member `i` contributes.
///
/// In a byte-copied struct, a sized member's slot that its Rust type does
/// not fill exactly (or whose type is overridden) is followed by padding
/// for the rest of the slot. A built-in member only reserves its slot, as
/// padding, in a byte-copied struct. A custom padding member becomes
/// padding of its WGSL size.
pub open spec fn member_entries(
    ms: Seq<MemberView>,
    i: int,
    layout_size: usize,
    sharable: bool,
) -> Seq<EntryPlanView> {
    let m = ms[i];
    let required = slot_end(ms, i, layout_size) - m.1;
    let padding = if m.3 is None || !sharable {
        None
    } else if !m.5 && aligned_size_spec(m.3, m.4) == Some(required) {
        None
    } else {
        Some(EntryPlanView::Padding(pad_name(m.0), PadSize::RemainderOf(required as usize)))
    };
    if m.6 {
        if sharable && required > 0 {
            seq![EntryPlanView::Padding(pad_name(m.0), PadSize::Bytes(required as usize))]
        } else {
            Seq::empty()
        }
    } else {
        let entry = if m.7 {
            EntryPlanView::Padding(m.0, PadSize::Bytes(m.2 as usize))
        } else {
            EntryPlanView::Field(i as usize)
        };
        match padding {
            Some(p) => seq![entry, p],
            None => seq![entry],
        }
    }
}

/// The entries of the first `k` members.
pub open spec fn struct_entries_upto(
    ms: Seq<MemberView>,
    k: int,
    layout_size: usize,
    sharable: bool,
) -> Seq<EntryPlanView>
    decreases k,
{
    if k <= 0 {
        Seq::empty()
    } else {
        struct_entries_upto(ms, k - 1, layout_size, sharable) + member_entries(
            ms,
            k - 1,
            layout_size,
            sharable,
        )
    }
}

/// The entries of a generated struct.
pub open spec fn struct_entries(ms: Seq<MemberView>, layout_size: usize, sharable: bool) -> Seq<
    EntryPlanView,
> {
    struct_entries_upto(ms, ms.len() as int, layout_size, sharable)
}

/// Whether the members can be laid out: only the last may be a runtime-sized
/// array; and, in a byte-copied struct, the slot of each sized or built-in
/// member does not end before it starts and the Rust type's size rounds up
/// to its alignment within `u32`.
pub open spec fn members_layable(ms: Seq<MemberView>, layout_size: usize, sharable: bool) -> bool {
    forall|i: int|
        0 <= i < ms.len() ==> {
            &&& (#[trigger] ms[i]).3 is None ==> i == ms.len() - 1
            &&& sharable && (ms[i].6 || ms[i].3 is Some) ==> ms[i].1 <= slot_end(ms, i, layout_size)
            &&& sharable && ms[i].3 is Some ==> ms[i].4 > 0 && ms[i].3.unwrap() + ms[i].4 - 1
                <= u32::MAX
        }
}

/// The name of the padding that follows a member.
fn pad_name_exec(name: &str) -> (r: String)
    ensures
        r@ == pad_name(name@),
{
    let mut cs = chars_of("_pad_");
    proof {
        reveal_strlit("_pad_");
        assert(cs@ =~= seq!['_', 'p', 'a', 'd', '_']);
    }
    push_all(&mut cs, &chars_of(name));
    string_of(&cs)
}

/// The padding after member `m` when its slot takes `required` bytes.
fn member_padding(m: &MemberLayout, required: usize) -> (r: Option<Padding>)
    requires
        m.rust_type.size is Some,
        m.rust_type.alignment > 0,
        m.rust_type.size.unwrap() + m.rust_type.alignment - 1 <= u32::MAX,
    ensures
        match r {
            Some(p) => p.pad_name@ == pad_name(m.name@) && p.pad_size == PadSize::RemainderOf(required)
                && !(!m.type_overridden && aligned_size_spec(m.rust_type.size, m.rust_type.alignment)
                == Some(required as int)),
            None => !m.type_overridden && aligned_size_spec(m.rust_type.size, m.rust_type.alignment)
                == Some(required as int),
        },
{
    match m.rust_type.aligned_size() {
        Some(size) => {
            if !m.type_overridden && size == required {
                None
            } else {
                Some(Padding { pad_name: pad_name_exec(m.name.as_str()), pad_size: PadSize::RemainderOf(required) })
            }
        },
        None => Some(Padding { pad_name: pad_name_exec(m.name.as_str()), pad_size: PadSize::RemainderOf(required) }),
    }
}

/// The entries that member `i` contributes, given where its slot ends.
fn member_entries_exec(
    members: &Vec<MemberLayout>,
    i: usize,
    next: usize,
    layout_size: usize,
    sharable: bool,
) -> (r: Vec<RustStructMemberEntry>)
    requires
        i < members@.len(),
        next == slot_end(members_view(members@), i as int, layout_size),
        members_layable(members_view(members@), layout_size, sharable),
    ensures
        entries_plan_view(r@) == member_entries(members_view(members@), i as int, layout_size, sharable),
{
    let ghost mv = members_view(members@);
    let m = &members[i];
    assert(mv[i as int] == m@);
    let is_rsa = m.rust_type.is_dynamic_array();
    let padding: Option<Padding> = if is_rsa || !sharable {
        None
    } else {
        member_padding(m, next - m.offset as usize)
    };
    let mut out: Vec<RustStructMemberEntry> = Vec::new();
    if m.is_builtin {
        if sharable {
            let space = next - m.offset as usize;
            if space > 0 {
                out.push(RustStructMemberEntry::Padding(Padding {
                    pad_name: pad_name_exec(m.name.as_str()),
                    pad_size: PadSize::Bytes(space),
                }));
            }
        }
    } else {
        let entry = if m.is_custom_padding {
            RustStructMemberEntry::Padding(Padding {
                pad_name: string_of(&chars_of(m.name.as_str())),
                pad_size: PadSize::Bytes(m.wgsl_size as usize),
            })
        } else {
            RustStructMemberEntry::Field(i)
        };
        out.push(entry);
        match padding {
            Some(p) => {
                out.push(RustStructMemberEntry::Padding(p));
            },
            None => {},
        }
    }
    assert(entries_plan_view(out@) =~= member_entries(mv, i as int, layout_size, sharable));
    out
}

/// The fields and padding of the Rust struct for a WGSL struct whose
/// members are `members` and whose size is `layout_size`; `sharable` tells
/// whether the struct is byte-copied (`bytemuck`) and host-shareable.
pub fn struct_member_entries(
    members: &Vec<MemberLayout>,
    layout_size: usize,
    sharable: bool,
) -> (r: Vec<RustStructMemberEntry>)
    requires
        members_layable(members_view(members@), layout_size, sharable),
    ensures
        entries_plan_view(r@) == struct_entries(members_view(members@), layout_size, sharable),
{
    let ghost mv = members_view(members@);
    let n = members.len();
    let mut out: Vec<RustStructMemberEntry> = Vec::new();
    let mut i: usize = 0;
    while i < n
        invariant
            i <= n,
            n == members@.len(),
            mv == members_view(members@),
            members_layable(mv, layout_size, sharable),
            entries_plan_view(out@) == struct_entries_upto(mv, i as int, layout_size, sharable),
        decreases n - i,
    {
        let next: usize = if i + 1 < n {
            members[i + 1].offset as usize
        } else {
            layout_size
        };
        assert(i + 1 < n ==> mv[i + 1] == members@[i + 1]@);
        let mut more = member_entries_exec(members, i, next, layout_size, sharable);
        let ghost before = entries_plan_view(out@);
        let ghost added = entries_plan_view(more@);
        out.append(&mut more);
        assert(entries_plan_view(out@) =~= before + added);
        i += 1;
    }
    out
}


/// Where the last byte that the entries account for lies: the end of each
/// field's WGSL value, and the start of each field that follows padding.
pub open spec fn entries_end(es: Seq<EntryPlanView>, ms: Seq<MemberView>, k: int) -> int
    decreases k,
{
    if k <= 0 {
        0
    } else {
        let prev = entries_end(es, ms, k - 1);
        let here = match es[k - 1] {
            EntryPlanView::Field(i) => ms[i as int].1 + ms[i as int].2,
            EntryPlanView::Padding(_, _) => if k < es.len() {
                match es[k] {
                    EntryPlanView::Field(j) => ms[j as int].1 as int,
                    EntryPlanView::Padding(_, _) => 0,
                }
            } else {
                0
            },
        };
        if prev < here {
            here
        } else {
            prev
        }
    }
}

/// The size of a struct with these entries at the given alignment: where
/// its last byte lies, rounded up to the alignment; zero when that is zero.
pub open spec fn actual_struct_size(es: Seq<EntryPlanView>, ms: Seq<MemberView>, alignment: u32) -> int {
    let end = entries_end(es, ms, es.len() as int);
    if end == 0 {
        0
    } else {
        round_up_spec(alignment, end as u32)
    }
}

/// Whether each field of the entries names a member.
pub open spec fn fields_name_members(es: Seq<EntryPlanView>, ms: Seq<MemberView>) -> bool {
    forall|k: int|
        0 <= k < es.len() ==> (#[trigger] es[k] matches EntryPlanView::Field(i) ==> i < ms.len())
}

/// The size of the struct that the entries make, from the WGSL offsets and
/// sizes of its fields, rounded up to the struct's alignment.
pub fn calculate_actual_struct_size(
    entries: &Vec<RustStructMemberEntry>,
    members: &Vec<MemberLayout>,
    alignment: u32,
) -> (r: usize)
    requires
        fields_name_members(entries_plan_view(entries@), members_view(members@)),
        alignment > 0,
        forall|i: int|
            0 <= i < members@.len() ==> (#[trigger] members@[i]).offset + members@[i].wgsl_size
                + alignment - 1 <= u32::MAX,
    ensures
        r == actual_struct_size(entries_plan_view(entries@), members_view(members@), alignment),
{
    let ghost ev = entries_plan_view(entries@);
    let ghost mv = members_view(members@);
    let mut max_end: usize = 0;
    let mut k: usize = 0;
    while k < entries.len()
        invariant
            k <= entries@.len(),
            ev == entries_plan_view(entries@),
            mv == members_view(members@),
            fields_name_members(ev, mv),
            alignment > 0,
            forall|i: int|
                0 <= i < members@.len() ==> (#[trigger] members@[i]).offset + members@[i].wgsl_size
                    + alignment - 1 <= u32::MAX,
            max_end == entries_end(ev, mv, k as int),
            max_end + alignment - 1 <= u32::MAX,
        decreases entries@.len() - k,
    {
        let ghost ek = ev[k as int];
        assert(ek == entries@[k as int]@);
        let here: usize = match &entries[k] {
            RustStructMemberEntry::Field(i) => {
                assert(*i < mv.len());
                assert(mv[*i as int] == members@[*i as int]@);
                assert(members@[*i as int].offset + members@[*i as int].wgsl_size + alignment - 1
                    <= u32::MAX);
                let off = members[*i].offset;
                let sz = members[*i].wgsl_size;
                assert(off + sz <= u32::MAX);
                (off as usize) + (sz as usize)
            },
            RustStructMemberEntry::Padding(_) => {
                if k + 1 < entries.len() {
                    assert(ev[k + 1] == entries@[k + 1]@);
                    match &entries[k + 1] {
                        RustStructMemberEntry::Field(j) => {
                            assert(*j < mv.len());
                            assert(mv[*j as int] == members@[*j as int]@);
                            assert(members@[*j as int].offset + members@[*j as int].wgsl_size
                                + alignment - 1 <= u32::MAX);
                            members[*j].offset as usize
                        },
                        RustStructMemberEntry::Padding(_) => 0,
                    }
                } else {
                    0
                }
            },
        };
        if max_end < here {
            max_end = here;
        }
        k += 1;
    }
    if max_end == 0 {
        return 0;
    }
    round_up(alignment, max_end as u32) as usize
}

/// The size that a generated struct must have: zero without members,
/// the WGSL size otherwise, rounded up to a custom alignment when there is
/// one.
pub open spec fn expected_struct_size(has_members: bool, layout_size: u32, custom_alignment: Option<u32>) -> int {
    let size: u32 = if has_members {
        layout_size
    } else {
        0
    };
    match custom_alignment {
        Some(a) => round_up_spec(a, size),
        None => size as int,
    }
}

/// The size that the layout assertion of a fixed-size byte-copied struct
/// checks.
pub fn expected_struct_size_exec(has_members: bool, layout_size: u32, custom_alignment: Option<u32>) -> (r: usize)
    requires
        custom_alignment matches Some(a) ==> a > 0 && layout_size + a - 1 <= u32::MAX,
    ensures
        r == expected_struct_size(has_members, layout_size, custom_alignment),
{
    let size: u32 = if has_members {
        layout_size
    } else {
        0
    };
    match custom_alignment {
        Some(a) => round_up(a, size) as usize,
        None => size as usize,
    }
}


/// The element check of a byte-copied struct whose runtime-sized tail sets
/// its size: the stride of the tail's elements, whether they are stored as
/// padded blocks of that stride, and the Rust type of an element.
pub struct TailElement {
    pub stride: u32,
    pub padded: bool,
    pub rust_type: String,
}

/// `    assert!(...);` and a newline.
pub open spec fn assert_line(cond: Seq<char>) -> Seq<char> {
    "    assert!("@ + cond + ");\n"@
}

/// One assertion per field, in order, that the field starts at its member's
/// WGSL offset in the struct named `sname`.
pub open spec fn offset_asserts(es: Seq<EntryPlanView>, ms: Seq<MemberView>, sname: Seq<char>) -> Seq<char>
    decreases es.len(),
{
    if es.len() == 0 {
        Seq::empty()
    } else {
        offset_asserts(es.drop_last(), ms, sname) + match es.last() {
            EntryPlanView::Field(i) => assert_line(
                "std::mem::offset_of!("@ + sname + ", "@ + ms[i as int].0 + ") == "@ + decimal(
                    ms[i as int].1 as nat,
                ),
            ),
            EntryPlanView::Padding(_, _) => Seq::empty(),
        }
    }
}

/// The compile-time check of a byte-copied struct's layout: a constant
/// named after the struct whose initializer asserts that each field starts
/// at its WGSL offset, that the struct has the WGSL alignment (or the
/// custom one), and that its size is the WGSL size (rounded up to the
/// custom alignment) or, with a runtime-sized tail, that a tail element
/// spans the stride. A struct generic over its tail is checked with a tail
/// of length 0. Nothing for a struct that is not byte-copied.
pub open spec fn layout_assertion_text(
    module: Seq<char>,
    name: Seq<char>,
    es: Seq<EntryPlanView>,
    ms: Seq<MemberView>,
    directly_shareable: bool,
    generic_tail: bool,
    tail: Option<(u32, bool, Seq<char>)>,
    layout_size: u32,
    layout_alignment: u32,
    custom_alignment: Option<u32>,
) -> Seq<char> {
    if !directly_shareable {
        Seq::empty()
    } else {
        let fq = qualified_item_name(module, name);
        let sname = if generic_tail {
            fq + "Sized<0>"@
        } else {
            fq
        };
        let alignment = match custom_alignment {
            Some(a) => a,
            None => layout_alignment,
        };
        let size_line = match tail {
            Some((stride, padded, element)) => assert_line(
                "std::mem::size_of::<"@ + (if padded {
                    qualified_item_name(module, "WgslBindgenArrayElement"@) + "<"@ + decimal(
                        stride as nat,
                    ) + ">"@
                } else {
                    element
                }) + ">() == "@ + decimal(stride as nat),
            ),
            None => assert_line(
                "std::mem::size_of::<"@ + sname + ">() == "@ + decimal(
                    expected_struct_size(es.len() > 0, layout_size, custom_alignment) as nat,
                ),
            ),
        };
        "const "@ + std_to_uppercase(case_snake(ident_chars(fq))) + "_ASSERTS: () = {\n"@
            + offset_asserts(es, ms, sname) + assert_line(
            "std::mem::align_of::<"@ + sname + ">() == "@ + decimal(alignment as nat),
        ) + size_line + "};\n"@
    }
}

/// Appends an assertion line for the condition.
fn push_assert_line(out: &mut Vec<char>, cond: &Vec<char>)
    ensures
        final(out)@ == old(out)@ + assert_line(cond@),
{
    push_all(out, &chars_of("    assert!("));
    push_all(out, cond);
    push_all(out, &chars_of(");\n"));
}

/// The offset assertions of the fields, in order.
fn offset_asserts_exec(entries: &Vec<RustStructMemberEntry>, members: &Vec<MemberLayout>, sname: &Vec<char>) -> (r: Vec<
    char,
>)
    requires
        fields_name_members(entries_plan_view(entries@), members_view(members@)),
    ensures
        r@ == offset_asserts(entries_plan_view(entries@), members_view(members@), sname@),
{
    let ghost ev = entries_plan_view(entries@);
    let ghost mv = members_view(members@);
    let mut out: Vec<char> = Vec::new();
    let mut k: usize = 0;
    while k < entries.len()
        invariant
            k <= entries@.len(),
            ev == entries_plan_view(entries@),
            mv == members_view(members@),
            fields_name_members(ev, mv),
            out@ == offset_asserts(ev.take(k as int), mv, sname@),
        decreases entries@.len() - k,
    {
        assert(ev.take(k + 1).drop_last() =~= ev.take(k as int));
        assert(ev.take(k + 1).last() == entries@[k as int]@);
        match &entries[k] {
            RustStructMemberEntry::Field(i) => {
                assert(ev[k as int] matches EntryPlanView::Field(j) ==> j < mv.len());
                let m = &members[*i];
                let mut cond = chars_of("std::mem::offset_of!(");
                push_all(&mut cond, sname);
                push_all(&mut cond, &chars_of(", "));
                push_all(&mut cond, &chars_of(m.name.as_str()));
                push_all(&mut cond, &chars_of(") == "));
                push_decimal_usize(&mut cond, m.offset as usize);
                push_assert_line(&mut out, &cond);
            },
            RustStructMemberEntry::Padding(_) => {},
        }
        k += 1;
    }
    assert(ev.take(k as int) =~= ev);
    out
}

/// The size condition for a runtime-sized tail's element.
fn tail_size_condition(module: &String, t: &TailElement) -> (r: Vec<char>)
    ensures
        r@ == "std::mem::size_of::<"@ + (if t.padded {
            qualified_item_name(module@, "WgslBindgenArrayElement"@) + "<"@ + decimal(t.stride as nat) + ">"@
        } else {
            t.rust_type@
        }) + ">() == "@ + decimal(t.stride as nat),
{
    let mut size_cond = chars_of("std::mem::size_of::<");
    if t.padded {
        let helper = RustSourceItemPath {
            module: string_of(&chars_of(module.as_str())),
            name: string_of(&chars_of("WgslBindgenArrayElement")),
        };
        push_all(&mut size_cond, &chars_of(helper.get_fully_qualified_name().as_str()));
        push_all(&mut size_cond, &chars_of("<"));
        push_decimal_usize(&mut size_cond, t.stride as usize);
        push_all(&mut size_cond, &chars_of(">"));
    } else {
        push_all(&mut size_cond, &chars_of(t.rust_type.as_str()));
    }
    push_all(&mut size_cond, &chars_of(">() == "));
    push_decimal_usize(&mut size_cond, t.stride as usize);
    size_cond
}

/// The compile-time check of a byte-copied struct's layout; `tail` is the
/// element check of its runtime-sized tail, when that sets its size.
#[verifier::spinoff_prover]
pub fn build_layout_assertion(
    item_path: &RustSourceItemPath,
    entries: &Vec<RustStructMemberEntry>,
    members: &Vec<MemberLayout>,
    directly_shareable: bool,
    generic_tail: bool,
    tail: Option<&TailElement>,
    layout_size: u32,
    layout_alignment: u32,
    custom_alignment: Option<u32>,
) -> (r: String)
    requires
        fields_name_members(entries_plan_view(entries@), members_view(members@)),
        custom_alignment matches Some(a) ==> a > 0 && layout_size + a - 1 <= u32::MAX,
    ensures
        r@ == layout_assertion_text(
            item_path.module@,
            item_path.name@,
            entries_plan_view(entries@),
            members_view(members@),
            directly_shareable,
            generic_tail,
            match tail {
                Some(t) => Some((t.stride, t.padded, t.rust_type@)),
                None => None,
            },
            layout_size,
            layout_alignment,
            custom_alignment,
        ),
{
    if !directly_shareable {
        return String::new();
    }
    let fq = item_path.get_fully_qualified_name();
    let mut sname = chars_of(fq.as_str());
    if generic_tail {
        push_all(&mut sname, &chars_of("Sized<0>"));
    }
    let upper = sanitized_upper_snake_case(fq.as_str());
    let mut out = chars_of("const ");
    push_all(&mut out, &chars_of(upper.as_str()));
    push_all(&mut out, &chars_of("_ASSERTS: () = {\n"));
    push_all(&mut out, &offset_asserts_exec(entries, members, &sname));
    let alignment = match custom_alignment {
        Some(a) => a,
        None => layout_alignment,
    };
    let mut align_cond = chars_of("std::mem::align_of::<");
    push_all(&mut align_cond, &sname);
    push_all(&mut align_cond, &chars_of(">() == "));
    push_decimal_usize(&mut align_cond, alignment as usize);
    push_assert_line(&mut out, &align_cond);
    let size_cond = match tail {
        Some(t) => tail_size_condition(&item_path.module, t),
        None => {
            let size = expected_struct_size_exec(entries.len() > 0, layout_size, custom_alignment);
            let mut c = chars_of("std::mem::size_of::<");
            push_all(&mut c, &sname);
            push_all(&mut c, &chars_of(">() == "));
            push_decimal_usize(&mut c, size);
            c
        },
    };
    push_assert_line(&mut out, &size_cond);
    push_all(&mut out, &chars_of("};\n"));
    string_of(&out)
}

/// The `bytemuck` impls of a struct: `Zeroable` and `Pod` for the struct at
/// its fully qualified name, when the strategy is `bytemuck` and the struct
/// is not generic over a runtime-sized tail; nothing otherwise.
pub open spec fn bytemuck_impls_text(fully_qualified_name: Seq<char>, bytemuck: bool, generic_tail: bool) -> Seq<char> {
    if bytemuck && !generic_tail {
        "unsafe impl bytemuck::Zeroable for "@ + fully_qualified_name + " {}\nunsafe impl bytemuck::Pod for "@
            + fully_qualified_name + " {}\n"@
    } else {
        Seq::empty()
    }
}

/// The `bytemuck` impls of the struct at `item_path`.
pub fn build_bytemuck_impls(
    item_path: &RustSourceItemPath,
    strategy: WgslTypeSerializeStrategy,
    generic_tail: bool,
) -> (r: String)
    ensures
        r@ == bytemuck_impls_text(
            qualified_item_name(item_path.module@, item_path.name@),
            strategy == WgslTypeSerializeStrategy::Bytemuck,
            generic_tail,
        ),
{
    let bytemuck = match strategy {
        WgslTypeSerializeStrategy::Bytemuck => true,
        WgslTypeSerializeStrategy::Encase => false,
    };
    if !bytemuck || generic_tail {
        return String::new();
    }
    let fq = chars_of(item_path.get_fully_qualified_name().as_str());
    let mut out = chars_of("unsafe impl bytemuck::Zeroable for ");
    push_all(&mut out, &fq);
    push_all(&mut out, &chars_of(" {}\nunsafe impl bytemuck::Pod for "));
    push_all(&mut out, &fq);
    push_all(&mut out, &chars_of(" {}\n"));
    string_of(&out)
}

/// Whether a struct is copied byte for byte (`bytemuck`) to the GPU: it is
/// host-shareable and the strategy is `bytemuck`.
pub open spec fn directly_shareable(strategy: WgslTypeSerializeStrategy, host_sharable: bool) -> bool {
    strategy == WgslTypeSerializeStrategy::Bytemuck && host_sharable
}

/// Whether a struct is byte-copied.
pub fn is_directly_shareable(strategy: WgslTypeSerializeStrategy, host_sharable: bool) -> (r: bool)
    ensures
        r == directly_shareable(strategy, host_sharable),
{
    match strategy {
        WgslTypeSerializeStrategy::Bytemuck => host_sharable,
        WgslTypeSerializeStrategy::Encase => false,
    }
}

/// Whether an entry is padding, or a field with an init-friendly type.
pub open spec fn needs_init(e: EntryPlanView, ms: Seq<MemberView>, convs: Seq<bool>) -> bool {
    match e {
        EntryPlanView::Padding(_, _) => true,
        EntryPlanView::Field(i) => convs[i as int],
    }
}

/// Whether each member's Rust type has an init conversion.
pub open spec fn init_convertible(ms: Seq<MemberLayout>) -> Seq<bool> {
    Seq::new(ms.len(), |i: int| ms[i].rust_type.init_conversion is Some)
}

/// Whether the struct has padding or a field with an init-friendly type,
/// which calls for an init struct.
pub fn uses_padding(entries: &Vec<RustStructMemberEntry>, members: &Vec<MemberLayout>) -> (r: bool)
    requires
        fields_name_members(entries_plan_view(entries@), members_view(members@)),
    ensures
        r == exists|k: int|
            0 <= k < entries@.len() && needs_init(
                #[trigger] entries_plan_view(entries@)[k],
                members_view(members@),
                init_convertible(members@),
            ),
{
    let ghost ev = entries_plan_view(entries@);
    let mut k: usize = 0;
    while k < entries.len()
        invariant
            k <= entries@.len(),
            ev == entries_plan_view(entries@),
            fields_name_members(ev, members_view(members@)),
            forall|q: int|
                0 <= q < k ==> !needs_init(#[trigger] ev[q], members_view(members@), init_convertible(members@)),
        decreases entries@.len() - k,
    {
        assert(ev[k as int] == entries@[k as int]@);
        let hit = match &entries[k] {
            RustStructMemberEntry::Padding(_) => true,
            RustStructMemberEntry::Field(i) => {
                assert(*i < members@.len());
                members[*i].rust_type.init_conversion.is_some()
            },
        };
        if hit {
            assert(needs_init(ev[k as int], members_view(members@), init_convertible(members@)));
            return true;
        }
        k += 1;
    }
    false
}

/// Whether an init struct is generated: for a byte-copied struct that has
/// padding or init-friendly fields, or always when asked to.
pub fn generates_init_struct(
    strategy: WgslTypeSerializeStrategy,
    host_sharable: bool,
    has_padding: bool,
    always_generate_init_struct: bool,
) -> (r: bool)
    ensures
        r == (directly_shareable(strategy, host_sharable) && (has_padding
            || always_generate_init_struct)),
{
    is_directly_shareable(strategy, host_sharable) && (has_padding || always_generate_init_struct)
}

/// Whether the struct is generic over the length of its runtime-sized
/// tail: it has one and is byte-copied.
pub fn uses_generics_for_rts(has_rts_array: bool, strategy: WgslTypeSerializeStrategy) -> (r: bool)
    ensures
        r == (has_rts_array && strategy == WgslTypeSerializeStrategy::Bytemuck),
{
    has_rts_array && match strategy {
        WgslTypeSerializeStrategy::Bytemuck => true,
        WgslTypeSerializeStrategy::Encase => false,
    }
}

/// The first field whose member is a runtime-sized array.
pub open spec fn first_runtime_array_field(es: Seq<EntryPlanView>, ms: Seq<MemberView>, k: int) -> Option<usize>
    decreases es.len() - k,
{
    if k < 0 || k >= es.len() {
        None
    } else {
        match es[k] {
            EntryPlanView::Field(i) => if ms[i as int].3 is None {
                Some(i)
            } else {
                first_runtime_array_field(es, ms, k + 1)
            },
            EntryPlanView::Padding(_, _) => first_runtime_array_field(es, ms, k + 1),
        }
    }
}

/// The member of the runtime-sized tail field, when the struct is generic
/// over the tail's length.
pub fn runtime_array_field(
    entries: &Vec<RustStructMemberEntry>,
    members: &Vec<MemberLayout>,
    generic_tail: bool,
) -> (r: Option<usize>)
    requires
        fields_name_members(entries_plan_view(entries@), members_view(members@)),
    ensures
        r == if generic_tail {
            first_runtime_array_field(entries_plan_view(entries@), members_view(members@), 0)
        } else {
            None
        },
{
    if !generic_tail {
        return None;
    }
    let ghost ev = entries_plan_view(entries@);
    let ghost mv = members_view(members@);
    let mut k: usize = 0;
    while k < entries.len()
        invariant
            k <= entries@.len(),
            ev == entries_plan_view(entries@),
            mv == members_view(members@),
            fields_name_members(ev, mv),
            first_runtime_array_field(ev, mv, 0) == first_runtime_array_field(ev, mv, k as int),
            generic_tail,
        decreases entries@.len() - k,
    {
        assert(ev[k as int] == entries@[k as int]@);
        match &entries[k] {
            RustStructMemberEntry::Field(i) => {
                assert(*i < mv.len());
                assert(mv[*i as int] == members@[*i as int]@);
                if members[*i].rust_type.size.is_none() {
                    return Some(*i);
                }
            },
            RustStructMemberEntry::Padding(_) => {},
        }
        k += 1;
    }
    None
}


// ─── laws ───────────────────────────────────────────────────────────────────

/// The size in bytes of a member's Rust type, rounded up to its alignment.
pub open spec fn member_rust_size(m: MemberView) -> int {
    match aligned_size_spec(m.3, m.4) {
        Some(s) => s,
        None => 0,
    }
}

/// The bytes that entry `k` takes: a field its Rust type's size, padding of
/// a number of bytes that number, and the remainder of a slot what the slot
/// leaves after the field just before it.
pub open spec fn entry_bytes(es: Seq<EntryPlanView>, ms: Seq<MemberView>, k: int) -> int {
    match es[k] {
        EntryPlanView::Field(i) => member_rust_size(ms[i as int]),
        EntryPlanView::Padding(_, PadSize::Bytes(n)) => n as int,
        EntryPlanView::Padding(_, PadSize::RemainderOf(r)) => if k > 0 {
            match es[k - 1] {
                EntryPlanView::Field(j) => r - member_rust_size(ms[j as int]),
                EntryPlanView::Padding(_, _) => r as int,
            }
        } else {
            r as int
        },
    }
}

/// The bytes that the first `k` entries take.
pub open spec fn entries_bytes(es: Seq<EntryPlanView>, ms: Seq<MemberView>, k: int) -> int
    decreases k,
{
    if k <= 0 {
        0
    } else {
        entries_bytes(es, ms, k - 1) + entry_bytes(es, ms, k - 1)
    }
}

/// Whether a member of a byte-copied struct has a field whose plain Rust
/// type fits its slot: it is sized, neither custom padding nor overridden,
/// and its Rust type is no larger than its slot (a built-in member only
/// reserves its slot).
pub open spec fn fits_slot(ms: Seq<MemberView>, i: int, layout_size: usize) -> bool {
    &&& ms[i].3 is Some
    &&& !ms[i].7
    &&& !ms[i].5
    &&& ms[i].6 || member_rust_size(ms[i]) <= slot_end(ms, i, layout_size) - ms[i].1
}

proof fn lemma_entries_bytes_prefix(es: Seq<EntryPlanView>, more: Seq<EntryPlanView>, ms: Seq<MemberView>, k: int)
    requires
        0 <= k <= es.len(),
    ensures
        entries_bytes(es + more, ms, k) == entries_bytes(es, ms, k),
    decreases k,
{
    if k > 0 {
        lemma_entries_bytes_prefix(es, more, ms, k - 1);
        assert((es + more)[k - 1] == es[k - 1]);
        if k > 1 {
            assert((es + more)[k - 2] == es[k - 2]);
        }
    }
}

proof fn lemma_member_bytes(ms: Seq<MemberView>, i: int, layout_size: usize, before: Seq<EntryPlanView>)
    requires
        0 <= i < ms.len() <= usize::MAX,
        members_layable(ms, layout_size, true),
        fits_slot(ms, i, layout_size),
    ensures
        entries_bytes(
            before + member_entries(ms, i, layout_size, true),
            ms,
            (before + member_entries(ms, i, layout_size, true)).len() as int,
        ) == entries_bytes(before, ms, before.len() as int) + slot_end(ms, i, layout_size) - ms[i].1,
{
    let me = member_entries(ms, i, layout_size, true);
    let all = before + me;
    let b = before.len() as int;
    assert(ms[i].1 <= slot_end(ms, i, layout_size));
    lemma_entries_bytes_prefix(before, me, ms, b);
    let required = slot_end(ms, i, layout_size) - ms[i].1;
    assert(0 <= required <= usize::MAX);
    if me.len() == 0 {
        assert(all =~= before);
        assert(required == 0);
    } else if me.len() == 1 {
        assert(all[b] == me[0]);
        assert(entries_bytes(all, ms, b + 1) == entries_bytes(all, ms, b) + entry_bytes(all, ms, b));
        if !ms[i].6 {
            assert(me[0] == EntryPlanView::Field(i as usize));
            assert(aligned_size_spec(ms[i].3, ms[i].4) == Some(required));
        }
        assert(entry_bytes(all, ms, b) == required);
    } else {
        assert(all[b] == me[0]);
        assert(all[b + 1] == me[1]);
        assert(me[0] == EntryPlanView::Field(i as usize));
        assert(entries_bytes(all, ms, b + 1) == entries_bytes(all, ms, b) + entry_bytes(all, ms, b));
        assert(entries_bytes(all, ms, b + 2) == entries_bytes(all, ms, b + 1) + entry_bytes(all, ms, b + 1));
        assert(entry_bytes(all, ms, b) == member_rust_size(ms[i]));
        assert(entry_bytes(all, ms, b + 1) == required - member_rust_size(ms[i]));
    }
}

proof fn lemma_struct_bytes_upto(ms: Seq<MemberView>, k: int, layout_size: usize)
    requires
        1 <= k <= ms.len() <= usize::MAX,
        ms[0].1 == 0,
        members_layable(ms, layout_size, true),
        forall|i: int| 0 <= i < ms.len() ==> #[trigger] fits_slot(ms, i, layout_size),
    ensures
        entries_bytes(
            struct_entries_upto(ms, k, layout_size, true),
            ms,
            struct_entries_upto(ms, k, layout_size, true).len() as int,
        ) == slot_end(ms, k - 1, layout_size),
    decreases k,
{
    let prev = struct_entries_upto(ms, k - 1, layout_size, true);
    assert(fits_slot(ms, k - 1, layout_size));
    lemma_member_bytes(ms, k - 1, layout_size, prev);
    if k > 1 {
        lemma_struct_bytes_upto(ms, k - 1, layout_size);
    } else {
        assert(prev =~= Seq::<EntryPlanView>::empty());
    }
}

/// In a byte-copied struct whose first member starts at offset zero and
/// whose members' plain Rust types fit their slots, the fields and padding
/// of the generated struct take exactly the WGSL struct's size.
pub proof fn law_struct_fills_wgsl_layout(ms: Seq<MemberView>, layout_size: usize)
    requires
        0 < ms.len() <= usize::MAX,
        ms[0].1 == 0,
        members_layable(ms, layout_size, true),
        forall|i: int| 0 <= i < ms.len() ==> #[trigger] fits_slot(ms, i, layout_size),
    ensures
        entries_bytes(
            struct_entries(ms, layout_size, true),
            ms,
            struct_entries(ms, layout_size, true).len() as int,
        ) == layout_size,
{
    lemma_struct_bytes_upto(ms, ms.len() as int, layout_size);
}


/// The traits derived for a generated struct: `Debug`, `PartialEq` and
/// `Clone`; `Copy` unless an `encase` struct has a runtime-sized array;
/// `encase::ShaderType` for `encase`; and the two `serde` traits when asked.
pub open spec fn struct_derives(strategy: WgslTypeSerializeStrategy, has_rts_array: bool, derive_serde: bool) -> Seq<Seq<char>> {
    let base = seq!["Debug"@, "PartialEq"@, "Clone"@];
    let with_strategy = match strategy {
        WgslTypeSerializeStrategy::Bytemuck => base.push("Copy"@),
        WgslTypeSerializeStrategy::Encase => if !has_rts_array {
            base.push("Copy"@).push("encase::ShaderType"@)
        } else {
            base.push("encase::ShaderType"@)
        },
    };
    if derive_serde {
        with_strategy.push("serde::Serialize"@).push("serde::Deserialize"@)
    } else {
        with_strategy
    }
}

/// The traits derived for a generated struct.
pub fn build_derives(strategy: WgslTypeSerializeStrategy, has_rts_array: bool, derive_serde: bool) -> (r: Vec<String>)
    ensures
        Seq::new(r@.len(), |i: int| r@[i]@) == struct_derives(strategy, has_rts_array, derive_serde),
{
    let mut derives: Vec<String> = Vec::new();
    derives.push(string_of(&chars_of("Debug")));
    derives.push(string_of(&chars_of("PartialEq")));
    derives.push(string_of(&chars_of("Clone")));
    match strategy {
        WgslTypeSerializeStrategy::Bytemuck => {
            derives.push(string_of(&chars_of("Copy")));
        },
        WgslTypeSerializeStrategy::Encase => {
            if !has_rts_array {
                derives.push(string_of(&chars_of("Copy")));
            }
            derives.push(string_of(&chars_of("encase::ShaderType")));
        },
    }
    if derive_serde {
        derives.push(string_of(&chars_of("serde::Serialize")));
        derives.push(string_of(&chars_of("serde::Deserialize")));
    }
    assert(Seq::new(derives@.len(), |i: int| derives@[i]@) =~= struct_derives(strategy, has_rts_array, derive_serde));
    derives
}

/// The names joined with `, `.
pub open spec fn comma_list(names: Seq<Seq<char>>) -> Seq<char>
    decreases names.len(),
{
    if names.len() == 0 {
        Seq::empty()
    } else if names.len() == 1 {
        names[0]
    } else {
        comma_list(names.drop_last()) + seq![',', ' '] + names.last()
    }
}

/// The derive attribute for the traits: `#[derive(A, B)]`, or nothing
/// without traits.
pub open spec fn derive_attribute(traits: Seq<Seq<char>>) -> Seq<char> {
    if traits.len() == 0 {
        Seq::empty()
    } else {
        "#[derive("@ + comma_list(traits) + seq![')', ']']
    }
}

/// The derive attribute for the traits.
pub fn generate_derive_attributes(traits: &Vec<String>) -> (r: String)
    ensures
        r@ == derive_attribute(Seq::new(traits@.len(), |i: int| traits@[i]@)),
{
    let ghost tv = Seq::new(traits@.len(), |i: int| traits@[i]@);
    if traits.len() == 0 {
        return String::new();
    }
    let mut list = chars_of(traits[0].as_str());
    let mut i: usize = 1;
    assert(tv.take(1).drop_last() =~= Seq::<Seq<char>>::empty());
    while i < traits.len()
        invariant
            1 <= i <= traits@.len(),
            tv == Seq::new(traits@.len(), |k: int| traits@[k]@),
            list@ == comma_list(tv.take(i as int)),
        decreases traits@.len() - i,
    {
        assert(tv.take(i + 1).drop_last() =~= tv.take(i as int));
        list.push(',');
        list.push(' ');
        push_all(&mut list, &chars_of(traits[i].as_str()));
        assert(list@ =~= comma_list(tv.take(i + 1)));
        i += 1;
    }
    assert(tv.take(i as int) =~= tv);
    let mut out = chars_of("#[derive(");
    push_all(&mut out, &list);
    out.push(')');
    out.push(']');
    string_of(&out)
}


/// In a byte-copied struct whose first member starts at offset zero and
/// whose members' plain Rust types fit their slots, the entries of the
/// members before member `k` take exactly `k`'s WGSL offset: every member's
/// field starts where WGSL places it.
pub proof fn law_fields_start_at_wgsl_offsets(ms: Seq<MemberView>, layout_size: usize, k: int)
    requires
        0 < k < ms.len() <= usize::MAX,
        ms[0].1 == 0,
        members_layable(ms, layout_size, true),
        forall|i: int| 0 <= i < ms.len() ==> #[trigger] fits_slot(ms, i, layout_size),
    ensures
        entries_bytes(
            struct_entries_upto(ms, k, layout_size, true),
            ms,
            struct_entries_upto(ms, k, layout_size, true).len() as int,
        ) == ms[k].1,
{
    lemma_struct_bytes_upto(ms, k, layout_size);
}

} // verus!
