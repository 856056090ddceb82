use vstd::prelude::*;

use crate::layout::{Layout, LoadOp, StoreOp};

verus! {

/// One attachment of a render pass: its format, sample count, operations and layouts.
#[derive(Clone, Copy, Debug, PartialEq, Eq, Structural)]
pub struct LayoutAttachmentDescription {
    /// The engine's code for the attachment's format.
    pub format: u32,
    /// Number of samples per pixel; must be a power of two.
    pub samples: u32,
    pub load: LoadOp,
    pub store: StoreOp,
    pub initial_layout: Layout,
    pub final_layout: Layout,
}

/// The attachments that one subpass uses, each as an (attachment index, layout) pair.
#[derive(Clone, Debug)]
pub struct LayoutPassDescription {
    pub color_attachments: Vec<(usize, Layout)>,
    pub depth_stencil: Option<(usize, Layout)>,
    pub input_attachments: Vec<(usize, Layout)>,
    /// Either empty or exactly as long as `color_attachments`.
    pub resolve_attachments: Vec<(usize, Layout)>,
    /// Attachments that this subpass does not use but whose contents must survive it.
    pub preserve_attachments: Vec<usize>,
}

/// An ordering constraint between two subpasses.
#[derive(Clone, Copy, Debug, PartialEq, Eq, Structural)]
pub struct LayoutPassDependencyDescription {
    pub source_subpass: usize,
    pub destination_subpass: usize,
    pub by_region: bool,
}

// ---------------------------------------------------------------------------
// The rules a description must follow.

pub open spec fn is_power_of_two(n: nat) -> bool
    decreases n,
{
    if n <= 1 {
        n == 1
    } else {
        n % 2 == 0 && is_power_of_two(n / 2)
    }
}

pub open spec fn all_below(s: Seq<(usize, Layout)>, n: nat) -> bool {
    forall|k: int| 0 <= k < s.len() ==> s[k].0 < n
}

pub open spec fn has_index(s: Seq<(usize, Layout)>, x: usize) -> bool {
    exists|k: int| 0 <= k < s.len() && s[k].0 == x
}

/// Every attachment index of the subpass names one of `n` attachments.
pub open spec fn indices_in_range(p: LayoutPassDescription, n: nat) -> bool {
    &&& all_below(p.color_attachments@, n)
    &&& all_below(p.input_attachments@, n)
    &&& all_below(p.resolve_attachments@, n)
    &&& (p.depth_stencil matches Some(ds) ==> ds.0 < n)
    &&& forall|k: int| 0 <= k < p.preserve_attachments@.len() ==> p.preserve_attachments@[k] < n
}

/// Each resolve attachment is single-sampled and pairs with a multisampled color attachment
/// of the same format.
pub open spec fn resolve_valid(a: Seq<LayoutAttachmentDescription>, p: LayoutPassDescription) -> bool {
    let r = p.resolve_attachments@;
    let c = p.color_attachments@;
    r.len() == 0 || (r.len() == c.len() && forall|k: int|
        0 <= k < r.len() ==> {
            &&& a[r[k].0 as int].samples == 1
            &&& a[c[k].0 as int].samples > 1
            &&& a[r[k].0 as int].format == a[c[k].0 as int].format
        })
}

/// The subpass accesses attachment `x` as color, depth-stencil, input or resolve attachment.
pub open spec fn pass_uses(p: LayoutPassDescription, x: usize) -> bool {
    ||| has_index(p.color_attachments@, x)
    ||| has_index(p.input_attachments@, x)
    ||| has_index(p.resolve_attachments@, x)
    ||| (p.depth_stencil matches Some(ds) && ds.0 == x)
}

/// No preserved attachment is also accessed by the subpass.
pub open spec fn preserve_disjoint(p: LayoutPassDescription) -> bool {
    forall|k: int|
        0 <= k < p.preserve_attachments@.len() ==> !pass_uses(p, p.preserve_attachments@[k])
}

/// Every input reference to attachment `x` uses layout `l`.
pub open spec fn input_layout_is(inputs: Seq<(usize, Layout)>, x: usize, l: Layout) -> bool {
    forall|j: int| 0 <= j < inputs.len() && inputs[j].0 == x ==> inputs[j].1 == l
}

/// An attachment used both as input and as color or depth-stencil keeps one layout.
pub open spec fn layouts_agree(p: LayoutPassDescription) -> bool {
    &&& forall|i: int|
        0 <= i < p.color_attachments@.len() ==> input_layout_is(
            p.input_attachments@,
            p.color_attachments@[i].0,
            p.color_attachments@[i].1,
        )
    &&& (p.depth_stencil matches Some(ds) ==> input_layout_is(p.input_attachments@, ds.0, ds.1))
}

pub open spec fn pass_valid(a: Seq<LayoutAttachmentDescription>, p: LayoutPassDescription) -> bool {
    &&& indices_in_range(p, a.len())
    &&& resolve_valid(a, p)
    &&& preserve_disjoint(p)
    &&& layouts_agree(p)
}

/// The attachments, subpasses and dependencies form a well-formed graph.
pub open spec fn description_valid(
    attachments: Seq<LayoutAttachmentDescription>,
    passes: Seq<LayoutPassDescription>,
    dependencies: Seq<LayoutPassDependencyDescription>,
) -> bool {
    &&& forall|i: int|
        0 <= i < attachments.len() ==> is_power_of_two(attachments[i].samples as nat)
    &&& forall|i: int| 0 <= i < passes.len() ==> pass_valid(attachments, passes[i])
    &&& forall|i: int|
        0 <= i < dependencies.len() ==> dependencies[i].source_subpass < passes.len()
            && dependencies[i].destination_subpass < passes.len()
}

/// Some subpass uses more color attachments than `max` allows.
pub open spec fn exceeds_color_limit(passes: Seq<LayoutPassDescription>, max: u32) -> bool {
    exists|i: int| 0 <= i < passes.len() && passes[i].color_attachments@.len() > max
}

// ---------------------------------------------------------------------------
// Checking the rules.

fn check_power_of_two(n: u32) -> (r: bool)
    ensures
        r == is_power_of_two(n as nat),
{
    let mut m: u32 = n;
    while m > 1 && m % 2 == 0
        invariant
            is_power_of_two(m as nat) == is_power_of_two(n as nat),
        decreases m,
    {
        m = m / 2;
    }
    m == 1
}

fn check_all_below(s: &Vec<(usize, Layout)>, n: usize) -> (r: bool)
    ensures
        r == all_below(s@, n as nat),
{
    let mut k: usize = 0;
    while k < s.len()
        invariant
            k <= s@.len(),
            all_below(s@.take(k as int), n as nat),
        decreases s@.len() - k,
    {
        if s[k].0 >= n {
            return false;
        }
        assert(s@.take(k as int + 1) =~= s@.take(k as int).push(s@[k as int]));
        k = k + 1;
    }
    assert(s@.take(k as int) =~= s@);
    true
}

fn check_has_index(s: &Vec<(usize, Layout)>, x: usize) -> (r: bool)
    ensures
        r == has_index(s@, x),
{
    let mut k: usize = 0;
    while k < s.len()
        invariant
            k <= s@.len(),
            forall|j: int| 0 <= j < k ==> s@[j].0 != x,
        decreases s@.len() - k,
    {
        if s[k].0 == x {
            return true;
        }
        k = k + 1;
    }
    false
}

fn check_input_layout(inputs: &Vec<(usize, Layout)>, x: usize, l: Layout) -> (r: bool)
    ensures
        r == input_layout_is(inputs@, x, l),
{
    let mut j: usize = 0;
    while j < inputs.len()
        invariant
            j <= inputs@.len(),
            forall|i: int| 0 <= i < j && inputs@[i].0 == x ==> inputs@[i].1 == l,
        decreases inputs@.len() - j,
    {
        if inputs[j].0 == x && inputs[j].1 != l {
            return false;
        }
        j = j + 1;
    }
    true
}

fn check_indices(p: &LayoutPassDescription, n: usize) -> (r: bool)
    ensures
        r == indices_in_range(*p, n as nat),
{
    if !check_all_below(&p.color_attachments, n) || !check_all_below(&p.input_attachments, n)
        || !check_all_below(&p.resolve_attachments, n) {
        return false;
    }
    if let Some(ds) = p.depth_stencil {
        if ds.0 >= n {
            return false;
        }
    }
    let mut k: usize = 0;
    while k < p.preserve_attachments.len()
        invariant
            k <= p.preserve_attachments@.len(),
            forall|j: int| 0 <= j < k ==> p.preserve_attachments@[j] < n,
        decreases p.preserve_attachments@.len() - k,
    {
        if p.preserve_attachments[k] >= n {
            return false;
        }
        k = k + 1;
    }
    true
}

fn check_resolve(a: &Vec<LayoutAttachmentDescription>, p: &LayoutPassDescription) -> (r: bool)
    requires
        indices_in_range(*p, a@.len()),
    ensures
        r == resolve_valid(a@, *p),
{
    let r = &p.resolve_attachments;
    let c = &p.color_attachments;
    if r.len() == 0 {
        return true;
    }
    if r.len() != c.len() {
        return false;
    }
    let mut k: usize = 0;
    while k < r.len()
        invariant
            k <= r@.len(),
            r@.len() == c@.len(),
            r == &p.resolve_attachments,
            c == &p.color_attachments,
            indices_in_range(*p, a@.len()),
            forall|j: int|
                0 <= j < k ==> {
                    &&& a@[r@[j].0 as int].samples == 1
                    &&& a@[c@[j].0 as int].samples > 1
                    &&& a@[r@[j].0 as int].format == a@[c@[j].0 as int].format
                },
        decreases r@.len() - k,
    {
        let ra = &a[r[k].0];
        let ca = &a[c[k].0];
        if !(ra.samples == 1 && ca.samples > 1 && ra.format == ca.format) {
            return false;
        }
        k = k + 1;
    }
    true
}

fn check_preserve(p: &LayoutPassDescription) -> (r: bool)
    ensures
        r == preserve_disjoint(*p),
{
    let mut k: usize = 0;
    while k < p.preserve_attachments.len()
        invariant
            k <= p.preserve_attachments@.len(),
            forall|j: int| 0 <= j < k ==> !pass_uses(*p, p.preserve_attachments@[j]),
        decreases p.preserve_attachments@.len() - k,
    {
        let x = p.preserve_attachments[k];
        let in_depth_stencil = match p.depth_stencil {
            Some(ds) => ds.0 == x,
            None => false,
        };
        if check_has_index(&p.color_attachments, x) || check_has_index(&p.input_attachments, x)
            || check_has_index(&p.resolve_attachments, x) || in_depth_stencil {
            return false;
        }
        k = k + 1;
    }
    true
}

fn check_layouts(p: &LayoutPassDescription) -> (r: bool)
    ensures
        r == layouts_agree(*p),
{
    let mut i: usize = 0;
    while i < p.color_attachments.len()
        invariant
            i <= p.color_attachments@.len(),
            forall|j: int|
                0 <= j < i ==> input_layout_is(
                    p.input_attachments@,
                    p.color_attachments@[j].0,
                    p.color_attachments@[j].1,
                ),
        decreases p.color_attachments@.len() - i,
    {
        let (x, l) = p.color_attachments[i];
        if !check_input_layout(&p.input_attachments, x, l) {
            return false;
        }
        i = i + 1;
    }
    match p.depth_stencil {
        Some(ds) => check_input_layout(&p.input_attachments, ds.0, ds.1),
        None => true,
    }
}

fn check_pass(a: &Vec<LayoutAttachmentDescription>, p: &LayoutPassDescription) -> (r: bool)
    ensures
        r == pass_valid(a@, *p),
{
    if !check_indices(p, a.len()) {
        return false;
    }
    check_resolve(a, p) && check_preserve(p) && check_layouts(p)
}

/// Decides whether the attachments, subpasses and dependencies form a well-formed graph.
pub fn check_description(
    attachments: &Vec<LayoutAttachmentDescription>,
    passes: &Vec<LayoutPassDescription>,
    dependencies: &Vec<LayoutPassDependencyDescription>,
) -> (r: bool)
    ensures
        r == description_valid(attachments@, passes@, dependencies@),
{
    let mut i: usize = 0;
    while i < attachments.len()
        invariant
            i <= attachments@.len(),
            forall|j: int| 0 <= j < i ==> is_power_of_two(attachments@[j].samples as nat),
        decreases attachments@.len() - i,
    {
        if !check_power_of_two(attachments[i].samples) {
            return false;
        }
        i = i + 1;
    }
    let mut i: usize = 0;
    while i < passes.len()
        invariant
            i <= passes@.len(),
            forall|j: int| 0 <= j < i ==> pass_valid(attachments@, passes@[j]),
        decreases passes@.len() - i,
    {
        if !check_pass(attachments, &passes[i]) {
            return false;
        }
        i = i + 1;
    }
    let mut i: usize = 0;
    while i < dependencies.len()
        invariant
            i <= dependencies@.len(),
            forall|j: int|
                0 <= j < i ==> dependencies@[j].source_subpass < passes@.len()
                    && dependencies@[j].destination_subpass < passes@.len(),
        decreases dependencies@.len() - i,
    {
        let d = dependencies[i];
        if d.source_subpass >= passes.len() || d.destination_subpass >= passes.len() {
            return false;
        }
        i = i + 1;
    }
    true
}

/// Decides whether some subpass uses more than `max` color attachments.
pub fn check_color_limit(passes: &Vec<LayoutPassDescription>, max: u32) -> (r: bool)
    ensures
        r == exceeds_color_limit(passes@, max),
{
    let mut i: usize = 0;
    while i < passes.len()
        invariant
            i <= passes@.len(),
            forall|j: int| 0 <= j < i ==> passes@[j].color_attachments@.len() <= max,
        decreases passes@.len() - i,
    {
        if passes[i].color_attachments.len() as u64 > max as u64 {
            return true;
        }
        i = i + 1;
    }
    false
}

} // verus!
