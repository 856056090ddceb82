use vstd::prelude::*;

use smallvec::SmallVec;

use crate::description::{
    LayoutAttachmentDescription, LayoutPassDependencyDescription, LayoutPassDescription,
    check_color_limit, check_description, description_valid, exceeds_color_limit,
};
use crate::device::Device;
use crate::layout::{Layout, layout_code, load_code, store_code};
use crate::render_pass::RenderPassCreationError;

verus! {

/// Pipeline stage mask that covers every graphics stage.
pub const PIPELINE_STAGE_ALL_GRAPHICS: u32 = 0x8000;

/// Access mask that covers every kind of memory access.
pub const ACCESS_ALL: u32 = 0x0001FFFF;

/// Dependency flag that makes a dependency local to a framebuffer region.
pub const DEPENDENCY_BY_REGION: u32 = 0x1;

/// The engine's description of one attachment.
#[derive(Clone, Copy, Debug, PartialEq, Eq, Structural)]
pub struct AttachmentRecord {
    pub flags: u32,
    pub format: u32,
    pub samples: u32,
    pub load_op: u32,
    pub store_op: u32,
    pub stencil_load_op: u32,
    pub stencil_store_op: u32,
    pub initial_layout: u32,
    pub final_layout: u32,
}

/// The engine's reference from a subpass to an attachment.
#[derive(Clone, Copy, Debug, PartialEq, Eq, Structural)]
pub struct AttachmentReference {
    pub attachment: u32,
    pub layout: u32,
}

/// Where one subpass's references stand in the flattened arrays.
#[derive(Clone, Copy, Debug, PartialEq, Eq, Structural)]
pub struct SubpassRecord {
    pub color_offset: usize,
    pub color_count: usize,
    pub input_offset: usize,
    pub input_count: usize,
    pub resolve_offset: usize,
    pub resolve_count: usize,
    /// Position of the depth-stencil reference, if the subpass has one.
    pub depth_stencil: Option<usize>,
    pub preserve_offset: usize,
    pub preserve_count: usize,
}

/// The engine's description of a dependency between subpasses.
#[derive(Clone, Copy, Debug, PartialEq, Eq, Structural)]
pub struct DependencyRecord {
    pub src_subpass: u32,
    pub dst_subpass: u32,
    pub src_stage_mask: u32,
    pub dst_stage_mask: u32,
    pub src_access_mask: u32,
    pub dst_access_mask: u32,
    pub dependency_flags: u32,
}

/// Contiguous storage for the attachment references of all subpasses: a `smallvec::SmallVec`
/// that keeps up to sixteen references inline before it moves them to the heap.
#[verifier::external_body]
#[derive(Debug)]
pub struct ReferenceBuffer {
    items: SmallVec<[AttachmentReference; 16]>,
}

/// A buffer of `n` references can be allocated: growing to hold them at most doubles the
/// capacity, and the allocation of eight-byte references stays within `isize::MAX` bytes.
pub open spec fn references_fit(n: nat) -> bool {
    n * 16 <= isize::MAX
}

/// The references that a buffer holds, in order.
pub uninterp spec fn reference_items(v: ReferenceBuffer) -> Seq<AttachmentReference>;

impl ReferenceBuffer {
    /// Relies on `SmallVec::new`: the new vector holds no item.
    #[verifier::external_body]
    fn new() -> (r: ReferenceBuffer)
        ensures
            reference_items(r) == Seq::<AttachmentReference>::empty(),
    {
        ReferenceBuffer { items: SmallVec::new() }
    }

    /// Relies on `SmallVec::push`: the item is appended after the others. The push panics only
    /// when the grown capacity, the next power of two, overflows or its allocation would exceed
    /// `isize::MAX` bytes.
    #[verifier::external_body]
    fn push(&mut self, x: AttachmentReference)
        requires
            references_fit(reference_items(*old(self)).len() + 1),
        ensures
            reference_items(*final(self)) == reference_items(*old(self)).push(x),
    {
        self.items.push(x)
    }

    /// Relies on `SmallVec::len`: the number of items held.
    #[verifier::external_body]
    fn len(&self) -> (r: usize)
        ensures
            r == reference_items(*self).len(),
    {
        self.items.len()
    }

    /// Relies on `SmallVec::as_slice`: the items held, in order.
    #[verifier::external_body]
    fn as_slice(&self) -> (r: &[AttachmentReference])
        ensures
            r@ == reference_items(*self),
    {
        self.items.as_slice()
    }
}

/// The flattened arrays that the engine consumes to create a render pass.
#[derive(Debug)]
pub struct RenderPassDescriptors {
    pub attachments: Vec<AttachmentRecord>,
    /// For each subpass in order: color, then input, then resolve, then depth-stencil references.
    pub references: ReferenceBuffer,
    /// For each subpass in order: its preserved attachment indices.
    pub preserve: Vec<u32>,
    pub subpasses: Vec<SubpassRecord>,
    pub dependencies: Vec<DependencyRecord>,
}

// ---------------------------------------------------------------------------
// The model: what each record holds.

pub open spec fn attachment_record(a: LayoutAttachmentDescription) -> AttachmentRecord {
    AttachmentRecord {
        flags: 0,
        format: a.format,
        samples: a.samples,
        load_op: load_code(a.load),
        store_op: store_code(a.store),
        stencil_load_op: load_code(a.load),
        stencil_store_op: store_code(a.store),
        initial_layout: layout_code(a.initial_layout),
        final_layout: layout_code(a.final_layout),
    }
}

pub open spec fn reference(r: (usize, Layout)) -> AttachmentReference {
    AttachmentReference { attachment: r.0 as u32, layout: layout_code(r.1) }
}

pub open spec fn references_of(s: Seq<(usize, Layout)>) -> Seq<AttachmentReference> {
    s.map_values(|r: (usize, Layout)| reference(r))
}

pub open spec fn depth_stencil_references(d: Option<(usize, Layout)>) -> Seq<AttachmentReference> {
    match d {
        Some(r) => seq![reference(r)],
        None => Seq::empty(),
    }
}

/// A subpass's references in the order they are laid out.
pub open spec fn pass_references(p: LayoutPassDescription) -> Seq<AttachmentReference> {
    references_of(p.color_attachments@) + references_of(p.input_attachments@) + references_of(
        p.resolve_attachments@,
    ) + depth_stencil_references(p.depth_stencil)
}

/// Number of attachment references that one subpass contributes.
pub open spec fn pass_reference_count(p: LayoutPassDescription) -> nat {
    p.color_attachments@.len() + p.input_attachments@.len() + p.resolve_attachments@.len() + (
    if p.depth_stencil.is_some() {
        1nat
    } else {
        0nat
    })
}

/// All subpasses' references, one subpass after the other.
pub open spec fn flattened_references(passes: Seq<LayoutPassDescription>) -> Seq<
    AttachmentReference,
>
    decreases passes.len(),
{
    if passes.len() == 0 {
        Seq::empty()
    } else {
        flattened_references(passes.drop_last()) + pass_references(passes.last())
    }
}

/// Sum over the subpasses of the number of references each contributes.
pub open spec fn total_reference_count(passes: Seq<LayoutPassDescription>) -> nat
    decreases passes.len(),
{
    if passes.len() == 0 {
        0
    } else {
        total_reference_count(passes.drop_last()) + pass_reference_count(passes.last())
    }
}

pub open spec fn pass_preserve(p: LayoutPassDescription) -> Seq<u32> {
    p.preserve_attachments@.map_values(|x: usize| x as u32)
}

/// All subpasses' preserved attachment indices, one subpass after the other.
pub open spec fn flattened_preserve(passes: Seq<LayoutPassDescription>) -> Seq<u32>
    decreases passes.len(),
{
    if passes.len() == 0 {
        Seq::empty()
    } else {
        flattened_preserve(passes.drop_last()) + pass_preserve(passes.last())
    }
}

/// Where subpass `i`'s references begin in the flattened array.
pub open spec fn reference_offset(passes: Seq<LayoutPassDescription>, i: int) -> nat {
    flattened_references(passes.take(i)).len()
}

/// Where subpass `i`'s preserved indices begin in the flattened array.
pub open spec fn preserve_offset(passes: Seq<LayoutPassDescription>, i: int) -> nat {
    flattened_preserve(passes.take(i)).len()
}

pub open spec fn subpass_record(passes: Seq<LayoutPassDescription>, i: int) -> SubpassRecord {
    let p = passes[i];
    let base = reference_offset(passes, i);
    let c = p.color_attachments@.len();
    let n = p.input_attachments@.len();
    let s = p.resolve_attachments@.len();
    SubpassRecord {
        color_offset: base as usize,
        color_count: c as usize,
        input_offset: (base + c) as usize,
        input_count: n as usize,
        resolve_offset: (base + c + n) as usize,
        resolve_count: s as usize,
        depth_stencil: if p.depth_stencil.is_some() {
            Some((base + c + n + s) as usize)
        } else {
            None
        },
        preserve_offset: preserve_offset(passes, i) as usize,
        preserve_count: p.preserve_attachments@.len() as usize,
    }
}

pub open spec fn dependency_record(d: LayoutPassDependencyDescription) -> DependencyRecord {
    DependencyRecord {
        src_subpass: d.source_subpass as u32,
        dst_subpass: d.destination_subpass as u32,
        src_stage_mask: PIPELINE_STAGE_ALL_GRAPHICS,
        dst_stage_mask: PIPELINE_STAGE_ALL_GRAPHICS,
        src_access_mask: ACCESS_ALL,
        dst_access_mask: ACCESS_ALL,
        dependency_flags: if d.by_region {
            DEPENDENCY_BY_REGION
        } else {
            0
        },
    }
}

/// `d` holds exactly the engine's form of the given attachments, subpasses and dependencies.
pub open spec fn compiled_from(
    d: RenderPassDescriptors,
    attachments: Seq<LayoutAttachmentDescription>,
    passes: Seq<LayoutPassDescription>,
    dependencies: Seq<LayoutPassDependencyDescription>,
) -> bool {
    &&& d.attachments@ == attachments.map_values(|a: LayoutAttachmentDescription| attachment_record(a))
    &&& reference_items(d.references) == flattened_references(passes)
    &&& d.preserve@ == flattened_preserve(passes)
    &&& d.subpasses@.len() == passes.len()
    &&& forall|i: int| 0 <= i < passes.len() ==> d.subpasses@[i] == subpass_record(passes, i)
    &&& d.dependencies@ == dependencies.map_values(
        |x: LayoutPassDependencyDescription| dependency_record(x),
    )
}

/// The position just past a subpass's last attachment reference.
pub open spec fn record_reference_end(r: SubpassRecord) -> nat {
    (r.resolve_offset + r.resolve_count + if r.depth_stencil.is_some() {
        1int
    } else {
        0int
    }) as nat
}

proof fn lemma_pass_references_len(p: LayoutPassDescription)
    ensures
        pass_references(p).len() == pass_reference_count(p),
{
}

proof fn lemma_offset_step(passes: Seq<LayoutPassDescription>, k: int)
    requires
        0 <= k < passes.len(),
    ensures
        reference_offset(passes, k + 1) == reference_offset(passes, k) + pass_reference_count(
            passes[k],
        ),
{
    lemma_take_step(passes, k);
    lemma_pass_references_len(passes[k]);
}

proof fn lemma_offset_monotone(passes: Seq<LayoutPassDescription>, a: int, b: int)
    requires
        0 <= a <= b <= passes.len(),
    ensures
        reference_offset(passes, a) <= reference_offset(passes, b),
    decreases b - a,
{
    if a < b {
        lemma_offset_monotone(passes, a, b - 1);
        lemma_offset_step(passes, b - 1);
    }
}

/// The flattened reference array holds exactly as many references as the subpasses use:
/// for each subpass its color, input and resolve references and its depth-stencil reference
/// if it has one.
pub proof fn lemma_flattened_length(passes: Seq<LayoutPassDescription>)
    ensures
        flattened_references(passes).len() == total_reference_count(passes),
    decreases passes.len(),
{
    if passes.len() > 0 {
        lemma_flattened_length(passes.drop_last());
        lemma_pass_references_len(passes.last());
    }
}

/// The range of references that a subpass's record covers ends before the range of any later
/// subpass begins, so no two subpasses share a position of the flattened array.
pub proof fn lemma_subpass_ranges_disjoint(passes: Seq<LayoutPassDescription>, i: int, j: int)
    requires
        0 <= i < j < passes.len(),
        total_reference_count(passes) <= usize::MAX,
    ensures
        record_reference_end(subpass_record(passes, i)) <= subpass_record(passes, j).color_offset,
{
    lemma_offset_step(passes, i);
    lemma_offset_monotone(passes, i + 1, j);
    lemma_offset_monotone(passes, j, passes.len() as int);
    lemma_flattened_length(passes);
    assert(passes.take(passes.len() as int) =~= passes);
}

// ---------------------------------------------------------------------------
// Flattening.

fn push_references(out: &mut ReferenceBuffer, s: &Vec<(usize, Layout)>)
    requires
        references_fit(reference_items(*old(out)).len() + s@.len()),
    ensures
        reference_items(*final(out)) == reference_items(*old(out)) + references_of(s@),
{
    let mut k: usize = 0;
    while k < s.len()
        invariant
            k <= s@.len(),
            references_fit(reference_items(*old(out)).len() + s@.len()),
            reference_items(*out) == reference_items(*old(out)) + references_of(s@.take(k as int)),
        decreases s@.len() - k,
    {
        let (x, l) = s[k];
        out.push(AttachmentReference { attachment: x as u32, layout: l.code() });
        assert(references_of(s@.take(k as int + 1)) =~= references_of(s@.take(k as int)).push(
            reference(s@[k as int]),
        ));
        k = k + 1;
    }
    assert(s@.take(k as int) =~= s@);
}

fn push_preserve(out: &mut Vec<u32>, p: &LayoutPassDescription)
    ensures
        final(out)@ == old(out)@ + pass_preserve(*p),
{
    let s = &p.preserve_attachments;
    let mut k: usize = 0;
    while k < s.len()
        invariant
            k <= s@.len(),
            s == &p.preserve_attachments,
            out@ == old(out)@ + s@.take(k as int).map_values(|x: usize| x as u32),
        decreases s@.len() - k,
    {
        out.push(s[k] as u32);
        assert(s@.take(k as int + 1).map_values(|x: usize| x as u32) =~= s@.take(
            k as int,
        ).map_values(|x: usize| x as u32).push(s@[k as int] as u32));
        k = k + 1;
    }
    assert(s@.take(k as int) =~= s@);
}

fn attachment_records(attachments: &Vec<LayoutAttachmentDescription>) -> (r: Vec<AttachmentRecord>)
    ensures
        r@ == attachments@.map_values(|a: LayoutAttachmentDescription| attachment_record(a)),
{
    let mut out: Vec<AttachmentRecord> = Vec::new();
    let mut i: usize = 0;
    while i < attachments.len()
        invariant
            i <= attachments@.len(),
            out@ == attachments@.take(i as int).map_values(
                |a: LayoutAttachmentDescription| attachment_record(a),
            ),
        decreases attachments@.len() - i,
    {
        let a = attachments[i];
        out.push(
            AttachmentRecord {
                flags: 0,
                format: a.format,
                samples: a.samples,
                load_op: a.load.code(),
                store_op: a.store.code(),
                stencil_load_op: a.load.code(),
                stencil_store_op: a.store.code(),
                initial_layout: a.initial_layout.code(),
                final_layout: a.final_layout.code(),
            },
        );
        assert(attachments@.take(i as int + 1).map_values(
            |a: LayoutAttachmentDescription| attachment_record(a),
        ) =~= attachments@.take(i as int).map_values(
            |a: LayoutAttachmentDescription| attachment_record(a),
        ).push(attachment_record(attachments@[i as int])));
        i = i + 1;
    }
    assert(attachments@.take(i as int) =~= attachments@);
    out
}

fn dependency_records(dependencies: &Vec<LayoutPassDependencyDescription>) -> (r: Vec<
    DependencyRecord,
>)
    ensures
        r@ == dependencies@.map_values(|x: LayoutPassDependencyDescription| dependency_record(x)),
{
    let mut out: Vec<DependencyRecord> = Vec::new();
    let mut i: usize = 0;
    while i < dependencies.len()
        invariant
            i <= dependencies@.len(),
            out@ == dependencies@.take(i as int).map_values(
                |x: LayoutPassDependencyDescription| dependency_record(x),
            ),
        decreases dependencies@.len() - i,
    {
        let d = dependencies[i];
        out.push(
            DependencyRecord {
                src_subpass: d.source_subpass as u32,
                dst_subpass: d.destination_subpass as u32,
                src_stage_mask: PIPELINE_STAGE_ALL_GRAPHICS,
                dst_stage_mask: PIPELINE_STAGE_ALL_GRAPHICS,
                src_access_mask: ACCESS_ALL,
                dst_access_mask: ACCESS_ALL,
                dependency_flags: if d.by_region {
                    DEPENDENCY_BY_REGION
                } else {
                    0
                },
            },
        );
        assert(dependencies@.take(i as int + 1).map_values(
            |x: LayoutPassDependencyDescription| dependency_record(x),
        ) =~= dependencies@.take(i as int).map_values(
            |x: LayoutPassDependencyDescription| dependency_record(x),
        ).push(dependency_record(dependencies@[i as int])));
        i = i + 1;
    }
    assert(dependencies@.take(i as int) =~= dependencies@);
    out
}

proof fn lemma_take_step<A>(s: Seq<A>, i: int)
    requires
        0 <= i < s.len(),
    ensures
        s.take(i + 1).drop_last() == s.take(i),
        s.take(i + 1).last() == s[i],
        s.take(i + 1).len() == i + 1,
{
    assert(s.take(i + 1).drop_last() =~= s.take(i));
}

impl RenderPassDescriptors {
    /// The references of all subpasses: for each subpass in order, its color, input and resolve
    /// references, then its depth-stencil reference if it has one.
    pub fn references(&self) -> (r: &[AttachmentReference])
        ensures
            r@ == reference_items(self.references),
    {
        self.references.as_slice()
    }

    /// Validates a render pass description against the rules and the device's limit on color
    /// attachments, and lays it out as the flat arrays that the engine consumes.
    pub fn compile(
        device: &Device,
        attachments: &Vec<LayoutAttachmentDescription>,
        passes: &Vec<LayoutPassDescription>,
        dependencies: &Vec<LayoutPassDependencyDescription>,
    ) -> (r: Result<RenderPassDescriptors, RenderPassCreationError>)
        requires
            passes@.len() > 0,
            attachments@.len() <= u32::MAX,
            passes@.len() <= u32::MAX,
            references_fit(total_reference_count(passes@)),
        ensures
            r is Err <==> !description_valid(attachments@, passes@, dependencies@)
                || exceeds_color_limit(passes@, device.max_color_attachments),
            !description_valid(attachments@, passes@, dependencies@) ==> r == Err::<
                RenderPassDescriptors,
                RenderPassCreationError,
            >(RenderPassCreationError::InvalidDescription),
            description_valid(attachments@, passes@, dependencies@) && exceeds_color_limit(
                passes@,
                device.max_color_attachments,
            ) ==> r == Err::<RenderPassDescriptors, RenderPassCreationError>(
                RenderPassCreationError::ColorAttachmentsLimitExceeded,
            ),
            r matches Ok(d) ==> compiled_from(d, attachments@, passes@, dependencies@),
    {
        if !check_description(attachments, passes, dependencies) {
            return Err(RenderPassCreationError::InvalidDescription);
        }
        if check_color_limit(passes, device.max_color_attachments()) {
            return Err(RenderPassCreationError::ColorAttachmentsLimitExceeded);
        }
        let records = attachment_records(attachments);
        let mut references = ReferenceBuffer::new();
        proof {
            lemma_flattened_length(passes@);
            assert(passes@.take(passes@.len() as int) =~= passes@);
        }
        let mut preserve: Vec<u32> = Vec::new();
        let mut subpasses: Vec<SubpassRecord> = Vec::new();
        let mut i: usize = 0;
        while i < passes.len()
            invariant
                i <= passes@.len(),
                reference_items(references) == flattened_references(passes@.take(i as int)),
                references_fit(total_reference_count(passes@)),
                reference_offset(passes@, passes@.len() as int) == total_reference_count(passes@),
                preserve@ == flattened_preserve(passes@.take(i as int)),
                subpasses@.len() == i,
                forall|j: int| 0 <= j < i ==> subpasses@[j] == subpass_record(passes@, j),
            decreases passes@.len() - i,
        {
            let p = &passes[i];
            proof {
                lemma_offset_step(passes@, i as int);
                lemma_offset_monotone(passes@, i as int + 1, passes@.len() as int);
            }
            let color_offset = references.len();
            push_references(&mut references, &p.color_attachments);
            let input_offset = references.len();
            push_references(&mut references, &p.input_attachments);
            let resolve_offset = references.len();
            push_references(&mut references, &p.resolve_attachments);
            let depth_stencil = match p.depth_stencil {
                Some(ds) => {
                    let at = references.len();
                    references.push(
                        AttachmentReference { attachment: ds.0 as u32, layout: ds.1.code() },
                    );
                    Some(at)
                },
                None => None,
            };
            let preserve_offset = preserve.len();
            push_preserve(&mut preserve, p);
            subpasses.push(
                SubpassRecord {
                    color_offset,
                    color_count: p.color_attachments.len(),
                    input_offset,
                    input_count: p.input_attachments.len(),
                    resolve_offset,
                    resolve_count: p.resolve_attachments.len(),
                    depth_stencil,
                    preserve_offset,
                    preserve_count: p.preserve_attachments.len(),
                },
            );
            proof {
                lemma_take_step(passes@, i as int);
                assert(reference_items(references) =~= flattened_references(
                    passes@.take(i as int + 1),
                ));
                assert(preserve@ =~= flattened_preserve(passes@.take(i as int + 1)));
                assert(subpasses@[i as int] == subpass_record(passes@, i as int));
            }
            i = i + 1;
        }
        assert(passes@.take(i as int) =~= passes@);
        let dependency_list = dependency_records(dependencies);
        Ok(
            RenderPassDescriptors {
                attachments: records,
                references,
                preserve,
                subpasses,
                dependencies: dependency_list,
            },
        )
    }
}

} // verus!
