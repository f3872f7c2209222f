//! Static kernel wrappers: a raw source template bound to element-type
//! parameters, numeric working settings and a dispatch grid, under a stable
//! identity the compute substrate deduplicates compiled kernels by.

use vstd::prelude::*;
use crate::element::ElementType;
use crate::template::{spec_binding_for, SourceTemplate, TemplatePartView};
use crate::workgroup::{WorkGroup, WORKGROUP_DEFAULT};

verus! {

/// The source of a static kernel: which raw template it is built from and
/// the element types registered into the template's placeholders.
#[derive(Clone, Copy, PartialEq, Eq, Structural, Debug, Hash)]
pub enum StaticKernelSource {
    /// The numeric cast template, converting every element of the input
    /// type into the output type.
    Cast { input_elem: ElementType, output_elem: ElementType },
    /// The boolean cast template, reading every input word strictly as a
    /// predicate and writing the canonical zero or one of the output type.
    BoolCast { output_elem: ElementType },
}

/// The exact part sequence of the raw numeric cast template: literal
/// shader text around the `input_elem` and `output_elem` placeholders, with
/// a bounds guard around the write.
pub open spec fn spec_cast_template_parts() -> Seq<TemplatePartView> {
    seq![
        TemplatePartView::Literal("@group(0) @binding(0) var<storage, read> input: array<"@),
        TemplatePartView::Placeholder("input_elem"@),
        TemplatePartView::Literal(
            ">;\n@group(0) @binding(1) var<storage, read_write> output: array<"@,
        ),
        TemplatePartView::Placeholder("output_elem"@),
        TemplatePartView::Literal(
            ">;\n\n@compute @workgroup_size(32, 32, 1)\nfn main(@builtin(global_invocation_id) id: vec3<u32>, @builtin(num_workgroups) grid: vec3<u32>) {\n    let i = id.y * (grid.x * 32u) + id.x;\n    if i < arrayLength(&output) {\n        output[i] = "@,
        ),
        TemplatePartView::Placeholder("output_elem"@),
        TemplatePartView::Literal("(input[i]);\n    }\n}\n"@),
    ]
}

/// The exact part sequence of the raw boolean cast template: the input is
/// fixed as an array of boolean words, and any non-zero word selects the
/// canonical one of the output type, the zero word its canonical zero.
pub open spec fn spec_bool_cast_template_parts() -> Seq<TemplatePartView> {
    seq![
        TemplatePartView::Literal(
            "@group(0) @binding(0) var<storage, read> input: array<u32>;\n@group(0) @binding(1) var<storage, read_write> output: array<"@,
        ),
        TemplatePartView::Placeholder("output_elem"@),
        TemplatePartView::Literal(
            ">;\n\n@compute @workgroup_size(32, 32, 1)\nfn main(@builtin(global_invocation_id) id: vec3<u32>, @builtin(num_workgroups) grid: vec3<u32>) {\n    let i = id.y * (grid.x * 32u) + id.x;\n    if i < arrayLength(&output) {\n        output[i] = select("@,
        ),
        TemplatePartView::Placeholder("output_elem"@),
        TemplatePartView::Literal("(0), "@),
        TemplatePartView::Placeholder("output_elem"@),
        TemplatePartView::Literal("(1), input[i] != 0u);\n    }\n}\n"@),
    ]
}

/// The raw numeric cast template, built part for part as
/// `spec_cast_template_parts` states, with nothing registered yet.
fn cast_template() -> (t: SourceTemplate)
    ensures
        t.spec_parts() =~= spec_cast_template_parts(),
        t.spec_bindings() =~= Seq::<(Seq<char>, Seq<char>)>::empty(),
{
    SourceTemplate::new()
        .literal("@group(0) @binding(0) var<storage, read> input: array<")
        .placeholder("input_elem")
        .literal(
            ">;\n@group(0) @binding(1) var<storage, read_write> output: array<",
        )
        .placeholder("output_elem")
        .literal(
            ">;\n\n@compute @workgroup_size(32, 32, 1)\nfn main(@builtin(global_invocation_id) id: vec3<u32>, @builtin(num_workgroups) grid: vec3<u32>) {\n    let i = id.y * (grid.x * 32u) + id.x;\n    if i < arrayLength(&output) {\n        output[i] = ",
        )
        .placeholder("output_elem")
        .literal("(input[i]);\n    }\n}\n")
}

/// The raw boolean cast template, built part for part as
/// `spec_bool_cast_template_parts` states, with nothing registered yet.
fn bool_cast_template() -> (t: SourceTemplate)
    ensures
        t.spec_parts() =~= spec_bool_cast_template_parts(),
        t.spec_bindings() =~= Seq::<(Seq<char>, Seq<char>)>::empty(),
{
    SourceTemplate::new()
        .literal("@group(0) @binding(0) var<storage, read> input: array<u32>;\n@group(0) @binding(1) var<storage, read_write> output: array<")
        .placeholder("output_elem")
        .literal(
            ">;\n\n@compute @workgroup_size(32, 32, 1)\nfn main(@builtin(global_invocation_id) id: vec3<u32>, @builtin(num_workgroups) grid: vec3<u32>) {\n    let i = id.y * (grid.x * 32u) + id.x;\n    if i < arrayLength(&output) {\n        output[i] = select(",
        )
        .placeholder("output_elem")
        .literal("(0), ")
        .placeholder("output_elem")
        .literal("(1), input[i] != 0u);\n    }\n}\n")
}

/// The specialized template a kernel source produces: the raw template's
/// exact parts, with exactly the element-type name tags registered that the
/// variant binds. Together with the template engine's rendering spec this
/// determines the concrete kernel source completely.
pub open spec fn spec_template_for(kind: StaticKernelSource, t: SourceTemplate) -> bool {
    match kind {
        StaticKernelSource::Cast { input_elem, output_elem } => {
            &&& t.spec_parts() == spec_cast_template_parts()
            &&& t.spec_bindings() == seq![
                ("input_elem"@, input_elem.spec_name_tag()),
                ("output_elem"@, output_elem.spec_name_tag()),
            ]
        },
        StaticKernelSource::BoolCast { output_elem } => {
            &&& t.spec_parts() == spec_bool_cast_template_parts()
            &&& t.spec_bindings() == seq![("output_elem"@, output_elem.spec_name_tag())]
        },
    }
}

impl StaticKernelSource {
    /// Produces the kernel's source template: the raw template with the
    /// element-type name tags registered into its placeholders, and nothing
    /// else. The numeric cast binds both placeholders; the boolean cast
    /// binds only the output, its input being fixed as boolean words.
    /// Registration is a functional update, so the raw template itself is
    /// never mutated and the call is deterministic.
    pub fn source(&self) -> (t: SourceTemplate)
        ensures
            spec_template_for(*self, t),
            match *self {
                StaticKernelSource::Cast { input_elem, output_elem } => {
                    &&& spec_binding_for(t.spec_bindings(), "input_elem"@) == Some(
                        input_elem.spec_name_tag(),
                    )
                    &&& spec_binding_for(t.spec_bindings(), "output_elem"@) == Some(
                        output_elem.spec_name_tag(),
                    )
                },
                StaticKernelSource::BoolCast { output_elem } => {
                    &&& spec_binding_for(t.spec_bindings(), "output_elem"@) == Some(
                        output_elem.spec_name_tag(),
                    )
                    &&& spec_binding_for(t.spec_bindings(), "input_elem"@) is None
                },
            },
    {
        proof {
            reveal_strlit("input_elem");
            reveal_strlit("output_elem");
            assert("input_elem"@.len() == 10);
            assert("output_elem"@.len() == 11);
        }
        match self {
            StaticKernelSource::Cast { input_elem, output_elem } => {
                let t = cast_template().register("input_elem", input_elem.name_tag()).register(
                    "output_elem",
                    output_elem.name_tag(),
                );
                proof {
                    let bs = t.spec_bindings();
                    assert(bs =~= seq![
                        ("input_elem"@, input_elem.spec_name_tag()),
                        ("output_elem"@, output_elem.spec_name_tag()),
                    ]);
                    assert("input_elem"@ != "output_elem"@);
                    assert(bs.skip(1) =~= seq![bs[1]]);
                    assert(spec_binding_for(bs.skip(1), "output_elem"@) == Some(
                        output_elem.spec_name_tag(),
                    ));
                    assert(spec_binding_for(bs, "input_elem"@) == Some(
                        input_elem.spec_name_tag(),
                    ));
                }
                t
            },
            StaticKernelSource::BoolCast { output_elem } => {
                let t = bool_cast_template().register("output_elem", output_elem.name_tag());
                proof {
                    let bs = t.spec_bindings();
                    assert(bs =~= seq![("output_elem"@, output_elem.spec_name_tag())]);
                    assert("input_elem"@ != "output_elem"@);
                    assert(bs.skip(1) =~= Seq::<(Seq<char>, Seq<char>)>::empty());
                    assert(spec_binding_for(bs.skip(1), "input_elem"@) is None);
                }
                t
            },
        }
    }
}

/// The numeric working settings and workgroup shape a kernel is compiled
/// with: which representations generic kernel code uses for intermediate
/// floating and integer values, and the per-workgroup invocation shape.
#[derive(Clone, Copy, PartialEq, Eq, Structural, Debug, Hash)]
pub struct KernelSettings {
    pub float_rep: ElementType,
    pub int_rep: ElementType,
    pub workgroup_x: u32,
    pub workgroup_y: u32,
    pub workgroup_z: u32,
}

impl KernelSettings {
    /// The settings element-wise kernels are dispatched with: single
    /// precision intermediates and the default workgroup shape.
    pub open spec fn spec_default() -> KernelSettings {
        KernelSettings {
            float_rep: ElementType::F32,
            int_rep: ElementType::I32,
            workgroup_x: WORKGROUP_DEFAULT,
            workgroup_y: WORKGROUP_DEFAULT,
            workgroup_z: 1,
        }
    }
}

impl Default for KernelSettings {
    fn default() -> (r: Self)
        ensures
            r == KernelSettings::spec_default(),
    {
        KernelSettings {
            float_rep: ElementType::F32,
            int_rep: ElementType::I32,
            workgroup_x: WORKGROUP_DEFAULT,
            workgroup_y: WORKGROUP_DEFAULT,
            workgroup_z: 1,
        }
    }
}

/// The stable identity of a compiled kernel: the raw template, the
/// placeholder values registered into it, the numeric settings and the
/// workgroup shape — everything the compiled artifact depends on, and
/// nothing else. Two invocations with equal identities must be treated as
/// the same compiled kernel.
#[derive(Clone, Copy, PartialEq, Eq, Structural, Debug, Hash)]
pub struct KernelIdentity {
    pub source: StaticKernelSource,
    pub settings: KernelSettings,
}

/// A schedulable kernel: a pure descriptor binding a specialized source
/// template, numeric settings and a dispatch grid. It holds no device
/// resources; execution is delegated to the compute client.
#[derive(Clone, Copy, PartialEq, Eq, Structural, Debug, Hash)]
pub struct StaticKernel {
    pub kind: StaticKernelSource,
    pub settings: KernelSettings,
    pub grid: WorkGroup,
}

impl StaticKernel {
    /// The kernel's stable identity: determined by the source specialization
    /// and the settings alone, never by the dispatch grid, so that every
    /// tensor size reuses the one compiled artifact.
    pub open spec fn spec_id(self) -> KernelIdentity {
        KernelIdentity { source: self.kind, settings: self.settings }
    }

    pub fn new(kind: StaticKernelSource, settings: KernelSettings, grid: WorkGroup) -> (k: Self)
        ensures
            k == (StaticKernel { kind, settings, grid }),
    {
        StaticKernel { kind, settings, grid }
    }

    /// The identity the compute substrate caches the compiled kernel under.
    pub fn id(&self) -> (r: KernelIdentity)
        ensures
            r == self.spec_id(),
    {
        KernelIdentity { source: self.kind, settings: self.settings }
    }

    /// The kernel's specialized source template: the raw template of its
    /// variant with exactly the element-type name tags registered.
    pub fn source(&self) -> (t: SourceTemplate)
        ensures
            spec_template_for(self.kind, t),
    {
        self.kind.source()
    }
}

/// Kernel identity stability: two kernels have equal identities exactly
/// when they agree on the template, the element types registered into it,
/// the numeric settings and the workgroup shape — the dispatch grid plays
/// no part.
pub proof fn lemma_kernel_identity_stability(a: StaticKernel, b: StaticKernel)
    ensures
        (a.spec_id() == b.spec_id()) <==> (a.kind == b.kind && a.settings == b.settings),
{
}

} // verus!
