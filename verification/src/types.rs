//! Data model of the accumulator and of the rendered summary.

use vstd::prelude::*;

use crate::text::{chars_of, dec_str_int, i32_dec_chars, i64_dec_chars, push_chars, string_of};

verus! {

/// A configuration snapshot taken from a log record.  Every field is
/// optional: a record may carry any subset of them.
#[derive(Debug, Clone)]
pub struct VllmCompilationConfig {
    pub model: Option<String>,
    pub prefix: Option<String>,
    pub mode: Option<String>,
    pub backend: Option<String>,
    pub custom_ops: Option<String>,
    pub splitting_ops: Option<String>,
    pub cudagraph_mode: Option<String>,
    pub compile_sizes: Option<String>,
    pub compile_ranges_split_points: Option<String>,
    pub use_inductor_graph_partition: Option<bool>,
    pub inductor_passes: Option<String>,
    pub enabled_passes: Option<String>,
    pub dynamic_shapes_type: Option<String>,
    pub dynamic_shapes_evaluate_guards: Option<bool>,
}

/// A pointer to an output file already written for an artifact, plus a short
/// display note.
#[derive(Debug, Clone)]
pub struct ArtifactInfo {
    pub name: String,
    pub url: String,
    pub suffix: String,
}

/// One compiled partition of the split graph.  `artifacts` holds the
/// artifacts attached to this unit, in the order they were added.
#[derive(Debug, Clone)]
pub struct VllmSubgraphInfo {
    pub index: i32,
    pub submod_name: Option<String>,
    pub compile_range_start: i64,
    pub compile_range_end: i64,
    pub is_single_size: bool,
    pub is_cudagraph_size: bool,
    pub artifacts: Vec<ArtifactInfo>,
}

/// One unit prepared for display, with its artifact count precomputed.
#[derive(Debug, Clone)]
pub struct VllmSubgraphWithArtifacts {
    pub submod_name: String,
    pub artifacts: Vec<ArtifactInfo>,
    pub artifact_count: usize,
}

/// All units sharing one display key, in insertion order.
#[derive(Debug, Clone)]
pub struct VllmCompileRangeGroup {
    pub size_or_range: String,
    pub submod_count: usize,
    pub submods: Vec<VllmSubgraphWithArtifacts>,
}

/// Everything the summary document shows.  Each optional section is gated by
/// a precomputed boolean so alternate renderers can reuse the same context.
#[derive(Debug, Clone)]
pub struct VllmSummaryContext {
    pub css: String,
    pub qps: String,
    pub custom_header_html: String,
    pub config: VllmCompilationConfig,
    pub has_config: bool,
    pub dynamo_artifacts: Vec<ArtifactInfo>,
    pub has_dynamo_artifacts: bool,
    pub piecewise_graph_file: Option<String>,
    pub has_piecewise: bool,
    pub compile_range_groups: Vec<VllmCompileRangeGroup>,
}

/// The display key of a unit: `size N` when the unit covers exactly one
/// size, else `range [start, end]`.
pub open spec fn spec_size_or_range(s: VllmSubgraphInfo) -> Seq<char> {
    if s.is_single_size {
        "size "@ + dec_str_int(s.compile_range_start as int)
    } else {
        "range ["@ + dec_str_int(s.compile_range_start as int) + ", "@ + dec_str_int(
            s.compile_range_end as int,
        ) + "]"@
    }
}

/// The display name of a unit: its own name, or `subgraph_<index>`.
pub open spec fn spec_display_submod_name(s: VllmSubgraphInfo) -> Seq<char> {
    match s.submod_name {
        Some(n) => n@,
        None => "subgraph_"@ + dec_str_int(s.index as int),
    }
}

/// The display key of a unit depends on its size flag and range bounds
/// alone: two units covering the same single size, or the same range,
/// carry the identical key whatever their discovery order, name or
/// artifacts — so they always land in one group.
pub proof fn lemma_key_depends_on_range_alone(a: VllmSubgraphInfo, b: VllmSubgraphInfo)
    requires
        a.is_single_size == b.is_single_size,
        a.compile_range_start == b.compile_range_start,
        a.compile_range_end == b.compile_range_end,
    ensures
        spec_size_or_range(a) == spec_size_or_range(b),
{
}

impl VllmSubgraphInfo {
    /// The display key under which this unit is grouped.
    pub fn size_or_range(&self) -> (r: String)
        ensures
            r@ == spec_size_or_range(*self),
    {
        if self.is_single_size {
            let mut cs = chars_of("size ");
            let ds = i64_dec_chars(self.compile_range_start);
            push_chars(&mut cs, &ds);
            string_of(&cs)
        } else {
            let mut cs = chars_of("range [");
            let ds = i64_dec_chars(self.compile_range_start);
            push_chars(&mut cs, &ds);
            let sep = chars_of(", ");
            push_chars(&mut cs, &sep);
            let de = i64_dec_chars(self.compile_range_end);
            push_chars(&mut cs, &de);
            let close = chars_of("]");
            push_chars(&mut cs, &close);
            string_of(&cs)
        }
    }

    /// The display name of this unit.
    pub fn display_submod_name(&self) -> (r: String)
        ensures
            r@ == spec_display_submod_name(*self),
    {
        match &self.submod_name {
            Some(n) => n.clone(),
            None => {
                let mut cs = chars_of("subgraph_");
                let ds = i32_dec_chars(self.index);
                push_chars(&mut cs, &ds);
                string_of(&cs)
            },
        }
    }
}

/// A clone of an optional string, known to equal the original.
pub fn clone_opt_string(o: &Option<String>) -> (r: Option<String>)
    ensures
        r == *o,
{
    match o {
        Some(s) => Some(s.clone()),
        None => None,
    }
}

impl ArtifactInfo {
    /// A copy of this artifact reference, known to equal the original.
    pub fn duplicate(&self) -> (r: ArtifactInfo)
        ensures
            r == *self,
    {
        ArtifactInfo { name: self.name.clone(), url: self.url.clone(), suffix: self.suffix.clone() }
    }
}

/// A copy of a list of artifact references, known to equal the original.
pub fn duplicate_artifacts(v: &Vec<ArtifactInfo>) -> (r: Vec<ArtifactInfo>)
    ensures
        r@ == v@,
{
    let mut r: Vec<ArtifactInfo> = Vec::new();
    let mut i: usize = 0;
    while i < v.len()
        invariant
            i <= v@.len(),
            r@ == v@.take(i as int),
        decreases v@.len() - i,
    {
        r.push(v[i].duplicate());
        proof {
            assert(v@.take(i as int) + seq![v@[i as int]] =~= v@.take(i as int + 1));
        }
        i = i + 1;
    }
    proof {
        assert(v@.take(v@.len() as int) =~= v@);
    }
    r
}

impl VllmCompilationConfig {
    /// A configuration with every field absent.
    pub fn empty() -> (r: VllmCompilationConfig)
        ensures
            r.model is None,
            r.prefix is None,
            r.mode is None,
            r.backend is None,
            r.custom_ops is None,
            r.splitting_ops is None,
            r.cudagraph_mode is None,
            r.compile_sizes is None,
            r.compile_ranges_split_points is None,
            r.use_inductor_graph_partition is None,
            r.inductor_passes is None,
            r.enabled_passes is None,
            r.dynamic_shapes_type is None,
            r.dynamic_shapes_evaluate_guards is None,
    {
        VllmCompilationConfig {
            model: None,
            prefix: None,
            mode: None,
            backend: None,
            custom_ops: None,
            splitting_ops: None,
            cudagraph_mode: None,
            compile_sizes: None,
            compile_ranges_split_points: None,
            use_inductor_graph_partition: None,
            inductor_passes: None,
            enabled_passes: None,
            dynamic_shapes_type: None,
            dynamic_shapes_evaluate_guards: None,
        }
    }

    /// A copy of this configuration, known to equal the original.
    pub fn duplicate(&self) -> (r: VllmCompilationConfig)
        ensures
            r == *self,
    {
        VllmCompilationConfig {
            model: clone_opt_string(&self.model),
            prefix: clone_opt_string(&self.prefix),
            mode: clone_opt_string(&self.mode),
            backend: clone_opt_string(&self.backend),
            custom_ops: clone_opt_string(&self.custom_ops),
            splitting_ops: clone_opt_string(&self.splitting_ops),
            cudagraph_mode: clone_opt_string(&self.cudagraph_mode),
            compile_sizes: clone_opt_string(&self.compile_sizes),
            compile_ranges_split_points: clone_opt_string(&self.compile_ranges_split_points),
            use_inductor_graph_partition: self.use_inductor_graph_partition,
            inductor_passes: clone_opt_string(&self.inductor_passes),
            enabled_passes: clone_opt_string(&self.enabled_passes),
            dynamic_shapes_type: clone_opt_string(&self.dynamic_shapes_type),
            dynamic_shapes_evaluate_guards: self.dynamic_shapes_evaluate_guards,
        }
    }
}

} // verus!
