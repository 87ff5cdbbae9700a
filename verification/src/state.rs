//! The per-run artifact accumulator.
//!
//! One value of `VllmState` owns everything a single run accumulates:
//! the current configuration snapshot (overwrite semantics), the ordered
//! list of compiled sub-units, the bucket of artifacts observed before any
//! unit exists, and the canonical split-graph link.  An artifact attaches to
//! whichever unit was most recently pushed at the moment it is added; that
//! decision is taken at add time and never revisited.

use vstd::prelude::*;

use crate::text::chars_of;
use crate::text::chars_start_with;
use crate::types::ArtifactInfo;
use crate::types::VllmCompilationConfig;
use crate::types::VllmSubgraphInfo;

verus! {

/// The accumulator for one run.
#[derive(Debug)]
pub struct VllmState {
    pub config: Option<VllmCompilationConfig>,
    pub piecewise_graph_file: Option<String>,
    pub subgraphs: Vec<VllmSubgraphInfo>,
    pub pre_subgraph_artifacts: Vec<ArtifactInfo>,
    pub has_vllm_artifacts: bool,
}

/// The index of the last `/` in `p`, or `-1` when there is none.
pub open spec fn last_slash(p: Seq<char>) -> int
    decreases p.len(),
{
    if p.len() == 0 {
        -1
    } else if p.last() == '/' {
        p.len() - 1
    } else {
        last_slash(p.drop_last())
    }
}

/// The index of the last `.` in `p`, or `-1` when there is none.
pub open spec fn last_dot(p: Seq<char>) -> int
    decreases p.len(),
{
    if p.len() == 0 {
        -1
    } else if p.last() == '.' {
        p.len() - 1
    } else {
        last_dot(p.drop_last())
    }
}

pub proof fn lemma_last_slash(p: Seq<char>)
    ensures
        -1 <= last_slash(p) < p.len(),
        last_slash(p) >= 0 ==> p[last_slash(p)] == '/',
        forall|j: int| last_slash(p) < j < p.len() ==> p[j] != '/',
    decreases p.len(),
{
    if p.len() > 0 && p.last() != '/' {
        lemma_last_slash(p.drop_last());
        assert forall|j: int| last_slash(p) < j < p.len() implies p[j] != '/' by {
            if j < p.len() - 1 {
                assert(p[j] == p.drop_last()[j]);
            }
        }
    }
}

pub proof fn lemma_last_dot(p: Seq<char>)
    ensures
        -1 <= last_dot(p) < p.len(),
        last_dot(p) >= 0 ==> p[last_dot(p)] == '.',
        forall|j: int| last_dot(p) < j < p.len() ==> p[j] != '.',
    decreases p.len(),
{
    if p.len() > 0 && p.last() != '.' {
        lemma_last_dot(p.drop_last());
        assert forall|j: int| last_dot(p) < j < p.len() implies p[j] != '.' by {
            if j < p.len() - 1 {
                assert(p[j] == p.drop_last()[j]);
            }
        }
    }
}

/// The final path component of `p`, as path inspection reads it:
/// trailing separators are ignored, a trailing `.` component is
/// normalized away, and a path that ends in `..` or holds no component
/// has none.
pub open spec fn spec_file_name(p: Seq<char>) -> Option<Seq<char>>
    decreases p.len(),
{
    if p.len() == 0 {
        None
    } else if p.last() == '/' {
        spec_file_name(p.drop_last())
    } else {
        let n = p.skip(last_slash(p) + 1);
        if n == ".."@ {
            None
        } else if n == "."@ {
            spec_file_name(p.drop_last())
        } else {
            Some(n)
        }
    }
}

/// The stem of the final path component: the component without its
/// extension.  A leading dot does not begin an extension.
pub open spec fn spec_file_stem(p: Seq<char>) -> Option<Seq<char>> {
    match spec_file_name(p) {
        None => None,
        Some(n) => {
            let d = last_dot(n);
            if d <= 0 {
                Some(n)
            } else {
                Some(n.take(d))
            }
        },
    }
}

/// The display name derived from a path: its stem, or the whole path when
/// it has no stem.
pub open spec fn spec_artifact_name(p: Seq<char>) -> Seq<char> {
    match spec_file_stem(p) {
        Some(st) => st,
        None => p,
    }
}

/// Whether an artifact name marks the canonical split-graph dump.
pub open spec fn is_split_graph_name(n: Seq<char>) -> bool {
    "vllm_piecewise_split_graph"@.is_prefix_of(n)
}

/// Whether an artifact reference carries the given name, url and suffix.
pub open spec fn artifact_matches(
    a: ArtifactInfo,
    name: Seq<char>,
    url: Seq<char>,
    suffix: Seq<char>,
) -> bool {
    a.name@ == name && a.url@ == url && a.suffix@ == suffix
}

/// How one `add_artifact` call changes the accumulator: the split-graph
/// slot is overwritten when the name carries the marker, and the new
/// artifact reference lands on the most recently pushed unit, or in the
/// pre-unit bucket when no unit exists yet.
pub open spec fn spec_added_artifact(
    pre: VllmState,
    post: VllmState,
    path: Seq<char>,
    suffix: Seq<char>,
) -> bool {
    let name = spec_artifact_name(path);
    &&& (if is_split_graph_name(name) {
        post.piecewise_graph_file matches Some(u) && u@ == path
    } else {
        post.piecewise_graph_file == pre.piecewise_graph_file
    })
    &&& if pre.subgraphs@.len() > 0 {
        &&& post.pre_subgraph_artifacts@ == pre.pre_subgraph_artifacts@
        &&& post.subgraphs@.len() == pre.subgraphs@.len()
        &&& (forall|i: int|
            0 <= i < pre.subgraphs@.len() - 1 ==> post.subgraphs@[i] == pre.subgraphs@[i])
        &&& unit_with_added(pre.subgraphs@.last(), post.subgraphs@.last(), name, path, suffix)
    } else {
        &&& post.subgraphs@ == pre.subgraphs@
        &&& post.pre_subgraph_artifacts@.len() == pre.pre_subgraph_artifacts@.len() + 1
        &&& post.pre_subgraph_artifacts@.take(pre.pre_subgraph_artifacts@.len() as int)
            == pre.pre_subgraph_artifacts@
        &&& artifact_matches(post.pre_subgraph_artifacts@.last(), name, path, suffix)
    }
}

/// The unit `post` is `pre` with one more artifact reference appended.
pub open spec fn unit_with_added(
    pre: VllmSubgraphInfo,
    post: VllmSubgraphInfo,
    name: Seq<char>,
    url: Seq<char>,
    suffix: Seq<char>,
) -> bool {
    &&& post.index == pre.index
    &&& post.submod_name == pre.submod_name
    &&& post.compile_range_start == pre.compile_range_start
    &&& post.compile_range_end == pre.compile_range_end
    &&& post.is_single_size == pre.is_single_size
    &&& post.is_cudagraph_size == pre.is_cudagraph_size
    &&& post.artifacts@.len() == pre.artifacts@.len() + 1
    &&& post.artifacts@.take(pre.artifacts@.len() as int) == pre.artifacts@
    &&& artifact_matches(post.artifacts@.last(), name, url, suffix)
}

/// Whether an artifact name carries one of the recognized pre-unit
/// prefixes.
pub open spec fn is_dynamo_artifact_name(n: Seq<char>) -> bool {
    ||| "dynamo_side_effects"@.is_prefix_of(n)
    ||| "dynamo_output_graph"@.is_prefix_of(n)
    ||| "dynamo_cpp_guards_str"@.is_prefix_of(n)
    ||| "compilation_metrics"@.is_prefix_of(n)
}

/// The artifacts of `s` with a recognized name prefix, in their original
/// order.
pub open spec fn spec_dynamo_artifacts(s: Seq<ArtifactInfo>) -> Seq<ArtifactInfo>
    decreases s.len(),
{
    if s.len() == 0 {
        Seq::empty()
    } else {
        spec_dynamo_artifacts(s.drop_last()) + (if is_dynamo_artifact_name(s.last().name@) {
            seq![s.last()]
        } else {
            Seq::<ArtifactInfo>::empty()
        })
    }
}

/// The bounds of the final path component, walking trailing separators
/// and `.` components off the end as the spec does.
pub(crate) fn file_name_range(cs: &Vec<char>) -> (r: Option<(usize, usize)>)
    ensures
        (r matches Some(se) ==> se.0 <= se.1 <= cs@.len() && spec_file_name(cs@) == Some(
            cs@.subrange(se.0 as int, se.1 as int),
        )),
        r is None ==> spec_file_name(cs@) is None,
{
    proof {
        reveal_strlit(".");
        reveal_strlit("..");
    }
    let mut end: usize = cs.len();
    proof {
        assert(cs@.take(cs@.len() as int) =~= cs@);
    }
    loop
        invariant
            end <= cs@.len(),
            spec_file_name(cs@) == spec_file_name(cs@.take(end as int)),
        decreases end,
    {
        let ghost pe = cs@.take(end as int);
        if end == 0 {
            proof {
                assert(pe =~= Seq::<char>::empty());
            }
            return None;
        }
        proof {
            assert(pe.last() == cs@[end - 1]);
        }
        if cs[end - 1] == '/' {
            proof {
                assert(pe.drop_last() =~= cs@.take(end as int - 1));
            }
            end = end - 1;
            continue ;
        }
        // Find where the final component of `cs[..end]` starts.
        let mut k: usize = end;
        while k > 0 && cs[k - 1] != '/'
            invariant
                k <= end <= cs@.len(),
                forall|j: int| k <= j < end ==> cs@[j] != '/',
            decreases k,
        {
            k = k - 1;
        }
        proof {
            reveal_strlit(".");
            reveal_strlit("..");
            lemma_last_slash(pe);
            assert forall|j: int| k <= j < end implies pe[j] != '/' by {
                assert(pe[j] == cs@[j]);
            }
            if k > 0 {
                assert(pe[k - 1] == '/');
                assert(last_slash(pe) == k - 1);
            } else {
                assert(last_slash(pe) == -1);
            }
            assert(pe.skip(last_slash(pe) + 1) =~= cs@.subrange(k as int, end as int));
        }
        let ghost n = pe.skip(last_slash(pe) + 1);
        if end - k == 1 && cs[k] == '.' {
            proof {
                assert(n =~= "."@);
                assert(pe.drop_last() =~= cs@.take(end as int - 1));
            }
            end = end - 1;
            continue ;
        }
        if end - k == 2 && cs[k] == '.' && cs[k + 1] == '.' {
            proof {
                assert(n =~= ".."@);
            }
            return None;
        }
        proof {
            assert(n != "."@) by {
                if n == "."@ {
                    assert(n.len() == 1 && n[0] == '.');
                }
            }
            assert(n != ".."@) by {
                if n == ".."@ {
                    assert(n.len() == 2 && n[0] == '.' && n[1] == '.');
                }
            }
        }
        return Some((k, end));
    }
}

/// The display name derived from a path, as executable code.
fn artifact_name_chars(cs: &Vec<char>) -> (r: Vec<char>)
    ensures
        r@ == spec_artifact_name(cs@),
{
    let (a, b) = match file_name_range(cs) {
        Some(se) => se,
        None => {
            // No usable component: fall back to the whole path.
            let mut r: Vec<char> = Vec::new();
            crate::text::push_chars(&mut r, cs);
            proof {
                assert(r@ =~= cs@);
            }
            return r;
        },
    };
    let name = crate::text::chars_range(cs, a, b);
    proof {
        lemma_last_dot(name@);
    }
    let d = crate::text::rfind_char(&name, '.');
    proof {
        if d > 0 {
            assert(last_dot(name@) == d - 1);
        } else {
            assert(last_dot(name@) == -1);
        }
    }
    if d >= 2 {
        // A dot after the first character ends the stem.
        crate::text::chars_range(&name, 0, d - 1)
    } else {
        proof {
            assert(name@.take(name@.len() as int) =~= name@);
        }
        name
    }
}

impl VllmState {
    /// A fresh accumulator: nothing observed yet.
    pub fn new() -> (r: VllmState)
        ensures
            r.config is None,
            r.piecewise_graph_file is None,
            r.subgraphs@ == Seq::<VllmSubgraphInfo>::empty(),
            r.pre_subgraph_artifacts@ == Seq::<ArtifactInfo>::empty(),
            !r.has_vllm_artifacts,
    {
        VllmState {
            config: None,
            piecewise_graph_file: None,
            subgraphs: Vec::new(),
            pre_subgraph_artifacts: Vec::new(),
            has_vllm_artifacts: false,
        }
    }

    /// Whether any domain artifact has been observed in this run.
    pub fn has_artifacts(&self) -> (r: bool)
        ensures
            r == self.has_vllm_artifacts,
    {
        self.has_vllm_artifacts
    }

    /// Replaces any prior configuration snapshot; never merges.
    pub fn set_config(&mut self, c: VllmCompilationConfig)
        ensures
            final(self).config == Some(c),
            final(self).has_vllm_artifacts,
            final(self).piecewise_graph_file == old(self).piecewise_graph_file,
            final(self).subgraphs == old(self).subgraphs,
            final(self).pre_subgraph_artifacts == old(self).pre_subgraph_artifacts,
    {
        self.config = Some(c);
        self.has_vllm_artifacts = true;
    }

    /// Appends a unit; subsequent artifacts attach to it.
    pub fn push_subgraph(&mut self, s: VllmSubgraphInfo)
        ensures
            final(self).subgraphs@ == old(self).subgraphs@.push(s),
            final(self).config == old(self).config,
            final(self).piecewise_graph_file == old(self).piecewise_graph_file,
            final(self).pre_subgraph_artifacts == old(self).pre_subgraph_artifacts,
            final(self).has_vllm_artifacts == old(self).has_vllm_artifacts,
    {
        self.subgraphs.push(s);
    }

    /// Marks that a domain artifact was observed.
    pub fn mark_artifacts_seen(&mut self)
        ensures
            final(self).has_vllm_artifacts,
            final(self).config == old(self).config,
            final(self).piecewise_graph_file == old(self).piecewise_graph_file,
            final(self).subgraphs == old(self).subgraphs,
            final(self).pre_subgraph_artifacts == old(self).pre_subgraph_artifacts,
    {
        self.has_vllm_artifacts = true;
    }

    /// The pre-unit artifacts whose names carry a recognized prefix, in
    /// discovery order: the filtered bucket shown as its own section.
    pub fn build_dynamo_artifacts(&self) -> (r: Vec<ArtifactInfo>)
        ensures
            r@ == spec_dynamo_artifacts(self.pre_subgraph_artifacts@),
    {
        let p0 = chars_of("dynamo_side_effects");
        let p1 = chars_of("dynamo_output_graph");
        let p2 = chars_of("dynamo_cpp_guards_str");
        let p3 = chars_of("compilation_metrics");
        let mut r: Vec<ArtifactInfo> = Vec::new();
        let mut i: usize = 0;
        while i < self.pre_subgraph_artifacts.len()
            invariant
                i <= self.pre_subgraph_artifacts@.len(),
                p0@ == "dynamo_side_effects"@,
                p1@ == "dynamo_output_graph"@,
                p2@ == "dynamo_cpp_guards_str"@,
                p3@ == "compilation_metrics"@,
                r@ == spec_dynamo_artifacts(self.pre_subgraph_artifacts@.take(i as int)),
            decreases self.pre_subgraph_artifacts@.len() - i,
        {
            let a = &self.pre_subgraph_artifacts[i];
            let name_cs = chars_of(a.name.as_str());
            let hit = chars_start_with(&name_cs, &p0) || chars_start_with(&name_cs, &p1)
                || chars_start_with(&name_cs, &p2) || chars_start_with(&name_cs, &p3);
            if hit {
                r.push(a.duplicate());
            }
            proof {
                let pre = self.pre_subgraph_artifacts@;
                assert(pre.take(i as int + 1).drop_last() =~= pre.take(i as int));
                assert(pre.take(i as int + 1).last() == pre[i as int]);
                if is_dynamo_artifact_name(pre[i as int].name@) {
                    assert(r@ =~= spec_dynamo_artifacts(pre.take(i as int)) + seq![pre[i as int]]);
                } else {
                    assert(r@ =~= spec_dynamo_artifacts(pre.take(i as int)) + Seq::<
                        ArtifactInfo,
                    >::empty());
                }
            }
            i = i + 1;
        }
        proof {
            assert(self.pre_subgraph_artifacts@.take(self.pre_subgraph_artifacts@.len() as int)
                =~= self.pre_subgraph_artifacts@);
        }
        r
    }

    /// Records an artifact written at `filename`: derives its display name
    /// from the file stem, tracks the canonical split-graph link, and
    /// attaches the reference to the most recently pushed unit, or to the
    /// pre-unit bucket when no unit exists.
    pub fn add_artifact(&mut self, filename: &str, suffix: String)
        ensures
            final(self).config == old(self).config,
            final(self).has_vllm_artifacts == old(self).has_vllm_artifacts,
            spec_added_artifact(*old(self), *final(self), filename@, suffix@),
    {
        let cs = chars_of(filename);
        let name_chars = artifact_name_chars(&cs);
        let marker = chars_of("vllm_piecewise_split_graph");
        let url: String = filename.to_owned();
        if chars_start_with(&name_chars, &marker) {
            self.piecewise_graph_file = Some(url.clone());
        }
        let name = crate::text::string_of(&name_chars);
        let artifact = ArtifactInfo { name, url, suffix };
        match self.subgraphs.pop() {
            Some(mut last) => {
                let ghost pre_arts = last.artifacts@;
                last.artifacts.push(artifact);
                self.subgraphs.push(last);
                proof {
                    assert(self.subgraphs@.last().artifacts@.take(pre_arts.len() as int)
                        =~= pre_arts);
                }
            },
            None => {
                let ghost pre_bucket = self.pre_subgraph_artifacts@;
                self.pre_subgraph_artifacts.push(artifact);
                proof {
                    assert(self.pre_subgraph_artifacts@.take(pre_bucket.len() as int)
                        =~= pre_bucket);
                }
            },
        }
    }
}

} // verus!
