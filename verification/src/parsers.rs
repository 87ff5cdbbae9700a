//! Record dispatch: the extractor registry and the extractors themselves.
//!
//! Each record is routed to at most one extractor: the registry is
//! ordered, and only the first extractor whose `get_metadata` matches the
//! record runs.  Extractors mutate the accumulator and emit instructions
//! for files to be written under the output root, named so that two
//! records can never collide: the name carries the compile id when the
//! record has one, and the line number otherwise.

use vstd::prelude::*;

use crate::json::config_decodes;
use crate::json::config_matches;
use crate::json::json_model_of;
use crate::json::JsonNode;
use crate::json::parse_config_payload;
use crate::json::parse_subgraph_payload;
use crate::json::subgraph_decodes;
use crate::json::subgraph_matches;
use crate::state::VllmState;
use crate::text::chars_of;
use crate::text::chars_eq;
use crate::text::chars_start_with;
use crate::text::dec_str;
use crate::text::digit_char;
use crate::text::push_chars;
use crate::text::string_of;
use crate::text::u32_dec_chars;
use crate::text::u64_dec_chars;
use crate::types::VllmCompilationConfig;
use crate::types::VllmSubgraphInfo;

verus! {

/// Identifies one compile unit; orders and namespaces its output files.
#[derive(Debug, Clone, PartialEq, Eq, Structural)]
pub struct CompileId {
    pub compiled_autograd_id: Option<u32>,
    pub frame_id: Option<u32>,
    pub frame_compile_id: Option<u32>,
    pub attempt: Option<u32>,
}

/// The artifact descriptor of a record, when it carries one.
#[derive(Debug, Clone)]
pub struct ArtifactDescriptor {
    pub name: String,
}

/// The graph-dump descriptor of a record, when it carries one.
#[derive(Debug, Clone)]
pub struct GraphDumpDescriptor {
    pub name: String,
}

/// One parsed log record, as far as dispatch reads it.
#[derive(Debug, Clone)]
pub struct Envelope {
    pub artifact: Option<ArtifactDescriptor>,
    pub graph_dump: Option<GraphDumpDescriptor>,
}

/// What `get_metadata` matched on.
#[derive(Debug, Clone, Copy, PartialEq, Eq, Structural)]
pub enum Metadata {
    Artifact,
    GraphDump,
}

/// One instruction to the surrounding pipeline: write the record's payload
/// at a path, either verbatim or reformatted.
#[derive(Debug, Clone)]
pub enum ExtractionResult {
    EmitRawFile(String),
    EmitTransformedFile(String, Transform),
}

/// How an emitted payload is transformed before it is written.
#[derive(Debug, Clone, Copy, PartialEq, Eq, Structural)]
pub enum Transform {
    PrettyJson,
}

/// The decimal rendering of an optional id, `-` when absent.
pub open spec fn spec_opt_id(v: Option<u32>) -> Seq<char> {
    match v {
        Some(n) => dec_str(n as nat),
        None => "-"@,
    }
}

/// The directory that namespaces one compile unit's output files.
pub open spec fn spec_compile_dir(c: CompileId) -> Seq<char> {
    spec_opt_id(c.compiled_autograd_id) + "_"@ + spec_opt_id(c.frame_id) + "_"@ + spec_opt_id(
        c.frame_compile_id,
    ) + "_"@ + spec_opt_id(c.attempt)
}

/// The collision-free output path of an emitted file: namespaced by the
/// compile id when the record has one, by the line number otherwise.
pub open spec fn spec_file_path(filename: Seq<char>, lineno: nat, cid: Option<CompileId>) -> Seq<
    char,
> {
    (match cid {
        Some(c) => spec_compile_dir(c),
        None => "unknown_"@ + dec_str(lineno),
    }) + "/"@ + filename
}

/// The naming rule is collision-free across records without a compile
/// id: two such records on different lines never emit to the same path,
/// whatever their file names.
pub proof fn lemma_line_numbers_disambiguate(f1: Seq<char>, f2: Seq<char>, l1: nat, l2: nat)
    requires
        l1 != l2,
    ensures
        spec_file_path(f1, l1, None) != spec_file_path(f2, l2, None),
{
    reveal_strlit("unknown_");
    reveal_strlit("/");
    let a = dec_str(l1);
    let b = dec_str(l2);
    let p1 = spec_file_path(f1, l1, None);
    let p2 = spec_file_path(f2, l2, None);
    crate::text::lemma_dec_str_value(l1);
    crate::text::lemma_dec_str_value(l2);
    if p1 == p2 {
        lemma_dec_str_only_digits(l1);
        lemma_dec_str_only_digits(l2);
        // Both paths read `unknown_<digits>/...`; the digit runs end at
        // the first `/`, so they have one length and are equal.
        let la = a.len() as int;
        let lb = b.len() as int;
        assert(p1[8 + la] == '/');
        assert(p2[8 + lb] == '/');
        if la < lb {
            assert(p2[8 + la] == b[la]);
            assert(crate::text::is_dec_digit(b[la]));
            assert(false);
        }
        if lb < la {
            assert(p1[8 + lb] == a[lb]);
            assert(crate::text::is_dec_digit(a[lb]));
            assert(false);
        }
        assert forall|i: int| 0 <= i < la implies a[i] == b[i] by {
            assert(p1[8 + i] == a[i]);
            assert(p2[8 + i] == b[i]);
        }
        assert(a =~= b);
        assert(l1 == l2);
    }
}

/// A decimal rendering holds digit characters only, so it never holds a
/// path separator.
proof fn lemma_dec_str_only_digits(n: nat)
    ensures
        forall|i: int|
            0 <= i < dec_str(n).len() ==> crate::text::is_dec_digit(#[trigger] dec_str(n)[i]),
    decreases n,
{
    if n >= 10 {
        lemma_dec_str_only_digits(n / 10);
        assert forall|i: int|
            0 <= i < dec_str(n).len() implies crate::text::is_dec_digit(
            #[trigger] dec_str(n)[i],
        ) by {
            if i < dec_str(n).len() - 1 {
                assert(dec_str(n)[i] == dec_str(n / 10)[i]);
            } else {
                assert(dec_str(n)[i] == digit_char(n % 10));
            }
        }
    }
}

fn opt_id_chars(v: &Option<u32>) -> (r: Vec<char>)
    ensures
        r@ == spec_opt_id(*v),
{
    match v {
        Some(n) => u32_dec_chars(*n),
        None => chars_of("-"),
    }
}

/// Builds the output path for an emitted file, as text with `/` between
/// the namespace directory and the file name.
pub fn build_file_path(filename: &str, lineno: usize, compile_id: &Option<CompileId>) -> (r:
    String)
    ensures
        r@ == spec_file_path(filename@, lineno as nat, *compile_id),
{
    let mut cs: Vec<char> = Vec::new();
    match compile_id {
        Some(c) => {
            let sep = chars_of("_");
            let p0 = opt_id_chars(&c.compiled_autograd_id);
            push_chars(&mut cs, &p0);
            push_chars(&mut cs, &sep);
            let p1 = opt_id_chars(&c.frame_id);
            push_chars(&mut cs, &p1);
            push_chars(&mut cs, &sep);
            let p2 = opt_id_chars(&c.frame_compile_id);
            push_chars(&mut cs, &p2);
            push_chars(&mut cs, &sep);
            let p3 = opt_id_chars(&c.attempt);
            push_chars(&mut cs, &p3);
        },
        None => {
            let pre = chars_of("unknown_");
            push_chars(&mut cs, &pre);
            let ln = u64_dec_chars(lineno as u64);
            push_chars(&mut cs, &ln);
        },
    }
    let slash = chars_of("/");
    push_chars(&mut cs, &slash);
    let name = chars_of(filename);
    push_chars(&mut cs, &name);
    string_of(&cs)
}

/// Nothing in the accumulator moved.
pub open spec fn state_unchanged(pre: VllmState, post: VllmState) -> bool {
    &&& post.config == pre.config
    &&& post.piecewise_graph_file == pre.piecewise_graph_file
    &&& post.subgraphs@ == pre.subgraphs@
    &&& post.pre_subgraph_artifacts@ == pre.pre_subgraph_artifacts@
    &&& post.has_vllm_artifacts == pre.has_vllm_artifacts
}

/// Only the observed flag may have been raised; everything else is as it
/// was.
pub open spec fn state_only_marked(pre: VllmState, post: VllmState) -> bool {
    &&& post.config == pre.config
    &&& post.piecewise_graph_file == pre.piecewise_graph_file
    &&& post.subgraphs@ == pre.subgraphs@
    &&& post.pre_subgraph_artifacts@ == pre.pre_subgraph_artifacts@
    &&& post.has_vllm_artifacts
}

/// What the configuration extractor did, as a function of the payload's
/// parse: a payload of the recognized shape replaced the snapshot with
/// exactly the decoded one, and any other payload left the accumulator
/// alone.
pub open spec fn config_applied(pre: VllmState, post: VllmState, mo: Option<JsonNode>) -> bool {
    if config_decodes(mo) {
        &&& post.config matches Some(c) && config_matches(c, mo)
        &&& post.has_vllm_artifacts
        &&& post.piecewise_graph_file == pre.piecewise_graph_file
        &&& post.subgraphs@ == pre.subgraphs@
        &&& post.pre_subgraph_artifacts@ == pre.pre_subgraph_artifacts@
    } else {
        state_unchanged(pre, post)
    }
}

/// What the unit extractor did on a unit start, as a function of the
/// payload's parse: a payload of the recognized shape pushed exactly the
/// decoded unit, and any other payload pushed nothing; either way the
/// observed flag is raised.
pub open spec fn unit_applied(pre: VllmState, post: VllmState, mo: Option<JsonNode>) -> bool {
    if subgraph_decodes(mo) {
        &&& post.subgraphs@.len() == pre.subgraphs@.len() + 1
        &&& post.subgraphs@.take(pre.subgraphs@.len() as int) == pre.subgraphs@
        &&& subgraph_matches(post.subgraphs@.last(), mo)
        &&& post.config == pre.config
        &&& post.piecewise_graph_file == pre.piecewise_graph_file
        &&& post.pre_subgraph_artifacts@ == pre.pre_subgraph_artifacts@
        &&& post.has_vllm_artifacts
    } else {
        state_only_marked(pre, post)
    }
}

/// Extracts configuration snapshots.
#[derive(Debug, Clone, Copy)]
pub struct VllmCompilationConfigParser;

/// Extracts unit starts and per-unit graph dumps.
#[derive(Debug, Clone, Copy)]
pub struct VllmPiecewiseCompileParser;

/// Extracts the canonical split-graph dump.
#[derive(Debug, Clone, Copy)]
pub struct VllmPiecewiseSplitGraphParser;

/// Whether the configuration extractor matches a record.
pub open spec fn spec_identify_config(e: Envelope) -> Option<Metadata> {
    if e.artifact matches Some(a) && a.name@ == "vllm_compilation_config"@ {
        Some(Metadata::Artifact)
    } else {
        None
    }
}

/// Whether the unit extractor matches a record.
pub open spec fn spec_identify_piecewise(e: Envelope) -> Option<Metadata> {
    if e.artifact matches Some(a) && a.name@ == "vllm_piecewise_compile_start"@ {
        Some(Metadata::Artifact)
    } else if e.graph_dump matches Some(g) && ("vllm_subgraph_"@.is_prefix_of(g.name@)
        || "vllm_submod_"@.is_prefix_of(g.name@)) {
        Some(Metadata::GraphDump)
    } else {
        None
    }
}

/// Whether the split-graph extractor matches a record.
pub open spec fn spec_identify_split_graph(e: Envelope) -> Option<Metadata> {
    if e.graph_dump matches Some(g) && g.name@ == "vllm_piecewise_split_graph"@ {
        Some(Metadata::GraphDump)
    } else {
        None
    }
}

impl VllmCompilationConfigParser {
    pub fn new() -> (r: VllmCompilationConfigParser) {
        VllmCompilationConfigParser
    }

    /// The name of this extractor, for error reporting.
    pub fn name(&self) -> (r: &'static str)
        ensures
            r@ == "vllm_compilation_config"@,
    {
        "vllm_compilation_config"
    }

    /// Matches records whose artifact is the configuration snapshot.
    pub fn get_metadata(&self, e: &Envelope) -> (r: Option<Metadata>)
        ensures
            r == spec_identify_config(*e),
    {
        match &e.artifact {
            Some(a) => {
                let want = chars_of("vllm_compilation_config");
                let have = chars_of(a.name.as_str());
                if chars_eq(&have, &want) {
                    Some(Metadata::Artifact)
                } else {
                    None
                }
            },
            None => None,
        }
    }

    /// Stores the decoded snapshot (overwriting any prior one) and emits
    /// the payload as an indented JSON file; a payload that fails to
    /// decode leaves the accumulator alone but is still emitted.
    pub fn parse(
        &self,
        state: &mut VllmState,
        lineno: usize,
        _metadata: Metadata,
        _rank: Option<u32>,
        compile_id: &Option<CompileId>,
        payload: &str,
    ) -> (r: Vec<ExtractionResult>)
        ensures
            r@.len() == 1,
            (r@[0] matches ExtractionResult::EmitTransformedFile(p, t) && p@ == spec_file_path(
                "vllm_compilation_config.json"@,
                lineno as nat,
                *compile_id,
            ) && t == Transform::PrettyJson),
            config_applied(*old(state), *final(state), json_model_of(payload@)),
    {
        match parse_config_payload(payload) {
            Some(config) => {
                state.set_config(config);
            },
            None => {},
        }
        let f = build_file_path("vllm_compilation_config.json", lineno, compile_id);
        let mut r: Vec<ExtractionResult> = Vec::new();
        r.push(ExtractionResult::EmitTransformedFile(f, Transform::PrettyJson));
        r
    }
}

impl VllmPiecewiseCompileParser {
    pub fn new() -> (r: VllmPiecewiseCompileParser) {
        VllmPiecewiseCompileParser
    }

    /// The name of this extractor, for error reporting.
    pub fn name(&self) -> (r: &'static str)
        ensures
            r@ == "vllm_piecewise_compile"@,
    {
        "vllm_piecewise_compile"
    }

    /// Matches unit-start artifacts and per-unit graph dumps.
    pub fn get_metadata(&self, e: &Envelope) -> (r: Option<Metadata>)
        ensures
            r == spec_identify_piecewise(*e),
    {
        if let Some(a) = &e.artifact {
            let want = chars_of("vllm_piecewise_compile_start");
            let have = chars_of(a.name.as_str());
            if chars_eq(&have, &want) {
                return Some(Metadata::Artifact);
            }
        }
        if let Some(g) = &e.graph_dump {
            let have = chars_of(g.name.as_str());
            let sub = chars_of("vllm_subgraph_");
            let submod = chars_of("vllm_submod_");
            if chars_start_with(&have, &sub) || chars_start_with(&have, &submod) {
                return Some(Metadata::GraphDump);
            }
        }
        None
    }

    /// On a unit start, pushes the decoded unit so that subsequent
    /// artifacts attach to it; on a graph dump, emits the dump under the
    /// dump's own name.  Either way the record marks the run as carrying
    /// domain artifacts.
    pub fn parse(
        &self,
        state: &mut VllmState,
        lineno: usize,
        metadata: Metadata,
        _rank: Option<u32>,
        compile_id: &Option<CompileId>,
        payload: &str,
        graph_dump_name: &str,
    ) -> (r: Vec<ExtractionResult>)
        ensures
            metadata == Metadata::Artifact ==> r@.len() == 0 && unit_applied(
                *old(state),
                *final(state),
                json_model_of(payload@),
            ),
            metadata == Metadata::GraphDump ==> state_only_marked(*old(state), *final(state))
                && r@.len() == 1 && (r@[0] matches ExtractionResult::EmitRawFile(p) && p@
                == spec_file_path(
                graph_dump_name@ + ".txt"@,
                lineno as nat,
                *compile_id,
            )),
    {
        state.mark_artifacts_seen();
        match metadata {
            Metadata::Artifact => {
                match parse_subgraph_payload(payload) {
                    Some(subgraph) => {
                        let ghost pre = state.subgraphs@;
                        state.push_subgraph(subgraph);
                        proof {
                            assert(state.subgraphs@.take(pre.len() as int) =~= pre);
                        }
                    },
                    None => {},
                }
                Vec::new()
            },
            Metadata::GraphDump => {
                let mut name_cs = chars_of(graph_dump_name);
                let ext = chars_of(".txt");
                push_chars(&mut name_cs, &ext);
                let filename = string_of(&name_cs);
                let f = build_file_path(filename.as_str(), lineno, compile_id);
                let mut r: Vec<ExtractionResult> = Vec::new();
                r.push(ExtractionResult::EmitRawFile(f));
                r
            },
        }
    }
}

impl VllmPiecewiseSplitGraphParser {
    pub fn new() -> (r: VllmPiecewiseSplitGraphParser) {
        VllmPiecewiseSplitGraphParser
    }

    /// The name of this extractor, for error reporting.
    pub fn name(&self) -> (r: &'static str)
        ensures
            r@ == "vllm_piecewise_split_graph"@,
    {
        "vllm_piecewise_split_graph"
    }

    /// Matches the canonical split-graph dump.
    pub fn get_metadata(&self, e: &Envelope) -> (r: Option<Metadata>)
        ensures
            r == spec_identify_split_graph(*e),
    {
        match &e.graph_dump {
            Some(g) => {
                let want = chars_of("vllm_piecewise_split_graph");
                let have = chars_of(g.name.as_str());
                if chars_eq(&have, &want) {
                    Some(Metadata::GraphDump)
                } else {
                    None
                }
            },
            None => None,
        }
    }

    /// Emits the split-graph dump and marks the run; the canonical link
    /// itself is recorded when the written file is added as an artifact.
    pub fn parse(
        &self,
        state: &mut VllmState,
        lineno: usize,
        _metadata: Metadata,
        _rank: Option<u32>,
        compile_id: &Option<CompileId>,
        _payload: &str,
    ) -> (r: Vec<ExtractionResult>)
        ensures
            state_only_marked(*old(state), *final(state)),
            r@.len() == 1,
            (r@[0] matches ExtractionResult::EmitRawFile(p) && p@ == spec_file_path(
                "vllm_piecewise_split_graph.txt"@,
                lineno as nat,
                *compile_id,
            )),
    {
        state.mark_artifacts_seen();
        let f = build_file_path("vllm_piecewise_split_graph.txt", lineno, compile_id);
        let mut r: Vec<ExtractionResult> = Vec::new();
        r.push(ExtractionResult::EmitRawFile(f));
        r
    }
}

/// One registered extractor.
#[derive(Debug, Clone, Copy)]
pub enum VllmParser {
    CompilationConfig(VllmCompilationConfigParser),
    PiecewiseSplitGraph(VllmPiecewiseSplitGraphParser),
    PiecewiseCompile(VllmPiecewiseCompileParser),
}

/// Whether an extractor matches a record, and on what.
pub open spec fn spec_parser_identify(p: VllmParser, e: Envelope) -> Option<Metadata> {
    match p {
        VllmParser::CompilationConfig(_) => spec_identify_config(e),
        VllmParser::PiecewiseSplitGraph(_) => spec_identify_split_graph(e),
        VllmParser::PiecewiseCompile(_) => spec_identify_piecewise(e),
    }
}

impl VllmParser {
    /// Whether this extractor matches the record.
    pub fn get_metadata(&self, e: &Envelope) -> (r: Option<Metadata>)
        ensures
            r == spec_parser_identify(*self, *e),
    {
        match self {
            VllmParser::CompilationConfig(p) => p.get_metadata(e),
            VllmParser::PiecewiseSplitGraph(p) => p.get_metadata(e),
            VllmParser::PiecewiseCompile(p) => p.get_metadata(e),
        }
    }
}

/// The ordered extractor registry; registration order is part of the
/// dispatch contract.
pub fn vllm_parsers_with_state() -> (r: Vec<VllmParser>)
    ensures
        r@.len() == 3,
        r@[0] is CompilationConfig,
        r@[1] is PiecewiseSplitGraph,
        r@[2] is PiecewiseCompile,
{
    let mut r: Vec<VllmParser> = Vec::new();
    r.push(VllmParser::CompilationConfig(VllmCompilationConfigParser::new()));
    r.push(VllmParser::PiecewiseSplitGraph(VllmPiecewiseSplitGraphParser::new()));
    r.push(VllmParser::PiecewiseCompile(VllmPiecewiseCompileParser::new()));
    r
}

/// What one extractor's run did to the accumulator and emitted, given the
/// metadata it matched on.
pub open spec fn spec_parse_effect(
    p: VllmParser,
    m: Metadata,
    pre: VllmState,
    post: VllmState,
    results: Seq<ExtractionResult>,
    lineno: nat,
    cid: Option<CompileId>,
    e: Envelope,
    payload: Seq<char>,
) -> bool {
    match p {
        VllmParser::CompilationConfig(_) => {
            &&& results.len() == 1
            &&& (results[0] matches ExtractionResult::EmitTransformedFile(path, t) && path@
                == spec_file_path("vllm_compilation_config.json"@, lineno, cid) && t
                == Transform::PrettyJson)
            &&& config_applied(pre, post, json_model_of(payload))
        },
        VllmParser::PiecewiseSplitGraph(_) => {
            &&& state_only_marked(pre, post)
            &&& results.len() == 1
            &&& (results[0] matches ExtractionResult::EmitRawFile(path) && path@ == spec_file_path(
                "vllm_piecewise_split_graph.txt"@,
                lineno,
                cid,
            ))
        },
        VllmParser::PiecewiseCompile(_) => {
            if m == Metadata::Artifact {
                &&& results.len() == 0
                &&& unit_applied(pre, post, json_model_of(payload))
            } else {
                &&& state_only_marked(pre, post)
                &&& (e.graph_dump matches Some(g) && results.len() == 1 && (results[0] matches
                    ExtractionResult::EmitRawFile(path) && path@ == spec_file_path(
                    g.name@ + ".txt"@,
                    lineno,
                    cid,
                )))
            }
        },
    }
}

/// Routes one record to at most one extractor: the first whose
/// `get_metadata` matches runs, exactly once; a record no extractor
/// matches changes nothing and emits nothing.
pub fn dispatch_record(
    parsers: &Vec<VllmParser>,
    state: &mut VllmState,
    e: &Envelope,
    lineno: usize,
    rank: Option<u32>,
    compile_id: &Option<CompileId>,
    payload: &str,
) -> (r: Option<Vec<ExtractionResult>>)
    ensures
        (forall|j: int| 0 <= j < parsers@.len() ==> spec_parser_identify(parsers@[j], *e) is None)
            <==> r is None,
        r is None ==> state_unchanged(*old(state), *final(state)),
        r matches Some(res) ==> (exists|i: int|
            {
                &&& 0 <= i < parsers@.len()
                &&& spec_parser_identify(parsers@[i], *e) is Some
                &&& (forall|j: int|
                    0 <= j < i ==> spec_parser_identify(parsers@[j], *e) is None)
                &&& spec_parse_effect(
                    parsers@[i],
                    spec_parser_identify(parsers@[i], *e)->0,
                    *old(state),
                    *final(state),
                    res@,
                    lineno as nat,
                    *compile_id,
                    *e,
                    payload@,
                )
            }),
{
    let mut i: usize = 0;
    while i < parsers.len()
        invariant
            i <= parsers@.len(),
            forall|j: int| 0 <= j < i ==> spec_parser_identify(parsers@[j], *e) is None,
            *state == *old(state),
        decreases parsers@.len() - i,
    {
        let p = &parsers[i];
        if let Some(md) = p.get_metadata(e) {
            let res = match p {
                VllmParser::CompilationConfig(cp) => {
                    cp.parse(state, lineno, md, rank, compile_id, payload)
                },
                VllmParser::PiecewiseSplitGraph(sp) => {
                    sp.parse(state, lineno, md, rank, compile_id, payload)
                },
                VllmParser::PiecewiseCompile(pp) => {
                    let dump_name: String = match &e.graph_dump {
                        Some(g) => g.name.clone(),
                        None => String::new(),
                    };
                    pp.parse(state, lineno, md, rank, compile_id, payload, dump_name.as_str())
                },
            };
            proof {
                let pi = parsers@[i as int];
                assert(spec_parser_identify(pi, *e) is Some);
                assert(spec_parse_effect(
                    pi,
                    spec_parser_identify(pi, *e)->0,
                    *old(state),
                    *final(state),
                    res@,
                    lineno as nat,
                    *compile_id,
                    *e,
                    payload@,
                ));
            }
            return Some(res);
        }
        i = i + 1;
    }
    None
}

} // verus!
