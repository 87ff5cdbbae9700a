//! One run from records to summary context, wiring dispatch results back
//! into the accumulator the way the surrounding pipeline does: every
//! emitted file is recorded as an artifact of the run.

use vllm_report::parsers::{
    dispatch_record, vllm_parsers_with_state, ArtifactDescriptor, Envelope, ExtractionResult,
    GraphDumpDescriptor,
};
use vllm_report::state::VllmState;
use vllm_report::summary::build_summary_context;

fn artifact_envelope(name: &str) -> Envelope {
    Envelope { artifact: Some(ArtifactDescriptor { name: name.to_owned() }), graph_dump: None }
}

fn dump_envelope(name: &str) -> Envelope {
    Envelope { artifact: None, graph_dump: Some(GraphDumpDescriptor { name: name.to_owned() }) }
}

/// Dispatches one record and, as the pipeline does for every file it
/// writes, records each emitted file as an artifact.
fn feed(
    parsers: &Vec<vllm_report::parsers::VllmParser>,
    state: &mut VllmState,
    e: &Envelope,
    lineno: usize,
    payload: &str,
) {
    if let Some(results) = dispatch_record(parsers, state, e, lineno, None, &None, payload) {
        for r in results {
            match r {
                ExtractionResult::EmitRawFile(path) => state.add_artifact(&path, String::new()),
                ExtractionResult::EmitTransformedFile(path, _) => {
                    state.add_artifact(&path, String::new())
                }
            }
        }
    }
}

#[test]
fn records_accumulate_into_a_summary() {
    let parsers = vllm_parsers_with_state();
    let mut state = VllmState::new();

    feed(
        &parsers,
        &mut state,
        &artifact_envelope("vllm_compilation_config"),
        1,
        "{\"model\": \"demo-model\"}",
    );
    feed(&parsers, &mut state, &dump_envelope("vllm_piecewise_split_graph"), 2, "graph");
    feed(
        &parsers,
        &mut state,
        &artifact_envelope("vllm_piecewise_compile_start"),
        3,
        "{\"piecewise_index\": 0, \"compile_range_start\": 16, \"compile_range_end\": 16, \
         \"is_single_size\": true, \"is_cudagraph_capture_size\": false}",
    );
    feed(&parsers, &mut state, &dump_envelope("vllm_subgraph_0"), 4, "dump zero");
    feed(
        &parsers,
        &mut state,
        &artifact_envelope("vllm_piecewise_compile_start"),
        5,
        "{\"piecewise_index\": 1, \"compile_range_start\": 16, \"compile_range_end\": 16, \
         \"is_single_size\": true, \"is_cudagraph_capture_size\": false}",
    );
    feed(&parsers, &mut state, &dump_envelope("vllm_submod_1"), 6, "dump one");
    // A record no extractor matches leaves the run untouched.
    feed(&parsers, &mut state, &artifact_envelope("unrelated"), 7, "{}");

    assert!(state.has_artifacts());

    // The split-graph dump, emitted before any unit existed, sits in the
    // pre-unit bucket and fills the canonical link slot.
    assert_eq!(
        state.piecewise_graph_file.as_deref(),
        Some("unknown_2/vllm_piecewise_split_graph.txt")
    );

    // Each unit got exactly the dump that followed its start record.
    assert_eq!(state.subgraphs.len(), 2);
    assert_eq!(state.subgraphs[0].artifacts.len(), 1);
    assert_eq!(state.subgraphs[0].artifacts[0].name, "vllm_subgraph_0");
    assert_eq!(state.subgraphs[1].artifacts.len(), 1);
    assert_eq!(state.subgraphs[1].artifacts[0].name, "vllm_submod_1");

    let ctx = build_summary_context(&state, "", "");
    assert!(ctx.has_config);
    assert_eq!(ctx.config.model.as_deref(), Some("demo-model"));
    assert!(ctx.has_piecewise);
    // Both units cover the single size 16 and share one group.
    assert_eq!(ctx.compile_range_groups.len(), 1);
    assert_eq!(ctx.compile_range_groups[0].size_or_range, "size 16");
    assert_eq!(ctx.compile_range_groups[0].submod_count, 2);
}
