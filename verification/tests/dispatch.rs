use vllm_report::json::reformat_json;
use vllm_report::parsers::{
    build_file_path, dispatch_record, vllm_parsers_with_state, ArtifactDescriptor, CompileId,
    Envelope, ExtractionResult, GraphDumpDescriptor, Metadata, Transform,
    VllmCompilationConfigParser, VllmPiecewiseCompileParser, VllmPiecewiseSplitGraphParser,
};
use vllm_report::state::VllmState;

fn artifact_envelope(name: &str) -> Envelope {
    Envelope { artifact: Some(ArtifactDescriptor { name: name.to_owned() }), graph_dump: None }
}

fn dump_envelope(name: &str) -> Envelope {
    Envelope { artifact: None, graph_dump: Some(GraphDumpDescriptor { name: name.to_owned() }) }
}

#[test]
fn file_paths_never_collide() {
    assert_eq!(build_file_path("a.txt", 5, &None), "unknown_5/a.txt");
    assert_eq!(build_file_path("a.txt", 9, &None), "unknown_9/a.txt");
    let cid = CompileId {
        compiled_autograd_id: None,
        frame_id: Some(0),
        frame_compile_id: Some(2),
        attempt: Some(1),
    };
    assert_eq!(build_file_path("graph.txt", 5, &Some(cid)), "-_0_2_1/graph.txt");
}

#[test]
fn parser_names() {
    assert_eq!(VllmCompilationConfigParser::new().name(), "vllm_compilation_config");
    assert_eq!(VllmPiecewiseCompileParser::new().name(), "vllm_piecewise_compile");
    assert_eq!(VllmPiecewiseSplitGraphParser::new().name(), "vllm_piecewise_split_graph");
}

#[test]
fn identify_is_mutually_exclusive() {
    let config = VllmCompilationConfigParser::new();
    let piecewise = VllmPiecewiseCompileParser::new();
    let split = VllmPiecewiseSplitGraphParser::new();

    let e = artifact_envelope("vllm_compilation_config");
    assert_eq!(config.get_metadata(&e), Some(Metadata::Artifact));
    assert_eq!(piecewise.get_metadata(&e), None);
    assert_eq!(split.get_metadata(&e), None);

    let e = artifact_envelope("vllm_piecewise_compile_start");
    assert_eq!(config.get_metadata(&e), None);
    assert_eq!(piecewise.get_metadata(&e), Some(Metadata::Artifact));
    assert_eq!(split.get_metadata(&e), None);

    let e = dump_envelope("vllm_subgraph_3");
    assert_eq!(piecewise.get_metadata(&e), Some(Metadata::GraphDump));
    assert_eq!(split.get_metadata(&e), None);

    let e = dump_envelope("vllm_submod_2");
    assert_eq!(piecewise.get_metadata(&e), Some(Metadata::GraphDump));

    let e = dump_envelope("vllm_piecewise_split_graph");
    assert_eq!(split.get_metadata(&e), Some(Metadata::GraphDump));
    assert_eq!(piecewise.get_metadata(&e), None);
}

#[test]
fn dispatch_decodes_config() {
    let parsers = vllm_parsers_with_state();
    let mut state = VllmState::new();
    let e = artifact_envelope("vllm_compilation_config");
    let payload = "{\"model\": \"demo\", \"mode\": \"piecewise\", \"use_inductor_graph_partition\": true}";
    let results = dispatch_record(&parsers, &mut state, &e, 12, None, &None, payload)
        .expect("the config extractor matches");
    assert_eq!(results.len(), 1);
    match &results[0] {
        ExtractionResult::EmitTransformedFile(path, Transform::PrettyJson) => {
            assert_eq!(path, "unknown_12/vllm_compilation_config.json");
        }
        other => panic!("unexpected extraction result {other:?}"),
    }
    let config = state.config.as_ref().expect("config decoded");
    assert_eq!(config.model.as_deref(), Some("demo"));
    assert_eq!(config.mode.as_deref(), Some("piecewise"));
    assert_eq!(config.use_inductor_graph_partition, Some(true));
    assert!(config.backend.is_none());
    assert!(state.has_artifacts());
}

#[test]
fn bad_config_payload_is_skipped_not_fatal() {
    let parsers = vllm_parsers_with_state();
    let mut state = VllmState::new();
    let e = artifact_envelope("vllm_compilation_config");
    let results = dispatch_record(&parsers, &mut state, &e, 3, None, &None, "not json")
        .expect("the config extractor still matches");
    assert_eq!(results.len(), 1);
    assert!(state.config.is_none());
    assert!(!state.has_artifacts());
}

#[test]
fn compile_start_pushes_a_unit() {
    let parsers = vllm_parsers_with_state();
    let mut state = VllmState::new();
    let e = artifact_envelope("vllm_piecewise_compile_start");
    let payload = "{\"piecewise_index\": 4, \"compile_range_start\": 1, \"compile_range_end\": 8, \
                   \"is_single_size\": false, \"is_cudagraph_capture_size\": true}";
    let results = dispatch_record(&parsers, &mut state, &e, 7, None, &None, payload)
        .expect("the unit extractor matches");
    assert!(results.is_empty());
    assert_eq!(state.subgraphs.len(), 1);
    let u = &state.subgraphs[0];
    assert_eq!(u.index, 4);
    assert_eq!(u.compile_range_start, 1);
    assert_eq!(u.compile_range_end, 8);
    assert!(!u.is_single_size);
    assert!(u.is_cudagraph_size);
    assert!(u.artifacts.is_empty());
    assert!(state.has_artifacts());
}

#[test]
fn graph_dump_emits_payload_file() {
    let parsers = vllm_parsers_with_state();
    let mut state = VllmState::new();
    let e = dump_envelope("vllm_subgraph_0");
    let results = dispatch_record(&parsers, &mut state, &e, 20, None, &None, "graph text")
        .expect("the unit extractor matches");
    assert_eq!(results.len(), 1);
    match &results[0] {
        ExtractionResult::EmitRawFile(path) => {
            assert_eq!(path, "unknown_20/vllm_subgraph_0.txt");
        }
        other => panic!("unexpected extraction result {other:?}"),
    }
}

#[test]
fn split_graph_dump_is_emitted() {
    let parsers = vllm_parsers_with_state();
    let mut state = VllmState::new();
    let e = dump_envelope("vllm_piecewise_split_graph");
    let results = dispatch_record(&parsers, &mut state, &e, 2, None, &None, "graph")
        .expect("the split-graph extractor matches");
    assert_eq!(results.len(), 1);
    match &results[0] {
        ExtractionResult::EmitRawFile(path) => {
            assert_eq!(path, "unknown_2/vllm_piecewise_split_graph.txt");
        }
        other => panic!("unexpected extraction result {other:?}"),
    }
    assert!(state.has_artifacts());
}

#[test]
fn unmatched_record_changes_nothing() {
    let parsers = vllm_parsers_with_state();
    let mut state = VllmState::new();
    let e = artifact_envelope("something_else");
    let r = dispatch_record(&parsers, &mut state, &e, 1, None, &None, "{}");
    assert!(r.is_none());
    assert!(!state.has_artifacts());
    assert!(state.subgraphs.is_empty());
}

#[test]
fn reformat_json_pretty_prints() {
    let pretty = reformat_json("{\"a\":1}").expect("valid json");
    assert_eq!(pretty, "{\n  \"a\": 1\n}");
    assert!(reformat_json("nope").is_none());
}
