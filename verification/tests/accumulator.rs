use vllm_report::state::VllmState;
use vllm_report::types::{ArtifactInfo, VllmCompilationConfig, VllmSubgraphInfo};

fn unit(index: i32, start: i64, end: i64, single: bool) -> VllmSubgraphInfo {
    VllmSubgraphInfo {
        index,
        submod_name: None,
        compile_range_start: start,
        compile_range_end: end,
        is_single_size: single,
        is_cudagraph_size: false,
        artifacts: Vec::new(),
    }
}

fn art(name: &str) -> ArtifactInfo {
    ArtifactInfo { name: name.to_owned(), url: format!("{name}.txt"), suffix: String::new() }
}

#[test]
fn fresh_state_is_empty() {
    let state = VllmState::new();
    assert!(!state.has_artifacts());
    assert!(state.config.is_none());
    assert!(state.piecewise_graph_file.is_none());
    assert!(state.subgraphs.is_empty());
    assert!(state.pre_subgraph_artifacts.is_empty());
}

#[test]
fn artifact_attaches_to_most_recent_unit() {
    let mut state = VllmState::new();
    state.push_subgraph(unit(0, 1, 8, false));
    state.add_artifact("out/a1.txt", String::new());
    state.push_subgraph(unit(1, 8, 16, false));
    state.add_artifact("out/a2.txt", String::new());

    assert_eq!(state.subgraphs.len(), 2);
    let s0 = &state.subgraphs[0];
    let s1 = &state.subgraphs[1];
    assert_eq!(s0.artifacts.len(), 1);
    assert_eq!(s0.artifacts[0].name, "a1");
    assert_eq!(s0.artifacts[0].url, "out/a1.txt");
    assert_eq!(s1.artifacts.len(), 1);
    assert_eq!(s1.artifacts[0].name, "a2");
    assert!(state.pre_subgraph_artifacts.is_empty());
}

#[test]
fn artifact_before_any_unit_goes_to_bucket() {
    let mut state = VllmState::new();
    state.add_artifact("out/dynamo_output_graph_0.txt", "(12 kB)".to_owned());
    assert!(state.subgraphs.is_empty());
    assert_eq!(state.pre_subgraph_artifacts.len(), 1);
    assert_eq!(state.pre_subgraph_artifacts[0].name, "dynamo_output_graph_0");
    assert_eq!(state.pre_subgraph_artifacts[0].suffix, "(12 kB)");
}

#[test]
fn set_config_overwrites_and_marks() {
    let mut state = VllmState::new();
    let mut c1 = VllmCompilationConfig::empty();
    c1.model = Some("first".to_owned());
    let mut c2 = VllmCompilationConfig::empty();
    c2.model = Some("second".to_owned());
    state.set_config(c1);
    state.set_config(c2);
    assert!(state.has_artifacts());
    let got = state.config.as_ref().expect("config must be set");
    assert_eq!(got.model.as_deref(), Some("second"));
}

#[test]
fn split_graph_marker_last_writer_wins() {
    let mut state = VllmState::new();
    state.add_artifact("unknown_1/vllm_piecewise_split_graph.txt", String::new());
    assert_eq!(
        state.piecewise_graph_file.as_deref(),
        Some("unknown_1/vllm_piecewise_split_graph.txt")
    );
    state.add_artifact("unknown_9/vllm_piecewise_split_graph.txt", String::new());
    assert_eq!(
        state.piecewise_graph_file.as_deref(),
        Some("unknown_9/vllm_piecewise_split_graph.txt")
    );
}

#[test]
fn artifact_name_falls_back_to_path() {
    let mut state = VllmState::new();
    state.add_artifact("..", String::new());
    assert_eq!(state.pre_subgraph_artifacts[0].name, "..");
    assert_eq!(state.pre_subgraph_artifacts[0].url, "..");
}

#[test]
fn artifact_name_ignores_trailing_separators_and_dots() {
    // The name derivation reads paths as path inspection does: trailing
    // separators and `.` components do not hide the final component.
    let mut state = VllmState::new();
    state.add_artifact("a/b/", String::new());
    state.add_artifact("x/.", String::new());
    state.add_artifact("a/./c.txt", String::new());
    assert_eq!(state.pre_subgraph_artifacts[0].name, "b");
    assert_eq!(state.pre_subgraph_artifacts[1].name, "x");
    assert_eq!(state.pre_subgraph_artifacts[2].name, "c");
}

#[test]
fn build_dynamo_artifacts_filters_and_keeps_order() {
    let mut state = VllmState::new();
    state.pre_subgraph_artifacts.push(art("dynamo_output_graph_0"));
    state.pre_subgraph_artifacts.push(art("something_else"));
    state.pre_subgraph_artifacts.push(art("compilation_metrics_3"));
    state.pre_subgraph_artifacts.push(art("dynamo_cpp_guards_str_1"));
    let picked = state.build_dynamo_artifacts();
    let names: Vec<&str> = picked.iter().map(|a| a.name.as_str()).collect();
    assert_eq!(
        names,
        vec!["dynamo_output_graph_0", "compilation_metrics_3", "dynamo_cpp_guards_str_1"]
    );
}
