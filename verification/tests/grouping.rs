use vllm_report::state::VllmState;
use vllm_report::types::{ArtifactInfo, VllmSubgraphInfo};

fn unit(index: i32, start: i64, end: i64, single: bool) -> VllmSubgraphInfo {
    VllmSubgraphInfo {
        index,
        submod_name: None,
        compile_range_start: start,
        compile_range_end: end,
        is_single_size: single,
        is_cudagraph_size: false,
        artifacts: Vec::new(),
    }
}

#[test]
fn size_or_range_formats() {
    assert_eq!(unit(0, 128, 128, true).size_or_range(), "size 128");
    assert_eq!(unit(0, 0, 64, false).size_or_range(), "range [0, 64]");
    assert_eq!(unit(0, -3, 5, false).size_or_range(), "range [-3, 5]");
}

#[test]
fn size_or_range_handles_extremes() {
    assert_eq!(
        unit(0, i64::MIN, i64::MAX, false).size_or_range(),
        "range [-9223372036854775808, 9223372036854775807]"
    );
    assert_eq!(unit(0, 0, 0, true).size_or_range(), "size 0");
}

#[test]
fn display_submod_name_defaults_to_index() {
    let mut u = unit(7, 1, 1, true);
    assert_eq!(u.display_submod_name(), "subgraph_7");
    u.submod_name = Some("fused_block".to_owned());
    assert_eq!(u.display_submod_name(), "fused_block");
}

#[test]
fn same_size_units_share_one_group() {
    let mut state = VllmState::new();
    state.push_subgraph(unit(0, 128, 128, true));
    state.push_subgraph(unit(1, 0, 64, false));
    state.push_subgraph(unit(2, 128, 128, true));
    let groups = state.build_compile_range_groups();

    assert_eq!(groups.len(), 2);
    assert_eq!(groups[0].size_or_range, "size 128");
    assert_eq!(groups[0].submod_count, 2);
    assert_eq!(groups[0].submods[0].submod_name, "subgraph_0");
    assert_eq!(groups[0].submods[1].submod_name, "subgraph_2");
    assert_eq!(groups[1].size_or_range, "range [0, 64]");
    assert_eq!(groups[1].submod_count, 1);
    assert_eq!(groups[1].submods[0].submod_name, "subgraph_1");
}

#[test]
fn groups_appear_in_first_seen_order() {
    let mut state = VllmState::new();
    state.push_subgraph(unit(0, 0, 64, false));
    state.push_subgraph(unit(1, 128, 128, true));
    state.push_subgraph(unit(2, 0, 64, false));
    let groups = state.build_compile_range_groups();
    assert_eq!(groups.len(), 2);
    assert_eq!(groups[0].size_or_range, "range [0, 64]");
    assert_eq!(groups[1].size_or_range, "size 128");
}

#[test]
fn build_groups_is_idempotent() {
    let mut state = VllmState::new();
    state.push_subgraph(unit(0, 128, 128, true));
    state.add_artifact("out/vllm_subgraph_0.txt", String::new());
    state.push_subgraph(unit(1, 0, 64, false));
    state.add_artifact("out/vllm_subgraph_1.txt", String::new());
    state.push_subgraph(unit(2, 128, 128, true));

    let first = state.build_compile_range_groups();
    let second = state.build_compile_range_groups();
    assert_eq!(format!("{first:?}"), format!("{second:?}"));
}

#[test]
fn member_artifact_counts_are_reported() {
    let mut state = VllmState::new();
    state.push_subgraph(unit(0, 16, 16, true));
    state.add_artifact("a/x.txt", String::new());
    state.add_artifact("a/y.txt", String::new());
    let groups = state.build_compile_range_groups();
    assert_eq!(groups.len(), 1);
    assert_eq!(groups[0].submods[0].artifact_count, 2);
    let names: Vec<&str> =
        groups[0].submods[0].artifacts.iter().map(|a: &ArtifactInfo| a.name.as_str()).collect();
    assert_eq!(names, vec!["x", "y"]);
}

#[test]
fn empty_state_builds_no_groups() {
    let state = VllmState::new();
    assert!(state.build_compile_range_groups().is_empty());
}
