use jolt::processes::{
    get_base_process_name, group_display_name, merge_groups, sort_by_name, sort_by_pid,
    visible_rows, VisibleRow,
};

#[test]
fn helper_processes_share_a_base_name() {
    assert_eq!(get_base_process_name("Google Chrome Helper (Renderer)"), "Google Chrome");
    assert_eq!(get_base_process_name("Google Chrome Helper"), "Google Chrome");
    assert_eq!(get_base_process_name("Slack Helper (GPU)"), "Slack");
    assert_eq!(get_base_process_name("Safari Web Content"), "Safari");
    assert_eq!(get_base_process_name("Code Helper Helper"), "Code");
    assert_eq!(get_base_process_name("Foo (Bar) (Baz)"), "Foo (Bar)");
    assert_eq!(get_base_process_name("Foo (Bar) x"), "Foo (Bar) x");
    assert_eq!(get_base_process_name("kernel_task"), "kernel_task");
    assert_eq!(get_base_process_name(""), "");
}

#[test]
fn merging_groups_by_base_name_in_first_seen_order() {
    let names: Vec<String> = ["Chrome", "Slack", "Chrome Helper", "Chrome Helper (GPU)", "Slack Helper"]
        .iter()
        .map(|s| s.to_string())
        .collect();
    let groups = merge_groups(&names);
    assert_eq!(groups.len(), 2);
    assert_eq!(groups[0].base_name, "Chrome");
    assert_eq!(groups[0].members, vec![0, 2, 3]);
    assert_eq!(groups[1].base_name, "Slack");
    assert_eq!(groups[1].members, vec![1, 4]);
    assert_eq!(group_display_name("Chrome", 3), "Chrome (3)");
    assert_eq!(group_display_name("Chrome", 1), "Chrome");
}

#[test]
fn pid_sort_is_stable_in_both_directions() {
    let pids = vec![30u32, 10, 20, 10];
    assert_eq!(sort_by_pid(&pids, true), vec![1, 3, 2, 0]);
    assert_eq!(sort_by_pid(&pids, false), vec![0, 2, 1, 3]);
    assert_eq!(sort_by_pid(&Vec::new(), true), Vec::<usize>::new());
}

#[test]
fn name_sort_ignores_case() {
    let names: Vec<String> = ["beta", "Alpha", "alpha", "Gamma"].iter().map(|s| s.to_string()).collect();
    assert_eq!(sort_by_name(&names, true), vec![1, 2, 0, 3]);
    assert_eq!(sort_by_name(&names, false), vec![3, 0, 1, 2]);
}

#[test]
fn expanded_groups_show_their_children() {
    let order = vec![1usize, 0];
    let pids = vec![100u32, 200];
    let counts = vec![2usize, 3];
    let rows = visible_rows(&order, &pids, &counts, &vec![100]);
    assert_eq!(
        rows,
        vec![
            VisibleRow { process: 1, child: None, depth: 0 },
            VisibleRow { process: 0, child: None, depth: 0 },
            VisibleRow { process: 0, child: Some(0), depth: 1 },
            VisibleRow { process: 0, child: Some(1), depth: 1 },
        ]
    );
    assert_eq!(visible_rows(&order, &pids, &counts, &vec![]).len(), 2);
}

#[test]
fn key_sort_is_stable_both_ways() {
    let keys: Vec<u64> = vec![5, 1, 5, 3, 1];
    assert_eq!(jolt::processes::sort_by_key(&keys, true), vec![1, 4, 3, 0, 2]);
    assert_eq!(jolt::processes::sort_by_key(&keys, false), vec![0, 2, 3, 1, 4]);
    assert_eq!(jolt::processes::sort_by_key(&Vec::new(), false), Vec::<usize>::new());
}

#[test]
fn expanded_groups_toggle() {
    let mut g: Vec<u32> = Vec::new();
    jolt::processes::toggle_expanded(&mut g, 7);
    assert_eq!(g, vec![7]);
    jolt::processes::toggle_expanded(&mut g, 9);
    assert_eq!(g, vec![7, 9]);
    jolt::processes::toggle_expanded(&mut g, 7);
    assert_eq!(g, vec![9]);
}

#[test]
fn exclusions_and_children() {
    let ex = vec!["kernel_task".to_string(), "WindowServer".to_string()];
    assert!(jolt::processes::is_excluded("kernel_task", &ex));
    assert!(!jolt::processes::is_excluded("kernel", &ex));
    assert!(!jolt::processes::is_excluded("windowserver", &ex));
    let parents = vec![None, Some(10), Some(20), Some(10), Some(1)];
    assert_eq!(jolt::processes::child_positions(&parents, 10), vec![1, 3]);
    assert_eq!(jolt::processes::child_positions(&parents, 5), Vec::<usize>::new());
}
