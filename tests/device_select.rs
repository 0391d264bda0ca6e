use triangle_renderer::device_select::{
    candidate_devices, find_graphics_family, find_present_family, plan_queues, Candidate,
    QueueFamilyInfo, QueuePlan,
};

fn family(id: u32, graphics: bool, present: Option<bool>) -> QueueFamilyInfo {
    QueueFamilyInfo { id, supports_graphics: graphics, present_support: present }
}

#[test]
fn first_graphics_family_is_found() {
    let fams = vec![
        family(0, false, Some(true)),
        family(1, true, Some(false)),
        family(2, true, Some(true)),
    ];
    assert_eq!(find_graphics_family(&fams), Some(1));
    assert_eq!(find_present_family(&fams), Some(0));
}

#[test]
fn unconfirmed_present_support_does_not_count() {
    let fams = vec![family(0, true, None), family(1, false, Some(false))];
    assert_eq!(find_present_family(&fams), None);
    assert_eq!(plan_queues(&fams), None);
}

#[test]
fn no_families_no_plan() {
    let fams: Vec<QueueFamilyInfo> = Vec::new();
    assert_eq!(find_graphics_family(&fams), None);
    assert_eq!(plan_queues(&fams), None);
}

#[test]
fn one_family_for_both_needs_one_queue() {
    let fams = vec![family(3, true, Some(true))];
    let plan = plan_queues(&fams).unwrap();
    assert_eq!(plan, QueuePlan { graphics_family: 3, present_family: 3 });
    assert_eq!(plan.distinct_families(), vec![3]);
}

#[test]
fn two_families_need_two_queues() {
    let fams = vec![family(4, true, Some(false)), family(7, false, Some(true))];
    let plan = plan_queues(&fams).unwrap();
    assert_eq!(plan, QueuePlan { graphics_family: 4, present_family: 7 });
    assert_eq!(plan.distinct_families(), vec![4, 7]);
}

#[test]
fn candidates_keep_enumeration_order() {
    let adapters = vec![
        vec![family(0, false, Some(true))],
        vec![family(0, true, Some(true))],
        vec![family(0, true, None)],
        vec![family(0, true, Some(false)), family(1, false, Some(true))],
    ];
    assert_eq!(
        candidate_devices(&adapters),
        vec![
            Candidate { adapter: 1, plan: QueuePlan { graphics_family: 0, present_family: 0 } },
            Candidate { adapter: 3, plan: QueuePlan { graphics_family: 0, present_family: 1 } },
        ]
    );
    assert!(candidate_devices(&Vec::new()).is_empty());
}

use triangle_renderer::diagnostics::{category_label, severity_label};

#[test]
fn severity_labels_prefer_the_gravest_flag() {
    assert_eq!(severity_label(true, true, true), "ERROR");
    assert_eq!(severity_label(false, true, true), "Warning");
    assert_eq!(severity_label(false, false, true), "Info");
    assert_eq!(severity_label(false, false, false), "Verbose");
}

#[test]
fn category_labels() {
    assert_eq!(category_label(true, true), "general");
    assert_eq!(category_label(false, true), "validation");
    assert_eq!(category_label(false, false), "performance");
}
