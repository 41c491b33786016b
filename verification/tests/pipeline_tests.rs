use aios_surreal::pipeline::{
    port_number, PipelineQueryService, PortChoice, PortPlan, PortRole, PortSource,
};

fn port(role: PortRole, number: i32, source: PortSource) -> PortChoice {
    PortChoice { role, number, source }
}

#[test]
fn pair_gives_both_main_ports_and_other_points_are_extra() {
    let plan = PipelineQueryService::plan_ports(None, Some(9), Some((1, 2)), &vec![1, 2, 3]);
    assert_eq!(plan.arrive_number, Some(1));
    assert_eq!(plan.leave_number, Some(9));
    assert_eq!(plan.arrive, Some(port(PortRole::Arrive, 1, PortSource::PairArrive)));
    assert_eq!(plan.leave, Some(port(PortRole::Leave, 9, PortSource::PairLeave)));
    assert_eq!(
        plan.extras,
        vec![port(PortRole::Extra, 2, PortSource::Point(1)), port(PortRole::Extra, 3, PortSource::Point(2))]
    );
}

#[test]
fn attribute_numbers_pick_points() {
    let plan = PipelineQueryService::plan_ports(Some(2), Some(3), None, &vec![1, 2, 3]);
    assert_eq!(plan.arrive, Some(port(PortRole::Arrive, 2, PortSource::Point(1))));
    assert_eq!(plan.leave, Some(port(PortRole::Leave, 3, PortSource::Point(2))));
    assert_eq!(plan.extras, vec![port(PortRole::Extra, 1, PortSource::Point(0))]);
}

#[test]
fn missing_ports_fall_back_to_the_first_points() {
    let plan = PipelineQueryService::plan_ports(None, None, None, &vec![4, 4, 7]);
    assert_eq!(plan.arrive_number, Some(4));
    assert_eq!(plan.arrive, Some(port(PortRole::Arrive, 4, PortSource::Point(0))));
    assert_eq!(plan.leave_number, Some(7));
    assert_eq!(plan.leave, Some(port(PortRole::Leave, 7, PortSource::Point(2))));
    assert_eq!(plan.extras.len(), 3);
    let none = PipelineQueryService::plan_ports(None, None, None, &vec![]);
    assert_eq!(none.arrive, None);
    assert_eq!(none.leave, None);
    assert_eq!(none.main_span(), None);
}

#[test]
fn spans_and_ports_are_listed_in_order() {
    let plan = PipelineQueryService::plan_ports(Some(1), Some(2), None, &vec![1, 2, 3, 4]);
    let a = port(PortRole::Arrive, 1, PortSource::Point(0));
    let l = port(PortRole::Leave, 2, PortSource::Point(1));
    let e3 = port(PortRole::Extra, 3, PortSource::Point(2));
    let e4 = port(PortRole::Extra, 4, PortSource::Point(3));
    assert_eq!(plan.main_span(), Some((a, l)));
    assert_eq!(plan.branch_spans(), vec![(a, e3), (a, e4), (l, e3), (l, e4)]);
    assert_eq!(plan.all_ports(), vec![a, l, e3, e4]);
    let only_leave = PortPlan { arrive_number: None, leave_number: Some(2), arrive: None, leave: Some(l), extras: vec![e3] };
    assert_eq!(only_leave.branch_spans(), vec![(l, e3)]);
    assert_eq!(only_leave.all_ports(), vec![l, e3]);
}

#[test]
fn points_sort_by_number_and_keep_ties_in_order() {
    assert_eq!(PipelineQueryService::sort_points(&vec![3, 1, 2, 1]), vec![1, 3, 2, 0]);
    assert_eq!(PipelineQueryService::sort_points(&vec![]), Vec::<usize>::new());
    assert_eq!(port_number(5, None), 5);
    assert_eq!(port_number(5, Some(8)), 8);
}

#[test]
fn extra_ports_avoid_given_main_numbers() {
    let points = vec![1, 2, 2, 5, 8];
    let plan = PipelineQueryService::plan_ports(Some(2), Some(8), None, &points);
    for e in &plan.extras {
        assert_eq!(e.role, PortRole::Extra);
        assert_ne!(Some(e.number), Some(2));
        assert_ne!(Some(e.number), Some(8));
        match e.source {
            PortSource::Point(k) => assert_eq!(points[k], e.number),
            _ => panic!("extra port without a point"),
        }
    }
    assert_eq!(plan.extras.len(), 2);
}
