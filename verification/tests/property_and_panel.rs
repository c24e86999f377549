use lle_simulator::gui::message::{bound_tag, field_message, Message, NewValue, Range, SlideMessage};
use lle_simulator::gui::panel::Panel;
use lle_simulator::gui::{
    extract_property_value, from_property, from_property_array, map_property_to_idx,
    LISTED_COUNT,
};
use lle_simulator::property::{CoreRefresh, WorkerProperty, WorkerUpdate};

fn defaults() -> WorkerProperty {
    WorkerProperty {
        alpha: (-5.0f64).to_bits(),
        pump: 3.94f64.to_bits(),
        linear: (-0.0444f64).to_bits(),
        record_step: 100,
        simu_step: 8e-4f64.to_bits(),
        couple: 1.0f64.to_bits(),
    }
}

fn range(lower: f64, higher: f64) -> Range<u64> {
    Range { lower: lower.to_bits(), higher: higher.to_bits() }
}

#[test]
fn alpha_update_rebuilds_linear_operator_with_both_values() {
    let mut p = defaults();
    let refresh = p.set_property(WorkerUpdate::Alpha(2.5f64.to_bits()));
    assert_eq!(p.alpha, 2.5f64.to_bits());
    assert_eq!(
        refresh,
        CoreRefresh::LinearOperator { alpha: 2.5f64.to_bits(), linear: (-0.0444f64).to_bits() }
    );
    assert_eq!(p.pump, 3.94f64.to_bits());
}

#[test]
fn linear_update_rebuilds_linear_operator() {
    let mut p = defaults();
    let refresh = p.set_property(WorkerUpdate::Linear(0.01f64.to_bits()));
    assert_eq!(
        refresh,
        CoreRefresh::LinearOperator { alpha: (-5.0f64).to_bits(), linear: 0.01f64.to_bits() }
    );
}

#[test]
fn other_updates_name_their_refresh() {
    let mut p = defaults();
    assert_eq!(p.set_property(WorkerUpdate::Pump(4.0f64.to_bits())), CoreRefresh::PumpConstant(4.0f64.to_bits()));
    assert_eq!(p.set_property(WorkerUpdate::RecordStep(7)), CoreRefresh::Unchanged);
    assert_eq!(p.record_step, 7);
    assert_eq!(p.set_property(WorkerUpdate::SimuStep(1e-3f64.to_bits())), CoreRefresh::StepDistance(1e-3f64.to_bits()));
    assert_eq!(p.set_property(WorkerUpdate::Couple(0.5f64.to_bits())), CoreRefresh::CouplingCoefficient(0.5f64.to_bits()));
    assert_eq!(p.couple, 0.5f64.to_bits());
    assert_eq!(p.simu_step, 1e-3f64.to_bits());
    assert_eq!(p.pump, 4.0f64.to_bits());
}

#[test]
fn read_after_write_gives_the_update_back() {
    let updates = [
        WorkerUpdate::Alpha(1.5f64.to_bits()),
        WorkerUpdate::Pump(2.5f64.to_bits()),
        WorkerUpdate::Linear(3.5f64.to_bits()),
        WorkerUpdate::RecordStep(12),
        WorkerUpdate::SimuStep(4.5f64.to_bits()),
        WorkerUpdate::Couple(5.5f64.to_bits()),
    ];
    for u in updates {
        let mut p = defaults();
        let before = p;
        p.set_property(u);
        let idx = map_property_to_idx(u);
        if idx < LISTED_COUNT {
            assert_eq!(from_property(&p, idx), u);
            assert_eq!(p.couple, before.couple);
        } else {
            assert_eq!(WorkerUpdate::Couple(p.couple), u);
        }
        for j in 0..LISTED_COUNT {
            if j != idx {
                assert_eq!(from_property(&p, j), from_property(&before, j));
            }
        }
    }
}

#[test]
fn writing_back_what_was_read_changes_nothing() {
    let p = defaults();
    for i in 0..LISTED_COUNT {
        let mut q = p;
        q.set_property(from_property(&p, i));
        assert_eq!(q, p);
    }
    let mut q = p;
    q.set_property(WorkerUpdate::Couple(p.couple));
    assert_eq!(q, p);
}

#[test]
fn property_array_is_in_panel_order() {
    let p = defaults();
    let all = from_property_array(p);
    assert_eq!(all[0], WorkerUpdate::Alpha((-5.0f64).to_bits()));
    assert_eq!(all[1], WorkerUpdate::Pump(3.94f64.to_bits()));
    assert_eq!(all[2], WorkerUpdate::Linear((-0.0444f64).to_bits()));
    assert_eq!(all[3], WorkerUpdate::RecordStep(100));
    assert_eq!(all[4], WorkerUpdate::SimuStep(8e-4f64.to_bits()));
    assert_eq!(all.len(), 5);
    for (i, u) in all.iter().enumerate() {
        assert_eq!(map_property_to_idx(*u), i);
    }
}

#[test]
fn extract_gives_slider_values() {
    assert_eq!(extract_property_value(WorkerUpdate::Alpha(9)), 9);
    assert_eq!(extract_property_value(WorkerUpdate::Pump(8)), 8);
    assert_eq!(extract_property_value(WorkerUpdate::Linear(7)), 7);
    assert_eq!(extract_property_value(WorkerUpdate::Couple(6)), 6);
}

#[test]
fn apply_or_warn_passes_numbers_and_drops_text() {
    let applied = NewValue::Number(WorkerUpdate::RecordStep(3)).apply_or_warn(|u| map_property_to_idx(u) * 10);
    assert_eq!(applied, Some(30));
    let refused = NewValue::Nan("abc".to_string()).apply_or_warn(|u| map_property_to_idx(u));
    assert_eq!(refused, None);
}

#[test]
fn panel_moves_only_the_chosen_bound() {
    let mut panel = Panel::new(range(-10.0, 0.0), range(-1.06, 8.94), range(-5.0444, 4.9556), range(-4.0, 6.0));
    assert_eq!(panel.range(3), None);
    assert_eq!(panel.range(4), None);
    assert!(panel.set_bound(WorkerUpdate::Pump(20.0f64.to_bits()), true));
    assert_eq!(panel.range(1), Some(range(-1.06, 20.0)));
    assert!(panel.set_bound(WorkerUpdate::Couple((-1.0f64).to_bits()), false));
    assert_eq!(panel.range(5), Some(range(-1.0, 6.0)));
    assert_eq!(panel.range(0), Some(range(-10.0, 0.0)));
    assert_eq!(panel.range(2), Some(range(-5.0444, 4.9556)));
}

#[test]
fn panel_refuses_bounds_for_controls_without_slider() {
    let mut panel = Panel::new(range(0.0, 1.0), range(0.0, 1.0), range(0.0, 1.0), range(0.0, 1.0));
    assert!(!panel.set_bound(WorkerUpdate::RecordStep(5), true));
    assert!(!panel.set_bound(WorkerUpdate::SimuStep(2.0f64.to_bits()), false));
    assert_eq!(panel.range(3), None);
    assert_eq!(panel.range(4), None);
    assert_eq!(panel.range(0), Some(range(0.0, 1.0)));
}

#[test]
fn last_write_wins_and_different_parameters_commute() {
    let mut a = defaults();
    a.set_property(WorkerUpdate::Pump(1));
    a.set_property(WorkerUpdate::Pump(2));
    let mut b = defaults();
    b.set_property(WorkerUpdate::Pump(2));
    assert_eq!(a, b);

    let mut c = defaults();
    c.set_property(WorkerUpdate::Alpha(5));
    c.set_property(WorkerUpdate::RecordStep(6));
    let mut d = defaults();
    d.set_property(WorkerUpdate::RecordStep(6));
    d.set_property(WorkerUpdate::Alpha(5));
    assert_eq!(c, d);
}

#[test]
fn property_array_of_distinct_values() {
    let p = WorkerProperty {
        alpha: 1.0f64.to_bits(),
        pump: 2.0f64.to_bits(),
        linear: 3.0f64.to_bits(),
        record_step: 4,
        simu_step: 5.0f64.to_bits(),
        couple: 6.0f64.to_bits(),
    };
    assert_eq!(
        from_property_array(p),
        [
            WorkerUpdate::Alpha(1.0f64.to_bits()),
            WorkerUpdate::Pump(2.0f64.to_bits()),
            WorkerUpdate::Linear(3.0f64.to_bits()),
            WorkerUpdate::RecordStep(4),
            WorkerUpdate::SimuStep(5.0f64.to_bits()),
        ]
    );
}

fn same(a: &Message, b: &Message) -> bool {
    format!("{:?}", a) == format!("{:?}", b)
}

#[test]
fn field_messages() {
    let u = WorkerUpdate::Pump(4);
    assert!(same(&field_message(Some(u), "4".to_string(), None), &Message::Input(NewValue::Number(u))));
    assert!(same(
        &field_message(Some(u), "4".to_string(), Some(SlideMessage::SetMax)),
        &Message::Slide((NewValue::Number(u), SlideMessage::SetMax))
    ));
    assert!(same(
        &field_message(None, "4x".to_string(), Some(SlideMessage::SetMin)),
        &Message::Input(NewValue::Nan("4x".to_string()))
    ));
    assert!(same(&field_message(None, "".to_string(), None), &Message::Input(NewValue::Nan("".to_string()))));
}

#[test]
fn messages_clone() {
    let m = Message::Slide((NewValue::Nan("a".to_string()), SlideMessage::SetVal));
    assert!(same(&m.clone(), &m));
    assert!(same(&Message::Tick.clone(), &Message::Tick));
    assert!(same(&Message::Pause.clone(), &Message::Pause));
    let n = Message::Input(NewValue::Number(WorkerUpdate::Alpha(1)));
    assert!(same(&n.clone(), &n));
}

#[test]
fn initial_parameters() {
    assert_eq!(WorkerProperty::initial(), defaults());
    let p: WorkerProperty = WorkerProperty::initial();
    assert_eq!(f64::from_bits(p.alpha), -5.0);
    assert_eq!(f64::from_bits(p.pump), 3.94);
    assert_eq!(f64::from_bits(p.linear), -0.0444);
    assert_eq!(p.record_step, 100);
    assert_eq!(f64::from_bits(p.simu_step), 8e-4);
    assert_eq!(f64::from_bits(p.couple), 1.0);
}

#[test]
fn bound_tags() {
    assert_eq!(bound_tag(true), SlideMessage::SetMax);
    assert_eq!(bound_tag(false), SlideMessage::SetMin);
}

#[test]
fn new_values_clone() {
    let a = NewValue::Nan("7a".to_string());
    assert!(format!("{:?}", a.clone()) == format!("{:?}", a));
    let b = NewValue::Number(WorkerUpdate::SimuStep(3));
    assert!(format!("{:?}", b.clone()) == format!("{:?}", b));
}
