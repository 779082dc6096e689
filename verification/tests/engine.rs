use aegis::catalog::default_catalog;
use aegis::catalog::operation_invocation;
use aegis::controller::ActiveView;
use aegis::controller::ControlAction;
use aegis::controller::DashboardController;
use aegis::controller::InputEvent;
use aegis::controller::OperationsState;
use aegis::detector::SystemDetector;
use aegis::telemetry::DashboardState;
use aegis::telemetry::TelemetryHistory;
use aegis::theme::EnterpriseTheme;
use aegis::theme::Rgb;

#[test]
fn controller_starts_on_dashboard_with_first_entry_selected() {
    let c = DashboardController::new();
    assert_eq!(c.active_view, ActiveView::Dashboard);
    assert_eq!(c.operations.selected_index, 0);
    assert!(c.operations.last_result.is_none());
    assert_eq!(c.tick_count, 0);
    assert_eq!(c.sample_every, 10);
    assert_eq!(c.dashboard.cpu_history.capacity(), 120);
    assert_eq!(c.dashboard.cpu_history.len(), 120);
    assert!(c.dashboard.cpu_history.samples().iter().all(|&s| s == 0));
}

#[test]
fn switch_view_toggles_and_double_application_restores() {
    let mut c = DashboardController::new();
    c.handle_event(InputEvent::SwitchView);
    assert_eq!(c.active_view, ActiveView::Operations);
    c.handle_event(InputEvent::SwitchView);
    assert_eq!(c.active_view, ActiveView::Dashboard);
}

#[test]
fn selection_stays_in_bounds_under_any_moves() {
    let mut c = DashboardController::new();
    c.handle_event(InputEvent::SwitchView);
    for _ in 0..7 {
        c.handle_event(InputEvent::MoveDown);
        assert!(c.operations.selected_index <= 3);
    }
    assert_eq!(c.operations.selected_index, 3);
    for _ in 0..9 {
        c.handle_event(InputEvent::MoveUp);
        assert!(c.operations.selected_index <= 3);
    }
    assert_eq!(c.operations.selected_index, 0);
}

#[test]
fn moves_are_ignored_on_the_dashboard_view() {
    let mut c = DashboardController::new();
    c.handle_event(InputEvent::MoveDown);
    c.handle_event(InputEvent::MoveDown);
    assert_eq!(c.operations.selected_index, 0);
}

#[test]
fn scenario_switch_navigate_execute() {
    let mut c = DashboardController::new();
    c.handle_event(InputEvent::SwitchView);
    assert_eq!(c.active_view, ActiveView::Operations);
    for _ in 0..5 {
        c.handle_event(InputEvent::MoveDown);
    }
    assert_eq!(c.operations.selected_index, 3);
    let detector = SystemDetector::new("macos".to_string());
    c.operations.execute_selected(&detector);
    let result = c.operations.last_result.as_ref().expect("a result must be stored");
    assert!(result.success);
    assert_eq!(result.stdout, "[SIMULATION] Executed: ufw enable\nSuccess.");
}

#[test]
fn execute_event_demands_the_selected_invocation() {
    let mut c = DashboardController::new();
    assert_eq!(c.handle_event(InputEvent::Execute), ControlAction::Idle);
    c.handle_event(InputEvent::SwitchView);
    c.handle_event(InputEvent::MoveDown);
    let act = c.handle_event(InputEvent::Execute);
    assert_eq!(act, ControlAction::Invoke(1));
}

#[test]
fn delivered_result_persists_across_navigation() {
    let mut c = DashboardController::new();
    c.handle_event(InputEvent::SwitchView);
    let act = c.handle_event(InputEvent::Execute);
    assert_eq!(act, ControlAction::Invoke(0));
    let detector = SystemDetector::new("windows".to_string());
    let result = detector.run_operation(0);
    c.deliver_result(result);
    c.handle_event(InputEvent::MoveDown);
    c.handle_event(InputEvent::MoveUp);
    assert!(c.operations.last_result.is_some());
}

#[test]
fn twelve_ticks_sample_exactly_once() {
    let mut c = DashboardController::new();
    let mut samples = 0;
    for _ in 0..12 {
        if c.handle_event(InputEvent::Tick) == ControlAction::SampleTelemetry {
            samples += 1;
            c.record_sample(4200);
        }
    }
    assert_eq!(samples, 1);
    assert_eq!(c.tick_count, 12);
    assert_eq!(c.dashboard.cpu_history.samples().last(), Some(&4200));
}

#[test]
fn quit_event_demands_quitting_and_changes_nothing() {
    let mut c = DashboardController::new();
    let act = c.handle_event(InputEvent::Quit);
    assert_eq!(act, ControlAction::QuitRequested);
    assert_eq!(c.active_view, ActiveView::Dashboard);
    assert_eq!(c.tick_count, 0);
}

#[test]
fn history_push_within_capacity_appends() {
    let mut h = TelemetryHistory::new(3);
    h.push(1);
    h.push(2);
    assert_eq!(h.samples().as_slice(), &[1, 2]);
    assert_eq!(h.len(), 2);
}

#[test]
fn history_push_past_capacity_evicts_exactly_the_oldest() {
    let mut h = TelemetryHistory::new(3);
    h.push(1);
    h.push(2);
    h.push(3);
    h.push(4);
    assert_eq!(h.samples().as_slice(), &[2, 3, 4]);
    assert_eq!(h.len(), 3);
    h.push(5);
    assert_eq!(h.samples().as_slice(), &[3, 4, 5]);
}

#[test]
fn dashboard_state_starts_flat_and_records_samples() {
    let mut d = DashboardState::new();
    assert_eq!(d.cpu_history.len(), 120);
    d.on_tick(7500);
    assert_eq!(d.cpu_history.len(), 120);
    assert_eq!(d.cpu_history.samples().last(), Some(&7500));
    assert_eq!(d.cpu_history.samples().first(), Some(&0));
}

#[test]
fn operations_state_holds_the_fixed_catalog() {
    let s = OperationsState::new();
    assert_eq!(s.tasks.len(), 4);
    assert_eq!(s.tasks[0].0, "Security Scan (Lynis)");
    assert_eq!(s.tasks[0].1, "Run full system audit");
    assert_eq!(s.tasks[1].0, "Malware Scan (ClamAV)");
    assert_eq!(s.tasks[2].0, "Harden SSH");
    assert_eq!(s.tasks[3].0, "Enable Firewall");
    assert_eq!(s.tasks[3].1, "UFW Default Deny/Allow Out");
    let fresh = default_catalog();
    assert_eq!(fresh, s.tasks);
}

#[test]
fn catalog_invocations_are_exact() {
    let (program, args) = operation_invocation(0, true);
    assert_eq!(program, "lynis");
    assert_eq!(args, vec!["audit", "system", "--quick", "--no-colors"]);
    let (program, args) = operation_invocation(2, true);
    assert_eq!(program, "sed");
    assert_eq!(
        args,
        vec!["-i", "s/PermitRootLogin yes/PermitRootLogin no/", "/fake/path/sshd_config"]
    );
    let (program, args) = operation_invocation(2, false);
    assert_eq!(program, "sed");
    assert_eq!(
        args,
        vec!["-i", "s/^PermitRootLogin.*/PermitRootLogin no/", "/etc/ssh/sshd_config"]
    );
    let (program, args) = operation_invocation(3, false);
    assert_eq!(program, "ufw");
    assert_eq!(args, vec!["--force", "enable"]);
}

#[test]
fn theme_palette_is_fixed() {
    let t = EnterpriseTheme::new();
    assert_eq!(t.accent, Rgb { red: 49, green: 130, blue: 206 });
    assert_eq!(t.bg_secondary, Rgb { red: 245, green: 247, blue: 250 });
    assert_eq!(t.success, Rgb { red: 56, green: 161, blue: 105 });
    assert_eq!(t.danger, Rgb { red: 229, green: 62, blue: 62 });
}
