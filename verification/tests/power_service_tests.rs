use boreas::cpu::CpuController;
use boreas::errors::CpuError;
use boreas::errors::ServiceError;
use boreas::power::CpuOp;
use boreas::power::EppValue;
use boreas::power::GovValue;
use boreas::power::PerformanceProfile;
use boreas::prometheus::PrometheusService;

fn files(content: &str, n: usize) -> Vec<String> {
    (0..n).map(|_| content.to_string()).collect()
}

fn controller(n_gov: usize, n_epp: usize, epp_writable: bool) -> CpuController {
    CpuController::new(
        files("powersave", n_gov),
        files("balance_performance", n_epp),
        epp_writable,
        true,
        false,
    )
    .unwrap()
}

#[test]
fn construction_requires_turbo_control() {
    let r = CpuController::new(files("powersave", 4), files("power", 4), true, false, false);
    assert!(matches!(r, Err(CpuError::NoTurboControl)));
}

#[test]
fn apply_writes_all_governors_before_any_epp_and_turbo_last() {
    let mut cpu = controller(4, 4, true);
    cpu.apply_profile(PerformanceProfile::WarSpeed).unwrap();
    let mut expected = Vec::new();
    for i in 0..4 {
        expected.push(CpuOp::Governor { cpu: i, value: GovValue::Performance });
    }
    for i in 0..4 {
        expected.push(CpuOp::Epp { cpu: i, value: EppValue::Performance });
    }
    expected.push(CpuOp::Turbo { enabled: true });
    assert_eq!(cpu.log, expected);
    assert!(cpu.gov_files.iter().all(|g| g == "performance"));
    assert!(cpu.epp_files.iter().all(|e| e == "performance"));
    assert!(!cpu.no_turbo);
}

#[test]
fn silent_profile_disables_turbo_with_inverted_encoding() {
    let mut cpu = controller(2, 2, true);
    cpu.apply_profile(PerformanceProfile::Silent).unwrap();
    // no_turbo is the file's inverted boolean: true means boost off.
    assert!(cpu.no_turbo);
    assert_eq!(cpu.log.last(), Some(&CpuOp::Turbo { enabled: false }));
}

#[test]
fn zero_governor_paths_fail_with_no_writes() {
    let mut cpu = controller(0, 4, true);
    assert_eq!(
        cpu.apply_profile(PerformanceProfile::Balanced),
        Err(CpuError::NoGovernorPaths)
    );
    assert!(cpu.log.is_empty());
    assert!(cpu.epp_files.iter().all(|e| e == "balance_performance"));
    assert!(!cpu.no_turbo);
}

#[test]
fn zero_epp_paths_still_succeed() {
    let mut cpu = controller(2, 0, true);
    cpu.apply_profile(PerformanceProfile::Balanced).unwrap();
    assert_eq!(
        cpu.log,
        vec![
            CpuOp::Governor { cpu: 0, value: GovValue::Powersave },
            CpuOp::Governor { cpu: 1, value: GovValue::Powersave },
            CpuOp::Turbo { enabled: true },
        ]
    );
}

#[test]
fn unwritable_epp_surface_is_a_soft_failure() {
    let mut cpu = controller(2, 2, false);
    cpu.apply_profile(PerformanceProfile::WarSpeed).unwrap();
    // Governor and turbo landed; the energy preference stayed untouched.
    assert!(cpu.gov_files.iter().all(|g| g == "performance"));
    assert!(cpu.epp_files.iter().all(|e| e == "balance_performance"));
    assert!(cpu.log.iter().all(|op| !matches!(op, CpuOp::Epp { .. })));
}

#[test]
fn current_profile_starts_unknown_and_tracks_success() {
    let mut svc = PrometheusService::new(controller(2, 2, true));
    assert_eq!(svc.get_current_profile(), "Unknown");
    let msg = svc.set_performance_profile("warspeed").unwrap();
    assert_eq!(msg, "Performance profile set to: warspeed");
    assert_eq!(svc.get_current_profile(), "WarSpeed");
}

#[test]
fn unknown_performance_profile_is_rejected_without_any_write() {
    let mut svc = PrometheusService::new(controller(2, 2, true));
    match svc.set_performance_profile("overdrive") {
        Err(ServiceError::InvalidArgs(m)) => {
            assert_eq!(m, "Unknown profile: overdrive. Valid: silent, balanced, warspeed");
        }
        other => panic!("expected InvalidArgs, got {:?}", other),
    }
    assert!(svc.cpu.log.is_empty());
    assert_eq!(svc.get_current_profile(), "Unknown");
}

#[test]
fn hardware_failure_keeps_previous_profile() {
    let mut svc = PrometheusService::new(controller(2, 2, true));
    svc.set_performance_profile("silent").unwrap();
    let mut broken = svc;
    broken.cpu.gov_files.clear();
    match broken.set_performance_profile("warspeed") {
        Err(ServiceError::Failed(m)) => {
            assert_eq!(m, "CPU control error: No CPU governor control files found");
        }
        other => panic!("expected Failed, got {:?}", other),
    }
    assert_eq!(broken.get_current_profile(), "Silent");
}

#[test]
fn status_reads_live_file_content_not_intent() {
    let svc = PrometheusService::new(controller(2, 2, true));
    // Nothing applied yet: the status is whatever the files hold.
    assert_eq!(
        svc.get_cpu_status().unwrap(),
        ("powersave".to_string(), "balance_performance".to_string())
    );
}

#[test]
fn status_after_apply_shows_new_values() {
    let mut svc = PrometheusService::new(controller(2, 2, true));
    svc.set_performance_profile("warspeed").unwrap();
    assert_eq!(
        svc.get_cpu_status().unwrap(),
        ("performance".to_string(), "performance".to_string())
    );
}

#[test]
fn status_without_epp_files_reports_not_supported() {
    let svc = PrometheusService::new(controller(2, 0, true));
    assert_eq!(
        svc.get_cpu_status().unwrap(),
        ("powersave".to_string(), "not_supported".to_string())
    );
}

#[test]
fn status_without_governor_files_fails() {
    let svc = PrometheusService::new(controller(0, 2, true));
    match svc.get_cpu_status() {
        Err(ServiceError::Failed(m)) => {
            assert_eq!(m, "CPU read error: No CPU governor control files found");
        }
        other => panic!("expected Failed, got {:?}", other),
    }
}
