use boreas::errors::CpuError;
use boreas::power::parse_performance_profile;
use boreas::power::power_plan;
use boreas::power::CpuOp;
use boreas::power::EppValue;
use boreas::power::GovValue;
use boreas::power::PerformanceProfile;

#[test]
fn profile_value_table() {
    assert_eq!(PerformanceProfile::Silent.governor(), "powersave");
    assert_eq!(PerformanceProfile::Balanced.governor(), "powersave");
    assert_eq!(PerformanceProfile::WarSpeed.governor(), "performance");
    assert_eq!(PerformanceProfile::Silent.epp(), "power");
    assert_eq!(PerformanceProfile::Balanced.epp(), "balance_performance");
    assert_eq!(PerformanceProfile::WarSpeed.epp(), "performance");
    assert!(!PerformanceProfile::Silent.turbo_enabled());
    assert!(PerformanceProfile::Balanced.turbo_enabled());
    assert!(PerformanceProfile::WarSpeed.turbo_enabled());
}

#[test]
fn parse_recognizes_performance_profiles_case_insensitively() {
    assert_eq!(
        parse_performance_profile("silent"),
        Some(PerformanceProfile::Silent)
    );
    assert_eq!(
        parse_performance_profile("Balanced"),
        Some(PerformanceProfile::Balanced)
    );
    assert_eq!(
        parse_performance_profile("warspeed"),
        Some(PerformanceProfile::WarSpeed)
    );
    assert_eq!(
        parse_performance_profile("WarSpeed"),
        Some(PerformanceProfile::WarSpeed)
    );
    assert_eq!(
        parse_performance_profile("war_speed"),
        Some(PerformanceProfile::WarSpeed)
    );
}

#[test]
fn parse_rejects_unknown_performance_names() {
    assert_eq!(parse_performance_profile(""), None);
    assert_eq!(parse_performance_profile("maxpower"), None);
    assert_eq!(parse_performance_profile("war speed"), None);
}

#[test]
fn plan_orders_governor_then_epp_then_turbo() {
    let plan = power_plan(PerformanceProfile::WarSpeed, 2, 2).unwrap();
    assert_eq!(
        plan,
        vec![
            CpuOp::Governor { cpu: 0, value: GovValue::Performance },
            CpuOp::Governor { cpu: 1, value: GovValue::Performance },
            CpuOp::Epp { cpu: 0, value: EppValue::Performance },
            CpuOp::Epp { cpu: 1, value: EppValue::Performance },
            CpuOp::Turbo { enabled: true },
        ]
    );
}

#[test]
fn plan_without_epp_files_still_ends_with_turbo() {
    let plan = power_plan(PerformanceProfile::Silent, 1, 0).unwrap();
    assert_eq!(
        plan,
        vec![
            CpuOp::Governor { cpu: 0, value: GovValue::Powersave },
            CpuOp::Turbo { enabled: false },
        ]
    );
}

#[test]
fn plan_needs_at_least_one_governor_file() {
    assert_eq!(
        power_plan(PerformanceProfile::Balanced, 0, 4),
        Err(CpuError::NoGovernorPaths)
    );
}
