use boreas::errors::EcError;
use boreas::fan::fan_profile_plan;
use boreas::fan::parse_fan_profile;
use boreas::fan::validate_fan_speed;
use boreas::fan::EcWrite;
use boreas::fan::FanProfile;
use boreas::fan::REG_CPU_FAN_MODE;
use boreas::fan::REG_CPU_FAN_WRITE;
use boreas::fan::REG_GPU_FAN_MODE;
use boreas::fan::REG_GPU_FAN_WRITE;
use boreas::fan::REG_MANUAL_CONTROL;
use boreas::fan::VAL_CPU_FAN_AUTO;
use boreas::fan::VAL_CPU_FAN_MANUAL;
use boreas::fan::VAL_GPU_FAN_AUTO;
use boreas::fan::VAL_GPU_FAN_MANUAL;
use boreas::fan::VAL_MANUAL_CONTROL_DISABLE;
use boreas::fan::VAL_MANUAL_CONTROL_ENABLE;

#[test]
fn profile_speed_table() {
    assert_eq!(FanProfile::Silent.cpu_speed(), 25);
    assert_eq!(FanProfile::Silent.gpu_speed(), 25);
    assert_eq!(FanProfile::Balanced.cpu_speed(), 50);
    assert_eq!(FanProfile::Balanced.gpu_speed(), 50);
    assert_eq!(FanProfile::MaxPower.cpu_speed(), 100);
    assert_eq!(FanProfile::MaxPower.gpu_speed(), 100);
    assert_eq!(FanProfile::Auto.cpu_speed(), 50);
    assert_eq!(FanProfile::Auto.gpu_speed(), 50);
}

#[test]
fn validate_accepts_range_and_rejects_above() {
    assert_eq!(validate_fan_speed(0), Ok(0));
    assert_eq!(validate_fan_speed(100), Ok(100));
    assert_eq!(validate_fan_speed(101), Err(EcError::InvalidSpeed(101)));
    assert_eq!(validate_fan_speed(255), Err(EcError::InvalidSpeed(255)));
}

#[test]
fn parse_recognizes_profiles_case_insensitively() {
    assert_eq!(parse_fan_profile("silent"), Some(FanProfile::Silent));
    assert_eq!(parse_fan_profile("Silent"), Some(FanProfile::Silent));
    assert_eq!(parse_fan_profile("BALANCED"), Some(FanProfile::Balanced));
    assert_eq!(parse_fan_profile("auto"), Some(FanProfile::Auto));
    assert_eq!(parse_fan_profile("AuTo"), Some(FanProfile::Auto));
}

#[test]
fn parse_recognizes_maxpower_aliases() {
    assert_eq!(parse_fan_profile("maxpower"), Some(FanProfile::MaxPower));
    assert_eq!(parse_fan_profile("MaxPower"), Some(FanProfile::MaxPower));
    assert_eq!(parse_fan_profile("max_power"), Some(FanProfile::MaxPower));
    assert_eq!(parse_fan_profile("max"), Some(FanProfile::MaxPower));
    assert_eq!(parse_fan_profile("MAX"), Some(FanProfile::MaxPower));
}

#[test]
fn parse_rejects_unknown_names() {
    assert_eq!(parse_fan_profile(""), None);
    assert_eq!(parse_fan_profile("turbo"), None);
    assert_eq!(parse_fan_profile("silentt"), None);
    assert_eq!(parse_fan_profile("max power"), None);
}

#[test]
fn manual_plan_orders_modes_before_speeds() {
    let plan = fan_profile_plan(FanProfile::MaxPower);
    assert_eq!(
        plan,
        vec![
            EcWrite { register: REG_MANUAL_CONTROL, value: VAL_MANUAL_CONTROL_ENABLE },
            EcWrite { register: REG_CPU_FAN_MODE, value: VAL_CPU_FAN_MANUAL },
            EcWrite { register: REG_GPU_FAN_MODE, value: VAL_GPU_FAN_MANUAL },
            EcWrite { register: REG_CPU_FAN_WRITE, value: 100 },
            EcWrite { register: REG_GPU_FAN_WRITE, value: 100 },
        ]
    );
}

#[test]
fn auto_plan_reverses_the_phases() {
    let plan = fan_profile_plan(FanProfile::Auto);
    assert_eq!(
        plan,
        vec![
            EcWrite { register: REG_CPU_FAN_MODE, value: VAL_CPU_FAN_AUTO },
            EcWrite { register: REG_GPU_FAN_MODE, value: VAL_GPU_FAN_AUTO },
            EcWrite { register: REG_MANUAL_CONTROL, value: VAL_MANUAL_CONTROL_DISABLE },
        ]
    );
}
