use pca9685::{
    ChannelConfig, ChannelLimits, Config, Millionths, OutputType, Pca9685Controller, Pca9685Error,
};

fn create_mock(output_frequency_hz: u16) -> (Config, Pca9685Controller) {
    let config = Config {
        device: "/dev/foo".to_owned(),
        address: 0x40,
        output_frequency_hz,
        open_drain: false,
        channels: Vec::new(),
    };

    let pca = Pca9685Controller::mock(&config);

    (config, pca)
}

#[test]
fn init() {
    let test_output_frequency_hz = 200;

    let (config, pca) = create_mock(test_output_frequency_hz);

    let expected_max_pw_ms = 1000.0 / test_output_frequency_hz as f64;
    let single_count_duration_ms = expected_max_pw_ms / 4096.0;
    let expected_prescale = 30; // per PCA9685 documented example using 200Hz

    assert_eq!(
        pca.max_pw_ms(),
        Millionths::new((expected_max_pw_ms * 1_000_000.0) as i64)
    );
    assert_eq!(
        pca.single_count_duration_ms(),
        Millionths::new((single_count_duration_ms * 1_000_000.0) as i64)
    );
    assert_eq!(pca.device(), config.device);
    assert_eq!(pca.address(), config.address);
    assert_eq!(pca.output_frequency_hz(), config.output_frequency_hz);
    assert_eq!(pca.prescale(), expected_prescale);
    assert_eq!(pca.output_type(), OutputType::TotemPole);
}

#[test]
fn init_applies_initial_channels() {
    let config = Config {
        device: "/dev/foo".to_owned(),
        address: 0x40,
        output_frequency_hz: 200,
        open_drain: false,
        channels: vec![ChannelConfig {
            channel: 3,
            current_count: None,
            custom_limits: Some(ChannelLimits::from_count_limits(10, 20)),
        }],
    };

    assert!(config.check());
    let pca = Pca9685Controller::mock(&config);

    let applied = pca.config(3).unwrap();
    let limits = applied.custom_limits.unwrap();
    assert_eq!(limits.count_limits(), (10, 20));
    assert!(applied.current_count.is_none());

    let untouched = pca.config(4).unwrap();
    assert!(untouched.custom_limits.is_none());
}

#[test]
fn init_last_entry_wins() {
    let config = Config {
        device: "/dev/foo".to_owned(),
        address: 0x40,
        output_frequency_hz: 200,
        open_drain: false,
        channels: vec![
            ChannelConfig {
                channel: 7,
                current_count: None,
                custom_limits: Some(ChannelLimits::from_count_limits(10, 20)),
            },
            ChannelConfig {
                channel: 7,
                current_count: None,
                custom_limits: Some(ChannelLimits::from_count_limits(30, 40)),
            },
        ],
    };

    let pca = Pca9685Controller::mock(&config);
    let applied = pca.config(7).unwrap();
    assert_eq!(applied.custom_limits.unwrap().count_limits(), (30, 40));
}

#[test]
fn config_rejects_missing_channel() {
    let (_config, pca) = create_mock(200);

    let result = pca.config(16);
    assert!(matches!(result, Err(Pca9685Error::NoSuchChannelError(16))));
}

#[test]
fn full_on_overrides_limits() {
    let (_config, mut pca) = create_mock(200);

    // Limits that exclude the full-on count 4096.
    pca.configure_channel(ChannelConfig {
        channel: 2,
        current_count: None,
        custom_limits: Some(ChannelLimits::from_count_limits(1000, 2000)),
    })
    .unwrap();

    let after = pca.full_on(2).unwrap();
    assert_eq!(after.current_count.unwrap(), 4096);

    // The limits survive the override.
    let limits = after.custom_limits.unwrap();
    assert_eq!(limits.count_limits(), (1000, 2000));

    // And full off returns the channel to the unset state.
    let off = pca.full_off(2).unwrap();
    assert!(off.current_count.is_none());
}

#[test]
fn set_count_boundaries_with_limits() {
    let (_config, mut pca) = create_mock(200);

    pca.configure_channel(ChannelConfig {
        channel: 0,
        current_count: None,
        custom_limits: Some(ChannelLimits::from_count_limits(1000, 2000)),
    })
    .unwrap();

    assert_eq!(pca.set_pwm_count(0, 1000).unwrap().current_count.unwrap(), 1000);
    assert_eq!(pca.set_pwm_count(0, 2000).unwrap().current_count.unwrap(), 2000);
    assert!(matches!(
        pca.set_pwm_count(0, 999),
        Err(Pca9685Error::CustomLimitsError(999, _))
    ));
    assert!(matches!(
        pca.set_pwm_count(0, 2001),
        Err(Pca9685Error::CustomLimitsError(2001, _))
    ));
}

#[test]
fn set_pw_ms_rejects_out_of_range_with_max() {
    let (_config, mut pca) = create_mock(200);

    // The longest representable pulse at 200 Hz is 5 ms.
    match pca.set_pw_ms(0, Millionths::new(-1_000_000)) {
        Err(Pca9685Error::PulseWidthRangeError(value, max)) => {
            assert_eq!(value, Millionths::new(-1_000_000));
            assert_eq!(max, Millionths::new(5_000_000));
        }
        other => panic!("expected a pulse-width range error, got {:?}", other),
    }
    match pca.set_pw_ms(0, Millionths::new(6_000_000)) {
        Err(Pca9685Error::PulseWidthRangeError(value, max)) => {
            assert_eq!(value, Millionths::new(6_000_000));
            assert_eq!(max, Millionths::new(5_000_000));
        }
        other => panic!("expected a pulse-width range error, got {:?}", other),
    }
}

#[test]
fn set_pw_ms_specific_scenario() {
    // Output frequency 200 Hz, channel 0, limits unset: 1.831055 ms is about
    // 1500 single-count durations of roughly 0.0012207 ms each.
    let (_config, mut pca) = create_mock(200);

    let result = pca
        .set_pw_ms(0, Millionths::new((1.831055f64 * 1_000_000.0) as i64))
        .unwrap();
    assert_eq!(result.current_count.unwrap(), 1500);
}

#[test]
fn set_pct_specific_scenario() {
    // Limits [1000, 2000]: half of the range is count 1500.
    let (_config, mut pca) = create_mock(200);

    pca.configure_channel(ChannelConfig {
        channel: 0,
        current_count: None,
        custom_limits: Some(ChannelLimits::from_count_limits(1000, 2000)),
    })
    .unwrap();

    let result = pca.set_pct(0, Millionths::new(500_000)).unwrap();
    assert_eq!(result.current_count.unwrap(), 1500);
}

#[test]
fn set_pct_rejects_out_of_range() {
    let (_config, mut pca) = create_mock(200);

    assert!(matches!(
        pca.set_pct(0, Millionths::new(-100_000)),
        Err(Pca9685Error::PercentOfRangeError(_))
    ));
    assert!(matches!(
        pca.set_pct(0, Millionths::new(1_100_000)),
        Err(Pca9685Error::PercentOfRangeError(_))
    ));
}
