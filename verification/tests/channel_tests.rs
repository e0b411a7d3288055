use pca9685::{
    ChannelLimits, ChannelProxy, Millionths, Pca9685Error, Pca9685Proxy, PcaClockConfig,
    PCA_PWM_RESOLUTION,
};

const TEST_OUTPUT_FREQUENCY_HZ: f64 = 200.0;
const TEST_PCA_MAX_PW_MS: f64 = 1000.0 / TEST_OUTPUT_FREQUENCY_HZ;

fn test_clock() -> PcaClockConfig {
    PcaClockConfig::new(TEST_OUTPUT_FREQUENCY_HZ as u16)
}

fn mock_proxy() -> Pca9685Proxy {
    Pca9685Proxy::mock(
        String::from("/dev/foo"),
        0x40,
        TEST_OUTPUT_FREQUENCY_HZ as u16,
        false,
    )
}

fn ms(value: f64) -> Millionths {
    Millionths::new((value * 1_000_000.0) as i64)
}

fn pct(value: f64) -> Millionths {
    Millionths::new((value * 1_000_000.0) as i64)
}

#[test]
fn set_pwm_count() -> Result<(), Pca9685Error> {
    let mut channel = ChannelProxy::new(0, test_clock());
    let mut mock_pca9685_proxy = mock_proxy();

    // Test at min/max of range
    assert_eq!(
        channel
            .set_pwm_count(50, &mut mock_pca9685_proxy)?
            .current_count
            .unwrap(),
        50
    );

    Ok(())
}

#[test]
fn set_pwm_count_too_large() {
    let mut channel = ChannelProxy::new(0, test_clock());
    let mut mock_pca9685_proxy = mock_proxy();

    let result = channel.set_pwm_count(PCA_PWM_RESOLUTION + 1, &mut mock_pca9685_proxy);
    assert!(matches!(result, Err(Pca9685Error::CustomLimitsError(..))));
}

#[test]
fn set_pw_ms() -> Result<(), Pca9685Error> {
    let mut channel = ChannelProxy::new(0, test_clock());
    let mut mock_pca9685_proxy = mock_proxy();

    // Test at min/max of range
    assert_eq!(
        channel
            .set_pw_ms(ms(0.0), &mut mock_pca9685_proxy)?
            .current_count
            .unwrap(),
        0
    );
    assert_eq!(
        channel
            .set_pw_ms(ms(TEST_PCA_MAX_PW_MS), &mut mock_pca9685_proxy)?
            .current_count
            .unwrap(),
        4096
    );

    // Test at percentages of range
    for fraction in [0.25, 0.5, 0.75] {
        let test_pw_ms = TEST_PCA_MAX_PW_MS * fraction;
        let expected_counts = (4096.0 * fraction) as u16;
        assert_eq!(
            channel
                .set_pw_ms(ms(test_pw_ms), &mut mock_pca9685_proxy)?
                .current_count
                .unwrap(),
            expected_counts
        );
    }

    // Test a specific value, using formula
    for test_pw_ms in [1.0, 1.5, 2.0] {
        // Hz to millis, so to speak
        let expected_count = 1000.0 / TEST_OUTPUT_FREQUENCY_HZ;

        // Duration of each count, in millis
        let expected_count = expected_count / 4096.0;

        // Number of counts required for given test_pw_ms
        let expected_count = (test_pw_ms / expected_count) as u16;

        assert_eq!(
            channel
                .set_pw_ms(ms(test_pw_ms), &mut mock_pca9685_proxy)?
                .current_count
                .unwrap(),
            expected_count
        );
    }

    Ok(())
}

#[test]
fn set_pct() -> Result<(), Pca9685Error> {
    let mut channel = ChannelProxy::new(0, test_clock());
    let mut mock_pca9685_proxy = mock_proxy();

    // Test at percentages of range
    for fraction in [0.0, 0.25, 0.5, 0.75, 1.0] {
        let expected_counts = (4096.0 * fraction) as u16;
        assert_eq!(
            channel
                .set_pct(pct(fraction), &mut mock_pca9685_proxy)?
                .current_count
                .unwrap(),
            expected_counts
        );
    }

    Ok(())
}

#[test]
fn set_pct_custom_limits() -> Result<(), Pca9685Error> {
    let mut channel = ChannelProxy::new(0, test_clock());
    let mut mock_pca9685_proxy = mock_proxy();

    channel
        .configure_limits(&Some(ChannelLimits::from_count_limits(1000, 2000)))
        .unwrap();

    // Test at percentages of range
    for fraction in [0.0, 0.25, 0.5, 0.75, 1.0] {
        let expected_counts = 1000 + (1000.0 * fraction) as u16;
        assert_eq!(
            channel
                .set_pct(pct(fraction), &mut mock_pca9685_proxy)?
                .current_count
                .unwrap(),
            expected_counts
        );
    }

    Ok(())
}

#[test]
fn set_pwm_count_too_small_custom_limits() {
    let mut channel = ChannelProxy::new(0, test_clock());

    channel
        .configure_limits(&Some(ChannelLimits::from_count_limits(1000, 2000)))
        .unwrap();

    let mut mock_pca9685_proxy = mock_proxy();

    let result = channel.set_pwm_count(999, &mut mock_pca9685_proxy);
    assert!(matches!(result, Err(Pca9685Error::CustomLimitsError(999, _))));
}

#[test]
fn set_pwm_count_too_large_custom_limits() {
    let mut channel = ChannelProxy::new(0, test_clock());

    channel
        .configure_limits(&Some(ChannelLimits::from_count_limits(1000, 2000)))
        .unwrap();

    let mut mock_pca9685_proxy = mock_proxy();

    let result = channel.set_pwm_count(2001, &mut mock_pca9685_proxy);
    assert!(matches!(result, Err(Pca9685Error::CustomLimitsError(2001, _))));
}

#[test]
fn set_pw_ms_negative() {
    let mut channel = ChannelProxy::new(0, test_clock());
    let mut mock_pca9685_proxy = mock_proxy();

    let result = channel.set_pw_ms(ms(-1.0), &mut mock_pca9685_proxy);
    assert!(matches!(
        result,
        Err(Pca9685Error::PulseWidthRangeError(..))
    ));
}

#[test]
fn set_pw_ms_too_large() {
    let mut channel = ChannelProxy::new(0, test_clock());
    let mut mock_pca9685_proxy = mock_proxy();

    let result = channel.set_pw_ms(ms(TEST_PCA_MAX_PW_MS + 1.0), &mut mock_pca9685_proxy);
    assert!(matches!(
        result,
        Err(Pca9685Error::PulseWidthRangeError(..))
    ));
}
