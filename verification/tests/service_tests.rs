use pca9685::service::StatusType;
use pca9685::{
    ChannelCommand, ChannelConfig, ChannelLimits, CommandType, Config, FaultKind, Millionths,
    Pca9685Controller, PCA_PWM_RESOLUTION,
};

const TEST_CHANNEL_RAW_VALUE: u8 = 0;

fn create_test_config() -> ChannelConfig {
    ChannelConfig {
        channel: TEST_CHANNEL_RAW_VALUE,
        current_count: None,
        custom_limits: Some(ChannelLimits::from_count_limits(1000, 2000)),
    }
}

fn create_mock() -> Pca9685Controller {
    let config = Config {
        device: "/dev/foo".to_owned(),
        address: 0x40,
        output_frequency_hz: 200,
        open_drain: false,
        channels: Default::default(),
    };

    Pca9685Controller::mock(&config)
}

fn value(raw: f64) -> Option<Millionths> {
    Some(Millionths::new((raw * 1_000_000.0) as f64 as i64))
}

#[test]
fn get_status() {
    let response = pca9685::service::get_status();
    assert_eq!(response.status, StatusType::HEALTHY);
}

#[test]
fn configure_channel() {
    let mut pca = create_mock();
    let config = create_test_config();

    let response = pca9685::service::post_channel(config, &mut pca);
    let response_config = response.unwrap();

    assert_eq!(TEST_CHANNEL_RAW_VALUE, response_config.channel);
    assert_eq!(
        config.custom_limits.unwrap(),
        response_config.custom_limits.unwrap()
    );
}

#[test]
fn configure_channel_conflict() {
    let mut pca = create_mock();
    let config = create_test_config();

    let initial_response = pca9685::service::post_channel(config, &mut pca);
    assert!(initial_response.is_ok());

    let duplicate_response = pca9685::service::post_channel(config, &mut pca);
    assert_eq!(duplicate_response.unwrap_err().kind(), FaultKind::Conflict);
}

#[test]
fn get_channel() {
    let mut pca = create_mock();
    let config = create_test_config();

    let post_response = pca9685::service::post_channel(config, &mut pca);
    assert!(post_response.is_ok());

    let get_response = pca9685::service::get_channel(TEST_CHANNEL_RAW_VALUE, &pca);
    let response_config = get_response.unwrap();

    assert_eq!(TEST_CHANNEL_RAW_VALUE, response_config.channel);
    assert_eq!(
        config.custom_limits.unwrap(),
        response_config.custom_limits.unwrap()
    );
}

#[test]
fn get_channel_not_found() {
    let pca = create_mock();

    let get_response = pca9685::service::get_channel(TEST_CHANNEL_RAW_VALUE, &pca);
    assert_eq!(get_response.unwrap_err().kind(), FaultKind::NotFound);
}

#[test]
fn put_channel_full_on() {
    let mut pca = create_mock();
    let config = create_test_config();
    let command = ChannelCommand {
        channel: TEST_CHANNEL_RAW_VALUE,
        command_type: CommandType::FullOn,
        value: None,
    };

    let post_response = pca9685::service::post_channel(config, &mut pca);
    assert!(post_response.is_ok());

    let put_response = pca9685::service::put_channel(TEST_CHANNEL_RAW_VALUE, &command, &mut pca);
    let response_config = put_response.unwrap();

    assert_eq!(TEST_CHANNEL_RAW_VALUE, response_config.channel);
    assert_eq!(PCA_PWM_RESOLUTION, response_config.current_count.unwrap());
}

#[test]
fn put_channel_full_on_bad_request() {
    let mut pca = create_mock();
    let config = create_test_config();
    let command = ChannelCommand {
        channel: TEST_CHANNEL_RAW_VALUE,
        command_type: CommandType::FullOn,
        value: value(3.2),
    };

    let post_response = pca9685::service::post_channel(config, &mut pca);
    assert!(post_response.is_ok());

    let put_response = pca9685::service::put_channel(TEST_CHANNEL_RAW_VALUE, &command, &mut pca);
    assert_eq!(put_response.unwrap_err().kind(), FaultKind::BadRequest);
}

#[test]
fn put_channel_full_off() {
    let mut pca = create_mock();
    let config = create_test_config();
    let command = ChannelCommand {
        channel: TEST_CHANNEL_RAW_VALUE,
        command_type: CommandType::FullOff,
        value: None,
    };

    let post_response = pca9685::service::post_channel(config, &mut pca);
    assert!(post_response.is_ok());

    let put_response = pca9685::service::put_channel(TEST_CHANNEL_RAW_VALUE, &command, &mut pca);
    let response_config = put_response.unwrap();

    assert_eq!(TEST_CHANNEL_RAW_VALUE, response_config.channel);
    assert!(response_config.current_count.is_none());
}

#[test]
fn put_channel_full_off_bad_request() {
    let mut pca = create_mock();
    let config = create_test_config();
    let command = ChannelCommand {
        channel: TEST_CHANNEL_RAW_VALUE,
        command_type: CommandType::FullOff,
        value: value(3.2),
    };

    let post_response = pca9685::service::post_channel(config, &mut pca);
    assert!(post_response.is_ok());

    let put_response = pca9685::service::put_channel(TEST_CHANNEL_RAW_VALUE, &command, &mut pca);
    assert_eq!(put_response.unwrap_err().kind(), FaultKind::BadRequest);
}

#[test]
fn put_channel_pulse_count() {
    let mut pca = create_mock();
    let config = create_test_config();
    let command = ChannelCommand {
        channel: TEST_CHANNEL_RAW_VALUE,
        command_type: CommandType::PulseCount,
        value: value(1500.0),
    };

    let post_response = pca9685::service::post_channel(config, &mut pca);
    assert!(post_response.is_ok());

    let put_response = pca9685::service::put_channel(TEST_CHANNEL_RAW_VALUE, &command, &mut pca);
    let response_config = put_response.unwrap();

    assert_eq!(TEST_CHANNEL_RAW_VALUE, response_config.channel);
    assert_eq!(1500, response_config.current_count.unwrap());
}

#[test]
fn put_channel_pulse_count_beyond_limits() {
    let mut pca = create_mock();
    let config = create_test_config();
    let command = ChannelCommand {
        channel: TEST_CHANNEL_RAW_VALUE,
        command_type: CommandType::PulseCount,
        value: value(3000.0),
    };

    let post_response = pca9685::service::post_channel(config, &mut pca);
    assert!(post_response.is_ok());

    let put_response = pca9685::service::put_channel(TEST_CHANNEL_RAW_VALUE, &command, &mut pca);
    assert_eq!(put_response.unwrap_err().kind(), FaultKind::BadRequest);
}

#[test]
fn put_channel_pulse_count_bad_request() {
    let mut pca = create_mock();
    let config = create_test_config();
    let command = ChannelCommand {
        channel: TEST_CHANNEL_RAW_VALUE,
        command_type: CommandType::PulseCount,
        value: None,
    };

    let post_response = pca9685::service::post_channel(config, &mut pca);
    assert!(post_response.is_ok());

    let put_response = pca9685::service::put_channel(TEST_CHANNEL_RAW_VALUE, &command, &mut pca);
    assert_eq!(put_response.unwrap_err().kind(), FaultKind::BadRequest);
}

#[test]
fn put_channel_pw_ms() {
    let mut pca = create_mock();
    let config = create_test_config();
    let command = ChannelCommand {
        channel: TEST_CHANNEL_RAW_VALUE,
        command_type: CommandType::PulseWidth,
        value: value(1.831055),
    };

    let post_response = pca9685::service::post_channel(config, &mut pca);
    assert!(post_response.is_ok());

    let put_response = pca9685::service::put_channel(TEST_CHANNEL_RAW_VALUE, &command, &mut pca);
    let response_config = put_response.unwrap();

    assert_eq!(TEST_CHANNEL_RAW_VALUE, response_config.channel);
    assert_eq!(1500, response_config.current_count.unwrap());
}

#[test]
fn put_channel_pw_ms_bad_request() {
    let mut pca = create_mock();
    let config = create_test_config();
    let command = ChannelCommand {
        channel: TEST_CHANNEL_RAW_VALUE,
        command_type: CommandType::PulseWidth,
        value: None,
    };

    let post_response = pca9685::service::post_channel(config, &mut pca);
    assert!(post_response.is_ok());

    let put_response = pca9685::service::put_channel(TEST_CHANNEL_RAW_VALUE, &command, &mut pca);
    assert_eq!(put_response.unwrap_err().kind(), FaultKind::BadRequest);
}

#[test]
fn put_channel_pct() {
    let mut pca = create_mock();
    let config = create_test_config();
    let command = ChannelCommand {
        channel: TEST_CHANNEL_RAW_VALUE,
        command_type: CommandType::Percent,
        value: value(0.5),
    };

    let post_response = pca9685::service::post_channel(config, &mut pca);
    assert!(post_response.is_ok());

    let put_response = pca9685::service::put_channel(TEST_CHANNEL_RAW_VALUE, &command, &mut pca);
    let response_config = put_response.unwrap();

    assert_eq!(TEST_CHANNEL_RAW_VALUE, response_config.channel);
    assert_eq!(1500, response_config.current_count.unwrap());
}

#[test]
fn put_channel_pct_bad_request() {
    let mut pca = create_mock();
    let config = create_test_config();
    let command = ChannelCommand {
        channel: TEST_CHANNEL_RAW_VALUE,
        command_type: CommandType::Percent,
        value: None,
    };

    let post_response = pca9685::service::post_channel(config, &mut pca);
    assert!(post_response.is_ok());

    let put_response = pca9685::service::put_channel(TEST_CHANNEL_RAW_VALUE, &command, &mut pca);
    assert_eq!(put_response.unwrap_err().kind(), FaultKind::BadRequest);
}

#[test]
fn put_channel_not_found() {
    let mut pca = create_mock();
    let command = ChannelCommand {
        channel: 16,
        command_type: CommandType::Percent,
        value: None,
    };

    let put_response = pca9685::service::put_channel(16, &command, &mut pca);
    assert_eq!(put_response.unwrap_err().kind(), FaultKind::NotFound);
}

#[test]
fn put_channel_unconfigured_uses_default_limits() {
    // A channel in [0, 16) need not have limits: the default range [0, 4096]
    // applies, so half of it is count 2048.
    let mut pca = create_mock();
    let command = ChannelCommand {
        channel: TEST_CHANNEL_RAW_VALUE,
        command_type: CommandType::Percent,
        value: value(0.5),
    };

    let put_response = pca9685::service::put_channel(TEST_CHANNEL_RAW_VALUE, &command, &mut pca);
    let response_config = put_response.unwrap();

    assert_eq!(TEST_CHANNEL_RAW_VALUE, response_config.channel);
    assert!(response_config.custom_limits.is_none());
    assert_eq!(2048, response_config.current_count.unwrap());
}

#[test]
fn delete_channel() {
    let mut pca = create_mock();
    let config = create_test_config();

    let initial_response = pca9685::service::post_channel(config, &mut pca);
    assert!(initial_response.is_ok());

    let delete_response = pca9685::service::delete_channel(TEST_CHANNEL_RAW_VALUE, &mut pca);
    assert!(delete_response.is_ok());

    let duplicate_response = pca9685::service::post_channel(config, &mut pca);
    assert!(duplicate_response.is_ok());
}

#[test]
fn delete_channel_resets_output() {
    let mut pca = create_mock();
    let config = create_test_config();

    assert!(pca9685::service::post_channel(config, &mut pca).is_ok());
    let command = ChannelCommand {
        channel: TEST_CHANNEL_RAW_VALUE,
        command_type: CommandType::PulseCount,
        value: value(1500.0),
    };
    let put_response = pca9685::service::put_channel(TEST_CHANNEL_RAW_VALUE, &command, &mut pca);
    assert_eq!(put_response.unwrap().current_count.unwrap(), 1500);

    let deleted = pca9685::service::delete_channel(TEST_CHANNEL_RAW_VALUE, &mut pca).unwrap();
    assert!(deleted.custom_limits.is_none());
    assert!(deleted.current_count.is_none());

    let after = pca9685::service::get_channel(TEST_CHANNEL_RAW_VALUE, &pca);
    assert_eq!(after.unwrap_err().kind(), FaultKind::NotFound);
}

#[test]
fn delete_channel_not_found() {
    let mut pca = create_mock();

    let delete_response = pca9685::service::delete_channel(TEST_CHANNEL_RAW_VALUE, &mut pca);
    assert_eq!(delete_response.unwrap_err().kind(), FaultKind::NotFound);
}
