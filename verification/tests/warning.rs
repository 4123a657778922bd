use statusbar::warning::Warning;

#[test]
fn battery_warnings_have_their_messages() {
    assert_eq!(Warning::ChargingStatusMissing.message(), "Could not find charging status");
    assert_eq!(Warning::BatteryMissing.message(), "Could not find battery");
}

#[test]
fn volume_warnings_have_their_messages() {
    assert_eq!(
        Warning::MixerMissing.message(),
        "could not find audio device. have you installed amixer?"
    );
    assert_eq!(
        Warning::VolumeUnreadable.message(),
        "could not read the volume from the mixer's output"
    );
}

#[test]
fn nul_warning_names_the_position() {
    assert_eq!(
        Warning::NulInLine { position: 0 }.message(),
        "nul byte found in provided data at position: 0"
    );
    assert_eq!(
        Warning::NulInLine { position: 57 }.message(),
        "nul byte found in provided data at position: 57"
    );
}
