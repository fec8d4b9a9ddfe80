use phidget::{Action, Handler, ReturnCode, TemperatureSensor};

const TIMEOUT: ReturnCode = ReturnCode { code: 3 };

#[test]
fn from_keeps_the_channel() {
    let sensor = TemperatureSensor::from(0x1000);
    assert_eq!(*sensor.as_channel(), 0x1000);
    let null = TemperatureSensor::from(0);
    assert_eq!(*null.as_channel(), 0);
}

#[test]
fn fresh_sensor_only_deletes_its_channel() {
    let mut sensor = TemperatureSensor::from(0x1000);
    assert_eq!(sensor.teardown(Ok(false)), vec![Action::Delete]);
}

#[test]
fn open_channel_is_closed_first() {
    let mut sensor = TemperatureSensor::from(0x1000);
    assert_eq!(sensor.teardown(Ok(true)), vec![Action::Close, Action::Delete]);
}

#[test]
fn channel_of_unknown_state_is_not_closed() {
    let mut sensor = TemperatureSensor::from(0x1000);
    assert_eq!(sensor.teardown(Err(TIMEOUT)), vec![Action::Delete]);
}

#[test]
fn temperature_change_context_is_freed() {
    let mut sensor = TemperatureSensor::from(0x1000);
    assert_eq!(sensor.set_on_temperature_change_handler(0x2000, 0), Ok(()));
    assert_eq!(
        sensor.teardown(Ok(false)),
        vec![Action::Delete, Action::Free(Handler::TemperatureChange, 0x2000)]
    );
}

#[test]
fn temperature_change_context_is_kept_after_a_failed_registration() {
    let mut sensor = TemperatureSensor::from(0x1000);
    assert_eq!(sensor.set_on_temperature_change_handler(0x2000, 3), Err(TIMEOUT));
    assert_eq!(
        sensor.teardown(Ok(false)),
        vec![Action::Delete, Action::Free(Handler::TemperatureChange, 0x2000)]
    );
}

#[test]
fn later_temperature_change_context_takes_the_place_of_the_earlier() {
    let mut sensor = TemperatureSensor::from(0x1000);
    assert_eq!(sensor.set_on_temperature_change_handler(0x2000, 0), Ok(()));
    assert_eq!(sensor.set_on_temperature_change_handler(0x2040, 0), Ok(()));
    assert_eq!(
        sensor.teardown(Ok(false)),
        vec![Action::Delete, Action::Free(Handler::TemperatureChange, 0x2040)]
    );
}

#[test]
fn attach_context_is_freed() {
    let mut sensor = TemperatureSensor::from(0x1000);
    assert_eq!(sensor.set_on_attach_handler(Ok(0x3000)), Ok(()));
    assert_eq!(
        sensor.teardown(Ok(false)),
        vec![Action::Delete, Action::Free(Handler::Attach, 0x3000)]
    );
}

#[test]
fn failed_attach_registration_changes_nothing() {
    let mut sensor = TemperatureSensor::from(0x1000);
    assert_eq!(sensor.set_on_attach_handler(Ok(0x3000)), Ok(()));
    assert_eq!(sensor.set_on_attach_handler(Err(TIMEOUT)), Err(TIMEOUT));
    assert_eq!(*sensor.as_channel(), 0x1000);
    assert_eq!(
        sensor.teardown(Ok(false)),
        vec![Action::Delete, Action::Free(Handler::Attach, 0x3000)]
    );
}

#[test]
fn detach_context_is_freed() {
    let mut sensor = TemperatureSensor::from(0x1000);
    assert_eq!(sensor.set_on_detach_handler(Ok(0x4000)), Ok(()));
    assert_eq!(
        sensor.teardown(Ok(false)),
        vec![Action::Delete, Action::Free(Handler::Detach, 0x4000)]
    );
}

#[test]
fn failed_detach_registration_changes_nothing() {
    let mut sensor = TemperatureSensor::from(0x1000);
    assert_eq!(sensor.set_on_detach_handler(Err(TIMEOUT)), Err(TIMEOUT));
    assert_eq!(sensor.teardown(Ok(false)), vec![Action::Delete]);
}

#[test]
fn teardown_closes_then_deletes_then_frees() {
    let mut sensor = TemperatureSensor::from(0x1000);
    assert_eq!(sensor.set_on_detach_handler(Ok(0x4000)), Ok(()));
    assert_eq!(sensor.set_on_attach_handler(Ok(0x3000)), Ok(()));
    assert_eq!(sensor.set_on_temperature_change_handler(0x2000, 0), Ok(()));
    assert_eq!(
        sensor.teardown(Ok(true)),
        vec![
            Action::Close,
            Action::Delete,
            Action::Free(Handler::TemperatureChange, 0x2000),
            Action::Free(Handler::Attach, 0x3000),
            Action::Free(Handler::Detach, 0x4000),
        ]
    );
}

#[test]
fn second_teardown_frees_nothing() {
    let mut sensor = TemperatureSensor::from(0x1000);
    assert_eq!(sensor.set_on_temperature_change_handler(0x2000, 0), Ok(()));
    assert_eq!(sensor.set_on_attach_handler(Ok(0x3000)), Ok(()));
    assert_eq!(sensor.teardown(Ok(true)).len(), 4);
    assert_eq!(sensor.teardown(Ok(true)), vec![Action::Close, Action::Delete]);
    assert_eq!(*sensor.as_channel(), 0x1000);
}
