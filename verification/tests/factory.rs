use ibrus::error::IBusErr;
use ibrus::factory::create_engine_object_path;

#[test]
fn create_engine_unknown_name_fails() {
    assert_eq!(
        create_engine_object_path("unknown"),
        Err("unknown name: unknown".to_string())
    );
    assert_eq!(
        create_engine_object_path(""),
        Err("unknown name: ".to_string())
    );
    assert_eq!(
        create_engine_object_path("PMIM"),
        Err("unknown name: PMIM".to_string())
    );
}

#[test]
fn create_engine_accepted_name() {
    let p = create_engine_object_path("pmim");
    assert_eq!(p, Ok("/org/freedesktop/IBus/Engine/1".to_string()));
    // each call yields the path anew
    assert_eq!(create_engine_object_path("pmim"), p);
}

#[test]
fn error_carries_message() {
    let e = IBusErr::new("can not get dbus unique_name".to_string());
    assert_eq!(e.message(), "can not get dbus unique_name");
    assert_eq!(e.clone(), e);
}
