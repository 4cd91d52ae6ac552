use raytrace_core::progress::MessageType;

#[test]
fn message_labels() {
    assert_eq!(MessageType::Info.get_message(), "[ INFO ]");
    assert_eq!(MessageType::Error.get_message(), "[ ERROR ]");
}
