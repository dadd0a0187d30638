use emt::error::Error;
use emt::uart::Uart;
use emt::uart::UartState;

#[test]
fn uart_baudrate_from_string() {
    match Uart::baudrate_from_string("9600") {
        Ok(9600) => assert!(true),
        _ => assert!(false),
    };
    match Uart::baudrate_from_string("115200") {
        Ok(115200) => assert!(true),
        _ => assert!(false),
    };
    match Uart::baudrate_from_string("230400") {
        Ok(230400) => assert!(true),
        _ => assert!(false),
    };
    match Uart::baudrate_from_string("230000") {
        Err(_) => assert!(true),
        _ => assert!(false),
    };
}

#[test]
fn uart_constructor() {
    let u = Uart::from("/dev/tty/USB0", "115200").unwrap();
    assert_eq!(u.tty_path.as_str(), "/dev/tty/USB0");
    match u.baudrate {
        115200 => assert!(true),
        _ => assert!(false),
    };
    assert!(matches!(u.state, UartState::Closed));
}

#[test]
fn baudrate_rejects_unknown_value() {
    match Uart::baudrate_from_string("1200") {
        Err(Error::InvalidBaudRate { value }) => assert_eq!(value, "1200"),
        _ => assert!(false),
    };
    assert_eq!(Uart::baudrate_from_string("115200").unwrap(), 115200);
}

#[test]
fn uart_from_rejects_unknown_baudrate() {
    match Uart::from("/dev/ttyUSB0", "57600") {
        Err(Error::InvalidBaudRate { value }) => assert_eq!(value, "57600"),
        _ => assert!(false),
    };
}
