//! Tests of the lifecycle control flag: the integer encoding, the loop
//! decisions it drives, and the shared flag on a receiver.
use filestream::control::{
    aborts_transfer, allows_accept, control_code, control_of_code, Control,
};
use filestream::receiver::FileReceiver;

#[test]
fn control_codes_round_trip() {
    assert_eq!(control_code(Control::Run), 0);
    assert_eq!(control_code(Control::Stop), 1);
    assert_eq!(control_code(Control::StopNow), 2);
    assert_eq!(control_of_code(control_code(Control::Run)), Control::Run);
    assert_eq!(control_of_code(control_code(Control::Stop)), Control::Stop);
    assert_eq!(control_of_code(control_code(Control::StopNow)), Control::StopNow);
    // A code nothing encodes to reads as the conservative state.
    assert_eq!(control_of_code(99), Control::Stop);
}

#[test]
fn only_run_keeps_the_accept_loop_polling() {
    assert!(allows_accept(Control::Run));
    assert!(!allows_accept(Control::Stop));
    assert!(!allows_accept(Control::StopNow));
}

#[test]
fn only_stop_now_aborts_a_transfer() {
    assert!(!aborts_transfer(Control::Run));
    assert!(!aborts_transfer(Control::Stop));
    assert!(aborts_transfer(Control::StopNow));
}

#[test]
fn receiver_flag_reflects_the_last_command() {
    let receiver = FileReceiver::new(8080);
    assert_eq!(receiver.port(), 8080);
    // The flag starts as the graceful stop; the accept loop switches
    // it to run when it starts.
    assert_eq!(receiver.get_command(), Control::Stop);
    receiver.set_command(Control::Run);
    assert_eq!(receiver.get_command(), Control::Run);
    receiver.stop_now();
    assert_eq!(receiver.get_command(), Control::StopNow);
    receiver.stop();
    assert_eq!(receiver.get_command(), Control::Stop);
}
