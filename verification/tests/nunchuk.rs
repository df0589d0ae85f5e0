use embedded_hal::delay::DelayNs;
use embedded_hal::i2c::{ErrorKind, I2c};
use embedded_hal_mock::eh1::delay::NoopDelay;
use embedded_hal_mock::eh1::i2c::{Mock, Transaction};
use wii_ext::driver::nunchuk::{Nunchuk, NunchukOutput};
use wii_ext::driver::Action;
use wii_ext::reading::nunchuk::{NunchukReading, NunchukReadingCalibrated};
use wii_ext::transport::{BusEvent, BusOp};
use wii_ext::{Error, EXT_I2C_ADDR};

/// There's a certain amount of slop around the center position.
/// Allow up to this range without it being an error
const ZERO_SLOP: i8 = 5;
/// The max value at full deflection is ~100, but allow a bit less than that
const AXIS_MAX: i8 = 90;

// Reports of a Nunchuk
const NUNCHUCK_IDLE: [u8; 6] = [126, 129, 125, 139, 170, 95];
const NUNCHUCK_JOY_U: [u8; 6] = [130, 221, 125, 118, 172, 191];
const NUNCHUCK_JOY_D: [u8; 6] = [126, 35, 130, 131, 173, 7];
const NUNCHUCK_JOY_L: [u8; 6] = [25, 130, 117, 126, 172, 191];
const NUNCHUCK_JOY_R: [u8; 6] = [225, 130, 122, 132, 173, 27];
const NUNCHUCK_BTN_C: [u8; 6] = [127, 128, 122, 138, 171, 181];
const NUNCHUCK_BTN_Z: [u8; 6] = [127, 127, 122, 134, 172, 122];

/// Carry out one operation on the bus and say what came of it.
fn perform(i2c: &mut Mock, delay: &mut NoopDelay, op: BusOp) -> BusEvent<ErrorKind> {
    let outcome = match op {
        BusOp::SetCursor { .. } | BusOp::WriteRegister { .. } => i2c
            .write(EXT_I2C_ADDR as u8, &op.payload())
            .map(|_| BusEvent::Done),
        BusOp::ReadBlock { len } => {
            let mut buffer = vec![0u8; len];
            i2c.read(EXT_I2C_ADDR as u8, &mut buffer)
                .map(|_| BusEvent::Block(buffer))
        }
        BusOp::Delay { micros } => {
            delay.delay_us(micros);
            Ok(BusEvent::Done)
        }
    };
    match outcome {
        Ok(event) => event,
        Err(e) => BusEvent::Failed(e),
    }
}

/// Run a request of the driver to its end.
fn run(
    nunchuk: &mut Nunchuk,
    i2c: &mut Mock,
    delay: &mut NoopDelay,
    first: BusOp,
) -> Result<NunchukOutput, Error<ErrorKind>> {
    let mut op = first;
    loop {
        let event = perform(i2c, delay, op);
        match nunchuk.on_event(event) {
            Action::Perform(next) => op = next,
            Action::Complete(output) => return Ok(output),
            Action::Abort(e) => return Err(e),
        }
    }
}

/// A driver that has been initialised over the bus.
fn connect(i2c: &mut Mock, delay: &mut NoopDelay) -> Result<Nunchuk, Error<ErrorKind>> {
    let mut nunchuk = Nunchuk::new();
    let first = nunchuk.init();
    run(&mut nunchuk, i2c, delay, first)?;
    Ok(nunchuk)
}

/// Do a read, and return the reading as the controller reported it.
fn read_report_blocking(
    nunchuk: &mut Nunchuk,
    i2c: &mut Mock,
    delay: &mut NoopDelay,
) -> Result<NunchukReading, Error<ErrorKind>> {
    let first = nunchuk.read_report_blocking();
    match run(nunchuk, i2c, delay, first)? {
        NunchukOutput::Raw(reading) => Ok(reading),
        other => panic!("a read ended with {:?}", other),
    }
}

/// Do a read, and return the reading relative to calibration.
fn read_blocking(
    nunchuk: &mut Nunchuk,
    i2c: &mut Mock,
    delay: &mut NoopDelay,
) -> Result<NunchukReadingCalibrated, Error<ErrorKind>> {
    let first = nunchuk.read_blocking();
    match run(nunchuk, i2c, delay, first)? {
        NunchukOutput::Reading(reading) => Ok(reading),
        other => panic!("a read ended with {:?}", other),
    }
}

#[test]
fn nunchuk_nunchuck_idle() {
    let expectations = vec![
        // Reset controller
        Transaction::write(EXT_I2C_ADDR as u8, vec![0]),
        // Init
        Transaction::write(EXT_I2C_ADDR as u8, vec![240, 85]),
        Transaction::write(EXT_I2C_ADDR as u8, vec![251, 0]),
        // Calibration read
        Transaction::write(EXT_I2C_ADDR as u8, vec![0]),
        Transaction::read(EXT_I2C_ADDR as u8, NUNCHUCK_IDLE.to_vec()),
        // Read
        Transaction::write(EXT_I2C_ADDR as u8, vec![0]),
        Transaction::read(EXT_I2C_ADDR as u8, NUNCHUCK_IDLE.to_vec()),
    ];
    let mut mock = Mock::new(&expectations);
    let mut delay = NoopDelay::new();
    let mut nc = connect(&mut mock, &mut delay).unwrap();
    let report = read_blocking(&mut nc, &mut mock, &mut delay).unwrap();
    assert!(!report.button_c);
    assert!(!report.button_z);
    mock.done();
}

#[test]
fn nunchuk_nunchuck_idle_calibrated() {
    let expectations = vec![
        // Reset controller
        Transaction::write(EXT_I2C_ADDR as u8, vec![0]),
        // Init
        Transaction::write(EXT_I2C_ADDR as u8, vec![240, 85]),
        Transaction::write(EXT_I2C_ADDR as u8, vec![251, 0]),
        // Calibration read
        Transaction::write(EXT_I2C_ADDR as u8, vec![0]),
        Transaction::read(EXT_I2C_ADDR as u8, NUNCHUCK_IDLE.to_vec()),
        // Read
        Transaction::write(EXT_I2C_ADDR as u8, vec![0]),
        Transaction::read(EXT_I2C_ADDR as u8, NUNCHUCK_IDLE.to_vec()),
    ];
    let mut mock = Mock::new(&expectations);
    let mut delay = NoopDelay::new();
    let mut nc = connect(&mut mock, &mut delay).unwrap();
    let report = read_blocking(&mut nc, &mut mock, &mut delay).unwrap();
    assert!(!report.button_c);
    assert!(!report.button_z);
    assert_eq!(report.joystick_x, 0);
    assert_eq!(report.joystick_y, 0);
    mock.done();
}

#[test]
fn nunchuk_nunchuck_left_calibrated() {
    let expectations = vec![
        // Reset controller
        Transaction::write(EXT_I2C_ADDR as u8, vec![0]),
        // Init
        Transaction::write(EXT_I2C_ADDR as u8, vec![240, 85]),
        Transaction::write(EXT_I2C_ADDR as u8, vec![251, 0]),
        // Calibration read
        Transaction::write(EXT_I2C_ADDR as u8, vec![0]),
        Transaction::read(EXT_I2C_ADDR as u8, NUNCHUCK_IDLE.to_vec()),
        // Read
        Transaction::write(EXT_I2C_ADDR as u8, vec![0]),
        Transaction::read(EXT_I2C_ADDR as u8, NUNCHUCK_JOY_L.to_vec()),
    ];
    let mut mock = Mock::new(&expectations);
    let mut delay = NoopDelay::new();
    let mut nc = connect(&mut mock, &mut delay).unwrap();
    let report = read_blocking(&mut nc, &mut mock, &mut delay).unwrap();
    assert!(!report.button_c);
    assert!(!report.button_z);
    assert!(report.joystick_x < -AXIS_MAX, "x = {}", report.joystick_x);
    assert!(report.joystick_y > -ZERO_SLOP, "y = {}", report.joystick_y);
    assert!(report.joystick_y < ZERO_SLOP, "y = {}", report.joystick_y);
    mock.done();
}

#[test]
fn nunchuk_nunchuck_right_calibrated() {
    let expectations = vec![
        // Reset controller
        Transaction::write(EXT_I2C_ADDR as u8, vec![0]),
        // Init
        Transaction::write(EXT_I2C_ADDR as u8, vec![240, 85]),
        Transaction::write(EXT_I2C_ADDR as u8, vec![251, 0]),
        // Calibration read
        Transaction::write(EXT_I2C_ADDR as u8, vec![0]),
        Transaction::read(EXT_I2C_ADDR as u8, NUNCHUCK_IDLE.to_vec()),
        // Read
        Transaction::write(EXT_I2C_ADDR as u8, vec![0]),
        Transaction::read(EXT_I2C_ADDR as u8, NUNCHUCK_JOY_R.to_vec()),
    ];
    let mut mock = Mock::new(&expectations);
    let mut delay = NoopDelay::new();
    let mut nc = connect(&mut mock, &mut delay).unwrap();
    let report = read_blocking(&mut nc, &mut mock, &mut delay).unwrap();
    assert!(!report.button_c);
    assert!(!report.button_z);
    assert!(report.joystick_x > AXIS_MAX, "x = {}", report.joystick_x);
    assert!(report.joystick_y > -ZERO_SLOP, "y = {}", report.joystick_y);
    assert!(report.joystick_y < ZERO_SLOP, "y = {}", report.joystick_y);
    mock.done();
}

#[test]
fn nunchuk_nunchuck_up_calibrated() {
    let expectations = vec![
        // Reset controller
        Transaction::write(EXT_I2C_ADDR as u8, vec![0]),
        // Init
        Transaction::write(EXT_I2C_ADDR as u8, vec![240, 85]),
        Transaction::write(EXT_I2C_ADDR as u8, vec![251, 0]),
        // Calibration read
        Transaction::write(EXT_I2C_ADDR as u8, vec![0]),
        Transaction::read(EXT_I2C_ADDR as u8, NUNCHUCK_IDLE.to_vec()),
        // Read
        Transaction::write(EXT_I2C_ADDR as u8, vec![0]),
        Transaction::read(EXT_I2C_ADDR as u8, NUNCHUCK_JOY_U.to_vec()),
    ];
    let mut mock = Mock::new(&expectations);
    let mut delay = NoopDelay::new();
    let mut nc = connect(&mut mock, &mut delay).unwrap();
    let report = read_blocking(&mut nc, &mut mock, &mut delay).unwrap();
    assert!(!report.button_c);
    assert!(!report.button_z);
    assert!(report.joystick_y > AXIS_MAX, "y = {}", report.joystick_y);
    assert!(report.joystick_x > -ZERO_SLOP, "x = {}", report.joystick_x);
    assert!(report.joystick_x < ZERO_SLOP, "x = {}", report.joystick_x);
    mock.done();
}

#[test]
fn nunchuk_nunchuck_down_calibrated() {
    let expectations = vec![
        // Reset controller
        Transaction::write(EXT_I2C_ADDR as u8, vec![0]),
        // Init
        Transaction::write(EXT_I2C_ADDR as u8, vec![240, 85]),
        Transaction::write(EXT_I2C_ADDR as u8, vec![251, 0]),
        // Calibration read
        Transaction::write(EXT_I2C_ADDR as u8, vec![0]),
        Transaction::read(EXT_I2C_ADDR as u8, NUNCHUCK_IDLE.to_vec()),
        // Read
        Transaction::write(EXT_I2C_ADDR as u8, vec![0]),
        Transaction::read(EXT_I2C_ADDR as u8, NUNCHUCK_JOY_D.to_vec()),
    ];
    let mut mock = Mock::new(&expectations);
    let mut delay = NoopDelay::new();
    let mut nc = connect(&mut mock, &mut delay).unwrap();
    let report = read_blocking(&mut nc, &mut mock, &mut delay).unwrap();
    assert!(!report.button_c);
    assert!(!report.button_z);
    assert!(report.joystick_y < -AXIS_MAX, "y = {}", report.joystick_y);
    assert!(report.joystick_x > -ZERO_SLOP, "x = {}", report.joystick_x);
    assert!(report.joystick_x < ZERO_SLOP, "x = {}", report.joystick_x);
    mock.done();
}

#[test]
fn nunchuk_nunchuck_idle_repeat() {
    let expectations = vec![
        // Reset controller
        Transaction::write(EXT_I2C_ADDR as u8, vec![0]),
        // Init
        Transaction::write(EXT_I2C_ADDR as u8, vec![240, 85]),
        Transaction::write(EXT_I2C_ADDR as u8, vec![251, 0]),
        // Calibration read
        Transaction::write(EXT_I2C_ADDR as u8, vec![0]),
        Transaction::read(EXT_I2C_ADDR as u8, NUNCHUCK_IDLE.to_vec()),
        // Read
        Transaction::write(EXT_I2C_ADDR as u8, vec![0]),
        Transaction::read(EXT_I2C_ADDR as u8, NUNCHUCK_IDLE.to_vec()),
        // Read
        Transaction::write(EXT_I2C_ADDR as u8, vec![0]),
        Transaction::read(EXT_I2C_ADDR as u8, NUNCHUCK_IDLE.to_vec()),
    ];
    let mut mock = Mock::new(&expectations);
    let mut delay = NoopDelay::new();
    let mut nc = connect(&mut mock, &mut delay).unwrap();

    let report = read_report_blocking(&mut nc, &mut mock, &mut delay).unwrap();
    assert!(!report.button_c);
    assert!(!report.button_z);
    let report = read_report_blocking(&mut nc, &mut mock, &mut delay).unwrap();
    assert!(!report.button_c);
    assert!(!report.button_z);
    mock.done();
}

#[test]
fn nunchuk_nunchuck_btn_c() {
    let expectations = vec![
        // Reset controller
        Transaction::write(EXT_I2C_ADDR as u8, vec![0]),
        // Init
        Transaction::write(EXT_I2C_ADDR as u8, vec![240, 85]),
        Transaction::write(EXT_I2C_ADDR as u8, vec![251, 0]),
        // Calibration read
        Transaction::write(EXT_I2C_ADDR as u8, vec![0]),
        Transaction::read(EXT_I2C_ADDR as u8, NUNCHUCK_IDLE.to_vec()),
        // Read
        Transaction::write(EXT_I2C_ADDR as u8, vec![0]),
        Transaction::read(EXT_I2C_ADDR as u8, NUNCHUCK_BTN_C.to_vec()),
    ];
    let mut mock = Mock::new(&expectations);
    let mut delay = NoopDelay::new();
    let mut nc = connect(&mut mock, &mut delay).unwrap();

    let report = read_report_blocking(&mut nc, &mut mock, &mut delay).unwrap();
    assert!(report.button_c);
    assert!(!report.button_z);
    mock.done();
}

#[test]
fn nunchuk_nunchuck_btn_z() {
    let expectations = vec![
        // Reset controller
        Transaction::write(EXT_I2C_ADDR as u8, vec![0]),
        // Init
        Transaction::write(EXT_I2C_ADDR as u8, vec![240, 85]),
        Transaction::write(EXT_I2C_ADDR as u8, vec![251, 0]),
        // Calibration read
        Transaction::write(EXT_I2C_ADDR as u8, vec![0]),
        Transaction::read(EXT_I2C_ADDR as u8, NUNCHUCK_IDLE.to_vec()),
        // Read
        Transaction::write(EXT_I2C_ADDR as u8, vec![0]),
        Transaction::read(EXT_I2C_ADDR as u8, NUNCHUCK_BTN_Z.to_vec()),
    ];
    let mut mock = Mock::new(&expectations);
    let mut delay = NoopDelay::new();
    let mut nc = connect(&mut mock, &mut delay).unwrap();

    let report = read_report_blocking(&mut nc, &mut mock, &mut delay).unwrap();
    assert!(!report.button_c);
    assert!(report.button_z);
    mock.done();
}
