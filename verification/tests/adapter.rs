use embedded_hal::spi::ErrorKind;
use linux_spi::adapter::{advance, wrap, Action, Stage};
use linux_spi::descriptor::Descriptor;
use linux_spi::error::SPIError;
use linux_spi::planner::{plan_transaction, Operation, Planned};
use std::io;

/// A transport that keeps what it is handed and fails where it is told to.
struct Recorder {
    submitted: Vec<Planned>,
    fail_at: Option<usize>,
    flushes: usize,
    flush_fails: bool,
}

impl Recorder {
    fn new(fail_at: Option<usize>, flush_fails: bool) -> Recorder {
        Recorder { submitted: Vec::new(), fail_at, flushes: 0, flush_fails }
    }

    fn submit(&mut self, plan: &[Planned]) -> io::Result<()> {
        for (n, planned) in plan.iter().enumerate() {
            if self.fail_at == Some(n) {
                return Err(io::Error::new(
                    io::ErrorKind::BrokenPipe,
                    format!("descriptor {} failed", n),
                ));
            }
            self.submitted.push(*planned);
        }
        Ok(())
    }

    fn flush(&mut self) -> io::Result<()> {
        self.flushes += 1;
        if self.flush_fails {
            Err(io::Error::new(io::ErrorKind::TimedOut, "flush failed"))
        } else {
            Ok(())
        }
    }
}

/// Runs a transaction as the adapter does: one submission, then what
/// `advance` asks for.
fn transaction(device: &mut Recorder, ops: &[Operation]) -> Result<(), SPIError> {
    let plan = plan_transaction(ops);
    let mut stage = Stage::Submitting;
    let mut answer = device.submit(&plan);
    loop {
        match advance(stage, answer) {
            Action::Flush => {
                stage = Stage::Flushing;
                answer = device.flush();
            }
            Action::Finish(result) => return result,
        }
    }
}

fn five_descriptors() -> [Operation; 4] {
    [
        Operation::Write(1),
        Operation::Transfer(2, 4),
        Operation::DelayUs(10),
        Operation::Read(3),
    ]
}

#[test]
fn transaction_succeeds_and_flushes_once() {
    let mut device = Recorder::new(None, false);
    let ops = five_descriptors();
    assert!(transaction(&mut device, &ops).is_ok());
    assert_eq!(device.submitted, plan_transaction(&ops));
    assert_eq!(device.submitted.len(), 5);
    assert_eq!(device.flushes, 1);
}

#[test]
fn failed_submission_is_returned_without_a_flush() {
    let mut device = Recorder::new(Some(2), false);
    let ops = five_descriptors();
    assert_eq!(plan_transaction(&ops).len(), 5);
    let err = transaction(&mut device, &ops).unwrap_err();
    assert_eq!(err.inner().kind(), io::ErrorKind::BrokenPipe);
    assert_eq!(err.inner().to_string(), "descriptor 2 failed");
    assert_eq!(device.flushes, 0);
    assert_eq!(device.submitted.len(), 2);
    assert_eq!(device.submitted[1].descriptor, Descriptor::Duplex {
        tx: linux_spi::descriptor::Span { start: 0, len: 2 },
        rx: linux_spi::descriptor::Span { start: 0, len: 2 },
    });
}

#[test]
fn failed_flush_is_returned() {
    let mut device = Recorder::new(None, true);
    let err = transaction(&mut device, &five_descriptors()).unwrap_err();
    assert_eq!(err.inner().kind(), io::ErrorKind::TimedOut);
    assert_eq!(device.flushes, 1);
    assert_eq!(device.submitted.len(), 5);
}

#[test]
fn advance_after_submission() {
    assert!(matches!(advance(Stage::Submitting, Ok(())), Action::Flush));
    let failure = io::Error::new(io::ErrorKind::PermissionDenied, "no");
    match advance(Stage::Submitting, Err(failure)) {
        Action::Finish(Err(err)) => {
            assert_eq!(err.inner().kind(), io::ErrorKind::PermissionDenied)
        }
        other => panic!("unexpected action {:?}", other),
    }
}

#[test]
fn advance_after_flush() {
    assert!(matches!(advance(Stage::Flushing, Ok(())), Action::Finish(Ok(()))));
    let failure = io::Error::new(io::ErrorKind::Interrupted, "again");
    match advance(Stage::Flushing, Err(failure)) {
        Action::Finish(Err(err)) => assert_eq!(err.inner().kind(), io::ErrorKind::Interrupted),
        other => panic!("unexpected action {:?}", other),
    }
}

#[test]
fn wrap_keeps_a_success() {
    assert_eq!(wrap(Ok(7u32)).unwrap(), 7);
    assert!(wrap(Ok(())).is_ok());
}

#[test]
fn wrap_wraps_a_failure() {
    let failure = io::Error::new(io::ErrorKind::NotFound, "no such device");
    let err = wrap::<u32>(Err(failure)).unwrap_err();
    assert_eq!(err.inner().kind(), io::ErrorKind::NotFound);
    assert_eq!(err.inner().to_string(), "no such device");
}

#[test]
fn error_exposes_the_transport_failure() {
    let err = SPIError::from(io::Error::new(io::ErrorKind::InvalidInput, "bad length"));
    assert_eq!(err.inner().kind(), io::ErrorKind::InvalidInput);
    assert_eq!(err.inner().to_string(), "bad length");
    let os = SPIError::from(io::Error::from_raw_os_error(5));
    assert_eq!(os.inner().raw_os_error(), Some(5));
}

#[test]
fn error_kind_is_always_other() {
    let kinds = [
        io::ErrorKind::NotFound,
        io::ErrorKind::PermissionDenied,
        io::ErrorKind::TimedOut,
        io::ErrorKind::Other,
    ];
    for kind in kinds {
        let err = SPIError::from(io::Error::new(kind, "failure"));
        assert_eq!(err.kind(), ErrorKind::Other);
    }
    assert_eq!(SPIError::from(io::Error::from_raw_os_error(16)).kind(), ErrorKind::Other);
}

#[test]
fn error_can_be_printed_for_debugging() {
    let err = SPIError::from(io::Error::new(io::ErrorKind::Other, "bus fault"));
    assert!(format!("{:?}", err).contains("bus fault"));
}
