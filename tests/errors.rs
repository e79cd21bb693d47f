use std::io;
use std::sync::mpsc;

use hat_errors::application::HatError;
use hat_errors::database::DieselError;
use hat_errors::lock::{LockError, RetryError};

type AppError = HatError<String, u32>;

#[test]
fn lock_descriptions() {
    assert_eq!(LockError::Poisoned.description(), "Poisoned");
    assert_eq!(LockError::RequestLimitReached.description(), "Request limit reached");
}

#[test]
fn lock_display_names() {
    assert_eq!(LockError::Poisoned.to_string(), "Poisoned");
    assert_eq!(LockError::RequestLimitReached.to_string(), "RequestLimitReached");
}

#[test]
fn retry_descriptions() {
    assert_eq!(RetryError::Poisoned.description(), "Poisoned");
    assert_eq!(RetryError::RequestLimitReached.description(), "Request limit reached");
    assert_eq!(RetryError::Retry.description(), "Retry request");
}

#[test]
fn retry_display_names() {
    assert_eq!(RetryError::Poisoned.to_string(), "Poisoned");
    assert_eq!(RetryError::RequestLimitReached.to_string(), "RequestLimitReached");
    assert_eq!(RetryError::Retry.to_string(), "Retry");
}

#[test]
fn widening_keeps_each_lock_variant() {
    assert_eq!(RetryError::from(LockError::Poisoned), RetryError::Poisoned);
    assert_eq!(
        RetryError::from(LockError::RequestLimitReached),
        RetryError::RequestLimitReached
    );
    for e in [LockError::Poisoned, LockError::RequestLimitReached] {
        let r: RetryError = e.into();
        assert_eq!(r.description(), e.description());
        assert_eq!(r.to_string(), e.to_string());
    }
}

#[test]
fn widening_never_gives_retry() {
    for e in [LockError::Poisoned, LockError::RequestLimitReached] {
        assert_ne!(RetryError::from(e), RetryError::Retry);
    }
}

// An admission-controlled resource that rejects the first request only.
fn acquire(attempt: u32) -> Result<u32, LockError> {
    if attempt == 0 {
        Err(LockError::RequestLimitReached)
    } else {
        Ok(attempt)
    }
}

#[test]
fn request_limit_then_retry_succeeds() {
    let first = acquire(0).map_err(RetryError::from);
    assert_eq!(first, Err(RetryError::RequestLimitReached));
    assert!(!matches!(first, Err(RetryError::Poisoned)));
    let should_retry = matches!(first, Err(RetryError::RequestLimitReached) | Err(RetryError::Retry));
    assert!(should_retry);
    let second = acquire(1).map_err(RetryError::from);
    assert_eq!(second, Ok(1));
}

#[test]
fn recv_cause_round_trip() {
    let e = AppError::from(mpsc::RecvError);
    assert_eq!(e.recv_cause(), Some(&mpsc::RecvError));
    assert!(e.io_cause().is_none());
    assert!(e.has_cause());
}

#[test]
fn recv_from_closed_channel() {
    let (tx, rx) = mpsc::channel::<u8>();
    drop(tx);
    let e = AppError::from(rx.recv().unwrap_err());
    assert!(e.recv_cause().is_some());
}

#[test]
fn keys_and_blobs_cause_round_trip() {
    let k = AppError::from_keys("missing key".to_string());
    assert_eq!(k.keys_cause(), Some(&"missing key".to_string()));
    assert!(k.blobs_cause().is_none());
    assert!(k.has_cause());
    let b = AppError::from_blobs(42);
    assert_eq!(b.blobs_cause(), Some(&42));
    assert!(b.keys_cause().is_none());
    assert!(b.has_cause());
}

#[test]
fn serialization_cause_round_trip() {
    let e = AppError::from(capnp::Error::failed("bad segment".to_string()));
    let c = e.serialization_cause().unwrap();
    assert_eq!(c.kind, capnp::ErrorKind::Failed);
    assert_eq!(c.extra, "bad segment");
    assert!(e.message().is_none());
    assert!(e.has_cause());
}

#[test]
fn io_cause_round_trip() {
    let e = AppError::from(io::Error::new(io::ErrorKind::NotFound, "no such file"));
    let c = e.io_cause().unwrap();
    assert_eq!(c.kind(), io::ErrorKind::NotFound);
    assert_eq!(c.to_string(), "no such file");
    assert!(e.has_cause());
}

#[test]
fn lock_cause_round_trip() {
    let e = AppError::from(LockError::Poisoned);
    assert_eq!(e.lock_cause(), Some(LockError::Poisoned));
    let e = AppError::from(LockError::RequestLimitReached);
    assert_eq!(e.lock_cause(), Some(LockError::RequestLimitReached));
    assert!(e.diesel_cause().is_none());
    assert!(e.has_cause());
}

#[test]
fn database_stage_round_trips() {
    let c = DieselError::from(diesel::ConnectionError::BadConnection("refused".to_string()));
    assert_eq!(
        c.connection_cause(),
        Some(&diesel::ConnectionError::BadConnection("refused".to_string()))
    );
    assert!(c.execute_cause().is_none());

    let m = DieselError::from(diesel::migration::MigrationError::MigrationDirectoryNotFound);
    assert_eq!(
        m.migration_cause(),
        Some(&diesel::migration::MigrationError::MigrationDirectoryNotFound)
    );
    assert!(m.connection_cause().is_none());

    let r = DieselError::from(diesel::migration::RunMigrationsError::EmptyMigration);
    assert_eq!(
        r.run_migration_cause(),
        Some(&diesel::migration::RunMigrationsError::EmptyMigration)
    );
    assert!(r.migration_cause().is_none());

    let q = DieselError::from(diesel::result::Error::NotFound);
    assert_eq!(q.execute_cause(), Some(&diesel::result::Error::NotFound));
    assert!(q.run_migration_cause().is_none());
}

#[test]
fn connection_failure_chain_keeps_description() {
    let original = diesel::ConnectionError::BadConnection("could not connect to server".to_string());
    let e = AppError::from(DieselError::from(original));
    let db = e.diesel_cause().unwrap();
    let c = db.connection_cause().unwrap();
    assert_eq!(c.to_string(), "could not connect to server");
    assert!(e.has_cause());
}

#[test]
fn message_from_literal_and_owned_agree() {
    let a = AppError::from("index corrupt");
    let b = AppError::from(String::from("index corrupt"));
    assert_eq!(a.message(), Some("index corrupt"));
    assert_eq!(b.message(), Some("index corrupt"));
    assert_eq!(a.message(), b.message());
    assert!(!a.has_cause());
    assert!(!b.has_cause());
    assert!(a.lock_cause().is_none());
}

#[test]
fn empty_message() {
    let a = AppError::from("");
    assert_eq!(a.message(), Some(""));
}

#[test]
fn every_kind_is_matched() {
    let all: Vec<AppError> = vec![
        AppError::from(mpsc::RecvError),
        AppError::from_keys("k".to_string()),
        AppError::from_blobs(7),
        AppError::from(capnp::Error::failed("s".to_string())),
        AppError::from(io::Error::new(io::ErrorKind::Other, "io")),
        AppError::from("m"),
        AppError::from(LockError::Poisoned),
        AppError::from(DieselError::from(diesel::result::Error::NotFound)),
    ];
    let mut seen = [false; 8];
    for e in &all {
        let i = match e {
            HatError::Recv(_) => 0,
            HatError::Keys(_) => 1,
            HatError::Blobs(_) => 2,
            HatError::DataSerialization(_) => 3,
            HatError::IO(_) => 4,
            HatError::Message(_) => 5,
            HatError::LockError(_) => 6,
            HatError::DieselError(_) => 7,
        };
        seen[i] = true;
        assert_eq!(e.has_cause(), i != 5);
    }
    assert!(seen.iter().all(|s| *s));
}
