use pacman_bintrans::error::Error;
use pacman_bintrans::translog::{log_cli_args, log_next, log_program, LogCommand, LogPhase, LogStep};

#[test]
fn log_protocol_transitions() {
    assert_eq!(log_next(LogPhase::Checking, true), LogStep::Confirmed);
    assert_eq!(
        log_next(LogPhase::Checking, false),
        LogStep::Run { phase: LogPhase::Uploading, command: LogCommand::Upload }
    );
    assert_eq!(
        log_next(LogPhase::Uploading, true),
        LogStep::Run { phase: LogPhase::Rechecking, command: LogCommand::Verify }
    );
    assert_eq!(log_next(LogPhase::Uploading, false), LogStep::Failed(Error::LogNotFound));
    assert_eq!(log_next(LogPhase::Rechecking, true), LogStep::Confirmed);
    assert_eq!(log_next(LogPhase::Rechecking, false), LogStep::Failed(Error::LogUnavailable));
}

#[test]
fn verify_arguments() {
    assert_eq!(log_program(), "rekor-cli");
    assert_eq!(
        log_cli_args(LogCommand::Verify, "/tmp/pk", "/tmp/sig"),
        vec![
            "verify",
            "--pki-format=minisign",
            "--public-key",
            "/tmp/pk",
            "--artifact",
            "/dev/stdin",
            "--signature",
            "/tmp/sig",
            "--format",
            "json"
        ]
    );
}

#[test]
fn upload_arguments() {
    assert_eq!(
        log_cli_args(LogCommand::Upload, "k", "s"),
        vec!["upload", "--pki-format=minisign", "--public-key", "k", "--artifact", "/dev/stdin", "--signature", "s"]
    );
}
