use fungi::transport::error::{BoxError, BuildError, RecvError, SendError};

#[test]
fn displays_actionable_messages() {
    assert_eq!(
        SendError::TooLarge { max: 1024 }.to_string(),
        "message exceeds transport maximum of 1024 bytes"
    );
    assert_eq!(SendError::Closed.to_string(), "channel closed");
    assert_eq!(RecvError::Closed.to_string(), "channel closed");
    assert_eq!(BuildError::Unreachable.to_string(), "peer unreachable");
    assert_eq!(
        RecvError::Transport(BoxError::new("receive failed")).to_string(),
        "transport error: receive failed"
    );
    assert_eq!(
        BuildError::Transport(BoxError::new("connect failed")).to_string(),
        "transport error: connect failed"
    );
}

#[test]
fn preserves_backend_sources() {
    let send = SendError::Transport(BoxError::new("send failed"));
    let receive = RecvError::Transport(BoxError::new("receive failed"));
    let connect = BuildError::Transport(BoxError::new("connect failed"));
    assert_eq!(send.to_string(), "transport error: send failed");
    for source in [send.source(), receive.source(), connect.source()] {
        assert!(source.is_some());
    }
    assert_eq!(send.source().unwrap().to_string(), "send failed");
    assert_eq!(receive.source().unwrap().to_string(), "receive failed");
    assert_eq!(connect.source().unwrap().to_string(), "connect failed");
}

#[derive(Debug, PartialEq, Eq)]
struct Refused(u8);

impl std::fmt::Display for Refused {
    fn fmt(&self, f: &mut std::fmt::Formatter<'_>) -> std::fmt::Result {
        f.write_str(if self.0 == 3 { "refused for the third time" } else { "refused" })
    }
}

impl std::error::Error for Refused {}

#[test]
fn a_backend_error_is_kept_itself() {
    let error = SendError::Transport(BoxError::of(std::io::Error::other(Refused(3))));
    assert_eq!(error.to_string(), "transport error: refused for the third time");
    let cause = error.source().unwrap().cause().unwrap();
    let inner = cause.get_ref().unwrap();
    assert_eq!(inner.downcast_ref::<Refused>(), Some(&Refused(3)));
    assert!(BoxError::new("text alone").cause().is_none());
}

#[test]
fn semantic_errors_have_no_backend_source() {
    assert!(SendError::TooLarge { max: 1 }.source().is_none());
    assert!(SendError::Closed.source().is_none());
    assert!(RecvError::Closed.source().is_none());
    assert!(BuildError::Unreachable.source().is_none());
}

#[test]
fn limits_are_written_in_full() {
    assert_eq!(fungi::text::to_decimal(0), "0");
    assert_eq!(fungi::text::to_decimal(907), "907");
    assert_eq!(
        fungi::text::to_decimal(usize::MAX),
        format!("{}", usize::MAX)
    );
}
