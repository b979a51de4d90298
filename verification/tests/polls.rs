use hyper_tls::{Poll, SyncError};

type Polled = Poll<Result<u32, String>>;
type Blocking = Result<u32, SyncError<String>>;

#[test]
fn a_poll_outcome_in_blocking_style() {
    let ready: Polled = Poll::Ready(Ok(4));
    assert_eq!(ready.into_blocking(), Ok(4));
    let failed: Polled = Poll::Ready(Err("eof".to_owned()));
    assert_eq!(failed.into_blocking(), Err(SyncError::Other("eof".to_owned())));
    let pending: Polled = Poll::Pending;
    assert_eq!(pending.into_blocking(), Err(SyncError::WouldBlock));
}

#[test]
fn a_blocking_result_in_poll_style() {
    assert_eq!(Polled::from_blocking(Ok(4)), Poll::Ready(Ok(4)));
    assert_eq!(
        Polled::from_blocking(Err(SyncError::Other("eof".to_owned()))),
        Poll::Ready(Err("eof".to_owned()))
    );
    assert_eq!(Polled::from_blocking(Err(SyncError::WouldBlock)), Poll::Pending);
}

#[test]
fn the_bridge_is_transparent() {
    let outcomes: [fn() -> Polled; 3] =
        [|| Poll::Ready(Ok(0)), || Poll::Ready(Err(String::new())), || Poll::Pending];
    for outcome in outcomes {
        assert_eq!(Polled::from_blocking(outcome().into_blocking()), outcome());
    }
    let results: [fn() -> Blocking; 3] =
        [|| Ok(1), || Err(SyncError::WouldBlock), || Err(SyncError::Other("x".to_owned()))];
    for result in results {
        assert_eq!(Polled::from_blocking(result()).into_blocking(), result());
    }
}

#[test]
fn would_block_never_comes_out_as_a_failure() {
    let polled = Polled::from_blocking(Err(SyncError::WouldBlock));
    assert!(!matches!(polled, Poll::Ready(Err(_))));
    assert_eq!(polled, Poll::Pending);
}
