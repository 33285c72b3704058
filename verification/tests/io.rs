use mini_runtime::config::MAX_WRITE_BUF_SIZE;
use mini_runtime::io_ext::read::{AsyncReader, Progress, ReadEvent};
use mini_runtime::io_ext::write::AsyncBufWriter;
use mini_runtime::result::{Error, ErrorType, IoKind};
use mini_runtime::runtime::Runtime;
use mini_runtime::select::Select;
use mini_runtime::task::task_id::TaskId;
use mini_runtime::task::waker_ext::WakerExt;
use mini_runtime::task::Poll;
use mini_runtime::timeout::{ConnTimeout, Timeout};
use mini_runtime::web::conn::{new_conn, _Conn};
use mini_runtime::web::server::{AcceptStep, Server, ServerStep};

fn w(n: usize) -> WakerExt {
    WakerExt::new(TaskId(n))
}

#[test]
fn read_until_cuts_at_the_first_delimiter() {
    let mut reader = AsyncReader::new();
    assert!(reader.feed(ReadEvent::Data(b"GET a\r".to_vec())).is_ok());
    assert_eq!(reader.read_until(b"\r\n"), None);
    assert!(reader.feed(ReadEvent::Data(b"\nSET b\r\n\r\nrest".to_vec())).is_ok());
    assert_eq!(reader.read_until(b"\r\n"), Some(b"GET a\r\n".to_vec()));
    assert_eq!(reader.read_until_exclusive(b"\r\n"), Some(b"SET b".to_vec()));
    assert_eq!(reader.read_until_exclusive(b"\r\n"), Some(Vec::new()));
    assert_eq!(reader.read_until(b"\r\n"), None);
    assert_eq!(reader.read_exactly(5), None);
    assert_eq!(reader.read_exactly(3), Some(b"res".to_vec()));
    assert_eq!(reader.read_exactly(0), Some(Vec::new()));
    assert_eq!(reader.read_exactly(1), Some(b"t".to_vec()));
}

#[test]
fn read_until_finds_overlapping_delimiter() {
    let mut reader = AsyncReader::new();
    assert!(reader.feed(ReadEvent::Data(b"aaab-aab".to_vec())).is_ok());
    assert_eq!(reader.read_until(b"aab"), Some(b"aaab".to_vec()));
    assert_eq!(reader.read_until(b"aab"), Some(b"-aab".to_vec()));
    assert_eq!(reader.read_until(b"aab"), None);
}

#[test]
fn delimited_read_fails_at_end_of_stream() {
    let mut reader = AsyncReader::new();
    assert!(reader.feed(ReadEvent::Failed(Error::new(ErrorType::Blocked))).is_ok());
    let failed = reader.feed(ReadEvent::Failed(Error::new(ErrorType::Eof)));
    assert!(matches!(failed.unwrap_err().err_type(), ErrorType::Eof));
    let failed = reader.feed(ReadEvent::Failed(Error::from_io(IoKind::Other, "reset".to_string())));
    assert!(matches!(failed.unwrap_err().err_type(), ErrorType::IoError(text) if text == "reset"));
}

#[test]
fn readall_ends_at_end_of_stream() {
    let mut reader = AsyncReader::new();
    assert!(matches!(reader.readall(ReadEvent::Data(b"hello".to_vec())), Progress::Again));
    assert!(matches!(
        reader.readall(ReadEvent::Failed(Error::from_io(IoKind::WouldBlock, String::new()))),
        Progress::Again
    ));
    assert!(matches!(reader.readall(ReadEvent::Data(b"(size=5)".to_vec())), Progress::Again));
    match reader.readall(ReadEvent::Failed(Error::from_io(IoKind::UnexpectedEof, String::new()))) {
        Progress::Done(all) => assert_eq!(all, b"hello(size=5)".to_vec()),
        other => panic!("{other:?}"),
    }
    match reader.readall(ReadEvent::Failed(Error::from_string("broken".to_string()))) {
        Progress::Failed(e) => {
            assert!(matches!(e.err_type(), ErrorType::RuntimeError(text) if text == "broken"))
        }
        other => panic!("{other:?}"),
    }
}

#[test]
fn read_once_ends_when_nothing_is_there() {
    let mut reader = AsyncReader::new();
    assert!(reader.feed(ReadEvent::Data(b"he".to_vec())).is_ok());
    assert!(matches!(reader.read_once(ReadEvent::Data(b"llo".to_vec())), Progress::Again));
    match reader.read_once(ReadEvent::Failed(Error::new(ErrorType::Blocked))) {
        Progress::Done(all) => assert_eq!(all, b"hello".to_vec()),
        other => panic!("{other:?}"),
    }
    match reader.read_once(ReadEvent::Failed(Error::new(ErrorType::Eof))) {
        Progress::Done(all) => assert_eq!(all, Vec::<u8>::new()),
        other => panic!("{other:?}"),
    }
    assert!(matches!(
        reader.read_once(ReadEvent::Failed(Error::new(ErrorType::Timeout))),
        Progress::Failed(_)
    ));
}

#[test]
fn writer_sends_every_byte_once_and_in_order() {
    let mut rt = Runtime::new();
    let mut writer = AsyncBufWriter::new(Vec::<u8>::new());
    let mut guard = writer.lock();
    assert!(!guard.holding());
    assert_eq!(guard.poll(&mut writer, &w(1)), Poll::Ready(()));
    assert!(guard.holding());
    assert!(guard.is_flushed());
    assert!(!guard.send(b""));
    assert!(guard.send(b"hello, "));
    let mut room = 3usize;
    loop {
        let offered = guard.to_write().to_vec();
        let size = offered.len().min(room);
        guard.sink(&mut writer).extend_from_slice(&offered[..size]);
        room += 1;
        if guard.flush(Ok(size)).unwrap() {
            break;
        }
        assert!(!guard.flush(Err(Error::new(ErrorType::Blocked))).unwrap());
    }
    assert!(guard.send(b"mini_runtime"));
    let offered = guard.to_write().to_vec();
    assert_eq!(offered, b"mini_runtime".to_vec());
    guard.sink(&mut writer).extend_from_slice(&offered);
    assert!(guard.flush(Ok(offered.len())).unwrap());
    assert_eq!(*guard.sink(&mut writer), b"hello, mini_runtime".to_vec());
    assert!(guard.is_flushed());
    let (lost, failure) = guard.release(None, &mut writer, &mut rt);
    assert!(lost.is_empty());
    assert!(failure.is_none());
}

#[test]
fn writers_take_turns_at_the_sink() {
    let mut rt = Runtime::new();
    let mut writer = AsyncBufWriter::new(Vec::<u8>::new());
    let mut first = writer.lock();
    let mut second = writer.lock();
    assert_eq!(first.poll(&mut writer, &w(1)), Poll::Ready(()));
    assert_eq!(second.poll(&mut writer, &w(2)), Poll::Pending);
    assert!(first.send(b"abcdef"));
    first.sink(&mut writer).extend_from_slice(b"abcd");
    let (lost, failure) = first.release(Some(Ok(4)), &mut writer, &mut rt);
    assert_eq!(lost, b"ef".to_vec());
    assert!(failure.is_none());
    assert_eq!(rt.get_waker(), Some(w(2)));
    assert_eq!(second.poll(&mut writer, &w(2)), Poll::Ready(()));
    assert!(second.send(b"gh"));
    let (lost, failure) =
        second.release(Some(Err(Error::new(ErrorType::Blocked))), &mut writer, &mut rt);
    assert_eq!(lost, b"gh".to_vec());
    assert!(failure.unwrap().is_blocked());
    assert_eq!(rt.get_waker(), None);
}

#[test]
fn write_asks_for_a_flush_from_the_threshold_on() {
    let writer = AsyncBufWriter::new(());
    let mut guard = writer.lock();
    assert_eq!(MAX_WRITE_BUF_SIZE, 16);
    assert!(!guard.write(b"0123456789"));
    assert!(!guard.write(b"abcde"));
    assert!(guard.write(b"f"));
    assert_eq!(guard.to_write(), b"0123456789abcdef");
    assert!(guard.flush_once(Ok(10)).is_ok());
    assert_eq!(guard.to_write(), b"abcdef");
    assert!(guard.flush_once(Ok(7)).is_ok());
    assert_eq!(guard.to_write(), b"abcdef");
    let failed = guard.flush_once(Err(Error::new(ErrorType::WriteTimeout)));
    assert!(matches!(failed.unwrap_err().err_type(), ErrorType::WriteTimeout));
    assert_eq!(guard.to_write(), b"abcdef");
    let failed = guard.flush(Err(Error::new(ErrorType::Eof)));
    assert!(failed.unwrap_err().is_eof());
    assert!(guard.flush(Ok(6)).unwrap());
}

#[test]
fn errors_tell_their_kind() {
    assert!(Error::from_io(IoKind::WouldBlock, "x".to_string()).is_blocked());
    assert!(Error::from_io(IoKind::UnexpectedEof, "x".to_string()).is_eof());
    assert!(!Error::from_io(IoKind::Other, "x".to_string()).is_eof());
    assert!(!Error::new(ErrorType::ReadTimeout).is_blocked());
    assert!(matches!(Error::new(ErrorType::Timeout).err_type(), ErrorType::Timeout));
}

#[test]
fn select_takes_the_first_ready_branch() {
    let mut rt = Runtime::new();
    let _task = rt.spawn();
    let _ = rt.get_waker();
    let mut select = Select::new(vec![false, false]);
    let mut slow = mini_runtime::sleep(0, 200);
    let mut fast = mini_runtime::sleep(0, 100);
    let mut now = 0u64;
    let mut taken = None;
    let mut rounds = 0;
    while taken.is_none() {
        rounds += 1;
        if select.to_poll(0) && slow.poll(&mut rt, now, &w(1)) == Poll::Ready(()) {
            taken = select.ready(0, true);
        }
        if taken.is_none() && select.to_poll(1) && fast.poll(&mut rt, now, &w(1)) == Poll::Ready(()) {
            taken = select.ready(1, true);
        }
        if taken.is_none() {
            assert_eq!(select.end_round(), Poll::Pending);
            now += rt.delay(now).unwrap();
            rt.wait(&vec![], now);
            assert_eq!(rt.get_waker(), Some(w(1)));
        }
    }
    assert_eq!(taken, Some((1, true)));
    assert_eq!(now, 100);
    assert_eq!(rounds, 2);
    assert!(!select.to_poll(0));
    assert!(!select.to_poll(1));
    slow.cancel(&mut rt);
    fast.cancel(&mut rt);
    assert_eq!(rt.delay(now), None);
}

#[test]
fn select_swallows_a_mismatch_without_else() {
    let mut select = Select::new(vec![false, true, false]);
    assert_eq!(select.ready(0, false), None);
    assert!(!select.to_poll(0));
    assert!(select.to_poll(1));
    assert_eq!(select.ready(0, true), None);
    assert_eq!(select.ready(9, true), None);
    assert_eq!(select.end_round(), Poll::Pending);
    assert_eq!(select.ready(1, false), Some((1, false)));
    assert!(!select.to_poll(2));
    assert_eq!(select.ready(2, true), None);

    let mut none = Select::new(vec![false, false]);
    assert_eq!(none.ready(1, false), None);
    assert_eq!(none.end_round(), Poll::Pending);
    assert_eq!(none.ready(0, false), None);
    assert_eq!(none.end_round(), Poll::Ready(None));
}

#[test]
fn connection_read_times_out() {
    let mut rt = Runtime::new();
    let _task = rt.spawn();
    let _ = rt.get_waker();
    let mut timeout = ConnTimeout::new(0, Some(5000));
    timeout.set_read_timeout(0, 500);
    let conn = _Conn::new(timeout);
    let mut overall = conn.timeout.timeout(0).unwrap();
    let mut read = conn.timeout.read_timeout(0).unwrap();
    let mut now = 0u64;
    let answer = loop {
        let a = overall.poll(&mut rt, now, &w(1));
        let b = read.poll(&mut rt, now, &w(1));
        match _Conn::ready_to_read(a, b, Poll::Pending) {
            Poll::Ready(answer) => break answer,
            Poll::Pending => {
                now += rt.delay(now).unwrap();
                rt.wait(&vec![], now);
            }
        }
    };
    assert_eq!(now, 500);
    assert!(matches!(answer.unwrap_err().err_type(), ErrorType::ReadTimeout));
}

#[test]
fn connection_deadline_comes_before_the_operation_deadline() {
    let timed = _Conn::ready_to_write(Poll::Ready(()), Poll::Ready(()), Poll::Ready(Ok(())));
    assert!(matches!(timed, Poll::Ready(Err(e)) if matches!(e.err_type(), ErrorType::Timeout)));
    let timed = _Conn::ready_to_write(Poll::Pending, Poll::Ready(()), Poll::Ready(Ok(())));
    assert!(matches!(timed, Poll::Ready(Err(e)) if matches!(e.err_type(), ErrorType::WriteTimeout)));
    let ok = _Conn::ready_to_write(Poll::Pending, Poll::Pending, Poll::Ready(Ok(())));
    assert!(matches!(ok, Poll::Ready(Ok(()))));
    let failed = _Conn::ready_to_read(
        Poll::Pending,
        Poll::Pending,
        Poll::Ready(Err(Error::new(ErrorType::Eof))),
    );
    assert!(matches!(failed, Poll::Ready(Err(e)) if e.is_eof()));
    let pending = _Conn::ready_to_read(Poll::Pending, Poll::Pending, Poll::Pending);
    assert!(matches!(pending, Poll::Pending));
}

#[test]
fn connection_is_shared_behind_its_lock() {
    let mut rt = Runtime::new();
    let mut conn = new_conn(ConnTimeout::new(0, None));
    let mut reader = conn.lock();
    let mut writer = conn.lock();
    assert_eq!(reader.poll(&mut conn, &w(1)), Poll::Ready(()));
    assert_eq!(writer.poll(&mut conn, &w(2)), Poll::Pending);
    let inner = reader.get_mut(&mut conn);
    assert!(inner.reader.feed(ReadEvent::Data(b"ping\r\n".to_vec())).is_ok());
    assert_eq!(inner.reader.read_until_exclusive(b"\r\n"), Some(b"ping".to_vec()));
    reader.release(&mut conn, &mut rt);
    assert_eq!(rt.get_waker(), Some(w(2)));
    assert_eq!(writer.poll(&mut conn, &w(2)), Poll::Ready(()));
}

#[test]
fn timeouts_restart_with_their_length() {
    let t = Timeout::new(100, 50);
    assert!(t.timeout(150).is_none());
    assert!(t.timeout(149).is_some());
    let again = t.restart(1000);
    assert!(again.timeout(1049).is_some());
    assert!(again.timeout(1050).is_none());

    let mut conn = ConnTimeout::new(0, None);
    assert!(conn.timeout(59999).is_some());
    assert!(conn.timeout(60000).is_none());
    conn.update_timeout(10, 20);
    assert!(conn.timeout(29).is_some());
    assert!(conn.timeout(30).is_none());
    conn.set_write_timeout(0, 0);
    assert!(conn.write_timeout(7).is_none());
    assert!(conn.read_timeout(7).is_some());
    let later = conn.restart(100);
    assert!(later.timeout(119).is_some());
    assert!(later.timeout(120).is_none());
}

#[test]
fn server_accepts_unless_the_listener_failed_or_a_stop_came() {
    assert_eq!(Server::run(Some((0, true))), ServerStep::Retry);
    assert_eq!(Server::run(Some((0, false))), ServerStep::Accept);
    assert_eq!(Server::run(Some((1, true))), ServerStep::Accept);
    assert_eq!(Server::run(Some((2, true))), ServerStep::Stop);
    assert_eq!(Server::run(None), ServerStep::Accept);
    assert_eq!(Server::build_connections(&Ok(())), AcceptStep::Spawn);
    assert_eq!(
        Server::build_connections(&Err(Error::new(ErrorType::Blocked))),
        AcceptStep::Done
    );
    assert_eq!(Server::build_connections(&Err(Error::new(ErrorType::Eof))), AcceptStep::Again);
    let mut rt = Runtime::new();
    let server = Server::new(ConnTimeout::new(0, Some(10)));
    server.set_max_wait_time(&mut rt, 5000);
    assert_eq!(rt.get_max_wait_duration(), 5000);
}

#[test]
fn deadlines_must_fit_the_clock() {
    let mut conn = ConnTimeout::new(0, Some(100));
    assert!(conn.fits(u64::MAX - 60000));
    assert!(!conn.fits(u64::MAX - 59999));
    conn.set_read_timeout(0, 70000);
    assert!(!conn.fits(u64::MAX - 60000));
    assert!(conn.fits(u64::MAX - 70000));
}

fn pump(from: &mut Vec<u8>, chunk: usize) -> ReadEvent {
    if from.is_empty() {
        return ReadEvent::Failed(Error::from_io(IoKind::WouldBlock, String::new()));
    }
    let size = chunk.min(from.len());
    ReadEvent::Data(from.drain(..size).collect())
}

fn flush_all(text: &[u8], wire: &mut Vec<u8>) {
    let writer = AsyncBufWriter::new(());
    let mut guard = writer.lock();
    let mut to_flush = guard.send(text);
    while to_flush {
        let offered = guard.to_write().to_vec();
        let size = offered.len().min(4);
        wire.extend_from_slice(&offered[..size]);
        to_flush = !guard.flush(Ok(size)).unwrap();
    }
}

#[test]
fn echo_round_trip() {
    let mut to_server: Vec<u8> = Vec::new();
    let mut to_client: Vec<u8> = Vec::new();
    flush_all(b"hello", &mut to_server);

    let mut server = AsyncReader::new();
    let request = loop {
        match server.read_once(pump(&mut to_server, 4)) {
            Progress::Again => continue,
            Progress::Done(all) => break all,
            Progress::Failed(e) => panic!("{e:?}"),
        }
    };
    assert_eq!(request, b"hello".to_vec());
    let mut reply = request.clone();
    reply.extend_from_slice(format!("(size={})", request.len()).as_bytes());
    flush_all(&reply, &mut to_client);

    let mut client = AsyncReader::new();
    let answer = loop {
        let event = if to_client.is_empty() {
            ReadEvent::Failed(Error::from_io(IoKind::UnexpectedEof, String::new()))
        } else {
            pump(&mut to_client, 4)
        };
        match client.readall(event) {
            Progress::Again => continue,
            Progress::Done(all) => break all,
            Progress::Failed(e) => panic!("{e:?}"),
        }
    };
    assert_eq!(answer, b"hello(size=5)".to_vec());
}
