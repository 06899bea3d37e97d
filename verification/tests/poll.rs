use async_channel::bounded;
use async_channel::Receiver;
use async_channel::TryRecvError;
use mpsc_writer::MpscWriter;
use mpsc_writer::Poll;
use mpsc_writer::WriterClosed;

fn next(rx: &Receiver<Box<[u8]>>) -> Vec<u8> {
    rx.try_recv().expect("an element is waiting").into_vec()
}

#[test]
fn poll_write_is_always_ready_with_the_full_length() {
    let (tx, rx) = bounded::<Box<[u8]>>(1);
    let mut writer = MpscWriter::new(tx);
    assert_eq!(writer.poll_write(&[1, 2]), Poll::Ready(Ok(2)));
    assert_eq!(writer.poll_write(&[]), Poll::Ready(Ok(0)));
    assert_eq!(writer.poll_write(&[3]), Poll::Ready(Ok(1)));
    assert_eq!(writer.buffer(), &[1, 2, 3]);
    drop(rx);
    assert_eq!(writer.poll_write(&[4]), Poll::Ready(Ok(1)));
    assert_eq!(writer.buffer(), &[1, 2, 3, 4]);
}

#[test]
fn both_interfaces_fill_one_buffer() {
    let (tx, rx) = bounded::<Box<[u8]>>(1);
    let mut writer = MpscWriter::new(tx);
    assert_eq!(writer.write(&[1]), Ok(1));
    assert_eq!(writer.poll_write(&[2]), Poll::Ready(Ok(1)));
    assert_eq!(writer.write(&[3]), Ok(1));
    assert_eq!(writer.poll_flush(), Poll::Ready(Ok(())));
    assert_eq!(next(&rx), vec![1, 2, 3]);
}

#[test]
fn poll_flush_sends_the_buffer_as_one_element() {
    let (tx, rx) = bounded::<Box<[u8]>>(1);
    let mut writer = MpscWriter::new(tx);
    assert_eq!(writer.poll_write(&[8, 9]), Poll::Ready(Ok(2)));
    assert_eq!(writer.poll_flush(), Poll::Ready(Ok(())));
    assert!(writer.buffer().is_empty());
    assert_eq!(next(&rx), vec![8, 9]);
    assert_eq!(rx.try_recv(), Err(TryRecvError::Empty));
}

#[test]
fn poll_flush_on_a_full_channel_is_pending_and_keeps_the_buffer() {
    let (tx, rx) = bounded::<Box<[u8]>>(1);
    let mut writer = MpscWriter::new(tx);
    assert_eq!(writer.poll_flush(), Poll::Ready(Ok(())));

    assert_eq!(writer.poll_write(&[1, 2, 3]), Poll::Ready(Ok(3)));
    assert_eq!(writer.poll_flush(), Poll::Pending);
    assert_eq!(writer.buffer(), &[1, 2, 3]);
    assert_eq!(writer.poll_flush(), Poll::Pending);
    assert_eq!(writer.buffer(), &[1, 2, 3]);

    assert_eq!(next(&rx), Vec::<u8>::new());
    assert_eq!(writer.poll_flush(), Poll::Ready(Ok(())));
    assert!(writer.buffer().is_empty());
    assert_eq!(next(&rx), vec![1, 2, 3]);
}

#[test]
fn poll_flush_on_a_closed_channel_is_ready_with_the_failure() {
    let (tx, rx) = bounded::<Box<[u8]>>(1);
    let mut writer = MpscWriter::new(tx);
    assert_eq!(writer.poll_write(&[1]), Poll::Ready(Ok(1)));
    drop(rx);
    assert_eq!(writer.poll_flush(), Poll::Ready(Err(WriterClosed)));
    assert!(writer.buffer().is_empty());
    assert_eq!(writer.poll_flush(), Poll::Ready(Err(WriterClosed)));
    assert_eq!(writer.flush(), Err(WriterClosed));
}

#[test]
fn poll_close_is_one_flush_attempt() {
    let (tx, rx) = bounded::<Box<[u8]>>(1);
    let mut writer = MpscWriter::new(tx);
    assert_eq!(writer.poll_write(&[1]), Poll::Ready(Ok(1)));
    assert_eq!(writer.poll_close(), Poll::Ready(Ok(())));
    assert!(writer.buffer().is_empty());

    assert_eq!(writer.poll_write(&[2]), Poll::Ready(Ok(1)));
    assert_eq!(writer.poll_close(), Poll::Pending);
    assert_eq!(writer.buffer(), &[2]);

    assert_eq!(next(&rx), vec![1]);
    assert_eq!(writer.poll_close(), Poll::Ready(Ok(())));
    assert_eq!(next(&rx), vec![2]);

    drop(rx);
    assert_eq!(writer.poll_close(), Poll::Ready(Err(WriterClosed)));
}

#[test]
fn poll_close_leaves_the_channel_open() {
    let (tx, rx) = bounded::<Box<[u8]>>(2);
    let mut writer = MpscWriter::new(tx);
    assert_eq!(writer.poll_close(), Poll::Ready(Ok(())));
    assert!(!rx.is_closed());
    assert_eq!(writer.write(&[1]), Ok(1));
    assert_eq!(writer.flush(), Ok(()));
    assert_eq!(next(&rx), Vec::<u8>::new());
    assert_eq!(next(&rx), vec![1]);
}
