//! Tests of the two session state machines, alone and coupled: a whole
//! transfer simulated through them reconstructs the source file, also
//! across an abort and resume.
use filestream::control::Control;
use filestream::receiver::{RecvEvent, RecvSession, RecvStep, MAX_BYTES_NOT_ACKNOWLEDGED};
use filestream::uploader::{buffer_size, UploadAction, UploadEvent, UploadPhase, UploadSession};

/// A deterministic source file of the given size.
fn patterned_source(size: usize) -> Vec<u8> {
    (0..size).map(|i| (i % 251) as u8).collect()
}

/// Writes `data` into the model destination at `pos`, growing it as a
/// positioned file write would.
fn write_to_model_file(dest: &mut Vec<u8>, pos: usize, data: &[u8]) {
    assert!(pos <= dest.len(), "write past the end of the file model");
    let overlap = (dest.len() - pos).min(data.len());
    dest[pos..pos + overlap].copy_from_slice(&data[..overlap]);
    dest.extend_from_slice(&data[overlap..]);
}

/// Feeds one payload chunk to a receiver session and performs the
/// persist it asks for; returns the acknowledgement that was sent, if
/// one was due.
fn deliver_chunk(
    recv: &mut RecvSession,
    dest: &mut Vec<u8>,
    chunk: &[u8],
) -> Option<u64> {
    let pos = (recv.offset + recv.bytes_received) as usize;
    match recv.step(Control::Run, RecvEvent::Data(chunk)) {
        RecvStep::Persist { ack } => {
            write_to_model_file(dest, pos, chunk);
            if ack.is_some() {
                recv.ack_sent();
            }
            ack
        }
        _ => panic!("a data chunk must be persisted"),
    }
}

#[test]
fn receiver_acknowledges_at_threshold_and_final_byte() {
    let threshold = MAX_BYTES_NOT_ACKNOWLEDGED as usize;
    let size = threshold + 10;
    let source = patterned_source(size);
    let mut recv = RecvSession::begin(size as u64, 0);
    let mut dest: Vec<u8> = Vec::new();

    // Everything below the threshold passes unacknowledged.
    let first = threshold - 1;
    assert_eq!(deliver_chunk(&mut recv, &mut dest, &source[..first]), None);
    // The byte that reaches the threshold is acknowledged, with the
    // absolute durable position.
    assert_eq!(
        deliver_chunk(&mut recv, &mut dest, &source[first..threshold]),
        Some(threshold as u64)
    );
    // The final byte is acknowledged however little is outstanding.
    assert_eq!(
        deliver_chunk(&mut recv, &mut dest, &source[threshold..]),
        Some(size as u64)
    );
    assert_eq!(dest, source);
}

#[test]
fn failed_acknowledgement_is_covered_by_the_next_one() {
    let threshold = MAX_BYTES_NOT_ACKNOWLEDGED;
    let size = 3 * threshold;
    let mut recv = RecvSession::begin(size, 0);
    let chunk = vec![7u8; threshold as usize];

    // An acknowledgement is due; its send fails, so the counter is not
    // reset.
    match recv.step(Control::Run, RecvEvent::Data(&chunk)) {
        RecvStep::Persist { ack } => assert_eq!(ack, Some(threshold)),
        _ => panic!("a data chunk must be persisted"),
    }
    assert_eq!(recv.bytes_not_acknowledged, threshold);

    // The next due acknowledgement names the full durable position,
    // covering the lost range.
    match recv.step(Control::Run, RecvEvent::Data(&chunk)) {
        RecvStep::Persist { ack } => assert_eq!(ack, Some(2 * threshold)),
        _ => panic!("a data chunk must be persisted"),
    }
    recv.ack_sent();
    assert_eq!(recv.bytes_not_acknowledged, 0);
}

#[test]
fn receiver_stops_now_without_acknowledgement() {
    let mut recv = RecvSession::begin(100, 0);
    let chunk = [1u8; 10];
    // StopNow wins over whatever the read returned.
    assert!(matches!(
        recv.step(Control::StopNow, RecvEvent::Data(&chunk)),
        RecvStep::Abort
    ));
    assert_eq!(recv.bytes_received, 0);
    // Stop does not abort an in-flight transfer.
    assert!(matches!(
        recv.step(Control::Stop, RecvEvent::Data(&chunk)),
        RecvStep::Persist { ack: None }
    ));
    // A transient read error keeps the loop going.
    assert!(matches!(recv.step(Control::Run, RecvEvent::Failed), RecvStep::Retry));
    // A clean close completes the transfer.
    assert!(matches!(recv.step(Control::Run, RecvEvent::Closed), RecvStep::Complete));
}

#[test]
fn uploader_acknowledgements_never_decrease() {
    let mut up = UploadSession::begin(10_000, None);
    assert!(matches!(up.step(UploadEvent::AckUnavailable), UploadAction::ReadChunk(_)));
    assert!(matches!(up.step(UploadEvent::ChunkRead(1024)), UploadAction::Write { .. }));
    assert!(matches!(up.step(UploadEvent::Wrote(1024)), UploadAction::PollAck));
    // A fresh acknowledgement advances the count.
    up.step(UploadEvent::AckReceived(1000));
    assert_eq!(up.bytes_acknowledged, 1000);
    up.step(UploadEvent::ChunkRead(24));
    up.step(UploadEvent::Wrote(24));
    // A stale, lower acknowledgement is ignored.
    up.step(UploadEvent::AckReceived(300));
    assert_eq!(up.bytes_acknowledged, 1000);
    // A repeated one changes nothing either.
    up.step(UploadEvent::ChunkRead(24));
    up.step(UploadEvent::Wrote(24));
    up.step(UploadEvent::AckReceived(1000));
    assert_eq!(up.bytes_acknowledged, 1000);
}

#[test]
fn uploader_resumes_from_last_acknowledged_byte() {
    let mut up = UploadSession::begin(10_000, Some(2048));
    up.step(UploadEvent::AckUnavailable);
    up.step(UploadEvent::ChunkRead(1024));
    up.step(UploadEvent::Wrote(1024));
    up.step(UploadEvent::AckReceived(1024));
    up.step(UploadEvent::ChunkRead(1024));
    // The write dies mid-chunk: the file rewinds to the acknowledged
    // byte and the reconnect header carries that offset.
    up.step(UploadEvent::Wrote(100));
    let action = up.step(UploadEvent::ConnectionLost);
    assert_eq!(action, UploadAction::Reconnect { resume_offset: 1024 });
    assert_eq!(up.file_pos, 1024);
    assert_eq!(up.phase, UploadPhase::PollAck);
}

#[test]
fn uploader_write_retries_on_would_block() {
    let mut up = UploadSession::begin(100, None);
    up.step(UploadEvent::AckUnavailable);
    up.step(UploadEvent::ChunkRead(100));
    let action = up.step(UploadEvent::WriteBlocked);
    assert_eq!(action, UploadAction::Write { from: 0, to: 100 });
    let action = up.step(UploadEvent::Wrote(40));
    assert_eq!(action, UploadAction::Write { from: 40, to: 100 });
}

#[test]
fn uploader_drains_until_fully_acknowledged() {
    let mut up = UploadSession::begin(100, None);
    up.step(UploadEvent::AckUnavailable);
    up.step(UploadEvent::ChunkRead(100));
    up.step(UploadEvent::Wrote(100));
    up.step(UploadEvent::AckUnavailable);
    // The file is exhausted but only part is acknowledged: drain.
    let action = up.step(UploadEvent::ChunkRead(0));
    assert_eq!(action, UploadAction::PollAck);
    let action = up.step(UploadEvent::AckUnavailable);
    assert_eq!(action, UploadAction::PollAck);
    let action = up.step(UploadEvent::AckReceived(40));
    assert_eq!(action, UploadAction::PollAck);
    assert!(!up.is_complete());
    // The final acknowledgement ends the upload.
    let action = up.step(UploadEvent::AckReceived(100));
    assert_eq!(action, UploadAction::Done);
    assert!(up.is_complete());
    assert_eq!(up.bytes_acknowledged, 100);
}

#[test]
fn buffer_size_is_capped_by_the_rate() {
    assert_eq!(buffer_size(None), 1024);
    assert_eq!(buffer_size(Some(512)), 512);
    assert_eq!(buffer_size(Some(1024 * 1024)), 1024);
    // A zero ceiling means unlimited, not a zero buffer.
    assert_eq!(buffer_size(Some(0)), 1024);
    assert_eq!(buffer_size(Some(1)), 1);
}

/// Drives a whole upload through both session machines, with `breaks`
/// naming the write attempts at which the connection dies and the
/// receiver restarts.  Returns the destination file model.
fn run_coupled_transfer(source: &[u8], rate_limit: Option<u32>, breaks: &[usize]) -> Vec<u8> {
    let size = source.len() as u64;
    let mut up = UploadSession::begin(size, rate_limit);
    let mut recv = RecvSession::begin(size, 0);
    let mut dest: Vec<u8> = Vec::new();
    let mut acks: Vec<u64> = Vec::new();
    let mut action = UploadAction::PollAck;
    let mut steps: usize = 0;
    let mut writes_seen: usize = 0;
    let mut breaks_left = breaks.to_vec();
    loop {
        steps += 1;
        assert!(steps < 1_000_000, "transfer makes no progress");
        action = match action {
            UploadAction::PollAck => {
                if acks.is_empty() {
                    up.step(UploadEvent::AckUnavailable)
                } else {
                    up.step(UploadEvent::AckReceived(acks.remove(0)))
                }
            }
            UploadAction::ReadChunk(n) => {
                let pos = up.file_pos as usize;
                let take = n.min(source.len() - pos);
                up.step(UploadEvent::ChunkRead(take))
            }
            UploadAction::Write { from, to } => {
                writes_seen += 1;
                if breaks_left.first() == Some(&writes_seen) {
                    breaks_left.remove(0);
                    // The peer went away: the wire and its queued
                    // acknowledgements are gone.
                    acks.clear();
                    up.step(UploadEvent::ConnectionLost)
                } else {
                    let chunk_start = up.file_pos as usize - up.chunk_len;
                    let slice = &source[chunk_start + from..chunk_start + to];
                    if let Some(v) = deliver_chunk(&mut recv, &mut dest, slice) {
                        acks.push(v);
                    }
                    up.step(UploadEvent::Wrote(to - from))
                }
            }
            UploadAction::Reconnect { resume_offset } => {
                // A fresh receiver session picks up at the offset the
                // resent header carries; the destination file stays.
                recv = RecvSession::begin(size, resume_offset);
                UploadAction::PollAck
            }
            UploadAction::Done => break,
        };
    }
    assert!(up.is_complete());
    assert!(breaks_left.is_empty(), "not every break was exercised");
    dest
}

#[test]
fn full_transfer_reconstructs_the_source() {
    // A 10 MiB transfer, unlimited rate: the destination is
    // byte-identical to the source, so their checksums agree.
    let source = patterned_source(10 * 1024 * 1024);
    let dest = run_coupled_transfer(&source, None, &[]);
    assert_eq!(dest, source);
}

#[test]
fn aborted_transfer_resumes_and_reconstructs_the_source() {
    // The connection dies twice mid-transfer; the uploader resumes
    // from the last acknowledged byte each time and the destination
    // still matches the source exactly.
    let source = patterned_source(4 * 1024 * 1024 + 333);
    let dest = run_coupled_transfer(&source, None, &[1500, 3000]);
    assert_eq!(dest, source);
}

#[test]
fn tiny_and_empty_transfers_complete() {
    let source = patterned_source(1);
    assert_eq!(run_coupled_transfer(&source, Some(1024), &[]), source);
    assert_eq!(run_coupled_transfer(&[], None, &[]), Vec::<u8>::new());
}
