use devbridge::transfer::{
    run_push, ADBDevicePushTransfer, InnerRead, ProgressReader, ReadStep, TransferError,
    TransferEvent,
};

const MIB: usize = 1024 * 1024;

fn chunks_then_eof(count: usize, len: usize) -> Vec<InnerRead> {
    let mut reads: Vec<InnerRead> = (0..count).map(|_| InnerRead::Chunk { len }).collect();
    reads.push(InnerRead::Eof);
    reads
}

fn progress_values(events: &[TransferEvent]) -> Vec<usize> {
    events
        .iter()
        .filter_map(|e| match e {
            TransferEvent::Progress { read_size, .. } => Some(*read_size),
            _ => None,
        })
        .collect()
}

#[test]
fn ten_mib_push_reports_every_mib_then_completes() {
    let events = run_push(10 * MIB, chunks_then_eof(10, MIB), None);
    assert_eq!(events.len(), 11);
    let progress = progress_values(&events);
    let expected: Vec<usize> = (1..=10).map(|i| i * MIB).collect();
    assert_eq!(progress, expected);
    assert!(matches!(events[10], TransferEvent::Completed));
}

#[test]
fn successful_push_progress_is_nondecreasing_and_ends_at_total() {
    let reads = vec![
        InnerRead::Chunk { len: 100 },
        InnerRead::Chunk { len: 1 },
        InnerRead::Chunk { len: 899 },
        InnerRead::Eof,
    ];
    let events = run_push(1000, reads, None);
    let progress = progress_values(&events);
    assert_eq!(progress, vec![100, 101, 1000]);
    assert!(progress.windows(2).all(|w| w[0] <= w[1]));
    assert_eq!(*progress.last().unwrap(), 1000);
    assert!(matches!(events.last().unwrap(), TransferEvent::Completed));
}

#[test]
fn cancel_before_any_read_errors_and_never_completes() {
    let events = run_push(10 * MIB, chunks_then_eof(10, MIB), Some(0));
    assert_eq!(events.len(), 1);
    assert!(matches!(
        events[0],
        TransferEvent::Error {
            cause: TransferError::Cancelled
        }
    ));
}

#[test]
fn cancel_after_third_chunk_stops_progress_at_three() {
    let events = run_push(10 * MIB, chunks_then_eof(10, MIB), Some(3));
    let progress = progress_values(&events);
    assert_eq!(progress, vec![MIB, 2 * MIB, 3 * MIB]);
    assert!(matches!(
        events.last().unwrap(),
        TransferEvent::Error {
            cause: TransferError::Cancelled
        }
    ));
    assert!(!events
        .iter()
        .any(|e| matches!(e, TransferEvent::Completed)));
}

#[test]
fn failed_read_surfaces_its_message() {
    let reads = vec![
        InnerRead::Chunk { len: 5 },
        InnerRead::Failed {
            message: "device detached".to_string(),
        },
    ];
    let events = run_push(100, reads, None);
    assert_eq!(events.len(), 2);
    match &events[1] {
        TransferEvent::Error {
            cause: TransferError::Protocol { message },
        } => assert_eq!(message, "device detached"),
        other => panic!("expected a protocol error, got {:?}", other),
    }
}

#[test]
fn progress_reader_counts_chunks() {
    let mut reader = ProgressReader::new(30);
    let step = reader.read(false, &InnerRead::Chunk { len: 10 });
    assert!(matches!(
        step,
        ReadStep::Progress {
            read_size: 10,
            total_size: 30
        }
    ));
    let step = reader.read(false, &InnerRead::Chunk { len: 20 });
    assert!(matches!(
        step,
        ReadStep::Progress {
            read_size: 30,
            total_size: 30
        }
    ));
    let step = reader.read(false, &InnerRead::Eof);
    assert!(matches!(step, ReadStep::Finished));
}

#[test]
fn progress_reader_honors_the_flag_before_reading() {
    let mut reader = ProgressReader::new(30);
    let step = reader.read(true, &InnerRead::Chunk { len: 10 });
    assert!(matches!(step, ReadStep::Cancelled));
    assert_eq!(reader.read_size, 0);
}

#[test]
fn zero_length_read_finishes() {
    let mut reader = ProgressReader::new(5);
    let step = reader.read(false, &InnerRead::Chunk { len: 0 });
    assert!(matches!(step, ReadStep::Finished));
}

#[test]
fn cancellation_flag_is_monotonic() {
    let mut transfer = ADBDevicePushTransfer::new();
    assert!(!transfer.is_cancelled());
    transfer.cancel();
    assert!(transfer.is_cancelled());
    transfer.cancel();
    assert!(transfer.is_cancelled());
}
