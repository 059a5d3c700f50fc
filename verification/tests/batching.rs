use ainoio_agent::{can_send_batch, create_batch_request, AinoConfig, Status, Transaction};
use std::collections::VecDeque;
use std::iter::repeat_with;
use std::time::SystemTime;

const MAX_BATCH_SIZE: usize = 500;

fn create_config(send_interval: u32) -> AinoConfig {
    AinoConfig {
        send_interval,
        url: "".to_string(),
        api_key: "".to_string(),
    }
}

fn create_trx() -> Transaction {
    let timestamp = SystemTime::now()
        .duration_since(SystemTime::UNIX_EPOCH)
        .unwrap();
    Transaction::new(
        "from".to_string(),
        "to".to_string(),
        "operation".to_string(),
        Status::Success,
        timestamp.as_millis(),
        "flow_id".to_string(),
        "integration_segment".to_string(),
    )
}

#[test]
fn test_can_send_batch_empty_buffer() {
    let config = create_config(10);
    let buffer: VecDeque<Transaction> = VecDeque::new();
    assert_eq!(can_send_batch(0, &config, buffer.len()), false);
}

#[test]
fn test_can_send_batch_full_buffer() {
    let config = create_config(10);
    let buffer: VecDeque<Transaction> = repeat_with(create_trx).take(MAX_BATCH_SIZE + 1).collect();
    assert_eq!(can_send_batch(0, &config, buffer.len()), true);
}

#[test]
fn test_can_send_batch_timer() {
    let config = create_config(10);
    let buffer: VecDeque<Transaction> = repeat_with(create_trx).take(MAX_BATCH_SIZE - 1).collect();
    assert_eq!(can_send_batch(11, &config, buffer.len()), true);
}

#[test]
fn test_can_send_batch_timer_with_empty_buffer() {
    let config = create_config(10);
    let buffer: VecDeque<Transaction> = VecDeque::new();
    assert_eq!(can_send_batch(11, &config, buffer.len()), false);
}

#[test]
fn test_can_send_batch_at_interval_boundary() {
    let config = create_config(10);
    assert_eq!(can_send_batch(10, &config, 1), true);
    assert_eq!(can_send_batch(9, &config, 1), false);
}

#[test]
fn test_can_send_batch_exactly_max() {
    // A buffer holding exactly the cap is not "outgrown": the timer decides.
    let config = create_config(10);
    assert_eq!(can_send_batch(0, &config, MAX_BATCH_SIZE), false);
    assert_eq!(can_send_batch(10, &config, MAX_BATCH_SIZE), true);
}

#[test]
fn test_create_batch_with_zero_transactions() {
    let mut buffer: VecDeque<Transaction> = VecDeque::new();
    assert_eq!(create_batch_request(&mut buffer).transactions.len(), 0);
}

#[test]
fn test_create_batch_with_less_than_max_transactions() {
    let mut buffer: VecDeque<Transaction> = repeat_with(create_trx)
        .take(MAX_BATCH_SIZE - 1)
        .collect();
    assert_eq!(
        create_batch_request(&mut buffer).transactions.len(),
        MAX_BATCH_SIZE - 1
    );
    assert_eq!(buffer.len(), 0);
}

#[test]
fn test_create_batch_with_more_than_max_transactions() {
    let mut buffer: VecDeque<Transaction> = repeat_with(create_trx)
        .take(MAX_BATCH_SIZE + 1)
        .collect();
    assert_eq!(
        create_batch_request(&mut buffer).transactions.len(),
        MAX_BATCH_SIZE
    );
    assert_eq!(buffer.len(), 1);
}

#[test]
fn test_create_batch_preserves_order() {
    let mut buffer: VecDeque<Transaction> = VecDeque::new();
    for i in 0..3u128 {
        let mut t = create_trx();
        t.timestamp = i;
        buffer.push_back(t);
    }
    let batch = create_batch_request(&mut buffer);
    assert_eq!(batch.transactions.len(), 3);
    for (i, t) in batch.transactions.iter().enumerate() {
        assert_eq!(t.timestamp, i as u128);
    }
}

#[test]
fn test_repeated_batches_are_exhaustive_and_ordered() {
    // Slicing batches until the buffer is empty yields the original
    // sequence back, in order, with every batch within the cap.
    let total = 2 * MAX_BATCH_SIZE + 1;
    let mut buffer: VecDeque<Transaction> = VecDeque::new();
    for i in 0..total {
        let mut t = create_trx();
        t.timestamp = i as u128;
        buffer.push_back(t);
    }
    let mut seen: Vec<u128> = Vec::new();
    let mut sizes: Vec<usize> = Vec::new();
    while !buffer.is_empty() {
        let batch = create_batch_request(&mut buffer);
        assert!(batch.transactions.len() <= MAX_BATCH_SIZE);
        assert!(!batch.transactions.is_empty());
        sizes.push(batch.transactions.len());
        for t in &batch.transactions {
            seen.push(t.timestamp);
        }
    }
    assert_eq!(sizes, vec![500, 500, 1]);
    assert_eq!(seen.len(), total);
    for (i, stamp) in seen.iter().enumerate() {
        assert_eq!(*stamp, i as u128);
    }
}

#[test]
fn test_create_batch_on_empty_buffer_is_a_no_op() {
    let mut buffer: VecDeque<Transaction> = VecDeque::new();
    let batch = create_batch_request(&mut buffer);
    assert!(batch.transactions.is_empty());
    assert!(buffer.is_empty());
}
